use luoli::ai_config::{AiConfigManager, AiProvider};
use luoli::cli::{
    apply_ai_command, apply_config_action, mode_for, parse_mode, parse_provider_type,
    provider_debug_text, shell_action, AiCommand, ConfigAction, ShellAction,
};
use luoli::config::SecurityConfig;
use luoli::security::{ExecutionMode, SecurityManager};
use luoli::tui::{
    centred_shares, history_colour, log_line, Colour, Key, KeyInput, KeyOutcome, LogEntry,
    LogStatus, TuiApp,
};

fn press(key: Key) -> KeyInput {
    KeyInput { key, control: false, press: true }
}

fn type_line(app: &mut TuiApp, s: &str) {
    for c in s.chars() {
        assert_eq!(app.handle_key(press(Key::Char(c))), KeyOutcome::Continue);
    }
}

#[test]
fn fresh_terminal() {
    let app = TuiApp::new();
    assert_eq!(app.terminal_history.len(), 4);
    assert_eq!(app.terminal_history[1].1, "当前模式: 普通模式");
    assert_eq!(app.logs.len(), 3);
    assert_eq!(app.logs[2].status, LogStatus::Blocked);
    assert_eq!(app.mode, "普通模式");
    assert_eq!(app.current_tab, 0);
    assert_eq!(app.input_text(), "luoli> ");
}

#[test]
fn running_typed_commands() {
    let mut app = TuiApp::new();
    app.input = "ls".to_string();
    app.execute_command();
    assert_eq!(app.input, "");
    let n = app.terminal_history.len();
    assert_eq!(n, 7);
    assert_eq!(app.terminal_history[4], ("command".to_string(), "luoli> ls".to_string()));
    assert_eq!(app.terminal_history[5], ("success".to_string(), "执行: ls".to_string()));
    assert_eq!(app.terminal_history[6], ("output".to_string(), "命令执行成功".to_string()));
    assert_eq!(app.scroll, 0);

    app.input = "help".to_string();
    app.execute_command();
    assert_eq!(app.terminal_history.len(), 13);
    assert_eq!(app.scroll, 3);
    assert_eq!(app.terminal_history[12].1, "  exit  - 退出");

    app.input = "mode".to_string();
    app.execute_command();
    assert_eq!(app.terminal_history.last().map(|l| l.1.clone()).unwrap_or_default(), "当前模式: 普通模式");

    app.input = "clear".to_string();
    app.execute_command();
    assert!(app.terminal_history.is_empty());
    assert_eq!(app.scroll, 0);

    let before = app.terminal_history.len();
    app.execute_command();
    assert_eq!(app.terminal_history.len(), before);
}

#[test]
fn toggling_the_mode() {
    let mut app = TuiApp::new();
    app.toggle_mode();
    assert_eq!(app.mode, "严格模式");
    assert_eq!(app.mode_colour(), Colour::Red);
    assert_eq!(app.terminal_history.last().map(|l| l.0.clone()).unwrap_or_default(), "warning");
    app.toggle_mode();
    assert_eq!(app.mode, "普通模式");
    assert_eq!(app.mode_colour(), Colour::Green);
    assert_eq!(
        app.terminal_history.last().map(|l| l.1.clone()).unwrap_or_default(),
        "系统: 已切换到普通模式"
    );
    assert_eq!(
        app.status_text(),
        " 模式: 普通模式 | 按 'm' 切换 | 按 'q' 退出 | 按 'n' 新建终端 | Tab 切换面板 "
    );
}

#[test]
fn keys() {
    let mut app = TuiApp::new();
    let release = KeyInput { key: Key::Char('q'), control: false, press: false };
    assert_eq!(app.handle_key(release), KeyOutcome::Continue);
    assert_eq!(app.handle_key(press(Key::Tab)), KeyOutcome::Continue);
    assert_eq!(app.current_tab, 1);
    app.handle_key(press(Key::BackTab));
    app.handle_key(press(Key::BackTab));
    assert_eq!(app.current_tab, 4);
    app.handle_key(press(Key::Char('3')));
    assert_eq!(app.current_tab, 2);
    app.handle_key(press(Key::Char('m')));
    assert_eq!(app.mode, "严格模式");

    type_line(&mut app, "pwd");
    assert_eq!(app.input, "pwd");
    app.handle_key(press(Key::Backspace));
    assert_eq!(app.input, "pw");
    app.handle_key(press(Key::Enter));
    assert_eq!(app.input, "");
    assert_eq!(app.terminal_history[app.terminal_history.len() - 2].1, "执行: pw");

    app.handle_key(press(Key::Char('n')));
    assert!(app.show_new_tab);
    type_line(&mut app, "ab");
    assert_eq!(app.new_tab_name, "ab");
    assert_eq!(app.input, "");
    assert_eq!(app.handle_key(press(Key::Char('q'))), KeyOutcome::Continue);
    assert!(!app.show_new_tab);
    app.handle_key(press(Key::Char('n')));
    app.handle_key(press(Key::Enter));
    assert!(!app.show_new_tab);
    assert_eq!(app.new_tab_name, "");

    app.scroll = 0;
    app.handle_key(press(Key::Up));
    assert_eq!(app.scroll, 0);
    app.handle_key(press(Key::Down));
    assert_eq!(app.scroll, 1);

    let ctrl_c = KeyInput { key: Key::Char('c'), control: true, press: true };
    assert_eq!(app.handle_key(ctrl_c), KeyOutcome::Quit);
    assert_eq!(app.handle_key(press(Key::Char('q'))), KeyOutcome::Quit);
}

#[test]
fn colours_and_lines() {
    assert_eq!(history_colour("command"), Colour::Yellow);
    assert_eq!(history_colour("error"), Colour::Red);
    assert_eq!(history_colour("info"), Colour::Cyan);
    assert_eq!(history_colour("other"), Colour::White);
    let entry = LogEntry {
        timestamp: "10:00:00".to_string(),
        command: "ls".to_string(),
        status: LogStatus::Error,
    };
    assert_eq!(log_line(&entry), ("10:00:00 ✗ ls".to_string(), Colour::Red));
    assert_eq!(centred_shares(60), (20, 60, 20));
    assert_eq!(centred_shares(100), (0, 100, 0));
}

#[test]
fn mode_and_provider_names() {
    assert_eq!(parse_mode("STRICT").unwrap_or_else(|_| panic!("ok")), ExecutionMode::Strict);
    assert_eq!(parse_mode("普通").unwrap_or_else(|_| panic!("ok")), ExecutionMode::Normal);
    match parse_mode("loose") {
        Err(e) => assert_eq!(e.message(), "未知模式: loose. 请使用 'strict' 或 'normal'"),
        Ok(_) => panic!("unknown"),
    }
    assert!(mode_for("strict", "Strict").is_ok());
    assert_eq!(parse_provider_type("DeepSeek").unwrap_or_else(|_| panic!("ok")), AiProvider::DeepSeek);
    assert_eq!(parse_provider_type("custom").unwrap_or_else(|_| panic!("ok")), AiProvider::Custom);
    assert!(parse_provider_type("gemini").is_err());
    assert_eq!(provider_debug_text(AiProvider::ChatGpt), "ChatGpt");
}

#[test]
fn shell_lines() {
    assert!(matches!(shell_action("   "), ShellAction::Skip));
    assert!(matches!(shell_action(" exit "), ShellAction::Exit));
    assert!(matches!(shell_action("quit"), ShellAction::Exit));
    assert!(matches!(shell_action("help"), ShellAction::Help));
    assert!(matches!(shell_action("mode\n"), ShellAction::ShowMode));
    match shell_action("  ls -la  ") {
        ShellAction::Run(line) => assert_eq!(line, "ls -la"),
        _ => panic!("run"),
    }
}

fn security() -> SecurityManager {
    let config = SecurityConfig {
        default_mode: "normal".to_string(),
        command_allowlist: vec![],
        command_denylist: vec![],
        tool_allowlist: vec![],
        tool_denylist: vec![],
        api_allowlist: vec![],
        api_denylist: vec![],
        max_command_length: 4096,
        forbidden_patterns: vec![],
    };
    match SecurityManager::new(config) {
        Ok(m) => m,
        Err(_) => panic!("a manager is always made"),
    }
}

#[test]
fn config_commands() {
    let mut sec = security();
    let lines = apply_config_action(&mut sec, ConfigAction::AllowCommand { pattern: "^make".to_string() })
        .unwrap_or_else(|_| panic!("ok"));
    assert_eq!(lines, vec!["已添加命令白名单: ^make"]);
    assert_eq!(sec.allow_rule_count(), 1);
    assert!(apply_config_action(&mut sec, ConfigAction::DenyCommand { pattern: "(".to_string() }).is_err());
    assert_eq!(sec.deny_rule_count(), 0);
    let lines = apply_config_action(&mut sec, ConfigAction::DenyTool { name: "t".to_string() })
        .unwrap_or_else(|_| panic!("ok"));
    assert_eq!(lines, vec!["已添加工具黑名单: t"]);
    assert!(sec.check_tool("t").is_err());
    let lines = apply_config_action(&mut sec, ConfigAction::SetMode { mode: "strict".to_string() })
        .unwrap_or_else(|_| panic!("ok"));
    assert_eq!(lines, vec!["已切换到 Strict 模式"]);
    assert_eq!(sec.mode(), ExecutionMode::Strict);
    assert!(apply_config_action(&mut sec, ConfigAction::SetMode { mode: "x".to_string() }).is_err());
    assert_eq!(sec.mode(), ExecutionMode::Strict);
    let listing = apply_config_action(&mut sec, ConfigAction::List).unwrap_or_else(|_| panic!("ok"));
    assert!(listing.iter().any(|l| l.contains("^make")));
}

#[test]
fn ai_commands() {
    let mut m = AiConfigManager::new();
    let report = apply_ai_command(&mut m, AiCommand::List).unwrap_or_else(|_| panic!("ok"));
    assert!(!report.save);
    assert_eq!(report.lines[0], "⚠️  未配置任何 AI Provider");

    let add = AiCommand::Add {
        name: "local".to_string(),
        provider: "Ollama".to_string(),
        api_key: String::new(),
        endpoint: None,
        model: None,
    };
    let report = apply_ai_command(&mut m, add).unwrap_or_else(|_| panic!("ok"));
    assert!(report.save);
    assert_eq!(report.lines[0], "✅ 已添加 AI Provider: local");
    assert_eq!(report.lines[1], "   类型: Ollama");
    assert!(m.get_provider("local").is_some());

    let bad = AiCommand::Add {
        name: "x".to_string(),
        provider: "gemini".to_string(),
        api_key: String::new(),
        endpoint: None,
        model: None,
    };
    assert!(apply_ai_command(&mut m, bad).is_err());
    let custom = AiCommand::Add {
        name: "c".to_string(),
        provider: "custom".to_string(),
        api_key: String::new(),
        endpoint: Some(String::new()),
        model: None,
    };
    assert!(apply_ai_command(&mut m, custom).is_err());
    assert!(m.get_provider("c").is_none());

    let report = apply_ai_command(&mut m, AiCommand::Use { name: "nope".to_string() })
        .unwrap_or_else(|_| panic!("ok"));
    assert!(!report.save);
    assert!(report.lines[0].starts_with("❌ 切换失败: "));
    let report = apply_ai_command(&mut m, AiCommand::Use { name: "local".to_string() })
        .unwrap_or_else(|_| panic!("ok"));
    assert!(report.save);
    assert_eq!(report.lines, vec!["✅ 已切换到 Provider: local"]);

    let report = apply_ai_command(
        &mut m,
        AiCommand::SetModel { name: "local".to_string(), model: "qwen".to_string() },
    )
    .unwrap_or_else(|_| panic!("ok"));
    assert_eq!(report.lines, vec!["✅ 已为 local 设置默认模型: qwen"]);
    let list = apply_ai_command(&mut m, AiCommand::List).unwrap_or_else(|_| panic!("ok"));
    assert_eq!(list.lines[1], "🟢  local");
    assert!(list.lines.iter().any(|l| l == "   默认模型: qwen"));

    let report = apply_ai_command(&mut m, AiCommand::Remove { name: "local".to_string() })
        .unwrap_or_else(|_| panic!("ok"));
    assert_eq!(report.lines, vec!["✅ 已删除 AI Provider: local"]);
    assert!(apply_ai_command(&mut m, AiCommand::Remove { name: "local".to_string() }).is_err());
}
