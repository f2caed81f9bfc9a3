use luoli::config::{join_path, to_strings, AppConfig};
use luoli::text::{concat3, split_and_trim, split_whitespace, str_contains, str_eq, trim};

#[test]
fn default_settings() {
    let c = AppConfig::default_for_home("/home/ann");
    assert_eq!(c.security.default_mode, "normal");
    assert_eq!(c.security.command_allowlist.len(), 16);
    assert_eq!(c.security.command_allowlist[0], "^ls$");
    assert_eq!(c.security.command_denylist[4], ":\\(\\)\\{ :\\|:& \\};:");
    assert_eq!(c.security.tool_allowlist, vec!["file_read", "file_write", "shell_execute", "web_search"]);
    assert_eq!(c.security.api_allowlist, vec!["https://api.github.com"]);
    assert_eq!(c.security.max_command_length, 4096);
    assert_eq!(c.security.forbidden_patterns, vec!["password", "secret", "token", "api_key"]);
    assert_eq!(c.monitor.log_file, "/home/ann/.luoli/logs/activity.log");
    assert_eq!(c.monitor.max_log_size, 10 * 1024 * 1024);
    assert_eq!(c.monitor.log_rotation, 5);
    assert!(c.monitor.capture_output && !c.monitor.capture_env);
    assert_eq!(c.mcp.tools.len(), 2);
    assert_eq!(c.mcp.tools[1].name, "shell");
    assert!(c.api.endpoints.is_empty());
}

#[test]
fn paths() {
    assert_eq!(join_path("/a", "b"), "/a/b");
    assert_eq!(join_path("/a/", "b"), "/a/b");
    assert_eq!(join_path("", "b"), "b");
    assert_eq!(to_strings(&["x", "y"]), vec!["x", "y"]);
}

#[test]
fn words_and_trimming() {
    assert_eq!(split_whitespace("  a \t bc\nd  "), vec!["a", "bc", "d"]);
    assert!(split_whitespace(" \n ").is_empty());
    assert_eq!(trim("\t hi there \n"), "hi there");
    assert_eq!(trim("   "), "");
    assert_eq!(split_and_trim(" a | b|c ", '|'), vec!["a", "b", "c"]);
    assert_eq!(split_and_trim("||", '|'), vec!["", "", ""]);
}

#[test]
fn searching_and_joining() {
    assert!(str_contains("echo password", "pass"));
    assert!(str_contains("abc", ""));
    assert!(!str_contains("ab", "abc"));
    assert!(str_eq("严格", "严格"));
    assert!(!str_eq("a", "b"));
    assert_eq!(concat3("a", "-", "b"), "a-b");
}

#[test]
fn default_rules_refuse_the_fork_bomb() {
    let c = AppConfig::default_for_home("/home/ann");
    let m = match luoli::security::SecurityManager::new(c.security) {
        Ok(m) => m,
        Err(_) => panic!("a manager is always made"),
    };
    assert_eq!(m.deny_rule_count(), 5);
    match m.check_command(":(){ :|:& };:") {
        Err(e) => assert_eq!(e.message(), "命令匹配黑名单规则: ':\\(\\)\\{ :\\|:& \\};:'"),
        Ok(()) => panic!("the fork bomb is refused"),
    }
    assert!(m.check_command("echo hi").is_ok());
}

#[test]
fn whitespace_matches_std() {
    for u in 0u32..0x110000 {
        if let Some(c) = char::from_u32(u) {
            assert_eq!(luoli::text::is_whitespace_char(c), c.is_whitespace(), "U+{:04X}", u);
        }
    }
}

#[test]
fn chinese_mode_names() {
    assert_eq!(
        luoli::cli::parse_mode("普通").unwrap_or_else(|_| panic!("ok")),
        luoli::security::ExecutionMode::Normal
    );
    assert_eq!(
        luoli::cli::parse_mode("严格").unwrap_or_else(|_| panic!("ok")),
        luoli::security::ExecutionMode::Strict
    );
    assert!(luoli::cli::parse_mode("fast").is_err());
}
