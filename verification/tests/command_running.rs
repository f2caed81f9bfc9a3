use luoli::config::SecurityConfig;
use luoli::executor::{CommandExecutor, ExecError, ExecutionStart, RunOutcome, StageInput};
use luoli::monitor::{ActivityStatus, ActivityType};
use luoli::security::{ExecutionMode, SecurityManager};

fn security_config() -> SecurityConfig {
    SecurityConfig {
        default_mode: "normal".to_string(),
        command_allowlist: vec!["^echo\\s+".to_string(), "^ls".to_string()],
        command_denylist: vec!["rm\\s+-rf\\s+/".to_string()],
        tool_allowlist: vec![],
        tool_denylist: vec![],
        api_allowlist: vec![],
        api_denylist: vec![],
        max_command_length: 4096,
        forbidden_patterns: vec![],
    }
}

fn security() -> SecurityManager {
    match SecurityManager::new(security_config()) {
        Ok(m) => m,
        Err(_) => panic!("a manager is always made"),
    }
}

#[test]
fn test_parse_command() {
    let (cmd, args) = CommandExecutor::parse_command("ls -la /tmp");
    assert_eq!(cmd, "ls");
    assert_eq!(args, vec!["-la", "/tmp"]);
}

#[test]
fn parse_blank_and_spaced_lines() {
    let (cmd, args) = CommandExecutor::parse_command("   ");
    assert_eq!(cmd, "");
    assert!(args.is_empty());
    let (cmd, args) = CommandExecutor::parse_command("  echo\t a   b ");
    assert_eq!(cmd, "echo");
    assert_eq!(args, vec!["a", "b"]);
}

#[test]
fn execute_echo_decisions() {
    let sec = security();
    match CommandExecutor::begin(&sec, "echo hello", "/tmp", 0) {
        ExecutionStart::Run { command, args, record } => {
            assert_eq!(command, "echo");
            assert_eq!(args, vec!["hello"]);
            assert_eq!(record.activity_type, ActivityType::CommandExecution);
            assert!(matches!(record.status, ActivityStatus::Pending));
            assert_eq!(record.working_dir, "/tmp");
            let outcome = RunOutcome::Exited {
                success: true,
                stdout: "hello\n".to_string(),
                stderr: String::new(),
                code: Some(0),
            };
            let result = CommandExecutor::run_result("echo", outcome);
            let (record, result) = CommandExecutor::finish(record, result, 5);
            let out = result.unwrap_or_else(|_| panic!("success"));
            assert!(out.contains("hello"));
            assert!(matches!(record.status, ActivityStatus::Success));
            assert_eq!(record.output.as_deref(), Some("hello\n"));
            assert_eq!(record.duration_ms, Some(5));
        }
        _ => panic!("echo is allowed"),
    }
}

#[test]
fn refused_command_is_logged_as_violation() {
    let sec = security();
    match CommandExecutor::begin(&sec, "rm -rf /", "/home", 3) {
        ExecutionStart::Refused { record, error } => {
            let text = error.message();
            assert_eq!(text, "命令匹配黑名单规则: 'rm\\s+-rf\\s+/'");
            let record = record.unwrap_or_else(|| panic!("the clock and the random source work here"));
            assert_eq!(record.activity_type, ActivityType::SecurityViolation);
            assert_eq!(record.command, "rm");
            assert_eq!(record.args, vec!["-rf", "/"]);
            assert_eq!(record.duration_ms, Some(3));
            match record.status {
                ActivityStatus::Blocked(m) => assert_eq!(m, text),
                _ => panic!("blocked"),
            }
        }
        _ => panic!("refused"),
    }
}

#[test]
fn strict_mode_refuses_unlisted_commands() {
    let mut sec = security();
    sec.set_mode(ExecutionMode::Strict);
    assert!(matches!(
        CommandExecutor::begin(&sec, "whoami", "/", 0),
        ExecutionStart::Refused { .. }
    ));
    assert!(matches!(
        CommandExecutor::begin(&sec, "echo hi", "/", 0),
        ExecutionStart::Run { .. }
    ));
}

#[test]
fn run_results() {
    assert!(matches!(
        CommandExecutor::run_result("nope", RunOutcome::SpawnFailed),
        Err(ExecError::SpawnFailed { ref command }) if command == "nope"
    ));
    let failed = CommandExecutor::run_result(
        "ls",
        RunOutcome::Exited {
            success: false,
            stdout: String::new(),
            stderr: "no such file".to_string(),
            code: Some(2),
        },
    );
    match failed {
        Err(e) => assert_eq!(e.message(), "命令执行失败: no such file"),
        Ok(_) => panic!("failed"),
    }
    let silent = CommandExecutor::run_result(
        "false",
        RunOutcome::Exited { success: false, stdout: String::new(), stderr: String::new(), code: Some(1) },
    );
    match silent {
        Err(e) => assert_eq!(e.message(), "命令执行失败: 命令退出码: 1"),
        Ok(_) => panic!("failed"),
    }
    let killed = CommandExecutor::run_result(
        "sleep",
        RunOutcome::Exited { success: false, stdout: String::new(), stderr: String::new(), code: None },
    );
    match killed {
        Err(e) => assert_eq!(e.message(), "命令执行失败: 命令退出码: -1"),
        Ok(_) => panic!("failed"),
    }
    let io = CommandExecutor::run_result("x", RunOutcome::IoFailed { detail: "broken pipe".to_string() });
    match io {
        Err(e) => assert_eq!(e.message(), "broken pipe"),
        Ok(_) => panic!("failed"),
    }
}

#[test]
fn failed_run_marks_the_record() {
    let sec = security();
    if let ExecutionStart::Run { record, .. } = CommandExecutor::begin(&sec, "ls /missing", "/", 0) {
        let result = Err(ExecError::CommandFailed { detail: "gone".to_string() });
        let (record, result) = CommandExecutor::finish(record, result, 9);
        assert!(result.is_err());
        match record.status {
            ActivityStatus::Failed(m) => assert_eq!(m, "命令执行失败: gone"),
            _ => panic!("failed"),
        }
        assert!(record.output.is_none());
    } else {
        panic!("ls is allowed");
    }
}

#[test]
fn error_messages() {
    assert_eq!(ExecError::Timeout { secs: 30 }.message(), "命令执行超时 (30秒)");
    assert_eq!(ExecError::EmptyPipeline.message(), "空管道命令");
    assert_eq!(
        ExecError::PipelineStageFailed { command: "grep".to_string() }.message(),
        "管道命令 'grep' 执行失败"
    );
    assert_eq!(
        ExecError::BackgroundSpawnFailed { command: "x".to_string() }.message(),
        "无法启动后台命令: x"
    );
    assert_eq!(ExecError::SpawnFailed { command: "y".to_string() }.message(), "无法启动命令: y");
    assert_eq!(ExecError::RecordUnavailable.message(), "无法创建活动记录: 系统时钟或随机源不可用");
}

#[test]
fn pipelines() {
    let stages = CommandExecutor::pipeline_stages(" ls -la | grep x |wc -l ");
    assert_eq!(stages, vec!["ls -la", "grep x", "wc -l"]);
    assert_eq!(CommandExecutor::pipeline_stages(""), vec![""]);
    let sec = security();
    let first = CommandExecutor::pipeline_stage(&sec, "ls -la", 0).unwrap_or_else(|_| panic!("ok"));
    assert_eq!(first.command, "ls");
    assert_eq!(first.input, StageInput::Inherited);
    let second = CommandExecutor::pipeline_stage(&sec, "echo x", 1).unwrap_or_else(|_| panic!("ok"));
    assert_eq!(second.input, StageInput::PreviousOutput);
    let third = CommandExecutor::pipeline_stage(&sec, "echo y", 2).unwrap_or_else(|_| panic!("ok"));
    assert_eq!(third.input, StageInput::PreviousOutput);
    assert!(CommandExecutor::pipeline_stage(&sec, "rm -rf /", 1).is_err());
    assert!(CommandExecutor::pipeline_stage_result("ls", true).is_ok());
    match CommandExecutor::pipeline_stage_result("grep", false) {
        Err(e) => assert_eq!(e.message(), "管道命令 'grep' 执行失败"),
        Ok(_) => panic!("failed"),
    }
}

#[test]
fn background_commands() {
    let sec = security();
    let (cmd, args) = CommandExecutor::begin_background(&sec, "echo a b").unwrap_or_else(|_| panic!("ok"));
    assert_eq!(cmd, "echo");
    assert_eq!(args, vec!["a", "b"]);
    assert!(CommandExecutor::begin_background(&sec, "rm -rf /").is_err());
    let r = CommandExecutor::background_record(cmd, args, 4242, "/srv")
        .unwrap_or_else(|| panic!("the clock and the random source work here"));
    assert_eq!(r.metadata, "{\"background\":true,\"pid\":4242}");
    assert!(matches!(r.status, ActivityStatus::Success));
    assert_eq!(r.working_dir, "/srv");
    assert_eq!(r.activity_type, ActivityType::CommandExecution);
}
