use luoli::config::SecurityConfig;
use luoli::security::{ExecutionMode, SecurityError, SecurityManager};

fn create_test_config() -> SecurityConfig {
    SecurityConfig {
        default_mode: "normal".to_string(),
        command_allowlist: vec!["^ls\\s*".to_string(), "^cat\\s+".to_string()],
        command_denylist: vec!["rm\\s+-rf\\s+/".to_string()],
        tool_allowlist: vec!["file_read".to_string()],
        tool_denylist: vec!["dangerous_tool".to_string()],
        api_allowlist: vec!["https://api.github.com".to_string()],
        api_denylist: vec![],
        max_command_length: 4096,
        forbidden_patterns: vec!["password".to_string()],
    }
}

#[test]
fn test_check_command_normal_mode() {
    let config = create_test_config();
    let manager = SecurityManager::new(config).unwrap_or_else(|_| panic!("manager"));

    assert!(manager.check_command("ls -la").is_ok());
    assert!(manager.check_command("rm -rf /").is_err());
    assert!(manager.check_command("echo password").is_err());
}

#[test]
fn test_check_command_strict_mode() {
    let config = create_test_config();
    let mut manager = SecurityManager::new(config).unwrap_or_else(|_| panic!("manager"));
    manager.set_mode(ExecutionMode::Strict);

    assert!(manager.check_command("ls -la").is_ok());
    assert!(manager.check_command("cat file.txt").is_ok());
    assert!(manager.check_command("echo hello").is_err());
}

fn manager() -> SecurityManager {
    match SecurityManager::new(create_test_config()) {
        Ok(m) => m,
        Err(_) => panic!("a manager is always made"),
    }
}

#[test]
fn default_mode_reads_strict() {
    let mut c = create_test_config();
    c.default_mode = "strict".to_string();
    let m = SecurityManager::new(c).unwrap_or_else(|_| panic!("manager"));
    assert_eq!(m.mode(), ExecutionMode::Strict);
    let mut c = create_test_config();
    c.default_mode = "STRICT".to_string();
    let m = SecurityManager::new(c).unwrap_or_else(|_| panic!("manager"));
    assert_eq!(m.mode(), ExecutionMode::Normal);
}

#[test]
fn invalid_rules_in_config_are_skipped() {
    let mut c = create_test_config();
    c.command_denylist.push("(unclosed".to_string());
    let m = SecurityManager::new(c).unwrap_or_else(|_| panic!("manager"));
    assert_eq!(m.deny_rule_count(), 1);
    assert_eq!(m.allow_rule_count(), 2);
}

#[test]
fn refusals_name_the_rule() {
    let m = manager();
    match m.check_command("rm -rf /home") {
        Err(SecurityError::CommandDenied { rule }) => assert_eq!(rule, "rm\\s+-rf\\s+/"),
        _ => panic!("expected a deny rule"),
    }
    match m.check_command("echo PassWord") {
        Err(SecurityError::ForbiddenPattern { pattern }) => assert_eq!(pattern, "password"),
        _ => panic!("expected a forbidden word"),
    }
    match m.check_command("rm -rf / password") {
        Err(SecurityError::ForbiddenPattern { .. }) => {}
        _ => panic!("forbidden words are checked before deny rules"),
    }
}

#[test]
fn command_length_counts_bytes() {
    let mut c = create_test_config();
    c.max_command_length = 6;
    let m = SecurityManager::new(c).unwrap_or_else(|_| panic!("manager"));
    assert!(m.check_command("ls -la").is_ok());
    match m.check_command("ls -la ") {
        Err(e) => {
            assert!(matches!(e, SecurityError::CommandTooLong { length: 7, limit: 6 }));
            assert_eq!(e.message(), "命令长度超过限制 (7 > 6)");
        }
        Ok(()) => panic!("too long"),
    }
    // two characters, six bytes
    assert!(m.check_command("列出").is_ok());
    assert!(m.check_command("列出a").is_err());
}

#[test]
fn strict_mode_refusal_message() {
    let mut m = manager();
    m.set_mode(ExecutionMode::Strict);
    match m.check_command("echo hello") {
        Err(e) => assert_eq!(e.message(), "严格模式：命令 'echo hello' 不在白名单内，拒绝执行"),
        Ok(()) => panic!("not allowed"),
    }
}

#[test]
fn tool_rules() {
    let mut m = manager();
    assert!(m.check_tool("anything").is_ok());
    match m.check_tool("dangerous_tool") {
        Err(e) => assert_eq!(e.message(), "工具 'dangerous_tool' 在黑名单中，禁止使用"),
        Ok(()) => panic!("denied"),
    }
    m.set_mode(ExecutionMode::Strict);
    assert!(m.check_tool("file_read").is_ok());
    match m.check_tool("shell") {
        Err(e) => assert_eq!(e.message(), "严格模式：工具 'shell' 不在白名单内，拒绝使用"),
        Ok(()) => panic!("not allowed"),
    }
    m.add_tool_allowlist("shell").unwrap_or_else(|_| panic!("always ok"));
    assert!(m.check_tool("shell").is_ok());
    m.add_tool_denylist("shell").unwrap_or_else(|_| panic!("always ok"));
    assert!(matches!(m.check_tool("shell"), Err(SecurityError::ToolDenied { .. })));
}

#[test]
fn api_rules() {
    let mut c = create_test_config();
    c.api_denylist = vec!["malicious".to_string()];
    let mut m = SecurityManager::new(c).unwrap_or_else(|_| panic!("manager"));
    assert!(m.check_api("https://example.com").is_ok());
    match m.check_api("http://malicious.com/x") {
        Err(e) => assert_eq!(
            e.message(),
            "API 'http://malicious.com/x' 匹配黑名单规则 'malicious'，禁止访问"
        ),
        Ok(()) => panic!("denied"),
    }
    m.set_mode(ExecutionMode::Strict);
    assert!(m.check_api("https://api.github.com/users/octocat").is_ok());
    match m.check_api("https://example.com") {
        Err(e) => assert_eq!(e.message(), "严格模式：API 'https://example.com' 不在白名单内，拒绝访问"),
        Ok(()) => panic!("not allowed"),
    }
}

#[test]
fn adding_rules() {
    let mut m = manager();
    assert!(m.check_command("shutdown now").is_ok());
    m.add_command_denylist("^shutdown").unwrap_or_else(|_| panic!("valid"));
    assert!(m.check_command("shutdown now").is_err());
    match m.add_command_denylist("(") {
        Err(SecurityError::InvalidPattern { pattern, detail }) => {
            assert_eq!(pattern, "(");
            assert!(!detail.is_empty());
        }
        _ => panic!("invalid regex"),
    }
    assert_eq!(m.deny_rule_count(), 2);
    m.set_mode(ExecutionMode::Strict);
    assert!(m.check_command("pwd").is_err());
    m.add_command_allowlist("^pwd$").unwrap_or_else(|_| panic!("valid"));
    assert!(m.check_command("pwd").is_ok());
}

#[test]
fn listing_rules() {
    let m = manager();
    let lines = m.list_rules();
    assert_eq!(lines[0], "\n=== 安全规则配置 ===");
    assert_eq!(lines[1], "当前模式: 普通模式");
    assert_eq!(lines[2], "\n命令白名单:");
    assert_eq!(lines[3], "  + ^ls\\s*");
    assert_eq!(lines[4], "  + ^cat\\s+");
    assert_eq!(lines[5], "\n命令黑名单:");
    assert_eq!(lines[6], "  - rm\\s+-rf\\s+/");
    assert_eq!(lines.last().map(|s| s.as_str()), Some("  ! password"));
    assert_eq!(lines.len(), 16);
}

#[test]
fn save_config_keeps_rules() {
    let mut m = manager();
    m.add_tool_allowlist("web").unwrap_or_else(|_| panic!("ok"));
    let c = m.save_config();
    assert_eq!(c.security.tool_allowlist, vec!["file_read".to_string(), "web".to_string()]);
    assert_eq!(c.monitor.log_file, "~/.luoli/logs/activity.log");
    assert_eq!(c.monitor.max_log_size, 10 * 1024 * 1024);
    assert_eq!(c.monitor.log_rotation, 5);
    assert!(c.mcp.tools.is_empty());
    assert!(c.api.endpoints.is_empty());
}

#[test]
fn mode_names() {
    assert_eq!(ExecutionMode::Strict.to_string(), "严格模式");
    assert_eq!(ExecutionMode::Normal.to_string(), "普通模式");
}

#[test]
fn decide_command_takes_given_matches() {
    let m = manager();
    // the deny rule is reported as matching, whatever the regex would say
    let r = m.decide_command("hello", "hello", &vec![true], &vec![false, false]);
    assert!(matches!(r, Err(SecurityError::CommandDenied { .. })));
    let r = m.decide_command("hello", "hello", &vec![false], &vec![false, false]);
    assert!(r.is_ok());
    let r = m.decide_command("hello", "my password", &vec![false], &vec![false, false]);
    assert!(matches!(r, Err(SecurityError::ForbiddenPattern { .. })));
}
