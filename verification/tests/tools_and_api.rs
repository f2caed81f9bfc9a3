use luoli::api::{ApiClient, ApiError, GitHubApi, HttpMethod, HttpOutcome, OpenAiApi};
use luoli::config::{ApiConfig, ApiEndpoint, SecurityConfig};
use luoli::mcp::{
    init_default_tools, FileSystemTool, FsRequest, McpError, McpToolRegistry, ShellTool,
    WebSearchTool,
};
use luoli::monitor::{ActivityStatus, ActivityType};
use luoli::security::{ExecutionMode, SecurityManager};

fn security() -> SecurityManager {
    let config = SecurityConfig {
        default_mode: "normal".to_string(),
        command_allowlist: vec!["^ls".to_string()],
        command_denylist: vec!["rm\\s+-rf".to_string()],
        tool_allowlist: vec!["shell".to_string(), "filesystem".to_string()],
        tool_denylist: vec!["web_search".to_string()],
        api_allowlist: vec!["https://api.github.com".to_string()],
        api_denylist: vec!["http://evil".to_string()],
        max_command_length: 100,
        forbidden_patterns: vec!["token".to_string()],
    };
    match SecurityManager::new(config) {
        Ok(m) => m,
        Err(_) => panic!("a manager is always made"),
    }
}

fn endpoint(name: &str, url: &str) -> ApiEndpoint {
    ApiEndpoint {
        name: name.to_string(),
        url: url.to_string(),
        method: "GET".to_string(),
        headers: vec![],
        enabled: true,
    }
}

#[test]
fn registry_registers_and_replaces() {
    let mut reg = McpToolRegistry::new();
    assert!(!reg.has_tool("a"));
    assert_eq!(reg.register_tool("a", "first").unwrap_or_else(|_| panic!("ok")), 0);
    assert_eq!(reg.register_tool("b", "second").unwrap_or_else(|_| panic!("ok")), 1);
    assert_eq!(reg.register_tool("a", "again").unwrap_or_else(|_| panic!("ok")), 0);
    assert!(reg.has_tool("a"));
    assert_eq!(
        reg.list_tools(),
        vec![
            ("a".to_string(), "again".to_string()),
            ("b".to_string(), "second".to_string())
        ]
    );
}

#[test]
fn default_tools() {
    let mut reg = McpToolRegistry::new();
    assert!(init_default_tools(&mut reg).is_ok());
    let names: Vec<String> = reg.list_tools().into_iter().map(|t| t.0).collect();
    assert_eq!(names, vec!["filesystem", "shell", "web_search"]);
    assert_eq!(reg.list_tools()[1].1, "Shell 命令执行工具");
}

#[test]
fn tool_execution_asks_the_rules_first() {
    let mut reg = McpToolRegistry::new();
    assert!(init_default_tools(&mut reg).is_ok());
    let sec = security();
    assert_eq!(reg.prepare_execution(&sec, "shell").unwrap_or_else(|_| panic!("ok")), 1);
    match reg.prepare_execution(&sec, "web_search") {
        Err(e) => assert_eq!(e.message(), "工具 'web_search' 在黑名单中，禁止使用"),
        Ok(_) => panic!("denied"),
    }
    match reg.prepare_execution(&sec, "missing") {
        Err(e) => assert_eq!(e.message(), "工具 'missing' 未找到"),
        Ok(_) => panic!("missing"),
    }
    let mut strict = security();
    strict.set_mode(ExecutionMode::Strict);
    match McpToolRegistry::new().prepare_execution(&strict, "other") {
        Err(e) => assert_eq!(e.message(), "严格模式：工具 'other' 不在白名单内，拒绝使用"),
        Ok(_) => panic!("not allowed"),
    }
}

#[test]
fn filesystem_tool_requests() {
    let fs = FileSystemTool;
    assert_eq!(fs.name(), "filesystem");
    match fs.plan(Some("read".to_string()), Some("/etc/hosts".to_string()), None) {
        Ok(FsRequest::Read { path }) => assert_eq!(path, "/etc/hosts"),
        _ => panic!("read"),
    }
    match fs.plan(Some("write".to_string()), Some("/tmp/x".to_string()), Some("hi".to_string())) {
        Ok(FsRequest::Write { path, content }) => {
            assert_eq!(path, "/tmp/x");
            assert_eq!(content, "hi");
        }
        _ => panic!("write"),
    }
    match fs.plan(Some("list".to_string()), Some("/".to_string()), None) {
        Ok(FsRequest::List { path }) => assert_eq!(path, "/"),
        _ => panic!("list"),
    }
    let missing = |r: Result<FsRequest, McpError>| match r {
        Err(e) => e.message(),
        Ok(_) => panic!("fails"),
    };
    assert_eq!(missing(fs.plan(None, None, None)), "缺少 action 参数");
    assert_eq!(missing(fs.plan(Some("read".to_string()), None, None)), "缺少 path 参数");
    assert_eq!(
        missing(fs.plan(Some("write".to_string()), Some("/x".to_string()), None)),
        "缺少 content 参数"
    );
    assert_eq!(missing(fs.plan(Some("delete".to_string()), None, None)), "未知的 action: delete");
}

#[test]
fn shell_and_search_tools() {
    let sec = security();
    let sh = ShellTool::new();
    assert_eq!(sh.name(), "shell");
    assert_eq!(sh.prepare(&sec, Some("ls -la".to_string())).unwrap_or_else(|_| panic!("ok")), "ls -la");
    assert!(sh.prepare(&sec, Some("rm -rf x".to_string())).is_err());
    match sh.prepare(&sec, None) {
        Err(e) => assert_eq!(e.message(), "缺少 command 参数"),
        Ok(_) => panic!("missing"),
    }
    let reply = sh.reply(false, String::new(), "boom".to_string(), Some(2)).unwrap_or_else(|_| panic!("ok"));
    assert!(!reply.success);
    assert_eq!(reply.stderr, "boom");
    assert_eq!(reply.exit_code, Some(2));
    let ws = WebSearchTool;
    assert_eq!(ws.name(), "web_search");
    assert_eq!(ws.description(), "Web 搜索工具");
    let reply = ws.search(Some("verus".to_string())).unwrap_or_else(|_| panic!("ok"));
    assert_eq!(reply.query, "verus");
    assert_eq!(reply.message, "搜索功能待实现");
    assert!(ws.search(None).is_err());
}

#[test]
fn client_endpoints_by_name() {
    let config = ApiConfig {
        enabled: true,
        endpoints: vec![endpoint("gh", "https://api.github.com"), endpoint("x", "u1"), endpoint("gh", "u2")],
    };
    let mut client = ApiClient::new(config);
    let list = client.list_endpoints();
    assert_eq!(list.len(), 2);
    assert_eq!(list[0].name, "gh");
    assert_eq!(list[0].url, "u2");
    assert_eq!(client.request_endpoint("x").map(|e| e.url.clone()).unwrap_or_default(), "u1");
    match client.request_endpoint("nope") {
        Err(e) => assert_eq!(e.message(), "未知的 API 端点: nope"),
        Ok(_) => panic!("unknown"),
    }
    client.add_endpoint(endpoint("y", "u3"));
    assert_eq!(client.list_endpoints().len(), 3);
    assert_eq!(client.request_endpoint("y").map(|e| e.url.clone()).unwrap_or_default(), "u3");
}

#[test]
fn methods() {
    assert_eq!(ApiClient::method_for("GET", "get").unwrap_or_else(|_| panic!("ok")), HttpMethod::Get);
    assert_eq!(ApiClient::method_for("PATCH", "Patch").unwrap_or_else(|_| panic!("ok")), HttpMethod::Patch);
    match ApiClient::method_for("HEAD", "head") {
        Err(e) => assert_eq!(e.message(), "不支持的 HTTP 方法: head"),
        Ok(_) => panic!("unsupported"),
    }
}

#[test]
fn planning_requests() {
    let sec = security();
    let p = ApiClient::plan_request(&sec, "https://api.github.com/users/x", "post", "/w")
        .unwrap_or_else(|_| panic!("ok"));
    assert_eq!(p.method, HttpMethod::Post);
    assert_eq!(p.record.command, "POST https://api.github.com/users/x");
    assert_eq!(p.record.activity_type, ActivityType::ApiCall);
    assert!(p.record.args.is_empty());
    assert_eq!(p.record.working_dir, "/w");
    match ApiClient::plan_request(&sec, "http://evil/x", "get", "/w") {
        Err(ApiError::Security(e)) => assert_eq!(
            e.message(),
            "API 'http://evil/x' 匹配黑名单规则 'http://evil'，禁止访问"
        ),
        _ => panic!("denied"),
    }
    assert!(matches!(
        ApiClient::plan_request(&sec, "https://ok", "trace", "/w"),
        Err(ApiError::UnsupportedMethod { .. })
    ));
}

#[test]
fn finishing_requests() {
    let sec = security();
    let p = ApiClient::plan_request(&sec, "https://a", "get", "/").unwrap_or_else(|_| panic!("ok"));
    let ok = ApiClient::finish_request(
        p.record,
        HttpOutcome::Response { code: 200, status: "200 OK".to_string(), body: "{}".to_string() },
        7,
    );
    assert!(ok.log);
    assert_eq!(ok.result.unwrap_or_default(), "{}");
    assert!(matches!(ok.record.status, ActivityStatus::Success));
    assert_eq!(ok.record.duration_ms, Some(7));

    let p = ApiClient::plan_request(&sec, "https://a", "get", "/").unwrap_or_else(|_| panic!("ok"));
    let bad = ApiClient::finish_request(
        p.record,
        HttpOutcome::Response { code: 404, status: "404 Not Found".to_string(), body: "no".to_string() },
        1,
    );
    assert!(bad.log);
    match bad.result {
        Err(e) => assert_eq!(e.message(), "HTTP 404 Not Found: no"),
        Ok(_) => panic!("fails"),
    }
    match bad.record.status {
        ActivityStatus::Failed(m) => assert_eq!(m, "HTTP 404 Not Found: no"),
        _ => panic!("failed"),
    }

    let p = ApiClient::plan_request(&sec, "https://a", "get", "/").unwrap_or_else(|_| panic!("ok"));
    let lost = ApiClient::finish_request(p.record, HttpOutcome::TransportError { detail: "timeout".to_string() }, 2);
    assert!(lost.log);
    match lost.result {
        Err(e) => assert_eq!(e.message(), "请求失败: timeout"),
        Ok(_) => panic!("fails"),
    }
}

#[test]
fn service_addresses() {
    let gh = GitHubApi::new();
    assert_eq!(gh.user_url("octo"), "https://api.github.com/users/octo");
    assert_eq!(gh.repo_url("o", "r"), "https://api.github.com/repos/o/r");
    assert_eq!(gh.contents_url("o", "r", "src/x.rs"), "https://api.github.com/repos/o/r/contents/src/x.rs");
    let ai = OpenAiApi::new("sk".to_string());
    assert_eq!(ai.chat_url(), "https://api.openai.com/v1/chat/completions");
    assert_eq!(
        ai.chat_headers(),
        vec![
            ("Authorization".to_string(), "Bearer sk".to_string()),
            ("Content-Type".to_string(), "application/json".to_string())
        ]
    );
}

#[test]
fn reply_bodies_and_model_names() {
    match luoli::api::reply_body("{\"a\":1}".to_string()) {
        luoli::api::ReplyBody::Json(v) => assert_eq!(v["a"], 1),
        luoli::api::ReplyBody::Text(_) => panic!("json"),
    }
    match luoli::api::reply_body("plain words".to_string()) {
        luoli::api::ReplyBody::Text(t) => assert_eq!(t, "plain words"),
        luoli::api::ReplyBody::Json(_) => panic!("text"),
    }
    let names = luoli::ai_config::model_names(vec![Some("a".to_string()), None, Some("b".to_string())]);
    assert_eq!(names, vec!["a", "b"]);
    assert_eq!(luoli::ai_config::ModelListShape::ModelsByName.fields(), ("models", "name"));
    assert_eq!(luoli::ai_config::ModelListShape::DataById.fields(), ("data", "id"));
}
