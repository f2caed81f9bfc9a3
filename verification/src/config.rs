//! The assistant's settings: security rules, activity logging, tools and API endpoints.
use vstd::prelude::*;

use crate::text::{concat, views};

verus! {

/// Rules of the security manager.
pub struct SecurityConfig {
    pub default_mode: String,
    pub command_allowlist: Vec<String>,
    pub command_denylist: Vec<String>,
    pub tool_allowlist: Vec<String>,
    pub tool_denylist: Vec<String>,
    pub api_allowlist: Vec<String>,
    pub api_denylist: Vec<String>,
    pub max_command_length: usize,
    pub forbidden_patterns: Vec<String>,
}

impl SecurityConfig {
    /// Whether two configurations hold the same settings.
    pub open spec fn same(self, other: SecurityConfig) -> bool {
        &&& self.default_mode@ == other.default_mode@
        &&& self.command_allowlist@ == other.command_allowlist@
        &&& self.command_denylist@ == other.command_denylist@
        &&& self.tool_allowlist@ == other.tool_allowlist@
        &&& self.tool_denylist@ == other.tool_denylist@
        &&& self.api_allowlist@ == other.api_allowlist@
        &&& self.api_denylist@ == other.api_denylist@
        &&& self.max_command_length == other.max_command_length
        &&& self.forbidden_patterns@ == other.forbidden_patterns@
    }
}

impl Clone for SecurityConfig {
    fn clone(&self) -> (r: Self)
        ensures
            r.same(*self),
    {
        let r = SecurityConfig {
            default_mode: self.default_mode.clone(),
            command_allowlist: self.command_allowlist.clone(),
            command_denylist: self.command_denylist.clone(),
            tool_allowlist: self.tool_allowlist.clone(),
            tool_denylist: self.tool_denylist.clone(),
            api_allowlist: self.api_allowlist.clone(),
            api_denylist: self.api_denylist.clone(),
            max_command_length: self.max_command_length,
            forbidden_patterns: self.forbidden_patterns.clone(),
        };
        assert(r.command_allowlist@ =~= self.command_allowlist@);
        assert(r.command_denylist@ =~= self.command_denylist@);
        assert(r.tool_allowlist@ =~= self.tool_allowlist@);
        assert(r.tool_denylist@ =~= self.tool_denylist@);
        assert(r.api_allowlist@ =~= self.api_allowlist@);
        assert(r.api_denylist@ =~= self.api_denylist@);
        assert(r.forbidden_patterns@ =~= self.forbidden_patterns@);
        r
    }
}

/// Settings of the activity log.
pub struct MonitorConfig {
    pub enabled: bool,
    pub log_file: String,
    pub max_log_size: usize,
    pub log_rotation: usize,
    pub capture_output: bool,
    pub capture_env: bool,
}

impl Clone for MonitorConfig {
    fn clone(&self) -> (r: Self)
        ensures
            r.enabled == self.enabled,
            r.log_file@ == self.log_file@,
            r.max_log_size == self.max_log_size,
            r.log_rotation == self.log_rotation,
            r.capture_output == self.capture_output,
            r.capture_env == self.capture_env,
    {
        MonitorConfig {
            enabled: self.enabled,
            log_file: self.log_file.clone(),
            max_log_size: self.max_log_size,
            log_rotation: self.log_rotation,
            capture_output: self.capture_output,
            capture_env: self.capture_env,
        }
    }
}

/// One tool entry of the tool settings; `config` holds the tool's own settings as JSON
/// text.
pub struct McpTool {
    pub name: String,
    pub enabled: bool,
    pub config: String,
}

/// Settings of the tool registry.
pub struct McpConfig {
    pub enabled: bool,
    pub tools: Vec<McpTool>,
}

/// A named API endpoint: where a request goes, with which method and headers.
pub struct ApiEndpoint {
    pub name: String,
    pub url: String,
    pub method: String,
    pub headers: Vec<(String, String)>,
    pub enabled: bool,
}

impl Clone for ApiEndpoint {
    fn clone(&self) -> (r: Self)
        ensures
            r.name@ == self.name@,
            r.url@ == self.url@,
            r.method@ == self.method@,
            r.headers@.len() == self.headers@.len(),
            forall|i: int|
                0 <= i < self.headers@.len() ==> #[trigger] r.headers@[i].0@
                    == self.headers@[i].0@ && r.headers@[i].1@ == self.headers@[i].1@,
            r.enabled == self.enabled,
    {
        let mut headers: Vec<(String, String)> = Vec::new();
        let mut i: usize = 0;
        while i < self.headers.len()
            invariant
                i <= self.headers.len(),
                headers@.len() == i,
                forall|k: int|
                    0 <= k < i ==> #[trigger] headers@[k].0@ == self.headers@[k].0@
                        && headers@[k].1@ == self.headers@[k].1@,
            decreases self.headers.len() - i,
        {
            let ghost before = headers@;
            let (k, v) = (&self.headers[i].0, &self.headers[i].1);
            headers.push((k.clone(), v.clone()));
            assert forall|j: int| 0 <= j < i + 1 implies #[trigger] headers@[j].0@
                == self.headers@[j].0@ && headers@[j].1@ == self.headers@[j].1@ by {
                if j < i {
                    assert(headers@[j] == before[j]);
                }
            }
            i = i + 1;
        }
        ApiEndpoint {
            name: self.name.clone(),
            url: self.url.clone(),
            method: self.method.clone(),
            headers,
            enabled: self.enabled,
        }
    }
}

/// Settings of the API client.
pub struct ApiConfig {
    pub enabled: bool,
    pub endpoints: Vec<ApiEndpoint>,
}

/// All settings of the assistant.
pub struct AppConfig {
    pub security: SecurityConfig,
    pub monitor: MonitorConfig,
    pub mcp: McpConfig,
    pub api: ApiConfig,
}

/// Owned copies of string literals.
pub fn to_strings(items: &[&str]) -> (r: Vec<String>)
    ensures
        views(r@) == items@.map_values(|s: &str| s@),
{
    let mut r: Vec<String> = Vec::new();
    let mut i: usize = 0;
    while i < items.len()
        invariant
            i <= items.len(),
            views(r@) == items@.subrange(0, i as int).map_values(|s: &str| s@),
        decreases items.len() - i,
    {
        let ghost before = r@;
        r.push(items[i].to_owned());
        assert(views(r@) == views(before).push(items@[i as int]@));
        assert(items@.subrange(0, i + 1) == items@.subrange(0, i as int).push(items@[i as int]));
        i = i + 1;
    }
    assert(items@.subrange(0, items.len() as int) == items@);
    r
}

/// The path of `name` inside the directory `dir` (`Path::join` with a relative name:
/// a separator is put between them unless `dir` is empty or already ends in one).
pub open spec fn joined(dir: Seq<char>, name: Seq<char>) -> Seq<char> {
    if dir.len() == 0 || dir.last() == '/' {
        dir + name
    } else {
        dir + seq!['/'] + name
    }
}

/// The path of `name` inside the directory `dir`.
pub fn join_path(dir: &str, name: &str) -> (r: String)
    ensures
        r@ == joined(dir@, name@),
{
    let n = dir.unicode_len();
    if n == 0 || dir.get_char(n - 1) == '/' {
        concat(dir, name)
    } else {
        let mut r = concat(dir, "/");
        proof {
            reveal_strlit("/");
        }
        r.append(name);
        r
    }
}

/// The command rules the assistant starts with.
pub open spec fn default_command_allowlist() -> Seq<Seq<char>> {
    seq![
        "^ls$"@, "^ls\\s+"@, "^pwd$"@, "^cd\\s+"@, "^cat\\s+"@, "^echo\\s+"@, "^mkdir\\s+"@,
        "^touch\\s+"@, "^cp\\s+"@, "^mv\\s+"@, "^rm\\s+"@, "^git\\s+"@, "^python\\s+"@,
        "^python3\\s+"@, "^cargo\\s+"@, "^rustc\\s+"@,
    ]
}

/// The shell fork bomb.
pub open spec fn fork_bomb() -> Seq<char> {
    ":(){ :|:& };:"@
}

/// The deny rule for the fork bomb: its text with each meta character escaped.
pub open spec fn fork_bomb_rule() -> Seq<char> {
    ":\\(\\)\\{ :\\|:& \\};:"@
}

/// The command deny rules the assistant starts with.
pub open spec fn default_command_denylist() -> Seq<Seq<char>> {
    seq![
        "rm\\s+-rf\\s+/"@, ">/dev/sda"@, "mkfs\\."@, "dd\\s+if=.*/dev/zero.*of=/dev/sda"@,
        fork_bomb_rule(),
    ]
}

/// The tools the assistant allows at first.
pub open spec fn default_tool_allowlist() -> Seq<Seq<char>> {
    seq!["file_read"@, "file_write"@, "shell_execute"@, "web_search"@]
}

/// The words a command may not contain at first.
pub open spec fn default_forbidden_patterns() -> Seq<Seq<char>> {
    seq!["password"@, "secret"@, "token"@, "api_key"@]
}

impl AppConfig {
    /// The settings the assistant starts with, for a user whose home directory is `home`.
    pub fn default_for_home(home: &str) -> (r: AppConfig)
        ensures
            r.security.default_mode@ == "normal"@,
            views(r.security.command_allowlist@) == default_command_allowlist(),
            views(r.security.command_denylist@) == default_command_denylist(),
            views(r.security.tool_allowlist@) == default_tool_allowlist(),
            r.security.tool_denylist@.len() == 0,
            views(r.security.api_allowlist@) == seq!["https://api.github.com"@],
            r.security.api_denylist@.len() == 0,
            r.security.max_command_length == 4096,
            views(r.security.forbidden_patterns@) == default_forbidden_patterns(),
            r.monitor.enabled,
            r.monitor.log_file@ == joined(joined(joined(home@, ".luoli"@), "logs"@), "activity.log"@),
            r.monitor.max_log_size == 10 * 1024 * 1024,
            r.monitor.log_rotation == 5,
            r.monitor.capture_output,
            !r.monitor.capture_env,
            r.mcp.enabled,
            r.mcp.tools@.len() == 2,
            r.mcp.tools@[0].name@ == "filesystem"@,
            r.mcp.tools@[0].enabled,
            r.mcp.tools@[0].config@ == "{}"@,
            r.mcp.tools@[1].name@ == "shell"@,
            r.mcp.tools@[1].enabled,
            r.mcp.tools@[1].config@ == "{}"@,
            r.api.enabled,
            r.api.endpoints@.len() == 0,
    {
        let allow = to_strings(
            &[
                "^ls$",
                "^ls\\s+",
                "^pwd$",
                "^cd\\s+",
                "^cat\\s+",
                "^echo\\s+",
                "^mkdir\\s+",
                "^touch\\s+",
                "^cp\\s+",
                "^mv\\s+",
                "^rm\\s+",
                "^git\\s+",
                "^python\\s+",
                "^python3\\s+",
                "^cargo\\s+",
                "^rustc\\s+",
            ],
        );
        let deny = to_strings(
            &[
                "rm\\s+-rf\\s+/",
                ">/dev/sda",
                "mkfs\\.",
                "dd\\s+if=.*/dev/zero.*of=/dev/sda",
                ":\\(\\)\\{ :\\|:& \\};:",
            ],
        );
        let tools = to_strings(&["file_read", "file_write", "shell_execute", "web_search"]);
        let apis = to_strings(&["https://api.github.com"]);
        let forbidden = to_strings(&["password", "secret", "token", "api_key"]);
        let dir = join_path(home, ".luoli");
        let logs = join_path(dir.as_str(), "logs");
        let log_file = join_path(logs.as_str(), "activity.log");
        let mut tool_entries: Vec<McpTool> = Vec::new();
        tool_entries.push(
            McpTool { name: "filesystem".to_owned(), enabled: true, config: "{}".to_owned() },
        );
        tool_entries.push(
            McpTool { name: "shell".to_owned(), enabled: true, config: "{}".to_owned() },
        );
        let r = AppConfig {
            security: SecurityConfig {
                default_mode: "normal".to_owned(),
                command_allowlist: allow,
                command_denylist: deny,
                tool_allowlist: tools,
                tool_denylist: Vec::new(),
                api_allowlist: apis,
                api_denylist: Vec::new(),
                max_command_length: 4096,
                forbidden_patterns: forbidden,
            },
            monitor: MonitorConfig {
                enabled: true,
                log_file,
                max_log_size: 10 * 1024 * 1024,
                log_rotation: 5,
                capture_output: true,
                capture_env: false,
            },
            mcp: McpConfig { enabled: true, tools: tool_entries },
            api: ApiConfig { enabled: true, endpoints: Vec::new() },
        };
        assert(views(r.security.command_allowlist@) =~= default_command_allowlist());
        assert(views(r.security.command_denylist@) =~= default_command_denylist());
        assert(views(r.security.tool_allowlist@) =~= default_tool_allowlist());
        assert(views(r.security.api_allowlist@) =~= seq!["https://api.github.com"@]);
        assert(views(r.security.forbidden_patterns@) =~= default_forbidden_patterns());
        r
    }
}

} // verus!
