//! The tool registry: which tools are known, which may be used under the rules, and how
//! the built-in tools read their parameters.  Running a tool is left to the caller.
use vstd::prelude::*;

use crate::security::{refusal_message, Refusal, SecurityError, SecurityManager};
use crate::text::{concat, concat3, owned, str_eq};

verus! {

/// Why a tool request failed, as plain values.
pub enum ToolFault {
    Security(Refusal),
    ToolNotFound { name: Seq<char> },
    MissingParam { name: Seq<char> },
    UnknownAction { action: Seq<char> },
}

/// Why a tool request failed.
pub enum McpError {
    /// The rules refused the tool.
    Security(SecurityError),
    /// No tool of that name is registered.
    ToolNotFound { name: String },
    /// A required parameter is missing (or is not text).
    MissingParam { name: String },
    /// The file-system tool was asked for an action it does not know.
    UnknownAction { action: String },
}

impl View for McpError {
    type V = ToolFault;

    open spec fn view(&self) -> ToolFault {
        match self {
            McpError::Security(e) => ToolFault::Security(e@),
            McpError::ToolNotFound { name } => ToolFault::ToolNotFound { name: name@ },
            McpError::MissingParam { name } => ToolFault::MissingParam { name: name@ },
            McpError::UnknownAction { action } => ToolFault::UnknownAction { action: action@ },
        }
    }
}

/// The text of a tool failure as shown to the user.
pub open spec fn tool_message(e: ToolFault) -> Seq<char> {
    match e {
        ToolFault::Security(r) => refusal_message(r),
        ToolFault::ToolNotFound { name } => "工具 '"@ + name + "' 未找到"@,
        ToolFault::MissingParam { name } => "缺少 "@ + name + " 参数"@,
        ToolFault::UnknownAction { action } => "未知的 action: "@ + action,
    }
}

impl McpError {
    /// The failure's text as shown to the user.
    pub fn message(&self) -> (m: String)
        ensures
            m@ == tool_message(self@),
    {
        match self {
            McpError::Security(e) => e.message(),
            McpError::ToolNotFound { name } => concat3("工具 '", name.as_str(), "' 未找到"),
            McpError::MissingParam { name } => concat3("缺少 ", name.as_str(), " 参数"),
            McpError::UnknownAction { action } => concat("未知的 action: ", action.as_str()),
        }
    }
}

/// Whether the names of `entries` are distinct.
pub open spec fn distinct_names(entries: Seq<(Seq<char>, Seq<char>)>) -> bool {
    forall|i: int, j: int|
        0 <= i < entries.len() && 0 <= j < entries.len() && i != j ==> #[trigger] entries[i].0
            != #[trigger] entries[j].0
}

/// `entries` after registering `name` with `description`: the description of a tool
/// already registered under that name is replaced, otherwise the tool is added at the end.
pub open spec fn with_tool(
    entries: Seq<(Seq<char>, Seq<char>)>,
    name: Seq<char>,
    description: Seq<char>,
) -> Seq<(Seq<char>, Seq<char>)> {
    if exists|i: int| 0 <= i < entries.len() && #[trigger] entries[i].0 == name {
        entries.update(
            choose|i: int| 0 <= i < entries.len() && #[trigger] entries[i].0 == name,
            (name, description),
        )
    } else {
        entries.push((name, description))
    }
}

/// A tool just registered is found under its name with the description it was registered
/// with, and registering keeps the names distinct.
pub proof fn law_registered_tool_is_found(
    entries: Seq<(Seq<char>, Seq<char>)>,
    name: Seq<char>,
    description: Seq<char>,
)
    requires
        distinct_names(entries),
    ensures
        distinct_names(with_tool(entries, name, description)),
        exists|i: int|
            0 <= i < with_tool(entries, name, description).len() && #[trigger] with_tool(
                entries,
                name,
                description,
            )[i] == (name, description),
{
    let after = with_tool(entries, name, description);
    if exists|i: int| 0 <= i < entries.len() && #[trigger] entries[i].0 == name {
        let p = choose|i: int| 0 <= i < entries.len() && #[trigger] entries[i].0 == name;
        assert(after[p] == (name, description));
        assert forall|i: int, j: int|
            0 <= i < after.len() && 0 <= j < after.len() && i != j implies #[trigger] after[i].0
            != #[trigger] after[j].0 by {
            if i != p && j != p {
                assert(entries[i].0 != entries[j].0);
            } else if i == p {
                assert(entries[j].0 != entries[p].0);
            } else {
                assert(entries[i].0 != entries[p].0);
            }
        }
    } else {
        assert(after[entries.len() as int] == (name, description));
        assert forall|i: int, j: int|
            0 <= i < after.len() && 0 <= j < after.len() && i != j implies #[trigger] after[i].0
            != #[trigger] after[j].0 by {
            if i < entries.len() && j < entries.len() {
                assert(entries[i].0 != entries[j].0);
            } else if i < entries.len() {
                assert(entries[i].0 != name);
            } else {
                assert(entries[j].0 != name);
            }
        }
    }
}

/// The registered tools: name and description of each, in registration order, names
/// distinct.
pub struct McpToolRegistry {
    tools: Vec<(String, String)>,
}

impl McpToolRegistry {
    /// The registered tools, as (name, description), in registration order.
    pub closed spec fn entries(&self) -> Seq<(Seq<char>, Seq<char>)> {
        self.tools@.map_values(|t: (String, String)| (t.0@, t.1@))
    }

    /// The position of the tool named `name`, if registered.
    pub open spec fn position(&self, name: Seq<char>) -> Option<int> {
        if exists|i: int| 0 <= i < self.entries().len() && #[trigger] self.entries()[i].0 == name {
            Some(choose|i: int| 0 <= i < self.entries().len() && #[trigger] self.entries()[i].0 == name)
        } else {
            None
        }
    }

    #[verifier::type_invariant]
    spec fn names_distinct(&self) -> bool {
        distinct_names(self.entries())
    }

    /// An empty registry.
    pub fn new() -> (r: McpToolRegistry)
        ensures
            r.entries() == Seq::<(Seq<char>, Seq<char>)>::empty(),
    {
        let r = McpToolRegistry { tools: Vec::new() };
        assert(r.entries() =~= Seq::<(Seq<char>, Seq<char>)>::empty());
        r
    }

    /// The position of the tool named `name`, if registered.
    fn find(&self, name: &str) -> (r: Option<usize>)
        ensures
            match r {
                Some(i) => i < self.entries().len() && self.entries()[i as int].0 == name@,
                None => forall|i: int|
                    0 <= i < self.entries().len() ==> #[trigger] self.entries()[i].0 != name@,
            },
    {
        let mut i: usize = 0;
        while i < self.tools.len()
            invariant
                i <= self.tools@.len(),
                forall|k: int| 0 <= k < i ==> #[trigger] self.tools@[k].0@ != name@,
            decreases self.tools@.len() - i,
        {
            if str_eq(self.tools[i].0.as_str(), name) {
                return Some(i);
            }
            i = i + 1;
        }
        None
    }

    /// Registers a tool (always succeeds), replacing the description of a tool already
    /// registered under the same name; tells where it is stored.
    pub fn register_tool(&mut self, name: &str, description: &str) -> (r: Result<usize, McpError>)
        ensures
            r matches Ok(i) && i < final(self).entries().len(),
            r matches Ok(i) && final(self).entries()[i as int] == (name@, description@),
            old(self).position(name@) matches Some(p) ==> (r matches Ok(i) && i == p
                && final(self).entries() == old(self).entries().update(p, (name@, description@))),
            old(self).position(name@) is None ==> (r matches Ok(i) && i == old(self).entries().len() && final(self).entries() == old(self).entries().push(
                (name@, description@),
            )),
            final(self).entries() == with_tool(old(self).entries(), name@, description@),
    {
        proof {
            use_type_invariant(&*self);
        }
        let ghost before = self.entries();
        match self.find(name) {
            Some(i) => {
                let mut tools: Vec<(String, String)> = Vec::new();
                std::mem::swap(&mut tools, &mut self.tools);
                tools.set(i, (owned(name), owned(description)));
                assert(tools@.map_values(|t: (String, String)| (t.0@, t.1@)) =~= before.update(
                    i as int,
                    (name@, description@),
                ));
                proof {
                    assert(distinct_names(before));
                    let p = choose|k: int| 0 <= k < before.len() && #[trigger] before[k].0 == name@;
                    if p != i {
                        assert(before[p].0 != before[i as int].0);
                    }
                }
                self.tools = tools;
                Ok(i)
            },
            None => {
                let mut tools: Vec<(String, String)> = Vec::new();
                std::mem::swap(&mut tools, &mut self.tools);
                tools.push((owned(name), owned(description)));
                assert(tools@.map_values(|t: (String, String)| (t.0@, t.1@)) =~= before.push(
                    (name@, description@),
                ));
                self.tools = tools;
                Ok(self.tools.len() - 1)
            },
        }
    }

    /// Whether a tool named `name` is registered.
    pub fn has_tool(&self, name: &str) -> (b: bool)
        ensures
            b == self.position(name@) is Some,
    {
        match self.find(name) {
            Some(i) => true,
            None => false,
        }
    }

    /// The registered tools, as (name, description), in registration order.
    pub fn list_tools(&self) -> (r: Vec<(String, String)>)
        ensures
            r@.map_values(|t: (String, String)| (t.0@, t.1@)) == self.entries(),
    {
        let mut r: Vec<(String, String)> = Vec::new();
        let mut i: usize = 0;
        while i < self.tools.len()
            invariant
                i <= self.tools@.len(),
                r@.map_values(|t: (String, String)| (t.0@, t.1@)) == self.entries().take(i as int),
            decreases self.tools@.len() - i,
        {
            let ghost before = r@;
            r.push((self.tools[i].0.clone(), self.tools[i].1.clone()));
            assert(r@.map_values(|t: (String, String)| (t.0@, t.1@)) == before.map_values(
                |t: (String, String)| (t.0@, t.1@),
            ).push(self.entries()[i as int]));
            assert(self.entries().take(i + 1) == self.entries().take(i as int).push(
                self.entries()[i as int],
            ));
            i = i + 1;
        }
        assert(self.entries().take(self.tools@.len() as int) == self.entries());
        r
    }

    /// Where the tool named `name` is stored, when the rules let it be used: the rules are
    /// asked first, then the registry.
    pub fn prepare_execution(&self, security: &SecurityManager, name: &str) -> (r: Result<
        usize,
        McpError,
    >)
        ensures
            match security.tool_refusal(security.current_mode(), name@) {
                Some(refusal) => r matches Err(e) && e@ == ToolFault::Security(refusal),
                None => match self.position(name@) {
                    Some(p) => r == Ok::<usize, McpError>(p as usize),
                    None => r matches Err(e) && e@ == (ToolFault::ToolNotFound { name: name@ }),
                },
            },
    {
        proof {
            use_type_invariant(self);
        }
        match security.check_tool(name) {
            Err(e) => Err(McpError::Security(e)),
            Ok(()) => match self.find(name) {
                Some(i) => {
                    proof {
                        let p = choose|k: int|
                            0 <= k < self.entries().len() && #[trigger] self.entries()[k].0
                                == name@;
                        if p != i {
                            assert(self.entries()[p].0 != self.entries()[i as int].0);
                        }
                    }
                    Ok(i)
                },
                None => Err(McpError::ToolNotFound { name: owned(name) }),
            },
        }
    }
}

/// What the file-system tool is asked to do.
pub enum FsRequest {
    Read { path: String },
    Write { path: String, content: String },
    List { path: String },
}

/// The file-system tool.
pub struct FileSystemTool;

impl FileSystemTool {
    /// The tool's name.
    pub fn name(&self) -> (s: &'static str)
        ensures
            s@ == "filesystem"@,
    {
        "filesystem"
    }

    /// What the tool does.
    pub fn description(&self) -> (s: &'static str)
        ensures
            s@ == "文件系统操作工具，支持读写文件、列出目录等"@,
    {
        "文件系统操作工具，支持读写文件、列出目录等"
    }

    /// The request made by the text parameters `action`, `path` and `content` (each
    /// absent when missing or not text): `read` and `list` need a path, `write` a path and
    /// then content; the action is read first.
    pub fn plan(
        &self,
        action: Option<String>,
        path: Option<String>,
        content: Option<String>,
    ) -> (r: Result<FsRequest, McpError>)
        ensures
            action is None ==> (r matches Err(e) && e@ == (ToolFault::MissingParam {
                name: "action"@,
            })),
            action matches Some(a) ==> {
                if a@ == "read"@ || a@ == "list"@ || a@ == "write"@ {
                    match path {
                        None => r matches Err(e) && e@ == (ToolFault::MissingParam {
                            name: "path"@,
                        }),
                        Some(p) => if a@ == "read"@ {
                            r matches Ok(FsRequest::Read { path: q }) && q@ == p@
                        } else if a@ == "list"@ {
                            r matches Ok(FsRequest::List { path: q }) && q@ == p@
                        } else {
                            match content {
                                None => r matches Err(e) && e@ == (ToolFault::MissingParam {
                                    name: "content"@,
                                }),
                                Some(c) => r matches Ok(FsRequest::Write { path: q, content: d })
                                    && q@ == p@ && d@ == c@,
                            }
                        },
                    }
                } else {
                    r matches Err(e) && e@ == (ToolFault::UnknownAction { action: a@ })
                }
            },
    {
        proof {
            reveal_strlit("read");
            reveal_strlit("list");
            reveal_strlit("write");
            assert("read"@[0] != "list"@[0]);
            assert("read"@.len() != "write"@.len());
            assert("list"@.len() != "write"@.len());
        }
        let a = match action {
            None => {
                return Err(McpError::MissingParam { name: owned("action") });
            },
            Some(a) => a,
        };
        if str_eq(a.as_str(), "read") {
            match path {
                None => Err(McpError::MissingParam { name: owned("path") }),
                Some(p) => Ok(FsRequest::Read { path: p }),
            }
        } else if str_eq(a.as_str(), "write") {
            let p = match path {
                None => {
                    return Err(McpError::MissingParam { name: owned("path") });
                },
                Some(p) => p,
            };
            match content {
                None => Err(McpError::MissingParam { name: owned("content") }),
                Some(c) => Ok(FsRequest::Write { path: p, content: c }),
            }
        } else if str_eq(a.as_str(), "list") {
            match path {
                None => Err(McpError::MissingParam { name: owned("path") }),
                Some(p) => Ok(FsRequest::List { path: p }),
            }
        } else {
            Err(McpError::UnknownAction { action: a })
        }
    }
}

/// The shell tool.
pub struct ShellTool;

impl ShellTool {
    /// The shell tool.
    pub fn new() -> (t: ShellTool) {
        ShellTool
    }

    /// The tool's name.
    pub fn name(&self) -> (s: &'static str)
        ensures
            s@ == "shell"@,
    {
        "shell"
    }

    /// What the tool does.
    pub fn description(&self) -> (s: &'static str)
        ensures
            s@ == "Shell 命令执行工具"@,
    {
        "Shell 命令执行工具"
    }

    /// The command to hand to the shell, given the text parameter `command` (absent when
    /// missing or not text): it must be present and the rules must let it through.
    pub fn prepare(&self, security: &SecurityManager, command: Option<String>) -> (r: Result<
        String,
        McpError,
    >)
        ensures
            match command {
                None => r matches Err(e) && e@ == (ToolFault::MissingParam { name: "command"@ }),
                Some(c) => match security.command_refusal(security.current_mode(), c@) {
                    Some(refusal) => r matches Err(e) && e@ == ToolFault::Security(refusal),
                    None => r matches Ok(s) && s@ == c@,
                },
            },
    {
        let c = match command {
            None => {
                return Err(McpError::MissingParam { name: owned("command") });
            },
            Some(c) => c,
        };
        match security.check_command(c.as_str()) {
            Err(e) => Err(McpError::Security(e)),
            Ok(()) => Ok(c),
        }
    }
}

/// The shell tool's answer for a command that ran: whether it exited successfully, what
/// it wrote to its output and error output, and its exit code if it has one.
pub struct ShellReply {
    pub success: bool,
    pub stdout: String,
    pub stderr: String,
    pub exit_code: Option<i32>,
}

impl ShellTool {
    /// The answer for a command that ran and ended with `success`, having written
    /// `stdout` and `stderr`, with `exit_code`: always a reply carrying all four, also when
    /// the command failed.
    pub fn reply(&self, success: bool, stdout: String, stderr: String, exit_code: Option<i32>) -> (r:
        Result<ShellReply, McpError>)
        ensures
            r matches Ok(rep) && rep.success == success && rep.stdout@ == stdout@ && rep.stderr@
                == stderr@ && rep.exit_code == exit_code,
    {
        Ok(ShellReply { success, stdout, stderr, exit_code })
    }
}

/// The answer of the web search tool.
pub struct WebSearchReply {
    pub query: String,
    pub message: String,
}

/// The web search tool (searching itself is not implemented).
pub struct WebSearchTool;

impl WebSearchTool {
    /// The tool's name.
    pub fn name(&self) -> (s: &'static str)
        ensures
            s@ == "web_search"@,
    {
        "web_search"
    }

    /// What the tool does.
    pub fn description(&self) -> (s: &'static str)
        ensures
            s@ == "Web 搜索工具"@,
    {
        "Web 搜索工具"
    }

    /// The answer for the text parameter `query` (absent when missing or not text): the
    /// query echoed with no results and a note that searching is not implemented yet.
    pub fn search(&self, query: Option<String>) -> (r: Result<WebSearchReply, McpError>)
        ensures
            match query {
                None => r matches Err(e) && e@ == (ToolFault::MissingParam { name: "query"@ }),
                Some(q) => r matches Ok(reply) && reply.query@ == q@ && reply.message@
                    == "搜索功能待实现"@,
            },
    {
        match query {
            None => Err(McpError::MissingParam { name: owned("query") }),
            Some(q) => Ok(WebSearchReply { query: q, message: owned("搜索功能待实现") }),
        }
    }
}

/// Registers the built-in tools: file system, shell and web search, in that order.
pub fn init_default_tools(registry: &mut McpToolRegistry) -> (r: Result<(), McpError>)
    ensures
        r is Ok,
        final(registry).entries() == with_tool(
            with_tool(
                with_tool(
                    old(registry).entries(),
                    "filesystem"@,
                    "文件系统操作工具，支持读写文件、列出目录等"@,
                ),
                "shell"@,
                "Shell 命令执行工具"@,
            ),
            "web_search"@,
            "Web 搜索工具"@,
        ),
        final(registry).position("filesystem"@) is Some,
        final(registry).position("shell"@) is Some,
        final(registry).position("web_search"@) is Some,
{
    let fs = FileSystemTool;
    let sh = ShellTool::new();
    let ws = WebSearchTool;
    proof {
        reveal_strlit("filesystem");
        reveal_strlit("shell");
        reveal_strlit("web_search");
        assert("filesystem"@.len() != "shell"@.len());
        assert("filesystem"@[0] != "web_search"@[0]);
        assert("shell"@.len() != "web_search"@.len());
    }
    let r1 = registry.register_tool(fs.name(), fs.description());
    let i1 = match r1 {
        Ok(i) => i,
        Err(_) => 0,
    };
    assert(registry.entries()[i1 as int].0 == "filesystem"@);
    let r2 = registry.register_tool(sh.name(), sh.description());
    let i2 = match r2 {
        Ok(i) => i,
        Err(_) => 0,
    };
    assert(registry.entries()[i1 as int].0 == "filesystem"@);
    assert(registry.entries()[i2 as int].0 == "shell"@);
    let r3 = registry.register_tool(ws.name(), ws.description());
    let i3 = match r3 {
        Ok(i) => i,
        Err(_) => 0,
    };
    assert(registry.entries()[i1 as int].0 == "filesystem"@);
    assert(registry.entries()[i2 as int].0 == "shell"@);
    assert(registry.entries()[i3 as int].0 == "web_search"@);
    Ok(())
}

} // verus!
