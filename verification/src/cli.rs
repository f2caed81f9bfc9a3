//! The command line's decisions: reading mode and provider names, what a line typed into
//! the interactive shell asks for, and what the `config` and `ai` commands do to the
//! rules and the provider settings (and what they report).
use vstd::prelude::*;

use crate::ai_config::{
    ai_message, provider_marker, AiConfigError, AiConfigManager, AiFault, AiProvider,
    AiProviderConfig, ProviderMarker, ProviderView,
};
use crate::security::{refusal_message, ExecutionMode, Refusal, SecurityError, SecurityManager};
use crate::text::{
    ascii_lowered, concat, concat3, owned, plain_case_text, str_eq, trim, trimmed, unicode_lowercase,
    views,
};

verus! {

/// Why a command-line request failed, as plain values.
pub enum CliFault {
    UnknownMode { mode: Seq<char> },
    Security(Refusal),
    Ai(AiFault),
}

/// Why a command-line request failed.
pub enum CliError {
    /// The mode name is neither strict nor normal.
    UnknownMode { mode: String },
    /// The rules refused a change.
    Security(SecurityError),
    /// The provider settings refused a change.
    Ai(AiConfigError),
}

impl View for CliError {
    type V = CliFault;

    open spec fn view(&self) -> CliFault {
        match self {
            CliError::UnknownMode { mode } => CliFault::UnknownMode { mode: mode@ },
            CliError::Security(e) => CliFault::Security(e@),
            CliError::Ai(e) => CliFault::Ai(e@),
        }
    }
}

/// The text of a failure as shown to the user.
pub open spec fn cli_message(e: CliFault) -> Seq<char> {
    match e {
        CliFault::UnknownMode { mode } => "未知模式: "@ + mode + ". 请使用 'strict' 或 'normal'"@,
        CliFault::Security(r) => refusal_message(r),
        CliFault::Ai(a) => ai_message(a),
    }
}

impl CliError {
    /// The failure's text as shown to the user.
    pub fn message(&self) -> (m: String)
        ensures
            m@ == cli_message(self@),
    {
        match self {
            CliError::UnknownMode { mode } => concat3(
                "未知模式: ",
                mode.as_str(),
                ". 请使用 'strict' 或 'normal'",
            ),
            CliError::Security(e) => e.message(),
            CliError::Ai(e) => e.message(),
        }
    }
}

/// The mode named by `lowered`, the lowercase form of the name: `strict` or `严格`,
/// `normal` or `普通`.
pub open spec fn mode_named(lowered: Seq<char>) -> Option<ExecutionMode> {
    if lowered == "strict"@ || lowered == "严格"@ {
        Some(ExecutionMode::Strict)
    } else if lowered == "normal"@ || lowered == "普通"@ {
        Some(ExecutionMode::Normal)
    } else {
        None
    }
}

/// The mode named `mode`, given its lowercase form `lowered`; an unknown name is refused
/// and reported as given.
pub fn mode_for(lowered: &str, mode: &str) -> (r: Result<ExecutionMode, CliError>)
    ensures
        match mode_named(lowered@) {
            Some(m) => r matches Ok(x) && x == m,
            None => r matches Err(e) && e@ == (CliFault::UnknownMode { mode: mode@ }),
        },
{
    if str_eq(lowered, "strict") || str_eq(lowered, "严格") {
        Ok(ExecutionMode::Strict)
    } else if str_eq(lowered, "normal") || str_eq(lowered, "普通") {
        Ok(ExecutionMode::Normal)
    } else {
        Err(CliError::UnknownMode { mode: owned(mode) })
    }
}

/// The mode named `mode`, whatever its case: `strict` or `严格`, `normal` or `普通`.
pub fn parse_mode(mode: &str) -> (r: Result<ExecutionMode, CliError>)
    ensures
        plain_case_text(mode@) ==> unicode_lowercase(mode@) == ascii_lowered(mode@),
        match mode_named(unicode_lowercase(mode@)) {
            Some(m) => r matches Ok(x) && x == m,
            None => r matches Err(e) && e@ == (CliFault::UnknownMode { mode: mode@ }),
        },
{
    let lowered = mode.to_lowercase();
    mode_for(lowered.as_str(), mode)
}

/// The name by which the command line and the settings file call a provider type.
pub open spec fn provider_type_name(p: AiProvider) -> Seq<char> {
    match p {
        AiProvider::OpenAi => "openai"@,
        AiProvider::DeepSeek => "deepseek"@,
        AiProvider::Ollama => "ollama"@,
        AiProvider::ChatGpt => "chatgpt"@,
        AiProvider::Custom => "custom"@,
    }
}

/// The provider type named by `lowered`, a lowercase name.
pub open spec fn provider_named(lowered: Seq<char>) -> Option<AiProvider> {
    if lowered == "openai"@ {
        Some(AiProvider::OpenAi)
    } else if lowered == "deepseek"@ {
        Some(AiProvider::DeepSeek)
    } else if lowered == "ollama"@ {
        Some(AiProvider::Ollama)
    } else if lowered == "chatgpt"@ {
        Some(AiProvider::ChatGpt)
    } else if lowered == "custom"@ {
        Some(AiProvider::Custom)
    } else {
        None
    }
}

/// The provider type named `provider`, given its lowercase form `lowered`; an unknown
/// name is refused and reported as given.
pub fn provider_for(lowered: &str, provider: &str) -> (r: Result<AiProvider, CliError>)
    ensures
        match provider_named(lowered@) {
            Some(p) => r matches Ok(x) && x == p,
            None => r matches Err(e) && e@ == CliFault::Ai(
                AiFault::UnknownProviderType { name: provider@ },
            ),
        },
{
    if str_eq(lowered, "openai") {
        Ok(AiProvider::OpenAi)
    } else if str_eq(lowered, "deepseek") {
        Ok(AiProvider::DeepSeek)
    } else if str_eq(lowered, "ollama") {
        Ok(AiProvider::Ollama)
    } else if str_eq(lowered, "chatgpt") {
        Ok(AiProvider::ChatGpt)
    } else if str_eq(lowered, "custom") {
        Ok(AiProvider::Custom)
    } else {
        Err(CliError::Ai(AiConfigError::UnknownProviderType { name: owned(provider) }))
    }
}

/// The provider type named `provider`, whatever its case: `openai`, `deepseek`,
/// `ollama`, `chatgpt` or `custom`.
pub fn parse_provider_type(provider: &str) -> (r: Result<AiProvider, CliError>)
    ensures
        plain_case_text(provider@) ==> unicode_lowercase(provider@) == ascii_lowered(provider@),
        match provider_named(unicode_lowercase(provider@)) {
            Some(p) => r matches Ok(x) && x == p,
            None => r matches Err(e) && e@ == CliFault::Ai(
                AiFault::UnknownProviderType { name: provider@ },
            ),
        },
{
    let lowered = provider.to_lowercase();
    provider_for(lowered.as_str(), provider)
}

/// Every provider type is read back from its own name.
pub proof fn law_provider_names_round_trip(p: AiProvider)
    ensures
        provider_named(provider_type_name(p)) == Some(p),
{
    reveal_strlit("openai");
    reveal_strlit("deepseek");
    reveal_strlit("ollama");
    reveal_strlit("chatgpt");
    reveal_strlit("custom");
    assert("openai"@[0] != "deepseek"@[0]);
    assert("openai"@[1] != "ollama"@[1]);
    assert("openai"@[0] != "chatgpt"@[0]);
    assert("openai"@[0] != "custom"@[0]);
    assert("deepseek"@[0] != "ollama"@[0]);
    assert("deepseek"@[0] != "chatgpt"@[0]);
    assert("deepseek"@[0] != "custom"@[0]);
    assert("ollama"@[0] != "chatgpt"@[0]);
    assert("ollama"@[0] != "custom"@[0]);
    assert("chatgpt"@[1] != "custom"@[1]);
}

/// Exactly `strict` and `严格` name the strict mode, and exactly `normal` and `普通`
/// name the normal mode.
pub proof fn law_mode_names(lowered: Seq<char>)
    ensures
        mode_named(lowered) == Some(ExecutionMode::Strict) <==> (lowered == "strict"@ || lowered
            == "严格"@),
        mode_named(lowered) == Some(ExecutionMode::Normal) <==> (lowered == "normal"@ || lowered
            == "普通"@),
{
    reveal_strlit("strict");
    reveal_strlit("严格");
    reveal_strlit("normal");
    reveal_strlit("普通");
    assert("strict"@[0] != "normal"@[0]);
    assert("严格"@.len() != "normal"@.len());
    assert("strict"@.len() != "普通"@.len());
    assert("严格"@[0] != "普通"@[0]);
}

/// What a line typed into the interactive shell asks for.
pub enum ShellAction {
    /// Nothing (a blank line).
    Skip,
    /// Leave the shell.
    Exit,
    /// Show the help.
    Help,
    /// Show the mode.
    ShowMode,
    /// Execute the (trimmed) line.
    Run(String),
}

/// What the line `input` asks for: it is trimmed first; blank lines are skipped; `exit`
/// and `quit` leave, `help` and `mode` show; anything else is executed.
pub fn shell_action(input: &str) -> (r: ShellAction)
    ensures
        trimmed(input@).len() == 0 ==> r is Skip,
        trimmed(input@) == "exit"@ || trimmed(input@) == "quit"@ ==> r is Exit,
        trimmed(input@) == "help"@ ==> r is Help,
        trimmed(input@) == "mode"@ ==> r is ShowMode,
        trimmed(input@).len() > 0 && trimmed(input@) != "exit"@ && trimmed(input@) != "quit"@
            && trimmed(input@) != "help"@ && trimmed(input@) != "mode"@ ==> (r matches ShellAction::Run(
            line,
        ) && line@ == trimmed(input@)),
{
    proof {
        reveal_strlit("exit");
        reveal_strlit("quit");
        reveal_strlit("help");
        reveal_strlit("mode");
        assert("help"@[0] != "exit"@[0] && "help"@[0] != "quit"@[0]);
        assert("mode"@[0] != "exit"@[0] && "mode"@[0] != "quit"@[0] && "mode"@[0] != "help"@[0]);
    }
    let line = trim(input);
    if line.as_str().is_empty() {
        ShellAction::Skip
    } else if str_eq(line.as_str(), "exit") || str_eq(line.as_str(), "quit") {
        ShellAction::Exit
    } else if str_eq(line.as_str(), "help") {
        ShellAction::Help
    } else if str_eq(line.as_str(), "mode") {
        ShellAction::ShowMode
    } else {
        ShellAction::Run(line)
    }
}

/// A change to the rules asked for on the command line.
pub enum ConfigAction {
    AllowCommand { pattern: String },
    DenyCommand { pattern: String },
    AllowTool { name: String },
    DenyTool { name: String },
    List,
    SetMode { mode: String },
}

/// The mode's name as `{:?}` shows it.
pub open spec fn mode_debug_name(m: ExecutionMode) -> Seq<char> {
    match m {
        ExecutionMode::Strict => "Strict"@,
        ExecutionMode::Normal => "Normal"@,
    }
}

/// The tool and API lists, the forbidden words and the length limit are as in `old`.
pub open spec fn keeps_lists(new: SecurityManager, old: SecurityManager) -> bool {
    &&& new.tools_allowed() == old.tools_allowed()
    &&& new.tools_denied() == old.tools_denied()
    &&& new.apis_allowed() == old.apis_allowed()
    &&& new.apis_denied() == old.apis_denied()
    &&& new.settings().forbidden_patterns@ == old.settings().forbidden_patterns@
    &&& new.settings().max_command_length == old.settings().max_command_length
}

/// The command rules and the API lists are as in `old`.
pub open spec fn keeps_command_and_api_rules(new: SecurityManager, old: SecurityManager) -> bool {
    &&& new.allow_rules() == old.allow_rules()
    &&& new.deny_rules() == old.deny_rules()
    &&& new.apis_allowed() == old.apis_allowed()
    &&& new.apis_denied() == old.apis_denied()
}

/// Applies a `config` command to the rules and says what to print: the rule listing for
/// `list`, otherwise one confirmation line.  A refused change leaves the rules as they
/// were.  (The caller saves the settings afterwards.)
pub fn apply_config_action(sec: &mut SecurityManager, action: ConfigAction) -> (r: Result<
    Vec<String>,
    CliError,
>)
    ensures
        match action {
            ConfigAction::AllowCommand { pattern } => match r {
                Ok(lines) => final(sec).allow_rules() == old(sec).allow_rules().push(pattern@)
                    && views(final(sec).settings().command_allowlist@) == views(
                    old(sec).settings().command_allowlist@,
                ).push(pattern@) && final(sec).deny_rules() == old(sec).deny_rules()
                    && keeps_lists(*final(sec), *old(sec)) && views(lines@) == seq![
                    "已添加命令白名单: "@ + pattern@,
                ],
                Err(e) => e@ matches CliFault::Security(Refusal::InvalidPattern { pattern: p, .. })
                    && p == pattern@ && final(sec).same_rules(old(sec)),
            },
            ConfigAction::DenyCommand { pattern } => match r {
                Ok(lines) => final(sec).deny_rules() == old(sec).deny_rules().push(pattern@)
                    && views(final(sec).settings().command_denylist@) == views(
                    old(sec).settings().command_denylist@,
                ).push(pattern@) && final(sec).allow_rules() == old(sec).allow_rules()
                    && keeps_lists(*final(sec), *old(sec)) && views(lines@) == seq![
                    "已添加命令黑名单: "@ + pattern@,
                ],
                Err(e) => e@ matches CliFault::Security(Refusal::InvalidPattern { pattern: p, .. })
                    && p == pattern@ && final(sec).same_rules(old(sec)),
            },
            ConfigAction::AllowTool { name } => r matches Ok(lines) && final(sec).tools_allowed()
                == old(sec).tools_allowed().insert(name@) && views(
                final(sec).settings().tool_allowlist@,
            ) == views(old(sec).settings().tool_allowlist@).push(name@) && final(sec).tools_denied()
                == old(sec).tools_denied() && keeps_command_and_api_rules(*final(sec), *old(sec))
                && views(lines@) == seq!["已添加工具白名单: "@ + name@],
            ConfigAction::DenyTool { name } => r matches Ok(lines) && final(sec).tools_denied()
                == old(sec).tools_denied().insert(name@) && views(
                final(sec).settings().tool_denylist@,
            ) == views(old(sec).settings().tool_denylist@).push(name@) && final(sec).tools_allowed()
                == old(sec).tools_allowed() && keeps_command_and_api_rules(*final(sec), *old(sec))
                && views(lines@) == seq!["已添加工具黑名单: "@ + name@],
            ConfigAction::List => r matches Ok(lines) && views(lines@) == crate::security::rules_report(
                old(sec).current_mode(),
                old(sec).settings(),
            ) && final(sec).same_rules(old(sec)),
            ConfigAction::SetMode { mode } => match mode_named(unicode_lowercase(mode@)) {
                Some(m) => r matches Ok(lines) && final(sec).current_mode() == m && final(sec).same_rules(old(sec)) && views(lines@) == seq![
                    "已切换到 "@ + mode_debug_name(m) + " 模式"@,
                ],
                None => r matches Err(e) && e@ == (CliFault::UnknownMode { mode: mode@ }) && final(sec).same_rules(old(sec)),
            },
        },
        !(action is SetMode) ==> final(sec).current_mode() == old(sec).current_mode(),
        r is Err ==> final(sec).current_mode() == old(sec).current_mode(),
{
    let mut lines: Vec<String> = Vec::new();
    match action {
        ConfigAction::AllowCommand { pattern } => {
            match sec.add_command_allowlist(pattern.as_str()) {
                Err(e) => {
                    return Err(CliError::Security(e));
                },
                Ok(()) => {},
            }
            lines.push(concat("已添加命令白名单: ", pattern.as_str()));
            assert(views(lines@) =~= seq!["已添加命令白名单: "@ + pattern@]);
        },
        ConfigAction::DenyCommand { pattern } => {
            match sec.add_command_denylist(pattern.as_str()) {
                Err(e) => {
                    return Err(CliError::Security(e));
                },
                Ok(()) => {},
            }
            lines.push(concat("已添加命令黑名单: ", pattern.as_str()));
            assert(views(lines@) =~= seq!["已添加命令黑名单: "@ + pattern@]);
        },
        ConfigAction::AllowTool { name } => {
            let _ = sec.add_tool_allowlist(name.as_str());
            lines.push(concat("已添加工具白名单: ", name.as_str()));
            assert(views(lines@) =~= seq!["已添加工具白名单: "@ + name@]);
        },
        ConfigAction::DenyTool { name } => {
            let _ = sec.add_tool_denylist(name.as_str());
            lines.push(concat("已添加工具黑名单: ", name.as_str()));
            assert(views(lines@) =~= seq!["已添加工具黑名单: "@ + name@]);
        },
        ConfigAction::List => {
            lines = sec.list_rules();
        },
        ConfigAction::SetMode { mode } => {
            let m = match parse_mode(mode.as_str()) {
                Err(e) => {
                    return Err(e);
                },
                Ok(m) => m,
            };
            sec.set_mode(m);
            let name = match m {
                ExecutionMode::Strict => "Strict",
                ExecutionMode::Normal => "Normal",
            };
            lines.push(concat3("已切换到 ", name, " 模式"));
            assert(views(lines@) =~= seq!["已切换到 "@ + mode_debug_name(m) + " 模式"@]);
        },
    }
    Ok(lines)
}

/// A change to the provider settings asked for on the command line (testing a provider
/// and listing its models need the network and are not among these).
pub enum AiCommand {
    Add { name: String, provider: String, api_key: String, endpoint: Option<String>, model: Option<String> },
    Remove { name: String },
    List,
    Use { name: String },
    SetModel { name: String, model: String },
}

/// What an `ai` command reports, and whether the settings are to be saved.
pub struct AiReport {
    pub lines: Vec<String>,
    pub save: bool,
}

/// A provider type's name as `{:?}` shows it.
pub open spec fn provider_debug_name(p: AiProvider) -> Seq<char> {
    match p {
        AiProvider::OpenAi => "OpenAi"@,
        AiProvider::DeepSeek => "DeepSeek"@,
        AiProvider::Ollama => "Ollama"@,
        AiProvider::ChatGpt => "ChatGpt"@,
        AiProvider::Custom => "Custom"@,
    }
}

/// A provider type's name as `{:?}` shows it.
pub fn provider_debug_text(p: AiProvider) -> (s: &'static str)
    ensures
        s@ == provider_debug_name(p),
{
    match p {
        AiProvider::OpenAi => "OpenAi",
        AiProvider::DeepSeek => "DeepSeek",
        AiProvider::Ollama => "Ollama",
        AiProvider::ChatGpt => "ChatGpt",
        AiProvider::Custom => "Custom",
    }
}

/// The text before a listed provider's name.
pub open spec fn marker_text(m: ProviderMarker) -> Seq<char> {
    match m {
        ProviderMarker::Active => "🟢 "@,
        ProviderMarker::Enabled => "⚪ "@,
        ProviderMarker::Disabled => "⚫ "@,
    }
}

/// The marker of the provider listed under `name` with settings `c`.
pub open spec fn marker_of(m: AiConfigManager, name: Seq<char>, c: ProviderView) -> ProviderMarker {
    if (m.active() matches Some(a) && m.provider_map().contains_key(a)
        && m.provider_map()[a].name == name) {
        ProviderMarker::Active
    } else if c.enabled {
        ProviderMarker::Enabled
    } else {
        ProviderMarker::Disabled
    }
}

/// The lines listing one provider.
pub open spec fn provider_lines(m: AiConfigManager, name: Seq<char>, c: ProviderView) -> Seq<
    Seq<char>,
> {
    seq![
        marker_text(marker_of(m, name, c)) + " "@ + name,
        "   类型: "@ + provider_debug_name(c.provider),
        "   端点: "@ + c.api_endpoint,
    ] + match c.default_model {
        Some(model) => seq!["   默认模型: "@ + model],
        None => seq![],
    } + seq![""@]
}

/// The lines listing the first `n` providers of `m`.
pub open spec fn listing(m: AiConfigManager, n: nat) -> Seq<Seq<char>>
    decreases n,
{
    if n == 0 {
        seq![]
    } else {
        let e = crate::ai_config::entry_views(m.providers@)[n - 1];
        listing(m, (n - 1) as nat) + provider_lines(m, e.0, e.1)
    }
}

/// The lines of `ai list`.
pub open spec fn ai_list_report(m: AiConfigManager) -> Seq<Seq<char>> {
    if m.providers@.len() == 0 {
        seq![
            "⚠️  未配置任何 AI Provider"@,
            "   使用 `luoli ai add <名称> --provider <类型> --api-key <密钥>` 添加"@,
        ]
    } else {
        seq!["\n📋 已配置的 AI Providers:\n"@] + listing(m, m.providers@.len())
    }
}

/// The lines of `ai list` for `m`.
fn list_report(m: &AiConfigManager) -> (lines: Vec<String>)
    requires
        m.wf(),
    ensures
        views(lines@) == ai_list_report(*m),
{
    let mut lines: Vec<String> = Vec::new();
    if m.providers.len() == 0 {
        lines.push(owned("⚠️  未配置任何 AI Provider"));
        lines.push(owned("   使用 `luoli ai add <名称> --provider <类型> --api-key <密钥>` 添加"));
        assert(views(lines@) =~= ai_list_report(*m));
        return lines;
    }
    lines.push(owned("\n📋 已配置的 AI Providers:\n"));
    let mut i: usize = 0;
    while i < m.providers.len()
        invariant
            m.wf(),
            i <= m.providers@.len(),
            views(lines@) == seq!["\n📋 已配置的 AI Providers:\n"@] + listing(*m, i as nat),
        decreases m.providers@.len() - i,
    {
        let ghost before = views(lines@);
        let name = &m.providers[i].0;
        let config = &m.providers[i].1;
        let marker = provider_marker(m, name.as_str(), config);
        let mark = match marker {
            ProviderMarker::Active => "🟢 ",
            ProviderMarker::Enabled => "⚪ ",
            ProviderMarker::Disabled => "⚫ ",
        };
        let l1 = concat3(mark, " ", name.as_str());
        let l2 = concat("   类型: ", provider_debug_text(config.provider));
        let l3 = concat("   端点: ", config.api_endpoint.as_str());
        assert(l1@ == marker_text(marker_of(*m, name@, config@)) + " "@ + name@);
        lines.push(l1);
        lines.push(l2);
        lines.push(l3);
        assert(views(lines@) =~= before + seq![l1@, l2@, l3@]);
        let ghost mid = views(lines@);
        match &config.default_model {
            Some(model) => {
                lines.push(concat("   默认模型: ", model.as_str()));
            },
            None => {},
        }
        let ghost tail = match config@.default_model {
            Some(model) => seq!["   默认模型: "@ + model],
            None => Seq::<Seq<char>>::empty(),
        };
        assert(views(lines@) =~= mid + tail);
        let ghost mid2 = views(lines@);
        lines.push(owned(""));
        assert(views(lines@) =~= mid2 + seq![""@]);
        assert(crate::ai_config::entry_views(m.providers@)[i as int] == (name@, config@));
        assert(provider_lines(*m, name@, config@) =~= seq![l1@, l2@, l3@] + tail + seq![""@]);
        assert(views(lines@) =~= before + provider_lines(*m, name@, config@));
        i = i + 1;
    }
    lines
}

/// One report line.
fn one_line(s: String) -> (r: Vec<String>)
    ensures
        views(r@) == seq![s@],
{
    let mut r: Vec<String> = Vec::new();
    r.push(s);
    assert(views(r@) =~= seq![s@]);
    r
}

/// Applies an `ai` command to the provider settings and says what to print and whether
/// to save.  `add` reads the provider type (refused when unknown), fills in the command
/// line's defaults and adds the provider (refused when its endpoint is empty); `remove`
/// is refused for an unknown name; `use` and `set-model` only report an unknown name.
pub fn apply_ai_command(manager: &mut AiConfigManager, cmd: AiCommand) -> (r: Result<AiReport, CliError>)
    requires
        old(manager).wf(),
    ensures
        final(manager).wf(),
        final(manager).global_settings == old(manager).global_settings,
        old(manager).consistent() ==> final(manager).consistent(),
        r is Err ==> final(manager).provider_map() == old(manager).provider_map(),
        match cmd {
            AiCommand::Add { name, provider, api_key, endpoint, model } => match provider_named(
                unicode_lowercase(provider@),
            ) {
                None => r matches Err(e) && e@ == CliFault::Ai(
                    AiFault::UnknownProviderType { name: provider@ },
                ),
                Some(p) => {
                    let ep = match endpoint {
                        Some(x) => x@,
                        None => p.cli_endpoint(),
                    };
                    if ep.len() == 0 {
                        r matches Err(e) && e@ == CliFault::Ai(AiFault::EmptyEndpoint)
                    } else {
                        r matches Ok(rep) && rep.save && final(manager).provider_map() == old(
                            manager,
                        ).provider_map().insert(
                            name@,
                            crate::ai_config::cli_provider(
                                name@,
                                p,
                                api_key@,
                                crate::monitor::text_opt(endpoint),
                                crate::monitor::text_opt(model),
                            ),
                        ) && final(manager).active() == (match old(manager).active() {
                            Some(a) => Some(a),
                            None => Some(name@),
                        }) && views(rep.lines@) == seq![
                            "✅ 已添加 AI Provider: "@ + name@,
                            "   类型: "@ + provider@,
                            "   可以使用 `luoli ai test "@ + name@ + "` 测试连接"@,
                        ]
                    }
                },
            },
            AiCommand::Remove { name } => if old(manager).provider_map().contains_key(name@) {
                r matches Ok(rep) && rep.save && final(manager).provider_map() == old(
                    manager).provider_map().remove(name@) && (old(manager).active() != Some(name@)
                    ==> final(manager).active() == old(manager).active()) && (old(manager).active()
                    == Some(name@) ==> match final(manager).active() {
                    Some(a) => final(manager).provider_map().contains_key(a),
                    None => final(manager).provider_map() == Map::<Seq<char>, ProviderView>::empty(),
                }) && views(rep.lines@) == seq![
                    "✅ 已删除 AI Provider: "@ + name@,
                ]
            } else {
                r matches Err(e) && e@ == CliFault::Ai(AiFault::ProviderNotFound { name: name@ })
            },
            AiCommand::List => r matches Ok(rep) && !rep.save && views(rep.lines@)
                == ai_list_report(*old(manager)) && *final(manager) == *old(manager),
            AiCommand::Use { name } => r matches Ok(rep) && final(manager).provider_map() == old(
                manager).provider_map() && if old(manager).provider_map().contains_key(name@) {
                rep.save && final(manager).active() == Some(name@) && views(rep.lines@) == seq![
                    "✅ 已切换到 Provider: "@ + name@,
                ]
            } else {
                !rep.save && final(manager).active() == old(manager).active() && views(rep.lines@)
                    == seq!["❌ 切换失败: "@ + ai_message(AiFault::ProviderNotFound { name: name@ })]
            },
            AiCommand::SetModel { name, model } => r matches Ok(rep) && if old(
                manager,
            ).provider_map().contains_key(name@) {
                rep.save && final(manager).provider_map() == old(manager).provider_map().insert(
                    name@,
                    ProviderView {
                        default_model: Some(model@),
                        ..old(manager).provider_map()[name@]
                    },
                ) && views(rep.lines@) == seq!["✅ 已为 "@ + name@ + " 设置默认模型: "@ + model@]
            } else {
                !rep.save && final(manager).provider_map() == old(manager).provider_map() && views(
                    rep.lines@,
                ) == seq!["❌ 未找到 Provider: "@ + name@]
            },
        },
{
    match cmd {
        AiCommand::Add { name, provider, api_key, endpoint, model } => {
            let p = match parse_provider_type(provider.as_str()) {
                Err(e) => {
                    return Err(e);
                },
                Ok(p) => p,
            };
            let line1 = concat("✅ 已添加 AI Provider: ", name.as_str());
            let line2 = concat("   类型: ", provider.as_str());
            let line3 = concat3("   可以使用 `luoli ai test ", name.as_str(), "` 测试连接");
            let ghost ep = match crate::monitor::text_opt(endpoint) {
                Some(x) => x,
                None => p.cli_endpoint(),
            };
            let ghost nv = name@;
            let ghost expected = crate::ai_config::cli_provider(
                name@,
                p,
                api_key@,
                crate::monitor::text_opt(endpoint),
                crate::monitor::text_opt(model),
            );
            let config = AiProviderConfig::from_cli(name, p, api_key, endpoint, model);
            assert(config@ == expected && config@.name == nv && config@.api_endpoint == ep);
            match manager.add_provider(config) {
                Err(e) => Err(CliError::Ai(e)),
                Ok(()) => {
                    let mut lines: Vec<String> = Vec::new();
                    lines.push(line1);
                    lines.push(line2);
                    lines.push(line3);
                    assert(views(lines@) =~= seq![line1@, line2@, line3@]);
                    Ok(AiReport { lines, save: true })
                },
            }
        },
        AiCommand::Remove { name } => match manager.remove_provider(name.as_str()) {
            Err(e) => Err(CliError::Ai(e)),
            Ok(()) => Ok(
                AiReport { lines: one_line(concat("✅ 已删除 AI Provider: ", name.as_str())), save: true },
            ),
        },
        AiCommand::List => {
            let lines = list_report(manager);
            Ok(AiReport { lines, save: false })
        },
        AiCommand::Use { name } => match manager.set_active_provider(name.as_str()) {
            Ok(()) => Ok(
                AiReport { lines: one_line(concat("✅ 已切换到 Provider: ", name.as_str())), save: true },
            ),
            Err(e) => {
                let m = e.message();
                Ok(AiReport { lines: one_line(concat("❌ 切换失败: ", m.as_str())), save: false })
            },
        },
        AiCommand::SetModel { name, model } => {
            let known = match manager.get_provider(name.as_str()) {
                Some(_) => true,
                None => false,
            };
            if known {
                let _ = manager.set_default_model(name.as_str(), model.as_str());
                let mut line = concat3("✅ 已为 ", name.as_str(), " 设置默认模型: ");
                line.append(model.as_str());
                Ok(AiReport { lines: one_line(line), save: true })
            } else {
                Ok(
                    AiReport {
                        lines: one_line(concat("❌ 未找到 Provider: ", name.as_str())),
                        save: false,
                    },
                )
            }
        },
    }
}

} // verus!
