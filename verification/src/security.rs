//! The rule engine: which commands, tools and APIs the assistant may use, in the
//! normal mode (everything not denied) and the strict mode (only what is allowed).
use vstd::prelude::*;
use vstd::utf8::encode_utf8;

use crate::config::{ApiConfig, AppConfig, McpConfig, MonitorConfig, SecurityConfig};
use crate::pattern::{
    compile, error_text, is_match, literal_text, regex_accepts, regex_finds, CompiledPattern,
    LITERAL_PATTERN_LIMIT,
};
use crate::text::{
    chars_of, concat, concat3, concat5, contains_chars, decimal, owned, seq_contains, str_contains,
    str_eq, u64_to_decimal, unicode_lowercase, views, plain_case_text, ascii_lowered,
};

verus! {

broadcast use {
    vstd::seq_lib::group_seq_properties,
    Seq::lemma_filter_push,
    Seq::lemma_push_to_set_commute,
};

/// How strictly the rules are applied.
#[derive(Clone, Copy, Debug, PartialEq, Eq, Structural)]
pub enum ExecutionMode {
    /// Only commands, tools and APIs on the allowlists may be used.
    Strict,
    /// Everything may be used that no denylist or forbidden word rules out.
    Normal,
}

impl ExecutionMode {
    /// The mode's name as shown to the user.
    pub open spec fn label(self) -> Seq<char> {
        match self {
            ExecutionMode::Strict => "严格模式"@,
            ExecutionMode::Normal => "普通模式"@,
        }
    }

    /// The mode's name as shown to the user.
    pub fn to_string(&self) -> (s: String)
        ensures
            s@ == self.label(),
    {
        match self {
            ExecutionMode::Strict => "严格模式".to_owned(),
            ExecutionMode::Normal => "普通模式".to_owned(),
        }
    }
}

/// Why the rules refused something, as plain values.
pub enum Refusal {
    CommandTooLong { length: nat, limit: nat },
    ForbiddenPattern { pattern: Seq<char> },
    CommandDenied { rule: Seq<char> },
    CommandNotAllowed { command: Seq<char> },
    ToolDenied { tool: Seq<char> },
    ToolNotAllowed { tool: Seq<char> },
    ApiDenied { url: Seq<char>, rule: Seq<char> },
    ApiNotAllowed { url: Seq<char> },
    InvalidPattern { pattern: Seq<char>, detail: Seq<char> },
}

/// Why the rules refused something.
pub enum SecurityError {
    /// The command is longer (in bytes) than the configured limit.
    CommandTooLong { length: usize, limit: usize },
    /// The lowercased command contains a forbidden word.
    ForbiddenPattern { pattern: String },
    /// The command matches a deny rule.
    CommandDenied { rule: String },
    /// Strict mode: no allow rule matches the command.
    CommandNotAllowed { command: String },
    /// The tool is on the tool denylist.
    ToolDenied { tool: String },
    /// Strict mode: the tool is not on the tool allowlist.
    ToolNotAllowed { tool: String },
    /// The URL contains a denied API prefix.
    ApiDenied { url: String, rule: String },
    /// Strict mode: the URL contains no allowed API prefix.
    ApiNotAllowed { url: String },
    /// A new rule is not a valid regular expression; `detail` is the regex crate's text.
    InvalidPattern { pattern: String, detail: String },
}

impl View for SecurityError {
    type V = Refusal;

    open spec fn view(&self) -> Refusal {
        match self {
            SecurityError::CommandTooLong { length, limit } => Refusal::CommandTooLong {
                length: *length as nat,
                limit: *limit as nat,
            },
            SecurityError::ForbiddenPattern { pattern } => Refusal::ForbiddenPattern {
                pattern: pattern@,
            },
            SecurityError::CommandDenied { rule } => Refusal::CommandDenied { rule: rule@ },
            SecurityError::CommandNotAllowed { command } => Refusal::CommandNotAllowed {
                command: command@,
            },
            SecurityError::ToolDenied { tool } => Refusal::ToolDenied { tool: tool@ },
            SecurityError::ToolNotAllowed { tool } => Refusal::ToolNotAllowed { tool: tool@ },
            SecurityError::ApiDenied { url, rule } => Refusal::ApiDenied { url: url@, rule: rule@ },
            SecurityError::ApiNotAllowed { url } => Refusal::ApiNotAllowed { url: url@ },
            SecurityError::InvalidPattern { pattern, detail } => Refusal::InvalidPattern {
                pattern: pattern@,
                detail: detail@,
            },
        }
    }
}

/// The text of a refusal as shown to the user.
pub open spec fn refusal_message(r: Refusal) -> Seq<char> {
    match r {
        Refusal::CommandTooLong { length, limit } => "命令长度超过限制 ("@ + decimal(length)
            + " > "@ + decimal(limit) + ")"@,
        Refusal::ForbiddenPattern { pattern } => "命令包含禁止的模式: '"@ + pattern + "'"@,
        Refusal::CommandDenied { rule } => "命令匹配黑名单规则: '"@ + rule + "'"@,
        Refusal::CommandNotAllowed { command } => "严格模式：命令 '"@ + command
            + "' 不在白名单内，拒绝执行"@,
        Refusal::ToolDenied { tool } => "工具 '"@ + tool + "' 在黑名单中，禁止使用"@,
        Refusal::ToolNotAllowed { tool } => "严格模式：工具 '"@ + tool + "' 不在白名单内，拒绝使用"@,
        Refusal::ApiDenied { url, rule } => "API '"@ + url + "' 匹配黑名单规则 '"@ + rule
            + "'，禁止访问"@,
        Refusal::ApiNotAllowed { url } => "严格模式：API '"@ + url + "' 不在白名单内，拒绝访问"@,
        Refusal::InvalidPattern { pattern, detail } => detail,
    }
}

impl SecurityError {
    /// The refusal's text as shown to the user.
    pub fn message(&self) -> (m: String)
        ensures
            m@ == refusal_message(self@),
    {
        match self {
            SecurityError::CommandTooLong { length, limit } => {
                let a = u64_to_decimal(*length as u64);
                let b = u64_to_decimal(*limit as u64);
                let mut m = concat3("命令长度超过限制 (", a.as_str(), " > ");
                m.append(b.as_str());
                m.append(")");
                m
            },
            SecurityError::ForbiddenPattern { pattern } => concat3(
                "命令包含禁止的模式: '",
                pattern.as_str(),
                "'",
            ),
            SecurityError::CommandDenied { rule } => concat3(
                "命令匹配黑名单规则: '",
                rule.as_str(),
                "'",
            ),
            SecurityError::CommandNotAllowed { command } => concat3(
                "严格模式：命令 '",
                command.as_str(),
                "' 不在白名单内，拒绝执行",
            ),
            SecurityError::ToolDenied { tool } => concat3(
                "工具 '",
                tool.as_str(),
                "' 在黑名单中，禁止使用",
            ),
            SecurityError::ToolNotAllowed { tool } => concat3(
                "严格模式：工具 '",
                tool.as_str(),
                "' 不在白名单内，拒绝使用",
            ),
            SecurityError::ApiDenied { url, rule } => concat5(
                "API '",
                url.as_str(),
                "' 匹配黑名单规则 '",
                rule.as_str(),
                "'，禁止访问",
            ),
            SecurityError::ApiNotAllowed { url } => concat3(
                "严格模式：API '",
                url.as_str(),
                "' 不在白名单内，拒绝访问",
            ),
            SecurityError::InvalidPattern { pattern, detail } => detail.clone(),
        }
    }
}

/// `i` is the first position at which `hits` is true.
pub open spec fn is_first_true(hits: Seq<bool>, i: int) -> bool {
    &&& 0 <= i < hits.len()
    &&& hits[i]
    &&& forall|j: int| 0 <= j < i ==> !#[trigger] hits[j]
}

/// Some position of `hits` is true.
pub open spec fn any_true(hits: Seq<bool>) -> bool {
    exists|i: int| 0 <= i < hits.len() && #[trigger] hits[i]
}

/// The first position at which `hits` is true (meaningful when there is one).
pub open spec fn first_true(hits: Seq<bool>) -> int {
    choose|i: int| is_first_true(hits, i)
}

/// There is only one first true position.
pub proof fn lemma_first_true(hits: Seq<bool>, i: int)
    requires
        is_first_true(hits, i),
    ensures
        first_true(hits) == i,
        any_true(hits),
{
    let j = first_true(hits);
    assert(is_first_true(hits, j));
    if j < i {
        assert(!hits[j]);
    }
    if i < j {
        assert(!hits[i]);
    }
}

/// For each forbidden word in order, whether `lowered` contains it.
pub open spec fn word_hits(forbidden: Seq<Seq<char>>, lowered: Seq<char>) -> Seq<bool> {
    Seq::new(forbidden.len(), |i: int| seq_contains(lowered, forbidden[i]))
}

/// For each rule in order, whether its regex matches `command`.
pub open spec fn rule_hits(rules: Seq<Seq<char>>, command: Seq<char>) -> Seq<bool> {
    Seq::new(rules.len(), |i: int| regex_finds(rules[i], command))
}

/// The rules of `list` that compile, in order.
pub open spec fn compiled_rules(list: Seq<Seq<char>>) -> Seq<Seq<char>> {
    list.filter(|p: Seq<char>| regex_accepts(p))
}

/// The length in bytes of the UTF-8 encoding of `s` (what `str::len` reports).
pub open spec fn byte_len(s: Seq<char>) -> nat {
    (encode_utf8(s).len() as usize) as nat
}

/// The source texts of compiled rules.
pub open spec fn rule_sources(ps: Seq<CompiledPattern>) -> Seq<Seq<char>> {
    ps.map_values(|p: CompiledPattern| p@)
}

/// The decision on a command, given its characters, its length in bytes, its lowercase
/// form, which deny rules match it and which allow rules match it: `None` when it may
/// run, else why not.  Checks come in this order: length, forbidden words (searched in the
/// lowercase form), deny rules (the first that matches is named), and in strict mode the
/// allow rules.
pub open spec fn command_decision(
    mode: ExecutionMode,
    limit: nat,
    forbidden: Seq<Seq<char>>,
    deny: Seq<Seq<char>>,
    command: Seq<char>,
    length: nat,
    lowered: Seq<char>,
    deny_hits: Seq<bool>,
    allow_hits: Seq<bool>,
) -> Option<Refusal> {
    if length > limit {
        Some(Refusal::CommandTooLong { length, limit })
    } else if any_true(word_hits(forbidden, lowered)) {
        Some(Refusal::ForbiddenPattern { pattern: forbidden[first_true(word_hits(forbidden, lowered))] })
    } else if any_true(deny_hits) {
        Some(Refusal::CommandDenied { rule: deny[first_true(deny_hits)] })
    } else if mode == ExecutionMode::Strict && !any_true(allow_hits) {
        Some(Refusal::CommandNotAllowed { command })
    } else {
        None
    }
}

/// The rule engine.
pub struct SecurityManager {
    mode: ExecutionMode,
    config: SecurityConfig,
    command_allow_patterns: Vec<CompiledPattern>,
    command_deny_patterns: Vec<CompiledPattern>,
    tool_allowlist: Vec<String>,
    tool_denylist: Vec<String>,
    api_allowlist: Vec<String>,
    api_denylist: Vec<String>,
}

/// Whether `name` is among `names`.
fn list_has(names: &Vec<String>, name: &str) -> (r: bool)
    ensures
        r == views(names@).contains(name@),
{
    let mut i: usize = 0;
    while i < names.len()
        invariant
            i <= names.len(),
            forall|k: int| 0 <= k < i ==> names@[k]@ != name@,
        decreases names.len() - i,
    {
        if str_eq(names[i].as_str(), name) {
            assert(views(names@)[i as int] == name@);
            return true;
        }
        i = i + 1;
    }
    assert(!views(names@).contains(name@)) by {
        if views(names@).contains(name@) {
            let k = choose|k: int| 0 <= k < views(names@).len() && views(names@)[k] == name@;
            assert(names@[k]@ == name@);
        }
    }
    false
}

/// Adds `name` to `names` unless it is there already.
fn set_insert(names: &mut Vec<String>, name: &str)
    ensures
        views(final(names)@).to_set() == views(old(names)@).to_set().insert(name@),
{
    if !list_has(names, name) {
        let ghost before = names@;
        names.push(owned(name));
        assert(views(names@) == views(before).push(name@));
    } else {
        assert(views(names@).to_set().insert(name@) =~= views(names@).to_set());
    }
}

/// The distinct entries of `items`.
fn set_of(items: &Vec<String>) -> (r: Vec<String>)
    ensures
        views(r@).to_set() == views(items@).to_set(),
{
    let mut r: Vec<String> = Vec::new();
    let mut i: usize = 0;
    assert(views(r@).to_set() =~= Set::empty());
    while i < items.len()
        invariant
            i <= items.len(),
            views(r@).to_set() == views(items@.subrange(0, i as int)).to_set(),
        decreases items.len() - i,
    {
        set_insert(&mut r, items[i].as_str());
        assert(items@.subrange(0, i + 1) == items@.subrange(0, i as int).push(items@[i as int]));
        assert(views(items@.subrange(0, i + 1)) == views(items@.subrange(0, i as int)).push(
            items@[i as int]@,
        ));
        i = i + 1;
    }
    assert(items@.subrange(0, items.len() as int) == items@);
    r
}

/// `rule` is a plain literal pattern short enough to be stated to compile.
pub open spec fn short_literal(rule: Seq<char>) -> bool {
    literal_text(rule) is Some && rule.len() <= LITERAL_PATTERN_LIMIT
}

/// `rule` is a plain literal pattern, and its regex matches exactly where its text occurs.
pub open spec fn matches_literally(rule: Seq<char>) -> bool {
    &&& literal_text(rule) is Some
    &&& forall|h: Seq<char>| #[trigger] regex_finds(rule, h) == seq_contains(h, literal_text(rule)->0)
}

/// Every short plain literal rule of `list` is among `rules` and matches literally.
pub open spec fn keeps_literal_rules(rules: Seq<Seq<char>>, list: Seq<Seq<char>>) -> bool {
    forall|p: Seq<char>|
        #[trigger] list.contains(p) && short_literal(p) ==> rules.contains(p) && matches_literally(p)
}

/// The rules among `patterns` that compile, in order.
fn compile_all(patterns: &Vec<String>) -> (r: Vec<CompiledPattern>)
    ensures
        rule_sources(r@) == compiled_rules(views(patterns@)),
        keeps_literal_rules(rule_sources(r@), views(patterns@)),
{
    let mut r: Vec<CompiledPattern> = Vec::new();
    let mut i: usize = 0;
    while i < patterns.len()
        invariant
            i <= patterns.len(),
            rule_sources(r@) == compiled_rules(views(patterns@.subrange(0, i as int))),
            keeps_literal_rules(rule_sources(r@), views(patterns@.subrange(0, i as int))),
        decreases patterns.len() - i,
    {
        let ghost before = r@;
        let ghost pv = patterns@[i as int]@;
        assert(views(patterns@.subrange(0, i + 1)) == views(
            patterns@.subrange(0, i as int),
        ).push(pv));
        match compile(patterns[i].as_str()) {
            Ok(p) => {
                r.push(p);
                assert(rule_sources(r@) == rule_sources(before).push(pv));
                assert(keeps_literal_rules(rule_sources(r@), views(patterns@.subrange(0, i + 1)))) by {
                    assert forall|q: Seq<char>|
                        #[trigger] views(patterns@.subrange(0, i + 1)).contains(q) && short_literal(q)
                        implies rule_sources(r@).contains(q) && matches_literally(q) by {
                        if q == pv {
                            assert(rule_sources(r@)[before.len() as int] == q);
                        } else {
                            let vs = views(patterns@.subrange(0, i + 1));
                            let k = choose|k: int| 0 <= k < vs.len() && #[trigger] vs[k] == q;
                            assert(k != i);
                            assert(views(patterns@.subrange(0, i as int))[k] == q);
                            let rb = rule_sources(before);
                            let m = choose|m: int| 0 <= m < rb.len() && #[trigger] rb[m] == q;
                            assert(rule_sources(r@)[m] == q);
                        }
                    }
                }
            },
            Err(_) => {
                assert(keeps_literal_rules(rule_sources(r@), views(patterns@.subrange(0, i + 1)))) by {
                    assert forall|q: Seq<char>|
                        #[trigger] views(patterns@.subrange(0, i + 1)).contains(q) && short_literal(q)
                        implies rule_sources(r@).contains(q) && matches_literally(q) by {
                        if q == pv {
                            assert(false);
                        } else {
                            let vs = views(patterns@.subrange(0, i + 1));
                            let k = choose|k: int| 0 <= k < vs.len() && #[trigger] vs[k] == q;
                            assert(k != i);
                            assert(views(patterns@.subrange(0, i as int))[k] == q);
                        }
                    }
                }
            },
        }
        i = i + 1;
    }
    assert(patterns@.subrange(0, patterns.len() as int) == patterns@);
    r
}

impl SecurityManager {
    /// The mode the rules are applied in.
    pub closed spec fn current_mode(&self) -> ExecutionMode {
        self.mode
    }

    /// The rule settings, as configured and as extended since.
    pub closed spec fn settings(&self) -> SecurityConfig {
        self.config
    }

    /// The command allow rules in force, in order.
    pub closed spec fn allow_rules(&self) -> Seq<Seq<char>> {
        rule_sources(self.command_allow_patterns@)
    }

    /// The command deny rules in force, in order.
    pub closed spec fn deny_rules(&self) -> Seq<Seq<char>> {
        rule_sources(self.command_deny_patterns@)
    }

    /// The allowed tools.
    pub closed spec fn tools_allowed(&self) -> Set<Seq<char>> {
        views(self.tool_allowlist@).to_set()
    }

    /// The denied tools.
    pub closed spec fn tools_denied(&self) -> Set<Seq<char>> {
        views(self.tool_denylist@).to_set()
    }

    /// The allowed API prefixes.
    pub closed spec fn apis_allowed(&self) -> Set<Seq<char>> {
        views(self.api_allowlist@).to_set()
    }

    /// The denied API prefixes.
    pub closed spec fn apis_denied(&self) -> Set<Seq<char>> {
        views(self.api_denylist@).to_set()
    }

    /// The decision on `command` in `mode` under this manager's rules: `None` when it may
    /// run, else why not.
    pub open spec fn command_refusal(&self, mode: ExecutionMode, command: Seq<char>) -> Option<
        Refusal,
    > {
        command_decision(
            mode,
            self.settings().max_command_length as nat,
            views(self.settings().forbidden_patterns@),
            self.deny_rules(),
            command,
            byte_len(command),
            unicode_lowercase(command),
            rule_hits(self.deny_rules(), command),
            rule_hits(self.allow_rules(), command),
        )
    }

    /// Whether `command` may run in `mode` under this manager's rules.
    pub open spec fn permits_command(&self, mode: ExecutionMode, command: Seq<char>) -> bool {
        self.command_refusal(mode, command) is None
    }

    /// The decision on `tool` in `mode`: the denylist first, then in strict mode the
    /// allowlist.
    pub open spec fn tool_refusal(&self, mode: ExecutionMode, tool: Seq<char>) -> Option<Refusal> {
        if self.tools_denied().contains(tool) {
            Some(Refusal::ToolDenied { tool })
        } else if mode == ExecutionMode::Strict && !self.tools_allowed().contains(tool) {
            Some(Refusal::ToolNotAllowed { tool })
        } else {
            None
        }
    }

    /// Some denied API prefix occurs in `url`.
    pub open spec fn api_hits_deny(&self, url: Seq<char>) -> bool {
        exists|d: Seq<char>| self.apis_denied().contains(d) && seq_contains(url, d)
    }

    /// Some allowed API prefix occurs in `url`.
    pub open spec fn api_hits_allow(&self, url: Seq<char>) -> bool {
        exists|a: Seq<char>| self.apis_allowed().contains(a) && seq_contains(url, a)
    }

    /// Whether `f` is how a refusal of `url` reads: when a denied prefix occurs in `url`,
    /// it names the URL and one such prefix; otherwise it says that strict mode allows no
    /// prefix of it.
    pub open spec fn api_refusal(&self, url: Seq<char>, f: Refusal) -> bool {
        if self.api_hits_deny(url) {
            f matches Refusal::ApiDenied { url: u, rule } && u == url && self.apis_denied().contains(
                rule,
            ) && seq_contains(url, rule)
        } else {
            f == (Refusal::ApiNotAllowed { url })
        }
    }

    /// Whether `url` may be called in `mode`.
    pub open spec fn permits_api(&self, mode: ExecutionMode, url: Seq<char>) -> bool {
        !self.api_hits_deny(url) && (mode == ExecutionMode::Strict ==> self.api_hits_allow(url))
    }

    /// Everything but the mode is the same in `self` and `other`.
    pub open spec fn same_rules(&self, other: &SecurityManager) -> bool {
        &&& self.settings().same(other.settings())
        &&& self.allow_rules() == other.allow_rules()
        &&& self.deny_rules() == other.deny_rules()
        &&& self.tools_allowed() == other.tools_allowed()
        &&& self.tools_denied() == other.tools_denied()
        &&& self.apis_allowed() == other.apis_allowed()
        &&& self.apis_denied() == other.apis_denied()
    }

    /// A manager for `config`: strict when `default_mode` is `"strict"`, else normal; the
    /// command rules are those of the lists that compile (the others are skipped); the
    /// tool and API lists become sets.
    pub fn new(config: SecurityConfig) -> (r: Result<SecurityManager, SecurityError>)
        ensures
            r is Ok,
            r matches Ok(m) ==> {
                &&& m.current_mode() == (if config.default_mode@ == "strict"@ {
                    ExecutionMode::Strict
                } else {
                    ExecutionMode::Normal
                })
                &&& m.settings().same(config)
                &&& m.allow_rules() == compiled_rules(views(config.command_allowlist@))
                &&& m.deny_rules() == compiled_rules(views(config.command_denylist@))
                &&& keeps_literal_rules(m.allow_rules(), views(config.command_allowlist@))
                &&& keeps_literal_rules(m.deny_rules(), views(config.command_denylist@))
                &&& m.tools_allowed() == views(config.tool_allowlist@).to_set()
                &&& m.tools_denied() == views(config.tool_denylist@).to_set()
                &&& m.apis_allowed() == views(config.api_allowlist@).to_set()
                &&& m.apis_denied() == views(config.api_denylist@).to_set()
            },
    {
        let mode = if str_eq(config.default_mode.as_str(), "strict") {
            ExecutionMode::Strict
        } else {
            ExecutionMode::Normal
        };
        let command_allow_patterns = compile_all(&config.command_allowlist);
        let command_deny_patterns = compile_all(&config.command_denylist);
        let tool_allowlist = set_of(&config.tool_allowlist);
        let tool_denylist = set_of(&config.tool_denylist);
        let api_allowlist = set_of(&config.api_allowlist);
        let api_denylist = set_of(&config.api_denylist);
        Ok(
            SecurityManager {
                mode,
                config,
                command_allow_patterns,
                command_deny_patterns,
                tool_allowlist,
                tool_denylist,
                api_allowlist,
                api_denylist,
            },
        )
    }

    /// The number of command deny rules in force.
    pub fn deny_rule_count(&self) -> (n: usize)
        ensures
            n == self.deny_rules().len(),
    {
        self.command_deny_patterns.len()
    }

    /// The number of command allow rules in force.
    pub fn allow_rule_count(&self) -> (n: usize)
        ensures
            n == self.allow_rules().len(),
    {
        self.command_allow_patterns.len()
    }

    /// The decision on `command`, given its lowercase form and, for each deny and allow
    /// rule in order, whether it matches the command.
    pub fn decide_command(
        &self,
        command: &str,
        lowered: &str,
        deny_hits: &Vec<bool>,
        allow_hits: &Vec<bool>,
    ) -> (r: Result<(), SecurityError>)
        requires
            deny_hits@.len() == self.deny_rules().len(),
        ensures
            match r {
                Ok(()) => command_decision(
                    self.current_mode(),
                    self.settings().max_command_length as nat,
                    views(self.settings().forbidden_patterns@),
                    self.deny_rules(),
                    command@,
                    byte_len(command@),
                    lowered@,
                    deny_hits@,
                    allow_hits@,
                ) is None,
                Err(e) => command_decision(
                    self.current_mode(),
                    self.settings().max_command_length as nat,
                    views(self.settings().forbidden_patterns@),
                    self.deny_rules(),
                    command@,
                    byte_len(command@),
                    lowered@,
                    deny_hits@,
                    allow_hits@,
                ) == Some(e@),
            },
    {
        let ghost forbidden = views(self.config.forbidden_patterns@);
        let ghost words = word_hits(forbidden, lowered@);
        if command.len() > self.config.max_command_length {
            return Err(
                SecurityError::CommandTooLong {
                    length: command.len(),
                    limit: self.config.max_command_length,
                },
            );
        }
        let lc = chars_of(lowered);
        let mut i: usize = 0;
        while i < self.config.forbidden_patterns.len()
            invariant
                i <= self.config.forbidden_patterns.len(),
                forbidden == views(self.config.forbidden_patterns@),
                words == word_hits(forbidden, lowered@),
                byte_len(command@) <= self.config.max_command_length,
                lc@ == lowered@,
                forall|k: int| 0 <= k < i ==> !#[trigger] words[k],
            decreases self.config.forbidden_patterns.len() - i,
        {
            let p = chars_of(self.config.forbidden_patterns[i].as_str());
            assert(forbidden[i as int] == self.config.forbidden_patterns@[i as int]@);
            if contains_chars(&lc, &p) {
                assert(words[i as int]);
                proof {
                    lemma_first_true(words, i as int);
                }

                return Err(
                    SecurityError::ForbiddenPattern {
                        pattern: self.config.forbidden_patterns[i].clone(),
                    },
                );
            }
            i = i + 1;
        }
        assert(!any_true(words));
        let mut j: usize = 0;
        while j < deny_hits.len()
            invariant
                j <= deny_hits.len(),
                deny_hits@.len() == self.command_deny_patterns@.len(),
                byte_len(command@) <= self.config.max_command_length,
                !any_true(word_hits(views(self.config.forbidden_patterns@), lowered@)),
                forall|k: int| 0 <= k < j ==> !#[trigger] deny_hits@[k],
            decreases deny_hits.len() - j,
        {
            if deny_hits[j] {
                proof {
                    lemma_first_true(deny_hits@, j as int);
                }
                return Err(
                    SecurityError::CommandDenied {
                        rule: self.command_deny_patterns[j].source().clone(),
                    },
                );
            }
            j = j + 1;
        }
        assert(!any_true(deny_hits@));
        if self.mode == ExecutionMode::Strict {
            let mut k: usize = 0;
            let mut allowed = false;
            while k < allow_hits.len()
                invariant
                    k <= allow_hits.len(),
                    allowed == (exists|m: int| 0 <= m < k && #[trigger] allow_hits@[m]),
                decreases allow_hits.len() - k,
            {
                if allow_hits[k] {
                    allowed = true;
                }
                k = k + 1;
            }
            if !allowed {
                return Err(SecurityError::CommandNotAllowed { command: owned(command) });
            }
        }
        Ok(())
    }

    /// Whether `command` may run: not longer than the limit (in bytes), its lowercase form
    /// contains no forbidden word, no deny rule matches it, and in strict mode some allow
    /// rule matches it.  The refusal names the first forbidden word or deny rule found.
    pub fn check_command(&self, command: &str) -> (r: Result<(), SecurityError>)
        ensures
            plain_case_text(command@) ==> unicode_lowercase(command@) == ascii_lowered(command@),
            match r {
                Ok(()) => self.command_refusal(self.current_mode(), command@) is None,
                Err(e) => self.command_refusal(self.current_mode(), command@) == Some(e@),
            },
    {
        let lowered = command.to_lowercase();
        let mut deny_hits: Vec<bool> = Vec::new();
        let mut i: usize = 0;
        while i < self.command_deny_patterns.len()
            invariant
                i <= self.command_deny_patterns.len(),
                deny_hits@ == rule_hits(self.deny_rules(), command@).take(i as int),
            decreases self.command_deny_patterns.len() - i,
        {
            deny_hits.push(is_match(&self.command_deny_patterns[i], command));
            i = i + 1;
        }
        let mut allow_hits: Vec<bool> = Vec::new();
        let mut j: usize = 0;
        while j < self.command_allow_patterns.len()
            invariant
                j <= self.command_allow_patterns.len(),
                allow_hits@ == rule_hits(self.allow_rules(), command@).take(j as int),
            decreases self.command_allow_patterns.len() - j,
        {
            allow_hits.push(is_match(&self.command_allow_patterns[j], command));
            j = j + 1;
        }
        assert(deny_hits@ == rule_hits(self.deny_rules(), command@));
        assert(allow_hits@ == rule_hits(self.allow_rules(), command@));
        self.decide_command(command, lowered.as_str(), &deny_hits, &allow_hits)
    }

    /// Whether `tool_name` may be used: not on the denylist, and in strict mode on the
    /// allowlist.
    pub fn check_tool(&self, tool_name: &str) -> (r: Result<(), SecurityError>)
        ensures
            match r {
                Ok(()) => self.tool_refusal(self.current_mode(), tool_name@) is None,
                Err(e) => self.tool_refusal(self.current_mode(), tool_name@) == Some(e@),
            },
    {
        if list_has(&self.tool_denylist, tool_name) {
            return Err(SecurityError::ToolDenied { tool: owned(tool_name) });
        }
        if self.mode == ExecutionMode::Strict {
            if !list_has(&self.tool_allowlist, tool_name) {
                return Err(SecurityError::ToolNotAllowed { tool: owned(tool_name) });
            }
        }
        Ok(())
    }

    /// Whether `api_url` may be called: it contains no denied prefix, and in strict mode it
    /// contains an allowed one.  A refusal for a denied prefix names one that occurs in the
    /// URL.
    pub fn check_api(&self, api_url: &str) -> (r: Result<(), SecurityError>)
        ensures
            r is Ok <==> self.permits_api(self.current_mode(), api_url@),
            r matches Err(e) ==> self.api_refusal(api_url@, e@),
    {
        let mut i: usize = 0;
        while i < self.api_denylist.len()
            invariant
                i <= self.api_denylist.len(),
                forall|k: int| 0 <= k < i ==> !seq_contains(api_url@, self.api_denylist@[k]@),
            decreases self.api_denylist.len() - i,
        {
            if str_contains(api_url, self.api_denylist[i].as_str()) {
                assert(self.apis_denied().contains(self.api_denylist@[i as int]@)) by {
                    assert(views(self.api_denylist@)[i as int] == self.api_denylist@[i as int]@);
                }
                return Err(
                    SecurityError::ApiDenied {
                        url: owned(api_url),
                        rule: self.api_denylist[i].clone(),
                    },
                );
            }
            i = i + 1;
        }
        assert(!self.api_hits_deny(api_url@)) by {
            if self.api_hits_deny(api_url@) {
                let d = choose|d: Seq<char>|
                    self.apis_denied().contains(d) && seq_contains(api_url@, d);
                let k = choose|k: int|
                    0 <= k < views(self.api_denylist@).len() && views(self.api_denylist@)[k] == d;
                assert(self.api_denylist@[k]@ == d);
            }
        }
        if self.mode == ExecutionMode::Strict {
            let mut allowed = false;
            let mut j: usize = 0;
            while j < self.api_allowlist.len()
                invariant
                    j <= self.api_allowlist.len(),
                    allowed == (exists|k: int|
                        0 <= k < j && seq_contains(api_url@, self.api_allowlist@[k]@)),
                decreases self.api_allowlist.len() - j,
            {
                if str_contains(api_url, self.api_allowlist[j].as_str()) {
                    allowed = true;
                }
                j = j + 1;
            }
            assert(allowed == self.api_hits_allow(api_url@)) by {
                if allowed {
                    let k = choose|k: int|
                        0 <= k < self.api_allowlist.len() && seq_contains(
                            api_url@,
                            self.api_allowlist@[k]@,
                        );
                    assert(views(self.api_allowlist@)[k] == self.api_allowlist@[k]@);
                    assert(self.apis_allowed().contains(self.api_allowlist@[k]@));
                }
                if self.api_hits_allow(api_url@) {
                    let a = choose|a: Seq<char>|
                        self.apis_allowed().contains(a) && seq_contains(api_url@, a);
                    let k = choose|k: int|
                        0 <= k < views(self.api_allowlist@).len() && views(self.api_allowlist@)[k]
                            == a;
                    assert(self.api_allowlist@[k]@ == a);
                }
            }
            if !allowed {
                return Err(SecurityError::ApiNotAllowed { url: owned(api_url) });
            }
        }
        Ok(())
    }

    /// Switches the mode; the rules stay as they are.
    pub fn set_mode(&mut self, mode: ExecutionMode)
        ensures
            final(self).current_mode() == mode,
            final(self).same_rules(old(self)),
    {
        self.mode = mode;
    }

    /// The current mode.
    pub fn mode(&self) -> (m: ExecutionMode)
        ensures
            m == self.current_mode(),
    {
        self.mode
    }

    /// Adds a command allow rule; a pattern that is not a valid regex is refused and
    /// nothing changes.
    pub fn add_command_allowlist(&mut self, pattern: &str) -> (r: Result<(), SecurityError>)
        ensures
            r is Ok <==> regex_accepts(pattern@),
            r matches Err(e) ==> (e@ matches Refusal::InvalidPattern { pattern: p, .. } && p
                == pattern@),
            regex_accepts(pattern@) ==> final(self).allow_rules() == old(self).allow_rules().push(
                pattern@,
            ),
            regex_accepts(pattern@) ==> views(final(self).settings().command_allowlist@) == views(
                old(self).settings().command_allowlist@,
            ).push(pattern@),
            !regex_accepts(pattern@) ==> final(self).allow_rules() == old(self).allow_rules(),
            !regex_accepts(pattern@) ==> final(self).settings().same(old(self).settings()),
            final(self).current_mode() == old(self).current_mode(),
            final(self).deny_rules() == old(self).deny_rules(),
            final(self).tools_allowed() == old(self).tools_allowed(),
            final(self).tools_denied() == old(self).tools_denied(),
            final(self).apis_allowed() == old(self).apis_allowed(),
            final(self).apis_denied() == old(self).apis_denied(),
            final(self).settings().command_denylist@ == old(self).settings().command_denylist@,
            final(self).settings().forbidden_patterns@ == old(self).settings().forbidden_patterns@,
            final(self).settings().max_command_length == old(self).settings().max_command_length,
    {
        match compile(pattern) {
            Ok(p) => {
                let ghost before = self.command_allow_patterns@;
                let ghost listed = self.config.command_allowlist@;
                self.command_allow_patterns.push(p);
                self.config.command_allowlist.push(owned(pattern));
                assert(rule_sources(self.command_allow_patterns@) == rule_sources(before).push(
                    pattern@,
                ));
                assert(views(self.config.command_allowlist@) == views(listed).push(pattern@));
                Ok(())
            },
            Err(e) => Err(
                SecurityError::InvalidPattern { pattern: owned(pattern), detail: error_text(&e) },
            ),
        }
    }

    /// Adds a command deny rule; a pattern that is not a valid regex is refused and
    /// nothing changes.
    pub fn add_command_denylist(&mut self, pattern: &str) -> (r: Result<(), SecurityError>)
        ensures
            r is Ok <==> regex_accepts(pattern@),
            r matches Err(e) ==> (e@ matches Refusal::InvalidPattern { pattern: p, .. } && p
                == pattern@),
            regex_accepts(pattern@) ==> final(self).deny_rules() == old(self).deny_rules().push(
                pattern@,
            ),
            regex_accepts(pattern@) ==> views(final(self).settings().command_denylist@) == views(
                old(self).settings().command_denylist@,
            ).push(pattern@),
            !regex_accepts(pattern@) ==> final(self).deny_rules() == old(self).deny_rules(),
            !regex_accepts(pattern@) ==> final(self).settings().same(old(self).settings()),
            final(self).current_mode() == old(self).current_mode(),
            final(self).allow_rules() == old(self).allow_rules(),
            final(self).tools_allowed() == old(self).tools_allowed(),
            final(self).tools_denied() == old(self).tools_denied(),
            final(self).apis_allowed() == old(self).apis_allowed(),
            final(self).apis_denied() == old(self).apis_denied(),
            final(self).settings().command_allowlist@ == old(self).settings().command_allowlist@,
            final(self).settings().forbidden_patterns@ == old(self).settings().forbidden_patterns@,
            final(self).settings().max_command_length == old(self).settings().max_command_length,
    {
        match compile(pattern) {
            Ok(p) => {
                let ghost before = self.command_deny_patterns@;
                let ghost listed = self.config.command_denylist@;
                self.command_deny_patterns.push(p);
                self.config.command_denylist.push(owned(pattern));
                assert(rule_sources(self.command_deny_patterns@) == rule_sources(before).push(
                    pattern@,
                ));
                assert(views(self.config.command_denylist@) == views(listed).push(pattern@));
                Ok(())
            },
            Err(e) => Err(
                SecurityError::InvalidPattern { pattern: owned(pattern), detail: error_text(&e) },
            ),
        }
    }

    /// Allows a tool (always succeeds).
    pub fn add_tool_allowlist(&mut self, name: &str) -> (r: Result<(), SecurityError>)
        ensures
            r is Ok,
            final(self).tools_allowed() == old(self).tools_allowed().insert(name@),
            views(final(self).settings().tool_allowlist@) == views(
                old(self).settings().tool_allowlist@,
            ).push(name@),
            final(self).tools_denied() == old(self).tools_denied(),
            final(self).current_mode() == old(self).current_mode(),
            final(self).allow_rules() == old(self).allow_rules(),
            final(self).deny_rules() == old(self).deny_rules(),
            final(self).apis_allowed() == old(self).apis_allowed(),
            final(self).apis_denied() == old(self).apis_denied(),
    {
        let ghost listed = self.config.tool_allowlist@;
        set_insert(&mut self.tool_allowlist, name);
        self.config.tool_allowlist.push(owned(name));
        assert(views(self.config.tool_allowlist@) == views(listed).push(name@));
        Ok(())
    }

    /// Denies a tool (always succeeds).
    pub fn add_tool_denylist(&mut self, name: &str) -> (r: Result<(), SecurityError>)
        ensures
            r is Ok,
            final(self).tools_denied() == old(self).tools_denied().insert(name@),
            views(final(self).settings().tool_denylist@) == views(
                old(self).settings().tool_denylist@,
            ).push(name@),
            final(self).tools_allowed() == old(self).tools_allowed(),
            final(self).current_mode() == old(self).current_mode(),
            final(self).allow_rules() == old(self).allow_rules(),
            final(self).deny_rules() == old(self).deny_rules(),
            final(self).apis_allowed() == old(self).apis_allowed(),
            final(self).apis_denied() == old(self).apis_denied(),
    {
        let ghost listed = self.config.tool_denylist@;
        set_insert(&mut self.tool_denylist, name);
        self.config.tool_denylist.push(owned(name));
        assert(views(self.config.tool_denylist@) == views(listed).push(name@));
        Ok(())
    }
}

/// Each of `items` behind `prefix`.
pub open spec fn prefixed(prefix: Seq<char>, items: Seq<Seq<char>>) -> Seq<Seq<char>> {
    items.map_values(|x: Seq<char>| prefix + x)
}

/// The lines of the rule listing: the mode, then each list under its heading.
pub open spec fn rules_report(mode: ExecutionMode, c: SecurityConfig) -> Seq<Seq<char>> {
    seq!["\n=== 安全规则配置 ==="@, "当前模式: "@ + mode.label(), "\n命令白名单:"@] + prefixed(
        "  + "@,
        views(c.command_allowlist@),
    ) + seq!["\n命令黑名单:"@] + prefixed("  - "@, views(c.command_denylist@)) + seq![
        "\n工具白名单:"@,
    ] + prefixed("  + "@, views(c.tool_allowlist@)) + seq!["\n工具黑名单:"@] + prefixed(
        "  - "@,
        views(c.tool_denylist@),
    ) + seq!["\nAPI白名单:"@] + prefixed("  + "@, views(c.api_allowlist@)) + seq![
        "\nAPI黑名单:"@,
    ] + prefixed("  - "@, views(c.api_denylist@)) + seq!["\n禁止模式:"@] + prefixed(
        "  ! "@,
        views(c.forbidden_patterns@),
    )
}

/// The rule listing shows, in this order: its title, the mode's name, then each list
/// under its own heading: the command allowlist and denylist, the tool allowlist and
/// denylist, the API allowlist and denylist and the forbidden words, every entry of a
/// list on its own line behind its mark (`+` for allowed, `-` for denied, `!` for
/// forbidden), in the list's order.
pub proof fn law_rules_listing(mode: ExecutionMode, c: SecurityConfig)
    ensures
        ({
            let l = rules_report(mode, c);
            let ca = views(c.command_allowlist@);
            let cd = views(c.command_denylist@);
            let ta = views(c.tool_allowlist@);
            let td = views(c.tool_denylist@);
            let aa = views(c.api_allowlist@);
            let ad = views(c.api_denylist@);
            let fw = views(c.forbidden_patterns@);
            let p1: int = 2;
            let p2: int = p1 + 1 + ca.len();
            let p3: int = p2 + 1 + cd.len();
            let p4: int = p3 + 1 + ta.len();
            let p5: int = p4 + 1 + td.len();
            let p6: int = p5 + 1 + aa.len();
            let p7: int = p6 + 1 + ad.len();
            &&& l.len() == p7 + 1 + fw.len()
            &&& l[0] == "\n=== 安全规则配置 ==="@
            &&& l[1] == "当前模式: "@ + mode.label()
            &&& l[p1] == "\n命令白名单:"@
            &&& (forall|i: int| 0 <= i < ca.len() ==> l[p1 + 1 + i] == "  + "@ + ca[i])
            &&& l[p2] == "\n命令黑名单:"@
            &&& (forall|i: int| 0 <= i < cd.len() ==> l[p2 + 1 + i] == "  - "@ + cd[i])
            &&& l[p3] == "\n工具白名单:"@
            &&& (forall|i: int| 0 <= i < ta.len() ==> l[p3 + 1 + i] == "  + "@ + ta[i])
            &&& l[p4] == "\n工具黑名单:"@
            &&& (forall|i: int| 0 <= i < td.len() ==> l[p4 + 1 + i] == "  - "@ + td[i])
            &&& l[p5] == "\nAPI白名单:"@
            &&& (forall|i: int| 0 <= i < aa.len() ==> l[p5 + 1 + i] == "  + "@ + aa[i])
            &&& l[p6] == "\nAPI黑名单:"@
            &&& (forall|i: int| 0 <= i < ad.len() ==> l[p6 + 1 + i] == "  - "@ + ad[i])
            &&& l[p7] == "\n禁止模式:"@
            &&& (forall|i: int| 0 <= i < fw.len() ==> l[p7 + 1 + i] == "  ! "@ + fw[i])
        }),
{
}

/// Appends `heading`, then each of `items` behind `prefix`.
fn push_section(lines: &mut Vec<String>, heading: &str, prefix: &str, items: &Vec<String>)
    ensures
        views(final(lines)@) == views(old(lines)@) + seq![heading@] + prefixed(
            prefix@,
            views(items@),
        ),
{
    let ghost start = views(lines@);
    lines.push(owned(heading));
    let mut i: usize = 0;
    while i < items.len()
        invariant
            i <= items.len(),
            views(lines@) == start + seq![heading@] + prefixed(
                prefix@,
                views(items@.subrange(0, i as int)),
            ),
        decreases items.len() - i,
    {
        let ghost before = lines@;
        lines.push(concat(prefix, items[i].as_str()));
        assert(views(lines@) == views(before).push(prefix@ + items@[i as int]@));
        assert(views(items@.subrange(0, i + 1)) == views(items@.subrange(0, i as int)).push(
            items@[i as int]@,
        ));
        i = i + 1;
    }
    assert(items@.subrange(0, items.len() as int) == items@);
}

impl SecurityManager {
    /// The rule listing, one line per entry: the current mode, then the command
    /// allowlist and denylist, the tool allowlist and denylist, the API allowlist and
    /// denylist and the forbidden words, each under its heading.
    pub fn list_rules(&self) -> (lines: Vec<String>)
        ensures
            views(lines@) == rules_report(self.current_mode(), self.settings()),
    {
        let mut lines: Vec<String> = Vec::new();
        lines.push(owned("\n=== 安全规则配置 ==="));
        let mode = self.mode.to_string();
        lines.push(concat("当前模式: ", mode.as_str()));
        push_section(&mut lines, "\n命令白名单:", "  + ", &self.config.command_allowlist);
        push_section(&mut lines, "\n命令黑名单:", "  - ", &self.config.command_denylist);
        push_section(&mut lines, "\n工具白名单:", "  + ", &self.config.tool_allowlist);
        push_section(&mut lines, "\n工具黑名单:", "  - ", &self.config.tool_denylist);
        push_section(&mut lines, "\nAPI白名单:", "  + ", &self.config.api_allowlist);
        push_section(&mut lines, "\nAPI黑名单:", "  - ", &self.config.api_denylist);
        push_section(&mut lines, "\n禁止模式:", "  ! ", &self.config.forbidden_patterns);
        assert(views(lines@) =~= rules_report(self.current_mode(), self.settings()));
        lines
    }

    /// The settings to write back when the rules are saved: the current rules, with the
    /// standard log settings (`~/.luoli/logs/activity.log`, 10 MiB, 5 files, output
    /// captured, environment not), tools and API enabled with no entries.
    pub fn save_config(&self) -> (c: AppConfig)
        ensures
            c.security.same(self.settings()),
            c.monitor.enabled,
            c.monitor.log_file@ == "~/.luoli/logs/activity.log"@,
            c.monitor.max_log_size == 10 * 1024 * 1024,
            c.monitor.log_rotation == 5,
            c.monitor.capture_output,
            !c.monitor.capture_env,
            c.mcp.enabled,
            c.mcp.tools@.len() == 0,
            c.api.enabled,
            c.api.endpoints@.len() == 0,
    {
        AppConfig {
            security: self.config.clone(),
            monitor: MonitorConfig {
                enabled: true,
                log_file: owned("~/.luoli/logs/activity.log"),
                max_log_size: 10 * 1024 * 1024,
                log_rotation: 5,
                capture_output: true,
                capture_env: false,
            },
            mcp: McpConfig { enabled: true, tools: Vec::new() },
            api: ApiConfig { enabled: true, endpoints: Vec::new() },
        }
    }
}

/// Strict mode never lets through a command that normal mode refuses.
pub proof fn law_strict_command_implies_normal(m: SecurityManager, command: Seq<char>)
    ensures
        m.permits_command(ExecutionMode::Strict, command) ==> m.permits_command(
            ExecutionMode::Normal,
            command,
        ),
{
}

/// A command that a deny rule matches is refused in both modes, however the allow rules
/// read.
pub proof fn law_denied_command_refused(m: SecurityManager, command: Seq<char>, i: int)
    requires
        0 <= i < m.deny_rules().len(),
        regex_finds(m.deny_rules()[i], command),
    ensures
        !m.permits_command(ExecutionMode::Strict, command),
        !m.permits_command(ExecutionMode::Normal, command),
{
    assert(rule_hits(m.deny_rules(), command)[i]);
}

/// A command whose lowercase form contains a forbidden word is refused in both modes.
pub proof fn law_forbidden_word_refused(m: SecurityManager, command: Seq<char>, i: int)
    requires
        0 <= i < m.settings().forbidden_patterns@.len(),
        seq_contains(unicode_lowercase(command), m.settings().forbidden_patterns@[i]@),
    ensures
        !m.permits_command(ExecutionMode::Strict, command),
        !m.permits_command(ExecutionMode::Normal, command),
{
    assert(word_hits(views(m.settings().forbidden_patterns@), unicode_lowercase(command))[i]);
}

/// In normal mode the allow rules play no part: two managers that differ only in their
/// allow rules decide every command alike.
pub proof fn law_normal_mode_ignores_allow_rules(
    a: SecurityManager,
    b: SecurityManager,
    command: Seq<char>,
)
    requires
        a.deny_rules() == b.deny_rules(),
        a.settings().max_command_length == b.settings().max_command_length,
        a.settings().forbidden_patterns@ == b.settings().forbidden_patterns@,
    ensures
        a.permits_command(ExecutionMode::Normal, command) == b.permits_command(
            ExecutionMode::Normal,
            command,
        ),
{
}

/// Adding a deny rule never lets a command through that was refused before, and refuses
/// every command the new rule matches.
pub proof fn law_deny_rule_narrows(
    before: SecurityManager,
    after: SecurityManager,
    rule: Seq<char>,
    mode: ExecutionMode,
    command: Seq<char>,
)
    requires
        after.deny_rules() == before.deny_rules().push(rule),
        after.allow_rules() == before.allow_rules(),
        after.settings().max_command_length == before.settings().max_command_length,
        after.settings().forbidden_patterns@ == before.settings().forbidden_patterns@,
    ensures
        after.permits_command(mode, command) ==> before.permits_command(mode, command),
        regex_finds(rule, command) ==> !after.permits_command(mode, command),
{
    let hb = rule_hits(before.deny_rules(), command);
    let ha = rule_hits(after.deny_rules(), command);
    if any_true(hb) {
        let i = choose|i: int| 0 <= i < hb.len() && #[trigger] hb[i];
        assert(ha[i]);
    }
    if regex_finds(rule, command) {
        assert(ha[before.deny_rules().len() as int]);
    }
}

/// Adding an allow rule never refuses a command that was let through before.
pub proof fn law_allow_rule_widens(
    before: SecurityManager,
    after: SecurityManager,
    rule: Seq<char>,
    mode: ExecutionMode,
    command: Seq<char>,
)
    requires
        after.allow_rules() == before.allow_rules().push(rule),
        after.deny_rules() == before.deny_rules(),
        after.settings().max_command_length == before.settings().max_command_length,
        after.settings().forbidden_patterns@ == before.settings().forbidden_patterns@,
    ensures
        before.permits_command(mode, command) ==> after.permits_command(mode, command),
{
    let hb = rule_hits(before.allow_rules(), command);
    let ha = rule_hits(after.allow_rules(), command);
    if any_true(hb) {
        let i = choose|i: int| 0 <= i < hb.len() && #[trigger] hb[i];
        assert(ha[i]);
    }
}

/// A denied tool is refused in both modes, even when it is also allowed; strict mode
/// never lets through a tool that normal mode refuses.
pub proof fn law_tool_rules(m: SecurityManager, tool: Seq<char>)
    ensures
        m.tools_denied().contains(tool) ==> m.tool_refusal(ExecutionMode::Strict, tool) == Some(
            Refusal::ToolDenied { tool },
        ) && m.tool_refusal(ExecutionMode::Normal, tool) == Some(Refusal::ToolDenied { tool }),
        m.tool_refusal(ExecutionMode::Strict, tool) is None ==> m.tool_refusal(
            ExecutionMode::Normal,
            tool,
        ) is None,
        !m.tools_denied().contains(tool) ==> m.tool_refusal(ExecutionMode::Normal, tool) is None,
{
}

/// A URL that contains a denied prefix is refused in both modes; strict mode never lets
/// through a URL that normal mode refuses.
pub proof fn law_api_rules(m: SecurityManager, url: Seq<char>)
    ensures
        m.api_hits_deny(url) ==> !m.permits_api(ExecutionMode::Strict, url) && !m.permits_api(
            ExecutionMode::Normal,
            url,
        ),
        m.permits_api(ExecutionMode::Strict, url) ==> m.permits_api(ExecutionMode::Normal, url),
{
}

/// A deny rule that is a plain literal pattern refuses, in both modes, every command in
/// which its text occurs.
pub proof fn law_literal_deny_rule_refuses(m: SecurityManager, rule: Seq<char>, command: Seq<char>)
    requires
        m.deny_rules().contains(rule),
        matches_literally(rule),
        seq_contains(command, literal_text(rule)->0),
    ensures
        !m.permits_command(ExecutionMode::Strict, command),
        !m.permits_command(ExecutionMode::Normal, command),
{
    let rules = m.deny_rules();
    let i = choose|i: int| 0 <= i < rules.len() && #[trigger] rules[i] == rule;
    assert(regex_finds(rule, command));
    law_denied_command_refused(m, command, i);
}

/// The fork bomb rule is a plain literal pattern standing for the fork bomb.
#[verifier::rlimit(50)]
proof fn lemma_fork_bomb_rule_text()
    ensures
        literal_text(crate::config::fork_bomb_rule()) == Some(crate::config::fork_bomb()),
{
    let r = seq![':', '\\', '(', '\\', ')', '\\', '{', ' ', ':', '\\', '|', ':', '&', ' ', '\\', '}', ';', ':'];
    let t = seq![':', '(', ')', '{', ' ', ':', '|', ':', '&', ' ', '}', ';', ':'];
    assert(literal_text(r.subrange(18, 18)) == Some(t.subrange(13, 13))) by {
        assert(r.subrange(18, 18).len() == 0);
        assert(t.subrange(13, 13) =~= Seq::<char>::empty());
    }
    assert(literal_text(r.subrange(17, 18)) == Some(t.subrange(12, 13))) by {
        assert(r.subrange(17, 18).subrange(1, 1) =~= r.subrange(18, 18));
        assert(seq![t[12]] + t.subrange(13, 13) =~= t.subrange(12, 13));
    }
    assert(literal_text(r.subrange(16, 18)) == Some(t.subrange(11, 13))) by {
        assert(r.subrange(16, 18).subrange(1, 2) =~= r.subrange(17, 18));
        assert(seq![t[11]] + t.subrange(12, 13) =~= t.subrange(11, 13));
    }
    assert(literal_text(r.subrange(14, 18)) == Some(t.subrange(10, 13))) by {
        assert(r.subrange(14, 18).subrange(2, 4) =~= r.subrange(16, 18));
        assert(seq![t[10]] + t.subrange(11, 13) =~= t.subrange(10, 13));
    }
    assert(literal_text(r.subrange(13, 18)) == Some(t.subrange(9, 13))) by {
        assert(r.subrange(13, 18).subrange(1, 5) =~= r.subrange(14, 18));
        assert(seq![t[9]] + t.subrange(10, 13) =~= t.subrange(9, 13));
    }
    assert(literal_text(r.subrange(12, 18)) == Some(t.subrange(8, 13))) by {
        assert(r.subrange(12, 18).subrange(1, 6) =~= r.subrange(13, 18));
        assert(seq![t[8]] + t.subrange(9, 13) =~= t.subrange(8, 13));
    }
    assert(literal_text(r.subrange(11, 18)) == Some(t.subrange(7, 13))) by {
        assert(r.subrange(11, 18).subrange(1, 7) =~= r.subrange(12, 18));
        assert(seq![t[7]] + t.subrange(8, 13) =~= t.subrange(7, 13));
    }
    assert(literal_text(r.subrange(9, 18)) == Some(t.subrange(6, 13))) by {
        assert(r.subrange(9, 18).subrange(2, 9) =~= r.subrange(11, 18));
        assert(seq![t[6]] + t.subrange(7, 13) =~= t.subrange(6, 13));
    }
    assert(literal_text(r.subrange(8, 18)) == Some(t.subrange(5, 13))) by {
        assert(r.subrange(8, 18).subrange(1, 10) =~= r.subrange(9, 18));
        assert(seq![t[5]] + t.subrange(6, 13) =~= t.subrange(5, 13));
    }
    assert(literal_text(r.subrange(7, 18)) == Some(t.subrange(4, 13))) by {
        assert(r.subrange(7, 18).subrange(1, 11) =~= r.subrange(8, 18));
        assert(seq![t[4]] + t.subrange(5, 13) =~= t.subrange(4, 13));
    }
    assert(literal_text(r.subrange(5, 18)) == Some(t.subrange(3, 13))) by {
        assert(r.subrange(5, 18).subrange(2, 13) =~= r.subrange(7, 18));
        assert(seq![t[3]] + t.subrange(4, 13) =~= t.subrange(3, 13));
    }
    assert(literal_text(r.subrange(3, 18)) == Some(t.subrange(2, 13))) by {
        assert(r.subrange(3, 18).subrange(2, 15) =~= r.subrange(5, 18));
        assert(seq![t[2]] + t.subrange(3, 13) =~= t.subrange(2, 13));
    }
    assert(literal_text(r.subrange(1, 18)) == Some(t.subrange(1, 13))) by {
        assert(r.subrange(1, 18).subrange(2, 17) =~= r.subrange(3, 18));
        assert(seq![t[1]] + t.subrange(2, 13) =~= t.subrange(1, 13));
    }
    assert(literal_text(r.subrange(0, 18)) == Some(t.subrange(0, 13))) by {
        assert(r.subrange(0, 18).subrange(1, 18) =~= r.subrange(1, 18));
        assert(seq![t[0]] + t.subrange(1, 13) =~= t.subrange(0, 13));
    }
    assert(r.subrange(0, 18) =~= r);
    assert(t.subrange(0, 13) =~= t);
    lemma_fork_bomb_chars();
}

/// The characters of the fork bomb and of its rule.
proof fn lemma_fork_bomb_chars()
    ensures
        crate::config::fork_bomb_rule() == seq![':', '\\', '(', '\\', ')', '\\', '{', ' ', ':', '\\', '|', ':', '&', ' ', '\\', '}', ';', ':'],
        crate::config::fork_bomb() == seq![':', '(', ')', '{', ' ', ':', '|', ':', '&', ' ', '}', ';', ':'],
{
    reveal_strlit(":\\(\\)\\{ :\\|:& \\};:");
    reveal_strlit(":(){ :|:& };:");
    assert(crate::config::fork_bomb_rule() =~= seq![':', '\\', '(', '\\', ')', '\\', '{', ' ', ':', '\\', '|', ':', '&', ' ', '\\', '}', ';', ':']);
    assert(crate::config::fork_bomb() =~= seq![':', '(', ')', '{', ' ', ':', '|', ':', '&', ' ', '}', ';', ':']);
}

/// A manager that keeps the literal rules of the default deny list (as `new` does for a
/// configuration with that list) refuses the fork bomb in both modes.
pub proof fn law_default_rules_refuse_fork_bomb(m: SecurityManager)
    requires
        keeps_literal_rules(m.deny_rules(), crate::config::default_command_denylist()),
    ensures
        !m.permits_command(ExecutionMode::Strict, crate::config::fork_bomb()),
        !m.permits_command(ExecutionMode::Normal, crate::config::fork_bomb()),
{
    let rule = crate::config::fork_bomb_rule();
    let bomb = crate::config::fork_bomb();
    lemma_fork_bomb_rule_text();
    assert(crate::config::default_command_denylist()[4] == rule);
    assert(crate::config::default_command_denylist().contains(rule));
    assert(rule.len() <= LITERAL_PATTERN_LIMIT) by {
        reveal_strlit(":\\(\\)\\{ :\\|:& \\};:");
    }
    assert(short_literal(rule));
    assert(bomb.subrange(0int, 0int + bomb.len()) =~= bomb);
    assert(seq_contains(bomb, bomb));
    law_literal_deny_rule_refuses(m, rule, bomb);
}

} // verus!
