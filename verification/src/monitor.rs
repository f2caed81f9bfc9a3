//! The activity log: what was run, by whom, with what outcome; the in-memory window of
//! recent records, searching, statistics, export formats and log rotation.
use vstd::prelude::*;
use std::collections::VecDeque;

use crate::config::MonitorConfig;
use crate::text::{
    chars_of, concat, decimal, owned, seq_contains, str_contains, string_from_chars, u64_to_decimal,
    views,
};

verus! {

broadcast use {vstd::seq_lib::group_seq_properties, Seq::lemma_filter_push};

/// The most records the monitor keeps in memory.
pub const MAX_RECORDS: usize = 1000;

/// What kind of activity a record describes.
#[derive(Clone, Copy, Debug, PartialEq, Eq, Structural)]
pub enum ActivityType {
    CommandExecution,
    ToolInvocation,
    ApiCall,
    FileAccess,
    ModeChange,
    ConfigChange,
    SecurityViolation,
}

impl ActivityType {
    /// The activity kind's name as shown to the user.
    pub open spec fn label(self) -> Seq<char> {
        match self {
            ActivityType::CommandExecution => "命令执行"@,
            ActivityType::ToolInvocation => "工具调用"@,
            ActivityType::ApiCall => "API调用"@,
            ActivityType::FileAccess => "文件访问"@,
            ActivityType::ModeChange => "模式切换"@,
            ActivityType::ConfigChange => "配置变更"@,
            ActivityType::SecurityViolation => "安全违规"@,
        }
    }

    /// The activity kind's name as shown to the user.
    pub fn to_string(&self) -> (s: String)
        ensures
            s@ == self.label(),
    {
        match self {
            ActivityType::CommandExecution => owned("命令执行"),
            ActivityType::ToolInvocation => owned("工具调用"),
            ActivityType::ApiCall => owned("API调用"),
            ActivityType::FileAccess => owned("文件访问"),
            ActivityType::ModeChange => owned("模式切换"),
            ActivityType::ConfigChange => owned("配置变更"),
            ActivityType::SecurityViolation => owned("安全违规"),
        }
    }
}

/// The outcome of an activity, as plain values.
pub enum StatusView {
    Success,
    Failed(Seq<char>),
    Blocked(Seq<char>),
    Pending,
}

/// The outcome of an activity.
pub enum ActivityStatus {
    Success,
    Failed(String),
    Blocked(String),
    Pending,
}

impl View for ActivityStatus {
    type V = StatusView;

    open spec fn view(&self) -> StatusView {
        match self {
            ActivityStatus::Success => StatusView::Success,
            ActivityStatus::Failed(r) => StatusView::Failed(r@),
            ActivityStatus::Blocked(r) => StatusView::Blocked(r@),
            ActivityStatus::Pending => StatusView::Pending,
        }
    }
}

impl Clone for ActivityStatus {
    fn clone(&self) -> (r: Self)
        ensures
            r@ == self@,
    {
        match self {
            ActivityStatus::Success => ActivityStatus::Success,
            ActivityStatus::Failed(s) => ActivityStatus::Failed(s.clone()),
            ActivityStatus::Blocked(s) => ActivityStatus::Blocked(s.clone()),
            ActivityStatus::Pending => ActivityStatus::Pending,
        }
    }
}

/// The outcome's text as shown to the user.
pub open spec fn status_label(s: StatusView) -> Seq<char> {
    match s {
        StatusView::Success => "成功"@,
        StatusView::Failed(reason) => "失败: "@ + reason,
        StatusView::Blocked(reason) => "阻止: "@ + reason,
        StatusView::Pending => "进行中"@,
    }
}

/// Whether two outcomes are of the same kind, whatever their reasons.
pub open spec fn same_status_kind(a: StatusView, b: StatusView) -> bool {
    match (a, b) {
        (StatusView::Success, StatusView::Success) => true,
        (StatusView::Failed(_), StatusView::Failed(_)) => true,
        (StatusView::Blocked(_), StatusView::Blocked(_)) => true,
        (StatusView::Pending, StatusView::Pending) => true,
        _ => false,
    }
}

impl ActivityStatus {
    /// The outcome's text as shown to the user.
    pub fn to_string(&self) -> (s: String)
        ensures
            s@ == status_label(self@),
    {
        match self {
            ActivityStatus::Success => owned("成功"),
            ActivityStatus::Failed(reason) => concat("失败: ", reason.as_str()),
            ActivityStatus::Blocked(reason) => concat("阻止: ", reason.as_str()),
            ActivityStatus::Pending => owned("进行中"),
        }
    }

    /// Whether `self` and `other` are of the same kind, whatever their reasons.
    pub fn same_kind(&self, other: &ActivityStatus) -> (b: bool)
        ensures
            b == same_status_kind(self@, other@),
    {
        match (self, other) {
            (ActivityStatus::Success, ActivityStatus::Success) => true,
            (ActivityStatus::Failed(_), ActivityStatus::Failed(_)) => true,
            (ActivityStatus::Blocked(_), ActivityStatus::Blocked(_)) => true,
            (ActivityStatus::Pending, ActivityStatus::Pending) => true,
            _ => false,
        }
    }
}

/// A moment in UTC: seconds since the Unix epoch and the nanoseconds past that second.
#[derive(Clone, Copy, Debug, PartialEq, Eq, Structural)]
pub struct Timestamp {
    pub secs: i64,
    pub nanos: u32,
}

/// The character is a lowercase hexadecimal digit.
pub open spec fn is_lower_hex(c: char) -> bool {
    ('0' <= c && c <= '9') || ('a' <= c && c <= 'f')
}

/// `s` is a version-4 UUID in lowercase hyphenated form
/// (`xxxxxxxx-xxxx-4xxx-yxxx-xxxxxxxxxxxx` with `y` one of `8`, `9`, `a`, `b`).
pub open spec fn is_uuid_v4_text(s: Seq<char>) -> bool {
    &&& s.len() == 36
    &&& forall|i: int|
        0 <= i < 36 ==> if i == 8 || i == 13 || i == 18 || i == 23 {
            #[trigger] s[i] == '-'
        } else {
            is_lower_hex(s[i])
        }
    &&& s[14] == '4'
    &&& (s[19] == '8' || s[19] == '9' || s[19] == 'a' || s[19] == 'b')
}

/// Sixteen bytes from the system's random source: `getrandom::fill` on a 16-byte
/// buffer, `None` when the source fails.  The bytes are random, so nothing is stated of
/// them.
#[verifier::external_body]
fn random_bytes() -> (r: Option<[u8; 16]>) {
    let mut bytes = [0u8; 16];
    match getrandom::fill(&mut bytes) {
        Ok(()) => Some(bytes),
        Err(_) => None,
    }
}

/// The text of the version-4 UUID that `uuid::Builder::from_random_bytes` makes of
/// `bytes`.
pub uninterp spec fn uuid_v4_text(bytes: Seq<u8>) -> Seq<char>;

/// `uuid::Builder::from_random_bytes(bytes).into_uuid()` rendered by its `Display`: the
/// crate sets the version and variant bits of `bytes` and writes the UUID as lowercase
/// hyphenated hex, so the text has `4` at position 14 and one of `8`, `9`, `a`, `b` at
/// position 19.  It does not panic.
#[verifier::external_body]
fn uuid_from_random_bytes(bytes: [u8; 16]) -> (s: String)
    ensures
        s@ == uuid_v4_text(bytes@),
        is_uuid_v4_text(s@),
{
    uuid::Builder::from_random_bytes(bytes).into_uuid().to_string()
}

/// A fresh record id: a version-4 UUID made of random bytes, or `None` when the system's
/// random source fails.
pub(crate) fn new_record_id() -> (id: Option<String>)
    ensures
        id matches Some(s) ==> is_uuid_v4_text(s@),
{
    match random_bytes() {
        Some(bytes) => Some(uuid_from_random_bytes(bytes)),
        None => None,
    }
}

/// The system clock's time since the Unix epoch:
/// `std::time::SystemTime::now().duration_since(std::time::UNIX_EPOCH)`, as whole seconds
/// and the nanoseconds past them (std documents these as below one second), or `None`
/// when the clock reads earlier than the epoch.  The value depends on the clock.
#[verifier::external_body]
fn clock_since_epoch() -> (r: Option<(u64, u32)>)
    ensures
        r matches Some(d) ==> d.1 < 1_000_000_000,
{
    match std::time::SystemTime::now().duration_since(std::time::UNIX_EPOCH) {
        Ok(d) => Some((d.as_secs(), d.subsec_nanos())),
        Err(_) => None,
    }
}

/// `chrono::DateTime::<chrono::Utc>::from_timestamp(secs, nanos)`, as seconds and
/// nanoseconds: `None` when the moment is out of chrono's range or the nanoseconds are
/// invalid; otherwise the crate guarantees the round trip, so the seconds and
/// nanoseconds are the given ones.
#[verifier::external_body]
fn utc_at(secs: i64, nanos: u32) -> (r: Option<Timestamp>)
    ensures
        r matches Some(t) ==> t.secs == secs && t.nanos == nanos,
{
    match chrono::DateTime::<chrono::Utc>::from_timestamp(secs, nanos) {
        Some(t) => Some(Timestamp { secs: t.timestamp(), nanos: t.timestamp_subsec_nanos() }),
        None => None,
    }
}

/// The current time in UTC, or `None` when the system clock reads earlier than the epoch
/// or beyond what chrono can represent.
pub(crate) fn utc_now() -> (t: Option<Timestamp>)
    ensures
        t matches Some(x) ==> x.secs >= 0 && x.nanos < 1_000_000_000,
{
    match clock_since_epoch() {
        None => None,
        Some((secs, nanos)) => {
            if secs <= 9_223_372_036_854_775_807u64 {
                utc_at(secs as i64, nanos)
            } else {
                None
            }
        },
    }
}

/// The name of the user running the assistant: `whoami::username()`, which falls back to
/// a fixed default name when the system does not say.  Nothing is stated of the value,
/// which depends on the machine.
#[verifier::external_body]
pub(crate) fn current_user() -> String {
    whoami::username()
}

/// A record, as plain values.
pub struct RecordView {
    pub id: Seq<char>,
    pub timestamp: Timestamp,
    pub activity_type: ActivityType,
    pub user: Seq<char>,
    pub command: Seq<char>,
    pub args: Seq<Seq<char>>,
    pub working_dir: Seq<char>,
    pub status: StatusView,
    pub duration_ms: Option<u64>,
    pub output: Option<Seq<char>>,
    pub env_vars: Option<Seq<(Seq<char>, Seq<char>)>>,
    pub metadata: Seq<char>,
}

/// The characters of name/value pairs.
pub open spec fn pair_views(v: Seq<(String, String)>) -> Seq<(Seq<char>, Seq<char>)> {
    v.map_values(|p: (String, String)| (p.0@, p.1@))
}

/// One logged activity.  `metadata` holds extra facts as JSON text.
pub struct ActivityRecord {
    pub id: String,
    pub timestamp: Timestamp,
    pub activity_type: ActivityType,
    pub user: String,
    pub command: String,
    pub args: Vec<String>,
    pub working_dir: String,
    pub status: ActivityStatus,
    pub duration_ms: Option<u64>,
    pub output: Option<String>,
    pub env_vars: Option<Vec<(String, String)>>,
    pub metadata: String,
}

impl View for ActivityRecord {
    type V = RecordView;

    open spec fn view(&self) -> RecordView {
        RecordView {
            id: self.id@,
            timestamp: self.timestamp,
            activity_type: self.activity_type,
            user: self.user@,
            command: self.command@,
            args: views(self.args@),
            working_dir: self.working_dir@,
            status: self.status@,
            duration_ms: self.duration_ms,
            output: match self.output {
                Some(o) => Some(o@),
                None => None,
            },
            env_vars: match self.env_vars {
                Some(v) => Some(pair_views(v@)),
                None => None,
            },
            metadata: self.metadata@,
        }
    }
}

/// A copy of a list of strings.
pub fn clone_strings(v: &Vec<String>) -> (r: Vec<String>)
    ensures
        r@ == v@,
{
    let r = v.clone();
    assert(r@ =~= v@);
    r
}

/// A copy of a list of name/value pairs.
pub fn clone_pairs(v: &Vec<(String, String)>) -> (r: Vec<(String, String)>)
    ensures
        pair_views(r@) == pair_views(v@),
{
    let mut r: Vec<(String, String)> = Vec::new();
    let mut i: usize = 0;
    while i < v.len()
        invariant
            i <= v.len(),
            pair_views(r@) == pair_views(v@.subrange(0, i as int)),
        decreases v.len() - i,
    {
        let ghost before = r@;
        r.push((v[i].0.clone(), v[i].1.clone()));
        assert(pair_views(r@) == pair_views(before).push((v@[i as int].0@, v@[i as int].1@)));
        assert(v@.subrange(0, i + 1) == v@.subrange(0, i as int).push(v@[i as int]));
        i = i + 1;
    }
    assert(v@.subrange(0, v.len() as int) == v@);
    r
}

impl Clone for ActivityRecord {
    fn clone(&self) -> (r: Self)
        ensures
            r@ == self@,
    {
        let output = match &self.output {
            Some(o) => Some(o.clone()),
            None => None,
        };
        let env_vars = match &self.env_vars {
            Some(v) => Some(clone_pairs(v)),
            None => None,
        };
        ActivityRecord {
            id: self.id.clone(),
            timestamp: self.timestamp,
            activity_type: self.activity_type,
            user: self.user.clone(),
            command: self.command.clone(),
            args: clone_strings(&self.args),
            working_dir: self.working_dir.clone(),
            status: self.status.clone(),
            duration_ms: self.duration_ms,
            output,
            env_vars,
            metadata: self.metadata.clone(),
        }
    }
}

/// `r` is a pending record just made for an activity of kind `activity_type` by `user`
/// running `command` with `args` in `working_dir`: a version-4 UUID as its id, a time
/// not before the epoch, no duration, output or environment, and empty metadata (`{}`).
pub open spec fn fresh_record(
    r: RecordView,
    activity_type: ActivityType,
    user: Seq<char>,
    command: Seq<char>,
    args: Seq<String>,
    working_dir: Seq<char>,
) -> bool {
    &&& is_uuid_v4_text(r.id)
    &&& r.timestamp.secs >= 0
    &&& r.timestamp.nanos < 1_000_000_000
    &&& r.activity_type == activity_type
    &&& r.user == user
    &&& r.command == command
    &&& r.args == views(args)
    &&& r.working_dir == working_dir
    &&& r.status == StatusView::Pending
    &&& r.duration_ms is None
    &&& r.output is None
    &&& r.env_vars is None
    &&& r.metadata == "{}"@
}

impl ActivityRecord {
    /// A pending record of an activity started now in `working_dir`, with a fresh id, no
    /// duration, output or environment, and empty metadata (`{}`); `None` when the system
    /// clock or the system's random source cannot give the time or the id.
    pub fn new(
        activity_type: ActivityType,
        user: String,
        command: String,
        args: Vec<String>,
        working_dir: String,
    ) -> (r: Option<ActivityRecord>)
        ensures
            r matches Some(rec) ==> fresh_record(rec@, activity_type, user@, command@, args@, working_dir@),
    {
        let id = match new_record_id() {
            Some(id) => id,
            None => {
                return None;
            },
        };
        let timestamp = match utc_now() {
            Some(t) => t,
            None => {
                return None;
            },
        };
        Some(
            ActivityRecord {
                id,
                timestamp,
                activity_type,
                user,
                command,
                args,
                working_dir,
                status: ActivityStatus::Pending,
                duration_ms: None,
                output: None,
                env_vars: None,
                metadata: owned("{}"),
            },
        )
    }

    /// The record with `output` as its output.
    pub fn with_output(self, output: String) -> (r: ActivityRecord)
        ensures
            r@ == (RecordView { output: Some(output@), ..self@ }),
    {
        let mut r = self;
        r.output = Some(output);
        r
    }

    /// The record with `status` as its outcome.
    pub fn with_status(self, status: ActivityStatus) -> (r: ActivityRecord)
        ensures
            r@ == (RecordView { status: status@, ..self@ }),
    {
        let mut r = self;
        r.status = status;
        r
    }

    /// The record with `duration_ms` as its duration.
    pub fn with_duration(self, duration_ms: u64) -> (r: ActivityRecord)
        ensures
            r@ == (RecordView { duration_ms: Some(duration_ms), ..self@ }),
    {
        let mut r = self;
        r.duration_ms = Some(duration_ms);
        r
    }

    /// The record with `env_vars` as its environment.
    pub fn with_env_vars(self, env_vars: Vec<(String, String)>) -> (r: ActivityRecord)
        ensures
            r@ == (RecordView { env_vars: Some(pair_views(env_vars@)), ..self@ }),
    {
        let mut r = self;
        r.env_vars = Some(env_vars);
        r
    }

    /// The record with `metadata` (JSON text) as its metadata.
    pub fn with_metadata(self, metadata: String) -> (r: ActivityRecord)
        ensures
            r@ == (RecordView { metadata: metadata@, ..self@ }),
    {
        let mut r = self;
        r.metadata = metadata;
        r
    }
}

/// The views of records.
pub open spec fn record_views(rs: Seq<ActivityRecord>) -> Seq<RecordView> {
    rs.map_values(|r: ActivityRecord| r@)
}

/// The last `n` entries of `s` (all of it when it is shorter).
pub open spec fn last_n<A>(s: Seq<A>, n: nat) -> Seq<A> {
    if s.len() > n {
        s.skip(s.len() - n)
    } else {
        s
    }
}

/// The view of an optional outcome.
pub open spec fn status_opt(s: Option<ActivityStatus>) -> Option<StatusView> {
    match s {
        Some(x) => Some(x@),
        None => None,
    }
}

/// The characters of an optional string.
pub open spec fn text_opt(s: Option<String>) -> Option<Seq<char>> {
    match s {
        Some(x) => Some(x@),
        None => None,
    }
}

/// Whether a record passes a search: of the given kind, with an outcome of the given
/// kind, and with the keyword in its command or in one of its arguments (each filter
/// applies only when given).
pub open spec fn record_matches(
    r: RecordView,
    activity_type: Option<ActivityType>,
    status: Option<StatusView>,
    keyword: Option<Seq<char>>,
) -> bool {
    &&& (activity_type matches Some(t) ==> r.activity_type == t)
    &&& (status matches Some(s) ==> same_status_kind(r.status, s))
    &&& (keyword matches Some(k) ==> seq_contains(r.command, k) || exists|i: int|
        0 <= i < r.args.len() && seq_contains(#[trigger] r.args[i], k))
}

/// The records that pass a search, in log order.
pub open spec fn search_result(
    rs: Seq<RecordView>,
    activity_type: Option<ActivityType>,
    status: Option<StatusView>,
    keyword: Option<Seq<char>>,
) -> Seq<RecordView> {
    rs.filter(|r: RecordView| record_matches(r, activity_type, status, keyword))
}

/// A search by keyword alone finds every record whose command or any argument contains
/// the keyword, and only such records.
pub proof fn law_keyword_search(held: Seq<RecordView>, k: Seq<char>)
    ensures
        forall|j: int, i: int|
            0 <= j < held.len() && 0 <= i < held[j].args.len() && seq_contains(
                #[trigger] held[j].args[i],
                k,
            ) ==> search_result(held, None, None, Some(k)).contains(held[j]),
        forall|j: int|
            0 <= j < held.len() && seq_contains(#[trigger] held[j].command, k) ==> search_result(
                held,
                None,
                None,
                Some(k),
            ).contains(held[j]),
        forall|x: RecordView|
            #[trigger] search_result(held, None, None, Some(k)).contains(x) ==> seq_contains(
                x.command,
                k,
            ) || exists|i: int| 0 <= i < x.args.len() && seq_contains(#[trigger] x.args[i], k),
{
    let pred = |r: RecordView| record_matches(r, None, None, Some(k));
    assert forall|j: int, i: int|
        0 <= j < held.len() && 0 <= i < held[j].args.len() && seq_contains(
            #[trigger] held[j].args[i],
            k,
        ) implies search_result(held, None, None, Some(k)).contains(held[j]) by {
        assert(pred(held[j]));
        held.lemma_filter_contains(pred, j);
    }
    assert forall|j: int|
        0 <= j < held.len() && seq_contains(#[trigger] held[j].command, k) implies search_result(
        held,
        None,
        None,
        Some(k),
    ).contains(held[j]) by {
        assert(pred(held[j]));
        held.lemma_filter_contains(pred, j);
    }
    assert forall|x: RecordView|
        #[trigger] search_result(held, None, None, Some(k)).contains(x) implies seq_contains(
        x.command,
        k,
    ) || exists|i: int| 0 <= i < x.args.len() && seq_contains(#[trigger] x.args[i], k) by {
        let f = held.filter(pred);
        let m = choose|m: int| 0 <= m < f.len() && f[m] == x;
        held.lemma_filter_pred(pred, m);
    }
}

/// How many records have an outcome of the same kind as `s`.
pub open spec fn count_status(rs: Seq<RecordView>, s: StatusView) -> nat {
    rs.filter(|r: RecordView| same_status_kind(r.status, s)).len()
}

/// How many records are of kind `t`.
pub open spec fn count_type(rs: Seq<RecordView>, t: ActivityType) -> nat {
    rs.filter(|r: RecordView| r.activity_type == t).len()
}

/// Counts over the records held in memory.
pub struct ActivityStatistics {
    pub total_records: usize,
    pub success: usize,
    pub failed: usize,
    pub blocked: usize,
    pub command: usize,
    pub tool: usize,
    pub api: usize,
    pub violation: usize,
}

/// A format the log can be exported in.
#[derive(Clone, Copy, Debug, PartialEq, Eq, Structural)]
pub enum ExportFormat {
    Json,
    Csv,
}

/// Why the monitor refused a request.
pub enum MonitorError {
    /// The export format is neither `json` nor `csv`.
    UnsupportedFormat { format: String },
}

impl ExportFormat {
    /// The format named `format`: `json` or `csv`; any other name is refused.
    pub fn parse(format: &str) -> (r: Result<ExportFormat, MonitorError>)
        ensures
            format@ == "json"@ ==> r == Ok::<ExportFormat, MonitorError>(ExportFormat::Json),
            format@ == "csv"@ ==> r == Ok::<ExportFormat, MonitorError>(ExportFormat::Csv),
            format@ != "json"@ && format@ != "csv"@ ==> (r matches Err(
                MonitorError::UnsupportedFormat { format: f },
            ) && f@ == format@),
    {
        proof {
            reveal_strlit("json");
            reveal_strlit("csv");
            assert("json"@.len() != "csv"@.len());
        }
        if crate::text::str_eq(format, "json") {
            Ok(ExportFormat::Json)
        } else if crate::text::str_eq(format, "csv") {
            Ok(ExportFormat::Csv)
        } else {
            Err(MonitorError::UnsupportedFormat { format: owned(format) })
        }
    }
}

/// A step of log rotation, as plain values.
pub enum RotationView {
    RemoveIfExists(Seq<char>),
    RenameIfExists(Seq<char>, Seq<char>),
    Rename(Seq<char>, Seq<char>),
}

/// A step of log rotation.
pub enum RotationStep {
    /// Delete the file if it is there.
    RemoveIfExists { path: String },
    /// Rename the file if it is there.
    RenameIfExists { from: String, to: String },
    /// Rename the file; failing is an error.
    Rename { from: String, to: String },
}

impl View for RotationStep {
    type V = RotationView;

    open spec fn view(&self) -> RotationView {
        match self {
            RotationStep::RemoveIfExists { path } => RotationView::RemoveIfExists(path@),
            RotationStep::RenameIfExists { from, to } => RotationView::RenameIfExists(from@, to@),
            RotationStep::Rename { from, to } => RotationView::Rename(from@, to@),
        }
    }
}

/// `path.n`.
pub open spec fn numbered(path: Seq<char>, n: nat) -> Seq<char> {
    path + "."@ + decimal(n)
}

/// The renames that shift the numbered backups up by one, newest last:
/// `path.(keep-1)` to `path.keep`, down to `path.1` to `path.2`.
pub open spec fn shift_steps(path: Seq<char>, keep: nat) -> Seq<RotationView> {
    if keep >= 1 {
        Seq::new(
            (keep - 1) as nat,
            |k: int|
                RotationView::RenameIfExists(
                    numbered(path, (keep - 1 - k) as nat),
                    numbered(path, (keep - k) as nat),
                ),
        )
    } else {
        seq![]
    }
}

/// The steps of a rotation that keeps `keep` backups of `path`: drop `path.keep.gz`,
/// shift the numbered backups up by one, and move the log itself to `path.1`.
pub open spec fn rotation_plan(path: Seq<char>, keep: nat) -> Seq<RotationView> {
    seq![RotationView::RemoveIfExists(numbered(path, keep) + ".gz"@)] + shift_steps(path, keep)
        + seq![RotationView::Rename(path, numbered(path, 1))]
}

/// `path.n`.
fn numbered_path(path: &str, n: usize) -> (r: String)
    ensures
        r@ == numbered(path@, n as nat),
{
    let mut r = concat(path, ".");
    let d = u64_to_decimal(n as u64);
    r.append(d.as_str());
    r
}

/// The first `limit` characters of `output` (all of it when shorter), and whether
/// `output` is longer than `limit` bytes.
pub fn output_preview(output: &str, limit: usize) -> (r: (String, bool))
    ensures
        r.0@ == output@.take(if output@.len() < limit { output@.len() as int } else { limit as int }),
        r.1 == (output.len() > limit),
{
    let cs = chars_of(output);
    let n = if cs.len() < limit {
        cs.len()
    } else {
        limit
    };
    let s = string_from_chars(&cs, 0, n);
    (s, output.len() > limit)
}

/// The activity monitor: its settings and the most recent records, oldest first.
pub struct ActivityMonitor {
    config: MonitorConfig,
    records: VecDeque<ActivityRecord>,
}

impl ActivityMonitor {
    /// The records held in memory, oldest first.
    pub closed spec fn held(&self) -> Seq<RecordView> {
        record_views(self.records@)
    }

    /// The monitor's settings.
    pub closed spec fn settings(&self) -> MonitorConfig {
        self.config
    }

    #[verifier::type_invariant]
    spec fn bounded(&self) -> bool {
        self.records@.len() <= MAX_RECORDS
    }

    /// A monitor with `config` and no records.
    pub fn new(config: MonitorConfig) -> (m: ActivityMonitor)
        ensures
            m.held() == Seq::<RecordView>::empty(),
            m.settings() == config,
    {
        let m = ActivityMonitor { config, records: VecDeque::new() };
        assert(m.held() =~= Seq::<RecordView>::empty());
        m
    }

    /// The number of records held.
    pub fn len(&self) -> (n: usize)
        ensures
            n == self.held().len(),
            n <= MAX_RECORDS,
    {
        proof {
            use_type_invariant(self);
        }
        self.records.len()
    }

    /// Adds `record` as the newest, dropping the oldest when more than `MAX_RECORDS`
    /// would be held; tells whether the record is to be written to the log file (when
    /// logging is enabled).  After writing, the caller rotates the file by
    /// `rotation_plan` whenever `should_rotate` says its size has reached the limit.
    pub fn log_activity(&mut self, record: ActivityRecord) -> (write: bool)
        ensures
            final(self).held() == last_n(old(self).held().push(record@), MAX_RECORDS as nat),
            final(self).settings() == old(self).settings(),
            write == old(self).settings().enabled,
    {
        proof {
            use_type_invariant(&*self);
        }
        let ghost before = self.held();
        let mut records: VecDeque<ActivityRecord> = VecDeque::new();
        std::mem::swap(&mut records, &mut self.records);
        records.push_back(record);
        assert(record_views(records@) == before.push(record@));
        if records.len() > MAX_RECORDS {
            let ghost full = record_views(records@);
            let _ = records.pop_front();
            assert(record_views(records@) =~= full.skip(1));
        }
        self.records = records;
        self.config.enabled
    }

    /// Whether a log file of `size` bytes is due for rotation: it has reached the limit.
    pub fn should_rotate(&self, size: u64) -> (b: bool)
        ensures
            b == (size >= self.settings().max_log_size),
    {
        size >= self.config.max_log_size as u64
    }

    /// The steps of rotating the log file, keeping `log_rotation` backups.
    pub fn rotation_plan(&self) -> (steps: Vec<RotationStep>)
        ensures
            steps@.map_values(|s: RotationStep| s@) == rotation_plan(
                self.settings().log_file@,
                self.settings().log_rotation as nat,
            ),
    {
        let path = self.config.log_file.as_str();
        let keep = self.config.log_rotation;
        let mut steps: Vec<RotationStep> = Vec::new();
        let mut oldest = numbered_path(path, keep);
        oldest.append(".gz");
        steps.push(RotationStep::RemoveIfExists { path: oldest });
        let ghost first = steps@.map_values(|s: RotationStep| s@);
        let mut i: usize = keep;
        while i > 1
            invariant
                1 <= keep ==> 1 <= i <= keep,
                keep == 0 ==> i == 0,
                keep == self.settings().log_rotation,
                path@ == self.settings().log_file@,
                steps@.map_values(|s: RotationStep| s@) == first + shift_steps(
                    path@,
                    keep as nat,
                ).take((keep - i) as int),
            decreases i,
        {
            let ghost before = steps@;
            let from = numbered_path(path, i - 1);
            let to = numbered_path(path, i);
            steps.push(RotationStep::RenameIfExists { from, to });
            assert(shift_steps(path@, keep as nat).take((keep - i + 1) as int) == shift_steps(
                path@,
                keep as nat,
            ).take((keep - i) as int).push(shift_steps(path@, keep as nat)[(keep - i) as int]));
            assert(steps@.map_values(|s: RotationStep| s@) == before.map_values(
                |s: RotationStep| s@,
            ).push(RotationView::RenameIfExists(numbered(path@, (i - 1) as nat), numbered(path@, i as nat))));
            i = i - 1;
        }
        assert(shift_steps(path@, keep as nat).take((keep - i) as int) == shift_steps(
            path@,
            keep as nat,
        ));
        let ghost before = steps@;
        let backup = numbered_path(path, 1);
        steps.push(RotationStep::Rename { from: owned(path), to: backup });
        assert(steps@.map_values(|s: RotationStep| s@) == before.map_values(
            |s: RotationStep| s@,
        ).push(RotationView::Rename(path@, numbered(path@, 1))));
        assert(steps@.map_values(|s: RotationStep| s@) =~= rotation_plan(
            self.settings().log_file@,
            self.settings().log_rotation as nat,
        ));
        steps
    }

    /// The `limit` most recent records, newest first.
    pub fn get_recent_records(&self, limit: usize) -> (r: Vec<ActivityRecord>)
        ensures
            record_views(r@) == self.held().reverse().take(
                if limit < self.held().len() { limit as int } else { self.held().len() as int },
            ),
    {
        let n = self.records.len();
        let count = if limit < n {
            limit
        } else {
            n
        };
        let ghost rev = self.held().reverse();
        let mut r: Vec<ActivityRecord> = Vec::new();
        let mut i: usize = 0;
        while i < count
            invariant
                count <= n,
                n == self.records@.len(),
                rev == self.held().reverse(),
                i <= count,
                record_views(r@) == rev.take(i as int),
            decreases count - i,
        {
            let ghost before = r@;
            let rec = self.records[n - 1 - i].clone();
            r.push(rec);
            assert(rev[i as int] == self.records@[n - 1 - i]@);
            assert(record_views(r@) == record_views(before).push(rev[i as int]));
            assert(rev.take(i + 1) == rev.take(i as int).push(rev[i as int]));
            i = i + 1;
        }
        r
    }

    /// The records that pass a search, in log order: of the given kind, with an outcome
    /// of the given kind, and containing the keyword in the command or an argument (each
    /// filter applies only when given).
    pub fn search_records(
        &self,
        activity_type: Option<ActivityType>,
        status: Option<ActivityStatus>,
        keyword: Option<String>,
    ) -> (r: Vec<ActivityRecord>)
        ensures
            record_views(r@) == search_result(
                self.held(),
                activity_type,
                status_opt(status),
                text_opt(keyword),
            ),
    {
        let ghost sv = status_opt(status);
        let ghost kv = text_opt(keyword);
        let mut r: Vec<ActivityRecord> = Vec::new();
        let mut i: usize = 0;
        while i < self.records.len()
            invariant
                i <= self.records@.len(),
                sv == status_opt(status),
                kv == text_opt(keyword),
                record_views(r@) == search_result(
                    record_views(self.records@).take(i as int),
                    activity_type,
                    sv,
                    kv,
                ),
            decreases self.records@.len() - i,
        {
            let rec = &self.records[i];
            let pass = record_passes(rec, &activity_type, &status, &keyword);
            let ghost before = r@;
            assert(record_views(self.records@).take(i + 1) == record_views(self.records@).take(
                i as int,
            ).push(rec@));
            if pass {
                r.push(rec.clone());
                assert(record_views(r@) == record_views(before).push(rec@));
            }
            i = i + 1;
        }
        assert(record_views(self.records@).take(self.records@.len() as int) == record_views(
            self.records@,
        ));
        r
    }

    /// Counts over the records held: all, by outcome kind (success, failed, blocked) and
    /// by activity kind (commands, tool calls, API calls, security violations).
    pub fn get_statistics(&self) -> (s: ActivityStatistics)
        ensures
            s.total_records == self.held().len(),
            s.success == count_status(self.held(), StatusView::Success),
            s.failed == count_status(self.held(), StatusView::Failed(Seq::empty())),
            s.blocked == count_status(self.held(), StatusView::Blocked(Seq::empty())),
            s.command == count_type(self.held(), ActivityType::CommandExecution),
            s.tool == count_type(self.held(), ActivityType::ToolInvocation),
            s.api == count_type(self.held(), ActivityType::ApiCall),
            s.violation == count_type(self.held(), ActivityType::SecurityViolation),
    {
        proof {
            use_type_invariant(self);
        }
        let total = self.records.len();
        let success = self.count_with_status(&ActivityStatus::Success);
        let failed = self.count_with_status(&ActivityStatus::Failed(String::new()));
        let blocked = self.count_with_status(&ActivityStatus::Blocked(String::new()));
        let command = self.count_with_type(ActivityType::CommandExecution);
        let tool = self.count_with_type(ActivityType::ToolInvocation);
        let api = self.count_with_type(ActivityType::ApiCall);
        let violation = self.count_with_type(ActivityType::SecurityViolation);
        ActivityStatistics {
            total_records: total,
            success,
            failed,
            blocked,
            command,
            tool,
            api,
            violation,
        }
    }

    /// How many records held have an outcome of the same kind as `s`.
    fn count_with_status(&self, s: &ActivityStatus) -> (n: usize)
        ensures
            n == count_status(self.held(), s@),
    {
        proof {
            use_type_invariant(self);
        }
        let mut n: usize = 0;
        let mut i: usize = 0;
        while i < self.records.len()
            invariant
                i <= self.records@.len(),
                self.records@.len() <= MAX_RECORDS,
                n == count_status(record_views(self.records@).take(i as int), s@),
                n <= i,
            decreases self.records@.len() - i,
        {
            assert(record_views(self.records@).take(i + 1) == record_views(self.records@).take(
                i as int,
            ).push(self.records@[i as int]@));
            if self.records[i].status.same_kind(s) {
                n = n + 1;
            }
            i = i + 1;
        }
        assert(record_views(self.records@).take(self.records@.len() as int) == record_views(
            self.records@,
        ));
        n
    }

    /// How many records held are of kind `t`.
    fn count_with_type(&self, t: ActivityType) -> (n: usize)
        ensures
            n == count_type(self.held(), t),
    {
        proof {
            use_type_invariant(self);
        }
        let mut n: usize = 0;
        let mut i: usize = 0;
        while i < self.records.len()
            invariant
                i <= self.records@.len(),
                self.records@.len() <= MAX_RECORDS,
                n == count_type(record_views(self.records@).take(i as int), t),
                n <= i,
            decreases self.records@.len() - i,
        {
            assert(record_views(self.records@).take(i + 1) == record_views(self.records@).take(
                i as int,
            ).push(self.records@[i as int]@));
            if self.records[i].activity_type == t {
                n = n + 1;
            }
            i = i + 1;
        }
        assert(record_views(self.records@).take(self.records@.len() as int) == record_views(
            self.records@,
        ));
        n
    }
}

/// Whether `rec` passes a search.
fn record_passes(
    rec: &ActivityRecord,
    activity_type: &Option<ActivityType>,
    status: &Option<ActivityStatus>,
    keyword: &Option<String>,
) -> (b: bool)
    ensures
        b == record_matches(
            rec@,
            *activity_type,
            status_opt(*status),
            text_opt(*keyword),
        ),
{
    match activity_type {
        Some(t) => {
            if rec.activity_type != *t {
                return false;
            }
        },
        None => {},
    }
    match status {
        Some(s) => {
            if !rec.status.same_kind(s) {
                return false;
            }
        },
        None => {},
    }
    match keyword {
        Some(k) => {
            if !str_contains(rec.command.as_str(), k.as_str()) {
                let mut i: usize = 0;
                let mut found = false;
                while i < rec.args.len()
                    invariant
                        i <= rec.args@.len(),
                        found == (exists|j: int|
                            0 <= j < i && seq_contains(#[trigger] rec.args@[j]@, k@)),
                    decreases rec.args@.len() - i,
                {
                    if str_contains(rec.args[i].as_str(), k.as_str()) {
                        found = true;
                    }
                    i = i + 1;
                }
                assert(found == (exists|j: int|
                    0 <= j < rec@.args.len() && seq_contains(#[trigger] rec@.args[j], k@))) by {
                    if found {
                        let j = choose|j: int|
                            0 <= j < rec.args@.len() && seq_contains(#[trigger] rec.args@[j]@, k@);
                        assert(rec@.args[j] == rec.args@[j]@);
                    }
                    if exists|j: int|
                        0 <= j < rec@.args.len() && seq_contains(#[trigger] rec@.args[j], k@) {
                        let j = choose|j: int|
                            0 <= j < rec@.args.len() && seq_contains(#[trigger] rec@.args[j], k@);
                        assert(rec@.args[j] == rec.args@[j]@);
                    }
                }
                if !found {
                    return false;
                }
            }
        },
        None => {},
    }
    true
}

/// The in-memory window: after a record is logged, at most `MAX_RECORDS` are held, the
/// new one is the newest, the held records are the latest ones in order, and nothing is
/// dropped while there is room.
pub proof fn law_log_window(held: Seq<RecordView>, r: RecordView)
    requires
        held.len() <= MAX_RECORDS,
    ensures
        last_n(held.push(r), MAX_RECORDS as nat).len() <= MAX_RECORDS,
        last_n(held.push(r), MAX_RECORDS as nat).last() == r,
        held.len() < MAX_RECORDS ==> last_n(held.push(r), MAX_RECORDS as nat) == held.push(r),
        held.len() == MAX_RECORDS ==> last_n(held.push(r), MAX_RECORDS as nat) == held.skip(1).push(
            r,
        ),
{
    if held.len() == MAX_RECORDS {
        assert(held.push(r).skip(1) =~= held.skip(1).push(r));
    }
}

/// Asking for at least as many recent records as are held gives all of them, newest
/// first.
pub proof fn law_recent_all(held: Seq<RecordView>, limit: int)
    requires
        limit >= held.len(),
    ensures
        held.reverse().take(if limit < held.len() { limit } else { held.len() as int })
            == held.reverse(),
{
    assert(held.reverse().take(held.len() as int) =~= held.reverse());
}

/// A search with no filter finds every record held, in order.
pub proof fn law_search_without_filters(held: Seq<RecordView>)
    ensures
        search_result(held, None, None, None) == held,
    decreases held.len(),
{
    if held.len() > 0 {
        law_search_without_filters(held.drop_last());
        assert(held.drop_last().push(held.last()) =~= held);
    } else {
        assert(search_result(held, None, None, None) =~= held);
    }
}

/// The outcome counts and the activity counts never add up to more than the records held.
pub proof fn law_statistics_bounded(held: Seq<RecordView>)
    ensures
        count_status(held, StatusView::Success) + count_status(
            held,
            StatusView::Failed(Seq::empty()),
        ) + count_status(held, StatusView::Blocked(Seq::empty())) <= held.len(),
        count_type(held, ActivityType::CommandExecution) + count_type(
            held,
            ActivityType::ToolInvocation,
        ) + count_type(held, ActivityType::ApiCall) + count_type(
            held,
            ActivityType::SecurityViolation,
        ) <= held.len(),
    decreases held.len(),
{
    if held.len() > 0 {
        let rest = held.drop_last();
        law_statistics_bounded(rest);
        assert(rest.push(held.last()) =~= held);
    } else {
        assert(held.filter(|r: RecordView| same_status_kind(r.status, StatusView::Success))
            =~= Seq::<RecordView>::empty());
    }
}

} // verus!
