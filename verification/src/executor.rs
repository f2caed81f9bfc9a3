//! Running commands under the rules: splitting a command line, refusing what the rules
//! refuse (and logging the refusal), turning a finished process into a result, and
//! staging pipelines and background commands.  Spawning processes is left to the caller.
use vstd::prelude::*;

use crate::monitor::{
    current_user, is_uuid_v4_text, ActivityRecord, ActivityStatus, ActivityType, RecordView,
    StatusView,
};
use crate::security::{refusal_message, Refusal, SecurityError, SecurityManager};
use crate::text::{
    concat, concat3, decimal, i64_to_decimal, owned, signed_decimal, split_and_trim,
    split_on, split_whitespace, trimmed, u64_to_decimal, views, words,
};

verus! {

/// Why running a command failed, as plain values.
pub enum ExecFault {
    Security(Refusal),
    SpawnFailed { command: Seq<char> },
    Io { detail: Seq<char> },
    CommandFailed { detail: Seq<char> },
    PipelineStageFailed { command: Seq<char> },
    EmptyPipeline,
    Timeout { secs: u64 },
    BackgroundSpawnFailed { command: Seq<char> },
    RecordUnavailable,
}

/// Why running a command failed.
pub enum ExecError {
    /// The rules refused the command.
    Security(SecurityError),
    /// The process could not be started.
    SpawnFailed { command: String },
    /// Reading the process's output or waiting for it failed; `detail` is the system's text.
    Io { detail: String },
    /// The process exited unsuccessfully; `detail` is its error output, or its exit code.
    CommandFailed { detail: String },
    /// A stage of a pipeline exited unsuccessfully.
    PipelineStageFailed { command: String },
    /// The pipeline has no stages.
    EmptyPipeline,
    /// The command did not finish in time.
    Timeout { secs: u64 },
    /// A background process could not be started.
    BackgroundSpawnFailed { command: String },
    /// No activity record could be made (the system clock or random source failed), so
    /// the activity cannot be logged.
    RecordUnavailable,
}

impl View for ExecError {
    type V = ExecFault;

    open spec fn view(&self) -> ExecFault {
        match self {
            ExecError::Security(e) => ExecFault::Security(e@),
            ExecError::SpawnFailed { command } => ExecFault::SpawnFailed { command: command@ },
            ExecError::Io { detail } => ExecFault::Io { detail: detail@ },
            ExecError::CommandFailed { detail } => ExecFault::CommandFailed { detail: detail@ },
            ExecError::PipelineStageFailed { command } => ExecFault::PipelineStageFailed {
                command: command@,
            },
            ExecError::EmptyPipeline => ExecFault::EmptyPipeline,
            ExecError::Timeout { secs } => ExecFault::Timeout { secs: *secs },
            ExecError::BackgroundSpawnFailed { command } => ExecFault::BackgroundSpawnFailed {
                command: command@,
            },
            ExecError::RecordUnavailable => ExecFault::RecordUnavailable,
        }
    }
}

/// The text of a failure as shown to the user.
pub open spec fn exec_message(e: ExecFault) -> Seq<char> {
    match e {
        ExecFault::Security(r) => refusal_message(r),
        ExecFault::SpawnFailed { command } => "无法启动命令: "@ + command,
        ExecFault::Io { detail } => detail,
        ExecFault::CommandFailed { detail } => "命令执行失败: "@ + detail,
        ExecFault::PipelineStageFailed { command } => "管道命令 '"@ + command + "' 执行失败"@,
        ExecFault::EmptyPipeline => "空管道命令"@,
        ExecFault::Timeout { secs } => "命令执行超时 ("@ + decimal(secs as nat) + "秒)"@,
        ExecFault::BackgroundSpawnFailed { command } => "无法启动后台命令: "@ + command,
        ExecFault::RecordUnavailable => "无法创建活动记录: 系统时钟或随机源不可用"@,
    }
}

impl ExecError {
    /// The failure's text as shown to the user.
    pub fn message(&self) -> (m: String)
        ensures
            m@ == exec_message(self@),
    {
        match self {
            ExecError::Security(e) => e.message(),
            ExecError::SpawnFailed { command } => concat("无法启动命令: ", command.as_str()),
            ExecError::Io { detail } => detail.clone(),
            ExecError::CommandFailed { detail } => concat("命令执行失败: ", detail.as_str()),
            ExecError::PipelineStageFailed { command } => concat3(
                "管道命令 '",
                command.as_str(),
                "' 执行失败",
            ),
            ExecError::EmptyPipeline => owned("空管道命令"),
            ExecError::Timeout { secs } => {
                let d = u64_to_decimal(*secs);
                concat3("命令执行超时 (", d.as_str(), "秒)")
            },
            ExecError::BackgroundSpawnFailed { command } => concat(
                "无法启动后台命令: ",
                command.as_str(),
            ),
            ExecError::RecordUnavailable => owned("无法创建活动记录: 系统时钟或随机源不可用"),
        }
    }
}

/// How a process ended, as seen by the caller that ran it.
pub enum RunOutcome {
    /// The process could not be started.
    SpawnFailed,
    /// Reading its output or waiting for it failed.
    IoFailed { detail: String },
    /// It exited: whether successfully, what it wrote, and its exit code if it has one.
    Exited { success: bool, stdout: String, stderr: String, code: Option<i32> },
}

/// Where a pipeline stage reads its input from.
#[derive(Clone, Copy, Debug, PartialEq, Eq, Structural)]
pub enum StageInput {
    /// The previous stage's output (possibly empty), written to the stage's standard
    /// input, which is then closed.
    PreviousOutput,
    /// The assistant's own standard input.
    Inherited,
}

/// A pipeline stage ready to run.
pub struct StageSpec {
    pub command: String,
    pub args: Vec<String>,
    pub input: StageInput,
}

/// What happens first when a command is executed.
pub enum ExecutionStart {
    /// The rules refused it: log `record` (when one could be made), then fail with
    /// `error`.
    Refused { record: Option<ActivityRecord>, error: ExecError },
    /// Run `command` with `args`; `record` is the pending record of the run.
    Run { command: String, args: Vec<String>, record: ActivityRecord },
    /// The rules let it through, but no record of the run could be made, so it is not
    /// run: fail with `ExecError::RecordUnavailable`.
    Unrecorded,
}

/// The program and arguments of a command line: its first word and the rest (both empty
/// for a blank line).
pub open spec fn command_parts(s: Seq<char>) -> (Seq<char>, Seq<Seq<char>>) {
    let w = words(s);
    if w.len() == 0 {
        (seq![], seq![])
    } else {
        (w[0], w.drop_first())
    }
}

/// The program and every argument of a command line are words: not empty and free of
/// whitespace; a blank line has neither.
pub proof fn law_command_parts_are_words(s: Seq<char>)
    ensures
        command_parts(s).0.len() > 0 ==> crate::text::is_word(command_parts(s).0),
        forall|i: int|
            0 <= i < command_parts(s).1.len() ==> crate::text::is_word(
                #[trigger] command_parts(s).1[i],
            ),
        words(s).len() == 0 ==> command_parts(s).0.len() == 0 && command_parts(s).1.len() == 0,
{
    crate::text::law_words_are_words(s);
    if words(s).len() > 0 {
        assert forall|i: int| 0 <= i < command_parts(s).1.len() implies crate::text::is_word(
            #[trigger] command_parts(s).1[i],
        ) by {
            assert(command_parts(s).1[i] == words(s)[i + 1]);
        }
    }
}

/// A process that exits successfully gives exactly its standard output, whatever it wrote
/// to its error output; one that exits unsuccessfully is a failure that names its error
/// output when it wrote any.
pub proof fn law_success_is_output(
    command: Seq<char>,
    success: bool,
    stdout: String,
    stderr: String,
    code: Option<i32>,
)
    ensures
        success ==> run_result(command, RunOutcome::Exited { success, stdout, stderr, code })
            == Ok::<Seq<char>, ExecFault>(stdout@),
        !success ==> run_result(command, RunOutcome::Exited { success, stdout, stderr, code })
            is Err,
        !success && stderr@.len() > 0 ==> run_result(
            command,
            RunOutcome::Exited { success, stdout, stderr, code },
        ) == Err::<Seq<char>, ExecFault>(ExecFault::CommandFailed { detail: stderr@ }),
{
}

/// The stages of a pipeline: its pieces between `|`, each trimmed.
pub open spec fn pipeline_stages(s: Seq<char>) -> Seq<Seq<char>> {
    split_on(s, '|').map_values(|p: Seq<char>| trimmed(p))
}

/// The result of a finished run of `command`.
pub open spec fn run_result(command: Seq<char>, outcome: RunOutcome) -> Result<Seq<char>, ExecFault> {
    match outcome {
        RunOutcome::SpawnFailed => Err(ExecFault::SpawnFailed { command }),
        RunOutcome::IoFailed { detail } => Err(ExecFault::Io { detail: detail@ }),
        RunOutcome::Exited { success, stdout, stderr, code } => {
            if success {
                Ok(stdout@)
            } else if stderr@.len() > 0 {
                Err(ExecFault::CommandFailed { detail: stderr@ })
            } else {
                Err(
                    ExecFault::CommandFailed {
                        detail: "命令退出码: "@ + signed_decimal(
                            match code {
                                Some(c) => c as int,
                                None => -1,
                            },
                        ),
                    },
                )
            }
        },
    }
}

/// The view of a run's result.
pub open spec fn result_view(r: Result<String, ExecError>) -> Result<Seq<char>, ExecFault> {
    match r {
        Ok(s) => Ok(s@),
        Err(e) => Err(e@),
    }
}

/// The command-running logic.  It holds nothing: the rules and the log are passed in.
pub struct CommandExecutor;

impl CommandExecutor {
    /// The program and arguments of a command line: its whitespace-separated words, the
    /// first being the program (both empty for a blank line).
    pub fn parse_command(command_str: &str) -> (r: (String, Vec<String>))
        ensures
            r.0@ == command_parts(command_str@).0,
            views(r.1@) == command_parts(command_str@).1,
    {
        let mut parts = split_whitespace(command_str);
        if parts.len() == 0 {
            return (String::new(), Vec::new());
        }
        let ghost all = parts@;
        let cmd = parts.remove(0);
        assert(views(parts@) == views(all).drop_first());
        (cmd, parts)
    }

    /// The first step of executing `command_str` in `working_dir`: when the rules refuse
    /// it, the refusal and, when one can be made, a security-violation record (blocked
    /// with the refusal's text, lasting `elapsed_ms`); otherwise the program, its
    /// arguments and a pending command-execution record, or `Unrecorded` when no record
    /// can be made.  The records name the current user.
    pub fn begin(
        security: &SecurityManager,
        command_str: &str,
        working_dir: &str,
        elapsed_ms: u64,
    ) -> (r: ExecutionStart)
        ensures
            match r {
                ExecutionStart::Refused { record, error } => {
                    &&& security.command_refusal(security.current_mode(), command_str@)
                        matches Some(refusal)
                    &&& error@ == ExecFault::Security(refusal)
                    &&& record matches Some(rec) ==> {
                        &&& rec@.activity_type == ActivityType::SecurityViolation
                        &&& rec@.command == command_parts(command_str@).0
                        &&& rec@.args == command_parts(command_str@).1
                        &&& rec@.working_dir == working_dir@
                        &&& rec@.status == StatusView::Blocked(refusal_message(refusal))
                        &&& rec@.duration_ms == Some(elapsed_ms)
                        &&& rec@.output is None
                        &&& is_uuid_v4_text(rec@.id)
                    }
                },
                ExecutionStart::Run { command, args, record } => {
                    &&& security.command_refusal(security.current_mode(), command_str@) is None
                    &&& command@ == command_parts(command_str@).0
                    &&& views(args@) == command_parts(command_str@).1
                    &&& record@.activity_type == ActivityType::CommandExecution
                    &&& record@.command == command@
                    &&& record@.args == views(args@)
                    &&& record@.working_dir == working_dir@
                    &&& record@.status == StatusView::Pending
                    &&& record@.duration_ms is None
                    &&& record@.output is None
                    &&& is_uuid_v4_text(record@.id)
                },
                ExecutionStart::Unrecorded => security.command_refusal(
                    security.current_mode(),
                    command_str@,
                ) is None,
            },
    {
        let (cmd, args) = Self::parse_command(command_str);
        match security.check_command(command_str) {
            Err(e) => {
                let record = match ActivityRecord::new(
                    ActivityType::SecurityViolation,
                    current_user(),
                    cmd,
                    args,
                    owned(working_dir),
                ) {
                    Some(rec) => Some(
                        rec.with_status(ActivityStatus::Blocked(e.message())).with_duration(
                            elapsed_ms,
                        ),
                    ),
                    None => None,
                };
                ExecutionStart::Refused { record, error: ExecError::Security(e) }
            },
            Ok(()) => {
                match ActivityRecord::new(
                    ActivityType::CommandExecution,
                    current_user(),
                    cmd.clone(),
                    crate::monitor::clone_strings(&args),
                    owned(working_dir),
                ) {
                    Some(record) => ExecutionStart::Run { command: cmd, args, record },
                    None => ExecutionStart::Unrecorded,
                }
            },
        }
    }

    /// The result of a finished run of `command`: its standard output when it exited
    /// successfully; otherwise a failure carrying its error output, or, when that is
    /// empty, its exit code (-1 when it has none).
    pub fn run_result(command: &str, outcome: RunOutcome) -> (r: Result<String, ExecError>)
        ensures
            result_view(r) == run_result(command@, outcome),
            outcome matches RunOutcome::Exited { success, stdout, .. } ==> (success <==> r is Ok),
            outcome matches RunOutcome::Exited { success: true, stdout, .. } ==> (r matches Ok(
                out,
            ) && out@ == stdout@),
    {
        match outcome {
            RunOutcome::SpawnFailed => Err(ExecError::SpawnFailed { command: owned(command) }),
            RunOutcome::IoFailed { detail } => Err(ExecError::Io { detail }),
            RunOutcome::Exited { success, stdout, stderr, code } => {
                if success {
                    Ok(stdout)
                } else if !stderr.as_str().is_empty() {
                    Err(ExecError::CommandFailed { detail: stderr })
                } else {
                    let c: i64 = match code {
                        Some(c) => c as i64,
                        None => -1,
                    };
                    let d = i64_to_decimal(c);
                    Err(ExecError::CommandFailed { detail: concat("命令退出码: ", d.as_str()) })
                }
            },
        }
    }

    /// The record of a finished run and the run's result: the record gets `duration_ms`,
    /// and then either a success with the output, or a failure with the failure's text.
    pub fn finish(record: ActivityRecord, result: Result<String, ExecError>, duration_ms: u64) -> (r: (
        ActivityRecord,
        Result<String, ExecError>,
    ))
        ensures
            result_view(r.1) == result_view(result),
            r.0@.duration_ms == Some(duration_ms),
            r.0@.status == (match result {
                Ok(_) => StatusView::Success,
                Err(e) => StatusView::Failed(exec_message(e@)),
            }),
            r.0@.output == (match result {
                Ok(out) => Some(out@),
                Err(_) => record@.output,
            }),
            r.0@ == (RecordView {
                duration_ms: r.0@.duration_ms,
                status: r.0@.status,
                output: r.0@.output,
                ..record@
            }),
    {
        let record = record.with_duration(duration_ms);
        match result {
            Ok(out) => {
                let record = record.with_status(ActivityStatus::Success).with_output(out.clone());
                (record, Ok(out))
            },
            Err(e) => {
                let record = record.with_status(ActivityStatus::Failed(e.message()));
                (record, Err(e))
            },
        }
    }

    /// The stages of a pipeline: the pieces of `pipeline` between `|`, each trimmed (there
    /// is always at least one).
    pub fn pipeline_stages(pipeline: &str) -> (r: Vec<String>)
        ensures
            views(r@) == pipeline_stages(pipeline@),
            r@.len() >= 1,
    {
        split_and_trim(pipeline, '|')
    }

    /// Stage `index` of a pipeline: the rules must let the stage's text through; the first
    /// stage reads the assistant's own input, and every later stage is fed exactly the
    /// previous stage's output, even when that output is empty.
    pub fn pipeline_stage(security: &SecurityManager, stage: &str, index: usize) -> (r: Result<
        StageSpec,
        ExecError,
    >)
        ensures
            match r {
                Ok(spec) => {
                    &&& security.command_refusal(security.current_mode(), stage@) is None
                    &&& spec.command@ == command_parts(stage@).0
                    &&& views(spec.args@) == command_parts(stage@).1
                    &&& spec.input == (if index > 0 {
                        StageInput::PreviousOutput
                    } else {
                        StageInput::Inherited
                    })
                },
                Err(e) => security.command_refusal(security.current_mode(), stage@) matches Some(
                    refusal,
                ) && e@ == ExecFault::Security(refusal),
            },
    {
        let (command, args) = Self::parse_command(stage);
        match security.check_command(stage) {
            Err(e) => Err(ExecError::Security(e)),
            Ok(()) => {
                let input = if index > 0 {
                    StageInput::PreviousOutput
                } else {
                    StageInput::Inherited
                };
                Ok(StageSpec { command, args, input })
            },
        }
    }

    /// Whether a finished pipeline stage lets the pipeline go on.
    pub fn pipeline_stage_result(command: &str, success: bool) -> (r: Result<(), ExecError>)
        ensures
            success ==> r is Ok,
            !success ==> (r matches Err(e) && e@ == (ExecFault::PipelineStageFailed {
                command: command@,
            })),
    {
        if success {
            Ok(())
        } else {
            Err(ExecError::PipelineStageFailed { command: owned(command) })
        }
    }

    /// The program and arguments of a command to start in the background, when the rules
    /// let it through.
    pub fn begin_background(security: &SecurityManager, command_str: &str) -> (r: Result<
        (String, Vec<String>),
        ExecError,
    >)
        ensures
            match r {
                Ok((cmd, args)) => {
                    &&& security.command_refusal(security.current_mode(), command_str@) is None
                    &&& cmd@ == command_parts(command_str@).0
                    &&& views(args@) == command_parts(command_str@).1
                },
                Err(e) => security.command_refusal(security.current_mode(), command_str@)
                    matches Some(refusal) && e@ == ExecFault::Security(refusal),
            },
    {
        let parts = Self::parse_command(command_str);
        match security.check_command(command_str) {
            Err(e) => Err(ExecError::Security(e)),
            Ok(()) => Ok(parts),
        }
    }

    /// The record of a command started in the background as process `pid` (0 when the
    /// system gave no id): a successful command execution whose metadata notes the pid and
    /// that it runs in the background; `None` when no record can be made.
    pub fn background_record(cmd: String, args: Vec<String>, pid: u32, working_dir: &str) -> (r:
        Option<ActivityRecord>)
        ensures
            r matches Some(rec) ==> {
                &&& rec@.activity_type == ActivityType::CommandExecution
                &&& rec@.command == cmd@
                &&& rec@.args == views(args@)
                &&& rec@.working_dir == working_dir@
                &&& rec@.status == StatusView::Success
                &&& rec@.duration_ms is None
                &&& rec@.output is None
                &&& rec@.metadata == "{\"background\":true,\"pid\":"@ + decimal(pid as nat) + "}"@
                &&& is_uuid_v4_text(rec@.id)
            },
    {
        let d = u64_to_decimal(pid as u64);
        let metadata = concat3("{\"background\":true,\"pid\":", d.as_str(), "}");
        match ActivityRecord::new(
            ActivityType::CommandExecution,
            current_user(),
            cmd,
            args,
            owned(working_dir),
        ) {
            Some(rec) => Some(rec.with_status(ActivityStatus::Success).with_metadata(metadata)),
            None => None,
        }
    }
}

} // verus!
