//! The diagnostic and repair backend, seen from the desktop shell.
//!
//! The shell starts an external executable, hands it `diagnose --json` or
//! `repair <target> --json`, and reads one JSON document from its standard
//! output. Reading file modes, starting the process and decoding the document
//! happen outside this module. Here are the decisions in between: what to do
//! first, which arguments to pass, whether a repair may be attempted, what a
//! finished run amounts to, and which message reports a failure.
//!
//! [`BackendTask::next`] holds all of them: the shell tells it what just
//! happened and does what it answers, until the answer is to succeed or to
//! fail.

use vstd::prelude::*;
use vstd::utf8::{decode_utf8, valid_utf8};
use crate::text::{lossy_text, utf8_lossy};

verus! {

/// What the shell asks of the backend.
#[derive(Debug, PartialEq, Eq)]
pub enum BackendTask {
    /// Collect diagnostics.
    Diagnose,
    /// Repair the named target.
    Repair { target: String },
}

/// How one run of the backend executable ended.
#[derive(Debug, PartialEq, Eq)]
pub enum ProcessOutcome {
    /// The executable could not be started; the text says why.
    NotStarted { reason: String },
    /// The executable ran and exited.
    Exited { success: bool, stdout: Vec<u8>, stderr: Vec<u8> },
}

/// What the shell reports back after each thing it did.
#[derive(Debug, PartialEq, Eq)]
pub enum ShellEvent {
    /// The task was requested. `unix` tells whether the platform has file
    /// modes to inspect.
    Start { unix: bool },
    /// The mode of the root directory was read.
    RootMode { mode: u32 },
    /// The mode of the root directory could not be read; the text says why.
    RootUnreadable { reason: String },
    /// The backend was run, or could not be.
    Ran { outcome: ProcessOutcome },
    /// Standard output held the expected document.
    Decoded,
    /// Standard output did not hold the expected document; the text says why.
    Undecodable { detail: String },
}

/// What the shell is to do next.
#[derive(Debug, PartialEq, Eq)]
pub enum ShellAction {
    /// Read the mode of the root directory.
    ReadRootMode,
    /// Start `program` with `args` and wait for it.
    Run { program: String, args: Vec<String> },
    /// Decode `document` as the JSON document of the task.
    Decode { document: Vec<u8> },
    /// Hand the decoded document to the user.
    Succeed,
    /// Hand `message` to the user as the error.
    Fail { message: String },
}

/// A [`ShellAction`] as plain data.
pub enum ActionView {
    ReadRootMode,
    Run { program: Seq<char>, args: Seq<Seq<char>> },
    Decode { document: Seq<u8> },
    Succeed,
    Fail { message: Seq<char> },
}

impl View for ShellAction {
    type V = ActionView;

    open spec fn view(&self) -> ActionView {
        match self {
            ShellAction::ReadRootMode => ActionView::ReadRootMode,
            ShellAction::Run { program, args } => ActionView::Run {
                program: program@,
                args: args.deep_view(),
            },
            ShellAction::Decode { document } => ActionView::Decode { document: document@ },
            ShellAction::Succeed => ActionView::Succeed,
            ShellAction::Fail { message } => ActionView::Fail { message: message@ },
        }
    }
}

/// Owner read, write and execute, as bits of a file mode.
pub const OWNER_ALL: u32 = 0o700;

/// True when the owner may read, write and execute under `mode`.
pub open spec fn owner_has_all(mode: u32) -> bool {
    &&& mode & 0o400 != 0
    &&& mode & 0o200 != 0
    &&& mode & 0o100 != 0
}

/// What precedes the backend's own words when a run reports failure.
pub open spec fn failure_prefix(task: BackendTask) -> Seq<char> {
    match task {
        BackendTask::Diagnose => "D backend failed: "@,
        BackendTask::Repair { .. } => "D backend repair failed: "@,
    }
}

/// The argument list for `task`, as sequences of characters.
pub open spec fn task_arguments(task: BackendTask) -> Seq<Seq<char>> {
    match task {
        BackendTask::Diagnose => seq!["diagnose"@, "--json"@],
        BackendTask::Repair { target } => seq!["repair"@, target@, "--json"@],
    }
}

/// The path of the backend executable, as a sequence of characters.
pub open spec fn program_path() -> Seq<char> {
    "./bin/network-ambulance-d"@
}

/// What a finished run amounts to: the bytes to decode, or the message of the
/// failure.
pub open spec fn run_result(task: BackendTask, outcome: ProcessOutcome) -> Result<
    Seq<u8>,
    Seq<char>,
> {
    match outcome {
        ProcessOutcome::NotStarted { reason } => Err("Failed to execute D backend: "@ + reason@),
        ProcessOutcome::Exited { success, stdout, stderr } => if success {
            Ok(stdout@)
        } else {
            Err(failure_prefix(task) + utf8_lossy(stderr@))
        },
    }
}

/// The action that answers `event` in the course of `task`.
///
/// A repair starts with a look at the root directory where the platform has
/// file modes, and goes on to the backend only if the owner holds every right
/// on it. Diagnostics go to the backend at once. A successful run is decoded,
/// and a decoded document is the success of the task. Everything else fails
/// the task with its message.
pub open spec fn next_action(task: BackendTask, event: ShellEvent) -> ActionView {
    match event {
        ShellEvent::Start { unix } => if unix && task is Repair {
            ActionView::ReadRootMode
        } else {
            ActionView::Run { program: program_path(), args: task_arguments(task) }
        },
        ShellEvent::RootMode { mode } => if owner_has_all(mode) {
            ActionView::Run { program: program_path(), args: task_arguments(task) }
        } else {
            ActionView::Fail { message: "Repair operations require administrator privileges"@ }
        },
        ShellEvent::RootUnreadable { reason } => ActionView::Fail { message: reason@ },
        ShellEvent::Ran { outcome } => match run_result(task, outcome) {
            Ok(document) => ActionView::Decode { document },
            Err(message) => ActionView::Fail { message },
        },
        ShellEvent::Decoded => ActionView::Succeed,
        ShellEvent::Undecodable { detail } => ActionView::Fail {
            message: "Failed to parse JSON: "@ + detail@,
        },
    }
}

/// The path of the backend executable, relative to the shell's directory.
pub fn backend_program() -> (path: String)
    ensures
        path@ == program_path(),
{
    String::from_str("./bin/network-ambulance-d")
}

impl BackendTask {
    /// The arguments to start the backend with.
    pub fn arguments(&self) -> (args: Vec<String>)
        ensures
            args.deep_view() == task_arguments(*self),
    {
        let mut args: Vec<String> = Vec::new();
        match self {
            BackendTask::Diagnose => {
                args.push(String::from_str("diagnose"));
            },
            BackendTask::Repair { target } => {
                args.push(String::from_str("repair"));
                args.push(target.clone());
            },
        }
        args.push(String::from_str("--json"));
        assert(args.deep_view() =~= task_arguments(*self));
        args
    }

    /// Decides what comes next, given what just happened.
    ///
    /// Where a failed run wrote valid UTF-8 to standard error, the message
    /// holds exactly that text behind the failure prefix.
    pub fn next(&self, event: ShellEvent) -> (action: ShellAction)
        ensures
            action@ == next_action(*self, event),
            event matches ShellEvent::Ran {
                outcome: ProcessOutcome::Exited { success: false, stderr, .. },
            } ==> (valid_utf8(stderr@) ==> action@ == (ActionView::Fail {
                message: failure_prefix(*self) + decode_utf8(stderr@),
            })),
    {
        match event {
            ShellEvent::Start { unix } => {
                if unix && self.is_repair() {
                    ShellAction::ReadRootMode
                } else {
                    self.run()
                }
            },
            ShellEvent::RootMode { mode } => match authorize_repair(mode) {
                Ok(()) => self.run(),
                Err(message) => ShellAction::Fail { message },
            },
            ShellEvent::RootUnreadable { reason } => ShellAction::Fail { message: reason },
            ShellEvent::Ran { outcome } => match self.output(outcome) {
                Ok(document) => ShellAction::Decode { document },
                Err(message) => ShellAction::Fail { message },
            },
            ShellEvent::Decoded => ShellAction::Succeed,
            ShellEvent::Undecodable { detail } => ShellAction::Fail {
                message: parse_failure(detail.as_str()),
            },
        }
    }

    /// Tells whether a repair is asked for.
    pub fn is_repair(&self) -> (repair: bool)
        ensures
            repair == (*self is Repair),
    {
        match self {
            BackendTask::Repair { .. } => true,
            BackendTask::Diagnose => false,
        }
    }

    /// The action that starts the backend.
    fn run(&self) -> (action: ShellAction)
        ensures
            action@ == (ActionView::Run { program: program_path(), args: task_arguments(*self) }),
    {
        ShellAction::Run { program: backend_program(), args: self.arguments() }
    }

    /// What a finished run yields: the bytes of standard output when the
    /// backend reported success, otherwise the message to show.
    ///
    /// A backend that could not be started yields its reason behind
    /// `Failed to execute D backend: `. One that exited unsuccessfully yields
    /// its standard error, decoded leniently, behind the failure prefix of the
    /// task; where that is valid UTF-8, the text is exactly what it encodes.
    pub fn output(&self, outcome: ProcessOutcome) -> (r: Result<Vec<u8>, String>)
        ensures
            match run_result(*self, outcome) {
                Ok(document) => r matches Ok(bytes) && bytes@ == document,
                Err(message) => r matches Err(text) && text@ == message,
            },
            outcome matches ProcessOutcome::Exited { success: true, stdout, .. } ==> r == Ok::<
                Vec<u8>,
                String,
            >(stdout),
            outcome matches ProcessOutcome::Exited { success: false, stderr, .. } ==> (valid_utf8(
                stderr@,
            ) ==> (r matches Err(text) && text@ == failure_prefix(*self) + decode_utf8(stderr@))),
    {
        match outcome {
            ProcessOutcome::NotStarted { reason } => Err(spawn_failure(reason.as_str())),
            ProcessOutcome::Exited { success, stdout, stderr } => {
                if success {
                    Ok(stdout)
                } else {
                    let said = lossy_text(stderr.as_slice());
                    Err(self.exit_failure(said.as_str()))
                }
            },
        }
    }

    /// The message for a run that exited unsuccessfully and said `said` on
    /// standard error.
    pub fn exit_failure(&self, said: &str) -> (message: String)
        ensures
            message@ == failure_prefix(*self) + said@,
    {
        let mut message = match self {
            BackendTask::Diagnose => String::from_str("D backend failed: "),
            BackendTask::Repair { .. } => String::from_str("D backend repair failed: "),
        };
        message.append(said);
        message
    }
}

/// The message for a backend that could not be started.
pub fn spawn_failure(reason: &str) -> (message: String)
    ensures
        message@ == "Failed to execute D backend: "@ + reason@,
{
    let mut message = String::from_str("Failed to execute D backend: ");
    message.append(reason);
    message
}

/// The message for standard output that is not the expected JSON document.
pub fn parse_failure(detail: &str) -> (message: String)
    ensures
        message@ == "Failed to parse JSON: "@ + detail@,
{
    let mut message = String::from_str("Failed to parse JSON: ");
    message.append(detail);
    message
}

/// Decides from the mode of the root directory whether a repair may go ahead.
///
/// A repair is allowed exactly when the owner holds read, write and execute
/// on the root directory.
pub fn authorize_repair(root_mode: u32) -> (r: Result<(), String>)
    ensures
        r is Ok <==> owner_has_all(root_mode),
        r is Ok <==> root_mode & OWNER_ALL == OWNER_ALL,
        r matches Err(message) ==> message@
            == "Repair operations require administrator privileges"@,
{
    proof {
        lemma_owner_all(root_mode);
    }
    if root_mode & OWNER_ALL != OWNER_ALL {
        Err(String::from_str("Repair operations require administrator privileges"))
    } else {
        Ok(())
    }
}

/// Masking with `OWNER_ALL` tests the three owner bits together.
pub proof fn lemma_owner_all(mode: u32)
    ensures
        mode & OWNER_ALL == OWNER_ALL <==> owner_has_all(mode),
{
    assert((mode & 0o700 == 0o700) <==> (mode & 0o400 != 0 && mode & 0o200 != 0 && mode & 0o100
        != 0)) by (bit_vector);
}

/// Tells whether the process runs with elevated privileges, from its
/// effective user id: only user 0 does.
pub fn check_privileges(effective_uid: u32) -> (r: Result<bool, String>)
    ensures
        r == Ok::<bool, String>(effective_uid == 0),
{
    Ok(effective_uid == 0)
}

} // verus!
