//! The discipline of running an external tool: what is run, with what budget,
//! and how the way a run ended is read.

use crate::error::{ScanError, ScanErrorView};
use crate::text::{decimal, decimal_text, string_of};
use vstd::prelude::*;

verus! {

/// A program and the arguments it is started with.
#[derive(Debug, PartialEq, Eq)]
pub struct Invocation {
    pub program: String,
    pub args: Vec<String>,
}

/// The view of an `Invocation`.
pub struct InvocationView {
    pub program: Seq<char>,
    pub args: Seq<Seq<char>>,
}

impl View for Invocation {
    type V = InvocationView;

    open spec fn view(&self) -> InvocationView {
        InvocationView { program: self.program@, args: self.args.deep_view() }
    }
}

impl DeepView for Invocation {
    type V = InvocationView;

    open spec fn deep_view(&self) -> InvocationView {
        self@
    }
}

/// The complete output of one run of an external tool: the lines of its
/// standard output in order, whether it exited with status zero, and what it
/// wrote to its error stream.
#[derive(Debug)]
pub struct ToolRun {
    pub lines: Vec<String>,
    pub succeeded: bool,
    pub stderr: String,
}

/// How the attempt to run a command to its end turned out.
#[derive(Debug)]
pub enum RunEnd {
    /// The wall-clock budget ran out before the command ended.
    TimedOut,
    /// The command could not be started.
    NotStarted { reason: String },
    /// The command ran to its end.
    Finished { stdout: String, stderr: String },
}

/// Runs external commands under a wall-clock budget.
#[derive(Clone, Copy, Debug, PartialEq, Eq, Structural)]
pub struct ProcessManager {
    pub timeout_secs: u64,
}

/// The two output streams of a command that ran to its end, or the kind of
/// failure: a timeout is told apart from a command that did not start.
pub open spec fn run_outcome(end: RunEnd) -> Result<(Seq<char>, Seq<char>), ScanErrorView> {
    match end {
        RunEnd::TimedOut => Err(ScanErrorView::Timeout),
        RunEnd::NotStarted { reason } => Err(
            ScanErrorView::Spawn { message: "Failed to execute command: "@ + reason@ },
        ),
        RunEnd::Finished { stdout, stderr } => Ok((stdout@, stderr@)),
    }
}

/// The command that forcibly ends the process `pid` and all that descends from
/// it: on Windows the process tree by its identity, elsewhere the process
/// group that `pid` leads, written as the negative of the identity.
pub open spec fn kill_command(pid: u32, windows: bool) -> Option<InvocationView> {
    if pid <= 1 {
        None
    } else if windows {
        Some(
            InvocationView {
                program: "taskkill"@,
                args: seq!["/F"@, "/T"@, "/PID"@, decimal_text(pid as nat)],
            },
        )
    } else {
        Some(
            InvocationView {
                program: "kill"@,
                args: seq!["-KILL"@, "--"@, seq!['-'] + decimal_text(pid as nat)],
            },
        )
    }
}

impl ProcessManager {
    /// A manager that gives each command `timeout_secs` seconds.
    pub fn new(timeout_secs: u64) -> (m: ProcessManager)
        ensures
            m.timeout_secs == timeout_secs,
    {
        ProcessManager { timeout_secs }
    }

    /// The budget in milliseconds, saturating at the greatest `u64`.
    pub fn timeout_millis(&self) -> (ms: u64)
        ensures
            ms == if self.timeout_secs * 1000 <= u64::MAX {
                self.timeout_secs * 1000
            } else {
                u64::MAX as int
            },
    {
        if self.timeout_secs <= u64::MAX / 1000 {
            self.timeout_secs * 1000
        } else {
            u64::MAX
        }
    }

    /// Reads how a command run under the budget ended.
    pub fn execute_with_timeout(&self, end: RunEnd) -> (r: Result<(String, String), ScanError>)
        ensures
            match r {
                Ok((out, err)) => run_outcome(end) == Ok::<(Seq<char>, Seq<char>), ScanErrorView>(
                    (out@, err@),
                ),
                Err(e) => run_outcome(end) == Err::<(Seq<char>, Seq<char>), ScanErrorView>(e@),
            },
    {
        match end {
            RunEnd::TimedOut => Err(ScanError::Timeout),
            RunEnd::NotStarted { reason } => Err(
                ScanError::Spawn {
                    message: crate::error::prefixed("Failed to execute command: ", reason.as_str()),
                },
            ),
            RunEnd::Finished { stdout, stderr } => Ok((stdout, stderr)),
        }
    }

    /// The command that forcibly ends the process `pid` together with
    /// everything that descends from it. Elsewhere than on Windows the command
    /// signals the process group that `pid` leads, so a tool is to be started
    /// as the leader of a group of its own. There is no command for the
    /// identities 0 and 1: they never name a tool, and as a group they would
    /// name the caller's own group and every process.
    pub fn kill_process_tree(pid: u32, windows: bool) -> (r: Option<Invocation>)
        ensures
            r.deep_view() == kill_command(pid, windows),
    {
        if pid <= 1 {
            return None;
        }
        let mut args: Vec<String> = Vec::new();
        if windows {
            args.push("/F".to_owned());
            args.push("/T".to_owned());
            args.push("/PID".to_owned());
            args.push(string_of(&decimal(pid as u128)));
            assert(args.deep_view() =~= seq!["/F"@, "/T"@, "/PID"@, decimal_text(pid as nat)]);
            Some(Invocation { program: "taskkill".to_owned(), args })
        } else {
            let mut group: Vec<char> = Vec::new();
            group.push('-');
            crate::text::push_decimal(&mut group, pid as u128);
            assert(group@ =~= seq!['-'] + decimal_text(pid as nat));
            args.push("-KILL".to_owned());
            args.push("--".to_owned());
            args.push(string_of(&group));
            assert(args.deep_view() =~= seq!["-KILL"@, "--"@, seq!['-'] + decimal_text(pid as nat)]);
            Some(Invocation { program: "kill".to_owned(), args })
        }
    }
}

} // verus!
