//! The command dispatcher: from subcommand names to a command, from a command
//! to the one external operation it performs, and from what that operation
//! observed to the command's reply and the process's exit status.

use vstd::prelude::*;
use crate::error::{Failure, NvctlError, outcome};
use crate::gpu::{gpu_query, gpu_query_outcome, selector_status, status_outcome, Gpu};
use crate::power::{classify_power, lemma_query_reads_back_write, power_query, power_token_of, power_write_result, PowerState};
use crate::text::same_text;

verus! {

/// A command of the tool: a group and an action.
#[derive(Clone, Copy, Debug, PartialEq, Eq, Structural)]
pub enum Command {
    PowerOn,
    PowerOff,
    PowerQuery,
    GpuIntel,
    GpuNvidia,
    GpuQuery,
}

/// What the dispatcher makes of the subcommand names.
#[derive(Clone, Copy, Debug, PartialEq, Eq, Structural)]
pub enum Dispatch {
    /// A group or an action is missing: print help, touch nothing.
    Help,
    /// A group or an action is not known: a usage error, touch nothing.
    Usage,
    /// Run the command.
    Run(Command),
}

/// The single external operation that a command performs.
#[derive(Clone, Copy, Debug, PartialEq, Eq, Structural)]
pub enum Effect {
    /// Write the token of the state to the power pseudo-file.
    WritePower(PowerState),
    /// Read the power pseudo-file.
    ReadPower,
    /// Run the selector helper with the name of the GPU.
    SwitchGpu(Gpu),
    /// Run the selector helper with the query argument.
    QueryGpu,
}

/// What the external operation observed.
#[derive(Debug)]
pub enum Observation {
    /// The outcome of a write to the power pseudo-file; an error is described
    /// by its text.
    Wrote(Result<(), String>),
    /// The outcome of a read of the power pseudo-file.
    Read(Result<String, String>),
    /// The selector helper ran, with this exit code (`None` when a signal ended
    /// it) and this standard output.
    Ran { code: Option<i32>, stdout: Vec<u8> },
}

/// What a successful command reports.
#[derive(Clone, Copy, Debug, PartialEq, Eq, Structural)]
pub enum Reply {
    /// A switch succeeded; nothing is printed.
    Done,
    /// A power query found this state.
    Power(PowerState),
    /// A GPU query found this GPU.
    Gpu(Gpu),
}

/// How the process ends: its exit code, and whether the error's message is
/// printed.
#[derive(Clone, Copy, Debug, PartialEq, Eq, Structural)]
pub struct Exit {
    pub code: i32,
    pub print_error: bool,
}

pub open spec fn opt_text(s: Option<&str>) -> Option<Seq<char>> {
    match s {
        Some(t) => Some(t@),
        None => None,
    }
}

/// The command named by `group` and `action`. A missing group, or a known
/// group without an action, asks for help; an unknown name is a usage error.
pub open spec fn dispatch_of(group: Option<Seq<char>>, action: Option<Seq<char>>) -> Dispatch {
    match group {
        None => Dispatch::Help,
        Some(g) => if g == "power"@ {
            match action {
                None => Dispatch::Help,
                Some(a) => if a == "on"@ {
                    Dispatch::Run(Command::PowerOn)
                } else if a == "off"@ {
                    Dispatch::Run(Command::PowerOff)
                } else if a == "query"@ {
                    Dispatch::Run(Command::PowerQuery)
                } else {
                    Dispatch::Usage
                },
            }
        } else if g == "gpu"@ {
            match action {
                None => Dispatch::Help,
                Some(a) => if a == "intel"@ {
                    Dispatch::Run(Command::GpuIntel)
                } else if a == "nvidia"@ {
                    Dispatch::Run(Command::GpuNvidia)
                } else if a == "query"@ {
                    Dispatch::Run(Command::GpuQuery)
                } else {
                    Dispatch::Usage
                },
            }
        } else {
            Dispatch::Usage
        },
    }
}

/// The external operation of `cmd`.
pub open spec fn effect_of(cmd: Command) -> Effect {
    match cmd {
        Command::PowerOn => Effect::WritePower(PowerState::On),
        Command::PowerOff => Effect::WritePower(PowerState::Off),
        Command::PowerQuery => Effect::ReadPower,
        Command::GpuIntel => Effect::SwitchGpu(Gpu::Intel),
        Command::GpuNvidia => Effect::SwitchGpu(Gpu::Nvidia),
        Command::GpuQuery => Effect::QueryGpu,
    }
}

/// The reply of `cmd` after its operation observed `obs`.
pub open spec fn reply_of(cmd: Command, obs: Observation) -> Result<Reply, Failure> {
    match obs {
        Observation::Wrote(w) => match w {
            Ok(()) => Ok(Reply::Done),
            Err(cause) => Err(Failure::PowerSurfaceUnavailable(cause@)),
        },
        Observation::Read(rd) => match rd {
            Err(cause) => Err(Failure::PowerSurfaceUnavailable(cause@)),
            Ok(contents) => match classify_power(contents@) {
                Ok(s) => Ok(Reply::Power(s)),
                Err(f) => Err(f),
            },
        },
        Observation::Ran { code, stdout } => if cmd == Command::GpuQuery {
            match gpu_query_outcome(code, stdout@) {
                Ok(g) => Ok(Reply::Gpu(g)),
                Err(f) => Err(f),
            }
        } else {
            match status_outcome(code) {
                Ok(()) => Ok(Reply::Done),
                Err(f) => Err(f),
            }
        },
    }
}

/// The end of a run that succeeded (`ok`) or failed, under the quiet flag:
/// exit code 0 or 1, and the error's message printed unless quiet.
pub open spec fn exit_of(quiet: bool, ok: bool) -> Exit {
    Exit { code: if ok { 0 } else { 1 }, print_error: !ok && !quiet }
}

/// The command named by the subcommand names.
pub fn dispatch(group: Option<&str>, action: Option<&str>) -> (r: Dispatch)
    ensures
        r == dispatch_of(opt_text(group), opt_text(action)),
{
    match group {
        None => Dispatch::Help,
        Some(g) => if same_text(g, "power") {
            match action {
                None => Dispatch::Help,
                Some(a) => if same_text(a, "on") {
                    Dispatch::Run(Command::PowerOn)
                } else if same_text(a, "off") {
                    Dispatch::Run(Command::PowerOff)
                } else if same_text(a, "query") {
                    Dispatch::Run(Command::PowerQuery)
                } else {
                    Dispatch::Usage
                },
            }
        } else if same_text(g, "gpu") {
            match action {
                None => Dispatch::Help,
                Some(a) => if same_text(a, "intel") {
                    Dispatch::Run(Command::GpuIntel)
                } else if same_text(a, "nvidia") {
                    Dispatch::Run(Command::GpuNvidia)
                } else if same_text(a, "query") {
                    Dispatch::Run(Command::GpuQuery)
                } else {
                    Dispatch::Usage
                },
            }
        } else {
            Dispatch::Usage
        },
    }
}

impl Command {
    /// The single external operation of this command.
    pub fn effect(&self) -> (r: Effect)
        ensures
            r == effect_of(*self),
    {
        match self {
            Command::PowerOn => Effect::WritePower(PowerState::On),
            Command::PowerOff => Effect::WritePower(PowerState::Off),
            Command::PowerQuery => Effect::ReadPower,
            Command::GpuIntel => Effect::SwitchGpu(Gpu::Intel),
            Command::GpuNvidia => Effect::SwitchGpu(Gpu::Nvidia),
            Command::GpuQuery => Effect::QueryGpu,
        }
    }

    /// The reply of this command after its operation observed `obs`.
    pub fn complete(&self, obs: Observation) -> (r: Result<Reply, NvctlError>)
        ensures
            outcome(r) == reply_of(*self, obs),
    {
        match obs {
            Observation::Wrote(w) => match power_write_result(w) {
                Ok(()) => Ok(Reply::Done),
                Err(e) => Err(e),
            },
            Observation::Read(rd) => match power_query(rd) {
                Ok(s) => Ok(Reply::Power(s)),
                Err(e) => Err(e),
            },
            Observation::Ran { code, stdout } => if *self == Command::GpuQuery {
                match gpu_query(code, stdout.as_slice()) {
                    Ok(g) => Ok(Reply::Gpu(g)),
                    Err(e) => Err(e),
                }
            } else {
                match selector_status(code) {
                    Ok(()) => Ok(Reply::Done),
                    Err(e) => Err(e),
                }
            },
        }
    }
}

/// How the process ends after a command's outcome `r`, under the quiet flag.
pub fn finish(quiet: bool, r: &Result<Reply, NvctlError>) -> (e: Exit)
    ensures
        e == exit_of(quiet, r is Ok),
{
    match r {
        Ok(_) => Exit { code: 0, print_error: false },
        Err(_) => Exit { code: 1, print_error: !quiet },
    }
}

/// A missing group, or the group `power` or `gpu` without an action, asks for
/// help and names no command, so no operation is performed.
pub proof fn lemma_missing_names_ask_for_help(action: Option<Seq<char>>)
    ensures
        dispatch_of(None, action) == Dispatch::Help,
        dispatch_of(Some("power"@), None) == Dispatch::Help,
        dispatch_of(Some("gpu"@), None) == Dispatch::Help,
{
}

/// Turning the power on or off and then querying a pseudo-file that holds the
/// token last written replies with the state that was requested.
pub proof fn lemma_switch_then_query(cmd: Command, contents: String)
    requires
        effect_of(cmd) is WritePower,
        contents@ == power_token_of(effect_of(cmd)->WritePower_0),
    ensures
        reply_of(Command::PowerQuery, Observation::Read(Ok(contents)))
            == Ok::<Reply, Failure>(Reply::Power(effect_of(cmd)->WritePower_0)),
{
    lemma_query_reads_back_write(effect_of(cmd)->WritePower_0);
}

/// A selector helper that fails (a non-zero exit code, or a signal) fails every
/// GPU command with that status, whatever it printed; the process then exits
/// with code 1, and prints the error unless quiet.
pub proof fn lemma_failed_helper(cmd: Command, code: Option<i32>, stdout: Vec<u8>, quiet: bool)
    requires
        effect_of(cmd) is SwitchGpu || effect_of(cmd) is QueryGpu,
        code != Some(0i32),
    ensures
        reply_of(cmd, Observation::Ran { code, stdout }) == Err::<Reply, Failure>(
            Failure::SelectorFailed(code),
        ),
        exit_of(quiet, false) == (Exit { code: 1, print_error: !quiet }),
{
}

/// Queries only read: a power query reads the pseudo-file and a GPU query runs
/// the helper with the query argument; neither writes a token or switches. Two
/// queries that observe the same text reply alike.
pub proof fn lemma_queries_read_only(
    cmd: Command,
    first: Observation,
    second: Observation,
)
    requires
        cmd == Command::PowerQuery || cmd == Command::GpuQuery,
        match (first, second) {
            (Observation::Read(Ok(a)), Observation::Read(Ok(b))) => a@ == b@,
            (Observation::Read(Err(a)), Observation::Read(Err(b))) => a@ == b@,
            (
                Observation::Ran { code: c1, stdout: o1 },
                Observation::Ran { code: c2, stdout: o2 },
            ) => c1 == c2 && o1@ == o2@,
            _ => false,
        },
    ensures
        !(effect_of(cmd) is WritePower) && !(effect_of(cmd) is SwitchGpu),
        reply_of(cmd, first) == reply_of(cmd, second),
{
}

} // verus!
