//! What one command run is, and how it ended. The command is fixed for
//! the process lifetime; every finished run, however it ended, owes the
//! scheduler exactly one completion message, so a failing command never
//! starves future reruns.

use vstd::prelude::*;

use crate::scheduler::Msg;

verus! {

/// The command to run: an executable name and its ordered argument list,
/// fixed for the process lifetime.
#[derive(Clone, PartialEq, Eq, Debug)]
pub struct CommandSpec {
    /// The executable's name or path.
    pub program: String,
    /// The arguments, in order.
    pub args: Vec<String>,
}

impl CommandSpec {
    /// Bundle an executable name with its arguments.
    pub fn new(program: String, args: Vec<String>) -> (c: CommandSpec)
        ensures
            c.program == program,
            c.args == args,
    {
        CommandSpec { program, args }
    }
}

/// How one command run ended.
#[derive(Clone, PartialEq, Eq, Debug)]
pub enum RunOutcome {
    /// The command ran and exited with this code.
    Exited(i32),
    /// The command ran but terminated without a retrievable exit code,
    /// for example killed by a signal.
    ExitedUnknown,
    /// The command could not be spawned or awaited: missing executable,
    /// permission denied, or a wait failure. The message describes the
    /// error.
    SpawnOrWaitFailed(String),
}

/// Classify how a run ended, from the wait's result: a code where one
/// was retrieved, unknown where the command terminated without one, and
/// a spawn-or-wait failure where the command never ran to a status at
/// all.
pub fn classify(status: Result<Option<i32>, String>) -> (r: RunOutcome)
    ensures
        match status {
            Ok(Some(code)) => r == RunOutcome::Exited(code),
            Ok(None) => r == RunOutcome::ExitedUnknown,
            Err(msg) => r == RunOutcome::SpawnOrWaitFailed(msg),
        },
{
    match status {
        Ok(Some(code)) => RunOutcome::Exited(code),
        Ok(None) => RunOutcome::ExitedUnknown,
        Err(msg) => RunOutcome::SpawnOrWaitFailed(msg),
    }
}

impl RunOutcome {
    /// The message owed to the scheduler once this outcome is known:
    /// every outcome, success or failure, signals completion, so that a
    /// failing command never blocks subsequent runs.
    pub fn completion_signal(&self) -> (m: Msg)
        ensures
            m == Msg::RunCompleted,
    {
        Msg::RunCompleted
    }
}

} // verus!
