//! The supervisor's error taxonomy. No failure is retried: a spawn failure
//! aborts that launch attempt, a wait failure surfaces to the race, and an
//! enumeration failure is fatal to the poller. Each variant carries the
//! underlying OS error's message for display.

use vstd::prelude::*;
use vstd::string::StringExecFns;

verus! {

/// A terminal failure of one supervised task.
#[derive(Debug, PartialEq, Eq)]
pub enum SupervisorError {
    /// The executable was missing or unrunnable; nothing was registered.
    Spawn(String),
    /// The OS failed while the launcher observed the child's exit.
    Wait(String),
    /// The OS process-table query failed; fatal to the poller.
    Enumeration(String),
}

impl SupervisorError {
    /// A display line for the error, for the process's final output.
    pub fn describe(&self) -> (r: String)
        ensures
            self is Spawn ==> r@ == "spawn error: "@ + self->Spawn_0@,
            self is Wait ==> r@ == "wait error: "@ + self->Wait_0@,
            self is Enumeration ==> r@ == "process enumeration error: "@ + self->Enumeration_0@,
    {
        match self {
            SupervisorError::Spawn(msg) => String::from_str("spawn error: ").concat(msg.as_str()),
            SupervisorError::Wait(msg) => String::from_str("wait error: ").concat(msg.as_str()),
            SupervisorError::Enumeration(msg) => String::from_str(
                "process enumeration error: ",
            ).concat(msg.as_str()),
        }
    }
}

} // verus!
