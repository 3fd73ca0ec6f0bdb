//! The failures of a script worker.
//!
//! Each kind is local to what set it off. A worker that cannot start serves
//! nothing, ever. A closed queue fails the send that met it. A script that
//! fails costs that one script. An unreadable script file ends a single run.

use vstd::prelude::*;

verus! {

/// What can go wrong around a script worker.
#[derive(Debug, Clone, Copy, PartialEq, Eq, Structural)]
pub enum ScriptError {
    /// The engine, its context or its global scope could not be set up.
    StartupFailed,
    /// The command queue no longer has a receiving end: the worker has exited.
    ChannelClosed,
    /// The engine rejected a script, or the script raised an error while running.
    EvaluationFailed,
    /// The script file of a single run could not be opened or read as text.
    SourceUnreadable,
}

impl ScriptError {
    /// The diagnostic text of each failure.
    pub open spec fn description(self) -> Seq<char> {
        match self {
            ScriptError::StartupFailed => "the script engine could not be started"@,
            ScriptError::ChannelClosed => "the script worker has shut down"@,
            ScriptError::EvaluationFailed => "the script could not be evaluated"@,
            ScriptError::SourceUnreadable => "the script file could not be read"@,
        }
    }

    /// The failure as a line of text for a diagnostic.
    pub fn describe(&self) -> (text: String)
        ensures
            text@ == self.description(),
    {
        match self {
            ScriptError::StartupFailed => "the script engine could not be started".to_owned(),
            ScriptError::ChannelClosed => "the script worker has shut down".to_owned(),
            ScriptError::EvaluationFailed => "the script could not be evaluated".to_owned(),
            ScriptError::SourceUnreadable => "the script file could not be read".to_owned(),
        }
    }
}

} // verus!
