//! The commands that callers send to a script worker.

use vstd::prelude::*;

verus! {

/// A command for the worker. Commands are handed over in the order they were
/// sent.
#[derive(Debug, PartialEq, Eq)]
pub enum ScriptMessage {
    /// Leave the command loop and tear the engine down.
    Shutdown,
    /// Run this source text against the engine.
    EvaluateScript(String),
}

/// A command as contracts see it: the source text is a sequence of characters.
pub enum Command {
    Shutdown,
    Evaluate(Seq<char>),
}

impl View for ScriptMessage {
    type V = Command;

    open spec fn view(&self) -> Command {
        match self {
            ScriptMessage::Shutdown => Command::Shutdown,
            ScriptMessage::EvaluateScript(source) => Command::Evaluate(source@),
        }
    }
}

/// What a receive attempt yielded, as contracts see it.
pub open spec fn received_view(received: Option<ScriptMessage>) -> Option<Command> {
    match received {
        Some(message) => Some(message@),
        None => None,
    }
}

impl Clone for ScriptMessage {
    fn clone(&self) -> (copy: ScriptMessage)
        ensures
            copy@ == self@,
    {
        match self {
            ScriptMessage::Shutdown => ScriptMessage::Shutdown,
            ScriptMessage::EvaluateScript(source) => ScriptMessage::EvaluateScript(source.clone()),
        }
    }
}

impl ScriptMessage {
    /// The command that asks the engine to run `source`.
    pub fn evaluate(source: &str) -> (message: ScriptMessage)
        ensures
            message@ == Command::Evaluate(source@),
    {
        ScriptMessage::EvaluateScript(source.to_owned())
    }
}

} // verus!
