//! The worker's state machine.
//!
//! A worker is `Running` from the start and `Terminated` at the end; there is
//! no way back. Each turn of its loop takes what the queue yielded and decides
//! what the thread does next. Running a script and waiting for a command are
//! the thread's business; which of them is due is decided here.

use crate::error::ScriptError;
use crate::message::{received_view, Command, ScriptMessage};
use vstd::prelude::*;

verus! {

/// Where a worker stands in its life.
#[derive(Debug, Clone, Copy, PartialEq, Eq, Structural)]
pub enum WorkerState {
    /// The worker serves commands.
    Running,
    /// The worker has left its loop for good.
    Terminated,
}

/// What the worker's thread has to do next.
#[derive(Debug, PartialEq, Eq)]
pub enum WorkerAction {
    /// Run this source text against the engine, to completion, then ask again.
    Evaluate(String),
    /// Nothing is queued: block until a command has been sent, then ask again.
    Wait,
    /// Leave the loop and tear the engine down.
    Exit,
}

/// An action as contracts see it.
pub enum Action {
    Evaluate(Seq<char>),
    Wait,
    Exit,
}

impl View for WorkerAction {
    type V = Action;

    open spec fn view(&self) -> Action {
        match self {
            WorkerAction::Evaluate(source) => Action::Evaluate(source@),
            WorkerAction::Wait => Action::Wait,
            WorkerAction::Exit => Action::Exit,
        }
    }
}

impl Clone for WorkerAction {
    fn clone(&self) -> (copy: WorkerAction)
        ensures
            copy@ == self@,
    {
        match self {
            WorkerAction::Evaluate(source) => WorkerAction::Evaluate(source.clone()),
            WorkerAction::Wait => WorkerAction::Wait,
            WorkerAction::Exit => WorkerAction::Exit,
        }
    }
}

/// The transition relation of the worker, as a function: the state after one
/// turn of the loop, and the action that the turn asks for.
///
/// A terminated worker exits whatever it is handed. A running worker waits
/// when nothing was received, evaluates a script it received and stays
/// running, and terminates on `Shutdown`.
pub open spec fn step_spec(state: WorkerState, received: Option<Command>) -> (WorkerState, Action) {
    match state {
        WorkerState::Terminated => (WorkerState::Terminated, Action::Exit),
        WorkerState::Running => match received {
            None => (WorkerState::Running, Action::Wait),
            Some(Command::Shutdown) => (WorkerState::Terminated, Action::Exit),
            Some(Command::Evaluate(source)) => (WorkerState::Running, Action::Evaluate(source)),
        },
    }
}

/// One turn of the worker's loop: from the state and what the queue yielded to
/// the next state and the action to perform.
pub fn step(state: WorkerState, received: Option<ScriptMessage>) -> (next: (
    WorkerState,
    WorkerAction,
))
    ensures
        (next.0, next.1@) == step_spec(state, received_view(received)),
{
    match state {
        WorkerState::Terminated => (WorkerState::Terminated, WorkerAction::Exit),
        WorkerState::Running => match received {
            None => (WorkerState::Running, WorkerAction::Wait),
            Some(ScriptMessage::Shutdown) => (WorkerState::Terminated, WorkerAction::Exit),
            Some(ScriptMessage::EvaluateScript(source)) => (
                WorkerState::Running,
                WorkerAction::Evaluate(source),
            ),
        },
    }
}

/// What the worker reports once the engine is done with a script. A script
/// that failed costs the worker nothing but this report: the loop goes on with
/// the next command.
pub fn evaluation_report(outcome: Result<(), ()>) -> (report: Result<(), ScriptError>)
    ensures
        report == (match outcome {
            Ok(_) => Ok::<(), ScriptError>(()),
            Err(_) => Err::<(), ScriptError>(ScriptError::EvaluationFailed),
        }),
{
    match outcome {
        Ok(_) => Ok(()),
        Err(_) => Err(ScriptError::EvaluationFailed),
    }
}

} // verus!
