//! A worker session: what the callers and the worker share.
//!
//! Callers queue scripts with [`evaluate_script`] and end the session with
//! [`shutdown`]; neither waits. The worker's thread asks
//! [`ScriptThread::next_action`] what to do, one command at a time. The
//! embedding program owns the thread, the blocking and the engine.

use crate::error::ScriptError;
use crate::message::{Command, ScriptMessage};
use crate::queue::CommandQueue;
use crate::worker::{step, Action, WorkerAction, WorkerState};
use vstd::prelude::*;

verus! {

/// One worker and the queue that feeds it.
pub struct ScriptThread {
    queue: CommandQueue,
}

/// A session as contracts see it.
pub struct Session {
    /// The commands sent and not yet received by the worker, oldest first.
    pub pending: Seq<Command>,
    /// Where the worker stands.
    pub state: WorkerState,
}

impl Session {
    /// A session that has just been started: the worker runs and nothing is
    /// queued.
    pub open spec fn started() -> Session {
        Session { pending: Seq::empty(), state: WorkerState::Running }
    }

    /// Whether a command sent now is queued.
    pub open spec fn accepts(self) -> bool {
        self.state is Running
    }

    /// The session after a caller tried to send `command`: queued behind the
    /// others while the worker runs, refused without a trace afterwards.
    pub open spec fn send(self, command: Command) -> Session {
        if self.accepts() {
            Session { pending: self.pending.push(command), state: self.state }
        } else {
            self
        }
    }

    /// One turn of the worker's loop: the session afterwards and the action
    /// that the worker's thread is asked for.
    ///
    /// A terminated worker exits and touches nothing. A running worker waits
    /// when nothing is queued. Otherwise it takes the oldest command: a script
    /// is handed out for evaluation; `Shutdown` terminates the worker, and
    /// what was queued behind it is dropped.
    pub open spec fn poll(self) -> (Session, Action) {
        if self.state is Terminated {
            (self, Action::Exit)
        } else if self.pending.len() == 0 {
            (self, Action::Wait)
        } else {
            match self.pending[0] {
                Command::Evaluate(source) => (
                    Session { pending: self.pending.drop_first(), state: WorkerState::Running },
                    Action::Evaluate(source),
                ),
                Command::Shutdown => (Session::ended(), Action::Exit),
            }
        }
    }

    /// A session that is over: the worker has terminated and nothing is
    /// queued.
    pub open spec fn ended() -> Session {
        Session { pending: Seq::empty(), state: WorkerState::Terminated }
    }
}

impl View for ScriptThread {
    type V = Session;

    closed spec fn view(&self) -> Session {
        Session {
            pending: self.queue@.pending,
            state: if self.queue@.closed {
                WorkerState::Terminated
            } else {
                WorkerState::Running
            },
        }
    }
}

/// Starts a session. The worker counts as running from this moment: scripts
/// may be queued before its engine is ready.
pub fn start() -> (thread: ScriptThread)
    ensures
        thread@ == Session::started(),
{
    ScriptThread { queue: CommandQueue::new() }
}

/// Queues `script` for evaluation and returns at once. Nothing is reported
/// back about the evaluation itself. Fails with `ChannelClosed`, and queues
/// nothing, exactly when the worker has terminated.
pub fn evaluate_script(thread: &mut ScriptThread, script: &str) -> (result: Result<
    (),
    ScriptError,
>)
    ensures
        final(thread)@ == old(thread)@.send(Command::Evaluate(script@)),
        result == (if old(thread)@.accepts() {
            Ok::<(), ScriptError>(())
        } else {
            Err::<(), ScriptError>(ScriptError::ChannelClosed)
        }),
{
    thread.queue.send(ScriptMessage::evaluate(script))
}

/// Queues the `Shutdown` command behind everything sent so far. The worker
/// terminates when it gets there. Fails with `ChannelClosed`, and queues
/// nothing, exactly when the worker has terminated already.
pub fn shutdown(thread: &mut ScriptThread) -> (result: Result<(), ScriptError>)
    ensures
        final(thread)@ == old(thread)@.send(Command::Shutdown),
        result == (if old(thread)@.accepts() {
            Ok::<(), ScriptError>(())
        } else {
            Err::<(), ScriptError>(ScriptError::ChannelClosed)
        }),
{
    thread.queue.send(ScriptMessage::Shutdown)
}

impl ScriptThread {
    /// Where the worker stands.
    pub fn state(&self) -> (state: WorkerState)
        ensures
            state == self@.state,
    {
        if self.queue.is_closed() {
            WorkerState::Terminated
        } else {
            WorkerState::Running
        }
    }

    /// How many commands are queued and not yet received by the worker.
    pub fn pending(&self) -> (count: usize)
        ensures
            count == self@.pending.len(),
    {
        self.queue.len()
    }

    /// One turn of the worker's loop, for the worker's thread: takes the
    /// oldest queued command, if any, and says what to do.
    pub fn next_action(&mut self) -> (action: WorkerAction)
        ensures
            (final(self)@, action@) == old(self)@.poll(),
    {
        let state = self.state();
        if let WorkerState::Terminated = state {
            return WorkerAction::Exit;
        }
        let received = self.queue.receive();
        let (next, action) = step(state, received);
        if let WorkerState::Terminated = next {
            self.queue.close();
        }
        action
    }

    /// Ends the session from the worker's side, for a worker that cannot
    /// serve: its engine could not be set up, or its thread is going down.
    /// What is queued is dropped and every later send is refused.
    pub fn abort(&mut self)
        ensures
            final(self)@ == Session::ended(),
    {
        self.queue.close();
    }
}

} // verus!
