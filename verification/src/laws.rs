//! What holds of every session, whatever the callers and the worker do.
//!
//! A session's history is a sequence of events: a caller sends a command, or
//! the worker takes one turn of its loop. The laws below speak of every such
//! history.

use crate::message::Command;
use crate::script::Session;
use crate::worker::Action;
use vstd::prelude::*;

verus! {

/// One event in the history of a session.
pub enum Event {
    /// A caller sends this command.
    Send(Command),
    /// The worker takes one turn of its loop.
    Poll,
}

impl Session {
    /// The scripts that the worker is handed, in order, if it takes turns
    /// until it has to wait or exits.
    pub open spec fn backlog(self) -> Seq<Seq<char>>
        decreases self.pending.len(),
    {
        match self.poll() {
            (next, Action::Evaluate(source)) => seq![source] + next.backlog(),
            (_, _) => Seq::empty(),
        }
    }

    /// The session once the worker has taken turns until it has to wait or
    /// exits.
    pub open spec fn settled(self) -> Session
        decreases self.pending.len(),
    {
        match self.poll() {
            (next, Action::Evaluate(_)) => next.settled(),
            (next, _) => next,
        }
    }

    /// Whether the end of the session is decided: the worker has terminated,
    /// or `Shutdown` is queued.
    pub open spec fn closing(self) -> bool {
        self.state is Terminated || self.pending.contains(Command::Shutdown)
    }

    /// The session after one event, and the scripts that the event handed to
    /// the engine: one for a turn that evaluates, none otherwise.
    pub open spec fn apply(self, event: Event) -> (Session, Seq<Seq<char>>) {
        match event {
            Event::Send(command) => (self.send(command), Seq::empty()),
            Event::Poll => match self.poll() {
                (next, Action::Evaluate(source)) => (next, seq![source]),
                (next, _) => (next, Seq::empty()),
            },
        }
    }

    /// The session after a history, and the scripts handed to the engine on
    /// the way, in the order in which they were handed out.
    pub open spec fn run(self, events: Seq<Event>) -> (Session, Seq<Seq<char>>)
        decreases events.len(),
    {
        if events.len() == 0 {
            (self, Seq::empty())
        } else {
            let (next, first) = self.apply(events[0]);
            let (end, rest) = next.run(events.drop_first());
            (end, first + rest)
        }
    }
}

/// The scripts that a history submits before it first sends `Shutdown`, in the
/// order of submission.
pub open spec fn submitted(events: Seq<Event>) -> Seq<Seq<char>>
    decreases events.len(),
{
    if events.len() == 0 {
        Seq::empty()
    } else {
        match events[0] {
            Event::Send(Command::Shutdown) => Seq::empty(),
            Event::Send(Command::Evaluate(source)) => seq![source] + submitted(
                events.drop_first(),
            ),
            Event::Poll => submitted(events.drop_first()),
        }
    }
}

/// Sending a command to a running worker extends its backlog by that script
/// if the end of the session is not decided yet, and leaves the backlog as it
/// is otherwise.
pub proof fn lemma_backlog_after_send(session: Session, command: Command)
    requires
        session.state is Running,
    ensures
        session.send(command).backlog() == (match command {
            Command::Evaluate(source) if !session.closing() => session.backlog().push(source),
            _ => session.backlog(),
        }),
        session.send(command).closing() == (session.closing() || command is Shutdown),
    decreases session.pending.len(),
{
    let sent = session.send(command);
    if session.pending.len() == 0 {
        assert(sent.pending.drop_first() =~= Seq::<Command>::empty());
        match command {
            Command::Evaluate(source) => {
                let rest = sent.poll().0;
                assert(rest.backlog() =~= Seq::empty());
            },
            Command::Shutdown => {},
        }
    } else {
        match session.pending[0] {
            Command::Shutdown => {
            },
            Command::Evaluate(first) => {
                let rest = session.poll().0;
                assert(sent.pending.drop_first() =~= rest.pending.push(command));
                assert(sent.poll().0 == rest.send(command));
                lemma_backlog_after_send(rest, command);
                lemma_closing_without_first(session);
                lemma_closing_without_first(sent);
                match command {
                    Command::Evaluate(source) if !session.closing() => {
                        assert(sent.backlog() =~= session.backlog().push(source));
                    },
                    _ => {},
                }
            },
        }
    }
    assert(sent.closing() == (session.closing() || command is Shutdown)) by {
        if command is Shutdown {
            assert(sent.pending[sent.pending.len() - 1] == Command::Shutdown);
            assert(sent.pending.contains(Command::Shutdown));
        } else if sent.pending.contains(Command::Shutdown) {
            let i = choose|i: int| 0 <= i < sent.pending.len() && sent.pending[i] == Command::Shutdown;
            assert(i < session.pending.len());
            assert(session.pending[i] == Command::Shutdown);
        } else if session.pending.contains(Command::Shutdown) {
            let i = choose|i: int|
                0 <= i < session.pending.len() && session.pending[i] == Command::Shutdown;
            assert(sent.pending[i] == Command::Shutdown);
        }
    }
}

/// Taking a script off the front of the queue does not change whether
/// `Shutdown` is queued.
proof fn lemma_closing_without_first(session: Session)
    requires
        session.state is Running,
        session.pending.len() > 0,
        session.pending[0] is Evaluate,
    ensures
        session.poll().0.closing() == session.closing(),
{
    let rest = session.poll().0;
    if rest.pending.contains(Command::Shutdown) {
        let i = choose|i: int| 0 <= i < rest.pending.len() && rest.pending[i] == Command::Shutdown;
        assert(session.pending[i + 1] == Command::Shutdown);
    }
    if session.pending.contains(Command::Shutdown) {
        let i = choose|i: int|
            0 <= i < session.pending.len() && session.pending[i] == Command::Shutdown;
        assert(rest.pending[i - 1] == Command::Shutdown);
    }
}

/// Scripts reach the engine in the order of their submission, none is lost
/// and none runs twice: after any history of a fresh session, the scripts
/// handed to the engine so far, followed by those that the worker will still
/// be handed, are exactly the scripts submitted before the first `Shutdown`.
/// A script submitted after a `Shutdown` is never run.
pub proof fn law_scripts_run_in_submission_order(events: Seq<Event>)
    ensures
        ({
            let (end, evaluated) = Session::started().run(events);
            evaluated + end.backlog() == submitted(events)
        }),
{
    let fresh = Session::started();
    lemma_run_accounts_for_scripts(fresh, events);
}

/// The same account for a history that starts anywhere: what is handed out
/// and what is still due is what was due at the start, followed by what the
/// history submits, unless the end of the session was decided already.
pub proof fn lemma_run_accounts_for_scripts(session: Session, events: Seq<Event>)
    ensures
        ({
            let (end, evaluated) = session.run(events);
            evaluated + end.backlog() == session.backlog() + (if session.closing() {
                Seq::empty()
            } else {
                submitted(events)
            })
        }),
    decreases events.len(),
{
    let (end, evaluated) = session.run(events);
    let due = if session.closing() {
        Seq::empty()
    } else {
        submitted(events)
    };
    if events.len() == 0 {
        assert(evaluated + end.backlog() =~= session.backlog() + due);
    } else {
        let (next, first) = session.apply(events[0]);
        let rest = events.drop_first();
        lemma_run_accounts_for_scripts(next, rest);
        let (_, later) = next.run(rest);
        let due_next = if next.closing() {
            Seq::empty()
        } else {
            submitted(rest)
        };
        match events[0] {
            Event::Poll => {
                assert(first + next.backlog() =~= session.backlog());
                if session.state is Running && session.pending.len() > 0 {
                    if session.pending[0] is Evaluate {
                        lemma_closing_without_first(session);
                    } else {
                        assert(session.pending.contains(Command::Shutdown));
                    }
                }
                assert(first + later + end.backlog() =~= first + (later + end.backlog()));
                assert(first + (next.backlog() + due) =~= first + next.backlog() + due);
            },
            Event::Send(command) => {
                assert(first + later =~= later);
                if session.state is Running {
                    lemma_backlog_after_send(session, command);
                    match command {
                        Command::Evaluate(source) => {
                            if !session.closing() {
                                assert(due == seq![source] + due_next);
                                assert(session.backlog().push(source) + due_next
                                    =~= session.backlog() + (seq![source] + due_next));
                            }
                        },
                        Command::Shutdown => {},
                    }
                }
            },
        }
        assert(evaluated + end.backlog() =~= session.backlog() + due);
    }
}

/// Shutdown is terminal: whatever is sent to a terminated worker, and however
/// often it is asked, the session stays as it is and nothing reaches the
/// engine.
pub proof fn law_terminated_is_final(session: Session, events: Seq<Event>)
    requires
        session.state is Terminated,
    ensures
        session.run(events) == (session, Seq::<Seq<char>>::empty()),
    decreases events.len(),
{
    if events.len() > 0 {
        law_terminated_is_final(session, events.drop_first());
        assert(Seq::<Seq<char>>::empty() + Seq::<Seq<char>>::empty() =~= Seq::<Seq<char>>::empty());
    }
}

/// A `Shutdown` that was queued is reached: a running worker with `Shutdown`
/// in its queue has terminated by the time it would have to wait, having been
/// handed only the scripts queued ahead of the `Shutdown`.
pub proof fn law_shutdown_is_reached(session: Session)
    requires
        session.state is Running,
        session.pending.contains(Command::Shutdown),
    ensures
        session.settled() == Session::ended(),
    decreases session.pending.len(),
{
    if session.pending[0] is Evaluate {
        lemma_closing_without_first(session);
        law_shutdown_is_reached(session.poll().0);
    }
}

} // verus!
