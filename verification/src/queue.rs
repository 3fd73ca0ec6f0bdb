//! The command queue between the callers and the worker.
//!
//! Commands leave the queue in the order they entered it; none is lost and
//! none is handed out twice. The queue is unbounded. Once its receiving end is
//! gone the queue is closed: what was still buffered is dropped, and every
//! later send is refused.

use crate::error::ScriptError;
use crate::message::{received_view, Command, ScriptMessage};
use std::collections::VecDeque;
use vstd::prelude::*;

verus! {

/// An unbounded first-in, first-out queue of commands that can be closed.
pub struct CommandQueue {
    pending: VecDeque<ScriptMessage>,
    closed: bool,
}

/// A queue as contracts see it.
pub struct QueueView {
    /// The buffered commands, oldest first.
    pub pending: Seq<Command>,
    /// Whether the receiving end is gone.
    pub closed: bool,
}

impl QueueView {
    /// A fresh queue: open, with nothing buffered.
    pub open spec fn opened() -> QueueView {
        QueueView { pending: Seq::empty(), closed: false }
    }

    /// The queue after an attempt to send `command`: an open queue buffers it
    /// behind the others, a closed queue stays as it is.
    pub open spec fn send(self, command: Command) -> QueueView {
        if self.closed {
            self
        } else {
            QueueView { pending: self.pending.push(command), closed: false }
        }
    }

    /// The command a receive attempt hands out: the oldest one, if any.
    pub open spec fn front(self) -> Option<Command> {
        if self.pending.len() > 0 {
            Some(self.pending[0])
        } else {
            None
        }
    }

    /// The queue after a receive attempt: without its oldest command.
    pub open spec fn receive(self) -> QueueView {
        if self.pending.len() > 0 {
            QueueView { pending: self.pending.drop_first(), closed: self.closed }
        } else {
            self
        }
    }

    /// The queue once its receiving end is gone.
    pub open spec fn close(self) -> QueueView {
        QueueView { pending: Seq::empty(), closed: true }
    }
}

impl View for CommandQueue {
    type V = QueueView;

    closed spec fn view(&self) -> QueueView {
        QueueView {
            pending: self.pending@.map_values(|message: ScriptMessage| message@),
            closed: self.closed,
        }
    }
}

impl CommandQueue {
    /// An open queue with nothing buffered.
    pub fn new() -> (queue: CommandQueue)
        ensures
            queue@ == QueueView::opened(),
    {
        let queue = CommandQueue { pending: VecDeque::new(), closed: false };
        assert(queue@.pending =~= Seq::empty());
        queue
    }

    /// Puts `message` behind the buffered commands and returns at once. A
    /// closed queue takes nothing and reports `ChannelClosed`.
    pub fn send(&mut self, message: ScriptMessage) -> (result: Result<(), ScriptError>)
        ensures
            final(self)@ == old(self)@.send(message@),
            result == (if old(self)@.closed {
                Err::<(), ScriptError>(ScriptError::ChannelClosed)
            } else {
                Ok::<(), ScriptError>(())
            }),
    {
        if self.closed {
            return Err(ScriptError::ChannelClosed);
        }
        let ghost command = message@;
        self.pending.push_back(message);
        assert(self@.pending =~= old(self)@.pending.push(command));
        Ok(())
    }

    /// Takes the oldest buffered command, if there is one. This never waits:
    /// `None` says that nothing is buffered right now.
    pub fn receive(&mut self) -> (received: Option<ScriptMessage>)
        ensures
            received_view(received) == old(self)@.front(),
            final(self)@ == old(self)@.receive(),
    {
        let received = self.pending.pop_front();
        assert(self@.pending =~= old(self)@.receive().pending);
        received
    }

    /// Closes the queue: drops what is buffered and refuses every later send.
    pub fn close(&mut self)
        ensures
            final(self)@ == old(self)@.close(),
    {
        self.pending.clear();
        self.closed = true;
        assert(self@.pending =~= Seq::empty());
    }

    /// Whether the queue has been closed.
    pub fn is_closed(&self) -> (closed: bool)
        ensures
            closed == self@.closed,
    {
        self.closed
    }

    /// How many commands are buffered.
    pub fn len(&self) -> (count: usize)
        ensures
            count == self@.pending.len(),
    {
        self.pending.len()
    }

    /// Whether nothing is buffered.
    pub fn is_empty(&self) -> (empty: bool)
        ensures
            empty == (self@.pending.len() == 0),
    {
        self.pending.len() == 0
    }
}

} // verus!
