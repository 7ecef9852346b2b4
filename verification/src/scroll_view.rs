//! Scroll state of one message pane. Every scrollable variant keeps its
//! own `ScrollView`, so switching buffers never disturbs another pane's
//! position.

use vstd::prelude::*;

use crate::task::Task;

verus! {

/// Where a pane is anchored.
#[derive(Clone, Copy, Debug, PartialEq, Eq, Structural)]
pub enum Position {
    /// The oldest messages.
    Start,
    /// The newest messages.
    End,
}

/// Message yielded by a deferred scroll operation once it has run.
#[derive(Clone, Copy, Debug, PartialEq, Eq, Structural)]
pub enum Message {
    Scrolled(Position),
}

/// Scroll state of one pane.
#[derive(Clone, Copy, Debug, PartialEq, Eq, Structural)]
pub struct ScrollView {
    pub position: Position,
}

impl ScrollView {
    /// A fresh pane is anchored at the newest messages.
    pub fn new() -> (s: Self)
        ensures
            s == (ScrollView { position: Position::End }),
    {
        ScrollView { position: Position::End }
    }

    /// State after applying one scroll message.
    pub open spec fn update_spec(self, message: Message) -> ScrollView {
        match message {
            Message::Scrolled(position) => ScrollView { position },
        }
    }

    /// Apply a completed scroll operation.
    pub fn update(&mut self, message: Message)
        ensures
            *final(self) == old(self).update_spec(message),
    {
        match message {
            Message::Scrolled(position) => {
                self.position = position;
            },
        }
    }

    /// Deferred request to jump to the oldest messages.
    pub fn scroll_to_start(&self) -> (t: Task<Message>)
        ensures
            t@ == seq![Message::Scrolled(Position::Start)],
    {
        Task::single(Message::Scrolled(Position::Start))
    }

    /// Deferred request to jump to the newest messages.
    pub fn scroll_to_end(&self) -> (t: Task<Message>)
        ensures
            t@ == seq![Message::Scrolled(Position::End)],
    {
        Task::single(Message::Scrolled(Position::End))
    }
}

} // verus!
