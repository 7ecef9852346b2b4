//! The logs variant: a read-only view of the client's own log, with a
//! scroll position but no input line. Its updates are purely local and
//! never surface events.

use vstd::prelude::*;

use crate::scroll_view;
use crate::scroll_view::ScrollView;
use crate::task::Task;

verus! {

/// State of the log viewer.
#[derive(Clone, Copy, Debug, PartialEq, Eq, Structural)]
pub struct Logs {
    pub scroll_view: ScrollView,
}

/// A message addressed to the log viewer.
#[derive(Clone, Copy, Debug, PartialEq, Eq, Structural)]
pub enum Message {
    ScrollView(scroll_view::Message),
}

impl Logs {
    /// Open the log viewer, anchored at the newest entries.
    pub fn new() -> (s: Self)
        ensures
            s == (Logs { scroll_view: ScrollView { position: scroll_view::Position::End } }),
    {
        Logs { scroll_view: ScrollView::new() }
    }

    /// State after one update step.
    pub open spec fn step_state(self, message: Message) -> Logs {
        match message {
            Message::ScrollView(m) => Logs { scroll_view: self.scroll_view.update_spec(m) },
        }
    }

    /// Apply one message: purely local, no deferred operations.
    pub fn update(&mut self, message: Message) -> (t: Task<Message>)
        ensures
            *final(self) == old(self).step_state(message),
            t@ == Seq::<Message>::empty(),
    {
        match message {
            Message::ScrollView(m) => {
                self.scroll_view.update(m);
                Task::none()
            },
        }
    }
}

} // verus!
