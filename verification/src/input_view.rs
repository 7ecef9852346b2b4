//! Text-input sub-state of a conversational buffer: the users inserted
//! into the input line, and the deferred operations that keep the input
//! focused while the user interacts with it.

use vstd::prelude::*;

use crate::data;
use crate::history;
use crate::task::Task;

verus! {

/// Message yielded by a deferred input operation once it has run.
#[derive(Clone, Copy, Debug, PartialEq, Eq, Structural)]
pub enum Message {
    /// Give the input line keyboard focus.
    Focus,
}

/// Input-line state of one conversational pane.
#[derive(Clone, Debug, PartialEq, Eq)]
pub struct InputView {
    /// Users inserted into the input line, oldest first.
    pub mentions: Vec<data::Nick>,
}

/// How insertion relates the input state before and after: the nick is
/// appended to the mentions and nothing else moves.
pub open spec fn inserted(pre: InputView, nick: data::Nick, post: InputView) -> bool {
    post.mentions@ == pre.mentions@.push(nick)
}

impl InputView {
    /// A fresh input line holds nothing.
    pub fn new() -> (s: Self)
        ensures
            s.mentions@ == Seq::<data::Nick>::empty(),
    {
        InputView { mentions: Vec::new() }
    }

    /// State after applying one input message.
    pub open spec fn update_spec(self, message: Message) -> InputView {
        match message {
            Message::Focus => self,
        }
    }

    /// Apply a completed input operation.
    pub fn update(&mut self, message: Message)
        ensures
            *final(self) == old(self).update_spec(message),
    {
        match message {
            Message::Focus => {},
        }
    }

    /// Append a user to the input line. The descriptor says which
    /// conversation the line belongs to; the history manager is only
    /// borrowed for the call and left as it was. The returned task
    /// refocuses the input once the insertion is shown.
    #[allow(unused_variables)]
    pub fn insert_user(
        &mut self,
        nick: data::Nick,
        buffer: &data::Buffer,
        history: &mut history::Manager,
    ) -> (t: Task<Message>)
        ensures
            inserted(*old(self), nick, *final(self)),
            t@ == seq![Message::Focus],
            *final(history) == *old(history),
    {
        self.mentions.push(nick);
        Task::single(Message::Focus)
    }

    /// Clear the transient input state.
    pub fn reset(&mut self)
        ensures
            final(self).mentions@ == Seq::<data::Nick>::empty(),
    {
        self.mentions = Vec::new();
    }
}

} // verus!
