//! The channel variant: a conversation in one channel of one server,
//! with its own input line, scroll position and unread counter.

use vstd::prelude::*;

use crate::data;
use crate::history;
use crate::input_view;
use crate::input_view::InputView;
use crate::scroll_view;
use crate::scroll_view::{Position, ScrollView};
use crate::task::Task;
use crate::user_context;

verus! {

/// State of one open channel pane.
#[derive(Clone, Debug, PartialEq, Eq)]
pub struct Channel {
    /// Which conversation this pane shows; always the channel form of
    /// the descriptor (see `wf`).
    pub buffer: data::Buffer,
    /// Messages received since the pane was last scrolled to its end.
    pub unread: u64,
    pub input_view: InputView,
    pub scroll_view: ScrollView,
}

/// A message addressed to an open channel pane.
#[derive(Clone, Debug, PartialEq, Eq)]
pub enum Message {
    InputView(input_view::Message),
    ScrollView(scroll_view::Message),
    UserContext(user_context::Message),
    /// A channel link in the conversation was picked.
    OpenChannel(String),
    /// The pane reached its end; the unread counter falls to zero.
    MarkRead,
}

/// Outward notifications a channel update can produce.
#[derive(Clone, Debug, PartialEq, Eq)]
pub enum Event {
    UserContext(user_context::Event),
    OpenChannel(String),
    History(Task<history::Message>),
}

/// Deferred follow-up operations of one update step: scrolling to the
/// end schedules marking the pane read.
pub open spec fn step_ops(message: Message) -> Seq<Message> {
    match message {
        Message::ScrollView(scroll_view::Message::Scrolled(Position::End)) => seq![
            Message::MarkRead,
        ],
        _ => Seq::<Message>::empty(),
    }
}

/// Exactly which event one update step surfaces: a user-context
/// interaction translates one-to-one, a picked link asks to open that
/// channel, and scrolling back to the start schedules a history load
/// when the configuration asks for one.
pub open spec fn step_event_ok(message: Message, config: data::Config, event: Option<Event>) -> bool {
    match message {
        Message::UserContext(m) => event == Some(Event::UserContext(user_context::event_spec(m))),
        Message::OpenChannel(target) => event == Some(Event::OpenChannel(target)),
        Message::ScrollView(scroll_view::Message::Scrolled(p)) => {
            if p == Position::Start && config.infinite_scroll {
                event matches Some(Event::History(t)) && t@ == seq![history::Message::LoadOlder]
            } else {
                event is None
            }
        },
        _ => event is None,
    }
}

impl Channel {
    /// A channel pane always carries the channel form of the descriptor.
    pub open spec fn wf(self) -> bool {
        self.buffer is Channel
    }

    /// A fresh pane: empty input, anchored at the newest messages,
    /// nothing unread.
    pub open spec fn is_fresh(self) -> bool {
        &&& self.unread == 0
        &&& self.input_view.mentions@ == Seq::<data::Nick>::empty()
        &&& self.scroll_view == (ScrollView { position: Position::End })
    }

    /// The server this pane belongs to.
    pub open spec fn server_id(self) -> data::Server {
        match self.buffer {
            data::Buffer::Server(s) => s,
            data::Buffer::Channel(s, _) => s,
            data::Buffer::Query(s, _) => s,
        }
    }

    /// The channel name this pane shows.
    pub open spec fn channel_name(self) -> Seq<char> {
        match self.buffer {
            data::Buffer::Channel(_, c) => c@,
            _ => Seq::<char>::empty(),
        }
    }

    /// Open a fresh pane on one channel of one server.
    pub fn new(server: data::Server, channel: String) -> (c: Channel)
        ensures
            c.buffer == data::Buffer::Channel(server, channel),
            c.is_fresh(),
            c.wf(),
    {
        Channel {
            buffer: data::Buffer::Channel(server, channel),
            unread: 0,
            input_view: InputView::new(),
            scroll_view: ScrollView::new(),
        }
    }

    /// State after one update step.
    pub open spec fn step_state(self, message: Message) -> Channel {
        match message {
            Message::InputView(m) => Channel { input_view: self.input_view.update_spec(m), ..self },
            Message::ScrollView(m) => Channel { scroll_view: self.scroll_view.update_spec(m), ..self },
            Message::MarkRead => Channel { unread: 0, ..self },
            _ => self,
        }
    }

    /// Apply one message addressed to this pane. The client map and the
    /// history store are only borrowed for the call: history work is
    /// deferred through the returned event instead.
    pub fn update(
        &mut self,
        message: Message,
        clients: &mut data::ClientMap,
        history: &mut history::Manager,
        config: &data::Config,
    ) -> (r: (Task<Message>, Option<Event>))
        ensures
            *final(self) == old(self).step_state(message),
            r.0@ == step_ops(message),
            step_event_ok(message, *config, r.1),
            *final(clients) == *old(clients),
            *final(history) == *old(history),
    {
        match message {
            Message::InputView(m) => {
                self.input_view.update(m);
                (Task::none(), None)
            },
            Message::ScrollView(m) => {
                self.scroll_view.update(m);
                match m {
                    scroll_view::Message::Scrolled(p) => {
                        let t: Task<Message> = if p == Position::End {
                            Task::single(Message::MarkRead)
                        } else {
                            Task::none()
                        };
                        let e: Option<Event> = if p == Position::Start && config.infinite_scroll {
                            Some(Event::History(Task::single(history::Message::LoadOlder)))
                        } else {
                            None
                        };
                        (t, e)
                    },
                }
            },
            Message::UserContext(m) => {
                (Task::none(), Some(Event::UserContext(user_context::event_of(m))))
            },
            Message::OpenChannel(target) => (Task::none(), Some(Event::OpenChannel(target))),
            Message::MarkRead => {
                self.unread = 0;
                (Task::none(), None)
            },
        }
    }

    /// Deferred request to focus this pane's input line.
    pub fn focus(&self) -> (t: Task<Message>)
        ensures
            t@ == seq![Message::InputView(input_view::Message::Focus)],
    {
        Task::single(Message::InputView(input_view::Message::Focus))
    }

    /// Clear the transient input state; everything else stays.
    pub fn reset(&mut self)
        ensures
            final(self).input_view.mentions@ == Seq::<data::Nick>::empty(),
            final(self).buffer == old(self).buffer,
            final(self).unread == old(self).unread,
            final(self).scroll_view == old(self).scroll_view,
    {
        self.input_view.reset();
    }
}

} // verus!
