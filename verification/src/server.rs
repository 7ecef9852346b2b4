//! The server variant: the console of one server connection, with its
//! own input line and scroll position.

use vstd::prelude::*;

use crate::data;
use crate::history;
use crate::input_view;
use crate::input_view::InputView;
use crate::scroll_view;
use crate::scroll_view::{Position, ScrollView};
use crate::task::Task;
use crate::user_context;

verus! {

/// State of one open server console.
#[derive(Clone, Debug, PartialEq, Eq)]
pub struct Server {
    /// Which conversation this pane shows; always the server form of
    /// the descriptor (see `wf`).
    pub buffer: data::Buffer,
    pub input_view: InputView,
    pub scroll_view: ScrollView,
}

/// A message addressed to an open server console.
#[derive(Clone, Debug, PartialEq, Eq)]
pub enum Message {
    InputView(input_view::Message),
    ScrollView(scroll_view::Message),
    UserContext(user_context::Message),
    /// A channel link in the console output was picked.
    OpenChannel(String),
}

/// Outward notifications a server-console update can produce.
#[derive(Clone, Debug, PartialEq, Eq)]
pub enum Event {
    UserContext(user_context::Event),
    OpenChannel(String),
    History(Task<history::Message>),
}

/// Deferred follow-up operations of one update step: the console keeps
/// no unread counter, so nothing is scheduled.
pub open spec fn step_ops(message: Message) -> Seq<Message> {
    Seq::<Message>::empty()
}

/// Exactly which event one update step surfaces.
pub open spec fn step_event_ok(message: Message, config: data::Config, event: Option<Event>) -> bool {
    match message {
        Message::UserContext(m) => event == Some(Event::UserContext(user_context::event_spec(m))),
        Message::OpenChannel(target) => event == Some(Event::OpenChannel(target)),
        Message::ScrollView(scroll_view::Message::Scrolled(p)) => {
            if p == Position::Start && config.infinite_scroll {
                event matches Some(Event::History(t)) && t@ == seq![history::Message::LoadOlder]
            } else {
                event is None
            }
        },
        _ => event is None,
    }
}

impl Server {
    /// A server console always carries the server form of the descriptor.
    pub open spec fn wf(self) -> bool {
        self.buffer is Server
    }

    /// A fresh console: empty input, anchored at the newest messages.
    pub open spec fn is_fresh(self) -> bool {
        &&& self.input_view.mentions@ == Seq::<data::Nick>::empty()
        &&& self.scroll_view == (ScrollView { position: Position::End })
    }

    /// The server this console belongs to.
    pub open spec fn server_id(self) -> data::Server {
        match self.buffer {
            data::Buffer::Server(s) => s,
            data::Buffer::Channel(s, _) => s,
            data::Buffer::Query(s, _) => s,
        }
    }

    /// Open a fresh console on one server.
    pub fn new(server: data::Server) -> (s: Server)
        ensures
            s.buffer == data::Buffer::Server(server),
            s.is_fresh(),
            s.wf(),
    {
        Server {
            buffer: data::Buffer::Server(server),
            input_view: InputView::new(),
            scroll_view: ScrollView::new(),
        }
    }

    /// State after one update step.
    pub open spec fn step_state(self, message: Message) -> Server {
        match message {
            Message::InputView(m) => Server { input_view: self.input_view.update_spec(m), ..self },
            Message::ScrollView(m) => Server { scroll_view: self.scroll_view.update_spec(m), ..self },
            _ => self,
        }
    }

    /// Apply one message addressed to this console. The client map and
    /// the history store are only borrowed for the call: history work
    /// is deferred through the returned event instead.
    pub fn update(
        &mut self,
        message: Message,
        clients: &mut data::ClientMap,
        history: &mut history::Manager,
        config: &data::Config,
    ) -> (r: (Task<Message>, Option<Event>))
        ensures
            *final(self) == old(self).step_state(message),
            r.0@ == step_ops(message),
            step_event_ok(message, *config, r.1),
            *final(clients) == *old(clients),
            *final(history) == *old(history),
    {
        match message {
            Message::InputView(m) => {
                self.input_view.update(m);
                (Task::none(), None)
            },
            Message::ScrollView(m) => {
                self.scroll_view.update(m);
                match m {
                    scroll_view::Message::Scrolled(p) => {
                        let e: Option<Event> = if p == Position::Start && config.infinite_scroll {
                            Some(Event::History(Task::single(history::Message::LoadOlder)))
                        } else {
                            None
                        };
                        (Task::none(), e)
                    },
                }
            },
            Message::UserContext(m) => {
                (Task::none(), Some(Event::UserContext(user_context::event_of(m))))
            },
            Message::OpenChannel(target) => (Task::none(), Some(Event::OpenChannel(target))),
        }
    }

    /// Deferred request to focus this console's input line.
    pub fn focus(&self) -> (t: Task<Message>)
        ensures
            t@ == seq![Message::InputView(input_view::Message::Focus)],
    {
        Task::single(Message::InputView(input_view::Message::Focus))
    }

    /// Clear the transient input state; everything else stays.
    pub fn reset(&mut self)
        ensures
            final(self).input_view.mentions@ == Seq::<data::Nick>::empty(),
            final(self).buffer == old(self).buffer,
            final(self).scroll_view == old(self).scroll_view,
    {
        self.input_view.reset();
    }
}

} // verus!
