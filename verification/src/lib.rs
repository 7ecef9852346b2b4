//! Buffer-management core of a chat client's interface. A `Buffer`
//! holds whichever view is open — a channel, a server console, a
//! direct conversation, the transfers panel, the log viewer, or
//! nothing — and this crate owns the dispatch that routes update
//! messages, lifecycle operations and rendering requests to the active
//! variant. Messages aimed at a variant that is no longer active are
//! expected under asynchronous delivery and are absorbed silently.

pub mod channel;
pub mod data;
pub mod file_transfer;
pub mod file_transfers;
pub mod history;
pub mod input_view;
pub mod logs;
pub mod query;
pub mod scroll_view;
pub mod server;
pub mod task;
pub mod user_context;

use vstd::prelude::*;

use crate::scroll_view::Position;
use crate::task::Task;

verus! {

/// The unified, switchable container: whichever conversational or
/// utility view is currently displayed, or none.
#[derive(Clone, Debug, PartialEq, Eq)]
pub enum Buffer {
    Empty,
    Channel(channel::Channel),
    Server(server::Server),
    Query(query::Query),
    FileTransfers(file_transfers::FileTransfers),
    Logs(logs::Logs),
}

/// A message addressed to one variant; every variant except `Empty`
/// has a message kind.
#[derive(Clone, Debug, PartialEq, Eq)]
pub enum Message {
    Channel(channel::Message),
    Server(server::Message),
    Query(query::Message),
    FileTransfers(file_transfers::Message),
    Log(logs::Message),
}

/// A unified outward notification, independent of which variant
/// produced it.
#[derive(Clone, Debug, PartialEq, Eq)]
pub enum Event {
    UserContext(user_context::Event),
    OpenChannel(String),
    History(Task<history::Message>),
}

/// Description of the screen one render pass draws: which variant's
/// pane is shown, built from exactly the inputs that variant reads.
#[derive(Clone, Copy, Debug, PartialEq, Eq, Structural)]
pub enum Screen {
    Empty { open_buffers: u64 },
    Channel { focused: bool, nicklist: bool, position: Position },
    Server { focused: bool, position: Position },
    Query { focused: bool, position: Position },
    FileTransfers { active: u64 },
    Logs { position: Position },
}

/// Whether a message targets the active variant. A pair that does not
/// match is a stale message and is dropped without effect.
pub open spec fn is_matching(buffer: Buffer, message: Message) -> bool {
    match (buffer, message) {
        (Buffer::Channel(_), Message::Channel(_)) => true,
        (Buffer::Server(_), Message::Server(_)) => true,
        (Buffer::Query(_), Message::Query(_)) => true,
        (Buffer::FileTransfers(_), Message::FileTransfers(_)) => true,
        (Buffer::Logs(_), Message::Log(_)) => true,
        _ => false,
    }
}

/// The unified event a channel update surfaces, message by message:
/// the channel's own event translated one-to-one.
pub open spec fn channel_event_unified(
    m: channel::Message,
    config: data::Config,
    event: Option<Event>,
) -> bool {
    match m {
        channel::Message::UserContext(um) => event == Some(
            Event::UserContext(user_context::event_spec(um)),
        ),
        channel::Message::OpenChannel(target) => event == Some(Event::OpenChannel(target)),
        channel::Message::ScrollView(scroll_view::Message::Scrolled(p)) => {
            if p == Position::Start && config.infinite_scroll {
                event matches Some(Event::History(t)) && t@ == seq![history::Message::LoadOlder]
            } else {
                event is None
            }
        },
        _ => event is None,
    }
}

/// The unified event a server-console update surfaces, message by
/// message: the console's own event translated one-to-one.
pub open spec fn server_event_unified(
    m: server::Message,
    config: data::Config,
    event: Option<Event>,
) -> bool {
    match m {
        server::Message::UserContext(um) => event == Some(
            Event::UserContext(user_context::event_spec(um)),
        ),
        server::Message::OpenChannel(target) => event == Some(Event::OpenChannel(target)),
        server::Message::ScrollView(scroll_view::Message::Scrolled(p)) => {
            if p == Position::Start && config.infinite_scroll {
                event matches Some(Event::History(t)) && t@ == seq![history::Message::LoadOlder]
            } else {
                event is None
            }
        },
        _ => event is None,
    }
}

/// The unified event a query update surfaces, message by message: the
/// query's own event translated one-to-one.
pub open spec fn query_event_unified(
    m: query::Message,
    config: data::Config,
    event: Option<Event>,
) -> bool {
    match m {
        query::Message::UserContext(um) => event == Some(
            Event::UserContext(user_context::event_spec(um)),
        ),
        query::Message::OpenChannel(target) => event == Some(Event::OpenChannel(target)),
        query::Message::ScrollView(scroll_view::Message::Scrolled(p)) => {
            if p == Position::Start && config.infinite_scroll {
                event matches Some(Event::History(t)) && t@ == seq![history::Message::LoadOlder]
            } else {
                event is None
            }
        },
        _ => event is None,
    }
}

/// The unified form of a channel's own event.
pub open spec fn lift_channel_event(event: Option<channel::Event>) -> Option<Event> {
    match event {
        None => None,
        Some(channel::Event::UserContext(e)) => Some(Event::UserContext(e)),
        Some(channel::Event::OpenChannel(target)) => Some(Event::OpenChannel(target)),
        Some(channel::Event::History(t)) => Some(Event::History(t)),
    }
}

/// The unified form of a server console's own event.
pub open spec fn lift_server_event(event: Option<server::Event>) -> Option<Event> {
    match event {
        None => None,
        Some(server::Event::UserContext(e)) => Some(Event::UserContext(e)),
        Some(server::Event::OpenChannel(target)) => Some(Event::OpenChannel(target)),
        Some(server::Event::History(t)) => Some(Event::History(t)),
    }
}

/// The unified form of a query's own event.
pub open spec fn lift_query_event(event: Option<query::Event>) -> Option<Event> {
    match event {
        None => None,
        Some(query::Event::UserContext(e)) => Some(Event::UserContext(e)),
        Some(query::Event::OpenChannel(target)) => Some(Event::OpenChannel(target)),
        Some(query::Event::History(t)) => Some(Event::History(t)),
    }
}

/// Law: whatever event a channel update surfaces, the unified event of
/// the dispatch is exactly that event translated — nothing added,
/// dropped or reshaped.
pub proof fn lemma_channel_event_translation(
    m: channel::Message,
    config: data::Config,
    local: Option<channel::Event>,
)
    requires
        channel::step_event_ok(m, config, local),
    ensures
        channel_event_unified(m, config, lift_channel_event(local)),
{
}

/// Law: whatever event a server-console update surfaces, the unified
/// event of the dispatch is exactly that event translated.
pub proof fn lemma_server_event_translation(
    m: server::Message,
    config: data::Config,
    local: Option<server::Event>,
)
    requires
        server::step_event_ok(m, config, local),
    ensures
        server_event_unified(m, config, lift_server_event(local)),
{
}

/// Law: whatever event a query update surfaces, the unified event of
/// the dispatch is exactly that event translated.
pub proof fn lemma_query_event_translation(
    m: query::Message,
    config: data::Config,
    local: Option<query::Event>,
)
    requires
        query::step_event_ok(m, config, local),
    ensures
        query_event_unified(m, config, lift_query_event(local)),
{
}

/// Law: the channel translation loses nothing — it is injective.
pub proof fn lemma_channel_event_translation_lossless(
    e1: Option<channel::Event>,
    e2: Option<channel::Event>,
)
    ensures
        lift_channel_event(e1) == lift_channel_event(e2) ==> e1 == e2,
{
}

/// Law: the server-console translation loses nothing — it is injective.
pub proof fn lemma_server_event_translation_lossless(
    e1: Option<server::Event>,
    e2: Option<server::Event>,
)
    ensures
        lift_server_event(e1) == lift_server_event(e2) ==> e1 == e2,
{
}

/// Law: the query translation loses nothing — it is injective.
pub proof fn lemma_query_event_translation_lossless(
    e1: Option<query::Event>,
    e2: Option<query::Event>,
)
    ensures
        lift_query_event(e1) == lift_query_event(e2) ==> e1 == e2,
{
}

/// One dispatch step, in full: how the active variant, the returned
/// batch of deferred operations, the surfaced event and the transfer
/// manager relate to the incoming message. A non-matching pair changes
/// nothing and returns nothing.
pub open spec fn update_ok(
    pre: Buffer,
    message: Message,
    config: data::Config,
    post: Buffer,
    ops: Seq<Message>,
    event: Option<Event>,
    transfers_pre: file_transfer::Manager,
    transfers_post: file_transfer::Manager,
) -> bool {
    match (pre, message) {
        (Buffer::Channel(state), Message::Channel(m)) => {
            &&& post == Buffer::Channel(state.step_state(m))
            &&& ops == channel::step_ops(m).map_values(|cm: channel::Message| Message::Channel(cm))
            &&& channel_event_unified(m, config, event)
            &&& transfers_post == transfers_pre
        },
        (Buffer::Server(state), Message::Server(m)) => {
            &&& post == Buffer::Server(state.step_state(m))
            &&& ops == server::step_ops(m).map_values(|sm: server::Message| Message::Server(sm))
            &&& server_event_unified(m, config, event)
            &&& transfers_post == transfers_pre
        },
        (Buffer::Query(state), Message::Query(m)) => {
            &&& post == Buffer::Query(state.step_state(m))
            &&& ops == query::step_ops(m).map_values(|qm: query::Message| Message::Query(qm))
            &&& query_event_unified(m, config, event)
            &&& transfers_post == transfers_pre
        },
        (Buffer::FileTransfers(_), Message::FileTransfers(m)) => {
            &&& post == pre
            &&& ops == Seq::<Message>::empty()
            &&& event is None
            &&& transfers_post == file_transfers::step_manager(transfers_pre, m)
        },
        (Buffer::Logs(state), Message::Log(m)) => {
            &&& post == Buffer::Logs(state.step_state(m))
            &&& ops == Seq::<Message>::empty()
            &&& event is None
            &&& transfers_post == transfers_pre
        },
        _ => {
            &&& post == pre
            &&& ops == Seq::<Message>::empty()
            &&& event is None
            &&& transfers_post == transfers_pre
        },
    }
}

/// Relation between an external descriptor and the buffer constructed
/// from it: the matching variant, fresh, carrying that descriptor.
pub open spec fn converted(buffer: data::Buffer, b: Buffer) -> bool {
    match buffer {
        data::Buffer::Server(_) => b matches Buffer::Server(st) && st.buffer == buffer
            && st.is_fresh(),
        data::Buffer::Channel(_, _) => b matches Buffer::Channel(st) && st.buffer == buffer
            && st.is_fresh(),
        data::Buffer::Query(_, _) => b matches Buffer::Query(st) && st.buffer == buffer
            && st.is_fresh(),
    }
}

/// Law: converting an external descriptor yields a well-formed buffer
/// of the matching variant whose descriptor is exactly the one given.
pub proof fn lemma_converted_buffer_data(buffer: data::Buffer, b: Buffer)
    requires
        converted(buffer, b),
    ensures
        b.data_spec() == Some(buffer),
        b.wf(),
        buffer is Server ==> b is Server,
        buffer is Channel ==> b is Channel,
        buffer is Query ==> b is Query,
{
}

/// Tag a channel message with its outer wrapper.
fn wrap_channel(m: channel::Message) -> (r: Message)
    ensures
        r == Message::Channel(m),
{
    Message::Channel(m)
}

/// Tag a server-console message with its outer wrapper.
fn wrap_server(m: server::Message) -> (r: Message)
    ensures
        r == Message::Server(m),
{
    Message::Server(m)
}

/// Tag a query message with its outer wrapper.
fn wrap_query(m: query::Message) -> (r: Message)
    ensures
        r == Message::Query(m),
{
    Message::Query(m)
}

/// Tag a transfers-panel message with its outer wrapper.
fn wrap_file_transfers(m: file_transfers::Message) -> (r: Message)
    ensures
        r == Message::FileTransfers(m),
{
    Message::FileTransfers(m)
}

/// Tag a log-viewer message with its outer wrapper.
fn wrap_log(m: logs::Message) -> (r: Message)
    ensures
        r == Message::Log(m),
{
    Message::Log(m)
}

/// Tag a scroll message for the channel variant.
fn wrap_channel_scroll(m: scroll_view::Message) -> (r: Message)
    ensures
        r == Message::Channel(channel::Message::ScrollView(m)),
{
    Message::Channel(channel::Message::ScrollView(m))
}

/// Tag a scroll message for the server variant.
fn wrap_server_scroll(m: scroll_view::Message) -> (r: Message)
    ensures
        r == Message::Server(server::Message::ScrollView(m)),
{
    Message::Server(server::Message::ScrollView(m))
}

/// Tag a scroll message for the query variant.
fn wrap_query_scroll(m: scroll_view::Message) -> (r: Message)
    ensures
        r == Message::Query(query::Message::ScrollView(m)),
{
    Message::Query(query::Message::ScrollView(m))
}

/// Tag a scroll message for the log viewer.
fn wrap_log_scroll(m: scroll_view::Message) -> (r: Message)
    ensures
        r == Message::Log(logs::Message::ScrollView(m)),
{
    Message::Log(logs::Message::ScrollView(m))
}

/// Tag an input message for the channel variant.
fn wrap_channel_input(m: input_view::Message) -> (r: Message)
    ensures
        r == Message::Channel(channel::Message::InputView(m)),
{
    Message::Channel(channel::Message::InputView(m))
}

/// Tag an input message for the query variant.
fn wrap_query_input(m: input_view::Message) -> (r: Message)
    ensures
        r == Message::Query(query::Message::InputView(m)),
{
    Message::Query(query::Message::InputView(m))
}

impl Buffer {
    /// The terminal state: no variant selected.
    pub fn empty() -> (b: Self)
        ensures
            b == Buffer::Empty,
    {
        Buffer::Empty
    }

    /// The conversational variants carry a descriptor of their own
    /// shape.
    pub open spec fn wf(self) -> bool {
        match self {
            Buffer::Channel(state) => state.wf(),
            Buffer::Server(state) => state.wf(),
            Buffer::Query(state) => state.wf(),
            _ => true,
        }
    }

    /// The descriptor of the active variant, absent for the variants
    /// that are not tied to a conversation.
    pub open spec fn data_spec(self) -> Option<data::Buffer> {
        match self {
            Buffer::Channel(state) => Some(state.buffer),
            Buffer::Server(state) => Some(state.buffer),
            Buffer::Query(state) => Some(state.buffer),
            _ => None,
        }
    }

    /// The conversational descriptor of the active variant: present
    /// exactly for channel, server and query buffers.
    pub fn data(&self) -> (r: Option<&data::Buffer>)
        ensures
            r matches Some(d) ==> self.data_spec() == Some(*d),
            (r is Some) <==> (self.data_spec() is Some),
            (r is Some) <==> (self is Channel || self is Server || self is Query),
    {
        match self {
            Buffer::Channel(state) => Some(&state.buffer),
            Buffer::Server(state) => Some(&state.buffer),
            Buffer::Query(state) => Some(&state.buffer),
            _ => None,
        }
    }

    /// Route one message to the active variant. A matching pair
    /// delegates to that variant's own update and surfaces exactly the
    /// deferred work and the translated event it returns; a stale pair
    /// changes nothing and returns an empty task and no event. The
    /// client map and the history store are only borrowed for the call.
    pub fn update(
        &mut self,
        message: Message,
        clients: &mut data::ClientMap,
        history: &mut history::Manager,
        file_transfers: &mut file_transfer::Manager,
        config: &data::Config,
    ) -> (r: (Task<Message>, Option<Event>))
        ensures
            update_ok(
                *old(self),
                message,
                *config,
                *final(self),
                r.0@,
                r.1,
                *old(file_transfers),
                *final(file_transfers),
            ),
            !is_matching(*old(self), message) ==> {
                &&& *final(self) == *old(self)
                &&& r.0@ == Seq::<Message>::empty()
                &&& r.1 is None
                &&& *final(file_transfers) == *old(file_transfers)
            },
            old(self).wf() ==> final(self).wf(),
            *final(clients) == *old(clients),
            *final(history) == *old(history),
    {
        match self {
            Buffer::Channel(state) => match message {
                Message::Channel(m) => {
                    let (command, event) = state.update(m, clients, history, config);
                    let event = match event {
                        Some(channel::Event::UserContext(e)) => Some(Event::UserContext(e)),
                        Some(channel::Event::OpenChannel(target)) => Some(
                            Event::OpenChannel(target),
                        ),
                        Some(channel::Event::History(t)) => Some(Event::History(t)),
                        None => None,
                    };
                    let ghost ops: Seq<channel::Message> = command@;
                    let command = command.map(wrap_channel);
                    proof {
                        assert(command@ =~= ops.map_values(
                            |cm: channel::Message| Message::Channel(cm),
                        ));
                    }
                    (command, event)
                },
                _ => (Task::none(), None),
            },
            Buffer::Server(state) => match message {
                Message::Server(m) => {
                    let (command, event) = state.update(m, clients, history, config);
                    let event = match event {
                        Some(server::Event::UserContext(e)) => Some(Event::UserContext(e)),
                        Some(server::Event::OpenChannel(target)) => Some(
                            Event::OpenChannel(target),
                        ),
                        Some(server::Event::History(t)) => Some(Event::History(t)),
                        None => None,
                    };
                    let ghost ops: Seq<server::Message> = command@;
                    let command = command.map(wrap_server);
                    proof {
                        assert(command@ =~= ops.map_values(
                            |sm: server::Message| Message::Server(sm),
                        ));
                    }
                    (command, event)
                },
                _ => (Task::none(), None),
            },
            Buffer::Query(state) => match message {
                Message::Query(m) => {
                    let (command, event) = state.update(m, clients, history, config);
                    let event = match event {
                        Some(query::Event::UserContext(e)) => Some(Event::UserContext(e)),
                        Some(query::Event::OpenChannel(target)) => Some(Event::OpenChannel(target)),
                        Some(query::Event::History(t)) => Some(Event::History(t)),
                        None => None,
                    };
                    let ghost ops: Seq<query::Message> = command@;
                    let command = command.map(wrap_query);
                    proof {
                        assert(command@ =~= ops.map_values(
                            |qm: query::Message| Message::Query(qm),
                        ));
                    }
                    (command, event)
                },
                _ => (Task::none(), None),
            },
            Buffer::FileTransfers(state) => match message {
                Message::FileTransfers(m) => {
                    let command = state.update(m, file_transfers, config);
                    let command = command.map(wrap_file_transfers);
                    proof {
                        assert(command@ =~= Seq::<Message>::empty());
                    }
                    (command, None)
                },
                _ => (Task::none(), None),
            },
            Buffer::Logs(state) => match message {
                Message::Log(m) => {
                    let command = state.update(m);
                    let command = command.map(wrap_log);
                    proof {
                        assert(command@ =~= Seq::<Message>::empty());
                    }
                    (command, None)
                },
                _ => (Task::none(), None),
            },
            Buffer::Empty => (Task::none(), None),
        }
    }

    /// The screen drawn for a state and the read-only inputs each
    /// variant reads: the sidebar for the empty screen, the channel
    /// settings for channels, the transfer manager for the panel.
    pub open spec fn view_spec(
        self,
        file_transfers: file_transfer::Manager,
        settings: data::Settings,
        is_focused: bool,
        sidebar: data::Sidebar,
    ) -> Screen {
        match self {
            Buffer::Empty => Screen::Empty { open_buffers: sidebar.open_buffers },
            Buffer::Channel(state) => Screen::Channel {
                focused: is_focused,
                nicklist: settings.channel.nicklist,
                position: state.scroll_view.position,
            },
            Buffer::Server(state) => Screen::Server {
                focused: is_focused,
                position: state.scroll_view.position,
            },
            Buffer::Query(state) => Screen::Query {
                focused: is_focused,
                position: state.scroll_view.position,
            },
            Buffer::FileTransfers(_) => Screen::FileTransfers { active: file_transfers.active },
            Buffer::Logs(state) => Screen::Logs { position: state.scroll_view.position },
        }
    }

    /// The screen a render pass draws for the current state: a pure
    /// function of the state and the read-only inputs, dispatched per
    /// variant with only the inputs that variant reads.
    #[allow(unused_variables)]
    pub fn view(
        &self,
        clients: &data::ClientMap,
        file_transfers: &file_transfer::Manager,
        history: &history::Manager,
        settings: &data::Settings,
        config: &data::Config,
        theme: &data::Theme,
        is_focused: bool,
        sidebar: &data::Sidebar,
    ) -> (v: Screen)
        ensures
            v == self.view_spec(*file_transfers, *settings, is_focused, *sidebar),
    {
        match self {
            Buffer::Empty => Screen::Empty { open_buffers: sidebar.open_buffers },
            Buffer::Channel(state) => Screen::Channel {
                focused: is_focused,
                nicklist: settings.channel.nicklist,
                position: state.scroll_view.position,
            },
            Buffer::Server(state) => Screen::Server {
                focused: is_focused,
                position: state.scroll_view.position,
            },
            Buffer::Query(state) => Screen::Query {
                focused: is_focused,
                position: state.scroll_view.position,
            },
            Buffer::FileTransfers(_) => Screen::FileTransfers { active: file_transfers.active },
            Buffer::Logs(state) => Screen::Logs { position: state.scroll_view.position },
        }
    }

    /// Whether this buffer is the console of exactly the given server.
    pub open spec fn is_server_named(self, server: data::Server) -> bool {
        match self {
            Buffer::Server(state) => match state.buffer {
                data::Buffer::Server(s) => s.name@ == server.name@,
                _ => false,
            },
            _ => false,
        }
    }

    /// Whether this buffer shows exactly the given channel of the
    /// given server.
    pub open spec fn is_channel_named(self, server: data::Server, channel: Seq<char>) -> bool {
        match self {
            Buffer::Channel(state) => match state.buffer {
                data::Buffer::Channel(s, c) => s.name@ == server.name@ && c@ == channel,
                _ => false,
            },
            _ => false,
        }
    }

    /// Placeholder lookup: this buffer's server-console state, when it
    /// is the console of exactly the given server.
    pub fn get_server(&self, server: &data::Server) -> (r: Option<&server::Server>)
        ensures
            match r {
                Some(state) => {
                    &&& *self matches Buffer::Server(st) && st == *state
                    &&& self.is_server_named(*server)
                },
                None => !self.is_server_named(*server),
            },
    {
        match self {
            Buffer::Server(state) => {
                let named: bool = match &state.buffer {
                    data::Buffer::Server(s) => s.name == server.name,
                    _ => false,
                };
                if named {
                    Some(state)
                } else {
                    None
                }
            },
            _ => None,
        }
    }

    /// Placeholder lookup: this buffer's channel state, when it shows
    /// exactly the given channel of the given server.
    pub fn get_channel(&self, server: &data::Server, channel: &String) -> (r: Option<
        &channel::Channel,
    >)
        ensures
            match r {
                Some(state) => {
                    &&& *self matches Buffer::Channel(st) && st == *state
                    &&& self.is_channel_named(*server, channel@)
                },
                None => !self.is_channel_named(*server, channel@),
            },
    {
        match self {
            Buffer::Channel(state) => {
                let named: bool = match &state.buffer {
                    data::Buffer::Channel(s, c) => s.name == server.name && *c == *channel,
                    _ => false,
                };
                if named {
                    Some(state)
                } else {
                    None
                }
            },
            _ => None,
        }
    }

    /// Deferred request to focus the active variant's input line; the
    /// variants without one return the empty task.
    pub fn focus(&self) -> (t: Task<Message>)
        ensures
            match self {
                Buffer::Empty | Buffer::FileTransfers(_) | Buffer::Logs(_) => t@
                    == Seq::<Message>::empty(),
                Buffer::Channel(_) => t@ == seq![
                    Message::Channel(channel::Message::InputView(input_view::Message::Focus)),
                ],
                Buffer::Server(_) => t@ == seq![
                    Message::Server(server::Message::InputView(input_view::Message::Focus)),
                ],
                Buffer::Query(_) => t@ == seq![
                    Message::Query(query::Message::InputView(input_view::Message::Focus)),
                ],
            },
    {
        match self {
            Buffer::Empty | Buffer::FileTransfers(_) | Buffer::Logs(_) => Task::none(),
            Buffer::Channel(state) => {
                let t = state.focus().map(wrap_channel);
                proof {
                    assert(t@ =~= seq![
                        Message::Channel(channel::Message::InputView(input_view::Message::Focus)),
                    ]);
                }
                t
            },
            Buffer::Server(state) => {
                let t = state.focus().map(wrap_server);
                proof {
                    assert(t@ =~= seq![
                        Message::Server(server::Message::InputView(input_view::Message::Focus)),
                    ]);
                }
                t
            },
            Buffer::Query(state) => {
                let t = state.focus().map(wrap_query);
                proof {
                    assert(t@ =~= seq![
                        Message::Query(query::Message::InputView(input_view::Message::Focus)),
                    ]);
                }
                t
            },
        }
    }

    /// Clear the active variant's transient input state; variants
    /// without one are left untouched.
    pub fn reset(&mut self)
        ensures
            match *old(self) {
                Buffer::Empty | Buffer::FileTransfers(_) | Buffer::Logs(_) => *final(self) == *old(
                    self,
                ),
                Buffer::Channel(state) => (*final(self) matches Buffer::Channel(post)
                    && post.buffer == state.buffer && post.unread == state.unread
                    && post.scroll_view == state.scroll_view && post.input_view.mentions@
                    == Seq::<data::Nick>::empty()),
                Buffer::Server(state) => (*final(self) matches Buffer::Server(post)
                    && post.buffer == state.buffer && post.scroll_view == state.scroll_view
                    && post.input_view.mentions@ == Seq::<data::Nick>::empty()),
                Buffer::Query(state) => (*final(self) matches Buffer::Query(post)
                    && post.buffer == state.buffer && post.scroll_view == state.scroll_view
                    && post.input_view.mentions@ == Seq::<data::Nick>::empty()),
            },
    {
        match self {
            Buffer::Empty | Buffer::FileTransfers(_) | Buffer::Logs(_) => {},
            Buffer::Channel(state) => state.reset(),
            Buffer::Server(state) => state.reset(),
            Buffer::Query(state) => state.reset(),
        }
    }

    /// Append a user to the input line of the active conversation. Only
    /// channels and queries have an input line tied to a conversation;
    /// every other variant absorbs the request and returns the empty
    /// task. The history store is only borrowed for the call.
    pub fn insert_user_to_input(&mut self, nick: data::Nick, history: &mut history::Manager) -> (t:
        Task<Message>)
        ensures
            *final(history) == *old(history),
            match *old(self) {
                Buffer::Channel(state) => {
                    &&& t@ == seq![
                        Message::Channel(channel::Message::InputView(input_view::Message::Focus)),
                    ]
                    &&& (*final(self) matches Buffer::Channel(post) && post.buffer == state.buffer
                        && post.unread == state.unread && post.scroll_view == state.scroll_view
                        && input_view::inserted(state.input_view, nick, post.input_view))
                },
                Buffer::Query(state) => {
                    &&& t@ == seq![
                        Message::Query(query::Message::InputView(input_view::Message::Focus)),
                    ]
                    &&& (*final(self) matches Buffer::Query(post) && post.buffer == state.buffer
                        && post.scroll_view == state.scroll_view && input_view::inserted(
                            state.input_view,
                            nick,
                            post.input_view,
                        ))
                },
                _ => *final(self) == *old(self) && t@ == Seq::<Message>::empty(),
            },
    {
        match self {
            Buffer::Empty | Buffer::Server(_) | Buffer::FileTransfers(_) | Buffer::Logs(_) => {
                Task::none()
            },
            Buffer::Channel(state) => {
                let t = state.input_view.insert_user(nick, &state.buffer, history);
                let t = t.map(wrap_channel_input);
                proof {
                    assert(t@ =~= seq![
                        Message::Channel(channel::Message::InputView(input_view::Message::Focus)),
                    ]);
                }
                t
            },
            Buffer::Query(state) => {
                let t = state.input_view.insert_user(nick, &state.buffer, history);
                let t = t.map(wrap_query_input);
                proof {
                    assert(t@ =~= seq![
                        Message::Query(query::Message::InputView(input_view::Message::Focus)),
                    ]);
                }
                t
            },
        }
    }

    /// Deferred request to scroll the active pane to its oldest
    /// messages. The state — in particular every pane's own scroll
    /// position — is untouched until the operation comes back as a
    /// message; panes without scrollable content return the empty task.
    pub fn scroll_to_start(&mut self) -> (t: Task<Message>)
        ensures
            *final(self) == *old(self),
            match *old(self) {
                Buffer::Empty | Buffer::FileTransfers(_) => t@ == Seq::<Message>::empty(),
                Buffer::Channel(_) => t@ == seq![
                    Message::Channel(
                        channel::Message::ScrollView(
                            scroll_view::Message::Scrolled(Position::Start),
                        ),
                    ),
                ],
                Buffer::Server(_) => t@ == seq![
                    Message::Server(
                        server::Message::ScrollView(
                            scroll_view::Message::Scrolled(Position::Start),
                        ),
                    ),
                ],
                Buffer::Query(_) => t@ == seq![
                    Message::Query(
                        query::Message::ScrollView(
                            scroll_view::Message::Scrolled(Position::Start),
                        ),
                    ),
                ],
                Buffer::Logs(_) => t@ == seq![
                    Message::Log(
                        logs::Message::ScrollView(scroll_view::Message::Scrolled(Position::Start)),
                    ),
                ],
            },
    {
        match self {
            Buffer::Empty | Buffer::FileTransfers(_) => Task::none(),
            Buffer::Channel(state) => {
                let t = state.scroll_view.scroll_to_start().map(wrap_channel_scroll);
                proof {
                    assert(t@ =~= seq![
                        Message::Channel(
                            channel::Message::ScrollView(
                                scroll_view::Message::Scrolled(Position::Start),
                            ),
                        ),
                    ]);
                }
                t
            },
            Buffer::Server(state) => {
                let t = state.scroll_view.scroll_to_start().map(wrap_server_scroll);
                proof {
                    assert(t@ =~= seq![
                        Message::Server(
                            server::Message::ScrollView(
                                scroll_view::Message::Scrolled(Position::Start),
                            ),
                        ),
                    ]);
                }
                t
            },
            Buffer::Query(state) => {
                let t = state.scroll_view.scroll_to_start().map(wrap_query_scroll);
                proof {
                    assert(t@ =~= seq![
                        Message::Query(
                            query::Message::ScrollView(
                                scroll_view::Message::Scrolled(Position::Start),
                            ),
                        ),
                    ]);
                }
                t
            },
            Buffer::Logs(state) => {
                let t = state.scroll_view.scroll_to_start().map(wrap_log_scroll);
                proof {
                    assert(t@ =~= seq![
                        Message::Log(
                            logs::Message::ScrollView(
                                scroll_view::Message::Scrolled(Position::Start),
                            ),
                        ),
                    ]);
                }
                t
            },
        }
    }

    /// Deferred request to scroll the active pane to its newest
    /// messages; the counterpart of `scroll_to_start`.
    pub fn scroll_to_end(&mut self) -> (t: Task<Message>)
        ensures
            *final(self) == *old(self),
            match *old(self) {
                Buffer::Empty | Buffer::FileTransfers(_) => t@ == Seq::<Message>::empty(),
                Buffer::Channel(_) => t@ == seq![
                    Message::Channel(
                        channel::Message::ScrollView(scroll_view::Message::Scrolled(Position::End)),
                    ),
                ],
                Buffer::Server(_) => t@ == seq![
                    Message::Server(
                        server::Message::ScrollView(scroll_view::Message::Scrolled(Position::End)),
                    ),
                ],
                Buffer::Query(_) => t@ == seq![
                    Message::Query(
                        query::Message::ScrollView(scroll_view::Message::Scrolled(Position::End)),
                    ),
                ],
                Buffer::Logs(_) => t@ == seq![
                    Message::Log(
                        logs::Message::ScrollView(scroll_view::Message::Scrolled(Position::End)),
                    ),
                ],
            },
    {
        match self {
            Buffer::Empty | Buffer::FileTransfers(_) => Task::none(),
            Buffer::Channel(state) => {
                let t = state.scroll_view.scroll_to_end().map(wrap_channel_scroll);
                proof {
                    assert(t@ =~= seq![
                        Message::Channel(
                            channel::Message::ScrollView(
                                scroll_view::Message::Scrolled(Position::End),
                            ),
                        ),
                    ]);
                }
                t
            },
            Buffer::Server(state) => {
                let t = state.scroll_view.scroll_to_end().map(wrap_server_scroll);
                proof {
                    assert(t@ =~= seq![
                        Message::Server(
                            server::Message::ScrollView(
                                scroll_view::Message::Scrolled(Position::End),
                            ),
                        ),
                    ]);
                }
                t
            },
            Buffer::Query(state) => {
                let t = state.scroll_view.scroll_to_end().map(wrap_query_scroll);
                proof {
                    assert(t@ =~= seq![
                        Message::Query(
                            query::Message::ScrollView(
                                scroll_view::Message::Scrolled(Position::End),
                            ),
                        ),
                    ]);
                }
                t
            },
            Buffer::Logs(state) => {
                let t = state.scroll_view.scroll_to_end().map(wrap_log_scroll);
                proof {
                    assert(t@ =~= seq![
                        Message::Log(
                            logs::Message::ScrollView(
                                scroll_view::Message::Scrolled(Position::End),
                            ),
                        ),
                    ]);
                }
                t
            },
        }
    }

    /// Construct the variant an external descriptor names: a fresh
    /// server console, channel pane or direct conversation. This is
    /// the sole construction path for the conversational variants.
    pub fn from(buffer: data::Buffer) -> (b: Buffer)
        ensures
            converted(buffer, b),
            b.wf(),
    {
        match buffer {
            data::Buffer::Server(server) => Buffer::Server(server::Server::new(server)),
            data::Buffer::Channel(server, channel) => Buffer::Channel(
                channel::Channel::new(server, channel),
            ),
            data::Buffer::Query(server, user) => Buffer::Query(query::Query::new(server, user)),
        }
    }
}

} // verus!
