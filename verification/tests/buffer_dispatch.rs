//! Dispatch behaviour of the buffer core on concrete values: stale
//! messages are absorbed, matching messages delegate and translate,
//! descriptors survive conversion, and lifecycle operations act only
//! on the variants that support them.

use buffer_core::channel;
use buffer_core::data;
use buffer_core::file_transfer;
use buffer_core::file_transfers;
use buffer_core::history;
use buffer_core::input_view;
use buffer_core::logs;
use buffer_core::query;
use buffer_core::scroll_view;
use buffer_core::server;
use buffer_core::user_context;
use buffer_core::{Buffer, Event, Message, Screen};

fn server_id(name: &str) -> data::Server {
    data::Server { name: name.to_string() }
}

fn nick(name: &str) -> data::Nick {
    data::Nick { name: name.to_string() }
}

fn collaborators() -> (data::ClientMap, history::Manager, file_transfer::Manager, data::Config) {
    (
        data::ClientMap { connected: Vec::new() },
        history::Manager { records: 7 },
        file_transfer::Manager { active: 4 },
        data::Config { infinite_scroll: true },
    )
}

fn channel_buffer() -> Buffer {
    Buffer::from(data::Buffer::Channel(server_id("irc.example.org"), "#general".to_string()))
}

#[test]
fn stale_server_message_leaves_channel_untouched() {
    let (mut clients, mut hist, mut transfers, config) = collaborators();
    let state = channel::Channel {
        buffer: data::Buffer::Channel(server_id("irc.example.org"), "#general".to_string()),
        unread: 3,
        input_view: input_view::InputView { mentions: vec![nick("alice")] },
        scroll_view: scroll_view::ScrollView { position: scroll_view::Position::Start },
    };
    let mut buffer = Buffer::Channel(state.clone());
    let before = buffer.clone();

    let (task, event) = buffer.update(
        Message::Server(server::Message::OpenChannel("#other".to_string())),
        &mut clients,
        &mut hist,
        &mut transfers,
        &config,
    );

    assert_eq!(buffer, before);
    assert!(task.is_empty());
    assert!(event.is_none());
    match &buffer {
        Buffer::Channel(c) => assert_eq!(c.unread, 3),
        _ => panic!("variant changed"),
    }
    assert_eq!(hist.records, 7);
    assert_eq!(transfers.active, 4);
}

#[test]
fn empty_buffer_absorbs_every_message() {
    let (mut clients, mut hist, mut transfers, config) = collaborators();
    let mut buffer = Buffer::empty();
    let (task, event) = buffer.update(
        Message::Log(logs::Message::ScrollView(scroll_view::Message::Scrolled(
            scroll_view::Position::Start,
        ))),
        &mut clients,
        &mut hist,
        &mut transfers,
        &config,
    );
    assert_eq!(buffer, Buffer::Empty);
    assert!(task.is_empty());
    assert!(event.is_none());
}

#[test]
fn matching_user_context_message_translates_event() {
    let (mut clients, mut hist, mut transfers, config) = collaborators();
    let mut buffer = channel_buffer();
    let before = buffer.clone();

    let (task, event) = buffer.update(
        Message::Channel(channel::Message::UserContext(user_context::Message::Whois(nick(
            "alice",
        )))),
        &mut clients,
        &mut hist,
        &mut transfers,
        &config,
    );

    assert_eq!(buffer, before);
    assert!(task.is_empty());
    assert_eq!(event, Some(Event::UserContext(user_context::Event::Whois(nick("alice")))));
}

#[test]
fn matching_open_channel_message_translates_event() {
    let (mut clients, mut hist, mut transfers, config) = collaborators();
    let mut buffer = channel_buffer();

    let (task, event) = buffer.update(
        Message::Channel(channel::Message::OpenChannel("#rust".to_string())),
        &mut clients,
        &mut hist,
        &mut transfers,
        &config,
    );

    assert!(task.is_empty());
    assert_eq!(event, Some(Event::OpenChannel("#rust".to_string())));
}

#[test]
fn scrolling_channel_to_start_schedules_history_load() {
    let (mut clients, mut hist, mut transfers, config) = collaborators();
    let mut buffer = channel_buffer();

    let (task, event) = buffer.update(
        Message::Channel(channel::Message::ScrollView(scroll_view::Message::Scrolled(
            scroll_view::Position::Start,
        ))),
        &mut clients,
        &mut hist,
        &mut transfers,
        &config,
    );

    assert!(task.is_empty());
    match event {
        Some(Event::History(t)) => assert_eq!(t.ops, vec![history::Message::LoadOlder]),
        other => panic!("expected a history event, got {:?}", other),
    }
    match &buffer {
        Buffer::Channel(c) => {
            assert_eq!(c.scroll_view.position, scroll_view::Position::Start)
        },
        _ => panic!("variant changed"),
    }
}

#[test]
fn scrolling_channel_to_start_without_infinite_scroll_is_local() {
    let (mut clients, mut hist, mut transfers, _) = collaborators();
    let config = data::Config { infinite_scroll: false };
    let mut buffer = channel_buffer();

    let (task, event) = buffer.update(
        Message::Channel(channel::Message::ScrollView(scroll_view::Message::Scrolled(
            scroll_view::Position::Start,
        ))),
        &mut clients,
        &mut hist,
        &mut transfers,
        &config,
    );

    assert!(task.is_empty());
    assert!(event.is_none());
}

#[test]
fn scrolling_channel_to_end_schedules_mark_read() {
    let (mut clients, mut hist, mut transfers, config) = collaborators();
    let state = channel::Channel {
        buffer: data::Buffer::Channel(server_id("irc.example.org"), "#general".to_string()),
        unread: 5,
        input_view: input_view::InputView { mentions: Vec::new() },
        scroll_view: scroll_view::ScrollView { position: scroll_view::Position::Start },
    };
    let mut buffer = Buffer::Channel(state);

    let (task, event) = buffer.update(
        Message::Channel(channel::Message::ScrollView(scroll_view::Message::Scrolled(
            scroll_view::Position::End,
        ))),
        &mut clients,
        &mut hist,
        &mut transfers,
        &config,
    );

    assert_eq!(task.ops, vec![Message::Channel(channel::Message::MarkRead)]);
    assert!(event.is_none());

    let (task, event) = buffer.update(
        Message::Channel(channel::Message::MarkRead),
        &mut clients,
        &mut hist,
        &mut transfers,
        &config,
    );
    assert!(task.is_empty());
    assert!(event.is_none());
    match &buffer {
        Buffer::Channel(c) => {
            assert_eq!(c.unread, 0);
            assert_eq!(c.scroll_view.position, scroll_view::Position::End);
        },
        _ => panic!("variant changed"),
    }
}

#[test]
fn file_transfers_clear_empties_manager_without_event() {
    let (mut clients, mut hist, mut transfers, config) = collaborators();
    let mut buffer = Buffer::FileTransfers(file_transfers::FileTransfers::new());

    let (task, event) = buffer.update(
        Message::FileTransfers(file_transfers::Message::Clear),
        &mut clients,
        &mut hist,
        &mut transfers,
        &config,
    );

    assert!(task.is_empty());
    assert!(event.is_none());
    assert_eq!(transfers.active, 0);
}

#[test]
fn log_message_scrolls_log_viewer() {
    let (mut clients, mut hist, mut transfers, config) = collaborators();
    let mut buffer = Buffer::Logs(logs::Logs::new());

    let (task, event) = buffer.update(
        Message::Log(logs::Message::ScrollView(scroll_view::Message::Scrolled(
            scroll_view::Position::Start,
        ))),
        &mut clients,
        &mut hist,
        &mut transfers,
        &config,
    );

    assert!(task.is_empty());
    assert!(event.is_none());
    match &buffer {
        Buffer::Logs(l) => assert_eq!(l.scroll_view.position, scroll_view::Position::Start),
        _ => panic!("variant changed"),
    }
}

#[test]
fn data_present_exactly_for_conversational_variants() {
    assert!(Buffer::empty().data().is_none());
    assert!(Buffer::FileTransfers(file_transfers::FileTransfers::new()).data().is_none());
    assert!(Buffer::Logs(logs::Logs::new()).data().is_none());
    assert!(Buffer::from(data::Buffer::Server(server_id("irc.example.org"))).data().is_some());
    assert!(channel_buffer().data().is_some());
    assert!(
        Buffer::from(data::Buffer::Query(server_id("irc.example.org"), nick("alice")))
            .data()
            .is_some()
    );
}

#[test]
fn converted_descriptors_carry_their_data() {
    let s = data::Buffer::Server(server_id("irc.example.org"));
    let b = Buffer::from(s.clone());
    assert!(matches!(b, Buffer::Server(_)));
    assert_eq!(b.data(), Some(&s));

    let c = data::Buffer::Channel(server_id("irc.example.org"), "#general".to_string());
    let b = Buffer::from(c.clone());
    assert!(matches!(b, Buffer::Channel(_)));
    assert_eq!(b.data(), Some(&c));

    let q = data::Buffer::Query(server_id("irc.example.org"), nick("alice"));
    let b = Buffer::from(q.clone());
    assert!(matches!(b, Buffer::Query(_)));
    assert_eq!(b.data(), Some(&q));
}

#[test]
fn query_descriptor_converts_to_query_buffer() {
    let d = data::Buffer::Query(server_id("irc.example.org"), nick("alice"));
    let b = Buffer::from(d.clone());
    assert!(matches!(b, Buffer::Query(_)));
    match b.data() {
        Some(data::Buffer::Query(s, u)) => {
            assert_eq!(s.name, "irc.example.org");
            assert_eq!(u.name, "alice");
        },
        other => panic!("expected a query descriptor, got {:?}", other),
    }
}

#[test]
fn focus_acts_only_on_conversational_variants() {
    assert!(Buffer::empty().focus().is_empty());
    assert!(Buffer::FileTransfers(file_transfers::FileTransfers::new()).focus().is_empty());
    assert!(Buffer::Logs(logs::Logs::new()).focus().is_empty());

    let t = channel_buffer().focus();
    assert_eq!(t.len(), 1);
    assert_eq!(
        t.ops,
        vec![Message::Channel(channel::Message::InputView(input_view::Message::Focus))]
    );
    let t = Buffer::from(data::Buffer::Server(server_id("irc.example.org"))).focus();
    assert_eq!(
        t.ops,
        vec![Message::Server(server::Message::InputView(input_view::Message::Focus))]
    );
    let t = Buffer::from(data::Buffer::Query(server_id("irc.example.org"), nick("bob"))).focus();
    assert_eq!(t.ops, vec![Message::Query(query::Message::InputView(input_view::Message::Focus))]);
}

#[test]
fn scroll_requests_are_no_ops_on_empty_and_file_transfers() {
    let mut buffer = Buffer::empty();
    assert!(buffer.scroll_to_start().is_empty());
    assert!(buffer.scroll_to_end().is_empty());
    assert_eq!(buffer, Buffer::Empty);

    let mut buffer = Buffer::FileTransfers(file_transfers::FileTransfers::new());
    let before = buffer.clone();
    assert!(buffer.scroll_to_start().is_empty());
    assert!(buffer.scroll_to_end().is_empty());
    assert_eq!(buffer, before);
}

#[test]
fn scroll_to_end_on_empty_returns_empty_task() {
    let mut buffer = Buffer::empty();
    let task = buffer.scroll_to_end();
    assert!(task.is_empty());
    assert_eq!(buffer, Buffer::Empty);
}

#[test]
fn scroll_requests_tag_the_active_variant() {
    let mut buffer = channel_buffer();
    let before = buffer.clone();
    let t = buffer.scroll_to_start();
    assert_eq!(
        t.ops,
        vec![Message::Channel(channel::Message::ScrollView(scroll_view::Message::Scrolled(
            scroll_view::Position::Start,
        )))]
    );
    assert_eq!(buffer, before);

    let mut buffer = Buffer::Logs(logs::Logs::new());
    let t = buffer.scroll_to_end();
    assert_eq!(
        t.ops,
        vec![Message::Log(logs::Message::ScrollView(scroll_view::Message::Scrolled(
            scroll_view::Position::End,
        )))]
    );

    let mut buffer = Buffer::from(data::Buffer::Server(server_id("irc.example.org")));
    let t = buffer.scroll_to_start();
    assert_eq!(
        t.ops,
        vec![Message::Server(server::Message::ScrollView(scroll_view::Message::Scrolled(
            scroll_view::Position::Start,
        )))]
    );

    let mut buffer = Buffer::from(data::Buffer::Query(server_id("irc.example.org"), nick("bob")));
    let t = buffer.scroll_to_end();
    assert_eq!(
        t.ops,
        vec![Message::Query(query::Message::ScrollView(scroll_view::Message::Scrolled(
            scroll_view::Position::End,
        )))]
    );
}

#[test]
fn scroll_positions_stay_independent_per_variant() {
    let (mut clients, mut hist, mut transfers, config) = collaborators();
    let mut channel_pane = channel_buffer();
    let mut log_pane = Buffer::Logs(logs::Logs::new());

    let _ = channel_pane.update(
        Message::Channel(channel::Message::ScrollView(scroll_view::Message::Scrolled(
            scroll_view::Position::Start,
        ))),
        &mut clients,
        &mut hist,
        &mut transfers,
        &config,
    );

    match &log_pane {
        Buffer::Logs(l) => assert_eq!(l.scroll_view.position, scroll_view::Position::End),
        _ => panic!("variant changed"),
    }
    let _ = log_pane.scroll_to_start();
    match &channel_pane {
        Buffer::Channel(c) => {
            assert_eq!(c.scroll_view.position, scroll_view::Position::Start)
        },
        _ => panic!("variant changed"),
    }
}

#[test]
fn insert_user_appends_to_channel_input() {
    let mut hist = history::Manager { records: 7 };
    let mut buffer = channel_buffer();
    let task = buffer.insert_user_to_input(nick("alice"), &mut hist);
    assert_eq!(
        task.ops,
        vec![Message::Channel(channel::Message::InputView(input_view::Message::Focus))]
    );
    match &buffer {
        Buffer::Channel(c) => assert_eq!(c.input_view.mentions, vec![nick("alice")]),
        _ => panic!("variant changed"),
    }
    assert_eq!(hist.records, 7);
}

#[test]
fn insert_user_appends_to_query_input() {
    let mut hist = history::Manager { records: 0 };
    let mut buffer = Buffer::from(data::Buffer::Query(server_id("irc.example.org"), nick("bob")));
    let task = buffer.insert_user_to_input(nick("alice"), &mut hist);
    assert_eq!(
        task.ops,
        vec![Message::Query(query::Message::InputView(input_view::Message::Focus))]
    );
    match &buffer {
        Buffer::Query(q) => assert_eq!(q.input_view.mentions, vec![nick("alice")]),
        _ => panic!("variant changed"),
    }
}

#[test]
fn insert_user_is_a_no_op_elsewhere() {
    let mut hist = history::Manager { records: 42 };
    let mut empty = Buffer::empty();
    assert!(empty.insert_user_to_input(nick("alice"), &mut hist).is_empty());
    assert_eq!(empty, Buffer::Empty);

    let mut console = Buffer::from(data::Buffer::Server(server_id("irc.example.org")));
    let before = console.clone();
    assert!(console.insert_user_to_input(nick("alice"), &mut hist).is_empty());
    assert_eq!(console, before);

    let mut transfers = Buffer::FileTransfers(file_transfers::FileTransfers::new());
    assert!(transfers.insert_user_to_input(nick("alice"), &mut hist).is_empty());

    let mut log_pane = Buffer::Logs(logs::Logs::new());
    assert!(log_pane.insert_user_to_input(nick("alice"), &mut hist).is_empty());
    assert_eq!(hist.records, 42);
}

#[test]
fn reset_clears_input_and_keeps_scroll() {
    let state = channel::Channel {
        buffer: data::Buffer::Channel(server_id("irc.example.org"), "#general".to_string()),
        unread: 2,
        input_view: input_view::InputView { mentions: vec![nick("alice"), nick("bob")] },
        scroll_view: scroll_view::ScrollView { position: scroll_view::Position::Start },
    };
    let mut buffer = Buffer::Channel(state);
    buffer.reset();
    match &buffer {
        Buffer::Channel(c) => {
            assert!(c.input_view.mentions.is_empty());
            assert_eq!(c.unread, 2);
            assert_eq!(c.scroll_view.position, scroll_view::Position::Start);
        },
        _ => panic!("variant changed"),
    }

    let mut empty = Buffer::empty();
    empty.reset();
    assert_eq!(empty, Buffer::Empty);
}

#[test]
fn lookups_match_descriptor_exactly() {
    let buffer = Buffer::from(data::Buffer::Server(server_id("irc.example.org")));
    assert!(buffer.get_server(&server_id("irc.example.org")).is_some());
    assert!(buffer.get_server(&server_id("other.example.org")).is_none());
    assert!(buffer.get_channel(&server_id("irc.example.org"), &"#general".to_string()).is_none());

    let buffer = channel_buffer();
    assert!(buffer.get_channel(&server_id("irc.example.org"), &"#general".to_string()).is_some());
    assert!(buffer.get_channel(&server_id("irc.example.org"), &"#other".to_string()).is_none());
    assert!(buffer.get_channel(&server_id("other.example.org"), &"#general".to_string()).is_none());
    assert!(buffer.get_server(&server_id("irc.example.org")).is_none());
}

#[test]
fn view_describes_the_active_variant() {
    let clients = data::ClientMap { connected: Vec::new() };
    let transfers = file_transfer::Manager { active: 9 };
    let hist = history::Manager { records: 0 };
    let settings = data::Settings { channel: data::ChannelSettings { nicklist: true } };
    let config = data::Config { infinite_scroll: true };
    let theme = data::Theme { dark: true };
    let sidebar = data::Sidebar { open_buffers: 3 };

    let screen = Buffer::empty().view(
        &clients, &transfers, &hist, &settings, &config, &theme, false, &sidebar,
    );
    assert_eq!(screen, Screen::Empty { open_buffers: 3 });

    let screen = channel_buffer().view(
        &clients, &transfers, &hist, &settings, &config, &theme, true, &sidebar,
    );
    assert_eq!(
        screen,
        Screen::Channel { focused: true, nicklist: true, position: scroll_view::Position::End }
    );

    let screen = Buffer::FileTransfers(file_transfers::FileTransfers::new()).view(
        &clients, &transfers, &hist, &settings, &config, &theme, false, &sidebar,
    );
    assert_eq!(screen, Screen::FileTransfers { active: 9 });
}
