//! Plain-value models of the domain data the dispatch layer reads:
//! server and user identities, buffer descriptors, and the read-only
//! preferences handed into every update and render call.

use vstd::prelude::*;

verus! {

/// Identity of one server connection.
#[derive(Clone, Debug, PartialEq, Eq)]
pub struct Server {
    pub name: String,
}

/// A user's nickname.
#[derive(Clone, Debug, PartialEq, Eq)]
pub struct Nick {
    pub name: String,
}

/// Descriptor of a conversational buffer: the server it belongs to and,
/// for channels and queries, the channel name or the queried user.
#[derive(Clone, Debug, PartialEq, Eq)]
pub enum Buffer {
    Server(Server),
    Channel(Server, String),
    Query(Server, Nick),
}

/// Read-only preferences consulted during updates.
#[derive(Clone, Copy, Debug, PartialEq, Eq, Structural)]
pub struct Config {
    /// Ask for older history whenever a pane is scrolled back to its start.
    pub infinite_scroll: bool,
}

/// Per-buffer presentation settings.
#[derive(Clone, Copy, Debug, PartialEq, Eq, Structural)]
pub struct Settings {
    pub channel: ChannelSettings,
}

/// Presentation settings of channel panes.
#[derive(Clone, Copy, Debug, PartialEq, Eq, Structural)]
pub struct ChannelSettings {
    /// Show the member list beside the messages.
    pub nicklist: bool,
}

/// Connection state of the servers the client knows, keyed by identity.
/// Borrowed mutably for the duration of one update call, never retained.
#[derive(Clone, Debug, PartialEq, Eq)]
pub struct ClientMap {
    pub connected: Vec<Server>,
}

/// Colour and style tokens; read only while rendering.
#[derive(Clone, Copy, Debug, PartialEq, Eq, Structural)]
pub struct Theme {
    pub dark: bool,
}

/// Navigational context shown beside an empty buffer.
#[derive(Clone, Copy, Debug, PartialEq, Eq, Structural)]
pub struct Sidebar {
    /// How many buffers the surrounding dashboard has open.
    pub open_buffers: u64,
}

} // verus!
