//! User-context interactions: what happens when a member of a channel
//! or a nick in a message is picked. The interaction arrives as a
//! `Message` and leaves the variant as a structurally identical
//! `Event`; the translation is total and one-to-one.

use vstd::prelude::*;

use crate::data;

verus! {

/// An interaction picked from a member list or a message.
#[derive(Clone, Debug, PartialEq, Eq)]
pub enum Message {
    /// Ask the server who a user is.
    Whois(data::Nick),
    /// Open a direct conversation with a user.
    OpenQuery(data::Nick),
}

/// The outward notification for each interaction; mirrors `Message`
/// one-to-one.
#[derive(Clone, Debug, PartialEq, Eq)]
pub enum Event {
    Whois(data::Nick),
    OpenQuery(data::Nick),
}

/// The notification each interaction translates to.
pub open spec fn event_spec(message: Message) -> Event {
    match message {
        Message::Whois(nick) => Event::Whois(nick),
        Message::OpenQuery(nick) => Event::OpenQuery(nick),
    }
}

/// Translate an interaction into its outward notification.
pub fn event_of(message: Message) -> (e: Event)
    ensures
        e == event_spec(message),
{
    match message {
        Message::Whois(nick) => Event::Whois(nick),
        Message::OpenQuery(nick) => Event::OpenQuery(nick),
    }
}

/// Law: the translation loses nothing — two interactions with the same
/// notification are the same interaction.
pub proof fn lemma_event_translation_lossless(m1: Message, m2: Message)
    ensures
        event_spec(m1) == event_spec(m2) ==> m1 == m2,
{
}

} // verus!
