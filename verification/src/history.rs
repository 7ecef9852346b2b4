//! Model of the external history manager. Variants never touch the
//! store synchronously: they emit deferred history operations through
//! `Event::History`, and the caller schedules them.

use vstd::prelude::*;

verus! {

/// What a deferred history operation yields once it has run.
#[derive(Clone, Copy, Debug, PartialEq, Eq, Structural)]
pub enum Message {
    /// Fetch messages older than the ones already shown.
    LoadOlder,
}

/// The external history store; borrowed mutably for the duration of
/// one call and never retained.
#[derive(Clone, Copy, Debug, PartialEq, Eq, Structural)]
pub struct Manager {
    /// How many records the store currently holds.
    pub records: u64,
}

} // verus!
