//! Model of the external file-transfer manager: read for rendering,
//! mutated only by the file-transfers variant's own updates.

use vstd::prelude::*;

verus! {

/// Tracks the transfers currently running.
#[derive(Clone, Copy, Debug, PartialEq, Eq, Structural)]
pub struct Manager {
    /// How many transfers are active.
    pub active: u64,
}

impl Manager {
    /// Drop every finished or cancelled entry.
    pub fn clear(&mut self)
        ensures
            final(self).active == 0,
    {
        self.active = 0;
    }
}

} // verus!
