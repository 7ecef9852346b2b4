//! The file-transfers variant: a utility panel over the external
//! transfer manager. It has no conversational descriptor and no
//! scrollable history, and its updates never surface events.

use vstd::prelude::*;

use crate::data;
use crate::file_transfer;
use crate::task::Task;

verus! {

/// State of the transfers panel. The panel itself is a window onto the
/// external manager and keeps no state of its own.
#[derive(Clone, Copy, Debug, PartialEq, Eq, Structural)]
pub struct FileTransfers {}

/// A message addressed to the transfers panel.
#[derive(Clone, Copy, Debug, PartialEq, Eq, Structural)]
pub enum Message {
    /// Drop every finished or cancelled entry from the manager.
    Clear,
}

/// How one update step changes the external manager.
pub open spec fn step_manager(
    pre: file_transfer::Manager,
    message: Message,
) -> file_transfer::Manager {
    match message {
        Message::Clear => file_transfer::Manager { active: 0 },
    }
}

impl FileTransfers {
    /// Open the transfers panel.
    pub fn new() -> (s: Self)
        ensures
            s == (FileTransfers {  }),
    {
        FileTransfers {  }
    }

    /// Apply one message: purely local work on the external manager,
    /// with no deferred operations and no event.
    #[allow(unused_variables)]
    pub fn update(
        &mut self,
        message: Message,
        file_transfers: &mut file_transfer::Manager,
        config: &data::Config,
    ) -> (t: Task<Message>)
        ensures
            *final(self) == *old(self),
            *final(file_transfers) == step_manager(*old(file_transfers), message),
            t@ == Seq::<Message>::empty(),
    {
        match message {
            Message::Clear => {
                file_transfers.clear();
                Task::none()
            },
        }
    }
}

} // verus!
