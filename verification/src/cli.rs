//! The command line of the program.

use crate::message::IpcMessage;
use vstd::prelude::*;

verus! {

/// The arguments of the program.
#[derive(Clone, Debug, PartialEq, Eq, Structural)]
pub struct Arguments {
    /// Ask the running bar to open the inspector, instead of starting a bar.
    pub inspector: bool,
}

impl Arguments {
    /// The request that the program sends to the running bar; `None` when the
    /// program is to become the bar itself.
    pub fn request(&self) -> (message: Option<IpcMessage>)
        ensures
            message == if self.inspector {
                Some(IpcMessage::StartInspector)
            } else {
                None
            },
    {
        if self.inspector {
            Some(IpcMessage::StartInspector)
        } else {
            None
        }
    }
}

} // verus!
