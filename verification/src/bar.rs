//! What the bar does with the messages it is sent.

use crate::message::{IpcMessage, IpcResponse};
use vstd::prelude::*;

verus! {

/// A message to the bar.
#[derive(Clone, Copy, Debug, PartialEq, Eq, Structural)]
pub enum Message {
    /// A request that came in over the control socket.
    Ipc(IpcMessage),
    /// The style sheet changed on disk.
    ReloadCSS,
}

/// What the bar is to do to the user interface.
#[derive(Clone, Copy, Debug, PartialEq, Eq, Structural)]
pub enum Effect {
    /// Nothing.
    Nothing,
    /// Open the toolkit's interactive inspector.
    OpenInspector,
    /// Load the style sheet from its file.
    LoadCss,
}

/// The outcome of one message: what to do, and what to reply.
#[derive(Clone, Debug, PartialEq, Eq, Structural)]
pub struct Update {
    /// What to do to the user interface.
    pub effect: Effect,
    /// The reply to the sender of the request; `None` for a message that is no
    /// request.
    pub response: Option<IpcResponse>,
}

/// The outcome of `message`. The inspector exists only where `inspector` is
/// set, as it is in a debug build.
pub open spec fn outcome(message: Message, inspector: bool) -> Update {
    match message {
        Message::Ipc(IpcMessage::StartInspector) => if inspector {
            Update { effect: Effect::OpenInspector, response: Some(IpcResponse::Okay) }
        } else {
            Update { effect: Effect::Nothing, response: Some(IpcResponse::InspectorNotAvailable) }
        },
        Message::Ipc(IpcMessage::ReloadCSS) => Update {
            effect: Effect::LoadCss,
            response: Some(IpcResponse::Okay),
        },
        Message::ReloadCSS => Update { effect: Effect::LoadCss, response: None },
    }
}

/// Handles one message to the bar. Every request gets exactly one reply.
pub fn update(message: Message, inspector: bool) -> (update: Update)
    ensures
        update == outcome(message, inspector),
        update.response is Some <==> message is Ipc,
{
    match message {
        Message::Ipc(ipc) => match ipc {
            IpcMessage::StartInspector => if inspector {
                Update { effect: Effect::OpenInspector, response: Some(IpcResponse::Okay) }
            } else {
                Update {
                    effect: Effect::Nothing,
                    response: Some(IpcResponse::InspectorNotAvailable),
                }
            },
            IpcMessage::ReloadCSS => Update {
                effect: Effect::LoadCss,
                response: Some(IpcResponse::Okay),
            },
        },
        Message::ReloadCSS => Update { effect: Effect::LoadCss, response: None },
    }
}

} // verus!
