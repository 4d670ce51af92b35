//! The vocabulary of the control protocol: the requests that a client may
//! send to the running bar and the replies that the bar gives.
//!
//! Every request has one wire string and is recognised by exactly that string.
//! Replies are written for a human reader and are never parsed back.

use crate::relay::{RelayReceiver, RelaySender};
use crate::text::equal;
use vstd::prelude::*;

verus! {

/// A request to the running bar.
#[derive(Debug, Clone, Copy, PartialEq, Eq, Structural)]
pub enum IpcMessage {
    /// Open the toolkit's interactive inspector.
    StartInspector,
    /// Load the style sheet again.
    ReloadCSS,
}

/// The reply to a request.
#[derive(Debug, Clone, PartialEq, Eq, Structural)]
pub enum IpcResponse {
    /// The request was carried out.
    Okay,
    /// The inspector was asked for in a build that has none.
    InspectorNotAvailable,
}

/// A string that is no request.
#[derive(Debug, Clone, Copy, PartialEq, Eq, Structural)]
pub enum ParseError {
    /// The string is the wire string of no request.
    VariantNotFound,
}

/// The sending side of the relay that carries requests to the bar.
pub type IpcSender = RelaySender<IpcMessage, IpcResponse>;

/// The receiving side of the relay that carries requests to the bar.
pub type IpcReceiver = RelayReceiver<IpcMessage, IpcResponse>;

impl IpcMessage {
    /// The wire string of the request.
    pub open spec fn wire(self) -> Seq<char> {
        match self {
            IpcMessage::StartInspector => "inspector"@,
            IpcMessage::ReloadCSS => "reload-css"@,
        }
    }

    /// The request that `text` is the wire string of, if any. The match is
    /// exact: case matters and nothing is trimmed.
    pub open spec fn of_wire(text: Seq<char>) -> Option<IpcMessage> {
        if text == "inspector"@ {
            Some(IpcMessage::StartInspector)
        } else if text == "reload-css"@ {
            Some(IpcMessage::ReloadCSS)
        } else {
            None
        }
    }

    /// The wire string of the request. It parses back to the request.
    pub fn as_str(&self) -> (text: &'static str)
        ensures
            text@ == self.wire(),
            IpcMessage::of_wire(text@) == Some(*self),
    {
        proof {
            lemma_round_trip(*self, self.wire());
        }
        match self {
            IpcMessage::StartInspector => "inspector",
            IpcMessage::ReloadCSS => "reload-css",
        }
    }

    /// Formats the request as its wire string. It parses back to the request.
    pub fn to_string(&self) -> (text: String)
        ensures
            text@ == self.wire(),
            IpcMessage::of_wire(text@) == Some(*self),
    {
        self.as_str().to_owned()
    }

    /// Parses a wire string. Any other string is an error, never a default.
    pub fn from_str(text: &str) -> (r: Result<IpcMessage, ParseError>)
        ensures
            match IpcMessage::of_wire(text@) {
                Some(message) => r == Ok::<IpcMessage, ParseError>(message),
                None => r == Err::<IpcMessage, ParseError>(ParseError::VariantNotFound),
            },
    {
        if equal(text, "inspector") {
            Ok(IpcMessage::StartInspector)
        } else if equal(text, "reload-css") {
            Ok(IpcMessage::ReloadCSS)
        } else {
            Err(ParseError::VariantNotFound)
        }
    }
}

impl IpcResponse {
    /// The text of the reply.
    pub open spec fn wire(self) -> Seq<char> {
        match self {
            IpcResponse::Okay => "ok"@,
            IpcResponse::InspectorNotAvailable => "Inspector is only available in debug mode"@,
        }
    }

    /// The text of the reply.
    pub fn as_str(&self) -> (text: &'static str)
        ensures
            text@ == self.wire(),
    {
        match self {
            IpcResponse::Okay => "ok",
            IpcResponse::InspectorNotAvailable => "Inspector is only available in debug mode",
        }
    }

    /// Formats the reply as its text.
    pub fn to_string(&self) -> (text: String)
        ensures
            text@ == self.wire(),
    {
        self.as_str().to_owned()
    }
}

impl ParseError {
    /// The text of the error message.
    pub fn to_string(&self) -> (text: String)
        ensures
            text@ == "Matching variant not found"@,
    {
        "Matching variant not found".to_owned()
    }
}

/// Every request is read back from its own wire string: formatting and then
/// parsing is the identity. The parser accepts nothing but the wire strings.
pub proof fn lemma_round_trip(message: IpcMessage, text: Seq<char>)
    ensures
        IpcMessage::of_wire(message.wire()) == Some(message),
        IpcMessage::of_wire(text) == Some(message) <==> text == message.wire(),
{
    reveal_strlit("inspector");
    reveal_strlit("reload-css");
    assert("inspector"@[0] != "reload-css"@[0]);
}

} // verus!
