//! The control server, as the decisions it takes for one connection after
//! another.
//!
//! The server owns no socket. Its driver accepts connections, reads and writes
//! bytes and calls the relay; after each of these it reports what happened and
//! is told what to do next. One connection is carried to its end before the
//! next is accepted.
//!
//! A connection passes through the stages `Listening`, `Reading`, `Relayed`
//! and `Replying`. It is closed, and the server listens again, when the reply
//! has been written and at every failure: a frame that cannot be read or is not
//! UTF-8, a command that is not in the vocabulary (nothing is relayed then), a
//! relay that fails, a reply that cannot be written.

use crate::frame::{encode, framed};
use crate::message::{IpcMessage, IpcResponse};
use crate::relay::RelayError;
use crate::text::{from_utf8, trim, trimmed};
use vstd::prelude::*;
use vstd::utf8::{decode_utf8, valid_utf8};

verus! {

/// The path of the control socket. The driver binds it when the bar starts and
/// removes the file when the bar shuts down, so that the next start can bind
/// the same path.
pub const SOCKET: &'static str = "/tmp/gnyprland.socket";

/// Where the server stands with the current connection.
#[derive(Debug, Clone, Copy, PartialEq, Eq, Structural)]
pub enum Stage {
    /// No connection is open; the next one is awaited.
    Listening,
    /// A connection was accepted; its frame is awaited.
    Reading,
    /// A request was handed to the relay; its reply is awaited.
    Relayed,
    /// The reply is being written.
    Replying,
}

/// What the driver reports to the server.
pub enum Input {
    /// A connection was accepted.
    Accepted,
    /// One frame was read; these are the bytes of its payload.
    Frame(Vec<u8>),
    /// The connection failed or ended before a whole frame was read.
    ReadFailed,
    /// The relay returned this reply.
    Reply(IpcResponse),
    /// The relay failed.
    RelayFailed(RelayError),
    /// The reply was written in full.
    Written,
    /// The reply could not be written.
    WriteFailed,
}

/// What the server asks of the driver.
#[derive(Debug, Clone, PartialEq, Eq)]
pub enum Action {
    /// Read one frame from the connection.
    Read,
    /// Send the request through the relay and wait for the reply.
    Relay(IpcMessage),
    /// Write these bytes, one frame, to the connection.
    Write(Vec<u8>),
    /// Close the connection, if one is open, and accept the next.
    Close,
}

/// Why a connection was closed before its reply was written.
#[derive(Debug, Clone, Copy, PartialEq, Eq, Structural)]
pub enum Fault {
    /// The frame could not be read, or its payload is not UTF-8.
    Read,
    /// The payload is no command of the vocabulary.
    UnknownCommand,
    /// The relay failed.
    Relay,
    /// The reply could not be written.
    Write,
    /// The report does not belong to the stage the server is in.
    OutOfTurn,
}

/// The answer of the server to one report.
#[derive(Debug, Clone, PartialEq, Eq)]
pub struct Step {
    /// What to do next.
    pub action: Action,
    /// What went wrong, for the log; `None` when nothing did.
    pub fault: Option<Fault>,
}

/// An action, with the bytes it carries as a sequence.
pub enum Plan {
    Read,
    Relay(IpcMessage),
    Write(Seq<u8>),
    Close,
}

impl Action {
    /// The action as a plan.
    pub open spec fn plan(&self) -> Plan {
        match self {
            Action::Read => Plan::Read,
            Action::Relay(message) => Plan::Relay(*message),
            Action::Write(bytes) => Plan::Write(bytes@),
            Action::Close => Plan::Close,
        }
    }
}

/// The command that the payload of a request frame spells: the payload is
/// decoded, trimmed of surrounding white space and looked up in the vocabulary.
pub open spec fn command(payload: Seq<u8>) -> Result<IpcMessage, Fault> {
    if !valid_utf8(payload) {
        Err(Fault::Read)
    } else {
        match IpcMessage::of_wire(trimmed(decode_utf8(payload))) {
            Some(message) => Ok(message),
            None => Err(Fault::UnknownCommand),
        }
    }
}

/// The stage that follows `stage` when the driver reports `input`.
pub open spec fn next_stage(stage: Stage, input: Input) -> Stage {
    match (stage, input) {
        (Stage::Listening, Input::Accepted) => Stage::Reading,
        (Stage::Reading, Input::Frame(payload)) => if command(payload@) is Ok {
            Stage::Relayed
        } else {
            Stage::Listening
        },
        (Stage::Relayed, Input::Reply(_)) => Stage::Replying,
        _ => Stage::Listening,
    }
}

/// What the driver is asked to do when it reports `input` in `stage`.
pub open spec fn next_plan(stage: Stage, input: Input) -> Plan {
    match (stage, input) {
        (Stage::Listening, Input::Accepted) => Plan::Read,
        (Stage::Reading, Input::Frame(payload)) => match command(payload@) {
            Ok(message) => Plan::Relay(message),
            Err(_) => Plan::Close,
        },
        (Stage::Relayed, Input::Reply(reply)) => Plan::Write(framed(reply.wire())),
        _ => Plan::Close,
    }
}

/// What went wrong when the driver reports `input` in `stage`, if anything.
pub open spec fn next_fault(stage: Stage, input: Input) -> Option<Fault> {
    match (stage, input) {
        (Stage::Listening, Input::Accepted) => None,
        (Stage::Reading, Input::Frame(payload)) => match command(payload@) {
            Ok(_) => None,
            Err(fault) => Some(fault),
        },
        (Stage::Reading, Input::ReadFailed) => Some(Fault::Read),
        (Stage::Relayed, Input::Reply(_)) => None,
        (Stage::Relayed, Input::RelayFailed(_)) => Some(Fault::Relay),
        (Stage::Replying, Input::Written) => None,
        (Stage::Replying, Input::WriteFailed) => Some(Fault::Write),
        _ => Some(Fault::OutOfTurn),
    }
}

/// Reads the command out of the payload of a request frame.
pub fn parse_command(payload: Vec<u8>) -> (r: Result<IpcMessage, Fault>)
    ensures
        r == command(payload@),
{
    let text = match from_utf8(payload) {
        Some(text) => text,
        None => {
            return Err(Fault::Read);
        },
    };
    match IpcMessage::from_str(trim(text.as_str())) {
        Ok(message) => Ok(message),
        Err(_) => Err(Fault::UnknownCommand),
    }
}

/// The control server.
pub struct ControlServer {
    stage: Stage,
}

impl ControlServer {
    /// The stage the server is in.
    pub closed spec fn stage(&self) -> Stage {
        self.stage
    }

    /// A server that awaits its first connection.
    pub fn new() -> (server: Self)
        ensures
            server.stage() == Stage::Listening,
    {
        ControlServer { stage: Stage::Listening }
    }

    /// The stage the server is in.
    pub fn current(&self) -> (stage: Stage)
        ensures
            stage == self.stage(),
    {
        self.stage
    }

    /// Takes one report of the driver and decides what comes next.
    pub fn step(&mut self, input: Input) -> (step: Step)
        ensures
            final(self).stage() == next_stage(old(self).stage(), input),
            step.action.plan() == next_plan(old(self).stage(), input),
            step.fault == next_fault(old(self).stage(), input),
    {
        let stage = self.stage;
        match input {
            Input::Accepted => match stage {
                Stage::Listening => {
                    self.stage = Stage::Reading;
                    Step { action: Action::Read, fault: None }
                },
                _ => self.drop_connection(Fault::OutOfTurn),
            },
            Input::Frame(payload) => match stage {
                Stage::Reading => match parse_command(payload) {
                    Ok(message) => {
                        self.stage = Stage::Relayed;
                        Step { action: Action::Relay(message), fault: None }
                    },
                    Err(fault) => self.drop_connection(fault),
                },
                _ => self.drop_connection(Fault::OutOfTurn),
            },
            Input::ReadFailed => match stage {
                Stage::Reading => self.drop_connection(Fault::Read),
                _ => self.drop_connection(Fault::OutOfTurn),
            },
            Input::Reply(reply) => match stage {
                Stage::Relayed => {
                    self.stage = Stage::Replying;
                    Step { action: Action::Write(encode(reply.as_str())), fault: None }
                },
                _ => self.drop_connection(Fault::OutOfTurn),
            },
            Input::RelayFailed(_) => match stage {
                Stage::Relayed => self.drop_connection(Fault::Relay),
                _ => self.drop_connection(Fault::OutOfTurn),
            },
            Input::Written => match stage {
                Stage::Replying => {
                    self.stage = Stage::Listening;
                    Step { action: Action::Close, fault: None }
                },
                _ => self.drop_connection(Fault::OutOfTurn),
            },
            Input::WriteFailed => match stage {
                Stage::Replying => self.drop_connection(Fault::Write),
                _ => self.drop_connection(Fault::OutOfTurn),
            },
        }
    }

    fn drop_connection(&mut self, fault: Fault) -> (step: Step)
        ensures
            final(self).stage() == Stage::Listening,
            step.action == Action::Close,
            step.fault == Some(fault),
    {
        self.stage = Stage::Listening;
        Step { action: Action::Close, fault: Some(fault) }
    }
}

/// Every connection ends: whatever the driver reports, the server is listening
/// again after at most four reports, and it never relays a request that it did
/// not read from a frame.
pub proof fn lemma_connection_ends(stage: Stage, a: Input, b: Input, c: Input, d: Input)
    ensures
        ({
            let s1 = next_stage(stage, a);
            let s2 = next_stage(s1, b);
            let s3 = next_stage(s2, c);
            let s4 = next_stage(s3, d);
            s1 == Stage::Listening || s2 == Stage::Listening || s3 == Stage::Listening || s4
                == Stage::Listening
        }),
        next_plan(stage, a) is Relay ==> stage == Stage::Reading && a is Frame && command(
            a->Frame_0@,
        ) == Ok::<IpcMessage, Fault>(next_plan(stage, a)->Relay_0),
{
}

} // verus!
