//! Typed events of the gateway wire protocol.
//!
//! Each frame on the event stream carries one envelope: a tagged value whose
//! tag names the variant.  Inbound envelopes with an unrecognized tag decode
//! to [`ServerToClientEvent::Unknown`] so that new server-side event kinds
//! never abort the stream.

use vstd::prelude::*;

use crate::message::Message;

verus! {

/// Error identifiers the server may report over the gateway.
#[derive(Debug, Clone, Eq, PartialEq)]
pub enum ErrorId {
    LabelMe,
    InternalError,
    InvalidSenssion,
    OnboardingNotFinished,
    AlreadyAuthenticated,
}

/// An event received from the server over the gateway.
#[derive(Debug, Clone, PartialEq)]
pub enum ServerToClientEvent {
    /// Error
    Error { error: ErrorId },
    /// Successfully authenticated
    Authenticated,
    /// Ping response
    Pong { data: u32 },
    /// New message
    Message { message: Message },
    /// An envelope whose tag this client does not recognize
    Unknown,
}

/// An event sent by the client to the server over the gateway.
#[derive(Debug, Clone, Eq, PartialEq)]
pub enum ClientToServerEvent {
    Authenticate { token: String },
    Ping { data: i32 },
    BeginTyping { channel: String },
    EndTyping { channel: String },
}

} // verus!
