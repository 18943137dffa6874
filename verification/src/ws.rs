//! The per-connection decision logic of the live push channel.
//!
//! A live connection runs four duties — converting application
//! messages to wire instructions, transmitting them, reading client
//! frames, and the heartbeat — which the surrounding runtime schedules
//! and connects through bounded, capacity-one channels. The decisions
//! those duties take are plain functions of their inputs and are
//! verified here; the transport reads and writes, and the clock, stay
//! with the runtime.

use vstd::prelude::*;

verus! {

/// How often a liveness ping is sent, in seconds.
pub const HEARTBEAT_INTERVAL_SECS: u64 = 10;

/// After how long without a liveness signal the connection is closed,
/// in seconds.
pub const CLIENT_TIMEOUT_SECS: u64 = 60;

/// Messages that originate from the server.
#[derive(Debug, Clone, PartialEq, Eq, Structural)]
pub enum WsServerMsg {
    /// Instructs the connection to close; never serialized to the
    /// client as a data frame.
    Close,
}

/// A wire-level instruction handed to the transmitting duty.
#[derive(Debug, Clone, PartialEq, Eq)]
pub enum SendInstruction {
    /// Write a data frame holding the serialized payload.
    Message(Vec<u8>),
    /// Answer a liveness ping with this payload.
    Pong(Vec<u8>),
    /// Send a liveness ping with this payload.
    Ping(Vec<u8>),
    /// Perform the protocol close handshake and stop.
    Close,
}

/// A frame read from the client, as the reading duty sees it.
#[derive(Debug, Clone, PartialEq, Eq)]
pub enum ClientFrame {
    /// A text frame with an application payload.
    Text(Vec<u8>),
    /// A binary frame.
    Binary(Vec<u8>),
    /// A transport-level liveness ping.
    Ping(Vec<u8>),
    /// The answer to one of our pings.
    Pong(Vec<u8>),
    /// The client closed the connection.
    Close,
}

/// What the reading duty does with a frame.
#[derive(Debug, Clone, PartialEq, Eq)]
pub enum RecvAction {
    /// Hand this instruction to the transmitting duty.
    Reply(SendInstruction),
    /// Keep reading; the frame needs no answer. Malformed application
    /// payloads land here: they are ignored, not fatal.
    Ignore,
    /// Stop reading: the client is done.
    Stop,
}

/// Convert a server message into the wire instruction the transmitting
/// duty performs.
///
/// The close message becomes the protocol-level close instruction,
/// never a data frame; other messages would be serialized into data
/// frames by the caller.
pub fn convert_to_send(msg: &WsServerMsg) -> (r: SendInstruction)
    ensures
        msg is Close ==> r == SendInstruction::Close,
{
    match msg {
        WsServerMsg::Close => SendInstruction::Close,
    }
}

/// The heartbeat duty's decision at one tick: close the connection
/// when the last liveness signal lies further back than the timeout,
/// otherwise send a ping.
pub fn heartbeat_action(elapsed_since_last_signal: u64) -> (r: SendInstruction)
    ensures
        elapsed_since_last_signal > CLIENT_TIMEOUT_SECS ==> r == SendInstruction::Close,
        elapsed_since_last_signal <= CLIENT_TIMEOUT_SECS ==> (r matches SendInstruction::Ping(p)
            && p@ == Seq::<u8>::empty()),
        elapsed_since_last_signal > 60 <==> r == SendInstruction::Close,
{
    if elapsed_since_last_signal > CLIENT_TIMEOUT_SECS {
        SendInstruction::Close
    } else {
        SendInstruction::Ping(Vec::new())
    }
}

/// The reading duty's decision for one client frame: pings are
/// answered with a pong carrying the same payload, a close frame stops
/// the duty, and everything else — including application payloads,
/// which none are defined of yet — is read and ignored.
pub fn recv_action(frame: ClientFrame) -> (r: RecvAction)
    ensures
        r == match frame {
            ClientFrame::Ping(data) => RecvAction::Reply(SendInstruction::Pong(data)),
            ClientFrame::Close => RecvAction::Stop,
            _ => RecvAction::Ignore,
        },
{
    match frame {
        ClientFrame::Ping(data) => RecvAction::Reply(SendInstruction::Pong(data)),
        ClientFrame::Close => RecvAction::Stop,
        ClientFrame::Text(_) => RecvAction::Ignore,
        ClientFrame::Binary(_) => RecvAction::Ignore,
        ClientFrame::Pong(_) => RecvAction::Ignore,
    }
}

} // verus!
