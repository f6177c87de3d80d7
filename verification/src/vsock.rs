//! The host's side of the control channel's start: waiting for the Unix
//! socket that the hypervisor creates for the guest's vsock port, and the
//! text handshake that opens a circuit through it.
//!
//! The caller watches the socket, connects, writes, reads and sleeps; the
//! functions here decide what it does next.

use crate::text::{decimal_string, decimal_text, join3};
use crate::vm::LaunchError;
use vstd::prelude::*;

verus! {

/// The context identifier of the host.
pub const HOST_CID: u32 = 2;

/// The context identifier of the guest.
pub const GUEST_CID: u32 = 3;

/// The guest port of the control channel.
pub const CONTROL_PORT: u32 = 5001;

/// The pause between two looks for the socket file, in milliseconds.
pub const POLL_MILLIS: u64 = 10;

/// The pause before another connection attempt, in milliseconds.
pub const RETRY_MILLIS: u64 = 100;

/// The most bytes that are read of the reply to the handshake.
pub const REPLY_LIMIT: usize = 32;

/// What the caller does next to establish the channel.
#[derive(Clone, Debug, PartialEq, Eq)]
pub enum HandshakeStep {
    /// Look whether the socket file exists; answer with
    /// [`wait_for_socket`].
    Probe,
    /// Connect to the socket.
    Connect,
    /// Write the request to the connection.
    Write(String),
    /// Read at most this many bytes from the connection.
    Read(usize),
    /// The circuit to the guest is open: hand the connection on.
    Established,
}

/// A step of the handshake and the pause to make before it.
#[derive(Clone, Debug, PartialEq, Eq)]
pub struct HandshakeAction {
    pub delay_millis: u64,
    pub step: HandshakeStep,
}

/// How the last step of the handshake ended.
#[derive(Clone, Debug, PartialEq, Eq)]
pub enum HandshakeEvent {
    ConnectFailed,
    Connected,
    WriteFailed,
    Written,
    ReadFailed,
    /// The bytes that were read; none where the peer closed.
    Reply(Vec<u8>),
}

/// How the removal of a file ended.
#[derive(Clone, Copy, Debug, PartialEq, Eq, Structural)]
pub enum RemoveOutcome {
    /// The file was there and is gone.
    Removed,
    /// There was no such file.
    NotFound,
    /// The file could not be removed.
    Failed,
}

/// Whether the launch goes on after the attempt to remove a stale socket
/// file: it does unless a file is there that could not be removed.
pub fn remove_existing_vsock(outcome: RemoveOutcome) -> (r: Result<(), LaunchError>)
    ensures
        r == (if outcome == RemoveOutcome::Failed {
            Err::<(), LaunchError>(LaunchError::VsockSocket)
        } else {
            Ok(())
        }),
{
    match outcome {
        RemoveOutcome::Failed => Err(LaunchError::VsockSocket),
        _ => Ok(()),
    }
}

/// The request that opens a circuit to the guest port `port`.
pub open spec fn connect_request_text(port: u32) -> Seq<char> {
    "CONNECT "@ + decimal_text(port as nat) + "\n"@
}

/// Whether two adjacent bytes of `reply` spell `OK`.
pub open spec fn contains_ok(reply: Seq<u8>) -> bool {
    exists|i: int| 0 <= i && i + 1 < reply.len() && reply[i] == 0x4f && #[trigger] reply[i + 1]
        == 0x4b
}

/// The request that opens a circuit to the guest port `port`.
pub fn connect_request(port: u32) -> (request: String)
    ensures
        request@ == connect_request_text(port),
{
    let digits = decimal_string(port as u64);
    join3("CONNECT ", digits.as_str(), "\n")
}

/// Whether `reply` accepts the handshake: it does where it contains `OK`.
pub fn reply_accepts(reply: &[u8]) -> (accepted: bool)
    ensures
        accepted == contains_ok(reply@),
{
    if reply.len() < 2 {
        return false;
    }
    let mut i: usize = 0;
    while i < reply.len() - 1
        invariant
            reply.len() >= 2,
            i <= reply.len() - 1,
            forall|k: int| 0 <= k < i ==> !(reply@[k] == 0x4f && #[trigger] reply@[k + 1] == 0x4b),
        decreases reply.len() - i,
    {
        if reply[i] == 0x4f && reply[i + 1] == 0x4b {
            return true;
        }
        i += 1;
    }
    false
}

/// The next step while waiting for the socket file: connect at once when
/// it is there, else look again after a short pause.
pub fn wait_for_socket(present: bool) -> (action: HandshakeAction)
    ensures
        present ==> action == (HandshakeAction { delay_millis: 0, step: HandshakeStep::Connect }),
        !present ==> action == (HandshakeAction {
            delay_millis: POLL_MILLIS,
            step: HandshakeStep::Probe,
        }),
{
    if present {
        HandshakeAction { delay_millis: 0, step: HandshakeStep::Connect }
    } else {
        HandshakeAction { delay_millis: POLL_MILLIS, step: HandshakeStep::Probe }
    }
}

/// The next step of the handshake after `event`, and the pause before it.
///
/// After a connection the request is written and the reply read. A reply
/// that contains `OK` establishes the channel. A refused connection, a
/// failed read and any other reply lead to a new connection after a
/// pause; a failed write leads to one at once. Attempts are not counted:
/// the caller goes on until the channel is established or it is
/// cancelled.
pub fn connect_to_vsock(event: HandshakeEvent) -> (action: HandshakeAction)
    ensures
        match event {
            HandshakeEvent::ConnectFailed => action == (HandshakeAction {
                delay_millis: RETRY_MILLIS,
                step: HandshakeStep::Connect,
            }),
            HandshakeEvent::Connected => action.delay_millis == 0 && (action.step matches HandshakeStep::Write(
                request,
            ) && request@ == connect_request_text(CONTROL_PORT)),
            HandshakeEvent::WriteFailed => action == (HandshakeAction {
                delay_millis: 0,
                step: HandshakeStep::Connect,
            }),
            HandshakeEvent::Written => action == (HandshakeAction {
                delay_millis: 0,
                step: HandshakeStep::Read(REPLY_LIMIT),
            }),
            HandshakeEvent::ReadFailed => action == (HandshakeAction {
                delay_millis: RETRY_MILLIS,
                step: HandshakeStep::Connect,
            }),
            HandshakeEvent::Reply(reply) => action == (if contains_ok(reply@) {
                HandshakeAction { delay_millis: 0, step: HandshakeStep::Established }
            } else {
                HandshakeAction { delay_millis: RETRY_MILLIS, step: HandshakeStep::Connect }
            }),
        },
{
    match event {
        HandshakeEvent::ConnectFailed => HandshakeAction {
            delay_millis: RETRY_MILLIS,
            step: HandshakeStep::Connect,
        },
        HandshakeEvent::Connected => HandshakeAction {
            delay_millis: 0,
            step: HandshakeStep::Write(connect_request(CONTROL_PORT)),
        },
        HandshakeEvent::WriteFailed => HandshakeAction {
            delay_millis: 0,
            step: HandshakeStep::Connect,
        },
        HandshakeEvent::Written => HandshakeAction {
            delay_millis: 0,
            step: HandshakeStep::Read(REPLY_LIMIT),
        },
        HandshakeEvent::ReadFailed => HandshakeAction {
            delay_millis: RETRY_MILLIS,
            step: HandshakeStep::Connect,
        },
        HandshakeEvent::Reply(reply) => {
            if reply_accepts(reply.as_slice()) {
                HandshakeAction { delay_millis: 0, step: HandshakeStep::Established }
            } else {
                HandshakeAction { delay_millis: RETRY_MILLIS, step: HandshakeStep::Connect }
            }
        },
    }
}

} // verus!
