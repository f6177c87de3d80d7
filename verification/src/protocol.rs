//! The messages that host and guest exchange over the control channel,
//! and the envelope that carries each of them on the wire.

use std::collections::HashMap;
use vstd::prelude::*;

verus! {

/// The envelope version that this library writes.
pub const PROTOCOL_VERSION: u32 = 1;

/// A message with the version of the protocol it was written in.
#[derive(Clone, Debug, PartialEq)]
pub struct Envelope {
    pub version: u32,
    pub message: Message,
}

/// What host and guest say to each other.
#[derive(Clone, Debug, PartialEq)]
pub enum Message {
    /// A greeting; the guest answers it with the same.
    Hello,
    /// Host to guest: run one command.
    RunCommand(RunCommand),
    /// Guest to host: what a command or a workspace printed.
    CommandOutput(CommandOutput),
    /// Host to guest: unpack an archive and run its entry point.
    RunWorkspace(WorkspaceRunOptions),
    /// Host to guest: leave the message loop and power off.
    Shutdown,
}

/// The standard output of a finished command, trimmed.
#[derive(Clone, Debug, PartialEq, Eq)]
pub struct CommandOutput {
    pub output: String,
}

/// A command for the guest to run.
#[derive(Clone, Debug, PartialEq)]
pub struct RunCommand {
    pub command: String,
    pub args: Vec<String>,
    pub env: HashMap<String, String>,
    pub working_dir: Option<String>,
}

/// A workspace for the guest to run: an uncompressed tar archive and the
/// path, relative to the archive's root, of the script to start.
#[derive(Clone, Debug, PartialEq, Eq)]
pub struct WorkspaceRunOptions {
    pub data: Vec<u8>,
    pub entrypoint: String,
}

/// A piece of one of a job's streams.
#[derive(Clone, Debug, PartialEq, Eq)]
pub struct StreamChunk {
    pub job_id: String,
    pub stream: StreamType,
    pub data: Vec<u8>,
    pub eof: bool,
}

/// The stream that a chunk belongs to.
#[derive(Clone, Copy, Debug, PartialEq, Eq, Structural)]
pub enum StreamType {
    Stdin,
    Stdout,
    Stderr,
}

/// The exit code of a finished job.
#[derive(Clone, Debug, PartialEq, Eq)]
pub struct ExitStatus {
    pub id: String,
    pub code: i32,
}

/// A request to cancel a job.
#[derive(Clone, Debug, PartialEq, Eq)]
pub struct Cancel {
    pub id: String,
}

impl Envelope {
    /// Wraps `message` in an envelope of the current version.
    pub fn new(message: Message) -> (e: Envelope)
        ensures
            e.version == PROTOCOL_VERSION,
            e.message == message,
    {
        Envelope { version: PROTOCOL_VERSION, message }
    }

    /// The message that the envelope carries.
    pub fn into_message(self) -> (m: Message)
        ensures
            m == self.message,
    {
        self.message
    }
}

} // verus!
