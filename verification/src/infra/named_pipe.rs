//! The pipe that a local agent talks to.
use vstd::prelude::*;

use crate::text::owned;

verus! {

/// The name of the pipe.
pub const PIPE_NAME: &'static str = "\\\\.\\pipe\\FreeDPI_agent";

/// What the agent says.
#[derive(Debug, Clone)]
pub enum PipeMessage {
    Ping,
    GetStatus,
    GetStats,
    TestStrategy { domain: String, technique: String },
}

impl PipeMessage {
    /// The name under which the message is written.
    pub open spec fn tag_spec(self) -> Seq<char> {
        match self {
            PipeMessage::Ping => "ping"@,
            PipeMessage::GetStatus => "get_status"@,
            PipeMessage::GetStats => "get_stats"@,
            PipeMessage::TestStrategy { .. } => "test_strategy"@,
        }
    }

    /// The name under which the message is written.
    pub fn tag(&self) -> (r: &'static str)
        ensures
            r@ == self.tag_spec(),
    {
        match self {
            PipeMessage::Ping => "ping",
            PipeMessage::GetStatus => "get_status",
            PipeMessage::GetStats => "get_stats",
            PipeMessage::TestStrategy { .. } => "test_strategy",
        }
    }
}

/// The server end of the pipe.
#[derive(Debug)]
pub struct PipeServer {
    pipe_path: String,
}

impl PipeServer {
    /// Where the pipe is.
    pub closed spec fn location(&self) -> Seq<char> {
        self.pipe_path@
    }

    /// The server end of the pipe.
    pub fn new() -> (r: PipeServer)
        ensures
            r.location() == PIPE_NAME@,
    {
        PipeServer { pipe_path: owned(PIPE_NAME) }
    }

    /// Where the pipe is.
    pub fn pipe_path(&self) -> (r: &str)
        ensures
            r@ == self.location(),
    {
        self.pipe_path.as_str()
    }
}

impl Default for PipeServer {
    fn default() -> (r: PipeServer)
        ensures
            r.location() == PIPE_NAME@,
    {
        PipeServer::new()
    }
}

/// What is done with what came over the pipe.
#[derive(Debug, Clone, Copy, PartialEq, Eq, Structural)]
pub enum PipeStep {
    /// The pipe could not be made: wait a second.
    Wait,
    /// The message is read and answered.
    Answer,
    /// The connection is closed.
    Close,
}

/// What is done after a connection, given whether the pipe could be made, a
/// client is there, and something was read.
pub fn pipe_step(created: bool, connected: bool, read_ok: bool, bytes_read: u32) -> (r: PipeStep)
    ensures
        r == (if !created {
            PipeStep::Wait
        } else if connected && read_ok && bytes_read > 0 {
            PipeStep::Answer
        } else {
            PipeStep::Close
        }),
{
    if !created {
        PipeStep::Wait
    } else if connected && read_ok && bytes_read > 0 {
        PipeStep::Answer
    } else {
        PipeStep::Close
    }
}

} // verus!
