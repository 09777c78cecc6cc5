//! What comes back for a request, and what the caller is told of it.

use crate::error::RequestError;
use vstd::prelude::*;

verus! {

/// The successful outcome of a command. It carries nothing.
#[derive(Debug, Clone, Copy, PartialEq, Eq, Structural)]
pub struct CommandResponse;

/// What the transport and the reader of replies report for a request that was
/// handed over.
#[derive(Debug)]
pub enum Reply {
    /// The backend accepted the command.
    Accepted,
    /// The backend declined the command, with its message.
    Declined(String),
    /// The transport failed, with its message.
    Failed(String),
}

impl Reply {
    /// The outcome that the caller of `send` gets for this reply.
    pub open spec fn outcome(self) -> Result<CommandResponse, RequestError> {
        match self {
            Reply::Accepted => Ok(CommandResponse),
            Reply::Declined(message) => Err(RequestError::Rejected(message)),
            Reply::Failed(message) => Err(RequestError::Transport(message)),
        }
    }

    /// Turns the reply into the outcome of the command. Success carries
    /// nothing; a failure keeps the message it came with, and nothing is
    /// tried again.
    pub fn into_response(self) -> (r: Result<CommandResponse, RequestError>)
        ensures
            r == self.outcome(),
    {
        match self {
            Reply::Accepted => Ok(CommandResponse),
            Reply::Declined(message) => Err(RequestError::Rejected(message)),
            Reply::Failed(message) => Err(RequestError::Transport(message)),
        }
    }
}

} // verus!
