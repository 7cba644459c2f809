//! What can go wrong between two peers.

use crate::text::{decimal, decimal_text};
use vstd::prelude::*;
use vstd::string::*;

verus! {

/// The failures that the client and the server report.
#[derive(Debug)]
pub enum LocalSendError {
    /// The peer could not be reached, or failed on its side.
    Network { message: String },
    /// The peer refused.
    Rejected { status: u16 },
    /// The peer answered with a status that has no meaning of its own.
    HttpFailed { status: u16, message: String },
    /// The peer asks for a PIN, or for another one.
    InvalidPin,
    /// The peer is busy with another session.
    SessionBlocked,
    /// The peer no longer accepts PIN attempts.
    RateLimited,
    /// The call does not fit the state of the server.
    InvalidState { message: String },
    /// Anything else, with its reason.
    Other { message: String },
}

impl LocalSendError {
    /// A failure to reach the peer.
    pub fn network(message: &str) -> (res: Self)
        ensures
            res matches LocalSendError::Network { message: m } && m@ == message@,
    {
        LocalSendError::Network { message: message.to_owned() }
    }

    /// An answer with an unexpected status.
    pub fn http_failed(status: u16, message: &str) -> (res: Self)
        ensures
            res matches LocalSendError::HttpFailed { status: s, message: m } && s == status && m@
                == message@,
    {
        LocalSendError::HttpFailed { status, message: message.to_owned() }
    }

    /// A call at the wrong time.
    pub fn invalid_state(message: &str) -> (res: Self)
        ensures
            res matches LocalSendError::InvalidState { message: m } && m@ == message@,
    {
        LocalSendError::InvalidState { message: message.to_owned() }
    }

    /// A failure that only has a reason.
    pub fn other(message: &str) -> (res: Self)
        ensures
            res matches LocalSendError::Other { message: m } && m@ == message@,
    {
        LocalSendError::Other { message: message.to_owned() }
    }

    /// The failure as one line of text.
    pub open spec fn reason(self) -> Seq<char> {
        match self {
            LocalSendError::Network { message } => "Network error: "@ + message@,
            LocalSendError::Rejected { status } => "Rejected by receiver (status "@ + decimal(
                status as nat,
            ) + ")"@,
            LocalSendError::HttpFailed { status, message } => message@ + " (status "@ + decimal(
                status as nat,
            ) + ")"@,
            LocalSendError::InvalidPin => "Invalid PIN"@,
            LocalSendError::SessionBlocked => "Receiver is busy with another session"@,
            LocalSendError::RateLimited => "Too many PIN attempts"@,
            LocalSendError::InvalidState { message } => "Invalid state: "@ + message@,
            LocalSendError::Other { message } => message@,
        }
    }

    /// The failure as one line of text.
    pub fn message(&self) -> (res: String)
        ensures
            res@ == self.reason(),
    {
        match self {
            LocalSendError::Network { message } => {
                "Network error: ".to_owned().concat(message.as_str())
            },
            LocalSendError::Rejected { status } => {
                "Rejected by receiver (status ".to_owned().concat(
                    decimal_text(*status as u64).as_str(),
                ).concat(")")
            },
            LocalSendError::HttpFailed { status, message } => {
                message.clone().concat(" (status ").concat(
                    decimal_text(*status as u64).as_str(),
                ).concat(")")
            },
            LocalSendError::InvalidPin => "Invalid PIN".to_owned(),
            LocalSendError::SessionBlocked => "Receiver is busy with another session".to_owned(),
            LocalSendError::RateLimited => "Too many PIN attempts".to_owned(),
            LocalSendError::InvalidState { message } => {
                "Invalid state: ".to_owned().concat(message.as_str())
            },
            LocalSendError::Other { message } => message.clone(),
        }
    }
}

} // verus!
