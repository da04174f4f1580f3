//! The errors that operations report, each with its human-readable cause.

use vstd::prelude::*;
use vstd::string::*;
use crate::text::{decimal, decimal_text, joined};

verus! {

/// Why a connection could not be established.
#[derive(Debug, Clone, PartialEq, Eq)]
pub enum ConnectError {
    /// The profile asks for password authentication and carries no password.
    MissingPassword,
    /// The profile asks for key authentication and carries no key path.
    MissingKeyPath,
    /// The profile names an authentication method that does not exist.
    UnknownAuthMethod(String),
    /// The transport connection to the host could not be opened.
    Connection { host: String, port: u16, detail: String },
    /// The transport library could not set up a session.
    SessionInit(String),
    /// The protocol handshake failed.
    Handshake(String),
    /// The host rejected the password exchange.
    PasswordAuth(String),
    /// The host rejected the key exchange.
    KeyAuth(String),
    /// Every step succeeded and the session is still not authenticated.
    NotAuthenticated,
    /// No channel could be opened.
    OpenChannel(String),
    /// The pseudo-terminal request failed.
    RequestPty(String),
    /// The remote shell could not be started.
    StartShell(String),
    /// The secondary output stream could not be merged into the primary one.
    MergeStreams(String),
    /// The channel could not be switched to non-blocking mode.
    NonBlocking(String),
}

impl ConnectError {
    /// Whether the error was found in the profile itself, before any network
    /// attempt.
    pub open spec fn validation(self) -> bool {
        self is MissingPassword || self is MissingKeyPath || self is UnknownAuthMethod
    }

    /// The cause, as text.
    pub open spec fn text(self) -> Seq<char> {
        match self {
            ConnectError::MissingPassword => "Password required but not provided"@,
            ConnectError::MissingKeyPath => "Key path required but not provided"@,
            ConnectError::UnknownAuthMethod(method) => "Unknown authentication method: "@
                + method@,
            ConnectError::Connection { host, port, detail } => "Failed to connect to "@ + host@
                + ":"@ + decimal_text(port as nat) + " - "@ + detail@,
            ConnectError::SessionInit(detail) => "Failed to create SSH session: "@ + detail@,
            ConnectError::Handshake(detail) => "SSH handshake failed: "@ + detail@,
            ConnectError::PasswordAuth(detail) => "Password authentication failed: "@ + detail@,
            ConnectError::KeyAuth(detail) => "Key authentication failed: "@ + detail@,
            ConnectError::NotAuthenticated => "Authentication failed"@,
            ConnectError::OpenChannel(detail) => "Failed to open channel: "@ + detail@,
            ConnectError::RequestPty(detail) => "Failed to request PTY: "@ + detail@,
            ConnectError::StartShell(detail) => "Failed to start shell: "@ + detail@,
            ConnectError::MergeStreams(detail) => "Failed to configure extended data: "@
                + detail@,
            ConnectError::NonBlocking(detail) => "Failed to enter non-blocking mode: "@ + detail@,
        }
    }

    /// Whether the error was found in the profile itself, before any network
    /// attempt.
    pub fn is_validation(&self) -> (b: bool)
        ensures
            b == self.validation(),
    {
        match self {
            ConnectError::MissingPassword => true,
            ConnectError::MissingKeyPath => true,
            ConnectError::UnknownAuthMethod(_) => true,
            _ => false,
        }
    }

    /// The cause, as text.
    pub fn message(&self) -> (s: String)
        ensures
            s@ == self.text(),
    {
        match self {
            ConnectError::MissingPassword => String::from_str(
                "Password required but not provided",
            ),
            ConnectError::MissingKeyPath => String::from_str("Key path required but not provided"),
            ConnectError::UnknownAuthMethod(method) => joined(
                "Unknown authentication method: ",
                method.as_str(),
            ),
            ConnectError::Connection { host, port, detail } => {
                let mut s = joined("Failed to connect to ", host.as_str());
                s.append(":");
                let digits = decimal(*port);
                s.append(digits.as_str());
                s.append(" - ");
                s.append(detail.as_str());
                s
            },
            ConnectError::SessionInit(detail) => joined(
                "Failed to create SSH session: ",
                detail.as_str(),
            ),
            ConnectError::Handshake(detail) => joined("SSH handshake failed: ", detail.as_str()),
            ConnectError::PasswordAuth(detail) => joined(
                "Password authentication failed: ",
                detail.as_str(),
            ),
            ConnectError::KeyAuth(detail) => joined("Key authentication failed: ", detail.as_str()),
            ConnectError::NotAuthenticated => String::from_str("Authentication failed"),
            ConnectError::OpenChannel(detail) => joined("Failed to open channel: ", detail.as_str()),
            ConnectError::RequestPty(detail) => joined("Failed to request PTY: ", detail.as_str()),
            ConnectError::StartShell(detail) => joined("Failed to start shell: ", detail.as_str()),
            ConnectError::MergeStreams(detail) => joined(
                "Failed to configure extended data: ",
                detail.as_str(),
            ),
            ConnectError::NonBlocking(detail) => joined(
                "Failed to enter non-blocking mode: ",
                detail.as_str(),
            ),
        }
    }
}

/// A failed read, write or flush on a channel, as the caller saw it.
#[derive(Debug, Clone, PartialEq, Eq)]
pub enum IoFailure {
    /// Nothing can be read or written right now.
    WouldBlock,
    /// The attempt ran into the transport's timeout.
    TimedOut,
    /// Any other failure, with the transport's description of it.
    Other(String),
}

impl IoFailure {
    /// Whether the failure is a normal signal to idle or to try again, not
    /// an error.
    pub open spec fn transient(self) -> bool {
        self is WouldBlock || self is TimedOut
    }

    /// The transport's description; empty for the transient conditions.
    pub open spec fn detail(self) -> Seq<char> {
        match self {
            IoFailure::Other(detail) => detail@,
            _ => Seq::empty(),
        }
    }

    /// Whether the failure is a normal signal to idle or to try again, not
    /// an error.
    pub fn is_transient(&self) -> (b: bool)
        ensures
            b == self.transient(),
    {
        match self {
            IoFailure::WouldBlock => true,
            IoFailure::TimedOut => true,
            IoFailure::Other(_) => false,
        }
    }
}

/// Why an operation on an existing session could not be carried out.
#[derive(Debug, Clone, PartialEq, Eq)]
pub enum SessionError {
    /// No record exists under the identifier.
    NotFound,
    /// The record holds no channel.
    ChannelUnavailable,
    /// The record is no longer connected; no I/O is attempted against it.
    NotConnected,
    /// A write to the channel failed for good.
    Write(String),
    /// The channel took none of the bytes offered to it.
    WriteZero,
    /// Flushing the channel failed for good.
    Flush(String),
    /// The resize request was refused.
    Resize(String),
}

impl SessionError {
    /// The cause, as text.
    pub open spec fn text(self) -> Seq<char> {
        match self {
            SessionError::NotFound => "Session not found"@,
            SessionError::ChannelUnavailable => "Channel not available"@,
            SessionError::NotConnected => "Session not connected"@,
            SessionError::Write(detail) => "Failed to write to channel: "@ + detail@,
            SessionError::WriteZero => "Failed to write to channel: failed to write whole buffer"@,
            SessionError::Flush(detail) => "Failed to flush channel: "@ + detail@,
            SessionError::Resize(detail) => "Failed to resize PTY: "@ + detail@,
        }
    }

    /// The cause, as text.
    pub fn message(&self) -> (s: String)
        ensures
            s@ == self.text(),
    {
        match self {
            SessionError::NotFound => String::from_str("Session not found"),
            SessionError::ChannelUnavailable => String::from_str("Channel not available"),
            SessionError::NotConnected => String::from_str("Session not connected"),
            SessionError::Write(detail) => joined("Failed to write to channel: ", detail.as_str()),
            SessionError::WriteZero => String::from_str(
                "Failed to write to channel: failed to write whole buffer",
            ),
            SessionError::Flush(detail) => joined("Failed to flush channel: ", detail.as_str()),
            SessionError::Resize(detail) => joined("Failed to resize PTY: ", detail.as_str()),
        }
    }
}

} // verus!
