//! The notifications that reach the consumer, and the names under which
//! they are delivered.

use vstd::prelude::*;
use vstd::string::*;
use vstd::utf8::{decode_utf8, valid_utf8};
use crate::stream::{OutputStream, StreamEvent};
use crate::text::{decode_lossy, utf8_lossy_text};

verus! {

/// Name of the notification that carries a batch of output.
pub const OUTPUT_EVENT: &'static str = "ssh-output";

/// Name of the notification that tells of a remote close.
pub const CLOSED_EVENT: &'static str = "ssh-output-closed";

/// Name of the notification that tells of a stream error.
pub const ERROR_EVENT: &'static str = "ssh-output-error";

/// A batch of output of one session, as text.
#[derive(Debug, Clone, PartialEq, Eq)]
pub struct SshOutputPayload {
    pub session_id: String,
    pub data: String,
}

/// The error on which the stream of one session ended.
#[derive(Debug, Clone, PartialEq, Eq)]
pub struct SshErrorPayload {
    pub session_id: String,
    pub error: String,
}

/// The close of the stream of one session, with the reason if one is known.
#[derive(Debug, Clone, PartialEq, Eq)]
pub struct SshClosedPayload {
    pub session_id: String,
    pub message: Option<String>,
}

/// A notification, ready for delivery.
#[derive(Debug, Clone, PartialEq, Eq)]
pub enum Notification {
    Output(SshOutputPayload),
    Closed(SshClosedPayload),
    Error(SshErrorPayload),
}

impl Notification {
    /// The name under which the notification is delivered.
    pub open spec fn name(self) -> Seq<char> {
        match self {
            Notification::Output(_) => OUTPUT_EVENT@,
            Notification::Closed(_) => CLOSED_EVENT@,
            Notification::Error(_) => ERROR_EVENT@,
        }
    }

    /// The name under which the notification is delivered.
    pub fn event_name(&self) -> (name: &'static str)
        ensures
            name@ == self.name(),
    {
        match self {
            Notification::Output(_) => OUTPUT_EVENT,
            Notification::Closed(_) => CLOSED_EVENT,
            Notification::Error(_) => ERROR_EVENT,
        }
    }

    /// Whether the notification is the last one of its session.
    pub fn is_terminal(&self) -> (b: bool)
        ensures
            b == !(self is Output),
    {
        match self {
            Notification::Output(_) => false,
            _ => true,
        }
    }
}

impl OutputStream {
    /// Addresses `event` to the consumer: the payload carries the session's
    /// identifier, and a batch of output is decoded to text. Output that is
    /// valid UTF-8 becomes the text that it encodes; in any other output
    /// U+FFFD stands in place of what is not UTF-8.
    pub fn notification(&self, event: StreamEvent) -> (note: Notification)
        ensures
            match event {
                StreamEvent::Output(bytes) => note matches Notification::Output(payload)
                    && payload.session_id@ == self.id() && payload.data@ == utf8_lossy_text(
                    bytes@,
                ) && (valid_utf8(bytes@) ==> payload.data@ == decode_utf8(bytes@)),
                StreamEvent::Closed(message) => note matches Notification::Closed(payload)
                    && payload.session_id@ == self.id() && payload.message == message,
                StreamEvent::Failed(error) => note matches Notification::Error(payload)
                    && payload.session_id@ == self.id() && payload.error == error,
            },
    {
        let session_id = String::from_str(self.session_id());
        match event {
            StreamEvent::Output(bytes) => Notification::Output(
                SshOutputPayload { session_id, data: decode_lossy(bytes.as_slice()) },
            ),
            StreamEvent::Closed(message) => Notification::Closed(
                SshClosedPayload { session_id, message },
            ),
            StreamEvent::Failed(error) => Notification::Error(SshErrorPayload { session_id, error }),
        }
    }
}

} // verus!
