//! The input and control dispatcher: writing input out in full, and the
//! checks that precede every operation on a session's channel.

use vstd::prelude::*;
use vstd::slice::slice_subrange;
use vstd::string::*;
use crate::errors::{IoFailure, SessionError};
use crate::registry::{SshManager, SshSession};

verus! {

/// Pause before a write or flush is tried again after a transient
/// condition, in milliseconds.
pub const RETRY_SLEEP_MS: u64 = 1;

/// Whether an operation may touch the channel of the session under `id`: the
/// record must exist, be connected and hold a channel.
pub open spec fn access<C>(sessions: Map<Seq<char>, SshSession<C>>, id: Seq<char>) -> Result<
    (),
    SessionError,
> {
    if !sessions.contains_key(id) {
        Err(SessionError::NotFound)
    } else if !sessions[id].is_connected {
        Err(SessionError::NotConnected)
    } else if sessions[id].channel is None {
        Err(SessionError::ChannelUnavailable)
    } else {
        Ok(())
    }
}

/// A request to resize the pseudo-terminal of a session.
#[derive(Clone, Copy, PartialEq, Eq, Debug, Structural)]
pub struct ResizeRequest {
    pub cols: u32,
    pub rows: u32,
}

/// The progress of one `send`, as a mathematical value: the bytes to write
/// and how many of them the channel has taken.
pub struct SendModel {
    pub data: Seq<u8>,
    pub written: nat,
}

/// What the channel answered to a write or a flush.
#[derive(Debug, Clone, PartialEq, Eq)]
pub enum IoReport {
    /// The write took this many bytes.
    Wrote(usize),
    /// The flush succeeded.
    Flushed,
    /// The write or flush failed.
    Failed(IoFailure),
}

/// What follows a report, over the model.
pub enum SendVerdict {
    /// The send goes on from `next`, after a pause of `sleep_ms`.
    Continue { next: SendModel, sleep_ms: u64 },
    /// The send is over.
    Finished(Result<(), SessionError>),
}

impl SendModel {
    /// The model is meaningful: no more is written than there is.
    pub open spec fn valid(self) -> bool {
        self.written <= self.data.len()
    }

    /// Whether every byte has been written, so that the flush is due.
    pub open spec fn flushing(self) -> bool {
        self.written >= self.data.len()
    }

    /// The bytes still to be written.
    pub open spec fn pending(self) -> Seq<u8> {
        self.data.subrange(self.written as int, self.data.len() as int)
    }

    /// The bytes that the channel takes when it reports `report` in this
    /// state: the first `n` pending bytes for a write of `n`, no more than
    /// are pending.
    pub open spec fn taken(self, report: IoReport) -> Seq<u8> {
        match report {
            IoReport::Wrote(n) if !self.flushing() => self.data.subrange(
                self.written as int,
                self.written_after(n as nat) as int,
            ),
            _ => Seq::empty(),
        }
    }

    /// The count of written bytes after a write of `n` more.
    pub open spec fn written_after(self, n: nat) -> nat {
        if self.written + n <= self.data.len() {
            self.written + n
        } else {
            self.data.len()
        }
    }

    /// What follows `report`.
    ///
    /// While bytes are pending, a write of some bytes moves on by that many,
    /// a write of none is an error, and a stray flush report changes nothing.
    /// Once all are written, a flush report ends the send with success. A
    /// transient failure is answered by a pause and another try; any other
    /// failure ends the send with the error of the operation that was due.
    pub open spec fn after(self, report: IoReport) -> SendVerdict {
        match report {
            IoReport::Wrote(n) => if self.flushing() {
                SendVerdict::Continue { next: self, sleep_ms: 0 }
            } else if n == 0 {
                SendVerdict::Finished(Err(SessionError::WriteZero))
            } else {
                SendVerdict::Continue {
                    next: SendModel { written: self.written_after(n as nat), ..self },
                    sleep_ms: 0,
                }
            },
            IoReport::Flushed => if self.flushing() {
                SendVerdict::Finished(Ok(()))
            } else {
                SendVerdict::Continue { next: self, sleep_ms: 0 }
            },
            IoReport::Failed(failure) => match failure {
                IoFailure::Other(detail) => if self.flushing() {
                    SendVerdict::Finished(Err(SessionError::Flush(detail)))
                } else {
                    SendVerdict::Finished(Err(SessionError::Write(detail)))
                },
                _ => SendVerdict::Continue { next: self, sleep_ms: RETRY_SLEEP_MS },
            },
        }
    }
}

/// The state of a send that started in `m` and has taken in each of
/// `reports`, in order; `None` once the send is over.
pub open spec fn live_after(m: SendModel, reports: Seq<IoReport>) -> Option<SendModel>
    decreases reports.len(),
{
    if reports.len() == 0 {
        Some(m)
    } else {
        match live_after(m, reports.drop_last()) {
            Some(before) => match before.after(reports.last()) {
                SendVerdict::Continue { next, sleep_ms } => Some(next),
                SendVerdict::Finished(_) => None,
            },
            None => None,
        }
    }
}

/// The result of that send; `None` while it is under way.
pub open spec fn result_after(m: SendModel, reports: Seq<IoReport>) -> Option<
    Result<(), SessionError>,
>
    decreases reports.len(),
{
    if reports.len() == 0 {
        None
    } else {
        match live_after(m, reports.drop_last()) {
            Some(before) => match before.after(reports.last()) {
                SendVerdict::Continue { next, sleep_ms } => None,
                SendVerdict::Finished(result) => Some(result),
            },
            None => result_after(m, reports.drop_last()),
        }
    }
}

/// Every byte that the channel took during that send, in the order in which
/// it took them.
pub open spec fn taken_during(m: SendModel, reports: Seq<IoReport>) -> Seq<u8>
    decreases reports.len(),
{
    if reports.len() == 0 {
        Seq::empty()
    } else {
        taken_during(m, reports.drop_last()) + match live_after(m, reports.drop_last()) {
            Some(before) => before.taken(reports.last()),
            None => Seq::empty(),
        }
    }
}

/// Input is written in order, without loss and without repetition: whatever
/// the channel answers, the bytes it has taken so far are exactly the input
/// from where the send started up to where it stands. A send that is over
/// has a result, and one under way has none.
pub proof fn law_writes_follow_the_input(m: SendModel, reports: Seq<IoReport>)
    requires
        m.valid(),
    ensures
        match live_after(m, reports) {
            Some(now) => now.valid() && now.data == m.data && m.written <= now.written
                && taken_during(m, reports) == m.data.subrange(
                m.written as int,
                now.written as int,
            ) && result_after(m, reports) is None,
            None => result_after(m, reports) is Some,
        },
    decreases reports.len(),
{
    if reports.len() > 0 {
        let front = reports.drop_last();
        law_writes_follow_the_input(m, front);
        if let Some(before) = live_after(m, front) {
            if let SendVerdict::Continue { next, sleep_ms } = before.after(reports.last()) {
                assert(m.data.subrange(m.written as int, before.written as int) + before.taken(
                    reports.last(),
                ) =~= m.data.subrange(m.written as int, next.written as int));
            }
        }
    }
}

/// A send that succeeds has written the whole input: the bytes that the
/// channel took are the input from where the send started to its end, and
/// the flush came after the last of them.
pub proof fn law_success_means_all_written(m: SendModel, reports: Seq<IoReport>)
    requires
        m.valid(),
        result_after(m, reports) == Some(Ok::<(), SessionError>(())),
    ensures
        taken_during(m, reports) == m.pending(),
    decreases reports.len(),
{
    if reports.len() > 0 {
        let front = reports.drop_last();
        law_writes_follow_the_input(m, front);
        if live_after(m, front) is None {
            law_success_means_all_written(m, front);
        }
    }
}

/// One `send` under way.
pub struct Sender {
    data: Vec<u8>,
    written: usize,
}

/// What the caller is to do against the channel.
pub enum SendRequest<'a> {
    /// Write these bytes, or as many of them as the channel takes.
    Write(&'a [u8]),
    /// Flush the channel.
    Flush,
}

/// Where a send stands after a report.
pub enum SendProgress {
    /// The send goes on, after a pause of `sleep_ms`.
    Continue { sender: Sender, sleep_ms: u64 },
    /// The send is over.
    Finished(Result<(), SessionError>),
}

impl View for Sender {
    type V = SendModel;

    closed spec fn view(&self) -> SendModel {
        SendModel { data: self.data@, written: self.written as nat }
    }
}

impl Sender {
    #[verifier::type_invariant]
    spec fn in_range(self) -> bool {
        self.written <= self.data@.len()
    }

    /// A send of `data`, of which nothing is written yet.
    pub fn new(data: Vec<u8>) -> (sender: Sender)
        ensures
            sender@ == (SendModel { data: data@, written: 0 }),
            sender@.valid(),
    {
        Sender { data, written: 0 }
    }

    /// The operation that is due: a write of what is pending, or the flush
    /// once nothing is.
    pub fn request(&self) -> (request: SendRequest<'_>)
        ensures
            self@.valid(),
            match request {
                SendRequest::Write(bytes) => !self@.flushing() && bytes@ == self@.pending(),
                SendRequest::Flush => self@.flushing(),
            },
    {
        proof {
            use_type_invariant(self);
        }
        if self.written < self.data.len() {
            SendRequest::Write(slice_subrange(self.data.as_slice(), self.written, self.data.len()))
        } else {
            SendRequest::Flush
        }
    }

    /// Takes in what the channel answered to the operation that was due.
    pub fn report(self, report: IoReport) -> (progress: SendProgress)
        ensures
            self@.valid(),
            match self@.after(report) {
                SendVerdict::Continue { next, sleep_ms } => progress == (SendProgress::Continue {
                    sender: progress->sender,
                    sleep_ms,
                }) && progress->sender@ == next && next.valid(),
                SendVerdict::Finished(result) => progress == SendProgress::Finished(result),
            },
    {
        proof {
            use_type_invariant(&self);
        }
        let Sender { data, written } = self;
        let flushing = written >= data.len();
        match report {
            IoReport::Wrote(n) => {
                if flushing {
                    SendProgress::Continue { sender: Sender { data, written }, sleep_ms: 0 }
                } else if n == 0 {
                    SendProgress::Finished(Err(SessionError::WriteZero))
                } else {
                    let left: usize = data.len() - written;
                    let written: usize = if n <= left {
                        written + n
                    } else {
                        data.len()
                    };
                    SendProgress::Continue { sender: Sender { data, written }, sleep_ms: 0 }
                }
            },
            IoReport::Flushed => {
                if flushing {
                    SendProgress::Finished(Ok(()))
                } else {
                    SendProgress::Continue { sender: Sender { data, written }, sleep_ms: 0 }
                }
            },
            IoReport::Failed(failure) => match failure {
                IoFailure::Other(detail) => {
                    if flushing {
                        SendProgress::Finished(Err(SessionError::Flush(detail)))
                    } else {
                        SendProgress::Finished(Err(SessionError::Write(detail)))
                    }
                },
                _ => SendProgress::Continue {
                    sender: Sender { data, written },
                    sleep_ms: RETRY_SLEEP_MS,
                },
            },
        }
    }
}

impl<C> SshManager<C> {
    fn check_access(&self, session_id: &str) -> (allowed: Result<(), SessionError>)
        ensures
            allowed == access(self@, session_id@),
    {
        match self.get(session_id) {
            Err(e) => Err(e),
            Ok(record) => {
                if !record.is_connected {
                    Err(SessionError::NotConnected)
                } else if record.channel.is_none() {
                    Err(SessionError::ChannelUnavailable)
                } else {
                    Ok(())
                }
            },
        }
    }

    /// Begins sending `data` to the session under `session_id`: the bytes of
    /// its UTF-8 encoding, none of them written yet.
    pub fn send_input(&self, session_id: &str, data: &str) -> (begun: Result<Sender, SessionError>)
        ensures
            match access(self@, session_id@) {
                Err(e) => begun == Err::<Sender, SessionError>(e),
                Ok(_) => begun matches Ok(sender) && sender@ == (SendModel {
                    data: data.spec_bytes(),
                    written: 0,
                }),
            },
    {
        match self.check_access(session_id) {
            Err(e) => Err(e),
            Ok(_) => Ok(Sender::new(data.as_bytes_vec())),
        }
    }

    /// Checks that the pseudo-terminal of the session under `session_id` can
    /// be resized, and says what to ask of its channel.
    pub fn resize_pty(&self, session_id: &str, cols: u32, rows: u32) -> (request: Result<
        ResizeRequest,
        SessionError,
    >)
        ensures
            request == match access(self@, session_id@) {
                Err(e) => Err::<ResizeRequest, SessionError>(e),
                Ok(_) => Ok(ResizeRequest { cols, rows }),
            },
    {
        match self.check_access(session_id) {
            Err(e) => Err(e),
            Ok(_) => Ok(ResizeRequest { cols, rows }),
        }
    }
}

/// What a resize comes to, given what the channel answered to the request.
pub fn resize_result(answer: Result<(), String>) -> (result: Result<(), SessionError>)
    ensures
        result == match answer {
            Ok(_) => Ok::<(), SessionError>(()),
            Err(detail) => Err(SessionError::Resize(detail)),
        },
{
    match answer {
        Ok(_) => Ok(()),
        Err(detail) => Err(SessionError::Resize(detail)),
    }
}

} // verus!
