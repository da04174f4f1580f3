//! The output streaming engine: one polling task per session, as a state
//! machine.
//!
//! The task that drives a stream reads from the channel, reports what the
//! read gave as a [`ReadEvent`], and carries out the [`StreamStep`] that
//! [`OutputStream::poll`] answers with: it delivers the events in order, then
//! either stops or sleeps and reads again.

use vstd::prelude::*;
use vstd::string::*;
use crate::errors::{IoFailure, SessionError};
use crate::registry::{SshManager, SshSession};
use crate::text::joined;

verus! {

/// Largest number of bytes asked of the channel in one read.
pub const READ_CHUNK_SIZE: usize = 8192;

/// Buffered output is delivered once this many milliseconds have passed
/// since the last delivery.
pub const EMIT_INTERVAL_MS: u64 = 16;

/// Buffered output is delivered once it has grown to this many bytes.
pub const MAX_BUFFER_SIZE: usize = 4096;

/// This many failed reads in a row end the stream.
pub const MAX_CONSECUTIVE_ERRORS: u32 = 10;

/// Pause after a failed read, in milliseconds.
pub const ERROR_BACKOFF_MS: u64 = 100;

/// Pause while nothing is buffered, in milliseconds.
pub const IDLE_SLEEP_MS: u64 = 1;

/// What one read attempt on the channel gave.
#[derive(Debug, Clone, PartialEq, Eq)]
pub enum ReadEvent {
    /// The read returned `bytes`; `eof` tells whether the channel reports
    /// end-of-stream.
    Read { bytes: Vec<u8>, eof: bool },
    /// The read failed.
    Failed(IoFailure),
    /// The registry holds no channel for the session any more.
    Gone,
}

/// A notification for the consumer.
#[derive(Debug, Clone, PartialEq, Eq)]
pub enum StreamEvent {
    /// A batch of output.
    Output(Vec<u8>),
    /// The remote side closed the stream.
    Closed(Option<String>),
    /// The stream ended on an error.
    Failed(String),
}

/// A notification, as a mathematical value.
pub enum EventModel {
    Output(Seq<u8>),
    Closed(Option<Seq<char>>),
    Failed(Seq<char>),
}

impl EventModel {
    /// Whether the event ends the session's stream of notifications.
    pub open spec fn terminal(self) -> bool {
        !(self is Output)
    }
}

impl View for StreamEvent {
    type V = EventModel;

    open spec fn view(&self) -> EventModel {
        match *self {
            StreamEvent::Output(bytes) => EventModel::Output(bytes@),
            StreamEvent::Closed(Some(reason)) => EventModel::Closed(Some(reason@)),
            StreamEvent::Closed(None) => EventModel::Closed(None),
            StreamEvent::Failed(error) => EventModel::Failed(error@),
        }
    }
}

/// The views of a sequence of notifications, in the same order.
pub open spec fn event_models(events: Seq<StreamEvent>) -> Seq<EventModel> {
    events.map_values(|e: StreamEvent| e@)
}

/// The state of a stream, as a mathematical value.
pub struct StreamModel {
    /// Output read and not yet delivered.
    pub buffer: Seq<u8>,
    /// Time of the last delivery.
    pub last_emit_ms: u64,
    /// Failed reads since the last one that did not fail.
    pub consecutive_errors: nat,
    /// Whether the stream has ended.
    pub finished: bool,
}

/// What one step of a stream does.
pub struct Transition {
    /// The state after the step.
    pub next: StreamModel,
    /// The notifications of the step, in the order of delivery.
    pub events: Seq<EventModel>,
    /// How long to pause before the next read.
    pub sleep_ms: u64,
}

/// Milliseconds from `since` to `now`; zero where the clock went backwards.
pub open spec fn elapsed(now: u64, since: u64) -> nat {
    if now >= since {
        (now - since) as nat
    } else {
        0
    }
}

/// The emission gate: buffered output is due when there is any and either
/// the interval has passed or the buffer has reached its threshold.
pub open spec fn gate_open(buffer: Seq<u8>, last_emit_ms: u64, now: u64) -> bool {
    buffer.len() > 0 && (elapsed(now, last_emit_ms) >= EMIT_INTERVAL_MS || buffer.len()
        >= MAX_BUFFER_SIZE)
}

/// A step that stays in polling: the buffer is delivered where it is due,
/// and the pause is `backoff`, one idle pause longer where nothing is left
/// buffered.
pub open spec fn paced(m: StreamModel, now: u64, backoff: u64) -> Transition {
    if gate_open(m.buffer, m.last_emit_ms, now) {
        Transition {
            next: StreamModel { buffer: Seq::empty(), last_emit_ms: now, ..m },
            events: seq![EventModel::Output(m.buffer)],
            sleep_ms: (backoff + IDLE_SLEEP_MS) as u64,
        }
    } else {
        Transition {
            next: m,
            events: Seq::empty(),
            sleep_ms: if m.buffer.len() == 0 {
                (backoff + IDLE_SLEEP_MS) as u64
            } else {
                backoff
            },
        }
    }
}

/// The last step of a stream: what is still buffered is delivered, then the
/// terminal notification, if there is one.
pub open spec fn closing(m: StreamModel, last: Option<EventModel>) -> Transition {
    let flushed = if m.buffer.len() > 0 {
        seq![EventModel::Output(m.buffer)]
    } else {
        Seq::empty()
    };
    Transition {
        next: StreamModel { buffer: Seq::empty(), finished: true, ..m },
        events: match last {
            Some(event) => flushed.push(event),
            None => flushed,
        },
        sleep_ms: 0,
    }
}

/// Whether `event` is a read of no bytes on a channel at end-of-stream.
pub open spec fn end_of_stream(event: ReadEvent) -> bool {
    event matches ReadEvent::Read { bytes, eof } && bytes@.len() == 0 && eof
}

/// Whether `event` is a failed read that counts as an error.
pub open spec fn read_error(event: ReadEvent) -> bool {
    event matches ReadEvent::Failed(failure) && !failure.transient()
}

/// The bytes that `event` hands to a stream.
pub open spec fn bytes_read(event: ReadEvent) -> Seq<u8> {
    match event {
        ReadEvent::Read { bytes, eof } => bytes@,
        _ => Seq::empty(),
    }
}

/// The notice that goes with a remote close.
pub open spec fn closed_notice() -> EventModel {
    EventModel::Closed(Some("Connection closed by remote host"@))
}

/// The notice that goes with the read error that ends a stream.
pub open spec fn failed_notice(failure: IoFailure) -> EventModel {
    EventModel::Failed("Read error: "@ + failure.detail())
}

/// One step of a stream in state `m`, on what the read gave at time `now`.
///
/// A finished stream does nothing. A live one ends on end-of-stream, on the
/// last tolerated read error in a row, or when its session is gone; otherwise
/// it takes in what was read and delivers the buffer where it is due.
pub open spec fn step(m: StreamModel, event: ReadEvent, now: u64) -> Transition {
    if m.finished {
        Transition { next: m, events: Seq::empty(), sleep_ms: 0 }
    } else {
        match event {
            ReadEvent::Gone => closing(m, None),
            ReadEvent::Read { bytes, eof } => if bytes@.len() == 0 && eof {
                closing(m, Some(closed_notice()))
            } else {
                paced(
                    StreamModel { buffer: m.buffer + bytes@, consecutive_errors: 0, ..m },
                    now,
                    0,
                )
            },
            ReadEvent::Failed(failure) => if failure.transient() {
                paced(StreamModel { consecutive_errors: 0, ..m }, now, 0)
            } else if m.consecutive_errors + 1 >= MAX_CONSECUTIVE_ERRORS {
                closing(m, Some(failed_notice(failure)))
            } else {
                paced(
                    StreamModel { consecutive_errors: m.consecutive_errors + 1, ..m },
                    now,
                    ERROR_BACKOFF_MS,
                )
            },
        }
    }
}

/// Whether a stream in state `m` ends on `event`.
pub open spec fn ends_stream(m: StreamModel, event: ReadEvent) -> bool {
    !m.finished && (event is Gone || end_of_stream(event) || (read_error(event)
        && m.consecutive_errors + 1 >= MAX_CONSECUTIVE_ERRORS))
}

/// The state in which a stream starts at time `now`.
pub open spec fn fresh(now: u64) -> StreamModel {
    StreamModel { buffer: Seq::empty(), last_emit_ms: now, consecutive_errors: 0, finished: false }
}

/// The polling task of one session.
pub struct OutputStream {
    session_id: String,
    buffer: Vec<u8>,
    last_emit_ms: u64,
    consecutive_errors: u32,
    finished: bool,
}

/// What the task has to do after a step.
pub struct StreamStep<C> {
    /// Notifications to deliver, in this order.
    pub events: Vec<StreamEvent>,
    /// The session's record, taken out of the registry because the stream
    /// ended; its channel is the caller's to close.
    pub released: Option<SshSession<C>>,
    /// Whether the task ends here.
    pub finished: bool,
    /// Otherwise, how long to pause before reading again.
    pub sleep_ms: u64,
}

impl View for OutputStream {
    type V = StreamModel;

    closed spec fn view(&self) -> StreamModel {
        StreamModel {
            buffer: self.buffer@,
            last_emit_ms: self.last_emit_ms,
            consecutive_errors: self.consecutive_errors as nat,
            finished: self.finished,
        }
    }
}

impl OutputStream {
    /// The identifier of the session whose output this stream relays.
    pub closed spec fn id(&self) -> Seq<char> {
        self.session_id@
    }

    /// A stream for `session_id` that starts at time `now_ms` with nothing
    /// buffered.
    pub fn new(session_id: String, now_ms: u64) -> (stream: OutputStream)
        ensures
            stream.id() == session_id@,
            stream@ == fresh(now_ms),
    {
        OutputStream {
            session_id,
            buffer: Vec::new(),
            last_emit_ms: now_ms,
            consecutive_errors: 0,
            finished: false,
        }
    }

    /// The identifier of the session whose output this stream relays.
    pub fn session_id(&self) -> (id: &str)
        ensures
            id@ == self.id(),
    {
        self.session_id.as_str()
    }

    /// Whether the stream has ended.
    pub fn is_finished(&self) -> (b: bool)
        ensures
            b == self@.finished,
    {
        self.finished
    }

    fn pace<C>(&mut self, now_ms: u64, backoff: u64) -> (out: StreamStep<C>)
        requires
            backoff <= ERROR_BACKOFF_MS,
        ensures
            final(self).id() == old(self).id(),
            final(self)@ == paced(old(self)@, now_ms, backoff).next,
            event_models(out.events@) == paced(old(self)@, now_ms, backoff).events,
            out.sleep_ms == paced(old(self)@, now_ms, backoff).sleep_ms,
            out.finished == old(self)@.finished,
            out.released is None,
    {
        let waited: u64 = if now_ms >= self.last_emit_ms {
            now_ms - self.last_emit_ms
        } else {
            0
        };
        let mut events: Vec<StreamEvent> = Vec::new();
        if self.buffer.len() > 0 && (waited >= EMIT_INTERVAL_MS || self.buffer.len()
            >= MAX_BUFFER_SIZE) {
            let mut batch: Vec<u8> = Vec::new();
            std::mem::swap(&mut self.buffer, &mut batch);
            self.last_emit_ms = now_ms;
            events.push(StreamEvent::Output(batch));
        }
        let sleep_ms: u64 = if self.buffer.len() == 0 {
            backoff + IDLE_SLEEP_MS
        } else {
            backoff
        };
        StreamStep { events, released: None, finished: self.finished, sleep_ms }
    }

    fn close<C>(&mut self, registry: &mut SshManager<C>, last: Option<StreamEvent>) -> (out:
        StreamStep<C>)
        ensures
            final(self).id() == old(self).id(),
            final(self)@ == closing(
                old(self)@,
                match last {
                    Some(event) => Some(event@),
                    None => None,
                },
            ).next,
            event_models(out.events@) == closing(
                old(self)@,
                match last {
                    Some(event) => Some(event@),
                    None => None,
                },
            ).events,
            out.sleep_ms == 0,
            out.finished,
            final(registry)@ == old(registry)@.remove(old(self).id()),
            out.released == if old(registry)@.contains_key(old(self).id()) {
                Some(SshSession { is_connected: false, ..old(registry)@[old(self).id()] })
            } else {
                None
            },
    {
        let mut events: Vec<StreamEvent> = Vec::new();
        if self.buffer.len() > 0 {
            let mut batch: Vec<u8> = Vec::new();
            std::mem::swap(&mut self.buffer, &mut batch);
            events.push(StreamEvent::Output(batch));
        }
        match last {
            Some(event) => {
                events.push(event);
            },
            None => {},
        }
        self.finished = true;
        assert(self.buffer@ =~= Seq::<u8>::empty());
        let released = registry.disconnect(self.session_id.as_str());
        assert(event_models(events@) =~= closing(
            old(self)@,
            match last {
                Some(event) => Some(event@),
                None => None,
            },
        ).events);
        StreamStep { events, released, finished: true, sleep_ms: 0 }
    }

    /// Takes one step on what the last read gave at time `now_ms`.
    ///
    /// The step is that of [`step`]. Where it ends the stream, the session's
    /// record leaves `registry`, marked as disconnected, and comes back in
    /// the answer; in every other case `registry` is left as it was.
    pub fn poll<C>(&mut self, registry: &mut SshManager<C>, event: ReadEvent, now_ms: u64) -> (out:
        StreamStep<C>)
        ensures
            final(self).id() == old(self).id(),
            final(self)@ == step(old(self)@, event, now_ms).next,
            event_models(out.events@) == step(old(self)@, event, now_ms).events,
            out.sleep_ms == step(old(self)@, event, now_ms).sleep_ms,
            out.finished == final(self)@.finished,
            final(registry)@ == if ends_stream(old(self)@, event) {
                old(registry)@.remove(old(self).id())
            } else {
                old(registry)@
            },
            out.released == if ends_stream(old(self)@, event) && old(registry)@.contains_key(
                old(self).id(),
            ) {
                Some(SshSession { is_connected: false, ..old(registry)@[old(self).id()] })
            } else {
                None
            },
    {
        if self.finished {
            return StreamStep { events: Vec::new(), released: None, finished: true, sleep_ms: 0 };
        }
        match event {
            ReadEvent::Gone => self.close(registry, None),
            ReadEvent::Read { bytes, eof } => {
                if bytes.len() == 0 && eof {
                    let reason = String::from_str("Connection closed by remote host");
                    self.close(registry, Some(StreamEvent::Closed(Some(reason))))
                } else {
                    let mut bytes = bytes;
                    self.buffer.append(&mut bytes);
                    self.consecutive_errors = 0;
                    self.pace(now_ms, 0)
                }
            },
            ReadEvent::Failed(failure) => {
                if failure.is_transient() {
                    self.consecutive_errors = 0;
                    self.pace(now_ms, 0)
                } else if self.consecutive_errors >= MAX_CONSECUTIVE_ERRORS - 1 {
                    let error = match &failure {
                        IoFailure::Other(detail) => joined("Read error: ", detail.as_str()),
                        _ => String::from_str("Read error: "),
                    };
                    self.close(registry, Some(StreamEvent::Failed(error)))
                } else {
                    self.consecutive_errors = self.consecutive_errors + 1;
                    self.pace(now_ms, ERROR_BACKOFF_MS)
                }
            },
        }
    }

    /// How many bytes are waiting for delivery.
    pub fn buffered(&self) -> (n: usize)
        ensures
            n == self@.buffer.len(),
    {
        self.buffer.len()
    }
}

impl<C> SshManager<C> {
    /// Starts the output stream of the session under `session_id` at time
    /// `now_ms`.
    ///
    /// A session has at most one stream: the first start marks the record
    /// and answers with the stream, and every later one answers with `None`
    /// and changes nothing.
    pub fn start_output_stream(&mut self, session_id: String, now_ms: u64) -> (started: Result<
        Option<OutputStream>,
        SessionError,
    >)
        ensures
            !old(self)@.contains_key(session_id@) ==> started == Err::<
                Option<OutputStream>,
                SessionError,
            >(SessionError::NotFound) && final(self)@ == old(self)@,
            old(self)@.contains_key(session_id@) && old(self)@[session_id@].streaming ==> started
                == Ok::<Option<OutputStream>, SessionError>(None) && final(self)@ == old(self)@,
            old(self)@.contains_key(session_id@) && !old(self)@[session_id@].streaming ==> (
            started matches Ok(Some(stream)) && stream.id() == session_id@ && stream@ == fresh(
                now_ms,
            )) && final(self)@ == old(self)@.insert(
                session_id@,
                SshSession { streaming: true, ..old(self)@[session_id@] },
            ),
    {
        match self.get_mut(session_id.as_str()) {
            Err(e) => Err(e),
            Ok(record) => {
                if record.streaming {
                    Ok(None)
                } else {
                    record.streaming = true;
                    Ok(Some(OutputStream::new(session_id, now_ms)))
                }
            },
        }
    }
}

} // verus!
