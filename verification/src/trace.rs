//! Runs of a stream, and what holds of every run.
//!
//! A run is the sequence of steps that a stream takes on a sequence of read
//! events, each with the time at which it was reported.

use vstd::prelude::*;
use crate::stream::{
    closed_notice, elapsed, end_of_stream, step, EventModel, ReadEvent, StreamModel,
    EMIT_INTERVAL_MS, MAX_BUFFER_SIZE,
};

verus! {

/// The state of a stream that started in `m` and has taken a step on each of
/// `ticks`, in order.
pub open spec fn state_after(m: StreamModel, ticks: Seq<(ReadEvent, u64)>) -> StreamModel
    decreases ticks.len(),
{
    if ticks.len() == 0 {
        m
    } else {
        step(state_after(m, ticks.drop_last()), ticks.last().0, ticks.last().1).next
    }
}

/// Every notification of that run, in the order of delivery.
pub open spec fn events_of(m: StreamModel, ticks: Seq<(ReadEvent, u64)>) -> Seq<EventModel>
    decreases ticks.len(),
{
    if ticks.len() == 0 {
        Seq::empty()
    } else {
        events_of(m, ticks.drop_last()) + step(
            state_after(m, ticks.drop_last()),
            ticks.last().0,
            ticks.last().1,
        ).events
    }
}

/// The bytes that the run took in: those of every read reported while the
/// stream was live, in order.
pub open spec fn accepted_bytes(m: StreamModel, ticks: Seq<(ReadEvent, u64)>) -> Seq<u8>
    decreases ticks.len(),
{
    if ticks.len() == 0 {
        Seq::empty()
    } else if state_after(m, ticks.drop_last()).finished {
        accepted_bytes(m, ticks.drop_last())
    } else {
        accepted_bytes(m, ticks.drop_last()) + crate::stream::bytes_read(ticks.last().0)
    }
}

/// The payloads of the output notifications among `events`, concatenated in
/// order.
pub open spec fn output_bytes(events: Seq<EventModel>) -> Seq<u8>
    decreases events.len(),
{
    if events.len() == 0 {
        Seq::empty()
    } else {
        output_bytes(events.drop_last()) + match events.last() {
            EventModel::Output(bytes) => bytes,
            _ => Seq::empty(),
        }
    }
}

/// How many of `events` are output notifications.
pub open spec fn output_count(events: Seq<EventModel>) -> nat
    decreases events.len(),
{
    if events.len() == 0 {
        0
    } else {
        output_count(events.drop_last()) + if events.last() is Output {
            1nat
        } else {
            0nat
        }
    }
}

/// How many of `events` are terminal.
pub open spec fn terminal_count(events: Seq<EventModel>) -> nat
    decreases events.len(),
{
    if events.len() == 0 {
        0
    } else {
        terminal_count(events.drop_last()) + if events.last().terminal() {
            1nat
        } else {
            0nat
        }
    }
}

/// The clock never runs backwards: the first tick is not before `start`, and
/// no tick is before the one that precedes it.
pub open spec fn clock_ordered(start: u64, ticks: Seq<(ReadEvent, u64)>) -> bool {
    forall|i: int|
        0 <= i < ticks.len() ==> (#[trigger] ticks[i]).1 >= (if i == 0 {
            start
        } else {
            ticks[i - 1].1
        })
}

/// The time of the last tick; `start` where there is none.
pub open spec fn end_time(start: u64, ticks: Seq<(ReadEvent, u64)>) -> u64 {
    if ticks.len() == 0 {
        start
    } else {
        ticks.last().1
    }
}

proof fn lemma_counts_concat(a: Seq<EventModel>, b: Seq<EventModel>)
    ensures
        output_bytes(a + b) == output_bytes(a) + output_bytes(b),
        output_count(a + b) == output_count(a) + output_count(b),
        terminal_count(a + b) == terminal_count(a) + terminal_count(b),
    decreases b.len(),
{
    if b.len() > 0 {
        assert((a + b).drop_last() =~= a + b.drop_last());
        lemma_counts_concat(a, b.drop_last());
        let tail = match b.last() {
            EventModel::Output(bytes) => bytes,
            _ => Seq::empty(),
        };
        assert((output_bytes(a) + output_bytes(b.drop_last())) + tail =~= output_bytes(a) + (
        output_bytes(b.drop_last()) + tail));
    }
}

proof fn lemma_counts_small(events: Seq<EventModel>)
    requires
        events.len() <= 2,
    ensures
        events.len() == 0 ==> output_bytes(events) == Seq::<u8>::empty() && output_count(events)
            == 0 && terminal_count(events) == 0,
        events.len() == 1 ==> output_count(events) == (if events[0] is Output {
            1nat
        } else {
            0nat
        }) && terminal_count(events) == (if events[0].terminal() {
            1nat
        } else {
            0nat
        }),
        events.len() == 1 && events[0] is Output ==> output_bytes(events) == events[0]->Output_0,
        events.len() == 1 && !(events[0] is Output) ==> output_bytes(events) == Seq::<u8>::empty(),
        events.len() == 2 ==> output_count(events) == (if events[0] is Output {
            1nat
        } else {
            0nat
        }) + (if events[1] is Output {
            1nat
        } else {
            0nat
        }) && terminal_count(events) == (if events[0].terminal() {
            1nat
        } else {
            0nat
        }) + (if events[1].terminal() {
            1nat
        } else {
            0nat
        }),
        events.len() == 2 && events[0] is Output && !(events[1] is Output) ==> output_bytes(events)
            == events[0]->Output_0,
    decreases events.len(),
{
    if events.len() == 1 {
        let front = events.drop_last();
        assert(output_bytes(front) == Seq::<u8>::empty());
        assert(output_count(front) == 0);
        assert(terminal_count(front) == 0);
    } else if events.len() == 2 {
        lemma_counts_small(events.drop_last());
    }
}

/// A run over `a` followed by `b` is the run over `a`, followed by the run
/// over `b` from where the first one ended.
pub proof fn lemma_run_split(
    m: StreamModel,
    a: Seq<(ReadEvent, u64)>,
    b: Seq<(ReadEvent, u64)>,
)
    ensures
        state_after(m, a + b) == state_after(state_after(m, a), b),
        events_of(m, a + b) == events_of(m, a) + events_of(state_after(m, a), b),
    decreases b.len(),
{
    if b.len() > 0 {
        assert((a + b).drop_last() =~= a + b.drop_last());
        lemma_run_split(m, a, b.drop_last());
        let mid = state_after(m, a);
        let last = step(state_after(mid, b.drop_last()), b.last().0, b.last().1).events;
        assert((events_of(m, a) + events_of(mid, b.drop_last())) + last =~= events_of(m, a) + (
        events_of(mid, b.drop_last()) + last));
    }
}

/// A stream that has ended stays as it is and delivers nothing more,
/// whatever is reported to it.
pub proof fn law_finished_stream_is_silent(m: StreamModel, ticks: Seq<(ReadEvent, u64)>)
    requires
        m.finished,
    ensures
        state_after(m, ticks) == m,
        events_of(m, ticks) == Seq::<EventModel>::empty(),
    decreases ticks.len(),
{
    if ticks.len() > 0 {
        law_finished_stream_is_silent(m, ticks.drop_last());
    }
}

/// In every run of a stream that was live at the start, at most one
/// notification is terminal, and nothing follows it. While the stream is
/// live none has been delivered at all.
pub proof fn law_terminal_event_is_last(m: StreamModel, ticks: Seq<(ReadEvent, u64)>)
    requires
        !m.finished,
    ensures
        terminal_count(events_of(m, ticks)) <= 1,
        forall|i: int|
            0 <= i < events_of(m, ticks).len() && (#[trigger] events_of(m, ticks)[i]).terminal()
                ==> i == events_of(m, ticks).len() - 1,
        !state_after(m, ticks).finished ==> terminal_count(events_of(m, ticks)) == 0,
    decreases ticks.len(),
{
    if ticks.len() > 0 {
        let front = ticks.drop_last();
        law_terminal_event_is_last(m, front);
        let before = state_after(m, front);
        let earlier = events_of(m, front);
        let t = step(before, ticks.last().0, ticks.last().1);
        lemma_counts_concat(earlier, t.events);
        if !before.finished {
            lemma_counts_small(t.events);
            assert forall|i: int| 0 <= i < earlier.len() implies !(#[trigger] earlier[i]).terminal() by {
                lemma_no_terminal(earlier, i);
            }
        }
    }
}

proof fn lemma_no_terminal(events: Seq<EventModel>, i: int)
    requires
        terminal_count(events) == 0,
        0 <= i < events.len(),
    ensures
        !events[i].terminal(),
    decreases events.len(),
{
    if i < events.len() - 1 {
        lemma_no_terminal(events.drop_last(), i);
    }
}

/// Once the channel reports end-of-stream to a live stream, the stream ends:
/// the run delivers exactly one terminal notification, the notice of the
/// remote close; it is the last notification of the run, whatever is
/// reported afterwards.
pub proof fn law_end_of_stream_closes_once(
    m: StreamModel,
    before: Seq<(ReadEvent, u64)>,
    event: ReadEvent,
    now: u64,
    after: Seq<(ReadEvent, u64)>,
)
    requires
        !state_after(m, before).finished,
        end_of_stream(event),
    ensures
        state_after(m, before.push((event, now)) + after).finished,
        events_of(m, before.push((event, now)) + after) == events_of(
            m,
            before.push((event, now)),
        ),
        events_of(m, before.push((event, now)) + after).len() > 0,
        events_of(m, before.push((event, now)) + after).last() == closed_notice(),
        terminal_count(events_of(m, before.push((event, now)) + after)) == 1,
{
    let upto = before.push((event, now));
    assert(upto.drop_last() =~= before);
    lemma_run_split(m, upto, after);
    law_finished_stream_is_silent(state_after(m, upto), after);
    if m.finished {
        law_finished_stream_is_silent(m, before);
    }
    law_terminal_event_is_last(m, before);
    let t = step(state_after(m, before), event, now);
    lemma_counts_concat(events_of(m, before), t.events);
    lemma_counts_small(t.events);
}

proof fn lemma_step_keeps_bytes(m: StreamModel, event: ReadEvent, now: u64)
    requires
        !m.finished,
    ensures
        output_bytes(step(m, event, now).events) + step(m, event, now).next.buffer == m.buffer
            + crate::stream::bytes_read(event),
        step(m, event, now).next.finished ==> step(m, event, now).next.buffer.len() == 0,
{
    let t = step(m, event, now);
    lemma_counts_small(t.events);
}

/// Nothing is lost, doubled or reordered: what a run has delivered as
/// output, followed by what is still buffered, is what was buffered at the
/// start followed by what the reads gave. A stream that has ended holds
/// nothing back.
pub proof fn law_output_is_what_was_read(m: StreamModel, ticks: Seq<(ReadEvent, u64)>)
    requires
        !m.finished,
    ensures
        output_bytes(events_of(m, ticks)) + state_after(m, ticks).buffer == m.buffer
            + accepted_bytes(m, ticks),
        state_after(m, ticks).finished ==> state_after(m, ticks).buffer.len() == 0,
    decreases ticks.len(),
{
    if ticks.len() == 0 {
        assert(output_bytes(events_of(m, ticks)) + m.buffer =~= m.buffer + accepted_bytes(
            m,
            ticks,
        ));
    } else {
        let front = ticks.drop_last();
        law_output_is_what_was_read(m, front);
        let before = state_after(m, front);
        let earlier = events_of(m, front);
        let t = step(before, ticks.last().0, ticks.last().1);
        lemma_counts_concat(earlier, t.events);
        if !before.finished {
            lemma_step_keeps_bytes(before, ticks.last().0, ticks.last().1);
            let read = crate::stream::bytes_read(ticks.last().0);
            let out_earlier = output_bytes(earlier);
            let out_step = output_bytes(t.events);
            let taken = accepted_bytes(m, front);
            assert((out_earlier + out_step) + t.next.buffer =~= out_earlier + (out_step
                + t.next.buffer));
            assert((m.buffer + taken) + read =~= m.buffer + (taken + read));
        }
    }
}

/// The latency and the memory of a live stream are bounded: after every step
/// that leaves it live, fewer bytes than the threshold are buffered, and
/// where any are, less than the interval has passed since the last delivery.
pub proof fn law_buffer_is_bounded(m: StreamModel, event: ReadEvent, now: u64)
    requires
        !m.finished,
        !step(m, event, now).next.finished,
    ensures
        step(m, event, now).next.buffer.len() < MAX_BUFFER_SIZE,
        step(m, event, now).next.buffer.len() > 0 ==> elapsed(
            now,
            step(m, event, now).next.last_emit_ms,
        ) < EMIT_INTERVAL_MS,
{
}

spec fn delivers_live(m: StreamModel, event: ReadEvent, now: u64) -> bool {
    !m.finished && !step(m, event, now).next.finished && step(m, event, now).events.len() > 0
}

spec fn timed_outputs(m: StreamModel, ticks: Seq<(ReadEvent, u64)>) -> nat
    decreases ticks.len(),
{
    if ticks.len() == 0 {
        0
    } else {
        let before = state_after(m, ticks.drop_last());
        timed_outputs(m, ticks.drop_last()) + if delivers_live(
            before,
            ticks.last().0,
            ticks.last().1,
        ) && elapsed(ticks.last().1, before.last_emit_ms) >= EMIT_INTERVAL_MS {
            1nat
        } else {
            0nat
        }
    }
}

spec fn sized_outputs(m: StreamModel, ticks: Seq<(ReadEvent, u64)>) -> nat
    decreases ticks.len(),
{
    if ticks.len() == 0 {
        0
    } else {
        let before = state_after(m, ticks.drop_last());
        sized_outputs(m, ticks.drop_last()) + if delivers_live(
            before,
            ticks.last().0,
            ticks.last().1,
        ) && elapsed(ticks.last().1, before.last_emit_ms) < EMIT_INTERVAL_MS {
            1nat
        } else {
            0nat
        }
    }
}

proof fn lemma_batched(m: StreamModel, ticks: Seq<(ReadEvent, u64)>)
    requires
        !m.finished,
        clock_ordered(m.last_emit_ms, ticks),
    ensures
        m.last_emit_ms <= state_after(m, ticks).last_emit_ms <= end_time(m.last_emit_ms, ticks),
        16 * timed_outputs(m, ticks) <= state_after(m, ticks).last_emit_ms - m.last_emit_ms,
        4096 * sized_outputs(m, ticks) <= output_bytes(events_of(m, ticks)).len(),
        output_count(events_of(m, ticks)) <= timed_outputs(m, ticks) + sized_outputs(m, ticks)
            + if state_after(m, ticks).finished {
            1int
        } else {
            0int
        },
    decreases ticks.len(),
{
    if ticks.len() > 0 {
        let front = ticks.drop_last();
        assert(clock_ordered(m.last_emit_ms, front)) by {
            assert forall|i: int| 0 <= i < front.len() implies front[i] == ticks[i] by {}
        }
        lemma_batched(m, front);
        let before = state_after(m, front);
        let now = ticks.last().1;
        assert(now >= end_time(m.last_emit_ms, front)) by {
            assert(ticks[ticks.len() - 1].1 == now);
        }
        let t = step(before, ticks.last().0, now);
        lemma_counts_concat(events_of(m, front), t.events);
        if !before.finished {
            lemma_counts_small(t.events);
        }
    }
}

/// Output is batched: under a clock that never runs backwards, the number of
/// output notifications of a run is bounded by the time that the run took
/// and the bytes that it delivered, however many reads there were. There is
/// at most one output for every full interval that has passed, one for
/// every full threshold of bytes delivered, and one more when the stream
/// ends.
pub proof fn law_outputs_are_batched(m: StreamModel, ticks: Seq<(ReadEvent, u64)>)
    requires
        !m.finished,
        clock_ordered(m.last_emit_ms, ticks),
    ensures
        end_time(m.last_emit_ms, ticks) >= m.last_emit_ms,
        output_count(events_of(m, ticks)) <= (end_time(m.last_emit_ms, ticks) - m.last_emit_ms)
            / (EMIT_INTERVAL_MS as int) + output_bytes(events_of(m, ticks)).len() / (
        MAX_BUFFER_SIZE as nat) + 1,
{
    lemma_batched(m, ticks);
    let span = end_time(m.last_emit_ms, ticks) - m.last_emit_ms;
    let bytes = output_bytes(events_of(m, ticks)).len();
    let timed = timed_outputs(m, ticks);
    let sized = sized_outputs(m, ticks);
    assert(timed <= span / 16) by (nonlinear_arith)
        requires
            16 * timed <= span,
    ;
    assert(sized <= bytes / 4096) by (nonlinear_arith)
        requires
            4096 * sized <= bytes,
    ;
}

} // verus!
