//! What holds of every stream, however it is driven.

use vstd::prelude::*;
use crate::stream::{capacity, Action, Event, Progress, Streamer, CHUNK_LIMIT};

verus! {

/// The stream that `p` has become after the events of `events`, in order.
pub open spec fn run(p: Progress, events: Seq<Event>) -> Progress
    decreases events.len(),
{
    if events.len() == 0 {
        p
    } else {
        run(p, events.drop_last()).after(events.last())
    }
}

/// The bytes that went into the sink in the course of `events`: the lengths
/// of the chunks whose writing was due and was reported as done.
pub open spec fn delivered(p: Progress, events: Seq<Event>) -> nat
    decreases events.len(),
{
    if events.len() == 0 {
        0
    } else {
        let earlier = delivered(p, events.drop_last());
        match (run(p, events.drop_last()).next(), events.last()) {
            (Action::Write { len }, Event::Written) => earlier + len as nat,
            _ => earlier,
        }
    }
}

/// No event makes a well-formed stream ill formed, or changes the number of
/// bytes asked for.
pub proof fn after_keeps_wf(p: Progress, event: Event)
    requires
        p.wf(),
    ensures
        p.after(event).wf(),
        p.after(event).total == p.total,
{
}

/// Bounded memory: whatever the number of bytes asked for, the buffer holds
/// at most [`CHUNK_LIMIT`] bytes, and no chunk is larger than the buffer or
/// than what remains to be written. No chunk is empty.
pub proof fn chunks_are_bounded(p: Progress)
    requires
        p.wf(),
    ensures
        capacity(p.total) <= CHUNK_LIMIT,
        capacity(p.total) <= p.total,
        p.next() matches Action::Fill { len } ==> 0 < len <= capacity(p.total) && len
            <= p.remaining(),
        p.next() matches Action::Write { len } ==> 0 < len <= capacity(p.total) && len
            <= p.remaining(),
{
}

/// Bounded memory, of the buffer itself.
pub proof fn buffer_is_bounded(s: &Streamer)
    requires
        s.wf(),
    ensures
        s.contents().len() <= CHUNK_LIMIT,
        s.pending().len() <= CHUNK_LIMIT,
{
}

/// A stream finishes exactly when it has not failed and every byte asked
/// for has been written.
pub proof fn finish_means_all_written(p: Progress)
    requires
        p.wf(),
    ensures
        p.next() is Finish <==> p.failure is None && p.written == p.total,
{
}

/// A chunk that is filled and then written brings the stream forward by its
/// length, and leaves it ready for the next chunk or finished.
pub proof fn round_advances(p: Progress)
    requires
        p.wf(),
        p.next() is Fill,
    ensures
        ({
            let len = p.next()->Fill_len;
            let q = p.after(Event::Filled).after(Event::Written);
            &&& p.after(Event::Filled).next() == Action::Write { len }
            &&& q.written == p.written + len
            &&& q.remaining() < p.remaining()
            &&& q.next() is Fill || q.next() is Finish
        }),
{
}

/// Size fidelity: from the start and through any events whatever, the bytes
/// counted as written are the bytes that went into the sink, and a stream
/// that finishes has put exactly the number of bytes asked for into it.
pub proof fn size_fidelity(total: usize, events: Seq<Event>)
    ensures
        run(Progress::start(total), events).wf(),
        run(Progress::start(total), events).total == total,
        run(Progress::start(total), events).written == delivered(Progress::start(total), events),
        run(Progress::start(total), events).next() is Finish ==> delivered(
            Progress::start(total),
            events,
        ) == total,
    decreases events.len(),
{
    if events.len() > 0 {
        size_fidelity(total, events.drop_last());
        after_keeps_wf(run(Progress::start(total), events.drop_last()), events.last());
    }
}

/// A stream of no bytes is finished from the start: nothing is drawn and
/// nothing is written.
pub proof fn empty_stream_is_finished()
    ensures
        Progress::start(0).next() == Action::Finish,
{
}

/// A stream that fits in the buffer takes one chunk: one fill and one write
/// of all its bytes, and it is finished.
pub proof fn small_stream_takes_one_chunk(total: usize)
    requires
        0 < total <= CHUNK_LIMIT,
    ensures
        Progress::start(total).next() == (Action::Fill { len: total }),
        Progress::start(total).after(Event::Filled).next() == (Action::Write { len: total }),
        Progress::start(total).after(Event::Filled).after(Event::Written).next() == Action::Finish,
{
}

} // verus!
