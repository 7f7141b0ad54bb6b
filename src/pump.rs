use vstd::prelude::*;
use crate::delivery::DeliveryChannel;
use crate::event::EventModel;
use crate::normalize::{RawEvent, normalized, pre_handle_event};

verus! {

/// Where the blocking listen loop runs.
#[derive(PartialEq, Eq, Structural, Clone, Copy, Debug)]
pub enum CaptureMode {
    /// On a dedicated context; registration returns at once.
    Threaded,
    /// On the caller's context, blocking it for the whole capture session.
    Inline,
}

/// The capture mode for the caller's optional choice; threaded unless the
/// caller asks for inline capture.
pub fn capture_mode(is_thread_safe: Option<bool>) -> (r: CaptureMode)
    ensures
        r == (if is_thread_safe == Some(false) {
            CaptureMode::Inline
        } else {
            CaptureMode::Threaded
        }),
{
    match is_thread_safe {
        Some(false) => CaptureMode::Inline,
        _ => CaptureMode::Threaded,
    }
}

/// What the consumer is owed for a run of raw events: their normalized forms,
/// one each, in capture order.
pub open spec fn normalized_run(events: Seq<RawEvent>) -> Seq<Option<EventModel>> {
    events.map_values(|e: RawEvent| Some(normalized(e)))
}

/// Handles one raw event from the listen loop: normalizes it and delivers
/// the result without waiting for the consumer.
pub fn pump_event(channel: &mut DeliveryChannel, event: RawEvent)
    ensures
        final(channel)@.open == old(channel)@.open,
        old(channel)@.open ==> final(channel)@.pending == old(channel)@.pending.push(
            Some(normalized(event)),
        ),
        !old(channel)@.open ==> final(channel)@.pending == old(channel)@.pending,
{
    let outcome = pre_handle_event(event);
    channel.deliver(outcome);
}

/// Feeds a run of raw events through the pipeline in order. With the
/// consumer attached, it then finds one normalized event per raw event,
/// after what was already waiting, in capture order.
pub fn pump_all(channel: &mut DeliveryChannel, events: Vec<RawEvent>)
    ensures
        final(channel)@.open == old(channel)@.open,
        old(channel)@.open ==> final(channel)@.pending == old(channel)@.pending + normalized_run(
            events@,
        ),
        !old(channel)@.open ==> final(channel)@.pending == old(channel)@.pending,
{
    let ghost all = events@;
    let ghost start = channel@.pending;
    let mut rest = events;
    let ghost mut done: int = 0;
    while rest.len() > 0
        invariant
            0 <= done <= all.len(),
            rest@ == all.subrange(done, all.len() as int),
            channel@.open == old(channel)@.open,
            channel@.open ==> channel@.pending == start + normalized_run(all.subrange(0, done)),
            !channel@.open ==> channel@.pending == start,
        decreases rest.len(),
    {
        let e = rest.remove(0);
        pump_event(channel, e);
        proof {
            assert(all.subrange(0, done + 1) =~= all.subrange(0, done).push(e));
            assert(normalized_run(all.subrange(0, done + 1)) =~= normalized_run(
                all.subrange(0, done),
            ).push(Some(normalized(e))));
            done = done + 1;
            assert(rest@ =~= all.subrange(done, all.len() as int));
        }
    }
    assert(all.subrange(0, done) =~= all);
}

} // verus!
