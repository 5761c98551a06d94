use crate::events::{
    fresh, is_newer, newer_than, ActionView, CloseReason, FetchError, StreamEvent, StreamState,
    StreamView,
};
use crate::pcloud_model::{Diff, DiffEntry};
use crate::request::decimal;
use vstd::prelude::*;

verus! {

/// Cursors grow strictly along the sequence.
pub open spec fn ascending(entries: Seq<DiffEntry>) -> bool {
    forall|i: int, j: int| 0 <= i < j < entries.len() ==> entries[i].diffid < entries[j].diffid
}

/// No cursor in the sequence is above `bound`.
pub open spec fn bounded_by(entries: Seq<DiffEntry>, bound: u64) -> bool {
    forall|i: int| 0 <= i < entries.len() ==> (#[trigger] entries[i]).diffid <= bound
}

/// A page as the service promises it: changes in strictly increasing cursor
/// order, none of them after the page's own high-water cursor.
pub open spec fn page_in_order(batch: Diff) -> bool {
    ascending(batch.entries@) && bounded_by(batch.entries@, batch.diffid)
}

/// The high-water cursor of a page is not below the cursor it was asked with.
pub open spec fn page_follows(cursor: Option<u64>, batch: Diff) -> bool {
    match cursor {
        Some(c) => c <= batch.diffid,
        None => true,
    }
}

/// Every page that reaches the stream while it polls is in order and follows
/// the cursor of the poll it answers.
pub open spec fn well_fed(stream: StreamView, events: Seq<StreamEvent>) -> bool {
    forall|i: int|
        0 <= i < events.len() ==> match (
            (#[trigger] stream.run(events.take(i))).state,
            events[i],
        ) {
            (StreamState::Polling { cursor }, StreamEvent::Fetched(batch)) => page_in_order(batch)
                && page_follows(cursor, batch),
            _ => true,
        }
}

/// What is kept of a sequence in cursor order is in cursor order, lies after
/// the cursor, and respects every bound the sequence respects.
pub proof fn lemma_fresh_keeps_order(entries: Seq<DiffEntry>, cursor: Option<u64>, bound: u64)
    requires
        ascending(entries),
        bounded_by(entries, bound),
    ensures
        ascending(fresh(entries, cursor)),
        bounded_by(fresh(entries, cursor), bound),
        forall|i: int|
            0 <= i < fresh(entries, cursor).len() ==> is_newer(
                #[trigger] fresh(entries, cursor)[i],
                cursor,
            ),
        entries.len() > 0 ==> bounded_by(fresh(entries, cursor), entries.last().diffid),
    decreases entries.len(),
{
    reveal(Seq::filter);
    if entries.len() > 0 {
        let front = entries.drop_last();
        lemma_fresh_keeps_order(front, cursor, bound);
        let kept = fresh(front, cursor);
        if front.len() > 0 {
            assert(front.last() == entries[entries.len() - 2]);
            assert(bounded_by(kept, front.last().diffid));
        }
        assert forall|i: int| 0 <= i < kept.len() implies (#[trigger] kept[i]).diffid
            < entries.last().diffid by {
            assert(kept[i].diffid <= front.last().diffid);
        }
        assert(fresh(entries, cursor) == if is_newer(entries.last(), cursor) {
            kept.push(entries.last())
        } else {
            kept
        });
    }
}

/// The invariant behind the ordering guarantee: what was delivered is in
/// cursor order, and whatever the stream may still deliver lies after it.
pub open spec fn ordered_so_far(state: StreamState, delivered: Seq<DiffEntry>) -> bool {
    &&& ascending(delivered)
    &&& match state {
        StreamState::Init { cursor } => delivered.len() == 0,
        StreamState::Polling { cursor } => delivered.len() > 0 ==> cursor is Some
            && delivered.last().diffid <= cursor->0,
        StreamState::Publishing { in_flight, rest, high_water } => {
            &&& delivered.len() > 0 ==> delivered.last().diffid < in_flight.diffid
            &&& ascending(seq![in_flight] + rest)
            &&& bounded_by(seq![in_flight] + rest, high_water)
        },
        StreamState::Closed { reason } => true,
    }
}

proof fn lemma_publish_keeps_order(
    stream: StreamView,
    pending: Seq<DiffEntry>,
    high_water: u64,
    delivered: Seq<DiffEntry>,
)
    requires
        ascending(delivered),
        ascending(pending),
        bounded_by(pending, high_water),
        delivered.len() > 0 ==> delivered.last().diffid <= high_water,
        delivered.len() > 0 && pending.len() > 0 ==> delivered.last().diffid < pending[0].diffid,
    ensures
        ordered_so_far(stream.publish(pending, high_water).0.state, delivered),
{
    if pending.len() > 0 {
        assert(seq![pending[0]] + pending.skip(1) =~= pending);
    }
}

proof fn lemma_step_keeps_order(stream: StreamView, event: StreamEvent, delivered: Seq<DiffEntry>)
    requires
        ordered_so_far(stream.state, delivered),
        match (stream.state, event) {
            (StreamState::Polling { cursor }, StreamEvent::Fetched(batch)) => page_in_order(batch)
                && page_follows(cursor, batch),
            _ => true,
        },
    ensures
        ordered_so_far(
            stream.next(event).state,
            match stream.delivers(event) {
                Some(entry) => delivered.push(entry),
                None => delivered,
            },
        ),
{
    match stream.state {
        StreamState::Polling { cursor } => {
            match event {
                StreamEvent::Fetched(batch) => {
                    lemma_fresh_keeps_order(batch.entries@, cursor, batch.diffid);
                    let pending = fresh(batch.entries@, cursor);
                    if pending.len() > 0 {
                        assert(is_newer(pending[0], cursor));
                    }
                    lemma_publish_keeps_order(stream, pending, batch.diffid, delivered);
                },
                _ => {},
            }
        },
        StreamState::Publishing { in_flight, rest, high_water } => {
            match event {
                StreamEvent::Enqueued => {
                    let now = delivered.push(in_flight);
                    let page = seq![in_flight] + rest;
                    assert(page[0] == in_flight);
                    assert forall|i: int, j: int| 0 <= i < j < rest.len() implies rest[i].diffid
                        < rest[j].diffid by {
                        assert(page[i + 1] == rest[i]);
                        assert(page[j + 1] == rest[j]);
                    }
                    assert forall|i: int| 0 <= i < rest.len() implies (#[trigger] rest[i]).diffid
                        <= high_water by {
                        assert(page[i + 1] == rest[i]);
                    }
                    if rest.len() > 0 {
                        assert(page[1] == rest[0]);
                    }
                    assert(ascending(now));
                    lemma_publish_keeps_order(stream, rest, high_water, now);
                },
                _ => {},
            }
        },
        _ => {},
    }
}

proof fn lemma_run_keeps_order(stream: StreamView, events: Seq<StreamEvent>)
    requires
        stream.state is Init,
        well_fed(stream, events),
    ensures
        ordered_so_far(stream.run(events).state, stream.delivered(events)),
    decreases events.len(),
{
    if events.len() > 0 {
        let front = events.drop_last();
        assert forall|i: int| 0 <= i < front.len() implies match (
            (#[trigger] stream.run(front.take(i))).state,
            front[i],
        ) {
            (StreamState::Polling { cursor }, StreamEvent::Fetched(batch)) => page_in_order(batch)
                && page_follows(cursor, batch),
            _ => true,
        } by {
            assert(front.take(i) =~= events.take(i));
            assert(front[i] == events[i]);
        }
        lemma_run_keeps_order(stream, front);
        assert(events.take(events.len() - 1) =~= front);
        assert(events[events.len() - 1] == events.last());
        lemma_step_keeps_order(stream.run(front), events.last(), stream.delivered(front));
    }
}

/// Ordering guarantee. Whatever happens to a new stream, in whatever order,
/// the changes that reach its consumer have strictly increasing cursors (so
/// none arrives twice), provided each page that answers a poll is in order
/// and does not fall behind the cursor of that poll. Pages may overlap with
/// what earlier pages held.
pub proof fn lemma_delivery_strictly_increases(stream: StreamView, events: Seq<StreamEvent>)
    requires
        stream.state is Init,
        well_fed(stream, events),
    ensures
        ascending(stream.delivered(events)),
{
    lemma_run_keeps_order(stream, events);
}

/// A page without changes still moves the cursor: the stream polls next with
/// the page's high-water cursor, and sends it as `cursor`.
pub proof fn lemma_empty_page_advances_cursor(stream: StreamView, cursor: Option<u64>, batch: Diff)
    requires
        stream.state == (StreamState::Polling { cursor }),
        batch.entries@.len() == 0,
    ensures
        stream.next(StreamEvent::Fetched(batch)).state == (StreamState::Polling {
            cursor: Some(batch.diffid),
        }),
        stream.step(StreamEvent::Fetched(batch)).1 == ActionView::Fetch(
            stream.config.spec_poll_request(Some(batch.diffid)),
        ),
        stream.config.spec_poll_request(Some(batch.diffid)).query[0] == (
            "cursor"@,
            decimal(batch.diffid as nat),
        ),
        stream.delivers(StreamEvent::Fetched(batch)) is None,
{
    reveal(Seq::filter);
    assert(fresh(batch.entries@, cursor).len() == 0);
}

/// The same holds of a page all of whose changes the consumer has seen.
pub proof fn lemma_stale_page_advances_cursor(stream: StreamView, cursor: Option<u64>, batch: Diff)
    requires
        stream.state == (StreamState::Polling { cursor }),
        forall|i: int| 0 <= i < batch.entries@.len() ==> !is_newer(batch.entries@[i], cursor),
    ensures
        stream.step(StreamEvent::Fetched(batch)) == stream.poll(Some(batch.diffid)),
{
    batch.entries@.lemma_all_neg_filter_empty(newer_than(cursor));
}

/// The driver's share of backpressure. While a change is on its way into the
/// output queue the driver asks for nothing else: until the queue reports
/// that it took the change, no event makes the driver poll or hand out a
/// further change. A full queue therefore stalls the poll loop, and the
/// driver never holds more than the rest of one page.
pub proof fn lemma_driver_waits_for_queue(stream: StreamView, event: StreamEvent)
    requires
        stream.state is Publishing,
        !(event is Enqueued),
    ensures
        stream.step(event).1 is Wait || stream.step(event).1 is Stop,
        event is ConsumerClosed || stream.next(event) == stream,
        stream.delivers(event) is None,
{
}

/// A run of `count` timeouts.
pub open spec fn timeouts(count: nat) -> Seq<StreamEvent> {
    Seq::new(count, |i: int| StreamEvent::FetchFailed(FetchError::Timeout))
}

/// Timeouts are invisible. A poll that runs out of time is repeated with the
/// very same call, the state does not change and nothing reaches the
/// consumer, however often it happens; so whatever follows the timeouts has
/// the effect it would have had without them.
pub proof fn lemma_timeouts_are_invisible(stream: StreamView, cursor: Option<u64>, count: nat)
    requires
        stream.state == (StreamState::Polling { cursor }),
    ensures
        stream.step(StreamEvent::FetchFailed(FetchError::Timeout)) == (
            stream,
            ActionView::Fetch(stream.config.spec_poll_request(cursor)),
        ),
        stream.run(timeouts(count)) == stream,
        stream.delivered(timeouts(count)).len() == 0,
    decreases count,
{
    if count > 0 {
        lemma_timeouts_are_invisible(stream, cursor, (count - 1) as nat);
        assert(timeouts(count).drop_last() =~= timeouts((count - 1) as nat));
        assert(timeouts(count).last() == StreamEvent::FetchFailed(FetchError::Timeout));
    }
}

/// The state after `first` and then `second` is the state that `second`
/// leads to from where `first` ended, and the deliveries add up.
pub proof fn lemma_run_in_two_parts(
    stream: StreamView,
    first: Seq<StreamEvent>,
    second: Seq<StreamEvent>,
)
    ensures
        stream.run(first + second) == stream.run(first).run(second),
        stream.delivered(first + second) == stream.delivered(first) + stream.run(first).delivered(
            second,
        ),
    decreases second.len(),
{
    if second.len() == 0 {
        assert(first + second =~= first);
        assert(stream.delivered(first) + Seq::<DiffEntry>::empty() =~= stream.delivered(first));
    } else {
        lemma_run_in_two_parts(stream, first, second.drop_last());
        assert((first + second).drop_last() =~= first + second.drop_last());
        assert((first + second).last() == second.last());
        let mid = stream.run(first);
        let before = mid.delivered(second.drop_last());
        match mid.run(second.drop_last()).delivers(second.last()) {
            Some(entry) => {
                assert(stream.delivered(first) + before.push(entry) =~= (stream.delivered(first)
                    + before).push(entry));
            },
            None => {},
        }
    }
}

/// Timeouts before anything else change nothing of what the consumer gets.
pub proof fn lemma_timeouts_change_no_delivery(
    stream: StreamView,
    cursor: Option<u64>,
    count: nat,
    then: Seq<StreamEvent>,
)
    requires
        stream.state == (StreamState::Polling { cursor }),
    ensures
        stream.run(timeouts(count) + then) == stream.run(then),
        stream.delivered(timeouts(count) + then) == stream.delivered(then),
{
    lemma_timeouts_are_invisible(stream, cursor, count);
    lemma_run_in_two_parts(stream, timeouts(count), then);
    assert(Seq::<DiffEntry>::empty() + stream.delivered(then) =~= stream.delivered(then));
    assert(stream.delivered(timeouts(count)) =~= Seq::<DiffEntry>::empty());
}

/// A failure other than a timeout ends a polling stream at once, with that
/// failure as the reason.
pub proof fn lemma_fatal_failure_ends_stream(
    stream: StreamView,
    cursor: Option<u64>,
    cause: crate::events::FatalCause,
)
    requires
        stream.state == (StreamState::Polling { cursor }),
    ensures
        stream.step(StreamEvent::FetchFailed(FetchError::Fatal(cause))) == stream.close(
            CloseReason::Fatal(cause),
        ),
{
}

/// An ended stream stays ended: whatever is reported to it afterwards, it
/// keeps its state and its reason, asks only to stop, never polls again and
/// delivers nothing.
pub proof fn lemma_closed_is_final(stream: StreamView, events: Seq<StreamEvent>)
    requires
        stream.state is Closed,
    ensures
        stream.run(events) == stream,
        stream.delivered(events).len() == 0,
        forall|event: StreamEvent| #[trigger] stream.step(event) == (stream, ActionView::Stop),
    decreases events.len(),
{
    if events.len() > 0 {
        lemma_closed_is_final(stream, events.drop_last());
    }
}

/// Closing is observed at the next report. In every state but the final one,
/// the report that the consumer's end is closed ends the stream as
/// `ConsumerClosed`, and nothing is delivered by it.
pub proof fn lemma_close_is_observed(stream: StreamView)
    requires
        !(stream.state is Closed),
    ensures
        stream.step(StreamEvent::ConsumerClosed) == stream.close(CloseReason::ConsumerClosed),
        stream.delivers(StreamEvent::ConsumerClosed) is None,
{
}

/// A poll in flight when the consumer closes is never published. When its
/// page arrives, the driver either tries to enqueue the first new change or
/// asks to poll again; a closed queue answers either with `ConsumerClosed`,
/// which ends the stream. Nothing of the page reaches the consumer, and no
/// event after that makes the driver poll.
pub proof fn lemma_page_after_close_is_dropped(
    stream: StreamView,
    cursor: Option<u64>,
    batch: Diff,
    later: Seq<StreamEvent>,
)
    requires
        stream.state == (StreamState::Polling { cursor }),
    ensures
        stream.step(StreamEvent::Fetched(batch)).1 is Enqueue || stream.step(
            StreamEvent::Fetched(batch),
        ).1 is Fetch,
        stream.run(seq![StreamEvent::Fetched(batch), StreamEvent::ConsumerClosed]).state == (
            StreamState::Closed { reason: CloseReason::ConsumerClosed }
        ),
        stream.delivered(
            seq![StreamEvent::Fetched(batch), StreamEvent::ConsumerClosed] + later,
        ).len() == 0,
{
    let arrived = seq![StreamEvent::Fetched(batch)];
    let both = seq![StreamEvent::Fetched(batch), StreamEvent::ConsumerClosed];
    assert(arrived.drop_last() =~= Seq::<StreamEvent>::empty());
    assert(both.drop_last() =~= arrived);
    assert(stream.run(arrived.drop_last()) == stream);
    assert(stream.run(arrived) == stream.next(StreamEvent::Fetched(batch)));
    assert(stream.delivered(arrived.drop_last()).len() == 0);
    assert(stream.delivered(arrived).len() == 0);
    assert(stream.delivered(both).len() == 0);
    lemma_closed_is_final(stream.run(both), later);
    lemma_run_in_two_parts(stream, both, later);
}

/// How many changes the driver handed out to be enqueued during a sequence of events.
pub open spec fn attempted(stream: StreamView, events: Seq<StreamEvent>) -> nat
    decreases events.len(),
{
    if events.len() == 0 {
        0
    } else {
        let before = attempted(stream, events.drop_last());
        if stream.run(events.drop_last()).step(events.last()).1 is Enqueue {
            before + 1
        } else {
            before
        }
    }
}

/// The driver never runs ahead of the output queue. Over any sequence of
/// events it has handed out at most one change more than the queue has
/// taken, and while it polls (or before it started) it has handed out
/// none that the queue did not take. So a queue that takes nothing more
/// keeps the driver from taking anything more out of its page, and from
/// asking the service for another page.
pub proof fn lemma_at_most_one_in_flight(stream: StreamView, events: Seq<StreamEvent>)
    requires
        stream.state is Init,
    ensures
        stream.delivered(events).len() <= attempted(stream, events) <= stream.delivered(
            events,
        ).len() + 1,
        stream.run(events).state is Publishing ==> attempted(stream, events) == stream.delivered(
            events,
        ).len() + 1,
        stream.run(events).state is Polling || stream.run(events).state is Init ==> attempted(
            stream,
            events,
        ) == stream.delivered(events).len(),
    decreases events.len(),
{
    if events.len() > 0 {
        lemma_at_most_one_in_flight(stream, events.drop_last());
    }
}

/// A run of `count` reports that the queue took a change.
pub open spec fn taken(count: nat) -> Seq<StreamEvent> {
    Seq::new(count, |i: int| StreamEvent::Enqueued)
}

proof fn lemma_rest_is_published(
    stream: StreamView,
    in_flight: DiffEntry,
    rest: Seq<DiffEntry>,
    high_water: u64,
)
    requires
        stream.state == (StreamState::Publishing { in_flight, rest, high_water }),
    ensures
        stream.run(taken(rest.len() + 1)) == stream.at(
            StreamState::Polling { cursor: Some(high_water) },
        ),
        stream.delivered(taken(rest.len() + 1)) == seq![in_flight] + rest,
    decreases rest.len(),
{
    let one = taken(1);
    assert(one.drop_last() =~= Seq::<StreamEvent>::empty());
    assert(one.last() == StreamEvent::Enqueued);
    assert(stream.run(one.drop_last()) == stream);
    assert(stream.delivered(one.drop_last()) =~= Seq::<DiffEntry>::empty());
    assert(stream.run(one) == stream.next(StreamEvent::Enqueued));
    assert(stream.delivered(one) =~= seq![in_flight]);
    if rest.len() == 0 {
        assert(seq![in_flight] + rest =~= seq![in_flight]);
    } else {
        let then = stream.next(StreamEvent::Enqueued);
        lemma_rest_is_published(then, rest[0], rest.skip(1), high_water);
        assert(rest.skip(1).len() + 1 == rest.len());
        assert(taken(rest.len() + 1) =~= one + taken(rest.len()));
        lemma_run_in_two_parts(stream, one, taken(rest.len()));
        assert(seq![in_flight] + (seq![rest[0]] + rest.skip(1)) =~= seq![in_flight] + rest);
    }
}

/// No loss. When the queue takes whatever it is offered, a page that
/// answers a poll is published in full: exactly the changes of the page
/// that lie after the cursor of the poll reach the consumer, in the order
/// of the page, and the stream then polls again with the page's
/// high-water cursor.
pub proof fn lemma_page_is_published_in_full(
    stream: StreamView,
    cursor: Option<u64>,
    batch: Diff,
)
    requires
        stream.state == (StreamState::Polling { cursor }),
    ensures
        ({
            let published = fresh(batch.entries@, cursor);
            let events = seq![StreamEvent::Fetched(batch)] + taken(published.len());
            &&& stream.delivered(events) == published
            &&& stream.run(events) == stream.at(
                StreamState::Polling { cursor: Some(batch.diffid) },
            )
        }),
{
    let published = fresh(batch.entries@, cursor);
    let arrived = seq![StreamEvent::Fetched(batch)];
    assert(arrived.drop_last() =~= Seq::<StreamEvent>::empty());
    assert(arrived.last() == StreamEvent::Fetched(batch));
    assert(stream.run(arrived.drop_last()) == stream);
    assert(stream.delivered(arrived.drop_last()) =~= Seq::<DiffEntry>::empty());
    assert(stream.run(arrived) == stream.next(StreamEvent::Fetched(batch)));
    assert(stream.delivered(arrived) =~= Seq::<DiffEntry>::empty());
    lemma_run_in_two_parts(stream, arrived, taken(published.len()));
    if published.len() == 0 {
        assert(taken(0) =~= Seq::<StreamEvent>::empty());
        assert(stream.delivered(arrived) + Seq::<DiffEntry>::empty() =~= published);
    } else {
        let then = stream.run(arrived);
        lemma_rest_is_published(then, published[0], published.skip(1), batch.diffid);
        assert(published.skip(1).len() + 1 == published.len());
        assert(seq![published[0]] + published.skip(1) =~= published);
        assert(Seq::<DiffEntry>::empty() + published =~= published);
    }
}

} // verus!
