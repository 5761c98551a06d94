use vstd::prelude::*;

verus! {

/// Capacity of the output queue of a filter stage.
pub const FILTER_QUEUE_CAPACITY: usize = 128;

/// What happened to the one thing a filter stage asked for last.
#[derive(Debug)]
pub enum FilterEvent<T> {
    /// The stage began to run.
    Started,
    /// The source handed over its next element.
    Received(T),
    /// The source is exhausted.
    SourceEnded,
    /// The output queue accepted the element that was handed out.
    Forwarded,
    /// The consumer's end of the output queue is closed.
    OutputClosed,
}

/// What a filter stage asks for next.
#[derive(Debug)]
pub enum FilterAction<T> {
    /// Take the next element from the source.
    Pull,
    /// Put this element on the output queue, waiting while the queue is full.
    Forward(T),
    /// Nothing new: the event was not the outcome of what is outstanding.
    Wait,
    /// Close the output queue and take nothing more from the source.
    Stop,
}

/// Where a filter stage stands.
#[derive(Clone, Copy, Debug, PartialEq, Eq, Structural)]
pub enum FilterState {
    /// Created, not yet running.
    Init,
    /// Waiting for the source.
    Draining,
    /// Waiting for the output queue to take an element.
    Forwarding,
    /// Ended.
    Done,
}

/// The transition function of a filter stage. `verdict` is what the
/// predicate says of the element in a `Received` event; it matters nowhere else.
///
/// * Created: `Started` begins to drain the source.
/// * Draining: an element that the predicate accepts is handed out, any
///   other is dropped and the next one pulled; the end of the source ends the stage.
/// * Forwarding: `Forwarded` goes back to draining. Until then nothing is pulled.
/// * In each of these, `OutputClosed` ends the stage, and any event not
///   named changes nothing.
/// * Ended: nothing ever changes, and the only action is `Stop`.
pub open spec fn filter_step<T>(state: FilterState, event: FilterEvent<T>, verdict: bool) -> (
    FilterState,
    FilterAction<T>,
) {
    match state {
        FilterState::Init => match event {
            FilterEvent::Started => (FilterState::Draining, FilterAction::Pull),
            FilterEvent::OutputClosed => (FilterState::Done, FilterAction::Stop),
            _ => (state, FilterAction::Wait),
        },
        FilterState::Draining => match event {
            FilterEvent::Received(item) => if verdict {
                (FilterState::Forwarding, FilterAction::Forward(item))
            } else {
                (FilterState::Draining, FilterAction::Pull)
            },
            FilterEvent::SourceEnded => (FilterState::Done, FilterAction::Stop),
            FilterEvent::OutputClosed => (FilterState::Done, FilterAction::Stop),
            _ => (state, FilterAction::Wait),
        },
        FilterState::Forwarding => match event {
            FilterEvent::Forwarded => (FilterState::Draining, FilterAction::Pull),
            FilterEvent::OutputClosed => (FilterState::Done, FilterAction::Stop),
            _ => (state, FilterAction::Wait),
        },
        FilterState::Done => (state, FilterAction::Stop),
    }
}

/// Whether `verdict` is an answer the predicate may give for the element
/// that the stage judges at this event. Where nothing is judged, any verdict will do.
pub open spec fn judged<T, P: Fn(&T) -> bool>(
    predicate: P,
    state: FilterState,
    event: FilterEvent<T>,
    verdict: bool,
) -> bool {
    match (state, event) {
        (FilterState::Draining, FilterEvent::Received(item)) => call_ensures(
            predicate,
            (&item,),
            verdict,
        ),
        _ => true,
    }
}

/// A stage that republishes the elements of a source which a predicate accepts.
pub struct FilterStage<P> {
    pub predicate: P,
    pub state: FilterState,
}

/// Creates a filter stage around `filter`. The stage holds no element and
/// no history: one element in, at most one out, in the order of the source.
pub fn filter_stream<P>(filter: P) -> (stage: FilterStage<P>)
    ensures
        stage.predicate == filter,
        stage.state == FilterState::Init,
{
    FilterStage { predicate: filter, state: FilterState::Init }
}

impl<P> FilterStage<P> {
    /// Takes the outcome of the last action and decides the next one. The
    /// predicate is asked about an element exactly when the stage is
    /// draining and the element arrives.
    pub fn step<T>(self, event: FilterEvent<T>) -> (next: (FilterStage<P>, FilterAction<T>)) where
        P: Fn(&T) -> bool,

        requires
            forall|item: &T| call_requires(self.predicate, (item,)),
        ensures
            next.0.predicate == self.predicate,
            exists|verdict: bool|
                judged(self.predicate, self.state, event, verdict) && (next.0.state, next.1)
                    == filter_step(self.state, event, verdict),
    {
        let FilterStage { predicate, state } = self;
        match state {
            FilterState::Draining => match event {
                FilterEvent::Received(item) => {
                    let verdict = predicate(&item);
                    let next = if verdict {
                        (
                            FilterStage { predicate, state: FilterState::Forwarding },
                            FilterAction::Forward(item),
                        )
                    } else {
                        (FilterStage { predicate, state: FilterState::Draining }, FilterAction::Pull)
                    };
                    assert(judged(predicate, state, event, verdict) && (next.0.state, next.1)
                        == filter_step(state, event, verdict));
                    next
                },
                FilterEvent::SourceEnded | FilterEvent::OutputClosed => {
                    let next = (
                        FilterStage { predicate, state: FilterState::Done },
                        FilterAction::Stop,
                    );
                    assert(judged(predicate, state, event, true) && (next.0.state, next.1)
                        == filter_step(state, event, true));
                    next
                },
                _ => {
                    let next = (FilterStage { predicate, state }, FilterAction::Wait);
                    assert(judged(predicate, state, event, true) && (next.0.state, next.1)
                        == filter_step(state, event, true));
                    next
                },
            },
            FilterState::Init => {
                let next = match event {
                    FilterEvent::Started => (
                        FilterStage { predicate, state: FilterState::Draining },
                        FilterAction::Pull,
                    ),
                    FilterEvent::OutputClosed => (
                        FilterStage { predicate, state: FilterState::Done },
                        FilterAction::Stop,
                    ),
                    _ => (FilterStage { predicate, state }, FilterAction::Wait),
                };
                assert(judged(predicate, state, event, true) && (next.0.state, next.1)
                    == filter_step(state, event, true));
                next
            },
            FilterState::Forwarding => {
                let next = match event {
                    FilterEvent::Forwarded => (
                        FilterStage { predicate, state: FilterState::Draining },
                        FilterAction::Pull,
                    ),
                    FilterEvent::OutputClosed => (
                        FilterStage { predicate, state: FilterState::Done },
                        FilterAction::Stop,
                    ),
                    _ => (FilterStage { predicate, state }, FilterAction::Wait),
                };
                assert(judged(predicate, state, event, true) && (next.0.state, next.1)
                    == filter_step(state, event, true));
                next
            },
            FilterState::Done => {
                let next = (FilterStage { predicate, state }, FilterAction::Stop);
                assert(judged(predicate, state, event, true) && (next.0.state, next.1)
                    == filter_step(state, event, true));
                next
            },
        }
    }

    /// Whether the stage has ended.
    pub fn is_done(&self) -> (done: bool)
        ensures
            done == (self.state == FilterState::Done),
    {
        match self.state {
            FilterState::Done => true,
            _ => false,
        }
    }
}

/// What the predicate `keep` says of the element of a `Received` event.
pub open spec fn verdict_of<T>(keep: spec_fn(T) -> bool, event: FilterEvent<T>) -> bool {
    match event {
        FilterEvent::Received(item) => keep(item),
        _ => false,
    }
}

/// The state of a stage with predicate `keep` after a sequence of events.
pub open spec fn filter_run<T>(
    state: FilterState,
    events: Seq<FilterEvent<T>>,
    keep: spec_fn(T) -> bool,
) -> FilterState
    decreases events.len(),
{
    if events.len() == 0 {
        state
    } else {
        filter_step(
            filter_run(state, events.drop_last(), keep),
            events.last(),
            verdict_of(keep, events.last()),
        ).0
    }
}

/// The elements a stage took from its source during a sequence of events:
/// those that arrived while it was draining.
pub open spec fn taken<T>(
    state: FilterState,
    events: Seq<FilterEvent<T>>,
    keep: spec_fn(T) -> bool,
) -> Seq<T>
    decreases events.len(),
{
    if events.len() == 0 {
        seq![]
    } else {
        let before = taken(state, events.drop_last(), keep);
        match (filter_run(state, events.drop_last(), keep), events.last()) {
            (FilterState::Draining, FilterEvent::Received(item)) => before.push(item),
            _ => before,
        }
    }
}

/// The elements a stage handed to its output during a sequence of events.
pub open spec fn forwarded<T>(
    state: FilterState,
    events: Seq<FilterEvent<T>>,
    keep: spec_fn(T) -> bool,
) -> Seq<T>
    decreases events.len(),
{
    if events.len() == 0 {
        seq![]
    } else {
        let before = forwarded(state, events.drop_last(), keep);
        match filter_step(
            filter_run(state, events.drop_last(), keep),
            events.last(),
            verdict_of(keep, events.last()),
        ).1 {
            FilterAction::Forward(item) => before.push(item),
            _ => before,
        }
    }
}

/// Filter correctness. Whatever happens to a stage, in whatever order, what
/// it hands to its output is exactly what the predicate accepts of what it
/// took from its source, in the same order: nothing that the predicate
/// rejects appears, nothing that it accepts is lost, nothing is repeated
/// or reordered.
pub proof fn lemma_forwarded_is_filtered<T>(
    state: FilterState,
    events: Seq<FilterEvent<T>>,
    keep: spec_fn(T) -> bool,
)
    ensures
        forwarded(state, events, keep) == taken(state, events, keep).filter(keep),
        forwarded(state, events, keep).len() <= taken(state, events, keep).len(),
    decreases events.len(),
{
    reveal(Seq::filter);
    if events.len() > 0 {
        lemma_forwarded_is_filtered(state, events.drop_last(), keep);
        let before = taken(state, events.drop_last(), keep);
        match (filter_run(state, events.drop_last(), keep), events.last()) {
            (FilterState::Draining, FilterEvent::Received(item)) => {
                assert(before.push(item).drop_last() =~= before);
            },
            _ => {},
        }
    }
}

/// The events of draining `items` into a consumer that takes everything:
/// each element arrives, and each accepted one is taken by the output.
pub open spec fn drained<T>(items: Seq<T>, keep: spec_fn(T) -> bool) -> Seq<FilterEvent<T>>
    decreases items.len(),
{
    if items.len() == 0 {
        seq![]
    } else if keep(items.last()) {
        drained(items.drop_last(), keep).push(FilterEvent::Received(items.last())).push(
            FilterEvent::Forwarded,
        )
    } else {
        drained(items.drop_last(), keep).push(FilterEvent::Received(items.last()))
    }
}

/// A stage that drains a whole source into a willing consumer takes every
/// element, hands out exactly the accepted ones in order, is ready for
/// more afterwards, and ends when the source does.
pub proof fn lemma_drained_source_is_filtered<T>(items: Seq<T>, keep: spec_fn(T) -> bool)
    ensures
        filter_run(FilterState::Draining, drained(items, keep), keep) == FilterState::Draining,
        taken(FilterState::Draining, drained(items, keep), keep) == items,
        forwarded(FilterState::Draining, drained(items, keep), keep) == items.filter(keep),
        filter_step(FilterState::Draining, FilterEvent::<T>::SourceEnded, false) == (
            FilterState::Done,
            FilterAction::<T>::Stop,
        ),
    decreases items.len(),
{
    if items.len() == 0 {
        assert(taken(FilterState::Draining, drained(items, keep), keep) =~= items);
    } else {
        let front = items.drop_last();
        lemma_drained_source_is_filtered(front, keep);
        let arrived = drained(front, keep).push(FilterEvent::Received(items.last()));
        assert(arrived.drop_last() =~= drained(front, keep));
        assert(arrived.last() == FilterEvent::Received(items.last()));
        assert(taken(FilterState::Draining, arrived, keep) =~= items);
        if keep(items.last()) {
            let all = arrived.push(FilterEvent::Forwarded);
            assert(all.drop_last() =~= arrived);
            assert(all.last() == FilterEvent::<T>::Forwarded);
            assert(filter_run(FilterState::Draining, arrived, keep) == FilterState::Forwarding);
        }
    }
    lemma_forwarded_is_filtered(FilterState::Draining, drained(items, keep), keep);
}

/// A stage whose output does not take an element pulls nothing more from
/// its source: while it is forwarding, only the report that the element was
/// taken makes it pull again.
pub proof fn lemma_stage_waits_for_output<T>(event: FilterEvent<T>, verdict: bool)
    requires
        !(event is Forwarded),
    ensures
        !(filter_step(FilterState::Forwarding, event, verdict).1 is Pull),
        !(filter_step(FilterState::Forwarding, event, verdict).1 is Forward),
{
}

/// An ended stage stays ended, and a closed output ends every stage that has not.
pub proof fn lemma_stage_end_is_final<T>(state: FilterState, event: FilterEvent<T>, verdict: bool)
    ensures
        filter_step(FilterState::Done, event, verdict) == (
            FilterState::Done,
            FilterAction::<T>::Stop,
        ),
        filter_step(state, FilterEvent::<T>::OutputClosed, verdict) == (
            FilterState::Done,
            FilterAction::<T>::Stop,
        ),
{
}

} // verus!
