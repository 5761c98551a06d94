use crate::pcloud_client::PCloudClient;
use crate::pcloud_model::{
    format_date_time_for_pcloud, pcloud_date_text, Diff, DiffEntry, PCloudResult, PCloudTime,
};
use crate::request::{flag, opt_number, opt_text, Method, Request, RequestView};
use core::time::Duration;
use std::collections::VecDeque;
use vstd::prelude::*;

verus! {

/// Capacity of the output queue of a stream for which no page limit is set:
/// the service sends about a hundred changes per page.
pub const DEFAULT_QUEUE_CAPACITY: usize = 128;

/// Configuration of the change feed: where to start, how much to ask for per
/// poll and whether the service may hold a poll open until something happens.
#[derive(Debug)]
pub struct DiffRequestBuilder {
    /// The connection the calls are made on.
    pub client: PCloudClient,
    /// Receive only changes after this cursor.
    pub diff_id: Option<u64>,
    /// Receive only changes after this date, in the service's date pattern.
    pub after: Option<String>,
    /// Receive only this many of the latest changes.
    pub last: Option<u64>,
    /// Let the service hold the call open until a change arrives. Works only with a cursor.
    pub block: bool,
    /// Time limit of a call that may block.
    pub timeout: Option<Duration>,
    /// Receive at most this many changes per call.
    pub limit: Option<u64>,
}

/// The call to `/diff` for the given settings. The cursor (as `cursor`), the
/// date (as `after`), the count (as `last`) and the page limit (as `limit`)
/// are sent where they are set. Blocking is asked for only
/// together with a cursor, and the time limit applies only to a call that was
/// configured to block. The session token, if there is one, comes last.
pub open spec fn diff_request(
    diff_id: Option<u64>,
    after: Option<Seq<char>>,
    last: Option<u64>,
    limit: Option<u64>,
    block: bool,
    timeout: Option<Duration>,
    session_token: Option<Seq<char>>,
) -> RequestView {
    RequestView {
        method: Method::Get,
        path: "/diff"@,
        query: opt_number("cursor"@, diff_id) + opt_text("after"@, after) + opt_number(
            "last"@,
            last,
        ) + opt_number("limit"@, limit) + flag("block"@, block && diff_id is Some) + opt_text(
            "auth"@,
            session_token,
        ),
        timeout: if block {
            timeout
        } else {
            None
        },
    }
}

fn build_diff_request(
    client: &PCloudClient,
    diff_id: Option<u64>,
    after: &Option<String>,
    last: Option<u64>,
    limit: Option<u64>,
    block: bool,
    timeout: Option<Duration>,
) -> (r: Request)
    ensures
        r@ == diff_request(
            diff_id,
            after.deep_view(),
            last,
            limit,
            block,
            timeout,
            client.session_token.deep_view(),
        ),
{
    let r = Request::get("/diff").opt_number("cursor", diff_id).opt_text("after", after).opt_number(
        "last",
        last,
    ).opt_number("limit", limit).flag("block", block && diff_id.is_some());
    let r = client.add_token(r);
    assert(r@.query =~= diff_request(
        diff_id,
        after.deep_view(),
        last,
        limit,
        block,
        timeout,
        client.session_token.deep_view(),
    ).query);
    if block {
        r.opt_timeout(timeout)
    } else {
        r
    }
}

impl DiffRequestBuilder {
    /// A configuration with nothing set: the whole history, no blocking.
    pub fn create(client: &PCloudClient) -> (b: DiffRequestBuilder)
        ensures
            b.client == *client,
            b.diff_id is None,
            b.after is None,
            b.last is None,
            !b.block,
            b.timeout is None,
            b.limit is None,
    {
        DiffRequestBuilder {
            client: client.clone(),
            diff_id: None,
            after: None,
            last: None,
            block: false,
            limit: None,
            timeout: None,
        }
    }

    /// Receive only changes after this cursor.
    pub fn after_diff_id(self, value: u64) -> (b: DiffRequestBuilder)
        ensures
            b == (DiffRequestBuilder { diff_id: Some(value), ..self }),
    {
        let mut b = self;
        b.diff_id = Some(value);
        b
    }

    /// Receive only changes after this date. A date that cannot be written
    /// leaves the configuration as it was; `PCloudTime::is_writable` tells
    /// beforehand.
    pub fn after(self, value: &PCloudTime) -> (b: DiffRequestBuilder)
        ensures
            b.after.deep_view() == match pcloud_date_text(*value) {
                Some(text) => Some(text),
                None => self.after.deep_view(),
            },
            b.client == self.client,
            b.diff_id == self.diff_id,
            b.last == self.last,
            b.block == self.block,
            b.timeout == self.timeout,
            b.limit == self.limit,
    {
        let mut b = self;
        match format_date_time_for_pcloud(value) {
            Some(text) => {
                b.after = Some(text);
            },
            None => {},
        }
        b
    }

    /// Receive only this many of the latest changes.
    pub fn only_last(self, value: u64) -> (b: DiffRequestBuilder)
        ensures
            b == (DiffRequestBuilder { last: Some(value), ..self }),
    {
        let mut b = self;
        b.last = Some(value);
        b
    }

    /// Let the service hold the call open until a change arrives.
    pub fn block(self, value: bool) -> (b: DiffRequestBuilder)
        ensures
            b == (DiffRequestBuilder { block: value, ..self }),
    {
        let mut b = self;
        b.block = value;
        b
    }

    /// Time limit for a call that may block.
    pub fn block_timeout(self, value: Duration) -> (b: DiffRequestBuilder)
        ensures
            b == (DiffRequestBuilder { timeout: Some(value), ..self }),
    {
        let mut b = self;
        b.timeout = Some(value);
        b
    }

    /// Receive at most this many changes per call.
    pub fn limit(self, value: u64) -> (b: DiffRequestBuilder)
        ensures
            b == (DiffRequestBuilder { limit: Some(value), ..self }),
    {
        let mut b = self;
        b.limit = Some(value);
        b
    }

    /// The one call this configuration describes.
    pub open spec fn spec_request(&self) -> RequestView {
        diff_request(
            self.diff_id,
            self.after.deep_view(),
            self.last,
            self.limit,
            self.block,
            self.timeout,
            self.client.session_token.deep_view(),
        )
    }

    /// The call a stream makes while its cursor is `cursor`: the configured
    /// call with that cursor, always blocking, and with the start date only
    /// as long as there is no cursor.
    pub open spec fn spec_poll_request(&self, cursor: Option<u64>) -> RequestView {
        diff_request(
            cursor,
            if cursor is Some {
                None
            } else {
                self.after.deep_view()
            },
            self.last,
            self.limit,
            true,
            self.timeout,
            self.client.session_token.deep_view(),
        )
    }

    /// Assembles the one call this configuration describes. However the
    /// limit is set, the service may hold back changes: to read on, call
    /// again with the cursor of the page that came back.
    pub fn get(&self) -> (r: Request)
        ensures
            r@ == self.spec_request(),
    {
        build_diff_request(
            &self.client,
            self.diff_id,
            &self.after,
            self.last,
            self.limit,
            self.block,
            self.timeout,
        )
    }

    /// What is left of the page that answered the call of this
    /// configuration: the same high-water cursor, and the changes after the
    /// configured cursor, in the order of the page.
    pub fn accept(&self, page: Diff) -> (kept: Diff)
        ensures
            kept.diffid == page.diffid,
            kept.entries@ == fresh(page.entries@, self.diff_id),
    {
        let Diff { diffid, entries } = page;
        Diff { diffid, entries: fresh_entries(entries, self.diff_id) }
    }

    /// Assembles the call a stream makes while its cursor is `cursor`.
    pub fn poll_request(&self, cursor: Option<u64>) -> (r: Request)
        ensures
            r@ == self.spec_poll_request(cursor),
    {
        if cursor.is_some() {
            build_diff_request(&self.client, cursor, &None, self.last, self.limit, true, self.timeout)
        } else {
            build_diff_request(&self.client, cursor, &self.after, self.last, self.limit, true, self.timeout)
        }
    }

    /// Capacity of the output queue of a stream with this configuration.
    pub open spec fn spec_channel_capacity(&self) -> int {
        match self.limit {
            Some(limit) => if limit <= usize::MAX {
                limit as int
            } else {
                usize::MAX as int
            },
            None => DEFAULT_QUEUE_CAPACITY as int,
        }
    }

    /// Capacity of the output queue of a stream with this configuration: the
    /// page limit, so that one full page fits, or 128 where none is set. A
    /// limit beyond the machine's word is cut to the largest word.
    pub fn channel_capacity(&self) -> (capacity: usize)
        ensures
            capacity == self.spec_channel_capacity(),
    {
        match self.limit {
            Some(limit) => {
                if limit <= usize::MAX as u64 {
                    limit as usize
                } else {
                    usize::MAX
                }
            },
            None => DEFAULT_QUEUE_CAPACITY,
        }
    }
}

/// Why a poll failed for good.
#[derive(Clone, Copy, Debug, PartialEq, Eq, Structural)]
pub enum FatalCause {
    /// The transport failed in another way than by running out of time.
    Transport,
    /// The body of the answer could not be decoded.
    Malformed,
    /// The service answered with an error code.
    Service(PCloudResult),
}

/// Failure of one poll: either worth an immediate retry, or the end of the stream.
#[derive(Clone, Copy, Debug, PartialEq, Eq, Structural)]
pub enum FetchError {
    /// The call ran out of time before the service had anything to report.
    Timeout,
    /// Anything else.
    Fatal(FatalCause),
}

/// What came back from one poll, before any judgement.
#[derive(Debug)]
pub enum FetchAnswer {
    /// A decoded page of changes.
    Batch(Diff),
    /// An error envelope with its result code.
    ServiceError(PCloudResult),
    /// A body that is neither.
    Malformed,
    /// No answer at all; `timed_out` tells whether the time limit was the reason.
    TransportError { timed_out: bool },
}

/// What a decoded body amounts to. `code` is the result code of the body, if
/// it has one, and `page` the page of changes, if the body holds one. A code
/// other than success makes the body an error envelope, whatever else it
/// holds; a code that stands for no known result, or a body without a page,
/// is malformed.
pub open spec fn spec_interpret(code: Option<u16>, page: Option<Diff>) -> FetchAnswer {
    if code is Some && code->0 != 0 {
        match PCloudResult::spec_from_code(code->0) {
            Some(result) => FetchAnswer::ServiceError(result),
            None => FetchAnswer::Malformed,
        }
    } else {
        match page {
            Some(batch) => FetchAnswer::Batch(batch),
            None => FetchAnswer::Malformed,
        }
    }
}

/// Tells what a decoded body amounts to.
pub fn interpret(code: Option<u16>, page: Option<Diff>) -> (answer: FetchAnswer)
    ensures
        answer == spec_interpret(code, page),
{
    match code {
        Some(c) => {
            if c != 0 {
                match PCloudResult::from_code(c) {
                    Some(result) => {
                        return FetchAnswer::ServiceError(result);
                    },
                    None => {
                        return FetchAnswer::Malformed;
                    },
                }
            }
        },
        None => {},
    }
    match page {
        Some(batch) => FetchAnswer::Batch(batch),
        None => FetchAnswer::Malformed,
    }
}

/// The judgement on an answer: a page is handed on, a call that ran out of
/// time is a `Timeout`, and everything else is fatal. An error envelope that
/// claims success carries no page and counts as malformed.
pub open spec fn spec_classify(answer: FetchAnswer) -> Result<Diff, FetchError> {
    match answer {
        FetchAnswer::Batch(batch) => Ok(batch),
        FetchAnswer::ServiceError(code) => if code == PCloudResult::Success {
            Err(FetchError::Fatal(FatalCause::Malformed))
        } else {
            Err(FetchError::Fatal(FatalCause::Service(code)))
        },
        FetchAnswer::Malformed => Err(FetchError::Fatal(FatalCause::Malformed)),
        FetchAnswer::TransportError { timed_out } => if timed_out {
            Err(FetchError::Timeout)
        } else {
            Err(FetchError::Fatal(FatalCause::Transport))
        },
    }
}

/// Judges what came back from one poll.
pub fn classify(answer: FetchAnswer) -> (outcome: Result<Diff, FetchError>)
    ensures
        outcome == spec_classify(answer),
{
    match answer {
        FetchAnswer::Batch(batch) => Ok(batch),
        FetchAnswer::ServiceError(code) => {
            if code.is_ok() {
                Err(FetchError::Fatal(FatalCause::Malformed))
            } else {
                Err(FetchError::Fatal(FatalCause::Service(code)))
            }
        },
        FetchAnswer::Malformed => Err(FetchError::Fatal(FatalCause::Malformed)),
        FetchAnswer::TransportError { timed_out } => {
            if timed_out {
                Err(FetchError::Timeout)
            } else {
                Err(FetchError::Fatal(FatalCause::Transport))
            }
        },
    }
}

/// Whether a change lies after the cursor. Without a cursor every change does.
pub open spec fn is_newer(entry: DiffEntry, cursor: Option<u64>) -> bool {
    match cursor {
        Some(c) => entry.diffid > c,
        None => true,
    }
}

/// `is_newer` as a predicate on changes.
pub open spec fn newer_than(cursor: Option<u64>) -> spec_fn(DiffEntry) -> bool {
    |entry: DiffEntry| is_newer(entry, cursor)
}

/// The changes of a page that a consumer has not seen yet: those after the
/// cursor the page was asked with, in the order of the page.
pub open spec fn fresh(entries: Seq<DiffEntry>, cursor: Option<u64>) -> Seq<DiffEntry> {
    entries.filter(newer_than(cursor))
}

fn retain_fresh(entries: Vec<DiffEntry>, cursor: Option<u64>) -> (kept: VecDeque<DiffEntry>)
    ensures
        kept@ == fresh(entries@, cursor),
{
    let mut kept: VecDeque<DiffEntry> = VecDeque::new();
    let ghost all = entries@;
    proof {
        reveal(Seq::filter);
    }
    for entry in it: entries
        invariant
            it.seq() == all,
            kept@ == fresh(all.take(it.index() as int), cursor),
    {
        let ghost before = all.take(it.index() as int);
        let ghost after = all.take(it.index() + 1);
        assert(after.drop_last() =~= before);
        assert(after.last() == entry);
        assert(fresh(after, cursor) == if is_newer(entry, cursor) {
            fresh(before, cursor).push(entry)
        } else {
            fresh(before, cursor)
        }) by {
            reveal(Seq::filter);
        }
        let keep = match cursor {
            Some(c) => entry.diffid > c,
            None => true,
        };
        if keep {
            kept.push_back(entry);
        }
    }
    assert(all.take(all.len() as int) =~= all);
    kept
}

/// Drops from a page every change that is not after `cursor`, the cursor the
/// page was asked with. The order of the others is kept.
pub fn fresh_entries(entries: Vec<DiffEntry>, cursor: Option<u64>) -> (kept: Vec<DiffEntry>)
    ensures
        kept@ == fresh(entries@, cursor),
{
    let mut queue = retain_fresh(entries, cursor);
    let mut kept: Vec<DiffEntry> = Vec::new();
    let ghost all = queue@;
    loop
        invariant
            kept@ + queue@ == all,
        ensures
            kept@ == all,
        decreases queue@.len(),
    {
        match queue.pop_front() {
            Some(entry) => {
                assert(kept@.push(entry) + queue@ =~= all);
                kept.push(entry);
            },
            None => {
                assert(kept@ + queue@ =~= kept@);
                break ;
            },
        }
    }
    kept
}

/// Why a stream ended.
#[derive(Clone, Copy, Debug, PartialEq, Eq, Structural)]
pub enum CloseReason {
    /// A poll failed for good.
    Fatal(FatalCause),
    /// The consumer closed its end of the output queue.
    ConsumerClosed,
}

/// What happened to the one thing the driver asked for last.
#[derive(Debug)]
pub enum StreamEvent {
    /// The driver task began to run.
    Started,
    /// The poll returned a page.
    Fetched(Diff),
    /// The poll failed.
    FetchFailed(FetchError),
    /// The output queue accepted the change that was handed out.
    Enqueued,
    /// The consumer's end of the output queue is closed.
    ConsumerClosed,
}

/// What the driver asks for next.
#[derive(Debug)]
pub enum StreamAction {
    /// Make this call, unless the consumer's end of the queue is found closed first.
    Fetch(Request),
    /// Put this change on the output queue, waiting while the queue is full.
    Enqueue(DiffEntry),
    /// Nothing new: the event was not the outcome of what is outstanding.
    Wait,
    /// Close the output queue and make no further call.
    Stop,
}

/// An action as mathematics.
pub enum ActionView {
    Fetch(RequestView),
    Enqueue(DiffEntry),
    Wait,
    Stop,
}

impl View for StreamAction {
    type V = ActionView;

    open spec fn view(&self) -> ActionView {
        match self {
            StreamAction::Fetch(r) => ActionView::Fetch(r@),
            StreamAction::Enqueue(e) => ActionView::Enqueue(*e),
            StreamAction::Wait => ActionView::Wait,
            StreamAction::Stop => ActionView::Stop,
        }
    }
}

/// Where a stream stands.
pub enum DriverState {
    /// Created, not yet running.
    Init { cursor: Option<u64> },
    /// A poll with `cursor` is outstanding.
    Polling { cursor: Option<u64> },
    /// A page is being published: `in_flight` was handed out to be enqueued,
    /// `rest` follows, and `high_water` is the cursor to resume from after it.
    Publishing { in_flight: Ghost<DiffEntry>, rest: VecDeque<DiffEntry>, high_water: u64 },
    /// Ended.
    Closed { reason: CloseReason },
}

/// A stream's state as mathematics.
pub enum StreamState {
    Init { cursor: Option<u64> },
    Polling { cursor: Option<u64> },
    Publishing { in_flight: DiffEntry, rest: Seq<DiffEntry>, high_water: u64 },
    Closed { reason: CloseReason },
}

impl View for DriverState {
    type V = StreamState;

    open spec fn view(&self) -> StreamState {
        match self {
            DriverState::Init { cursor } => StreamState::Init { cursor: *cursor },
            DriverState::Polling { cursor } => StreamState::Polling { cursor: *cursor },
            DriverState::Publishing { in_flight, rest, high_water } => StreamState::Publishing {
                in_flight: in_flight@,
                rest: rest@,
                high_water: *high_water,
            },
            DriverState::Closed { reason } => StreamState::Closed { reason: *reason },
        }
    }
}

/// The driver of one change stream: it decides, from what happened to its last
/// request, what to ask for next. It owns the cursor; whoever runs it performs
/// the actions and reports their outcomes.
pub struct EventStream {
    pub config: DiffRequestBuilder,
    pub state: DriverState,
}

/// A stream as mathematics: its configuration and its state.
pub struct StreamView {
    pub config: DiffRequestBuilder,
    pub state: StreamState,
}

impl View for EventStream {
    type V = StreamView;

    open spec fn view(&self) -> StreamView {
        StreamView { config: self.config, state: self.state@ }
    }
}

impl StreamView {
    /// The same stream in another state.
    pub open spec fn at(self, state: StreamState) -> StreamView {
        StreamView { state, ..self }
    }

    /// Polling with `cursor`, and the call that goes with it.
    pub open spec fn poll(self, cursor: Option<u64>) -> (StreamView, ActionView) {
        (
            self.at(StreamState::Polling { cursor }),
            ActionView::Fetch(self.config.spec_poll_request(cursor)),
        )
    }

    /// Ended for `reason`.
    pub open spec fn close(self, reason: CloseReason) -> (StreamView, ActionView) {
        (self.at(StreamState::Closed { reason }), ActionView::Stop)
    }

    /// Goes on with a page of which `pending` is still to be enqueued: hands
    /// out the first of them, or, when none is left, moves the cursor to the
    /// page's `high_water` and polls again.
    pub open spec fn publish(self, pending: Seq<DiffEntry>, high_water: u64) -> (
        StreamView,
        ActionView,
    ) {
        if pending.len() == 0 {
            self.poll(Some(high_water))
        } else {
            (
                self.at(
                    StreamState::Publishing {
                        in_flight: pending[0],
                        rest: pending.skip(1),
                        high_water,
                    },
                ),
                ActionView::Enqueue(pending[0]),
            )
        }
    }

    /// The transition function of the driver.
    ///
    /// * Created: `Started` begins to poll with the configured cursor.
    /// * Polling: a page is published without the changes that are not after
    ///   the cursor of the call; a timeout repeats the call unchanged; any
    ///   other failure ends the stream.
    /// * Publishing: `Enqueued` goes on with the rest of the page.
    /// * In each of these, `ConsumerClosed` ends the stream, and any other
    ///   event changes nothing.
    /// * Ended: nothing ever changes, and the only action is `Stop`.
    pub open spec fn step(self, event: StreamEvent) -> (StreamView, ActionView) {
        match self.state {
            StreamState::Init { cursor } => match event {
                StreamEvent::Started => self.poll(cursor),
                StreamEvent::ConsumerClosed => self.close(CloseReason::ConsumerClosed),
                _ => (self, ActionView::Wait),
            },
            StreamState::Polling { cursor } => match event {
                StreamEvent::Fetched(batch) => self.publish(
                    fresh(batch.entries@, cursor),
                    batch.diffid,
                ),
                StreamEvent::FetchFailed(FetchError::Timeout) => self.poll(cursor),
                StreamEvent::FetchFailed(FetchError::Fatal(cause)) => self.close(
                    CloseReason::Fatal(cause),
                ),
                StreamEvent::ConsumerClosed => self.close(CloseReason::ConsumerClosed),
                _ => (self, ActionView::Wait),
            },
            StreamState::Publishing { in_flight, rest, high_water } => match event {
                StreamEvent::Enqueued => self.publish(rest, high_water),
                StreamEvent::ConsumerClosed => self.close(CloseReason::ConsumerClosed),
                _ => (self, ActionView::Wait),
            },
            StreamState::Closed { reason } => (self, ActionView::Stop),
        }
    }

    /// The state after an event.
    pub open spec fn next(self, event: StreamEvent) -> StreamView {
        self.step(event).0
    }

    /// The change that enters the output queue by an event: the one in
    /// flight, when the queue reports that it accepted it.
    pub open spec fn delivers(self, event: StreamEvent) -> Option<DiffEntry> {
        match (self.state, event) {
            (StreamState::Publishing { in_flight, rest, high_water }, StreamEvent::Enqueued) => Some(
                in_flight,
            ),
            _ => None,
        }
    }

    /// The state after a sequence of events.
    pub open spec fn run(self, events: Seq<StreamEvent>) -> StreamView
        decreases events.len(),
    {
        if events.len() == 0 {
            self
        } else {
            self.run(events.drop_last()).next(events.last())
        }
    }

    /// The changes that entered the output queue during a sequence of events, in order.
    pub open spec fn delivered(self, events: Seq<StreamEvent>) -> Seq<DiffEntry>
        decreases events.len(),
    {
        if events.len() == 0 {
            seq![]
        } else {
            let before = self.delivered(events.drop_last());
            match self.run(events.drop_last()).delivers(events.last()) {
                Some(entry) => before.push(entry),
                None => before,
            }
        }
    }
}

impl DiffRequestBuilder {
    /// Creates the driver of a stream with this configuration. It starts
    /// from the configured cursor, if there is one, and otherwise from the
    /// configured date or count.
    pub fn stream(self) -> (driver: EventStream)
        ensures
            driver@ == (StreamView {
                config: self,
                state: StreamState::Init { cursor: self.diff_id },
            }),
    {
        let cursor = self.diff_id;
        EventStream { config: self, state: DriverState::Init { cursor } }
    }
}

impl EventStream {
    fn poll(config: DiffRequestBuilder, cursor: Option<u64>) -> (next: (EventStream, StreamAction))
        ensures
            (next.0@, next.1@) == (StreamView {
                config,
                state: StreamState::Polling { cursor },
            }).poll(cursor),
    {
        let request = config.poll_request(cursor);
        (EventStream { config, state: DriverState::Polling { cursor } }, StreamAction::Fetch(request))
    }

    fn publish(config: DiffRequestBuilder, pending: VecDeque<DiffEntry>, high_water: u64) -> (next: (
        EventStream,
        StreamAction,
    ))
        ensures
            (next.0@, next.1@) == (StreamView {
                config,
                state: StreamState::Polling { cursor: None },
            }).publish(pending@, high_water),
    {
        let mut pending = pending;
        match pending.pop_front() {
            Some(entry) => (
                EventStream {
                    config,
                    state: DriverState::Publishing {
                        in_flight: Ghost(entry),
                        rest: pending,
                        high_water,
                    },
                },
                StreamAction::Enqueue(entry),
            ),
            None => EventStream::poll(config, Some(high_water)),
        }
    }

    /// Takes the outcome of the last action and decides the next one.
    pub fn step(self, event: StreamEvent) -> (next: (EventStream, StreamAction))
        ensures
            (next.0@, next.1@) == self@.step(event),
    {
        let EventStream { config, state } = self;
        match state {
            DriverState::Init { cursor } => match event {
                StreamEvent::Started => EventStream::poll(config, cursor),
                StreamEvent::ConsumerClosed => (
                    EventStream {
                        config,
                        state: DriverState::Closed { reason: CloseReason::ConsumerClosed },
                    },
                    StreamAction::Stop,
                ),
                _ => (
                    EventStream { config, state: DriverState::Init { cursor } },
                    StreamAction::Wait,
                ),
            },
            DriverState::Polling { cursor } => match event {
                StreamEvent::Fetched(batch) => {
                    let Diff { diffid, entries } = batch;
                    let pending = retain_fresh(entries, cursor);
                    EventStream::publish(config, pending, diffid)
                },
                StreamEvent::FetchFailed(FetchError::Timeout) => EventStream::poll(config, cursor),
                StreamEvent::FetchFailed(FetchError::Fatal(cause)) => (
                    EventStream {
                        config,
                        state: DriverState::Closed { reason: CloseReason::Fatal(cause) },
                    },
                    StreamAction::Stop,
                ),
                StreamEvent::ConsumerClosed => (
                    EventStream {
                        config,
                        state: DriverState::Closed { reason: CloseReason::ConsumerClosed },
                    },
                    StreamAction::Stop,
                ),
                _ => (
                    EventStream { config, state: DriverState::Polling { cursor } },
                    StreamAction::Wait,
                ),
            },
            DriverState::Publishing { in_flight, rest, high_water } => match event {
                StreamEvent::Enqueued => EventStream::publish(config, rest, high_water),
                StreamEvent::ConsumerClosed => (
                    EventStream {
                        config,
                        state: DriverState::Closed { reason: CloseReason::ConsumerClosed },
                    },
                    StreamAction::Stop,
                ),
                _ => (
                    EventStream {
                        config,
                        state: DriverState::Publishing { in_flight, rest, high_water },
                    },
                    StreamAction::Wait,
                ),
            },
            DriverState::Closed { reason } => (
                EventStream { config, state: DriverState::Closed { reason } },
                StreamAction::Stop,
            ),
        }
    }

    /// The cursor the stream would resume from: the cursor of the
    /// outstanding poll, or the high-water cursor of the page being
    /// published. An ended stream has none.
    pub fn cursor(&self) -> (cursor: Option<u64>)
        ensures
            cursor == match self@.state {
                StreamState::Init { cursor } => cursor,
                StreamState::Polling { cursor } => cursor,
                StreamState::Publishing { in_flight, rest, high_water } => Some(high_water),
                StreamState::Closed { reason } => None,
            },
    {
        match &self.state {
            DriverState::Init { cursor } => *cursor,
            DriverState::Polling { cursor } => *cursor,
            DriverState::Publishing { in_flight, rest, high_water } => Some(*high_water),
            DriverState::Closed { reason } => None,
        }
    }

    /// Why the stream ended, once it has.
    pub fn close_reason(&self) -> (reason: Option<CloseReason>)
        ensures
            reason == match self@.state {
                StreamState::Closed { reason } => Some(reason),
                _ => None,
            },
    {
        match &self.state {
            DriverState::Closed { reason } => Some(*reason),
            _ => None,
        }
    }

    /// Whether the stream has ended.
    pub fn is_closed(&self) -> (closed: bool)
        ensures
            closed == (self@.state is Closed),
    {
        match &self.state {
            DriverState::Closed { reason } => true,
            _ => false,
        }
    }
}

impl PCloudClient {
    /// Lists the changes on the user's account.
    pub fn diff(&self) -> (b: DiffRequestBuilder)
        ensures
            b.client == *self,
            b.diff_id is None,
            b.after is None,
            b.last is None,
            !b.block,
            b.timeout is None,
            b.limit is None,
    {
        DiffRequestBuilder::create(self)
    }
}

} // verus!
