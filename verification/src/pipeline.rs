//! Admission control for requests to the site: a bounded first-in-first-out
//! queue, a cap on the requests under way at once, and a budget of admissions
//! per window of time.
//!
//! The pipeline sends nothing and never sleeps. A caller takes a ticket with
//! `submit`, asks with `poll` whether its request may start now, sends it when
//! told to, and reports with `complete` when the reply is in. Time is a count
//! of milliseconds from a clock that does not run backwards.

use crate::config::RateLimit;
use std::collections::VecDeque;
use vstd::prelude::*;

verus! {

/// The limits do not allow any request at all: one of them is zero.
#[derive(Debug, Clone, Copy, PartialEq, Eq, Structural)]
pub struct InvalidLimits;

/// The answer to a caller that asks whether its request may start.
#[derive(Debug, Clone, Copy, PartialEq, Eq, Structural)]
pub enum Admission {
    /// The request is admitted: send it now, then report its completion.
    Start,
    /// Requests submitted earlier are still waiting.
    Queued,
    /// As many requests as may run at once are under way.
    Busy,
    /// The window's budget is spent; ask again at the instant `until`.
    Throttled { until: u64 },
    /// The ticket is not waiting: it was never issued, or has started.
    Unknown,
}

/// Mathematical value of a `RequestPipeline`.
pub struct PipelineView {
    /// Most tickets that may wait at once.
    pub queue_depth: nat,
    /// Most requests that may be under way at once.
    pub concurrency_cap: nat,
    /// Most admissions per window.
    pub rate_count: nat,
    /// Length of a window, in milliseconds.
    pub window_millis: nat,
    /// Tickets that wait, oldest first.
    pub waiting: Seq<u64>,
    /// Tickets whose requests are under way.
    pub in_flight: Seq<u64>,
    /// The next ticket to issue.
    pub next_ticket: nat,
    /// Instant at which the current window ends.
    pub window_end: nat,
    /// Admissions in the current window.
    pub admitted: nat,
}

/// The instant `millis` after `now`, held to the range of the clock.
pub open spec fn instant_after(now: u64, millis: nat) -> nat {
    if now + millis > u64::MAX {
        u64::MAX as nat
    } else {
        (now + millis) as nat
    }
}

impl PipelineView {
    /// What holds of every pipeline at every time: the limits are positive,
    /// no more tickets wait than the queue takes, no more requests are under
    /// way than may run at once, no more were admitted in the current window
    /// than its budget, and the tickets are distinct and in order of issue.
    pub open spec fn wf(self) -> bool {
        &&& self.queue_depth >= 1
        &&& self.concurrency_cap >= 1
        &&& self.rate_count >= 1
        &&& self.window_millis >= 1
        &&& self.waiting.len() <= self.queue_depth
        &&& self.in_flight.len() <= self.concurrency_cap
        &&& self.admitted <= self.rate_count
        &&& self.next_ticket <= u64::MAX
        &&& self.window_end <= u64::MAX
        &&& forall|i: int| 0 <= i < self.waiting.len() ==> (#[trigger] self.waiting[i]) < self.next_ticket
        &&& forall|i: int, j: int|
            0 <= i < j < self.waiting.len() ==> (#[trigger] self.waiting[i]) < (
            #[trigger] self.waiting[j])
        &&& forall|i: int, j: int|
            0 <= i < self.in_flight.len() && 0 <= j < self.waiting.len() ==> (
            #[trigger] self.in_flight[i]) < (#[trigger] self.waiting[j])
        &&& forall|i: int| 0 <= i < self.in_flight.len() ==> (#[trigger] self.in_flight[i]) < self.next_ticket
        &&& forall|i: int, j: int|
            0 <= i < j < self.in_flight.len() ==> (#[trigger] self.in_flight[i]) != (
            #[trigger] self.in_flight[j])
    }

    /// A fresh pipeline with the given limits.
    pub open spec fn fresh(queue_depth: nat, concurrency_cap: nat, rate_count: nat, window_millis: nat) -> PipelineView {
        PipelineView {
            queue_depth,
            concurrency_cap,
            rate_count,
            window_millis,
            waiting: Seq::empty(),
            in_flight: Seq::empty(),
            next_ticket: 0,
            window_end: 0,
            admitted: 0,
        }
    }

    /// A ticket can be issued: the queue has room.
    pub open spec fn has_room(self) -> bool {
        self.waiting.len() < self.queue_depth && self.next_ticket < u64::MAX
    }

    /// The pipeline after a request was submitted, and the ticket issued for
    /// it, if the queue had room.
    pub open spec fn submitted(self) -> (PipelineView, Option<u64>) {
        if self.has_room() {
            (
                PipelineView {
                    waiting: self.waiting.push(self.next_ticket as u64),
                    next_ticket: (self.next_ticket + 1) as nat,
                    ..self
                },
                Some(self.next_ticket as u64),
            )
        } else {
            (self, None)
        }
    }

    /// The pipeline after the holder of `ticket` asked at the instant `now`
    /// whether its request may start, and the answer it got.
    ///
    /// A request starts when it is the oldest that waits, fewer requests are
    /// under way than may run at once, and the window has budget left. A
    /// window that has ended is replaced by one that begins at `now`.
    pub open spec fn polled(self, ticket: u64, now: u64) -> (PipelineView, Admission) {
        if !self.waiting.contains(ticket) {
            (self, Admission::Unknown)
        } else if self.waiting[0] != ticket {
            (self, Admission::Queued)
        } else if self.in_flight.len() >= self.concurrency_cap {
            (self, Admission::Busy)
        } else if now >= self.window_end {
            (
                PipelineView {
                    waiting: self.waiting.drop_first(),
                    in_flight: self.in_flight.push(ticket),
                    window_end: instant_after(now, self.window_millis),
                    admitted: 1,
                    ..self
                },
                Admission::Start,
            )
        } else if self.admitted < self.rate_count {
            (
                PipelineView {
                    waiting: self.waiting.drop_first(),
                    in_flight: self.in_flight.push(ticket),
                    admitted: (self.admitted + 1) as nat,
                    ..self
                },
                Admission::Start,
            )
        } else {
            (self, Admission::Throttled { until: self.window_end as u64 })
        }
    }

    /// The pipeline after the request of `ticket` was reported complete. A
    /// ticket that is not under way changes nothing.
    pub open spec fn completed(self, ticket: u64) -> PipelineView {
        if self.in_flight.contains(ticket) {
            PipelineView { in_flight: self.in_flight.remove(self.in_flight.index_of(ticket)), ..self }
        } else {
            self
        }
    }
}

/// What a caller may do to a pipeline.
pub enum Event {
    Submit,
    Poll { ticket: u64, now: u64 },
    Complete { ticket: u64 },
}

/// The pipeline after one event.
pub open spec fn after_event(p: PipelineView, e: Event) -> PipelineView {
    match e {
        Event::Submit => p.submitted().0,
        Event::Poll { ticket, now } => p.polled(ticket, now).0,
        Event::Complete { ticket } => p.completed(ticket),
    }
}

/// The pipeline after a sequence of events.
pub open spec fn after_events(p: PipelineView, events: Seq<Event>) -> PipelineView
    decreases events.len(),
{
    if events.len() == 0 {
        p
    } else {
        after_event(after_events(p, events.drop_last()), events.last())
    }
}

/// An event leaves a well-formed pipeline well-formed.
pub proof fn lemma_event_keeps_wf(p: PipelineView, e: Event)
    requires
        p.wf(),
    ensures
        after_event(p, e).wf(),
{
    match e {
        Event::Submit => {},
        Event::Poll { ticket, now } => {},
        Event::Complete { ticket } => {
            if p.in_flight.contains(ticket) {
                let k = p.in_flight.index_of(ticket);
                let q = p.completed(ticket);
                assert forall|i: int| 0 <= i < q.in_flight.len() implies {
                    &&& (#[trigger] q.in_flight[i]) == p.in_flight[if i < k {
                        i
                    } else {
                        i + 1
                    }]
                } by {}
            }
        },
    }
}

/// Whatever callers do, and in whatever order, never more requests are under
/// way than may run at once, never more are admitted in a window than its
/// budget, and never more wait than the queue takes.
pub proof fn lemma_limits_always_hold(p: PipelineView, events: Seq<Event>)
    requires
        p.wf(),
    ensures
        after_events(p, events).wf(),
        after_events(p, events).in_flight.len() <= p.concurrency_cap,
        after_events(p, events).admitted <= p.rate_count,
        after_events(p, events).waiting.len() <= p.queue_depth,
    decreases events.len(),
{
    if events.len() > 0 {
        lemma_limits_always_hold(p, events.drop_last());
        lemma_limits_keep(after_events(p, events.drop_last()), events.last());
        lemma_limits_fixed(p, events.drop_last());
    }
    lemma_limits_fixed(p, events);
}

/// An event changes none of the limits, and keeps the pipeline well-formed.
proof fn lemma_limits_keep(p: PipelineView, e: Event)
    requires
        p.wf(),
    ensures
        after_event(p, e).wf(),
        after_event(p, e).queue_depth == p.queue_depth,
        after_event(p, e).concurrency_cap == p.concurrency_cap,
        after_event(p, e).rate_count == p.rate_count,
        after_event(p, e).window_millis == p.window_millis,
{
    lemma_event_keeps_wf(p, e);
}

/// Events change none of the limits.
proof fn lemma_limits_fixed(p: PipelineView, events: Seq<Event>)
    requires
        p.wf(),
    ensures
        after_events(p, events).wf(),
        after_events(p, events).queue_depth == p.queue_depth,
        after_events(p, events).concurrency_cap == p.concurrency_cap,
        after_events(p, events).rate_count == p.rate_count,
        after_events(p, events).window_millis == p.window_millis,
    decreases events.len(),
{
    if events.len() > 0 {
        lemma_limits_fixed(p, events.drop_last());
        lemma_limits_keep(after_events(p, events.drop_last()), events.last());
    }
}

/// Once a window's budget is spent, the oldest waiting request is held back
/// until the window ends, and stays in the queue meanwhile; at or after the
/// window's end it starts.
pub proof fn lemma_excess_waits_for_rollover(p: PipelineView, now: u64)
    requires
        p.wf(),
        p.waiting.len() > 0,
        p.in_flight.len() < p.concurrency_cap,
        p.admitted == p.rate_count,
    ensures
        now < p.window_end ==> p.polled(p.waiting[0], now) == (
            p,
            Admission::Throttled { until: p.window_end as u64 },
        ),
        now >= p.window_end ==> p.polled(p.waiting[0], now).1 == Admission::Start,
{
    assert(p.waiting.contains(p.waiting[0]));
}

/// Number of requests that are admitted in the course of `events`.
pub open spec fn admissions(p: PipelineView, events: Seq<Event>) -> nat
    decreases events.len(),
{
    if events.len() == 0 {
        0
    } else {
        let before = after_events(p, events.drop_last());
        let here: nat = match events.last() {
            Event::Poll { ticket, now } => if before.polled(ticket, now).1 == Admission::Start {
                1
            } else {
                0
            },
            _ => 0,
        };
        admissions(p, events.drop_last()) + here
    }
}

/// Every poll among `events` is made before the instant `end`.
pub open spec fn polls_before(events: Seq<Event>, end: nat) -> bool {
    forall|i: int|
        0 <= i < events.len() ==> ((#[trigger] events[i]) matches Event::Poll { now, .. } ==> now
            < end)
}

/// Within one window the budget is kept: as long as every poll is made
/// before the current window ends, the requests admitted, together with those
/// that the window had admitted before, number no more than the window's
/// budget, and the window stays the same.
pub proof fn lemma_window_budget(p: PipelineView, events: Seq<Event>)
    requires
        p.wf(),
        polls_before(events, p.window_end),
    ensures
        after_events(p, events).window_end == p.window_end,
        after_events(p, events).admitted == p.admitted + admissions(p, events),
        p.admitted + admissions(p, events) <= p.rate_count,
    decreases events.len(),
{
    if events.len() > 0 {
        let front = events.drop_last();
        assert(polls_before(front, p.window_end)) by {
            assert forall|i: int| 0 <= i < front.len() implies ((#[trigger] front[i]) matches Event::Poll {
                now,
                ..
            } ==> now < p.window_end) by {
                assert(front[i] == events[i]);
            }
        }
        lemma_window_budget(p, front);
        lemma_limits_fixed(p, front);
        lemma_limits_fixed(p, events);
        assert(events.last() == events[events.len() - 1]);
    }
}

/// A request is never admitted into a window whose budget is spent, and a
/// caller that is turned away leaves the pipeline as it was.
pub proof fn lemma_no_admission_over_budget(p: PipelineView, ticket: u64, now: u64)
    requires
        p.wf(),
    ensures
        p.admitted == p.rate_count && now < p.window_end ==> p.polled(ticket, now).1
            != Admission::Start,
        p.polled(ticket, now).1 != Admission::Start ==> p.polled(ticket, now).0 == p,
        p.polled(ticket, now).1 == Admission::Start ==> p.waiting.len() > 0 && ticket
            == p.waiting[0] && p.in_flight.len() < p.concurrency_cap,
{
}

/// No request is dropped: a ticket that waits goes on waiting through any
/// event, in its place behind the tickets issued before it, unless the event
/// is its own admission, after which it is under way. A ticket that is under
/// way stays so until its completion is reported.
pub proof fn lemma_tickets_are_kept(p: PipelineView, e: Event, ticket: u64)
    requires
        p.wf(),
    ensures
        p.waiting.contains(ticket) ==> after_event(p, e).waiting.contains(ticket) || (e
            == Event::Poll { ticket, now: e->now } && p.polled(ticket, e->now).1 == Admission::Start
            && after_event(p, e).in_flight.contains(ticket)),
        p.in_flight.contains(ticket) && e != (Event::Complete { ticket }) ==> after_event(
            p,
            e,
        ).in_flight.contains(ticket),
{
    let q = after_event(p, e);
    if p.waiting.contains(ticket) {
        let k = choose|k: int| 0 <= k < p.waiting.len() && p.waiting[k] == ticket;
        match e {
            Event::Submit => {
                if p.has_room() {
                    assert(q.waiting[k] == ticket);
                }
            },
            Event::Poll { ticket: t, now } => {
                if p.polled(t, now).1 == Admission::Start {
                    if k == 0 {
                        assert(q.in_flight[q.in_flight.len() - 1] == ticket);
                    } else {
                        assert(q.waiting[k - 1] == ticket);
                    }
                }
            },
            Event::Complete { ticket: t } => {},
        }
    }
    if p.in_flight.contains(ticket) {
        let k = choose|k: int| 0 <= k < p.in_flight.len() && p.in_flight[k] == ticket;
        match e {
            Event::Submit => {},
            Event::Poll { ticket: t, now } => {
                if p.polled(t, now).1 == Admission::Start {
                    assert(q.in_flight[k] == ticket);
                }
            },
            Event::Complete { ticket: t } => {
                if t != ticket && p.in_flight.contains(t) {
                    let r = p.in_flight.index_of(t);
                    if k < r {
                        assert(q.in_flight[k] == ticket);
                    } else {
                        assert(q.in_flight[k - 1] == ticket);
                    }
                }
            },
        }
    }
}

/// The single gate through which every request to the site passes.
pub struct RequestPipeline {
    queue_depth: usize,
    concurrency_cap: u64,
    rate_count: u64,
    window_millis: u64,
    waiting: VecDeque<u64>,
    in_flight: Vec<u64>,
    next_ticket: u64,
    window_end: u64,
    admitted: u64,
}

impl View for RequestPipeline {
    type V = PipelineView;

    closed spec fn view(&self) -> PipelineView {
        PipelineView {
            queue_depth: self.queue_depth as nat,
            concurrency_cap: self.concurrency_cap as nat,
            rate_count: self.rate_count as nat,
            window_millis: self.window_millis as nat,
            waiting: self.waiting@,
            in_flight: self.in_flight@,
            next_ticket: self.next_ticket as nat,
            window_end: self.window_end as nat,
            admitted: self.admitted as nat,
        }
    }
}

/// The length of a window of `seconds`, in milliseconds, held to the range of
/// the clock.
pub open spec fn window_millis_of(seconds: u64) -> nat {
    if seconds * 1000 > u64::MAX {
        u64::MAX as nat
    } else {
        (seconds * 1000) as nat
    }
}

impl RequestPipeline {
    #[verifier::type_invariant]
    spec fn inv(self) -> bool {
        self@.wf()
    }

    /// A pipeline whose queue takes `queue_depth` tickets, that lets
    /// `concurrency_cap` requests run at once, and admits `rate.count`
    /// requests per window of `rate.window_seconds`. Limits of which one is
    /// zero are refused.
    pub fn new(queue_depth: usize, concurrency_cap: u64, rate: RateLimit) -> (r: Result<
        RequestPipeline,
        InvalidLimits,
    >)
        ensures
            r is Ok <==> queue_depth >= 1 && concurrency_cap >= 1 && rate.count >= 1
                && rate.window_seconds >= 1,
            r matches Ok(p) ==> p@ == PipelineView::fresh(
                queue_depth as nat,
                concurrency_cap as nat,
                rate.count as nat,
                window_millis_of(rate.window_seconds),
            ) && p@.wf(),
    {
        if queue_depth == 0 || concurrency_cap == 0 || rate.count == 0 || rate.window_seconds == 0 {
            return Err(InvalidLimits);
        }
        let window_millis: u64 = if rate.window_seconds > u64::MAX / 1000 {
            u64::MAX
        } else {
            rate.window_seconds * 1000
        };
        Ok(
            RequestPipeline {
                queue_depth,
                concurrency_cap,
                rate_count: rate.count,
                window_millis,
                waiting: VecDeque::new(),
                in_flight: Vec::new(),
                next_ticket: 0,
                window_end: 0,
                admitted: 0,
            },
        )
    }

    /// Puts a request at the end of the queue and issues its ticket, or
    /// returns `None` and changes nothing when the queue is full (or every
    /// ticket number has been used).
    pub fn submit(&mut self) -> (r: Option<u64>)
        ensures
            (final(self)@, r) == old(self)@.submitted(),
            final(self)@.wf(),
    {
        proof {
            use_type_invariant(&*self);
        }
        if self.waiting.len() < self.queue_depth && self.next_ticket < u64::MAX {
            let ticket = self.next_ticket;
            let mut waiting: VecDeque<u64> = VecDeque::new();
            std::mem::swap(&mut waiting, &mut self.waiting);
            self.next_ticket = ticket + 1;
            waiting.push_back(ticket);
            std::mem::swap(&mut waiting, &mut self.waiting);
            assert(self@ == old(self)@.submitted().0);
            Some(ticket)
        } else {
            None
        }
    }

    /// Tells the holder of `ticket` whether its request may start at the
    /// instant `now`, and counts it as under way if it may.
    pub fn poll(&mut self, ticket: u64, now: u64) -> (r: Admission)
        ensures
            (final(self)@, r) == old(self)@.polled(ticket, now),
            final(self)@.wf(),
    {
        proof {
            use_type_invariant(&*self);
        }
        if !self.is_waiting(ticket) {
            return Admission::Unknown;
        }
        if self.waiting[0] != ticket {
            return Admission::Queued;
        }
        if self.in_flight.len() as u64 >= self.concurrency_cap {
            return Admission::Busy;
        }
        let rolled = now >= self.window_end;
        if !rolled && self.admitted >= self.rate_count {
            return Admission::Throttled { until: self.window_end };
        }
        let mut waiting: VecDeque<u64> = VecDeque::new();
        std::mem::swap(&mut waiting, &mut self.waiting);
        let head = waiting.pop_front();
        assert(head == Some(ticket));
        assert(waiting@ =~= old(self)@.waiting.drop_first());
        let mut in_flight: Vec<u64> = Vec::new();
        std::mem::swap(&mut in_flight, &mut self.in_flight);
        std::mem::swap(&mut waiting, &mut self.waiting);
        in_flight.push(ticket);
        if rolled {
            self.admitted = 1;
            self.window_end = if now > u64::MAX - self.window_millis {
                u64::MAX
            } else {
                now + self.window_millis
            };
        } else {
            self.admitted = self.admitted + 1;
        }
        std::mem::swap(&mut in_flight, &mut self.in_flight);
        assert(self@ == old(self)@.polled(ticket, now).0);
        Admission::Start
    }

    /// Takes the report that the request of `ticket` is complete. Returns
    /// whether the ticket was under way; if it was not, nothing changes.
    pub fn complete(&mut self, ticket: u64) -> (r: bool)
        ensures
            final(self)@ == old(self)@.completed(ticket),
            r == old(self)@.in_flight.contains(ticket),
            final(self)@.wf(),
    {
        proof {
            use_type_invariant(&*self);
        }
        let mut i: usize = 0;
        while i < self.in_flight.len()
            invariant
                i <= self.in_flight.len(),
                *self == *old(self),
                self@.wf(),
                forall|j: int| 0 <= j < i ==> self.in_flight@[j] != ticket,
            decreases self.in_flight.len() - i,
        {
            if self.in_flight[i] == ticket {
                proof {
                    let k = self@.in_flight.index_of(ticket);
                    assert(self@.in_flight[i as int] == ticket);
                    assert(k == i);
                    lemma_event_keeps_wf(self@, Event::Complete { ticket });
                }
                let mut in_flight: Vec<u64> = Vec::new();
                std::mem::swap(&mut in_flight, &mut self.in_flight);
                let _ = in_flight.remove(i);
                std::mem::swap(&mut in_flight, &mut self.in_flight);
                assert(self@ == old(self)@.completed(ticket));
                return true;
            }
            i += 1;
        }
        false
    }

    /// Tells whether `ticket` waits in the queue.
    pub fn is_waiting(&self, ticket: u64) -> (r: bool)
        ensures
            r == self@.waiting.contains(ticket),
    {
        let mut i: usize = 0;
        while i < self.waiting.len()
            invariant
                i <= self.waiting.len(),
                forall|j: int| 0 <= j < i ==> self.waiting@[j] != ticket,
            decreases self.waiting.len() - i,
        {
            if self.waiting[i] == ticket {
                return true;
            }
            i += 1;
        }
        false
    }

    /// Number of requests that wait.
    pub fn waiting_len(&self) -> (n: usize)
        ensures
            n == self@.waiting.len(),
    {
        self.waiting.len()
    }

    /// Number of requests under way.
    pub fn in_flight_len(&self) -> (n: usize)
        ensures
            n == self@.in_flight.len(),
            n <= self@.concurrency_cap,
    {
        proof {
            use_type_invariant(self);
        }
        self.in_flight.len()
    }
}

} // verus!
