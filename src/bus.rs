use vstd::prelude::*;

use crate::events::{reason_text, Event, EventResult};

verus! {

/// A receiver of events of type `E`. It may change the event, and cancel it.
pub trait Subscriber<E> {
    /// What one notification did to the event: `before` became `after`.
    spec fn notified(&self, before: E, after: E) -> bool;

    fn notify(&self, event: &mut E)
        ensures
            self.notified(*old(event), *final(event)),
    ;
}

/// Subscriber `j` turned `trace[j]` into `trace[j + 1]`.
pub open spec fn step_ok<E, S: Subscriber<E>>(subs: Seq<S>, trace: Seq<E>, j: int) -> bool {
    subs[j].notified(trace[j], trace[j + 1])
}

/// `trace` is the event as each subscriber in turn received it, followed by
/// the event after the last one that ran: subscriber `j` turned `trace[j]` into
/// `trace[j + 1]`, in registration order; none but the last left it cancelled;
/// at least one ran, if there is one; and every subscriber ran unless the last
/// one that ran cancelled.
pub open spec fn dispatch_chain<E: Event, S: Subscriber<E>>(
    subs: Seq<S>,
    start: E,
    trace: Seq<E>,
    end: E,
) -> bool {
    &&& 1 <= trace.len() <= subs.len() + 1
    &&& subs.len() > 0 ==> trace.len() >= 2
    &&& trace[0] == start
    &&& trace.last() == end
    &&& forall|j: int| 0 <= j < trace.len() - 1 ==> #[trigger] step_ok(subs, trace, j)
    &&& forall|j: int| 1 <= j < trace.len() - 1 ==> !(#[trigger] trace[j]).is_cancelled()
    &&& trace.len() < subs.len() + 1 ==> end.is_cancelled()
}

/// The result reported for a dispatch to `n` subscribers that left `end`.
pub open spec fn outcome_matches<E: Event>(r: EventResult, n: nat, end: E) -> bool {
    if n == 0 || !end.is_cancelled() {
        r.is_passed()
    } else {
        !r.is_passed() && r.cancel_reason() == Some(reason_text(end.reason()))
    }
}

/// A dispatch of `start` to `subs` ended with `end` and reported `r`.
pub open spec fn dispatched<E: Event, S: Subscriber<E>>(subs: Seq<S>, start: E, end: E, r: EventResult) -> bool {
    &&& exists|trace: Seq<E>| #[trigger] dispatch_chain(subs, start, trace, end)
    &&& outcome_matches(r, subs.len(), end)
}

/// The decision taken after each notification: go on while the event is not
/// cancelled, else stop and report the cancellation with its reason.
pub fn dispatch_outcome<E: Event>(event: &E) -> (r: Option<EventResult>)
    ensures
        match r {
            None => !event.is_cancelled(),
            Some(res) => event.is_cancelled() && !res.is_passed() && res.cancel_reason() == Some(
                reason_text(event.reason()),
            ),
        },
{
    if event.cancelled() {
        let reason = match event.get_cancelled_reason() {
            Some(s) => s,
            None => String::new(),
        };
        Some(EventResult::EvCancelled(reason))
    } else {
        None
    }
}

/// A named channel that delivers events to its subscribers in the order in which
/// they subscribed.
pub struct EventBus<S> {
    pub topic: String,
    pub subscribers: Vec<S>,
}

impl<S> EventBus<S> {
    pub fn new(topic: String) -> (r: Self)
        ensures
            r.topic@ == topic@,
            r.subscribers@.len() == 0,
    {
        EventBus { topic, subscribers: Vec::new() }
    }

    /// Appends a subscriber after those already registered.
    pub fn subscribe(&mut self, subscriber: S)
        ensures
            final(self).topic@ == old(self).topic@,
            final(self).subscribers@ == old(self).subscribers@.push(subscriber),
    {
        self.subscribers.push(subscriber);
    }

    pub fn subscriber_count(&self) -> (r: usize)
        ensures
            r == self.subscribers@.len(),
    {
        self.subscribers.len()
    }

    /// Hands the event to each subscriber once, in registration order. After
    /// each one the event is checked: once it is cancelled, no further
    /// subscriber sees it and the reason is reported. With no subscriber the
    /// event passes untouched.
    pub fn dispatch<E: Event>(&self, event: &mut E) -> (r: EventResult)
        where
            S: Subscriber<E>,
        ensures
            dispatched(self.subscribers@, *old(event), *final(event), r),
            self.subscribers@.len() == 0 ==> r.is_passed() && *final(event) == *old(event),
    {
        let ghost subs = self.subscribers@;
        let ghost mut trace: Seq<E> = seq![*event];
        let n = self.subscribers.len();
        let mut i: usize = 0;
        while i < n
            invariant
                subs == self.subscribers@,
                n == subs.len(),
                i <= n,
                trace.len() == i + 1,
                trace[0] == *old(event),
                trace.last() == *event,
                forall|j: int| 0 <= j < i ==> #[trigger] step_ok(subs, trace, j),
                forall|j: int| 1 <= j <= i ==> !(#[trigger] trace[j]).is_cancelled(),
            decreases n - i,
        {
            self.subscribers[i].notify(event);
            proof {
                let t0 = trace;
                trace = trace.push(*event);
                assert forall|j: int| 0 <= j < i + 1 implies #[trigger] step_ok(subs, trace, j) by {
                    if j < i {
                        assert(step_ok(subs, t0, j));
                        assert(trace[j] == t0[j] && trace[j + 1] == t0[j + 1]);
                    }
                }
            }
            match dispatch_outcome(event) {
                Some(res) => {
                    proof {
                        assert(dispatch_chain(subs, *old(event), trace, *event));
                    }
                    return res;
                },
                None => {},
            }
            i = i + 1;
        }
        proof {
            assert(dispatch_chain(subs, *old(event), trace, *event));
        }
        EventResult::EvPassed
    }
}

/// A dispatch reaches every subscriber when none of them ever cancels an
/// uncancelled event, and it then passes.
pub proof fn lemma_no_cancel_passes<E: Event, S: Subscriber<E>>(
    subs: Seq<S>,
    start: E,
    trace: Seq<E>,
    end: E,
    r: EventResult,
)
    requires
        dispatch_chain(subs, start, trace, end),
        outcome_matches(r, subs.len(), end),
        !start.is_cancelled(),
        forall|j: int, a: E, b: E|
            0 <= j < subs.len() && #[trigger] subs[j].notified(a, b) && !a.is_cancelled()
                ==> !b.is_cancelled(),
    ensures
        trace.len() == subs.len() + 1,
        !end.is_cancelled(),
        r.is_passed(),
{
    let k = trace.len() - 1;
    if k > 0 {
        assert(!trace[k - 1].is_cancelled()) by {
            if k - 1 > 0 {
                assert(!trace[k - 1].is_cancelled());
            }
        }
        assert(step_ok(subs, trace, k - 1));
    }
}

/// Dispatching equal events to subscribers that each act the same on equal
/// events visits the same states and ends the same way.
pub proof fn lemma_dispatch_deterministic<E: Event, S: Subscriber<E>>(
    subs: Seq<S>,
    start: E,
    t1: Seq<E>,
    e1: E,
    t2: Seq<E>,
    e2: E,
)
    requires
        dispatch_chain(subs, start, t1, e1),
        dispatch_chain(subs, start, t2, e2),
        forall|j: int, a: E, b: E, c: E|
            #![trigger subs[j].notified(a, b), subs[j].notified(a, c)]
            0 <= j < subs.len() && subs[j].notified(a, b) && subs[j].notified(a, c) ==> b == c,
    ensures
        t1 == t2,
        e1 == e2,
{
    let m = if t1.len() <= t2.len() {
        t1.len()
    } else {
        t2.len()
    };
    assert forall|i: int| 0 <= i < m implies t1[i] == t2[i] by {
        lemma_chains_agree(subs, start, t1, e1, t2, e2, i);
    }
    if t1.len() < t2.len() {
        let k = t1.len() - 1;
        assert(t1[k] == t2[k]);
        assert(e1.is_cancelled());
        assert(k >= 1);
        assert(!t2[k].is_cancelled());
    } else if t2.len() < t1.len() {
        let k = t2.len() - 1;
        assert(t1[k] == t2[k]);
        assert(e2.is_cancelled());
        assert(k >= 1);
        assert(!t1[k].is_cancelled());
    }
    assert(t1 =~= t2);
}

proof fn lemma_chains_agree<E: Event, S: Subscriber<E>>(
    subs: Seq<S>,
    start: E,
    t1: Seq<E>,
    e1: E,
    t2: Seq<E>,
    e2: E,
    i: int,
)
    requires
        dispatch_chain(subs, start, t1, e1),
        dispatch_chain(subs, start, t2, e2),
        forall|j: int, a: E, b: E, c: E|
            #![trigger subs[j].notified(a, b), subs[j].notified(a, c)]
            0 <= j < subs.len() && subs[j].notified(a, b) && subs[j].notified(a, c) ==> b == c,
        0 <= i < t1.len(),
        i < t2.len(),
    ensures
        t1[i] == t2[i],
    decreases i,
{
    if i > 0 {
        lemma_chains_agree(subs, start, t1, e1, t2, e2, i - 1);
        assert(step_ok(subs, t1, i - 1));
        assert(step_ok(subs, t2, i - 1));
    }
}

} // verus!
