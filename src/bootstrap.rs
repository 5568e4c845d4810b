use vstd::prelude::*;

use crate::bus::{dispatched, EventBus, Subscriber};
use crate::events::{EventResult, InitEvent};

verus! {

/// A step of application start-up; it reports whether it succeeded.
pub trait Initializer: Sized {
    /// Running this step turned it into `after` and reported `ok`.
    spec fn stepped(&self, after: Self, ok: bool) -> bool;

    fn init(&mut self) -> (r: bool)
        ensures
            old(self).stepped(*final(self), r),
    ;
}

/// Runs start-up steps in the order they were added, then announces the start.
pub struct AppBoostrap<I> {
    pub init_pipeline: Vec<I>,
}

/// An init event as it is first dispatched.
pub open spec fn fresh_init(e: InitEvent) -> bool {
    !e.cancelled && e.reason is None
}

/// The steps before `k` ran and succeeded, and those from `from` on are untouched.
pub open spec fn steps_done<I: Initializer>(before: Seq<I>, after: Seq<I>, k: int, from: int) -> bool {
    &&& before.len() == after.len()
    &&& forall|j: int| 0 <= j < k ==> #[trigger] before[j].stepped(after[j], true)
    &&& forall|j: int| from <= j < before.len() ==> #[trigger] after[j] == before[j]
}

impl<I: Initializer> AppBoostrap<I> {
    pub fn new() -> (r: Self)
        ensures
            r.init_pipeline@.len() == 0,
    {
        AppBoostrap { init_pipeline: Vec::new() }
    }

    pub fn add_initializer(&mut self, initializer: I)
        ensures
            final(self).init_pipeline@ == old(self).init_pipeline@.push(initializer),
    {
        self.init_pipeline.push(initializer);
    }

    /// Runs each step once, in order, and stops at the first that fails,
    /// returning false. When all succeed, one init event goes to the bus and
    /// the result is true, whatever the dispatch reports.
    pub fn boostrap<S: Subscriber<InitEvent>>(&mut self, bus: &EventBus<S>) -> (r: bool)
        ensures
            r ==> steps_done(
                old(self).init_pipeline@,
                final(self).init_pipeline@,
                old(self).init_pipeline@.len() as int,
                old(self).init_pipeline@.len() as int,
            ),
            r ==> exists|start: InitEvent, end: InitEvent, res: EventResult|
                #![trigger dispatched(bus.subscribers@, start, end, res)]
                fresh_init(start) && dispatched(bus.subscribers@, start, end, res),
            !r ==> exists|k: int|
                0 <= k < old(self).init_pipeline@.len() && #[trigger] steps_done(
                    old(self).init_pipeline@,
                    final(self).init_pipeline@,
                    k,
                    k + 1,
                ) && old(self).init_pipeline@[k].stepped(final(self).init_pipeline@[k], false),
    {
        let ghost before = self.init_pipeline@;
        let n = self.init_pipeline.len();
        let mut i: usize = 0;
        while i < n
            invariant
                before == old(self).init_pipeline@,
                n == before.len(),
                i <= n,
                steps_done(before, self.init_pipeline@, i as int, i as int),
            decreases n - i,
        {
            let ghost prev = self.init_pipeline@;
            let ok = self.init_pipeline[i].init();
            proof {
                assert(self.init_pipeline@ == prev.update(i as int, self.init_pipeline@[i as int]));
                assert(prev[i as int] == before[i as int]);
                assert forall|j: int| 0 <= j < i implies #[trigger] before[j].stepped(
                    self.init_pipeline@[j],
                    true,
                ) by {
                    assert(self.init_pipeline@[j] == prev[j]);
                }
                assert forall|j: int| i + 1 <= j < n implies #[trigger] self.init_pipeline@[j]
                    == before[j] by {
                    assert(self.init_pipeline@[j] == prev[j]);
                }
            }
            if !ok {
                proof {
                    assert(steps_done(before, self.init_pipeline@, i as int, i + 1));
                    assert(before[i as int].stepped(self.init_pipeline@[i as int], false));
                    let k: int = i as int;
                    assert(0 <= k < old(self).init_pipeline@.len() && steps_done(
                        old(self).init_pipeline@,
                        self.init_pipeline@,
                        k,
                        k + 1,
                    ) && old(self).init_pipeline@[k].stepped(self.init_pipeline@[k], false));
                }
                return false;
            }
            i = i + 1;
        }
        let mut event = InitEvent::new();
        let ghost start = event;
        let res = bus.dispatch(&mut event);
        proof {
            assert(fresh_init(start) && dispatched(bus.subscribers@, start, event, res));
        }
        true
    }
}

} // verus!
