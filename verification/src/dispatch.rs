use vstd::prelude::*;

verus! {

/// Hands an event to the registered event handlers: one after the other, in
/// the order they were registered, and none after a handler that failed.
pub struct HandlerDispatch {
    count: usize,
    next: usize,
    failed: bool,
}

/// The state after handler results `results` were reported, starting with
/// `next` handlers done (none failed) out of `count`: handlers are asked in
/// order while none failed; results reported when no handler is due are
/// ignored.
pub open spec fn spec_dispatch(count: nat, next: nat, failed: bool, results: Seq<bool>) -> (
    nat,
    bool,
)
    decreases results.len(),
{
    if results.len() == 0 || failed || next >= count {
        (next, failed)
    } else {
        spec_dispatch(count, next + 1, !results[0], results.drop_first())
    }
}

/// The position of the first failure among `results`, or their number.
pub open spec fn first_failure(results: Seq<bool>) -> nat
    decreases results.len(),
{
    if results.len() == 0 {
        0
    } else if !results[0] {
        0
    } else {
        1 + first_failure(results.drop_first())
    }
}

impl HandlerDispatch {
    pub closed spec fn count(self) -> nat {
        self.count as nat
    }

    pub closed spec fn done(self) -> nat {
        self.next as nat
    }

    pub closed spec fn failed(self) -> bool {
        self.failed
    }

    /// No more handlers are asked than are registered.
    pub closed spec fn wf(self) -> bool {
        self.next <= self.count
    }

    /// Dispatch of one event to `count` handlers, none asked yet.
    pub fn new(count: usize) -> (r: HandlerDispatch)
        ensures
            r.wf(),
            r.count() == count,
            r.done() == 0,
            !r.failed(),
    {
        HandlerDispatch { count, next: 0, failed: false }
    }

    /// The handler due next: the one after those asked, unless one failed
    /// or all were asked.
    pub fn next_handler(&self) -> (r: Option<usize>)
        requires
            self.wf(),
        ensures
            r == (if !self.failed() && self.done() < self.count() {
                Some(self.done() as usize)
            } else {
                None
            }),
    {
        if !self.failed && self.next < self.count {
            Some(self.next)
        } else {
            None
        }
    }

    /// Takes in the result of the handler that was due; ignored when none
    /// was due.
    pub fn on_result(&mut self, ok: bool)
        requires
            old(self).wf(),
        ensures
            final(self).wf(),
            final(self).count() == old(self).count(),
            (final(self).done(), final(self).failed()) == spec_dispatch(
                old(self).count(),
                old(self).done(),
                old(self).failed(),
                seq![ok],
            ),
    {
        proof {
            reveal_with_fuel(spec_dispatch, 2);
            assert(seq![ok].drop_first() =~= Seq::<bool>::empty());
        }
        if !self.failed && self.next < self.count {
            self.next = self.next + 1;
            self.failed = !ok;
        }
    }

    /// The dispatch is over: a handler failed or all were asked.
    pub fn is_over(&self) -> (r: bool)
        requires
            self.wf(),
        ensures
            r == (self.failed() || self.done() == self.count()),
    {
        self.failed || self.next == self.count
    }

    /// The event was handled: every handler was asked and none failed.
    pub fn succeeded(&self) -> (r: bool)
        requires
            self.wf(),
        ensures
            r == (!self.failed() && self.done() == self.count()),
    {
        !self.failed && self.next == self.count
    }
}

proof fn lemma_dispatch_from(count: nat, next: nat, results: Seq<bool>)
    requires
        next <= count,
        results.len() >= count - next,
    ensures
        ({
            let k = first_failure(results);
            let end = spec_dispatch(count, next, false, results);
            &&& k < count - next ==> end == (next + k + 1, true)
            &&& k >= count - next ==> end == (count, false)
        }),
    decreases results.len(),
{
    if results.len() > 0 && next < count {
        lemma_dispatch_from(count, next + 1, results.drop_first());
        if !results[0] {
            let rest = results.drop_first();
            assert(spec_dispatch(count, next + 1, true, rest) == (next + 1, true));
        }
    }
}

/// Handlers are asked in order; when one fails, none after it is asked.
/// Reporting the results of the handlers in turn asks exactly the handlers
/// up to and including the first that fails, and the dispatch then ends
/// failed; when none fails, every handler is asked and the dispatch ends
/// successful.
pub proof fn lemma_handlers_stop_at_first_failure(count: nat, results: Seq<bool>)
    requires
        results.len() >= count,
    ensures
        first_failure(results) < count ==> spec_dispatch(count, 0, false, results) == (
            first_failure(results) + 1,
            true,
        ),
        first_failure(results) >= count ==> spec_dispatch(count, 0, false, results) == (
            count,
            false,
        ),
{
    lemma_dispatch_from(count, 0, results);
}

} // verus!
