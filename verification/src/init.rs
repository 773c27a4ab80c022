//! The init-once protocol: at most one caller is chosen to initialize.

use vstd::prelude::*;

verus! {

/// The abstract state of an [`Init`]: whether initialization has been
/// claimed (`started`) and whether it has been marked complete (`done`).
pub struct InitState {
    pub started: bool,
    pub done: bool,
}

/// The state of a fresh initializer.
pub open spec fn fresh_init_state() -> InitState {
    InitState { started: false, done: false }
}

/// A state is consistent when completion implies that initialization was
/// claimed.
pub open spec fn init_state_wf(s: InitState) -> bool {
    s.done ==> s.started
}

/// No initialization is in progress: either nothing was claimed or the claim
/// has been completed. `needed` is only ever asked in such a state, since a
/// caller that asked while a claim is outstanding would wait for a completion
/// that nobody else can perform.
pub open spec fn init_state_idle(s: InitState) -> bool {
    s.started ==> s.done
}

/// What `needed` does: it answers `true` exactly when nothing was claimed,
/// and afterwards initialization is claimed.
pub open spec fn needed_step(s: InitState) -> (InitState, bool) {
    (InitState { started: true, done: s.done }, !s.started)
}

/// What `mark_complete` does.
pub open spec fn mark_complete_step(s: InitState) -> InitState {
    InitState { started: true, done: true }
}

/// An init-once initializer: hands initialization to a single caller.
pub struct Init {
    started: bool,
    done: bool,
}

impl Init {
    pub closed spec fn view(&self) -> InitState {
        InitState { started: self.started, done: self.done }
    }

    /// An initializer whose initialization has completed.
    pub closed spec fn completed() -> Init {
        Init { started: true, done: true }
    }

    /// Every initializer whose initialization was claimed and completed is
    /// the completed one.
    pub proof fn lemma_completed(init: Init)
        requires
            init@.started,
            init@.done,
        ensures
            init == Init::completed(),
    {
    }

    /// A ready-to-init initializer.
    pub fn new() -> (init: Init)
        ensures
            init@ == fresh_init_state(),
    {
        Init { started: false, done: false }
    }

    /// Returns true if initialization has completed.
    pub fn has_completed(&self) -> (completed: bool)
        ensures
            completed == self@.done,
    {
        self.done
    }

    /// Marks this initialization as complete. Marking also claims the
    /// initialization so that no later `needed` call hands it out again.
    pub fn mark_complete(&mut self)
        ensures
            final(self)@ == mark_complete_step(old(self)@),
            *final(self) == Init::completed(),
    {
        self.started = true;
        self.done = true;
    }

    /// Waits until initialization is marked as completed.
    ///
    /// With exclusive access nothing else can complete the initialization
    /// while we wait, so completion is required on entry and the wait ends at
    /// once.
    pub fn wait_until_complete(&self)
        requires
            self@.done,
        ensures
            self@.done,
    {
        while !self.done
            invariant
                self@.done,
            decreases 0nat,
        {
        }
    }

    /// Claims initialization unless it was claimed before; a claim that was
    /// made before is waited for.
    fn try_to_need_init(&mut self) -> (claimed: bool)
        requires
            init_state_wf(old(self)@),
            init_state_idle(old(self)@),
        ensures
            (final(self)@, claimed) == needed_step(old(self)@),
            !claimed ==> final(self)@.done,
            final(self)@.started,
            final(self)@.done == old(self)@.done,
    {
        if self.started {
            self.wait_until_complete();
            return false;
        }
        self.started = true;
        true
    }

    /// If initialization is complete, returns `false`. Otherwise returns
    /// `true`, exactly once, to the caller that should perform
    /// initialization and then call `mark_complete`.
    pub fn needed(&mut self) -> (claimed: bool)
        requires
            init_state_wf(old(self)@),
            init_state_idle(old(self)@),
        ensures
            (final(self)@, claimed) == needed_step(old(self)@),
            claimed == !old(self)@.done,
            !claimed ==> final(self)@.done,
            claimed ==> !final(self)@.done,
            final(self)@.started,
            final(self)@.done == old(self)@.done,
            init_state_wf(final(self)@),
    {
        if self.has_completed() {
            return false;
        }
        self.try_to_need_init()
    }
}

/// A call made on an [`Init`], as seen by the laws below.
pub enum InitCall {
    Needed,
    MarkComplete,
}

/// The state after one call.
pub open spec fn init_call_step(s: InitState, call: InitCall) -> InitState {
    match call {
        InitCall::Needed => needed_step(s).0,
        InitCall::MarkComplete => mark_complete_step(s),
    }
}

/// Whether the call answers `true` (only `needed` answers).
pub open spec fn init_call_claims(s: InitState, call: InitCall) -> bool {
    match call {
        InitCall::Needed => needed_step(s).1,
        InitCall::MarkComplete => false,
    }
}

/// A sequence of calls each of which is allowed where it is made.
pub open spec fn init_calls_allowed(s: InitState, calls: Seq<InitCall>) -> bool
    decreases calls.len(),
{
    calls.len() == 0 || {
        &&& (calls[0] is Needed ==> init_state_idle(s))
        &&& init_calls_allowed(init_call_step(s, calls[0]), calls.skip(1))
    }
}

/// How many calls of the sequence answer `true`.
pub open spec fn init_claims(s: InitState, calls: Seq<InitCall>) -> nat
    decreases calls.len(),
{
    if calls.len() == 0 {
        0
    } else {
        (if init_call_claims(s, calls[0]) { 1nat } else { 0nat }) + init_claims(
            init_call_step(s, calls[0]),
            calls.skip(1),
        )
    }
}

/// Exclusivity of initialization: over any sequence of calls, at most one
/// `needed` answers `true`, and none does once initialization was claimed.
pub proof fn lemma_at_most_one_initializer(s: InitState, calls: Seq<InitCall>)
    requires
        init_state_wf(s),
        init_calls_allowed(s, calls),
    ensures
        init_claims(s, calls) <= (if s.started { 0nat } else { 1nat }),
    decreases calls.len(),
{
    if calls.len() > 0 {
        let next = init_call_step(s, calls[0]);
        lemma_at_most_one_initializer(next, calls.skip(1));
    }
}

/// Claiming does not complete: `needed` claims initialization but leaves
/// completion as it was, so after a claim handed out by `needed` the
/// initializer is started yet not complete, and `has_completed` stays false
/// until `mark_complete` is called.
pub proof fn lemma_claim_does_not_complete(s: InitState)
    ensures
        needed_step(s).0.started,
        needed_step(s).0.done == s.done,
        needed_step(s).1 && !s.done ==> !needed_step(s).0.done,
{
}

/// Only `mark_complete` completes: over any sequence of calls without a
/// `mark_complete`, completion is exactly what it was before.
pub proof fn lemma_only_mark_complete_completes(s: InitState, calls: Seq<InitCall>)
    requires
        forall|i: int| 0 <= i < calls.len() ==> #[trigger] calls[i] is Needed,
    ensures
        init_run_state(s, calls).done == s.done,
    decreases calls.len(),
{
    if calls.len() > 0 {
        assert forall|i: int| 0 <= i < calls.skip(1).len() implies #[trigger] calls.skip(1)[i] is Needed by {
            assert(calls[i + 1] is Needed);
        }
        lemma_only_mark_complete_completes(init_call_step(s, calls[0]), calls.skip(1));
    }
}

/// The state after a sequence of calls.
pub open spec fn init_run_state(s: InitState, calls: Seq<InitCall>) -> InitState
    decreases calls.len(),
{
    if calls.len() == 0 {
        s
    } else {
        init_run_state(init_call_step(s, calls[0]), calls.skip(1))
    }
}

/// On a fresh initializer the first call of `needed` is the one that answers
/// `true`.
pub proof fn lemma_first_needed_claims()
    ensures
        needed_step(fresh_init_state()).1,
        !needed_step(needed_step(fresh_init_state()).0).1,
{
}

/// Completion is permanent: no call undoes it.
pub proof fn lemma_completion_is_permanent(s: InitState, call: InitCall)
    requires
        init_state_wf(s),
        s.done,
    ensures
        init_call_step(s, call).done,
        !init_call_claims(s, call),
{
}

} // verus!
