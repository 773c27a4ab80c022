//! Per-thread values that are created on first use in each thread.

use vstd::prelude::*;
use std::collections::HashMap;

use crate::cell::InitCell;

verus! {

broadcast use vstd::std_specs::hash::group_hash_axioms;

/// The key by which a thread is told apart from every other thread.
pub type ThreadKey = u64;

/// Relates a per-thread value before and after a lookup from `thread` that
/// gave `value`: a thread that had a value gets it back unchanged, and a
/// thread without one gets a fresh value from the initialization function,
/// which is then kept for it. Other threads' values are untouched.
pub open spec fn local_lookup<T, F: Fn() -> T>(
    before: LocalValue<T, F>,
    after: LocalValue<T, F>,
    thread: ThreadKey,
    value: T,
) -> bool {
    &&& after.init_fn() == before.init_fn()
    &&& after@.contains_key(thread)
    &&& after@[thread] == value
    &&& before@.contains_key(thread) ==> after@ == before@
    &&& !before@.contains_key(thread) ==> {
        &&& after@ == before@.insert(thread, value)
        &&& before.init_fn().ensures((), value)
    }
}

/// Thread-local state really is local: a lookup from one thread leaves the
/// value of every other thread as it was.
pub proof fn lemma_other_threads_untouched<T, F: Fn() -> T>(
    before: LocalValue<T, F>,
    after: LocalValue<T, F>,
    thread: ThreadKey,
    value: T,
    other: ThreadKey,
)
    requires
        local_lookup(before, after, thread, value),
        other != thread,
    ensures
        after@.contains_key(other) == before@.contains_key(other),
        before@.contains_key(other) ==> after@[other] == before@[other],
{
}

/// A thread's value is made once: a second lookup from the same thread gives
/// back the value of the first and changes nothing.
pub proof fn lemma_value_made_once<T, F: Fn() -> T>(
    first: LocalValue<T, F>,
    second: LocalValue<T, F>,
    third: LocalValue<T, F>,
    thread: ThreadKey,
    value1: T,
    value2: T,
)
    requires
        local_lookup(first, second, thread, value1),
        local_lookup(second, third, thread, value2),
    ensures
        value2 == value1,
        third@ == second@,
        third.init_fn() == first.init_fn(),
{
}

/// A thread's first lookup gives a value made by the initialization
/// function.
pub proof fn lemma_first_lookup_initializes<T, F: Fn() -> T>(
    before: LocalValue<T, F>,
    after: LocalValue<T, F>,
    thread: ThreadKey,
    value: T,
)
    requires
        local_lookup(before, after, thread, value),
        !before@.contains_key(thread),
    ensures
        before.init_fn().ensures((), value),
        after@ == before@.insert(thread, value),
{
}

/// A value per thread, each initialized with the same function on first
/// use from its thread.
pub struct LocalValue<T, F> {
    tls: HashMap<ThreadKey, T>,
    init_fn: F,
}

impl<T, F: Fn() -> T> LocalValue<T, F> {
    /// The value of each thread that has one.
    pub closed spec fn view(&self) -> Map<ThreadKey, T> {
        self.tls@
    }

    /// The function that initializes a thread's value.
    pub closed spec fn init_fn(&self) -> F {
        self.init_fn
    }

    /// The initialization function can always be called.
    pub open spec fn wf(&self) -> bool {
        self.init_fn().requires(())
    }

    /// Creates per-thread storage whose values are made by `init_fn`.
    pub fn new(init_fn: F) -> (value: LocalValue<T, F>)
        ensures
            value@ == Map::<ThreadKey, T>::empty(),
            value.init_fn() == init_fn,
    {
        LocalValue { tls: HashMap::new(), init_fn }
    }

    /// Borrows the value of `thread`, creating it first if the thread has
    /// none yet.
    pub fn get(&mut self, thread: ThreadKey) -> (value: &T)
        requires
            old(self).wf(),
        ensures
            final(self).wf(),
            local_lookup(*old(self), *final(self), thread, *value),
    {
        if !self.tls.contains_key(&thread) {
            let fresh = (self.init_fn)();
            self.tls.insert(thread, fresh);
        }
        self.tls.get(&thread).unwrap()
    }

    /// Borrows the value of `thread`, creating it first if the thread has
    /// none yet. Creation cannot fail, so a value is always returned.
    pub fn try_get(&mut self, thread: ThreadKey) -> (value: Option<&T>)
        requires
            old(self).wf(),
        ensures
            final(self).wf(),
            value matches Some(v) && local_lookup(*old(self), *final(self), thread, *v),
    {
        Some(self.get(thread))
    }

    /// Borrows the value that `thread` already has.
    pub(crate) fn current(&self, thread: ThreadKey) -> (value: &T)
        requires
            self@.contains_key(thread),
        ensures
            *value == self@[thread],
    {
        self.tls.get(&thread).unwrap()
    }
}

/// A per-thread init-once cell.
///
/// The initialization function is set once via [`set`](LocalInitCell::set);
/// each thread then gets its own value, made by that function on the
/// thread's first [`get`](LocalInitCell::get) or
/// [`try_get`](LocalInitCell::try_get).
pub struct LocalInitCell<T, F> {
    cell: InitCell<LocalValue<T, F>>,
}

impl<T, F: Fn() -> T> LocalInitCell<T, F> {
    /// The per-thread storage, once an initialization function was set.
    pub closed spec fn view(&self) -> Option<LocalValue<T, F>> {
        self.cell@
    }

    /// The inner cell is consistent and its function can be called.
    pub closed spec fn wf(&self) -> bool {
        &&& self.cell.wf()
        &&& (self.cell@ matches Some(local) ==> local.wf())
    }

    /// Creates a new cell without an initialization function.
    pub fn new() -> (cell: LocalInitCell<T, F>)
        ensures
            cell.wf(),
            cell@ is None,
    {
        LocalInitCell { cell: InitCell::new() }
    }

    /// Sets the initialization function to `state_init` if none was set
    /// before. Returns `true` if it was set and `false` if the cell is left
    /// unchanged.
    pub fn set(&mut self, state_init: F) -> (was_set: bool)
        requires
            old(self).wf(),
            state_init.requires(()),
        ensures
            final(self).wf(),
            was_set == (old(self)@ is None),
            was_set ==> (final(self)@ matches Some(local) && local@ == Map::<ThreadKey, T>::empty()
                && local.init_fn() == state_init),
            !was_set ==> final(self)@ == old(self)@,
    {
        self.cell.set(LocalValue::new(state_init))
    }

    /// Borrows the value of `thread`, creating it on the thread's first
    /// access. Returns `None` if no initialization function was set.
    pub fn try_get(&mut self, thread: ThreadKey) -> (value: Option<&T>)
        requires
            old(self).wf(),
        ensures
            final(self).wf(),
            value is Some <==> old(self)@ is Some,
            value is None ==> final(self)@ == old(self)@,
            value matches Some(v) ==> (final(self)@ is Some && local_lookup(
                old(self)@->0,
                final(self)@->0,
                thread,
                *v,
            )),
    {
        match self.cell.try_get_mut() {
            Some(local) => Some(local.get(thread)),
            None => None,
        }
    }

    /// Borrows the value of `thread`, creating it on the thread's first
    /// access. An initialization function must have been set.
    pub fn get(&mut self, thread: ThreadKey) -> (value: &T)
        requires
            old(self).wf(),
            old(self)@ is Some,
        ensures
            final(self).wf(),
            final(self)@ is Some,
            local_lookup(old(self)@->0, final(self)@->0, thread, *value),
    {
        self.try_get(thread).unwrap()
    }
}

} // verus!
