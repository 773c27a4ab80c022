//! A map holding at most one value per type, each type told apart by its
//! key.

use vstd::prelude::*;
use std::collections::HashMap;
use std::marker::PhantomData;

use crate::kind::{self, Kind, Neither, SendSync};
use crate::tls::{local_lookup, LocalValue, ThreadKey};

verus! {

broadcast use vstd::std_specs::hash::group_hash_axioms;

/// The key that stands for a type: distinct types have distinct keys.
pub type TypeKey = u64;

/// What `set` does: the value is stored for `key` when the container is not
/// frozen and holds nothing for `key` yet; otherwise nothing changes. The
/// flag tells which happened.
pub open spec fn container_set<V>(
    contents: Map<TypeKey, V>,
    frozen: bool,
    key: TypeKey,
    value: V,
) -> (Map<TypeKey, V>, bool) {
    if frozen || contents.contains_key(key) {
        (contents, false)
    } else {
        (contents.insert(key, value), true)
    }
}

/// Offers each value of `values` in turn to `set` for the same `key`;
/// gives the final contents and how many offers were taken.
pub open spec fn container_set_all<V>(
    contents: Map<TypeKey, V>,
    frozen: bool,
    key: TypeKey,
    values: Seq<V>,
) -> (Map<TypeKey, V>, nat)
    decreases values.len(),
{
    if values.len() == 0 {
        (contents, 0)
    } else {
        let (next, taken) = container_set(contents, frozen, key, values[0]);
        let (last, rest) = container_set_all(next, frozen, key, values.skip(1));
        (last, rest + if taken { 1nat } else { 0nat })
    }
}

/// One value per type: of any sequence of `set` calls for one key, only the
/// first succeeds, and only if the key was free and the container not
/// frozen; its value is the one kept.
pub proof fn lemma_one_value_per_key<V>(
    contents: Map<TypeKey, V>,
    frozen: bool,
    key: TypeKey,
    values: Seq<V>,
)
    ensures
        container_set_all(contents, frozen, key, values) == (if !frozen && !contents.contains_key(key)
            && values.len() > 0 {
            (contents.insert(key, values[0]), 1nat)
        } else {
            (contents, 0nat)
        }),
    decreases values.len(),
{
    if values.len() > 0 {
        let next = container_set(contents, frozen, key, values[0]).0;
        lemma_one_value_per_key(next, frozen, key, values.skip(1));
    }
}

/// A frozen container refuses every write and keeps its contents.
pub proof fn lemma_frozen_refuses<V>(contents: Map<TypeKey, V>, key: TypeKey, value: V)
    ensures
        container_set(contents, true, key, value) == (contents, false),
{
}

/// Writes for one type leave every other type's state as it was.
pub proof fn lemma_keys_independent<V>(
    contents: Map<TypeKey, V>,
    frozen: bool,
    key: TypeKey,
    other: TypeKey,
    value: V,
)
    requires
        key != other,
    ensures
        container_set(contents, frozen, key, value).0.contains_key(other) == contents.contains_key(
            other,
        ),
        contents.contains_key(other) ==> container_set(contents, frozen, key, value).0[other]
            == contents[other],
{
}

/// The count of values grows by one with each successful `set` and is
/// unchanged by a refused one.
pub proof fn lemma_len_counts_types<V>(
    contents: Map<TypeKey, V>,
    frozen: bool,
    key: TypeKey,
    value: V,
)
    requires
        contents.dom().finite(),
    ensures
        container_set(contents, frozen, key, value).0.dom().finite(),
        container_set(contents, frozen, key, value).0.len() == contents.len() + if container_set(
            contents,
            frozen,
            key,
            value,
        ).1 {
            1nat
        } else {
            0nat
        },
{
}

/// A write made on a container, as seen by the laws below.
pub enum ContainerCall<V> {
    Write(TypeKey, V),
    Freeze,
}

/// The contents and the frozen flag after a sequence of writes.
pub open spec fn container_run<V>(
    contents: Map<TypeKey, V>,
    frozen: bool,
    calls: Seq<ContainerCall<V>>,
) -> (Map<TypeKey, V>, bool)
    decreases calls.len(),
{
    if calls.len() == 0 {
        (contents, frozen)
    } else {
        match calls[0] {
            ContainerCall::Write(key, value) => container_run(
                container_set(contents, frozen, key, value).0,
                frozen,
                calls.skip(1),
            ),
            ContainerCall::Freeze => container_run(contents, true, calls.skip(1)),
        }
    }
}

/// Freezing is final: once frozen, a container stays frozen and its
/// contents never change, whatever is written afterwards.
pub proof fn lemma_frozen_is_final<V>(contents: Map<TypeKey, V>, calls: Seq<ContainerCall<V>>)
    ensures
        container_run(contents, true, calls) == (contents, true),
    decreases calls.len(),
{
    if calls.len() > 0 {
        lemma_frozen_is_final(contents, calls.skip(1));
    }
}

/// A container for type-based state.
///
/// A container stores at most _one_ value for each type. Values are set
/// with [`set()`](Container::set) and read with [`get()`](Container::get)
/// or [`try_get()`](Container::try_get). A container can be _frozen_, after
/// which it can only be read: a frozen container is never thawed.
pub struct Container<K: Kind, V> {
    map: HashMap<TypeKey, V>,
    frozen: bool,
    _kind: PhantomData<K>,
}

/// A container whose values are `Send + Sync`.
pub type ContainerSendSync<V> = Container<SendSync, V>;

/// A container whose values are `Send`.
pub type ContainerSend<V> = Container<kind::Send, V>;

/// A container whose values need be neither `Send` nor `Sync`.
pub type ContainerNeither<V> = Container<Neither, V>;

impl<V> Container<SendSync, V> {
    /// Creates a new container with no stored values.
    pub fn new() -> (container: Self)
        ensures
            container@ == Map::<TypeKey, V>::empty(),
            container@.dom().finite(),
            !container.frozen(),
    {
        Container { map: HashMap::new(), frozen: false, _kind: PhantomData }
    }

    /// Sets the state for `key` if it has not been set before and `self` is
    /// not frozen. Returns `true` if the state was set and `false` if the
    /// container is left unchanged.
    pub fn set(&mut self, key: TypeKey, state: V) -> (was_set: bool) where V: Send + Sync
        ensures
            (final(self)@, was_set) == container_set(old(self)@, old(self).frozen(), key, state),
            final(self).frozen() == old(self).frozen(),
            final(self)@.dom().finite(),
            final(self)@.len() == old(self)@.len() + if was_set { 1nat } else { 0nat },
    {
        self._set(key, state)
    }
}

impl<T, F: Fn() -> T> Container<SendSync, LocalValue<T, F>> {
    /// Every stored per-thread value can be initialized.
    pub open spec fn locals_wf(&self) -> bool {
        forall|key: TypeKey| #[trigger] self@.contains_key(key) ==> self@[key].wf()
    }

    /// Sets the thread-local state for `key` if it has not been set before
    /// and `self` is not frozen: each thread's value will be made by
    /// `state_init` on first access. Returns `true` if the state was set
    /// and `false` if the container is left unchanged.
    pub fn set_local(&mut self, key: TypeKey, state_init: F) -> (was_set: bool) where
        T: Send,
        F: Send + Sync,

        requires
            old(self).locals_wf(),
            state_init.requires(()),
        ensures
            final(self).locals_wf(),
            final(self).frozen() == old(self).frozen(),
            was_set == !(old(self).frozen() || old(self)@.contains_key(key)),
            final(self)@.dom().finite(),
            final(self)@.len() == old(self)@.len() + if was_set { 1nat } else { 0nat },
            was_set ==> final(self)@ == old(self)@.insert(key, final(self)@[key]),
            was_set ==> final(self)@[key]@ == Map::<ThreadKey, T>::empty(),
            was_set ==> final(self)@[key].init_fn() == state_init,
            !was_set ==> final(self)@ == old(self)@,
    {
        self._set(key, LocalValue::new(state_init))
    }

    /// Borrows the thread-local state of `thread` for `key`, creating it on
    /// the thread's first access. Returns `None` if no thread-local state
    /// was set for `key`.
    pub fn try_get_local(&mut self, key: TypeKey, thread: ThreadKey) -> (value: Option<&T>)
        requires
            old(self).locals_wf(),
        ensures
            final(self).locals_wf(),
            final(self).frozen() == old(self).frozen(),
            value is Some <==> old(self)@.contains_key(key),
            value is None ==> final(self)@ == old(self)@,
            final(self)@.dom().finite(),
            final(self)@.len() == old(self)@.len(),
            value matches Some(v) ==> {
                &&& final(self)@ == old(self)@.insert(key, final(self)@[key])
                &&& local_lookup(old(self)@[key], final(self)@[key], thread, *v)
            },
    {
        let ghost before = self@;
        match self.map.remove(&key) {
            Some(local) => {
                let mut local = local;
                assert(before.contains_key(key) && before[key] == local);
                local.get(thread);
                self.map.insert(key, local);
                assert(self@ == before.insert(key, local));
                assert forall|k: TypeKey| #[trigger] self@.contains_key(k) implies self@[k].wf() by {
                    if k != key {
                        assert(before.contains_key(k));
                    }
                }
                Some(self.map.get(&key).unwrap().current(thread))
            },
            None => None,
        }
    }

    /// Borrows the thread-local state of `thread` for `key`, creating it on
    /// the thread's first access. The state must have been set.
    pub fn get_local(&mut self, key: TypeKey, thread: ThreadKey) -> (value: &T)
        requires
            old(self).locals_wf(),
            old(self)@.contains_key(key),
        ensures
            final(self).locals_wf(),
            final(self).frozen() == old(self).frozen(),
            final(self)@ == old(self)@.insert(key, final(self)@[key]),
            final(self)@.dom().finite(),
            final(self)@.len() == old(self)@.len(),
            local_lookup(old(self)@[key], final(self)@[key], thread, *value),
    {
        self.try_get_local(key, thread).unwrap()
    }
}

impl<V> Container<kind::Send, V> {
    /// Creates a new container with no stored values.
    pub fn new() -> (container: Self)
        ensures
            container@ == Map::<TypeKey, V>::empty(),
            container@.dom().finite(),
            !container.frozen(),
    {
        Container { map: HashMap::new(), frozen: false, _kind: PhantomData }
    }

    /// Sets the state for `key` if it has not been set before and `self` is
    /// not frozen. Returns `true` if the state was set and `false` if the
    /// container is left unchanged.
    pub fn set(&mut self, key: TypeKey, state: V) -> (was_set: bool) where V: Send
        ensures
            (final(self)@, was_set) == container_set(old(self)@, old(self).frozen(), key, state),
            final(self).frozen() == old(self).frozen(),
            final(self)@.dom().finite(),
            final(self)@.len() == old(self)@.len() + if was_set { 1nat } else { 0nat },
    {
        self._set(key, state)
    }
}

impl<V> Container<Neither, V> {
    /// Creates a new container with no stored values.
    pub fn new() -> (container: Self)
        ensures
            container@ == Map::<TypeKey, V>::empty(),
            container@.dom().finite(),
            !container.frozen(),
    {
        Container { map: HashMap::new(), frozen: false, _kind: PhantomData }
    }

    /// Sets the state for `key` if it has not been set before and `self` is
    /// not frozen. Returns `true` if the state was set and `false` if the
    /// container is left unchanged.
    pub fn set(&mut self, key: TypeKey, state: V) -> (was_set: bool)
        ensures
            (final(self)@, was_set) == container_set(old(self)@, old(self).frozen(), key, state),
            final(self).frozen() == old(self).frozen(),
            final(self)@.dom().finite(),
            final(self)@.len() == old(self)@.len() + if was_set { 1nat } else { 0nat },
    {
        self._set(key, state)
    }
}

impl<K: Kind, V> Container<K, V> {
    /// The value stored for each key.
    pub closed spec fn view(&self) -> Map<TypeKey, V> {
        self.map@
    }

    /// Whether the container has been frozen.
    pub closed spec fn frozen(&self) -> bool {
        self.frozen
    }

    fn _set(&mut self, key: TypeKey, state: V) -> (was_set: bool)
        ensures
            (final(self)@, was_set) == container_set(old(self)@, old(self).frozen(), key, state),
            final(self).frozen() == old(self).frozen(),
            final(self)@.dom().finite(),
            final(self)@.len() == old(self)@.len() + if was_set { 1nat } else { 0nat },
    {
        if self.is_frozen() {
            return false;
        }
        let already_set = self.map.contains_key(&key);
        if !already_set {
            self.map.insert(key, state);
        }
        !already_set
    }

    /// Borrows the state for `key`, if it has been set.
    pub fn try_get(&self, key: TypeKey) -> (value: Option<&V>)
        ensures
            value is Some <==> self@.contains_key(key),
            value matches Some(v) ==> *v == self@[key],
    {
        self.map.get(&key)
    }

    /// Borrows the state for `key`, which must have been set.
    pub fn get(&self, key: TypeKey) -> (value: &V)
        requires
            self@.contains_key(key),
        ensures
            *value == self@[key],
    {
        self.try_get(key).unwrap()
    }

    /// Freezes the container. A frozen container refuses every `set`.
    pub fn freeze(&mut self)
        ensures
            final(self)@ == old(self)@,
            final(self).frozen(),
            final(self)@.dom().finite(),
    {
        self.frozen = true;
    }

    /// Returns `true` if the container is frozen and `false` otherwise.
    pub fn is_frozen(&self) -> (frozen: bool)
        ensures
            frozen == self.frozen(),
    {
        self.frozen
    }

    /// Returns the number of distinct keys holding a value.
    pub fn len(&self) -> (count: usize)
        ensures
            count == self@.len(),
            self@.dom().finite(),
    {
        self.map.len()
    }

    /// A container holds finitely many values.
    pub proof fn lemma_contents_finite(&self)
        ensures
            self@.dom().finite(),
    {
    }
}

impl<V> Default for Container<SendSync, V> {
    fn default() -> (container: Self)
        ensures
            container@ == Map::<TypeKey, V>::empty(),
            container@.dom().finite(),
            !container.frozen(),
    {
        Container::<SendSync, V>::new()
    }
}

impl<V> Default for Container<kind::Send, V> {
    fn default() -> (container: Self)
        ensures
            container@ == Map::<TypeKey, V>::empty(),
            container@.dom().finite(),
            !container.frozen(),
    {
        Container::<kind::Send, V>::new()
    }
}

impl<V> Default for Container<Neither, V> {
    fn default() -> (container: Self)
        ensures
            container@ == Map::<TypeKey, V>::empty(),
            container@.dom().finite(),
            !container.frozen(),
    {
        Container::<Neither, V>::new()
    }
}

} // verus!
