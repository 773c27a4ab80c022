//! An init-once cell holding a single value.

use vstd::prelude::*;

use crate::init::{init_state_idle, init_state_wf, Init};

verus! {

/// What `set` does to the contents of a cell: the value is stored when the
/// cell is empty, and ignored otherwise. The flag tells which happened.
pub open spec fn cell_set<T>(contents: Option<T>, value: T) -> (Option<T>, bool) {
    match contents {
        None => (Some(value), true),
        Some(_) => (contents, false),
    }
}

/// What `take` does: the cell is emptied and its contents handed out.
pub open spec fn cell_take<T>(contents: Option<T>) -> (Option<T>, Option<T>) {
    (None, contents)
}

/// Taking empties the cell: a second `take` gets nothing, and a `set` after
/// a `take` succeeds again.
pub proof fn lemma_take_then_take<T>(contents: Option<T>, value: T)
    ensures
        cell_take(cell_take(contents).0) == (None::<T>, None::<T>),
        cell_set(cell_take(contents).0, value) == (Some(value), true),
{
}

/// Offers each value of `values` in turn to `set`, starting from `contents`;
/// gives the final contents and how many offers were taken.
pub open spec fn cell_set_all<T>(contents: Option<T>, values: Seq<T>) -> (Option<T>, nat)
    decreases values.len(),
{
    if values.len() == 0 {
        (contents, 0)
    } else {
        let (next, taken) = cell_set(contents, values[0]);
        let (last, rest) = cell_set_all(next, values.skip(1));
        (last, rest + if taken { 1nat } else { 0nat })
    }
}

/// A value is set at most once: of any sequence of `set` calls only the
/// first one on an empty cell succeeds, and its value is the one kept.
pub proof fn lemma_only_first_set_succeeds<T>(contents: Option<T>, values: Seq<T>)
    ensures
        cell_set_all(contents, values) == (if contents is None && values.len() > 0 {
            (Some(values[0]), 1nat)
        } else {
            (contents, 0nat)
        }),
    decreases values.len(),
{
    if values.len() > 0 {
        let next = cell_set(contents, values[0]).0;
        lemma_only_first_set_succeeds(next, values.skip(1));
    }
}

/// A read after a successful write gives the written value, and a second
/// write is refused and changes nothing.
pub proof fn lemma_set_then_set<T>(first: T, second: T)
    ensures
        cell_set(None, first) == (Some(first), true),
        cell_set(Some(first), second) == (Some(first), false),
{
}

/// An init-once cell.
///
/// A `InitCell` begins without a value and is initialized via
/// [`set()`](InitCell::set). Once a value has been set, it can be retrieved
/// via [`get()`](InitCell::get); [`try_get()`](InitCell::try_get) tells
/// whether the cell has been initialized.
pub struct InitCell<T> {
    item: Option<T>,
    init: Init,
}

impl<T> InitCell<T> {
    /// The value held by the cell, if any.
    pub closed spec fn view(&self) -> Option<T> {
        self.item
    }

    /// The initializer agrees with the contents: the cell holds a value
    /// exactly when initialization has completed, and no initialization is
    /// left half done.
    pub closed spec fn wf(&self) -> bool {
        &&& init_state_wf(self.init@)
        &&& init_state_idle(self.init@)
        &&& (self.init@.done <==> self.item is Some)
    }

    /// The cell that holds `value` after a completed initialization.
    pub closed spec fn holding(value: T) -> InitCell<T> {
        InitCell { item: Some(value), init: Init::completed() }
    }

    /// Creates a new, uninitialized cell.
    pub fn new() -> (cell: InitCell<T>)
        ensures
            cell.wf(),
            cell@ is None,
    {
        InitCell { item: None, init: Init::new() }
    }

    /// Sets this cell's value to `value` if it is not already initialized.
    ///
    /// Returns `true` when the value was stored and `false` when the cell
    /// already held a value, in which case `value` is ignored.
    pub fn set(&mut self, value: T) -> (was_set: bool)
        requires
            old(self).wf(),
        ensures
            final(self).wf(),
            (final(self)@, was_set) == cell_set(old(self)@, value),
    {
        if self.init.needed() {
            self.item = Some(value);
            self.init.mark_complete();
            return true;
        }
        false
    }

    /// Resets the cell to an uninitialized state.
    pub fn reset(&mut self)
        ensures
            final(self).wf(),
            final(self)@ is None,
    {
        *self = Self::new();
    }

    /// If the cell is not initialized, it is set to `f()`. Returns a borrow
    /// of the value in this cell.
    pub fn get_or_init<F: FnOnce() -> T>(&mut self, f: F) -> (value: &T)
        requires
            old(self).wf(),
            old(self)@ is None ==> f.requires(()),
        ensures
            final(self).wf(),
            final(self)@ == Some(*value),
            old(self)@ is Some ==> final(self)@ == old(self)@,
            old(self)@ is None ==> f.ensures((), *value),
    {
        if self.try_get().is_none() {
            let v = f();
            self.set(v);
        }
        self.try_get().unwrap()
    }

    /// Borrows the value once the cell has one.
    ///
    /// With exclusive access no other party can fill the cell meanwhile, so
    /// the cell must already hold a value.
    pub fn wait(&self) -> (value: &T)
        requires
            self.wf(),
            self@ is Some,
        ensures
            self@ == Some(*value),
    {
        self.init.wait_until_complete();
        self.try_get().unwrap()
    }

    /// Borrows the underlying value, if one is set.
    pub fn try_get(&self) -> (value: Option<&T>)
        requires
            self.wf(),
        ensures
            value is Some <==> self@ is Some,
            value matches Some(v) ==> self@ == Some(*v),
    {
        if self.init.has_completed() {
            self.item.as_ref()
        } else {
            None
        }
    }

    /// Returns a mutable borrow of the underlying value, if one is set.
    pub fn try_get_mut(&mut self) -> (value: Option<&mut T>)
        requires
            old(self).wf(),
        ensures
            final(self).wf(),
            old(self)@ is None ==> value is None && final(self)@ is None,
            old(self)@ is Some ==> (value matches Some(v) && *v == old(self)@->0 && final(self)@
                == Some(*final(v))),
    {
        self.item.as_mut()
    }

    /// Borrows the value in this cell, which must have been set.
    pub fn get(&self) -> (value: &T)
        requires
            self.wf(),
            self@ is Some,
        ensures
            self@ == Some(*value),
    {
        self.try_get().unwrap()
    }

    /// Resets the cell to an uninitialized state and returns the value it
    /// held, if any.
    pub fn take(&mut self) -> (value: Option<T>)
        ensures
            final(self).wf(),
            (final(self)@, value) == cell_take(old(self)@),
    {
        let mut previous = Self::new();
        std::mem::swap(self, &mut previous);
        previous.into_inner()
    }

    /// Returns the value held, if any.
    pub fn into_inner(self) -> (value: Option<T>)
        ensures
            value == self@,
    {
        self.item
    }

    /// Applies `f` to the value, if there is any, and leaves the result in
    /// the cell.
    pub fn update<F: FnOnce(T) -> T>(&mut self, f: F)
        requires
            old(self).wf(),
            old(self)@ matches Some(v) ==> f.requires((v,)),
        ensures
            final(self).wf(),
            old(self)@ is None ==> final(self)@ is None,
            old(self)@ matches Some(v) ==> (final(self)@ matches Some(w) && f.ensures((v,), w)),
    {
        match self.take() {
            Some(v) => {
                self.set(f(v));
            },
            None => {},
        }
    }

    /// Applies `f` to the value, if there is any, and returns a new cell
    /// holding the result.
    pub fn map<U, F: FnOnce(T) -> U>(self, f: F) -> (cell: InitCell<U>)
        requires
            self@ matches Some(v) ==> f.requires((v,)),
        ensures
            cell.wf(),
            self@ is None ==> cell@ is None,
            self@ matches Some(v) ==> (cell@ matches Some(w) && f.ensures((v,), w)),
    {
        match self.into_inner() {
            Some(v) => InitCell::from(f(v)),
            None => InitCell::new(),
        }
    }
}

/// Defaults to [`InitCell::new()`].
impl<T> Default for InitCell<T> {
    fn default() -> (cell: Self)
        ensures
            cell.wf(),
            cell@ is None,
    {
        InitCell::new()
    }
}

impl<T> From<T> for InitCell<T> {
    fn from(value: T) -> (cell: InitCell<T>)
        ensures
            cell.wf(),
            cell@ == Some(value),
    {
        let mut cell = InitCell::new();
        let was_set = cell.set(value);
        assert(was_set);
        proof {
            Init::lemma_completed(cell.init);
        }
        cell
    }
}

impl<T> vstd::std_specs::convert::FromSpecImpl<T> for InitCell<T> {
    open spec fn obeys_from_spec() -> bool {
        true
    }

    open spec fn from_spec(v: T) -> Self {
        InitCell::holding(v)
    }
}

impl<T: Clone> Clone for InitCell<T> {
    fn clone(&self) -> (cell: Self)
        ensures
            cell.wf(),
            self@ is None ==> cell@ is None,
            self@ matches Some(v) ==> (cell@ matches Some(w) && cloned(v, w)),
    {
        match &self.item {
            Some(v) => InitCell::from(v.clone()),
            None => InitCell::new(),
        }
    }
}

} // verus!
