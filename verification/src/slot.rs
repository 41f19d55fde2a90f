use vstd::prelude::*;

verus! {

/// Storage for zero or one value of type `T`.
///
/// A slot is in one of two states: empty (it holds nothing and owes no
/// destructor) or full (it holds exactly one value). Its view is `None` when
/// empty and `Some(v)` when it holds `v`. The channels built on it perform at
/// most one `write` (empty to full) and at most one `read` (full to empty)
/// over a slot's lifetime; both transitions are guarded by preconditions.
pub struct Slot<T> {
    value: Option<T>,
}

impl<T> View for Slot<T> {
    type V = Option<T>;

    closed spec fn view(&self) -> Option<T> {
        self.value
    }
}

impl<T> Slot<T> {
    /// A new slot holds nothing.
    pub fn empty() -> (slot: Self)
        ensures
            slot@ is None,
    {
        Slot { value: None }
    }

    /// Whether the slot currently holds a value.
    pub fn is_full(&self) -> (full: bool)
        ensures
            full == (self@ is Some),
    {
        self.value.is_some()
    }

    /// Stores `value` into an empty slot, making it full.
    pub fn write(&mut self, value: T)
        requires
            old(self)@ is None,
        ensures
            final(self)@ == Some(value),
    {
        self.value = Some(value);
    }

    /// Takes the value out of a full slot, leaving it empty.
    pub fn read(&mut self) -> (value: T)
        requires
            old(self)@ is Some,
        ensures
            value == old(self)@->0,
            final(self)@ is None,
    {
        self.value.take().unwrap()
    }
}

} // verus!
