use vstd::prelude::*;

verus! {

/// What a write leaves in the slot: the new value, whatever was there.
pub open spec fn slot_write<T>(s: Option<T>, v: T) -> Option<T> {
    Some(v)
}

/// What a take returns, and what it leaves: the held value, and an empty slot.
pub open spec fn slot_take<T>(s: Option<T>) -> (Option<T>, Option<T>) {
    (s, None)
}

/// The slot after writing each of `writes` in turn, with no read between.
pub open spec fn slot_write_all<T>(s: Option<T>, writes: Seq<T>) -> Option<T>
    decreases writes.len(),
{
    if writes.len() == 0 {
        s
    } else {
        slot_write(slot_write_all(s, writes.drop_last()), writes.last())
    }
}

/// A single-value overwrite channel: a write never waits and replaces any
/// unread value; a take hands out the held value or reports emptiness.
pub struct Unreliable<T> {
    value: Option<T>,
}

impl<T> View for Unreliable<T> {
    type V = Option<T>;

    closed spec fn view(&self) -> Option<T> {
        self.value
    }
}

impl<T> Unreliable<T> {
    /// An empty slot.
    pub fn new() -> (r: Self)
        ensures
            r@ is None,
    {
        Unreliable { value: None }
    }

    /// Stores `v`, dropping any value not yet taken.
    pub fn write(&mut self, v: T)
        ensures
            final(self)@ == slot_write(old(self)@, v),
    {
        self.value = Some(v);
    }

    /// Takes the held value, leaving the slot empty.
    pub fn take(&mut self) -> (r: Option<T>)
        ensures
            (r, final(self)@) == slot_take(old(self)@),
    {
        let r = self.value.take();
        r
    }

    /// Whether a value is waiting.
    pub fn is_set(&self) -> (r: bool)
        ensures
            r == self@ is Some,
    {
        self.value.is_some()
    }
}

/// After any number of writes with no read between, one take returns the
/// last value written, and a second take finds the slot empty.
pub proof fn lemma_slot_keeps_latest<T>(s: Option<T>, writes: Seq<T>)
    requires
        writes.len() > 0,
    ensures
        slot_take(slot_write_all(s, writes)).0 == Some(writes.last()),
        slot_take(slot_take(slot_write_all(s, writes)).1).0 is None,
{
}

} // verus!
