use vstd::prelude::*;

verus! {

/// The sequence number after `a`, modulo 2^32.
pub open spec fn seq_after(a: u32) -> u32 {
    ((a as int + 1) % 0x1_0000_0000) as u32
}

/// `a` comes after `b` in wraparound order: the distance from `b` forward to
/// `a`, modulo 2^32, is positive and under 2^31.
pub open spec fn seq_newer(a: u32, b: u32) -> bool {
    let d = (a as int - b as int) % 0x1_0000_0000;
    0 < d < 0x8000_0000
}

/// Wraparound-aware order of sequence numbers.
pub fn is_newer(a: u32, b: u32) -> (r: bool)
    ensures
        r == seq_newer(a, b),
{
    let d = a.wrapping_sub(b);
    d != 0 && d < 0x8000_0000
}

/// Hands out sequence numbers for one direction, counting up modulo 2^32.
pub struct SequenceCounter {
    next: u32,
}

impl View for SequenceCounter {
    type V = u32;

    closed spec fn view(&self) -> u32 {
        self.next
    }
}

impl SequenceCounter {
    /// A counter whose first number is `start`.
    pub fn new(start: u32) -> (r: Self)
        ensures
            r@ == start,
    {
        SequenceCounter { next: start }
    }

    /// The number the next send will carry.
    pub fn peek(&self) -> (r: u32)
        ensures
            r == self@,
    {
        self.next
    }

    /// Returns the current number and moves on to the next, wrapping to zero
    /// after the largest.
    pub fn next(&mut self) -> (r: u32)
        ensures
            r == old(self)@,
            final(self)@ == seq_after(old(self)@),
    {
        let r = self.next;
        self.next = self.next.wrapping_add(1);
        r
    }
}

/// Every sequence number's successor, the wrap from 2^32 - 1 to 0 included,
/// is newer than it under wraparound order, and not older.
pub proof fn lemma_successor_is_newer(a: u32)
    ensures
        seq_newer(seq_after(a), a),
        !seq_newer(a, seq_after(a)),
        a == u32::MAX ==> seq_after(a) == 0,
{
}

} // verus!
