use vstd::prelude::*;

use std::collections::VecDeque;

verus! {

/// What a push does to a mailbox of capacity `cap` holding `s`: the new
/// contents, and whether `v` was taken in. A full mailbox refuses and stays as it is.
pub open spec fn mailbox_push<T>(cap: nat, s: Seq<T>, v: T) -> (Seq<T>, bool) {
    if s.len() < cap {
        (s.push(v), true)
    } else {
        (s, false)
    }
}

/// What a pop does: the new contents, and the oldest entry, if any.
pub open spec fn mailbox_pop<T>(s: Seq<T>) -> (Seq<T>, Option<T>) {
    if s.len() > 0 {
        (s.drop_first(), Some(s[0]))
    } else {
        (s, None)
    }
}

/// One operation on a mailbox, for stating what a run of them does.
pub enum MailboxOp<T> {
    Push(T),
    Pop,
}

/// The outcome of running `ops` on a mailbox of capacity `cap` holding `s`:
/// its contents afterwards, what the pops returned in turn, and the pushed
/// values it took in, in turn.
pub open spec fn mailbox_run<T>(cap: nat, s: Seq<T>, ops: Seq<MailboxOp<T>>) -> (
    Seq<T>,
    Seq<T>,
    Seq<T>,
)
    decreases ops.len(),
{
    if ops.len() == 0 {
        (s, Seq::empty(), Seq::empty())
    } else {
        let (s1, out1, in1) = match ops[0] {
            MailboxOp::Push(v) => {
                let (s1, ok) = mailbox_push(cap, s, v);
                (s1, Seq::<T>::empty(), if ok {
                    seq![v]
                } else {
                    Seq::<T>::empty()
                })
            },
            MailboxOp::Pop => {
                let (s1, o) = mailbox_pop(s);
                (s1, match o {
                    Some(x) => seq![x],
                    None => Seq::<T>::empty(),
                }, Seq::<T>::empty())
            },
        };
        let (s2, out2, in2) = mailbox_run(cap, s1, ops.drop_first());
        (s2, out1 + out2, in1 + in2)
    }
}

/// A bounded first-in first-out queue of messages between two tasks.
pub struct Mailbox<T> {
    items: VecDeque<T>,
    cap: usize,
}

impl<T> View for Mailbox<T> {
    type V = Seq<T>;

    closed spec fn view(&self) -> Seq<T> {
        self.items@
    }
}

impl<T> Mailbox<T> {
    /// The most entries the mailbox holds.
    pub closed spec fn capacity(&self) -> nat {
        self.cap as nat
    }

    /// Contents within capacity.
    pub closed spec fn wf(&self) -> bool {
        self.items@.len() <= self.cap
    }

    /// An empty mailbox that holds at most `cap` entries.
    pub fn new(cap: usize) -> (r: Self)
        ensures
            r.wf(),
            r@ == Seq::<T>::empty(),
            r.capacity() == cap,
    {
        Mailbox { items: VecDeque::new(), cap }
    }

    /// Appends `v` unless the mailbox is full; a refused value is handed back.
    pub fn try_push(&mut self, v: T) -> (r: Result<(), T>)
        requires
            old(self).wf(),
        ensures
            final(self).wf(),
            final(self).capacity() == old(self).capacity(),
            (final(self)@, r is Ok) == mailbox_push(old(self).capacity(), old(self)@, v),
            r matches Err(w) ==> w == v,
    {
        if self.items.len() < self.cap {
            self.items.push_back(v);
            Ok(())
        } else {
            Err(v)
        }
    }

    /// Removes and returns the oldest entry, if any.
    pub fn try_pop(&mut self) -> (r: Option<T>)
        requires
            old(self).wf(),
        ensures
            final(self).wf(),
            final(self).capacity() == old(self).capacity(),
            (final(self)@, r) == mailbox_pop(old(self)@),
    {
        let r = self.items.pop_front();
        r
    }

    /// How many entries wait.
    pub fn len(&self) -> (r: usize)
        ensures
            r == self@.len(),
    {
        self.items.len()
    }

    /// Whether no entry waits.
    pub fn is_empty(&self) -> (r: bool)
        ensures
            r == (self@.len() == 0),
    {
        self.items.len() == 0
    }

    /// Whether a push would be refused.
    pub fn is_full(&self) -> (r: bool)
        requires
            self.wf(),
        ensures
            r == (self@.len() >= self.capacity()),
    {
        self.items.len() >= self.cap
    }
}

/// First in, first out: over any run of pushes and pops, what the pops
/// returned, followed by what is left, is what was there at first followed by
/// every value taken in, in push order.
pub proof fn lemma_mailbox_fifo<T>(cap: nat, s: Seq<T>, ops: Seq<MailboxOp<T>>)
    ensures
        ({
            let (rest, popped, taken) = mailbox_run(cap, s, ops);
            popped + rest == s + taken
        }),
    decreases ops.len(),
{
    if ops.len() > 0 {
        let (s1, out1, in1) = match ops[0] {
            MailboxOp::Push(v) => {
                let (s1, ok) = mailbox_push(cap, s, v);
                (s1, Seq::<T>::empty(), if ok {
                    seq![v]
                } else {
                    Seq::<T>::empty()
                })
            },
            MailboxOp::Pop => {
                let (s1, o) = mailbox_pop(s);
                (s1, match o {
                    Some(x) => seq![x],
                    None => Seq::<T>::empty(),
                }, Seq::<T>::empty())
            },
        };
        assert(out1 + s1 =~= s + in1);
        lemma_mailbox_fifo(cap, s1, ops.drop_first());
        let (s2, out2, in2) = mailbox_run(cap, s1, ops.drop_first());
        assert((out1 + out2) + s2 =~= out1 + (out2 + s2));
        assert(s + (in1 + in2) =~= (s + in1) + in2);
    }
}

/// Two independent mailboxes of encoded frames, one per direction, so that
/// neither direction can hold up the other.
pub struct Packets {
    /// Frames from the tracker to the host.
    pub serverbound: Mailbox<Vec<u8>>,
    /// Frames from the host to the tracker.
    pub clientbound: Mailbox<Vec<u8>>,
}

impl Packets {
    /// Both mailboxes empty, each holding at most `cap` frames.
    pub fn new(cap: usize) -> (r: Self)
        ensures
            r.serverbound.wf(),
            r.clientbound.wf(),
            r.serverbound@.len() == 0,
            r.clientbound@.len() == 0,
            r.serverbound.capacity() == cap,
            r.clientbound.capacity() == cap,
    {
        Packets { serverbound: Mailbox::new(cap), clientbound: Mailbox::new(cap) }
    }
}

} // verus!
