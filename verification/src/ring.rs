//! Fixed-capacity circular FIFO of samples: a backing array whose
//! length never changes after construction, a head index and a count.
//! Push and pop are constant-time, as a realtime producer or consumer
//! needs; the embedding program guards each shared buffer with its own
//! lock.
//!
//! Overflow policy: a push against a full buffer drops the new sample
//! (the producer never blocks and never overwrites old data).
//! Underflow policy: a pop against an empty buffer yields no value and
//! the consumer substitutes a fill value (silence).

use vstd::pervasive::VecAdditionalExecFns;
use vstd::prelude::*;

verus! {

/// Fixed-capacity circular FIFO sample buffer.
///
/// The abstract value (the view) is the sequence of buffered samples,
/// oldest first; its length never exceeds the capacity.
pub struct RingBuffer<T> {
    data: Vec<T>,
    head: usize,
    len: usize,
}

/// One push against a buffer holding `s` with capacity `cap`: the sample
/// is appended if there is room and dropped otherwise.
pub open spec fn push_model<T>(s: Seq<T>, cap: nat, x: T) -> Seq<T> {
    if s.len() < cap {
        s.push(x)
    } else {
        s
    }
}

/// Repeated pushes of every sample of `xs` in order, each one subject
/// to the drop-on-full policy of `push_model`.
pub open spec fn push_all_model<T>(s: Seq<T>, cap: nat, xs: Seq<T>) -> Seq<T>
    decreases xs.len(),
{
    if xs.len() == 0 {
        s
    } else {
        push_all_model(push_model(s, cap, xs[0]), cap, xs.drop_first())
    }
}

/// Pushing `xs` into a buffer holding `s` keeps `s` untouched, appends
/// exactly the oldest pushes that fit, drops the newest ones beyond the
/// capacity, and never lets the length exceed the capacity.
pub proof fn lemma_push_all_model<T>(s: Seq<T>, cap: nat, xs: Seq<T>)
    requires
        s.len() <= cap,
    ensures
        push_all_model(s, cap, xs) == s + xs.take(vstd::math::min(
            xs.len() as int,
            cap - s.len(),
        )),
        push_all_model(s, cap, xs).len() <= cap,
    decreases xs.len(),
{
    let keep = vstd::math::min(xs.len() as int, cap - s.len());
    if xs.len() == 0 {
        assert(push_all_model(s, cap, xs) =~= s + xs.take(keep));
    } else if s.len() < cap {
        let s1 = s.push(xs[0]);
        lemma_push_all_model(s1, cap, xs.drop_first());
        let keep1 = vstd::math::min(xs.drop_first().len() as int, cap - s1.len());
        assert(keep == keep1 + 1);
        assert(s1 + xs.drop_first().take(keep1) =~= s + xs.take(keep));
    } else {
        lemma_push_all_model(s, cap, xs.drop_first());
        let keep1 = vstd::math::min(xs.drop_first().len() as int, cap - s.len());
        assert(s + xs.drop_first().take(keep1) =~= s + xs.take(keep));
    }
}

/// FIFO law: a sequence of pushes that does not exceed the capacity is
/// retained whole and in order, so the run of pops that follows (each
/// pop returning the head of the view) yields exactly the pushed
/// samples, oldest first.
pub proof fn lemma_fifo_within_capacity<T>(cap: nat, xs: Seq<T>)
    requires
        xs.len() <= cap,
    ensures
        push_all_model(Seq::<T>::empty(), cap, xs) == xs,
{
    lemma_push_all_model(Seq::<T>::empty(), cap, xs);
    assert(Seq::<T>::empty() + xs.take(xs.len() as int) =~= xs);
}

/// Overflow law: a push sequence longer than the capacity fills the
/// buffer with its oldest `cap` samples; every newer push is dropped and
/// the length never exceeds the capacity.
pub proof fn lemma_overflow_drops_newest<T>(cap: nat, xs: Seq<T>)
    requires
        xs.len() >= cap,
    ensures
        push_all_model(Seq::<T>::empty(), cap, xs) == xs.take(cap as int),
        push_all_model(Seq::<T>::empty(), cap, xs).len() <= cap,
{
    lemma_push_all_model(Seq::<T>::empty(), cap, xs);
    assert(Seq::<T>::empty() + xs.take(cap as int) =~= xs.take(cap as int));
}

impl<T> View for RingBuffer<T> {
    type V = Seq<T>;

    closed spec fn view(&self) -> Seq<T> {
        let cap = self.data@.len() as int;
        let head = self.head as int;
        let len = self.len as int;
        if head + len <= cap {
            self.data@.subrange(head, head + len)
        } else {
            self.data@.subrange(head, cap) + self.data@.subrange(0, head + len - cap)
        }
    }
}

impl<T> RingBuffer<T> {
    #[verifier::type_invariant]
    spec fn inv(&self) -> bool {
        &&& self.len <= self.data@.len()
        &&& (self.data@.len() == 0 ==> self.head == 0)
        &&& (self.data@.len() > 0 ==> self.head < self.data@.len())
    }
}

impl<T: Copy + Default> RingBuffer<T> {
    /// An empty buffer of the given fixed capacity. The backing array
    /// is allocated whole here and its length never changes again.
    pub fn new(capacity: usize) -> (r: Self)
        ensures
            r@ == Seq::<T>::empty(),
            r.cap() == capacity as nat,
    {
        let mut data: Vec<T> = Vec::new();
        let mut i: usize = 0;
        while i < capacity
            invariant
                i <= capacity,
                data@.len() == i as nat,
            decreases capacity - i,
        {
            data.push(T::default());
            i = i + 1;
        }
        let r = RingBuffer { data, head: 0, len: 0 };
        proof {
            assert(r@ =~= Seq::<T>::empty());
        }
        r
    }
}

impl<T: Copy> RingBuffer<T> {
    /// Capacity the buffer was created with: the backing array's
    /// unchanging length.
    pub closed spec fn cap(&self) -> nat {
        self.data@.len()
    }

    /// Slot of the backing array that holds view index `i`.
    spec fn slot(&self, i: int) -> int {
        if i < self.data@.len() - self.head {
            self.head + i
        } else {
            i - (self.data@.len() - self.head)
        }
    }

    /// Number of buffered samples; never exceeds the capacity.
    pub fn len(&self) -> (r: usize)
        ensures
            r == self@.len(),
            r as nat <= self.cap(),
    {
        proof {
            use_type_invariant(self);
        }
        self.len
    }

    /// Appends the sample if the buffer has room; drops it otherwise.
    /// Returns whether the sample was accepted.
    pub fn push(&mut self, value: T) -> (accepted: bool)
        ensures
            final(self).cap() == old(self).cap(),
            final(self)@ == push_model(old(self)@, old(self).cap(), value),
            accepted == (old(self)@.len() < old(self).cap()),
    {
        proof {
            use_type_invariant(&*self);
        }
        if self.len < self.data.len() {
            let idx = if self.len < self.data.len() - self.head {
                self.head + self.len
            } else {
                self.len - (self.data.len() - self.head)
            };
            let head = self.head;
            let len = self.len;
            self.head = 0;
            self.len = 0;
            let mut data: Vec<T> = Vec::new();
            std::mem::swap(&mut data, &mut self.data);
            data.set(idx, value);
            std::mem::swap(&mut data, &mut self.data);
            self.head = head;
            self.len = len + 1;
            proof {
                assert(final(self)@ =~= old(self)@.push(value));
            }
            true
        } else {
            proof {
                assert(final(self)@ =~= old(self)@);
            }
            false
        }
    }

    /// Removes and returns the oldest sample, or nothing if empty.
    pub fn pop(&mut self) -> (r: Option<T>)
        ensures
            final(self).cap() == old(self).cap(),
            match r {
                Some(v) => old(self)@.len() > 0 && v == old(self)@[0] && final(self)@
                    == old(self)@.drop_first(),
                None => old(self)@.len() == 0 && final(self)@ == old(self)@,
            },
    {
        proof {
            use_type_invariant(&*self);
        }
        if self.len > 0 {
            let v = self.data[self.head];
            let n = self.data.len();
            self.head = if self.head + 1 == n {
                0
            } else {
                self.head + 1
            };
            self.len = self.len - 1;
            proof {
                assert(final(self)@ =~= old(self)@.drop_first());
            }
            Some(v)
        } else {
            None
        }
    }

    /// Removes and returns the oldest sample, substituting `fill`
    /// (silence, for a render consumer) if the buffer is empty.
    pub fn pop_or(&mut self, fill: T) -> (r: T)
        ensures
            final(self).cap() == old(self).cap(),
            old(self)@.len() > 0 ==> r == old(self)@[0] && final(self)@ == old(
                self,
            )@.drop_first(),
            old(self)@.len() == 0 ==> r == fill && final(self)@ == old(self)@,
    {
        match self.pop() {
            Some(v) => v,
            None => fill,
        }
    }

    /// Non-destructive copy of the buffered samples, oldest first, for
    /// metering; the buffer itself is left untouched.
    pub fn snapshot(&self) -> (r: Vec<T>)
        ensures
            r@ == self@,
    {
        proof {
            use_type_invariant(self);
        }
        let mut r: Vec<T> = Vec::new();
        let mut i: usize = 0;
        while i < self.len
            invariant
                self.inv(),
                i <= self.len,
                r@ =~= self@.take(i as int),
            decreases self.len - i,
        {
            let idx = if i < self.data.len() - self.head {
                self.head + i
            } else {
                i - (self.data.len() - self.head)
            };
            proof {
                assert(self@[i as int] == self.data@[self.slot(i as int)]);
            }
            r.push(self.data[idx]);
            i = i + 1;
        }
        proof {
            assert(self@.take(self.len as int) =~= self@);
        }
        r
    }

    /// Capacity the buffer was created with.
    pub fn capacity(&self) -> (r: usize)
        ensures
            r as nat == self.cap(),
    {
        self.data.len()
    }

    /// Whether the buffer holds no samples.
    pub fn is_empty(&self) -> (r: bool)
        ensures
            r == (self@.len() == 0),
    {
        proof {
            use_type_invariant(self);
        }
        self.len == 0
    }
}

} // verus!
