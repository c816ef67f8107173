use vstd::prelude::*;

verus! {

/// Two distinct offsets below the ring capacity land on distinct slots.
proof fn lemma_ring_distinct(tail: int, i: int, j: int, m: int)
    requires
        0 < m,
        0 <= i < m,
        0 <= j < m,
        i != j,
        tail >= 0,
    ensures
        (tail + i) % m != (tail + j) % m,
{
    if (tail + i) % m == (tail + j) % m {
        vstd::arithmetic::div_mod::lemma_mod_equivalence(tail + i, tail + j, m);
        vstd::arithmetic::div_mod::lemma_mod_equivalence(tail + j, tail + i, m);
        if i > j {
            vstd::arithmetic::div_mod::lemma_small_mod((i - j) as nat, m as nat);
        } else {
            vstd::arithmetic::div_mod::lemma_small_mod((j - i) as nat, m as nat);
        }
    }
}

/// Reducing the left summand before adding a small offset does not change
/// the slot.
pub proof fn lemma_ring_add(a: int, b: int, m: int)
    requires
        0 < m,
        0 <= b < m,
        a >= 0,
    ensures
        ((a % m) + b) % m == (a + b) % m,
{
    vstd::arithmetic::div_mod::lemma_add_mod_noop(a, b, m);
    vstd::arithmetic::div_mod::lemma_small_mod(b as nat, m as nat);
}

/// Stepping a reduced cursor forward by one, wrapping at the capacity, is
/// addition modulo the capacity.
pub proof fn lemma_ring_step(c: int, m: int)
    requires
        0 < m,
        0 <= c < m,
    ensures
        (c + 1) % m == if c + 1 == m { 0int } else { c + 1 },
{
    if c + 1 == m {
        vstd::arithmetic::div_mod::lemma_mod_self_0(m);
    } else {
        vstd::arithmetic::div_mod::lemma_small_mod((c + 1) as nat, m as nat);
    }
}

/// A fixed-capacity ring buffer. `head` is the next write position, `tail`
/// the next read position, and `count` the number of live elements, which
/// occupy `tail`, `tail + 1`, ... (mod capacity).
#[derive(Debug, Clone)]
pub struct ArrayQueue<T> {
    pub vec: Vec<Option<T>>,
    pub head: usize,
    pub tail: usize,
    pub count: usize,
}

impl<T> ArrayQueue<T> {
    /// Capacity the queue was created with.
    pub open spec fn cap(&self) -> nat {
        self.vec@.len()
    }

    /// Shape invariant: the cursors stay inside the ring, the ring is never
    /// over-filled, the write cursor sits `count` slots past the read
    /// cursor, and every live slot holds a value.
    pub open spec fn wf(&self) -> bool {
        &&& 0 < self.cap()
        &&& self.head < self.cap()
        &&& self.tail < self.cap()
        &&& self.count <= self.cap()
        &&& self.head == (self.tail + self.count) % (self.cap() as int)
        &&& forall|i: int|
            0 <= i < self.count ==> (#[trigger] self.vec@[(self.tail + i) % (self.cap() as int)]) is Some
    }

    /// The live elements, oldest first.
    pub open spec fn view(&self) -> Seq<T> {
        Seq::new(
            self.count as nat,
            |i: int| self.vec@[(self.tail + i) % (self.cap() as int)]->Some_0,
        )
    }

    /// Appends an element at the write cursor. The ring must not be full;
    /// overflowing it is a fatal error.
    pub fn push(&mut self, x: T)
        requires
            old(self).wf(),
            old(self).count < old(self).cap(),
        ensures
            final(self).wf(),
            final(self).cap() == old(self).cap(),
            final(self)@ == old(self)@.push(x),
    {
        let ghost prev = *self;
        let ghost m = prev.cap() as int;
        let n = self.vec.len();
        self.vec[self.head] = Some(x);
        self.head = self.head + 1;
        if self.head == n {
            self.head = 0;
        }
        self.count = self.count + 1;
        proof {
            let t = prev.tail as int;
            let pc = prev.count as int;
            lemma_ring_step(prev.head as int, m);
            if m == 1 {
                vstd::arithmetic::div_mod::lemma_mod_bound(t + pc + 1, m);
            } else {
                lemma_ring_add(t + pc, 1, m);
                vstd::arithmetic::div_mod::lemma_small_mod(1nat, prev.cap());
            }
            assert(self.head == (t + pc + 1) % m);
            assert forall|i: int| 0 <= i < self.count implies (#[trigger] self.vec@[(self.tail
                + i) % m]) is Some by {
                if i < pc {
                    lemma_ring_distinct(t, i, pc, m);
                    assert(prev.vec@[(t + i) % m] is Some);
                } else {
                    assert((t + i) % m == prev.head as int);
                }
            }
            assert(self@ =~= prev@.push(x)) by {
                assert forall|i: int| 0 <= i < self@.len() implies self@[i] == prev@.push(x)[i] by {
                    if i < pc {
                        lemma_ring_distinct(t, i, pc, m);
                    }
                }
            }
        }
    }

    /// Removes and returns the oldest element. The queue must not be empty;
    /// reading an empty queue is a fatal error.
    pub fn pop(&mut self) -> (r: T)
        requires
            old(self).wf(),
            old(self).count > 0,
        ensures
            final(self).wf(),
            final(self).cap() == old(self).cap(),
            final(self)@ == old(self)@.drop_first(),
            r == old(self)@[0],
    {
        let ghost prev = *self;
        let ghost m = prev.cap() as int;
        let n = self.vec.len();
        self.count = self.count - 1;
        let mut slot: Option<T> = None;
        let tail = self.tail;
        proof {
            vstd::arithmetic::div_mod::lemma_small_mod(prev.tail as nat, prev.cap());
            assert(prev.vec@[(prev.tail + 0) % m] is Some);
        }
        core::mem::swap(&mut slot, &mut self.vec[tail]);
        let val = match slot {
            Some(v) => v,
            None => unreached(),
        };
        self.tail = self.tail + 1;
        if self.tail == n {
            self.tail = 0;
        }
        proof {
            let t = prev.tail as int;
            let pc = prev.count as int;
            lemma_ring_step(t, m);
            assert(self.tail == (t + 1) % m);
            lemma_ring_add(t + 1, pc - 1, m);
            assert(self.head == (self.tail + self.count) % m);
            assert forall|i: int| 0 <= i < self.count implies (#[trigger] self.vec@[(self.tail
                + i) % m]) is Some by {
                lemma_ring_add(t + 1, i, m);
                assert((self.tail + i) % m == (t + (i + 1)) % m);
                assert(prev.vec@[(t + (i + 1)) % m] is Some);
                lemma_ring_distinct(t, i + 1, 0, m);
                vstd::arithmetic::div_mod::lemma_small_mod(prev.tail as nat, prev.cap());
            }
            assert(self@ =~= prev@.drop_first()) by {
                assert forall|i: int| 0 <= i < self@.len() implies self@[i] == prev@.drop_first()[i] by {
                    lemma_ring_add(t + 1, i, m);
                    lemma_ring_distinct(t, i + 1, 0, m);
                    vstd::arithmetic::div_mod::lemma_small_mod(prev.tail as nat, prev.cap());
                }
            }
        }
        val
    }

    /// A fresh queue of capacity `sz` with no live elements.
    pub fn new(sz: usize) -> (q: ArrayQueue<T>)
        requires
            sz > 0,
        ensures
            q.wf(),
            q.cap() == sz,
            q@ == Seq::<T>::empty(),
    {
        let mut q = ArrayQueue { vec: vec![], head: 0, tail: 0, count: 0 };
        let mut i: usize = 0;
        while i < sz
            invariant
                q.vec@.len() == i,
                i <= sz,
                q.head == 0,
                q.tail == 0,
                q.count == 0,
            decreases sz - i,
        {
            q.vec.push(None);
            i = i + 1;
        }
        proof {
            vstd::arithmetic::div_mod::lemma_small_mod(0nat, sz as nat);
            assert(q@ =~= Seq::<T>::empty());
        }
        q
    }
}

} // verus!
