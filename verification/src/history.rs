//! Fixed-capacity circular store for one channel's sample history.
//!
//! A `History<T, N>` keeps the `N` most recent values pushed into it. The
//! cursor always addresses the next slot to overwrite, which by
//! construction holds the oldest surviving value; `get_current_value`
//! deliberately exposes that oldest resident value, and
//! `get_values_ordered` walks the ring from the cursor to produce the
//! values oldest-first.

use vstd::prelude::*;

verus! {

/// Ordered snapshot of a full ring after one more push: the oldest value
/// falls out at the front and the new value enters at the back.
pub open spec fn pushed<T>(s: Seq<T>, v: T) -> Seq<T> {
    s.drop_first().push(v)
}

/// Ordered snapshot of a full ring after a whole sequence of pushes,
/// applied left to right.
pub open spec fn pushed_all<T>(s: Seq<T>, vs: Seq<T>) -> Seq<T>
    decreases vs.len(),
{
    if vs.len() == 0 {
        s
    } else {
        pushed_all(pushed(s, vs.first()), vs.drop_first())
    }
}

/// After `k <= N` pushes the snapshot keeps the `N - k` oldest survivors
/// in front and ends with the pushed values in write order.
pub proof fn lemma_pushed_all_short<T>(s: Seq<T>, vs: Seq<T>)
    requires
        vs.len() <= s.len(),
    ensures
        pushed_all(s, vs) == s.subrange(vs.len() as int, s.len() as int) + vs,
    decreases vs.len(),
{
    if vs.len() == 0 {
        assert(s.subrange(0, s.len() as int) + vs =~= s);
    } else {
        let v = vs.first();
        let p = pushed(s, v);
        lemma_pushed_all_short(p, vs.drop_first());
        let k = vs.len() as int;
        let n = s.len() as int;
        assert(p.subrange(k - 1, n) =~= s.subrange(k, n).push(v));
        assert(s.subrange(k, n).push(v) + vs.drop_first() =~= s.subrange(k, n) + vs);
    }
}

/// Law: for any run of exactly `N` pushes into a ring of capacity `N`,
/// the ordered snapshot is exactly the pushed values in write order,
/// oldest first, with no omissions or duplicates.
pub proof fn lemma_snapshot_of_full_round<T>(s: Seq<T>, vs: Seq<T>)
    requires
        vs.len() == s.len(),
    ensures
        pushed_all(s, vs) == vs,
{
    lemma_pushed_all_short(s, vs);
    assert(s.subrange(s.len() as int, s.len() as int) + vs =~= vs);
}

/// Law: once at least `N` values went in, the snapshot is exactly the
/// `N` most recent pushed values in write order, oldest first.
pub proof fn lemma_pushed_all_long<T>(s: Seq<T>, vs: Seq<T>)
    requires
        s.len() >= 1,
        vs.len() >= s.len(),
    ensures
        pushed_all(s, vs) == vs.subrange(vs.len() - s.len(), vs.len() as int),
    decreases vs.len(),
{
    if vs.len() == s.len() {
        lemma_snapshot_of_full_round(s, vs);
        assert(vs.subrange(0, vs.len() as int) =~= vs);
    } else {
        let v = vs.first();
        let p = pushed(s, v);
        lemma_pushed_all_long(p, vs.drop_first());
        assert(vs.drop_first().subrange(vs.len() - 1 - s.len(), vs.len() - 1) =~= vs.subrange(
            vs.len() - s.len(),
            vs.len() as int,
        ));
    }
}

/// Circular buffer of the `N` most recent values of one channel.
pub struct History<T, const N: usize> {
    inner_values: Vec<T>,
    pointer: usize,
}

impl<T: Copy, const N: usize> History<T, N> {
    /// The raw slots, in storage order.
    pub closed spec fn slots(&self) -> Seq<T> {
        self.inner_values@
    }

    /// Index of the next slot to overwrite; it holds the oldest value.
    pub closed spec fn cursor(&self) -> int {
        self.pointer as int
    }

    pub open spec fn wf(&self) -> bool {
        &&& self.slots().len() == N
        &&& 0 <= self.cursor() < N
    }

    /// The slots read circularly from the cursor: oldest value first,
    /// most recent value last.
    pub open spec fn ordered(&self) -> Seq<T> {
        self.slots().subrange(self.cursor(), N as int) + self.slots().subrange(0, self.cursor())
    }

    /// A ring with every slot holding the filler `val`.
    pub fn default_value(val: T) -> (r: Self)
        requires
            N >= 1,
        ensures
            r.wf(),
            r.ordered() == Seq::new(N as nat, |i: int| val),
            r.cursor() == 0,
    {
        let mut inner_values: Vec<T> = Vec::new();
        let mut i: usize = 0;
        while i < N
            invariant
                i <= N,
                inner_values@.len() == i,
                forall|j: int| 0 <= j < i ==> inner_values@[j] == val,
            decreases N - i,
        {
            inner_values.push(val);
            i += 1;
        }
        let r = History { inner_values, pointer: 0 };
        proof {
            assert(r.ordered() =~= Seq::new(N as nat, |i: int| val));
        }
        r
    }

    /// Writes `val` at the cursor, then advances the cursor by one
    /// modulo `N`; never fails.
    pub fn push_value(&mut self, val: T)
        requires
            old(self).wf(),
        ensures
            final(self).wf(),
            final(self).ordered() == pushed(old(self).ordered(), val),
            final(self).cursor() == (old(self).cursor() + 1) % (N as int),
    {
        self.inner_values[self.pointer] = val;
        self.pointer += 1;
        if self.pointer >= N {
            self.pointer = 0;
        }
        proof {
            assert(self.ordered() =~= pushed(old(self).ordered(), val));
            if old(self).cursor() + 1 < N {
                vstd::arithmetic::div_mod::lemma_small_mod((old(self).cursor() + 1) as nat, N as nat);
            } else {
                vstd::arithmetic::div_mod::lemma_mod_self_0(N as int);
            }
        }
    }

    /// The cursor-addressed slot: the oldest surviving value, the one
    /// about to be overwritten next, not the most recent write.
    pub fn get_current_value(&self) -> (r: &T)
        requires
            self.wf(),
        ensures
            *r == self.ordered()[0],
            *r == self.slots()[self.cursor()],
    {
        &self.inner_values[self.pointer]
    }

    /// All `N` values starting at the cursor and walking forward
    /// circularly: oldest first, most recent last. An O(N) copy; not for
    /// the hot evaluation path.
    pub fn get_values_ordered(&self) -> (r: Vec<T>)
        requires
            self.wf(),
        ensures
            r@ == self.ordered(),
    {
        let mut r: Vec<T> = Vec::new();
        let mut i: usize = self.pointer;
        while i < N
            invariant
                self.wf(),
                self.pointer <= i <= N,
                r@ == self.slots().subrange(self.cursor(), i as int),
            decreases N - i,
        {
            r.push(self.inner_values[i]);
            i += 1;
            proof {
                assert(self.slots().subrange(self.cursor(), i as int) =~= self.slots().subrange(
                    self.cursor(),
                    i - 1,
                ).push(self.slots()[i - 1]));
            }
        }
        let mut j: usize = 0;
        while j < self.pointer
            invariant
                self.wf(),
                j <= self.pointer,
                r@ == self.slots().subrange(self.cursor(), N as int) + self.slots().subrange(
                    0,
                    j as int,
                ),
            decreases self.pointer - j,
        {
            r.push(self.inner_values[j]);
            j += 1;
            proof {
                assert(self.slots().subrange(self.cursor(), N as int) + self.slots().subrange(
                    0,
                    j as int,
                ) =~= (self.slots().subrange(self.cursor(), N as int) + self.slots().subrange(
                    0,
                    j - 1,
                )).push(self.slots()[j - 1]));
            }
        }
        r
    }
}

} // verus!
