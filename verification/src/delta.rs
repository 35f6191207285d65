//! Delta window: the circular buffer that supplies "the temperature
//! exactly `N` samples ago" in a single call.
//!
//! Each `push` writes the newest reading and hands back the reading it
//! evicts, which entered `N` pushes earlier. A fresh window is filled
//! with the first observed value, so the first deltas are all zero.

use vstd::prelude::*;

use crate::history::lemma_pushed_all_long;
use crate::history::lemma_pushed_all_short;
use crate::history::pushed;
use crate::history::pushed_all;

verus! {

/// How many cycles back the evaluator's delta comparison reaches.
pub const DELTA_DEPTH: usize = 5;

/// Circular window over the most recent `N` centidegree temperatures.
pub struct Queue<const N: usize> {
    pointer: usize,
    array: Vec<i32>,
}

impl<const N: usize> Queue<N> {
    pub closed spec fn slots(&self) -> Seq<i32> {
        self.array@
    }

    pub closed spec fn cursor(&self) -> int {
        self.pointer as int
    }

    pub open spec fn wf(&self) -> bool {
        &&& self.slots().len() == N
        &&& 0 <= self.cursor() < N
    }

    /// The window oldest-first: the value about to be evicted comes
    /// first, the most recent push last.
    pub open spec fn window(&self) -> Seq<i32> {
        self.slots().subrange(self.cursor(), N as int) + self.slots().subrange(0, self.cursor())
    }

    /// A window with every slot holding the first observed value.
    pub fn new(default: i32) -> (r: Self)
        requires
            N >= 1,
        ensures
            r.wf(),
            r.window() == Seq::new(N as nat, |i: int| default),
    {
        let mut array: Vec<i32> = Vec::new();
        let mut i: usize = 0;
        while i < N
            invariant
                i <= N,
                array@.len() == i,
                forall|j: int| 0 <= j < i ==> array@[j] == default,
            decreases N - i,
        {
            array.push(default);
            i += 1;
        }
        let r = Queue { pointer: 0, array };
        proof {
            assert(r.window() =~= Seq::new(N as nat, |i: int| default));
        }
        r
    }

    /// Writes `temp` at the cursor and returns the value that occupied
    /// the slot before the write: the reading from `N` pushes ago.
    pub fn push(&mut self, temp: i32) -> (last: i32)
        requires
            old(self).wf(),
        ensures
            final(self).wf(),
            last == old(self).window()[0],
            final(self).window() == pushed(old(self).window(), temp),
    {
        let last_temp = self.array[self.pointer];
        self.array[self.pointer] = temp;
        if self.pointer + 1 == N {
            self.pointer = 0;
        } else {
            self.pointer += 1;
        }
        proof {
            assert(self.window() =~= pushed(old(self).window(), temp));
        }
        last_temp
    }
}

/// Law: in a run that starts from a window of depth `n` filled with
/// `fill` and pushes the values `vs` in order, the `k`-th push returns
/// the fill value while `k <= n`, and afterwards the value supplied on
/// the `(k − n)`-th push.
pub proof fn lemma_delta_window_return(fill: i32, vs: Seq<i32>, n: nat, k: int)
    requires
        n >= 1,
        1 <= k <= vs.len(),
    ensures
        ({
            let before = pushed_all(Seq::new(n, |i: int| fill), vs.subrange(0, k - 1));
            before[0] == if k <= n {
                fill
            } else {
                vs[k - 1 - n]
            }
        }),
{
    let init = Seq::new(n, |i: int| fill);
    let taken = vs.subrange(0, k - 1);
    if k - 1 <= n {
        lemma_pushed_all_short(init, taken);
        if k - 1 < n {
            assert(pushed_all(init, taken)[0] == init[k - 1]);
        } else {
            assert(pushed_all(init, taken)[0] == taken[0]);
        }
    } else {
        lemma_pushed_all_long(init, taken);
        assert(pushed_all(init, taken)[0] == taken[k - 1 - n]);
    }
}

} // verus!
