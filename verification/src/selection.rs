//! Selection policies: pick one backend per call out of the currently
//! healthy snapshot. Round robin is the default policy; anything that
//! implements `SelectionPolicy` can stand in its place without touching the
//! registry or the proxy handler.

use vstd::prelude::*;
use crate::registry::Backend;

verus! {

/// The outcome of one selection call. An empty healthy set is a distinct,
/// reportable outcome, not an error of the policy.
pub enum Selection {
    Chosen(Backend),
    NoneAvailable,
}

/// The index a round-robin cursor picks out of a snapshot of length `n`.
pub open spec fn rr_index(cursor: int, n: int) -> int
    recommends
        n > 0,
{
    cursor % n
}

/// A policy chooses one backend from a healthy snapshot, using whatever
/// internal state it keeps. Every policy returns `NoneAvailable` exactly on
/// the empty snapshot, and anything it chooses is a member of the snapshot.
pub trait SelectionPolicy: Sized {
    fn pick(&mut self, snapshot: &Vec<Backend>) -> (r: Selection)
        ensures
            (r matches Selection::NoneAvailable) <==> snapshot@.len() == 0,
            (r matches Selection::Chosen(b) ==> exists|k: int|
                0 <= k < snapshot@.len() && b == snapshot@[k]),
    ;
}

/// Round robin: a cursor that advances by one on every selection from a
/// non-empty snapshot, reduced modulo the snapshot length at call time.
pub struct RoundRobin {
    cursor: u64,
}

impl RoundRobin {
    /// The cursor value the next selection will use.
    pub closed spec fn cursor(&self) -> u64 {
        self.cursor
    }

    /// A fresh policy whose first pick from a non-empty snapshot is the
    /// snapshot's first entry.
    pub fn new() -> (r: RoundRobin)
        ensures
            r.cursor() == 0,
    {
        RoundRobin { cursor: 0 }
    }

    /// One round-robin selection. On a non-empty snapshot the entry at
    /// `cursor % len` is returned and the cursor advances by exactly one
    /// (wrapping at the machine limit); on an empty snapshot the call
    /// returns `NoneAvailable`, leaves the cursor alone, and neither blocks
    /// nor panics.
    pub fn select(&mut self, snapshot: &Vec<Backend>) -> (r: Selection)
        ensures
            (r matches Selection::NoneAvailable) <==> snapshot@.len() == 0,
            snapshot@.len() == 0 ==> final(self).cursor() == old(self).cursor(),
            snapshot@.len() > 0 ==> {
                &&& (r matches Selection::Chosen(b) &&
                    b == snapshot@[rr_index(old(self).cursor() as int, snapshot@.len() as int)])
                &&& final(self).cursor() == if old(self).cursor() == u64::MAX {
                    0u64
                } else {
                    (old(self).cursor() + 1) as u64
                }
            },
    {
        if snapshot.len() == 0 {
            return Selection::NoneAvailable;
        }
        let n: u64 = snapshot.len() as u64;
        let rem: u64 = self.cursor % n;
        proof {
            assert(rem < n);
            assert(snapshot@.len() <= usize::MAX);
        }
        let idx: usize = rem as usize;
        let chosen = snapshot[idx].clone();
        self.cursor = if self.cursor == u64::MAX {
            0
        } else {
            self.cursor + 1
        };
        Selection::Chosen(chosen)
    }
}

/// How often round robin lands on index `j` over `m` successive
/// selections whose cursors are `c`, `c + 1`, ..., `c + m - 1`, against a
/// fixed snapshot of length `n` — exactly the indices `select` returns
/// while the healthy set does not change and the cursor does not wrap.
pub open spec fn rr_hits(c: int, m: nat, n: int, j: int) -> nat
    decreases m,
{
    if m == 0 {
        0
    } else {
        (if rr_index(c, n) == j {
            1nat
        } else {
            0nat
        }) + rr_hits(c + 1, (m - 1) as nat, n, j)
    }
}

/// How many calls it takes a cursor at `c` (already reduced modulo `n`)
/// to land on index `j`.
spec fn rr_gap(c: int, n: int, j: int) -> int {
    if j >= c {
        j - c
    } else {
        j - c + n
    }
}

/// Advancing the starting cursor by a whole lap changes nothing.
proof fn lemma_rr_hits_shift(c: int, m: nat, n: int, j: int)
    requires
        n > 0,
    ensures
        rr_hits(c + n, m, n, j) == rr_hits(c, m, n, j),
    decreases m,
{
    if m > 0 {
        vstd::arithmetic::div_mod::lemma_mod_multiples_vanish(1, c, n);
        assert((c + n) % n == c % n);
        lemma_rr_hits_shift(c + 1, (m - 1) as nat, n, j);
    }
}

/// The starting cursor only matters modulo the snapshot length.
proof fn lemma_rr_hits_norm(c: int, m: nat, n: int, j: int)
    requires
        n > 0,
        c >= 0,
    ensures
        rr_hits(c, m, n, j) == rr_hits(c % n, m, n, j),
    decreases c,
{
    if c < n {
        vstd::arithmetic::div_mod::lemma_small_mod(c as nat, n as nat);
    } else {
        vstd::arithmetic::div_mod::lemma_mod_sub_multiples_vanish(c, n);
        lemma_rr_hits_shift(c - n, m, n, j);
        lemma_rr_hits_norm(c - n, m, n, j);
    }
}

/// Within a partial lap of `m <= n` calls from a reduced cursor, index
/// `j` is hit exactly once if its gap is inside the lap, else not at all.
proof fn lemma_rr_hits_small(c: int, m: nat, n: int, j: int)
    requires
        0 <= c < n,
        0 <= j < n,
        m <= n,
    ensures
        rr_hits(c, m, n, j) == if rr_gap(c, n, j) < m {
            1nat
        } else {
            0nat
        },
    decreases m,
{
    vstd::arithmetic::div_mod::lemma_small_mod(c as nat, n as nat);
    if m > 0 {
        if c + 1 < n {
            lemma_rr_hits_small(c + 1, (m - 1) as nat, n, j);
        } else {
            lemma_rr_hits_shift(0, (m - 1) as nat, n, j);
            lemma_rr_hits_small(0, (m - 1) as nat, n, j);
        }
    }
}

/// One full lap of `n` calls hits every index exactly once.
proof fn lemma_rr_window(c: int, n: int, j: int)
    requires
        n > 0,
        0 <= j < n,
        c >= 0,
    ensures
        rr_hits(c, n as nat, n, j) == 1,
{
    lemma_rr_hits_norm(c, n as nat, n, j);
    vstd::arithmetic::div_mod::lemma_mod_bound(c, n);
    lemma_rr_hits_small(c % n, n as nat, n, j);
}

/// A run of calls splits into two runs, the second starting where the
/// first left the cursor.
proof fn lemma_rr_hits_split(c: int, a: nat, b: nat, n: int, j: int)
    ensures
        rr_hits(c, a + b, n, j) == rr_hits(c, a, n, j) + rr_hits(c + a, b, n, j),
    decreases a,
{
    if a > 0 {
        lemma_rr_hits_split(c + 1, (a - 1) as nat, b, n, j);
    }
}

/// Law: round robin is fair. Over `m` successive selections against a
/// fixed snapshot of `n` backends, starting from any cursor `c`, each
/// backend index `j` is chosen at least `m / n` times (rounding down) and
/// at most `(m + n - 1) / n` times (rounding up).
pub proof fn lemma_round_robin_fair(c: int, m: nat, n: int, j: int)
    requires
        c >= 0,
        n > 0,
        0 <= j < n,
    ensures
        m as int / n <= rr_hits(c, m, n, j),
        rr_hits(c, m, n, j) <= (m as int + n - 1) / n,
    decreases m,
{
    if m < n {
        lemma_rr_hits_norm(c, m, n, j);
        vstd::arithmetic::div_mod::lemma_mod_bound(c, n);
        lemma_rr_hits_small(c % n, m, n, j);
        vstd::arithmetic::div_mod::lemma_basic_div(m as int, n);
        if m == 0 {
            vstd::arithmetic::div_mod::lemma_basic_div(n - 1, n);
        } else {
            vstd::arithmetic::div_mod::lemma_div_plus_one(m as int - 1, n);
            vstd::arithmetic::div_mod::lemma_basic_div(m as int - 1, n);
        }
    } else {
        lemma_rr_hits_split(c, n as nat, (m - n) as nat, n, j);
        lemma_rr_window(c, n, j);
        lemma_rr_hits_shift(c, (m - n) as nat, n, j);
        lemma_round_robin_fair(c, (m - n) as nat, n, j);
        vstd::arithmetic::div_mod::lemma_div_plus_one(m as int - n, n);
        vstd::arithmetic::div_mod::lemma_div_plus_one(m as int - 1, n);
    }
}

/// The selection counts of backend indices `0` to `jk - 1` over `m`
/// calls, added up.
pub open spec fn rr_hits_sum(c: int, m: nat, n: int, jk: nat) -> nat
    decreases jk,
{
    if jk == 0 {
        0
    } else {
        rr_hits_sum(c, m, n, (jk - 1) as nat) + rr_hits(c, m, n, jk - 1)
    }
}

/// Zero calls select nothing, whatever the range of indices.
proof fn lemma_rr_sum_zero(c: int, n: int, jk: nat)
    ensures
        rr_hits_sum(c, 0, n, jk) == 0,
    decreases jk,
{
    if jk > 0 {
        lemma_rr_sum_zero(c, n, (jk - 1) as nat);
    }
}

/// Peeling the first of `m > 0` calls off the summed counts leaves the
/// sum over the remaining `m - 1` calls plus one hit if the first call's
/// index lies in the summed range.
proof fn lemma_rr_sum_peel(c: int, m: nat, n: int, jk: nat)
    requires
        m > 0,
        c >= 0,
        n > 0,
    ensures
        rr_hits_sum(c, m, n, jk) == (if c % n < jk {
            1nat
        } else {
            0nat
        }) + rr_hits_sum(c + 1, (m - 1) as nat, n, jk),
    decreases jk,
{
    vstd::arithmetic::div_mod::lemma_mod_bound(c, n);
    if jk > 0 {
        lemma_rr_sum_peel(c, m, n, (jk - 1) as nat);
    }
}

/// Law: no selection is lost and none is duplicated. Over `m` successive
/// round-robin selections against a fixed snapshot of `n` backends, the
/// per-backend selection counts add up to exactly `m`: every call lands
/// on exactly one backend and advances the rotation exactly once.
pub proof fn lemma_selection_conservation(c: int, m: nat, n: int)
    requires
        c >= 0,
        n > 0,
    ensures
        rr_hits_sum(c, m, n, n as nat) == m,
    decreases m,
{
    if m == 0 {
        lemma_rr_sum_zero(c, n, n as nat);
    } else {
        lemma_rr_sum_peel(c, m, n, n as nat);
        vstd::arithmetic::div_mod::lemma_mod_bound(c, n);
        lemma_selection_conservation(c + 1, (m - 1) as nat, n);
    }
}

impl SelectionPolicy for RoundRobin {
    fn pick(&mut self, snapshot: &Vec<Backend>) -> (r: Selection) {
        let r = self.select(snapshot);
        proof {
            if snapshot@.len() > 0 {
                vstd::arithmetic::div_mod::lemma_mod_bound(
                    old(self).cursor() as int,
                    snapshot@.len() as int,
                );
            }
        }
        r
    }
}

} // verus!
