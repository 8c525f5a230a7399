//! The sequence generator: fresh identifiers of one domain, in increasing
//! order.

use crate::domain::IdType;
use crate::id::Id;
use vstd::math::min;
use vstd::prelude::*;

verus! {

/// What a draw hands out when it finds the cursor at `cursor`: the cursor
/// itself, unless the cursor stands at the top of the 64-bit range.
pub open spec fn yielded(cursor: u64) -> Option<u64> {
    if cursor < u64::MAX {
        Some(cursor)
    } else {
        None
    }
}

/// Where a draw leaves the cursor that it found at `cursor`: one higher,
/// unless the cursor stands at the top of the 64-bit range, where it stays.
pub open spec fn advanced(cursor: u64) -> u64 {
    if cursor < u64::MAX {
        (cursor + 1) as u64
    } else {
        cursor
    }
}

/// How many identifiers a generator with the cursor at `cursor` has left to
/// hand out.
pub open spec fn remaining(cursor: u64) -> nat {
    (u64::MAX - cursor) as nat
}

/// A generator of fresh identifiers of the domain `T`.
///
/// The generator holds one thing, its cursor: the identifier that the next
/// draw hands out. The view of a generator is the value of its cursor. A fresh
/// generator has the cursor 0. A draw hands out the cursor and moves it up by
/// one; at the top of the 64-bit range the cursor cannot move, and the
/// generator hands out nothing from then on.
pub struct IdIter<T: IdType> {
    next: Id<T>,
}

impl<T: IdType> View for IdIter<T> {
    type V = u64;

    closed spec fn view(&self) -> u64 {
        self.next@
    }
}

impl<T: IdType> Default for IdIter<T> {
    /// A fresh generator: its cursor is the first identifier of the domain.
    fn default() -> (r: Self)
        ensures
            r@ == 0,
    {
        Self { next: Id::first() }
    }
}

impl<T: IdType> IdIter<T> {
    /// A generator whose cursor is `cursor`: its next draw hands out `cursor`,
    /// if it hands out anything.
    pub fn starting_at(cursor: Id<T>) -> (r: Self)
        ensures
            r@ == cursor@,
    {
        Self { next: cursor }
    }

    /// Draws the next identifier.
    ///
    /// Hands out the cursor and advances it by one, as long as the cursor can
    /// be advanced within the 64-bit range. Otherwise hands out nothing and
    /// leaves the generator as it is.
    pub fn next(&mut self) -> (ret: Option<Id<T>>)
        ensures
            ret.deep_view() == yielded(old(self)@),
            final(self)@ == advanced(old(self)@),
    {
        let ret = self.next;

        let id = self.next.as_mut_u64();

        if let Some(next) = id.checked_add(1) {
            *id = next;
            Some(ret)
        } else {
            None
        }
    }

    /// Draws up to `n` identifiers, in the order in which `n` draws hand them
    /// out.
    ///
    /// The result holds `n` identifiers, or as many as the generator has left
    /// if those are fewer: the cursor, the one after it, and so on. The cursor
    /// moves up by the number of identifiers drawn.
    pub fn take(&mut self, n: usize) -> (ret: Vec<Id<T>>)
        ensures
            ret@.len() == min(n as int, remaining(old(self)@) as int),
            forall|i: int| 0 <= i < ret@.len() ==> (#[trigger] ret@[i])@ == old(self)@ + i,
            final(self)@ == old(self)@ + ret@.len(),
    {
        let mut ret: Vec<Id<T>> = Vec::new();
        let mut drawn: usize = 0;
        while drawn < n
            invariant
                drawn <= n,
                ret@.len() == drawn,
                self@ == old(self)@ + drawn,
                forall|i: int| 0 <= i < ret@.len() ==> (#[trigger] ret@[i])@ == old(self)@ + i,
            ensures
                ret@.len() == min(n as int, remaining(old(self)@) as int),
                self@ == old(self)@ + ret@.len(),
                forall|i: int| 0 <= i < ret@.len() ==> (#[trigger] ret@[i])@ == old(self)@ + i,
            decreases n - drawn,
        {
            match self.next() {
                Some(id) => {
                    ret.push(id);
                    drawn = drawn + 1;
                },
                None => {
                    break ;
                },
            }
        }
        ret
    }
}

/// Whether `cursors` and `outs` record successive draws on one generator: the
/// draw number `i` found the cursor at `cursors[i]`, handed out the
/// identifier with the value `outs[i]`, if any, and left the cursor at
/// `cursors[i + 1]`.
pub open spec fn is_run(cursors: Seq<u64>, outs: Seq<Option<u64>>) -> bool {
    &&& cursors.len() == outs.len() + 1
    &&& forall|i: int|
        #![trigger outs[i]]
        0 <= i < outs.len() ==> {
            &&& outs[i] == yielded(cursors[i])
            &&& cursors[i + 1] == advanced(cursors[i])
        }
}

/// In a run of draws, the draw number `k` finds the cursor `k` above where
/// the first draw found it, or at the top of the 64-bit range if that is
/// lower.
proof fn lemma_cursor_in_run(cursors: Seq<u64>, outs: Seq<Option<u64>>, k: int)
    requires
        is_run(cursors, outs),
        0 <= k <= outs.len(),
    ensures
        cursors[k] == min(cursors[0] + k, u64::MAX as int),
    decreases k,
{
    if k > 0 {
        lemma_cursor_in_run(cursors, outs, k - 1);
        assert(outs[k - 1] == yielded(cursors[k - 1]));
    }
}

/// Successive draws are determined by the cursor that the first one finds:
/// the draw number `i` hands out the value `i` above that cursor as long as
/// this is below the top of the 64-bit range, and nothing once it is not; the
/// cursor climbs by one with each draw until it stands at the top, and stays
/// there.
pub proof fn lemma_run_is_determined(cursors: Seq<u64>, outs: Seq<Option<u64>>)
    requires
        is_run(cursors, outs),
    ensures
        forall|i: int|
            #![trigger cursors[i]]
            0 <= i <= outs.len() ==> cursors[i] == min(cursors[0] + i, u64::MAX as int),
        forall|i: int|
            #![trigger outs[i]]
            0 <= i < outs.len() ==> outs[i] == if cursors[0] + i < u64::MAX {
                Some((cursors[0] + i) as u64)
            } else {
                None
            },
{
    assert forall|i: int| 0 <= i <= outs.len() implies #[trigger] cursors[i] == min(
        cursors[0] + i,
        u64::MAX as int,
    ) by {
        lemma_cursor_in_run(cursors, outs, i);
    }
    assert forall|i: int| 0 <= i < outs.len() implies #[trigger] outs[i] == if cursors[0] + i
        < u64::MAX {
        Some((cursors[0] + i) as u64)
    } else {
        None
    } by {
        lemma_cursor_in_run(cursors, outs, i);
    }
}

/// Drawing `n` times from a fresh generator hands out the values
/// 0, 1, ..., `n - 1` in this order and leaves the cursor at `n`, for every
/// `n` that the 64-bit range admits.
pub proof fn lemma_fresh_run_counts_up(cursors: Seq<u64>, outs: Seq<Option<u64>>)
    requires
        is_run(cursors, outs),
        cursors[0] == 0,
        outs.len() <= u64::MAX,
    ensures
        forall|i: int| #![trigger outs[i]] 0 <= i < outs.len() ==> outs[i] == Some(i as u64),
        cursors[outs.len() as int] == outs.len(),
{
    lemma_run_is_determined(cursors, outs);
}

/// A generator whose cursor stands at the top of the 64-bit range is
/// exhausted for good: every draw hands out nothing and leaves the cursor
/// where it is, however many draws are made.
pub proof fn lemma_exhausted_stays_exhausted(cursors: Seq<u64>, outs: Seq<Option<u64>>)
    requires
        is_run(cursors, outs),
        cursors[0] == u64::MAX,
    ensures
        forall|i: int| #![trigger outs[i]] 0 <= i < outs.len() ==> outs[i] is None,
        forall|i: int| #![trigger cursors[i]] 0 <= i <= outs.len() ==> cursors[i] == u64::MAX,
{
    lemma_run_is_determined(cursors, outs);
}

/// The last identifier that a generator hands out is the one just below the
/// top of the 64-bit range: a generator whose cursor stands there hands it
/// out once, and nothing on every draw after that.
pub proof fn lemma_last_draw_then_nothing(cursors: Seq<u64>, outs: Seq<Option<u64>>)
    requires
        is_run(cursors, outs),
        cursors[0] == u64::MAX - 1,
        outs.len() >= 1,
    ensures
        outs[0] == Some((u64::MAX - 1) as u64),
        forall|i: int| #![trigger outs[i]] 1 <= i < outs.len() ==> outs[i] is None,
        forall|i: int| #![trigger cursors[i]] 1 <= i <= outs.len() ==> cursors[i] == u64::MAX,
{
    lemma_run_is_determined(cursors, outs);
}

/// What successive draws hand out is strictly increasing: a later draw hands
/// out a higher value than an earlier one, if it hands out anything.
pub proof fn lemma_run_is_increasing(cursors: Seq<u64>, outs: Seq<Option<u64>>, i: int, j: int)
    requires
        is_run(cursors, outs),
        0 <= i < j < outs.len(),
        outs[j] is Some,
    ensures
        outs[i] is Some,
        outs[i]->0 < outs[j]->0,
{
    lemma_run_is_determined(cursors, outs);
}

} // verus!
