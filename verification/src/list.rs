//! An ordered list of entries with at most one highlighted index, moved by
//! `next` / `previous` with circular wraparound and cleared by `unselect`.

use vstd::prelude::*;

verus! {

use vstd::arithmetic::div_mod::lemma_mod_multiples_vanish;
use vstd::arithmetic::div_mod::lemma_small_mod;

/// Where `next` moves the selection in a list of `n` entries: an empty list is
/// left untouched, no selection becomes the first entry, and the last entry
/// wraps around to the first.
pub open spec fn spec_next(sel: Option<usize>, n: nat) -> Option<usize> {
    if n == 0 {
        sel
    } else {
        match sel {
            Some(i) => if i + 1 >= n {
                Some(0usize)
            } else {
                Some((i + 1) as usize)
            },
            None => Some(0usize),
        }
    }
}

/// Where `previous` moves the selection in a list of `n` entries: an empty
/// list is left untouched, no selection becomes the first entry, and the
/// first entry wraps around to the last.
pub open spec fn spec_previous(sel: Option<usize>, n: nat) -> Option<usize> {
    if n == 0 {
        sel
    } else {
        match sel {
            Some(i) => if i == 0 {
                Some((n - 1) as usize)
            } else {
                Some((i - 1) as usize)
            },
            None => Some(0usize),
        }
    }
}

/// A list of entries with at most one highlighted index.
pub struct StatefulList<T> {
    items: Vec<T>,
    selected: Option<usize>,
}

impl<T> StatefulList<T> {
    /// The entries, in order.
    pub closed spec fn items_view(self) -> Seq<T> {
        self.items@
    }

    /// The highlighted index, if any.
    pub closed spec fn sel(self) -> Option<usize> {
        self.selected
    }

    /// The selection, when present, lies within the list.
    pub open spec fn wf(self) -> bool {
        self.sel() matches Some(i) ==> (i as int) < self.items_view().len()
    }

    pub fn with_items(items: Vec<T>) -> (r: StatefulList<T>)
        ensures
            r.items_view() == items@,
            r.sel() is None,
            r.wf(),
    {
        StatefulList { items, selected: None }
    }

    /// Advance the selection by one entry, wrapping past the end back to the
    /// first entry; with no selection, select the first entry. An empty list
    /// is left untouched.
    pub fn next(&mut self)
        ensures
            final(self).items_view() == old(self).items_view(),
            final(self).sel() == spec_next(old(self).sel(), old(self).items_view().len()),
            old(self).wf() ==> final(self).wf(),
    {
        let n = self.items.len();
        if n == 0 {
            return;
        }
        let i: usize = match self.selected {
            Some(i) => if i >= n - 1 {
                0
            } else {
                i + 1
            },
            None => 0,
        };
        self.selected = Some(i);
    }

    /// Move the selection back by one entry, wrapping past the start to the
    /// last entry; with no selection, select the first entry. An empty list
    /// is left untouched.
    pub fn previous(&mut self)
        ensures
            final(self).items_view() == old(self).items_view(),
            final(self).sel() == spec_previous(old(self).sel(), old(self).items_view().len()),
            old(self).wf() ==> final(self).wf(),
    {
        let n = self.items.len();
        if n == 0 {
            return;
        }
        let i: usize = match self.selected {
            Some(i) => if i == 0 {
                n - 1
            } else {
                i - 1
            },
            None => 0,
        };
        self.selected = Some(i);
    }

    /// The highlighted index, if any: a pure read.
    pub fn selected(&self) -> (r: Option<usize>)
        ensures
            r == self.sel(),
    {
        self.selected
    }

    /// The number of entries.
    pub fn len(&self) -> (n: usize)
        ensures
            n == self.items_view().len(),
    {
        self.items.len()
    }

    /// The entry at index `i`.
    pub fn get(&self, i: usize) -> (r: &T)
        requires
            (i as int) < self.items_view().len(),
        ensures
            *r == self.items_view()[i as int],
    {
        &self.items[i]
    }

    /// Clear the selection, whatever the prior state.
    pub fn unselect(&mut self)
        ensures
            final(self).items_view() == old(self).items_view(),
            final(self).sel() is None,
            final(self).wf(),
    {
        self.selected = None;
    }
}

/// A cursor move: one call of `next` or of `previous`.
pub enum MoveOp {
    Next,
    Previous,
}

/// The selection after one move on a list of `n` entries.
pub open spec fn apply_move(sel: Option<usize>, op: MoveOp, n: nat) -> Option<usize> {
    match op {
        MoveOp::Next => spec_next(sel, n),
        MoveOp::Previous => spec_previous(sel, n),
    }
}

/// The selection after a sequence of moves on a list of `n` entries, applied
/// in order.
pub open spec fn apply_moves(sel: Option<usize>, ops: Seq<MoveOp>, n: nat) -> Option<usize>
    decreases ops.len(),
{
    if ops.len() == 0 {
        sel
    } else {
        apply_moves(apply_move(sel, ops[0], n), ops.skip(1), n)
    }
}

/// Law: on a list of at least one entry, a sequence of `next` / `previous`
/// moves carries a selection that is absent or in bounds to one that is
/// absent or in bounds.
pub proof fn lemma_moves_stay_in_bounds(sel: Option<usize>, ops: Seq<MoveOp>, n: nat)
    requires
        n >= 1,
        sel matches Some(i) ==> (i as int) < n,
    ensures
        apply_moves(sel, ops, n) matches Some(i) ==> (i as int) < n,
    decreases ops.len(),
{
    if ops.len() > 0 {
        lemma_moves_stay_in_bounds(apply_move(sel, ops[0], n), ops.skip(1), n);
    }
}

/// Law: on a list of at least one entry, after any sequence of `next` /
/// `previous` moves starting from no selection, the selected index always
/// lies within [0, n-1].
pub proof fn lemma_selection_stays_in_bounds(ops: Seq<MoveOp>, n: nat)
    requires
        n >= 1,
    ensures
        apply_moves(None, ops, n) matches Some(i) ==> 0 <= (i as int) < n,
{
    lemma_moves_stay_in_bounds(None, ops, n);
}

/// `count` consecutive `next` moves.
pub open spec fn repeat_next(count: nat) -> Seq<MoveOp> {
    Seq::new(count, |j: int| MoveOp::Next)
}

/// Law: on a list of `n >= 1` entries, `count` `next` moves carry the
/// selected index `i` to index `(i + count) % n`.
pub proof fn lemma_repeat_next_lands(i: usize, count: nat, n: nat)
    requires
        n >= 1,
        n <= usize::MAX,
        (i as int) < n,
    ensures
        apply_moves(Some(i), repeat_next(count), n) == Some((((i + count) % (n as int)) as usize)),
    decreases count,
{
    if count == 0 {
        lemma_small_mod(i as nat, n);
    } else {
        let ops = repeat_next(count);
        let rest = repeat_next((count - 1) as nat);
        let stepped: usize = if i + 1 >= n {
            0usize
        } else {
            (i + 1) as usize
        };
        assert(ops[0] == MoveOp::Next);
        assert(ops.skip(1) =~= rest);
        assert(apply_move(Some(i), MoveOp::Next, n) == Some(stepped));
        lemma_repeat_next_lands(stepped, (count - 1) as nat, n);
        assert(apply_moves(Some(i), ops, n) == apply_moves(Some(stepped), rest, n));
        if i + 1 >= n {
            lemma_mod_multiples_vanish(1, count - 1, n as int);
            assert((n as int) * 1 + (count - 1) == i + count);
            assert(stepped + (count - 1) == count - 1);
        } else {
            assert(stepped + (count - 1) == i + count);
        }
    }
}

/// Law (full-cycle wraparound): on a list of `n >= 1` entries, `n` `next`
/// moves return the selection to the index where it started.
pub proof fn lemma_next_full_cycle(i: usize, n: nat)
    requires
        n >= 1,
        n <= usize::MAX,
        (i as int) < n,
    ensures
        apply_moves(Some(i), repeat_next(n), n) == Some(i),
{
    lemma_repeat_next_lands(i, n, n);
    lemma_mod_multiples_vanish(1, i as int, n as int);
    lemma_small_mod(i as nat, n);
    assert(i + n == (n as int) * 1 + i);
}

/// Law: on a list of `n >= 1` entries, `count >= 1` `next` moves from no
/// selection land on index `(count - 1) % n`: the first move selects index 0,
/// and `n` further moves (`count == n + 1`) return to index 0.
pub proof fn lemma_repeat_next_from_none(count: nat, n: nat)
    requires
        n >= 1,
        n <= usize::MAX,
        count >= 1,
    ensures
        apply_moves(None, repeat_next(count), n) == Some(
            (((count - 1) % (n as int)) as usize),
        ),
{
    assert(repeat_next(count)[0] == MoveOp::Next);
    assert(repeat_next(count).skip(1) =~= repeat_next((count - 1) as nat));
    assert(spec_next(None, n) == Some(0usize));
    lemma_repeat_next_lands(0usize, (count - 1) as nat, n);
}

/// Law: on a list of `n >= 1` entries, `previous` from index 0 selects the
/// last index, `n - 1`.
pub proof fn lemma_previous_wraps(n: nat)
    requires
        n >= 1,
    ensures
        spec_previous(Some(0usize), n) == Some(((n - 1) as usize)),
{
}

} // verus!
