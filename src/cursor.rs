//! A selection cursor over a list of `len` entries: `None` until the first
//! move, then an index that wraps around at both ends.
use vstd::prelude::*;

verus! {

/// Where `next` moves a selection.
pub open spec fn next_of(selected: Option<usize>, len: nat) -> Option<usize> {
    if len == 0 {
        None
    } else {
        match selected {
            None => Some(0usize),
            Some(i) => if i + 1 >= len {
                Some(0usize)
            } else {
                Some((i + 1) as usize)
            },
        }
    }
}

/// Where `previous` moves a selection.
pub open spec fn previous_of(selected: Option<usize>, len: nat) -> Option<usize> {
    if len == 0 {
        None
    } else {
        match selected {
            None => Some(0usize),
            Some(i) => if i == 0 || i >= len {
                Some((len - 1) as usize)
            } else {
                Some((i - 1) as usize)
            },
        }
    }
}

/// A selection is in range: none, or an index of the list.
pub open spec fn in_range(selected: Option<usize>, len: nat) -> bool {
    match selected {
        None => true,
        Some(i) => i < len,
    }
}

/// The selection after `n` moves with `next`.
pub open spec fn next_times(selected: Option<usize>, len: nat, n: nat) -> Option<usize>
    decreases n,
{
    if n == 0 {
        selected
    } else {
        next_of(next_times(selected, len, (n - 1) as nat), len)
    }
}

/// Moves the selection one entry down, wrapping to the first entry after the
/// last; an empty list has no selection.
pub fn next(selected: Option<usize>, len: usize) -> (r: Option<usize>)
    ensures
        r == next_of(selected, len as nat),
        in_range(r, len as nat),
{
    if len == 0 {
        None
    } else {
        match selected {
            None => Some(0),
            Some(i) => if i >= len - 1 {
                Some(0)
            } else {
                Some(i + 1)
            },
        }
    }
}

/// Moves the selection one entry up, wrapping to the last entry before the
/// first; an empty list has no selection.
pub fn previous(selected: Option<usize>, len: usize) -> (r: Option<usize>)
    ensures
        r == previous_of(selected, len as nat),
        in_range(r, len as nat),
{
    if len == 0 {
        None
    } else {
        match selected {
            None => Some(0),
            Some(i) => if i == 0 || i >= len {
                Some(len - 1)
            } else {
                Some(i - 1)
            },
        }
    }
}

/// After `k` moves with `next`, a selection `s` of a list of `len` entries
/// stands at `(s + k) % len`.
pub proof fn lemma_next_times(s: usize, len: nat, k: nat)
    requires
        s < len <= usize::MAX,
    ensures
        next_times(Some(s), len, k) == Some(((s + k) % (len as int)) as usize),
    decreases k,
{
    if k == 0 {
        assert((s + 0) % (len as int) == s) by (nonlinear_arith)
            requires s < len;
    } else {
        lemma_next_times(s, len, (k - 1) as nat);
        let j = (s + k - 1) % (len as int);
        assert(0 <= j < len) by (nonlinear_arith)
            requires j == (s + k - 1) % (len as int), len > 0;
        if j + 1 >= len {
            assert((s + k) % (len as int) == 0) by (nonlinear_arith)
                requires j == (s + k - 1) % (len as int), j + 1 == len, len > 0, s + k >= 1;
        } else {
            assert((s + k) % (len as int) == j + 1) by (nonlinear_arith)
                requires j == (s + k - 1) % (len as int), j + 1 < len, len > 0, s + k >= 1;
        }
    }
}

/// Moving with `next` as many times as the list has entries brings any
/// selection of the list back to where it was.
pub proof fn lemma_next_full_cycle(selected: usize, len: nat)
    requires
        selected < len <= usize::MAX,
    ensures
        next_times(Some(selected), len, len) == Some(selected),
{
    lemma_next_times(selected, len, len);
    assert((selected + len) % (len as int) == selected) by (nonlinear_arith)
        requires selected < len;
}

/// `previous` on a list without selection selects its first entry.
pub proof fn lemma_previous_from_none(len: nat)
    requires
        len > 0,
    ensures
        previous_of(None, len) == Some(0usize),
{
}

/// `previous` undoes `next` on any selection of a list.
pub proof fn lemma_previous_undoes_next(selected: usize, len: nat)
    requires
        selected < len <= usize::MAX,
    ensures
        previous_of(next_of(Some(selected), len), len) == Some(selected),
{
}

} // verus!
