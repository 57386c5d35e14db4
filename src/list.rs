//! An ordered collection with a movable, wrapping selection cursor.
use vstd::prelude::*;

verus! {

/// The cursor after a move to the next item of a list of `len` items.
pub open spec fn next_selection(len: nat, sel: Option<nat>) -> Option<nat> {
    if len == 0 {
        sel
    } else {
        match sel {
            None => Some(0),
            Some(i) => if i + 1 >= len { Some(0) } else { Some((i + 1) as nat) },
        }
    }
}

/// The cursor after a move to the previous item of a list of `len` items.
pub open spec fn previous_selection(len: nat, sel: Option<nat>) -> Option<nat> {
    if len == 0 {
        sel
    } else {
        match sel {
            None => Some(0),
            Some(i) => if i == 0 { Some((len - 1) as nat) } else { Some((i - 1) as nat) },
        }
    }
}

/// The cursor after `k` moves to the next item.
pub open spec fn next_times(len: nat, sel: Option<nat>, k: nat) -> Option<nat>
    decreases k,
{
    if k == 0 { sel } else { next_times(len, next_selection(len, sel), (k - 1) as nat) }
}

/// The cursor after `k` moves to the previous item.
pub open spec fn previous_times(len: nat, sel: Option<nat>, k: nat) -> Option<nat>
    decreases k,
{
    if k == 0 { sel } else { previous_times(len, previous_selection(len, sel), (k - 1) as nat) }
}

pub struct StatefulList<T> {
    pub selected: Option<usize>,
    pub items: Vec<T>,
}

impl<T> StatefulList<T> {
    /// The cursor is absent or a valid index into the items.
    pub open spec fn wf(&self) -> bool {
        self.selected matches Some(i) ==> i < self.items@.len()
    }

    pub open spec fn cursor(&self) -> Option<nat> {
        match self.selected {
            Some(i) => Some(i as nat),
            None => None,
        }
    }

    /// A list of `items` with nothing selected.
    pub fn with_items(items: Vec<T>) -> (r: StatefulList<T>)
        ensures
            r.wf(),
            r.items@ == items@,
            r.selected is None,
    {
        StatefulList { selected: None, items }
    }

    /// Selects the next item, from the last one back to the first; the first
    /// where nothing is selected. Does nothing on an empty list.
    pub fn next(&mut self)
        requires
            old(self).wf(),
        ensures
            final(self).wf(),
            final(self).items@ == old(self).items@,
            final(self).cursor() == next_selection(old(self).items@.len(), old(self).cursor()),
    {
        let len = self.items.len();
        if len == 0 {
            return;
        }
        let i: usize = match self.selected {
            Some(i) => if i >= len - 1 { 0 } else { i + 1 },
            None => 0,
        };
        self.selected = Some(i);
    }

    /// Selects the previous item, from the first one back to the last; the
    /// first where nothing is selected. Does nothing on an empty list.
    pub fn previous(&mut self)
        requires
            old(self).wf(),
        ensures
            final(self).wf(),
            final(self).items@ == old(self).items@,
            final(self).cursor() == previous_selection(old(self).items@.len(), old(self).cursor()),
    {
        let len = self.items.len();
        if len == 0 {
            return;
        }
        let i: usize = match self.selected {
            Some(i) => if i == 0 { len - 1 } else { i - 1 },
            None => 0,
        };
        self.selected = Some(i);
    }

    /// Clears the selection.
    pub fn unselect(&mut self)
        requires
            old(self).wf(),
        ensures
            final(self).wf(),
            final(self).items@ == old(self).items@,
            final(self).selected is None,
    {
        self.selected = None;
    }

    /// The index of the selected item, if any.
    pub fn getSelected(&mut self) -> (r: Option<usize>)
        ensures
            r == old(self).selected,
            *final(self) == *old(self),
    {
        self.selected
    }
}

/// From a valid index `i`, `k <= len` moves to the next item land `k` places on, wrapping.
proof fn lemma_next_steps(len: nat, i: nat, k: nat)
    requires
        i < len,
        k <= len,
    ensures
        next_times(len, Some(i), k) == Some(if i + k < len { (i + k) as nat } else { (i + k - len) as nat }),
    decreases k,
{
    if k > 0 {
        let j: nat = if i + 1 >= len { 0 } else { (i + 1) as nat };
        lemma_next_steps(len, j, (k - 1) as nat);
    }
}

/// From a valid index `i`, `k <= len` moves to the previous item land `k` places back, wrapping.
proof fn lemma_previous_steps(len: nat, i: nat, k: nat)
    requires
        i < len,
        k <= len,
    ensures
        previous_times(len, Some(i), k) == Some(if k <= i { (i - k) as nat } else { (i + len - k) as nat }),
    decreases k,
{
    if k > 0 {
        let j: nat = if i == 0 { (len - 1) as nat } else { (i - 1) as nat };
        lemma_previous_steps(len, j, (k - 1) as nat);
    }
}

/// On a non-empty list, as many moves to the next item as there are items
/// bring any selection back to itself; from no selection, one move more
/// than that comes back to the first item.
pub proof fn lemma_next_wraps(len: nat, i: nat)
    requires
        len > 0,
        i < len,
    ensures
        next_times(len, Some(i), len) == Some(i),
        next_times(len, None, len + 1) == Some(0nat),
        next_times(len, None, len) == Some((len - 1) as nat),
{
    lemma_next_steps(len, i, len);
    lemma_next_steps(len, 0, len);
    lemma_next_steps(len, 0, (len - 1) as nat);
}

/// On a non-empty list, as many moves to the previous item as there are items
/// bring any selection back to itself; from no selection, one move more
/// than that comes back to the first item.
pub proof fn lemma_previous_wraps(len: nat, i: nat)
    requires
        len > 0,
        i < len,
    ensures
        previous_times(len, Some(i), len) == Some(i),
        previous_times(len, None, len + 1) == Some(0nat),
{
    lemma_previous_steps(len, i, len);
    lemma_previous_steps(len, 0, len);
}

/// From a valid index `i`, `m` moves to the next item land at `(i + m) mod len`.
proof fn lemma_next_from(len: nat, i: nat, m: nat)
    requires
        i < len,
    ensures
        next_times(len, Some(i), m) == Some((((i + m) as int) % (len as int)) as nat),
    decreases m,
{
    if m == 0 {
        vstd::arithmetic::div_mod::lemma_small_mod(i, len);
    } else {
        let j: nat = if i + 1 >= len { 0 } else { (i + 1) as nat };
        lemma_next_from(len, j, (m - 1) as nat);
        if i + 1 >= len {
            vstd::arithmetic::div_mod::lemma_mod_add_multiples_vanish((m - 1) as int, len as int);
        }
    }
}

/// From a valid index `i`, `m` moves to the previous item land at `(i - m) mod len`.
proof fn lemma_previous_from(len: nat, i: nat, m: nat)
    requires
        i < len,
    ensures
        previous_times(len, Some(i), m) == Some(((i - m) % (len as int)) as nat),
    decreases m,
{
    if m == 0 {
        vstd::arithmetic::div_mod::lemma_small_mod(i, len);
    } else {
        let j: nat = if i == 0 { (len - 1) as nat } else { (i - 1) as nat };
        lemma_previous_from(len, j, (m - 1) as nat);
        if i == 0 {
            vstd::arithmetic::div_mod::lemma_mod_add_multiples_vanish(-(m as int), len as int);
        }
    }
}

/// On a non-empty list with nothing selected, the `k`-th move to the next
/// item selects index `(k - 1) mod len`: the cursor visits 0, 1, ..., len - 1
/// and is back at 0 after `len + 1` moves.
pub proof fn lemma_next_kth_move(len: nat, k: nat)
    requires
        len > 0,
        k >= 1,
    ensures
        next_times(len, None, k) == Some((((k - 1) as int) % (len as int)) as nat),
{
    lemma_next_from(len, 0, (k - 1) as nat);
}

/// On a non-empty list with nothing selected, the `k`-th move to the previous
/// item selects index `(len - (k - 1) mod len) mod len`: the cursor visits 0,
/// len - 1, ..., 1 and is back at 0 after `len + 1` moves.
pub proof fn lemma_previous_kth_move(len: nat, k: nat)
    requires
        len > 0,
        k >= 1,
    ensures
        previous_times(len, None, k) == Some((((len as int) - ((k - 1) as int) % (len as int)) % (len as int)) as nat),
{
    let x: int = k - 1;
    let n: int = len as int;
    lemma_previous_from(len, 0, x as nat);
    vstd::arithmetic::div_mod::lemma_sub_mod_noop(n, x, n);
    vstd::arithmetic::div_mod::lemma_mod_self_0(n);
    vstd::arithmetic::div_mod::lemma_mod_add_multiples_vanish(-x, n);
    vstd::arithmetic::div_mod::lemma_mod_add_multiples_vanish(-(x % n), n);
    assert((n - x % n) % n == (0 - x) % n);
}

/// On a list of `len` items, the previous item of the first is the last, and
/// the next item of the last is the first.
pub proof fn lemma_wrap_at_ends(len: nat)
    requires
        len > 0,
    ensures
        previous_selection(len, Some(0)) == Some((len - 1) as nat),
        next_selection(len, Some((len - 1) as nat)) == Some(0nat),
{
}

} // verus!
