//! A cyclic cursor over the focusable targets of a form or a list.

use vstd::prelude::*;

verus! {

/// A cursor over `count` focusable targets.
///
/// With no targets the cursor points nowhere; otherwise it always points
/// at a target in `0..count`.
#[derive(Clone, Copy, Debug, PartialEq, Eq, Structural)]
pub struct FocusIndex {
    index: usize,
    count: usize,
}

/// The target that follows `index` among `count` targets, wrapping to the first.
pub open spec fn spec_next(index: int, count: int) -> int {
    if count <= 0 {
        0
    } else if index + 1 >= count {
        0
    } else {
        index + 1
    }
}

/// The target that precedes `index` among `count` targets, wrapping to the last.
pub open spec fn spec_prev(index: int, count: int) -> int {
    if count <= 0 {
        0
    } else if index <= 0 {
        count - 1
    } else {
        index - 1
    }
}

/// `index` moved forward `steps` times among `count` targets.
pub open spec fn spec_next_n(index: int, count: int, steps: nat) -> int
    decreases steps,
{
    if steps == 0 {
        index
    } else {
        spec_next(spec_next_n(index, count, (steps - 1) as nat), count)
    }
}

impl FocusIndex {
    /// The invariant: the cursor is inside the range, or at zero when there is no target.
    pub open spec fn wf(&self) -> bool {
        if self.spec_count() == 0 {
            self.spec_index() == 0
        } else {
            0 <= self.spec_index() < self.spec_count()
        }
    }

    /// The number of targets.
    pub closed spec fn spec_count(&self) -> int {
        self.count as int
    }

    /// The position of the cursor; meaningful only when there is a target.
    pub closed spec fn spec_index(&self) -> int {
        self.index as int
    }

    /// The focused target, if there is one.
    pub open spec fn spec_current(&self) -> Option<int> {
        if self.spec_count() == 0 {
            None
        } else {
            Some(self.spec_index())
        }
    }

    /// A cursor over `count` targets, pointing at the first one.
    pub fn new(count: usize) -> (r: FocusIndex)
        ensures
            r.wf(),
            r.spec_count() == count,
            r.spec_index() == 0,
    {
        FocusIndex { index: 0, count }
    }

    /// The number of targets.
    pub fn count(&self) -> (r: usize)
        ensures
            r == self.spec_count(),
    {
        self.count
    }

    /// The focused target, or `None` when there is nothing to focus.
    pub fn current(&self) -> (r: Option<usize>)
        requires
            self.wf(),
        ensures
            match r {
                Some(i) => self.spec_current() == Some(i as int) && (i as int) < self.spec_count(),
                None => self.spec_current().is_none(),
            },
    {
        if self.count == 0 {
            None
        } else {
            Some(self.index)
        }
    }

    /// Moves to the next target; after the last one comes the first.
    pub fn advance(&mut self)
        requires
            old(self).wf(),
        ensures
            final(self).wf(),
            final(self).spec_count() == old(self).spec_count(),
            final(self).spec_index() == spec_next(old(self).spec_index(), old(self).spec_count()),
    {
        if self.count == 0 {
            return ;
        }
        if self.index + 1 >= self.count {
            self.index = 0;
        } else {
            self.index = self.index + 1;
        }
    }

    /// Moves to the previous target; before the first one comes the last.
    pub fn retreat(&mut self)
        requires
            old(self).wf(),
        ensures
            final(self).wf(),
            final(self).spec_count() == old(self).spec_count(),
            final(self).spec_index() == spec_prev(old(self).spec_index(), old(self).spec_count()),
    {
        if self.count == 0 {
            return ;
        }
        if self.index == 0 {
            self.index = self.count - 1;
        } else {
            self.index = self.index - 1;
        }
    }

    /// Points the cursor at `index`, wrapped into the range by the remainder
    /// of the division by the number of targets: an index inside the range
    /// is taken as it is.
    pub fn set(&mut self, index: usize)
        requires
            old(self).wf(),
        ensures
            final(self).wf(),
            final(self).spec_count() == old(self).spec_count(),
            final(self).spec_index() == (if old(self).spec_count() == 0 {
                0
            } else {
                index as int % old(self).spec_count()
            }),
            index < old(self).spec_count() ==> final(self).spec_index() == index,
    {
        if self.count == 0 {
            return ;
        }
        assert(index < self.count ==> index as int % (self.count as int) == index as int)
            by (nonlinear_arith);
        self.index = index % self.count;
    }

    /// Gives the cursor a new number of targets and points it at the first.
    pub fn reset(&mut self, count: usize)
        ensures
            final(self).wf(),
            final(self).spec_count() == count,
            final(self).spec_index() == 0,
    {
        self.index = 0;
        self.count = count;
    }
}

/// Moving back after moving forward leaves the cursor where it was.
pub proof fn lemma_retreat_undoes_advance(index: int, count: int)
    requires
        0 <= index < count,
    ensures
        spec_prev(spec_next(index, count), count) == index,
{
}

/// Moving forward after moving back leaves the cursor where it was.
pub proof fn lemma_advance_undoes_retreat(index: int, count: int)
    requires
        0 <= index < count,
    ensures
        spec_next(spec_prev(index, count), count) == index,
{
}

/// Moving forward `steps` times lands on the remainder of `index + steps`.
pub proof fn lemma_next_n_is_remainder(index: int, count: int, steps: nat)
    requires
        0 <= index < count,
    ensures
        spec_next_n(index, count, steps) == (index + steps) % count,
    decreases steps,
{
    if steps == 0 {
        assert(index % count == index) by (nonlinear_arith)
            requires
                0 <= index < count,
        ;
    } else {
        let before = (steps - 1) as nat;
        lemma_next_n_is_remainder(index, count, before);
        let p = (index + before) % count;
        assert(0 <= p < count) by (nonlinear_arith)
            requires
                count > 0,
                p == (index + before) % count,
        ;
        assert((index + before + 1) % count == (if p + 1 >= count {
            0
        } else {
            p + 1
        })) by (nonlinear_arith)
            requires
                count > 0,
                p == (index + before) % count,
                0 <= p < count,
        ;
    }
}

/// Moving forward once for every target brings the cursor back to where it started.
pub proof fn lemma_full_cycle_returns(index: int, count: int)
    requires
        0 <= index < count,
    ensures
        spec_next_n(index, count, count as nat) == index,
{
    lemma_next_n_is_remainder(index, count, count as nat);
    assert((index + count) % count == index) by (nonlinear_arith)
        requires
            0 <= index < count,
    ;
}

} // verus!
