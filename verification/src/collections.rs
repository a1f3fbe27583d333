use std::collections::VecDeque;
use vstd::prelude::*;

verus! {

/// Direction in which a cyclic selection moves.
#[derive(Debug, Clone, Copy, PartialEq, Eq, Structural)]
pub enum Step {
    Next,
    Previous,
}

/// The index reached from `current` by one `step` in a cycle of `count` positions.
/// An empty cycle always yields 0.
pub open spec fn spec_move_index(current: int, count: int, step: Step) -> int {
    if count == 0 {
        0
    } else {
        match step {
            Step::Next => if current + 1 >= count { 0 } else { current + 1 },
            Step::Previous => if current == 0 { count - 1 } else { current - 1 },
        }
    }
}

/// Moves `current` one step forward or backward, wrapping around at both ends.
pub fn move_index(current: usize, count: usize, step: Step) -> (r: usize)
    requires
        count > 0 && step == Step::Next ==> current < usize::MAX,
    ensures
        r == spec_move_index(current as int, count as int, step),
{
    if count == 0 {
        return 0;
    }
    match step {
        Step::Next => {
            if current + 1 >= count {
                0
            } else {
                current + 1
            }
        },
        Step::Previous => {
            if current == 0 {
                count - 1
            } else {
                current - 1
            }
        },
    }
}

/// Inside a non-empty cycle, a move never leaves the cycle.
pub proof fn lemma_move_index_in_range(current: int, count: int, step: Step)
    requires
        0 <= current < count,
    ensures
        0 <= spec_move_index(current, count, step) < count,
{
}

/// Inside a non-empty cycle, a step back undoes a step forward and a step
/// forward undoes a step back.
pub proof fn lemma_move_index_round_trip(current: int, count: int)
    requires
        0 <= current < count,
    ensures
        spec_move_index(spec_move_index(current, count, Step::Next), count, Step::Previous)
            == current,
        spec_move_index(spec_move_index(current, count, Step::Previous), count, Step::Next)
            == current,
{
}

/// The largest valid selection for a list of `len` items, capped at `selected`.
pub open spec fn clamp_selection(selected: int, len: int) -> int {
    let last = if len == 0 { 0 } else { len - 1 };
    if selected < last { selected } else { last }
}

/// The items of `s` for which `keep` holds, in their order.
pub open spec fn kept<T>(s: Seq<T>, keep: Seq<bool>) -> Seq<T>
    decreases s.len(),
{
    if s.len() == 0 || keep.len() == 0 {
        Seq::empty()
    } else {
        let rest = kept(s.drop_last(), keep.drop_last());
        if keep.last() {
            rest.push(s.last())
        } else {
            rest
        }
    }
}

/// A list of items with one selected position.
///
/// The selection always designates an item, except in an empty list, where it is 0.
#[derive(Debug)]
pub struct SelectableList<T> {
    items: Vec<T>,
    selected: usize,
}

impl<T> View for SelectableList<T> {
    type V = Seq<T>;

    closed spec fn view(&self) -> Seq<T> {
        self.items@
    }
}

impl<T> SelectableList<T> {
    /// The selected position.
    pub closed spec fn cursor(&self) -> int {
        self.selected as int
    }

    #[verifier::type_invariant]
    closed spec fn selection_in_bounds(&self) -> bool {
        self.selected == 0 || self.selected < self.items.len()
    }

    /// The selection bound that every list keeps: 0, or a valid position.
    pub open spec fn well_formed(&self) -> bool {
        self.cursor() == 0 || self.cursor() < self@.len()
    }

    pub fn new() -> (r: Self)
        ensures
            r@ == Seq::<T>::empty(),
            r.cursor() == 0,
            r.well_formed(),
    {
        SelectableList { items: Vec::new(), selected: 0 }
    }

    pub fn with_items(items: Vec<T>) -> (r: Self)
        ensures
            r@ == items@,
            r.cursor() == 0,
            r.well_formed(),
    {
        SelectableList { items, selected: 0 }
    }

    /// Takes the items and the selection out, leaving an empty list behind.
    fn take_parts(&mut self) -> (r: (Vec<T>, usize))
        ensures
            r.0@ == old(self)@,
            r.1 == old(self).cursor(),
            r.1 == 0 || r.1 < r.0@.len(),
            final(self)@ == Seq::<T>::empty(),
            final(self).cursor() == 0,
    {
        let mut taken = SelectableList::new();
        std::mem::swap(&mut taken, self);
        proof {
            use_type_invariant(&taken);
        }
        let SelectableList { items, selected } = taken;
        (items, selected)
    }

    fn clamped(selected: usize, len: usize) -> (r: usize)
        ensures
            r == clamp_selection(selected as int, len as int),
    {
        let last = if len == 0 {
            0
        } else {
            len - 1
        };
        if selected < last {
            selected
        } else {
            last
        }
    }

    pub fn set_items(&mut self, items: Vec<T>)
        ensures
            final(self)@ == items@,
            final(self).cursor() == clamp_selection(old(self).cursor(), items@.len() as int),
            final(self).well_formed(),
    {
        let selected = Self::clamped(self.selected, items.len());
        *self = SelectableList { items, selected };
    }

    pub fn push(&mut self, item: T)
        ensures
            final(self)@ == old(self)@.push(item),
            final(self).cursor() == old(self).cursor(),
            final(self).well_formed(),
    {
        proof {
            use_type_invariant(&*self);
        }
        let (mut items, selected) = self.take_parts();
        items.push(item);
        *self = SelectableList { items, selected };
    }

    /// Keeps only the items for which `predicate` answers `true`, in order, and clamps
    /// the selection to the shortened list.
    pub fn retain<F: Fn(&T) -> bool>(&mut self, predicate: F)
        requires
            forall|i: int| 0 <= i < old(self)@.len() ==> call_requires(predicate, (&old(self)@[i],)),
        ensures
            exists|keep: Seq<bool>|
                {
                    &&& keep.len() == old(self)@.len()
                    &&& forall|i: int|
                        0 <= i < keep.len() ==> call_ensures(predicate, (&old(self)@[i],), #[trigger] keep[i])
                    &&& final(self)@ == kept(old(self)@, keep)
                },
            final(self).cursor() == clamp_selection(old(self).cursor(), final(self)@.len() as int),
            final(self).well_formed(),
    {
        let ghost initial = self@;
        let (mut items, old_selected) = self.take_parts();
        let ghost mut keep: Seq<bool> = Seq::empty();
        let mut kept_items: Vec<T> = Vec::new();
        let mut rest: Vec<T> = Vec::new();
        // Move the items into `rest` in reverse order so that they can be taken from the end.
        while items.len() > 0
            invariant
                initial == items@ + rest@.reverse(),
                initial == old(self)@,
                forall|i: int| 0 <= i < initial.len() ==> call_requires(predicate, (&initial[i],)),
            decreases items.len(),
        {
            let ghost before_items = items@;
            let ghost before_rest = rest@;
            let x = items.pop().unwrap();
            rest.push(x);
            proof {
                assert(before_items =~= items@.push(x));
                assert(rest@.reverse() =~= seq![x] + before_rest.reverse());
                assert(initial =~= items@ + rest@.reverse());
            }
        }
        assert(initial =~= rest@.reverse());
        while rest.len() > 0
            invariant
                keep.len() + rest@.len() == initial.len(),
                rest@.reverse() == initial.subrange(keep.len() as int, initial.len() as int),
                kept_items@ == kept(initial.subrange(0, keep.len() as int), keep),
                forall|i: int| 0 <= i < initial.len() ==> call_requires(predicate, (&initial[i],)),
                forall|i: int|
                    0 <= i < keep.len() ==> call_ensures(predicate, (&initial[i],), #[trigger] keep[i]),
            decreases rest.len(),
        {
            let ghost before_rest = rest@;
            let x = rest.pop().unwrap();
            let ghost idx = keep.len() as int;
            proof {
                assert(before_rest.reverse()[0] == x);
                assert(rest@.reverse() =~= before_rest.reverse().drop_first());
                assert(x == initial[idx]);
            }
            let b = predicate(&x);
            let ghost old_keep = keep;
            let ghost old_kept = kept_items@;
            proof {
                keep = keep.push(b);
                let pre = initial.subrange(0, idx + 1);
                assert(pre.drop_last() =~= initial.subrange(0, idx));
                assert(keep.drop_last() =~= old_keep);
                assert(pre.last() == x);
            }
            if b {
                kept_items.push(x);
            }
            proof {
                assert(kept_items@ == kept(initial.subrange(0, keep.len() as int), keep));
            }
        }
        assert(initial.subrange(0, keep.len() as int) =~= initial);
        let selected = Self::clamped(old_selected, kept_items.len());
        *self = SelectableList { items: kept_items, selected };
    }

    pub fn clear(&mut self)
        ensures
            final(self)@ == Seq::<T>::empty(),
            final(self).cursor() == 0,
            final(self).well_formed(),
    {
        *self = SelectableList { items: Vec::new(), selected: 0 };
    }

    pub fn selected(&self) -> (r: Option<&T>)
        ensures
            r == (if self.cursor() < self@.len() {
                Some(&self@[self.cursor()])
            } else {
                None
            }),
    {
        if self.selected < self.items.len() {
            Some(&self.items[self.selected])
        } else {
            None
        }
    }

    pub fn selected_index(&self) -> (r: usize)
        ensures
            r == self.cursor(),
    {
        self.selected
    }

    pub fn is_selected(&self, index: usize) -> (r: bool)
        ensures
            r == (self@.len() > 0 && self.cursor() == index),
    {
        !self.items.is_empty() && self.selected == index
    }

    pub fn select_index(&mut self, index: usize)
        ensures
            final(self)@ == old(self)@,
            final(self).cursor() == (if index < old(self)@.len() {
                index as int
            } else {
                old(self).cursor()
            }),
            final(self).well_formed(),
    {
        if index < self.items.len() {
            self.selected = index;
        }
        proof {
            use_type_invariant(&*self);
        }
    }

    pub fn move_selection(&mut self, step: Step)
        ensures
            final(self)@ == old(self)@,
            final(self).cursor() == spec_move_index(old(self).cursor(), old(self)@.len() as int, step),
            final(self).well_formed(),
    {
        proof {
            use_type_invariant(&*self);
        }
        self.selected = move_index(self.selected, self.items.len(), step);
    }

    pub fn remove(&mut self, index: usize) -> (r: Option<T>)
        ensures
            index >= old(self)@.len() ==> r is None && final(self)@ == old(self)@ && final(self).cursor()
                == old(self).cursor(),
            index < old(self)@.len() ==> r == Some(old(self)@[index as int]) && final(self)@ == old(
                self,
            )@.remove(index as int) && final(self).cursor() == clamp_selection(
                old(self).cursor(),
                old(self)@.len() - 1,
            ),
            final(self).well_formed(),
    {
        proof {
            use_type_invariant(&*self);
        }
        if index >= self.items.len() {
            return None;
        }
        let (mut items, old_selected) = self.take_parts();
        let item = items.remove(index);
        let selected = Self::clamped(old_selected, items.len());
        *self = SelectableList { items, selected };
        Some(item)
    }

    /// The items, in order.
    pub fn as_slice(&self) -> (r: &[T])
        ensures
            r@ == self@,
    {
        self.items.as_slice()
    }

    pub fn len(&self) -> (r: usize)
        ensures
            r == self@.len(),
    {
        self.items.len()
    }

    pub fn is_empty(&self) -> (r: bool)
        ensures
            r == (self@.len() == 0),
    {
        self.items.len() == 0
    }
}

impl<T> Default for SelectableList<T> {
    fn default() -> (r: Self)
        ensures
            r@ == Seq::<T>::empty(),
            r.cursor() == 0,
    {
        Self::new()
    }
}

/// The last `n` items of `s` (all of them when `s` is shorter).
pub open spec fn last_n<T>(s: Seq<T>, n: nat) -> Seq<T> {
    if s.len() <= n {
        s
    } else {
        s.subrange(s.len() - n, s.len() as int)
    }
}

/// The number of entries that a log made with `capacity` keeps: at least the newest one.
pub open spec fn retained(capacity: nat) -> nat {
    if capacity == 0 { 1 } else { capacity }
}

/// A log that forgets its oldest entry once it holds `capacity` entries.
pub struct BoundedLog<T> {
    items: VecDeque<T>,
    capacity: usize,
}

impl<T> View for BoundedLog<T> {
    type V = Seq<T>;

    closed spec fn view(&self) -> Seq<T> {
        self.items@
    }
}

impl<T> BoundedLog<T> {
    /// The capacity that the log was made with.
    pub closed spec fn max_capacity(&self) -> nat {
        self.capacity as nat
    }

    #[verifier::type_invariant]
    closed spec fn within_capacity(&self) -> bool {
        self.items@.len() <= retained(self.capacity as nat)
    }

    pub fn with_max_capacity(capacity: usize) -> (r: Self)
        ensures
            r@ == Seq::<T>::empty(),
            r.max_capacity() == capacity,
    {
        BoundedLog { items: VecDeque::new(), capacity }
    }

    /// Appends `item`, dropping the oldest entry when the log is full.
    pub fn push(&mut self, item: T)
        ensures
            final(self).max_capacity() == old(self).max_capacity(),
            final(self)@ == last_n(old(self)@.push(item), retained(old(self).max_capacity())),
            final(self)@.len() <= retained(final(self).max_capacity()),
    {
        proof {
            use_type_invariant(&*self);
        }
        let mut items: VecDeque<T> = VecDeque::new();
        std::mem::swap(&mut items, &mut self.items);
        if items.len() >= self.capacity {
            let _ = items.pop_front();
        }
        items.push_back(item);
        let ghost n = retained(self.capacity as nat);
        let ghost full = old(self)@.push(item);
        proof {
            if old(self)@.len() >= self.capacity && old(self)@.len() > 0 {
                assert(items@ =~= full.subrange(full.len() - n, full.len() as int));
            } else {
                assert(items@ =~= full);
            }
        }
        *self = BoundedLog { items, capacity: self.capacity };
    }

    pub fn len(&self) -> (r: usize)
        ensures
            r == self@.len(),
    {
        self.items.len()
    }

    pub fn get(&self, index: usize) -> (r: Option<&T>)
        ensures
            r == (if index < self@.len() {
                Some(&self@[index as int])
            } else {
                None
            }),
    {
        if index < self.items.len() {
            Some(&self.items[index])
        } else {
            None
        }
    }
}

/// Pushing onto the newest `n` entries of a history keeps the newest `n` entries of
/// the longer history: a bounded log always holds the newest entries ever pushed.
pub proof fn lemma_last_n_push<T>(history: Seq<T>, item: T, n: nat)
    requires
        n > 0,
    ensures
        last_n(last_n(history, n).push(item), n) == last_n(history.push(item), n),
{
    let w = last_n(history, n);
    let h2 = history.push(item);
    assert(last_n(w.push(item), n) =~= last_n(h2, n));
}

} // verus!
