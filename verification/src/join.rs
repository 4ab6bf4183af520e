//! Fan-in of concurrently running units of work.
//!
//! A batch hands out one unit per input, numbered by the input's position.
//! The units finish in any order; an [`OrderedJoin`] files each outcome under
//! its unit's number, so what comes out at the end is ordered as the inputs
//! were, whatever the order of completion.

use vstd::prelude::*;

verus! {

/// The slots of a join over `units` units of which none has finished.
pub open spec fn unfilled<T>(units: nat) -> Seq<Option<T>> {
    Seq::new(units, |i: int| None::<T>)
}

/// The slots after unit `index` reported `outcome`: the outcome is filed if
/// the unit exists and has not reported before, and dropped otherwise.
pub open spec fn record<T>(slots: Seq<Option<T>>, index: int, outcome: T) -> Seq<Option<T>> {
    if 0 <= index < slots.len() && slots[index] is None {
        slots.update(index, Some(outcome))
    } else {
        slots
    }
}

/// The slots after the completions in `completions` were recorded one after
/// the other, first to last. A completion is the unit's number and its outcome.
pub open spec fn record_all<T>(slots: Seq<Option<T>>, completions: Seq<(int, T)>) -> Seq<
    Option<T>,
>
    decreases completions.len(),
{
    if completions.len() == 0 {
        slots
    } else {
        record(
            record_all(slots, completions.drop_last()),
            completions.last().0,
            completions.last().1,
        )
    }
}

/// Completions as they are held at run time, unit numbers as machine
/// integers, read as completions of the model.
pub open spec fn arrivals<T>(completions: Seq<(usize, T)>) -> Seq<(int, T)> {
    completions.map_values(|completion: (usize, T)| (completion.0 as int, completion.1))
}

/// How many slots hold an outcome.
pub open spec fn filled_count<T>(slots: Seq<Option<T>>) -> nat
    decreases slots.len(),
{
    if slots.len() == 0 {
        0
    } else {
        filled_count(slots.drop_last()) + if slots.last() is Some {
            1nat
        } else {
            0nat
        }
    }
}

/// No unit reports twice in `completions`.
pub open spec fn reports_once<T>(completions: Seq<(int, T)>) -> bool {
    forall|j: int, k: int|
        0 <= j < k < completions.len() ==> (#[trigger] completions[j]).0 != (
        #[trigger] completions[k]).0
}

/// Every completion in `completions` names one of `units` units.
pub open spec fn reports_in_range<T>(completions: Seq<(int, T)>, units: nat) -> bool {
    forall|k: int| 0 <= k < completions.len() ==> 0 <= (#[trigger] completions[k]).0 < units
}

/// The outcomes of a batch of units, filed by unit number.
pub struct OrderedJoin<T> {
    slots: Vec<Option<T>>,
}

impl<T> View for OrderedJoin<T> {
    type V = Seq<Option<T>>;

    closed spec fn view(&self) -> Seq<Option<T>> {
        self.slots@
    }
}

impl<T> OrderedJoin<T> {
    /// A join over `units` units, none of which has finished.
    pub fn new(units: usize) -> (join: Self)
        ensures
            join@ == unfilled::<T>(units as nat),
    {
        let mut slots: Vec<Option<T>> = Vec::new();
        let mut made: usize = 0;
        while made < units
            invariant
                made <= units,
                slots@ == unfilled::<T>(made as nat),
            decreases units - made,
        {
            slots.push(None);
            made = made + 1;
            assert(slots@ =~= unfilled::<T>(made as nat));
        }
        OrderedJoin { slots }
    }

    /// The number of units in the batch.
    pub fn units(&self) -> (units: usize)
        ensures
            units == self@.len(),
    {
        self.slots.len()
    }

    /// Files the outcome of unit `index`. The first report of a unit counts:
    /// a report for a unit that is not in the batch, or that has reported
    /// already, changes nothing and is answered with `false`.
    pub fn complete(&mut self, index: usize, outcome: T) -> (accepted: bool)
        ensures
            accepted <==> index < old(self)@.len() && old(self)@[index as int] is None,
            final(self)@ == record(old(self)@, index as int, outcome),
    {
        if index < self.slots.len() && self.slots[index].is_none() {
            self.slots[index] = Some(outcome);
            true
        } else {
            false
        }
    }

    /// Whether unit `index` has reported.
    pub fn has_reported(&self, index: usize) -> (reported: bool)
        ensures
            reported <==> index < self@.len() && self@[index as int] is Some,
    {
        index < self.slots.len() && self.slots[index].is_some()
    }

    /// How many units have not reported yet.
    pub fn outstanding(&self) -> (count: usize)
        ensures
            count == self@.len() - filled_count(self@),
    {
        let mut count: usize = 0;
        let mut seen: usize = 0;
        while seen < self.slots.len()
            invariant
                seen <= self.slots.len(),
                count == seen - filled_count(self.slots@.take(seen as int)),
                count <= seen,
            decreases self.slots.len() - seen,
        {
            proof {
                assert(self.slots@.take(seen + 1).drop_last() =~= self.slots@.take(seen as int));
                lemma_filled_count_bound(self.slots@.take(seen as int));
            }
            if self.slots[seen].is_none() {
                count = count + 1;
            }
            seen = seen + 1;
        }
        assert(self.slots@.take(seen as int) =~= self.slots@);
        count
    }

    /// Whether every unit has reported.
    pub fn is_complete(&self) -> (complete: bool)
        ensures
            complete <==> forall|i: int| 0 <= i < self@.len() ==> self@[i] is Some,
            complete <==> filled_count(self@) == self@.len(),
    {
        proof {
            lemma_filled_count_bound(self.slots@);
            lemma_filled_count_full(self.slots@);
        }
        self.outstanding() == 0
    }

    /// Ends the join and hands out the slots: one per unit, in unit order,
    /// holding the unit's outcome if it reported.
    pub fn into_slots(self) -> (slots: Vec<Option<T>>)
        ensures
            slots@ == self@,
    {
        self.slots
    }
}

/// No more slots are filled than there are.
proof fn lemma_filled_count_bound<T>(slots: Seq<Option<T>>)
    ensures
        filled_count(slots) <= slots.len(),
    decreases slots.len(),
{
    if slots.len() > 0 {
        lemma_filled_count_bound(slots.drop_last());
    }
}

/// All slots are counted as filled exactly when each holds an outcome.
proof fn lemma_filled_count_full<T>(slots: Seq<Option<T>>)
    ensures
        filled_count(slots) == slots.len() <==> forall|i: int|
            0 <= i < slots.len() ==> slots[i] is Some,
    decreases slots.len(),
{
    if slots.len() > 0 {
        let front = slots.drop_last();
        lemma_filled_count_full(front);
        lemma_filled_count_bound(front);
        if filled_count(slots) == slots.len() {
            assert forall|i: int| 0 <= i < slots.len() implies slots[i] is Some by {
                if i < front.len() {
                    assert(front[i] is Some);
                }
            }
        }
        if forall|i: int| 0 <= i < slots.len() ==> slots[i] is Some {
            assert forall|i: int| 0 <= i < front.len() implies front[i] is Some by {
                assert(slots[i] is Some);
            }
        }
    }
}

/// Recording one completion more is recording it after all those before it.
pub proof fn record_all_extends<T>(
    slots: Seq<Option<T>>,
    completions: Seq<(usize, T)>,
    count: int,
)
    requires
        0 <= count < completions.len(),
    ensures
        record_all(slots, arrivals(completions.take(count + 1))) == record(
            record_all(slots, arrivals(completions.take(count))),
            completions[count].0 as int,
            completions[count].1,
        ),
{
    let longer = arrivals(completions.take(count + 1));
    assert(longer.drop_last() =~= arrivals(completions.take(count)));
    assert(longer.last() == (completions[count].0 as int, completions[count].1));
}

/// Recording completions never changes the number of slots.
pub proof fn record_all_keeps_length<T>(slots: Seq<Option<T>>, completions: Seq<(int, T)>)
    ensures
        record_all(slots, completions).len() == slots.len(),
    decreases completions.len(),
{
    if completions.len() > 0 {
        record_all_keeps_length(slots, completions.drop_last());
    }
}

/// A slot that no completion names is left as it was.
pub proof fn record_all_leaves_unnamed<T>(
    slots: Seq<Option<T>>,
    completions: Seq<(int, T)>,
    index: int,
)
    requires
        0 <= index < slots.len(),
        forall|k: int| 0 <= k < completions.len() ==> (#[trigger] completions[k]).0 != index,
    ensures
        record_all(slots, completions)[index] == slots[index],
    decreases completions.len(),
{
    if completions.len() > 0 {
        let earlier = completions.drop_last();
        assert forall|k: int| 0 <= k < earlier.len() implies (#[trigger] earlier[k]).0
            != index by {
            assert(earlier[k] == completions[k]);
        }
        record_all_leaves_unnamed(slots, earlier, index);
        record_all_keeps_length(slots, earlier);
        assert(completions.last() == completions[completions.len() - 1]);
    }
}

/// Results are positional: when the units of a fresh join report once each,
/// in whatever order, every reported outcome ends up in the slot of its own
/// unit, and the join has one slot per unit.
pub proof fn join_is_positional<T>(units: nat, completions: Seq<(int, T)>)
    requires
        reports_in_range(completions, units),
        reports_once(completions),
    ensures
        record_all(unfilled::<T>(units), completions).len() == units,
        forall|k: int|
            0 <= k < completions.len() ==> record_all(unfilled::<T>(units), completions)[(
            #[trigger] completions[k]).0] == Some(completions[k].1),
    decreases completions.len(),
{
    let start = unfilled::<T>(units);
    record_all_keeps_length(start, completions);
    if completions.len() > 0 {
        let earlier = completions.drop_last();
        let last = completions.last();
        assert(last == completions[completions.len() - 1]);
        assert forall|k: int| 0 <= k < earlier.len() implies 0 <= (#[trigger] earlier[k]).0
            < units by {
            assert(earlier[k] == completions[k]);
        }
        assert forall|j: int, k: int| 0 <= j < k < earlier.len() implies (#[trigger] earlier[j]).0
            != (#[trigger] earlier[k]).0 by {
            assert(earlier[j] == completions[j]);
            assert(earlier[k] == completions[k]);
        }
        join_is_positional(units, earlier);
        record_all_keeps_length(start, earlier);
        assert forall|k: int| 0 <= k < earlier.len() implies (#[trigger] earlier[k]).0
            != last.0 by {
            assert(earlier[k] == completions[k]);
        }
        record_all_leaves_unnamed(start, earlier, last.0);
        let before = record_all(start, earlier);
        assert(before[last.0] is None);
        assert forall|k: int| 0 <= k < completions.len() implies record_all(
            start,
            completions,
        )[(#[trigger] completions[k]).0] == Some(completions[k].1) by {
            if k < earlier.len() {
                assert(earlier[k] == completions[k]);
                assert(earlier[k].0 != last.0);
            }
        }
    }
}

/// Units do not touch each other: had one unit of a run reported another
/// outcome, a failure in place of a success, say, the slot of that unit would
/// hold the other outcome and every other slot would be as it is.
pub proof fn join_isolates_units<T>(
    units: nat,
    completions: Seq<(int, T)>,
    changed: int,
    outcome: T,
)
    requires
        reports_in_range(completions, units),
        reports_once(completions),
        0 <= changed < completions.len(),
    ensures
        record_all(
            unfilled::<T>(units),
            completions.update(changed, (completions[changed].0, outcome)),
        ) == record_all(unfilled::<T>(units), completions).update(
            completions[changed].0,
            Some(outcome),
        ),
{
    let start = unfilled::<T>(units);
    let unit = completions[changed].0;
    let altered = completions.update(changed, (unit, outcome));
    assert forall|k: int| 0 <= k < altered.len() implies 0 <= (#[trigger] altered[k]).0
        < units by {
        assert(altered[k].0 == completions[k].0);
    }
    assert forall|j: int, k: int| 0 <= j < k < altered.len() implies (#[trigger] altered[j]).0 != (
    #[trigger] altered[k]).0 by {
        assert(altered[j].0 == completions[j].0);
        assert(altered[k].0 == completions[k].0);
    }
    join_is_positional(units, completions);
    join_is_positional(units, altered);
    let before = record_all(start, completions);
    let after = record_all(start, altered);
    assert forall|i: int| 0 <= i < units implies after[i] == before.update(
        unit,
        Some(outcome),
    )[i] by {
        if i == unit {
            assert(after[altered[changed].0] == Some(altered[changed].1));
        } else if exists|k: int| 0 <= k < completions.len() && (#[trigger] completions[k]).0 == i {
            let k = choose|k: int| 0 <= k < completions.len() && (#[trigger] completions[k]).0 == i;
            assert(altered[k] == completions[k]);
            assert(after[altered[k].0] == Some(altered[k].1));
            assert(before[completions[k].0] == Some(completions[k].1));
        } else {
            assert forall|k: int| 0 <= k < altered.len() implies (#[trigger] altered[k]).0
                != i by {
                assert(altered[k].0 == completions[k].0);
            }
            record_all_leaves_unnamed(start, completions, i);
            record_all_leaves_unnamed(start, altered, i);
        }
    }
    assert(after =~= before.update(unit, Some(outcome)));
}

/// Completion order does not matter: two runs of a batch in which the same
/// units report the same outcomes, each unit once, fill the join alike.
pub proof fn join_ignores_completion_order<T>(
    units: nat,
    first: Seq<(int, T)>,
    second: Seq<(int, T)>,
)
    requires
        reports_in_range(first, units),
        reports_in_range(second, units),
        reports_once(first),
        reports_once(second),
        forall|k: int| 0 <= k < first.len() ==> second.contains(#[trigger] first[k]),
        forall|k: int| 0 <= k < second.len() ==> first.contains(#[trigger] second[k]),
    ensures
        record_all(unfilled::<T>(units), first) == record_all(unfilled::<T>(units), second),
{
    let start = unfilled::<T>(units);
    let a = record_all(start, first);
    let b = record_all(start, second);
    join_is_positional(units, first);
    join_is_positional(units, second);
    assert forall|i: int| 0 <= i < units implies a[i] == b[i] by {
        if exists|k: int| 0 <= k < first.len() && (#[trigger] first[k]).0 == i {
            let k = choose|k: int| 0 <= k < first.len() && (#[trigger] first[k]).0 == i;
            assert(second.contains(first[k]));
            let j = choose|j: int| 0 <= j < second.len() && second[j] == first[k];
            assert(b[second[j].0] == Some(second[j].1));
            assert(a[first[k].0] == Some(first[k].1));
        } else {
            assert forall|j: int| 0 <= j < second.len() implies (#[trigger] second[j]).0 != i by {
                if second[j].0 == i {
                    assert(first.contains(second[j]));
                    let k = choose|k: int| 0 <= k < first.len() && first[k] == second[j];
                    assert(first[k].0 == i);
                }
            }
            record_all_leaves_unnamed(start, first, i);
            record_all_leaves_unnamed(start, second, i);
        }
    }
    assert(a =~= b);
}

} // verus!
