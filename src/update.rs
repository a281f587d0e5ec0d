//! The update that a schedule runs to refresh the recorded earlier values.
use vstd::prelude::*;
use crate::previous::Previous;

verus! {

/// One entity with component `T`, as the update run by schedule `S` sees it.
pub struct EntityView<T, S> {
    /// The component's value now.
    pub current: T,
    /// Whether the component was changed since the update last ran.
    pub changed: bool,
    /// The entity's record for schedule `S`, if it has one yet.
    pub previous: Option<Previous<T, S>>,
}

/// An entity's record is written when it has none yet, or when its component
/// changed since the update last ran.
pub open spec fn selected(has_previous: bool, changed: bool) -> bool {
    !has_previous || changed
}

/// What one run of the update leaves of one entity's record: a copy of the
/// current value where the entity is selected, the record as it was elsewhere.
pub open spec fn refreshed<T: Clone, S>(
    current: T,
    changed: bool,
    before: Option<Previous<T, S>>,
    after: Option<Previous<T, S>>,
) -> bool {
    if selected(before is Some, changed) {
        after matches Some(p) && cloned(current, p.0)
    } else {
        after == before
    }
}

/// What one run of the update leaves of each entity: the same component, no
/// pending change, and the record refreshed.
pub open spec fn updated<T: Clone, S>(before: Seq<EntityView<T, S>>, after: Seq<EntityView<T, S>>) -> bool {
    &&& after.len() == before.len()
    &&& forall|i: int|
        0 <= i < before.len() ==> {
            &&& (#[trigger] after[i]).current == before[i].current
            &&& !after[i].changed
            &&& refreshed(before[i].current, before[i].changed, before[i].previous, after[i].previous)
        }
}

/// Decides whether the update writes an entity's record.
pub fn selects(has_previous: bool, changed: bool) -> (r: bool)
    ensures
        r == selected(has_previous, changed),
{
    !has_previous || changed
}

/// Refreshes one entity's record from its current value; returns whether the
/// record was written.
pub fn refresh<T: Clone, S>(current: &T, changed: bool, previous: &mut Option<Previous<T, S>>) -> (written: bool)
    ensures
        written == selected(old(previous).is_some(), changed),
        refreshed(*current, changed, *old(previous), *final(previous)),
{
    if selects(previous.is_some(), changed) {
        *previous = Some(Previous::new(current.clone()));
        true
    } else {
        false
    }
}

/// One run of the update over all entities that carry the component.
pub fn update<T: Clone, S>(entities: &mut Vec<EntityView<T, S>>)
    ensures
        updated(old(entities)@, final(entities)@),
{
    let ghost before = entities@;
    let mut i: usize = 0;
    while i < entities.len()
        invariant
            entities@.len() == before.len(),
            i <= entities@.len(),
            forall|j: int|
                0 <= j < i ==> {
                    &&& (#[trigger] entities@[j]).current == before[j].current
                    &&& !entities@[j].changed
                    &&& refreshed(
                        before[j].current,
                        before[j].changed,
                        before[j].previous,
                        entities@[j].previous,
                    )
                },
            forall|j: int| i <= j < entities@.len() ==> #[trigger] entities@[j] == before[j],
        decreases entities@.len() - i,
    {
        let entity = &mut entities[i];
        refresh(&entity.current, entity.changed, &mut entity.previous);
        entity.changed = false;
        i = i + 1;
    }
}

/// An entity that carries the component but no record yet has one after a run
/// of the update, holding a copy of the component's value at that run.
pub proof fn lemma_first_observation<T: Clone, S>(
    before: Seq<EntityView<T, S>>,
    after: Seq<EntityView<T, S>>,
    i: int,
)
    requires
        updated(before, after),
        0 <= i < before.len(),
        before[i].previous is None,
    ensures
        after[i].previous matches Some(p) && cloned(before[i].current, p.0),
        (forall|a: T, b: T| #[trigger] cloned(a, b) ==> a == b) ==> after[i].previous == Some(
            Previous::<T, S>::new_spec(before[i].current),
        ),
{
    assert(after[i].current == before[i].current);
}

/// An entity that has a record and whose component did not change keeps the
/// record exactly as it was: the update does not write it.
pub proof fn lemma_stability<T: Clone, S>(
    before: Seq<EntityView<T, S>>,
    after: Seq<EntityView<T, S>>,
    i: int,
)
    requires
        updated(before, after),
        0 <= i < before.len(),
        before[i].previous is Some,
        !before[i].changed,
    ensures
        after[i].previous == before[i].previous,
{
    assert(after[i].current == before[i].current);
}

/// An entity whose component changed has, after a run of the update, a record
/// holding a copy of the new value, whatever its record held before: the new
/// value itself where cloning a `T` gives an equal value.
pub proof fn lemma_change_propagation<T: Clone, S>(
    before: Seq<EntityView<T, S>>,
    after: Seq<EntityView<T, S>>,
    i: int,
)
    requires
        updated(before, after),
        0 <= i < before.len(),
        before[i].changed,
    ensures
        after[i].previous matches Some(p) && cloned(before[i].current, p.0),
        (forall|a: T, b: T| #[trigger] cloned(a, b) ==> a == b) ==> after[i].previous == Some(
            Previous::<T, S>::new_spec(before[i].current),
        ),
{
    assert(after[i].current == before[i].current);
}

/// Two schedules `S1` and `S2` that track the same component on the same
/// entities keep records of their own. Each record after the runs of both
/// updates follows from its own schedule's record and change flag alone: a
/// record of `S2` that is kept stays as it was, whatever the run of `S1` wrote.
pub proof fn lemma_schedules_independent<T: Clone, S1, S2>(
    first_before: Seq<EntityView<T, S1>>,
    first_after: Seq<EntityView<T, S1>>,
    second_before: Seq<EntityView<T, S2>>,
    second_after: Seq<EntityView<T, S2>>,
    i: int,
)
    requires
        first_before.len() == second_before.len(),
        forall|j: int|
            0 <= j < first_before.len() ==> #[trigger] first_before[j].current
                == second_before[j].current,
        updated(first_before, first_after),
        updated(second_before, second_after),
        0 <= i < first_before.len(),
    ensures
        refreshed(
            first_before[i].current,
            first_before[i].changed,
            first_before[i].previous,
            first_after[i].previous,
        ),
        refreshed(
            second_before[i].current,
            second_before[i].changed,
            second_before[i].previous,
            second_after[i].previous,
        ),
        second_before[i].previous is Some && !second_before[i].changed ==> second_after[i].previous
            == second_before[i].previous,
        first_before[i].previous is Some && !first_before[i].changed ==> first_after[i].previous
            == first_before[i].previous,
        (forall|a: T, b: T| #[trigger] cloned(a, b) ==> a == b) && first_before[i].previous is None
            && second_before[i].previous is None ==> first_after[i].previous == Some(
            Previous::<T, S1>::new_spec(first_before[i].current),
        ) && second_after[i].previous == Some(
            Previous::<T, S2>::new_spec(first_before[i].current),
        ),
{
    assert(first_after[i].current == first_before[i].current);
    assert(second_after[i].current == second_before[i].current);
}

} // verus!
