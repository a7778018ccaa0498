//! The selection registry, and how the selection pass marks units.
use vstd::prelude::*;
use crate::arena::{Arena, EntityId, Slot};
use crate::unit::{UnitEntity, outline_color, unit_color};

verus! {

/// The unit currently grabbed, if any.
#[derive(Clone, Copy, Debug, PartialEq, Eq, Structural)]
pub struct UnitRegistry {
    pub selected: Option<EntityId>,
}

/// Whether the unit in slot `i` is the selected one.
pub open spec fn is_selected(i: int, s: Slot<UnitEntity>, sel: Option<EntityId>) -> bool {
    sel == Some(EntityId { index: i as usize, generation: s.generation })
}

/// A unit after the selection pass: marked and highlighted exactly when
/// it is the selected one.
pub open spec fn synced_slot(i: int, s: Slot<UnitEntity>, sel: Option<EntityId>) -> Slot<UnitEntity> {
    Slot {
        generation: s.generation,
        value: match s.value {
            None => None,
            Some(e) => {
                let on = is_selected(i, s, sel);
                Some(
                    UnitEntity {
                        unit: e.unit,
                        position: e.position,
                        selected: on,
                        fill: unit_color(e.unit, on),
                        outline: if on {
                            Some(outline_color(e.unit))
                        } else {
                            None
                        },
                    },
                )
            },
        },
    }
}

/// What a grab on `target` leaves selected: the target if it is a unit.
pub open spec fn grab_step(units: Arena<UnitEntity>, sel: Option<EntityId>, target: EntityId) -> Option<EntityId> {
    if units.lookup(target) is Some {
        Some(target)
    } else {
        sel
    }
}

/// What the selection is after a sequence of grabs, oldest first.
pub open spec fn selection_after(units: Arena<UnitEntity>, sel: Option<EntityId>, grabs: Seq<EntityId>) -> Option<
    EntityId,
>
    decreases grabs.len(),
{
    if grabs.len() == 0 {
        sel
    } else {
        selection_after(units, grab_step(units, sel, grabs[0]), grabs.drop_first())
    }
}

/// After any sequence of grabs of which at least one lands on a unit,
/// exactly one unit is marked selected by the selection pass: the last
/// unit grabbed. Every unit selected before is unmarked.
pub proof fn lemma_single_selection(units: Arena<UnitEntity>, sel: Option<EntityId>, grabs: Seq<EntityId>)
    requires
        units.slots@.len() <= usize::MAX,
        exists|k: int| 0 <= k < grabs.len() && units.lookup(#[trigger] grabs[k]) is Some,
    ensures
        selection_after(units, sel, grabs) matches Some(s) && units.lookup(s) is Some && forall|i: int|
            0 <= i < units.slots@.len() && units.slots@[i].value is Some ==> ((#[trigger] synced_slot(
                i,
                units.slots@[i],
                selection_after(units, sel, grabs),
            )).value->0.selected <==> i == s.index),
{
    lemma_selection_after_live(units, sel, grabs);
    let s = selection_after(units, sel, grabs)->0;
    assert forall|i: int|
        0 <= i < units.slots@.len() && units.slots@[i].value is Some implies ((#[trigger] synced_slot(
            i,
            units.slots@[i],
            Some(s),
        )).value->0.selected <==> i == s.index) by {
        if i == s.index {
            assert(EntityId { index: i as usize, generation: units.slots@[i].generation } == s);
        }
    }
}

proof fn lemma_selection_after_live(units: Arena<UnitEntity>, sel: Option<EntityId>, grabs: Seq<EntityId>)
    requires
        (sel matches Some(s) && units.lookup(s) is Some) || exists|k: int|
            0 <= k < grabs.len() && units.lookup(#[trigger] grabs[k]) is Some,
    ensures
        selection_after(units, sel, grabs) matches Some(s) && units.lookup(s) is Some,
    decreases grabs.len(),
{
    if grabs.len() > 0 {
        let next = grab_step(units, sel, grabs[0]);
        if !(next matches Some(s) && units.lookup(s) is Some) {
            let k = choose|k: int| 0 <= k < grabs.len() && units.lookup(#[trigger] grabs[k]) is Some;
            assert(k != 0);
            assert(units.lookup(grabs.drop_first()[k - 1]) is Some);
        }
        lemma_selection_after_live(units, next, grabs.drop_first());
    }
}

} // verus!
