//! The table of gesture handlers that the input mode attaches to units.
use vstd::prelude::*;
use crate::arena::{Arena, EntityId};
use crate::input::{Attachment, Handler, InputMode, mode_handlers};
use crate::unit::UnitEntity;

verus! {

/// The attachments a mode gives one unit.
pub open spec fn unit_attachments(id: EntityId, m: InputMode) -> Seq<Attachment> {
    mode_handlers(m).map_values(|h: Handler| Attachment { unit: id, handler: h })
}

/// The attachments a mode gives the units of the first `n` slots.
pub open spec fn table_upto(units: Arena<UnitEntity>, m: InputMode, n: int) -> Seq<Attachment>
    decreases n,
{
    if n <= 0 {
        seq![]
    } else if units.slots@[n - 1].value is Some {
        table_upto(units, m, n - 1) + unit_attachments(units.id_at(n - 1), m)
    } else {
        table_upto(units, m, n - 1)
    }
}

/// The mode's handlers attached to every unit, in slot order.
pub open spec fn attachment_table(units: Arena<UnitEntity>, m: InputMode) -> Seq<Attachment> {
    table_upto(units, m, units.slots@.len() as int)
}

/// The two unit arenas have the same slots, full or empty, at the same
/// generations.
pub open spec fn same_layout(a: Arena<UnitEntity>, b: Arena<UnitEntity>) -> bool {
    &&& a.slots@.len() == b.slots@.len()
    &&& forall|i: int|
        0 <= i < a.slots@.len() ==> (#[trigger] a.slots@[i]).generation == b.slots@[i].generation
            && (a.slots@[i].value is Some <==> b.slots@[i].value is Some)
}

/// The attachment table depends only on which slots are full and their
/// generations.
pub proof fn lemma_same_layout_table(a: Arena<UnitEntity>, b: Arena<UnitEntity>, m: InputMode, n: int)
    requires
        same_layout(a, b),
        0 <= n <= a.slots@.len(),
    ensures
        table_upto(a, m, n) == table_upto(b, m, n),
    decreases n,
{
    if n > 0 {
        assert(a.slots@[n - 1].generation == b.slots@[n - 1].generation);
        lemma_same_layout_table(a, b, m, n - 1);
    }
}

/// The attachments a mode gives every unit.
pub fn build_attachments(units: &Arena<UnitEntity>, m: InputMode) -> (r: Vec<Attachment>)
    ensures
        r@ == attachment_table(*units, m),
{
    let handlers = m.handlers();
    let mut r: Vec<Attachment> = Vec::new();
    let n = units.len();
    for i in 0..n
        invariant
            n == units.slots@.len(),
            handlers@ == mode_handlers(m),
            r@ == table_upto(*units, m, i as int),
    {
        if units.at(i).is_some() {
            let id = units.id_of(i);
            let ghost before = r@;
            for j in 0..handlers.len()
                invariant
                    handlers@ == mode_handlers(m),
                    r@ == before + unit_attachments(id, m).take(j as int),
            {
                r.push(Attachment { unit: id, handler: handlers[j] });
                assert(r@ =~= before + unit_attachments(id, m).take(j + 1));
            }
            assert(unit_attachments(id, m).take(handlers@.len() as int) =~= unit_attachments(id, m));
        }
    }
    r
}

/// The mode's table attaches each of its handlers to each unit once, and
/// nothing else.
pub proof fn lemma_attachment_table(units: Arena<UnitEntity>, m: InputMode)
    requires
        units.slots@.len() <= usize::MAX,
    ensures
        attachment_table(units, m).no_duplicates(),
        forall|a: Attachment|
            attachment_table(units, m).contains(a) <==> (units.lookup(a.unit) is Some
                && mode_handlers(m).contains(a.handler)),
{
    lemma_table_upto(units, m, units.slots@.len() as int);
}

/// Switching from the position mode to the movement mode takes from every
/// unit exactly the select and move handlers, each once, and gives every
/// unit exactly the select and draw handlers, each once.
pub proof fn lemma_position_to_movement(units: Arena<UnitEntity>)
    requires
        units.slots@.len() <= usize::MAX,
    ensures
        attachment_table(units, InputMode::Position).no_duplicates(),
        attachment_table(units, InputMode::Movement).no_duplicates(),
        forall|a: Attachment|
            #[trigger] attachment_table(units, InputMode::Position).contains(a) <==> (units.lookup(a.unit) is Some
                && (a.handler == Handler::GrabSelects || a.handler == Handler::DragMoves)),
        forall|a: Attachment|
            #[trigger] attachment_table(units, InputMode::Movement).contains(a) <==> (units.lookup(a.unit) is Some
                && (a.handler == Handler::GrabSelects || a.handler == Handler::DragEndDrawsArrow)),
{
    lemma_attachment_table(units, InputMode::Position);
    lemma_attachment_table(units, InputMode::Movement);
    let p = mode_handlers(InputMode::Position);
    let m = mode_handlers(InputMode::Movement);
    assert(p[0] == Handler::GrabSelects && p[1] == Handler::DragMoves);
    assert(m[0] == Handler::GrabSelects && m[1] == Handler::DragEndDrawsArrow);
}

proof fn lemma_table_upto(units: Arena<UnitEntity>, m: InputMode, n: int)
    requires
        0 <= n <= units.slots@.len(),
        units.slots@.len() <= usize::MAX,
    ensures
        table_upto(units, m, n).no_duplicates(),
        forall|a: Attachment|
            table_upto(units, m, n).contains(a) <==> (a.unit.index < n && units.lookup(a.unit) is Some
                && mode_handlers(m).contains(a.handler)),
    decreases n,
{
    if n > 0 {
        lemma_table_upto(units, m, n - 1);
        let prev = table_upto(units, m, n - 1);
        let id = units.id_at(n - 1);
        let own = unit_attachments(id, m);
        assert(id.index == n - 1);
        assert(mode_handlers(m).no_duplicates());
        assert forall|a: Attachment| own.contains(a) <==> (a.unit == id && mode_handlers(m).contains(a.handler)) by {
            if own.contains(a) {
                let k = choose|k: int| 0 <= k < own.len() && own[k] == a;
                assert(mode_handlers(m)[k] == a.handler);
            }
            if a.unit == id && mode_handlers(m).contains(a.handler) {
                let k = choose|k: int| 0 <= k < mode_handlers(m).len() && mode_handlers(m)[k] == a.handler;
                assert(own[k] == a);
            }
        }
        if units.slots@[n - 1].value is Some {
            assert(own.no_duplicates()) by {
                assert forall|i: int, j: int| 0 <= i < own.len() && 0 <= j < own.len() && i != j implies own[i] != own[j] by {
                    assert(mode_handlers(m)[i] != mode_handlers(m)[j]);
                }
            }
            let t = prev + own;
            assert(t.no_duplicates()) by {
                assert forall|i: int, j: int| 0 <= i < t.len() && 0 <= j < t.len() && i != j implies t[i] != t[j] by {
                    if i < prev.len() && j >= prev.len() {
                        assert(t[i] == prev[i]);
                        assert(t[j] == own[j - prev.len()]);
                        assert(prev.contains(t[i]));
                        assert(own.contains(t[j]));
                    } else if j < prev.len() && i >= prev.len() {
                        assert(t[j] == prev[j]);
                        assert(t[i] == own[i - prev.len()]);
                        assert(prev.contains(t[j]));
                        assert(own.contains(t[i]));
                    } else if i < prev.len() && j < prev.len() {
                        assert(t[i] == prev[i]);
                        assert(t[j] == prev[j]);
                    } else {
                        assert(t[i] == own[i - prev.len()]);
                        assert(t[j] == own[j - prev.len()]);
                    }
                }
            }
            assert forall|a: Attachment| t.contains(a) <==> (prev.contains(a) || own.contains(a)) by {
                if t.contains(a) {
                    let k = choose|k: int| 0 <= k < t.len() && t[k] == a;
                    if k >= prev.len() {
                        assert(own[k - prev.len()] == a);
                    }
                }
                if own.contains(a) {
                    let k = choose|k: int| 0 <= k < own.len() && own[k] == a;
                    assert(t[k + prev.len()] == a);
                }
                if prev.contains(a) {
                    let k = choose|k: int| 0 <= k < prev.len() && prev[k] == a;
                    assert(t[k] == a);
                }
            }
        }
        assert forall|a: Attachment|
            table_upto(units, m, n).contains(a) <==> (a.unit.index < n && units.lookup(a.unit) is Some
                && mode_handlers(m).contains(a.handler)) by {
        }
    }
}

} // verus!
