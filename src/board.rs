//! The board: units, control points and arrows in arenas, with the
//! selection, the zoom and the input mode. Gestures and spawns change it;
//! each tick resolves control points, then rebuilds arrows.
use vstd::prelude::*;
use crate::arena::{Arena, EntityId, Slot};
use crate::arrow::{ArrowResolved, PathCommand, arrow_in_world, calc_arrow_path, path_of, start};
use crate::control_point::{
    AttachableControlPoint, ControlPoint, ControlPointEntity, ControlPointLocation,
    ControlPointRef, FloatingControlPoint, dangling, kind_in_world, point_of, resolution,
};
use crate::geometry::{Point, in_world, WORLD_LIMIT};
use crate::handlers::{
    attachment_table, build_attachments, lemma_attachment_table, lemma_same_layout_table, same_layout,
};
use crate::input::{Attachment, Handler, InputMode, mode_handlers, requested, requested_mode};
use crate::selection::{UnitRegistry, grab_step, synced_slot};
use crate::unit::{
    Jugg, PlayerUnitType, StartPosition, Team, Unit, UnitEntity, UnitState, UnitType, start_meters,
    unit_color,
};
use crate::zoom::{ZoomState, clamp_int, world_delta};

verus! {

/// An arrow by reference: its ends, and a curve's handles, are control points.
#[derive(Clone, Copy, Debug, PartialEq, Eq, Structural)]
pub enum Arrow {
    Straight { from: ControlPointRef, to: ControlPointRef },
    Bezier {
        from: ControlPointRef,
        to: ControlPointRef,
        control_from: ControlPointRef,
        control_to: ControlPointRef,
    },
}

/// An arrow as it stands on the board, with the drawable last built for it.
pub struct ArrowEntity {
    pub arrow: Arrow,
    /// The resolved value the drawable was built from, if any.
    pub resolved: Option<ArrowResolved>,
    /// Where the drawable is placed.
    pub transform: Point,
    /// The drawable, relative to `transform`.
    pub path: Vec<PathCommand>,
    /// The last pass found a control point missing (and said so).
    pub unresolved: bool,
}

/// What an arrow is spawned from: its control points are created with it.
#[derive(Clone, Copy, Debug, PartialEq, Eq, Structural)]
pub enum ArrowSpawnData {
    Straight { from: AttachableControlPoint, to: AttachableControlPoint },
    Bezier {
        from: AttachableControlPoint,
        to: AttachableControlPoint,
        control_from: FloatingControlPoint,
        control_to: FloatingControlPoint,
    },
}

/// What a unit is spawned from.
#[derive(Clone, Copy, Debug, PartialEq, Eq, Structural)]
pub enum SpawnData {
    Jugg,
    Player(UnitType, Team, StartPosition),
}

/// What a tick found wrong; each broken reference is reported once, on the
/// tick it broke, not on every tick after.
pub struct TickReport {
    /// The selection names a unit that no longer exists.
    pub stale_selection: bool,
    /// Control points whose unit has just gone missing.
    pub dangling_control_points: Vec<ControlPointRef>,
    /// Arrows with a control point that has just gone missing.
    pub unresolved_arrows: Vec<EntityId>,
}

/// What changed when the input mode switched.
pub struct ModeSwitch {
    pub detached: Vec<Attachment>,
    pub attached: Vec<Attachment>,
}

/// The whole state of the board. Each pass of a tick takes it by `&mut`,
/// so every pass is the only writer while it runs.
pub struct Board {
    pub units: Arena<UnitEntity>,
    pub control_points: Arena<ControlPointEntity>,
    pub arrows: Arena<ArrowEntity>,
    pub registry: UnitRegistry,
    pub zoom: ZoomState,
    pub mode: InputMode,
    /// The handlers attached to units.
    pub attachments: Vec<Attachment>,
}

/// The arrow with each reference replaced by its control point's position;
/// `None` if any of them is gone.
pub open spec fn arrow_resolution(a: Arrow, cps: Arena<ControlPointEntity>) -> Option<ArrowResolved> {
    match a {
        Arrow::Straight { from, to } => match (point_of(from, cps), point_of(to, cps)) {
            (Some(f), Some(t)) => Some(ArrowResolved::Straight { from: f, to: t }),
            _ => None,
        },
        Arrow::Bezier { from, to, control_from, control_to } => match (
            point_of(from, cps),
            point_of(to, cps),
            point_of(control_from, cps),
            point_of(control_to, cps),
        ) {
            (Some(f), Some(t), Some(cf), Some(ct)) => Some(
                ArrowResolved::Bezier { from: f, to: t, control_from: cf, control_to: ct },
            ),
            _ => None,
        },
    }
}

/// A control point after the resolution pass.
pub open spec fn resolved_slot(s: Slot<ControlPointEntity>, units: Arena<UnitEntity>) -> Slot<ControlPointEntity> {
    Slot {
        generation: s.generation,
        value: match s.value {
            Some(c) => Some(
                ControlPointEntity {
                    kind: c.kind,
                    position: resolution(c.kind, units).0,
                    visible: resolution(c.kind, units).1,
                    dangling: dangling(c.kind, units),
                },
            ),
            None => None,
        },
    }
}

/// The control points among the first `n` slots whose unit has gone
/// missing since their last resolution.
pub open spec fn newly_dangling(cps: Arena<ControlPointEntity>, units: Arena<UnitEntity>, n: int) -> Seq<
    ControlPointRef,
>
    decreases n,
{
    if n <= 0 {
        seq![]
    } else {
        let prev = newly_dangling(cps, units, n - 1);
        match cps.slots@[n - 1].value {
            Some(c) => if dangling(c.kind, units) && !c.dangling {
                prev.push(ControlPointRef(cps.id_at(n - 1)))
            } else {
                prev
            },
            None => prev,
        }
    }
}

/// The arrows among the first `n` slots that have lost a control point
/// since the last pass.
pub open spec fn newly_unresolved(arrows: Arena<ArrowEntity>, cps: Arena<ControlPointEntity>, n: int) -> Seq<
    EntityId,
>
    decreases n,
{
    if n <= 0 {
        seq![]
    } else {
        let prev = newly_unresolved(arrows, cps, n - 1);
        match arrows.slots@[n - 1].value {
            Some(e) => if arrow_resolution(e.arrow, cps) is None && !e.unresolved {
                prev.push(arrows.id_at(n - 1))
            } else {
                prev
            },
            None => prev,
        }
    }
}

/// An arrow after the geometry pass: rebuilt from its resolved value when
/// that value differs from the one it was last built from; left as it was
/// when it is the same, or when a control point is gone.
pub open spec fn arrow_updated(
    before: Slot<ArrowEntity>,
    after: Slot<ArrowEntity>,
    cps: Arena<ControlPointEntity>,
) -> bool {
    &&& after.generation == before.generation
    &&& match before.value {
        None => after.value is None,
        Some(e) => after.value matches Some(f) && f.arrow == e.arrow && match arrow_resolution(e.arrow, cps) {
            Some(r) => !f.unresolved && if e.resolved == Some(r) {
                f.resolved == e.resolved && f.transform == e.transform && f.path@ == e.path@
            } else {
                f.resolved == Some(r) && f.transform == start(r) && f.path@ == path_of(r)
            },
            None => f.unresolved && f.resolved == e.resolved && f.transform == e.transform && f.path@
                == e.path@,
        },
    }
}

/// A point moved by `d`, kept in the world.
pub open spec fn moved(p: Point, d: Point) -> Point {
    Point::new_spec(
        clamp_int(p.x + d.x, -WORLD_LIMIT, WORLD_LIMIT as int),
        clamp_int(p.y + d.y, -WORLD_LIMIT, WORLD_LIMIT as int),
    )
}

/// A control point after a drag by `d`: fixed ends and curve handles move
/// with it; attached ends cannot be dragged.
pub open spec fn dragged_control_point(c: ControlPointEntity, d: Point) -> Option<ControlPointEntity> {
    match c.kind {
        ControlPoint::Attachable(ControlPointLocation::Fixed(p)) => Some(
            ControlPointEntity {
                kind: ControlPoint::Attachable(ControlPointLocation::Fixed(moved(p, d))),
                position: moved(p, d),
                ..c
            },
        ),
        ControlPoint::Floating(p) => Some(
            ControlPointEntity { kind: ControlPoint::Floating(moved(p, d)), position: moved(p, d), ..c },
        ),
        ControlPoint::Attachable(ControlPointLocation::Attached(_)) => None,
    }
}

/// The unit a spawn creates: not selected, drawn plain.
pub open spec fn spawned_unit(data: SpawnData) -> UnitEntity {
    let (unit, position) = match data {
        SpawnData::Jugg => (Unit::Jugg, Point::new_spec(0, 0)),
        SpawnData::Player(unit_type, team, start) => (
            Unit::Player { team, unit_type, state: UnitState::Active },
            Point::new_spec(start_meters(team, start).0 * 100, start_meters(team, start).1 * 100),
        ),
    };
    UnitEntity { unit, position, selected: false, fill: unit_color(unit, false), outline: None }
}

/// A control point as it is created: already resolved.
pub open spec fn spawned_control_point(kind: ControlPoint, units: Arena<UnitEntity>) -> ControlPointEntity {
    ControlPointEntity {
        kind,
        position: resolution(kind, units).0,
        visible: resolution(kind, units).1,
        dangling: false,
    }
}

pub open spec fn spawn_in_world(data: ArrowSpawnData) -> bool {
    match data {
        ArrowSpawnData::Straight { from, to } => kind_in_world(ControlPoint::Attachable(from.location))
            && kind_in_world(ControlPoint::Attachable(to.location)),
        ArrowSpawnData::Bezier { from, to, control_from, control_to } => {
            &&& kind_in_world(ControlPoint::Attachable(from.location))
            &&& kind_in_world(ControlPoint::Attachable(to.location))
            &&& in_world(control_from.location)
            &&& in_world(control_to.location)
        },
    }
}

/// The reference names a control point created from `kind`.
pub open spec fn refers_to(
    r: ControlPointRef,
    kind: ControlPoint,
    cps: Arena<ControlPointEntity>,
    units: Arena<UnitEntity>,
) -> bool {
    cps.lookup(r.0) == Some(spawned_control_point(kind, units))
}

/// The arrow's references name control points made from the spawn data.
pub open spec fn spawned_from(
    a: Arrow,
    data: ArrowSpawnData,
    cps: Arena<ControlPointEntity>,
    units: Arena<UnitEntity>,
) -> bool {
    match (a, data) {
        (Arrow::Straight { from, to }, ArrowSpawnData::Straight { from: f, to: t }) => {
            &&& refers_to(from, ControlPoint::Attachable(f.location), cps, units)
            &&& refers_to(to, ControlPoint::Attachable(t.location), cps, units)
        },
        (
            Arrow::Bezier { from, to, control_from, control_to },
            ArrowSpawnData::Bezier { from: f, to: t, control_from: cf, control_to: ct },
        ) => {
            &&& refers_to(from, ControlPoint::Attachable(f.location), cps, units)
            &&& refers_to(to, ControlPoint::Attachable(t.location), cps, units)
            &&& refers_to(control_from, ControlPoint::Floating(cf.location), cps, units)
            &&& refers_to(control_to, ControlPoint::Floating(ct.location), cps, units)
        },
        _ => false,
    }
}

/// The straight arrow a released drag draws: from the unit's position to
/// where the drag ended.
pub open spec fn drawn_arrow(p: Point, d: Point) -> ArrowSpawnData {
    ArrowSpawnData::Straight {
        from: AttachableControlPoint { location: ControlPointLocation::Fixed(p) },
        to: AttachableControlPoint { location: ControlPointLocation::Fixed(moved(p, d)) },
    }
}

/// An attached control point sits, hidden, on its unit when the unit exists.
pub open spec fn attached_in_place(c: ControlPointEntity, units: Arena<UnitEntity>) -> bool {
    match c.kind {
        ControlPoint::Attachable(ControlPointLocation::Attached(u)) => match units.lookup(u) {
            Some(e) => c.position == e.position && !c.visible,
            None => true,
        },
        _ => true,
    }
}

pub open spec fn slot_in_place(s: Slot<ControlPointEntity>, units: Arena<UnitEntity>) -> bool {
    match s.value {
        Some(c) => attached_in_place(c, units),
        None => true,
    }
}

/// A released drag on `target` added arrow `a`, drawn from the unit, and
/// nothing else to the arrows.
pub open spec fn drew_arrow(before: Board, after: Board, target: EntityId, dx: i32, dy: i32, a: EntityId) -> bool {
    match before.units.lookup(target) {
        Some(e) => {
            &&& before.arrows.lookup(a) is None
            &&& match after.arrows.lookup(a) {
                Some(ae) => ae.resolved is None && spawned_from(
                    ae.arrow,
                    drawn_arrow(
                        e.position,
                        world_delta(before.zoom.current_zoom_factor as int, dx as int, dy as int),
                    ),
                    after.control_points,
                    after.units,
                ),
                None => false,
            }
            &&& forall|j: EntityId| j != a ==> #[trigger] after.arrows.lookup(j) == before.arrows.lookup(j)
        },
        None => false,
    }
}

/// The units on the board at start: the ball, then each team's runner and
/// four players.
pub open spec fn roster() -> Seq<SpawnData> {
    seq![
        SpawnData::Jugg,
        SpawnData::Player(UnitType::Runner { has_jugg: false }, Team::Left, StartPosition::Runner),
        SpawnData::Player(UnitType::Player(PlayerUnitType::Shield), Team::Left, StartPosition::One),
        SpawnData::Player(UnitType::Player(PlayerUnitType::QTip), Team::Left, StartPosition::Two),
        SpawnData::Player(UnitType::Player(PlayerUnitType::Chain), Team::Left, StartPosition::Three),
        SpawnData::Player(UnitType::Player(PlayerUnitType::QTip), Team::Left, StartPosition::Four),
        SpawnData::Player(UnitType::Runner { has_jugg: false }, Team::Right, StartPosition::Runner),
        SpawnData::Player(UnitType::Player(PlayerUnitType::DoubleShort), Team::Right, StartPosition::One),
        SpawnData::Player(UnitType::Player(PlayerUnitType::Staff), Team::Right, StartPosition::Two),
        SpawnData::Player(UnitType::Player(PlayerUnitType::Long), Team::Right, StartPosition::Three),
        SpawnData::Player(UnitType::Player(PlayerUnitType::Chain), Team::Right, StartPosition::Four),
    ]
}

/// Two sample arrows: a straight one, and a curve with its handles.
pub open spec fn sample_arrows() -> Seq<ArrowSpawnData> {
    seq![
        ArrowSpawnData::Straight {
            from: AttachableControlPoint { location: ControlPointLocation::Fixed(Point::new_spec(500, 500)) },
            to: AttachableControlPoint { location: ControlPointLocation::Fixed(Point::new_spec(700, 700)) },
        },
        ArrowSpawnData::Bezier {
            from: AttachableControlPoint { location: ControlPointLocation::Fixed(Point::new_spec(-500, -500)) },
            to: AttachableControlPoint { location: ControlPointLocation::Fixed(Point::new_spec(-700, -700)) },
            control_from: FloatingControlPoint { location: Point::new_spec(-700, -500) },
            control_to: FloatingControlPoint { location: Point::new_spec(-500, -700) },
        },
    ]
}

/// Entities that existed before still exist, unchanged.
pub open spec fn keeps<T>(before: Arena<T>, after: Arena<T>) -> bool {
    forall|j: EntityId| before.lookup(j) is Some ==> #[trigger] after.lookup(j) == before.lookup(j)
}

pub open spec fn unit_slot_ok(s: Slot<UnitEntity>) -> bool {
    match s.value {
        Some(e) => in_world(e.position),
        None => true,
    }
}

pub open spec fn control_point_slot_ok(s: Slot<ControlPointEntity>) -> bool {
    match s.value {
        Some(c) => in_world(c.position) && kind_in_world(c.kind),
        None => true,
    }
}

/// The drawable of an arrow matches the value it was built from.
pub open spec fn arrow_slot_ok(s: Slot<ArrowEntity>) -> bool {
    match s.value {
        Some(e) => match e.resolved {
            Some(r) => arrow_in_world(r) && e.path@ == path_of(r) && e.transform == start(r),
            None => true,
        },
        None => true,
    }
}

impl Board {
    pub open spec fn wf(&self) -> bool {
        &&& forall|i: int| 0 <= i < self.units.slots@.len() ==> unit_slot_ok(#[trigger] self.units.slots@[i])
        &&& forall|i: int|
            0 <= i < self.control_points.slots@.len() ==> control_point_slot_ok(
                #[trigger] self.control_points.slots@[i],
            )
        &&& forall|i: int| 0 <= i < self.arrows.slots@.len() ==> arrow_slot_ok(#[trigger] self.arrows.slots@[i])
        &&& self.units.slots@.len() <= usize::MAX
        &&& self.control_points.slots@.len() <= usize::MAX
        &&& self.arrows.slots@.len() <= usize::MAX
        &&& self.zoom.in_bounds()
        &&& self.attachments@ == attachment_table(self.units, self.mode)
    }

    /// An empty board in the initial mode, fully zoomed out, nothing selected.
    pub fn new() -> (r: Board)
        ensures
            r.wf(),
            r.units.slots@.len() == 0,
            r.control_points.slots@.len() == 0,
            r.arrows.slots@.len() == 0,
            r.registry.selected is None,
            r.mode == InputMode::Position,
            r.zoom == ZoomState::new_spec(),
    {
        let r = Board {
            units: Arena::new(),
            control_points: Arena::new(),
            arrows: Arena::new(),
            registry: UnitRegistry { selected: None },
            zoom: ZoomState::new(),
            mode: InputMode::initial(),
            attachments: Vec::new(),
        };
        assert(r.attachments@ =~= attachment_table(r.units, r.mode));
        r
    }
}

impl Arrow {
    pub fn resolve(&self, cps: &Arena<ControlPointEntity>) -> (r: Option<ArrowResolved>)
        ensures
            r == arrow_resolution(*self, *cps),
    {
        match *self {
            Arrow::Straight { from, to } => {
                let f = from.resolve(cps)?;
                let t = to.resolve(cps)?;
                Some(ArrowResolved::Straight { from: f, to: t })
            },
            Arrow::Bezier { from, to, control_from, control_to } => {
                let f = from.resolve(cps)?;
                let t = to.resolve(cps)?;
                let cf = control_from.resolve(cps)?;
                let ct = control_to.resolve(cps)?;
                Some(ArrowResolved::Bezier { from: f, to: t, control_from: cf, control_to: ct })
            },
        }
    }
}

impl Board {
    /// Puts every control point where it resolves to now: attached ones on
    /// their unit's current position. Gives the control points whose unit
    /// has gone missing since their last resolution.
    pub fn update_control_points(&mut self) -> (r: Vec<ControlPointRef>)
        requires
            old(self).wf(),
        ensures
            final(self).wf(),
            final(self).control_points.slots@ == old(self).control_points.slots@.map_values(
                |s: Slot<ControlPointEntity>| resolved_slot(s, old(self).units),
            ),
            r@ == newly_dangling(
                old(self).control_points,
                old(self).units,
                old(self).control_points.slots@.len() as int,
            ),
            final(self).units == old(self).units,
            final(self).arrows == old(self).arrows,
            final(self).registry == old(self).registry,
            final(self).zoom == old(self).zoom,
            final(self).mode == old(self).mode,
            final(self).attachments == old(self).attachments,
    {
        let mut report: Vec<ControlPointRef> = Vec::new();
        let n = self.control_points.len();
        for i in 0..n
            invariant
                self.wf(),
                n == self.control_points.slots@.len(),
                self.units == old(self).units,
                self.arrows == old(self).arrows,
                self.registry == old(self).registry,
                self.zoom == old(self).zoom,
                self.mode == old(self).mode,
                self.attachments == old(self).attachments,
                n == old(self).control_points.slots@.len(),
                forall|k: int|
                    0 <= k < i ==> self.control_points.slots@[k] == resolved_slot(
                        old(self).control_points.slots@[k],
                        old(self).units,
                    ),
                forall|k: int| i <= k < n ==> self.control_points.slots@[k] == old(self).control_points.slots@[k],
                report@ == newly_dangling(old(self).control_points, old(self).units, i as int),
        {
            let cur: Option<ControlPointEntity> = match self.control_points.at(i) {
                Some(c) => Some(*c),
                None => None,
            };
            if let Some(c) = cur {
                let (position, visible) = c.kind.resolve(&self.units);
                let missing = c.kind.is_dangling(&self.units);
                if missing && !c.dangling {
                    report.push(ControlPointRef(self.control_points.id_of(i)));
                }
                proof {
                    assert(control_point_slot_ok(self.control_points.slots@[i as int]));
                    if let ControlPoint::Attachable(ControlPointLocation::Attached(u)) = c.kind {
                        if self.units.lookup(u) is Some {
                            assert(unit_slot_ok(self.units.slots@[u.index as int]));
                        }
                    }
                }
                self.control_points.set_at(
                    i,
                    ControlPointEntity { kind: c.kind, position, visible, dangling: missing },
                );
            }
        }
        assert(self.control_points.slots@ =~= old(self).control_points.slots@.map_values(
            |s: Slot<ControlPointEntity>| resolved_slot(s, old(self).units),
        ));
        report
    }
}

impl Board {
    /// Rebuilds the drawable of every arrow whose resolved value changed
    /// since it was last built; arrows with a missing control point are
    /// skipped. Gives the arrows that have lost a control point since the
    /// last pass.
    pub fn update_arrow_visuals(&mut self) -> (r: Vec<EntityId>)
        requires
            old(self).wf(),
        ensures
            final(self).wf(),
            final(self).arrows.slots@.len() == old(self).arrows.slots@.len(),
            forall|i: int|
                0 <= i < old(self).arrows.slots@.len() ==> arrow_updated(
                    #[trigger] old(self).arrows.slots@[i],
                    final(self).arrows.slots@[i],
                    old(self).control_points,
                ),
            r@ == newly_unresolved(
                old(self).arrows,
                old(self).control_points,
                old(self).arrows.slots@.len() as int,
            ),
            final(self).units == old(self).units,
            final(self).control_points == old(self).control_points,
            final(self).registry == old(self).registry,
            final(self).zoom == old(self).zoom,
            final(self).mode == old(self).mode,
            final(self).attachments == old(self).attachments,
    {
        let mut report: Vec<EntityId> = Vec::new();
        let n = self.arrows.len();
        for i in 0..n
            invariant
                self.wf(),
                n == self.arrows.slots@.len(),
                n == old(self).arrows.slots@.len(),
                self.units == old(self).units,
                self.control_points == old(self).control_points,
                self.registry == old(self).registry,
                self.zoom == old(self).zoom,
                self.mode == old(self).mode,
                self.attachments == old(self).attachments,
                forall|k: int|
                    0 <= k < i ==> arrow_updated(
                        #[trigger] old(self).arrows.slots@[k],
                        self.arrows.slots@[k],
                        old(self).control_points,
                    ),
                forall|k: int| i <= k < n ==> self.arrows.slots@[k] == old(self).arrows.slots@[k],
                report@ == newly_unresolved(old(self).arrows, old(self).control_points, i as int),
        {
            let id = self.arrows.id_of(i);
            if let Some(mut e) = self.arrows.take_at(i) {
                match e.arrow.resolve(&self.control_points) {
                    Some(r) => {
                        let same = match e.resolved {
                            Some(l) => l == r,
                            None => false,
                        };
                        if !same {
                            proof {
                                self.lemma_resolution_in_world(e.arrow);
                            }
                            e.path = calc_arrow_path(&r);
                            e.transform = r.get_transform();
                            e.resolved = Some(r);
                        }
                        e.unresolved = false;
                    },
                    None => {
                        if !e.unresolved {
                            report.push(id);
                        }
                        e.unresolved = true;
                    },
                }
                self.arrows.set_at(i, e);
                proof {
                    assert forall|k: int| 0 <= k < n implies arrow_slot_ok(#[trigger] self.arrows.slots@[k]) by {
                        if k != i && k >= i {
                            assert(arrow_slot_ok(old(self).arrows.slots@[k]));
                        }
                    }
                }
            }
        }
        report
    }

    proof fn lemma_resolution_in_world(&self, a: Arrow)
        requires
            self.wf(),
            arrow_resolution(a, self.control_points) is Some,
        ensures
            arrow_in_world(arrow_resolution(a, self.control_points)->0),
    {
        let cps = self.control_points;
        match a {
            Arrow::Straight { from, to } => {
                assert(control_point_slot_ok(cps.slots@[from.0.index as int]));
                assert(control_point_slot_ok(cps.slots@[to.0.index as int]));
            },
            Arrow::Bezier { from, to, control_from, control_to } => {
                assert(control_point_slot_ok(cps.slots@[from.0.index as int]));
                assert(control_point_slot_ok(cps.slots@[to.0.index as int]));
                assert(control_point_slot_ok(cps.slots@[control_from.0.index as int]));
                assert(control_point_slot_ok(cps.slots@[control_to.0.index as int]));
            },
        }
    }

    /// Marks the selected unit and highlights it; every other unit is
    /// unmarked and drawn plain. Tells whether the selection names a unit
    /// that no longer exists (it is then left as it is, and nothing is
    /// marked).
    pub fn sync_selection(&mut self) -> (stale: bool)
        requires
            old(self).wf(),
        ensures
            final(self).wf(),
            final(self).units.slots@ == old(self).units.slots@.map(
                |i: int, s: Slot<UnitEntity>| synced_slot(i, s, old(self).registry.selected),
            ),
            stale == (old(self).registry.selected matches Some(id) && old(self).units.lookup(id) is None),
            final(self).control_points == old(self).control_points,
            final(self).arrows == old(self).arrows,
            final(self).registry == old(self).registry,
            final(self).zoom == old(self).zoom,
            final(self).mode == old(self).mode,
            final(self).attachments == old(self).attachments,
    {
        let sel = self.registry.selected;
        let n = self.units.len();
        for i in 0..n
            invariant
                n == self.units.slots@.len(),
                n == old(self).units.slots@.len(),
                n <= usize::MAX,
                sel == old(self).registry.selected,
                self.control_points == old(self).control_points,
                self.arrows == old(self).arrows,
                self.registry == old(self).registry,
                self.zoom == old(self).zoom,
                self.mode == old(self).mode,
                self.attachments == old(self).attachments,
                forall|k: int|
                    0 <= k < i ==> self.units.slots@[k] == synced_slot(k, old(self).units.slots@[k], sel),
                forall|k: int| i <= k < n ==> self.units.slots@[k] == old(self).units.slots@[k],
        {
            let cur: Option<UnitEntity> = match self.units.at(i) {
                Some(e) => Some(*e),
                None => None,
            };
            if let Some(e) = cur {
                let id = self.units.id_of(i);
                let on = match sel {
                    Some(s) => s == id,
                    None => false,
                };
                let outline = if on {
                    Some(e.unit.outline_color())
                } else {
                    None
                };
                self.units.set_at(
                    i,
                    UnitEntity { unit: e.unit, position: e.position, selected: on, fill: e.unit.color(on), outline },
                );
            }
        }
        assert(self.units.slots@ =~= old(self).units.slots@.map(
            |i: int, s: Slot<UnitEntity>| synced_slot(i, s, sel),
        ));
        proof {
            assert forall|i: int| 0 <= i < self.units.slots@.len() implies unit_slot_ok(
                #[trigger] self.units.slots@[i],
            ) by {
                assert(unit_slot_ok(old(self).units.slots@[i]));
            }
            assert(same_layout(old(self).units, self.units));
            lemma_same_layout_table(old(self).units, self.units, self.mode, n as int);
        }
        match sel {
            Some(id) => self.units.get(id).is_none(),
            None => false,
        }
    }
}

impl Board {
    /// Whether `handler` is attached to `unit`.
    pub fn has_handler(&self, unit: EntityId, handler: Handler) -> (r: bool)
        ensures
            r == self.attachments@.contains(Attachment { unit, handler }),
    {
        let a = Attachment { unit, handler };
        let n = self.attachments.len();
        let mut found = false;
        for i in 0..n
            invariant
                n == self.attachments@.len(),
                found <==> exists|k: int| 0 <= k < i && self.attachments@[k] == a,
        {
            if self.attachments[i] == a {
                found = true;
            }
        }
        found
    }

    /// A press on an entity: a unit carrying the select handler becomes the
    /// selected one, replacing any earlier selection.
    pub fn on_pointer_down(&mut self, target: EntityId)
        requires
            old(self).wf(),
        ensures
            final(self).wf(),
            final(self).registry.selected == grab_step(old(self).units, old(self).registry.selected, target),
            final(self).units == old(self).units,
            final(self).control_points == old(self).control_points,
            final(self).arrows == old(self).arrows,
            final(self).zoom == old(self).zoom,
            final(self).mode == old(self).mode,
            final(self).attachments == old(self).attachments,
    {
        proof {
            lemma_attachment_table(self.units, self.mode);
            assert(mode_handlers(self.mode)[0] == Handler::GrabSelects);
        }
        if self.has_handler(target, Handler::GrabSelects) {
            self.registry.selected = Some(target);
        }
    }

    /// The unit that is selected, if it still exists.
    pub fn selected_unit(&self) -> (r: Option<Unit>)
        ensures
            r == match self.registry.selected {
                Some(id) => match self.units.lookup(id) {
                    Some(e) => Some(e.unit),
                    None => None,
                },
                None => None,
            },
    {
        match self.registry.selected {
            Some(id) => match self.units.get(id) {
                Some(e) => Some(e.unit),
                None => None,
            },
            None => None,
        }
    }

    /// Adds a unit; it gets the handlers of the active mode.
    pub fn spawn_unit(&mut self, data: SpawnData) -> (r: EntityId)
        requires
            old(self).wf(),
            old(self).units.slots@.len() < usize::MAX,
        ensures
            final(self).wf(),
            old(self).units.lookup(r) is None,
            final(self).units.lookup(r) == Some(spawned_unit(data)),
            forall|j: EntityId| j != r ==> #[trigger] final(self).units.lookup(j) == old(self).units.lookup(j),
            final(self).units.slots@.len() <= old(self).units.slots@.len() + 1,
            final(self).control_points == old(self).control_points,
            final(self).arrows == old(self).arrows,
            final(self).registry == old(self).registry,
            final(self).zoom == old(self).zoom,
            final(self).mode == old(self).mode,
    {
        let (unit, position) = match data {
            SpawnData::Jugg => (Unit::Jugg, Jugg::initial_position()),
            SpawnData::Player(unit_type, team, start) => (
                Unit::Player { team, unit_type, state: UnitState::Active },
                team.initial_position(start),
            ),
        };
        let fill = unit.color(false);
        let id = self.units.insert(UnitEntity { unit, position, selected: false, fill, outline: None });
        self.attachments = build_attachments(&self.units, self.mode);
        proof {
            assert forall|i: int| 0 <= i < self.units.slots@.len() implies unit_slot_ok(
                #[trigger] self.units.slots@[i],
            ) by {
                if i != id.index && i < old(self).units.slots@.len() {
                    assert(unit_slot_ok(old(self).units.slots@[i]));
                }
            }
        }
        id
    }

    /// Removes a unit, and its handlers; control points attached to it stay
    /// and fall back to the origin.
    pub fn despawn_unit(&mut self, id: EntityId) -> (r: Option<UnitEntity>)
        requires
            old(self).wf(),
        ensures
            final(self).wf(),
            r == old(self).units.lookup(id),
            final(self).units.lookup(id) is None,
            forall|j: EntityId| j != id ==> #[trigger] final(self).units.lookup(j) == old(self).units.lookup(j),
            final(self).control_points == old(self).control_points,
            final(self).arrows == old(self).arrows,
            final(self).registry == old(self).registry,
            final(self).zoom == old(self).zoom,
            final(self).mode == old(self).mode,
    {
        let r = self.units.remove(id);
        self.attachments = build_attachments(&self.units, self.mode);
        proof {
            assert forall|i: int| 0 <= i < self.units.slots@.len() implies unit_slot_ok(
                #[trigger] self.units.slots@[i],
            ) by {
                assert(unit_slot_ok(old(self).units.slots@[i]));
            }
        }
        r
    }

    /// Removes a control point; arrows that use it are no longer rebuilt.
    pub fn despawn_control_point(&mut self, r: ControlPointRef) -> (e: Option<ControlPointEntity>)
        requires
            old(self).wf(),
        ensures
            final(self).wf(),
            e == old(self).control_points.lookup(r.0),
            final(self).control_points.lookup(r.0) is None,
            forall|j: EntityId|
                j != r.0 ==> #[trigger] final(self).control_points.lookup(j) == old(self).control_points.lookup(j),
            final(self).units == old(self).units,
            final(self).arrows == old(self).arrows,
            final(self).registry == old(self).registry,
            final(self).zoom == old(self).zoom,
            final(self).mode == old(self).mode,
            final(self).attachments == old(self).attachments,
    {
        let e = self.control_points.remove(r.0);
        proof {
            assert forall|i: int| 0 <= i < self.control_points.slots@.len() implies control_point_slot_ok(
                #[trigger] self.control_points.slots@[i],
            ) by {
                assert(control_point_slot_ok(old(self).control_points.slots@[i]));
            }
        }
        e
    }

    /// Switches the input mode. Entering the active mode does nothing;
    /// otherwise the old mode's handlers are detached from every unit and
    /// the new mode's attached to every unit.
    pub fn set_input_mode(&mut self, m: InputMode) -> (r: Option<ModeSwitch>)
        requires
            old(self).wf(),
        ensures
            final(self).wf(),
            final(self).mode == m,
            m == old(self).mode ==> r is None && final(self).attachments@ == old(self).attachments@,
            m != old(self).mode ==> (r matches Some(sw) && sw.detached@ == attachment_table(
                old(self).units,
                old(self).mode,
            ) && sw.attached@ == attachment_table(old(self).units, m) && final(self).attachments@
                == sw.attached@),
            final(self).units == old(self).units,
            final(self).control_points == old(self).control_points,
            final(self).arrows == old(self).arrows,
            final(self).registry == old(self).registry,
            final(self).zoom == old(self).zoom,
    {
        if m == self.mode {
            return None;
        }
        let mut table = build_attachments(&self.units, m);
        std::mem::swap(&mut self.attachments, &mut table);
        self.mode = m;
        let attached = build_attachments(&self.units, m);
        Some(ModeSwitch { detached: table, attached })
    }
}

/// `v` kept within the world's coordinate range.
fn clamp_coord(v: i64) -> (r: i64)
    ensures
        r == clamp_int(v as int, -WORLD_LIMIT, WORLD_LIMIT as int),
{
    if v < -WORLD_LIMIT {
        -WORLD_LIMIT
    } else if v > WORLD_LIMIT {
        WORLD_LIMIT
    } else {
        v
    }
}

impl Board {
    /// A drag step on an entity: a unit carrying the move handler moves by
    /// the drag delta converted to world pixels.
    pub fn on_drag(&mut self, target: EntityId, dx: i32, dy: i32)
        requires
            old(self).wf(),
        ensures
            final(self).wf(),
            match old(self).units.lookup(target) {
                Some(e) => if mode_handlers(old(self).mode).contains(Handler::DragMoves) {
                    &&& final(self).units.lookup(target) == Some(
                        UnitEntity {
                            position: moved(
                                e.position,
                                world_delta(old(self).zoom.current_zoom_factor as int, dx as int, dy as int),
                            ),
                            ..e
                        },
                    )
                    &&& forall|j: EntityId|
                        j != target ==> #[trigger] final(self).units.lookup(j) == old(self).units.lookup(j)
                } else {
                    final(self).units == old(self).units
                },
                None => final(self).units == old(self).units,
            },
            final(self).control_points == old(self).control_points,
            final(self).arrows == old(self).arrows,
            final(self).registry == old(self).registry,
            final(self).zoom == old(self).zoom,
            final(self).mode == old(self).mode,
            final(self).attachments == old(self).attachments,
    {
        proof {
            lemma_attachment_table(self.units, self.mode);
        }
        if !self.has_handler(target, Handler::DragMoves) {
            return;
        }
        let e = match self.units.get(target) {
            Some(e) => *e,
            None => return,
        };
        let d = self.zoom.screen_to_world(dx, dy);
        proof {
            assert(unit_slot_ok(self.units.slots@[target.index as int]));
        }
        let position = Point { x: clamp_coord(e.position.x + d.x), y: clamp_coord(e.position.y + d.y) };
        self.units.set_at(target.index, UnitEntity { position, ..e });
        proof {
            assert forall|i: int| 0 <= i < self.units.slots@.len() implies unit_slot_ok(
                #[trigger] self.units.slots@[i],
            ) by {
                assert(unit_slot_ok(old(self).units.slots@[i]));
            }
            assert(same_layout(old(self).units, self.units));
            lemma_same_layout_table(old(self).units, self.units, self.mode, self.units.slots@.len() as int);
        }
    }

    /// A drag step on a control point: in the position mode a fixed end or a
    /// curve handle moves by the drag delta converted to world pixels.
    pub fn on_control_point_drag(&mut self, target: ControlPointRef, dx: i32, dy: i32)
        requires
            old(self).wf(),
        ensures
            final(self).wf(),
            match old(self).control_points.lookup(target.0) {
                Some(c) => match dragged_control_point(
                    c,
                    world_delta(old(self).zoom.current_zoom_factor as int, dx as int, dy as int),
                ) {
                    Some(n) => if old(self).mode == InputMode::Position {
                        &&& final(self).control_points.lookup(target.0) == Some(n)
                        &&& forall|j: EntityId|
                            j != target.0 ==> #[trigger] final(self).control_points.lookup(j)
                                == old(self).control_points.lookup(j)
                    } else {
                        final(self).control_points == old(self).control_points
                    },
                    None => final(self).control_points == old(self).control_points,
                },
                None => final(self).control_points == old(self).control_points,
            },
            final(self).units == old(self).units,
            final(self).arrows == old(self).arrows,
            final(self).registry == old(self).registry,
            final(self).zoom == old(self).zoom,
            final(self).mode == old(self).mode,
            final(self).attachments == old(self).attachments,
    {
        if self.mode != InputMode::Position {
            return;
        }
        let c = match self.control_points.get(target.0) {
            Some(c) => *c,
            None => return,
        };
        let d = self.zoom.screen_to_world(dx, dy);
        proof {
            assert(control_point_slot_ok(self.control_points.slots@[target.0.index as int]));
        }
        let kind = match c.kind {
            ControlPoint::Attachable(ControlPointLocation::Fixed(p)) => ControlPoint::Attachable(
                ControlPointLocation::Fixed(Point { x: clamp_coord(p.x + d.x), y: clamp_coord(p.y + d.y) }),
            ),
            ControlPoint::Floating(p) => ControlPoint::Floating(
                Point { x: clamp_coord(p.x + d.x), y: clamp_coord(p.y + d.y) },
            ),
            ControlPoint::Attachable(ControlPointLocation::Attached(_)) => return,
        };
        let position = match kind {
            ControlPoint::Attachable(ControlPointLocation::Fixed(p)) => p,
            ControlPoint::Floating(p) => p,
            ControlPoint::Attachable(ControlPointLocation::Attached(_)) => c.position,
        };
        self.control_points.set_at(target.0.index, ControlPointEntity { kind, position, ..c });
        proof {
            assert forall|i: int| 0 <= i < self.control_points.slots@.len() implies control_point_slot_ok(
                #[trigger] self.control_points.slots@[i],
            ) by {
                assert(control_point_slot_ok(old(self).control_points.slots@[i]));
            }
        }
    }

    /// Adds a control point, already resolved.
    pub fn spawn_control_point(&mut self, kind: ControlPoint) -> (r: ControlPointRef)
        requires
            old(self).wf(),
            kind_in_world(kind),
            old(self).control_points.slots@.len() < usize::MAX,
        ensures
            final(self).wf(),
            old(self).control_points.lookup(r.0) is None,
            refers_to(r, kind, final(self).control_points, final(self).units),
            forall|j: EntityId|
                j != r.0 ==> #[trigger] final(self).control_points.lookup(j) == old(self).control_points.lookup(j),
            final(self).control_points.slots@.len() <= old(self).control_points.slots@.len() + 1,
            final(self).units == old(self).units,
            final(self).arrows == old(self).arrows,
            final(self).registry == old(self).registry,
            final(self).zoom == old(self).zoom,
            final(self).mode == old(self).mode,
            final(self).attachments == old(self).attachments,
    {
        let (position, visible) = kind.resolve(&self.units);
        proof {
            if let ControlPoint::Attachable(ControlPointLocation::Attached(u)) = kind {
                if self.units.lookup(u) is Some {
                    assert(unit_slot_ok(self.units.slots@[u.index as int]));
                }
            }
        }
        let id = self.control_points.insert(ControlPointEntity { kind, position, visible, dangling: false });
        proof {
            assert forall|i: int| 0 <= i < self.control_points.slots@.len() implies control_point_slot_ok(
                #[trigger] self.control_points.slots@[i],
            ) by {
                if i != id.index && i < old(self).control_points.slots@.len() {
                    assert(control_point_slot_ok(old(self).control_points.slots@[i]));
                }
            }
        }
        ControlPointRef(id)
    }

    /// Adds an arrow together with its control points, so that it never
    /// names a control point that does not exist yet.
    pub fn spawn_arrow(&mut self, data: ArrowSpawnData) -> (r: EntityId)
        requires
            old(self).wf(),
            spawn_in_world(data),
            old(self).control_points.slots@.len() + 4 < usize::MAX,
            old(self).arrows.slots@.len() < usize::MAX,
        ensures
            final(self).wf(),
            old(self).arrows.lookup(r) is None,
            final(self).arrows.lookup(r) matches Some(e) && e.resolved is None && spawned_from(
                e.arrow,
                data,
                final(self).control_points,
                final(self).units,
            ),
            forall|j: EntityId| j != r ==> #[trigger] final(self).arrows.lookup(j) == old(self).arrows.lookup(j),
            keeps(old(self).control_points, final(self).control_points),
            final(self).control_points.slots@.len() <= old(self).control_points.slots@.len() + 4,
            final(self).arrows.slots@.len() <= old(self).arrows.slots@.len() + 1,
            final(self).units == old(self).units,
            final(self).registry == old(self).registry,
            final(self).zoom == old(self).zoom,
            final(self).mode == old(self).mode,
            final(self).attachments == old(self).attachments,
    {
        let arrow = match data {
            ArrowSpawnData::Straight { from, to } => {
                let f = self.spawn_control_point(from.to_component());
                let t = self.spawn_control_point(to.to_component());
                Arrow::Straight { from: f, to: t }
            },
            ArrowSpawnData::Bezier { from, to, control_from, control_to } => {
                let f = self.spawn_control_point(from.to_component());
                let t = self.spawn_control_point(to.to_component());
                let cf = self.spawn_control_point(control_from.to_component());
                let ct = self.spawn_control_point(control_to.to_component());
                Arrow::Bezier { from: f, to: t, control_from: cf, control_to: ct }
            },
        };
        let id = self.arrows.insert(
            ArrowEntity { arrow, resolved: None, transform: Point::zero(), path: Vec::new(), unresolved: false },
        );
        proof {
            assert forall|i: int| 0 <= i < self.arrows.slots@.len() implies arrow_slot_ok(
                #[trigger] self.arrows.slots@[i],
            ) by {
                if i != id.index && i < old(self).arrows.slots@.len() {
                    assert(arrow_slot_ok(old(self).arrows.slots@[i]));
                }
            }
        }
        id
    }
}

impl Board {
    /// A released drag on an entity: from a unit carrying the draw handler,
    /// a straight arrow is drawn to where the drag ended. Gives the new
    /// arrow, if one was drawn.
    pub fn on_drag_end(&mut self, target: EntityId, dx: i32, dy: i32) -> (r: Option<EntityId>)
        requires
            old(self).wf(),
            old(self).control_points.slots@.len() + 4 < usize::MAX,
            old(self).arrows.slots@.len() < usize::MAX,
        ensures
            final(self).wf(),
            r is Some <==> (old(self).units.lookup(target) is Some && mode_handlers(old(self).mode).contains(
                Handler::DragEndDrawsArrow,
            )),
            r matches Some(a) ==> drew_arrow(*old(self), *final(self), target, dx, dy, a),
            r is None ==> final(self).arrows == old(self).arrows && final(self).control_points == old(
                self,
            ).control_points,
            keeps(old(self).control_points, final(self).control_points),
            final(self).units == old(self).units,
            final(self).registry == old(self).registry,
            final(self).zoom == old(self).zoom,
            final(self).mode == old(self).mode,
            final(self).attachments == old(self).attachments,
    {
        proof {
            lemma_attachment_table(self.units, self.mode);
        }
        if !self.has_handler(target, Handler::DragEndDrawsArrow) {
            return None;
        }
        let e = match self.units.get(target) {
            Some(e) => *e,
            None => return None,
        };
        let d = self.zoom.screen_to_world(dx, dy);
        proof {
            assert(unit_slot_ok(self.units.slots@[target.index as int]));
        }
        let to = Point { x: clamp_coord(e.position.x + d.x), y: clamp_coord(e.position.y + d.y) };
        let data = ArrowSpawnData::Straight {
            from: AttachableControlPoint { location: ControlPointLocation::Fixed(e.position) },
            to: AttachableControlPoint { location: ControlPointLocation::Fixed(to) },
        };
        Some(self.spawn_arrow(data))
    }

    /// One tick: the selection is synced, then every control point is
    /// resolved against the units' current positions, and only then are
    /// the arrows rebuilt from those control points.
    pub fn tick(&mut self) -> (r: TickReport)
        requires
            old(self).wf(),
        ensures
            final(self).wf(),
            r.stale_selection == (old(self).registry.selected matches Some(id) && old(self).units.lookup(id) is None),
            final(self).units.slots@ == old(self).units.slots@.map(
                |i: int, s: Slot<UnitEntity>| synced_slot(i, s, old(self).registry.selected),
            ),
            final(self).control_points.slots@ == old(self).control_points.slots@.map_values(
                |s: Slot<ControlPointEntity>| resolved_slot(s, final(self).units),
            ),
            forall|i: int|
                0 <= i < final(self).control_points.slots@.len() ==> slot_in_place(
                    #[trigger] final(self).control_points.slots@[i],
                    final(self).units,
                ),
            r.dangling_control_points@ == newly_dangling(
                old(self).control_points,
                final(self).units,
                old(self).control_points.slots@.len() as int,
            ),
            final(self).arrows.slots@.len() == old(self).arrows.slots@.len(),
            forall|i: int|
                0 <= i < old(self).arrows.slots@.len() ==> arrow_updated(
                    #[trigger] old(self).arrows.slots@[i],
                    final(self).arrows.slots@[i],
                    final(self).control_points,
                ),
            r.unresolved_arrows@ == newly_unresolved(
                old(self).arrows,
                final(self).control_points,
                old(self).arrows.slots@.len() as int,
            ),
            final(self).registry == old(self).registry,
            final(self).zoom == old(self).zoom,
            final(self).mode == old(self).mode,
    {
        let stale_selection = self.sync_selection();
        let dangling_control_points = self.update_control_points();
        let unresolved_arrows = self.update_arrow_visuals();
        proof {
            assert forall|i: int|
                0 <= i < self.control_points.slots@.len() implies slot_in_place(
                    #[trigger] self.control_points.slots@[i],
                    self.units,
                ) by {
                if let Some(c) = self.control_points.slots@[i].value {
                    if let ControlPoint::Attachable(ControlPointLocation::Attached(u)) = c.kind {
                        assert(c.position == resolution(c.kind, self.units).0);
                    }
                }
            }
        }
        TickReport { stale_selection, dangling_control_points, unresolved_arrows }
    }
}

/// The units on the board at start.
pub fn default_roster() -> (r: Vec<SpawnData>)
    ensures
        r@ == roster(),
{
    let r = vec![
        SpawnData::Jugg,
        SpawnData::Player(UnitType::Runner { has_jugg: false }, Team::Left, StartPosition::Runner),
        SpawnData::Player(UnitType::Player(PlayerUnitType::Shield), Team::Left, StartPosition::One),
        SpawnData::Player(UnitType::Player(PlayerUnitType::QTip), Team::Left, StartPosition::Two),
        SpawnData::Player(UnitType::Player(PlayerUnitType::Chain), Team::Left, StartPosition::Three),
        SpawnData::Player(UnitType::Player(PlayerUnitType::QTip), Team::Left, StartPosition::Four),
        SpawnData::Player(UnitType::Runner { has_jugg: false }, Team::Right, StartPosition::Runner),
        SpawnData::Player(UnitType::Player(PlayerUnitType::DoubleShort), Team::Right, StartPosition::One),
        SpawnData::Player(UnitType::Player(PlayerUnitType::Staff), Team::Right, StartPosition::Two),
        SpawnData::Player(UnitType::Player(PlayerUnitType::Long), Team::Right, StartPosition::Three),
        SpawnData::Player(UnitType::Player(PlayerUnitType::Chain), Team::Right, StartPosition::Four),
    ];
    assert(r@ =~= roster());
    r
}

impl Board {
    /// Puts the starting units on the board; gives their handles in roster
    /// order.
    pub fn spawn_default_units(&mut self) -> (r: Vec<EntityId>)
        requires
            old(self).wf(),
            old(self).units.slots@.len() + 11 < usize::MAX,
        ensures
            final(self).wf(),
            r@.len() == roster().len(),
            forall|k: int| 0 <= k < r@.len() ==> #[trigger] final(self).units.lookup(r@[k]) == Some(spawned_unit(roster()[k])),
            keeps(old(self).units, final(self).units),
            final(self).control_points == old(self).control_points,
            final(self).arrows == old(self).arrows,
            final(self).registry == old(self).registry,
            final(self).zoom == old(self).zoom,
            final(self).mode == old(self).mode,
    {
        let units = default_roster();
        let mut ids: Vec<EntityId> = Vec::new();
        for i in 0..units.len()
            invariant
                self.wf(),
                units@ == roster(),
                ids@.len() == i,
                self.units.slots@.len() <= old(self).units.slots@.len() + i,
                old(self).units.slots@.len() + 11 < usize::MAX,
                forall|k: int| 0 <= k < i ==> #[trigger] self.units.lookup(ids@[k]) == Some(spawned_unit(roster()[k])),
                keeps(old(self).units, self.units),
                self.control_points == old(self).control_points,
                self.arrows == old(self).arrows,
                self.registry == old(self).registry,
                self.zoom == old(self).zoom,
                self.mode == old(self).mode,
        {
            let ghost before = self.units;
            let id = self.spawn_unit(units[i]);
            ids.push(id);
            proof {
                assert forall|k: int| 0 <= k < i + 1 implies #[trigger] self.units.lookup(ids@[k]) == Some(
                    spawned_unit(roster()[k]),
                ) by {
                    if k < i {
                        assert(before.lookup(ids@[k]) is Some);
                    }
                }
            }
        }
        ids
    }

    /// Puts the two sample arrows on the board.
    pub fn spawn_test_arrows(&mut self) -> (r: (EntityId, EntityId))
        requires
            old(self).wf(),
            old(self).control_points.slots@.len() + 8 < usize::MAX,
            old(self).arrows.slots@.len() + 2 < usize::MAX,
        ensures
            final(self).wf(),
            r.0 != r.1,
            final(self).arrows.lookup(r.0) matches Some(e) && e.resolved is None && spawned_from(
                e.arrow,
                sample_arrows()[0],
                final(self).control_points,
                final(self).units,
            ),
            final(self).arrows.lookup(r.1) matches Some(e) && e.resolved is None && spawned_from(
                e.arrow,
                sample_arrows()[1],
                final(self).control_points,
                final(self).units,
            ),
            keeps(old(self).control_points, final(self).control_points),
            keeps(old(self).arrows, final(self).arrows),
            final(self).units == old(self).units,
            final(self).registry == old(self).registry,
            final(self).zoom == old(self).zoom,
            final(self).mode == old(self).mode,
    {
        let a = self.spawn_arrow(
            ArrowSpawnData::Straight {
                from: AttachableControlPoint::from_meters(5, 5),
                to: AttachableControlPoint::from_meters(7, 7),
            },
        );
        let ghost mid = *self;
        let b = self.spawn_arrow(
            ArrowSpawnData::Bezier {
                from: AttachableControlPoint::from_meters(-5, -5),
                to: AttachableControlPoint::from_meters(-7, -7),
                control_from: FloatingControlPoint::from_meters(-7, -5),
                control_to: FloatingControlPoint::from_meters(-5, -7),
            },
        );
        proof {
            let e = mid.arrows.lookup(a)->0;
            assert(spawned_from(e.arrow, sample_arrows()[0], mid.control_points, mid.units));
            match e.arrow {
                Arrow::Straight { from, to } => {
                    assert(mid.control_points.lookup(from.0) is Some);
                    assert(mid.control_points.lookup(to.0) is Some);
                },
                _ => {},
            }
        }
        (a, b)
    }

    /// Applies the mode keys pressed this tick.
    pub fn apply_mode_keys(&mut self, view: bool, position: bool, movement: bool) -> (r: Option<ModeSwitch>)
        requires
            old(self).wf(),
        ensures
            final(self).wf(),
            final(self).mode == match requested(view, position, movement) {
                Some(m) => m,
                None => old(self).mode,
            },
            r is Some <==> final(self).mode != old(self).mode,
            r matches Some(sw) ==> sw.detached@ == attachment_table(old(self).units, old(self).mode)
                && sw.attached@ == attachment_table(old(self).units, final(self).mode),
            final(self).attachments@ == attachment_table(final(self).units, final(self).mode),
            final(self).units == old(self).units,
            final(self).control_points == old(self).control_points,
            final(self).arrows == old(self).arrows,
            final(self).registry == old(self).registry,
            final(self).zoom == old(self).zoom,
    {
        match requested_mode(view, position, movement) {
            Some(m) => self.set_input_mode(m),
            None => None,
        }
    }
}

} // verus!
