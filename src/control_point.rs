//! Control points and how one resolves to a position and a visibility.
use vstd::prelude::*;
use crate::arena::{Arena, EntityId};
use crate::geometry::{Point, from_meters, in_world};
use crate::unit::UnitEntity;

verus! {

/// Where an attachable control point is: at a point of its own, or on a unit.
#[derive(Clone, Copy, Debug, PartialEq, Eq, Structural)]
pub enum ControlPointLocation {
    Fixed(Point),
    Attached(EntityId),
}

/// An anchor for an arrow's end or curve handle.
#[derive(Clone, Copy, Debug, PartialEq, Eq, Structural)]
pub enum ControlPoint {
    /// An end of an arrow: draggable while fixed, hidden while attached.
    Attachable(ControlPointLocation),
    /// A curve handle: always draggable.
    Floating(Point),
}

/// A control point as it stands on the board: what it is, and where and
/// whether it was last drawn.
#[derive(Clone, Copy, Debug, PartialEq, Eq, Structural)]
pub struct ControlPointEntity {
    pub kind: ControlPoint,
    pub position: Point,
    pub visible: bool,
    /// The last resolution found its unit missing (and said so).
    pub dangling: bool,
}

/// A handle to a control point, which may have been removed since.
#[derive(Clone, Copy, Debug, PartialEq, Eq, Structural)]
pub struct ControlPointRef(pub EntityId);

/// Spawn data for an arrow's end.
#[derive(Clone, Copy, Debug, PartialEq, Eq, Structural)]
pub struct AttachableControlPoint {
    pub location: ControlPointLocation,
}

/// Spawn data for a curve handle.
#[derive(Clone, Copy, Debug, PartialEq, Eq, Structural)]
pub struct FloatingControlPoint {
    pub location: Point,
}

/// The points a control point's kind names lie in the world.
pub open spec fn kind_in_world(cp: ControlPoint) -> bool {
    match cp {
        ControlPoint::Attachable(ControlPointLocation::Fixed(p)) => in_world(p),
        ControlPoint::Attachable(ControlPointLocation::Attached(_)) => true,
        ControlPoint::Floating(p) => in_world(p),
    }
}

/// Where a control point is drawn and whether it is shown: an attached one
/// sits on its unit, hidden, or at the origin if the unit is gone; the
/// others are shown at their own point.
pub open spec fn resolution(cp: ControlPoint, units: Arena<UnitEntity>) -> (Point, bool) {
    match cp {
        ControlPoint::Attachable(ControlPointLocation::Attached(unit)) => match units.lookup(unit) {
            Some(e) => (e.position, false),
            None => (Point::new_spec(0, 0), false),
        },
        ControlPoint::Attachable(ControlPointLocation::Fixed(p)) => (p, true),
        ControlPoint::Floating(p) => (p, true),
    }
}

/// An attached control point whose unit no longer exists.
pub open spec fn dangling(cp: ControlPoint, units: Arena<UnitEntity>) -> bool {
    cp matches ControlPoint::Attachable(ControlPointLocation::Attached(unit)) && units.lookup(unit) is None
}

impl ControlPoint {
    /// Whether this is attached to a unit that no longer exists.
    pub fn is_dangling(&self, units: &Arena<UnitEntity>) -> (r: bool)
        ensures
            r == dangling(*self, *units),
    {
        match *self {
            ControlPoint::Attachable(ControlPointLocation::Attached(unit)) => units.get(unit).is_none(),
            _ => false,
        }
    }

    /// Resolves a control point against the units' current positions.
    pub fn resolve(&self, units: &Arena<UnitEntity>) -> (r: (Point, bool))
        ensures
            r == resolution(*self, *units),
    {
        match *self {
            ControlPoint::Attachable(ControlPointLocation::Attached(unit)) => match units.get(unit) {
                Some(e) => (e.position, false),
                None => (Point::zero(), false),
            },
            ControlPoint::Attachable(ControlPointLocation::Fixed(p)) => (p, true),
            ControlPoint::Floating(p) => (p, true),
        }
    }
}

/// Where the control point a handle names was last put, if it still exists.
pub open spec fn point_of(r: ControlPointRef, cps: Arena<ControlPointEntity>) -> Option<Point> {
    match cps.lookup(r.0) {
        Some(c) => Some(c.position),
        None => None,
    }
}

impl ControlPointRef {
    pub fn resolve(&self, cps: &Arena<ControlPointEntity>) -> (r: Option<Point>)
        ensures
            r == point_of(*self, *cps),
    {
        match cps.get(self.0) {
            Some(c) => Some(c.position),
            None => None,
        }
    }
}

impl AttachableControlPoint {
    pub fn from_meters(x: i32, y: i32) -> (r: AttachableControlPoint)
        ensures
            r.location == ControlPointLocation::Fixed(Point::new_spec(x * 100, y * 100)),
    {
        AttachableControlPoint { location: ControlPointLocation::Fixed(from_meters(x, y)) }
    }

    pub fn from_entity(entity: EntityId) -> (r: AttachableControlPoint)
        ensures
            r.location == ControlPointLocation::Attached(entity),
    {
        AttachableControlPoint { location: ControlPointLocation::Attached(entity) }
    }

    pub fn to_component(&self) -> (r: ControlPoint)
        ensures
            r == ControlPoint::Attachable(self.location),
    {
        ControlPoint::Attachable(self.location)
    }
}

impl FloatingControlPoint {
    pub fn from_meters(x: i32, y: i32) -> (r: FloatingControlPoint)
        ensures
            r.location == Point::new_spec(x * 100, y * 100),
    {
        FloatingControlPoint { location: from_meters(x, y) }
    }

    pub fn to_component(&self) -> (r: ControlPoint)
        ensures
            r == ControlPoint::Floating(self.location),
    {
        ControlPoint::Floating(self.location)
    }
}

} // verus!
