//! Plain geometric and placement value types.

use crate::djb2::{djb2, le_bytes_of_u32, djb2_hash, push_le_bytes_of_u32};
use vstd::prelude::*;

verus! {

/// The kind of a graphical element handed to a renderer.
#[derive(Copy, Clone, Debug, PartialEq, Eq, Structural, Hash)]
pub enum GraphicType {
    Nothing,
    Line,
    Arrow,
    Box,
    Circle,
    Label,
    /// Located entirely within the cell boundaries.
    LocalArrow,
    /// Located entirely within the cell boundaries.
    LocalLine,
}

/// The rendering style of a graphical element.
#[derive(Copy, Clone, Debug, PartialEq, Eq, Structural, Hash)]
pub enum GraphicStyle {
    Grid,
    /// Static frame.
    Frame,
    /// Only displayed when the object is selected or highlighted.
    Hidden,
    /// Rendered using a low-contrast color.
    Inactive,
    /// Rendered using a high-contrast color.
    Active,
    Highlighted0,
    Highlighted1,
    Highlighted2,
    Highlighted3,
    Highlighted4,
    Highlighted5,
    Highlighted6,
    Highlighted7,
    Selected,
    Hover,
    Max,
}

/// A grid location: tile coordinates plus a sub-tile index.
#[derive(Copy, Clone, Debug, PartialEq, Eq, Structural, Hash)]
pub struct Loc {
    pub x: i32,
    pub y: i32,
    pub z: i32,
}

/// The byte string whose hash identifies a location.
pub open spec fn loc_bytes(l: Loc) -> Seq<u8> {
    le_bytes_of_u32(l.x as u32) + le_bytes_of_u32(l.y as u32) + le_bytes_of_u32(l.z as u32)
}

impl Loc {
    /// The unset location.
    pub fn unset() -> (r: Self)
        ensures
            r == (Loc { x: -1i32, y: -1i32, z: -1i32 }),
    {
        Self { x: -1, y: -1, z: -1 }
    }

    /// The location with the given coordinates.
    pub fn new(x: i32, y: i32, z: i32) -> (r: Self)
        ensures
            r == (Loc { x, y, z }),
    {
        Self { x, y, z }
    }

    /// The origin location.
    pub fn origin() -> (r: Self)
        ensures
            r == (Loc { x: 0i32, y: 0i32, z: 0i32 }),
    {
        Self { x: 0, y: 0, z: 0 }
    }

    /// The DJB2 hash of this location's coordinate bytes.
    pub fn get_hash(&self) -> (r: u64)
        ensures
            r == djb2(loc_bytes(*self)),
    {
        let mut bytes: Vec<u8> = Vec::new();
        push_le_bytes_of_u32(&mut bytes, self.x as u32);
        push_le_bytes_of_u32(&mut bytes, self.y as u32);
        push_le_bytes_of_u32(&mut bytes, self.z as u32);
        assert(bytes@ =~= loc_bytes(*self));
        djb2_hash(&bytes)
    }
}

impl Default for Loc {
    /// The default location is the unset location.
    fn default() -> (r: Self)
        ensures
            r == (Loc { x: -1i32, y: -1i32, z: -1i32 }),
    {
        Loc::unset()
    }
}

/// An axis-aligned bounding box of routing arcs, inclusive on all sides.
#[derive(Copy, Clone, Debug, PartialEq, Eq, Structural, Hash)]
pub struct ArcBounds {
    pub x0: i32,
    pub y0: i32,
    pub x1: i32,
    pub y1: i32,
}

impl ArcBounds {
    /// The point-wise distance of `loc` from the box `b`: how far the
    /// point lies outside the box along each axis, summed.
    pub open spec fn spec_distance(self, loc: Loc) -> int {
        (if loc.x < self.x0 {
            self.x0 - loc.x
        } else {
            0
        }) + (if loc.x > self.x1 {
            loc.x - self.x1
        } else {
            0
        }) + (if loc.y < self.y0 {
            self.y0 - loc.y
        } else {
            0
        }) + (if loc.y > self.y1 {
            loc.y - self.y1
        } else {
            0
        })
    }

    /// The unset bounding box.
    pub fn unset() -> (r: Self)
        ensures
            r == (ArcBounds { x0: -1i32, y0: -1i32, x1: -1i32, y1: -1i32 }),
    {
        Self { x0: -1, y0: -1, x1: -1, y1: -1 }
    }

    /// The bounding box with the given corners.
    pub fn new(x0: i32, y0: i32, x1: i32, y1: i32) -> (r: Self)
        ensures
            r == (ArcBounds { x0, y0, x1, y1 }),
    {
        Self { x0, y0, x1, y1 }
    }

    /// Calculates the point-wise distance from this box to a location.
    pub fn distance(&self, loc: Loc) -> (r: i32)
        requires
            self.x0 - loc.x <= i32::MAX,
            loc.x - self.x1 <= i32::MAX,
            self.y0 - loc.y <= i32::MAX,
            loc.y - self.y1 <= i32::MAX,
            self.spec_distance(loc) <= i32::MAX,
        ensures
            r == self.spec_distance(loc),
    {
        let mut dist: i32 = 0;
        if loc.x < self.x0 {
            dist += self.x0 - loc.x;
        }
        if loc.x > self.x1 {
            dist += loc.x - self.x1;
        }
        if loc.y < self.y0 {
            dist += self.y0 - loc.y;
        }
        if loc.y > self.y1 {
            dist += loc.y - self.y1;
        }
        dist
    }

    /// Checks whether a 2-d point lies within this box.
    pub fn contains(&self, x: i32, y: i32) -> (r: bool)
        ensures
            r == (self.x0 <= x <= self.x1 && self.y0 <= y <= self.y1),
    {
        x >= self.x0 && y >= self.y0 && x <= self.x1 && y <= self.y1
    }
}

impl Default for ArcBounds {
    /// The default bounding box is the unset box.
    fn default() -> (r: Self)
        ensures
            r == (ArcBounds { x0: -1i32, y0: -1i32, x1: -1i32, y1: -1i32 }),
    {
        ArcBounds::unset()
    }
}

/// How firmly a placement decision binds a cell to its bel.
#[derive(Copy, Clone, Debug, PartialEq, Eq, Structural, Hash)]
pub enum PlaceStrength {
    Unbound,
    Weak,
    Strong,
    Placer,
    Fixed,
    Locked,
    User,
}

impl PlaceStrength {
    /// The strength of a cell that no placement decision binds.
    pub fn new() -> (r: Self)
        ensures
            r == PlaceStrength::Unbound,
    {
        PlaceStrength::Unbound
    }
}

impl Default for PlaceStrength {
    /// The default strength is unbound.
    fn default() -> (r: Self)
        ensures
            r == PlaceStrength::Unbound,
    {
        PlaceStrength::Unbound
    }
}

} // verus!
