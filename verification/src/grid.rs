//! Integer geometry of the simulation domain.

use vstd::prelude::*;

verus! {

/// Size of a three-dimensional resource, counted in cells per axis.
#[derive(Clone, Copy, Debug, PartialEq, Eq, Structural)]
pub struct Extent3d {
    pub width: u32,
    pub height: u32,
    pub depth: u32,
}

/// A corner of a grid cell, in whole cells from the grid's origin. A cell is
/// named by the corner that is nearest to the origin.
#[derive(Clone, Copy, Debug, PartialEq, Eq, Structural)]
pub struct GridPoint {
    pub x: u32,
    pub y: u32,
    pub z: u32,
}

impl GridPoint {
    /// The point with the given coordinates.
    pub fn new(x: u32, y: u32, z: u32) -> (p: GridPoint)
        ensures
            p == (GridPoint { x, y, z }),
    {
        GridPoint { x, y, z }
    }
}

impl Extent3d {
    /// Number of cells of a resource of this size.
    pub open spec fn volume(self) -> int {
        self.width * self.height * self.depth
    }

    /// Whether `p` is the corner of a cell or lies on the far faces of the domain.
    pub open spec fn bounds(self, p: GridPoint) -> bool {
        p.x <= self.width && p.y <= self.height && p.z <= self.depth
    }

    /// Whether `p` names a cell of the domain.
    pub open spec fn has_cell(self, p: GridPoint) -> bool {
        p.x < self.width && p.y < self.height && p.z < self.depth
    }

    /// `p` with each coordinate that lies beyond the domain moved onto its far face.
    pub open spec fn spec_clamp(self, p: GridPoint) -> GridPoint {
        GridPoint {
            x: if p.x <= self.width { p.x } else { self.width },
            y: if p.y <= self.height { p.y } else { self.height },
            z: if p.z <= self.depth { p.z } else { self.depth },
        }
    }

    /// The extent with the given sizes.
    pub fn new(width: u32, height: u32, depth: u32) -> (extent: Extent3d)
        ensures
            extent == (Extent3d { width, height, depth }),
    {
        Extent3d { width, height, depth }
    }

    /// Moves each coordinate of `p` that lies beyond the domain onto the
    /// domain's far face, and leaves the others as they are.
    pub fn clamp(&self, p: GridPoint) -> (clamped: GridPoint)
        ensures
            clamped == self.spec_clamp(p),
            self.bounds(clamped),
            self.bounds(p) ==> clamped == p,
    {
        GridPoint {
            x: if p.x <= self.width { p.x } else { self.width },
            y: if p.y <= self.height { p.y } else { self.height },
            z: if p.z <= self.depth { p.z } else { self.depth },
        }
    }

    /// Number of cells of a resource of this size.
    pub fn cell_count(&self) -> (cells: u128)
        ensures
            cells == self.volume(),
    {
        let width: u128 = self.width as u128;
        let height: u128 = self.height as u128;
        let depth: u128 = self.depth as u128;
        assert(width * height <= 0xFFFF_FFFF * 0xFFFF_FFFF) by (nonlinear_arith)
            requires
                width <= 0xFFFF_FFFF,
                height <= 0xFFFF_FFFF,
        ;
        let layer: u128 = width * height;
        assert(layer * depth <= 0xFFFF_FFFF * 0xFFFF_FFFF * 0xFFFF_FFFF) by (nonlinear_arith)
            requires
                layer <= 0xFFFF_FFFF * 0xFFFF_FFFF,
                depth <= 0xFFFF_FFFF,
        ;
        layer * depth
    }

    /// Number of cells, where a 32-bit count can hold it.
    pub fn num_cells(&self) -> (cells: Option<u32>)
        ensures
            cells == (if self.volume() <= u32::MAX {
                Some(self.volume() as u32)
            } else {
                None
            }),
    {
        let cells: u128 = self.cell_count();
        if cells <= u32::MAX as u128 {
            Some(cells as u32)
        } else {
            None
        }
    }
}

/// A resource has no negative number of cells, and at most the cube of the
/// most that it can have along an axis.
pub proof fn lemma_volume_bounded(extent: Extent3d)
    ensures
        0 <= extent.volume() <= 0xFFFF_FFFF * 0xFFFF_FFFF * 0xFFFF_FFFF,
{
    let w = extent.width as int;
    let h = extent.height as int;
    let d = extent.depth as int;
    assert(0 <= w * h <= 0xFFFF_FFFF * 0xFFFF_FFFF) by (nonlinear_arith)
        requires
            0 <= w <= 0xFFFF_FFFF,
            0 <= h <= 0xFFFF_FFFF,
    ;
    assert(0 <= (w * h) * d <= 0xFFFF_FFFF * 0xFFFF_FFFF * 0xFFFF_FFFF) by (nonlinear_arith)
        requires
            0 <= w * h <= 0xFFFF_FFFF * 0xFFFF_FFFF,
            0 <= d <= 0xFFFF_FFFF,
    ;
}

} // verus!
