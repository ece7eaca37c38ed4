//! Where the particles of a newly seeded box of fluid go.

use crate::grid::{lemma_volume_bounded, Extent3d, GridPoint};
use crate::particle::{Particle, PARTICLES_PER_GRID_CELL};
use vstd::arithmetic::div_mod::{lemma_div_pos_is_pos, lemma_mod_bound, lemma_multiply_divide_lt};
use vstd::arithmetic::mul::lemma_mul_is_associative;
use vstd::prelude::*;

verus! {

/// An axis-aligned box of grid cells, from the corner `min` up to, and not
/// including, the corner `max`.
#[derive(Clone, Copy, Debug, PartialEq, Eq, Structural)]
pub struct SeedBox {
    pub min: GridPoint,
    pub max: GridPoint,
}

/// The smaller of two numbers.
pub open spec fn least(a: int, b: int) -> int {
    if a <= b {
        a
    } else {
        b
    }
}

/// Particles that a box of `cells` cells asks for, where a simulation holds at
/// most `max_num_particles`.
pub open spec fn target_count(cells: int, max_num_particles: int) -> int {
    least(cells * PARTICLES_PER_GRID_CELL, max_num_particles)
}

impl SeedBox {
    /// No corner coordinate of `min` lies beyond that of `max`.
    pub open spec fn wf(self) -> bool {
        &&& self.min.x <= self.max.x
        &&& self.min.y <= self.max.y
        &&& self.min.z <= self.max.z
    }

    /// Whether the box lies within a grid of the given size.
    pub open spec fn inside(self, grid: Extent3d) -> bool {
        grid.bounds(self.min) && grid.bounds(self.max)
    }

    /// The box's size in cells along each axis.
    pub open spec fn spec_extent(self) -> Extent3d {
        Extent3d {
            width: (self.max.x - self.min.x) as u32,
            height: (self.max.y - self.min.y) as u32,
            depth: (self.max.z - self.min.z) as u32,
        }
    }

    /// Number of cells in the box.
    pub open spec fn cells(self) -> int {
        self.spec_extent().volume()
    }

    /// The box with both corners moved onto the grid where they lie beyond it.
    pub open spec fn spec_clamped(self, grid: Extent3d) -> SeedBox {
        SeedBox { min: grid.spec_clamp(self.min), max: grid.spec_clamp(self.max) }
    }

    /// Cell of the box's `index`-th particle. Consecutive particles fill a cell,
    /// cells run along x first, then y, then z.
    pub open spec fn spec_particle_cell(self, index: int) -> GridPoint {
        let cell = index / (PARTICLES_PER_GRID_CELL as int);
        let extent = self.spec_extent();
        GridPoint {
            x: (self.min.x + cell % (extent.width as int)) as u32,
            y: (self.min.y + (cell / (extent.width as int)) % (extent.height as int)) as u32,
            z: (self.min.z + (cell / (extent.width as int)) / (extent.height as int)) as u32,
        }
    }

    /// Whether `cell` is one of the box's cells.
    pub open spec fn has_cell(self, cell: GridPoint) -> bool {
        &&& self.min.x <= cell.x < self.max.x
        &&& self.min.y <= cell.y < self.max.y
        &&& self.min.z <= cell.z < self.max.z
    }
}

/// A box with a cell in it has a positive size along every axis.
pub proof fn lemma_cells_positive(b: SeedBox)
    requires
        b.wf(),
        b.cells() > 0,
    ensures
        b.spec_extent().width > 0,
        b.spec_extent().height > 0,
        b.spec_extent().depth > 0,
{
    let e = b.spec_extent();
    assert(e.width != 0 && e.height != 0 && e.depth != 0) by (nonlinear_arith)
        requires
            (e.width * e.height) * e.depth > 0,
    ;
}

/// Every particle that a box can hold lies in a cell of the box, and the
/// formula's terms stay within the box's sides.
pub proof fn lemma_particle_cell_in_box(b: SeedBox, index: int)
    requires
        b.wf(),
        0 <= index < b.cells() * PARTICLES_PER_GRID_CELL,
    ensures
        b.has_cell(b.spec_particle_cell(index)),
        b.spec_extent().width > 0,
        b.spec_extent().height > 0,
        b.spec_extent().depth > 0,
        ({
            let cell = index / (PARTICLES_PER_GRID_CELL as int);
            let e = b.spec_extent();
            &&& 0 <= cell < b.cells()
            &&& 0 <= cell % (e.width as int) < e.width
            &&& 0 <= (cell / (e.width as int)) % (e.height as int) < e.height
            &&& 0 <= (cell / (e.width as int)) / (e.height as int) < e.depth
        }),
{
    let e = b.spec_extent();
    let w = e.width as int;
    let h = e.height as int;
    let d = e.depth as int;
    let cell = index / 8;
    assert(b.cells() == (w * h) * d);
    lemma_cells_positive(b);
    lemma_div_pos_is_pos(index, 8);
    lemma_multiply_divide_lt(index, 8, b.cells());
    lemma_mod_bound(cell, w);
    lemma_div_pos_is_pos(cell, w);
    lemma_mul_is_associative(w, h, d);
    lemma_multiply_divide_lt(cell, w, h * d);
    lemma_mod_bound(cell / w, h);
    lemma_div_pos_is_pos(cell / w, h);
    lemma_multiply_divide_lt(cell / w, h, d);
}

impl SeedBox {
    /// The first `count` particles of the box, each at rest and on no list.
    pub open spec fn spec_particles(self, count: nat) -> Seq<Particle> {
        Seq::new(count, |i: int| Particle::spec_seeded(self.spec_particle_cell(i)))
    }

    /// The box between the two corners.
    pub fn new(min: GridPoint, max: GridPoint) -> (b: SeedBox)
        ensures
            b == (SeedBox { min, max }),
    {
        SeedBox { min, max }
    }

    /// Clamps both corners to a grid of the given size.
    pub fn clamped(&self, grid: &Extent3d) -> (b: SeedBox)
        ensures
            b == self.spec_clamped(*grid),
            b.inside(*grid),
            self.wf() ==> b.wf(),
            self.inside(*grid) ==> b == *self,
    {
        SeedBox { min: grid.clamp(self.min), max: grid.clamp(self.max) }
    }

    /// The box's size in cells along each axis.
    pub fn extent(&self) -> (extent: Extent3d)
        requires
            self.wf(),
        ensures
            extent == self.spec_extent(),
    {
        Extent3d {
            width: self.max.x - self.min.x,
            height: self.max.y - self.min.y,
            depth: self.max.z - self.min.z,
        }
    }

    /// Number of cells in the box.
    pub fn num_cells(&self) -> (cells: u128)
        requires
            self.wf(),
        ensures
            cells == self.cells(),
            cells <= 0xFFFF_FFFF * 0xFFFF_FFFF * 0xFFFF_FFFF,
    {
        proof {
            lemma_volume_bounded(self.spec_extent());
        }
        self.extent().cell_count()
    }

    /// Particles that the box asks for: eight for each cell, and no more than
    /// `max_num_particles`.
    pub fn target_particles(&self, max_num_particles: u32) -> (count: u32)
        requires
            self.wf(),
        ensures
            count == target_count(self.cells(), max_num_particles as int),
            count <= self.cells() * PARTICLES_PER_GRID_CELL,
    {
        let cells: u128 = self.num_cells();
        let wanted: u128 = cells * (PARTICLES_PER_GRID_CELL as u128);
        if wanted <= max_num_particles as u128 {
            wanted as u32
        } else {
            max_num_particles
        }
    }

    /// Cell of the box's `index`-th particle.
    pub fn particle_cell(&self, index: u32) -> (cell: GridPoint)
        requires
            self.wf(),
            index < self.cells() * PARTICLES_PER_GRID_CELL,
        ensures
            cell == self.spec_particle_cell(index as int),
            self.has_cell(cell),
    {
        proof {
            lemma_particle_cell_in_box(*self, index as int);
        }
        let extent = self.extent();
        let cell: u32 = index / PARTICLES_PER_GRID_CELL;
        GridPoint {
            x: self.min.x + cell % extent.width,
            y: self.min.y + cell / extent.width % extent.height,
            z: self.min.z + cell / extent.width / extent.height,
        }
    }

    /// The first `count` particles of the box, in the order of their indices.
    pub fn particles(&self, count: u32) -> (batch: Vec<Particle>)
        requires
            self.wf(),
            count <= self.cells() * PARTICLES_PER_GRID_CELL,
        ensures
            batch@ == self.spec_particles(count as nat),
    {
        let mut batch: Vec<Particle> = Vec::new();
        let mut index: u32 = 0;
        while index < count
            invariant
                self.wf(),
                index <= count <= self.cells() * PARTICLES_PER_GRID_CELL,
                batch@.len() == index,
                forall|i: int|
                    0 <= i < index ==> batch@[i] == Particle::spec_seeded(
                        self.spec_particle_cell(i),
                    ),
            decreases count - index,
        {
            batch.push(Particle::seeded(self.particle_cell(index)));
            index = index + 1;
        }
        assert(batch@ =~= self.spec_particles(count as nat));
        batch
    }
}

} // verus!
