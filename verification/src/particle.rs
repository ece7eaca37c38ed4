//! Particle records as the host sees them.

use crate::grid::GridPoint;
use vstd::prelude::*;

verus! {

/// New particles are laid out two by two by two within a grid cell.
pub const PARTICLES_PER_GRID_CELL: u32 = 8;

/// Value of `linked_list_next` that ends a cell's list of particles.
pub const LIST_END: u32 = 0xFFFF_FFFF;

/// Bytes that one particle record takes in the particle buffer.
pub const PARTICLE_SIZE: u64 = 32;

/// A vector of three single-precision numbers, each held as its IEEE 754 bit pattern.
#[derive(Clone, Copy, Debug, PartialEq, Eq, Structural)]
pub struct VectorBits {
    pub x: u32,
    pub y: u32,
    pub z: u32,
}

/// What the host decides about a particle when it seeds it. The particle's
/// position is its cell plus an offset within the cell, which is drawn when
/// the record is written to the device.
#[derive(Clone, Copy, Debug, PartialEq, Eq, Structural)]
pub struct Particle {
    pub cell: GridPoint,
    pub linked_list_next: u32,
    pub velocity: VectorBits,
}

impl VectorBits {
    /// The vector whose components are all positive zero.
    pub open spec fn spec_zero() -> VectorBits {
        VectorBits { x: 0, y: 0, z: 0 }
    }

    /// The vector whose components are all positive zero.
    pub fn zero() -> (v: VectorBits)
        ensures
            v == VectorBits::spec_zero(),
    {
        VectorBits { x: 0, y: 0, z: 0 }
    }
}

impl Particle {
    /// A particle at rest in `cell` that is on no list.
    pub open spec fn spec_seeded(cell: GridPoint) -> Particle {
        Particle { cell, linked_list_next: LIST_END, velocity: VectorBits::spec_zero() }
    }

    /// A particle at rest in `cell` that is on no list.
    pub fn seeded(cell: GridPoint) -> (particle: Particle)
        ensures
            particle == Particle::spec_seeded(cell),
    {
        Particle { cell, linked_list_next: LIST_END, velocity: VectorBits::zero() }
    }
}

} // verus!
