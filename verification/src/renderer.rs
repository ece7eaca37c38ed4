//! What the renderers draw and dispatch for a simulation: how many instances
//! and how many work groups.

use crate::dispatch::{compute_group_size, group_extent};
use crate::grid::Extent3d;
use vstd::prelude::*;

verus! {

/// A draw of `vertices` vertices for each of `instances` instances, both
/// counted from zero.
#[derive(Clone, Copy, Debug, PartialEq, Eq, Structural)]
pub struct DrawCall {
    pub vertices: u32,
    pub instances: u32,
}

/// Vertices of the line that shows the velocity of a grid cell.
pub const VELOCITY_LINE_VERTICES: u32 = 2;

/// Vertices of the two triangles that show the divergence of a grid cell.
pub const DIVERGENCE_QUAD_VERTICES: u32 = 6;

/// Vertices of the triangle strip that shows a particle.
pub const PARTICLE_QUAD_VERTICES: u32 = 4;

/// Invocations in a work group of the one-dimensional screen filters, along x.
pub const LOCAL_SIZE_FILTER_1D: u32 = 64;

/// Invocations in a work group of the two-dimensional screen filter and of
/// the composition, along x and along y.
pub const LOCAL_SIZE_SCREEN_2D: u32 = 32;

/// The draw that shows the velocity field: a line for each grid cell. There
/// is none for a grid with more cells than a draw can have instances.
pub fn velocity_volume_draw(grid: Extent3d) -> (draw: Option<DrawCall>)
    ensures
        draw == (if grid.volume() <= u32::MAX {
            Some(DrawCall { vertices: VELOCITY_LINE_VERTICES, instances: grid.volume() as u32 })
        } else {
            None
        }),
{
    match grid.num_cells() {
        Some(cells) => Some(DrawCall { vertices: VELOCITY_LINE_VERTICES, instances: cells }),
        None => None,
    }
}

/// The draw that shows the divergence field: a quad for each grid cell. There
/// is none for a grid with more cells than a draw can have instances.
pub fn divergence_volume_draw(grid: Extent3d) -> (draw: Option<DrawCall>)
    ensures
        draw == (if grid.volume() <= u32::MAX {
            Some(DrawCall { vertices: DIVERGENCE_QUAD_VERTICES, instances: grid.volume() as u32 })
        } else {
            None
        }),
{
    match grid.num_cells() {
        Some(cells) => Some(DrawCall { vertices: DIVERGENCE_QUAD_VERTICES, instances: cells }),
        None => None,
    }
}

/// The draw that shows the particles: a quad for each live particle.
pub fn particle_draw(num_particles: u32) -> (draw: DrawCall)
    ensures
        draw == (DrawCall { vertices: PARTICLE_QUAD_VERTICES, instances: num_particles }),
{
    DrawCall { vertices: PARTICLE_QUAD_VERTICES, instances: num_particles }
}

/// Work group size of the one-dimensional screen filters.
pub open spec fn filter_1d_local_size() -> Extent3d {
    Extent3d { width: LOCAL_SIZE_FILTER_1D, height: 1, depth: 1 }
}

/// Work group size of the two-dimensional screen filter and of the composition.
pub open spec fn screen_2d_local_size() -> Extent3d {
    Extent3d { width: LOCAL_SIZE_SCREEN_2D, height: LOCAL_SIZE_SCREEN_2D, depth: 1 }
}

/// Work groups of a one-dimensional filter pass over targets of the given resolution.
pub fn filter_1d_groups(resolution: Extent3d) -> (groups: Extent3d)
    ensures
        groups == group_extent(resolution, filter_1d_local_size()),
{
    compute_group_size(
        resolution,
        Extent3d { width: LOCAL_SIZE_FILTER_1D, height: 1, depth: 1 },
    )
}

/// Work groups of the two-dimensional filter pass, and of the composition,
/// over targets of the given resolution.
pub fn screen_2d_groups(resolution: Extent3d) -> (groups: Extent3d)
    ensures
        groups == group_extent(resolution, screen_2d_local_size()),
{
    compute_group_size(
        resolution,
        Extent3d { width: LOCAL_SIZE_SCREEN_2D, height: LOCAL_SIZE_SCREEN_2D, depth: 1 },
    )
}

} // verus!
