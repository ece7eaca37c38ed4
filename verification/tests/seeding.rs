use hybrid_fluid::grid::{Extent3d, GridPoint};
use hybrid_fluid::particle::{Particle, VectorBits, LIST_END, PARTICLES_PER_GRID_CELL, PARTICLE_SIZE};
use hybrid_fluid::seeding::SeedBox;
use hybrid_fluid::simulation::{HybridFluid, SimulationProperties};

fn point(x: u32, y: u32, z: u32) -> GridPoint {
    GridPoint::new(x, y, z)
}

#[test]
fn new_simulation_has_no_particles() {
    let fluid = HybridFluid::new(Extent3d::new(32, 16, 8), 1024);
    assert_eq!(fluid.num_particles(), 0);
    assert_eq!(fluid.max_num_particles(), 1024);
    assert_eq!(fluid.grid_dimension(), Extent3d::new(32, 16, 8));
}

#[test]
fn seeding_fills_then_stops_at_capacity() {
    let mut fluid = HybridFluid::new(Extent3d::new(32, 32, 32), 1024);
    let first = fluid.add_fluid_cube(point(0, 0, 0), point(2, 2, 2));
    assert_eq!(fluid.num_particles(), 64);
    assert_eq!(first.particles.len(), 64);
    assert_eq!(first.rng_seed, 64);
    assert_eq!(first.first_particle, 0);
    assert_eq!(first.destination_offset, 0);
    assert_eq!(first.size, 64 * 32);
    assert_eq!(first.properties, SimulationProperties { num_particles: 64 });

    let second = fluid.add_fluid_cube(point(0, 0, 0), point(32, 32, 32));
    assert_eq!(fluid.num_particles(), 1024);
    assert_eq!(second.particles.len(), 960);
    assert_eq!(second.rng_seed, 1024);
    assert_eq!(second.first_particle, 64);
    assert_eq!(second.destination_offset, 64 * 32);
    assert_eq!(second.size, 960 * 32);
    assert_eq!(second.properties, SimulationProperties { num_particles: 1024 });

    let third = fluid.add_fluid_cube(point(0, 0, 0), point(1, 1, 1));
    assert_eq!(fluid.num_particles(), 1024);
    assert_eq!(third.particles.len(), 0);
    assert_eq!(third.rng_seed, 8);
    assert_eq!(third.size, 0);
}

#[test]
fn count_is_eight_for_each_cell() {
    let mut fluid = HybridFluid::new(Extent3d::new(64, 64, 64), 1_000_000);
    let batch = fluid.add_fluid_cube(point(3, 4, 5), point(6, 9, 7));
    assert_eq!(batch.particles.len(), 3 * 5 * 2 * 8);
    assert_eq!(fluid.num_particles(), 240);
    assert_eq!(batch.rng_seed, 240);
}

#[test]
fn particles_fill_cells_along_x_then_y_then_z() {
    let seed_box = SeedBox::new(point(1, 2, 3), point(3, 5, 7));
    assert_eq!(seed_box.extent(), Extent3d::new(2, 3, 4));
    assert_eq!(seed_box.num_cells(), 24);
    for index in 0..8 {
        assert_eq!(seed_box.particle_cell(index), point(1, 2, 3));
    }
    assert_eq!(seed_box.particle_cell(8), point(2, 2, 3));
    assert_eq!(seed_box.particle_cell(15), point(2, 2, 3));
    assert_eq!(seed_box.particle_cell(16), point(1, 3, 3));
    assert_eq!(seed_box.particle_cell(5 * 8), point(2, 4, 3));
    assert_eq!(seed_box.particle_cell(6 * 8), point(1, 2, 4));
    assert_eq!(seed_box.particle_cell(23 * 8 + 7), point(2, 4, 6));
}

#[test]
fn every_cell_of_the_box_gets_eight_particles() {
    let mut fluid = HybridFluid::new(Extent3d::new(16, 16, 16), 100_000);
    let batch = fluid.add_fluid_cube(point(2, 3, 4), point(5, 5, 8));
    let mut counts = std::collections::HashMap::new();
    for particle in &batch.particles {
        *counts.entry((particle.cell.x, particle.cell.y, particle.cell.z)).or_insert(0u32) += 1;
    }
    assert_eq!(counts.len(), 3 * 2 * 4);
    for x in 2..5 {
        for y in 3..5 {
            for z in 4..8 {
                assert_eq!(counts[&(x, y, z)], PARTICLES_PER_GRID_CELL);
            }
        }
    }
}

#[test]
fn new_particles_rest_and_are_on_no_list() {
    let mut fluid = HybridFluid::new(Extent3d::new(8, 8, 8), 4096);
    let batch = fluid.add_fluid_cube(point(0, 0, 0), point(3, 3, 3));
    assert_eq!(batch.particles.len(), 216);
    for particle in &batch.particles {
        assert_eq!(particle.linked_list_next, 0xFFFF_FFFF);
        assert_eq!(particle.linked_list_next, LIST_END);
        assert_eq!(particle.velocity, VectorBits { x: 0, y: 0, z: 0 });
    }
    assert_eq!(
        batch.particles[0],
        Particle { cell: point(0, 0, 0), linked_list_next: LIST_END, velocity: VectorBits::zero() }
    );
    assert_eq!(Particle::seeded(point(7, 8, 9)).cell, point(7, 8, 9));
}

#[test]
fn box_beyond_the_grid_is_clamped() {
    let mut fluid = HybridFluid::new(Extent3d::new(4, 5, 6), 100_000);
    let batch = fluid.add_fluid_cube(point(2, 2, 2), point(10, 10, 10));
    assert_eq!(batch.particles.len(), 2 * 3 * 4 * 8);
    assert_eq!(batch.rng_seed, 192);
    for particle in &batch.particles {
        assert!(particle.cell.x >= 2 && particle.cell.x < 4);
        assert!(particle.cell.y >= 2 && particle.cell.y < 5);
        assert!(particle.cell.z >= 2 && particle.cell.z < 6);
    }
}

#[test]
fn box_off_the_grid_adds_nothing() {
    let mut fluid = HybridFluid::new(Extent3d::new(4, 4, 4), 1000);
    let batch = fluid.add_fluid_cube(point(5, 5, 5), point(9, 9, 9));
    assert_eq!(batch.particles.len(), 0);
    assert_eq!(batch.rng_seed, 0);
    assert_eq!(batch.size, 0);
    assert_eq!(fluid.num_particles(), 0);
    let batch = fluid.add_fluid_cube(point(0, 5, 0), point(4, 9, 4));
    assert_eq!(batch.particles.len(), 0);
    assert_eq!(fluid.num_particles(), 0);
}

#[test]
fn corners_that_change_places_beyond_the_grid_meet_on_its_face() {
    let mut fluid = HybridFluid::new(Extent3d::new(4, 4, 4), 1000);
    let batch = fluid.add_fluid_cube(point(9, 0, 0), point(6, 4, 4));
    assert_eq!(batch.particles.len(), 0);
    assert_eq!(batch.rng_seed, 0);
    assert_eq!(fluid.num_particles(), 0);
}

#[test]
fn box_without_cells_adds_nothing() {
    let mut fluid = HybridFluid::new(Extent3d::new(4, 4, 4), 1000);
    let batch = fluid.add_fluid_cube(point(1, 1, 1), point(1, 3, 3));
    assert_eq!(batch.particles.len(), 0);
    let batch = fluid.add_fluid_cube(point(2, 2, 2), point(2, 2, 2));
    assert_eq!(batch.particles.len(), 0);
    assert_eq!(fluid.num_particles(), 0);
}

#[test]
fn clamp_moves_only_what_lies_beyond() {
    let fluid = HybridFluid::new(Extent3d::new(4, 5, 6), 10);
    assert_eq!(fluid.clamp_to_grid(point(1, 2, 3)), point(1, 2, 3));
    assert_eq!(fluid.clamp_to_grid(point(4, 5, 6)), point(4, 5, 6));
    assert_eq!(fluid.clamp_to_grid(point(5, 2, 7)), point(4, 2, 6));
    assert_eq!(fluid.clamp_to_grid(point(u32::MAX, u32::MAX, u32::MAX)), point(4, 5, 6));
    assert_eq!(Extent3d::new(4, 5, 6).clamp(point(9, 0, 6)), point(4, 0, 6));
    let clamped = SeedBox::new(point(1, 9, 2), point(9, 9, 9)).clamped(&Extent3d::new(4, 5, 6));
    assert_eq!(clamped, SeedBox::new(point(1, 5, 2), point(4, 5, 6)));
}

#[test]
fn reset_then_seed_is_like_a_fresh_seed() {
    let grid = Extent3d::new(16, 16, 16);
    let mut used = HybridFluid::new(grid, 5000);
    used.add_fluid_cube(point(0, 0, 0), point(4, 4, 4));
    used.add_fluid_cube(point(3, 3, 3), point(5, 9, 7));
    assert_eq!(used.num_particles(), 512 + 384);
    used.reset();
    assert_eq!(used.num_particles(), 0);
    assert_eq!(used.max_num_particles(), 5000);
    assert_eq!(used.grid_dimension(), grid);
    let again = used.add_fluid_cube(point(1, 2, 3), point(7, 5, 20));

    let mut fresh = HybridFluid::new(grid, 5000);
    let first = fresh.add_fluid_cube(point(1, 2, 3), point(7, 5, 20));

    assert_eq!(again.rng_seed, first.rng_seed);
    assert_eq!(again.first_particle, first.first_particle);
    assert_eq!(again.particles, first.particles);
    assert_eq!(again.destination_offset, first.destination_offset);
    assert_eq!(again.size, first.size);
    assert_eq!(again.properties, first.properties);
    assert_eq!(used.num_particles(), fresh.num_particles());
}

#[test]
fn same_count_gives_same_seed_and_pattern() {
    let mut fluid = HybridFluid::new(Extent3d::new(32, 32, 32), 100_000);
    let first = fluid.add_fluid_cube(point(0, 0, 0), point(2, 3, 4));
    let second = fluid.add_fluid_cube(point(10, 20, 5), point(12, 23, 9));
    assert_eq!(first.rng_seed, 192);
    assert_eq!(second.rng_seed, 192);
    assert_eq!(first.particles.len(), second.particles.len());
    for (a, b) in first.particles.iter().zip(second.particles.iter()) {
        assert_eq!(a.cell.x, b.cell.x - 10);
        assert_eq!(a.cell.y, b.cell.y - 20);
        assert_eq!(a.cell.z, b.cell.z - 5);
    }
    let other = fluid.add_fluid_cube(point(0, 0, 0), point(2, 3, 5));
    assert_eq!(other.rng_seed, 240);
    assert_ne!(other.rng_seed, first.rng_seed);
}

#[test]
fn seed_is_the_count_asked_for_not_the_count_added() {
    let mut fluid = HybridFluid::new(Extent3d::new(8, 8, 8), 100);
    let first = fluid.add_fluid_cube(point(0, 0, 0), point(2, 2, 2));
    assert_eq!((first.rng_seed, first.particles.len()), (64, 64));
    let second = fluid.add_fluid_cube(point(0, 0, 0), point(2, 2, 2));
    assert_eq!((second.rng_seed, second.particles.len()), (64, 36));
    assert_eq!(second.particles[..], first.particles[..36]);
    let third = fluid.add_fluid_cube(point(0, 0, 0), point(8, 8, 8));
    assert_eq!((third.rng_seed, third.particles.len()), (100, 0));
    assert_eq!(fluid.num_particles(), 100);
}

#[test]
fn target_count_of_a_huge_box_does_not_wrap() {
    let all = SeedBox::new(point(0, 0, 0), point(u32::MAX, u32::MAX, u32::MAX));
    assert_eq!(all.num_cells(), (u32::MAX as u128).pow(3));
    assert_eq!(all.target_particles(10), 10);
    assert_eq!(all.target_particles(u32::MAX), u32::MAX);
    let slab = SeedBox::new(point(0, 0, 0), point(1 << 16, 1 << 13, 1));
    assert_eq!(slab.num_cells(), 1 << 29);
    assert_eq!(slab.target_particles(u32::MAX), u32::MAX);
    let thin = SeedBox::new(point(0, 0, 0), point(1 << 16, 1 << 12, 1));
    assert_eq!(thin.target_particles(u32::MAX), 1 << 31);
    let mut fluid = HybridFluid::new(Extent3d::new(u32::MAX, u32::MAX, u32::MAX), 1000);
    let batch = fluid.add_fluid_cube(point(0, 0, 0), point(u32::MAX, u32::MAX, u32::MAX));
    assert_eq!(batch.particles.len(), 1000);
    assert_eq!(batch.particles[999].cell, point(124, 0, 0));
}

#[test]
fn zero_capacity_takes_no_particles() {
    let mut fluid = HybridFluid::new(Extent3d::new(8, 8, 8), 0);
    let batch = fluid.add_fluid_cube(point(0, 0, 0), point(8, 8, 8));
    assert_eq!(batch.particles.len(), 0);
    assert_eq!(batch.rng_seed, 0);
    assert_eq!(fluid.num_particles(), 0);
    assert_eq!(fluid.particle_buffer_size(), 0);
}

#[test]
fn particle_buffer_holds_the_capacity() {
    let fluid = HybridFluid::new(Extent3d::new(8, 8, 8), 1024);
    assert_eq!(PARTICLE_SIZE, 32);
    assert_eq!(fluid.particle_buffer_size(), 32 * 1024);
    let binding = fluid.particle_binding_resource();
    assert_eq!(binding.offset, 0);
    assert_eq!(binding.size, 32 * 1024);
    let big = HybridFluid::new(Extent3d::new(8, 8, 8), u32::MAX);
    assert_eq!(big.particle_buffer_size(), 32 * (u32::MAX as u64));
}

#[test]
fn simulation_properties_follow_the_count() {
    let mut fluid = HybridFluid::new(Extent3d::new(8, 8, 8), 1024);
    assert_eq!(fluid.simulation_properties().num_particles, 0);
    fluid.add_fluid_cube(point(0, 0, 0), point(1, 2, 3));
    let properties = fluid.simulation_properties();
    assert_eq!(properties.num_particles, 48);
    assert_eq!(properties.words(), [48, 0, 0, 0]);
}
