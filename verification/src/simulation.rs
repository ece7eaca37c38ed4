//! The simulation's state on the host: the grid's size, the capacity of the
//! particle store and the number of live particles.

use crate::dispatch::{
    ceil_div, compute_group_size, compute_group_size_1d, group_extent, lemma_ceil_div_covers,
};
use crate::grid::{Extent3d, GridPoint};
use crate::particle::{Particle, LIST_END, PARTICLES_PER_GRID_CELL, PARTICLE_SIZE};
use crate::pass::{step_commands, PassCommand};
use crate::resources::{BindGroupId, PressureSlot};
use crate::seeding::{lemma_particle_cell_in_box, least, target_count, SeedBox};
use crate::stages::{
    Stage, COMPUTE_LOCAL_SIZE_FLUID, COMPUTE_LOCAL_SIZE_PARTICLES, PROPERTIES_SET, STAGE_SET,
};
use vstd::prelude::*;

verus! {

/// A hybrid particle/grid fluid simulation, as far as the host keeps track
/// of it. Particles are only ever appended; `reset` forgets all of them.
pub struct HybridFluid {
    grid_dimension: Extent3d,
    num_particles: u32,
    max_num_particles: u32,
}

/// What a `HybridFluid` stands for.
pub struct FluidView {
    pub grid_dimension: Extent3d,
    /// Particles `0 .. num_particles` of the particle store are live.
    pub num_particles: nat,
    /// Number of particles that the particle store has room for.
    pub max_num_particles: nat,
}

/// The record that tells the kernels how many particles are live.
#[derive(Clone, Copy, Debug, PartialEq, Eq, Structural)]
pub struct SimulationProperties {
    pub num_particles: u32,
}

/// A range of bytes of the particle buffer.
#[derive(Clone, Copy, Debug, PartialEq, Eq, Structural)]
pub struct BufferBinding {
    pub offset: u64,
    pub size: u64,
}

/// The outcome of seeding a box of fluid: the new particles and where they
/// go in the particle buffer.
pub struct SeedBatch {
    /// Seed of the generator that draws the particles' offsets within their
    /// cells, one offset for each particle in the order of `particles`.
    pub rng_seed: u64,
    /// Index of the first new particle in the particle store.
    pub first_particle: u32,
    pub particles: Vec<Particle>,
    /// Byte offset in the particle buffer at which the first new record goes.
    pub destination_offset: u64,
    /// Bytes that the new records take.
    pub size: u64,
    /// The simulation properties once the particles are added.
    pub properties: SimulationProperties,
}

/// What a `SeedBatch` stands for.
pub struct SeedBatchView {
    pub rng_seed: u64,
    pub first_particle: u32,
    pub particles: Seq<Particle>,
    pub destination_offset: u64,
    pub size: u64,
    pub properties: SimulationProperties,
}

impl View for SeedBatch {
    type V = SeedBatchView;

    open spec fn view(&self) -> SeedBatchView {
        SeedBatchView {
            rng_seed: self.rng_seed,
            first_particle: self.first_particle,
            particles: self.particles@,
            destination_offset: self.destination_offset,
            size: self.size,
            properties: self.properties,
        }
    }
}

impl SimulationProperties {
    pub open spec fn spec_words(self) -> Seq<u32> {
        seq![self.num_particles, 0u32, 0u32, 0u32]
    }

    /// The record as it is written to the uniform buffer, in 32-bit words:
    /// the particle count, then padding up to sixteen bytes.
    pub fn words(&self) -> (words: [u32; 4])
        ensures
            words@ == self.spec_words(),
    {
        let words: [u32; 4] = [self.num_particles, 0, 0, 0];
        assert(words@ =~= self.spec_words());
        words
    }
}

impl FluidView {
    /// The live particles fit the particle store, and the store's capacity is
    /// one that a simulation can be made with.
    pub open spec fn wf(self) -> bool {
        self.num_particles <= self.max_num_particles <= u32::MAX
    }

    /// A new simulation, with no particles.
    pub open spec fn fresh(grid_dimension: Extent3d, max_num_particles: u32) -> FluidView {
        FluidView {
            grid_dimension,
            num_particles: 0,
            max_num_particles: max_num_particles as nat,
        }
    }

    /// The simulation with all its particles forgotten.
    pub open spec fn cleared(self) -> FluidView {
        FluidView { num_particles: 0, ..self }
    }

    /// Particles that seeding `requested` asks for: eight for each cell of the
    /// box that lies on the grid, and no more than the particle store can hold
    /// when it is empty.
    pub open spec fn target(self, requested: SeedBox) -> int {
        target_count(
            requested.spec_clamped(self.grid_dimension).cells(),
            self.max_num_particles as int,
        )
    }

    /// Particles that seeding `requested` adds: those it asks for, as far as
    /// the particle store has room left.
    pub open spec fn granted(self, requested: SeedBox) -> int {
        least(self.target(requested), self.max_num_particles - self.num_particles)
    }

    /// The simulation after seeding `requested`.
    pub open spec fn seeded(self, requested: SeedBox) -> FluidView {
        FluidView { num_particles: (self.num_particles + self.granted(requested)) as nat, ..self }
    }

    /// The particles that seeding `requested` adds, and where they go.
    pub open spec fn seed_batch(self, requested: SeedBox) -> SeedBatchView {
        SeedBatchView {
            rng_seed: self.target(requested) as u64,
            first_particle: self.num_particles as u32,
            particles: requested.spec_clamped(self.grid_dimension).spec_particles(
                self.granted(requested) as nat,
            ),
            destination_offset: (self.num_particles * PARTICLE_SIZE) as u64,
            size: (self.granted(requested) * PARTICLE_SIZE) as u64,
            properties: SimulationProperties {
                num_particles: (self.num_particles + self.granted(requested)) as u32,
            },
        }
    }

    /// Work groups that cover the grid.
    pub open spec fn grid_groups(self) -> Extent3d {
        group_extent(
            self.grid_dimension,
            Extent3d {
                width: COMPUTE_LOCAL_SIZE_FLUID,
                height: COMPUTE_LOCAL_SIZE_FLUID,
                depth: COMPUTE_LOCAL_SIZE_FLUID,
            },
        )
    }

    /// Work groups that cover the live particles.
    pub open spec fn particle_groups(self) -> u32 {
        ceil_div(self.num_particles as int, COMPUTE_LOCAL_SIZE_PARTICLES as int) as u32
    }

    /// The commands of one step of the simulation.
    pub open spec fn step(self) -> Seq<PassCommand> {
        step_commands(self.grid_groups(), self.particle_groups())
    }
}

impl View for HybridFluid {
    type V = FluidView;

    closed spec fn view(&self) -> FluidView {
        FluidView {
            grid_dimension: self.grid_dimension,
            num_particles: self.num_particles as nat,
            max_num_particles: self.max_num_particles as nat,
        }
    }
}

impl HybridFluid {
    #[verifier::type_invariant]
    spec fn inv(self) -> bool {
        self.num_particles <= self.max_num_particles
    }

    /// A simulation on a grid of `grid_dimension` cells with room for
    /// `max_num_particles` particles and none in it.
    pub fn new(grid_dimension: Extent3d, max_num_particles: u32) -> (fluid: HybridFluid)
        ensures
            fluid@ == FluidView::fresh(grid_dimension, max_num_particles),
            fluid@.wf(),
    {
        HybridFluid { grid_dimension, num_particles: 0, max_num_particles }
    }

    /// Moves a corner onto the grid where it lies beyond it.
    pub fn clamp_to_grid(&self, grid_cor: GridPoint) -> (clamped: GridPoint)
        ensures
            clamped == self@.grid_dimension.spec_clamp(grid_cor),
            self@.grid_dimension.bounds(clamped),
    {
        self.grid_dimension.clamp(grid_cor)
    }

    /// The kernels to load anew when the shader sources have changed: that of
    /// every stage, in the order of the stages. The simulation itself stays
    /// as it is, whether a kernel loads or not.
    pub fn try_reload_shaders(&self) -> (stages: Vec<Stage>)
        ensures
            stages@ == Stage::spec_all(),
    {
        Stage::all()
    }

    /// Forgets all particles. The particle store keeps its contents until
    /// new particles take their place.
    pub fn reset(&mut self)
        ensures
            final(self)@ == old(self)@.cleared(),
            final(self)@.wf(),
    {
        self.num_particles = 0;
    }

    /// Adds the fluid of the box from `min_grid` to `max_grid`, as far as the
    /// box lies on the grid and the particle store has room. Once clamped to
    /// the grid, no coordinate of `min_grid` may lie beyond that of `max_grid`;
    /// that holds of every box whose corners are in that order to begin with.
    pub fn add_fluid_cube(&mut self, min_grid: GridPoint, max_grid: GridPoint) -> (batch: SeedBatch)
        requires
            (SeedBox { min: min_grid, max: max_grid }).spec_clamped(old(self)@.grid_dimension).wf(),
        ensures
            final(self)@ == old(self)@.seeded(SeedBox { min: min_grid, max: max_grid }),
            final(self)@.wf(),
            batch@ == old(self)@.seed_batch(SeedBox { min: min_grid, max: max_grid }),
    {
        proof {
            use_type_invariant(&*self);
        }
        let requested = SeedBox::new(min_grid, max_grid);
        let clamped = requested.clamped(&self.grid_dimension);
        let target: u32 = clamped.target_particles(self.max_num_particles);
        let room: u32 = self.max_num_particles - self.num_particles;
        let granted: u32 = if target <= room {
            target
        } else {
            room
        };
        let first_particle: u32 = self.num_particles;
        let particles = clamped.particles(granted);
        self.num_particles = first_particle + granted;
        SeedBatch {
            rng_seed: target as u64,
            first_particle,
            particles,
            destination_offset: first_particle as u64 * PARTICLE_SIZE,
            size: granted as u64 * PARTICLE_SIZE,
            properties: SimulationProperties { num_particles: first_particle + granted },
        }
    }

    /// The simulation properties as they stand.
    pub fn simulation_properties(&self) -> (properties: SimulationProperties)
        ensures
            properties.num_particles == self@.num_particles,
    {
        SimulationProperties { num_particles: self.num_particles }
    }

    /// Number of live particles.
    pub fn num_particles(&self) -> (count: u32)
        ensures
            count == self@.num_particles,
            self@.wf(),
    {
        proof {
            use_type_invariant(self);
        }
        self.num_particles
    }

    /// Number of particles that the particle store has room for.
    pub fn max_num_particles(&self) -> (count: u32)
        ensures
            count == self@.max_num_particles,
            self@.wf(),
    {
        proof {
            use_type_invariant(self);
        }
        self.max_num_particles
    }

    /// Size of the grid in cells.
    pub fn grid_dimension(&self) -> (extent: Extent3d)
        ensures
            extent == self@.grid_dimension,
    {
        self.grid_dimension
    }

    /// The whole particle buffer, as a shader is given it.
    pub fn particle_binding_resource(&self) -> (binding: BufferBinding)
        ensures
            binding.offset == 0,
            binding.size == self@.max_num_particles * PARTICLE_SIZE,
    {
        BufferBinding { offset: 0, size: self.particle_buffer_size() }
    }

    /// Size of the particle buffer in bytes.
    pub fn particle_buffer_size(&self) -> (size: u64)
        ensures
            size == self@.max_num_particles * PARTICLE_SIZE,
    {
        self.max_num_particles as u64 * PARTICLE_SIZE
    }

    /// The commands that advance the simulation by one step, for a compute
    /// pass in which the caller has bound its own set at `PER_FRAME_SET`.
    pub fn step(&self) -> (commands: Vec<PassCommand>)
        ensures
            commands@ == self@.step(),
    {
        let local = Extent3d {
            width: COMPUTE_LOCAL_SIZE_FLUID,
            height: COMPUTE_LOCAL_SIZE_FLUID,
            depth: COMPUTE_LOCAL_SIZE_FLUID,
        };
        let grid_groups = compute_group_size(self.grid_dimension, local);
        let particle_groups: u32 = compute_group_size_1d(
            self.num_particles,
            COMPUTE_LOCAL_SIZE_PARTICLES,
        );
        let grid = PassCommand::Dispatch {
            x: grid_groups.width,
            y: grid_groups.height,
            z: grid_groups.depth,
        };
        let particles = PassCommand::Dispatch { x: particle_groups, y: 1, z: 1 };
        let commands = vec![
            PassCommand::SetBindGroup { index: PROPERTIES_SET, group: BindGroupId::Uniform },
            PassCommand::SetBindGroup {
                index: STAGE_SET,
                group: BindGroupId::UpdateParticlesAndGrid,
            },
            PassCommand::SetPipeline { stage: Stage::ClearGrids },
            grid,
            PassCommand::SetPipeline { stage: Stage::BuildLlgrid },
            particles,
            PassCommand::SetPipeline { stage: Stage::BuildVgrid },
            grid,
            PassCommand::SetPipeline { stage: Stage::ComputeDivergence },
            PassCommand::SetBindGroup { index: STAGE_SET, group: BindGroupId::ComputeDivergence },
            grid,
            PassCommand::SetBindGroup {
                index: STAGE_SET,
                group: BindGroupId::PressureWrite(PressureSlot::First),
            },
            PassCommand::SetBindGroup {
                index: STAGE_SET,
                group: BindGroupId::PressureWrite(PressureSlot::Second),
            },
            PassCommand::SetBindGroup { index: STAGE_SET, group: BindGroupId::UpdateParticles },
            PassCommand::SetPipeline { stage: Stage::ParticleUpdate },
            particles,
        ];
        assert(commands@ =~= self@.step());
        commands
    }
}

/// A box has no negative number of cells, and clamping it to a grid leaves it
/// no more cells than the grid has.
pub proof fn lemma_clamped_cells_bounded(requested: SeedBox, grid: Extent3d)
    requires
        requested.wf(),
    ensures
        requested.spec_clamped(grid).wf(),
        requested.spec_clamped(grid).inside(grid),
        0 <= requested.spec_clamped(grid).cells() <= grid.volume(),
        0 <= requested.spec_clamped(grid).cells() <= requested.cells(),
        requested.inside(grid) ==> requested.spec_clamped(grid) == requested,
{
    let clamped = requested.spec_clamped(grid);
    let e = clamped.spec_extent();
    let r = requested.spec_extent();
    assert(0 <= (e.width * e.height) * e.depth <= (grid.width * grid.height) * grid.depth)
        by (nonlinear_arith)
        requires
            e.width <= grid.width,
            e.height <= grid.height,
            e.depth <= grid.depth,
    ;
    assert((e.width * e.height) * e.depth <= (r.width * r.height) * r.depth) by (nonlinear_arith)
        requires
            e.width <= r.width,
            e.height <= r.height,
            e.depth <= r.depth,
    ;
}

/// Seeding a box that lies on the grid adds eight particles for each cell of
/// the box, as far as the particle store has room left, and never more than
/// that room. For a box that reaches beyond the grid, the cells that count
/// are those of the box clamped to the grid, so that no more particles are
/// added than the grid's cells can take.
pub proof fn lemma_seed_count(state: FluidView, requested: SeedBox)
    requires
        state.wf(),
        requested.wf(),
    ensures
        state.granted(requested) == least(
            requested.spec_clamped(state.grid_dimension).cells() * PARTICLES_PER_GRID_CELL,
            state.max_num_particles - state.num_particles,
        ),
        requested.inside(state.grid_dimension) ==> state.granted(requested) == least(
            requested.cells() * PARTICLES_PER_GRID_CELL,
            state.max_num_particles - state.num_particles,
        ),
        0 <= state.granted(requested) <= state.max_num_particles - state.num_particles,
        state.granted(requested) <= state.grid_dimension.volume() * PARTICLES_PER_GRID_CELL,
        state.seeded(requested).num_particles - state.num_particles == state.granted(requested),
        state.seed_batch(requested).particles.len() == state.granted(requested),
        state.seed_batch(requested).first_particle == state.num_particles,
        state.seed_batch(requested).properties.num_particles == state.seeded(
            requested,
        ).num_particles,
        state.seeded(requested).wf(),
{
    lemma_clamped_cells_bounded(requested, state.grid_dimension);
}

/// The records of the particles that seeding adds go behind those of the
/// live particles and end within the particle buffer: no record of a live
/// particle is overwritten.
pub proof fn lemma_seed_appends_records(state: FluidView, requested: SeedBox)
    requires
        state.wf(),
        requested.wf(),
    ensures
        state.seed_batch(requested).destination_offset == state.num_particles * PARTICLE_SIZE,
        state.seed_batch(requested).size == state.seed_batch(requested).particles.len()
            * PARTICLE_SIZE,
        state.seed_batch(requested).destination_offset + state.seed_batch(requested).size
            == state.seeded(requested).num_particles * PARTICLE_SIZE,
        state.seed_batch(requested).destination_offset + state.seed_batch(requested).size
            <= state.max_num_particles * PARTICLE_SIZE,
{
    lemma_seed_count(state, requested);
}

/// Whatever box is asked for, every particle that seeding adds lies in a
/// cell of the grid, and in a cell of the box; it is at rest and on no list.
pub proof fn lemma_seed_stays_on_grid(state: FluidView, requested: SeedBox, index: int)
    requires
        state.wf(),
        requested.wf(),
        0 <= index < state.seed_batch(requested).particles.len(),
    ensures
        state.grid_dimension.has_cell(state.seed_batch(requested).particles[index].cell),
        requested.has_cell(state.seed_batch(requested).particles[index].cell),
        state.seed_batch(requested).particles[index] == Particle::spec_seeded(
            requested.spec_clamped(state.grid_dimension).spec_particle_cell(index),
        ),
        state.seed_batch(requested).particles[index].linked_list_next == LIST_END,
{
    lemma_seed_count(state, requested);
    lemma_particle_cell_in_box(requested.spec_clamped(state.grid_dimension), index);
}

/// After a reset, seeding gives what it gives in a new simulation with the
/// same grid and the same capacity: the same particles at the same place in
/// the particle store, with their offsets drawn from the same seed.
pub proof fn lemma_reset_then_seed_is_fresh(state: FluidView, requested: SeedBox)
    requires
        state.wf(),
    ensures
        state.cleared() == FluidView::fresh(
            state.grid_dimension,
            state.max_num_particles as u32,
        ),
        state.cleared().seed_batch(requested) == FluidView::fresh(
            state.grid_dimension,
            state.max_num_particles as u32,
        ).seed_batch(requested),
        state.cleared().seeded(requested) == FluidView::fresh(
            state.grid_dimension,
            state.max_num_particles as u32,
        ).seeded(requested),
        state.cleared().seed_batch(requested).first_particle == 0,
        state.cleared().granted(requested) == state.target(requested),
{
    let clamped = requested.spec_clamped(state.grid_dimension);
    let e = clamped.spec_extent();
    assert(0 <= (e.width * e.height) * e.depth) by (nonlinear_arith);
}

/// The seed from which the offsets of new particles are drawn is the number
/// of particles asked for, so two seedings draw from the same seed exactly
/// when they ask for the same number of particles.
pub proof fn lemma_same_target_same_seed(
    first: FluidView,
    first_box: SeedBox,
    second: FluidView,
    second_box: SeedBox,
)
    requires
        first.wf(),
        second.wf(),
    ensures
        first.seed_batch(first_box).rng_seed == first.target(first_box),
        first.target(first_box) == second.target(second_box) <==> first.seed_batch(
            first_box,
        ).rng_seed == second.seed_batch(second_box).rng_seed,
{
    let a = first_box.spec_clamped(first.grid_dimension).spec_extent();
    let b = second_box.spec_clamped(second.grid_dimension).spec_extent();
    assert(0 <= (a.width * a.height) * a.depth) by (nonlinear_arith);
    assert(0 <= (b.width * b.height) * b.depth) by (nonlinear_arith);
}

/// In two boxes of the same size, the particles of the same index lie in the
/// same cell as counted from the boxes' `min` corners.
pub proof fn lemma_same_extent_same_pattern(first: SeedBox, second: SeedBox, index: int)
    requires
        first.wf(),
        second.wf(),
        first.spec_extent() == second.spec_extent(),
        0 <= index < first.cells() * PARTICLES_PER_GRID_CELL,
    ensures
        first.spec_particle_cell(index).x - first.min.x == second.spec_particle_cell(index).x
            - second.min.x,
        first.spec_particle_cell(index).y - first.min.y == second.spec_particle_cell(index).y
            - second.min.y,
        first.spec_particle_cell(index).z - first.min.z == second.spec_particle_cell(index).z
            - second.min.z,
{
    lemma_particle_cell_in_box(first, index);
    lemma_particle_cell_in_box(second, index);
}

/// The work groups of a step cover every cell of the grid and every live
/// particle, and none of them lies wholly beyond them. The grid's work groups
/// do not depend on the particles: without live particles the particle
/// stages run on no work group and the grid stages on all of theirs.
pub proof fn lemma_step_covers(state: FluidView)
    requires
        state.wf(),
    ensures
        state.grid_groups().width * COMPUTE_LOCAL_SIZE_FLUID >= state.grid_dimension.width,
        state.grid_groups().height * COMPUTE_LOCAL_SIZE_FLUID >= state.grid_dimension.height,
        state.grid_groups().depth * COMPUTE_LOCAL_SIZE_FLUID >= state.grid_dimension.depth,
        state.grid_groups().width * COMPUTE_LOCAL_SIZE_FLUID < state.grid_dimension.width
            + COMPUTE_LOCAL_SIZE_FLUID,
        state.grid_groups().height * COMPUTE_LOCAL_SIZE_FLUID < state.grid_dimension.height
            + COMPUTE_LOCAL_SIZE_FLUID,
        state.grid_groups().depth * COMPUTE_LOCAL_SIZE_FLUID < state.grid_dimension.depth
            + COMPUTE_LOCAL_SIZE_FLUID,
        state.particle_groups() * COMPUTE_LOCAL_SIZE_PARTICLES >= state.num_particles,
        state.particle_groups() * COMPUTE_LOCAL_SIZE_PARTICLES < state.num_particles
            + COMPUTE_LOCAL_SIZE_PARTICLES,
        state.num_particles == 0 ==> state.particle_groups() == 0,
        state.cleared().grid_groups() == state.grid_groups(),
        state.cleared().step() == step_commands(state.grid_groups(), 0),
{
    lemma_ceil_div_covers(state.grid_dimension.width as int, COMPUTE_LOCAL_SIZE_FLUID as int);
    lemma_ceil_div_covers(state.grid_dimension.height as int, COMPUTE_LOCAL_SIZE_FLUID as int);
    lemma_ceil_div_covers(state.grid_dimension.depth as int, COMPUTE_LOCAL_SIZE_FLUID as int);
    lemma_ceil_div_covers(state.num_particles as int, COMPUTE_LOCAL_SIZE_PARTICLES as int);
    lemma_ceil_div_covers(0, COMPUTE_LOCAL_SIZE_PARTICLES as int);
}

} // verus!
