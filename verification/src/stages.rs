//! The compute stages of a simulation step.

use crate::resources::{BindGroupId, GridField, GroupLayoutId, Resource};
use vstd::prelude::*;

verus! {

/// A compute stage. Each stage runs one compute kernel.
#[derive(Clone, Copy, Debug, PartialEq, Eq, Structural)]
pub enum Stage {
    /// Zeroes the velocity field and the list heads.
    ClearGrids,
    /// Puts every particle on the list of its cell.
    BuildLlgrid,
    /// Gathers the particles' velocities in the velocity field.
    BuildVgrid,
    /// Takes the divergence of the velocity field.
    ComputeDivergence,
    /// Takes the grid's velocities back to the particles.
    ParticleUpdate,
}

/// What a stage runs over.
#[derive(Clone, Copy, Debug, PartialEq, Eq, Structural)]
pub enum DispatchShape {
    /// One invocation for each grid cell.
    Grid,
    /// One invocation for each live particle.
    Particles,
}

/// Index of the binding set that the caller provides for each frame.
pub const PER_FRAME_SET: u32 = 0;

/// Index of the binding set that holds the simulation properties.
pub const PROPERTIES_SET: u32 = 1;

/// Index of the binding set that holds the resources of a stage.
pub const STAGE_SET: u32 = 2;

/// Invocations in a work group of a grid stage, along each axis.
pub const COMPUTE_LOCAL_SIZE_FLUID: u32 = 8;

/// Invocations in a work group of a particle stage.
pub const COMPUTE_LOCAL_SIZE_PARTICLES: u32 = 512;

impl Stage {
    pub open spec fn spec_all() -> Seq<Stage> {
        seq![
            Stage::ClearGrids,
            Stage::BuildLlgrid,
            Stage::BuildVgrid,
            Stage::ComputeDivergence,
            Stage::ParticleUpdate,
        ]
    }

    /// Every stage, in the order in which a step runs them.
    pub fn all() -> (stages: Vec<Stage>)
        ensures
            stages@ == Stage::spec_all(),
    {
        let stages = vec![
            Stage::ClearGrids,
            Stage::BuildLlgrid,
            Stage::BuildVgrid,
            Stage::ComputeDivergence,
            Stage::ParticleUpdate,
        ];
        assert(stages@ =~= Stage::spec_all());
        stages
    }

    pub open spec fn spec_shader_file(self) -> Seq<char> {
        match self {
            Stage::ClearGrids => "clear_grids.comp"@,
            Stage::BuildLlgrid => "build_llgrid.comp"@,
            Stage::BuildVgrid => "build_vgrid.comp"@,
            Stage::ComputeDivergence => "compute_divergence.comp"@,
            Stage::ParticleUpdate => "particle_update.comp"@,
        }
    }

    /// Name of the file that holds the stage's kernel, within the shader directory.
    pub fn shader_file(&self) -> (name: &'static str)
        ensures
            name@ == self.spec_shader_file(),
    {
        match self {
            Stage::ClearGrids => "clear_grids.comp",
            Stage::BuildLlgrid => "build_llgrid.comp",
            Stage::BuildVgrid => "build_vgrid.comp",
            Stage::ComputeDivergence => "compute_divergence.comp",
            Stage::ParticleUpdate => "particle_update.comp",
        }
    }

    pub open spec fn spec_shape(self) -> DispatchShape {
        match self {
            Stage::ClearGrids => DispatchShape::Grid,
            Stage::BuildLlgrid => DispatchShape::Particles,
            Stage::BuildVgrid => DispatchShape::Grid,
            Stage::ComputeDivergence => DispatchShape::Grid,
            Stage::ParticleUpdate => DispatchShape::Particles,
        }
    }

    /// What the stage runs over.
    pub fn shape(&self) -> (shape: DispatchShape)
        ensures
            shape == self.spec_shape(),
    {
        match self {
            Stage::ClearGrids => DispatchShape::Grid,
            Stage::BuildLlgrid => DispatchShape::Particles,
            Stage::BuildVgrid => DispatchShape::Grid,
            Stage::ComputeDivergence => DispatchShape::Grid,
            Stage::ParticleUpdate => DispatchShape::Particles,
        }
    }

    pub open spec fn spec_bind_group(self) -> BindGroupId {
        match self {
            Stage::ClearGrids => BindGroupId::UpdateParticlesAndGrid,
            Stage::BuildLlgrid => BindGroupId::UpdateParticlesAndGrid,
            Stage::BuildVgrid => BindGroupId::UpdateParticlesAndGrid,
            Stage::ComputeDivergence => BindGroupId::ComputeDivergence,
            Stage::ParticleUpdate => BindGroupId::UpdateParticles,
        }
    }

    /// The binding set that holds the stage's resources.
    pub fn bind_group(&self) -> (group: BindGroupId)
        ensures
            group == self.spec_bind_group(),
    {
        match self {
            Stage::ClearGrids => BindGroupId::UpdateParticlesAndGrid,
            Stage::BuildLlgrid => BindGroupId::UpdateParticlesAndGrid,
            Stage::BuildVgrid => BindGroupId::UpdateParticlesAndGrid,
            Stage::ComputeDivergence => BindGroupId::ComputeDivergence,
            Stage::ParticleUpdate => BindGroupId::UpdateParticles,
        }
    }

    pub open spec fn spec_resource_layout(self) -> GroupLayoutId {
        match self {
            Stage::ClearGrids => GroupLayoutId::UpdateParticlesAndGrid,
            Stage::BuildLlgrid => GroupLayoutId::UpdateParticlesAndGrid,
            Stage::BuildVgrid => GroupLayoutId::UpdateParticlesAndGrid,
            Stage::ComputeDivergence => GroupLayoutId::PressureSolve,
            Stage::ParticleUpdate => GroupLayoutId::UpdateParticles,
        }
    }

    /// The layout that the stage's pipeline expects of the set at `STAGE_SET`.
    /// Every pipeline expects the caller's per-frame layout at `PER_FRAME_SET`
    /// and the uniform layout at `PROPERTIES_SET`.
    pub fn resource_layout(&self) -> (layout: GroupLayoutId)
        ensures
            layout == self.spec_resource_layout(),
    {
        match self {
            Stage::ClearGrids => GroupLayoutId::UpdateParticlesAndGrid,
            Stage::BuildLlgrid => GroupLayoutId::UpdateParticlesAndGrid,
            Stage::BuildVgrid => GroupLayoutId::UpdateParticlesAndGrid,
            Stage::ComputeDivergence => GroupLayoutId::PressureSolve,
            Stage::ParticleUpdate => GroupLayoutId::UpdateParticles,
        }
    }

    pub open spec fn spec_reads(self) -> Seq<Resource> {
        match self {
            Stage::ClearGrids => seq![],
            Stage::BuildLlgrid => seq![Resource::Particles],
            Stage::BuildVgrid => seq![
                Resource::Particles,
                Resource::Field(GridField::LinkedListHeads),
            ],
            Stage::ComputeDivergence => seq![Resource::Field(GridField::Velocity)],
            Stage::ParticleUpdate => seq![Resource::Field(GridField::Velocity)],
        }
    }

    /// The resources that the stage reads.
    pub fn reads(&self) -> (resources: Vec<Resource>)
        ensures
            resources@ == self.spec_reads(),
    {
        let resources = match self {
            Stage::ClearGrids => vec![],
            Stage::BuildLlgrid => vec![Resource::Particles],
            Stage::BuildVgrid => vec![
                Resource::Particles,
                Resource::Field(GridField::LinkedListHeads),
            ],
            Stage::ComputeDivergence => vec![Resource::Field(GridField::Velocity)],
            Stage::ParticleUpdate => vec![Resource::Field(GridField::Velocity)],
        };
        assert(resources@ =~= self.spec_reads());
        resources
    }

    pub open spec fn spec_writes(self) -> Seq<Resource> {
        match self {
            Stage::ClearGrids => seq![
                Resource::Field(GridField::Velocity),
                Resource::Field(GridField::LinkedListHeads),
            ],
            Stage::BuildLlgrid => seq![
                Resource::Field(GridField::LinkedListHeads),
                Resource::Particles,
            ],
            Stage::BuildVgrid => seq![Resource::Field(GridField::Velocity)],
            Stage::ComputeDivergence => seq![Resource::Field(GridField::Divergence)],
            Stage::ParticleUpdate => seq![Resource::Particles],
        }
    }

    /// The resources that the stage writes.
    pub fn writes(&self) -> (resources: Vec<Resource>)
        ensures
            resources@ == self.spec_writes(),
    {
        let resources = match self {
            Stage::ClearGrids => vec![
                Resource::Field(GridField::Velocity),
                Resource::Field(GridField::LinkedListHeads),
            ],
            Stage::BuildLlgrid => vec![
                Resource::Field(GridField::LinkedListHeads),
                Resource::Particles,
            ],
            Stage::BuildVgrid => vec![Resource::Field(GridField::Velocity)],
            Stage::ComputeDivergence => vec![Resource::Field(GridField::Divergence)],
            Stage::ParticleUpdate => vec![Resource::Particles],
        };
        assert(resources@ =~= self.spec_writes());
        resources
    }
}

/// The binding set of a stage has the layout that the stage's pipeline expects.
pub proof fn lemma_stage_set_matches_pipeline(stage: Stage)
    ensures
        stage.spec_bind_group().spec_layout() == stage.spec_resource_layout(),
{
}

/// The binding set of a stage lets the stage read what it reads and write
/// what it writes.
pub proof fn lemma_stage_set_grants_access(stage: Stage)
    ensures
        forall|i: int|
            0 <= i < stage.spec_reads().len() ==> stage.spec_bind_group().grants_read(
                #[trigger] stage.spec_reads()[i],
            ),
        forall|i: int|
            0 <= i < stage.spec_writes().len() ==> stage.spec_bind_group().grants_write(
                #[trigger] stage.spec_writes()[i],
            ),
{
    let group = stage.spec_bind_group();
    let resources = group.spec_resources();
    let bindings = group.spec_layout().spec_bindings();
    assert forall|i: int| 0 <= i < stage.spec_reads().len() implies group.grants_read(
        #[trigger] stage.spec_reads()[i],
    ) by {
        let wanted = stage.spec_reads()[i];
        let at = if wanted == resources[0] {
            0int
        } else if wanted == resources[1] {
            1int
        } else {
            2int
        };
        assert(0 <= at < resources.len() && resources[at] == wanted);
    }
    assert forall|i: int| 0 <= i < stage.spec_writes().len() implies group.grants_write(
        #[trigger] stage.spec_writes()[i],
    ) by {
        let wanted = stage.spec_writes()[i];
        let at = if wanted == resources[0] {
            0int
        } else if wanted == resources[1] {
            1int
        } else if wanted == resources[2] {
            2int
        } else {
            3int
        };
        assert(0 <= at < resources.len() && resources[at] == wanted && bindings[at].writable());
    }
}

} // verus!
