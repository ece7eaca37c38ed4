//! The commands of a compute pass, and what a device makes of them.

use crate::grid::Extent3d;
use crate::resources::{BindGroupId, GroupLayoutId, PressureSlot};
use crate::stages::{DispatchShape, Stage, PROPERTIES_SET, STAGE_SET};
use vstd::prelude::*;

verus! {

/// A command that the simulation records in a compute pass.
#[derive(Clone, Copy, Debug, PartialEq, Eq, Structural)]
pub enum PassCommand {
    /// Binds `group` at the set index `index`.
    SetBindGroup { index: u32, group: BindGroupId },
    /// Makes the kernel of `stage` the current pipeline.
    SetPipeline { stage: Stage },
    /// Runs the current pipeline on `x` by `y` by `z` work groups.
    Dispatch { x: u32, y: u32, z: u32 },
}

/// What is bound in a compute pass at some point of it, as far as the
/// simulation's own commands have bound it.
pub struct PassState {
    pub pipeline: Option<Stage>,
    pub properties: Option<BindGroupId>,
    pub resources: Option<BindGroupId>,
}

/// A dispatch as the device runs it: the kernel, the binding sets that the
/// kernel sees, and the number of work groups.
pub struct DispatchRecord {
    pub stage: Stage,
    pub properties: BindGroupId,
    pub resources: BindGroupId,
    pub groups: Extent3d,
}

impl PassState {
    /// The state of a pass in which nothing is bound.
    pub open spec fn start() -> PassState {
        PassState { pipeline: None, properties: None, resources: None }
    }

    /// The state after `command`.
    pub open spec fn after(self, command: PassCommand) -> PassState {
        match command {
            PassCommand::SetBindGroup { index, group } => {
                if index == PROPERTIES_SET {
                    PassState { properties: Some(group), ..self }
                } else if index == STAGE_SET {
                    PassState { resources: Some(group), ..self }
                } else {
                    self
                }
            },
            PassCommand::SetPipeline { stage } => PassState { pipeline: Some(stage), ..self },
            PassCommand::Dispatch { .. } => self,
        }
    }

    /// Whether a dispatch in this state runs a kernel whose pipeline finds at
    /// each set index a binding set of the layout that it expects.
    pub open spec fn ready(self) -> bool {
        &&& self.pipeline matches Some(stage)
        &&& self.properties matches Some(properties)
        &&& self.resources matches Some(resources)
        &&& properties.spec_layout() == GroupLayoutId::Uniform
        &&& resources.spec_layout() == stage.spec_resource_layout()
    }
}

/// The state of a pass after the first `count` of `commands`.
pub open spec fn state_after(commands: Seq<PassCommand>, count: nat) -> PassState
    decreases count,
{
    if count == 0 {
        PassState::start()
    } else {
        state_after(commands, (count - 1) as nat).after(commands[count - 1])
    }
}

/// Whether each dispatch among `commands` finds a pipeline and binding sets
/// that fit it.
pub open spec fn well_bound(commands: Seq<PassCommand>) -> bool {
    forall|k: int|
        0 <= k < commands.len() && #[trigger] commands[k] is Dispatch ==> state_after(
            commands,
            k as nat,
        ).ready()
}

/// The dispatches that the device runs for the first `count` of `commands`,
/// in their order. A dispatch with no pipeline or with a binding set missing
/// runs nothing.
pub open spec fn dispatches(commands: Seq<PassCommand>, count: nat) -> Seq<DispatchRecord>
    decreases count,
{
    if count == 0 {
        Seq::empty()
    } else {
        let before = dispatches(commands, (count - 1) as nat);
        let state = state_after(commands, (count - 1) as nat);
        match commands[count - 1] {
            PassCommand::Dispatch { x, y, z } => {
                if state.pipeline is Some && state.properties is Some && state.resources is Some {
                    before.push(
                        DispatchRecord {
                            stage: state.pipeline->0,
                            properties: state.properties->0,
                            resources: state.resources->0,
                            groups: Extent3d { width: x, height: y, depth: z },
                        },
                    )
                } else {
                    before
                }
            },
            _ => before,
        }
    }
}

/// Work groups of a stage of the given shape, on a grid that takes
/// `grid_groups` groups and particles that take `particle_groups` groups.
pub open spec fn groups_of(shape: DispatchShape, grid_groups: Extent3d, particle_groups: u32) -> Extent3d {
    match shape {
        DispatchShape::Grid => grid_groups,
        DispatchShape::Particles => Extent3d { width: particle_groups, height: 1, depth: 1 },
    }
}

/// The commands of one simulation step. The set at `PROPERTIES_SET` is bound
/// once. Stages that share a binding set follow each other, so that the set
/// is bound once for them. The two sets of the pressure sweep are bound
/// between the divergence and the particle update, with no dispatch as yet.
pub open spec fn step_commands(grid_groups: Extent3d, particle_groups: u32) -> Seq<PassCommand> {
    let grid = PassCommand::Dispatch {
        x: grid_groups.width,
        y: grid_groups.height,
        z: grid_groups.depth,
    };
    let particles = PassCommand::Dispatch { x: particle_groups, y: 1, z: 1 };
    seq![
        PassCommand::SetBindGroup { index: PROPERTIES_SET, group: BindGroupId::Uniform },
        PassCommand::SetBindGroup { index: STAGE_SET, group: BindGroupId::UpdateParticlesAndGrid },
        PassCommand::SetPipeline { stage: Stage::ClearGrids },
        grid,
        PassCommand::SetPipeline { stage: Stage::BuildLlgrid },
        particles,
        PassCommand::SetPipeline { stage: Stage::BuildVgrid },
        grid,
        PassCommand::SetPipeline { stage: Stage::ComputeDivergence },
        PassCommand::SetBindGroup { index: STAGE_SET, group: BindGroupId::ComputeDivergence },
        grid,
        PassCommand::SetBindGroup {
            index: STAGE_SET,
            group: BindGroupId::PressureWrite(PressureSlot::First),
        },
        PassCommand::SetBindGroup {
            index: STAGE_SET,
            group: BindGroupId::PressureWrite(PressureSlot::Second),
        },
        PassCommand::SetBindGroup { index: STAGE_SET, group: BindGroupId::UpdateParticles },
        PassCommand::SetPipeline { stage: Stage::ParticleUpdate },
        particles,
    ]
}

/// The dispatch of `stage` in a step.
pub open spec fn step_dispatch(stage: Stage, grid_groups: Extent3d, particle_groups: u32) -> DispatchRecord {
    DispatchRecord {
        stage,
        properties: BindGroupId::Uniform,
        resources: stage.spec_bind_group(),
        groups: groups_of(stage.spec_shape(), grid_groups, particle_groups),
    }
}

/// A step runs every stage once, in the order of `Stage::spec_all`, each with
/// the properties and with its own binding set, on the work groups of its
/// shape; and each dispatch finds binding sets of the layouts that its
/// pipeline expects.
pub proof fn lemma_step_runs_stages_in_order(grid_groups: Extent3d, particle_groups: u32)
    ensures
        well_bound(step_commands(grid_groups, particle_groups)),
        dispatches(
            step_commands(grid_groups, particle_groups),
            step_commands(grid_groups, particle_groups).len(),
        ) == Seq::new(
            Stage::spec_all().len(),
            |i: int| step_dispatch(Stage::spec_all()[i], grid_groups, particle_groups),
        ),
{
    let commands = step_commands(grid_groups, particle_groups);
    reveal_with_fuel(state_after, 17);
    reveal_with_fuel(dispatches, 17);
    assert(commands.len() == 16);
    assert(state_after(commands, 3).ready());
    assert(state_after(commands, 5).ready());
    assert(state_after(commands, 7).ready());
    assert(state_after(commands, 10).ready());
    assert(state_after(commands, 15).ready());
    assert forall|k: int|
        0 <= k < commands.len() && #[trigger] commands[k] is Dispatch implies state_after(
        commands,
        k as nat,
    ).ready() by {
        assert(k == 3 || k == 5 || k == 7 || k == 10 || k == 15);
    }
    let expected = Seq::new(
        Stage::spec_all().len(),
        |i: int| step_dispatch(Stage::spec_all()[i], grid_groups, particle_groups),
    );
    let run = dispatches(commands, 16);
    assert(run.len() == 5);
    assert(run =~= expected);
}

} // verus!
