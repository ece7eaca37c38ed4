use hybrid_fluid::grid::{Extent3d, GridPoint};
use hybrid_fluid::pass::PassCommand;
use hybrid_fluid::resources::{BindGroupId, PressureSlot};
use hybrid_fluid::simulation::HybridFluid;
use hybrid_fluid::stages::{
    DispatchShape, Stage, COMPUTE_LOCAL_SIZE_FLUID, COMPUTE_LOCAL_SIZE_PARTICLES, PER_FRAME_SET,
    PROPERTIES_SET, STAGE_SET,
};

fn expected_step(grid: (u32, u32, u32), particles: u32) -> Vec<PassCommand> {
    let grid = PassCommand::Dispatch { x: grid.0, y: grid.1, z: grid.2 };
    let particles = PassCommand::Dispatch { x: particles, y: 1, z: 1 };
    vec![
        PassCommand::SetBindGroup { index: 1, group: BindGroupId::Uniform },
        PassCommand::SetBindGroup { index: 2, group: BindGroupId::UpdateParticlesAndGrid },
        PassCommand::SetPipeline { stage: Stage::ClearGrids },
        grid,
        PassCommand::SetPipeline { stage: Stage::BuildLlgrid },
        particles,
        PassCommand::SetPipeline { stage: Stage::BuildVgrid },
        grid,
        PassCommand::SetPipeline { stage: Stage::ComputeDivergence },
        PassCommand::SetBindGroup { index: 2, group: BindGroupId::ComputeDivergence },
        grid,
        PassCommand::SetBindGroup { index: 2, group: BindGroupId::PressureWrite(PressureSlot::First) },
        PassCommand::SetBindGroup { index: 2, group: BindGroupId::PressureWrite(PressureSlot::Second) },
        PassCommand::SetBindGroup { index: 2, group: BindGroupId::UpdateParticles },
        PassCommand::SetPipeline { stage: Stage::ParticleUpdate },
        particles,
    ]
}

#[test]
fn step_of_a_seeded_simulation() {
    let mut fluid = HybridFluid::new(Extent3d::new(256, 64, 256), 1000);
    fluid.add_fluid_cube(GridPoint::new(0, 0, 0), GridPoint::new(10, 10, 10));
    assert_eq!(fluid.num_particles(), 1000);
    assert_eq!(fluid.step(), expected_step((32, 8, 32), 2));
}

#[test]
fn step_without_particles_runs_the_grid_stages() {
    let fluid = HybridFluid::new(Extent3d::new(256, 64, 256), 1000);
    let commands = fluid.step();
    assert_eq!(commands, expected_step((32, 8, 32), 0));
    assert_eq!(commands[5], PassCommand::Dispatch { x: 0, y: 1, z: 1 });
    assert_eq!(commands[15], PassCommand::Dispatch { x: 0, y: 1, z: 1 });
    assert_eq!(fluid.step(), commands);
}

#[test]
fn step_after_reset_is_the_step_without_particles() {
    let mut fluid = HybridFluid::new(Extent3d::new(16, 16, 16), 5000);
    let before = fluid.step();
    fluid.add_fluid_cube(GridPoint::new(0, 0, 0), GridPoint::new(4, 4, 4));
    assert_eq!(fluid.step(), expected_step((2, 2, 2), 1));
    fluid.reset();
    assert_eq!(fluid.step(), before);
}

#[test]
fn grid_groups_cover_a_grid_that_does_not_divide() {
    let mut fluid = HybridFluid::new(Extent3d::new(10, 17, 1), 5000);
    fluid.add_fluid_cube(GridPoint::new(0, 0, 0), GridPoint::new(10, 17, 1));
    assert_eq!(fluid.num_particles(), 1360);
    assert_eq!(fluid.step(), expected_step((2, 3, 1), 3));
}

#[test]
fn step_of_an_empty_grid() {
    let fluid = HybridFluid::new(Extent3d::new(0, 0, 0), 0);
    assert_eq!(fluid.step(), expected_step((0, 0, 0), 0));
}

#[test]
fn sets_and_local_sizes() {
    assert_eq!(PER_FRAME_SET, 0);
    assert_eq!(PROPERTIES_SET, 1);
    assert_eq!(STAGE_SET, 2);
    assert_eq!(COMPUTE_LOCAL_SIZE_FLUID, 8);
    assert_eq!(COMPUTE_LOCAL_SIZE_PARTICLES, 512);
}

#[test]
fn stages_in_order() {
    let stages = Stage::all();
    assert_eq!(
        stages,
        vec![
            Stage::ClearGrids,
            Stage::BuildLlgrid,
            Stage::BuildVgrid,
            Stage::ComputeDivergence,
            Stage::ParticleUpdate
        ]
    );
    let fluid = HybridFluid::new(Extent3d::new(8, 8, 8), 10);
    assert_eq!(fluid.try_reload_shaders(), stages);
}

#[test]
fn stage_table() {
    assert_eq!(Stage::ClearGrids.shader_file(), "clear_grids.comp");
    assert_eq!(Stage::BuildLlgrid.shader_file(), "build_llgrid.comp");
    assert_eq!(Stage::BuildVgrid.shader_file(), "build_vgrid.comp");
    assert_eq!(Stage::ComputeDivergence.shader_file(), "compute_divergence.comp");
    assert_eq!(Stage::ParticleUpdate.shader_file(), "particle_update.comp");

    assert_eq!(Stage::ClearGrids.shape(), DispatchShape::Grid);
    assert_eq!(Stage::BuildLlgrid.shape(), DispatchShape::Particles);
    assert_eq!(Stage::BuildVgrid.shape(), DispatchShape::Grid);
    assert_eq!(Stage::ComputeDivergence.shape(), DispatchShape::Grid);
    assert_eq!(Stage::ParticleUpdate.shape(), DispatchShape::Particles);

    assert_eq!(Stage::ClearGrids.bind_group(), BindGroupId::UpdateParticlesAndGrid);
    assert_eq!(Stage::BuildLlgrid.bind_group(), BindGroupId::UpdateParticlesAndGrid);
    assert_eq!(Stage::BuildVgrid.bind_group(), BindGroupId::UpdateParticlesAndGrid);
    assert_eq!(Stage::ComputeDivergence.bind_group(), BindGroupId::ComputeDivergence);
    assert_eq!(Stage::ParticleUpdate.bind_group(), BindGroupId::UpdateParticles);
}

#[test]
fn each_dispatch_of_a_step_finds_its_stage_set_bound() {
    let fluid = HybridFluid::new(Extent3d::new(64, 64, 64), 10);
    let mut pipeline = None;
    let mut properties = None;
    let mut resources = None;
    let mut run = Vec::new();
    for command in fluid.step() {
        match command {
            PassCommand::SetPipeline { stage } => pipeline = Some(stage),
            PassCommand::SetBindGroup { index: 1, group } => properties = Some(group),
            PassCommand::SetBindGroup { index: 2, group } => resources = Some(group),
            PassCommand::SetBindGroup { .. } => panic!("a set that the simulation does not own"),
            PassCommand::Dispatch { .. } => {
                let stage: Stage = pipeline.unwrap();
                assert_eq!(properties, Some(BindGroupId::Uniform));
                assert_eq!(resources, Some(stage.bind_group()));
                assert_eq!(stage.bind_group().layout(), stage.resource_layout());
                run.push(stage);
            }
        }
    }
    assert_eq!(run, Stage::all());
}
