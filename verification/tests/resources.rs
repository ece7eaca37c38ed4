use hybrid_fluid::resources::{
    BindGroupId, BindingKind, GridField, GroupLayoutId, PressureSlot, Resource, TexelFormat,
};
use hybrid_fluid::stages::Stage;

#[test]
fn field_formats() {
    assert_eq!(GridField::Velocity.format(), TexelFormat::Rgba32Float);
    assert_eq!(GridField::LinkedListHeads.format(), TexelFormat::R32Uint);
    assert_eq!(GridField::Divergence.format(), TexelFormat::R32Float);
    assert_eq!(GridField::Pressure(PressureSlot::First).format(), TexelFormat::R32Float);
    assert_eq!(GridField::Pressure(PressureSlot::Second).format(), TexelFormat::R32Float);
    assert_eq!(GridField::all().len(), 5);
}

#[test]
fn pressure_slots_take_turns() {
    assert_eq!(PressureSlot::First.other(), PressureSlot::Second);
    assert_eq!(PressureSlot::Second.other(), PressureSlot::First);
    assert_eq!(PressureSlot::First.other().other(), PressureSlot::First);
}

#[test]
fn layouts_in_order() {
    assert_eq!(
        GroupLayoutId::all(),
        vec![
            GroupLayoutId::Uniform,
            GroupLayoutId::UpdateParticlesAndGrid,
            GroupLayoutId::UpdateParticles,
            GroupLayoutId::PressureSolve
        ]
    );
}

#[test]
fn layouts() {
    assert_eq!(GroupLayoutId::Uniform.bindings(), vec![BindingKind::Uniform]);
    assert_eq!(
        GroupLayoutId::UpdateParticlesAndGrid.bindings(),
        vec![
            BindingKind::StorageBuffer,
            BindingKind::StorageImage(TexelFormat::Rgba32Float),
            BindingKind::StorageImage(TexelFormat::R32Uint)
        ]
    );
    assert_eq!(
        GroupLayoutId::UpdateParticles.bindings(),
        vec![BindingKind::StorageBuffer, BindingKind::SampledTexture]
    );
    assert_eq!(
        GroupLayoutId::PressureSolve.bindings(),
        vec![
            BindingKind::SampledTexture,
            BindingKind::SampledTexture,
            BindingKind::SampledTexture,
            BindingKind::StorageImage(TexelFormat::R32Float)
        ]
    );
}

#[test]
fn binding_sets() {
    let velocity = Resource::Field(GridField::Velocity);
    let heads = Resource::Field(GridField::LinkedListHeads);
    let divergence = Resource::Field(GridField::Divergence);
    let first = Resource::Field(GridField::Pressure(PressureSlot::First));
    let second = Resource::Field(GridField::Pressure(PressureSlot::Second));
    assert_eq!(BindGroupId::Uniform.resources(), vec![Resource::SimulationProperties]);
    assert_eq!(
        BindGroupId::UpdateParticlesAndGrid.resources(),
        vec![Resource::Particles, velocity, heads]
    );
    assert_eq!(BindGroupId::UpdateParticles.resources(), vec![Resource::Particles, velocity]);
    assert_eq!(
        BindGroupId::ComputeDivergence.resources(),
        vec![velocity, first, second, divergence]
    );
    assert_eq!(
        BindGroupId::PressureWrite(PressureSlot::First).resources(),
        vec![velocity, divergence, second, first]
    );
    assert_eq!(
        BindGroupId::PressureWrite(PressureSlot::Second).resources(),
        vec![velocity, divergence, first, second]
    );
    assert_eq!(BindGroupId::Uniform.layout(), GroupLayoutId::Uniform);
    assert_eq!(BindGroupId::UpdateParticlesAndGrid.layout(), GroupLayoutId::UpdateParticlesAndGrid);
    assert_eq!(BindGroupId::UpdateParticles.layout(), GroupLayoutId::UpdateParticles);
    assert_eq!(BindGroupId::ComputeDivergence.layout(), GroupLayoutId::PressureSolve);
    assert_eq!(
        BindGroupId::PressureWrite(PressureSlot::First).layout(),
        GroupLayoutId::PressureSolve
    );
}

fn fits(kind: BindingKind, resource: Resource) -> bool {
    match (kind, resource) {
        (BindingKind::Uniform, Resource::SimulationProperties) => true,
        (BindingKind::StorageBuffer, Resource::Particles) => true,
        (BindingKind::StorageImage(format), Resource::Field(field)) => field.format() == format,
        (BindingKind::SampledTexture, Resource::Field(_)) => true,
        _ => false,
    }
}

#[test]
fn every_set_fits_its_layout() {
    let groups = BindGroupId::all();
    assert_eq!(groups.len(), 6);
    for group in groups {
        let resources = group.resources();
        let bindings = group.layout().bindings();
        assert_eq!(resources.len(), bindings.len());
        for (kind, resource) in bindings.into_iter().zip(resources) {
            assert!(fits(kind, resource));
        }
    }
}

#[test]
fn every_stage_can_reach_what_it_touches() {
    for stage in Stage::all() {
        let group = stage.bind_group();
        let resources = group.resources();
        let bindings = group.layout().bindings();
        for read in stage.reads() {
            assert!(resources.contains(&read));
        }
        for write in stage.writes() {
            let at = resources.iter().position(|r| *r == write).unwrap();
            assert!(matches!(
                bindings[at],
                BindingKind::StorageBuffer | BindingKind::StorageImage(_)
            ));
        }
    }
    assert_eq!(Stage::ClearGrids.reads(), vec![]);
    assert_eq!(
        Stage::ClearGrids.writes(),
        vec![Resource::Field(GridField::Velocity), Resource::Field(GridField::LinkedListHeads)]
    );
    assert_eq!(Stage::ParticleUpdate.writes(), vec![Resource::Particles]);
}
