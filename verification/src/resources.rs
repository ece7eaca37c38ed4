//! The device resources of a simulation and the binding sets that hand them
//! to the compute stages.

use vstd::prelude::*;

verus! {

/// One of the two pressure fields, which take turns as source and target of
/// a relaxation sweep.
#[derive(Clone, Copy, Debug, PartialEq, Eq, Structural)]
pub enum PressureSlot {
    First,
    Second,
}

/// A field of the grid. All fields have the grid's extent.
#[derive(Clone, Copy, Debug, PartialEq, Eq, Structural)]
pub enum GridField {
    /// Velocity, a vector for each cell.
    Velocity,
    /// For each cell, the index of the first particle on its list.
    LinkedListHeads,
    /// Divergence of the velocity field.
    Divergence,
    /// One of the two pressure fields.
    Pressure(PressureSlot),
}

/// Storage format of one texel of a field.
#[derive(Clone, Copy, Debug, PartialEq, Eq, Structural)]
pub enum TexelFormat {
    Rgba32Float,
    R32Uint,
    R32Float,
}

/// Something on the device that a stage can be given access to.
#[derive(Clone, Copy, Debug, PartialEq, Eq, Structural)]
pub enum Resource {
    /// The uniform record that holds the number of live particles.
    SimulationProperties,
    /// The particle buffer.
    Particles,
    Field(GridField),
}

/// How a shader sees a binding.
#[derive(Clone, Copy, Debug, PartialEq, Eq, Structural)]
pub enum BindingKind {
    /// A uniform buffer.
    Uniform,
    /// A buffer that the shader reads and writes.
    StorageBuffer,
    /// A three-dimensional image of the given format that the shader reads and writes.
    StorageImage(TexelFormat),
    /// A three-dimensional texture that the shader only reads.
    SampledTexture,
}

/// The layouts of the binding sets that the simulation makes.
#[derive(Clone, Copy, Debug, PartialEq, Eq, Structural)]
pub enum GroupLayoutId {
    Uniform,
    UpdateParticlesAndGrid,
    UpdateParticles,
    PressureSolve,
}

/// The binding sets that the simulation makes.
#[derive(Clone, Copy, Debug, PartialEq, Eq, Structural)]
pub enum BindGroupId {
    Uniform,
    UpdateParticlesAndGrid,
    UpdateParticles,
    ComputeDivergence,
    /// The set of a relaxation sweep that writes the given pressure field and
    /// reads the other one.
    PressureWrite(PressureSlot),
}

impl PressureSlot {
    pub open spec fn spec_other(self) -> PressureSlot {
        match self {
            PressureSlot::First => PressureSlot::Second,
            PressureSlot::Second => PressureSlot::First,
        }
    }

    /// The slot that this one takes turns with.
    pub fn other(&self) -> (slot: PressureSlot)
        ensures
            slot == self.spec_other(),
            slot != *self,
            slot.spec_other() == *self,
    {
        match self {
            PressureSlot::First => PressureSlot::Second,
            PressureSlot::Second => PressureSlot::First,
        }
    }
}

impl GridField {
    pub open spec fn spec_format(self) -> TexelFormat {
        match self {
            GridField::Velocity => TexelFormat::Rgba32Float,
            GridField::LinkedListHeads => TexelFormat::R32Uint,
            GridField::Divergence => TexelFormat::R32Float,
            GridField::Pressure(_) => TexelFormat::R32Float,
        }
    }

    /// Format in which the field is stored.
    pub fn format(&self) -> (format: TexelFormat)
        ensures
            format == self.spec_format(),
    {
        match self {
            GridField::Velocity => TexelFormat::Rgba32Float,
            GridField::LinkedListHeads => TexelFormat::R32Uint,
            GridField::Divergence => TexelFormat::R32Float,
            GridField::Pressure(_) => TexelFormat::R32Float,
        }
    }

    pub open spec fn spec_all() -> Seq<GridField> {
        seq![
            GridField::Velocity,
            GridField::LinkedListHeads,
            GridField::Divergence,
            GridField::Pressure(PressureSlot::First),
            GridField::Pressure(PressureSlot::Second),
        ]
    }

    /// Every field of the grid, in the order in which they are created.
    pub fn all() -> (fields: Vec<GridField>)
        ensures
            fields@ == GridField::spec_all(),
    {
        let fields = vec![
            GridField::Velocity,
            GridField::LinkedListHeads,
            GridField::Divergence,
            GridField::Pressure(PressureSlot::First),
            GridField::Pressure(PressureSlot::Second),
        ];
        assert(fields@ =~= GridField::spec_all());
        fields
    }
}

impl BindingKind {
    /// Whether a shader can write through a binding of this kind.
    pub open spec fn writable(self) -> bool {
        self is StorageBuffer || self is StorageImage
    }

    /// Whether `resource` can be bound where a layout asks for this kind.
    pub open spec fn fits(self, resource: Resource) -> bool {
        match self {
            BindingKind::Uniform => resource == Resource::SimulationProperties,
            BindingKind::StorageBuffer => resource == Resource::Particles,
            BindingKind::StorageImage(format) => resource matches Resource::Field(field)
                && field.spec_format() == format,
            BindingKind::SampledTexture => resource is Field,
        }
    }
}

impl GroupLayoutId {
    pub open spec fn spec_bindings(self) -> Seq<BindingKind> {
        match self {
            GroupLayoutId::Uniform => seq![BindingKind::Uniform],
            GroupLayoutId::UpdateParticlesAndGrid => seq![
                BindingKind::StorageBuffer,
                BindingKind::StorageImage(TexelFormat::Rgba32Float),
                BindingKind::StorageImage(TexelFormat::R32Uint),
            ],
            GroupLayoutId::UpdateParticles => seq![
                BindingKind::StorageBuffer,
                BindingKind::SampledTexture,
            ],
            GroupLayoutId::PressureSolve => seq![
                BindingKind::SampledTexture,
                BindingKind::SampledTexture,
                BindingKind::SampledTexture,
                BindingKind::StorageImage(TexelFormat::R32Float),
            ],
        }
    }

    /// The bindings of the layout, in the order of their binding indices.
    pub fn bindings(&self) -> (bindings: Vec<BindingKind>)
        ensures
            bindings@ == self.spec_bindings(),
    {
        let bindings = match self {
            GroupLayoutId::Uniform => vec![BindingKind::Uniform],
            GroupLayoutId::UpdateParticlesAndGrid => vec![
                BindingKind::StorageBuffer,
                BindingKind::StorageImage(TexelFormat::Rgba32Float),
                BindingKind::StorageImage(TexelFormat::R32Uint),
            ],
            GroupLayoutId::UpdateParticles => vec![
                BindingKind::StorageBuffer,
                BindingKind::SampledTexture,
            ],
            GroupLayoutId::PressureSolve => vec![
                BindingKind::SampledTexture,
                BindingKind::SampledTexture,
                BindingKind::SampledTexture,
                BindingKind::StorageImage(TexelFormat::R32Float),
            ],
        };
        assert(bindings@ =~= self.spec_bindings());
        bindings
    }
}

impl GroupLayoutId {
    pub open spec fn spec_all() -> Seq<GroupLayoutId> {
        seq![
            GroupLayoutId::Uniform,
            GroupLayoutId::UpdateParticlesAndGrid,
            GroupLayoutId::UpdateParticles,
            GroupLayoutId::PressureSolve,
        ]
    }

    /// Every layout of the simulation's binding sets, in the order in which
    /// they are created.
    pub fn all() -> (layouts: Vec<GroupLayoutId>)
        ensures
            layouts@ == GroupLayoutId::spec_all(),
    {
        let layouts = vec![
            GroupLayoutId::Uniform,
            GroupLayoutId::UpdateParticlesAndGrid,
            GroupLayoutId::UpdateParticles,
            GroupLayoutId::PressureSolve,
        ];
        assert(layouts@ =~= GroupLayoutId::spec_all());
        layouts
    }
}

impl BindGroupId {
    pub open spec fn spec_layout(self) -> GroupLayoutId {
        match self {
            BindGroupId::Uniform => GroupLayoutId::Uniform,
            BindGroupId::UpdateParticlesAndGrid => GroupLayoutId::UpdateParticlesAndGrid,
            BindGroupId::UpdateParticles => GroupLayoutId::UpdateParticles,
            BindGroupId::ComputeDivergence => GroupLayoutId::PressureSolve,
            BindGroupId::PressureWrite(_) => GroupLayoutId::PressureSolve,
        }
    }

    /// The layout that the set is made for.
    pub fn layout(&self) -> (layout: GroupLayoutId)
        ensures
            layout == self.spec_layout(),
    {
        match self {
            BindGroupId::Uniform => GroupLayoutId::Uniform,
            BindGroupId::UpdateParticlesAndGrid => GroupLayoutId::UpdateParticlesAndGrid,
            BindGroupId::UpdateParticles => GroupLayoutId::UpdateParticles,
            BindGroupId::ComputeDivergence => GroupLayoutId::PressureSolve,
            BindGroupId::PressureWrite(_) => GroupLayoutId::PressureSolve,
        }
    }

    pub open spec fn spec_resources(self) -> Seq<Resource> {
        match self {
            BindGroupId::Uniform => seq![Resource::SimulationProperties],
            BindGroupId::UpdateParticlesAndGrid => seq![
                Resource::Particles,
                Resource::Field(GridField::Velocity),
                Resource::Field(GridField::LinkedListHeads),
            ],
            BindGroupId::UpdateParticles => seq![
                Resource::Particles,
                Resource::Field(GridField::Velocity),
            ],
            BindGroupId::ComputeDivergence => seq![
                Resource::Field(GridField::Velocity),
                Resource::Field(GridField::Pressure(PressureSlot::First)),
                Resource::Field(GridField::Pressure(PressureSlot::Second)),
                Resource::Field(GridField::Divergence),
            ],
            BindGroupId::PressureWrite(target) => seq![
                Resource::Field(GridField::Velocity),
                Resource::Field(GridField::Divergence),
                Resource::Field(GridField::Pressure(target.spec_other())),
                Resource::Field(GridField::Pressure(target)),
            ],
        }
    }

    /// The resources of the set, in the order of their binding indices.
    pub fn resources(&self) -> (resources: Vec<Resource>)
        ensures
            resources@ == self.spec_resources(),
    {
        let resources = match self {
            BindGroupId::Uniform => vec![Resource::SimulationProperties],
            BindGroupId::UpdateParticlesAndGrid => vec![
                Resource::Particles,
                Resource::Field(GridField::Velocity),
                Resource::Field(GridField::LinkedListHeads),
            ],
            BindGroupId::UpdateParticles => vec![
                Resource::Particles,
                Resource::Field(GridField::Velocity),
            ],
            BindGroupId::ComputeDivergence => vec![
                Resource::Field(GridField::Velocity),
                Resource::Field(GridField::Pressure(PressureSlot::First)),
                Resource::Field(GridField::Pressure(PressureSlot::Second)),
                Resource::Field(GridField::Divergence),
            ],
            BindGroupId::PressureWrite(target) => vec![
                Resource::Field(GridField::Velocity),
                Resource::Field(GridField::Divergence),
                Resource::Field(GridField::Pressure(target.other())),
                Resource::Field(GridField::Pressure(*target)),
            ],
        };
        assert(resources@ =~= self.spec_resources());
        resources
    }

    pub open spec fn spec_all() -> Seq<BindGroupId> {
        seq![
            BindGroupId::Uniform,
            BindGroupId::UpdateParticlesAndGrid,
            BindGroupId::UpdateParticles,
            BindGroupId::ComputeDivergence,
            BindGroupId::PressureWrite(PressureSlot::First),
            BindGroupId::PressureWrite(PressureSlot::Second),
        ]
    }

    /// Every binding set of the simulation, in the order in which they are created.
    pub fn all() -> (groups: Vec<BindGroupId>)
        ensures
            groups@ == BindGroupId::spec_all(),
    {
        let groups = vec![
            BindGroupId::Uniform,
            BindGroupId::UpdateParticlesAndGrid,
            BindGroupId::UpdateParticles,
            BindGroupId::ComputeDivergence,
            BindGroupId::PressureWrite(PressureSlot::First),
            BindGroupId::PressureWrite(PressureSlot::Second),
        ];
        assert(groups@ =~= BindGroupId::spec_all());
        groups
    }

    /// Whether a shader that is given the set can read `resource`.
    pub open spec fn grants_read(self, resource: Resource) -> bool {
        exists|i: int| 0 <= i < self.spec_resources().len() && self.spec_resources()[i] == resource
    }

    /// Whether a shader that is given the set can write `resource`.
    pub open spec fn grants_write(self, resource: Resource) -> bool {
        exists|i: int|
            0 <= i < self.spec_resources().len() && self.spec_resources()[i] == resource
                && self.spec_layout().spec_bindings()[i].writable()
    }
}

/// Every binding set holds as many resources as its layout has bindings, and
/// each resource is of the kind that the layout asks for at its index.
pub proof fn lemma_bind_group_fits_layout(group: BindGroupId, index: int)
    requires
        0 <= index < group.spec_resources().len(),
    ensures
        group.spec_resources().len() == group.spec_layout().spec_bindings().len(),
        group.spec_layout().spec_bindings()[index].fits(group.spec_resources()[index]),
{
}

/// The two sets of the relaxation sweep swap source and target: what one
/// writes the other reads, and neither reads the field that it writes.
pub proof fn lemma_pressure_sets_alternate(target: PressureSlot)
    ensures
        BindGroupId::PressureWrite(target).spec_resources()[3] == Resource::Field(
            GridField::Pressure(target),
        ),
        BindGroupId::PressureWrite(target).spec_resources()[2] == BindGroupId::PressureWrite(
            target.spec_other(),
        ).spec_resources()[3],
        BindGroupId::PressureWrite(target).spec_resources()[2]
            != BindGroupId::PressureWrite(target).spec_resources()[3],
{
}

} // verus!
