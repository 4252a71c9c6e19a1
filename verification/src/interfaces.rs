//! The registry of binding layouts: what every pipeline expects to find at
//! each binding slot. Built once, read-only afterwards.

use vstd::prelude::*;
use crate::types::ModeData;
use crate::types::RendererMode;

verus! {

/// Size in bytes of one per-object record in the culled-object buffer: two
/// 4x4 matrices, one padded 3x3 matrix and a material index, rounded up to
/// the record's alignment of 16.
pub const PER_OBJECT_DATA_SIZE: u64 = 192;

/// Number of texture bindings of a material where textures are bound per
/// material.
pub const MATERIAL_TEXTURES: u32 = 10;

/// The shader stages that can see a binding.
#[derive(Clone, Copy, Debug, PartialEq, Eq, Structural)]
pub enum ShaderStage {
    Vertex,
    Fragment,
    VertexFragment,
}

/// What is bound at a slot.
#[derive(Clone, Copy, Debug, PartialEq, Eq, Structural)]
pub enum BindingType {
    /// A sampler; `filtering` ones interpolate, `comparison` ones compare
    /// against a reference depth.
    Sampler { filtering: bool, comparison: bool },
    /// A read-only storage buffer of at least `min_size` bytes.
    StorageBuffer { min_size: u64 },
    /// A uniform buffer.
    UniformBuffer,
    /// A two-dimensional texture.
    Texture,
}

/// One slot of a layout. A `count` makes the slot an array of that length.
#[derive(Clone, Copy, Debug, PartialEq, Eq, Structural)]
pub struct BindGroupLayoutEntry {
    pub binding: u32,
    pub visibility: ShaderStage,
    pub ty: BindingType,
    pub count: Option<usize>,
}

/// A named list of slots.
#[derive(Clone, Debug)]
pub struct BindGroupLayout {
    pub label: &'static str,
    pub entries: Vec<BindGroupLayoutEntry>,
}

/// The fixed set of layouts shared by every pipeline.
#[derive(Clone, Debug)]
pub struct ShaderInterfaces {
    pub samplers_bgl: BindGroupLayout,
    pub culled_object_bgl: BindGroupLayout,
    pub material_bgl: ModeData<BindGroupLayout, BindGroupLayout>,
    pub texture_bgl: ModeData<BindGroupLayout, BindGroupLayout>,
    pub uniform_bgl: BindGroupLayout,
}

/// The slots of the sampler layout: a filtering and a non-filtering sampler,
/// both for the fragment stage.
pub open spec fn sampler_entries() -> Seq<BindGroupLayoutEntry> {
    seq![
        (BindGroupLayoutEntry {
            binding: 0,
            visibility: ShaderStage::Fragment,
            ty: BindingType::Sampler { filtering: true, comparison: false },
            count: None,
        }),
        (BindGroupLayoutEntry {
            binding: 1,
            visibility: ShaderStage::Fragment,
            ty: BindingType::Sampler { filtering: false, comparison: false },
            count: None,
        }),
    ]
}

/// The single slot of the culled-object layout: the buffer of per-object
/// records.
pub open spec fn culled_object_entries() -> Seq<BindGroupLayoutEntry> {
    seq![
        (BindGroupLayoutEntry {
            binding: 0,
            visibility: ShaderStage::Fragment,
            ty: BindingType::StorageBuffer { min_size: PER_OBJECT_DATA_SIZE },
            count: None,
        }),
    ]
}

/// The slots of the material layout. On the host path a material binds its
/// own textures, one per slot, and then its parameters; on the device path
/// all materials sit in one buffer.
pub open spec fn material_entries(mode: RendererMode) -> Seq<BindGroupLayoutEntry> {
    match mode {
        RendererMode::CpuPowered => Seq::new(
            MATERIAL_TEXTURES as nat + 1,
            |i: int|
                BindGroupLayoutEntry {
                    binding: i as u32,
                    visibility: ShaderStage::Fragment,
                    ty: if i < MATERIAL_TEXTURES {
                        BindingType::Texture
                    } else {
                        BindingType::UniformBuffer
                    },
                    count: None,
                },
        ),
        RendererMode::GpuPowered => seq![
            (BindGroupLayoutEntry {
                binding: 0,
                visibility: ShaderStage::VertexFragment,
                ty: BindingType::StorageBuffer { min_size: 0 },
                count: None,
            }),
        ],
    }
}

/// The slots of the texture layout: nothing on the host path, one array of
/// all textures on the device path.
pub open spec fn texture_entries(max_texture_count: ModeData<(), usize>) -> Seq<
    BindGroupLayoutEntry,
> {
    match max_texture_count {
        ModeData::Cpu(_) => Seq::empty(),
        ModeData::Gpu(n) => seq![
            (BindGroupLayoutEntry {
                binding: 0,
                visibility: ShaderStage::Fragment,
                ty: BindingType::Texture,
                count: Some(n),
            }),
        ],
    }
}

/// The single slot of the uniform layout: the per-view constants, seen by
/// both stages.
pub open spec fn uniform_entries() -> Seq<BindGroupLayoutEntry> {
    seq![
        (BindGroupLayoutEntry {
            binding: 0,
            visibility: ShaderStage::VertexFragment,
            ty: BindingType::UniformBuffer,
            count: None,
        }),
    ]
}

impl ShaderInterfaces {
    /// The mode that the registry was built for.
    pub open spec fn spec_mode(self) -> RendererMode {
        self.texture_bgl.spec_mode()
    }

    /// Length of the texture array of the texture layout; zero where it has
    /// none.
    pub open spec fn spec_texture_slots(self) -> usize {
        match self.texture_bgl {
            ModeData::Gpu(l) => if l.entries@.len() > 0 {
                match l.entries@[0].count {
                    Some(n) => n,
                    None => 0,
                }
            } else {
                0
            },
            ModeData::Cpu(_) => 0,
        }
    }

    /// The registry that `new` builds for a texture limit.
    pub open spec fn spec_describes(self, max_texture_count: ModeData<(), usize>) -> bool {
        let mode = max_texture_count.spec_mode();
        &&& self.samplers_bgl.label@ == "sampler bgl"@
        &&& self.samplers_bgl.entries@ == sampler_entries()
        &&& self.culled_object_bgl.label@ == "culled object bgl"@
        &&& self.culled_object_bgl.entries@ == culled_object_entries()
        &&& self.material_bgl.spec_mode() == mode
        &&& self.material_layout().label@ == "material bgl"@
        &&& self.material_layout().entries@ == material_entries(mode)
        &&& self.texture_bgl.spec_mode() == mode
        &&& self.texture_layout().label@ == "texture bgl"@
        &&& self.texture_layout().entries@ == texture_entries(max_texture_count)
        &&& self.uniform_bgl.label@ == "uniform bgl"@
        &&& self.uniform_bgl.entries@ == uniform_entries()
    }

    /// The material layout, whichever mode it is for.
    pub open spec fn material_layout(self) -> BindGroupLayout {
        match self.material_bgl {
            ModeData::Cpu(l) => l,
            ModeData::Gpu(l) => l,
        }
    }

    /// The texture layout, whichever mode it is for.
    pub open spec fn texture_layout(self) -> BindGroupLayout {
        match self.texture_bgl {
            ModeData::Cpu(l) => l,
            ModeData::Gpu(l) => l,
        }
    }

    /// Declares the layouts. The texture limit is given on the device path
    /// only, where all textures are bound as one array.
    pub fn new(max_texture_count: ModeData<(), usize>) -> (s: ShaderInterfaces)
        ensures
            s.spec_describes(max_texture_count),
            s.spec_mode() == max_texture_count.spec_mode(),
            s.spec_texture_slots() == match max_texture_count {
                ModeData::Cpu(_) => 0usize,
                ModeData::Gpu(n) => n,
            },
    {
        let mut sampler_slots: Vec<BindGroupLayoutEntry> = Vec::new();
        sampler_slots.push(
            BindGroupLayoutEntry {
                binding: 0,
                visibility: ShaderStage::Fragment,
                ty: BindingType::Sampler { filtering: true, comparison: false },
                count: None,
            },
        );
        sampler_slots.push(
            BindGroupLayoutEntry {
                binding: 1,
                visibility: ShaderStage::Fragment,
                ty: BindingType::Sampler { filtering: false, comparison: false },
                count: None,
            },
        );
        assert(sampler_slots@ =~= sampler_entries());
        let samplers_bgl = BindGroupLayout { label: "sampler bgl", entries: sampler_slots };

        let mut object_slots: Vec<BindGroupLayoutEntry> = Vec::new();
        object_slots.push(
            BindGroupLayoutEntry {
                binding: 0,
                visibility: ShaderStage::Fragment,
                ty: BindingType::StorageBuffer { min_size: PER_OBJECT_DATA_SIZE },
                count: None,
            },
        );
        assert(object_slots@ =~= culled_object_entries());
        let culled_object_bgl = BindGroupLayout { label: "culled object bgl", entries: object_slots };

        let mut material_slots: Vec<BindGroupLayoutEntry> = Vec::new();
        let mut texture_slots: Vec<BindGroupLayoutEntry> = Vec::new();
        let material_bgl;
        let texture_bgl;
        match max_texture_count {
            ModeData::Cpu(_) => {
                let mut i: u32 = 0;
                while i <= MATERIAL_TEXTURES
                    invariant
                        i <= MATERIAL_TEXTURES + 1,
                        material_slots@ =~= material_entries(RendererMode::CpuPowered).take(
                            i as int,
                        ),
                    decreases MATERIAL_TEXTURES + 1 - i,
                {
                    let ty = if i < MATERIAL_TEXTURES {
                        BindingType::Texture
                    } else {
                        BindingType::UniformBuffer
                    };
                    material_slots.push(
                        BindGroupLayoutEntry {
                            binding: i,
                            visibility: ShaderStage::Fragment,
                            ty,
                            count: None,
                        },
                    );
                    i += 1;
                }
                assert(material_slots@ =~= material_entries(RendererMode::CpuPowered));
                assert(texture_slots@ =~= texture_entries(max_texture_count));
                material_bgl =
                ModeData::Cpu(BindGroupLayout { label: "material bgl", entries: material_slots });
                texture_bgl =
                ModeData::Cpu(BindGroupLayout { label: "texture bgl", entries: texture_slots });
            },
            ModeData::Gpu(n) => {
                material_slots.push(
                    BindGroupLayoutEntry {
                        binding: 0,
                        visibility: ShaderStage::VertexFragment,
                        ty: BindingType::StorageBuffer { min_size: 0 },
                        count: None,
                    },
                );
                texture_slots.push(
                    BindGroupLayoutEntry {
                        binding: 0,
                        visibility: ShaderStage::Fragment,
                        ty: BindingType::Texture,
                        count: Some(n),
                    },
                );
                assert(material_slots@ =~= material_entries(RendererMode::GpuPowered));
                assert(texture_slots@ =~= texture_entries(max_texture_count));
                material_bgl =
                ModeData::Gpu(BindGroupLayout { label: "material bgl", entries: material_slots });
                texture_bgl =
                ModeData::Gpu(BindGroupLayout { label: "texture bgl", entries: texture_slots });
            },
        }

        let mut uniform_slots: Vec<BindGroupLayoutEntry> = Vec::new();
        uniform_slots.push(
            BindGroupLayoutEntry {
                binding: 0,
                visibility: ShaderStage::VertexFragment,
                ty: BindingType::UniformBuffer,
                count: None,
            },
        );
        assert(uniform_slots@ =~= uniform_entries());
        let uniform_bgl = BindGroupLayout { label: "uniform bgl", entries: uniform_slots };

        ShaderInterfaces { samplers_bgl, culled_object_bgl, material_bgl, texture_bgl, uniform_bgl }
    }

    /// Length of the texture array of the texture layout; zero where it has
    /// none.
    pub fn texture_slots(&self) -> (n: usize)
        ensures
            n == self.spec_texture_slots(),
    {
        match &self.texture_bgl {
            ModeData::Gpu(l) => {
                if l.entries.len() > 0 {
                    match l.entries[0].count {
                        Some(n) => n,
                        None => 0,
                    }
                } else {
                    0
                }
            },
            ModeData::Cpu(_) => 0,
        }
    }
}

} // verus!
