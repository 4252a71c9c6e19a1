//! The frame's read-only snapshot of what the data managers hold.

use vstd::prelude::*;
use crate::frustum::BoundingSphere;
use crate::frustum::Frustum;
use crate::types::ModeData;
use crate::types::RendererMode;
use crate::types::TransparencyType;

verus! {

/// One drawable object: which mesh, which material, where it is and how its
/// coverage is resolved.
#[derive(Clone, Copy, Debug, PartialEq, Eq, Structural)]
pub struct RenderObject {
    pub mesh: usize,
    pub material: usize,
    /// The object's extent in world space, after its transform.
    pub bounds: BoundingSphere,
    pub transparency: TransparencyType,
}

/// A shadow-casting light: the volume it sees and the shadow map it owns.
#[derive(Clone, Debug)]
pub struct DirectionalLight {
    pub frustum: Frustum,
    pub shadow_map: usize,
}

/// The renderer as a frame sees it: its mode, fixed at creation, and the
/// state of the managers after their pending changes were flushed.
#[derive(Clone, Debug)]
pub struct Renderer {
    pub mode: RendererMode,
    /// Length of the texture array on the device path.
    pub max_texture_count: usize,
    pub objects: Vec<RenderObject>,
    pub lights: Vec<DirectionalLight>,
    pub camera: Frustum,
}

impl Renderer {
    /// The texture limit in the shape of the renderer's mode.
    pub open spec fn spec_texture_limit(self) -> ModeData<(), usize> {
        match self.mode {
            RendererMode::CpuPowered => ModeData::Cpu(()),
            RendererMode::GpuPowered => ModeData::Gpu(self.max_texture_count),
        }
    }

    /// The texture limit in the shape of the renderer's mode.
    pub fn texture_limit(&self) -> (l: ModeData<(), usize>)
        ensures
            l == self.spec_texture_limit(),
    {
        match self.mode {
            RendererMode::CpuPowered => ModeData::Cpu(()),
            RendererMode::GpuPowered => ModeData::Gpu(self.max_texture_count),
        }
    }
}

} // verus!
