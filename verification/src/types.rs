//! Small value types shared by every other module.

use vstd::prelude::*;

verus! {

/// How a material's coverage is resolved.
#[derive(Clone, Copy, Debug, PartialEq, Eq, Structural)]
pub enum TransparencyType {
    /// Fully covering geometry.
    Opaque,
    /// Binary alpha test.
    Cutout,
    /// Partial alpha blending.
    Blend,
}

impl TransparencyType {
    /// Position of the class in the mandatory draw order.
    pub open spec fn order(self) -> int {
        match self {
            TransparencyType::Opaque => 0,
            TransparencyType::Cutout => 1,
            TransparencyType::Blend => 2,
        }
    }

    /// Position of the class in the mandatory draw order.
    pub fn position(self) -> (n: u8)
        ensures
            n == self.order(),
    {
        match self {
            TransparencyType::Opaque => 0,
            TransparencyType::Cutout => 1,
            TransparencyType::Blend => 2,
        }
    }

    /// Whether geometry of this class takes part in depth-only recordings
    /// (the depth prepass and shadow maps).
    pub open spec fn spec_writes_depth(self) -> bool {
        self != TransparencyType::Blend
    }

    /// Whether geometry of this class takes part in depth-only recordings.
    pub fn writes_depth(self) -> (r: bool)
        ensures
            r == self.spec_writes_depth(),
    {
        match self {
            TransparencyType::Blend => false,
            _ => true,
        }
    }
}

/// Number of samples per pixel of the primary render targets.
#[derive(Clone, Copy, Debug, PartialEq, Eq, Structural)]
pub enum SampleCount {
    One,
    Four,
}

impl SampleCount {
    /// The number of samples as an integer.
    pub open spec fn spec_count(self) -> int {
        match self {
            SampleCount::One => 1,
            SampleCount::Four => 4,
        }
    }

    /// The number of samples as an integer.
    pub fn count(self) -> (n: u32)
        ensures
            n == self.spec_count(),
    {
        match self {
            SampleCount::One => 1,
            SampleCount::Four => 4,
        }
    }

    /// Whether a separate single-sample target is needed to present the image.
    pub open spec fn spec_needs_resolve(self) -> bool {
        self.spec_count() > 1
    }

    /// Whether a separate single-sample target is needed to present the image.
    pub fn needs_resolve(self) -> (r: bool)
        ensures
            r == self.spec_needs_resolve(),
    {
        match self {
            SampleCount::One => false,
            SampleCount::Four => true,
        }
    }
}

/// Where culling and per-object data live: on the host, or on the device.
/// Fixed when the renderer is created.
#[derive(Clone, Copy, Debug, PartialEq, Eq, Structural)]
pub enum RendererMode {
    CpuPowered,
    GpuPowered,
}

/// A value that exists in exactly one of two shapes, according to the
/// renderer's mode.
#[derive(Clone, Copy, Debug)]
pub enum ModeData<C, G> {
    Cpu(C),
    Gpu(G),
}

impl<C, G> ModeData<C, G> {
    /// The mode whose shape this value has.
    pub open spec fn spec_mode(self) -> RendererMode {
        match self {
            ModeData::Cpu(_) => RendererMode::CpuPowered,
            ModeData::Gpu(_) => RendererMode::GpuPowered,
        }
    }

    /// The mode whose shape this value has.
    pub fn mode(&self) -> (m: RendererMode)
        ensures
            m == self.spec_mode(),
    {
        match self {
            ModeData::Cpu(_) => RendererMode::CpuPowered,
            ModeData::Gpu(_) => RendererMode::GpuPowered,
        }
    }
}

/// Names a texture held by the texture manager.
#[derive(Clone, Copy, Debug, PartialEq, Eq, Structural)]
pub struct TextureHandle {
    pub index: usize,
}

/// Size and multisampling of the primary render targets.
#[derive(Clone, Copy, Debug, PartialEq, Eq, Structural)]
pub struct RenderTextureOptions {
    pub width: u32,
    pub height: u32,
    pub samples: SampleCount,
}

} // verus!
