//! Descriptions of the pipelines that the passes draw with, and the
//! functions that build them.
//!
//! A pipeline is fixed once built: a change of configuration builds new ones.

use vstd::prelude::*;
use crate::interfaces::ShaderInterfaces;
use crate::types::RendererMode;
use crate::types::SampleCount;
use crate::types::TransparencyType;

verus! {

/// The pass that a pipeline is built for.
#[derive(Clone, Copy, Debug, PartialEq, Eq, Structural)]
pub enum PassType {
    Shadow,
    Prepass,
    Forward,
    Skybox,
    Tonemap,
}

/// How a fragment's colour meets what is already in the target.
#[derive(Clone, Copy, Debug, PartialEq, Eq, Structural)]
pub enum BlendMode {
    /// The fragment replaces the stored colour.
    Replace,
    /// The fragment is mixed in by its alpha.
    Alpha,
}

/// Which faces are discarded before shading.
#[derive(Clone, Copy, Debug, PartialEq, Eq, Structural)]
pub enum FaceCull {
    Off,
    Back,
}

/// The two kinds of depth-only pass.
#[derive(Clone, Copy, Debug, PartialEq, Eq, Structural)]
pub enum DepthPassType {
    Shadow,
    Prepass,
}

/// A compiled program together with its fixed state, for one combination of
/// pass, transparency class and sample count.
#[derive(Clone, Copy, Debug, PartialEq, Eq, Structural)]
pub struct Pipeline {
    pub pass: PassType,
    pub transparency: TransparencyType,
    pub samples: SampleCount,
    pub mode: RendererMode,
    /// Length of the texture array that the program indexes; zero where
    /// textures are bound per material.
    pub texture_slots: usize,
    pub blend: BlendMode,
    pub alpha_test: bool,
    pub depth_test: bool,
    pub depth_write: bool,
    pub color_write: bool,
    pub face_cull: FaceCull,
}

impl Pipeline {
    /// The depth-only pipeline of a class: writes depth, no colour.
    pub open spec fn spec_depth(
        ty: DepthPassType,
        transparency: TransparencyType,
        samples: SampleCount,
        mode: RendererMode,
        texture_slots: usize,
    ) -> Pipeline {
        Pipeline {
            pass: match ty {
                DepthPassType::Shadow => PassType::Shadow,
                DepthPassType::Prepass => PassType::Prepass,
            },
            transparency,
            samples,
            mode,
            texture_slots,
            blend: BlendMode::Replace,
            alpha_test: transparency == TransparencyType::Cutout,
            depth_test: true,
            depth_write: true,
            color_write: false,
            face_cull: FaceCull::Back,
        }
    }

    /// The fully shading pipeline of a class. Depth is tested, never
    /// written; only the blended class mixes colours; only the cutout class
    /// tests alpha; back faces are discarded.
    pub open spec fn spec_forward(
        transparency: TransparencyType,
        samples: SampleCount,
        mode: RendererMode,
        texture_slots: usize,
    ) -> Pipeline {
        Pipeline {
            pass: PassType::Forward,
            transparency,
            samples,
            mode,
            texture_slots,
            blend: if transparency == TransparencyType::Blend {
                BlendMode::Alpha
            } else {
                BlendMode::Replace
            },
            alpha_test: transparency == TransparencyType::Cutout,
            depth_test: true,
            depth_write: false,
            color_write: true,
            face_cull: FaceCull::Back,
        }
    }

    /// The background pipeline: a full-screen draw that is depth-tested
    /// against the prepass and leaves depth as it is.
    pub open spec fn spec_skybox(samples: SampleCount, mode: RendererMode) -> Pipeline {
        Pipeline {
            pass: PassType::Skybox,
            transparency: TransparencyType::Opaque,
            samples,
            mode,
            texture_slots: 0,
            blend: BlendMode::Replace,
            alpha_test: false,
            depth_test: true,
            depth_write: false,
            color_write: true,
            face_cull: FaceCull::Off,
        }
    }

    /// The composite pipeline: a full-screen draw onto the single-sampled
    /// output, without depth.
    pub open spec fn spec_tonemap(mode: RendererMode) -> Pipeline {
        Pipeline {
            pass: PassType::Tonemap,
            transparency: TransparencyType::Opaque,
            samples: SampleCount::One,
            mode,
            texture_slots: 0,
            blend: BlendMode::Replace,
            alpha_test: false,
            depth_test: false,
            depth_write: false,
            color_write: true,
            face_cull: FaceCull::Off,
        }
    }
}

/// What a depth-only pipeline is built from.
pub struct BuildDepthPassShaderArgs<'a> {
    pub mode: RendererMode,
    pub interfaces: &'a ShaderInterfaces,
    pub samples: SampleCount,
    pub ty: DepthPassType,
}

/// The depth-only pipelines of the two classes that write depth.
#[derive(Clone, Copy, Debug, PartialEq, Eq, Structural)]
pub struct DepthPassPipelines {
    pub opaque: Pipeline,
    pub cutout: Pipeline,
}

/// Builds the depth-only pipelines of the opaque and the cutout class.
pub fn build_depth_pass_shader(args: BuildDepthPassShaderArgs) -> (p: DepthPassPipelines)
    ensures
        p.opaque == Pipeline::spec_depth(
            args.ty,
            TransparencyType::Opaque,
            args.samples,
            args.mode,
            args.interfaces.spec_texture_slots(),
        ),
        p.cutout == Pipeline::spec_depth(
            args.ty,
            TransparencyType::Cutout,
            args.samples,
            args.mode,
            args.interfaces.spec_texture_slots(),
        ),
{
    let pass = match args.ty {
        DepthPassType::Shadow => PassType::Shadow,
        DepthPassType::Prepass => PassType::Prepass,
    };
    let opaque = Pipeline {
        pass,
        transparency: TransparencyType::Opaque,
        samples: args.samples,
        mode: args.mode,
        texture_slots: args.interfaces.texture_slots(),
        blend: BlendMode::Replace,
        alpha_test: false,
        depth_test: true,
        depth_write: true,
        color_write: false,
        face_cull: FaceCull::Back,
    };
    let cutout = Pipeline { transparency: TransparencyType::Cutout, alpha_test: true, ..opaque };
    DepthPassPipelines { opaque, cutout }
}

/// What a forward pipeline is built from.
#[derive(Clone, Copy)]
pub struct BuildForwardPassShaderArgs<'a> {
    pub mode: RendererMode,
    pub interfaces: &'a ShaderInterfaces,
    pub samples: SampleCount,
    pub transparency: TransparencyType,
}

/// Builds the fully shading pipeline of one class.
pub fn build_forward_pass_shader(args: BuildForwardPassShaderArgs) -> (p: Pipeline)
    ensures
        p == Pipeline::spec_forward(
            args.transparency,
            args.samples,
            args.mode,
            args.interfaces.spec_texture_slots(),
        ),
{
    let blend = match args.transparency {
        TransparencyType::Blend => BlendMode::Alpha,
        _ => BlendMode::Replace,
    };
    let alpha_test = match args.transparency {
        TransparencyType::Cutout => true,
        _ => false,
    };
    Pipeline {
        pass: PassType::Forward,
        transparency: args.transparency,
        samples: args.samples,
        mode: args.mode,
        texture_slots: args.interfaces.texture_slots(),
        blend,
        alpha_test,
        depth_test: true,
        depth_write: false,
        color_write: true,
        face_cull: FaceCull::Back,
    }
}

/// What the background pipeline is built from.
pub struct BuildSkyboxShaderArgs<'a> {
    pub mode: RendererMode,
    pub interfaces: &'a ShaderInterfaces,
    pub samples: SampleCount,
}

/// Builds the background pipeline.
pub fn build_skybox_shader(args: BuildSkyboxShaderArgs) -> (p: Pipeline)
    ensures
        p == Pipeline::spec_skybox(args.samples, args.mode),
{
    Pipeline {
        pass: PassType::Skybox,
        transparency: TransparencyType::Opaque,
        samples: args.samples,
        mode: args.mode,
        texture_slots: 0,
        blend: BlendMode::Replace,
        alpha_test: false,
        depth_test: true,
        depth_write: false,
        color_write: true,
        face_cull: FaceCull::Off,
    }
}

} // verus!
