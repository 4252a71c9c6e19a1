//! The final composite onto the output surface.

use vstd::prelude::*;
use crate::commands::BlitSource;
use crate::commands::Command;
use crate::commands::CommandEncoder;
use crate::interfaces::ShaderInterfaces;
use crate::pipelines::BlendMode;
use crate::pipelines::FaceCull;
use crate::pipelines::PassType;
use crate::pipelines::Pipeline;
use crate::types::RendererMode;
use crate::types::SampleCount;
use crate::types::TransparencyType;

verus! {

/// Maps the internal high-dynamic-range image to the presentable one.
#[derive(Clone, Copy, Debug, PartialEq, Eq, Structural)]
pub struct TonemappingPass {
    pub pipeline: Pipeline,
}

/// What the pass is built from.
pub struct TonemappingPassNewArgs<'a> {
    pub mode: RendererMode,
    pub interfaces: &'a ShaderInterfaces,
}

/// What one composite reads and writes.
pub struct TonemappingPassBlitArgs {
    pub source: BlitSource,
    pub target: usize,
}

impl TonemappingPass {
    /// Builds the pass with its pipeline.
    pub fn new(args: TonemappingPassNewArgs) -> (p: TonemappingPass)
        ensures
            p.pipeline == Pipeline::spec_tonemap(args.mode),
    {
        TonemappingPass {
            pipeline: Pipeline {
                pass: PassType::Tonemap,
                transparency: TransparencyType::Opaque,
                samples: SampleCount::One,
                mode: args.mode,
                texture_slots: 0,
                blend: BlendMode::Replace,
                alpha_test: false,
                depth_test: false,
                depth_write: false,
                color_write: true,
                face_cull: FaceCull::Off,
            },
        }
    }

    /// What the pass records: a single full-screen operation from the source
    /// onto the target.
    pub open spec fn spec_commands(self, args: TonemappingPassBlitArgs) -> Seq<Command> {
        seq![Command::Blit { pipeline: self.pipeline, source: args.source, target: args.target }]
    }

    /// Records the composite.
    pub fn blit(&self, encoder: &mut CommandEncoder, args: TonemappingPassBlitArgs)
        ensures
            final(encoder)@ == old(encoder)@ + self.spec_commands(args),
    {
        encoder.record(
            Command::Blit { pipeline: self.pipeline, source: args.source, target: args.target },
        );
        assert(encoder@ =~= old(encoder)@ + self.spec_commands(args));
    }
}

} // verus!
