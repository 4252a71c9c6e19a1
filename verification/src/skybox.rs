//! The background pass.

use vstd::prelude::*;
use crate::commands::Command;
use crate::commands::CommandEncoder;
use crate::pipelines::Pipeline;
use crate::types::TextureHandle;

verus! {

/// Draws the background, where one is set.
#[derive(Clone, Copy, Debug, PartialEq, Eq, Structural)]
pub struct SkyboxPass {
    pub pipeline: Pipeline,
    pub current_skybox: Option<TextureHandle>,
}

/// What `update_skybox` is given.
pub struct UpdateSkyboxArgs {
    pub new_skybox_handle: Option<TextureHandle>,
}

impl SkyboxPass {
    /// A pass without a background.
    pub fn new(pipeline: Pipeline) -> (p: SkyboxPass)
        ensures
            p == (SkyboxPass { pipeline, current_skybox: None }),
    {
        SkyboxPass { pipeline, current_skybox: None }
    }

    /// Takes over the background that is to be drawn from now on.
    pub fn update_skybox(&mut self, args: UpdateSkyboxArgs)
        ensures
            *final(self) == (SkyboxPass {
                pipeline: old(self).pipeline,
                current_skybox: args.new_skybox_handle,
            }),
    {
        self.current_skybox = args.new_skybox_handle;
    }

    /// What the pass records: one full-screen draw where a background is
    /// set, nothing where none is.
    pub open spec fn spec_commands(self) -> Seq<Command> {
        match self.current_skybox {
            Some(texture) => seq![Command::DrawSkybox { pipeline: self.pipeline, texture }],
            None => Seq::empty(),
        }
    }

    /// Records the background draw, if a background is set.
    pub fn draw_skybox(&self, encoder: &mut CommandEncoder)
        ensures
            final(encoder)@ == old(encoder)@ + self.spec_commands(),
    {
        match self.current_skybox {
            Some(texture) => {
                encoder.record(Command::DrawSkybox { pipeline: self.pipeline, texture });
            },
            None => {},
        }
        assert(encoder@ =~= old(encoder)@ + self.spec_commands());
    }
}

} // verus!
