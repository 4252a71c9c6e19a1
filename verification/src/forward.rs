//! The forward pass of one transparency class: culling against the camera,
//! the depth prepass and the shaded draw.

use vstd::prelude::*;
use crate::commands::Command;
use crate::commands::CommandEncoder;
use crate::commands::DrawStage;
use crate::commands::Viewpoint;
use crate::culling::cull;
use crate::culling::expected_dispatch;
use crate::culling::visible_set;
use crate::culling::CullArgs;
use crate::culling::CulledObjects;
use crate::culling::Culler;
use crate::frustum::Frustum;
use crate::pipelines::Pipeline;
use crate::scene::RenderObject;
use crate::types::TransparencyType;

verus! {

/// The pipelines of one class and the class itself.
#[derive(Clone, Copy, Debug, PartialEq, Eq, Structural)]
pub struct ForwardPass {
    pub depth_pipeline: Pipeline,
    pub forward_pipeline: Pipeline,
    pub transparency: TransparencyType,
}

/// What culling for the camera needs.
pub struct ForwardPassCullArgs<'a> {
    pub culler: Culler<'a>,
    pub camera: &'a Frustum,
    pub objects: &'a Vec<RenderObject>,
}

/// What the depth prepass draws.
pub struct ForwardPassPrepassArgs<'a> {
    pub culled_objects: &'a CulledObjects,
}

/// What the shaded pass draws.
pub struct ForwardPassDrawArgs<'a> {
    pub culled_objects: &'a CulledObjects,
}

impl ForwardPass {
    pub fn new(
        depth_pipeline: Pipeline,
        forward_pipeline: Pipeline,
        transparency: TransparencyType,
    ) -> (p: ForwardPass)
        ensures
            p == (ForwardPass { depth_pipeline, forward_pipeline, transparency }),
    {
        ForwardPass { depth_pipeline, forward_pipeline, transparency }
    }

    /// Finds the objects of this pass's class that the camera sees.
    pub fn cull(&self, encoder: &mut CommandEncoder, args: ForwardPassCullArgs) -> (culled:
        CulledObjects)
        ensures
            final(encoder)@ == old(encoder)@ + expected_dispatch(
                args.culler.spec_mode(),
                Viewpoint::Camera,
                args.objects@,
                self.transparency,
            ),
            culled.spec_is_result_of(
                args.culler.spec_mode(),
                Viewpoint::Camera,
                *args.camera,
                args.objects@,
                self.transparency,
            ),
            culled.spec_members(*args.camera, args.objects@, self.transparency) == visible_set(
                args.objects@,
                *args.camera,
                self.transparency,
            ),
    {
        cull(
            args.culler,
            encoder,
            CullArgs {
                view: Viewpoint::Camera,
                frustum: args.camera,
                objects: args.objects,
                transparency: self.transparency,
            },
        )
    }

    /// What the depth prepass records for a culled set: depth-only draws of
    /// the set for the classes that write depth, nothing for the blended
    /// class.
    pub open spec fn spec_prepass_commands(self, culled: CulledObjects) -> Seq<Command> {
        if self.transparency.spec_writes_depth() {
            culled.spec_draw_commands(DrawStage::Prepass, self.transparency, self.depth_pipeline)
        } else {
            Seq::empty()
        }
    }

    /// What the shaded pass records for a culled set.
    pub open spec fn spec_draw_commands(self, culled: CulledObjects) -> Seq<Command> {
        culled.spec_draw_commands(DrawStage::Forward, self.transparency, self.forward_pipeline)
    }

    /// Records the depth-only draws of the set. The blended class has no
    /// prepass: for it nothing is recorded.
    pub fn prepass(&self, encoder: &mut CommandEncoder, args: ForwardPassPrepassArgs)
        ensures
            final(encoder)@ == old(encoder)@ + self.spec_prepass_commands(*args.culled_objects),
    {
        if self.transparency.writes_depth() {
            args.culled_objects.draw(
                encoder,
                DrawStage::Prepass,
                self.transparency,
                self.depth_pipeline,
            );
        } else {
            assert(encoder@ =~= old(encoder)@ + Seq::<Command>::empty());
        }
    }

    /// Records the shaded draws of the set.
    pub fn draw(&self, encoder: &mut CommandEncoder, args: ForwardPassDrawArgs)
        ensures
            final(encoder)@ == old(encoder)@ + self.spec_draw_commands(*args.culled_objects),
    {
        args.culled_objects.draw(
            encoder,
            DrawStage::Forward,
            self.transparency,
            self.forward_pipeline,
        );
    }
}

} // verus!
