//! Shadow maps of the directional lights: culling against each light's
//! volume, then depth-only draws into the light's own shadow map.
//!
//! Only the opaque and the cutout class cast shadows.

use vstd::prelude::*;
use crate::commands::Command;
use crate::commands::CommandEncoder;
use crate::commands::DrawStage;
use crate::commands::Viewpoint;
use crate::culling::cull;
use crate::culling::expected_dispatch;
use crate::culling::expected_draws;
use crate::culling::lemma_result_draws;
use crate::culling::CullArgs;
use crate::culling::CulledObjects;
use crate::culling::Culler;
use crate::pipelines::Pipeline;
use crate::scene::DirectionalLight;
use crate::scene::RenderObject;
use crate::types::RendererMode;
use crate::types::TransparencyType;

verus! {

/// The depth-only pipelines that shadow casters are drawn with.
#[derive(Clone, Copy, Debug, PartialEq, Eq, Structural)]
pub struct DirectionalShadowPass {
    pub cutout_pipeline: Pipeline,
    pub opaque_pipeline: Pipeline,
}

/// What one light sees, by class, for the current frame.
#[derive(Debug)]
pub struct CulledLight {
    pub light: usize,
    pub shadow_map: usize,
    pub opaque: CulledObjects,
    pub cutout: CulledObjects,
}

impl CulledLight {
    /// The record is what culling yields for the light with the given index.
    pub open spec fn spec_is_result_of(
        self,
        mode: RendererMode,
        index: usize,
        light: DirectionalLight,
        objects: Seq<RenderObject>,
    ) -> bool {
        &&& self.light == index
        &&& self.shadow_map == light.shadow_map
        &&& self.opaque.spec_is_result_of(
            mode,
            Viewpoint::Light(index),
            light.frustum,
            objects,
            TransparencyType::Opaque,
        )
        &&& self.cutout.spec_is_result_of(
            mode,
            Viewpoint::Light(index),
            light.frustum,
            objects,
            TransparencyType::Cutout,
        )
    }
}

/// What culling the shadow casters needs.
pub struct DirectionalShadowPassCullShadowsArgs<'a> {
    pub culler: Culler<'a>,
    pub lights: &'a Vec<DirectionalLight>,
    pub objects: &'a Vec<RenderObject>,
}

/// What drawing the shadow maps needs.
pub struct DirectionalShadowPassDrawCulledShadowsArgs<'a> {
    pub culled_lights: &'a Vec<CulledLight>,
}

/// The dispatches that culling for one light records.
pub open spec fn light_dispatches(mode: RendererMode, index: usize, objects: Seq<RenderObject>) -> Seq<
    Command,
> {
    expected_dispatch(mode, Viewpoint::Light(index), objects, TransparencyType::Opaque)
        + expected_dispatch(mode, Viewpoint::Light(index), objects, TransparencyType::Cutout)
}

/// The dispatches that culling for all lights records, light by light.
pub open spec fn shadow_dispatches(
    mode: RendererMode,
    lights: Seq<DirectionalLight>,
    objects: Seq<RenderObject>,
) -> Seq<Command>
    decreases lights.len(),
{
    if lights.len() == 0 {
        Seq::empty()
    } else {
        shadow_dispatches(mode, lights.drop_last(), objects) + light_dispatches(
            mode,
            (lights.len() - 1) as usize,
            objects,
        )
    }
}

impl DirectionalShadowPass {
    pub fn new(cutout_pipeline: Pipeline, opaque_pipeline: Pipeline) -> (p: DirectionalShadowPass)
        ensures
            p == (DirectionalShadowPass { cutout_pipeline, opaque_pipeline }),
    {
        DirectionalShadowPass { cutout_pipeline, opaque_pipeline }
    }

    /// What drawing one culled light records: the scope of its shadow map
    /// around the draws of its opaque and then its cutout casters.
    pub open spec fn spec_light_commands(self, culled: CulledLight) -> Seq<Command> {
        seq![Command::BeginShadowPass { light: culled.light, shadow_map: culled.shadow_map }]
            + culled.opaque.spec_draw_commands(
            DrawStage::Shadow,
            TransparencyType::Opaque,
            self.opaque_pipeline,
        ) + culled.cutout.spec_draw_commands(
            DrawStage::Shadow,
            TransparencyType::Cutout,
            self.cutout_pipeline,
        ) + seq![Command::EndShadowPass { light: culled.light }]
    }

    /// What drawing all culled lights records, light by light.
    pub open spec fn spec_shadow_commands(self, culled: Seq<CulledLight>) -> Seq<Command>
        decreases culled.len(),
    {
        if culled.len() == 0 {
            Seq::empty()
        } else {
            self.spec_shadow_commands(culled.drop_last()) + self.spec_light_commands(culled.last())
        }
    }

    /// The shadow commands of one light, from the scene alone.
    pub open spec fn spec_expected_light_commands(
        self,
        mode: RendererMode,
        index: usize,
        light: DirectionalLight,
        objects: Seq<RenderObject>,
    ) -> Seq<Command> {
        seq![Command::BeginShadowPass { light: index, shadow_map: light.shadow_map }]
            + expected_draws(
            mode,
            DrawStage::Shadow,
            Viewpoint::Light(index),
            light.frustum,
            objects,
            TransparencyType::Opaque,
            self.opaque_pipeline,
        ) + expected_draws(
            mode,
            DrawStage::Shadow,
            Viewpoint::Light(index),
            light.frustum,
            objects,
            TransparencyType::Cutout,
            self.cutout_pipeline,
        ) + seq![Command::EndShadowPass { light: index }]
    }

    /// The shadow commands of all lights, from the scene alone.
    pub open spec fn spec_expected_commands(
        self,
        mode: RendererMode,
        lights: Seq<DirectionalLight>,
        objects: Seq<RenderObject>,
    ) -> Seq<Command>
        decreases lights.len(),
    {
        if lights.len() == 0 {
            Seq::empty()
        } else {
            self.spec_expected_commands(mode, lights.drop_last(), objects)
                + self.spec_expected_light_commands(
                mode,
                (lights.len() - 1) as usize,
                lights.last(),
                objects,
            )
        }
    }

    /// Culled lights that are the results for the scene's lights draw
    /// exactly what the scene prescribes.
    pub proof fn lemma_results_draw_expected(
        self,
        culled: Seq<CulledLight>,
        mode: RendererMode,
        lights: Seq<DirectionalLight>,
        objects: Seq<RenderObject>,
    )
        requires
            culled.len() == lights.len(),
            lights.len() <= usize::MAX,
            forall|j: int|
                0 <= j < culled.len() ==> (#[trigger] culled[j]).spec_is_result_of(
                    mode,
                    j as usize,
                    lights[j],
                    objects,
                ),
        ensures
            self.spec_shadow_commands(culled) == self.spec_expected_commands(mode, lights, objects),
        decreases culled.len(),
    {
        if culled.len() > 0 {
            let index = (lights.len() - 1) as usize;
            let last = culled.last();
            let light = lights.last();
            self.lemma_results_draw_expected(
                culled.drop_last(),
                mode,
                lights.drop_last(),
                objects,
            );
            assert(last.spec_is_result_of(mode, index, light, objects));
            lemma_result_draws(
                last.opaque,
                mode,
                DrawStage::Shadow,
                Viewpoint::Light(index),
                light.frustum,
                objects,
                TransparencyType::Opaque,
                self.opaque_pipeline,
            );
            lemma_result_draws(
                last.cutout,
                mode,
                DrawStage::Shadow,
                Viewpoint::Light(index),
                light.frustum,
                objects,
                TransparencyType::Cutout,
                self.cutout_pipeline,
            );
        }
    }

    /// Culls the opaque and the cutout casters of every light, each against
    /// the light's own volume.
    pub fn cull_shadows(
        &self,
        encoder: &mut CommandEncoder,
        args: DirectionalShadowPassCullShadowsArgs,
    ) -> (culled: Vec<CulledLight>)
        ensures
            final(encoder)@ == old(encoder)@ + shadow_dispatches(
                args.culler.spec_mode(),
                args.lights@,
                args.objects@,
            ),
            culled@.len() == args.lights@.len(),
            forall|j: int|
                0 <= j < culled@.len() ==> (#[trigger] culled@[j]).spec_is_result_of(
                    args.culler.spec_mode(),
                    j as usize,
                    args.lights@[j],
                    args.objects@,
                ),
    {
        let mut culled: Vec<CulledLight> = Vec::new();
        let mut i: usize = 0;
        assert(encoder@ =~= old(encoder)@ + Seq::<Command>::empty());
        assert(args.lights@.take(0) =~= Seq::<DirectionalLight>::empty());
        while i < args.lights.len()
            invariant
                i <= args.lights@.len(),
                culled@.len() == i,
                encoder@ == old(encoder)@ + shadow_dispatches(
                    args.culler.spec_mode(),
                    args.lights@.take(i as int),
                    args.objects@,
                ),
                forall|j: int|
                    0 <= j < i ==> (#[trigger] culled@[j]).spec_is_result_of(
                        args.culler.spec_mode(),
                        j as usize,
                        args.lights@[j],
                        args.objects@,
                    ),
            decreases args.lights@.len() - i,
        {
            let light = &args.lights[i];
            let ghost before = encoder@;
            let opaque = cull(
                args.culler,
                encoder,
                CullArgs {
                    view: Viewpoint::Light(i),
                    frustum: &light.frustum,
                    objects: args.objects,
                    transparency: TransparencyType::Opaque,
                },
            );
            let cutout = cull(
                args.culler,
                encoder,
                CullArgs {
                    view: Viewpoint::Light(i),
                    frustum: &light.frustum,
                    objects: args.objects,
                    transparency: TransparencyType::Cutout,
                },
            );
            proof {
                let longer = args.lights@.take(i + 1);
                assert(longer.drop_last() =~= args.lights@.take(i as int));
                assert(encoder@ =~= before + light_dispatches(
                    args.culler.spec_mode(),
                    i,
                    args.objects@,
                ));
                assert(encoder@ =~= old(encoder)@ + shadow_dispatches(
                    args.culler.spec_mode(),
                    longer,
                    args.objects@,
                ));
            }
            culled.push(CulledLight { light: i, shadow_map: light.shadow_map, opaque, cutout });
            i += 1;
        }
        assert(args.lights@.take(i as int) =~= args.lights@);
        culled
    }

    /// Draws every light's casters into the light's shadow map.
    pub fn draw_culled_shadows(
        &self,
        encoder: &mut CommandEncoder,
        args: DirectionalShadowPassDrawCulledShadowsArgs,
    )
        ensures
            final(encoder)@ == old(encoder)@ + self.spec_shadow_commands(args.culled_lights@),
    {
        let mut i: usize = 0;
        assert(encoder@ =~= old(encoder)@ + Seq::<Command>::empty());
        assert(args.culled_lights@.take(0) =~= Seq::<CulledLight>::empty());
        while i < args.culled_lights.len()
            invariant
                i <= args.culled_lights@.len(),
                encoder@ == old(encoder)@ + self.spec_shadow_commands(
                    args.culled_lights@.take(i as int),
                ),
            decreases args.culled_lights@.len() - i,
        {
            let culled = &args.culled_lights[i];
            let ghost before = encoder@;
            encoder.record(
                Command::BeginShadowPass { light: culled.light, shadow_map: culled.shadow_map },
            );
            culled.opaque.draw(
                encoder,
                DrawStage::Shadow,
                TransparencyType::Opaque,
                self.opaque_pipeline,
            );
            culled.cutout.draw(
                encoder,
                DrawStage::Shadow,
                TransparencyType::Cutout,
                self.cutout_pipeline,
            );
            encoder.record(Command::EndShadowPass { light: culled.light });
            proof {
                let longer = args.culled_lights@.take(i + 1);
                assert(longer.drop_last() =~= args.culled_lights@.take(i as int));
                assert(longer.last() == *culled);
                assert(encoder@ =~= before + self.spec_light_commands(*culled));
                assert(encoder@ =~= old(encoder)@ + self.spec_shadow_commands(longer));
            }
            i += 1;
        }
        assert(args.culled_lights@.take(i as int) =~= args.culled_lights@);
    }
}

} // verus!
