//! What holds of every frame and of every change of configuration.

use vstd::prelude::*;
use crate::commands::in_frame_order;
use crate::commands::lemma_join_in_order;
use crate::commands::ranks_within;
use crate::commands::Command;
use crate::commands::DrawStage;
use crate::commands::OutputFrame;
use crate::commands::Viewpoint;
use crate::culling::expected_dispatch;
use crate::culling::expected_draws;
use crate::culling::lemma_host_members;
use crate::culling::lemma_visible_indices;
use crate::culling::visible_indices;
use crate::culling::visible_set;
use crate::culling::CulledObjects;
use crate::directional::light_dispatches;
use crate::directional::shadow_dispatches;
use crate::directional::DirectionalShadowPass;
use crate::forward::ForwardPass;
use crate::frustum::Frustum;
use crate::pipelines::Pipeline;
use crate::routine::PbrRenderRoutine;
use crate::routine::PrimaryPasses;
use crate::scene::DirectionalLight;
use crate::scene::RenderObject;
use crate::scene::Renderer;
use crate::tonemapping::TonemappingPassBlitArgs;
use crate::types::RenderTextureOptions;
use crate::types::RendererMode;
use crate::types::TransparencyType;
use crate::utils::RenderTextures;

verus! {

/// Both cullers select the same objects: for one view, class and object
/// list, the set that the host culler lists and the set that the device
/// culler's dispatch stands for are both the set found by testing every
/// object.
pub proof fn law_cullers_agree(
    host: CulledObjects,
    device: CulledObjects,
    view: Viewpoint,
    frustum: Frustum,
    objects: Seq<RenderObject>,
    transparency: TransparencyType,
)
    requires
        objects.len() <= usize::MAX,
        host.spec_is_result_of(RendererMode::CpuPowered, view, frustum, objects, transparency),
        device.spec_is_result_of(RendererMode::GpuPowered, view, frustum, objects, transparency),
    ensures
        host.spec_members(frustum, objects, transparency) == visible_set(
            objects,
            frustum,
            transparency,
        ),
        device.spec_members(frustum, objects, transparency) == visible_set(
            objects,
            frustum,
            transparency,
        ),
        host.spec_members(frustum, objects, transparency) == device.spec_members(
            frustum,
            objects,
            transparency,
        ),
{
    lemma_host_members(host, frustum, objects, transparency);
    assert(objects.take(objects.len() as int) =~= objects);
}

/// The rank of a draw of the given stage and class.
pub open spec fn draw_rank(stage: DrawStage, transparency: TransparencyType) -> int {
    match stage {
        DrawStage::Shadow => 15,
        DrawStage::Prepass => 21 + transparency.order(),
        DrawStage::Forward => 31 + transparency.order(),
    }
}

/// Commands that all satisfy a condition still do when two runs are joined.
proof fn lemma_all_join(a: Seq<Command>, b: Seq<Command>, pred: spec_fn(Command) -> bool)
    requires
        a.all(pred),
        b.all(pred),
    ensures
        (a + b).all(pred),
{
    let c = a + b;
    assert forall|i: int| 0 <= i < c.len() implies #[trigger] pred(c[i]) by {
        if i < a.len() {
            assert(c[i] == a[i]);
        } else {
            assert(c[i] == b[i - a.len()]);
        }
    }
}

/// Commands of one rank are in frame order.
proof fn lemma_one_rank(cmds: Seq<Command>, rank: int)
    requires
        cmds.all(|c: Command| c.spec_rank() == rank),
    ensures
        in_frame_order(cmds),
        ranks_within(cmds, rank, rank),
{
    let pred = |c: Command| c.spec_rank() == rank;
    assert forall|i: int| 0 <= i < cmds.len() implies (#[trigger] cmds[i]).spec_rank() == rank by {
        assert(pred(cmds[i]));
    }
}

/// What holds of each command that the dispatches of the shadow casters
/// record holds of all of them.
proof fn lemma_shadow_dispatches_all(
    mode: RendererMode,
    lights: Seq<DirectionalLight>,
    objects: Seq<RenderObject>,
    pred: spec_fn(Command) -> bool,
)
    requires
        forall|index: usize| (#[trigger] light_dispatches(mode, index, objects)).all(pred),
    ensures
        shadow_dispatches(mode, lights, objects).all(pred),
    decreases lights.len(),
{
    if lights.len() > 0 {
        lemma_shadow_dispatches_all(mode, lights.drop_last(), objects, pred);
        lemma_all_join(
            shadow_dispatches(mode, lights.drop_last(), objects),
            light_dispatches(mode, (lights.len() - 1) as usize, objects),
            pred,
        );
    }
}

/// What holds of each command that drawing one of the lights records holds
/// of the commands of all lights.
proof fn lemma_shadow_commands_all(
    pass: DirectionalShadowPass,
    mode: RendererMode,
    lights: Seq<DirectionalLight>,
    objects: Seq<RenderObject>,
    pred: spec_fn(Command) -> bool,
)
    requires
        forall|index: int|
            0 <= index < lights.len() ==> (#[trigger] pass.spec_expected_light_commands(
                mode,
                index as usize,
                lights[index],
                objects,
            )).all(pred),
    ensures
        pass.spec_expected_commands(mode, lights, objects).all(pred),
    decreases lights.len(),
{
    if lights.len() > 0 {
        let shorter = lights.drop_last();
        assert forall|index: int| 0 <= index < shorter.len() implies (
        #[trigger] pass.spec_expected_light_commands(
            mode,
            index as usize,
            shorter[index],
            objects,
        )).all(pred) by {
            assert(shorter[index] == lights[index]);
        }
        lemma_shadow_commands_all(pass, mode, shorter, objects, pred);
        assert(lights.last() == lights[lights.len() - 1]);
        lemma_all_join(
            pass.spec_expected_commands(mode, shorter, objects),
            pass.spec_expected_light_commands(
                mode,
                (lights.len() - 1) as usize,
                lights.last(),
                objects,
            ),
            pred,
        );
    }
}

/// What holds of every command of every part of a frame holds of every
/// command of the frame.
proof fn lemma_frame_all(
    routine: PbrRenderRoutine,
    renderer: Renderer,
    frame: OutputFrame,
    pred: spec_fn(Command) -> bool,
)
    requires
        forall|index: usize|
            (#[trigger] light_dispatches(routine.spec_mode(), index, renderer.objects@)).all(pred),
        forall|transparency: TransparencyType|
            (#[trigger] expected_dispatch(
                routine.spec_mode(),
                Viewpoint::Camera,
                renderer.objects@,
                transparency,
            )).all(pred),
        forall|index: int|
            0 <= index < renderer.lights@.len() ==> (
            #[trigger] routine.primary_passes.shadow_passes.spec_expected_light_commands(
                routine.spec_mode(),
                index as usize,
                renderer.lights@[index],
                renderer.objects@,
            )).all(pred),
        pred(Command::BeginPrimaryPass { resolve: routine.render_textures.resolve is Some }),
        PrimaryPasses::spec_pass_prepass(
            routine.primary_passes.opaque_pass,
            routine.spec_mode(),
            renderer,
        ).all(pred),
        PrimaryPasses::spec_pass_prepass(
            routine.primary_passes.cutout_pass,
            routine.spec_mode(),
            renderer,
        ).all(pred),
        routine.primary_passes.skybox_pass.spec_commands().all(pred),
        PrimaryPasses::spec_pass_forward(
            routine.primary_passes.opaque_pass,
            routine.spec_mode(),
            renderer,
        ).all(pred),
        PrimaryPasses::spec_pass_forward(
            routine.primary_passes.cutout_pass,
            routine.spec_mode(),
            renderer,
        ).all(pred),
        PrimaryPasses::spec_pass_forward(
            routine.primary_passes.transparent_pass,
            routine.spec_mode(),
            renderer,
        ).all(pred),
        pred(Command::EndPrimaryPass),
        routine.tonemapping_pass.spec_commands(
            TonemappingPassBlitArgs {
                source: routine.render_textures.spec_blit_source(),
                target: frame.view,
            },
        ).all(pred),
    ensures
        routine.spec_frame_commands(renderer, frame).all(pred),
{
    let mode = routine.spec_mode();
    let passes = routine.primary_passes;
    let objects = renderer.objects@;
    let s1 = shadow_dispatches(mode, renderer.lights@, objects);
    let s2 = expected_dispatch(mode, Viewpoint::Camera, objects, passes.opaque_pass.transparency);
    let s3 = expected_dispatch(mode, Viewpoint::Camera, objects, passes.cutout_pass.transparency);
    let s4 = expected_dispatch(
        mode,
        Viewpoint::Camera,
        objects,
        passes.transparent_pass.transparency,
    );
    let s5 = passes.shadow_passes.spec_expected_commands(mode, renderer.lights@, objects);
    let s6 = seq![Command::BeginPrimaryPass { resolve: routine.render_textures.resolve is Some }];
    let s7 = PrimaryPasses::spec_pass_prepass(passes.opaque_pass, mode, renderer);
    let s8 = PrimaryPasses::spec_pass_prepass(passes.cutout_pass, mode, renderer);
    let s9 = passes.skybox_pass.spec_commands();
    let s10 = PrimaryPasses::spec_pass_forward(passes.opaque_pass, mode, renderer);
    let s11 = PrimaryPasses::spec_pass_forward(passes.cutout_pass, mode, renderer);
    let s12 = PrimaryPasses::spec_pass_forward(passes.transparent_pass, mode, renderer);
    let s13 = seq![Command::EndPrimaryPass];
    let s14 = routine.tonemapping_pass.spec_commands(
        TonemappingPassBlitArgs {
            source: routine.render_textures.spec_blit_source(),
            target: frame.view,
        },
    );
    lemma_shadow_dispatches_all(mode, renderer.lights@, objects, pred);
    lemma_shadow_commands_all(passes.shadow_passes, mode, renderer.lights@, objects, pred);
    assert(s6.all(pred));
    assert(s13.all(pred));
    lemma_all_join(s1, s2, pred);
    lemma_all_join(s1 + s2, s3, pred);
    lemma_all_join(s1 + s2 + s3, s4, pred);
    lemma_all_join(s1 + s2 + s3 + s4, s5, pred);
    lemma_all_join(s1 + s2 + s3 + s4 + s5, s6, pred);
    lemma_all_join(s7, s8, pred);
    lemma_all_join(s1 + s2 + s3 + s4 + s5 + s6, s7 + s8, pred);
    lemma_all_join(s10, s11, pred);
    lemma_all_join(s10 + s11, s12, pred);
    lemma_all_join(s10 + s11 + s12, s13, pred);
    lemma_all_join(s10 + s11 + s12 + s13, s14, pred);
    lemma_all_join(routine.spec_before_skybox(renderer), s9, pred);
    lemma_all_join(
        routine.spec_before_skybox(renderer) + s9,
        routine.spec_after_skybox(renderer, frame),
        pred,
    );
}

/// Every frame follows the frame order: the dispatches for the lights, the
/// dispatches for the camera by class, the shadow maps, the depth prepass
/// by class, the background, the shaded draws by class, the composite.
pub proof fn law_frame_order(routine: PbrRenderRoutine, renderer: Renderer, frame: OutputFrame)
    requires
        routine.well_formed(renderer),
    ensures
        in_frame_order(routine.spec_frame_commands(renderer, frame)),
{
    let mode = routine.spec_mode();
    let passes = routine.primary_passes;
    let objects = renderer.objects@;
    let s1 = shadow_dispatches(mode, renderer.lights@, objects);
    let s2 = expected_dispatch(mode, Viewpoint::Camera, objects, passes.opaque_pass.transparency);
    let s3 = expected_dispatch(mode, Viewpoint::Camera, objects, passes.cutout_pass.transparency);
    let s4 = expected_dispatch(
        mode,
        Viewpoint::Camera,
        objects,
        passes.transparent_pass.transparency,
    );
    let s5 = passes.shadow_passes.spec_expected_commands(mode, renderer.lights@, objects);
    let s6 = seq![Command::BeginPrimaryPass { resolve: routine.render_textures.resolve is Some }];
    let s7 = PrimaryPasses::spec_pass_prepass(passes.opaque_pass, mode, renderer);
    let s8 = PrimaryPasses::spec_pass_prepass(passes.cutout_pass, mode, renderer);
    let s9 = passes.skybox_pass.spec_commands();
    let s10 = PrimaryPasses::spec_pass_forward(passes.opaque_pass, mode, renderer);
    let s11 = PrimaryPasses::spec_pass_forward(passes.cutout_pass, mode, renderer);
    let s12 = PrimaryPasses::spec_pass_forward(passes.transparent_pass, mode, renderer);
    let s13 = seq![Command::EndPrimaryPass];
    let s14 = routine.tonemapping_pass.spec_commands(
        TonemappingPassBlitArgs {
            source: routine.render_textures.spec_blit_source(),
            target: frame.view,
        },
    );
    let at = |rank: int| (|c: Command| c.spec_rank() == rank);
    assert forall|index: usize| (#[trigger] light_dispatches(mode, index, objects)).all(at(5)) by {
        lemma_all_join(
            expected_dispatch(mode, Viewpoint::Light(index), objects, TransparencyType::Opaque),
            expected_dispatch(mode, Viewpoint::Light(index), objects, TransparencyType::Cutout),
            at(5),
        );
    }
    lemma_shadow_dispatches_all(mode, renderer.lights@, objects, at(5));
    assert forall|index: usize, light: DirectionalLight|
        (#[trigger] passes.shadow_passes.spec_expected_light_commands(
            mode,
            index,
            light,
            objects,
        )).all(at(15)) by {
        let begin = seq![Command::BeginShadowPass { light: index, shadow_map: light.shadow_map }];
        let opaque = expected_draws(
            mode,
            DrawStage::Shadow,
            Viewpoint::Light(index),
            light.frustum,
            objects,
            TransparencyType::Opaque,
            passes.shadow_passes.opaque_pipeline,
        );
        let cutout = expected_draws(
            mode,
            DrawStage::Shadow,
            Viewpoint::Light(index),
            light.frustum,
            objects,
            TransparencyType::Cutout,
            passes.shadow_passes.cutout_pipeline,
        );
        let end = seq![Command::EndShadowPass { light: index }];
        assert(begin.all(at(15)));
        assert(end.all(at(15)));
        lemma_all_join(begin, opaque, at(15));
        lemma_all_join(begin + opaque, cutout, at(15));
        lemma_all_join(begin + opaque + cutout, end, at(15));
    }
    lemma_shadow_commands_all(passes.shadow_passes, mode, renderer.lights@, objects, at(15));
    lemma_one_rank(s1, 5);
    lemma_one_rank(s2, 11);
    lemma_one_rank(s3, 12);
    lemma_one_rank(s4, 13);
    lemma_one_rank(s5, 15);
    lemma_one_rank(s6, 20);
    lemma_one_rank(s7, 21);
    lemma_one_rank(s8, 22);
    lemma_one_rank(s9, 25);
    lemma_one_rank(s10, 31);
    lemma_one_rank(s11, 32);
    lemma_one_rank(s12, 33);
    lemma_one_rank(s13, 34);
    lemma_one_rank(s14, 35);
    lemma_join_in_order(s1, s2, 5, 11, 11);
    lemma_join_in_order(s1 + s2, s3, 5, 12, 12);
    lemma_join_in_order(s1 + s2 + s3, s4, 5, 13, 13);
    lemma_join_in_order(s1 + s2 + s3 + s4, s5, 5, 15, 15);
    lemma_join_in_order(s1 + s2 + s3 + s4 + s5, s6, 5, 20, 20);
    lemma_join_in_order(s7, s8, 21, 22, 22);
    lemma_join_in_order(s1 + s2 + s3 + s4 + s5 + s6, s7 + s8, 5, 21, 22);
    lemma_join_in_order(s10, s11, 31, 32, 32);
    lemma_join_in_order(s10 + s11, s12, 31, 33, 33);
    lemma_join_in_order(s10 + s11 + s12, s13, 31, 34, 34);
    lemma_join_in_order(s10 + s11 + s12 + s13, s14, 31, 35, 35);
    lemma_join_in_order(routine.spec_before_skybox(renderer), s9, 5, 25, 25);
    lemma_join_in_order(
        routine.spec_before_skybox(renderer) + s9,
        routine.spec_after_skybox(renderer, frame),
        5,
        31,
        35,
    );
}

/// The classes are drawn in order: in every frame each shaded draw of an
/// earlier class is recorded before each shaded draw of a later class, so
/// opaque precedes cutout, and cutout precedes blended.
pub proof fn law_forward_draw_order(
    routine: PbrRenderRoutine,
    renderer: Renderer,
    frame: OutputFrame,
    earlier: TransparencyType,
    later: TransparencyType,
)
    requires
        routine.well_formed(renderer),
        earlier.order() < later.order(),
    ensures
        forall|i: int, j: int|
            #![trigger
                routine.spec_frame_commands(renderer, frame)[i],
                routine.spec_frame_commands(renderer, frame)[j]
            ]
            0 <= i < routine.spec_frame_commands(renderer, frame).len() && 0 <= j
                < routine.spec_frame_commands(renderer, frame).len() && routine.spec_frame_commands(
                renderer,
                frame,
            )[i].spec_is_draw_of(DrawStage::Forward, earlier) && routine.spec_frame_commands(
                renderer,
                frame,
            )[j].spec_is_draw_of(DrawStage::Forward, later) ==> i < j,
{
    law_frame_order(routine, renderer, frame);
    let cmds = routine.spec_frame_commands(renderer, frame);
    assert forall|i: int, j: int|
        0 <= i < cmds.len() && 0 <= j < cmds.len() && (#[trigger] cmds[i]).spec_is_draw_of(
            DrawStage::Forward,
            earlier,
        ) && (#[trigger] cmds[j]).spec_is_draw_of(DrawStage::Forward, later) implies i < j by {
        assert(cmds[i].spec_rank() == draw_rank(DrawStage::Forward, earlier));
        assert(cmds[j].spec_rank() == draw_rank(DrawStage::Forward, later));
        if j < i {
            assert(cmds[j].spec_rank() <= cmds[i].spec_rank());
        }
    }
}

/// What the camera sees is drawn: for each of the three forward passes,
/// every frame holds a shaded draw of the pass's class as soon as one
/// object of the class is visible. On the host path that draw is the draw
/// of the object itself.
pub proof fn law_visible_object_is_drawn(
    routine: PbrRenderRoutine,
    renderer: Renderer,
    frame: OutputFrame,
    pass: ForwardPass,
    object: int,
)
    requires
        pass == routine.primary_passes.opaque_pass || pass == routine.primary_passes.cutout_pass
            || pass == routine.primary_passes.transparent_pass,
        visible_set(renderer.objects@, renderer.camera, pass.transparency).contains(object),
    ensures
        exists|i: int|
            0 <= i < routine.spec_frame_commands(renderer, frame).len() && (
            #[trigger] routine.spec_frame_commands(renderer, frame)[i]).spec_is_draw_of(
                DrawStage::Forward,
                pass.transparency,
            ) && (routine.spec_mode() == RendererMode::CpuPowered ==> routine.spec_frame_commands(
                renderer,
                frame,
            )[i] == (Command::Draw {
                stage: DrawStage::Forward,
                view: Viewpoint::Camera,
                transparency: pass.transparency,
                pipeline: pass.forward_pipeline,
                object: object as usize,
            })),
{
    let mode = routine.spec_mode();
    let passes = routine.primary_passes;
    let objects = renderer.objects@;
    assert(objects.len() == renderer.objects.len());
    lemma_visible_indices(objects, renderer.camera, pass.transparency);
    let indices = visible_indices(objects, renderer.camera, pass.transparency);
    let draws = PrimaryPasses::spec_pass_forward(pass, mode, renderer);
    let k = if mode == RendererMode::CpuPowered {
        choose|k: int| 0 <= k < indices.len() && indices[k] == object
    } else {
        0
    };
    assert(0 <= k < draws.len());
    let opaque = PrimaryPasses::spec_pass_forward(passes.opaque_pass, mode, renderer);
    let cutout = PrimaryPasses::spec_pass_forward(passes.cutout_pass, mode, renderer);
    let start = routine.spec_before_skybox(renderer).len() + passes.skybox_pass.spec_commands().len();
    let offset = if pass == passes.opaque_pass {
        start
    } else if pass == passes.cutout_pass {
        start + opaque.len()
    } else {
        start + opaque.len() + cutout.len()
    };
    let cmds = routine.spec_frame_commands(renderer, frame);
    assert(cmds[offset + k] == draws[k]);
}

/// On the device path the dispatches for the lights hold one for every
/// light and each class that casts shadows.
proof fn lemma_shadow_dispatch_present(
    lights: Seq<DirectionalLight>,
    objects: Seq<RenderObject>,
    index: int,
    transparency: TransparencyType,
)
    requires
        0 <= index < lights.len() <= usize::MAX,
        transparency != TransparencyType::Blend,
    ensures
        exists|j: int|
            0 <= j < shadow_dispatches(RendererMode::GpuPowered, lights, objects).len()
                && #[trigger] shadow_dispatches(RendererMode::GpuPowered, lights, objects)[j] == (
            Command::CullDispatch {
                view: Viewpoint::Light(index as usize),
                transparency,
                objects: objects.len() as usize,
            }),
    decreases lights.len(),
{
    let mode = RendererMode::GpuPowered;
    let all = shadow_dispatches(mode, lights, objects);
    let before = shadow_dispatches(mode, lights.drop_last(), objects);
    let wanted = Command::CullDispatch {
        view: Viewpoint::Light(index as usize),
        transparency,
        objects: objects.len() as usize,
    };
    if index == lights.len() - 1 {
        let j: int = if transparency == TransparencyType::Opaque {
            before.len() as int
        } else {
            before.len() as int + 1
        };
        assert(all[j] == wanted);
    } else {
        lemma_shadow_dispatch_present(lights.drop_last(), objects, index, transparency);
        let j = choose|j: int| 0 <= j < before.len() && #[trigger] before[j] == wanted;
        assert(all[j] == wanted);
    }
}

/// What an indirect draw needs in order to find its dispatch: the frame is
/// built on the device path, and the draw is for the camera or for one of
/// the lights and a class that casts shadows.
spec fn indirect_draw_has_source(c: Command, mode: RendererMode, lights: nat) -> bool {
    match c {
        Command::DrawIndirect { view, transparency, .. } => mode == RendererMode::GpuPowered
            && match view {
            Viewpoint::Camera => true,
            Viewpoint::Light(index) => index < lights && transparency != TransparencyType::Blend,
        },
        _ => true,
    }
}

/// Every indirect draw reads what a dispatch recorded earlier in the same
/// frame wrote: before each indirect draw the frame holds the dispatch for
/// the draw's view and class, over all objects of the scene.
pub proof fn law_dispatch_precedes_indirect_draw(
    routine: PbrRenderRoutine,
    renderer: Renderer,
    frame: OutputFrame,
    i: int,
)
    requires
        routine.well_formed(renderer),
        0 <= i < routine.spec_frame_commands(renderer, frame).len(),
        routine.spec_frame_commands(renderer, frame)[i] is DrawIndirect,
    ensures
        exists|j: int|
            0 <= j < i && #[trigger] routine.spec_frame_commands(renderer, frame)[j] == (
            Command::CullDispatch {
                view: routine.spec_frame_commands(renderer, frame)[i]->DrawIndirect_view,
                transparency: routine.spec_frame_commands(
                    renderer,
                    frame,
                )[i]->DrawIndirect_transparency,
                objects: renderer.objects@.len() as usize,
            }),
{
    let mode = routine.spec_mode();
    let passes = routine.primary_passes;
    let objects = renderer.objects@;
    let lights = renderer.lights@;
    assert(lights.len() == renderer.lights.len());
    let cmds = routine.spec_frame_commands(renderer, frame);
    let pred = |c: Command| indirect_draw_has_source(c, mode, lights.len());
    assert forall|index: usize| (#[trigger] light_dispatches(mode, index, objects)).all(pred) by {
        lemma_all_join(
            expected_dispatch(mode, Viewpoint::Light(index), objects, TransparencyType::Opaque),
            expected_dispatch(mode, Viewpoint::Light(index), objects, TransparencyType::Cutout),
            pred,
        );
    }
    assert forall|index: int| 0 <= index < lights.len() implies (
    #[trigger] passes.shadow_passes.spec_expected_light_commands(
        mode,
        index as usize,
        lights[index],
        objects,
    )).all(pred) by {
        let light = lights[index];
        let begin = seq![
            Command::BeginShadowPass { light: index as usize, shadow_map: light.shadow_map },
        ];
        let opaque = expected_draws(
            mode,
            DrawStage::Shadow,
            Viewpoint::Light(index as usize),
            light.frustum,
            objects,
            TransparencyType::Opaque,
            passes.shadow_passes.opaque_pipeline,
        );
        let cutout = expected_draws(
            mode,
            DrawStage::Shadow,
            Viewpoint::Light(index as usize),
            light.frustum,
            objects,
            TransparencyType::Cutout,
            passes.shadow_passes.cutout_pipeline,
        );
        let end = seq![Command::EndShadowPass { light: index as usize }];
        assert(begin.all(pred));
        assert(opaque.all(pred));
        assert(cutout.all(pred));
        assert(end.all(pred));
        lemma_all_join(begin, opaque, pred);
        lemma_all_join(begin + opaque, cutout, pred);
        lemma_all_join(begin + opaque + cutout, end, pred);
    }
    lemma_frame_all(routine, renderer, frame, pred);
    assert(pred(cmds[i]));
    law_frame_order(routine, renderer, frame);

    let view = cmds[i]->DrawIndirect_view;
    let transparency = cmds[i]->DrawIndirect_transparency;
    let wanted = Command::CullDispatch { view, transparency, objects: objects.len() as usize };
    let for_lights = shadow_dispatches(mode, lights, objects);
    let j: int = match view {
        Viewpoint::Camera => for_lights.len() as int + transparency.order(),
        Viewpoint::Light(index) => {
            lemma_shadow_dispatch_present(lights, objects, index as int, transparency);
            choose|j: int| 0 <= j < for_lights.len() && #[trigger] for_lights[j] == wanted
        },
    };
    let culls = passes.spec_cull_commands(mode, renderer);
    assert(0 <= j < culls.len());
    assert(culls[j] == wanted);
    assert(cmds[j] == culls[j]);
    if i <= j {
        assert(cmds[i].spec_rank() <= cmds[j].spec_rank());
    }
}

/// A command keeps the blended class out of depth-only recordings: it is
/// no depth-only draw of that class, and where it draws a single object
/// depth-only, the object is not of that class.
pub open spec fn keeps_blend_out_of_depth(c: Command, objects: Seq<RenderObject>) -> bool {
    &&& !c.spec_is_draw_of(DrawStage::Prepass, TransparencyType::Blend)
    &&& !c.spec_is_draw_of(DrawStage::Shadow, TransparencyType::Blend)
    &&& match c {
        Command::Draw { stage, object, .. } => stage != DrawStage::Forward ==> object
            < objects.len() && objects[object as int].transparency != TransparencyType::Blend,
        _ => true,
    }
}

/// The depth-only draws of a class that writes depth keep the blended class
/// out.
proof fn lemma_depth_draws_keep_blend_out(
    mode: RendererMode,
    stage: DrawStage,
    view: Viewpoint,
    frustum: Frustum,
    objects: Seq<RenderObject>,
    transparency: TransparencyType,
    pipeline: Pipeline,
)
    requires
        objects.len() <= usize::MAX,
        transparency != TransparencyType::Blend || stage == DrawStage::Forward,
    ensures
        expected_draws(mode, stage, view, frustum, objects, transparency, pipeline).all(
            |c: Command| keeps_blend_out_of_depth(c, objects),
        ),
{
    lemma_visible_indices(objects, frustum, transparency);
    let indices = visible_indices(objects, frustum, transparency);
    let draws = expected_draws(mode, stage, view, frustum, objects, transparency, pipeline);
    let pred = |c: Command| keeps_blend_out_of_depth(c, objects);
    assert forall|k: int| 0 <= k < draws.len() implies #[trigger] pred(draws[k]) by {
        if mode == RendererMode::CpuPowered {
            assert(visible_set(objects, frustum, transparency).contains(indices[k] as int));
        }
    }
}

/// The blended class never takes part in a depth-only recording: no frame
/// holds a prepass draw or a shadow draw of that class, and no object of
/// that class is drawn in the prepass or into a shadow map.
pub proof fn law_no_blend_in_depth_passes(
    routine: PbrRenderRoutine,
    renderer: Renderer,
    frame: OutputFrame,
)
    ensures
        forall|i: int|
            0 <= i < routine.spec_frame_commands(renderer, frame).len()
                ==> keeps_blend_out_of_depth(
                #[trigger] routine.spec_frame_commands(renderer, frame)[i],
                renderer.objects@,
            ),
{
    let mode = routine.spec_mode();
    let passes = routine.primary_passes;
    let objects = renderer.objects@;
    assert(objects.len() == renderer.objects.len());
    let pred = |c: Command| keeps_blend_out_of_depth(c, objects);
    assert forall|index: usize| (#[trigger] light_dispatches(mode, index, objects)).all(pred) by {
        lemma_all_join(
            expected_dispatch(mode, Viewpoint::Light(index), objects, TransparencyType::Opaque),
            expected_dispatch(mode, Viewpoint::Light(index), objects, TransparencyType::Cutout),
            pred,
        );
    }
    assert forall|index: usize, light: DirectionalLight|
        (#[trigger] passes.shadow_passes.spec_expected_light_commands(
            mode,
            index,
            light,
            objects,
        )).all(pred) by {
        let begin = seq![Command::BeginShadowPass { light: index, shadow_map: light.shadow_map }];
        let opaque = expected_draws(
            mode,
            DrawStage::Shadow,
            Viewpoint::Light(index),
            light.frustum,
            objects,
            TransparencyType::Opaque,
            passes.shadow_passes.opaque_pipeline,
        );
        let cutout = expected_draws(
            mode,
            DrawStage::Shadow,
            Viewpoint::Light(index),
            light.frustum,
            objects,
            TransparencyType::Cutout,
            passes.shadow_passes.cutout_pipeline,
        );
        let end = seq![Command::EndShadowPass { light: index }];
        lemma_depth_draws_keep_blend_out(
            mode,
            DrawStage::Shadow,
            Viewpoint::Light(index),
            light.frustum,
            objects,
            TransparencyType::Opaque,
            passes.shadow_passes.opaque_pipeline,
        );
        lemma_depth_draws_keep_blend_out(
            mode,
            DrawStage::Shadow,
            Viewpoint::Light(index),
            light.frustum,
            objects,
            TransparencyType::Cutout,
            passes.shadow_passes.cutout_pipeline,
        );
        assert(begin.all(pred));
        assert(end.all(pred));
        lemma_all_join(begin, opaque, pred);
        lemma_all_join(begin + opaque, cutout, pred);
        lemma_all_join(begin + opaque + cutout, end, pred);
    }
    if passes.opaque_pass.transparency != TransparencyType::Blend {
        lemma_depth_draws_keep_blend_out(
            mode,
            DrawStage::Prepass,
            Viewpoint::Camera,
            renderer.camera,
            objects,
            passes.opaque_pass.transparency,
            passes.opaque_pass.depth_pipeline,
        );
    }
    if passes.cutout_pass.transparency != TransparencyType::Blend {
        lemma_depth_draws_keep_blend_out(
            mode,
            DrawStage::Prepass,
            Viewpoint::Camera,
            renderer.camera,
            objects,
            passes.cutout_pass.transparency,
            passes.cutout_pass.depth_pipeline,
        );
    }
    lemma_depth_draws_keep_blend_out(
        mode,
        DrawStage::Forward,
        Viewpoint::Camera,
        renderer.camera,
        objects,
        passes.opaque_pass.transparency,
        passes.opaque_pass.forward_pipeline,
    );
    lemma_depth_draws_keep_blend_out(
        mode,
        DrawStage::Forward,
        Viewpoint::Camera,
        renderer.camera,
        objects,
        passes.cutout_pass.transparency,
        passes.cutout_pass.forward_pipeline,
    );
    lemma_depth_draws_keep_blend_out(
        mode,
        DrawStage::Forward,
        Viewpoint::Camera,
        renderer.camera,
        objects,
        passes.transparent_pass.transparency,
        passes.transparent_pass.forward_pipeline,
    );
    lemma_frame_all(routine, renderer, frame, pred);
    let cmds = routine.spec_frame_commands(renderer, frame);
    assert forall|i: int| 0 <= i < cmds.len() implies keeps_blend_out_of_depth(
        #[trigger] cmds[i],
        objects,
    ) by {
        assert(pred(cmds[i]));
    }
}

/// Resizing twice with the same options leaves the routine as resizing
/// once does: the same render targets, with the same size, sample count and
/// attachments, and the same passes.
pub proof fn law_resize_idempotent(
    routine: PbrRenderRoutine,
    renderer: Renderer,
    options: RenderTextureOptions,
)
    ensures
        routine.spec_resize(renderer, options).spec_resize(renderer, options)
            == routine.spec_resize(renderer, options),
        routine.spec_resize(renderer, options).render_textures == RenderTextures::spec_new(
            options,
        ),
{
}

/// A resize builds the passes anew exactly when the sample count changes:
/// then their revision changes, and a change of resolution alone leaves
/// both the passes and their revision as they were.
pub proof fn law_rebuild_on_sample_change_only(
    routine: PbrRenderRoutine,
    renderer: Renderer,
    options: RenderTextureOptions,
)
    ensures
        options.samples != routine.render_textures.samples <==> routine.spec_resize(
            renderer,
            options,
        ).primary_passes_revision != routine.primary_passes_revision,
        options.samples == routine.render_textures.samples ==> routine.spec_resize(
            renderer,
            options,
        ).primary_passes == routine.primary_passes,
        options.samples != routine.render_textures.samples ==> routine.spec_resize(
            renderer,
            options,
        ).primary_passes == PrimaryPasses::spec_new(
            renderer.mode,
            routine.interfaces.spec_texture_slots(),
            options.samples,
        ),
{
}

/// Without a background no frame holds a background draw.
pub proof fn law_no_background_no_skybox_draw(
    routine: PbrRenderRoutine,
    renderer: Renderer,
    frame: OutputFrame,
)
    requires
        routine.skybox_texture is None,
    ensures
        forall|i: int|
            0 <= i < routine.spec_synced().spec_frame_commands(renderer, frame).len() ==> !(
            #[trigger] routine.spec_synced().spec_frame_commands(renderer, frame)[i]).spec_is_skybox(),
{
    let synced = routine.spec_synced();
    lemma_no_skybox_outside_its_pass(synced, renderer, frame);
    let cmds = synced.spec_frame_commands(renderer, frame);
    assert(cmds =~= synced.spec_before_skybox(renderer) + synced.spec_after_skybox(renderer, frame));
    let pred = |c: Command| !c.spec_is_skybox();
    lemma_all_join(
        synced.spec_before_skybox(renderer),
        synced.spec_after_skybox(renderer, frame),
        pred,
    );
    assert forall|i: int| 0 <= i < cmds.len() implies !(#[trigger] cmds[i]).spec_is_skybox() by {
        assert(pred(cmds[i]));
    }
}

/// What a frame records before and after the background holds no
/// background draw.
proof fn lemma_no_skybox_outside_its_pass(
    routine: PbrRenderRoutine,
    renderer: Renderer,
    frame: OutputFrame,
)
    ensures
        routine.spec_before_skybox(renderer).all(|c: Command| !c.spec_is_skybox()),
        routine.spec_after_skybox(renderer, frame).all(|c: Command| !c.spec_is_skybox()),
{
    let without = PbrRenderRoutine {
        primary_passes: routine.primary_passes.spec_with_skybox(None),
        ..routine
    };
    let mode = routine.spec_mode();
    let passes = routine.primary_passes;
    let objects = renderer.objects@;
    let pred = |c: Command| !c.spec_is_skybox();
    assert forall|index: usize| (#[trigger] light_dispatches(mode, index, objects)).all(pred) by {
        lemma_all_join(
            expected_dispatch(mode, Viewpoint::Light(index), objects, TransparencyType::Opaque),
            expected_dispatch(mode, Viewpoint::Light(index), objects, TransparencyType::Cutout),
            pred,
        );
    }
    assert forall|index: usize, light: DirectionalLight|
        (#[trigger] passes.shadow_passes.spec_expected_light_commands(
            mode,
            index,
            light,
            objects,
        )).all(pred) by {
        let begin = seq![Command::BeginShadowPass { light: index, shadow_map: light.shadow_map }];
        let opaque = expected_draws(
            mode,
            DrawStage::Shadow,
            Viewpoint::Light(index),
            light.frustum,
            objects,
            TransparencyType::Opaque,
            passes.shadow_passes.opaque_pipeline,
        );
        let cutout = expected_draws(
            mode,
            DrawStage::Shadow,
            Viewpoint::Light(index),
            light.frustum,
            objects,
            TransparencyType::Cutout,
            passes.shadow_passes.cutout_pipeline,
        );
        let end = seq![Command::EndShadowPass { light: index }];
        assert(begin.all(pred));
        assert(end.all(pred));
        lemma_all_join(begin, opaque, pred);
        lemma_all_join(begin + opaque, cutout, pred);
        lemma_all_join(begin + opaque + cutout, end, pred);
    }
    lemma_frame_all(without, renderer, frame, pred);
    let cmds = without.spec_frame_commands(renderer, frame);
    let before = routine.spec_before_skybox(renderer);
    let after = routine.spec_after_skybox(renderer, frame);
    assert(before == without.spec_before_skybox(renderer));
    assert(after == without.spec_after_skybox(renderer, frame));
    assert(cmds =~= before + after);
    assert forall|i: int| 0 <= i < before.len() implies #[trigger] pred(before[i]) by {
        assert(cmds[i] == before[i]);
        assert(pred(cmds[i]));
    }
    assert forall|i: int| 0 <= i < after.len() implies #[trigger] pred(after[i]) by {
        assert(cmds[before.len() + i] == after[i]);
        assert(pred(cmds[before.len() + i]));
    }
}

/// A background adds its one draw to a frame and changes nothing else: the
/// frame with a background holds exactly one background draw, recorded
/// after the depth prepass and before the shaded draws, and without that
/// draw it is the frame that is recorded when no background is set.
pub proof fn law_background_adds_one_draw(
    routine: PbrRenderRoutine,
    renderer: Renderer,
    frame: OutputFrame,
)
    requires
        routine.primary_passes.skybox_pass.current_skybox is Some,
    ensures
        ({
            let without = PbrRenderRoutine {
                primary_passes: routine.primary_passes.spec_with_skybox(None),
                ..routine
            };
            let with = routine.spec_frame_commands(renderer, frame);
            let at = routine.spec_before_skybox(renderer).len() as int;
            &&& 0 <= at < with.len()
            &&& with[at] == (Command::DrawSkybox {
                pipeline: routine.primary_passes.skybox_pass.pipeline,
                texture: routine.primary_passes.skybox_pass.current_skybox->0,
            })
            &&& forall|i: int| 0 <= i < with.len() && i != at ==> !(#[trigger] with[i]).spec_is_skybox()
            &&& with.remove(at) == without.spec_frame_commands(renderer, frame)
        }),
{
    let without = PbrRenderRoutine {
        primary_passes: routine.primary_passes.spec_with_skybox(None),
        ..routine
    };
    lemma_no_skybox_outside_its_pass(routine, renderer, frame);
    let before = routine.spec_before_skybox(renderer);
    let after = routine.spec_after_skybox(renderer, frame);
    let with = routine.spec_frame_commands(renderer, frame);
    let at = before.len() as int;
    let pred = |c: Command| !c.spec_is_skybox();
    assert(before == without.spec_before_skybox(renderer));
    assert(after == without.spec_after_skybox(renderer, frame));
    assert(with.remove(at) =~= without.spec_frame_commands(renderer, frame));
    assert forall|i: int| 0 <= i < with.len() && i != at implies !(#[trigger] with[i]).spec_is_skybox() by {
        if i < at {
            assert(with[i] == before[i]);
            assert(pred(before[i]));
        } else {
            assert(with[i] == after[i - at - 1]);
            assert(pred(after[i - at - 1]));
        }
    }
}

} // verus!
