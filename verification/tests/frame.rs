use rend3_pbr::commands::BlitSource;
use rend3_pbr::commands::Command;
use rend3_pbr::commands::CommandBuffer;
use rend3_pbr::commands::CommandEncoder;
use rend3_pbr::commands::DrawStage;
use rend3_pbr::commands::FrameStage;
use rend3_pbr::commands::OutputFrame;
use rend3_pbr::commands::Viewpoint;
use rend3_pbr::culling::CulledObjects;
use rend3_pbr::directional::DirectionalShadowPassCullShadowsArgs;
use rend3_pbr::directional::DirectionalShadowPassDrawCulledShadowsArgs;
use rend3_pbr::forward::ForwardPassPrepassArgs;
use rend3_pbr::frustum::BoundingSphere;
use rend3_pbr::frustum::Frustum;
use rend3_pbr::frustum::Plane;
use rend3_pbr::scene::DirectionalLight;
use rend3_pbr::scene::RenderObject;
use rend3_pbr::scene::Renderer;
use rend3_pbr::skybox::SkyboxPass;
use rend3_pbr::skybox::UpdateSkyboxArgs;
use rend3_pbr::types::ModeData;
use rend3_pbr::types::RenderTextureOptions;
use rend3_pbr::types::RendererMode;
use rend3_pbr::types::SampleCount;
use rend3_pbr::types::TextureHandle;
use rend3_pbr::types::TransparencyType;
use rend3_pbr::PbrRenderRoutine;

fn slab(low: i64, high: i64) -> Frustum {
    Frustum {
        planes: vec![Plane { a: 1, b: 0, c: 0, d: -low }, Plane { a: -1, b: 0, c: 0, d: high }],
    }
}

fn object(x: i32, transparency: TransparencyType) -> RenderObject {
    RenderObject { mesh: 1, material: 2, bounds: BoundingSphere { x, y: 0, z: 0, radius: 1 }, transparency }
}

fn scene(mode: RendererMode) -> Renderer {
    Renderer {
        mode,
        max_texture_count: 32,
        objects: vec![
            object(0, TransparencyType::Blend),
            object(1, TransparencyType::Cutout),
            object(2, TransparencyType::Opaque),
            object(50, TransparencyType::Opaque),
            object(3, TransparencyType::Opaque),
            object(4, TransparencyType::Blend),
            object(60, TransparencyType::Cutout),
        ],
        lights: vec![
            DirectionalLight { frustum: slab(40, 70), shadow_map: 11 },
            DirectionalLight { frustum: slab(-100, 100), shadow_map: 12 },
        ],
        camera: slab(-10, 10),
    }
}

fn one_frame(routine: &mut PbrRenderRoutine, renderer: &Renderer, view: usize) -> Vec<Command> {
    let mut encoders: Vec<CommandBuffer> = Vec::new();
    routine.render(renderer, &mut encoders, &OutputFrame { view });
    assert_eq!(encoders.len(), 1);
    encoders.pop().unwrap().commands
}

fn options(samples: SampleCount) -> RenderTextureOptions {
    RenderTextureOptions { width: 640, height: 480, samples }
}

fn positions(commands: &Vec<Command>, stage: DrawStage, class: TransparencyType) -> Vec<usize> {
    let mut found = Vec::new();
    for (i, c) in commands.iter().enumerate() {
        if c.is_draw_of(stage, class) {
            found.push(i);
        }
    }
    found
}

#[test]
fn host_frame_records_every_stage_in_order() {
    let renderer = scene(RendererMode::CpuPowered);
    let mut routine = PbrRenderRoutine::new(&renderer, options(SampleCount::One));
    routine.set_background_texture(Some(TextureHandle { index: 9 }));
    let commands = one_frame(&mut routine, &renderer, 77);
    let passes = routine.primary_passes;
    let shadow = |light: usize, transparency, pipeline, object| Command::Draw {
        stage: DrawStage::Shadow,
        view: Viewpoint::Light(light),
        transparency,
        pipeline,
        object,
    };
    let camera = |stage, transparency, pipeline, object| Command::Draw {
        stage,
        view: Viewpoint::Camera,
        transparency,
        pipeline,
        object,
    };
    let so = passes.shadow_passes.opaque_pipeline;
    let sc = passes.shadow_passes.cutout_pipeline;
    let expected = vec![
        Command::BeginShadowPass { light: 0, shadow_map: 11 },
        shadow(0, TransparencyType::Opaque, so, 3),
        shadow(0, TransparencyType::Cutout, sc, 6),
        Command::EndShadowPass { light: 0 },
        Command::BeginShadowPass { light: 1, shadow_map: 12 },
        shadow(1, TransparencyType::Opaque, so, 2),
        shadow(1, TransparencyType::Opaque, so, 3),
        shadow(1, TransparencyType::Opaque, so, 4),
        shadow(1, TransparencyType::Cutout, sc, 1),
        shadow(1, TransparencyType::Cutout, sc, 6),
        Command::EndShadowPass { light: 1 },
        Command::BeginPrimaryPass { resolve: false },
        camera(DrawStage::Prepass, TransparencyType::Opaque, passes.opaque_pass.depth_pipeline, 2),
        camera(DrawStage::Prepass, TransparencyType::Opaque, passes.opaque_pass.depth_pipeline, 4),
        camera(DrawStage::Prepass, TransparencyType::Cutout, passes.cutout_pass.depth_pipeline, 1),
        Command::DrawSkybox { pipeline: passes.skybox_pass.pipeline, texture: TextureHandle { index: 9 } },
        camera(DrawStage::Forward, TransparencyType::Opaque, passes.opaque_pass.forward_pipeline, 2),
        camera(DrawStage::Forward, TransparencyType::Opaque, passes.opaque_pass.forward_pipeline, 4),
        camera(DrawStage::Forward, TransparencyType::Cutout, passes.cutout_pass.forward_pipeline, 1),
        camera(DrawStage::Forward, TransparencyType::Blend, passes.transparent_pass.forward_pipeline, 0),
        camera(DrawStage::Forward, TransparencyType::Blend, passes.transparent_pass.forward_pipeline, 4 + 1),
        Command::EndPrimaryPass,
        Command::Blit { pipeline: routine.tonemapping_pass.pipeline, source: BlitSource::Color, target: 77 },
    ];
    assert_eq!(commands, expected);
}

#[test]
fn device_frame_dispatches_before_it_draws() {
    let renderer = scene(RendererMode::GpuPowered);
    let mut routine = PbrRenderRoutine::new(&renderer, options(SampleCount::Four));
    let commands = one_frame(&mut routine, &renderer, 3);
    let passes = routine.primary_passes;
    let dispatch = |view, transparency| Command::CullDispatch { view, transparency, objects: 7 };
    let indirect = |stage, view, transparency, pipeline| Command::DrawIndirect { stage, view, transparency, pipeline };
    let so = passes.shadow_passes.opaque_pipeline;
    let sc = passes.shadow_passes.cutout_pipeline;
    let expected = vec![
        dispatch(Viewpoint::Light(0), TransparencyType::Opaque),
        dispatch(Viewpoint::Light(0), TransparencyType::Cutout),
        dispatch(Viewpoint::Light(1), TransparencyType::Opaque),
        dispatch(Viewpoint::Light(1), TransparencyType::Cutout),
        dispatch(Viewpoint::Camera, TransparencyType::Opaque),
        dispatch(Viewpoint::Camera, TransparencyType::Cutout),
        dispatch(Viewpoint::Camera, TransparencyType::Blend),
        Command::BeginShadowPass { light: 0, shadow_map: 11 },
        indirect(DrawStage::Shadow, Viewpoint::Light(0), TransparencyType::Opaque, so),
        indirect(DrawStage::Shadow, Viewpoint::Light(0), TransparencyType::Cutout, sc),
        Command::EndShadowPass { light: 0 },
        Command::BeginShadowPass { light: 1, shadow_map: 12 },
        indirect(DrawStage::Shadow, Viewpoint::Light(1), TransparencyType::Opaque, so),
        indirect(DrawStage::Shadow, Viewpoint::Light(1), TransparencyType::Cutout, sc),
        Command::EndShadowPass { light: 1 },
        Command::BeginPrimaryPass { resolve: true },
        indirect(DrawStage::Prepass, Viewpoint::Camera, TransparencyType::Opaque, passes.opaque_pass.depth_pipeline),
        indirect(DrawStage::Prepass, Viewpoint::Camera, TransparencyType::Cutout, passes.cutout_pass.depth_pipeline),
        indirect(DrawStage::Forward, Viewpoint::Camera, TransparencyType::Opaque, passes.opaque_pass.forward_pipeline),
        indirect(DrawStage::Forward, Viewpoint::Camera, TransparencyType::Cutout, passes.cutout_pass.forward_pipeline),
        indirect(DrawStage::Forward, Viewpoint::Camera, TransparencyType::Blend, passes.transparent_pass.forward_pipeline),
        Command::EndPrimaryPass,
        Command::Blit { pipeline: routine.tonemapping_pass.pipeline, source: BlitSource::Resolve, target: 3 },
    ];
    assert_eq!(commands, expected);
}

#[test]
fn opaque_draws_precede_cutout_draws_precede_blended_draws() {
    for mode in [RendererMode::CpuPowered, RendererMode::GpuPowered] {
        let renderer = scene(mode);
        let mut routine = PbrRenderRoutine::new(&renderer, options(SampleCount::One));
        let commands = one_frame(&mut routine, &renderer, 0);
        let opaque = positions(&commands, DrawStage::Forward, TransparencyType::Opaque);
        let cutout = positions(&commands, DrawStage::Forward, TransparencyType::Cutout);
        let blend = positions(&commands, DrawStage::Forward, TransparencyType::Blend);
        assert!(!opaque.is_empty() && !cutout.is_empty() && !blend.is_empty());
        assert!(opaque.iter().max().unwrap() < cutout.iter().min().unwrap());
        assert!(cutout.iter().max().unwrap() < blend.iter().min().unwrap());
    }
}

#[test]
fn blended_objects_are_in_no_depth_only_recording() {
    for mode in [RendererMode::CpuPowered, RendererMode::GpuPowered] {
        let renderer = scene(mode);
        let mut routine = PbrRenderRoutine::new(&renderer, options(SampleCount::One));
        let commands = one_frame(&mut routine, &renderer, 0);
        assert!(positions(&commands, DrawStage::Prepass, TransparencyType::Blend).is_empty());
        assert!(positions(&commands, DrawStage::Shadow, TransparencyType::Blend).is_empty());
        let mut depth_draws = 0;
        for c in &commands {
            if let Command::Draw { stage, object, .. } = c {
                if *stage != DrawStage::Forward {
                    depth_draws += 1;
                    assert_ne!(renderer.objects[*object].transparency, TransparencyType::Blend);
                }
            }
        }
        assert_eq!(depth_draws > 0, mode == RendererMode::CpuPowered);
    }
}

#[test]
fn prepass_of_the_blended_pass_records_nothing() {
    let renderer = scene(RendererMode::CpuPowered);
    let routine = PbrRenderRoutine::new(&renderer, options(SampleCount::One));
    let culled = CulledObjects { view: Viewpoint::Camera, calls: ModeData::Cpu(vec![0, 5]) };
    let mut encoder = CommandEncoder::new();
    routine.primary_passes.transparent_pass.prepass(&mut encoder, ForwardPassPrepassArgs { culled_objects: &culled });
    assert!(encoder.commands.is_empty());
    routine.primary_passes.opaque_pass.prepass(&mut encoder, ForwardPassPrepassArgs { culled_objects: &culled });
    assert_eq!(encoder.commands.len(), 2);
    assert!(encoder.commands.iter().all(|c| c.is_draw(DrawStage::Prepass)));
}

#[test]
fn no_background_no_skybox_draw() {
    for mode in [RendererMode::CpuPowered, RendererMode::GpuPowered] {
        let renderer = scene(mode);
        let mut plain = PbrRenderRoutine::new(&renderer, options(SampleCount::One));
        let without = one_frame(&mut plain, &renderer, 4);
        assert!(without.iter().all(|c| !c.is_skybox()));

        let mut lit = PbrRenderRoutine::new(&renderer, options(SampleCount::One));
        lit.set_background_texture(Some(TextureHandle { index: 1 }));
        let with = one_frame(&mut lit, &renderer, 4);
        let at: Vec<usize> = (0..with.len()).filter(|i| with[*i].is_skybox()).collect();
        assert_eq!(at.len(), 1);
        let mut rest = with.clone();
        rest.remove(at[0]);
        assert_eq!(rest, without);
        let last_prepass = (0..with.len()).filter(|i| with[*i].is_draw(DrawStage::Prepass)).max().unwrap();
        let first_forward = (0..with.len()).filter(|i| with[*i].is_draw(DrawStage::Forward)).min().unwrap();
        assert!(last_prepass < at[0] && at[0] < first_forward);
    }
}

#[test]
fn clearing_the_background_stops_the_skybox_draw() {
    let renderer = scene(RendererMode::CpuPowered);
    let mut routine = PbrRenderRoutine::new(&renderer, options(SampleCount::One));
    routine.set_background_texture(Some(TextureHandle { index: 1 }));
    assert!(one_frame(&mut routine, &renderer, 0).iter().any(|c| c.is_skybox()));
    routine.set_background_texture(None);
    assert!(one_frame(&mut routine, &renderer, 0).iter().all(|c| !c.is_skybox()));
    assert_eq!(routine.primary_passes.skybox_pass.current_skybox, None);
}

#[test]
fn skybox_pass_draws_what_it_was_given() {
    let renderer = scene(RendererMode::CpuPowered);
    let routine = PbrRenderRoutine::new(&renderer, options(SampleCount::One));
    let mut pass = SkyboxPass::new(routine.primary_passes.skybox_pass.pipeline);
    let mut encoder = CommandEncoder::new();
    pass.draw_skybox(&mut encoder);
    assert!(encoder.commands.is_empty());
    pass.update_skybox(UpdateSkyboxArgs { new_skybox_handle: Some(TextureHandle { index: 6 }) });
    pass.draw_skybox(&mut encoder);
    assert_eq!(
        encoder.commands,
        vec![Command::DrawSkybox { pipeline: pass.pipeline, texture: TextureHandle { index: 6 } }]
    );
}

#[test]
fn one_opaque_cube_no_lights_no_background() {
    let renderer = Renderer {
        mode: RendererMode::CpuPowered,
        max_texture_count: 0,
        objects: vec![RenderObject {
            mesh: 0,
            material: 0,
            bounds: BoundingSphere { x: 0, y: 0, z: 0, radius: 100 },
            transparency: TransparencyType::Opaque,
        }],
        lights: Vec::new(),
        camera: slab(-10, 10),
    };
    let mut routine = PbrRenderRoutine::new(&renderer, options(SampleCount::One));
    let commands = one_frame(&mut routine, &renderer, 1);
    let passes = routine.primary_passes;
    assert!(commands.iter().all(|c| !c.is_draw(DrawStage::Shadow)));
    assert_eq!(
        commands,
        vec![
            Command::BeginPrimaryPass { resolve: false },
            Command::Draw {
                stage: DrawStage::Prepass,
                view: Viewpoint::Camera,
                transparency: TransparencyType::Opaque,
                pipeline: passes.opaque_pass.depth_pipeline,
                object: 0,
            },
            Command::Draw {
                stage: DrawStage::Forward,
                view: Viewpoint::Camera,
                transparency: TransparencyType::Opaque,
                pipeline: passes.opaque_pass.forward_pipeline,
                object: 0,
            },
            Command::EndPrimaryPass,
            Command::Blit { pipeline: routine.tonemapping_pass.pipeline, source: BlitSource::Color, target: 1 },
        ]
    );
}

#[test]
fn render_appends_exactly_one_sequence() {
    let renderer = scene(RendererMode::CpuPowered);
    let mut routine = PbrRenderRoutine::new(&renderer, options(SampleCount::One));
    let mut encoders: Vec<CommandBuffer> = Vec::new();
    encoders.push(CommandEncoder::new().finish());
    routine.render(&renderer, &mut encoders, &OutputFrame { view: 0 });
    assert_eq!(encoders.len(), 2);
    assert!(encoders[0].commands.is_empty());
    routine.render(&renderer, &mut encoders, &OutputFrame { view: 0 });
    assert_eq!(encoders.len(), 3);
    assert_eq!(encoders[1].commands, encoders[2].commands);
    assert!(matches!(encoders[2].commands.last(), Some(Command::Blit { .. })));
}

#[test]
fn empty_scene_still_opens_composites_and_closes() {
    let renderer = Renderer {
        mode: RendererMode::GpuPowered,
        max_texture_count: 1,
        objects: Vec::new(),
        lights: Vec::new(),
        camera: Frustum { planes: Vec::new() },
    };
    let mut routine = PbrRenderRoutine::new(&renderer, options(SampleCount::One));
    let commands = one_frame(&mut routine, &renderer, 0);
    assert_eq!(commands.len(), 3 + 2 + 3 + 3);
    assert!(matches!(commands[0], Command::CullDispatch { view: Viewpoint::Camera, objects: 0, .. }));
    assert_eq!(commands[3], Command::BeginPrimaryPass { resolve: false });
}

#[test]
fn shadow_pass_culls_each_light_against_its_own_volume() {
    let renderer = scene(RendererMode::CpuPowered);
    let routine = PbrRenderRoutine::new(&renderer, options(SampleCount::One));
    let mut encoder = CommandEncoder::new();
    let culled = routine.primary_passes.shadow_passes.cull_shadows(
        &mut encoder,
        DirectionalShadowPassCullShadowsArgs {
            culler: routine.culler(),
            lights: &renderer.lights,
            objects: &renderer.objects,
        },
    );
    assert!(encoder.commands.is_empty());
    assert_eq!(culled.len(), 2);
    assert_eq!((culled[0].light, culled[0].shadow_map), (0, 11));
    assert_eq!((culled[1].light, culled[1].shadow_map), (1, 12));
    assert!(matches!(culled[0].opaque.calls, ModeData::Cpu(ref v) if *v == vec![3]));
    assert!(matches!(culled[0].cutout.calls, ModeData::Cpu(ref v) if *v == vec![6]));
    assert!(matches!(culled[1].opaque.calls, ModeData::Cpu(ref v) if *v == vec![2, 3, 4]));
    assert!(matches!(culled[1].cutout.calls, ModeData::Cpu(ref v) if *v == vec![1, 6]));
    assert_eq!(culled[1].opaque.view, Viewpoint::Light(1));

    routine.primary_passes.shadow_passes.draw_culled_shadows(
        &mut encoder,
        DirectionalShadowPassDrawCulledShadowsArgs { culled_lights: &culled },
    );
    assert_eq!(encoder.commands.len(), 2 + 2 + 2 + 5);
    assert_eq!(encoder.commands[0], Command::BeginShadowPass { light: 0, shadow_map: 11 });
    assert_eq!(encoder.commands[3], Command::EndShadowPass { light: 0 });
}

#[test]
fn every_frame_follows_the_stage_order() {
    for mode in [RendererMode::CpuPowered, RendererMode::GpuPowered] {
        for samples in [SampleCount::One, SampleCount::Four] {
            let renderer = scene(mode);
            let mut routine = PbrRenderRoutine::new(&renderer, options(samples));
            routine.set_background_texture(Some(TextureHandle { index: 0 }));
            let commands = one_frame(&mut routine, &renderer, 0);
            for pair in commands.windows(2) {
                assert!(pair[0].rank() <= pair[1].rank());
                assert!(pair[0].frame_stage().position() <= pair[1].frame_stage().position());
            }
        }
    }
}

#[test]
fn ranks_of_commands() {
    let renderer = scene(RendererMode::CpuPowered);
    let routine = PbrRenderRoutine::new(&renderer, options(SampleCount::One));
    let pipeline = routine.primary_passes.opaque_pass.forward_pipeline;
    let dispatch = |view, transparency| Command::CullDispatch { view, transparency, objects: 0 };
    let draw = |stage, transparency| Command::Draw { stage, view: Viewpoint::Camera, transparency, pipeline, object: 0 };
    let indirect = |stage, transparency| Command::DrawIndirect { stage, view: Viewpoint::Camera, transparency, pipeline };
    assert_eq!(dispatch(Viewpoint::Light(4), TransparencyType::Cutout).rank(), 5);
    assert_eq!(dispatch(Viewpoint::Camera, TransparencyType::Opaque).rank(), 11);
    assert_eq!(dispatch(Viewpoint::Camera, TransparencyType::Cutout).rank(), 12);
    assert_eq!(dispatch(Viewpoint::Camera, TransparencyType::Blend).rank(), 13);
    assert_eq!(Command::BeginShadowPass { light: 0, shadow_map: 0 }.rank(), 15);
    assert_eq!(draw(DrawStage::Shadow, TransparencyType::Cutout).rank(), 15);
    assert_eq!(indirect(DrawStage::Shadow, TransparencyType::Opaque).rank(), 15);
    assert_eq!(Command::EndShadowPass { light: 0 }.rank(), 15);
    assert_eq!(Command::BeginPrimaryPass { resolve: true }.rank(), 20);
    assert_eq!(draw(DrawStage::Prepass, TransparencyType::Opaque).rank(), 21);
    assert_eq!(indirect(DrawStage::Prepass, TransparencyType::Cutout).rank(), 22);
    assert_eq!(Command::DrawSkybox { pipeline, texture: TextureHandle { index: 0 } }.rank(), 25);
    assert_eq!(draw(DrawStage::Forward, TransparencyType::Opaque).rank(), 31);
    assert_eq!(draw(DrawStage::Forward, TransparencyType::Cutout).rank(), 32);
    assert_eq!(indirect(DrawStage::Forward, TransparencyType::Blend).rank(), 33);
    assert_eq!(Command::EndPrimaryPass.rank(), 34);
    assert_eq!(Command::Blit { pipeline, source: BlitSource::Color, target: 0 }.rank(), 35);
}

#[test]
fn stages_are_numbered_in_frame_order() {
    let stages = [
        FrameStage::ResourceSync,
        FrameStage::CullShadow,
        FrameStage::CullPrimary,
        FrameStage::DrawShadow,
        FrameStage::DrawPrepass,
        FrameStage::DrawSkybox,
        FrameStage::DrawForward,
        FrameStage::Tonemap,
        FrameStage::Submit,
    ];
    for (i, stage) in stages.iter().enumerate() {
        assert_eq!(stage.position() as usize, i);
    }
    assert_eq!(TransparencyType::Opaque.position(), 0);
    assert_eq!(TransparencyType::Cutout.position(), 1);
    assert_eq!(TransparencyType::Blend.position(), 2);
}

#[test]
fn every_visible_object_is_drawn_once_per_stage_on_the_host() {
    let renderer = scene(RendererMode::CpuPowered);
    let mut routine = PbrRenderRoutine::new(&renderer, options(SampleCount::One));
    let commands = one_frame(&mut routine, &renderer, 0);
    for (index, object) in renderer.objects.iter().enumerate() {
        let seen = renderer.camera.contains_sphere(&object.bounds);
        let forward = commands
            .iter()
            .filter(|c| matches!(c, Command::Draw { stage: DrawStage::Forward, object, .. } if *object == index))
            .count();
        let prepass = commands
            .iter()
            .filter(|c| matches!(c, Command::Draw { stage: DrawStage::Prepass, object, .. } if *object == index))
            .count();
        assert_eq!(forward, if seen { 1 } else { 0 });
        assert_eq!(prepass, if seen && object.transparency != TransparencyType::Blend { 1 } else { 0 });
    }
}

#[test]
fn every_indirect_draw_follows_its_dispatch() {
    let renderer = scene(RendererMode::GpuPowered);
    let mut routine = PbrRenderRoutine::new(&renderer, options(SampleCount::One));
    let commands = one_frame(&mut routine, &renderer, 0);
    let mut indirect = 0;
    for (i, c) in commands.iter().enumerate() {
        if let Command::DrawIndirect { view, transparency, .. } = c {
            indirect += 1;
            let wanted = Command::CullDispatch { view: *view, transparency: *transparency, objects: 7 };
            assert!(commands[..i].contains(&wanted));
        }
    }
    assert_eq!(indirect, 4 + 2 + 3);
}
