use rend3_pbr::interfaces::BindGroupLayoutEntry;
use rend3_pbr::interfaces::BindingType;
use rend3_pbr::interfaces::ShaderInterfaces;
use rend3_pbr::interfaces::ShaderStage;
use rend3_pbr::interfaces::PER_OBJECT_DATA_SIZE;
use rend3_pbr::pipelines::build_depth_pass_shader;
use rend3_pbr::pipelines::build_forward_pass_shader;
use rend3_pbr::pipelines::build_skybox_shader;
use rend3_pbr::pipelines::BlendMode;
use rend3_pbr::pipelines::BuildDepthPassShaderArgs;
use rend3_pbr::pipelines::BuildForwardPassShaderArgs;
use rend3_pbr::pipelines::BuildSkyboxShaderArgs;
use rend3_pbr::pipelines::DepthPassType;
use rend3_pbr::pipelines::FaceCull;
use rend3_pbr::pipelines::PassType;
use rend3_pbr::commands::BlitSource;
use rend3_pbr::frustum::Frustum;
use rend3_pbr::samplers::Sampler;
use rend3_pbr::samplers::Samplers;
use rend3_pbr::scene::Renderer;
use rend3_pbr::tonemapping::TonemappingPass;
use rend3_pbr::tonemapping::TonemappingPassNewArgs;
use rend3_pbr::types::ModeData;
use rend3_pbr::types::RenderTextureOptions;
use rend3_pbr::types::RendererMode;
use rend3_pbr::types::SampleCount;
use rend3_pbr::types::TextureHandle;
use rend3_pbr::types::TransparencyType;
use rend3_pbr::utils::RenderTextures;
use rend3_pbr::utils::Texture;
use rend3_pbr::utils::TextureFormat;
use rend3_pbr::PbrRenderRoutine;
use rend3_pbr::PrimaryPasses;

fn renderer(mode: RendererMode) -> Renderer {
    Renderer {
        mode,
        max_texture_count: 64,
        objects: Vec::new(),
        lights: Vec::new(),
        camera: Frustum { planes: Vec::new() },
    }
}

fn options(width: u32, height: u32, samples: SampleCount) -> RenderTextureOptions {
    RenderTextureOptions { width, height, samples }
}

#[test]
fn sample_counts() {
    assert_eq!(SampleCount::One.count(), 1);
    assert_eq!(SampleCount::Four.count(), 4);
    assert!(!SampleCount::One.needs_resolve());
    assert!(SampleCount::Four.needs_resolve());
}

#[test]
fn classes_that_write_depth() {
    assert!(TransparencyType::Opaque.writes_depth());
    assert!(TransparencyType::Cutout.writes_depth());
    assert!(!TransparencyType::Blend.writes_depth());
}

#[test]
fn sampler_layout_has_a_filtering_and_a_plain_sampler() {
    let interfaces = ShaderInterfaces::new(ModeData::Cpu(()));
    assert_eq!(interfaces.samplers_bgl.label, "sampler bgl");
    assert_eq!(
        interfaces.samplers_bgl.entries,
        vec![
            BindGroupLayoutEntry {
                binding: 0,
                visibility: ShaderStage::Fragment,
                ty: BindingType::Sampler { filtering: true, comparison: false },
                count: None,
            },
            BindGroupLayoutEntry {
                binding: 1,
                visibility: ShaderStage::Fragment,
                ty: BindingType::Sampler { filtering: false, comparison: false },
                count: None,
            },
        ]
    );
}

#[test]
fn culled_object_layout_is_one_storage_buffer() {
    let interfaces = ShaderInterfaces::new(ModeData::Gpu(8));
    assert_eq!(PER_OBJECT_DATA_SIZE, 192);
    assert_eq!(interfaces.culled_object_bgl.label, "culled object bgl");
    assert_eq!(
        interfaces.culled_object_bgl.entries,
        vec![BindGroupLayoutEntry {
            binding: 0,
            visibility: ShaderStage::Fragment,
            ty: BindingType::StorageBuffer { min_size: 192 },
            count: None,
        }]
    );
    assert_eq!(
        interfaces.uniform_bgl.entries,
        vec![BindGroupLayoutEntry {
            binding: 0,
            visibility: ShaderStage::VertexFragment,
            ty: BindingType::UniformBuffer,
            count: None,
        }]
    );
}

#[test]
fn host_layouts_bind_textures_per_material() {
    let interfaces = ShaderInterfaces::new(ModeData::Cpu(()));
    assert_eq!(interfaces.material_bgl.mode(), RendererMode::CpuPowered);
    assert_eq!(interfaces.texture_bgl.mode(), RendererMode::CpuPowered);
    assert_eq!(interfaces.texture_slots(), 0);
    match &interfaces.material_bgl {
        ModeData::Cpu(layout) => {
            assert_eq!(layout.label, "material bgl");
            assert_eq!(layout.entries.len(), 11);
            for (i, entry) in layout.entries.iter().enumerate() {
                assert_eq!(entry.binding as usize, i);
                assert_eq!(entry.visibility, ShaderStage::Fragment);
                assert_eq!(entry.count, None);
                if i < 10 {
                    assert_eq!(entry.ty, BindingType::Texture);
                } else {
                    assert_eq!(entry.ty, BindingType::UniformBuffer);
                }
            }
        }
        ModeData::Gpu(_) => panic!("built for the host path"),
    }
    match &interfaces.texture_bgl {
        ModeData::Cpu(layout) => assert!(layout.entries.is_empty()),
        ModeData::Gpu(_) => panic!("built for the host path"),
    }
}

#[test]
fn device_layouts_bind_one_texture_array() {
    let interfaces = ShaderInterfaces::new(ModeData::Gpu(128));
    assert_eq!(interfaces.material_bgl.mode(), RendererMode::GpuPowered);
    assert_eq!(interfaces.texture_slots(), 128);
    match &interfaces.material_bgl {
        ModeData::Gpu(layout) => assert_eq!(
            layout.entries,
            vec![BindGroupLayoutEntry {
                binding: 0,
                visibility: ShaderStage::VertexFragment,
                ty: BindingType::StorageBuffer { min_size: 0 },
                count: None,
            }]
        ),
        ModeData::Cpu(_) => panic!("built for the device path"),
    }
    match &interfaces.texture_bgl {
        ModeData::Gpu(layout) => {
            assert_eq!(layout.label, "texture bgl");
            assert_eq!(
                layout.entries,
                vec![BindGroupLayoutEntry {
                    binding: 0,
                    visibility: ShaderStage::Fragment,
                    ty: BindingType::Texture,
                    count: Some(128),
                }]
            );
        }
        ModeData::Cpu(_) => panic!("built for the device path"),
    }
}

#[test]
fn samplers_fit_the_sampler_layout() {
    let samplers = Samplers::new();
    assert_eq!(samplers.linear, Sampler { filtering: true, comparison: false });
    assert_eq!(samplers.nearest, Sampler { filtering: false, comparison: false });
    assert_eq!(samplers.shadow, Sampler { filtering: true, comparison: true });
    let interfaces = ShaderInterfaces::new(ModeData::Cpu(()));
    assert!(samplers.fits_layout(&interfaces.samplers_bgl));
    assert!(!samplers.fits_layout(&interfaces.uniform_bgl));
    assert!(!Samplers::fits(samplers.shadow, BindingType::Sampler { filtering: true, comparison: false }));
    assert!(!Samplers::fits(samplers.linear, BindingType::Texture));
}

#[test]
fn forward_pipelines_follow_the_class() {
    let interfaces = ShaderInterfaces::new(ModeData::Gpu(16));
    let build = |transparency| {
        build_forward_pass_shader(BuildForwardPassShaderArgs {
            mode: RendererMode::GpuPowered,
            interfaces: &interfaces,
            samples: SampleCount::Four,
            transparency,
        })
    };
    let opaque = build(TransparencyType::Opaque);
    let cutout = build(TransparencyType::Cutout);
    let blend = build(TransparencyType::Blend);
    for p in [opaque, cutout, blend] {
        assert_eq!(p.pass, PassType::Forward);
        assert_eq!(p.samples, SampleCount::Four);
        assert_eq!(p.mode, RendererMode::GpuPowered);
        assert_eq!(p.texture_slots, 16);
        assert!(p.depth_test);
        assert!(!p.depth_write);
        assert!(p.color_write);
        assert_eq!(p.face_cull, FaceCull::Back);
    }
    assert_eq!((opaque.transparency, opaque.blend, opaque.alpha_test), (TransparencyType::Opaque, BlendMode::Replace, false));
    assert_eq!((cutout.transparency, cutout.blend, cutout.alpha_test), (TransparencyType::Cutout, BlendMode::Replace, true));
    assert_eq!((blend.transparency, blend.blend, blend.alpha_test), (TransparencyType::Blend, BlendMode::Alpha, false));
}

#[test]
fn depth_pipelines_write_depth_only() {
    let interfaces = ShaderInterfaces::new(ModeData::Cpu(()));
    let shadow = build_depth_pass_shader(BuildDepthPassShaderArgs {
        mode: RendererMode::CpuPowered,
        interfaces: &interfaces,
        samples: SampleCount::One,
        ty: DepthPassType::Shadow,
    });
    let prepass = build_depth_pass_shader(BuildDepthPassShaderArgs {
        mode: RendererMode::CpuPowered,
        interfaces: &interfaces,
        samples: SampleCount::Four,
        ty: DepthPassType::Prepass,
    });
    assert_eq!(shadow.opaque.pass, PassType::Shadow);
    assert_eq!(shadow.cutout.pass, PassType::Shadow);
    assert_eq!(prepass.opaque.pass, PassType::Prepass);
    assert_eq!(prepass.cutout.pass, PassType::Prepass);
    assert_eq!(shadow.opaque.samples, SampleCount::One);
    assert_eq!(prepass.cutout.samples, SampleCount::Four);
    for p in [shadow.opaque, shadow.cutout, prepass.opaque, prepass.cutout] {
        assert!(p.depth_test && p.depth_write && !p.color_write);
        assert_eq!(p.blend, BlendMode::Replace);
        assert_eq!(p.face_cull, FaceCull::Back);
        assert_eq!(p.texture_slots, 0);
        assert_eq!(p.alpha_test, p.transparency == TransparencyType::Cutout);
    }
    assert_eq!(shadow.opaque.transparency, TransparencyType::Opaque);
    assert_eq!(shadow.cutout.transparency, TransparencyType::Cutout);
}

#[test]
fn skybox_and_tonemap_pipelines() {
    let interfaces = ShaderInterfaces::new(ModeData::Cpu(()));
    let skybox = build_skybox_shader(BuildSkyboxShaderArgs {
        mode: RendererMode::CpuPowered,
        interfaces: &interfaces,
        samples: SampleCount::Four,
    });
    assert_eq!(skybox.pass, PassType::Skybox);
    assert_eq!(skybox.samples, SampleCount::Four);
    assert!(skybox.depth_test && !skybox.depth_write && skybox.color_write);
    assert_eq!(skybox.face_cull, FaceCull::Off);
    let tonemap = TonemappingPass::new(TonemappingPassNewArgs {
        mode: RendererMode::CpuPowered,
        interfaces: &interfaces,
    });
    assert_eq!(tonemap.pipeline.pass, PassType::Tonemap);
    assert_eq!(tonemap.pipeline.samples, SampleCount::One);
    assert!(!tonemap.pipeline.depth_test && !tonemap.pipeline.depth_write && tonemap.pipeline.color_write);
}

#[test]
fn render_textures_have_a_resolve_target_only_when_multisampled() {
    let single = RenderTextures::new(options(640, 480, SampleCount::One));
    assert_eq!(single.resolve, None);
    assert_eq!(single.blit_source_view(), BlitSource::Color);
    assert_eq!(
        single.color,
        Texture { width: 640, height: 480, samples: SampleCount::One, format: TextureFormat::Rgba16Float }
    );
    assert_eq!(
        single.depth,
        Texture { width: 640, height: 480, samples: SampleCount::One, format: TextureFormat::Depth32Float }
    );
    assert_eq!((single.width, single.height, single.samples), (640, 480, SampleCount::One));

    let multi = RenderTextures::new(options(1920, 1080, SampleCount::Four));
    assert_eq!(
        multi.resolve,
        Some(Texture { width: 1920, height: 1080, samples: SampleCount::One, format: TextureFormat::Rgba16Float })
    );
    assert_eq!(multi.color.samples, SampleCount::Four);
    assert_eq!(multi.depth.samples, SampleCount::Four);
    assert_eq!(multi.blit_source_view(), BlitSource::Resolve);
}

#[test]
fn primary_passes_share_the_opaque_depth_pipeline() {
    let r = renderer(RendererMode::CpuPowered);
    let interfaces = ShaderInterfaces::new(r.texture_limit());
    let passes = PrimaryPasses::new(&r, &interfaces, SampleCount::Four);
    assert_eq!(passes.opaque_pass.transparency, TransparencyType::Opaque);
    assert_eq!(passes.cutout_pass.transparency, TransparencyType::Cutout);
    assert_eq!(passes.transparent_pass.transparency, TransparencyType::Blend);
    assert_eq!(passes.transparent_pass.depth_pipeline, passes.opaque_pass.depth_pipeline);
    assert_ne!(passes.cutout_pass.depth_pipeline, passes.opaque_pass.depth_pipeline);
    assert_eq!(passes.opaque_pass.depth_pipeline.samples, SampleCount::Four);
    assert_eq!(passes.opaque_pass.forward_pipeline.samples, SampleCount::Four);
    assert_eq!(passes.skybox_pass.pipeline.samples, SampleCount::Four);
    assert_eq!(passes.skybox_pass.current_skybox, None);
    assert_eq!(passes.shadow_passes.opaque_pipeline.samples, SampleCount::One);
    assert_eq!(passes.shadow_passes.cutout_pipeline.samples, SampleCount::One);
    assert_eq!(passes.shadow_passes.opaque_pipeline.transparency, TransparencyType::Opaque);
    assert_eq!(passes.shadow_passes.cutout_pipeline.transparency, TransparencyType::Cutout);
    assert_eq!(passes.transparent_pass.forward_pipeline.blend, BlendMode::Alpha);
}

#[test]
fn new_routine_takes_the_culler_of_the_mode() {
    let host = PbrRenderRoutine::new(&renderer(RendererMode::CpuPowered), options(8, 8, SampleCount::One));
    assert!(matches!(host.gpu_culler, ModeData::Cpu(())));
    assert!(matches!(host.culler(), ModeData::Cpu(_)));
    assert_eq!(host.skybox_texture, None);
    assert_eq!(host.primary_passes_revision, 0);
    assert_eq!(host.render_textures, RenderTextures::new(options(8, 8, SampleCount::One)));
    assert_eq!(host.interfaces.texture_slots(), 0);

    let r = renderer(RendererMode::GpuPowered);
    let device = PbrRenderRoutine::new(&r, options(8, 8, SampleCount::Four));
    assert!(matches!(device.gpu_culler, ModeData::Gpu(_)));
    assert!(matches!(device.culler(), ModeData::Gpu(_)));
    assert_eq!(device.interfaces.texture_slots(), 64);
    assert_eq!(device.primary_passes, PrimaryPasses::new(&r, &device.interfaces, SampleCount::Four));
    assert_eq!(device.primary_passes.opaque_pass.forward_pipeline.texture_slots, 64);
}

#[test]
fn set_background_texture_only_stores_the_handle() {
    let mut routine = PbrRenderRoutine::new(&renderer(RendererMode::CpuPowered), options(8, 8, SampleCount::One));
    routine.set_background_texture(Some(TextureHandle { index: 5 }));
    assert_eq!(routine.skybox_texture, Some(TextureHandle { index: 5 }));
    assert_eq!(routine.primary_passes.skybox_pass.current_skybox, None);
    routine.set_background_texture(None);
    assert_eq!(routine.skybox_texture, None);
}

#[test]
fn resize_twice_is_resize_once() {
    let r = renderer(RendererMode::CpuPowered);
    let target = options(1280, 720, SampleCount::Four);
    let mut once = PbrRenderRoutine::new(&r, options(640, 480, SampleCount::One));
    let mut twice = PbrRenderRoutine::new(&r, options(640, 480, SampleCount::One));
    once.resize(&r, target);
    twice.resize(&r, target);
    twice.resize(&r, target);
    assert_eq!(once.render_textures, twice.render_textures);
    assert_eq!(twice.render_textures, RenderTextures::new(target));
    assert_eq!(once.primary_passes, twice.primary_passes);
    assert_eq!(once.primary_passes_revision, twice.primary_passes_revision);
    assert!(twice.render_textures.resolve.is_some());
}

#[test]
fn resize_rebuilds_passes_only_when_the_sample_count_changes() {
    let r = renderer(RendererMode::GpuPowered);
    let mut routine = PbrRenderRoutine::new(&r, options(640, 480, SampleCount::One));
    let first = routine.primary_passes;

    routine.resize(&r, options(800, 600, SampleCount::One));
    assert_eq!(routine.primary_passes_revision, 0);
    assert_eq!(routine.primary_passes, first);
    assert_eq!((routine.render_textures.width, routine.render_textures.height), (800, 600));

    routine.resize(&r, options(800, 600, SampleCount::Four));
    assert_eq!(routine.primary_passes_revision, 1);
    assert_ne!(routine.primary_passes, first);
    assert_eq!(routine.primary_passes, PrimaryPasses::new(&r, &routine.interfaces, SampleCount::Four));

    routine.resize(&r, options(1024, 768, SampleCount::Four));
    assert_eq!(routine.primary_passes_revision, 1);

    routine.resize(&r, options(1024, 768, SampleCount::One));
    assert_eq!(routine.primary_passes_revision, 2);
    assert_eq!(routine.primary_passes, first);
}

#[test]
fn revision_wraps_around() {
    let r = renderer(RendererMode::CpuPowered);
    let mut routine = PbrRenderRoutine::new(&r, options(1, 1, SampleCount::One));
    routine.primary_passes_revision = u64::MAX;
    routine.resize(&r, options(1, 1, SampleCount::Four));
    assert_eq!(routine.primary_passes_revision, 0);
}

#[test]
fn resolution_only_resize_keeps_the_background_of_the_pass() {
    let r = renderer(RendererMode::CpuPowered);
    let mut routine = PbrRenderRoutine::new(&r, options(640, 480, SampleCount::One));
    routine.set_background_texture(Some(TextureHandle { index: 2 }));
    let mut encoders = Vec::new();
    routine.render(&r, &mut encoders, &rend3_pbr::commands::OutputFrame { view: 0 });
    assert_eq!(routine.primary_passes.skybox_pass.current_skybox, Some(TextureHandle { index: 2 }));
    routine.resize(&r, options(320, 240, SampleCount::One));
    assert_eq!(routine.primary_passes.skybox_pass.current_skybox, Some(TextureHandle { index: 2 }));
    routine.resize(&r, options(320, 240, SampleCount::Four));
    assert_eq!(routine.primary_passes.skybox_pass.current_skybox, None);
    assert_eq!(routine.skybox_texture, Some(TextureHandle { index: 2 }));
}
