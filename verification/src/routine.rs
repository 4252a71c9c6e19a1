//! The render routine: the passes it owns, and the building of one frame.

use vstd::prelude::*;
use crate::commands::Command;
use crate::commands::CommandBuffer;
use crate::commands::CommandEncoder;
use crate::commands::DrawStage;
use crate::commands::OutputFrame;
use crate::commands::Viewpoint;
use crate::culling::expected_dispatch;
use crate::culling::expected_draws;
use crate::culling::lemma_result_draws;
use crate::culling::CpuCuller;
use crate::culling::CulledObjects;
use crate::culling::Culler;
use crate::culling::GpuCuller;
use crate::directional::shadow_dispatches;
use crate::directional::CulledLight;
use crate::directional::DirectionalShadowPass;
use crate::directional::DirectionalShadowPassCullShadowsArgs;
use crate::directional::DirectionalShadowPassDrawCulledShadowsArgs;
use crate::forward::ForwardPass;
use crate::forward::ForwardPassCullArgs;
use crate::forward::ForwardPassDrawArgs;
use crate::forward::ForwardPassPrepassArgs;
use crate::interfaces::ShaderInterfaces;
use crate::commands::in_frame_order;
use crate::laws::keeps_blend_out_of_depth;
use crate::laws::law_frame_order;
use crate::laws::law_no_background_no_skybox_draw;
use crate::laws::law_no_blend_in_depth_passes;
use crate::pipelines::build_depth_pass_shader;
use crate::pipelines::build_forward_pass_shader;
use crate::pipelines::build_skybox_shader;
use crate::pipelines::BuildDepthPassShaderArgs;
use crate::pipelines::BuildForwardPassShaderArgs;
use crate::pipelines::BuildSkyboxShaderArgs;
use crate::pipelines::DepthPassType;
use crate::pipelines::Pipeline;
use crate::samplers::Samplers;
use crate::scene::Renderer;
use crate::skybox::SkyboxPass;
use crate::skybox::UpdateSkyboxArgs;
use crate::tonemapping::TonemappingPass;
use crate::tonemapping::TonemappingPassBlitArgs;
use crate::tonemapping::TonemappingPassNewArgs;
use crate::types::ModeData;
use crate::types::RenderTextureOptions;
use crate::types::RendererMode;
use crate::types::SampleCount;
use crate::types::TextureHandle;
use crate::types::TransparencyType;
use crate::utils::RenderTextures;

verus! {

/// The context that passes which depend on the sample count are built in.
pub struct SampleDependantPassesNewArgs<'a> {
    pub renderer: &'a Renderer,
    pub interfaces: &'a ShaderInterfaces,
}

/// The five passes of the primary scope and the shadow maps. All of them are
/// built together; a change of the sample count builds all of them anew.
#[derive(Clone, Copy, Debug, PartialEq, Eq, Structural)]
pub struct PrimaryPasses {
    pub shadow_passes: DirectionalShadowPass,
    pub skybox_pass: SkyboxPass,
    pub opaque_pass: ForwardPass,
    pub cutout_pass: ForwardPass,
    pub transparent_pass: ForwardPass,
}

impl PrimaryPasses {
    /// The passes for a mode, a texture limit and a sample count. Shadow
    /// maps are always single-sampled. The blended class has no prepass
    /// pipeline of its own: it holds the opaque one, which has the same
    /// depth state.
    pub open spec fn spec_new(mode: RendererMode, texture_slots: usize, samples: SampleCount) -> PrimaryPasses {
        let depth_opaque = Pipeline::spec_depth(
            DepthPassType::Prepass,
            TransparencyType::Opaque,
            samples,
            mode,
            texture_slots,
        );
        let depth_cutout = Pipeline::spec_depth(
            DepthPassType::Prepass,
            TransparencyType::Cutout,
            samples,
            mode,
            texture_slots,
        );
        PrimaryPasses {
            shadow_passes: DirectionalShadowPass {
                cutout_pipeline: Pipeline::spec_depth(
                    DepthPassType::Shadow,
                    TransparencyType::Cutout,
                    SampleCount::One,
                    mode,
                    texture_slots,
                ),
                opaque_pipeline: Pipeline::spec_depth(
                    DepthPassType::Shadow,
                    TransparencyType::Opaque,
                    SampleCount::One,
                    mode,
                    texture_slots,
                ),
            },
            skybox_pass: SkyboxPass {
                pipeline: Pipeline::spec_skybox(samples, mode),
                current_skybox: None,
            },
            opaque_pass: ForwardPass {
                depth_pipeline: depth_opaque,
                forward_pipeline: Pipeline::spec_forward(
                    TransparencyType::Opaque,
                    samples,
                    mode,
                    texture_slots,
                ),
                transparency: TransparencyType::Opaque,
            },
            cutout_pass: ForwardPass {
                depth_pipeline: depth_cutout,
                forward_pipeline: Pipeline::spec_forward(
                    TransparencyType::Cutout,
                    samples,
                    mode,
                    texture_slots,
                ),
                transparency: TransparencyType::Cutout,
            },
            transparent_pass: ForwardPass {
                depth_pipeline: depth_opaque,
                forward_pipeline: Pipeline::spec_forward(
                    TransparencyType::Blend,
                    samples,
                    mode,
                    texture_slots,
                ),
                transparency: TransparencyType::Blend,
            },
        }
    }

    /// The passes with another background.
    pub open spec fn spec_with_skybox(self, skybox: Option<TextureHandle>) -> PrimaryPasses {
        PrimaryPasses {
            skybox_pass: SkyboxPass { pipeline: self.skybox_pass.pipeline, current_skybox: skybox },
            ..self
        }
    }

    /// Builds every pass and the pipelines it draws with.
    pub fn new(renderer: &Renderer, interfaces: &ShaderInterfaces, samples: SampleCount) -> (p:
        PrimaryPasses)
        ensures
            p == Self::spec_new(renderer.mode, interfaces.spec_texture_slots(), samples),
    {
        let shadow_pipelines = build_depth_pass_shader(
            BuildDepthPassShaderArgs {
                mode: renderer.mode,
                interfaces,
                samples: SampleCount::One,
                ty: DepthPassType::Shadow,
            },
        );
        let depth_pipelines = build_depth_pass_shader(
            BuildDepthPassShaderArgs {
                mode: renderer.mode,
                interfaces,
                samples,
                ty: DepthPassType::Prepass,
            },
        );
        let skybox_pipeline = build_skybox_shader(
            BuildSkyboxShaderArgs { mode: renderer.mode, interfaces, samples },
        );
        let opaque_pipeline = build_forward_pass_shader(
            BuildForwardPassShaderArgs {
                mode: renderer.mode,
                interfaces,
                samples,
                transparency: TransparencyType::Opaque,
            },
        );
        let cutout_pipeline = build_forward_pass_shader(
            BuildForwardPassShaderArgs {
                mode: renderer.mode,
                interfaces,
                samples,
                transparency: TransparencyType::Cutout,
            },
        );
        let transparent_pipeline = build_forward_pass_shader(
            BuildForwardPassShaderArgs {
                mode: renderer.mode,
                interfaces,
                samples,
                transparency: TransparencyType::Blend,
            },
        );
        PrimaryPasses {
            shadow_passes: DirectionalShadowPass::new(
                shadow_pipelines.cutout,
                shadow_pipelines.opaque,
            ),
            skybox_pass: SkyboxPass::new(skybox_pipeline),
            transparent_pass: ForwardPass::new(
                depth_pipelines.opaque,
                transparent_pipeline,
                TransparencyType::Blend,
            ),
            cutout_pass: ForwardPass::new(
                depth_pipelines.cutout,
                cutout_pipeline,
                TransparencyType::Cutout,
            ),
            opaque_pass: ForwardPass::new(
                depth_pipelines.opaque,
                opaque_pipeline,
                TransparencyType::Opaque,
            ),
        }
    }

    /// The dispatches of a frame: for every light first, then for the camera
    /// by class.
    pub open spec fn spec_cull_commands(self, mode: RendererMode, renderer: Renderer) -> Seq<
        Command,
    > {
        shadow_dispatches(mode, renderer.lights@, renderer.objects@) + expected_dispatch(
            mode,
            Viewpoint::Camera,
            renderer.objects@,
            self.opaque_pass.transparency,
        ) + expected_dispatch(
            mode,
            Viewpoint::Camera,
            renderer.objects@,
            self.cutout_pass.transparency,
        ) + expected_dispatch(
            mode,
            Viewpoint::Camera,
            renderer.objects@,
            self.transparent_pass.transparency,
        )
    }

    /// The depth prepass of one forward pass for the camera.
    pub open spec fn spec_pass_prepass(pass: ForwardPass, mode: RendererMode, renderer: Renderer) -> Seq<
        Command,
    > {
        if pass.transparency.spec_writes_depth() {
            expected_draws(
                mode,
                DrawStage::Prepass,
                Viewpoint::Camera,
                renderer.camera,
                renderer.objects@,
                pass.transparency,
                pass.depth_pipeline,
            )
        } else {
            Seq::empty()
        }
    }

    /// The shaded draws of one forward pass for the camera.
    pub open spec fn spec_pass_forward(pass: ForwardPass, mode: RendererMode, renderer: Renderer) -> Seq<
        Command,
    > {
        expected_draws(
            mode,
            DrawStage::Forward,
            Viewpoint::Camera,
            renderer.camera,
            renderer.objects@,
            pass.transparency,
            pass.forward_pipeline,
        )
    }

    /// The depth prepass of a frame: opaque, then cutout.
    pub open spec fn spec_prepass_commands(self, mode: RendererMode, renderer: Renderer) -> Seq<
        Command,
    > {
        Self::spec_pass_prepass(self.opaque_pass, mode, renderer) + Self::spec_pass_prepass(
            self.cutout_pass,
            mode,
            renderer,
        )
    }

    /// The shaded draws of a frame: opaque, then cutout, then blended.
    pub open spec fn spec_forward_commands(self, mode: RendererMode, renderer: Renderer) -> Seq<
        Command,
    > {
        Self::spec_pass_forward(self.opaque_pass, mode, renderer) + Self::spec_pass_forward(
            self.cutout_pass,
            mode,
            renderer,
        ) + Self::spec_pass_forward(self.transparent_pass, mode, renderer)
    }

    /// Culls for every view of a frame: each light's casters first, then
    /// what the camera sees, by class.
    pub fn cull(&self, encoder: &mut CommandEncoder, culler: Culler, renderer: &Renderer) -> (culls:
        FrameCulls)
        ensures
            final(encoder)@ == old(encoder)@ + self.spec_cull_commands(
                culler.spec_mode(),
                *renderer,
            ),
            culls.spec_is_result_of(*self, culler.spec_mode(), *renderer),
    {
        let objects = &renderer.objects;
        let lights = self.shadow_passes.cull_shadows(
            encoder,
            DirectionalShadowPassCullShadowsArgs { culler, lights: &renderer.lights, objects },
        );
        let opaque = self.opaque_pass.cull(
            encoder,
            ForwardPassCullArgs { culler, camera: &renderer.camera, objects },
        );
        let cutout = self.cutout_pass.cull(
            encoder,
            ForwardPassCullArgs { culler, camera: &renderer.camera, objects },
        );
        let transparent = self.transparent_pass.cull(
            encoder,
            ForwardPassCullArgs { culler, camera: &renderer.camera, objects },
        );
        assert(encoder@ =~= old(encoder)@ + self.spec_cull_commands(culler.spec_mode(), *renderer));
        FrameCulls { lights, opaque, cutout, transparent }
    }

    /// Draws the shadow maps of all lights.
    fn draw_shadows(
        &self,
        encoder: &mut CommandEncoder,
        culls: &FrameCulls,
        Ghost(mode): Ghost<RendererMode>,
        Ghost(renderer): Ghost<Renderer>,
    )
        requires
            culls.spec_is_result_of(*self, mode, renderer),
        ensures
            final(encoder)@ == old(encoder)@ + self.shadow_passes.spec_expected_commands(
                mode,
                renderer.lights@,
                renderer.objects@,
            ),
    {
        self.shadow_passes.draw_culled_shadows(
            encoder,
            DirectionalShadowPassDrawCulledShadowsArgs { culled_lights: &culls.lights },
        );
        let count = culls.lights.len();
        proof {
            assert(renderer.lights@.len() == count);
            self.shadow_passes.lemma_results_draw_expected(
                culls.lights@,
                mode,
                renderer.lights@,
                renderer.objects@,
            );
        }
    }

    /// Draws the depth prepass: opaque, then cutout.
    fn draw_prepass(
        &self,
        encoder: &mut CommandEncoder,
        culls: &FrameCulls,
        Ghost(mode): Ghost<RendererMode>,
        Ghost(renderer): Ghost<Renderer>,
    )
        requires
            culls.spec_is_result_of(*self, mode, renderer),
        ensures
            final(encoder)@ == old(encoder)@ + self.spec_prepass_commands(mode, renderer),
    {
        self.opaque_pass.prepass(encoder, ForwardPassPrepassArgs { culled_objects: &culls.opaque });
        self.cutout_pass.prepass(encoder, ForwardPassPrepassArgs { culled_objects: &culls.cutout });
        proof {
            lemma_result_draws(
                culls.opaque,
                mode,
                DrawStage::Prepass,
                Viewpoint::Camera,
                renderer.camera,
                renderer.objects@,
                self.opaque_pass.transparency,
                self.opaque_pass.depth_pipeline,
            );
            lemma_result_draws(
                culls.cutout,
                mode,
                DrawStage::Prepass,
                Viewpoint::Camera,
                renderer.camera,
                renderer.objects@,
                self.cutout_pass.transparency,
                self.cutout_pass.depth_pipeline,
            );
            assert(encoder@ =~= old(encoder)@ + self.spec_prepass_commands(mode, renderer));
        }
    }

    /// Draws the shaded passes: opaque, then cutout, then blended.
    fn draw_forward(
        &self,
        encoder: &mut CommandEncoder,
        culls: &FrameCulls,
        Ghost(mode): Ghost<RendererMode>,
        Ghost(renderer): Ghost<Renderer>,
    )
        requires
            culls.spec_is_result_of(*self, mode, renderer),
        ensures
            final(encoder)@ == old(encoder)@ + self.spec_forward_commands(mode, renderer),
    {
        self.opaque_pass.draw(encoder, ForwardPassDrawArgs { culled_objects: &culls.opaque });
        self.cutout_pass.draw(encoder, ForwardPassDrawArgs { culled_objects: &culls.cutout });
        self.transparent_pass.draw(
            encoder,
            ForwardPassDrawArgs { culled_objects: &culls.transparent },
        );
        proof {
            lemma_result_draws(
                culls.opaque,
                mode,
                DrawStage::Forward,
                Viewpoint::Camera,
                renderer.camera,
                renderer.objects@,
                self.opaque_pass.transparency,
                self.opaque_pass.forward_pipeline,
            );
            lemma_result_draws(
                culls.cutout,
                mode,
                DrawStage::Forward,
                Viewpoint::Camera,
                renderer.camera,
                renderer.objects@,
                self.cutout_pass.transparency,
                self.cutout_pass.forward_pipeline,
            );
            lemma_result_draws(
                culls.transparent,
                mode,
                DrawStage::Forward,
                Viewpoint::Camera,
                renderer.camera,
                renderer.objects@,
                self.transparent_pass.transparency,
                self.transparent_pass.forward_pipeline,
            );
            assert(encoder@ =~= old(encoder)@ + self.spec_forward_commands(mode, renderer));
        }
    }
}

/// The visibility sets of one frame. They live as long as the frame is
/// being built.
#[derive(Debug)]
pub struct FrameCulls {
    pub lights: Vec<CulledLight>,
    pub opaque: CulledObjects,
    pub cutout: CulledObjects,
    pub transparent: CulledObjects,
}

impl FrameCulls {
    /// The sets are what culling in the given mode yields for the scene and
    /// the classes of the passes.
    pub open spec fn spec_is_result_of(
        self,
        passes: PrimaryPasses,
        mode: RendererMode,
        renderer: Renderer,
    ) -> bool {
        &&& self.lights@.len() == renderer.lights@.len()
        &&& forall|j: int|
            0 <= j < self.lights@.len() ==> (#[trigger] self.lights@[j]).spec_is_result_of(
                mode,
                j as usize,
                renderer.lights@[j],
                renderer.objects@,
            )
        &&& self.opaque.spec_is_result_of(
            mode,
            Viewpoint::Camera,
            renderer.camera,
            renderer.objects@,
            passes.opaque_pass.transparency,
        )
        &&& self.cutout.spec_is_result_of(
            mode,
            Viewpoint::Camera,
            renderer.camera,
            renderer.objects@,
            passes.cutout_pass.transparency,
        )
        &&& self.transparent.spec_is_result_of(
            mode,
            Viewpoint::Camera,
            renderer.camera,
            renderer.objects@,
            passes.transparent_pass.transparency,
        )
    }
}

/// The routine that renders a scene with physically based shading.
#[derive(Debug)]
pub struct PbrRenderRoutine {
    pub interfaces: ShaderInterfaces,
    pub samplers: Samplers,
    pub cpu_culler: CpuCuller,
    pub gpu_culler: ModeData<(), GpuCuller>,
    pub primary_passes: PrimaryPasses,
    /// Counts, modulo 2^64, how often the primary passes were built. Two
    /// sets of passes are the same objects only under the same count.
    pub primary_passes_revision: u64,
    pub tonemapping_pass: TonemappingPass,
    pub skybox_texture: Option<TextureHandle>,
    pub render_textures: RenderTextures,
}

impl PbrRenderRoutine {
    /// The mode that the routine was built for: it has a device culler
    /// exactly on the device path.
    pub open spec fn spec_mode(self) -> RendererMode {
        self.gpu_culler.spec_mode()
    }

    /// The routine's parts fit each other and the renderer: one mode
    /// throughout, render targets that agree with their tags, and passes
    /// built for the targets' sample count.
    pub open spec fn well_formed(self, renderer: Renderer) -> bool {
        &&& self.spec_mode() == renderer.mode
        &&& self.interfaces.spec_describes(renderer.spec_texture_limit())
        &&& self.samplers == Samplers::spec_new()
        &&& self.render_textures.well_formed()
        &&& self.tonemapping_pass.pipeline == Pipeline::spec_tonemap(renderer.mode)
        &&& self.primary_passes == PrimaryPasses::spec_new(
            renderer.mode,
            self.interfaces.spec_texture_slots(),
            self.render_textures.samples,
        ).spec_with_skybox(self.primary_passes.skybox_pass.current_skybox)
    }

    /// The revision that follows the given one.
    pub open spec fn spec_next_revision(revision: u64) -> u64 {
        if revision == u64::MAX {
            0
        } else {
            (revision + 1) as u64
        }
    }

    /// Builds the routine for a renderer: the layouts, the samplers, the
    /// culler of the renderer's mode, every pass and the render targets. No
    /// background is set.
    pub fn new(renderer: &Renderer, render_texture_options: RenderTextureOptions) -> (r:
        PbrRenderRoutine)
        ensures
            r.well_formed(*renderer),
            r.skybox_texture is None,
            r.primary_passes == PrimaryPasses::spec_new(
                renderer.mode,
                r.interfaces.spec_texture_slots(),
                render_texture_options.samples,
            ),
            r.primary_passes_revision == 0,
            r.render_textures == RenderTextures::spec_new(render_texture_options),
    {
        let interfaces = ShaderInterfaces::new(renderer.texture_limit());
        let samplers = Samplers::new();
        let cpu_culler = CpuCuller::new();
        let gpu_culler = match renderer.mode {
            RendererMode::CpuPowered => ModeData::Cpu(()),
            RendererMode::GpuPowered => ModeData::Gpu(GpuCuller::new()),
        };
        let primary_passes = PrimaryPasses::new(renderer, &interfaces, render_texture_options.samples);
        let tonemapping_pass = TonemappingPass::new(
            TonemappingPassNewArgs { mode: renderer.mode, interfaces: &interfaces },
        );
        let render_textures = RenderTextures::new(render_texture_options);
        PbrRenderRoutine {
            interfaces,
            samplers,
            cpu_culler,
            gpu_culler,
            primary_passes,
            primary_passes_revision: 0,
            tonemapping_pass,
            skybox_texture: None,
            render_textures,
        }
    }

    /// Sets or clears the background. It is taken over by the background
    /// pass when the next frame is built.
    pub fn set_background_texture(&mut self, handle: Option<TextureHandle>)
        ensures
            *final(self) == (PbrRenderRoutine { skybox_texture: handle, ..*old(self) }),
    {
        self.skybox_texture = handle;
    }

    /// The routine after a resize: the render targets are always made anew;
    /// the passes, only when the sample count differs from the one they
    /// were built for.
    pub open spec fn spec_resize(self, renderer: Renderer, options: RenderTextureOptions) -> PbrRenderRoutine {
        if self.render_textures.samples != options.samples {
            PbrRenderRoutine {
                render_textures: RenderTextures::spec_new(options),
                primary_passes: PrimaryPasses::spec_new(
                    renderer.mode,
                    self.interfaces.spec_texture_slots(),
                    options.samples,
                ),
                primary_passes_revision: Self::spec_next_revision(self.primary_passes_revision),
                ..self
            }
        } else {
            PbrRenderRoutine { render_textures: RenderTextures::spec_new(options), ..self }
        }
    }

    /// Adapts the routine to new render target options.
    pub fn resize(&mut self, renderer: &Renderer, options: RenderTextureOptions)
        ensures
            *final(self) == old(self).spec_resize(*renderer, options),
            final(self).render_textures == RenderTextures::spec_new(options),
            options.samples == old(self).render_textures.samples ==> {
                &&& final(self).primary_passes == old(self).primary_passes
                &&& final(self).primary_passes_revision == old(self).primary_passes_revision
            },
            options.samples != old(self).render_textures.samples ==> {
                &&& final(self).primary_passes_revision != old(self).primary_passes_revision
            },
            old(self).well_formed(*renderer) ==> final(self).well_formed(*renderer),
    {
        let different_sample_count = self.render_textures.samples != options.samples;
        self.render_textures = RenderTextures::new(options);
        if different_sample_count {
            self.primary_passes = PrimaryPasses::new(renderer, &self.interfaces, options.samples);
            self.primary_passes_revision = if self.primary_passes_revision == u64::MAX {
                0
            } else {
                self.primary_passes_revision + 1
            };
        }
    }

    /// The culler in use.
    pub fn culler(&self) -> (c: Culler<'_>)
        ensures
            c.spec_mode() == self.spec_mode(),
            match c {
                ModeData::Cpu(host) => *host == self.cpu_culler,
                ModeData::Gpu(device) => self.gpu_culler == ModeData::<(), GpuCuller>::Gpu(*device),
            },
    {
        match &self.gpu_culler {
            ModeData::Cpu(_) => ModeData::Cpu(&self.cpu_culler),
            ModeData::Gpu(device) => ModeData::Gpu(device),
        }
    }

    /// Everything that a frame records before the background: the
    /// dispatches, the shadow maps, the opening of the primary scope and
    /// the depth prepass.
    pub open spec fn spec_before_skybox(self, renderer: Renderer) -> Seq<Command> {
        self.primary_passes.spec_cull_commands(self.spec_mode(), renderer)
            + self.primary_passes.shadow_passes.spec_expected_commands(
            self.spec_mode(),
            renderer.lights@,
            renderer.objects@,
        ) + seq![Command::BeginPrimaryPass { resolve: self.render_textures.resolve is Some }]
            + self.primary_passes.spec_prepass_commands(self.spec_mode(), renderer)
    }

    /// Everything that a frame records after the background: the shaded
    /// draws, the closing of the primary scope and the composite.
    pub open spec fn spec_after_skybox(self, renderer: Renderer, frame: OutputFrame) -> Seq<
        Command,
    > {
        self.primary_passes.spec_forward_commands(self.spec_mode(), renderer)
            + seq![Command::EndPrimaryPass] + self.tonemapping_pass.spec_commands(
            TonemappingPassBlitArgs {
                source: self.render_textures.spec_blit_source(),
                target: frame.view,
            },
        )
    }

    /// The command sequence of one frame.
    pub open spec fn spec_frame_commands(self, renderer: Renderer, frame: OutputFrame) -> Seq<
        Command,
    > {
        self.spec_before_skybox(renderer) + self.primary_passes.skybox_pass.spec_commands()
            + self.spec_after_skybox(renderer, frame)
    }

    /// The routine once the background pass has taken over the background
    /// that was set.
    pub open spec fn spec_synced(self) -> PbrRenderRoutine {
        PbrRenderRoutine {
            primary_passes: self.primary_passes.spec_with_skybox(self.skybox_texture),
            ..self
        }
    }

    /// Records one frame with the passes as they are.
    fn record_frame(&self, renderer: &Renderer, frame: &OutputFrame) -> (buffer: CommandBuffer)
        ensures
            buffer@ == self.spec_frame_commands(*renderer, *frame),
    {
        let ghost mode = self.spec_mode();
        let ghost scene = *renderer;
        let culler = self.culler();
        let passes = &self.primary_passes;

        let mut encoder = CommandEncoder::new();
        let culls = passes.cull(&mut encoder, culler, renderer);
        passes.draw_shadows(&mut encoder, &culls, Ghost(mode), Ghost(scene));
        encoder.record(Command::BeginPrimaryPass { resolve: self.render_textures.resolve.is_some() });
        passes.draw_prepass(&mut encoder, &culls, Ghost(mode), Ghost(scene));
        assert(encoder@ =~= self.spec_before_skybox(*renderer));

        passes.skybox_pass.draw_skybox(&mut encoder);
        let ghost with_skybox = encoder@;

        passes.draw_forward(&mut encoder, &culls, Ghost(mode), Ghost(scene));
        encoder.record(Command::EndPrimaryPass);
        self.tonemapping_pass.blit(
            &mut encoder,
            TonemappingPassBlitArgs {
                source: self.render_textures.blit_source_view(),
                target: frame.as_view(),
            },
        );
        assert(encoder@ =~= with_skybox + self.spec_after_skybox(*renderer, *frame));
        encoder.finish()
    }

    /// Builds one frame and appends its finished command sequence to the
    /// list. Nothing is submitted here.
    pub fn render(
        &mut self,
        renderer: &Renderer,
        encoders: &mut Vec<CommandBuffer>,
        frame: &OutputFrame,
    )
        ensures
            *final(self) == old(self).spec_synced(),
            final(encoders)@.len() == old(encoders)@.len() + 1,
            final(encoders)@.take(old(encoders)@.len() as int) == old(encoders)@,
            final(encoders)@.last()@ == final(self).spec_frame_commands(*renderer, *frame),
            old(self).well_formed(*renderer) ==> final(self).well_formed(*renderer),
            old(self).well_formed(*renderer) ==> in_frame_order(final(encoders)@.last()@),
            forall|i: int|
                0 <= i < final(encoders)@.last()@.len() ==> keeps_blend_out_of_depth(
                    #[trigger] final(encoders)@.last()@[i],
                    renderer.objects@,
                ),
            old(self).skybox_texture is None ==> forall|i: int|
                0 <= i < final(encoders)@.last()@.len() ==> !(
                #[trigger] final(encoders)@.last()@[i]).spec_is_skybox(),
    {
        proof {
            if self.skybox_texture is None {
                law_no_background_no_skybox_draw(*self, *renderer, *frame);
            }
        }
        self.primary_passes.skybox_pass.update_skybox(
            UpdateSkyboxArgs { new_skybox_handle: self.skybox_texture },
        );
        let buffer = self.record_frame(renderer, frame);
        proof {
            if old(self).well_formed(*renderer) {
                law_frame_order(*self, *renderer, *frame);
            }
            law_no_blend_in_depth_passes(*self, *renderer, *frame);
        }
        encoders.push(buffer);
        assert(encoders@.take(old(encoders)@.len() as int) =~= old(encoders)@);
    }
}

} // verus!
