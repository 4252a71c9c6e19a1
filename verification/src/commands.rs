//! The recorded form of one frame: commands, the encoder that collects them
//! and the finished buffer that is handed on for submission.

use vstd::prelude::*;
use crate::pipelines::Pipeline;
use crate::types::TextureHandle;
use crate::types::TransparencyType;

verus! {

/// The point of view that a visibility set or a draw belongs to.
#[derive(Clone, Copy, Debug, PartialEq, Eq, Structural)]
pub enum Viewpoint {
    /// The primary camera.
    Camera,
    /// The directional light with this index.
    Light(usize),
}

/// Which kind of geometry pass a draw belongs to.
#[derive(Clone, Copy, Debug, PartialEq, Eq, Structural)]
pub enum DrawStage {
    /// Depth-only, into a light's shadow map.
    Shadow,
    /// Depth-only, into the primary depth target.
    Prepass,
    /// Fully shaded, into the primary colour target.
    Forward,
}

/// The texture that the final composite reads.
#[derive(Clone, Copy, Debug, PartialEq, Eq, Structural)]
pub enum BlitSource {
    /// The colour target itself (single-sampled rendering).
    Color,
    /// The resolve target (multisampled rendering).
    Resolve,
}

/// The externally supplied surface that a frame is presented on.
#[derive(Clone, Copy, Debug, PartialEq, Eq, Structural)]
pub struct OutputFrame {
    pub view: usize,
}

impl OutputFrame {
    /// The writable view of the surface.
    pub fn as_view(&self) -> (v: usize)
        ensures
            v == self.view,
    {
        self.view
    }
}

/// The steps of building one frame, in the order in which they happen.
#[derive(Clone, Copy, Debug, PartialEq, Eq, Structural)]
pub enum FrameStage {
    /// The managers flush what is pending; the frame reads their state
    /// from here on.
    ResourceSync,
    CullShadow,
    CullPrimary,
    DrawShadow,
    DrawPrepass,
    DrawSkybox,
    DrawForward,
    Tonemap,
    /// The finished sequence is handed on.
    Submit,
}

impl FrameStage {
    /// Position of the step within a frame.
    pub open spec fn order(self) -> int {
        match self {
            FrameStage::ResourceSync => 0,
            FrameStage::CullShadow => 1,
            FrameStage::CullPrimary => 2,
            FrameStage::DrawShadow => 3,
            FrameStage::DrawPrepass => 4,
            FrameStage::DrawSkybox => 5,
            FrameStage::DrawForward => 6,
            FrameStage::Tonemap => 7,
            FrameStage::Submit => 8,
        }
    }

    /// Position of the step within a frame.
    pub fn position(self) -> (n: u8)
        ensures
            n == self.order(),
    {
        match self {
            FrameStage::ResourceSync => 0,
            FrameStage::CullShadow => 1,
            FrameStage::CullPrimary => 2,
            FrameStage::DrawShadow => 3,
            FrameStage::DrawPrepass => 4,
            FrameStage::DrawSkybox => 5,
            FrameStage::DrawForward => 6,
            FrameStage::Tonemap => 7,
            FrameStage::Submit => 8,
        }
    }
}

/// One recorded operation.
#[derive(Clone, Copy, Debug, PartialEq, Eq, Structural)]
pub enum Command {
    /// Device-side culling of the first `objects` objects against the view's
    /// volume, keeping those of one transparency class. Later indirect draws
    /// of the same view and class consume its output.
    CullDispatch { view: Viewpoint, transparency: TransparencyType, objects: usize },
    /// Opens a depth-only scope on the shadow map of a light.
    BeginShadowPass { light: usize, shadow_map: usize },
    /// Closes the scope of a light's shadow map.
    EndShadowPass { light: usize },
    /// Opens the primary scope: colour cleared to black, depth cleared.
    BeginPrimaryPass { resolve: bool },
    /// Closes the primary scope.
    EndPrimaryPass,
    /// Draws one object, found visible on the host.
    Draw { stage: DrawStage, view: Viewpoint, transparency: TransparencyType, pipeline: Pipeline, object: usize },
    /// Draws whatever the matching dispatch found visible.
    DrawIndirect { stage: DrawStage, view: Viewpoint, transparency: TransparencyType, pipeline: Pipeline },
    /// Fills the background from a cube map.
    DrawSkybox { pipeline: Pipeline, texture: TextureHandle },
    /// Tone-maps the internal image onto the output surface.
    Blit { pipeline: Pipeline, source: BlitSource, target: usize },
}

impl Command {
    /// Whether the command draws geometry in the given stage.
    pub open spec fn spec_is_draw(self, stage: DrawStage) -> bool {
        match self {
            Command::Draw { stage: s, .. } => s == stage,
            Command::DrawIndirect { stage: s, .. } => s == stage,
            _ => false,
        }
    }

    /// Whether the command draws geometry of the given class in the given
    /// stage.
    pub open spec fn spec_is_draw_of(self, stage: DrawStage, transparency: TransparencyType) -> bool {
        match self {
            Command::Draw { stage: s, transparency: t, .. } => s == stage && t == transparency,
            Command::DrawIndirect { stage: s, transparency: t, .. } => s == stage && t
                == transparency,
            _ => false,
        }
    }

    /// Whether the command fills the background.
    pub open spec fn spec_is_skybox(self) -> bool {
        self is DrawSkybox
    }

    /// The step of the frame that the command belongs to.
    pub open spec fn spec_frame_stage(self) -> FrameStage {
        match self {
            Command::CullDispatch { view: Viewpoint::Light(_), .. } => FrameStage::CullShadow,
            Command::CullDispatch { view: Viewpoint::Camera, .. } => FrameStage::CullPrimary,
            Command::BeginShadowPass { .. } => FrameStage::DrawShadow,
            Command::EndShadowPass { .. } => FrameStage::DrawShadow,
            Command::BeginPrimaryPass { .. } => FrameStage::DrawPrepass,
            Command::EndPrimaryPass => FrameStage::DrawForward,
            Command::Draw { stage, .. } => Self::stage_of_draw(stage),
            Command::DrawIndirect { stage, .. } => Self::stage_of_draw(stage),
            Command::DrawSkybox { .. } => FrameStage::DrawSkybox,
            Command::Blit { .. } => FrameStage::Tonemap,
        }
    }

    /// The step of the frame in which draws of a stage are recorded.
    pub open spec fn stage_of_draw(stage: DrawStage) -> FrameStage {
        match stage {
            DrawStage::Shadow => FrameStage::DrawShadow,
            DrawStage::Prepass => FrameStage::DrawPrepass,
            DrawStage::Forward => FrameStage::DrawForward,
        }
    }

    /// Position within the step: the scope opens first, then the classes
    /// follow in draw order, then the scope closes. Shadow maps are
    /// independent of each other, so everything about them ranks alike.
    pub open spec fn spec_rank_in_stage(self) -> int {
        match self {
            Command::CullDispatch { view: Viewpoint::Camera, transparency, .. } => 1 + transparency.order(),
            Command::BeginPrimaryPass { .. } => 0,
            Command::EndPrimaryPass => 4,
            Command::Draw { stage, transparency, .. } => if stage == DrawStage::Shadow {
                0
            } else {
                1 + transparency.order()
            },
            Command::DrawIndirect { stage, transparency, .. } => if stage == DrawStage::Shadow {
                0
            } else {
                1 + transparency.order()
            },
            _ => 0,
        }
    }

    /// Position of the command in the order that every frame follows.
    pub open spec fn spec_rank(self) -> int {
        5 * self.spec_frame_stage().order() + self.spec_rank_in_stage()
    }

    /// The step of the frame that the command belongs to.
    pub fn frame_stage(&self) -> (stage: FrameStage)
        ensures
            stage == self.spec_frame_stage(),
    {
        match self {
            Command::CullDispatch { view: Viewpoint::Light(_), .. } => FrameStage::CullShadow,
            Command::CullDispatch { view: Viewpoint::Camera, .. } => FrameStage::CullPrimary,
            Command::BeginShadowPass { .. } => FrameStage::DrawShadow,
            Command::EndShadowPass { .. } => FrameStage::DrawShadow,
            Command::BeginPrimaryPass { .. } => FrameStage::DrawPrepass,
            Command::EndPrimaryPass => FrameStage::DrawForward,
            Command::Draw { stage: DrawStage::Shadow, .. } => FrameStage::DrawShadow,
            Command::Draw { stage: DrawStage::Prepass, .. } => FrameStage::DrawPrepass,
            Command::Draw { stage: DrawStage::Forward, .. } => FrameStage::DrawForward,
            Command::DrawIndirect { stage: DrawStage::Shadow, .. } => FrameStage::DrawShadow,
            Command::DrawIndirect { stage: DrawStage::Prepass, .. } => FrameStage::DrawPrepass,
            Command::DrawIndirect { stage: DrawStage::Forward, .. } => FrameStage::DrawForward,
            Command::DrawSkybox { .. } => FrameStage::DrawSkybox,
            Command::Blit { .. } => FrameStage::Tonemap,
        }
    }

    /// Position of the command in the order that every frame follows.
    pub fn rank(&self) -> (r: u8)
        ensures
            r == self.spec_rank(),
    {
        let within: u8 = match self {
            Command::CullDispatch { view: Viewpoint::Camera, transparency, .. } => 1
                + transparency.position(),
            Command::EndPrimaryPass => 4,
            Command::Draw { stage: DrawStage::Shadow, .. } => 0,
            Command::Draw { transparency, .. } => 1 + transparency.position(),
            Command::DrawIndirect { stage: DrawStage::Shadow, .. } => 0,
            Command::DrawIndirect { transparency, .. } => 1 + transparency.position(),
            _ => 0,
        };
        5 * self.frame_stage().position() + within
    }

    /// Whether the command draws geometry in the given stage.
    pub fn is_draw(&self, stage: DrawStage) -> (r: bool)
        ensures
            r == self.spec_is_draw(stage),
    {
        match self {
            Command::Draw { stage: s, .. } => *s == stage,
            Command::DrawIndirect { stage: s, .. } => *s == stage,
            _ => false,
        }
    }

    /// Whether the command draws geometry of the given class in the given
    /// stage.
    pub fn is_draw_of(&self, stage: DrawStage, transparency: TransparencyType) -> (r: bool)
        ensures
            r == self.spec_is_draw_of(stage, transparency),
    {
        match self {
            Command::Draw { stage: s, transparency: t, .. } => *s == stage && *t == transparency,
            Command::DrawIndirect { stage: s, transparency: t, .. } => *s == stage && *t
                == transparency,
            _ => false,
        }
    }

    /// Whether the command fills the background.
    pub fn is_skybox(&self) -> (r: bool)
        ensures
            r == self.spec_is_skybox(),
    {
        match self {
            Command::DrawSkybox { .. } => true,
            _ => false,
        }
    }
}

/// Whether a sequence of commands follows the frame order: no command comes
/// before one of lower rank.
pub open spec fn in_frame_order(cmds: Seq<Command>) -> bool {
    forall|i: int, j: int|
        0 <= i < j < cmds.len() ==> (#[trigger] cmds[i]).spec_rank() <= (#[trigger] cmds[j]).spec_rank()
}

/// Whether every command of the sequence has a rank between the bounds.
pub open spec fn ranks_within(cmds: Seq<Command>, low: int, high: int) -> bool {
    forall|i: int| 0 <= i < cmds.len() ==> low <= (#[trigger] cmds[i]).spec_rank() <= high
}

/// Two runs of commands that are each in frame order, the first ranked no
/// higher than the second, are in frame order when joined.
pub proof fn lemma_join_in_order(a: Seq<Command>, b: Seq<Command>, low: int, mid: int, high: int)
    requires
        low <= mid <= high,
        in_frame_order(a),
        in_frame_order(b),
        ranks_within(a, low, mid),
        ranks_within(b, mid, high),
    ensures
        in_frame_order(a + b),
        ranks_within(a + b, low, high),
{
    let c = a + b;
    assert forall|i: int| 0 <= i < c.len() implies low <= (#[trigger] c[i]).spec_rank() <= high by {
        if i < a.len() {
            assert(c[i] == a[i]);
        } else {
            assert(c[i] == b[i - a.len()]);
        }
    }
    assert forall|i: int, j: int| 0 <= i < j < c.len() implies (#[trigger] c[i]).spec_rank() <= (
    #[trigger] c[j]).spec_rank() by {
        if j < a.len() {
            assert(c[i] == a[i] && c[j] == a[j]);
        } else if i < a.len() {
            assert(c[i] == a[i] && c[j] == b[j - a.len()]);
        } else {
            assert(c[i] == b[i - a.len()] && c[j] == b[j - a.len()]);
        }
    }
}

/// Collects the commands of a frame while it is being built.
#[derive(Debug)]
pub struct CommandEncoder {
    pub commands: Vec<Command>,
}

impl View for CommandEncoder {
    type V = Seq<Command>;

    open spec fn view(&self) -> Seq<Command> {
        self.commands@
    }
}

/// A finished command sequence, ready for submission.
#[derive(Debug)]
pub struct CommandBuffer {
    pub commands: Vec<Command>,
}

impl View for CommandBuffer {
    type V = Seq<Command>;

    open spec fn view(&self) -> Seq<Command> {
        self.commands@
    }
}

impl CommandEncoder {
    /// An encoder with nothing recorded.
    pub fn new() -> (e: CommandEncoder)
        ensures
            e@ == Seq::<Command>::empty(),
    {
        CommandEncoder { commands: Vec::new() }
    }

    /// Records one command after those already recorded.
    pub fn record(&mut self, command: Command)
        ensures
            final(self)@ == old(self)@.push(command),
    {
        self.commands.push(command);
    }

    /// Closes the recording.
    pub fn finish(self) -> (b: CommandBuffer)
        ensures
            b@ == self@,
    {
        CommandBuffer { commands: self.commands }
    }
}

} // verus!
