//! Visibility culling: from a view volume and the object list to the
//! compacted set of objects to draw.
//!
//! There are two cullers. The host culler tests every object itself and
//! returns the indices of the visible ones. The device culler records a
//! dispatch that makes the same selection on the device, to be consumed by
//! indirect draws recorded later in the same sequence.

use vstd::prelude::*;
use crate::commands::Command;
use crate::commands::CommandEncoder;
use crate::commands::DrawStage;
use crate::commands::Viewpoint;
use crate::frustum::Frustum;
use crate::pipelines::Pipeline;
use crate::scene::RenderObject;
use crate::types::ModeData;
use crate::types::RendererMode;
use crate::types::TransparencyType;

verus! {

/// An object is drawn for a view and a class when it is of that class and
/// its bounds reach into the view volume.
pub open spec fn is_visible(
    object: RenderObject,
    frustum: Frustum,
    transparency: TransparencyType,
) -> bool {
    object.transparency == transparency && frustum.spec_contains_sphere(object.bounds)
}

/// The visible objects, by brute force: every index whose object passes the
/// test.
pub open spec fn visible_set(
    objects: Seq<RenderObject>,
    frustum: Frustum,
    transparency: TransparencyType,
) -> Set<int> {
    Set::new(|i: int| 0 <= i < objects.len() && is_visible(objects[i], frustum, transparency))
}

/// The indices of the visible objects, in the order of the object list.
pub open spec fn visible_indices(
    objects: Seq<RenderObject>,
    frustum: Frustum,
    transparency: TransparencyType,
) -> Seq<usize>
    decreases objects.len(),
{
    if objects.len() == 0 {
        Seq::empty()
    } else {
        let before = visible_indices(objects.drop_last(), frustum, transparency);
        if is_visible(objects.last(), frustum, transparency) {
            before.push((objects.len() - 1) as usize)
        } else {
            before
        }
    }
}

/// The compacted list holds exactly the visible objects, each once, in the
/// order of the object list.
pub proof fn lemma_visible_indices(
    objects: Seq<RenderObject>,
    frustum: Frustum,
    transparency: TransparencyType,
)
    requires
        objects.len() <= usize::MAX,
    ensures
        visible_indices(objects, frustum, transparency).len() <= objects.len(),
        forall|k: int|
            0 <= k < visible_indices(objects, frustum, transparency).len() ==> visible_set(
                objects,
                frustum,
                transparency,
            ).contains(#[trigger] visible_indices(objects, frustum, transparency)[k] as int),
        forall|k: int, l: int|
            0 <= k < l < visible_indices(objects, frustum, transparency).len()
                ==> visible_indices(objects, frustum, transparency)[k] < visible_indices(
                objects,
                frustum,
                transparency,
            )[l],
        forall|i: int| #[trigger]
            visible_set(objects, frustum, transparency).contains(i) ==> exists|k: int|
                0 <= k < visible_indices(objects, frustum, transparency).len() && visible_indices(
                    objects,
                    frustum,
                    transparency,
                )[k] == i,
    decreases objects.len(),
{
    let all = visible_indices(objects, frustum, transparency);
    if objects.len() > 0 {
        let shorter = objects.drop_last();
        let before = visible_indices(shorter, frustum, transparency);
        lemma_visible_indices(shorter, frustum, transparency);
        let n = objects.len() - 1;
        assert forall|k: int| 0 <= k < before.len() implies before[k] < n && visible_set(
            objects,
            frustum,
            transparency,
        ).contains(#[trigger] before[k] as int) by {
            assert(visible_set(shorter, frustum, transparency).contains(before[k] as int));
            assert(shorter[before[k] as int] == objects[before[k] as int]);
        }
        assert forall|i: int| #[trigger]
            visible_set(objects, frustum, transparency).contains(i) implies exists|k: int|
            0 <= k < all.len() && all[k] == i by {
            if i < n {
                assert(shorter[i] == objects[i]);
                assert(visible_set(shorter, frustum, transparency).contains(i));
                let k = choose|k: int| 0 <= k < before.len() && before[k] == i;
                assert(all[k] == i);
            } else {
                assert(all[all.len() - 1] == i);
            }
        }
    }
}

/// The visible objects of one view, as the culler left them: on the host
/// path the indices themselves, on the device path the number of objects
/// that the dispatch examines.
#[derive(Debug)]
pub struct CulledObjects {
    pub view: Viewpoint,
    pub calls: ModeData<Vec<usize>, usize>,
}

impl CulledObjects {
    /// The set is what culling in the given mode yields for the view, the
    /// class and the objects.
    pub open spec fn spec_is_result_of(
        self,
        mode: RendererMode,
        view: Viewpoint,
        frustum: Frustum,
        objects: Seq<RenderObject>,
        transparency: TransparencyType,
    ) -> bool {
        &&& self.view == view
        &&& match self.calls {
            ModeData::Cpu(indices) => mode == RendererMode::CpuPowered && indices@
                == visible_indices(objects, frustum, transparency),
            ModeData::Gpu(count) => mode == RendererMode::GpuPowered && count == objects.len(),
        }
    }

    /// The objects that draws of this set reach. A host set lists them; a
    /// device set stands for what its dispatch selects among the objects it
    /// examines.
    pub open spec fn spec_members(
        self,
        frustum: Frustum,
        objects: Seq<RenderObject>,
        transparency: TransparencyType,
    ) -> Set<int> {
        match self.calls {
            ModeData::Cpu(indices) => Set::new(
                |i: int| exists|k: int| 0 <= k < indices@.len() && indices@[k] == i,
            ),
            ModeData::Gpu(count) => visible_set(
                objects.take(count as int),
                frustum,
                transparency,
            ),
        }
    }

    /// The draws that a pass records for this set: one per object on the
    /// host path, a single indirect draw on the device path.
    pub open spec fn spec_draw_commands(
        self,
        stage: DrawStage,
        transparency: TransparencyType,
        pipeline: Pipeline,
    ) -> Seq<Command> {
        match self.calls {
            ModeData::Cpu(indices) => Seq::new(
                indices@.len(),
                |k: int|
                    Command::Draw {
                        stage,
                        view: self.view,
                        transparency,
                        pipeline,
                        object: indices@[k],
                    },
            ),
            ModeData::Gpu(_) => seq![
                Command::DrawIndirect { stage, view: self.view, transparency, pipeline },
            ],
        }
    }

    /// Records the draws of this set.
    pub fn draw(
        &self,
        encoder: &mut CommandEncoder,
        stage: DrawStage,
        transparency: TransparencyType,
        pipeline: Pipeline,
    )
        ensures
            final(encoder)@ == old(encoder)@ + self.spec_draw_commands(
                stage,
                transparency,
                pipeline,
            ),
    {
        match &self.calls {
            ModeData::Cpu(indices) => {
                let mut k: usize = 0;
                while k < indices.len()
                    invariant
                        k <= indices@.len(),
                        self.calls == ModeData::<Vec<usize>, usize>::Cpu(*indices),
                        encoder@ == old(encoder)@ + self.spec_draw_commands(
                            stage,
                            transparency,
                            pipeline,
                        ).take(k as int),
                    decreases indices@.len() - k,
                {
                    encoder.record(
                        Command::Draw {
                            stage,
                            view: self.view,
                            transparency,
                            pipeline,
                            object: indices[k],
                        },
                    );
                    k += 1;
                    assert(encoder@ =~= old(encoder)@ + self.spec_draw_commands(
                        stage,
                        transparency,
                        pipeline,
                    ).take(k as int));
                }
                assert(encoder@ =~= old(encoder)@ + self.spec_draw_commands(
                    stage,
                    transparency,
                    pipeline,
                ));
            },
            ModeData::Gpu(_) => {
                encoder.record(
                    Command::DrawIndirect { stage, view: self.view, transparency, pipeline },
                );
                assert(encoder@ =~= old(encoder)@ + self.spec_draw_commands(
                    stage,
                    transparency,
                    pipeline,
                ));
            },
        }
    }
}

/// The draws that a frame records for one view and class, from the scene
/// alone.
pub open spec fn expected_draws(
    mode: RendererMode,
    stage: DrawStage,
    view: Viewpoint,
    frustum: Frustum,
    objects: Seq<RenderObject>,
    transparency: TransparencyType,
    pipeline: Pipeline,
) -> Seq<Command> {
    match mode {
        RendererMode::CpuPowered => {
            let indices = visible_indices(objects, frustum, transparency);
            Seq::new(
                indices.len(),
                |k: int| Command::Draw { stage, view, transparency, pipeline, object: indices[k] },
            )
        },
        RendererMode::GpuPowered => seq![
            Command::DrawIndirect { stage, view, transparency, pipeline },
        ],
    }
}

/// The dispatches that culling one view and class records: none on the host
/// path, one on the device path.
pub open spec fn expected_dispatch(
    mode: RendererMode,
    view: Viewpoint,
    objects: Seq<RenderObject>,
    transparency: TransparencyType,
) -> Seq<Command> {
    match mode {
        RendererMode::CpuPowered => Seq::empty(),
        RendererMode::GpuPowered => seq![
            Command::CullDispatch { view, transparency, objects: objects.len() as usize },
        ],
    }
}

/// A culled set draws exactly what the scene prescribes.
pub proof fn lemma_result_draws(
    culled: CulledObjects,
    mode: RendererMode,
    stage: DrawStage,
    view: Viewpoint,
    frustum: Frustum,
    objects: Seq<RenderObject>,
    transparency: TransparencyType,
    pipeline: Pipeline,
)
    requires
        culled.spec_is_result_of(mode, view, frustum, objects, transparency),
    ensures
        culled.spec_draw_commands(stage, transparency, pipeline) == expected_draws(
            mode,
            stage,
            view,
            frustum,
            objects,
            transparency,
            pipeline,
        ),
{
    assert(culled.spec_draw_commands(stage, transparency, pipeline) =~= expected_draws(
        mode,
        stage,
        view,
        frustum,
        objects,
        transparency,
        pipeline,
    ));
}

/// What a culler is asked: the view, its volume, the objects and the class
/// to keep.
pub struct CullArgs<'a> {
    pub view: Viewpoint,
    pub frustum: &'a Frustum,
    pub objects: &'a Vec<RenderObject>,
    pub transparency: TransparencyType,
}

/// The culler that runs on the calling thread.
#[derive(Clone, Copy, Debug, PartialEq, Eq, Structural)]
pub struct CpuCuller {}

impl CpuCuller {
    pub fn new() -> (c: CpuCuller)
        ensures
            c == (CpuCuller {  }),
    {
        CpuCuller {  }
    }

    /// Tests every object and keeps the indices of the visible ones, in the
    /// order of the object list.
    pub fn cull(&self, args: CullArgs) -> (culled: CulledObjects)
        ensures
            culled.spec_is_result_of(
                RendererMode::CpuPowered,
                args.view,
                *args.frustum,
                args.objects@,
                args.transparency,
            ),
            culled.spec_members(*args.frustum, args.objects@, args.transparency) == visible_set(
                args.objects@,
                *args.frustum,
                args.transparency,
            ),
    {
        let mut indices: Vec<usize> = Vec::new();
        let mut i: usize = 0;
        while i < args.objects.len()
            invariant
                i <= args.objects@.len(),
                indices@ == visible_indices(
                    args.objects@.take(i as int),
                    *args.frustum,
                    args.transparency,
                ),
            decreases args.objects@.len() - i,
        {
            let object = &args.objects[i];
            let keep = object.transparency == args.transparency && args.frustum.contains_sphere(
                &object.bounds,
            );
            proof {
                let longer = args.objects@.take(i + 1);
                assert(longer.drop_last() =~= args.objects@.take(i as int));
                assert(longer.last() == args.objects@[i as int]);
            }
            if keep {
                indices.push(i);
            }
            i += 1;
        }
        assert(args.objects@.take(i as int) =~= args.objects@);
        let culled = CulledObjects { view: args.view, calls: ModeData::Cpu(indices) };
        proof {
            lemma_host_members(culled, *args.frustum, args.objects@, args.transparency);
        }
        culled
    }
}

/// A host set whose list is the compacted list reaches exactly the visible
/// objects.
pub proof fn lemma_host_members(
    culled: CulledObjects,
    frustum: Frustum,
    objects: Seq<RenderObject>,
    transparency: TransparencyType,
)
    requires
        objects.len() <= usize::MAX,
        culled.calls matches ModeData::Cpu(indices) && indices@ == visible_indices(
            objects,
            frustum,
            transparency,
        ),
    ensures
        culled.spec_members(frustum, objects, transparency) == visible_set(
            objects,
            frustum,
            transparency,
        ),
{
    lemma_visible_indices(objects, frustum, transparency);
    let listed = visible_indices(objects, frustum, transparency);
    let members = culled.spec_members(frustum, objects, transparency);
    let reference = visible_set(objects, frustum, transparency);
    assert forall|i: int| members.contains(i) <==> reference.contains(i) by {
        if members.contains(i) {
            let k = choose|k: int| 0 <= k < listed.len() && listed[k] == i;
            assert(reference.contains(listed[k] as int));
        }
    }
    assert(members =~= reference);
}

/// The culler that runs on the device.
#[derive(Clone, Copy, Debug, PartialEq, Eq, Structural)]
pub struct GpuCuller {}

impl GpuCuller {
    pub fn new() -> (c: GpuCuller)
        ensures
            c == (GpuCuller {  }),
    {
        GpuCuller {  }
    }

    /// Records the dispatch that selects the visible objects on the device.
    /// The returned set holds no indices: indirect draws recorded after the
    /// dispatch read its output.
    pub fn cull(&self, encoder: &mut CommandEncoder, args: CullArgs) -> (culled: CulledObjects)
        ensures
            final(encoder)@ == old(encoder)@.push(
                Command::CullDispatch {
                    view: args.view,
                    transparency: args.transparency,
                    objects: args.objects@.len() as usize,
                },
            ),
            culled.spec_is_result_of(
                RendererMode::GpuPowered,
                args.view,
                *args.frustum,
                args.objects@,
                args.transparency,
            ),
            culled.spec_members(*args.frustum, args.objects@, args.transparency) == visible_set(
                args.objects@,
                *args.frustum,
                args.transparency,
            ),
    {
        let count = args.objects.len();
        encoder.record(
            Command::CullDispatch { view: args.view, transparency: args.transparency, objects: count },
        );
        assert(args.objects@.take(count as int) =~= args.objects@);
        CulledObjects { view: args.view, calls: ModeData::Gpu(count) }
    }
}

/// The culler that a renderer uses: exactly one of the two, chosen by the
/// renderer's mode when the routine is built.
pub type Culler<'a> = ModeData<&'a CpuCuller, &'a GpuCuller>;

/// Culls with whichever culler is in use.
pub fn cull(culler: Culler, encoder: &mut CommandEncoder, args: CullArgs) -> (culled: CulledObjects)
    ensures
        final(encoder)@ == old(encoder)@ + expected_dispatch(
            culler.spec_mode(),
            args.view,
            args.objects@,
            args.transparency,
        ),
        culled.spec_is_result_of(
            culler.spec_mode(),
            args.view,
            *args.frustum,
            args.objects@,
            args.transparency,
        ),
        culled.spec_members(*args.frustum, args.objects@, args.transparency) == visible_set(
            args.objects@,
            *args.frustum,
            args.transparency,
        ),
{
    match culler {
        ModeData::Cpu(host) => {
            let culled = host.cull(args);
            assert(encoder@ =~= old(encoder)@ + Seq::<Command>::empty());
            culled
        },
        ModeData::Gpu(device) => {
            let ghost before = encoder@;
            let culled = device.cull(encoder, args);
            assert(encoder@ =~= before + expected_dispatch(
                RendererMode::GpuPowered,
                args.view,
                args.objects@,
                args.transparency,
            ));
            culled
        },
    }
}

} // verus!
