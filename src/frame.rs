use vstd::prelude::*;
use crate::targets::RenderTargets;

verus! {

/// The compiled pipelines, by shader program.
#[derive(Clone, Copy, Debug, PartialEq, Eq, Structural)]
pub enum PipelineKind {
    /// The fullscreen pass that composites the low-resolution image.
    Composite,
    /// Scene geometry.
    Standard,
    /// The ground variant of the scene shader.
    Floor,
}

/// What the renderer needs to know of an entity to draw it.
#[derive(Clone, Copy, Debug, PartialEq, Eq, Structural)]
pub struct EntityDraw {
    pub pipeline: PipelineKind,
    /// Number of indices of the entity's mesh.
    pub index_count: u32,
    /// Number of instance transforms, or `None` for an entity without an
    /// instance set, which is drawn once with the identity transform.
    pub instances: Option<u32>,
}

/// One step of recording a frame.
#[derive(Clone, Copy, Debug, PartialEq, Eq, Structural)]
pub enum RenderCommand {
    /// Begin the scene pass on the low-resolution color and depth targets,
    /// clearing color to the ambient color and depth to 1.0.
    BeginScenePass { width: u32, height: u32 },
    SetPipeline(PipelineKind),
    /// Bind the material of the entity with this index at slot 0.
    BindMaterial(usize),
    /// Bind the shared camera uniform at slot 1.
    BindCamera,
    /// Bind the mesh vertex buffer of the entity with this index.
    SetVertexBuffer(usize),
    /// Bind the instance buffer of the entity with this index.
    SetInstanceBuffer(usize),
    /// Bind the mesh index buffer of the entity with this index.
    SetIndexBuffer(usize),
    /// Draw indices `0..index_count` for `instance_count` instances.
    DrawIndexed { index_count: u32, instance_count: u32 },
    EndPass,
    /// Begin the composite pass on the acquired surface image, loading its
    /// contents rather than clearing them.
    BeginCompositePass { width: u32, height: u32 },
    /// Bind the low-resolution target's sampling bind group at slot 0.
    BindLowRes,
    /// Bind the vertex and index buffers of the fullscreen quad.
    BindScreenQuad,
    Submit,
    Present,
}

/// Number of indices of the fullscreen quad.
pub const QUAD_INDICES: u32 = 6;

/// The number of instances an entity is drawn with.
pub open spec fn instance_count_of(e: EntityDraw) -> u32 {
    match e.instances {
        Some(n) => n,
        None => 1,
    }
}

/// The commands that draw entity `i`.
pub open spec fn entity_commands(i: int, e: EntityDraw) -> Seq<RenderCommand> {
    let head = seq![
        RenderCommand::SetPipeline(e.pipeline),
        RenderCommand::BindMaterial(i as usize),
        RenderCommand::BindCamera,
        RenderCommand::SetVertexBuffer(i as usize),
    ];
    let inst = if e.instances is Some {
        seq![RenderCommand::SetInstanceBuffer(i as usize)]
    } else {
        Seq::empty()
    };
    head + inst + seq![
        RenderCommand::SetIndexBuffer(i as usize),
        RenderCommand::DrawIndexed { index_count: e.index_count, instance_count: instance_count_of(e) },
    ]
}

/// The commands that draw the entities, in list order.
pub open spec fn scene_commands(es: Seq<EntityDraw>) -> Seq<RenderCommand>
    decreases es.len(),
{
    if es.len() == 0 {
        Seq::empty()
    } else {
        scene_commands(es.drop_last()) + entity_commands(es.len() - 1, es.last())
    }
}

/// The commands after the scene pass: composite, submit, present.
pub open spec fn composite_commands(t: RenderTargets) -> Seq<RenderCommand> {
    seq![
        RenderCommand::BeginCompositePass { width: t.surface_width, height: t.surface_height },
        RenderCommand::SetPipeline(PipelineKind::Composite),
        RenderCommand::BindLowRes,
        RenderCommand::BindScreenQuad,
        RenderCommand::DrawIndexed { index_count: QUAD_INDICES, instance_count: 1 },
        RenderCommand::EndPass,
        RenderCommand::Submit,
        RenderCommand::Present,
    ]
}

/// The whole frame once the surface image has been acquired.
pub open spec fn frame_commands(es: Seq<EntityDraw>, t: RenderTargets) -> Seq<RenderCommand> {
    seq![RenderCommand::BeginScenePass { width: t.low_res_width, height: t.low_res_height }]
        + scene_commands(es) + seq![RenderCommand::EndPass] + composite_commands(t)
}

fn push_entity(out: &mut Vec<RenderCommand>, i: usize, e: EntityDraw)
    ensures
        final(out)@ == old(out)@ + entity_commands(i as int, e),
{
    out.push(RenderCommand::SetPipeline(e.pipeline));
    out.push(RenderCommand::BindMaterial(i));
    out.push(RenderCommand::BindCamera);
    out.push(RenderCommand::SetVertexBuffer(i));
    let count: u32 = match e.instances {
        Some(n) => {
            out.push(RenderCommand::SetInstanceBuffer(i));
            n
        },
        None => 1,
    };
    out.push(RenderCommand::SetIndexBuffer(i));
    out.push(RenderCommand::DrawIndexed { index_count: e.index_count, instance_count: count });
    assert(final(out)@ =~= old(out)@ + entity_commands(i as int, e));
}

/// Records one frame: a scene pass into the low-resolution target that
/// draws every entity in list order over its mesh's full index range, then
/// a composite pass that draws the fullscreen quad onto the surface image,
/// then submit and present.
pub fn frame_plan(entities: &Vec<EntityDraw>, targets: &RenderTargets) -> (r: Vec<RenderCommand>)
    ensures
        r@ == frame_commands(entities@, *targets),
{
    let mut out: Vec<RenderCommand> = Vec::new();
    out.push(RenderCommand::BeginScenePass {
        width: targets.low_res_width,
        height: targets.low_res_height,
    });
    let ghost start = out@;
    let mut i: usize = 0;
    while i < entities.len()
        invariant
            0 <= i <= entities@.len(),
            start == seq![RenderCommand::BeginScenePass { width: targets.low_res_width, height: targets.low_res_height }],
            out@ == start + scene_commands(entities@.subrange(0, i as int)),
        decreases entities@.len() - i,
    {
        let e = entities[i];
        push_entity(&mut out, i, e);
        proof {
            let s = entities@.subrange(0, i + 1);
            assert(s.drop_last() =~= entities@.subrange(0, i as int));
            assert(s.last() == e);
        }
        i = i + 1;
    }
    assert(entities@.subrange(0, entities@.len() as int) =~= entities@);
    out.push(RenderCommand::EndPass);
    out.push(RenderCommand::BeginCompositePass {
        width: targets.surface_width,
        height: targets.surface_height,
    });
    out.push(RenderCommand::SetPipeline(PipelineKind::Composite));
    out.push(RenderCommand::BindLowRes);
    out.push(RenderCommand::BindScreenQuad);
    out.push(RenderCommand::DrawIndexed { index_count: QUAD_INDICES, instance_count: 1 });
    out.push(RenderCommand::EndPass);
    out.push(RenderCommand::Submit);
    out.push(RenderCommand::Present);
    assert(out@ =~= frame_commands(entities@, *targets));
    out
}

/// Why the surface image could not be acquired.
#[derive(Clone, Copy, Debug, PartialEq, Eq, Structural)]
pub enum SurfaceFault {
    Timeout,
    Outdated,
    Lost,
    OutOfMemory,
}

/// Whether reconfiguring the surface recovers from the fault.
pub open spec fn recoverable(f: SurfaceFault) -> bool {
    f == SurfaceFault::Lost || f == SurfaceFault::Outdated
}

/// What to do with a frame once the surface has answered the request for
/// an image.
#[derive(Debug)]
pub enum FrameStep {
    /// Record and submit these commands, then present the image.
    Record(Vec<RenderCommand>),
    /// Reconfigure the surface at its current size and drop this frame.
    Reconfigure,
    /// Report the fault to the caller; nothing is submitted.
    Fail(SurfaceFault),
}

/// Decides the frame after the surface image was requested: a lost or
/// outdated surface is reconfigured and the frame dropped, any other fault
/// is handed to the caller, and an acquired image gets the full frame.
pub fn frame_step(
    acquired: Result<(), SurfaceFault>,
    entities: &Vec<EntityDraw>,
    targets: &RenderTargets,
) -> (r: FrameStep)
    ensures
        acquired is Ok <==> r is Record,
        r matches FrameStep::Record(c) ==> c@ == frame_commands(entities@, *targets),
        acquired matches Err(f) ==> (recoverable(f) <==> r is Reconfigure),
        acquired matches Err(f) ==> (!recoverable(f) <==> r == FrameStep::Fail(f)),
{
    match acquired {
        Ok(()) => FrameStep::Record(frame_plan(entities, targets)),
        Err(SurfaceFault::Lost) | Err(SurfaceFault::Outdated) => FrameStep::Reconfigure,
        Err(f) => FrameStep::Fail(f),
    }
}

/// The draw calls among `cmds`, in order, as (index count, instance count).
pub open spec fn draws(cmds: Seq<RenderCommand>) -> Seq<(u32, u32)>
    decreases cmds.len(),
{
    if cmds.len() == 0 {
        Seq::empty()
    } else {
        let rest = draws(cmds.drop_last());
        match cmds.last() {
            RenderCommand::DrawIndexed { index_count, instance_count } => rest.push(
                (index_count, instance_count),
            ),
            _ => rest,
        }
    }
}

/// The number of times `c` occurs in `cmds`.
pub open spec fn occurrences(cmds: Seq<RenderCommand>, c: RenderCommand) -> nat
    decreases cmds.len(),
{
    if cmds.len() == 0 {
        0
    } else {
        occurrences(cmds.drop_last(), c) + if cmds.last() == c {
            1nat
        } else {
            0nat
        }
    }
}

/// The draw call each entity is expected to produce.
pub open spec fn expected_draws(es: Seq<EntityDraw>) -> Seq<(u32, u32)> {
    es.map_values(|e: EntityDraw| (e.index_count, instance_count_of(e)))
}

proof fn lemma_draws_append(a: Seq<RenderCommand>, b: Seq<RenderCommand>)
    ensures
        draws(a + b) == draws(a) + draws(b),
    decreases b.len(),
{
    if b.len() == 0 {
        assert(a + b =~= a);
        assert(draws(a) + draws(b) =~= draws(a));
    } else {
        assert((a + b).drop_last() =~= a + b.drop_last());
        lemma_draws_append(a, b.drop_last());
        assert((a + b).last() == b.last());
        match b.last() {
            RenderCommand::DrawIndexed { index_count, instance_count } => {
                assert(draws(a) + draws(b.drop_last()).push((index_count, instance_count))
                    =~= (draws(a) + draws(b.drop_last())).push((index_count, instance_count)));
            },
            _ => {},
        }
    }
}

proof fn lemma_occurrences_append(a: Seq<RenderCommand>, b: Seq<RenderCommand>, c: RenderCommand)
    ensures
        occurrences(a + b, c) == occurrences(a, c) + occurrences(b, c),
    decreases b.len(),
{
    if b.len() == 0 {
        assert(a + b =~= a);
    } else {
        assert((a + b).drop_last() =~= a + b.drop_last());
        lemma_occurrences_append(a, b.drop_last(), c);
    }
}

proof fn lemma_entity_commands(i: int, e: EntityDraw)
    ensures
        draws(entity_commands(i, e)) =~= seq![(e.index_count, instance_count_of(e))],
        occurrences(entity_commands(i, e), RenderCommand::Submit) == 0,
        occurrences(entity_commands(i, e), RenderCommand::Present) == 0,
{
    let cmds = entity_commands(i, e);
    reveal_with_fuel(draws, 8);
    reveal_with_fuel(occurrences, 8);
    if e.instances is Some {
        assert(cmds.len() == 7);
    } else {
        assert(cmds.len() == 6);
    }
}

proof fn lemma_scene_commands(es: Seq<EntityDraw>)
    ensures
        draws(scene_commands(es)) == expected_draws(es),
        occurrences(scene_commands(es), RenderCommand::Submit) == 0,
        occurrences(scene_commands(es), RenderCommand::Present) == 0,
    decreases es.len(),
{
    if es.len() == 0 {
        assert(expected_draws(es) =~= Seq::<(u32, u32)>::empty());
    } else {
        let init = es.drop_last();
        lemma_scene_commands(init);
        lemma_entity_commands(es.len() - 1, es.last());
        lemma_draws_append(scene_commands(init), entity_commands(es.len() - 1, es.last()));
        lemma_occurrences_append(scene_commands(init), entity_commands(es.len() - 1, es.last()), RenderCommand::Submit);
        lemma_occurrences_append(scene_commands(init), entity_commands(es.len() - 1, es.last()), RenderCommand::Present);
        assert(expected_draws(es) =~= expected_draws(init).push(
            (es.last().index_count, instance_count_of(es.last())),
        ));
    }
}

proof fn lemma_frame_ends(t: RenderTargets)
    ensures
        draws(seq![RenderCommand::BeginScenePass { width: t.low_res_width, height: t.low_res_height }])
            =~= Seq::<(u32, u32)>::empty(),
        occurrences(seq![RenderCommand::BeginScenePass { width: t.low_res_width, height: t.low_res_height }], RenderCommand::Submit) == 0,
        occurrences(seq![RenderCommand::BeginScenePass { width: t.low_res_width, height: t.low_res_height }], RenderCommand::Present) == 0,
        draws(seq![RenderCommand::EndPass] + composite_commands(t)) =~= seq![(QUAD_INDICES, 1u32)],
        occurrences(seq![RenderCommand::EndPass] + composite_commands(t), RenderCommand::Submit) == 1,
        occurrences(seq![RenderCommand::EndPass] + composite_commands(t), RenderCommand::Present) == 1,
{
    reveal_with_fuel(draws, 10);
    reveal_with_fuel(occurrences, 10);
    let tail = seq![RenderCommand::EndPass] + composite_commands(t);
    assert(tail.len() == 9);
}

/// A frame issues one scene draw per entity, in list order, each over the
/// mesh's full index range and with the entity's instance count (one when
/// it has no instance set), then exactly one composite draw of the
/// fullscreen quad; it is submitted exactly once and presented exactly once.
pub proof fn lemma_frame_draws(es: Seq<EntityDraw>, t: RenderTargets)
    ensures
        draws(frame_commands(es, t)) == expected_draws(es).push((QUAD_INDICES, 1u32)),
        occurrences(frame_commands(es, t), RenderCommand::Submit) == 1,
        occurrences(frame_commands(es, t), RenderCommand::Present) == 1,
        frame_commands(es, t)[0] == (RenderCommand::BeginScenePass {
            width: t.low_res_width,
            height: t.low_res_height,
        }),
{
    let begin = seq![RenderCommand::BeginScenePass { width: t.low_res_width, height: t.low_res_height }];
    let scene = scene_commands(es);
    let tail = seq![RenderCommand::EndPass] + composite_commands(t);
    lemma_scene_commands(es);
    lemma_frame_ends(t);
    lemma_draws_append(begin, scene);
    lemma_draws_append(begin + scene, tail);
    assert(frame_commands(es, t) =~= (begin + scene) + tail);
    lemma_occurrences_append(begin, scene, RenderCommand::Submit);
    lemma_occurrences_append(begin + scene, tail, RenderCommand::Submit);
    lemma_occurrences_append(begin, scene, RenderCommand::Present);
    lemma_occurrences_append(begin + scene, tail, RenderCommand::Present);
}

} // verus!
