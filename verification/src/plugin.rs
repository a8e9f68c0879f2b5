//! Dispatch and processing guard: the pass that completes each shape entity
//! with a mesh, at most once per entity.
//!
//! For every entity the pass (1) skips it when its processed flag is already
//! set, (2) otherwise routes it by mode to the fill or the stroke engine,
//! (3) on success assembles the mesh, registers it, writes the handle into
//! the entity and sets it visible and processed, and (4) on failure leaves
//! the entity untouched so that one entity's bad geometry never disturbs the
//! others.

use crate::buffers::VertexBuffers;
use crate::entity::{mode_engine, EngineKind, ShapeEntity, TessellationMode};
use crate::mesh::{
    build_mesh, lemma_build_mesh_preserves_wf, mesh_matches_buffers, mesh_wf, Mesh, MeshStorage,
};
use crate::tess::{
    fill_succeeds, new_fill_tessellator, new_stroke_tessellator, stroke_succeeds, tessellate_fill,
    tessellate_stroke, FailureCause,
};
use vstd::prelude::*;

verus! {

/// Tessellation failure as the dispatch pass reports it: which engine failed
/// and the underlying cause from the geometry boundary.
#[derive(Debug)]
pub struct TessellationFailure {
    pub engine: EngineKind,
    pub cause: FailureCause,
}

/// What the pass did with one entity.
#[derive(Debug)]
pub enum PassOutcome {
    /// The entity was already processed; nothing was touched.
    Skipped,
    /// The entity was tessellated; its mesh is registered and its flags are
    /// set.
    Completed,
    /// Tessellation failed; the entity was left untouched.
    Failed(TessellationFailure),
}

/// Whether tessellating this path under this mode succeeds at the geometry
/// boundary (the named success of the engine the mode routes to).
pub open spec fn mode_succeeds(mode: TessellationMode, path: lyon_tessellation::path::Path) -> bool {
    match mode {
        TessellationMode::Fill(options) => fill_succeeds(path, options),
        TessellationMode::Stroke(options) => stroke_succeeds(path, options),
    }
}

/// How one dispatch step relates an entity before and after, the outcome it
/// reported, and a mesh store it may have extended.  `floor` is the store
/// length before the step; `store` is the store at any later moment of the
/// same pass, which only ever grows.
///
/// The three outcomes partition the inputs: a processed entity is skipped,
/// and an unprocessed one is completed exactly when its mode's tessellation
/// of its path succeeds, and fails otherwise — completion is owed, never
/// optional.
pub open spec fn step_summary(
    pre: ShapeEntity,
    post: ShapeEntity,
    oc: PassOutcome,
    floor: nat,
    store: Seq<Mesh>,
) -> bool {
    &&& (oc is Skipped <==> pre.processed)
    &&& (oc is Completed <==> !pre.processed && mode_succeeds(pre.mode, pre.path))
    &&& (oc is Skipped ==> post == pre)
    &&& (oc matches PassOutcome::Failed(e) ==> post == pre && e.engine == mode_engine(pre.mode))
    &&& (oc is Completed ==> {
        &&& !pre.processed
        &&& post.processed
        &&& post.visible
        &&& post.mode == pre.mode
        &&& post.path == pre.path
        &&& post.mesh matches Some(h)
            && floor <= h as nat
            && (h as int) < store.len()
            && mesh_wf(store[h as int])
    })
}

/// Applies one engine's tessellation result to a not-yet-processed entity,
/// exactly: an `Ok` result is owed completion — the buffers are assembled
/// into a mesh, the mesh is registered, its handle is written into the
/// entity, and the entity becomes visible and processed; an `Err` result
/// yields a failure naming the engine and the cause, with entity and store
/// left exactly as they were.
pub fn apply_tessellation(
    entity: &mut ShapeEntity,
    engine: EngineKind,
    tessellated: Result<VertexBuffers, FailureCause>,
    meshes: &mut MeshStorage,
) -> (oc: PassOutcome)
    requires
        !old(entity).processed,
        engine == mode_engine(old(entity).mode),
    ensures
        tessellated matches Ok(buffers) ==> {
            &&& oc is Completed
            &&& final(meshes)@.len() == old(meshes)@.len() + 1
            &&& forall|j: int| 0 <= j < old(meshes)@.len() ==> final(meshes)@[j] == old(meshes)@[j]
            &&& mesh_matches_buffers(final(meshes)@.last(), buffers)
            &&& final(entity).mesh matches Some(h) && h as int == old(meshes)@.len()
            &&& final(entity).visible
            &&& final(entity).processed
            &&& final(entity).mode == old(entity).mode
            &&& final(entity).path == old(entity).path
        },
        tessellated matches Err(cause) ==> {
            &&& oc matches PassOutcome::Failed(f) && f.engine == engine && f.cause == cause
            &&& *final(entity) == *old(entity)
            &&& final(meshes)@ == old(meshes)@
        },
{
    match tessellated {
        Ok(buffers) => {
            let mesh = build_mesh(&buffers);
            let handle = meshes.add(mesh);
            entity.mesh = Some(handle);
            entity.visible = true;
            entity.processed = true;
            PassOutcome::Completed
        },
        Err(cause) => PassOutcome::Failed(TessellationFailure { engine, cause }),
    }
}

/// One dispatch step for one entity.
///
/// Skips an already-processed entity outright.  Otherwise routes the
/// entity's path to the engine its mode names — never to the other one: on a
/// fill entity the stroke engine's state is left untouched, and conversely —
/// and either completes the entity (mesh registered, handle written,
/// visible and processed set) or reports the failure and leaves entity and
/// store exactly as they were.
pub fn complete_entity(
    entity: &mut ShapeEntity,
    fill_tess: &mut lyon_tessellation::FillTessellator,
    stroke_tess: &mut lyon_tessellation::StrokeTessellator,
    meshes: &mut MeshStorage,
) -> (oc: PassOutcome)
    ensures
        step_summary(*old(entity), *final(entity), oc, old(meshes)@.len(), final(meshes)@),
        final(meshes)@.len() >= old(meshes)@.len(),
        forall|j: int| 0 <= j < old(meshes)@.len() ==> final(meshes)@[j] == old(meshes)@[j],
        oc is Completed ==> final(meshes)@.len() == old(meshes)@.len() + 1,
        !(oc is Completed) ==> final(meshes)@ == old(meshes)@,
        old(entity).processed || old(entity).mode is Fill ==> *final(stroke_tess) == *old(
            stroke_tess,
        ),
        old(entity).processed || old(entity).mode is Stroke ==> *final(fill_tess) == *old(
            fill_tess,
        ),
{
    if entity.processed {
        return PassOutcome::Skipped;
    }

    let tessellated: Result<VertexBuffers, FailureCause> = match &entity.mode {
        TessellationMode::Fill(options) => tessellate_fill(fill_tess, &entity.path, options),
        TessellationMode::Stroke(options) => tessellate_stroke(stroke_tess, &entity.path, options),
    };
    let ghost snapshot = tessellated;
    let engine = match &entity.mode {
        TessellationMode::Fill(_) => EngineKind::Fill,
        TessellationMode::Stroke(_) => EngineKind::Stroke,
    };

    let oc = apply_tessellation(entity, engine, tessellated, meshes);
    proof {
        if snapshot is Ok {
            lemma_build_mesh_preserves_wf(meshes@.last(), snapshot->Ok_0);
        }
    }
    oc
}

/// How many of the outcomes completed an entity.
pub open spec fn completed_count(outcomes: Seq<PassOutcome>) -> nat
    decreases outcomes.len(),
{
    if outcomes.len() == 0 {
        0
    } else {
        completed_count(outcomes.drop_last()) + if outcomes.last() is Completed {
            1nat
        } else {
            0nat
        }
    }
}

/// Appending one outcome raises the completed count by one exactly when the
/// outcome is a completion.
proof fn lemma_completed_count_push(outcomes: Seq<PassOutcome>, oc: PassOutcome)
    ensures
        completed_count(outcomes.push(oc)) == completed_count(outcomes) + if oc is Completed {
            1nat
        } else {
            0nat
        },
{
    assert(outcomes.push(oc).drop_last() =~= outcomes);
    assert(outcomes.push(oc).last() == oc);
}

/// A sequence without completions has completed count zero.
proof fn lemma_completed_count_zero(outcomes: Seq<PassOutcome>)
    requires
        forall|i: int| 0 <= i < outcomes.len() ==> !(#[trigger] outcomes[i] is Completed),
    ensures
        completed_count(outcomes) == 0,
    decreases outcomes.len(),
{
    if outcomes.len() > 0 {
        lemma_completed_count_zero(outcomes.drop_last());
    }
}

/// The whole-pass relation: how one run of the dispatch pass relates the
/// entity sequence before and after, the outcome of each entity, and the
/// mesh store before and after.  The store grows by exactly one mesh per
/// completed entity — a pass that completes nothing leaves it as it was —
/// and each completed entity holds its own mesh: two entities completed by
/// the same pass never share a handle.
pub open spec fn pass_spec(
    pre: Seq<ShapeEntity>,
    post: Seq<ShapeEntity>,
    outcomes: Seq<PassOutcome>,
    meshes_pre: Seq<Mesh>,
    meshes_post: Seq<Mesh>,
) -> bool {
    &&& post.len() == pre.len()
    &&& outcomes.len() == pre.len()
    &&& meshes_post.len() == meshes_pre.len() + completed_count(outcomes)
    &&& forall|j: int| 0 <= j < meshes_pre.len() ==> meshes_post[j] == meshes_pre[j]
    &&& forall|i: int|
        0 <= i < pre.len() ==> step_summary(
            pre[i],
            post[i],
            outcomes[i],
            meshes_pre.len(),
            meshes_post,
        )
    &&& forall|i1: int, i2: int|
        0 <= i1 < i2 < pre.len() && #[trigger] outcomes[i1] is Completed
            && #[trigger] outcomes[i2] is Completed ==> post[i1].mesh != post[i2].mesh
}

/// The dispatch pass (run once per scheduling tick): completes every entity
/// of the slice that still needs a mesh, one independent step each.
///
/// Entities already processed are skipped untouched; a failing entity is
/// left untouched and does not disturb the others; previously registered
/// meshes are never changed.  If no entity routes to the stroke engine the
/// stroke engine's state is untouched, and conversely for fill.
#[verifier::loop_isolation(false)]
pub fn complete_shape_bundle(
    entities: &mut Vec<ShapeEntity>,
    fill_tess: &mut lyon_tessellation::FillTessellator,
    stroke_tess: &mut lyon_tessellation::StrokeTessellator,
    meshes: &mut MeshStorage,
) -> (outcomes: Vec<PassOutcome>)
    ensures
        pass_spec(old(entities)@, final(entities)@, outcomes@, old(meshes)@, final(meshes)@),
        (forall|i: int|
            0 <= i < old(entities)@.len() ==> old(entities)@[i].processed || old(
                entities,
            )@[i].mode is Fill) ==> *final(stroke_tess) == *old(stroke_tess),
        (forall|i: int|
            0 <= i < old(entities)@.len() ==> old(entities)@[i].processed || old(
                entities,
            )@[i].mode is Stroke) ==> *final(fill_tess) == *old(fill_tess),
{
    let mut outcomes: Vec<PassOutcome> = Vec::new();
    let entity_count = entities.len();
    let mut i: usize = 0;
    while i < entity_count
        invariant
            i <= entity_count,
            entities@.len() == entity_count,
            outcomes@.len() == i,
            meshes@.len() == old(meshes)@.len() + completed_count(outcomes@),
            forall|j: int| 0 <= j < old(meshes)@.len() ==> meshes@[j] == old(meshes)@[j],
            forall|j: int| i <= j < entity_count ==> entities@[j] == old(entities)@[j],
            forall|j: int|
                0 <= j < i ==> step_summary(
                    old(entities)@[j],
                    entities@[j],
                    outcomes@[j],
                    old(meshes)@.len(),
                    meshes@,
                ),
            forall|j1: int, j2: int|
                0 <= j1 < j2 < i && #[trigger] outcomes@[j1] is Completed
                    && #[trigger] outcomes@[j2] is Completed ==> entities@[j1].mesh
                    != entities@[j2].mesh,
            (forall|j: int|
                0 <= j < i ==> old(entities)@[j].processed || old(entities)@[j].mode is Fill)
                ==> *stroke_tess == *old(stroke_tess),
            (forall|j: int|
                0 <= j < i ==> old(entities)@[j].processed || old(entities)@[j].mode is Stroke)
                ==> *fill_tess == *old(fill_tess),
        decreases entity_count - i,
    {
        let oc = complete_entity(&mut entities[i], fill_tess, stroke_tess, meshes);
        let ghost oc_snapshot = oc;
        let ghost outcomes_before = outcomes@;
        outcomes.push(oc);
        proof {
            lemma_completed_count_push(outcomes_before, oc_snapshot);
        }
        i += 1;
    }
    outcomes
}

/// The process-wide resources the host installs once at setup: the two
/// long-lived engine singletons and the mesh store the pass registers into.
pub struct ShapeResources {
    pub fill_tess: lyon_tessellation::FillTessellator,
    pub stroke_tess: lyon_tessellation::StrokeTessellator,
    pub meshes: MeshStorage,
}

/// The registration hook: it builds the resources the dispatch pass needs.
/// The host creates them once, after entities are spawned and before
/// rendering runs [`complete_shape_bundle`] over the entities each tick.
#[derive(Debug, Clone, Copy, PartialEq, Eq, Structural)]
pub struct ShapePlugin;

impl ShapePlugin {
    /// Creates the two engine singletons and an empty mesh store.
    pub fn build(&self) -> (r: ShapeResources)
        ensures
            r.meshes@ == Seq::<Mesh>::empty(),
    {
        ShapeResources {
            fill_tess: new_fill_tessellator(),
            stroke_tess: new_stroke_tessellator(),
            meshes: MeshStorage::new(),
        }
    }
}

/// Law: the processed flag never resets.  Across any pass, an entity that
/// was processed before is processed after, and an entity the pass completed
/// is processed after — so once set, the flag stays set through every later
/// pass.
pub proof fn lemma_processed_monotone(
    pre: Seq<ShapeEntity>,
    post: Seq<ShapeEntity>,
    outcomes: Seq<PassOutcome>,
    meshes_pre: Seq<Mesh>,
    meshes_post: Seq<Mesh>,
)
    requires
        pass_spec(pre, post, outcomes, meshes_pre, meshes_post),
    ensures
        forall|i: int|
            0 <= i < pre.len() && (pre[i].processed || outcomes[i] is Completed)
                ==> #[trigger] post[i].processed,
{
    assert forall|i: int|
        0 <= i < pre.len() && (pre[i].processed || outcomes[i] is Completed) implies #[trigger] post[i].processed by {
        assert(step_summary(pre[i], post[i], outcomes[i], meshes_pre.len(), meshes_post));
    }
}

/// Law: visibility is never granted before a mesh is assigned.  Any entity
/// a pass newly made visible came out of that pass processed and holding the
/// handle of a well-formed registered mesh.
pub proof fn lemma_visible_entity_has_mesh(
    pre: Seq<ShapeEntity>,
    post: Seq<ShapeEntity>,
    outcomes: Seq<PassOutcome>,
    meshes_pre: Seq<Mesh>,
    meshes_post: Seq<Mesh>,
)
    requires
        pass_spec(pre, post, outcomes, meshes_pre, meshes_post),
    ensures
        forall|i: int|
            0 <= i < pre.len() && !pre[i].visible && #[trigger] post[i].visible ==> {
                &&& post[i].processed
                &&& post[i].mesh matches Some(h)
                    && (h as int) < meshes_post.len()
                    && mesh_wf(meshes_post[h as int])
            },
{
    assert forall|i: int|
        0 <= i < pre.len() && !pre[i].visible && #[trigger] post[i].visible implies {
        &&& post[i].processed
        &&& post[i].mesh matches Some(h)
            && (h as int) < meshes_post.len()
            && mesh_wf(meshes_post[h as int])
    } by {
        assert(step_summary(pre[i], post[i], outcomes[i], meshes_pre.len(), meshes_post));
    }
}

/// Law: the dispatch pass is idempotent.  Run the pass twice over the same
/// entities with no state reset in between: every entity the first pass
/// completed or skipped is skipped — and left untouched — by the second
/// pass, so no entity is ever tessellated more than once; the mesh handle a
/// completed entity received in the first pass still refers, after the
/// second pass, to the very mesh registered for it; and when every entity
/// enters the second pass processed, that pass is a complete no-op — the
/// mesh store comes out exactly as it went in.
pub proof fn lemma_pass_idempotent(
    es0: Seq<ShapeEntity>,
    es1: Seq<ShapeEntity>,
    es2: Seq<ShapeEntity>,
    ocs1: Seq<PassOutcome>,
    ocs2: Seq<PassOutcome>,
    m0: Seq<Mesh>,
    m1: Seq<Mesh>,
    m2: Seq<Mesh>,
)
    requires
        pass_spec(es0, es1, ocs1, m0, m1),
        pass_spec(es1, es2, ocs2, m1, m2),
    ensures
        forall|i: int|
            0 <= i < es0.len() && !(ocs1[i] is Failed) ==> es2[i] == es1[i] && #[trigger] ocs2[i] is Skipped,
        forall|i: int, h: int|
            0 <= i < es0.len() && ocs1[i] is Completed && #[trigger] es1[i].mesh == Some(h as usize)
                && 0 <= h < m1.len() ==> h < m2.len() && m2[h] == #[trigger] m1[h],
        (forall|i: int| 0 <= i < es1.len() ==> #[trigger] es1[i].processed) ==> m2 == m1,
{
    assert forall|i: int|
        0 <= i < es0.len() && !(ocs1[i] is Failed) implies es2[i] == es1[i] && #[trigger] ocs2[i] is Skipped by {
        assert(step_summary(es0[i], es1[i], ocs1[i], m0.len(), m1));
        assert(step_summary(es1[i], es2[i], ocs2[i], m1.len(), m2));
    }
    if forall|i: int| 0 <= i < es1.len() ==> #[trigger] es1[i].processed {
        assert forall|i: int| 0 <= i < ocs2.len() implies !(#[trigger] ocs2[i] is Completed) by {
            assert(step_summary(es1[i], es2[i], ocs2[i], m1.len(), m2));
        }
        lemma_completed_count_zero(ocs2);
        assert(m2 =~= m1);
    }
}

} // verus!
