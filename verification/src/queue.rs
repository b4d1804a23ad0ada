//! The per-view phase queuer: for each drawable entity holding an instance
//! collection, resolve its GPU mesh and material, derive the pipeline key,
//! obtain the specialized pipeline from the host's cache, and append one phase
//! item to exactly one of the view's three phases — or skip the entity this
//! frame when a resource is not yet resident, or abort the view's pass when
//! the host's base specialization rejects a key.
//!
//! The sort distance of an item is the view-space depth of the mesh's world
//! transform plus the material's depth bias. The host computes that sum in
//! floating point and hands it in; this crate carries it through unchanged as
//! the raw bit pattern of an IEEE-754 single.

use vstd::prelude::*;

use crate::draw::GpuMesh;
use crate::phase::{AlphaMode, Phase, classify_alpha_mode, spec_phase};
use crate::pipeline::{
    PipelineKey, SpecializeError, ViewInfo, compute_pipeline_key, spec_pipeline_key,
};

verus! {

/// What the queuer reads of a GPU-resident material.
#[derive(Clone, Copy, PartialEq, Eq, Debug)]
pub struct GpuMaterial {
    pub alpha_mode: AlphaMode,
    pub bind_group_data: u64,
}

/// One entry of a view's phase list: the entity, the identifier of the draw
/// command that will consume the item, the cached specialized pipeline, and
/// the sort distance (an IEEE-754 single bit pattern) the host orders the
/// phase by.
#[derive(Clone, Copy, PartialEq, Eq, Structural, Debug)]
pub struct PhaseItem {
    pub entity: u64,
    pub draw_function: u64,
    pub pipeline: u64,
    pub distance_bits: u32,
}

/// The identifiers of the registered instanced draw command, one per phase.
#[derive(Clone, Copy, PartialEq, Eq, Structural, Debug)]
pub struct PhaseDrawFunctions {
    pub opaque: u64,
    pub alpha_mask: u64,
    pub transparent: u64,
}

/// One drawable entity as the queuer sees it for one view this frame: its GPU
/// mesh and material if resident, the host pipeline cache's answer for the
/// entity's pipeline key, and the host-computed sort distance.
#[derive(Clone, Copy, PartialEq, Eq, Debug)]
pub struct QueueCandidate {
    pub entity: u64,
    pub mesh: Option<GpuMesh>,
    pub material: Option<GpuMaterial>,
    pub pipeline: Result<u64, SpecializeError>,
    pub distance_bits: u32,
}

/// The three phase lists one view's queuing pass fills.
pub struct QueuedPhases {
    pub opaque: Vec<PhaseItem>,
    pub alpha_mask: Vec<PhaseItem>,
    pub transparent: Vec<PhaseItem>,
}

/// The queued phases at the specification level.
pub struct QueuedItemSeqs {
    pub opaque: Seq<PhaseItem>,
    pub alpha_mask: Seq<PhaseItem>,
    pub transparent: Seq<PhaseItem>,
}

/// Both GPU resources of a candidate are resident this frame.
pub open spec fn resolved(candidate: QueueCandidate) -> bool {
    candidate.mesh is Some && candidate.material is Some
}

/// The draw-command identifier items of the given phase carry.
pub open spec fn spec_draw_function(draw_functions: PhaseDrawFunctions, phase: Phase) -> u64 {
    match phase {
        Phase::Opaque => draw_functions.opaque,
        Phase::AlphaMask => draw_functions.alpha_mask,
        Phase::Transparent => draw_functions.transparent,
    }
}

/// What one candidate adds to the queued phases: nothing when a resource is
/// missing or its specialization failed, otherwise one item appended to
/// exactly the phase its alpha mode classifies to.
pub open spec fn spec_queue_step(
    candidate: QueueCandidate,
    draw_functions: PhaseDrawFunctions,
    acc: QueuedItemSeqs,
) -> QueuedItemSeqs {
    match (candidate.mesh, candidate.material) {
        (Some(_), Some(material)) => match candidate.pipeline {
            Ok(pipeline_id) => {
                let item = PhaseItem {
                    entity: candidate.entity,
                    draw_function: spec_draw_function(
                        draw_functions,
                        spec_phase(material.alpha_mode),
                    ),
                    pipeline: pipeline_id,
                    distance_bits: candidate.distance_bits,
                };
                match spec_phase(material.alpha_mode) {
                    Phase::Opaque => QueuedItemSeqs {
                        opaque: acc.opaque.push(item),
                        alpha_mask: acc.alpha_mask,
                        transparent: acc.transparent,
                    },
                    Phase::AlphaMask => QueuedItemSeqs {
                        opaque: acc.opaque,
                        alpha_mask: acc.alpha_mask.push(item),
                        transparent: acc.transparent,
                    },
                    Phase::Transparent => QueuedItemSeqs {
                        opaque: acc.opaque,
                        alpha_mask: acc.alpha_mask,
                        transparent: acc.transparent.push(item),
                    },
                }
            },
            Err(_) => acc,
        },
        _ => acc,
    }
}

/// The phases a whole candidate list queues, in list order.
pub open spec fn spec_queued(
    candidates: Seq<QueueCandidate>,
    draw_functions: PhaseDrawFunctions,
) -> QueuedItemSeqs
    decreases candidates.len(),
{
    if candidates.len() == 0 {
        QueuedItemSeqs {
            opaque: Seq::empty(),
            alpha_mask: Seq::empty(),
            transparent: Seq::empty(),
        }
    } else {
        spec_queue_step(
            candidates.last(),
            draw_functions,
            spec_queued(candidates.drop_last(), draw_functions),
        )
    }
}

/// Some resolved candidate's specialization was rejected by the host.
pub open spec fn spec_has_failure(candidates: Seq<QueueCandidate>) -> bool {
    exists|i: int|
        0 <= i < candidates.len() && resolved(#[trigger] candidates[i])
            && candidates[i].pipeline is Err
}

/// The number of candidates that queue an item: those whose resources are
/// resident and whose specialization succeeded.
pub open spec fn spec_queued_count(candidates: Seq<QueueCandidate>) -> int
    decreases candidates.len(),
{
    if candidates.len() == 0 {
        0
    } else {
        spec_queued_count(candidates.drop_last()) + if resolved(candidates.last())
            && candidates.last().pipeline is Ok {
            1int
        } else {
            0int
        }
    }
}

/// Law: an entity appears in at most one phase per view. Each candidate with
/// resident resources and a specialized pipeline queues exactly one item into
/// exactly one phase, and the skipped candidates queue nothing, so the three
/// phase lists together hold one item per such candidate.
pub proof fn lemma_one_phase_per_candidate(
    candidates: Seq<QueueCandidate>,
    draw_functions: PhaseDrawFunctions,
)
    ensures
        spec_queued(candidates, draw_functions).opaque.len() + spec_queued(
            candidates,
            draw_functions,
        ).alpha_mask.len() + spec_queued(candidates, draw_functions).transparent.len()
            == spec_queued_count(candidates),
        spec_queued_count(candidates) <= candidates.len(),
    decreases candidates.len(),
{
    if candidates.len() > 0 {
        lemma_one_phase_per_candidate(candidates.drop_last(), draw_functions);
    }
}

/// Resolution step: the pipeline key to specialize for one entity under one
/// view, or nothing when its GPU mesh or material is not yet resident — the
/// entity is skipped for this view this frame, not an error.
pub fn pipeline_key_for(
    view: &ViewInfo,
    mesh: Option<&GpuMesh>,
    material: Option<&GpuMaterial>,
) -> (key: Option<PipelineKey>)
    ensures
        match (mesh, material) {
            (Some(mesh), Some(material)) => key == Some(
                spec_pipeline_key(
                    *view,
                    mesh.topology,
                    material.alpha_mode,
                    material.bind_group_data,
                ),
            ),
            _ => key is None,
        },
{
    match (mesh, material) {
        (Some(mesh), Some(material)) => Some(
            compute_pipeline_key(view, mesh.topology, &material.alpha_mode, material.bind_group_data),
        ),
        _ => None,
    }
}

/// The draw-command identifier for one phase.
fn draw_function_for(draw_functions: &PhaseDrawFunctions, phase: Phase) -> (id: u64)
    ensures
        id == spec_draw_function(*draw_functions, phase),
{
    match phase {
        Phase::Opaque => draw_functions.opaque,
        Phase::AlphaMask => draw_functions.alpha_mask,
        Phase::Transparent => draw_functions.transparent,
    }
}

/// Queuing step for one resolved entity: a specialization failure is
/// propagated unchanged; otherwise the entity's one phase item and the one
/// phase it belongs to, classified by alpha mode alone.
pub fn queue_phase_item(
    entity: u64,
    material: &GpuMaterial,
    pipeline: Result<u64, SpecializeError>,
    distance_bits: u32,
    draw_functions: &PhaseDrawFunctions,
) -> (queued: Result<(Phase, PhaseItem), SpecializeError>)
    ensures
        pipeline matches Err(e) ==> queued matches Err(e2) && e2 == e,
        pipeline matches Ok(pipeline_id) ==> queued matches Ok(pair) && pair.0 == spec_phase(
            material.alpha_mode,
        ) && pair.1 == (PhaseItem {
            entity,
            draw_function: spec_draw_function(*draw_functions, spec_phase(material.alpha_mode)),
            pipeline: pipeline_id,
            distance_bits,
        }),
{
    match pipeline {
        Err(e) => Err(e),
        Ok(pipeline_id) => {
            let phase = classify_alpha_mode(&material.alpha_mode);
            let item = PhaseItem {
                entity,
                draw_function: draw_function_for(draw_functions, phase),
                pipeline: pipeline_id,
                distance_bits,
            };
            Ok((phase, item))
        },
    }
}

/// One view's whole queuing pass. Every candidate with a missing resource is
/// skipped; every other candidate appends exactly one item to exactly one
/// phase, in candidate order. A rejected specialization aborts the pass for
/// the whole view and nothing is queued — the propagation the host's design
/// asks for, kept deliberately asymmetric to the resource-not-ready skip.
pub fn queue_view(
    candidates: &Vec<QueueCandidate>,
    draw_functions: &PhaseDrawFunctions,
) -> (queued: Result<QueuedPhases, SpecializeError>)
    ensures
        queued is Ok <==> !spec_has_failure(candidates@),
        queued matches Err(e) ==> exists|i: int|
            0 <= i < candidates@.len() && resolved(#[trigger] candidates@[i])
                && candidates@[i].pipeline == Result::<u64, SpecializeError>::Err(e),
        queued matches Ok(phases) ==> {
            &&& phases.opaque@ == spec_queued(candidates@, *draw_functions).opaque
            &&& phases.alpha_mask@ == spec_queued(candidates@, *draw_functions).alpha_mask
            &&& phases.transparent@ == spec_queued(candidates@, *draw_functions).transparent
        },
{
    let mut opaque: Vec<PhaseItem> = Vec::new();
    let mut alpha_mask: Vec<PhaseItem> = Vec::new();
    let mut transparent: Vec<PhaseItem> = Vec::new();
    let mut i: usize = 0;
    while i < candidates.len()
        invariant
            i <= candidates@.len(),
            !spec_has_failure(candidates@.take(i as int)),
            opaque@ == spec_queued(candidates@.take(i as int), *draw_functions).opaque,
            alpha_mask@ == spec_queued(candidates@.take(i as int), *draw_functions).alpha_mask,
            transparent@ == spec_queued(candidates@.take(i as int), *draw_functions).transparent,
        decreases candidates@.len() - i,
    {
        let candidate = candidates[i];
        if let (Some(_), Some(material)) = (candidate.mesh, candidate.material) {
            match candidate.pipeline {
                Err(e) => {
                    proof {
                        assert(resolved(candidates@[i as int])
                            && candidates@[i as int].pipeline is Err);
                        assert(candidates@[i as int].pipeline
                            == Result::<u64, SpecializeError>::Err(e));
                    }
                    return Err(e);
                },
                Ok(pipeline_id) => {
                    let phase = classify_alpha_mode(&material.alpha_mode);
                    let item = PhaseItem {
                        entity: candidate.entity,
                        draw_function: draw_function_for(draw_functions, phase),
                        pipeline: pipeline_id,
                        distance_bits: candidate.distance_bits,
                    };
                    match phase {
                        Phase::Opaque => opaque.push(item),
                        Phase::AlphaMask => alpha_mask.push(item),
                        Phase::Transparent => transparent.push(item),
                    }
                },
            }
        }
        proof {
            let taken = candidates@.take(i as int);
            let taken_next = candidates@.take(i + 1 as int);
            assert(taken_next.drop_last() =~= taken);
            assert(taken_next.last() == candidates@[i as int]);
            assert(!spec_has_failure(taken_next)) by {
                if spec_has_failure(taken_next) {
                    let j = choose|j: int|
                        0 <= j < taken_next.len() && resolved(#[trigger] taken_next[j])
                            && taken_next[j].pipeline is Err;
                    if j < i as int {
                        assert(taken[j] == taken_next[j]);
                        assert(spec_has_failure(taken));
                    }
                }
            }
        }
        i = i + 1;
    }
    proof {
        assert(candidates@.take(candidates@.len() as int) =~= candidates@);
    }
    Ok(QueuedPhases { opaque, alpha_mask, transparent })
}

} // verus!
