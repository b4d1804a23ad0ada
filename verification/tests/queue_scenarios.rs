use instanced_mesh::draw::{DrawMeshInstanced, RenderCommandResult, RenderPassCommand};
use instanced_mesh::pipeline::{PrimitiveTopology, SpecializeError};
use instanced_mesh::queue::{pipeline_key_for, queue_phase_item, queue_view};
use instanced_mesh::{
    prepare_instance_buffer, AlphaMode, GpuMaterial, GpuMesh, Instance, Instances,
    MeshBufferInfo, Phase, PhaseDrawFunctions, Position, QueueCandidate, ViewInfo,
};

fn instance_at(x: f32, y: f32, z: f32) -> Instance {
    Instance { position: Position { x: x.to_bits(), y: y.to_bits(), z: z.to_bits() } }
}

fn three_instances_on_a_line() -> Instances {
    Instances(vec![
        instance_at(0.0, 0.0, 0.0),
        instance_at(1.0, 0.0, 0.0),
        instance_at(2.0, 0.0, 0.0),
    ])
}

fn indexed_cube_mesh() -> GpuMesh {
    GpuMesh {
        topology: PrimitiveTopology::TriangleList,
        buffer_info: MeshBufferInfo::Indexed { count: 36 },
    }
}

fn draw_functions() -> PhaseDrawFunctions {
    PhaseDrawFunctions { opaque: 1, alpha_mask: 2, transparent: 3 }
}

fn cube_candidate(alpha_mode: AlphaMode) -> QueueCandidate {
    QueueCandidate {
        entity: 17,
        mesh: Some(indexed_cube_mesh()),
        material: Some(GpuMaterial { alpha_mode, bind_group_data: 6 }),
        pipeline: Ok(40),
        distance_bits: 2.5f32.to_bits(),
    }
}

#[test]
fn scenario_opaque_indexed_cube_queues_one_opaque_item_and_one_draw_call() {
    let queued = queue_view(&vec![cube_candidate(AlphaMode::Opaque)], &draw_functions())
        .expect("no specialization failure");
    assert_eq!(queued.opaque.len(), 1);
    assert_eq!(queued.alpha_mask.len(), 0);
    assert_eq!(queued.transparent.len(), 0);
    let item = queued.opaque[0];
    assert_eq!(item.entity, 17);
    assert_eq!(item.draw_function, 1);
    assert_eq!(item.pipeline, 40);
    assert_eq!(item.distance_bits, 2.5f32.to_bits());

    let buffer = prepare_instance_buffer(&three_instances_on_a_line());
    let (outcome, commands) = DrawMeshInstanced::render(Some(&indexed_cube_mesh()), &buffer);
    assert_eq!(outcome, RenderCommandResult::Success);
    assert_eq!(
        commands,
        vec![
            RenderPassCommand::SetVertexBuffer { slot: 0 },
            RenderPassCommand::SetVertexBuffer { slot: 1 },
            RenderPassCommand::SetIndexBuffer,
            RenderPassCommand::DrawIndexed {
                index_start: 0,
                index_end: 36,
                base_vertex: 0,
                instance_start: 0,
                instance_end: 3,
            },
        ]
    );
}

#[test]
fn scenario_blend_material_queues_into_transparent_only() {
    let queued = queue_view(&vec![cube_candidate(AlphaMode::Blend)], &draw_functions())
        .expect("no specialization failure");
    assert_eq!(queued.opaque.len(), 0);
    assert_eq!(queued.alpha_mask.len(), 0);
    assert_eq!(queued.transparent.len(), 1);
    assert_eq!(queued.transparent[0].entity, 17);
    assert_eq!(queued.transparent[0].draw_function, 3);
}

#[test]
fn scenario_unresolved_material_is_skipped_until_it_resolves() {
    let mut candidate = cube_candidate(AlphaMode::Opaque);
    candidate.material = None;
    let queued = queue_view(&vec![candidate], &draw_functions()).expect("skip is not a failure");
    assert_eq!(queued.opaque.len(), 0);
    assert_eq!(queued.alpha_mask.len(), 0);
    assert_eq!(queued.transparent.len(), 0);

    // The next frame the material is resident and the entity reappears.
    let queued = queue_view(&vec![cube_candidate(AlphaMode::Opaque)], &draw_functions())
        .expect("no specialization failure");
    assert_eq!(queued.opaque.len(), 1);
}

#[test]
fn mask_material_queues_into_alpha_mask_for_any_threshold() {
    let queued = queue_view(
        &vec![cube_candidate(AlphaMode::Mask(0.75f32.to_bits()))],
        &draw_functions(),
    )
    .expect("no specialization failure");
    assert_eq!(queued.opaque.len(), 0);
    assert_eq!(queued.alpha_mask.len(), 1);
    assert_eq!(queued.transparent.len(), 0);
    assert_eq!(queued.alpha_mask[0].draw_function, 2);
}

#[test]
fn specialization_failure_aborts_the_whole_view_pass() {
    let mut failing = cube_candidate(AlphaMode::Opaque);
    failing.entity = 18;
    failing.pipeline = Err(SpecializeError(99));
    let outcome = queue_view(
        &vec![cube_candidate(AlphaMode::Opaque), failing],
        &draw_functions(),
    );
    assert_eq!(outcome.err(), Some(SpecializeError(99)));
}

#[test]
fn candidates_queue_in_list_order_within_a_phase() {
    let mut first = cube_candidate(AlphaMode::Opaque);
    first.entity = 21;
    let mut second = cube_candidate(AlphaMode::Opaque);
    second.entity = 22;
    let queued = queue_view(&vec![first, second], &draw_functions()).expect("no failure");
    assert_eq!(queued.opaque.len(), 2);
    assert_eq!(queued.opaque[0].entity, 21);
    assert_eq!(queued.opaque[1].entity, 22);
}

#[test]
fn each_eligible_candidate_queues_exactly_one_item_into_exactly_one_phase() {
    let mut masked = cube_candidate(AlphaMode::Mask(0.5f32.to_bits()));
    masked.entity = 19;
    let mut blended = cube_candidate(AlphaMode::Blend);
    blended.entity = 20;
    let mut unresolved = cube_candidate(AlphaMode::Opaque);
    unresolved.mesh = None;
    let queued = queue_view(
        &vec![cube_candidate(AlphaMode::Opaque), masked, blended, unresolved],
        &draw_functions(),
    )
    .expect("no specialization failure");
    assert_eq!(queued.opaque.len() + queued.alpha_mask.len() + queued.transparent.len(), 3);
    assert_eq!(queued.opaque.len(), 1);
    assert_eq!(queued.alpha_mask.len(), 1);
    assert_eq!(queued.transparent.len(), 1);
}

#[test]
fn resolution_yields_a_key_only_when_both_resources_are_resident() {
    let view = ViewInfo { hdr: false, msaa_samples: 4 };
    let mesh = indexed_cube_mesh();
    let material = GpuMaterial { alpha_mode: AlphaMode::Opaque, bind_group_data: 6 };
    assert!(pipeline_key_for(&view, None, Some(&material)).is_none());
    assert!(pipeline_key_for(&view, Some(&mesh), None).is_none());
    let key = pipeline_key_for(&view, Some(&mesh), Some(&material)).expect("both resident");
    assert_eq!(key.topology, PrimitiveTopology::TriangleList);
    assert_eq!(key.msaa_samples, 4);
    assert!(!key.hdr);
    assert_eq!(key.bind_group_data, 6);
}

#[test]
fn queue_phase_item_propagates_the_hosts_failure_unchanged() {
    let material = GpuMaterial { alpha_mode: AlphaMode::Opaque, bind_group_data: 6 };
    let outcome =
        queue_phase_item(17, &material, Err(SpecializeError(7)), 0, &draw_functions());
    assert_eq!(outcome.err(), Some(SpecializeError(7)));
}

#[test]
fn queue_phase_item_builds_the_item_for_the_classified_phase() {
    let material = GpuMaterial { alpha_mode: AlphaMode::Multiply, bind_group_data: 6 };
    let distance = 4.25f32.to_bits();
    let (phase, item) = queue_phase_item(17, &material, Ok(40), distance, &draw_functions())
        .expect("pipeline resolved");
    assert_eq!(phase, Phase::Transparent);
    assert_eq!(item.entity, 17);
    assert_eq!(item.draw_function, 3);
    assert_eq!(item.pipeline, 40);
    assert_eq!(item.distance_bits, distance);
}
