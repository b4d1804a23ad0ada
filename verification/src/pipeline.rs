//! The instanced material pipeline: the pipeline key a specialized pipeline is
//! memoized under, and the specialization step that appends the one extra
//! per-instance vertex stream to the descriptor the host's base material
//! specialization produced.

use vstd::prelude::*;

use crate::phase::{AlphaMode, BlendFlag, spec_blend_flag, blend_flag_of_alpha_mode};

verus! {

/// How the vertices of a mesh are assembled into primitives.
#[derive(Clone, Copy, PartialEq, Eq, Structural, Hash, Debug)]
pub enum PrimitiveTopology {
    PointList,
    LineList,
    LineStrip,
    TriangleList,
    TriangleStrip,
}

/// The format of one vertex attribute.
#[derive(Clone, Copy, PartialEq, Eq, Structural, Debug)]
pub enum VertexFormat {
    Float32,
    Float32x2,
    Float32x3,
    Float32x4,
}

impl VertexFormat {
    /// The byte size of one attribute of this format.
    pub open spec fn spec_size(self) -> u64 {
        match self {
            VertexFormat::Float32 => 4,
            VertexFormat::Float32x2 => 8,
            VertexFormat::Float32x3 => 12,
            VertexFormat::Float32x4 => 16,
        }
    }

    /// The byte size of one attribute of this format.
    pub fn size(&self) -> (bytes: u64)
        ensures
            bytes == self.spec_size(),
    {
        match self {
            VertexFormat::Float32 => 4,
            VertexFormat::Float32x2 => 8,
            VertexFormat::Float32x3 => 12,
            VertexFormat::Float32x4 => 16,
        }
    }
}

/// Whether a vertex buffer advances per vertex or once per instance.
#[derive(Clone, Copy, PartialEq, Eq, Structural, Debug)]
pub enum VertexStepMode {
    Vertex,
    Instance,
}

/// One attribute of a vertex buffer layout.
#[derive(Clone, Copy, PartialEq, Eq, Structural, Debug)]
pub struct VertexAttribute {
    pub format: VertexFormat,
    pub offset: u64,
    pub shader_location: u32,
}

/// The layout of one vertex buffer of a pipeline descriptor.
#[derive(Clone, PartialEq, Eq, Debug)]
pub struct VertexBufferLayout {
    pub array_stride: u64,
    pub step_mode: VertexStepMode,
    pub attributes: Vec<VertexAttribute>,
}

/// A render pipeline descriptor, as far as this crate touches it: the vertex
/// buffer layouts it declares, the vertex-stage program it compiles, and the
/// rest of the host's configuration carried through as one opaque word.
#[derive(Clone, PartialEq, Eq, Debug)]
pub struct PipelineDescriptor {
    pub vertex_shader: u64,
    pub vertex_buffers: Vec<VertexBufferLayout>,
    pub rest: u64,
}

/// The host's error when its base material specialization rejects a key and
/// mesh layout; its payload is opaque to this crate and carried through
/// unchanged.
#[derive(Clone, Copy, PartialEq, Eq, Structural, Debug)]
pub struct SpecializeError(pub u64);

/// The composite key a specialized pipeline is memoized under. Structurally
/// equal keys must yield structurally identical descriptors, so the key is a
/// plain value type with derived equality and hash.
#[derive(Clone, Copy, PartialEq, Eq, Structural, Hash, Debug)]
pub struct PipelineKey {
    pub topology: PrimitiveTopology,
    pub msaa_samples: u32,
    pub hdr: bool,
    pub blend: BlendFlag,
    pub bind_group_data: u64,
}

/// A view's contribution to the pipeline key.
#[derive(Clone, Copy, PartialEq, Eq, Structural, Debug)]
pub struct ViewInfo {
    pub hdr: bool,
    pub msaa_samples: u32,
}

/// The pipeline key for one drawable under one view.
pub open spec fn spec_pipeline_key(
    view: ViewInfo,
    topology: PrimitiveTopology,
    alpha_mode: AlphaMode,
    bind_group_data: u64,
) -> PipelineKey {
    PipelineKey {
        topology,
        msaa_samples: view.msaa_samples,
        hdr: view.hdr,
        blend: spec_blend_flag(alpha_mode),
        bind_group_data,
    }
}

/// Computes the pipeline key for one drawable under one view: the mesh's
/// primitive topology, the view's multisample count and HDR flag, the blend
/// flag derived from the material's alpha mode, and the material's opaque
/// bind-group data.
pub fn compute_pipeline_key(
    view: &ViewInfo,
    topology: PrimitiveTopology,
    alpha_mode: &AlphaMode,
    bind_group_data: u64,
) -> (key: PipelineKey)
    ensures
        key == spec_pipeline_key(*view, topology, *alpha_mode, bind_group_data),
{
    PipelineKey {
        topology,
        msaa_samples: view.msaa_samples,
        hdr: view.hdr,
        blend: blend_flag_of_alpha_mode(alpha_mode),
        bind_group_data,
    }
}

/// The shader-visible slot reserved for the per-instance position attribute;
/// it does not collide with any attribute slot the base mesh layouts use.
pub const INSTANCE_ATTRIBUTE_LOCATION: u32 = 10;

/// The identifier of the embedded vertex-stage program that declares the
/// per-instance vertex input.
pub const INSTANCED_MESH_SHADER_ID: u64 = 17287871048485609451;

/// The one vertex buffer layout specialization appends: stride 12, advancing
/// once per instance, with a single three-float attribute at offset 0 bound at
/// the reserved instance slot.
pub open spec fn is_instance_vertex_layout(layout: VertexBufferLayout) -> bool {
    &&& layout.array_stride == 12
    &&& layout.step_mode is Instance
    &&& layout.attributes@.len() == 1
    &&& layout.attributes@[0] == (VertexAttribute {
        format: VertexFormat::Float32x3,
        offset: 0,
        shader_location: INSTANCE_ATTRIBUTE_LOCATION,
    })
}

/// The result of specialization relative to the descriptor the base material
/// specialization produced: everything the base produced is unchanged, and
/// exactly one per-instance vertex buffer layout is appended.
pub open spec fn spec_specialized(base: PipelineDescriptor, out: PipelineDescriptor) -> bool {
    &&& out.vertex_shader == base.vertex_shader
    &&& out.rest == base.rest
    &&& out.vertex_buffers@.len() == base.vertex_buffers@.len() + 1
    &&& out.vertex_buffers@.subrange(0, base.vertex_buffers@.len() as int)
        == base.vertex_buffers@
    &&& is_instance_vertex_layout(out.vertex_buffers@.last())
}

/// Law: the reserved instance slot collides with no base attribute. When no
/// vertex buffer layout of the base descriptor binds an attribute at the
/// reserved slot, the specialized descriptor binds exactly one attribute
/// there — the appended per-instance position.
pub proof fn lemma_instance_slot_collides_with_nothing(
    base: PipelineDescriptor,
    out: PipelineDescriptor,
)
    requires
        spec_specialized(base, out),
        forall|i: int, j: int|
            0 <= i < base.vertex_buffers@.len() && 0 <= j
                < base.vertex_buffers@[i].attributes@.len()
                ==> (#[trigger] base.vertex_buffers@[i].attributes@[j]).shader_location
                != INSTANCE_ATTRIBUTE_LOCATION,
    ensures
        out.vertex_buffers@.last().attributes@[0].shader_location == INSTANCE_ATTRIBUTE_LOCATION,
        forall|i: int, j: int|
            0 <= i < out.vertex_buffers@.len() && 0 <= j < out.vertex_buffers@[i].attributes@.len()
                && (#[trigger] out.vertex_buffers@[i].attributes@[j]).shader_location
                == INSTANCE_ATTRIBUTE_LOCATION ==> i == out.vertex_buffers@.len() - 1 && j == 0,
{
    let n = base.vertex_buffers@.len() as int;
    assert forall|i: int, j: int|
        0 <= i < out.vertex_buffers@.len() && 0 <= j < out.vertex_buffers@[i].attributes@.len()
            && (#[trigger] out.vertex_buffers@[i].attributes@[j]).shader_location
            == INSTANCE_ATTRIBUTE_LOCATION implies i == out.vertex_buffers@.len() - 1 && j
        == 0 by {
        if i < n {
            assert(out.vertex_buffers@[i] == out.vertex_buffers@.subrange(0, n)[i]);
            assert(out.vertex_buffers@[i] == base.vertex_buffers@[i]);
            assert(base.vertex_buffers@[i].attributes@[j].shader_location
                != INSTANCE_ATTRIBUTE_LOCATION);
        } else {
            assert(out.vertex_buffers@[i] == out.vertex_buffers@.last());
        }
    }
}

/// The wrapped per-material pipeline: the host's base material pipeline with
/// its vertex-stage program overridden by the embedded instance-aware program.
/// Everything else of the host's configuration is carried as one opaque word.
pub struct InstancedMeshMaterialPipeline {
    pub vertex_shader: u64,
    pub base: u64,
}

/// What this crate reads of the host's base material pipeline when wrapping
/// it: the vertex-stage program it would compile, and the rest as one opaque
/// word.
#[derive(Clone, Copy, PartialEq, Eq, Structural, Debug)]
pub struct MaterialPipelineInfo {
    pub vertex_shader: u64,
    pub rest: u64,
}

impl InstancedMeshMaterialPipeline {
    /// Construction: clone the host's base pipeline configuration and
    /// override its vertex-stage program with the embedded instance-aware
    /// program; nothing else changes.
    pub fn from_material_pipeline(base: MaterialPipelineInfo) -> (pipeline: Self)
        ensures
            pipeline.vertex_shader == INSTANCED_MESH_SHADER_ID,
            pipeline.base == base.rest,
    {
        InstancedMeshMaterialPipeline { vertex_shader: INSTANCED_MESH_SHADER_ID, base: base.rest }
    }

    /// Specialization: the host's base material specialization ran first with
    /// the same key and mesh layout and its outcome is handed in. A failure is
    /// propagated unchanged; a descriptor gets exactly one per-instance vertex
    /// buffer layout appended, with all attributes and bindings the base
    /// produced left unchanged.
    pub fn specialize(&self, base: Result<PipelineDescriptor, SpecializeError>) -> (out: Result<
        PipelineDescriptor,
        SpecializeError,
    >)
        ensures
            base matches Err(e) ==> out matches Err(e2) && e2 == e,
            base matches Ok(b) ==> out matches Ok(d) && spec_specialized(b, d),
    {
        match base {
            Err(e) => Err(e),
            Ok(descriptor) => {
                let ghost base_descriptor = descriptor;
                let mut descriptor = descriptor;
                let mut attributes: Vec<VertexAttribute> = Vec::new();
                attributes.push(VertexAttribute {
                    format: VertexFormat::Float32x3,
                    offset: 0,
                    shader_location: INSTANCE_ATTRIBUTE_LOCATION,
                });
                let layout = VertexBufferLayout {
                    array_stride: VertexFormat::Float32x3.size(),
                    step_mode: VertexStepMode::Instance,
                    attributes,
                };
                descriptor.vertex_buffers.push(layout);
                proof {
                    assert(descriptor.vertex_buffers@.subrange(
                        0,
                        base_descriptor.vertex_buffers@.len() as int,
                    ) =~= base_descriptor.vertex_buffers@);
                }
                Ok(descriptor)
            },
        }
    }
}

/// Structural identity of two vertex buffer layouts: same stride, same step
/// mode, same attribute sequence.
pub open spec fn layout_identical(a: VertexBufferLayout, b: VertexBufferLayout) -> bool {
    &&& a.array_stride == b.array_stride
    &&& a.step_mode == b.step_mode
    &&& a.attributes@ == b.attributes@
}

/// Structural identity of two pipeline descriptors: same vertex-stage
/// program, same carried host configuration, and pairwise identical vertex
/// buffer layouts.
pub open spec fn descriptor_identical(a: PipelineDescriptor, b: PipelineDescriptor) -> bool {
    &&& a.vertex_shader == b.vertex_shader
    &&& a.rest == b.rest
    &&& a.vertex_buffers@.len() == b.vertex_buffers@.len()
    &&& forall|i: int|
        0 <= i < a.vertex_buffers@.len() ==> layout_identical(
            #[trigger] a.vertex_buffers@[i],
            b.vertex_buffers@[i],
        )
}

/// Law: pipeline-key determinism. Equal key inputs and structurally identical
/// base descriptors always yield the same key and structurally identical
/// specialized descriptors, as the host's memoizing pipeline cache requires.
pub proof fn lemma_specialization_deterministic(
    view1: ViewInfo,
    view2: ViewInfo,
    topology1: PrimitiveTopology,
    topology2: PrimitiveTopology,
    alpha_mode1: AlphaMode,
    alpha_mode2: AlphaMode,
    bind_group_data1: u64,
    bind_group_data2: u64,
    base1: PipelineDescriptor,
    base2: PipelineDescriptor,
    out1: PipelineDescriptor,
    out2: PipelineDescriptor,
)
    requires
        view1 == view2,
        topology1 == topology2,
        alpha_mode1 == alpha_mode2,
        bind_group_data1 == bind_group_data2,
        descriptor_identical(base1, base2),
        spec_specialized(base1, out1),
        spec_specialized(base2, out2),
    ensures
        spec_pipeline_key(view1, topology1, alpha_mode1, bind_group_data1)
            == spec_pipeline_key(view2, topology2, alpha_mode2, bind_group_data2),
        descriptor_identical(out1, out2),
{
    let n = base1.vertex_buffers@.len() as int;
    assert forall|i: int| 0 <= i < out1.vertex_buffers@.len() implies layout_identical(
        #[trigger] out1.vertex_buffers@[i],
        out2.vertex_buffers@[i],
    ) by {
        if i < n {
            assert(out1.vertex_buffers@[i]
                == out1.vertex_buffers@.subrange(0, n)[i]);
            assert(out2.vertex_buffers@[i]
                == out2.vertex_buffers@.subrange(0, n)[i]);
            assert(layout_identical(base1.vertex_buffers@[i], base2.vertex_buffers@[i]));
        } else {
            assert(out1.vertex_buffers@[i] == out1.vertex_buffers@.last());
            assert(out2.vertex_buffers@[i] == out2.vertex_buffers@.last());
            assert(out1.vertex_buffers@.last().attributes@
                =~= out2.vertex_buffers@.last().attributes@);
        }
    }
}

} // verus!
