//! GPU-instanced mesh drawing for a host 3D renderer.
//!
//! Many copies of one mesh + material pair, differing only by a per-instance
//! position, are drawn with a single GPU call. This crate holds the verified
//! core of that pipeline: packing per-entity instance data into the bytes of a
//! GPU instance buffer, deriving the pipeline key and the extra per-instance
//! vertex stream a specialized pipeline carries, classifying drawable items
//! into the three render phases of the host's 3D pass, and deciding the
//! commands of the one instanced draw call per queued item. The host
//! renderer's side — entity storage, GPU resources, views, the pipeline
//! cache — stays outside and talks to this crate through plain values.

pub mod draw;
pub mod instance;
pub mod phase;
pub mod pipeline;
pub mod queue;

pub use draw::{DrawMeshInstanced, GpuMesh, MeshBufferInfo, RenderCommandResult, RenderPassCommand};
pub use instance::{Instance, InstanceBuffer, Instances, Position, prepare_instance_buffer};
pub use phase::{AlphaMode, BlendFlag, Phase};
pub use pipeline::{InstancedMeshMaterialPipeline, PipelineKey, ViewInfo};
pub use queue::{GpuMaterial, PhaseDrawFunctions, PhaseItem, QueueCandidate, QueuedPhases};
