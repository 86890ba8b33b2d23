//! The voxel renderer: pipeline construction, per-chunk draw dispatch, and
//! teardown.
//!
//! Construction acquires, in a fixed order, the objects the renderer owns;
//! the two shader modules are transient and destroyed before construction
//! returns.  Dispatch appends exactly three commands per chunk.  Teardown
//! consumes the renderer, so it can happen only once, and releases the four
//! retained objects in reverse creation order.

use vstd::prelude::*;

use crate::commands::CommandStream;
use crate::commands::DrawCommand;
use crate::device::DeviceLog;
use crate::device::GpuEvent;
use crate::device::ObjectKind;

verus! {

/// Number of bytes of one indirect-draw record: four 4-byte fields
/// (vertex count, instance count, first vertex, first instance).
pub const INDIRECT_RECORD_STRIDE: u32 = 16;

/// What the renderer consumes from the shared rendering context: the
/// common set-0 descriptor layout, the target render pass, and the
/// pipeline cache.  The context outlives the renderer and is read-only to
/// it.
#[derive(Clone, Copy, PartialEq, Eq, Structural, Debug)]
pub struct GraphicsContext {
    pub common_layout: u64,
    pub render_pass: u64,
    pub pipeline_cache: u64,
}

/// A chunk's identity: the slot its indirect-draw record occupies.  The
/// renderer never looks inside a chunk; it only resolves the slot to a
/// byte offset.
#[derive(Clone, Copy, PartialEq, Eq, Structural, Debug)]
pub struct Chunk {
    pub slot: u32,
}

/// The shared draw buffer: a handle to the buffer of packed chunk vertex
/// data and a handle to the buffer of per-chunk indirect-draw records.
#[derive(Clone, Copy, PartialEq, Eq, Structural, Debug)]
pub struct DrawBuffer {
    pub vertex_buffer: u64,
    pub indirect_buffer: u64,
}

impl DrawBuffer {
    /// Byte offset of a chunk's indirect-draw record: records are packed
    /// one per slot, each `INDIRECT_RECORD_STRIDE` bytes.
    pub open spec fn indirect_offset_spec(self, chunk: Chunk) -> int {
        16 * (chunk.slot as int)
    }

    /// The handle of the vertex-data buffer.
    pub fn vertex_buffer(&self) -> (r: u64)
        ensures
            r == self.vertex_buffer,
    {
        self.vertex_buffer
    }

    /// The handle of the indirect-command buffer.
    pub fn indirect_buffer(&self) -> (r: u64)
        ensures
            r == self.indirect_buffer,
    {
        self.indirect_buffer
    }

    /// Resolve a chunk to the byte offset of its indirect-draw record.
    pub fn indirect_offset(&self, chunk: &Chunk) -> (r: u64)
        ensures
            r == self.indirect_offset_spec(*chunk),
    {
        16u64 * (chunk.slot as u64)
    }
}

/// The renderer's owned GPU objects, plus the buffer its descriptor set
/// was written to point at.
#[derive(PartialEq, Eq, Structural, Debug)]
pub struct Voxels {
    pub ds_layout: u64,
    pub pipeline_layout: u64,
    pub pipeline: u64,
    pub descriptor_pool: u64,
    pub ds: u64,
    /// The vertex-data buffer the one descriptor write pointed binding 0
    /// of the set at; no later operation rewrites it.
    pub vertex_data_buffer: u64,
}

/// The exact event sequence construction appends to a device log whose
/// fresh-handle counter stands at `n`: create the two shader modules, the
/// descriptor-set layout, the descriptor pool and its one set; write the
/// set to point at the vertex-data buffer; create the pipeline layout and
/// the pipeline; name the pipeline; then destroy the transient shader
/// modules.
pub open spec fn construction_events(n: u64, vertex_buffer: u64) -> Seq<GpuEvent> {
    Seq::empty()
        .push(GpuEvent::Created { kind: ObjectKind::ShaderModule, object: n })
        .push(GpuEvent::Created { kind: ObjectKind::ShaderModule, object: (n + 1) as u64 })
        .push(GpuEvent::Created { kind: ObjectKind::DescriptorSetLayout, object: (n + 2) as u64 })
        .push(GpuEvent::Created { kind: ObjectKind::DescriptorPool, object: (n + 3) as u64 })
        .push(GpuEvent::Created { kind: ObjectKind::DescriptorSet, object: (n + 4) as u64 })
        .push(GpuEvent::DescriptorWritten { set: (n + 4) as u64, binding: 0, buffer: vertex_buffer })
        .push(GpuEvent::Created { kind: ObjectKind::PipelineLayout, object: (n + 5) as u64 })
        .push(GpuEvent::Created { kind: ObjectKind::Pipeline, object: (n + 6) as u64 })
        .push(GpuEvent::Named { object: (n + 6) as u64 })
        .push(GpuEvent::Destroyed { kind: ObjectKind::ShaderModule, object: n })
        .push(GpuEvent::Destroyed { kind: ObjectKind::ShaderModule, object: (n + 1) as u64 })
}

/// The renderer construction returns, given the fresh-handle counter `n`
/// it started from.
pub open spec fn constructed_voxels(n: u64, vertex_buffer: u64) -> Voxels {
    Voxels {
        ds_layout: (n + 2) as u64,
        pipeline_layout: (n + 5) as u64,
        pipeline: (n + 6) as u64,
        descriptor_pool: (n + 3) as u64,
        ds: (n + 4) as u64,
        vertex_data_buffer: vertex_buffer,
    }
}

/// The exact event sequence teardown appends: the retained objects go
/// down in reverse creation order, and destroying the pool frees its
/// descriptor set.
pub open spec fn teardown_events(v: Voxels) -> Seq<GpuEvent> {
    Seq::empty()
        .push(GpuEvent::Destroyed { kind: ObjectKind::Pipeline, object: v.pipeline })
        .push(GpuEvent::Destroyed { kind: ObjectKind::PipelineLayout, object: v.pipeline_layout })
        .push(GpuEvent::Destroyed { kind: ObjectKind::DescriptorSetLayout, object: v.ds_layout })
        .push(GpuEvent::Destroyed { kind: ObjectKind::DescriptorPool, object: v.descriptor_pool })
}

/// The exact commands one dispatch appends: bind the pipeline, bind the
/// renderer's descriptor set at set index 1, and issue one indirect draw
/// read from the chunk's 16-byte record.
pub open spec fn draw_commands(v: Voxels, buffer: DrawBuffer, chunk: Chunk) -> Seq<DrawCommand> {
    Seq::empty()
        .push(DrawCommand::BindPipeline { pipeline: v.pipeline })
        .push(DrawCommand::BindDescriptorSets { layout: v.pipeline_layout, first_set: 1, set: v.ds })
        .push(DrawCommand::DrawIndirect {
            buffer: buffer.indirect_buffer,
            offset: (16 * (chunk.slot as int)) as u64,
            draw_count: 1,
            stride: 16,
        })
}

impl Voxels {
    /// Build the renderer's pipeline resources against a draw buffer.
    ///
    /// The device log records the full construction: every object created
    /// in order, the one descriptor write pointing the set at the draw
    /// buffer's vertex-data buffer, and the destruction of the two
    /// transient shader modules before the call returns.  Creation never
    /// fails against the recording harness; on a real device a failed
    /// creation is a distinguishable initialization error, surfaced by the
    /// unverified interpreter.
    pub fn new(device: &mut DeviceLog, gfx: &GraphicsContext, buffer: &DrawBuffer) -> (v: Voxels)
        requires
            old(device).wf(),
            old(device).next_handle + 7 <= u64::MAX,
        ensures
            final(device).wf(),
            final(device).next_handle == old(device).next_handle + 7,
            final(device).events@ == old(device).events@ + construction_events(
                old(device).next_handle,
                buffer.vertex_buffer,
            ),
            v == constructed_voxels(old(device).next_handle, buffer.vertex_buffer),
    {
        let vert = device.create(ObjectKind::ShaderModule);
        let frag = device.create(ObjectKind::ShaderModule);
        let ds_layout = device.create(ObjectKind::DescriptorSetLayout);
        let descriptor_pool = device.create(ObjectKind::DescriptorPool);
        let ds = device.create(ObjectKind::DescriptorSet);
        device.write_descriptor(ds, 0, buffer.vertex_buffer());
        let pipeline_layout = device.create(ObjectKind::PipelineLayout);
        let pipeline = device.create(ObjectKind::Pipeline);
        device.name_object(pipeline);
        device.destroy(ObjectKind::ShaderModule, vert);
        device.destroy(ObjectKind::ShaderModule, frag);
        proof {
            assert(device.events@ =~= old(device).events@ + construction_events(
                old(device).next_handle,
                buffer.vertex_buffer,
            ));
        }
        Voxels {
            ds_layout,
            pipeline_layout,
            pipeline,
            descriptor_pool,
            ds,
            vertex_data_buffer: buffer.vertex_buffer(),
        }
    }

    /// Append the commands that draw one chunk: bind the pipeline, bind
    /// the local descriptor set at set index 1 (set 0 is the caller's),
    /// and issue exactly one indirect draw with stride 16 at the chunk's
    /// resolved offset.  The renderer itself is left untouched, so
    /// dispatch never disturbs construction-time state.
    pub fn draw(&mut self, cmd: &mut CommandStream, buffer: &DrawBuffer, chunk: &Chunk)
        ensures
            *final(self) == *old(self),
            final(cmd).commands@ == old(cmd).commands@ + draw_commands(*old(self), *buffer, *chunk),
    {
        cmd.record(DrawCommand::BindPipeline { pipeline: self.pipeline });
        cmd.record(DrawCommand::BindDescriptorSets {
            layout: self.pipeline_layout,
            first_set: 1,
            set: self.ds,
        });
        let offset = buffer.indirect_offset(chunk);
        cmd.record(DrawCommand::DrawIndirect {
            buffer: buffer.indirect_buffer(),
            offset,
            draw_count: 1,
            stride: INDIRECT_RECORD_STRIDE,
        });
        proof {
            assert(cmd.commands@ =~= old(cmd).commands@ + draw_commands(
                *old(self),
                *buffer,
                *chunk,
            ));
        }
    }

    /// Release the renderer's objects in strict reverse creation order:
    /// pipeline, pipeline layout, descriptor-set layout, descriptor pool
    /// (freeing its set).  Taking the renderer by value makes a second
    /// teardown impossible.  The caller guarantees no GPU work still
    /// references these objects.
    pub fn destroy(self, device: &mut DeviceLog)
        requires
            old(device).wf(),
        ensures
            final(device).wf(),
            final(device).next_handle == old(device).next_handle,
            final(device).events@ == old(device).events@ + teardown_events(self),
    {
        device.destroy(ObjectKind::Pipeline, self.pipeline);
        device.destroy(ObjectKind::PipelineLayout, self.pipeline_layout);
        device.destroy(ObjectKind::DescriptorSetLayout, self.ds_layout);
        device.destroy(ObjectKind::DescriptorPool, self.descriptor_pool);
        proof {
            assert(device.events@ =~= old(device).events@ + teardown_events(self));
        }
    }
}

/// Two chunks with distinct identities resolve to disjoint 16-byte
/// regions of the indirect buffer: one record never overlaps another.
pub proof fn lemma_chunk_regions_disjoint(buffer: DrawBuffer, a: Chunk, b: Chunk)
    requires
        a.slot != b.slot,
    ensures
        buffer.indirect_offset_spec(a) + 16 <= buffer.indirect_offset_spec(b)
            || buffer.indirect_offset_spec(b) + 16 <= buffer.indirect_offset_spec(a),
{
}

} // verus!
