//! Lifecycle laws of the renderer, stated over the device log.
//!
//! The contracts of [`crate::renderer::Voxels::new`] and
//! [`crate::renderer::Voxels::destroy`] pin down the exact event sequences
//! they append; the lemmas here draw the lifecycle consequences: every
//! object the pair creates is released exactly once with no double free,
//! and the descriptor write made at construction is never overwritten.

use vstd::prelude::*;

use crate::device::GpuEvent;
use crate::renderer::construction_events;
use crate::renderer::constructed_voxels;
use crate::renderer::teardown_events;
use crate::renderer::Voxels;

verus! {

/// 1 when `e` creates `object`, else 0.
pub open spec fn created_one(e: GpuEvent, object: u64) -> nat {
    match e {
        GpuEvent::Created { object: o, .. } => if o == object {
            1nat
        } else {
            0nat
        },
        _ => 0nat,
    }
}

/// 1 when `e` destroys `object`, else 0.
pub open spec fn destroyed_one(e: GpuEvent, object: u64) -> nat {
    match e {
        GpuEvent::Destroyed { object: o, .. } => if o == object {
            1nat
        } else {
            0nat
        },
        _ => 0nat,
    }
}

/// How many of the first `k` events create `object`.
pub open spec fn created_count_upto(es: Seq<GpuEvent>, object: u64, k: int) -> nat
    decreases k,
{
    if k <= 0 {
        0nat
    } else {
        created_count_upto(es, object, k - 1) + created_one(es[k - 1], object)
    }
}

/// How many events of `es` create `object`.
pub open spec fn created_count(es: Seq<GpuEvent>, object: u64) -> nat {
    created_count_upto(es, object, es.len() as int)
}

/// How many of the first `k` events destroy `object`.
pub open spec fn destroyed_count_upto(es: Seq<GpuEvent>, object: u64, k: int) -> nat
    decreases k,
{
    if k <= 0 {
        0nat
    } else {
        destroyed_count_upto(es, object, k - 1) + destroyed_one(es[k - 1], object)
    }
}

/// How many events of `es` destroy `object`.
pub open spec fn destroyed_count(es: Seq<GpuEvent>, object: u64) -> nat {
    destroyed_count_upto(es, object, es.len() as int)
}

/// Construction followed immediately by teardown releases every created
/// object exactly once.  Over the combined event sequence, with `n` the
/// fresh-handle counter construction started from: each of the seven
/// handles construction takes is created exactly once and destroyed
/// exactly once — except the descriptor set (`n + 4`), which is freed
/// implicitly when its pool is destroyed — and no other handle is created
/// or destroyed at all.  In particular nothing leaks and nothing is freed
/// twice.
pub proof fn lemma_construction_teardown_balanced(n: u64, vertex_buffer: u64, object: u64)
    requires
        n + 7 <= u64::MAX,
    ensures
        ({
            let es = construction_events(n, vertex_buffer) + teardown_events(
                constructed_voxels(n, vertex_buffer),
            );
            &&& created_count(es, object) == if n <= object < n + 7 {
                1nat
            } else {
                0nat
            }
            &&& destroyed_count(es, object) == if n <= object < n + 7 && object != n + 4 {
                1nat
            } else {
                0nat
            }
        }),
{
    let es = construction_events(n, vertex_buffer) + teardown_events(
        constructed_voxels(n, vertex_buffer),
    );
    assert(es.len() == 15);
    reveal_with_fuel(created_count_upto, 17);
    reveal_with_fuel(destroyed_count_upto, 17);
}

/// Holds when `e` writes `binding` of descriptor set `set`.
pub open spec fn writes_binding(e: GpuEvent, set: u64, binding: u32) -> bool {
    match e {
        GpuEvent::DescriptorWritten { set: s, binding: b, .. } => s == set && b == binding,
        _ => false,
    }
}

/// The buffer a descriptor write points at (0 for any other event).
pub open spec fn written_buffer(e: GpuEvent) -> u64 {
    match e {
        GpuEvent::DescriptorWritten { buffer, .. } => buffer,
        _ => 0,
    }
}

/// What `binding` of descriptor set `set` points at after the events
/// `es`: the buffer of the latest write to it, if any.
pub open spec fn descriptor_binding(es: Seq<GpuEvent>, set: u64, binding: u32) -> Option<u64>
    decreases es.len(),
{
    if es.len() == 0 {
        None
    } else if writes_binding(es.last(), set, binding) {
        Some(written_buffer(es.last()))
    } else {
        descriptor_binding(es.drop_last(), set, binding)
    }
}

/// An event that does not write a binding leaves it pointing where it
/// pointed.
proof fn lemma_binding_skip_last(es: Seq<GpuEvent>, e: GpuEvent, set: u64, binding: u32)
    requires
        !writes_binding(e, set, binding),
    ensures
        descriptor_binding(es.push(e), set, binding) == descriptor_binding(es, set, binding),
{
    assert(es.push(e).drop_last() =~= es);
    assert(es.push(e).last() == e);
}

/// A binding, once written, persists across any further events that do
/// not rewrite it: destructions, debug naming, and writes to other
/// bindings never move it.
pub proof fn lemma_binding_persists(es: Seq<GpuEvent>, extra: Seq<GpuEvent>, set: u64, binding: u32)
    requires
        forall|i: int| 0 <= i < extra.len() ==> !writes_binding(#[trigger] extra[i], set, binding),
    ensures
        descriptor_binding(es + extra, set, binding) == descriptor_binding(es, set, binding),
    decreases extra.len(),
{
    if extra.len() == 0 {
        assert(es + extra =~= es);
    } else {
        let prefix = extra.drop_last();
        assert(es + extra =~= (es + prefix).push(extra.last()));
        assert(!writes_binding(extra[extra.len() - 1], set, binding));
        lemma_binding_skip_last(es + prefix, extra.last(), set, binding);
        lemma_binding_persists(es, prefix, set, binding);
    }
}

/// Right after construction, binding 0 of the renderer's descriptor set
/// points at the draw buffer's vertex-data buffer, whatever the log held
/// before.
pub proof fn lemma_descriptor_written_at_construction(
    pre: Seq<GpuEvent>,
    n: u64,
    vertex_buffer: u64,
)
    requires
        n + 7 <= u64::MAX,
    ensures
        descriptor_binding(
            pre + construction_events(n, vertex_buffer),
            (n + 4) as u64,
            0,
        ) == Some(vertex_buffer),
{
    let set = (n + 4) as u64;
    let write = GpuEvent::DescriptorWritten { set, binding: 0, buffer: vertex_buffer };
    let upto_write = pre
        .push(GpuEvent::Created { kind: crate::device::ObjectKind::ShaderModule, object: n })
        .push(
            GpuEvent::Created {
                kind: crate::device::ObjectKind::ShaderModule,
                object: (n + 1) as u64,
            },
        )
        .push(
            GpuEvent::Created {
                kind: crate::device::ObjectKind::DescriptorSetLayout,
                object: (n + 2) as u64,
            },
        )
        .push(
            GpuEvent::Created {
                kind: crate::device::ObjectKind::DescriptorPool,
                object: (n + 3) as u64,
            },
        )
        .push(
            GpuEvent::Created {
                kind: crate::device::ObjectKind::DescriptorSet,
                object: (n + 4) as u64,
            },
        )
        .push(write);
    let pl = GpuEvent::Created {
        kind: crate::device::ObjectKind::PipelineLayout,
        object: (n + 5) as u64,
    };
    let pipe = GpuEvent::Created {
        kind: crate::device::ObjectKind::Pipeline,
        object: (n + 6) as u64,
    };
    let named = GpuEvent::Named { object: (n + 6) as u64 };
    let d_vert = GpuEvent::Destroyed {
        kind: crate::device::ObjectKind::ShaderModule,
        object: n,
    };
    let d_frag = GpuEvent::Destroyed {
        kind: crate::device::ObjectKind::ShaderModule,
        object: (n + 1) as u64,
    };
    assert(pre + construction_events(n, vertex_buffer) =~= upto_write
        .push(pl)
        .push(pipe)
        .push(named)
        .push(d_vert)
        .push(d_frag));
    lemma_binding_skip_last(upto_write.push(pl).push(pipe).push(named).push(d_vert), d_frag, set, 0);
    lemma_binding_skip_last(upto_write.push(pl).push(pipe).push(named), d_vert, set, 0);
    lemma_binding_skip_last(upto_write.push(pl).push(pipe), named, set, 0);
    lemma_binding_skip_last(upto_write.push(pl), pipe, set, 0);
    lemma_binding_skip_last(upto_write, pl, set, 0);
    assert(upto_write.last() == write);
    assert(descriptor_binding(upto_write, set, 0) == Some(vertex_buffer));
}

/// Teardown writes no descriptor binding.
pub proof fn lemma_teardown_writes_nothing(v: Voxels, set: u64, binding: u32)
    ensures
        forall|i: int|
            0 <= i < teardown_events(v).len() ==> !writes_binding(
                #[trigger] teardown_events(v)[i],
                set,
                binding,
            ),
{
}

/// Read-after-write consistency of the descriptor binding: after
/// construction, and then after any further events that do not rewrite
/// it — draw dispatch appends no device event at all, and teardown only
/// destroys objects — binding 0 of the renderer's descriptor set still
/// points at the vertex-data buffer supplied at construction time.
pub proof fn lemma_descriptor_binding_stable(
    pre: Seq<GpuEvent>,
    n: u64,
    vertex_buffer: u64,
    extra: Seq<GpuEvent>,
)
    requires
        n + 7 <= u64::MAX,
        forall|i: int|
            0 <= i < extra.len() ==> !writes_binding(#[trigger] extra[i], (n + 4) as u64, 0),
    ensures
        descriptor_binding(
            pre + construction_events(n, vertex_buffer) + extra,
            (n + 4) as u64,
            0,
        ) == Some(vertex_buffer),
{
    lemma_descriptor_written_at_construction(pre, n, vertex_buffer);
    lemma_binding_persists(pre + construction_events(n, vertex_buffer), extra, (n + 4) as u64, 0);
}

} // verus!
