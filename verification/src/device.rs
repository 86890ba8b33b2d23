//! A recording model of the GPU device's object lifecycle.
//!
//! Every object the renderer creates or destroys is logged as a
//! [`GpuEvent`], so that lifecycle properties (each object released exactly
//! once, descriptor writes never silently overwritten) can be stated and
//! proved over the event sequence.

use vstd::prelude::*;

verus! {

/// The kinds of GPU objects this renderer's lifecycle touches.
#[derive(Clone, Copy, PartialEq, Eq, Structural, Debug)]
pub enum ObjectKind {
    ShaderModule,
    DescriptorSetLayout,
    DescriptorPool,
    DescriptorSet,
    PipelineLayout,
    Pipeline,
}

/// One entry of the device log.
#[derive(Clone, Copy, PartialEq, Eq, Structural, Debug)]
pub enum GpuEvent {
    /// An object was created and assigned a fresh handle.
    Created { kind: ObjectKind, object: u64 },
    /// A descriptor set was written to point a binding at a buffer,
    /// over the buffer's full range.
    DescriptorWritten { set: u64, binding: u32, buffer: u64 },
    /// An object was given a debug name for diagnostics.
    Named { object: u64 },
    /// An object was destroyed.
    Destroyed { kind: ObjectKind, object: u64 },
}

/// Holds when `e` creates no object with a handle at or above `bound`.
pub open spec fn created_below(e: GpuEvent, bound: u64) -> bool {
    match e {
        GpuEvent::Created { object, .. } => object < bound,
        _ => true,
    }
}

/// The device model: an append-only event log plus a fresh-handle counter.
///
/// Handles are abstract: the model only promises that every created handle
/// is fresh, which is what the lifecycle proofs need.
pub struct DeviceLog {
    pub events: Vec<GpuEvent>,
    pub next_handle: u64,
}

impl DeviceLog {
    /// Every handle created so far lies below the fresh-handle counter, so
    /// the next created object can never collide with an existing one.
    pub open spec fn wf(self) -> bool {
        forall|i: int|
            0 <= i < self.events@.len() ==> #[trigger] created_below(
                self.events@[i],
                self.next_handle,
            )
    }

    /// A fresh log with no events.  Handles start at 1 so that 0 can stand
    /// for a null handle, as graphics APIs conventionally have it.
    pub fn new() -> (r: DeviceLog)
        ensures
            r.wf(),
            r.events@ == Seq::<GpuEvent>::empty(),
            r.next_handle == 1,
    {
        DeviceLog { events: Vec::new(), next_handle: 1 }
    }

    /// Create an object of the given kind, returning its fresh handle.
    pub fn create(&mut self, kind: ObjectKind) -> (object: u64)
        requires
            old(self).wf(),
            old(self).next_handle < u64::MAX,
        ensures
            final(self).wf(),
            object == old(self).next_handle,
            final(self).next_handle == old(self).next_handle + 1,
            final(self).events@ == old(self).events@.push(
                GpuEvent::Created { kind, object },
            ),
    {
        let object = self.next_handle;
        self.next_handle = self.next_handle + 1;
        self.events.push(GpuEvent::Created { kind, object });
        proof {
            assert forall|i: int| 0 <= i < self.events@.len() implies created_below(
                self.events@[i],
                self.next_handle,
            ) by {
                if i < self.events@.len() - 1 {
                    assert(created_below(old(self).events@[i], old(self).next_handle));
                }
            }
        }
        object
    }

    /// Append an event that creates nothing; freshness is untouched.
    fn append_noncreate(&mut self, e: GpuEvent)
        requires
            old(self).wf(),
            !(e is Created),
        ensures
            final(self).wf(),
            final(self).next_handle == old(self).next_handle,
            final(self).events@ == old(self).events@.push(e),
    {
        self.events.push(e);
        proof {
            assert forall|i: int| 0 <= i < self.events@.len() implies created_below(
                self.events@[i],
                self.next_handle,
            ) by {
                if i < self.events@.len() - 1 {
                    assert(created_below(old(self).events@[i], old(self).next_handle));
                }
            }
        }
    }

    /// Destroy an object.
    pub fn destroy(&mut self, kind: ObjectKind, object: u64)
        requires
            old(self).wf(),
        ensures
            final(self).wf(),
            final(self).next_handle == old(self).next_handle,
            final(self).events@ == old(self).events@.push(
                GpuEvent::Destroyed { kind, object },
            ),
    {
        self.append_noncreate(GpuEvent::Destroyed { kind, object });
    }

    /// Write a descriptor set so that `binding` points at `buffer` over its
    /// full range.
    pub fn write_descriptor(&mut self, set: u64, binding: u32, buffer: u64)
        requires
            old(self).wf(),
        ensures
            final(self).wf(),
            final(self).next_handle == old(self).next_handle,
            final(self).events@ == old(self).events@.push(
                GpuEvent::DescriptorWritten { set, binding, buffer },
            ),
    {
        self.append_noncreate(GpuEvent::DescriptorWritten { set, binding, buffer });
    }

    /// Attach a debug name to an object.
    pub fn name_object(&mut self, object: u64)
        requires
            old(self).wf(),
        ensures
            final(self).wf(),
            final(self).next_handle == old(self).next_handle,
            final(self).events@ == old(self).events@.push(GpuEvent::Named { object }),
    {
        self.append_noncreate(GpuEvent::Named { object });
    }
}

} // verus!
