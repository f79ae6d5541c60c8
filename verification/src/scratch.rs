//! The per-CPU scratch slot.
//!
//! A record is a few kilobytes, too large for the bounded call stack of the
//! hook execution environment, so each logical CPU owns one reusable
//! event-sized slot. A hook invocation assembles its outgoing record there
//! and publishes a copy; the slot is never reinitialized between
//! invocations, so stale fields must be explicitly overwritten every time.

use crate::schema::FileEvent;
use vstd::prelude::*;

verus! {

/// One CPU's reusable record buffer. The invariant is only that the
/// buffers keep their full capacity; the contents are whatever the last
/// invocation left behind.
pub struct ScratchSlot {
    /// The record under assembly.
    pub event: FileEvent,
}

impl ScratchSlot {
    /// The slot's buffers have their declared capacities, so bounded
    /// writes into them stay in bounds.
    pub open spec fn wf(self) -> bool {
        self.event.wf()
    }

    /// A fresh slot, as the runtime zero-initializes per-CPU storage.
    pub fn new() -> (slot: ScratchSlot)
        ensures
            slot.wf(),
    {
        ScratchSlot { event: FileEvent::blank() }
    }
}

} // verus!
