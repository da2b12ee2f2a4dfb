//! The backpressure policy of a bounded buffer stage: a fixed capacity, a
//! blocking policy — a unit arriving at a full buffer is not accepted, so
//! the upstream stalls rather than drops — and an overrun signal fired
//! exactly once per transition into the at-capacity condition, never once
//! per unit while the buffer stays full. Overrun is observational only:
//! nothing here touches the pipeline state.

use vstd::prelude::*;

verus! {

/// A non-fatal notification that a bounded buffer reached capacity. It
/// carries the buffer's identity and nothing else: policy for the data
/// stays with the buffer stage.
#[derive(Debug, Clone, Copy, PartialEq, Eq, Structural)]
pub struct OverrunSignal {
    pub buffer_id: u64,
}

/// What one arrival did: whether the unit was accepted, and the overrun
/// signal if this arrival saturated the buffer.
#[derive(Debug, Clone, Copy, PartialEq, Eq, Structural)]
pub struct Arrival {
    pub accepted: bool,
    pub overrun: Option<OverrunSignal>,
}

/// The occupancy of one bounded buffer stage.
#[derive(Debug, Clone, Copy, PartialEq, Eq, Structural)]
pub struct BufferState {
    pub buffer_id: u64,
    pub capacity: u64,
    pub occupancy: u64,
}

impl BufferState {
    /// A buffer has a positive fixed capacity and never holds more than
    /// it.
    pub open spec fn wf(self) -> bool {
        0 < self.capacity && self.occupancy <= self.capacity
    }

    /// The buffer is in the at-capacity condition.
    pub open spec fn at_capacity(self) -> bool {
        self.occupancy == self.capacity
    }

    /// An empty buffer of the given capacity.
    pub fn new(buffer_id: u64, capacity: u64) -> (b: BufferState)
        requires
            0 < capacity,
        ensures
            b.wf(),
            b.buffer_id == buffer_id,
            b.capacity == capacity,
            b.occupancy == 0,
    {
        BufferState { buffer_id, capacity, occupancy: 0 }
    }

    /// One unit arrives from upstream. Below capacity it is accepted, and
    /// the overrun signal fires if and only if this very arrival reached
    /// capacity — the transition into saturation, so exactly one signal
    /// per saturation episode. At capacity the unit is not accepted (the
    /// upstream blocks) and no further signal fires.
    pub fn arrive(&mut self) -> (r: Arrival)
        requires
            old(self).wf(),
        ensures
            final(self).wf(),
            final(self).buffer_id == old(self).buffer_id,
            final(self).capacity == old(self).capacity,
            old(self).at_capacity() ==> (*final(self) == *old(self) && !r.accepted && r.overrun
                is None),
            !old(self).at_capacity() ==> (r.accepted && final(self).occupancy == old(
                self,
            ).occupancy + 1),
            !old(self).at_capacity() ==> (r.overrun == if final(self).at_capacity() {
                Some(OverrunSignal { buffer_id: old(self).buffer_id })
            } else {
                None::<OverrunSignal>
            }),
    {
        if self.occupancy == self.capacity {
            return Arrival { accepted: false, overrun: None };
        }
        self.occupancy = self.occupancy + 1;
        let overrun = if self.occupancy == self.capacity {
            Some(OverrunSignal { buffer_id: self.buffer_id })
        } else {
            None
        };
        Arrival { accepted: true, overrun }
    }

    /// One unit departs downstream; on an empty buffer nothing happens.
    /// A departure from a full buffer ends the saturation episode, so a
    /// later return to capacity fires a fresh signal.
    pub fn depart(&mut self) -> (took: bool)
        requires
            old(self).wf(),
        ensures
            final(self).wf(),
            final(self).buffer_id == old(self).buffer_id,
            final(self).capacity == old(self).capacity,
            took <==> old(self).occupancy > 0,
            old(self).occupancy > 0 ==> final(self).occupancy == old(self).occupancy - 1,
            old(self).occupancy == 0 ==> *final(self) == *old(self),
    {
        if self.occupancy == 0 {
            return false;
        }
        self.occupancy = self.occupancy - 1;
        true
    }
}

}
