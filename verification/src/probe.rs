//! The frame-probe model: per-unit observation hooks on a port. The
//! callbacks themselves run outside the library; what the library owns is
//! the decision they feed — a unit of media data is forwarded on its path
//! exactly when every probe attached to the port, taken in attachment
//! order, lets it continue. The frame-delivery sink of the raw branch is
//! itself such a hook: it tallies each sample handed to the consumer and
//! returns the flow-continuation value.

use vstd::prelude::*;
use crate::graph::PixelFormat;

verus! {

/// What one probe callback decides about one unit of media data:
/// `Continue` forwards it unchanged, `Drop` removes it from this path
/// only.
#[derive(Debug, Clone, Copy, PartialEq, Eq, Structural)]
pub enum Disposition {
    Continue,
    Drop,
}

/// The format metadata of one unit of media data at a probe point. The
/// handle is transient: it is valid only for the duration of the callback
/// and never retained, so only its metadata is modeled.
#[derive(Debug, Clone, Copy, PartialEq, Eq, Structural)]
pub struct FrameSample {
    pub width: u64,
    pub height: u64,
    pub format: PixelFormat,
}

/// Every probe let the unit continue.
pub open spec fn all_continue(ds: Seq<Disposition>) -> bool {
    forall|i: int| 0 <= i < ds.len() ==> ds[i] is Continue
}

/// Combine the dispositions of every probe attached to one port, in
/// attachment order: the unit is forwarded exactly when all of them
/// continue. No probe attached forwards the unit.
pub fn forward_decision(ds: &Vec<Disposition>) -> (d: Disposition)
    ensures
        d is Continue <==> all_continue(ds@),
{
    let n = ds.len();
    let mut i: usize = 0;
    while i < n
        invariant
            i <= n,
            n == ds@.len(),
            forall|j: int| 0 <= j < i ==> ds@[j] is Continue,
        decreases n - i,
    {
        if matches!(ds[i], Disposition::Drop) {
            return Disposition::Drop;
        }
        i += 1;
    }
    Disposition::Continue
}

/// The frame-delivery sink's own hook: counts the samples handed to the
/// consumer. Shared with no other state, so a callback can update it
/// independently of the control loop.
#[derive(Debug, Clone, Copy, PartialEq, Eq, Structural)]
pub struct FrameTally {
    pub delivered: u64,
}

impl FrameTally {
    /// No sample delivered yet.
    pub fn new() -> (t: FrameTally)
        ensures
            t.delivered == 0,
    {
        FrameTally { delivered: 0 }
    }

    /// One sample was handed to the consumer: note it and return the
    /// flow-continuation value. The count saturates rather than wraps.
    pub fn note_sample(&mut self, s: &FrameSample) -> (d: Disposition)
        ensures
            d is Continue,
            old(self).delivered < u64::MAX ==> final(self).delivered == old(self).delivered + 1,
            old(self).delivered == u64::MAX ==> final(self).delivered == u64::MAX,
    {
        let _ = s;
        if self.delivered < u64::MAX {
            self.delivered = self.delivered + 1;
        }
        Disposition::Continue
    }
}

}
