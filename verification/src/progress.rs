//! Progress reporting: one clone shows two conceptual phases on a single
//! indicator — receiving objects, then resolving deltas. The transport hands
//! back raw transfer counters; [`progress_update`] turns one such sample into
//! the label, range and position the indicator should show.

use vstd::prelude::*;

verus! {

/// The two phases of one repository's transfer.
#[derive(Debug, Clone, Copy, PartialEq, Eq, Structural)]
pub enum ProgressPhase {
    ReceivingObjects,
    ResolvingDeltas,
}

/// What the shared progress indicator should display for one sample of the
/// transfer counters.
#[derive(Debug, Clone, Copy, PartialEq, Eq, Structural)]
pub struct ProgressUpdate {
    pub phase: ProgressPhase,
    pub total: usize,
    pub position: usize,
}

/// Turn one sample of the transport's transfer counters into a display
/// update: while objects are still arriving the indicator counts objects
/// received out of the total; once every object has arrived it switches to
/// counting deltas indexed out of the delta total.
pub fn progress_update(
    received_objects: usize,
    total_objects: usize,
    indexed_deltas: usize,
    total_deltas: usize,
) -> (r: ProgressUpdate)
    ensures
        received_objects < total_objects ==> r == (ProgressUpdate {
            phase: ProgressPhase::ReceivingObjects,
            total: total_objects,
            position: received_objects,
        }),
        received_objects >= total_objects ==> r == (ProgressUpdate {
            phase: ProgressPhase::ResolvingDeltas,
            total: total_deltas,
            position: indexed_deltas,
        }),
{
    if received_objects < total_objects {
        ProgressUpdate {
            phase: ProgressPhase::ReceivingObjects,
            total: total_objects,
            position: received_objects,
        }
    } else {
        ProgressUpdate {
            phase: ProgressPhase::ResolvingDeltas,
            total: total_deltas,
            position: indexed_deltas,
        }
    }
}

} // verus!
