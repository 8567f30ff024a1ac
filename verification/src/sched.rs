//! The decisions of the tick-paced broadcast loop.
//!
//! The loop runs at a fixed period. Each period it drains every pending
//! patch and sends each one to every registered client. When nothing is
//! pending and no wake signal arrived from the ingest path, it parks
//! instead of spinning, so its cost is proportional to actual change
//! volume; the ingest path wakes it the instant an input is applied.

use vstd::prelude::*;
use crate::registry::{Registry, lemma_touched_patch_is_drained, spec_touched_patches};

verus! {

/// What the broadcast loop does this period.
#[derive(Clone, Copy, Debug, Eq, PartialEq, Structural)]
pub enum SchedDecision {
    /// Nothing changed and nobody signalled: suspend the thread.
    Park,
    /// Something is pending or the ingest path signalled: drain every
    /// pending patch, fan it out, and sleep out the rest of the period.
    Flush,
}

/// The decision for one period: park exactly when no patch is pending and
/// no wake signal arrived.
pub open spec fn spec_tick_decision(reg: Registry, woken: bool) -> SchedDecision {
    if !woken && !reg.spec_any_touched() {
        SchedDecision::Park
    } else {
        SchedDecision::Flush
    }
}

/// The decision for one period.
pub fn tick_decision(reg: &Registry, woken: bool) -> (d: SchedDecision)
    ensures
        d == spec_tick_decision(*reg, woken),
{
    if !woken && !reg.any_touched() {
        SchedDecision::Park
    } else {
        SchedDecision::Flush
    }
}

/// The idle half of the scheduler's efficiency property: the loop parks
/// exactly when zero inputs are pending and the ingest path has not
/// signalled, so an idle window costs no broadcast work at all.
pub proof fn lemma_scheduler_parks_exactly_when_idle(reg: Registry, woken: bool)
    ensures
        spec_tick_decision(reg, woken) is Park <==> (!woken && !reg.spec_any_touched()),
{
}

/// The active half of the scheduler's efficiency property: once any
/// client's patch is pending, no period's decision is to park, and the
/// drain of that period carries the pending patch - so a change is
/// flushed no later than one tick period after it was applied.
pub proof fn lemma_pending_patch_flushes_next_tick(reg: Registry, i: int)
    requires
        0 <= i < reg.entries@.len(),
        reg.entries@[i].patch.spec_is_modified(),
    ensures
        forall|woken: bool| spec_tick_decision(reg, woken) == SchedDecision::Flush,
        spec_touched_patches(reg.entries@).contains(reg.entries@[i].patch),
{
    assert(reg.spec_any_touched());
    lemma_touched_patch_is_drained(reg.entries@, i);
}

} // verus!
