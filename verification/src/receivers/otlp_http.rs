//! The intake policy of the listener that takes telemetry pushed by the
//! host.
//!
//! The host must be answered quickly, however busy the pipelines are. So the
//! listener offers each envelope to a bounded channel under a short deadline,
//! and gives up on an envelope that the channel does not take in time:
//! bounded memory and bounded latency come before zero loss. Whoever runs the
//! listener makes the offer and reports how it ended; this module keeps the
//! count.

use crate::pipeline::{bump, bumped};
use vstd::prelude::*;

verus! {

/// How an offer of one envelope to the pipeline's channel ended.
#[derive(Debug, Clone, Copy, PartialEq, Eq, Structural)]
pub enum Enqueue {
    /// The channel took the envelope.
    Accepted,
    /// The channel was still full when the deadline passed.
    DeadlineElapsed,
    /// The channel is closed.
    ChannelClosed,
}

/// Running totals of a listener's offers. Each counter stops at `u64::MAX`
/// rather than wrap.
#[derive(Debug, Clone, Copy, PartialEq, Eq, Structural)]
pub struct IntakeStats {
    pub offered: u64,
    pub accepted: u64,
    pub dropped: u64,
}

/// The totals after a run of offers has ended as `outcomes` say, one after
/// the other.
pub open spec fn intake_after(stats: IntakeStats, outcomes: Seq<Enqueue>) -> IntakeStats
    decreases outcomes.len(),
{
    if outcomes.len() == 0 {
        stats
    } else {
        intake_after(stats, outcomes.drop_last()).recorded(outcomes.last())
    }
}

impl IntakeStats {
    /// The totals of a listener that has offered nothing.
    pub open spec fn zero() -> IntakeStats {
        IntakeStats { offered: 0, accepted: 0, dropped: 0 }
    }

    /// The totals after one more offer has ended in `outcome`: an envelope
    /// that the channel did not take is dropped.
    pub open spec fn recorded(self, outcome: Enqueue) -> IntakeStats {
        IntakeStats {
            offered: bumped(self.offered),
            accepted: if outcome is Accepted {
                bumped(self.accepted)
            } else {
                self.accepted
            },
            dropped: if outcome is Accepted {
                self.dropped
            } else {
                bumped(self.dropped)
            },
        }
    }

    /// Every offer is accounted for exactly once, as accepted or dropped;
    /// this is known until the total reaches `u64::MAX`.
    pub open spec fn balanced(self) -> bool {
        self.offered == u64::MAX || self.accepted + self.dropped == self.offered
    }

    /// The totals of a listener that has offered nothing.
    pub fn new() -> (stats: IntakeStats)
        ensures
            stats == IntakeStats::zero(),
            stats.balanced(),
    {
        IntakeStats { offered: 0, accepted: 0, dropped: 0 }
    }

    /// Counts one more offer, under how it ended. Tells whether the envelope
    /// was dropped.
    pub fn record(&mut self, outcome: Enqueue) -> (dropped: bool)
        ensures
            *final(self) == old(self).recorded(outcome),
            dropped == !(outcome is Accepted),
            old(self).balanced() ==> final(self).balanced(),
    {
        self.offered = bump(self.offered);
        match outcome {
            Enqueue::Accepted => {
                self.accepted = bump(self.accepted);
                false
            },
            _ => {
                self.dropped = bump(self.dropped);
                true
            },
        }
    }
}

/// Where no offer of a run was accepted, a drop is recorded for each, short
/// of `u64::MAX`, and nothing is recorded as accepted.
pub proof fn lemma_saturated_intake_drops_all(stats: IntakeStats, outcomes: Seq<Enqueue>)
    requires
        forall|i: int| 0 <= i < outcomes.len() ==> !(#[trigger] outcomes[i] is Accepted),
    ensures
        stats.dropped + outcomes.len() <= u64::MAX ==> intake_after(stats, outcomes).dropped
            == stats.dropped + outcomes.len(),
        intake_after(stats, outcomes).accepted == stats.accepted,
    decreases outcomes.len(),
{
    if outcomes.len() > 0 {
        lemma_saturated_intake_drops_all(stats, outcomes.drop_last());
    }
}

/// Totals that were balanced stay balanced over any run of offers.
pub proof fn lemma_intake_is_accounted_for(stats: IntakeStats, outcomes: Seq<Enqueue>)
    requires
        stats.balanced(),
    ensures
        intake_after(stats, outcomes).balanced(),
    decreases outcomes.len(),
{
    if outcomes.len() > 0 {
        lemma_intake_is_accounted_for(stats, outcomes.drop_last());
    }
}

} // verus!
