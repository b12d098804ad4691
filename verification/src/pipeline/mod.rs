//! The unit that drains an input channel through processors into exporters,
//! with a failover route for what the exporters refuse.

pub mod builder;

pub use builder::PipelineBuilder;

use crate::bindings::{send_envelope, sent_envelopes};
use crate::error::{Error, Result};
use crate::events::ScopedTelemetry;
use crate::exporters::Exporter;
use crate::processors::Processor;
use crate::receivers::aws_lambda_extension::{
    state_after, step_after, ReceiverSignal, ReceiverState, ReceiverStep,
};
use crate::receivers::Receiver;
use tokio::sync::mpsc::{UnboundedReceiver, UnboundedSender};
use tokio_util::sync::CancellationToken;
use vstd::prelude::*;

verus! {

/// Why a pipeline gave up on an envelope.
#[derive(Debug, Clone, Copy, PartialEq, Eq, Structural)]
pub enum DropCause {
    /// A processor failed on it.
    ProcessorFailed,
    /// An exporter refused it and the pipeline has no failover channel.
    ExportFailed,
    /// An exporter refused it and the failover channel is closed.
    FailoverClosed,
}

/// What became of one envelope.
#[derive(Debug, Clone, Copy, PartialEq, Eq, Structural)]
pub enum Disposition {
    /// Every exporter accepted it.
    Delivered,
    /// An exporter refused it and it went onto the failover channel.
    Rerouted,
    /// It was dropped.
    Dropped(DropCause),
}

/// What the pipeline's run loop hands to the pipeline.
pub enum PipelineEvent {
    /// The next envelope from the input channel.
    Envelope(ScopedTelemetry),
    /// The input channel is closed: every producer is gone.
    InputClosed,
    /// The shared cancellation signal has fired.
    Cancelled,
}

/// What the run loop is to do next.
#[derive(Debug, Clone, Copy, PartialEq, Eq, Structural)]
pub enum PipelineStep {
    /// The envelope has been dealt with; wait for the next event.
    Settled(Disposition),
    /// No more input will come; wait for the cancellation signal alone.
    AwaitCancellation,
    /// The pipeline has stopped; leave the loop.
    Stopped,
}

/// Whether a pipeline still takes input.
#[derive(Debug, Clone, Copy, PartialEq, Eq, Structural)]
pub enum PipelineState {
    Running,
    Stopped,
}

/// Running totals of what a pipeline has done. Each counter stops at
/// `u64::MAX` rather than wrap.
#[derive(Debug, Clone, Copy, PartialEq, Eq, Structural)]
pub struct PipelineStats {
    pub received: u64,
    pub delivered: u64,
    pub rerouted: u64,
    pub dropped: u64,
}

/// `count` plus one, or `u64::MAX` where that does not fit.
pub open spec fn bumped(count: u64) -> u64 {
    if count < u64::MAX {
        (count + 1) as u64
    } else {
        u64::MAX
    }
}

/// What became of an envelope, given how the stages answered: whether the
/// processors let it through, whether the exporters accepted it, and whether
/// the failover channel, if there is one, took it.
pub open spec fn disposition_of(processed: bool, exported: bool, failover: Option<bool>)
    -> Disposition {
    if !processed {
        Disposition::Dropped(DropCause::ProcessorFailed)
    } else if exported {
        Disposition::Delivered
    } else {
        match failover {
            None => Disposition::Dropped(DropCause::ExportFailed),
            Some(true) => Disposition::Rerouted,
            Some(false) => Disposition::Dropped(DropCause::FailoverClosed),
        }
    }
}

impl PipelineStats {
    /// The totals of a pipeline that has seen nothing.
    pub open spec fn zero() -> PipelineStats {
        PipelineStats { received: 0, delivered: 0, rerouted: 0, dropped: 0 }
    }

    /// The totals after one more envelope has met `outcome`.
    pub open spec fn recorded(self, outcome: Disposition) -> PipelineStats {
        PipelineStats {
            received: bumped(self.received),
            delivered: if outcome is Delivered {
                bumped(self.delivered)
            } else {
                self.delivered
            },
            rerouted: if outcome is Rerouted {
                bumped(self.rerouted)
            } else {
                self.rerouted
            },
            dropped: if outcome is Dropped {
                bumped(self.dropped)
            } else {
                self.dropped
            },
        }
    }

    /// Every envelope received is accounted for exactly once, as delivered,
    /// rerouted or dropped; this is known until the total reaches `u64::MAX`.
    pub open spec fn balanced(self) -> bool {
        self.received == u64::MAX || self.delivered + self.rerouted + self.dropped
            == self.received
    }

    /// The totals of a pipeline that has seen nothing.
    pub fn new() -> (stats: PipelineStats)
        ensures
            stats == PipelineStats::zero(),
            stats.balanced(),
    {
        PipelineStats { received: 0, delivered: 0, rerouted: 0, dropped: 0 }
    }

    /// Counts one more envelope, under what became of it.
    pub fn record(self, outcome: Disposition) -> (next: PipelineStats)
        ensures
            next == self.recorded(outcome),
            self.balanced() ==> next.balanced(),
    {
        PipelineStats {
            received: bump(self.received),
            delivered: match outcome {
                Disposition::Delivered => bump(self.delivered),
                _ => self.delivered,
            },
            rerouted: match outcome {
                Disposition::Rerouted => bump(self.rerouted),
                _ => self.rerouted,
            },
            dropped: match outcome {
                Disposition::Dropped(_) => bump(self.dropped),
                _ => self.dropped,
            },
        }
    }
}

/// `count` plus one, or `u64::MAX` where that does not fit.
pub fn bump(count: u64) -> (next: u64)
    ensures
        next == bumped(count),
{
    if count < u64::MAX {
        count + 1
    } else {
        u64::MAX
    }
}

/// Decides what became of an envelope from how the stages answered.
pub fn settle(processed: bool, exported: bool, failover: Option<bool>) -> (outcome: Disposition)
    ensures
        outcome == disposition_of(processed, exported, failover),
{
    if !processed {
        Disposition::Dropped(DropCause::ProcessorFailed)
    } else if exported {
        Disposition::Delivered
    } else {
        match failover {
            None => Disposition::Dropped(DropCause::ExportFailed),
            Some(true) => Disposition::Rerouted,
            Some(false) => Disposition::Dropped(DropCause::FailoverClosed),
        }
    }
}

/// The state in which an event leaves a pipeline: cancellation stops it, and
/// nothing else changes whether it runs.
pub open spec fn pipeline_state_after(state: PipelineState, event: PipelineEvent) -> PipelineState {
    match event {
        PipelineEvent::Cancelled => PipelineState::Stopped,
        _ => state,
    }
}

/// Which outcomes are open to an envelope in a pipeline with `stages`
/// processors and `sinks` exporters, with or without a failover channel: a
/// stage that is not there cannot fail.
pub open spec fn may_settle_as(stages: nat, sinks: nat, failover: bool, outcome: Disposition)
    -> bool {
    match outcome {
        Disposition::Delivered => true,
        Disposition::Rerouted => failover && sinks > 0,
        Disposition::Dropped(DropCause::ProcessorFailed) => stages > 0,
        Disposition::Dropped(DropCause::ExportFailed) => !failover && sinks > 0,
        Disposition::Dropped(DropCause::FailoverClosed) => failover && sinks > 0,
    }
}

/// Whether the first `stages` processors of `chain` can turn `input` into
/// `output`: the first taking `input`, each later one taking what the one
/// before it gave, and the last of them giving `output`.
pub open spec fn chain_may_give(
    chain: Seq<Box<dyn Processor>>,
    stages: int,
    input: ScopedTelemetry,
    output: ScopedTelemetry,
) -> bool
    decreases stages,
{
    if stages <= 0 {
        output == input
    } else {
        exists|before: ScopedTelemetry|
            chain_may_give(chain, stages - 1, input, before) && #[trigger] chain[stages
                - 1].may_process(before, Ok(output))
    }
}

/// Whether `chain` can fail on `input`: some stage can fail on what the
/// stages before it can make of `input`.
pub open spec fn chain_may_fail(chain: Seq<Box<dyn Processor>>, input: ScopedTelemetry) -> bool {
    exists|stage: int, before: ScopedTelemetry, failure: Error|
        0 <= stage < chain.len() && chain_may_give(chain, stage, input, before)
            && #[trigger] chain[stage].may_process(before, Err(failure))
}

/// Whether the exporter at `place` can accept a batch that holds `item` and
/// nothing else.
pub open spec fn may_accept(exporters: Seq<Box<dyn Exporter>>, place: int, item: ScopedTelemetry)
    -> bool {
    exporters[place].may_export(seq![item], Ok(()))
}

/// Whether the exporter at `place` can refuse a batch that holds `item` and
/// nothing else.
pub open spec fn may_refuse(exporters: Seq<Box<dyn Exporter>>, place: int, item: ScopedTelemetry)
    -> bool {
    exists|failure: Error| #[trigger] exporters[place].may_export(seq![item], Err(failure))
}

/// Whether handing `item` to `exporters`, one after the other and up to the
/// first refusal, can end as `accepted` says: with every exporter accepting,
/// or with one of them refusing after all before it accepted.
pub open spec fn export_may_end(
    exporters: Seq<Box<dyn Exporter>>,
    item: ScopedTelemetry,
    accepted: bool,
) -> bool {
    if accepted {
        forall|i: int| 0 <= i < exporters.len() ==> #[trigger] may_accept(exporters, i, item)
    } else {
        exists|i: int|
            0 <= i < exporters.len() && #[trigger] may_refuse(exporters, i, item) && forall|j: int|
                0 <= j < i ==> #[trigger] may_accept(exporters, j, item)
    }
}

/// Whether `outcome` can be what becomes of `envelope` in a pipeline with
/// these processors and exporters:
/// - it is dropped for a processor's failure only where the chain can fail
///   on it;
/// - it is delivered only where every exporter can accept what the chain can
///   make of it;
/// - it is rerouted, or dropped for want of an open failover channel, only
///   where some exporter can refuse what the chain can make of it.
pub open spec fn stages_may_end(
    chain: Seq<Box<dyn Processor>>,
    exporters: Seq<Box<dyn Exporter>>,
    envelope: ScopedTelemetry,
    outcome: Disposition,
) -> bool {
    match outcome {
        Disposition::Dropped(DropCause::ProcessorFailed) => chain_may_fail(chain, envelope),
        Disposition::Delivered => exists|item: ScopedTelemetry|
            chain_may_give(chain, chain.len() as int, envelope, item) && #[trigger] export_may_end(
                exporters,
                item,
                true,
            ),
        _ => exists|item: ScopedTelemetry|
            chain_may_give(chain, chain.len() as int, envelope, item) && #[trigger] export_may_end(
                exporters,
                item,
                false,
            ),
    }
}

/// Whether shutting down the first `upto` of `exporters` can end with
/// `failures` of them reporting a failure.
pub open spec fn shutdown_may_fail(exporters: Seq<Box<dyn Exporter>>, upto: int, failures: int)
    -> bool
    decreases upto,
{
    if upto <= 0 {
        failures == 0
    } else {
        ||| exporters[upto - 1].may_shut_down(Ok(())) && shutdown_may_fail(
            exporters,
            upto - 1,
            failures,
        )
        ||| (exists|failure: Error| #[trigger]
            exporters[upto - 1].may_shut_down(Err(failure))) && shutdown_may_fail(
            exporters,
            upto - 1,
            failures - 1,
        )
    }
}

/// Whether starting `receivers`, one after the other and up to the first
/// failure, can end in `outcome`: with every receiver started, or with the
/// failure of one of them after all before it started.
pub open spec fn start_may_end(receivers: Seq<Box<dyn Receiver>>, outcome: Result<()>) -> bool {
    match outcome {
        Ok(()) => forall|i: int|
            0 <= i < receivers.len() ==> #[trigger] receivers[i].may_start(Ok(())),
        Err(failure) => exists|i: int|
            0 <= i < receivers.len() && #[trigger] receivers[i].may_start(Err(failure))
                && forall|j: int| 0 <= j < i ==> #[trigger] receivers[j].may_start(Ok(())),
    }
}

/// Those of `envelopes` that were rerouted, in order, given what became of
/// each: `outcomes` runs parallel to `envelopes`.
pub open spec fn rerouted_among(envelopes: Seq<ScopedTelemetry>, outcomes: Seq<Disposition>)
    -> Seq<ScopedTelemetry>
    decreases envelopes.len(),
{
    if envelopes.len() == 0 || outcomes.len() != envelopes.len() {
        Seq::empty()
    } else {
        let earlier = rerouted_among(envelopes.drop_last(), outcomes.drop_last());
        if outcomes.last() is Rerouted {
            earlier.push(envelopes.last())
        } else {
            earlier
        }
    }
}

/// The totals after a run of envelopes has met `outcomes`, one after the
/// other.
pub open spec fn stats_after(stats: PipelineStats, outcomes: Seq<Disposition>) -> PipelineStats
    decreases outcomes.len(),
{
    if outcomes.len() == 0 {
        stats
    } else {
        stats_after(stats, outcomes.drop_last()).recorded(outcomes.last())
    }
}

/// A receiver-to-exporter unit.
///
/// It owns its receivers, its processor chain and its exporters, the
/// receiving end of its input channel, the sending end of its failover
/// channel if it has one, and a handle on the shared cancellation signal.
pub struct Pipeline {
    receivers: Vec<Box<dyn Receiver>>,
    receiver_channel: UnboundedReceiver<ScopedTelemetry>,
    processors: Vec<Box<dyn Processor>>,
    exporters: Vec<Box<dyn Exporter>>,
    failover_sender: Option<UnboundedSender<ScopedTelemetry>>,
    cancellation_token: CancellationToken,
    state: PipelineState,
    stats: PipelineStats,
}

impl Pipeline {
    /// The receivers that feed this pipeline.
    pub closed spec fn receivers_spec(&self) -> Seq<Box<dyn Receiver>> {
        self.receivers@
    }

    /// The processor chain, first stage first.
    pub closed spec fn processors_spec(&self) -> Seq<Box<dyn Processor>> {
        self.processors@
    }

    /// The exporters, in the order in which they are called.
    pub closed spec fn exporters_spec(&self) -> Seq<Box<dyn Exporter>> {
        self.exporters@
    }

    /// The sending end of the failover channel, if there is one.
    pub closed spec fn failover_spec(&self) -> Option<UnboundedSender<ScopedTelemetry>> {
        self.failover_sender
    }

    /// The receiving end of the input channel.
    pub closed spec fn input_spec(&self) -> UnboundedReceiver<ScopedTelemetry> {
        self.receiver_channel
    }

    /// The pipeline's handle on the cancellation signal.
    pub closed spec fn token_spec(&self) -> CancellationToken {
        self.cancellation_token
    }

    /// Whether the pipeline still takes input.
    pub closed spec fn state_spec(&self) -> PipelineState {
        self.state
    }

    /// The running totals.
    pub closed spec fn stats_spec(&self) -> PipelineStats {
        self.stats
    }

    /// Whether a failover channel is attached.
    pub open spec fn has_failover(&self) -> bool {
        self.failover_spec() is Some
    }

    /// The envelopes that this pipeline has put onto its failover channel,
    /// oldest first; none where it has no such channel.
    pub open spec fn rerouted_spec(&self) -> Seq<ScopedTelemetry> {
        match self.failover_spec() {
            Some(sender) => sent_envelopes(sender),
            None => Seq::empty(),
        }
    }

    /// Everything but state, totals and failover traffic is as in `before`.
    pub open spec fn same_wiring(&self, before: &Pipeline) -> bool {
        &&& self.receivers_spec() == before.receivers_spec()
        &&& self.processors_spec() == before.processors_spec()
        &&& self.exporters_spec() == before.exporters_spec()
        &&& self.input_spec() == before.input_spec()
        &&& self.token_spec() == before.token_spec()
        &&& self.has_failover() == before.has_failover()
    }

    /// Everything but the input channel is as in `before`.
    pub open spec fn same_but_input(&self, before: &Pipeline) -> bool {
        &&& self.receivers_spec() == before.receivers_spec()
        &&& self.processors_spec() == before.processors_spec()
        &&& self.exporters_spec() == before.exporters_spec()
        &&& self.failover_spec() == before.failover_spec()
        &&& self.token_spec() == before.token_spec()
        &&& self.state_spec() == before.state_spec()
        &&& self.stats_spec() == before.stats_spec()
    }

    /// Puts a running pipeline together from its parts.
    pub(crate) fn assemble(
        receivers: Vec<Box<dyn Receiver>>,
        receiver_channel: UnboundedReceiver<ScopedTelemetry>,
        processors: Vec<Box<dyn Processor>>,
        exporters: Vec<Box<dyn Exporter>>,
        failover_sender: Option<UnboundedSender<ScopedTelemetry>>,
        cancellation_token: CancellationToken,
    ) -> (pipeline: Pipeline)
        ensures
            pipeline.receivers_spec() == receivers@,
            pipeline.input_spec() == receiver_channel,
            pipeline.processors_spec() == processors@,
            pipeline.exporters_spec() == exporters@,
            pipeline.failover_spec() == failover_sender,
            pipeline.token_spec() == cancellation_token,
            pipeline.state_spec() == PipelineState::Running,
            pipeline.stats_spec() == PipelineStats::zero(),
    {
        Pipeline {
            receivers,
            receiver_channel,
            processors,
            exporters,
            failover_sender,
            cancellation_token,
            state: PipelineState::Running,
            stats: PipelineStats::new(),
        }
    }

    /// Whether the pipeline still takes input.
    pub fn is_running(&self) -> (running: bool)
        ensures
            running == (self.state_spec() == PipelineState::Running),
    {
        self.state == PipelineState::Running
    }

    /// The running totals.
    pub fn stats(&self) -> (stats: PipelineStats)
        ensures
            stats == self.stats_spec(),
    {
        self.stats
    }

    /// Whether a failover channel is attached.
    pub fn has_failover_channel(&self) -> (attached: bool)
        ensures
            attached == self.has_failover(),
    {
        self.failover_sender.is_some()
    }

    /// The receivers that feed this pipeline, for whoever runs them.
    pub fn receivers(&self) -> (receivers: &Vec<Box<dyn Receiver>>)
        ensures
            receivers@ == self.receivers_spec(),
    {
        &self.receivers
    }

    /// The pipeline's handle on the cancellation signal, for whoever waits on
    /// it.
    pub fn cancellation_token(&self) -> (token: &CancellationToken)
        ensures
            *token == self.token_spec(),
    {
        &self.cancellation_token
    }

    /// The receiving end of the input channel, for whoever waits on it. The
    /// borrower may take envelopes out; nothing else of the pipeline changes.
    pub fn input(&mut self) -> (channel: &mut UnboundedReceiver<ScopedTelemetry>)
        ensures
            *channel == old(self).input_spec(),
            final(self).input_spec() == *final(channel),
            final(self).same_but_input(old(self)),
    {
        &mut self.receiver_channel
    }

    /// Starts every receiver, in order. A receiver that cannot start ends the
    /// pipeline's chances: its failure is returned at once and the receivers
    /// after it are not started. With no receivers there is nothing to fail.
    ///
    /// Success means that every receiver gave it; a failure is the one that
    /// some receiver gave after all before it had started.
    pub fn start_receivers(&self) -> (outcome: Result<()>)
        ensures
            self.receivers_spec().len() == 0 ==> outcome is Ok,
            start_may_end(self.receivers_spec(), outcome),
    {
        let mut index: usize = 0;
        while index < self.receivers.len()
            invariant
                index <= self.receivers@.len(),
                forall|j: int| 0 <= j < index ==> #[trigger] self.receivers@[j].may_start(Ok(())),
            decreases self.receivers@.len() - index,
        {
            match self.receivers[index].start() {
                Ok(started) => {
                    assert(started == ());
                },
                Err(failure) => {
                    assert(self.receivers@[index as int].may_start(Err(failure)));
                    return Err(failure);
                },
            }
            index = index + 1;
        }
        Ok(())
    }

    /// Runs an envelope through the processor chain, first stage first, each
    /// stage taking what the one before it gave. The first failure ends the
    /// run.
    ///
    /// What comes back is what the whole chain can make of the envelope;
    /// nothing comes back only where some stage can fail on what the stages
    /// before it can make of the envelope.
    fn run_processors(&self, envelope: ScopedTelemetry) -> (processed: Option<ScopedTelemetry>)
        ensures
            self.processors_spec().len() == 0 ==> processed == Some(envelope),
            processed matches Some(output) ==> chain_may_give(
                self.processors_spec(),
                self.processors_spec().len() as int,
                envelope,
                output,
            ),
            processed is None ==> chain_may_fail(self.processors_spec(), envelope),
    {
        let mut current = envelope;
        let mut index: usize = 0;
        while index < self.processors.len()
            invariant
                index <= self.processors@.len(),
                chain_may_give(self.processors@, index as int, envelope, current),
            decreases self.processors@.len() - index,
        {
            let ghost before = current;
            match self.processors[index].process(current) {
                Ok(next) => {
                    proof {
                        let stages = index + 1;
                        assert(self.processors@[stages - 1].may_process(before, Ok(next)));
                    }
                    current = next;
                },
                Err(failure) => {
                    assert(self.processors@[index as int].may_process(before, Err(failure)));
                    return None;
                },
            }
            index = index + 1;
        }
        Some(current)
    }

    /// Hands a copy of `item`, as a batch of one, to each exporter in turn.
    /// The first refusal ends the run. Tells whether every exporter accepted.
    ///
    /// Acceptance means that every exporter accepted that batch; the
    /// opposite, that one of them refused it after all before it had
    /// accepted.
    fn run_exporters(&self, item: &ScopedTelemetry) -> (accepted: bool)
        ensures
            self.exporters_spec().len() == 0 ==> accepted,
            export_may_end(self.exporters_spec(), *item, accepted),
    {
        let mut index: usize = 0;
        while index < self.exporters.len()
            invariant
                index <= self.exporters@.len(),
                forall|j: int| 0 <= j < index ==> #[trigger] may_accept(self.exporters@, j, *item),
            decreases self.exporters@.len() - index,
        {
            let mut batch: Vec<ScopedTelemetry> = Vec::new();
            batch.push(item.clone());
            assert(batch@ == seq![*item]);
            match self.exporters[index].export(batch) {
                Ok(taken) => {
                    assert(taken == ());
                },
                Err(failure) => {
                    assert(self.exporters@[index as int].may_export(seq![*item], Err(failure)));
                    assert(may_refuse(self.exporters@, index as int, *item));
                    return false;
                },
            }
            index = index + 1;
        }
        true
    }

    /// Shuts every exporter down, in order. Tells how many reported a
    /// failure: each exporter is counted or not as it answered.
    fn shutdown_exporters(&self) -> (failures: usize)
        ensures
            failures <= self.exporters_spec().len(),
            shutdown_may_fail(
                self.exporters_spec(),
                self.exporters_spec().len() as int,
                failures as int,
            ),
    {
        let mut failures: usize = 0;
        let mut index: usize = 0;
        while index < self.exporters.len()
            invariant
                index <= self.exporters@.len(),
                failures <= index,
                shutdown_may_fail(self.exporters@, index as int, failures as int),
            decreases self.exporters@.len() - index,
        {
            match self.exporters[index].shutdown() {
                Ok(done) => {
                    proof {
                        let upto = index + 1;
                        assert(done == ());
                        assert(self.exporters@[upto - 1].may_shut_down(Ok(())));
                    }
                },
                Err(failure) => {
                    proof {
                        let upto = index + 1;
                        assert(self.exporters@[upto - 1].may_shut_down(Err(failure)));
                    }
                    failures = failures + 1;
                },
            }
            index = index + 1;
        }
        failures
    }

    /// Deals with a run of envelopes, in order, as [`handle`](Self::handle)
    /// deals with each. Says what became of each; a stopped pipeline takes
    /// none and says nothing.
    pub fn handle_batch(&mut self, envelopes: Vec<ScopedTelemetry>) -> (outcomes: Vec<Disposition>)
        ensures
            final(self).same_wiring(old(self)),
            final(self).state_spec() == old(self).state_spec(),
            old(self).state_spec() == PipelineState::Stopped ==> {
                &&& outcomes@.len() == 0
                &&& final(self).stats_spec() == old(self).stats_spec()
                &&& final(self).rerouted_spec() == old(self).rerouted_spec()
            },
            old(self).state_spec() == PipelineState::Running ==> {
                &&& outcomes@.len() == envelopes@.len()
                &&& forall|i: int|
                    0 <= i < outcomes@.len() ==> may_settle_as(
                        old(self).processors_spec().len(),
                        old(self).exporters_spec().len(),
                        old(self).has_failover(),
                        #[trigger] outcomes@[i],
                    )
                &&& forall|i: int|
                    0 <= i < outcomes@.len() ==> stages_may_end(
                        old(self).processors_spec(),
                        old(self).exporters_spec(),
                        envelopes@[i],
                        #[trigger] outcomes@[i],
                    )
                &&& final(self).stats_spec() == stats_after(old(self).stats_spec(), outcomes@)
                &&& final(self).rerouted_spec() == old(self).rerouted_spec() + rerouted_among(
                    envelopes@,
                    outcomes@,
                )
            },
    {
        let mut outcomes: Vec<Disposition> = Vec::new();
        if self.state == PipelineState::Stopped {
            return outcomes;
        }
        let ghost all = envelopes@;
        for envelope in iter: envelopes.into_iter()
            invariant
                iter.seq() == all,
                self.same_wiring(old(self)),
                self.state_spec() == PipelineState::Running,
                outcomes@.len() == iter.index(),
                forall|i: int|
                    0 <= i < outcomes@.len() ==> may_settle_as(
                        old(self).processors_spec().len(),
                        old(self).exporters_spec().len(),
                        old(self).has_failover(),
                        #[trigger] outcomes@[i],
                    ),
                forall|i: int|
                    0 <= i < outcomes@.len() ==> stages_may_end(
                        old(self).processors_spec(),
                        old(self).exporters_spec(),
                        all[i],
                        #[trigger] outcomes@[i],
                    ),
                self.stats_spec() == stats_after(old(self).stats_spec(), outcomes@),
                self.rerouted_spec() == old(self).rerouted_spec() + rerouted_among(
                    all.take(iter.index() as int),
                    outcomes@,
                ),
        {
            let ghost seen = all.take(iter.index() as int);
            let ghost earlier = outcomes@;
            let step = self.handle(PipelineEvent::Envelope(envelope));
            match step {
                PipelineStep::Settled(outcome) => {
                    outcomes.push(outcome);
                    proof {
                        let now = all.take(iter.index() + 1);
                        assert(now.drop_last() == seen);
                        assert(outcomes@.drop_last() == earlier);
                    }
                },
                _ => {},
            }
        }
        proof {
            assert(all.take(all.len() as int) == all);
        }
        outcomes
    }

    /// Takes one event from the run loop and deals with it.
    ///
    /// A stopped pipeline ignores every event. A running pipeline stops on
    /// `Cancelled`, after shutting every exporter down, and on nothing else: a
    /// closed input channel leaves it running, with only the cancellation
    /// signal to wait for. On an envelope it runs the processor chain and
    /// then the exporters; what the exporters refuse goes, as it came in and
    /// not as the processors left it, onto the failover channel if there is
    /// one. Whatever happens to an envelope is counted.
    pub fn handle(&mut self, event: PipelineEvent) -> (step: PipelineStep)
        ensures
            final(self).same_wiring(old(self)),
            final(self).state_spec() == pipeline_state_after(old(self).state_spec(), event),
            old(self).state_spec() == PipelineState::Stopped || event is Cancelled ==> {
                &&& step == PipelineStep::Stopped
                &&& final(self).state_spec() == PipelineState::Stopped
                &&& final(self).stats_spec() == old(self).stats_spec()
                &&& final(self).rerouted_spec() == old(self).rerouted_spec()
            },
            old(self).state_spec() == PipelineState::Running && event is Cancelled ==> (exists|
                failures: int|
                shutdown_may_fail(
                    old(self).exporters_spec(),
                    old(self).exporters_spec().len() as int,
                    failures,
                )),
            old(self).state_spec() == PipelineState::Running && event is InputClosed ==> {
                &&& step == PipelineStep::AwaitCancellation
                &&& final(self).state_spec() == PipelineState::Running
                &&& final(self).stats_spec() == old(self).stats_spec()
                &&& final(self).rerouted_spec() == old(self).rerouted_spec()
            },
            old(self).state_spec() == PipelineState::Running ==> (event matches
                PipelineEvent::Envelope(envelope) ==> {
                &&& step matches PipelineStep::Settled(outcome)
                &&& may_settle_as(
                    old(self).processors_spec().len(),
                    old(self).exporters_spec().len(),
                    old(self).has_failover(),
                    outcome,
                )
                &&& stages_may_end(
                    old(self).processors_spec(),
                    old(self).exporters_spec(),
                    envelope,
                    outcome,
                )
                &&& final(self).state_spec() == PipelineState::Running
                &&& final(self).stats_spec() == old(self).stats_spec().recorded(outcome)
                &&& final(self).rerouted_spec() == if outcome is Rerouted {
                    old(self).rerouted_spec().push(envelope)
                } else {
                    old(self).rerouted_spec()
                }
            }),
    {
        if self.state == PipelineState::Stopped {
            return PipelineStep::Stopped;
        }
        match event {
            PipelineEvent::Cancelled => {
                let failures = self.shutdown_exporters();
                assert(shutdown_may_fail(
                    self.exporters_spec(),
                    self.exporters_spec().len() as int,
                    failures as int,
                ));
                self.state = PipelineState::Stopped;
                PipelineStep::Stopped
            },
            PipelineEvent::InputClosed => PipelineStep::AwaitCancellation,
            PipelineEvent::Envelope(envelope) => {
                let as_received = if self.failover_sender.is_some() {
                    Some(envelope.clone())
                } else {
                    None
                };
                let processed = self.run_processors(envelope);
                let outcome = match processed {
                    None => settle(false, false, None),
                    Some(item) => {
                        if self.run_exporters(&item) {
                            settle(true, true, None)
                        } else {
                            match (&mut self.failover_sender, as_received) {
                                (Some(sender), Some(untouched)) => {
                                    let sent = send_envelope(sender, untouched).is_ok();
                                    settle(true, false, Some(sent))
                                },
                                _ => settle(true, false, None),
                            }
                        }
                    },
                };
                self.stats = self.stats.record(outcome);
                PipelineStep::Settled(outcome)
            },
        }
    }
}

/// With an exporter that can never accept, no envelope is delivered: each is
/// rerouted or dropped.
pub proof fn lemma_refusing_exporter_prevents_delivery(
    chain: Seq<Box<dyn Processor>>,
    exporters: Seq<Box<dyn Exporter>>,
    place: int,
    envelope: ScopedTelemetry,
    outcome: Disposition,
)
    requires
        0 <= place < exporters.len(),
        forall|item: ScopedTelemetry| !#[trigger] may_accept(exporters, place, item),
        stages_may_end(chain, exporters, envelope, outcome),
    ensures
        !(outcome is Delivered),
{
    if outcome is Delivered {
        let item = choose|item: ScopedTelemetry|
            chain_may_give(chain, chain.len() as int, envelope, item) && #[trigger] export_may_end(
                exporters,
                item,
                true,
            );
        assert(may_accept(exporters, place, item));
    }
}

/// With no processors and with exporters that can never refuse, every
/// envelope is delivered, as it came in.
pub proof fn lemma_accepting_exporters_deliver(
    chain: Seq<Box<dyn Processor>>,
    exporters: Seq<Box<dyn Exporter>>,
    envelope: ScopedTelemetry,
    outcome: Disposition,
)
    requires
        chain.len() == 0,
        forall|place: int, item: ScopedTelemetry|
            0 <= place < exporters.len() ==> !#[trigger] may_refuse(exporters, place, item),
        stages_may_end(chain, exporters, envelope, outcome),
    ensures
        outcome is Delivered,
{
    if !(outcome is Delivered) && outcome != Disposition::Dropped(DropCause::ProcessorFailed) {
        let item = choose|item: ScopedTelemetry|
            chain_may_give(chain, chain.len() as int, envelope, item) && #[trigger] export_may_end(
                exporters,
                item,
                false,
            );
        let place = choose|i: int|
            0 <= i < exporters.len() && #[trigger] may_refuse(exporters, i, item);
        assert(may_refuse(exporters, place, item));
    }
}

/// With an exporter that can never accept, with processors that cannot fail
/// on the envelopes of a run, and with a failover channel that stays open,
/// every envelope of the run is rerouted: what goes onto the failover
/// channel is the run itself, each envelope once, none missing, in the order
/// of arrival.
pub proof fn lemma_refused_run_is_rerouted_once(
    chain: Seq<Box<dyn Processor>>,
    exporters: Seq<Box<dyn Exporter>>,
    place: int,
    envelopes: Seq<ScopedTelemetry>,
    outcomes: Seq<Disposition>,
)
    requires
        0 <= place < exporters.len(),
        forall|item: ScopedTelemetry| !#[trigger] may_accept(exporters, place, item),
        outcomes.len() == envelopes.len(),
        forall|i: int|
            0 <= i < outcomes.len() ==> stages_may_end(
                chain,
                exporters,
                envelopes[i],
                #[trigger] outcomes[i],
            ),
        forall|i: int| 0 <= i < envelopes.len() ==> !chain_may_fail(chain, #[trigger] envelopes[i]),
        forall|i: int|
            0 <= i < outcomes.len() ==> may_settle_as(
                chain.len(),
                exporters.len(),
                true,
                #[trigger] outcomes[i],
            ),
        forall|i: int|
            0 <= i < outcomes.len() ==> #[trigger] outcomes[i] != Disposition::Dropped(
                DropCause::FailoverClosed,
            ),
    ensures
        forall|i: int| 0 <= i < outcomes.len() ==> #[trigger] outcomes[i] is Rerouted,
        rerouted_among(envelopes, outcomes) == envelopes,
{
    assert forall|i: int| 0 <= i < outcomes.len() implies #[trigger] outcomes[i] is Rerouted by {
        lemma_refusing_exporter_prevents_delivery(
            chain,
            exporters,
            place,
            envelopes[i],
            outcomes[i],
        );
        assert(!chain_may_fail(chain, envelopes[i]));
    }
    lemma_all_rerouted(envelopes, outcomes);
}

/// With an exporter that can never accept and without a failover channel,
/// every envelope of a run is dropped: none is delivered, none goes onto any
/// channel, and a drop is recorded for each, short of `u64::MAX`.
pub proof fn lemma_refused_run_without_failover_is_dropped(
    chain: Seq<Box<dyn Processor>>,
    exporters: Seq<Box<dyn Exporter>>,
    place: int,
    envelopes: Seq<ScopedTelemetry>,
    outcomes: Seq<Disposition>,
    stats: PipelineStats,
)
    requires
        0 <= place < exporters.len(),
        forall|item: ScopedTelemetry| !#[trigger] may_accept(exporters, place, item),
        outcomes.len() == envelopes.len(),
        forall|i: int|
            0 <= i < outcomes.len() ==> stages_may_end(
                chain,
                exporters,
                envelopes[i],
                #[trigger] outcomes[i],
            ),
        forall|i: int|
            0 <= i < outcomes.len() ==> may_settle_as(
                chain.len(),
                exporters.len(),
                false,
                #[trigger] outcomes[i],
            ),
    ensures
        forall|i: int| 0 <= i < outcomes.len() ==> #[trigger] outcomes[i] is Dropped,
        rerouted_among(envelopes, outcomes) == Seq::<ScopedTelemetry>::empty(),
        stats_after(stats, outcomes).delivered == stats.delivered,
        stats_after(stats, outcomes).rerouted == stats.rerouted,
        stats.dropped + outcomes.len() <= u64::MAX ==> stats_after(stats, outcomes).dropped
            == stats.dropped + outcomes.len(),
{
    assert forall|i: int| 0 <= i < outcomes.len() implies #[trigger] outcomes[i] is Dropped by {
        lemma_refusing_exporter_prevents_delivery(
            chain,
            exporters,
            place,
            envelopes[i],
            outcomes[i],
        );
    }
    lemma_none_rerouted(envelopes, outcomes);
    lemma_all_dropped(stats, outcomes);
}

/// Cancellation ends a receiver and a pipeline alike, whatever each was
/// doing or waiting for: both are stopped, and the receiver's loop is told
/// to finish.
pub proof fn lemma_cancellation_stops_receiver_and_pipeline(
    receiver: ReceiverState,
    pipeline: PipelineState,
)
    ensures
        state_after(receiver, ReceiverSignal::Cancelled) == ReceiverState::Stopped,
        step_after(receiver, ReceiverSignal::Cancelled) == ReceiverStep::Finish,
        pipeline_state_after(pipeline, PipelineEvent::Cancelled) == PipelineState::Stopped,
{
}

/// Where every envelope of a run was rerouted, the rerouted envelopes are the
/// run itself: each envelope once, none missing, in the order of arrival.
pub proof fn lemma_all_rerouted(envelopes: Seq<ScopedTelemetry>, outcomes: Seq<Disposition>)
    requires
        outcomes.len() == envelopes.len(),
        forall|i: int| 0 <= i < outcomes.len() ==> #[trigger] outcomes[i] is Rerouted,
    ensures
        rerouted_among(envelopes, outcomes) == envelopes,
    decreases envelopes.len(),
{
    if envelopes.len() > 0 {
        lemma_all_rerouted(envelopes.drop_last(), outcomes.drop_last());
    }
}

/// Where no envelope of a run was rerouted, nothing of the run went onto the
/// failover channel.
pub proof fn lemma_none_rerouted(envelopes: Seq<ScopedTelemetry>, outcomes: Seq<Disposition>)
    requires
        forall|i: int| 0 <= i < outcomes.len() ==> !(#[trigger] outcomes[i] is Rerouted),
    ensures
        rerouted_among(envelopes, outcomes) == Seq::<ScopedTelemetry>::empty(),
    decreases envelopes.len(),
{
    if envelopes.len() > 0 && outcomes.len() == envelopes.len() {
        lemma_none_rerouted(envelopes.drop_last(), outcomes.drop_last());
    }
}

/// The totals after a run: every envelope is counted as received and under
/// exactly one of the three outcomes, so totals that were balanced stay
/// balanced; and short of `u64::MAX` the received total grows by the length
/// of the run.
pub proof fn lemma_run_is_accounted_for(stats: PipelineStats, outcomes: Seq<Disposition>)
    requires
        stats.balanced(),
    ensures
        stats_after(stats, outcomes).balanced(),
        stats.received + outcomes.len() <= u64::MAX ==> stats_after(stats, outcomes).received
            == stats.received + outcomes.len(),
    decreases outcomes.len(),
{
    if outcomes.len() > 0 {
        lemma_run_is_accounted_for(stats, outcomes.drop_last());
    }
}

/// Where every envelope of a run was dropped, a drop is recorded for each,
/// short of `u64::MAX`, and the other two totals stand still.
pub proof fn lemma_all_dropped(stats: PipelineStats, outcomes: Seq<Disposition>)
    requires
        forall|i: int| 0 <= i < outcomes.len() ==> #[trigger] outcomes[i] is Dropped,
    ensures
        stats.dropped + outcomes.len() <= u64::MAX ==> stats_after(stats, outcomes).dropped
            == stats.dropped + outcomes.len(),
        stats_after(stats, outcomes).delivered == stats.delivered,
        stats_after(stats, outcomes).rerouted == stats.rerouted,
    decreases outcomes.len(),
{
    if outcomes.len() > 0 {
        lemma_all_dropped(stats, outcomes.drop_last());
    }
}

} // verus!
