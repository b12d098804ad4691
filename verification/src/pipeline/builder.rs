//! Staged assembly of a [`Pipeline`].
//!
//! Each of the five slots is empty or filled, and the builder's type says
//! which. A slot can be filled once, and only a builder whose type shows the
//! three mandatory slots filled has a `build`.

use super::{Pipeline, PipelineState, PipelineStats};
use crate::bindings::{envelope_channel, sent_envelopes};
use crate::events::ScopedTelemetry;
use crate::exporters::Exporter;
use crate::processors::Processor;
use crate::receivers::Receiver;
use std::marker::PhantomData;
use tokio::sync::mpsc::UnboundedSender;
use tokio_util::sync::CancellationToken;
use vstd::prelude::*;

verus! {

/// A marker type that stands for the state of one slot.
pub trait Slot {
    /// Whether the marker stands for a filled slot.
    spec fn filled() -> bool;
}

pub struct NoReceiver;

pub struct HasReceiver;

pub struct NoProcessors;

pub struct HasProcessors;

pub struct NoExporter;

pub struct HasExporter;

pub struct NoFailoverChannel;

pub struct HasFailoverChannel;

pub struct NoCancellationToken;

pub struct HasCancellationToken;

impl Slot for NoReceiver {
    open spec fn filled() -> bool {
        false
    }
}

impl Slot for HasReceiver {
    open spec fn filled() -> bool {
        true
    }
}

impl Slot for NoProcessors {
    open spec fn filled() -> bool {
        false
    }
}

impl Slot for HasProcessors {
    open spec fn filled() -> bool {
        true
    }
}

impl Slot for NoExporter {
    open spec fn filled() -> bool {
        false
    }
}

impl Slot for HasExporter {
    open spec fn filled() -> bool {
        true
    }
}

impl Slot for NoFailoverChannel {
    open spec fn filled() -> bool {
        false
    }
}

impl Slot for HasFailoverChannel {
    open spec fn filled() -> bool {
        true
    }
}

impl Slot for NoCancellationToken {
    open spec fn filled() -> bool {
        false
    }
}

impl Slot for HasCancellationToken {
    open spec fn filled() -> bool {
        true
    }
}

/// A pipeline under construction. The type parameters say, in this order,
/// whether receivers, processors, exporters, a failover channel and a
/// cancellation token have been supplied.
pub struct PipelineBuilder<R: Slot, P: Slot, E: Slot, FC: Slot, CT: Slot> {
    receivers: Option<Vec<Box<dyn Receiver>>>,
    processors: Option<Vec<Box<dyn Processor>>>,
    exporters: Option<Vec<Box<dyn Exporter>>>,
    failover_sender: Option<UnboundedSender<ScopedTelemetry>>,
    cancellation_token: Option<CancellationToken>,
    _phantom: PhantomData<(R, P, E, FC, CT)>,
}

impl<R: Slot, P: Slot, E: Slot, FC: Slot, CT: Slot> PipelineBuilder<R, P, E, FC, CT> {
    /// Each slot is filled exactly when the builder's type says so.
    #[verifier::type_invariant]
    closed spec fn slots_match_type(self) -> bool {
        &&& self.receivers is Some <==> R::filled()
        &&& self.processors is Some <==> P::filled()
        &&& self.exporters is Some <==> E::filled()
        &&& self.failover_sender is Some <==> FC::filled()
        &&& self.cancellation_token is Some <==> CT::filled()
    }

    /// The receivers supplied so far.
    pub closed spec fn receivers_slot(self) -> Option<Vec<Box<dyn Receiver>>> {
        self.receivers
    }

    /// The processor chain supplied so far.
    pub closed spec fn processors_slot(self) -> Option<Vec<Box<dyn Processor>>> {
        self.processors
    }

    /// The exporters supplied so far.
    pub closed spec fn exporters_slot(self) -> Option<Vec<Box<dyn Exporter>>> {
        self.exporters
    }

    /// The failover channel supplied so far.
    pub closed spec fn failover_slot(self) -> Option<UnboundedSender<ScopedTelemetry>> {
        self.failover_sender
    }

    /// The cancellation token supplied so far.
    pub closed spec fn token_slot(self) -> Option<CancellationToken> {
        self.cancellation_token
    }

    /// Which slots are filled, in the order of the type parameters.
    pub open spec fn filled_slots(self) -> (bool, bool, bool, bool, bool) {
        (
            self.receivers_slot() is Some,
            self.processors_slot() is Some,
            self.exporters_slot() is Some,
            self.failover_slot() is Some,
            self.token_slot() is Some,
        )
    }

    /// Whether the three mandatory slots are filled. The answer is read off
    /// the slots, and is proved to be what the builder's type says.
    pub fn is_complete(&self) -> (complete: bool)
        ensures
            self.filled_slots() == (
                R::filled(),
                P::filled(),
                E::filled(),
                FC::filled(),
                CT::filled(),
            ),
            complete <==> P::filled() && E::filled() && CT::filled(),
    {
        proof {
            use_type_invariant(self);
        }
        self.processors.is_some() && self.exporters.is_some() && self.cancellation_token.is_some()
    }
}

impl PipelineBuilder<
    NoReceiver,
    NoProcessors,
    NoExporter,
    NoFailoverChannel,
    NoCancellationToken,
> {
    /// A builder with every slot empty.
    pub fn new() -> (builder: Self)
        ensures
            builder.receivers_slot() is None,
            builder.processors_slot() is None,
            builder.exporters_slot() is None,
            builder.failover_slot() is None,
            builder.token_slot() is None,
    {
        PipelineBuilder {
            receivers: None,
            processors: None,
            exporters: None,
            failover_sender: None,
            cancellation_token: None,
            _phantom: PhantomData,
        }
    }
}

impl<P: Slot, E: Slot, FC: Slot, CT: Slot> PipelineBuilder<NoReceiver, P, E, FC, CT> {
    /// Fills the receiver slot.
    pub fn with_receivers(self, receivers: Vec<Box<dyn Receiver>>) -> (builder: PipelineBuilder<
        HasReceiver,
        P,
        E,
        FC,
        CT,
    >)
        ensures
            builder.receivers_slot() == Some(receivers),
            builder.processors_slot() == self.processors_slot(),
            builder.exporters_slot() == self.exporters_slot(),
            builder.failover_slot() == self.failover_slot(),
            builder.token_slot() == self.token_slot(),
    {
        proof {
            use_type_invariant(&self);
        }
        PipelineBuilder {
            receivers: Some(receivers),
            processors: self.processors,
            exporters: self.exporters,
            failover_sender: self.failover_sender,
            cancellation_token: self.cancellation_token,
            _phantom: PhantomData,
        }
    }
}

impl<R: Slot, E: Slot, FC: Slot, CT: Slot> PipelineBuilder<R, NoProcessors, E, FC, CT> {
    /// Fills the processor slot. An empty chain is a valid chain.
    pub fn with_processors(self, processors: Vec<Box<dyn Processor>>) -> (builder:
        PipelineBuilder<R, HasProcessors, E, FC, CT>)
        ensures
            builder.receivers_slot() == self.receivers_slot(),
            builder.processors_slot() == Some(processors),
            builder.exporters_slot() == self.exporters_slot(),
            builder.failover_slot() == self.failover_slot(),
            builder.token_slot() == self.token_slot(),
    {
        proof {
            use_type_invariant(&self);
        }
        PipelineBuilder {
            receivers: self.receivers,
            processors: Some(processors),
            exporters: self.exporters,
            failover_sender: self.failover_sender,
            cancellation_token: self.cancellation_token,
            _phantom: PhantomData,
        }
    }
}

impl<R: Slot, P: Slot, FC: Slot, CT: Slot> PipelineBuilder<R, P, NoExporter, FC, CT> {
    /// Fills the exporter slot.
    pub fn with_exporters(self, exporters: Vec<Box<dyn Exporter>>) -> (builder: PipelineBuilder<
        R,
        P,
        HasExporter,
        FC,
        CT,
    >)
        ensures
            builder.receivers_slot() == self.receivers_slot(),
            builder.processors_slot() == self.processors_slot(),
            builder.exporters_slot() == Some(exporters),
            builder.failover_slot() == self.failover_slot(),
            builder.token_slot() == self.token_slot(),
    {
        proof {
            use_type_invariant(&self);
        }
        PipelineBuilder {
            receivers: self.receivers,
            processors: self.processors,
            exporters: Some(exporters),
            failover_sender: self.failover_sender,
            cancellation_token: self.cancellation_token,
            _phantom: PhantomData,
        }
    }
}

impl<R: Slot, P: Slot, E: Slot, CT: Slot> PipelineBuilder<R, P, E, NoFailoverChannel, CT> {
    /// Fills the failover slot with the sending end of another pipeline's
    /// input channel.
    pub fn with_failover_channel(
        self,
        failover_sender: UnboundedSender<ScopedTelemetry>,
    ) -> (builder: PipelineBuilder<R, P, E, HasFailoverChannel, CT>)
        ensures
            builder.receivers_slot() == self.receivers_slot(),
            builder.processors_slot() == self.processors_slot(),
            builder.exporters_slot() == self.exporters_slot(),
            builder.failover_slot() == Some(failover_sender),
            builder.token_slot() == self.token_slot(),
    {
        proof {
            use_type_invariant(&self);
        }
        PipelineBuilder {
            receivers: self.receivers,
            processors: self.processors,
            exporters: self.exporters,
            failover_sender: Some(failover_sender),
            cancellation_token: self.cancellation_token,
            _phantom: PhantomData,
        }
    }
}

impl<R: Slot, P: Slot, E: Slot, FC: Slot> PipelineBuilder<R, P, E, FC, NoCancellationToken> {
    /// Fills the cancellation slot.
    pub fn with_cancellation_token(self, cancellation_token: CancellationToken) -> (builder:
        PipelineBuilder<R, P, E, FC, HasCancellationToken>)
        ensures
            builder.receivers_slot() == self.receivers_slot(),
            builder.processors_slot() == self.processors_slot(),
            builder.exporters_slot() == self.exporters_slot(),
            builder.failover_slot() == self.failover_slot(),
            builder.token_slot() == Some(cancellation_token),
    {
        proof {
            use_type_invariant(&self);
        }
        PipelineBuilder {
            receivers: self.receivers,
            processors: self.processors,
            exporters: self.exporters,
            failover_sender: self.failover_sender,
            cancellation_token: Some(cancellation_token),
            _phantom: PhantomData,
        }
    }
}

impl<R: Slot, FC: Slot> PipelineBuilder<R, HasProcessors, HasExporter, FC, HasCancellationToken> {
    /// Assembles the pipeline, and opens its input channel.
    ///
    /// Returns the pipeline, running and with all totals at zero, together
    /// with the sending end of its input channel, through which nothing has
    /// been sent yet. The pipeline holds what the slots held; a builder
    /// without receivers gives a pipeline with none.
    pub fn build(self) -> (built: (Pipeline, UnboundedSender<ScopedTelemetry>))
        ensures
            built.0.receivers_spec() == match self.receivers_slot() {
                Some(receivers) => receivers@,
                None => Seq::empty(),
            },
            self.processors_slot() matches Some(processors) && built.0.processors_spec()
                == processors@,
            self.exporters_slot() matches Some(exporters) && built.0.exporters_spec()
                == exporters@,
            built.0.failover_spec() == self.failover_slot(),
            self.token_slot() == Some(built.0.token_spec()),
            built.0.state_spec() == PipelineState::Running,
            built.0.stats_spec() == PipelineStats::zero(),
            sent_envelopes(built.1) == Seq::<ScopedTelemetry>::empty(),
    {
        proof {
            use_type_invariant(&self);
        }
        let (sender_channel, receiver_channel) = envelope_channel();
        let receivers = match self.receivers {
            Some(receivers) => receivers,
            None => Vec::new(),
        };
        let pipeline = Pipeline::assemble(
            receivers,
            receiver_channel,
            self.processors.unwrap(),
            self.exporters.unwrap(),
            self.failover_sender,
            self.cancellation_token.unwrap(),
        );
        (pipeline, sender_channel)
    }
}

} // verus!
