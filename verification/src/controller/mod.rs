//! The application's lifecycle owner.
//!
//! The controller keeps the write-once resource, takes in application events
//! and, on a shutdown event, fires the cancellation signal that every
//! pipeline and receiver watches.

use crate::bindings::{
    cancel_observed, cancel_requested, empty_resource_cell, fresh_token, load_resource,
    request_cancel, store_resource, stored_resource,
};
use crate::error::{Error, Result};
use crate::events::{ApplicationEvent, ShutdownReason, ShutdownReasonView};
use opentelemetry_proto::tonic::resource::v1::Resource;
use tokio::sync::mpsc::UnboundedReceiver;
use tokio::sync::OnceCell;
use tokio_util::sync::CancellationToken;
use vstd::prelude::*;

verus! {

/// Where the controller's event loop stands.
#[derive(Debug, Clone, Copy, PartialEq, Eq, Structural)]
pub enum ControllerState {
    /// Taking events.
    Running,
    /// A shutdown event came in and cancellation has been requested.
    ShutDown,
    /// Every producer of events went away before any shutdown event came.
    Abandoned,
}

/// What the event loop is to do after an event.
#[derive(Debug)]
pub enum ControllerStep {
    /// Wait for the next event.
    Continue,
    /// Cancellation has been requested, for this reason: wait until the token
    /// reports it, then leave the loop.
    ShutDown(ShutdownReason),
    /// The event channel is closed: leave the loop, with a warning.
    ChannelClosed,
    /// The loop had already ended; the event was ignored.
    AlreadyStopped,
}

/// Mathematical model of a [`ControllerStep`].
pub enum ControllerStepView {
    Continue,
    ShutDown(ShutdownReasonView),
    ChannelClosed,
    AlreadyStopped,
}

impl View for ControllerStep {
    type V = ControllerStepView;

    open spec fn view(&self) -> ControllerStepView {
        match self {
            ControllerStep::Continue => ControllerStepView::Continue,
            ControllerStep::ShutDown(reason) => ControllerStepView::ShutDown(reason@),
            ControllerStep::ChannelClosed => ControllerStepView::ChannelClosed,
            ControllerStep::AlreadyStopped => ControllerStepView::AlreadyStopped,
        }
    }
}

/// How a run of events left the controller's loop.
#[derive(Debug)]
pub struct LoopReport {
    /// How many events of the run were taken, from the first on.
    pub handled: usize,
    /// What the last of them told the loop; `Continue` where none was taken.
    pub step: ControllerStep,
    /// Whether the token reported cancellation once the run was dealt with.
    pub acknowledged: bool,
}

/// What a resource cell holds after an attempt to set it to `resource`: the
/// first value it was given, whatever comes later.
pub open spec fn after_set(held: Option<Resource>, resource: Resource) -> Option<Resource> {
    match held {
        Some(first) => Some(first),
        None => Some(resource),
    }
}

/// Whether a cell that holds `held` accepts a new value: only an empty one
/// does.
pub open spec fn set_accepted(held: Option<Resource>) -> bool {
    held is None
}

/// The state that follows `state` on `event`, where `None` stands for a
/// closed event channel.
pub open spec fn next_state(state: ControllerState, event: Option<ApplicationEvent>)
    -> ControllerState {
    match state {
        ControllerState::Running => match event {
            Some(ApplicationEvent::Shutdown(_)) => ControllerState::ShutDown,
            Some(ApplicationEvent::Sentinel) => ControllerState::Running,
            None => ControllerState::Abandoned,
        },
        stopped => stopped,
    }
}

/// What the loop is told on `event` in `state`.
pub open spec fn step_for(state: ControllerState, event: Option<ApplicationEvent>)
    -> ControllerStepView {
    match state {
        ControllerState::Running => match event {
            Some(ApplicationEvent::Shutdown(reason)) => ControllerStepView::ShutDown(reason@),
            Some(ApplicationEvent::Sentinel) => ControllerStepView::Continue,
            None => ControllerStepView::ChannelClosed,
        },
        _ => ControllerStepView::AlreadyStopped,
    }
}

/// Owner of the process-wide resource, of the receiving end of the
/// application-event channel, and of the cancellation signal.
pub struct ApplicationController {
    resource: OnceCell<Resource>,
    application_event_channel: UnboundedReceiver<ApplicationEvent>,
    cancellation_token: CancellationToken,
    state: ControllerState,
}

impl ApplicationController {
    /// The resource, if it has been set.
    pub closed spec fn resource_spec(&self) -> Option<Resource> {
        stored_resource(self.resource)
    }

    /// The receiving end of the application-event channel.
    pub closed spec fn events_spec(&self) -> UnboundedReceiver<ApplicationEvent> {
        self.application_event_channel
    }

    /// The controller's handle on the cancellation signal.
    pub closed spec fn token_spec(&self) -> CancellationToken {
        self.cancellation_token
    }

    /// Where the event loop stands.
    pub closed spec fn state_spec(&self) -> ControllerState {
        self.state
    }

    /// Whether this controller has requested cancellation.
    pub open spec fn cancelling(&self) -> bool {
        cancel_requested(self.token_spec())
    }

    /// A controller that takes its events from `application_event_channel`.
    /// It is running, holds no resource, and has requested no cancellation.
    pub fn new(application_event_channel: UnboundedReceiver<ApplicationEvent>) -> (controller:
        Self)
        ensures
            controller.resource_spec() is None,
            controller.events_spec() == application_event_channel,
            controller.state_spec() == ControllerState::Running,
            !controller.cancelling(),
    {
        ApplicationController {
            resource: empty_resource_cell(),
            application_event_channel,
            cancellation_token: fresh_token(),
            state: ControllerState::Running,
        }
    }

    /// Sets the resource, once.
    ///
    /// Succeeds exactly when no resource has been set before. A later attempt
    /// fails with `SetResourceError` and leaves the first value in place.
    pub fn set_resource(&mut self, resource: Resource) -> (outcome: Result<()>)
        ensures
            outcome is Ok <==> set_accepted(old(self).resource_spec()),
            outcome matches Err(failure) ==> failure is SetResourceError,
            final(self).resource_spec() == after_set(old(self).resource_spec(), resource),
            final(self).events_spec() == old(self).events_spec(),
            final(self).token_spec() == old(self).token_spec(),
            final(self).state_spec() == old(self).state_spec(),
    {
        match store_resource(&mut self.resource, resource) {
            Ok(()) => Ok(()),
            Err(rejected) => Err(Error::SetResourceError(rejected)),
        }
    }

    /// A copy of the resource. Fails with `GetResourceError` exactly when no
    /// resource has been set.
    pub fn get_resource(&self) -> (outcome: Result<Resource>)
        ensures
            match self.resource_spec() {
                Some(resource) => outcome == Ok::<Resource, Error>(resource),
                None => outcome matches Err(failure) && failure is GetResourceError,
            },
    {
        match load_resource(&self.resource) {
            Some(resource) => Ok(resource),
            None => Err(Error::GetResourceError),
        }
    }

    /// Where the event loop stands.
    pub fn state(&self) -> (state: ControllerState)
        ensures
            state == self.state_spec(),
    {
        self.state
    }

    /// Whether the token reports cancellation. Once this controller has
    /// requested it, the answer is yes.
    pub fn cancellation_acknowledged(&self) -> (acknowledged: bool)
        ensures
            self.cancelling() ==> acknowledged,
    {
        cancel_observed(&self.cancellation_token)
    }

    /// The controller's handle on the cancellation signal, for whoever hands
    /// copies of it to pipelines and receivers.
    pub fn cancellation_token(&self) -> (token: &CancellationToken)
        ensures
            *token == self.token_spec(),
    {
        &self.cancellation_token
    }

    /// The receiving end of the event channel, for whoever waits on it. The
    /// borrower may take events out; nothing else of the controller changes.
    pub fn events(&mut self) -> (channel: &mut UnboundedReceiver<ApplicationEvent>)
        ensures
            *channel == old(self).events_spec(),
            final(self).events_spec() == *final(channel),
            final(self).resource_spec() == old(self).resource_spec(),
            final(self).token_spec() == old(self).token_spec(),
            final(self).state_spec() == old(self).state_spec(),
    {
        &mut self.application_event_channel
    }

    /// Takes what the event channel gave, `None` standing for a closed
    /// channel, and says what the event loop is to do next.
    ///
    /// A shutdown event makes the controller request cancellation and end its
    /// loop. A closed channel ends the loop without cancellation. Any other
    /// event is passed over. Once the loop has ended, every event is ignored.
    pub fn handle_event(&mut self, event: Option<ApplicationEvent>) -> (step: ControllerStep)
        ensures
            step@ == step_for(old(self).state_spec(), event),
            final(self).state_spec() == next_state(old(self).state_spec(), event),
            step is ShutDown ==> final(self).cancelling(),
            !(step is ShutDown) ==> final(self).token_spec() == old(self).token_spec(),
            final(self).resource_spec() == old(self).resource_spec(),
            final(self).events_spec() == old(self).events_spec(),
    {
        if self.state != ControllerState::Running {
            return ControllerStep::AlreadyStopped;
        }
        match event {
            Some(ApplicationEvent::Shutdown(reason)) => {
                request_cancel(&mut self.cancellation_token);
                self.state = ControllerState::ShutDown;
                ControllerStep::ShutDown(reason)
            },
            Some(ApplicationEvent::Sentinel) => ControllerStep::Continue,
            None => {
                self.state = ControllerState::Abandoned;
                ControllerStep::ChannelClosed
            },
        }
    }
}

impl ApplicationController {
    /// Takes a run of events in the order in which the channel gave them,
    /// `None` standing for a closed channel, as
    /// [`handle_event`](Self::handle_event) takes each, up to and with the
    /// first that ends the loop. Events after that one are not taken.
    ///
    /// Where the loop ends on a shutdown event, cancellation has been
    /// requested and the token reports it before this returns.
    pub fn handle_events(&mut self, events: Vec<Option<ApplicationEvent>>) -> (report: LoopReport)
        ensures
            report.handled <= events@.len(),
            final(self).resource_spec() == old(self).resource_spec(),
            final(self).events_spec() == old(self).events_spec(),
            old(self).state_spec() != ControllerState::Running ==> {
                &&& report.handled == 0
                &&& report.step is AlreadyStopped
                &&& final(self).state_spec() == old(self).state_spec()
                &&& final(self).token_spec() == old(self).token_spec()
            },
            old(self).state_spec() == ControllerState::Running ==> {
                &&& forall|i: int|
                    0 <= i < report.handled - 1 ==> step_for(
                        ControllerState::Running,
                        #[trigger] events@[i],
                    ) is Continue
                &&& report.handled == 0 ==> {
                    &&& events@.len() == 0
                    &&& report.step is Continue
                    &&& final(self).state_spec() == ControllerState::Running
                }
                &&& report.handled > 0 ==> {
                    &&& report.step@ == step_for(
                        ControllerState::Running,
                        events@[report.handled - 1],
                    )
                    &&& final(self).state_spec() == next_state(
                        ControllerState::Running,
                        events@[report.handled - 1],
                    )
                }
                &&& report.handled < events@.len() ==> !(report.step is Continue)
            },
            !(report.step is ShutDown) ==> final(self).token_spec() == old(self).token_spec(),
            report.step is ShutDown ==> final(self).cancelling() && report.acknowledged,
    {
        if self.state != ControllerState::Running {
            let acknowledged = cancel_observed(&self.cancellation_token);
            return LoopReport { handled: 0, step: ControllerStep::AlreadyStopped, acknowledged };
        }
        let mut handled: usize = 0;
        let mut step = ControllerStep::Continue;
        let count = events.len();
        let ghost all = events@;
        for event in iter: events.into_iter()
            invariant
                iter.seq() == all,
                all.len() == count,
                handled <= iter.index(),
                self.resource_spec() == old(self).resource_spec(),
                self.events_spec() == old(self).events_spec(),
                forall|i: int|
                    0 <= i < handled - 1 ==> step_for(
                        ControllerState::Running,
                        #[trigger] all[i],
                    ) is Continue,
                self.state_spec() == ControllerState::Running ==> {
                    &&& handled == iter.index()
                    &&& step is Continue
                    &&& handled > 0 ==> step_for(
                        ControllerState::Running,
                        all[handled - 1],
                    ) is Continue
                },
                self.state_spec() != ControllerState::Running ==> {
                    &&& handled > 0
                    &&& !(step is Continue)
                },
                handled > 0 ==> {
                    &&& step@ == step_for(ControllerState::Running, all[handled - 1])
                    &&& self.state_spec() == next_state(
                        ControllerState::Running,
                        all[handled - 1],
                    )
                },
                !(step is ShutDown) ==> self.token_spec() == old(self).token_spec(),
                step is ShutDown ==> self.cancelling(),
        {
            if self.state == ControllerState::Running {
                step = self.handle_event(event);
                handled = handled + 1;
            }
        }
        let acknowledged = cancel_observed(&self.cancellation_token);
        LoopReport { handled, step, acknowledged }
    }
}

/// A shutdown event that follows nothing but events to pass over ends the
/// loop there: it is the last event taken, and the loop is told to shut
/// down for its reason.
pub proof fn lemma_first_shutdown_ends_the_loop(
    events: Seq<Option<ApplicationEvent>>,
    place: int,
    handled: int,
    step: ControllerStepView,
)
    requires
        0 <= place < events.len(),
        events[place] matches Some(ApplicationEvent::Shutdown(_)),
        forall|i: int|
            0 <= i < place ==> step_for(ControllerState::Running, #[trigger] events[i]) is Continue,
        0 <= handled <= events.len(),
        forall|i: int|
            0 <= i < handled - 1 ==> step_for(
                ControllerState::Running,
                #[trigger] events[i],
            ) is Continue,
        handled == 0 ==> events.len() == 0,
        handled > 0 ==> step == step_for(ControllerState::Running, events[handled - 1]),
        handled < events.len() ==> !(step is Continue),
    ensures
        handled == place + 1,
        step is ShutDown,
{
    if handled - 1 < place {
        assert(step_for(ControllerState::Running, events[handled - 1]) is Continue);
    }
    if handled - 1 > place {
        assert(step_for(ControllerState::Running, events[place]) is Continue);
    }
}

/// Of two attempts to set an empty cell, the first is accepted and the second
/// is not, and the cell holds the first value after each.
pub proof fn lemma_first_resource_wins(first: Resource, second: Resource)
    ensures
        set_accepted(None),
        after_set(None, first) == Some(first),
        !set_accepted(after_set(None, first)),
        after_set(after_set(None, first), second) == Some(first),
{
}

/// Once a cell holds a resource, no run of attempts to set it changes what
/// it holds.
pub proof fn lemma_resource_never_changes(held: Resource, attempts: Seq<Resource>)
    ensures
        attempts.fold_left(
            Some(held),
            |cell: Option<Resource>, next: Resource| after_set(cell, next),
        ) == Some(held),
    decreases attempts.len(),
{
    if attempts.len() > 0 {
        lemma_resource_never_changes(held, attempts.drop_last());
    }
}

} // verus!
