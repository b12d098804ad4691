//! Turns the host's lifecycle events into application events.

use super::HostEvent;
use crate::bindings::{send_event, sent_events};
use crate::events::shutdown::parse_reason;
use crate::events::{ApplicationEvent, ApplicationEventView, ShutdownReason};
use tokio::sync::mpsc::UnboundedSender;
use vstd::prelude::*;

verus! {

/// What came of one host event.
#[derive(Debug, Clone, Copy, PartialEq, Eq, Structural)]
pub enum Emission {
    /// The event called for no application event.
    Nothing,
    /// A shutdown event went onto the application-event channel.
    Sent,
    /// A shutdown event was due, but the channel is closed; it is lost.
    ChannelClosed,
}

/// Holds the sending end of the application-event channel and puts a
/// shutdown event on it when the host announces one.
pub struct EventProcessor {
    application_channel: UnboundedSender<ApplicationEvent>,
}

impl EventProcessor {
    /// The application events emitted through this processor's channel end,
    /// oldest first.
    pub closed spec fn emitted_spec(&self) -> Seq<ApplicationEvent> {
        sent_events(self.application_channel)
    }

    /// A processor that emits onto `application_channel`.
    pub fn new(application_channel: UnboundedSender<ApplicationEvent>) -> (processor: Self)
        ensures
            processor.emitted_spec() == sent_events(application_channel),
    {
        EventProcessor { application_channel }
    }

    /// Deals with one host event.
    ///
    /// An invocation calls for nothing. A shutdown notice is turned into a
    /// shutdown event that carries the host's reason, classified, and that
    /// event is appended to what has been emitted, unless the channel is
    /// closed.
    pub fn call(&mut self, event: HostEvent) -> (emission: Emission)
        ensures
            event is Invoke <==> emission is Nothing,
            !(emission is Sent) ==> final(self).emitted_spec() == old(self).emitted_spec(),
            emission is Sent ==> {
                &&& final(self).emitted_spec().len() == old(self).emitted_spec().len() + 1
                &&& final(self).emitted_spec().drop_last() == old(self).emitted_spec()
                &&& event matches HostEvent::Shutdown { shutdown_reason, .. }
                &&& final(self).emitted_spec().last()@ == ApplicationEventView::Shutdown(
                    parse_reason(shutdown_reason@),
                )
            },
    {
        match event {
            HostEvent::Shutdown { shutdown_reason, deadline_ms: _ } => {
                let reason = ShutdownReason::from(shutdown_reason);
                let event = ApplicationEvent::Shutdown(reason);
                match send_event(&mut self.application_channel, event) {
                    Ok(()) => Emission::Sent,
                    Err(_) => Emission::ChannelClosed,
                }
            },
            HostEvent::Invoke { .. } => Emission::Nothing,
        }
    }
}

} // verus!
