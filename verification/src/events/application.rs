//! Control signals sent from receivers to the application controller.

use super::shutdown::{ShutdownReason, ShutdownReasonView};
use vstd::prelude::*;
use vstd::std_specs::cmp::PartialEqSpecImpl;

verus! {

/// A control signal for the application controller.
///
/// `Sentinel` carries no instruction: a controller that meets it notes it and
/// carries on.
#[derive(Debug)]
pub enum ApplicationEvent {
    Shutdown(ShutdownReason),
    Sentinel,
}

/// Mathematical model of an [`ApplicationEvent`].
pub enum ApplicationEventView {
    Shutdown(ShutdownReasonView),
    Sentinel,
}

impl View for ApplicationEvent {
    type V = ApplicationEventView;

    open spec fn view(&self) -> ApplicationEventView {
        match self {
            ApplicationEvent::Shutdown(reason) => ApplicationEventView::Shutdown(reason@),
            ApplicationEvent::Sentinel => ApplicationEventView::Sentinel,
        }
    }
}

impl Clone for ApplicationEvent {
    fn clone(&self) -> (copy: ApplicationEvent)
        ensures
            copy@ == self@,
    {
        match self {
            ApplicationEvent::Shutdown(reason) => ApplicationEvent::Shutdown(reason.clone()),
            ApplicationEvent::Sentinel => ApplicationEvent::Sentinel,
        }
    }
}

impl PartialEqSpecImpl for ApplicationEvent {
    open spec fn obeys_eq_spec() -> bool {
        true
    }

    open spec fn eq_spec(&self, other: &ApplicationEvent) -> bool {
        self@ == other@
    }
}

impl PartialEq for ApplicationEvent {
    fn eq(&self, other: &ApplicationEvent) -> (same: bool) {
        match (self, other) {
            (ApplicationEvent::Shutdown(mine), ApplicationEvent::Shutdown(theirs)) => *mine
                == *theirs,
            (ApplicationEvent::Sentinel, ApplicationEvent::Sentinel) => true,
            _ => false,
        }
    }
}

} // verus!
