//! Why the host is terminating the process.

use vstd::prelude::*;
use vstd::std_specs::cmp::PartialEqSpecImpl;
use vstd::std_specs::convert::FromSpecImpl;

verus! {

/// The host's stated cause for a shutdown.
///
/// The three causes the host documents have a variant each; any other string
/// is carried verbatim in `Other`, so nothing the host said is lost.
#[derive(Debug)]
pub enum ShutdownReason {
    Spindown,
    Timeout,
    Failure,
    Other(String),
}

/// Mathematical model of a [`ShutdownReason`]: the same variants, with the
/// free-form text as a sequence of characters.
pub enum ShutdownReasonView {
    Spindown,
    Timeout,
    Failure,
    Other(Seq<char>),
}

impl View for ShutdownReason {
    type V = ShutdownReasonView;

    open spec fn view(&self) -> ShutdownReasonView {
        match self {
            ShutdownReason::Spindown => ShutdownReasonView::Spindown,
            ShutdownReason::Timeout => ShutdownReasonView::Timeout,
            ShutdownReason::Failure => ShutdownReasonView::Failure,
            ShutdownReason::Other(text) => ShutdownReasonView::Other(text@),
        }
    }
}

/// The reason that a host-supplied string denotes.
pub open spec fn parse_reason(text: Seq<char>) -> ShutdownReasonView {
    if text == "SPINDOWN"@ {
        ShutdownReasonView::Spindown
    } else if text == "TIMEOUT"@ {
        ShutdownReasonView::Timeout
    } else if text == "FAILURE"@ {
        ShutdownReasonView::Failure
    } else {
        ShutdownReasonView::Other(text)
    }
}

/// The label under which a reason is reported.
pub open spec fn reason_label(reason: ShutdownReasonView) -> Seq<char> {
    match reason {
        ShutdownReasonView::Spindown => "spindown"@,
        ShutdownReasonView::Timeout => "timeout"@,
        ShutdownReasonView::Failure => "failure"@,
        ShutdownReasonView::Other(text) => text,
    }
}

impl FromSpecImpl<String> for ShutdownReason {
    open spec fn obeys_from_spec() -> bool {
        true
    }

    open spec fn from_spec(value: String) -> ShutdownReason {
        if value@ == "SPINDOWN"@ {
            ShutdownReason::Spindown
        } else if value@ == "TIMEOUT"@ {
            ShutdownReason::Timeout
        } else if value@ == "FAILURE"@ {
            ShutdownReason::Failure
        } else {
            ShutdownReason::Other(value)
        }
    }
}

impl From<String> for ShutdownReason {
    /// Classifies a host-supplied reason string.
    fn from(value: String) -> (reason: ShutdownReason)
        ensures
            reason@ == parse_reason(value@),
    {
        if value == "SPINDOWN".to_owned() {
            ShutdownReason::Spindown
        } else if value == "TIMEOUT".to_owned() {
            ShutdownReason::Timeout
        } else if value == "FAILURE".to_owned() {
            ShutdownReason::Failure
        } else {
            ShutdownReason::Other(value)
        }
    }
}

impl Clone for ShutdownReason {
    fn clone(&self) -> (copy: ShutdownReason)
        ensures
            copy@ == self@,
    {
        match self {
            ShutdownReason::Spindown => ShutdownReason::Spindown,
            ShutdownReason::Timeout => ShutdownReason::Timeout,
            ShutdownReason::Failure => ShutdownReason::Failure,
            ShutdownReason::Other(text) => ShutdownReason::Other(text.clone()),
        }
    }
}

impl PartialEqSpecImpl for ShutdownReason {
    open spec fn obeys_eq_spec() -> bool {
        true
    }

    open spec fn eq_spec(&self, other: &ShutdownReason) -> bool {
        self@ == other@
    }
}

impl PartialEq for ShutdownReason {
    /// Two reasons are equal when they are the same variant and, for `Other`,
    /// carry the same text.
    fn eq(&self, other: &ShutdownReason) -> (same: bool) {
        match (self, other) {
            (ShutdownReason::Spindown, ShutdownReason::Spindown) => true,
            (ShutdownReason::Timeout, ShutdownReason::Timeout) => true,
            (ShutdownReason::Failure, ShutdownReason::Failure) => true,
            (ShutdownReason::Other(mine), ShutdownReason::Other(theirs)) => *mine == *theirs,
            _ => false,
        }
    }
}

impl ShutdownReason {
    /// The label under which this reason is reported.
    pub fn reason_string(&self) -> (label: String)
        ensures
            label@ == reason_label(self@),
    {
        match self {
            ShutdownReason::Spindown => "spindown".to_owned(),
            ShutdownReason::Timeout => "timeout".to_owned(),
            ShutdownReason::Failure => "failure".to_owned(),
            ShutdownReason::Other(reason) => reason.clone(),
        }
    }
}

} // verus!
