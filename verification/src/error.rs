//! The failures this library reports.

use opentelemetry_proto::tonic::resource::v1::Resource;
use tokio::sync::SetError;
use vstd::prelude::*;

verus! {

/// A failure reported by a component of the sidecar.
#[derive(Debug)]
pub enum Error {
    /// The host-extension receiver could not run; the transport's own account
    /// of the failure is inside.
    ExtensionReceiver(String),
    /// A telemetry record could not be encoded as JSON; the encoder's own
    /// account of the failure is inside.
    SerializationError(String),
    /// The resource was already set; the rejected value comes back inside.
    SetResourceError(SetError<Resource>),
    /// The resource has not been set yet.
    GetResourceError,
}

pub type Result<T> = std::result::Result<T, Error>;

impl Error {
    /// The text that describes this failure to an operator.
    pub open spec fn describe(self) -> Seq<char> {
        match self {
            Error::ExtensionReceiver(_) => "Failed to run the AWS Lambda Extension Receiver"@,
            Error::SerializationError(_) => "Failed to serialize JSON"@,
            Error::SetResourceError(_) => "Failed to set resource"@,
            Error::GetResourceError => "Failed to get resource"@,
        }
    }

    /// The text that describes this failure to an operator.
    pub fn message(&self) -> (text: String)
        ensures
            text@ == self.describe(),
    {
        match self {
            Error::ExtensionReceiver(_) => {
                "Failed to run the AWS Lambda Extension Receiver".to_owned()
            },
            Error::SerializationError(_) => "Failed to serialize JSON".to_owned(),
            Error::SetResourceError(_) => "Failed to set resource".to_owned(),
            Error::GetResourceError => "Failed to get resource".to_owned(),
        }
    }
}

} // verus!
