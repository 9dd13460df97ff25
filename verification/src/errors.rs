//! The error taxonomy shared by every transport.

use vstd::prelude::*;
use vstd::string::StringExecFns;

verus! {

/// Why a generation request could not be answered.
///
/// `NotInitialized` and `UnknownModel` are configuration errors raised before
/// any backend traffic; the remaining variants classify per-request backend
/// failures and are surfaced to the caller in-band, never as a transport
/// failure.
#[derive(Debug, Clone, PartialEq, Eq)]
pub enum GenError {
    /// The client was used before a credential/model binding was stored.
    NotInitialized,
    /// The registry has no provider for the requested logical model.
    UnknownModel,
    /// The backend could not be reached; carries the transport detail.
    BackendUnreachable(String),
    /// The backend answered, but without the expected completion field.
    MalformedResponse,
    /// The backend reported an application-level failure; carries its message.
    BackendRejected(String),
}

impl GenError {
    /// A backend failure is tied to one request; configuration errors are not.
    pub open spec fn is_backend_failure(&self) -> bool {
        match self {
            GenError::BackendUnreachable(_) => true,
            GenError::MalformedResponse => true,
            GenError::BackendRejected(_) => true,
            _ => false,
        }
    }

    /// The user-visible description of this error.
    pub open spec fn describe_spec(&self) -> Seq<char> {
        match self {
            GenError::NotInitialized => "Client not initialized"@,
            GenError::UnknownModel => "Unknown model"@,
            GenError::BackendUnreachable(d) => "Failed to send request: "@ + d@,
            GenError::MalformedResponse => "No response from backend"@,
            GenError::BackendRejected(d) => "Backend rejected request: "@ + d@,
        }
    }

    /// Renders the error for an error payload or an error-shaped event.
    pub fn describe(&self) -> (r: String)
        ensures
            r@ == self.describe_spec(),
    {
        match self {
            GenError::NotInitialized => String::from_str("Client not initialized"),
            GenError::UnknownModel => String::from_str("Unknown model"),
            GenError::BackendUnreachable(d) => String::from_str("Failed to send request: ").concat(
                d.as_str(),
            ),
            GenError::MalformedResponse => String::from_str("No response from backend"),
            GenError::BackendRejected(d) => String::from_str("Backend rejected request: ").concat(
                d.as_str(),
            ),
        }
    }
}

} // verus!
