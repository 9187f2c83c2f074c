//! The error taxonomy of the classification service.

use vstd::prelude::*;

verus! {

/// Why the model weights could not be materialized.
#[derive(Clone, Copy, Debug, PartialEq, Eq, Structural)]
pub enum LoadError {
    /// The storage collaborator reported no object under the weights key.
    NotFound,
    /// The fetched bytes could not be decoded into model parameters.
    DecodeError,
}

/// Every failure a classification request can surface.
///
/// Collaborator failures are never swallowed: each maps to a distinct
/// variant, and no silent fallback classification is ever produced.
#[derive(Clone, Copy, Debug, PartialEq, Eq, Structural)]
pub enum ClassifyError {
    /// The request body did not decode to exactly `INPUT_LEN` numbers.
    MalformedInput,
    /// The model could not be loaded for this request; the actor stays
    /// unloaded and a later request may retry.
    ModelUnavailable(LoadError),
    /// The metadata needed to derive an actor identity was absent.
    RoutingMetadataMissing,
}

impl ClassifyError {
    /// Whether this failure is the caller's fault (an HTTP 4xx equivalent).
    pub open spec fn is_client_error(self) -> bool {
        self is MalformedInput
    }

    /// The HTTP-equivalent status of this failure.
    pub open spec fn spec_status_code(self) -> u16 {
        match self {
            ClassifyError::MalformedInput => 400,
            ClassifyError::ModelUnavailable(_) => 500,
            ClassifyError::RoutingMetadataMissing => 500,
        }
    }

    /// HTTP-equivalent status: a malformed body is a client error; a failed
    /// load and missing routing metadata are server-side failures.
    pub fn status_code(&self) -> (code: u16)
        ensures
            code == self.spec_status_code(),
            self.is_client_error() <==> 400 <= code < 500,
    {
        match self {
            ClassifyError::MalformedInput => 400,
            ClassifyError::ModelUnavailable(_) => 500,
            ClassifyError::RoutingMetadataMissing => 500,
        }
    }
}

} // verus!
