//! The ways in which issuing a link can fail, and the HTTP status each maps to.

use vstd::prelude::*;
use vstd::string::StringExecFns;

verus! {

/// Why no link was issued.
#[derive(Clone, Copy, Debug, PartialEq, Eq, Structural)]
pub enum EmbedError {
    /// The request carries no `dashboard` query parameter.
    MissingParameter,
    /// The `dashboard` query parameter is not an unsigned 32-bit decimal number.
    InvalidParameter,
    /// The signing key or the target host is not configured.
    MissingConfiguration,
    /// The key was rejected, or the signer failed.
    SigningError,
    /// The outbound response could not be assembled.
    ResponseConstructionError,
    /// The system clock reads a time before the Unix epoch, or so late that
    /// the expiry does not fit in 64 bits.
    ClockError,
}

impl EmbedError {
    /// True for the failures that the caller's request brought about.
    pub open spec fn is_client_error(self) -> bool {
        self == EmbedError::MissingParameter || self == EmbedError::InvalidParameter
    }

    /// The HTTP status that reports this failure: 400 for a bad request,
    /// 500 for a fault on the serving side.
    pub open spec fn status(self) -> u16 {
        if self.is_client_error() {
            400
        } else {
            500
        }
    }

    /// The text that reports this failure to the caller.
    pub open spec fn text(self) -> Seq<char> {
        match self {
            EmbedError::MissingParameter => "missing query parameter: dashboard"@,
            EmbedError::InvalidParameter => "invalid query parameter: dashboard is not an unsigned integer"@,
            EmbedError::MissingConfiguration => "missing configuration: signing key and target host must both be set"@,
            EmbedError::SigningError => "signing failed"@,
            EmbedError::ResponseConstructionError => "response could not be constructed"@,
            EmbedError::ClockError => "system clock out of range"@,
        }
    }

    /// The HTTP status code for this failure.
    pub fn status_code(&self) -> (code: u16)
        ensures
            code == self.status(),
            400 <= code < 600,
            self.is_client_error() <==> code < 500,
    {
        match self {
            EmbedError::MissingParameter => 400,
            EmbedError::InvalidParameter => 400,
            EmbedError::MissingConfiguration => 500,
            EmbedError::SigningError => 500,
            EmbedError::ResponseConstructionError => 500,
            EmbedError::ClockError => 500,
        }
    }

    /// A fixed, human-readable description of this failure.
    pub fn message(&self) -> (msg: String)
        ensures
            msg@ == self.text(),
    {
        match self {
            EmbedError::MissingParameter => String::from_str("missing query parameter: dashboard"),
            EmbedError::InvalidParameter => String::from_str(
                "invalid query parameter: dashboard is not an unsigned integer",
            ),
            EmbedError::MissingConfiguration => String::from_str(
                "missing configuration: signing key and target host must both be set",
            ),
            EmbedError::SigningError => String::from_str("signing failed"),
            EmbedError::ResponseConstructionError => String::from_str(
                "response could not be constructed",
            ),
            EmbedError::ClockError => String::from_str("system clock out of range"),
        }
    }
}

} // verus!
