//! Errors surfaced by the external transcode gateway.
//!
//! Everything the probing and transcoding tool can do wrong is folded into
//! one tagged error type, so that the preview state machine can map each
//! kind to its own terminal state: a missing source file is the user's to
//! fix, anything else is an internal fault.

use vstd::prelude::*;

verus! {

/// Mathematical model of a gateway error; detail texts as character
/// sequences.
#[verifier::ext_equal]
pub enum GatewayErrorModel {
    NotFound,
    InvalidData(Seq<char>),
    Io(Seq<char>),
}

/// What the external probing / transcoding tool can report.
#[derive(Debug)]
pub enum GatewayError {
    /// The source path does not exist at probe time.  Recoverable by the
    /// user fixing the path, so it is kept apart from the internal faults.
    NotFound,
    /// The probe tool's output could not be parsed (for instance a
    /// non-numeric duration); the payload is the detail text.
    InvalidData(String),
    /// The tool could not be run, exited abnormally, or its files could
    /// not be read; the payload is the detail text.
    Io(String),
}

impl View for GatewayError {
    type V = GatewayErrorModel;

    open spec fn view(&self) -> GatewayErrorModel {
        match self {
            GatewayError::NotFound => GatewayErrorModel::NotFound,
            GatewayError::InvalidData(d) => GatewayErrorModel::InvalidData(d@),
            GatewayError::Io(d) => GatewayErrorModel::Io(d@),
        }
    }
}

impl Clone for GatewayError {
    fn clone(&self) -> (r: Self)
        ensures
            r == *self,
    {
        match self {
            GatewayError::NotFound => GatewayError::NotFound,
            GatewayError::InvalidData(d) => GatewayError::InvalidData(d.clone()),
            GatewayError::Io(d) => GatewayError::Io(d.clone()),
        }
    }
}

/// Wraps the text of an underlying parse failure as an invalid-data
/// gateway error.
pub fn invalid_data(detail: String) -> (e: GatewayError)
    ensures
        e == GatewayError::InvalidData(detail),
{
    GatewayError::InvalidData(detail)
}

} // verus!
