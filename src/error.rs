//! The error taxonomy and the translation of native status results into it.
use vstd::prelude::*;

use crate::element::TensorElementDataType;

verus! {

/// What a native call reports: `None` on success, or the engine's diagnostic
/// message on failure.
pub type NativeStatus = Option<String>;

/// Errors of the session layer. Each carries the diagnostic message of the
/// native call that failed, or the data that explains the refusal.
#[derive(Debug, Clone)]
pub enum OrtError {
    /// A configuration value that the engine is not given (thread count out of
    /// range, an option that is not supported yet).
    Configuration(ConfigurationError),
    /// Creating the shared engine environment failed.
    Environment(String),
    /// Creating the session options failed.
    SessionOptions(String),
    /// Creating the session failed.
    Session(String),
    /// Querying the allocator, or the number of inputs, failed.
    Allocator(String),
    /// Reading an input's name, type or shape failed.
    InputName(String),
    /// The engine reported an element-type code that is not in the table.
    UnknownElementType { code: u32 },
    /// The model file does not exist.
    FileDoesNotExists { filename: String },
    /// The model path cannot be handed to the engine as a terminated text
    /// buffer (it holds a NUL character).
    InvalidPath { path: String },
}

/// A configuration value that the engine is not given.
#[derive(Debug, Clone, Copy, PartialEq, Eq, Structural)]
pub enum ConfigurationError {
    /// Advanced session options were asked for; none is supported yet.
    UnsupportedOptions,
    /// CUDA execution was asked for; it is not supported yet.
    UnsupportedCuda,
    /// The thread count is outside `1..=i16::MAX`.
    InvalidThreadCount { num_threads: i16 },
}

/// Errors of a typed extraction from a dynamically typed output tensor.
#[derive(Debug, Clone)]
pub enum TensorExtractError {
    /// The requested element type is not the tensor's declared one.
    DataTypeMismatch { actual: TensorElementDataType, requested: TensorElementDataType },
    /// An engine error occurred while building the typed data.
    OrtError(OrtError),
}

/// Translates a native status: success, or its message.
pub fn status_to_result(status: NativeStatus) -> (r: Result<(), String>)
    ensures
        status is None <==> r is Ok,
        status matches Some(m) ==> r == Err::<(), String>(m),
{
    match status {
        None => Ok(()),
        Some(m) => Err(m),
    }
}

} // verus!
