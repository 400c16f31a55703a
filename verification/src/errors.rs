//! The typed failure surface of the engine.
//!
//! Every public operation returns either a success value or one of these
//! errors; no operation terminates the host process.  Error values carry
//! enough detail (attempted paths, available alternatives) to self-diagnose
//! without consulting logs.

use vstd::prelude::*;

verus! {

/// Everything that can go wrong in the engine.
///
/// `NotInitialized` and `NotRunning` signal lifecycle misuse; `ConfigError`
/// covers a missing model directory or an invalid context window;
/// `ModelError` covers model resolution failures; the four runtime variants
/// wrap the inference runtime's diagnostic text for failures during a single
/// generation request.
#[derive(Debug, Clone, PartialEq, Eq)]
pub enum LlmError {
    NotInitialized,
    NotRunning,
    ConfigError(String),
    ModelError(String),
    TokenizationError(String),
    BatchError(String),
    ContextError(String),
    DecodeError(String),
    IoError(String),
    SerializationError(String),
}

/// The human-readable rendering of an error.
pub open spec fn error_message(e: LlmError) -> Seq<char> {
    match e {
        LlmError::NotInitialized => "Service not initialized"@,
        LlmError::NotRunning => "Service not running"@,
        LlmError::ConfigError(m) => "Configuration error: "@ + m@,
        LlmError::ModelError(m) => "Model error: "@ + m@,
        LlmError::TokenizationError(m) => "Tokenization error: "@ + m@,
        LlmError::BatchError(m) => "Batch error: "@ + m@,
        LlmError::ContextError(m) => "Context error: "@ + m@,
        LlmError::DecodeError(m) => "Decode error: "@ + m@,
        LlmError::IoError(m) => "IO error: "@ + m@,
        LlmError::SerializationError(m) => "Serialization error: "@ + m@,
    }
}

impl LlmError {
    /// Renders the error for display to a caller.
    pub fn message(&self) -> (r: String)
        ensures
            r@ == error_message(*self),
    {
        match self {
            LlmError::NotInitialized => String::from_str("Service not initialized"),
            LlmError::NotRunning => String::from_str("Service not running"),
            LlmError::ConfigError(m) => String::from_str("Configuration error: ").concat(
                m.as_str(),
            ),
            LlmError::ModelError(m) => String::from_str("Model error: ").concat(m.as_str()),
            LlmError::TokenizationError(m) => String::from_str("Tokenization error: ").concat(
                m.as_str(),
            ),
            LlmError::BatchError(m) => String::from_str("Batch error: ").concat(m.as_str()),
            LlmError::ContextError(m) => String::from_str("Context error: ").concat(m.as_str()),
            LlmError::DecodeError(m) => String::from_str("Decode error: ").concat(m.as_str()),
            LlmError::IoError(m) => String::from_str("IO error: ").concat(m.as_str()),
            LlmError::SerializationError(m) => String::from_str("Serialization error: ").concat(
                m.as_str(),
            ),
        }
    }
}

} // verus!
