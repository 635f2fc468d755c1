//! The failures that the bridge reports to its callers.

use crate::artifacts::Role;
use vstd::prelude::*;
use vstd::string::StringExecFns;

verus! {

/// A failure of the embedded runtime bridge, recovered at the boundary of the
/// operation that raised it.
#[derive(Debug, PartialEq, Eq)]
pub enum BridgeError {
    /// The module bytes are malformed; carries the engine's message.
    CompileError(String),
    /// Imports or exports could not be resolved; carries the engine's message.
    InstantiationError(String),
    /// The host never signalled readiness before the deadline.
    InitializationTimeout,
    /// The script side aborted or threw while the host was being set up.
    ScriptFailure { message: String, stack: String },
    /// The loader script does not define the load entry point that the host
    /// calls.
    EntryPointMissing,
    /// The model directory lacks the listed roles.
    MissingArtifact(Vec<Role>),
    /// No model is registered for the pair.
    ModelNotLoaded { source: String, target: String },
    /// The pool holds no engine instance.
    NoWorkers,
    /// The delegated backend never became healthy, or answered with a failure.
    ExternalBackendUnavailable(String),
}

/// A failure as the gateway reports it to a client.
#[derive(Debug, PartialEq, Eq)]
pub enum AppError {
    /// The request cannot be translated; carries the reason.
    TranslationError(String),
    /// Storage could not be read; carries the reason.
    IoError(String),
    /// The request carries no valid key.
    Unauthorized,
    /// The gateway is set up wrongly; carries the reason.
    ConfigError(String),
}

/// The HTTP status for each failure: 400 for a translation error, 401 for a
/// missing or wrong key, 500 for the rest.
pub open spec fn status_of(error: AppError) -> u16 {
    match error {
        AppError::TranslationError(_) => 400,
        AppError::Unauthorized => 401,
        AppError::IoError(_) => 500,
        AppError::ConfigError(_) => 500,
    }
}

/// The text that a client is shown for each failure.
pub open spec fn message_of(error: AppError) -> Seq<char> {
    match error {
        AppError::TranslationError(reason) => reason@,
        AppError::IoError(reason) => reason@,
        AppError::Unauthorized => "Invalid or missing API key"@,
        AppError::ConfigError(reason) => reason@,
    }
}

/// The text of a bridge failure.
pub open spec fn text_of(error: BridgeError) -> Seq<char> {
    match error {
        BridgeError::CompileError(reason) => "WASM Compile Error: "@ + reason@,
        BridgeError::InstantiationError(reason) => "Instantiation failed: "@ + reason@,
        BridgeError::InitializationTimeout => "Runtime did not signal readiness in time"@,
        BridgeError::ScriptFailure { message, stack } => message@ + "\nStack: "@ + stack@,
        BridgeError::EntryPointMissing => "Loader script defines no load entry point"@,
        BridgeError::MissingArtifact(roles) => "Missing model files"@,
        BridgeError::ModelNotLoaded { source, target } => "Model not found for "@ + source@ + "-"@
            + target@,
        BridgeError::NoWorkers => "No workers available"@,
        BridgeError::ExternalBackendUnavailable(reason) => reason@,
    }
}

impl AppError {
    /// The HTTP status of the response.
    pub fn status(&self) -> (code: u16)
        ensures
            code == status_of(*self),
    {
        match self {
            AppError::TranslationError(_) => 400,
            AppError::Unauthorized => 401,
            AppError::IoError(_) => 500,
            AppError::ConfigError(_) => 500,
        }
    }

    /// The message of the response.
    pub fn message(&self) -> (text: String)
        ensures
            text@ == message_of(*self),
    {
        match self {
            AppError::TranslationError(reason) => reason.clone(),
            AppError::IoError(reason) => reason.clone(),
            AppError::Unauthorized => "Invalid or missing API key".to_owned(),
            AppError::ConfigError(reason) => reason.clone(),
        }
    }

    /// A bridge failure as the gateway reports it: a translation error that
    /// carries the failure's text.
    pub fn from_bridge(error: &BridgeError) -> (reported: AppError)
        ensures
            reported matches AppError::TranslationError(reason) && reason@ == text_of(*error),
    {
        AppError::TranslationError(error.to_text())
    }
}

impl BridgeError {
    /// The text of the failure.
    pub fn to_text(&self) -> (text: String)
        ensures
            text@ == text_of(*self),
    {
        match self {
            BridgeError::CompileError(reason) => String::from_str("WASM Compile Error: ").concat(
                reason.as_str(),
            ),
            BridgeError::InstantiationError(reason) => String::from_str(
                "Instantiation failed: ",
            ).concat(reason.as_str()),
            BridgeError::InitializationTimeout => String::from_str(
                "Runtime did not signal readiness in time",
            ),
            BridgeError::ScriptFailure { message, stack } => message.clone().concat(
                "\nStack: ",
            ).concat(stack.as_str()),
            BridgeError::EntryPointMissing => String::from_str(
                "Loader script defines no load entry point",
            ),
            BridgeError::MissingArtifact(_) => String::from_str("Missing model files"),
            BridgeError::ModelNotLoaded { source, target } => String::from_str(
                "Model not found for ",
            ).concat(source.as_str()).concat("-").concat(target.as_str()),
            BridgeError::NoWorkers => String::from_str("No workers available"),
            BridgeError::ExternalBackendUnavailable(reason) => reason.clone(),
        }
    }
}

} // verus!
