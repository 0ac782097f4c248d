use vstd::prelude::*;

verus! {

/// Failures of the orchestration layer and of the providers it drives.
#[derive(Debug, Clone, PartialEq, Eq)]
pub enum RllmError {
    /// Unknown or duplicate provider id, duplicate step id, missing credential.
    ConfigurationError(String),
    /// The vendor rejected the credentials.
    AuthError(String),
    /// The vendor answered, but with nothing usable.
    ProviderError(String),
    /// Network, timeout or serialization failure.
    TransportError(String),
    /// A placeholder names a step that has not completed; carries that name.
    TemplateError(String),
    /// The validating wrapper ran out of attempts; carries the last reason.
    ValidationError(String),
}

} // verus!
