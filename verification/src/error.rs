//! Domain errors of the round pipeline.

use vstd::prelude::*;

verus! {

/// Application error; each variant carries a human-readable detail.
#[derive(Debug, Clone, PartialEq, Eq)]
pub enum AppError {
    /// A caller-supplied value is malformed or out of range.
    InvalidInput(String),
    /// The referenced neuron does not exist.
    NeuronNotFound(String),
    /// The referenced provider is not registered.
    ProviderNotFound(String),
    /// The referenced model is not configured for its provider.
    ModelNotFound(String),
    /// A provider requires an API key and none is configured.
    ProviderAuthMissing(String),
    /// Candidate or draft generation could not produce what was asked.
    NeuronBootstrapFailed(String),
    /// The model provider failed or answered unusably.
    LlmRequestFailed(String),
}

impl AppError {
    /// Stable machine-readable code of the error kind.
    pub open spec fn spec_code(self) -> Seq<char> {
        match self {
            AppError::InvalidInput(_) => "invalid_input"@,
            AppError::NeuronNotFound(_) => "neuron_not_found"@,
            AppError::ProviderNotFound(_) => "provider_not_found"@,
            AppError::ModelNotFound(_) => "model_not_found"@,
            AppError::ProviderAuthMissing(_) => "provider_auth_missing"@,
            AppError::NeuronBootstrapFailed(_) => "neuron_bootstrap_failed"@,
            AppError::LlmRequestFailed(_) => "llm_request_failed"@,
        }
    }

    /// Stable machine-readable code of the error kind.
    pub fn code(&self) -> (r: &'static str)
        ensures
            r@ == self.spec_code(),
    {
        proof {
            reveal_strlit("invalid_input");
            reveal_strlit("neuron_not_found");
            reveal_strlit("provider_not_found");
            reveal_strlit("model_not_found");
            reveal_strlit("provider_auth_missing");
            reveal_strlit("neuron_bootstrap_failed");
            reveal_strlit("llm_request_failed");
        }
        match self {
            AppError::InvalidInput(_) => "invalid_input",
            AppError::NeuronNotFound(_) => "neuron_not_found",
            AppError::ProviderNotFound(_) => "provider_not_found",
            AppError::ModelNotFound(_) => "model_not_found",
            AppError::ProviderAuthMissing(_) => "provider_auth_missing",
            AppError::NeuronBootstrapFailed(_) => "neuron_bootstrap_failed",
            AppError::LlmRequestFailed(_) => "llm_request_failed",
        }
    }
}

} // verus!
