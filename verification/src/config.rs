//! The adapter configuration supplied at construction time.
//!
//! Configuration is loaded and validated by an external collaborator before
//! an adapter is built; the adapters assume a valid configuration.

use vstd::prelude::*;

verus! {

/// The number of temperature milli-units in one unit.
pub const TEMPERATURE_SCALE: u32 = 1000;

/// The largest allowed sampling temperature, in milli-units (2.0).
pub const TEMPERATURE_MILLI_MAX: u32 = 2000;

/// Configuration for one LLM backend adapter.
///
/// The sampling temperature is carried in milli-units: a value of `t`
/// milli-units stands for a temperature of `t / 1000`, so the allowed range
/// 0.0 to 2.0 is 0 to [`TEMPERATURE_MILLI_MAX`].
#[derive(Clone, Debug)]
pub struct LLMConfig {
    /// The secret credential sent in the backend's API-key header.
    pub api_key: String,
    /// The backend model identifier.
    pub model: String,
    /// Sampling temperature in milli-units (0 to 2000 stands for 0.0 to 2.0).
    pub temperature_milli: u32,
    /// Maximum number of output tokens; positive.
    pub max_tokens: usize,
}

impl LLMConfig {
    /// The validity condition an external loader establishes before adapter
    /// construction: the temperature is within range and the token cap is
    /// positive.
    pub open spec fn valid(self) -> bool {
        self.temperature_milli <= TEMPERATURE_MILLI_MAX && self.max_tokens >= 1
    }
}

} // verus!
