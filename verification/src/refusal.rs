//! The engine's refusal of a request: a closed reason and a detail.

use vstd::prelude::*;

verus! {

/// Why the engine refused a request.
#[derive(Clone, Copy, Debug, PartialEq, Eq)]
pub enum EngineRefusalReason {
    Rejected,
    Unavailable,
}

/// The engine's refusal of a request.
#[derive(Clone, Debug, PartialEq, Eq)]
pub struct EngineRefusal {
    pub reason: EngineRefusalReason,
    pub detail: String,
}

impl EngineRefusal {
    /// A refusal because the request was rejected.
    pub fn rejected(detail: String) -> (refusal: Self)
        ensures
            refusal.reason == EngineRefusalReason::Rejected,
            refusal.detail == detail,
    {
        EngineRefusal { reason: EngineRefusalReason::Rejected, detail }
    }

    /// A refusal because the engine is unavailable.
    pub fn unavailable(detail: String) -> (refusal: Self)
        ensures
            refusal.reason == EngineRefusalReason::Unavailable,
            refusal.detail == detail,
    {
        EngineRefusal { reason: EngineRefusalReason::Unavailable, detail }
    }
}

} // verus!
