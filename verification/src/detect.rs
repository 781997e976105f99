//! Detector plugin contracts: the normalized event payload detectors
//! consume, the alert proposals they emit, and the capability interfaces
//! for pluggable rule engines and externally managed rule bundles.

use vstd::prelude::*;

use crate::text_map::TextMap;

verus! {

/// Source-agnostic event payload for detector evaluation.
#[derive(Debug, Clone)]
pub struct DetectionEvent {
    pub source: String,
    pub event_type: String,
    pub fields: TextMap,
    pub raw: Option<String>,
}

/// Suggested alert returned by detectors before aggregation; a candidate
/// pending commitment to the alert store, not yet a committed alert.
#[derive(Debug, Clone)]
pub struct AlertProposal {
    pub rule_id: String,
    pub source: String,
    pub severity: String,
    pub title: String,
    pub message: String,
    pub tags: Vec<String>,
}

/// Quick health signal for observability surfaces.
#[derive(Debug, Clone, Copy, PartialEq, Eq, Structural)]
pub enum DetectorHealth {
    Healthy,
    Degraded,
    Failed,
}

/// Common detector interface for behavior/policy/vendor rule engines.
pub trait Detector: Send + Sync {
    /// The stable name under which the detector registers; `id` returns
    /// exactly this.
    spec fn spec_id(&self) -> Seq<char>;

    /// Stable name under which the detector is registered.
    fn id(&self) -> (r: &'static str)
        ensures
            r@ == self.spec_id(),
    ;

    /// Version tag for status surfaces.
    fn version(&self) -> &'static str;

    /// Evaluate a normalized event and return zero or more alert
    /// proposals, in discovery order.
    fn evaluate(&self, event: &DetectionEvent) -> Vec<AlertProposal>;

    /// Best-effort health signal; healthy unless the detector says
    /// otherwise.
    fn health(&self) -> DetectorHealth {
        DetectorHealth::Healthy
    }
}

/// Rule provider abstraction supporting externally managed rule bundles
/// and hot reload without restart.
pub trait RuleProvider: Send + Sync {
    /// Stable name of the provider.
    fn provider_id(&self) -> &'static str;

    /// Load or refresh rules from backing storage; on success the number
    /// of active rules after the refresh.
    fn refresh(&mut self) -> Result<usize, String>;
}

} // verus!
