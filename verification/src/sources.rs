//! Event-source plugin contracts: the normalized event a source adapter
//! emits and the capability interface for source adapters.

use vstd::prelude::*;

use crate::text_map::TextMap;

verus! {

/// Normalized source event used by source adapters before detector
/// routing.
#[derive(Debug, Clone)]
pub struct SourceEvent {
    pub source: String,
    pub kind: String,
    pub fields: TextMap,
    pub raw: Option<String>,
}

/// Best-effort health state of a source adapter.
#[derive(Debug, Clone, Copy, PartialEq, Eq, Structural)]
pub enum SourceHealth {
    Healthy,
    Degraded,
    Failed,
}

/// Source adapter contract for log tailers and similar feeds.
pub trait EventSource: Send + Sync {
    /// The stable name under which the source registers; `id` returns
    /// exactly this.
    spec fn spec_id(&self) -> Seq<char>;

    /// Stable name under which the source is registered.
    fn id(&self) -> (r: &'static str)
        ensures
            r@ == self.spec_id(),
    ;

    /// Kind tag of the source for status surfaces.
    fn source_type(&self) -> &'static str;

    /// Start source processing. Implementations may launch background
    /// work; the caller keeps lifecycle ownership and shutdown
    /// responsibility.
    fn start(&mut self) -> Result<(), String>;

    /// Best-effort health signal for status endpoints and dashboards.
    fn health(&self) -> SourceHealth {
        SourceHealth::Healthy
    }
}

} // verus!
