//! Host-based security monitor core.
//!
//! The crate models the detection-and-response pipeline of a host monitor:
//! the alert data model and its bounded FIFO history, the shared parser that
//! turns kernel firewall log lines into alerts, the detector / event-source
//! plugin contracts with their runtime registry, and the tiered prompt
//! firewall that classifies outbound LLM request text.

pub mod text;
pub mod alerts;
pub mod network;
pub mod text_map;
pub mod prompt_firewall;
pub mod detect;
pub mod sources;
pub mod registry;
pub mod journald;
pub mod dashboard;
