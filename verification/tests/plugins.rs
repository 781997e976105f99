use clawav::detect::{AlertProposal, DetectionEvent, Detector, DetectorHealth};
use clawav::journald::{journald_exit_alert, journald_line_to_alert, journald_startup_alert};
use clawav::alerts::Severity;
use clawav::registry::RuntimeRegistry;
use clawav::sources::{EventSource, SourceHealth};
use clawav::text_map::TextMap;

struct FixedDetector {
    name: &'static str,
}

impl Detector for FixedDetector {
    fn spec_id(&self) -> vstd::seq::Seq<char> {
        unreachable!()
    }

    fn id(&self) -> &'static str {
        self.name
    }

    fn version(&self) -> &'static str {
        "1.0"
    }

    fn evaluate(&self, _event: &DetectionEvent) -> Vec<AlertProposal> {
        Vec::new()
    }
}

struct FixedSource {
    name: &'static str,
}

impl EventSource for FixedSource {
    fn spec_id(&self) -> vstd::seq::Seq<char> {
        unreachable!()
    }

    fn id(&self) -> &'static str {
        self.name
    }

    fn source_type(&self) -> &'static str {
        "log"
    }

    fn start(&mut self) -> Result<(), String> {
        Ok(())
    }
}

#[test]
fn duplicate_detector_id_is_rejected() {
    let mut registry: RuntimeRegistry<FixedDetector, FixedSource> = RuntimeRegistry::new();
    assert!(registry
        .register_detector(FixedDetector { name: "behavior" })
        .is_ok());
    let second = registry.register_detector(FixedDetector { name: "behavior" });
    assert!(second.is_err());
    assert_eq!(
        second.unwrap_err(),
        "detector already registered: behavior"
    );
    assert_eq!(registry.detector_count(), 1);
}

#[test]
fn registry_lists_ids_in_ascending_order() {
    let mut registry: RuntimeRegistry<FixedDetector, FixedSource> = RuntimeRegistry::new();
    registry
        .register_detector(FixedDetector { name: "policy" })
        .unwrap();
    registry
        .register_detector(FixedDetector { name: "behavior" })
        .unwrap();
    registry
        .register_source(FixedSource { name: "network" })
        .unwrap();
    assert_eq!(registry.detector_ids(), vec!["behavior", "policy"]);
    assert_eq!(registry.source_ids(), vec!["network"]);
    assert_eq!(registry.detector_count(), 2);
    assert_eq!(registry.source_count(), 1);
}

#[test]
fn duplicate_source_id_is_rejected() {
    let mut registry: RuntimeRegistry<FixedDetector, FixedSource> = RuntimeRegistry::new();
    assert!(registry
        .register_source(FixedSource { name: "journal" })
        .is_ok());
    let second = registry.register_source(FixedSource { name: "journal" });
    assert!(second.is_err());
    assert_eq!(second.unwrap_err(), "source already registered: journal");
    assert_eq!(registry.source_count(), 1);
}

#[test]
fn default_health_is_healthy() {
    let d = FixedDetector { name: "behavior" };
    assert_eq!(d.health(), DetectorHealth::Healthy);
    let s = FixedSource { name: "network" };
    assert_eq!(s.health(), SourceHealth::Healthy);
}

#[test]
fn text_map_insert_and_get() {
    let mut map = TextMap::new();
    assert_eq!(map.len(), 0);
    map.insert("proto".to_string(), "tcp".to_string());
    map.insert("port".to_string(), "443".to_string());
    assert_eq!(map.len(), 2);
    assert_eq!(map.get("proto"), Some(&"tcp".to_string()));
    assert_eq!(map.get("port"), Some(&"443".to_string()));
    assert_eq!(map.get("missing"), None);
    map.insert("proto".to_string(), "udp".to_string());
    assert_eq!(map.len(), 2);
    assert_eq!(map.get("proto"), Some(&"udp".to_string()));
}

#[test]
fn journald_json_line_yields_alert() {
    let line = "{\"MESSAGE\": \"OUT-CONN IN= SRC=10.0.0.5 DST=1.2.3.4 DPT=443 PROTO=TCP\"}";
    let alert = journald_line_to_alert(line, "IN=").expect("message is relevant");
    assert_eq!(alert.severity, Severity::Info);
    assert_eq!(alert.source, "network");
    assert_eq!(alert.message, "Outbound: 10.0.0.5 → 1.2.3.4:443 (TCP)");
}

#[test]
fn journald_irrelevant_lines_yield_nothing() {
    assert!(journald_line_to_alert("not json at all", "IN=").is_none());
    assert!(journald_line_to_alert("{\"OTHER\": \"IN= SRC=1.2.3.4\"}", "IN=").is_none());
    assert!(journald_line_to_alert("{\"MESSAGE\": 42}", "IN=").is_none());
    assert!(journald_line_to_alert("{\"MESSAGE\": \"no prefix here\"}", "IN=").is_none());
}

#[test]
fn journald_lifecycle_alerts() {
    let up = journald_startup_alert();
    assert_eq!(up.severity, Severity::Info);
    assert_eq!(up.message, "Network monitor started (journald source)");
    let down = journald_exit_alert();
    assert_eq!(down.severity, Severity::Warning);
    assert_eq!(down.message, "journalctl process exited unexpectedly");
}
