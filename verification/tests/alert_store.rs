use clawav::alerts::{Alert, AlertStore, Severity};

#[test]
fn store_evicts_oldest_on_overflow() {
    let mut store = AlertStore::new(2);
    store.push(Alert::new(Severity::Info, "test", "A"));
    store.push(Alert::new(Severity::Info, "test", "B"));
    store.push(Alert::new(Severity::Info, "test", "C"));
    let alerts = store.alerts();
    assert_eq!(alerts.len(), 2);
    assert_eq!(alerts[0].message, "B");
    assert_eq!(alerts[1].message, "C");
}

#[test]
fn store_keeps_arrival_order_below_capacity() {
    let mut store = AlertStore::new(10);
    store.push(Alert::new(Severity::Info, "test", "first"));
    store.push(Alert::new(Severity::Warning, "test", "second"));
    let alerts = store.alerts();
    assert_eq!(alerts.len(), 2);
    assert_eq!(alerts[0].message, "first");
    assert_eq!(alerts[1].message, "second");
    assert_eq!(store.len(), 2);
}

#[test]
fn store_capacity_one_keeps_newest() {
    let mut store = AlertStore::new(1);
    store.push(Alert::new(Severity::Info, "test", "old"));
    store.push(Alert::new(Severity::Critical, "test", "new"));
    let alerts = store.alerts();
    assert_eq!(alerts.len(), 1);
    assert_eq!(alerts[0].message, "new");
}

#[test]
fn count_by_severity_counts_exact_matches() {
    let mut store = AlertStore::new(100);
    store.push(Alert::new(Severity::Critical, "test", "c1"));
    store.push(Alert::new(Severity::Critical, "test", "c2"));
    store.push(Alert::new(Severity::Warning, "test", "w1"));
    assert_eq!(store.count_by_severity(&Severity::Critical), 2);
    assert_eq!(store.count_by_severity(&Severity::Warning), 1);
    assert_eq!(store.count_by_severity(&Severity::Info), 0);
}

#[test]
fn severity_from_str_is_case_insensitive() {
    assert_eq!(Severity::from_str("critical"), Severity::Critical);
    assert_eq!(Severity::from_str("CRITICAL"), Severity::Critical);
    assert_eq!(Severity::from_str("Crit"), Severity::Critical);
    assert_eq!(Severity::from_str("warning"), Severity::Warning);
    assert_eq!(Severity::from_str("WARN"), Severity::Warning);
    assert_eq!(Severity::from_str("info"), Severity::Info);
    assert_eq!(Severity::from_str("bogus"), Severity::Info);
    assert_eq!(Severity::from_str(""), Severity::Info);
}

#[test]
fn severity_display_forms() {
    assert_eq!(Severity::Info.label(), "INFO");
    assert_eq!(Severity::Warning.label(), "WARN");
    assert_eq!(Severity::Critical.label(), "CRIT");
    assert_eq!(Severity::Info.emoji(), "ℹ️");
    assert_eq!(Severity::Warning.emoji(), "⚠️");
    assert_eq!(Severity::Critical.emoji(), "🔴");
}

#[test]
fn severity_is_ordered() {
    assert!(Severity::Info < Severity::Warning);
    assert!(Severity::Warning < Severity::Critical);
}

#[test]
fn alert_line_rendering() {
    let a = Alert::new(Severity::Critical, "network", "breach");
    assert_eq!(
        a.line_with_time("12:34:56"),
        "[12:34:56] CRIT [network] breach"
    );
    let line = a.display_line();
    assert!(line.starts_with('['));
    assert!(line.ends_with("] CRIT [network] breach"));
}

#[test]
fn alert_new_sets_fields() {
    let a = Alert::new(Severity::Warning, "network", "something happened");
    assert_eq!(a.severity, Severity::Warning);
    assert_eq!(a.source, "network");
    assert_eq!(a.message, "something happened");
}
