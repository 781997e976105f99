//! Alert data model and the bounded, insertion-ordered alert history.

use vstd::prelude::*;

use crate::text::{ci_eq, str_eq_ignore_ascii_case};

verus! {

/// Alert severity, ordered `Info < Warning < Critical`.
#[derive(Debug, Clone, PartialEq, Eq, PartialOrd, Ord, Structural)]
pub enum Severity {
    Info,
    Warning,
    Critical,
}

/// Numeric rank of a severity under the `Info < Warning < Critical` order.
pub open spec fn severity_rank(s: Severity) -> int {
    match s {
        Severity::Info => 0,
        Severity::Warning => 1,
        Severity::Critical => 2,
    }
}

/// The severity a free-text token names, compared case-insensitively;
/// unrecognized input defaults to `Info`.
pub open spec fn spec_severity_from(s: Seq<char>) -> Severity {
    if ci_eq(s, "critical"@) || ci_eq(s, "crit"@) {
        Severity::Critical
    } else if ci_eq(s, "warning"@) || ci_eq(s, "warn"@) {
        Severity::Warning
    } else {
        Severity::Info
    }
}

impl Severity {
    /// Parse a severity from free text, case-insensitively; anything
    /// unrecognized is `Info`.
    pub fn from_str(s: &str) -> (r: Self)
        ensures
            r == spec_severity_from(s@),
    {
        if str_eq_ignore_ascii_case(s, "critical") || str_eq_ignore_ascii_case(s, "crit") {
            Severity::Critical
        } else if str_eq_ignore_ascii_case(s, "warning") || str_eq_ignore_ascii_case(s, "warn") {
            Severity::Warning
        } else {
            Severity::Info
        }
    }

    /// Short glyph for status surfaces.
    pub fn emoji(&self) -> (r: &'static str)
        ensures
            self is Info ==> r@ == "ℹ️"@,
            self is Warning ==> r@ == "⚠️"@,
            self is Critical ==> r@ == "🔴"@,
    {
        match self {
            Severity::Info => "ℹ️",
            Severity::Warning => "⚠️",
            Severity::Critical => "🔴",
        }
    }

    /// Fixed-width display code, the wire form of a severity.
    pub fn label(&self) -> (r: &'static str)
        ensures
            r@ == spec_severity_label(*self),
    {
        match self {
            Severity::Info => "INFO",
            Severity::Warning => "WARN",
            Severity::Critical => "CRIT",
        }
    }
}

/// The fixed-width display code of a severity.
pub open spec fn spec_severity_label(s: Severity) -> Seq<char> {
    match s {
        Severity::Info => "INFO"@,
        Severity::Warning => "WARN"@,
        Severity::Critical => "CRIT"@,
    }
}

/// A timestamped, severity-tagged notification of an observed event.
/// The timestamp is wall-clock time as seconds since the Unix epoch,
/// taken once at creation.
#[derive(Debug, Clone)]
pub struct Alert {
    pub timestamp: i64,
    pub severity: Severity,
    pub source: String,
    pub message: String,
}

/// Relies on `chrono::Local::now` (and `DateTime::timestamp`) for the
/// current wall-clock time; the value depends on when the call is made,
/// so nothing is promised of it.
#[verifier::external_body]
fn now_epoch_seconds() -> i64 {
    chrono::Local::now().timestamp()
}

impl Alert {
    /// Create an alert stamped with the current wall-clock time.
    pub fn new(severity: Severity, source: &str, message: &str) -> (r: Self)
        ensures
            r.severity == severity,
            r.source@ == source@,
            r.message@ == message@,
    {
        Alert {
            timestamp: now_epoch_seconds(),
            severity,
            source: source.to_owned(),
            message: message.to_owned(),
        }
    }
}

/// Relies on chrono (`DateTime::from_timestamp`, `with_timezone`, `format`)
/// to render an epoch timestamp as the local wall-clock `HH:MM:SS`: two
/// zero-padded digits per part, eight characters in all. The digits depend
/// on the machine's time zone, so only the shape is promised. A timestamp
/// out of chrono's range renders empty.
#[verifier::external_body]
fn local_hms(timestamp: i64) -> (r: String)
    ensures
        r@.len() == 8 || r@.len() == 0,
{
    match chrono::DateTime::from_timestamp(timestamp, 0) {
        Some(dt) => dt.with_timezone(&chrono::Local).format("%H:%M:%S").to_string(),
        None => String::new(),
    }
}

/// The display line of an alert, around a rendered form of its timestamp:
/// `[{time}] {severity} [{source}] {message}`.
pub open spec fn spec_alert_line(a: Alert, time: Seq<char>) -> Seq<char> {
    "["@ + time + "] "@ + spec_severity_label(a.severity) + " ["@ + a.source@ + "] "@ + a.message@
}

impl Alert {
    /// Render the alert's display line around an already rendered
    /// timestamp.
    pub fn line_with_time(&self, time: &str) -> (r: String)
        ensures
            r@ == spec_alert_line(*self, time@),
    {
        let r = String::from_str("[").concat(time).concat("] ").concat(self.severity.label())
            .concat(" [").concat(self.source.as_str()).concat("] ").concat(
            self.message.as_str(),
        );
        proof {
            assert(r@ =~= spec_alert_line(*self, time@));
        }
        r
    }

    /// The alert's display line, with the timestamp rendered as the local
    /// wall-clock time (eight `HH:MM:SS` characters, or empty for a
    /// timestamp the renderer cannot place).
    pub fn display_line(&self) -> (r: String)
        ensures
            exists|time: Seq<char>|
                (time.len() == 8 || time.len() == 0) && r@ == spec_alert_line(*self, time),
    {
        let time = local_hms(self.timestamp);
        let r = self.line_with_time(time.as_str());
        proof {
            assert((time@.len() == 8 || time@.len() == 0) && r@ == spec_alert_line(*self, time@));
        }
        r
    }
}

/// The number of alerts in `s` whose severity is exactly `sev`.
pub open spec fn count_severity(s: Seq<Alert>, sev: Severity) -> nat
    decreases s.len(),
{
    if s.len() == 0 {
        0
    } else {
        count_severity(s.drop_last(), sev) + if s.last().severity == sev {
            1nat
        } else {
            0nat
        }
    }
}

/// Bounded FIFO history of alerts: insertion order is arrival order and
/// the oldest entry is evicted first once the fixed capacity is reached.
pub struct AlertStore {
    alerts: Vec<Alert>,
    max_size: usize,
}

impl AlertStore {
    /// The stored alerts, oldest first.
    pub closed spec fn view(&self) -> Seq<Alert> {
        self.alerts@
    }

    /// The fixed capacity chosen at construction.
    pub closed spec fn capacity(&self) -> usize {
        self.max_size
    }

    /// The store never holds more than its capacity, and eviction needs
    /// at least one slot, so the capacity is positive.
    pub open spec fn well_formed(&self) -> bool {
        self@.len() <= self.capacity() && self.capacity() >= 1
    }

    /// An empty store with the given fixed capacity.
    pub fn new(max_size: usize) -> (r: Self)
        requires
            max_size >= 1,
        ensures
            r.well_formed(),
            r@ == Seq::<Alert>::empty(),
            r.capacity() == max_size,
    {
        AlertStore { alerts: Vec::new(), max_size }
    }

    /// Append an alert; if the store is full, the single oldest entry is
    /// evicted first.
    pub fn push(&mut self, alert: Alert)
        requires
            old(self).well_formed(),
        ensures
            final(self).well_formed(),
            final(self).capacity() == old(self).capacity(),
            old(self)@.len() < old(self).capacity() ==> final(self)@ == old(self)@.push(alert),
            old(self)@.len() == old(self).capacity() ==> final(self)@ == old(self)@.subrange(
                1,
                old(self)@.len() as int,
            ).push(alert),
    {
        if self.alerts.len() >= self.max_size {
            self.alerts.remove(0);
            proof {
                assert(self.alerts@ =~= old(self)@.subrange(1, old(self)@.len() as int));
            }
        }
        self.alerts.push(alert);
    }

    /// Read-only view of the current contents in arrival order.
    pub fn alerts(&self) -> (r: &[Alert])
        ensures
            r@ == self@,
    {
        self.alerts.as_slice()
    }

    /// Number of stored alerts.
    pub fn len(&self) -> (r: usize)
        ensures
            r == self@.len(),
    {
        self.alerts.len()
    }

    /// Count of stored alerts whose severity is exactly `severity`.
    pub fn count_by_severity(&self, severity: &Severity) -> (r: usize)
        ensures
            r == count_severity(self@, *severity),
    {
        let mut count: usize = 0;
        let mut i: usize = 0;
        while i < self.alerts.len()
            invariant
                i <= self.alerts.len(),
                count == count_severity(self.alerts@.take(i as int), *severity),
                count <= i,
            decreases self.alerts.len() - i,
        {
            proof {
                assert(self.alerts@.take(i + 1).drop_last() =~= self.alerts@.take(i as int));
                assert(self.alerts@.take(i + 1).last() == self.alerts@[i as int]);
            }
            if self.alerts[i].severity == *severity {
                count += 1;
            }
            i += 1;
        }
        proof {
            assert(self.alerts@.take(self.alerts@.len() as int) =~= self.alerts@);
        }
        count
    }
}

} // verus!
