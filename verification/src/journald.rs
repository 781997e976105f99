//! Journal tailer support: decoding of the JSON lines the journal
//! subprocess streams, and the fixed alerts that mark the source's
//! lifecycle. The subprocess itself is run by the integrating program.

use vstd::prelude::*;

use crate::alerts::{Alert, Severity};
use crate::network::{parse_iptables_line, parse_result_matches};

verus! {

/// The human-readable `MESSAGE` field of a journal JSON line: `Some` of
/// its text when the line is a JSON object holding a string under that
/// key, `None` otherwise. The decode depends on the line alone.
pub uninterp spec fn journald_message_of(line: Seq<char>) -> Option<Seq<char>>;

/// Relies on `serde_json::from_str`, `Value::get` and `Value::as_str`:
/// decodes one JSON document and pulls out its string `MESSAGE` member;
/// malformed JSON, a missing key, or a non-string node give `None`.
#[verifier::external_body]
fn decode_journald_message(line: &str) -> (r: Option<String>)
    ensures
        r matches Some(m) ==> journald_message_of(line@) == Some(m@),
        r is None ==> journald_message_of(line@) is None,
{
    let value: serde_json::Value = serde_json::from_str(line).ok()?;
    let message = value.get("MESSAGE")?.as_str()?;
    Some(message.to_owned())
}

/// Decode one JSON line from the journal stream, pull out its
/// human-readable `MESSAGE` field, and hand that to the shared log-line
/// parser. Lines that are not JSON objects with a string message yield
/// nothing; the message is parsed exactly as a directly tailed line.
pub fn journald_line_to_alert(line: &str, prefix: &str) -> (r: Option<Alert>)
    ensures
        journald_message_of(line@) is None ==> r is None,
        journald_message_of(line@) matches Some(m) ==> parse_result_matches(m, prefix@, r),
{
    match decode_journald_message(line) {
        None => None,
        Some(msg) => parse_iptables_line(msg.as_str(), prefix),
    }
}

/// The one-time startup notification of the journal source.
pub fn journald_startup_alert() -> (r: Alert)
    ensures
        r.severity == Severity::Info,
        r.source@ == "network"@,
        r.message@ == "Network monitor started (journald source)"@,
{
    Alert::new(Severity::Info, "network", "Network monitor started (journald source)")
}

/// The alert surfaced when the journal subprocess terminates, so that
/// operators see the gap in coverage.
pub fn journald_exit_alert() -> (r: Alert)
    ensures
        r.severity == Severity::Warning,
        r.source@ == "network"@,
        r.message@ == "journalctl process exited unexpectedly"@,
{
    Alert::new(Severity::Warning, "network", "journalctl process exited unexpectedly")
}

} // verus!
