//! Shared parser for kernel firewall log lines, and the recovery policy of
//! the network log tailer.
//!
//! A log line is relevant when it contains a configured prefix; the parser
//! then extracts the `SRC`, `DST`, `DPT` and `PROTO` key=value tokens
//! (missing fields become `"?"`), rates the destination port against a fixed
//! known-good set, and renders a one-line outbound-connection message.

use vstd::prelude::*;

use crate::alerts::{Alert, Severity};
use crate::text::{contains_seq, match_at, matches_at, str_contains};

verus! {

/// The whitespace that separates the tokens of a log line: Unicode's
/// white-space set, as `str::split_whitespace` splits by.
pub open spec fn is_space(c: char) -> bool {
    c == ' ' || c == '\t' || c == '\n' || c == '\x0b' || c == '\x0c' || c == '\r' || c == '\u{85}'
        || c == '\u{a0}' || c == '\u{1680}' || ('\u{2000}' <= c && c <= '\u{200a}') || c
        == '\u{2028}' || c == '\u{2029}' || c == '\u{202f}' || c == '\u{205f}' || c == '\u{3000}'
}

/// Executable form of `is_space`.
pub fn is_space_char(c: char) -> (r: bool)
    ensures
        r == is_space(c),
{
    c == ' ' || c == '\t' || c == '\n' || c == '\x0b' || c == '\x0c' || c == '\r' || c == '\u{85}'
        || c == '\u{a0}' || c == '\u{1680}' || ('\u{2000}' <= c && c <= '\u{200a}') || c
        == '\u{2028}' || c == '\u{2029}' || c == '\u{202f}' || c == '\u{205f}' || c == '\u{3000}'
}

/// First position at or after `i` that ends the current run of non-space
/// characters: either the end of `s` or the next space.
pub open spec fn token_end(s: Seq<char>, i: int) -> int
    decreases s.len() - i,
{
    if i < 0 || i >= s.len() || is_space(s[i]) {
        i
    } else {
        token_end(s, i + 1)
    }
}

/// Whether a whitespace-separated token of `s` begins at position `i`.
pub open spec fn is_token_start(s: Seq<char>, i: int) -> bool {
    0 <= i < s.len() && !is_space(s[i]) && (i == 0 || is_space(s[i - 1]))
}

/// Whether the token beginning at `i` starts with `key` followed by `=`.
pub open spec fn key_match_at(s: Seq<char>, key: Seq<char>, i: int) -> bool {
    is_token_start(s, i) && i + key.len() < s.len() && match_at(s, key, i) && s[i + key.len()]
        == '='
}

/// The value of the first `key=value` token of `s` at or after position `i`:
/// what stands between the `=` and the end of that token.
pub open spec fn find_field_from(s: Seq<char>, key: Seq<char>, i: int) -> Option<Seq<char>>
    decreases s.len() - i,
{
    if i < 0 || i >= s.len() {
        None
    } else if key_match_at(s, key, i) {
        Some(s.subrange(i + key.len() + 1, token_end(s, i + key.len() + 1)))
    } else {
        find_field_from(s, key, i + 1)
    }
}

/// The value of the first `key=value` token of `s`, if any.
pub open spec fn spec_field(s: Seq<char>, key: Seq<char>) -> Option<Seq<char>> {
    find_field_from(s, key, 0)
}

/// The value of the first `key=value` token, or the placeholder `?` when
/// the key does not occur.
pub open spec fn field_or_unknown(s: Seq<char>, key: Seq<char>) -> Seq<char> {
    match spec_field(s, key) {
        Some(v) => v,
        None => "?"@,
    }
}

/// Scan the whitespace-separated tokens of `line` for the first one of the
/// form `field=value` and hand back its value, which may be empty.
pub fn extract_iptables_field<'a>(line: &'a str, field: &str) -> (r: Option<&'a str>)
    ensures
        match r {
            Some(v) => spec_field(line@, field@) == Some(v@),
            None => spec_field(line@, field@) is None,
        },
{
    let len = line.unicode_len();
    let klen = field.unicode_len();
    let mut i: usize = 0;
    while i < len
        invariant
            len == line@.len(),
            klen == field@.len(),
            i <= len,
            spec_field(line@, field@) == find_field_from(line@, field@, i as int),
        decreases len - i,
    {
        let at_token_start = !is_space_char(line.get_char(i)) && (i == 0 || is_space_char(
            line.get_char(i - 1),
        ));
        let matched = at_token_start && klen < len - i && matches_at(line, field, i)
            && line.get_char(i + klen) == '=';
        if matched {
            assert(key_match_at(line@, field@, i as int));
            let vstart = i + klen + 1;
            let mut j: usize = vstart;
            while j < len && !is_space_char(line.get_char(j))
                invariant
                    len == line@.len(),
                    vstart <= j <= len,
                    token_end(line@, vstart as int) == token_end(line@, j as int),
                decreases len - j,
            {
                j += 1;
            }
            assert(token_end(line@, j as int) == j);
            let v = line.substring_char(vstart, j);
            assert(find_field_from(line@, field@, i as int) == Some(v@));
            return Some(v);
        }
        assert(!key_match_at(line@, field@, i as int));
        assert(find_field_from(line@, field@, i as int) == find_field_from(
            line@,
            field@,
            i + 1,
        ));
        i += 1;
    }
    assert(find_field_from(line@, field@, len as int) is None);
    None
}

/// Whether the destination port is in the fixed known-good set
/// (TLS, DNS, NTP).
pub open spec fn spec_known_good_port(dpt: Seq<char>) -> bool {
    dpt == "443"@ || dpt == "53"@ || dpt == "123"@
}

/// Destinations on the known-good ports are rated `Info`; the destination
/// host is not consulted.
pub fn is_known_good_destination(_dst: &str, dpt: &str) -> (r: bool)
    ensures
        r == spec_known_good_port(dpt@),
{
    crate::text::str_eq(dpt, "443") || crate::text::str_eq(dpt, "53") || crate::text::str_eq(
        dpt,
        "123",
    )
}

/// The message a parsed line renders to:
/// `Outbound: {src} → {dst}:{dpt} ({proto})`.
pub open spec fn outbound_message(
    src: Seq<char>,
    dst: Seq<char>,
    dpt: Seq<char>,
    proto: Seq<char>,
) -> Seq<char> {
    "Outbound: "@ + src + " → "@ + dst + ":"@ + dpt + " ("@ + proto + ")"@
}

/// What `parse_iptables_line` promises of its result: `None` exactly when
/// the prefix is absent, otherwise an alert tagged `network` whose message
/// and severity are determined by the extracted fields.
pub open spec fn parse_result_matches(line: Seq<char>, prefix: Seq<char>, r: Option<Alert>) -> bool {
    match r {
        Some(a) => {
            &&& contains_seq(line, prefix)
            &&& a.source@ == "network"@
            &&& a.message@ == outbound_message(
                field_or_unknown(line, "SRC"@),
                field_or_unknown(line, "DST"@),
                field_or_unknown(line, "DPT"@),
                field_or_unknown(line, "PROTO"@),
            )
            &&& a.severity == if spec_known_good_port(field_or_unknown(line, "DPT"@)) {
                Severity::Info
            } else {
                Severity::Warning
            }
        },
        None => !contains_seq(line, prefix),
    }
}

/// Law: a line that does not contain the configured prefix yields no
/// alert, whatever key=value tokens it carries.
pub proof fn lemma_no_prefix_no_alert(line: Seq<char>, prefix: Seq<char>, r: Option<Alert>)
    requires
        parse_result_matches(line, prefix, r),
        !contains_seq(line, prefix),
    ensures
        r is None,
{
}

/// Parse a kernel firewall log line into an alert. Lines that do not
/// contain `prefix` are irrelevant and yield `None`; missing fields
/// default to `?`.
pub fn parse_iptables_line(line: &str, prefix: &str) -> (r: Option<Alert>)
    ensures
        parse_result_matches(line@, prefix@, r),
{
    if !str_contains(line, prefix) {
        return None;
    }
    let src = match extract_iptables_field(line, "SRC") {
        Some(v) => v,
        None => "?",
    };
    let dst = match extract_iptables_field(line, "DST") {
        Some(v) => v,
        None => "?",
    };
    let dpt = match extract_iptables_field(line, "DPT") {
        Some(v) => v,
        None => "?",
    };
    let proto = match extract_iptables_field(line, "PROTO") {
        Some(v) => v,
        None => "?",
    };

    let msg = String::from_str("Outbound: ").concat(src).concat(" → ").concat(dst).concat(
        ":",
    ).concat(dpt).concat(" (").concat(proto).concat(")");
    proof {
        assert(msg@ =~= outbound_message(src@, dst@, dpt@, proto@));
    }

    let severity = if is_known_good_destination(dst, dpt) {
        Severity::Info
    } else {
        Severity::Warning
    };
    Some(Alert::new(severity, "network", msg.as_str()))
}

/// One observation of the tailed log: no new data, a fresh line, or a
/// failed read with its error text.
pub enum TailEvent {
    Eof,
    Line(String),
    Failed(String),
}

/// What the tailer does next: surface an alert, then back off for the
/// given number of milliseconds before the next read.
pub struct TailStep {
    pub alert: Option<Alert>,
    pub backoff_ms: u64,
}

/// Recovery policy of the network log tailer: no new data means a short
/// poll interval; a line is parsed; a read error is surfaced as a Warning
/// alert followed by a long backoff. No event ends the tailing loop.
pub fn tail_step(event: &TailEvent, prefix: &str) -> (r: TailStep)
    ensures
        event is Eof ==> r.alert is None && r.backoff_ms == 500,
        event matches TailEvent::Line(l) ==> r.backoff_ms == 0 && parse_result_matches(
            l@,
            prefix@,
            r.alert,
        ),
        event matches TailEvent::Failed(e) ==> {
            &&& r.backoff_ms == 5000
            &&& r.alert matches Some(a) && a.severity == Severity::Warning && a.source@
                == "network"@ && a.message@ == "Error reading network log: "@ + e@
        },
{
    match event {
        TailEvent::Eof => TailStep { alert: None, backoff_ms: 500 },
        TailEvent::Line(l) => TailStep { alert: parse_iptables_line(l.as_str(), prefix), backoff_ms: 0 },
        TailEvent::Failed(e) => {
            let msg = String::from_str("Error reading network log: ").concat(e.as_str());
            TailStep {
                alert: Some(Alert::new(Severity::Warning, "network", msg.as_str())),
                backoff_ms: 5000,
            }
        },
    }
}

} // verus!
