//! Prompt firewall: tiered policy over outbound LLM request text.
//!
//! Request text is classified against named patterns grouped into threat
//! categories. Enforcement is controlled by a three-tier system:
//! tier 1 logs every match, tier 2 blocks prompt injection and
//! exfiltration while logging the rest, and tier 3 and above blocks every
//! category. A per-category override token (`block` | `warn` | `log`) wins
//! outright over the tier default; an unparseable token silently degrades
//! to the default. A scan's outcome is the highest action among its
//! matches, and `Pass` exactly when nothing matched.

use vstd::prelude::*;

use crate::alerts::Severity;
use crate::text::{contains_seq, str_contains, str_eq};
use crate::text_map::TextMap;

verus! {

/// Threat categories for prompt classification; a fixed, closed set.
#[derive(Debug, Clone, Copy, PartialEq, Eq, Structural)]
pub enum ThreatCategory {
    PromptInjection,
    ExfilViaPrompt,
    Jailbreak,
    ToolAbuse,
    SystemPromptExtract,
}

/// Action to take when a pattern matches, ordered `Log < Warn < Block`.
#[derive(Debug, Clone, Copy, PartialEq, Eq, Structural)]
pub enum FirewallAction {
    Block,
    Warn,
    Log,
}

/// Numeric rank of an action under the `Log < Warn < Block` order.
pub open spec fn action_rank(a: FirewallAction) -> int {
    match a {
        FirewallAction::Log => 0,
        FirewallAction::Warn => 1,
        FirewallAction::Block => 2,
    }
}

/// The stronger of two actions.
pub open spec fn spec_max_action(a: FirewallAction, b: FirewallAction) -> FirewallAction {
    if action_rank(a) >= action_rank(b) {
        a
    } else {
        b
    }
}

/// The default action of the tier table: tier 1 logs everything, tier 2
/// blocks prompt injection and exfiltration and logs the rest, tier 3 and
/// above blocks everything.
pub open spec fn spec_tier_default(tier: u8, category: ThreatCategory) -> FirewallAction {
    if tier == 1 {
        FirewallAction::Log
    } else if tier == 2 {
        match category {
            ThreatCategory::PromptInjection => FirewallAction::Block,
            ThreatCategory::ExfilViaPrompt => FirewallAction::Block,
            _ => FirewallAction::Log,
        }
    } else {
        FirewallAction::Block
    }
}

/// Resolve the default action for a category at a given tier.
pub fn tier_default_action(tier: u8, category: ThreatCategory) -> (r: FirewallAction)
    ensures
        r == spec_tier_default(tier, category),
{
    match tier {
        1 => FirewallAction::Log,
        2 => match category {
            ThreatCategory::PromptInjection | ThreatCategory::ExfilViaPrompt => {
                FirewallAction::Block
            },
            _ => FirewallAction::Log,
        },
        _ => FirewallAction::Block,
    }
}

/// The fixed snake_case override key of a category.
pub open spec fn spec_category_key(category: ThreatCategory) -> Seq<char> {
    match category {
        ThreatCategory::PromptInjection => "prompt_injection"@,
        ThreatCategory::ExfilViaPrompt => "exfil_via_prompt"@,
        ThreatCategory::Jailbreak => "jailbreak"@,
        ThreatCategory::ToolAbuse => "tool_abuse"@,
        ThreatCategory::SystemPromptExtract => "system_prompt_extract"@,
    }
}

/// The configuration key under which a category can be overridden.
pub fn category_config_key(category: ThreatCategory) -> (r: &'static str)
    ensures
        r@ == spec_category_key(category),
{
    match category {
        ThreatCategory::PromptInjection => "prompt_injection",
        ThreatCategory::ExfilViaPrompt => "exfil_via_prompt",
        ThreatCategory::Jailbreak => "jailbreak",
        ThreatCategory::ToolAbuse => "tool_abuse",
        ThreatCategory::SystemPromptExtract => "system_prompt_extract",
    }
}

/// The action a token names, if it names one.
pub open spec fn spec_parse_action(s: Seq<char>) -> Option<FirewallAction> {
    if s == "block"@ {
        Some(FirewallAction::Block)
    } else if s == "warn"@ {
        Some(FirewallAction::Warn)
    } else if s == "log"@ {
        Some(FirewallAction::Log)
    } else {
        None
    }
}

/// Parse an override token; anything but `block`, `warn` or `log` is
/// unrecognized.
pub fn parse_action(s: &str) -> (r: Option<FirewallAction>)
    ensures
        r == spec_parse_action(s@),
{
    if str_eq(s, "block") {
        Some(FirewallAction::Block)
    } else if str_eq(s, "warn") {
        Some(FirewallAction::Warn)
    } else if str_eq(s, "log") {
        Some(FirewallAction::Log)
    } else {
        None
    }
}

/// The effective action for a category: a parseable override wins outright,
/// regardless of tier; an absent or unparseable override falls back to the
/// tier default.
pub open spec fn spec_resolve(
    tier: u8,
    category: ThreatCategory,
    overrides: Map<Seq<char>, Seq<char>>,
) -> FirewallAction {
    let key = spec_category_key(category);
    if overrides.contains_key(key) {
        match spec_parse_action(overrides[key]) {
            Some(a) => a,
            None => spec_tier_default(tier, category),
        }
    } else {
        spec_tier_default(tier, category)
    }
}

/// Resolve the effective action for a category given tier defaults and
/// per-category overrides.
pub fn resolve_action(tier: u8, category: ThreatCategory, overrides: &TextMap) -> (r:
    FirewallAction)
    requires
        overrides.well_formed(),
    ensures
        r == spec_resolve(tier, category, overrides@),
{
    let key = category_config_key(category);
    if let Some(action_str) = overrides.get(key) {
        if let Some(action) = parse_action(action_str.as_str()) {
            return action;
        }
    }
    tier_default_action(tier, category)
}

/// A single pattern match with metadata and its resolved action.
#[derive(Debug, Clone)]
pub struct FirewallMatch {
    pub category: ThreatCategory,
    pub pattern_name: String,
    pub description: String,
    pub action: FirewallAction,
}

/// Result of scanning a prompt through the firewall: the tag is the
/// highest resolved action among the matches, and `Pass` means no pattern
/// matched at all.
#[derive(Debug)]
pub enum FirewallResult {
    Pass,
    Log { matches: Vec<FirewallMatch> },
    Warn { matches: Vec<FirewallMatch> },
    Block { matches: Vec<FirewallMatch> },
}

/// The strongest action among the matches; `None` for an empty sequence.
pub open spec fn spec_strongest(matches: Seq<FirewallMatch>) -> Option<FirewallAction>
    decreases matches.len(),
{
    if matches.len() == 0 {
        None
    } else {
        match spec_strongest(matches.drop_last()) {
            None => Some(matches.last().action),
            Some(a) => Some(spec_max_action(a, matches.last().action)),
        }
    }
}

/// What a `FirewallResult` must look like for a given sequence of matches:
/// `Pass` exactly when nothing matched, otherwise the tag equal to the
/// strongest match and the payload carrying every match in discovery order.
pub open spec fn result_matches(matches: Seq<FirewallMatch>, r: FirewallResult) -> bool {
    match r {
        FirewallResult::Pass => matches.len() == 0,
        FirewallResult::Log { matches: m } => m@ == matches && spec_strongest(matches) == Some(
            FirewallAction::Log,
        ),
        FirewallResult::Warn { matches: m } => m@ == matches && spec_strongest(matches) == Some(
            FirewallAction::Warn,
        ),
        FirewallResult::Block { matches: m } => m@ == matches && spec_strongest(matches) == Some(
            FirewallAction::Block,
        ),
    }
}

/// Fold a list of matches into the overall outcome: the single matched
/// action of highest severity wins, `Pass` only when no pattern matched,
/// and every contributing match is retained in discovery order.
pub fn aggregate_matches(matches: Vec<FirewallMatch>) -> (r: FirewallResult)
    ensures
        result_matches(matches@, r),
{
    if matches.len() == 0 {
        return FirewallResult::Pass;
    }
    let mut strongest = FirewallAction::Log;
    let mut i: usize = 0;
    proof {
        assert(matches@.take(0) =~= Seq::<FirewallMatch>::empty());
    }
    while i < matches.len()
        invariant
            i <= matches@.len(),
            i == 0 ==> strongest == FirewallAction::Log,
            i > 0 ==> spec_strongest(matches@.take(i as int)) == Some(strongest),
        decreases matches@.len() - i,
    {
        proof {
            assert(matches@.take(i + 1).drop_last() =~= matches@.take(i as int));
            assert(matches@.take(i + 1).last() == matches@[i as int]);
        }
        let current = matches[i].action;
        let stronger = match (current, strongest) {
            (FirewallAction::Block, _) => true,
            (FirewallAction::Warn, FirewallAction::Block) => false,
            (FirewallAction::Warn, _) => true,
            (FirewallAction::Log, _) => false,
        };
        if i == 0 || stronger {
            strongest = current;
        }
        i += 1;
    }
    proof {
        assert(matches@.take(matches@.len() as int) =~= matches@);
    }
    match strongest {
        FirewallAction::Log => FirewallResult::Log { matches },
        FirewallAction::Warn => FirewallResult::Warn { matches },
        FirewallAction::Block => FirewallResult::Block { matches },
    }
}

/// A compiled firewall pattern: a needle searched for in the request text,
/// tagged with its category and descriptive metadata.
#[derive(Debug, Clone)]
pub struct FirewallPattern {
    pub category: ThreatCategory,
    pub name: String,
    pub description: String,
    pub needle: String,
}

/// The matches a scan discovers: one per pattern whose needle occurs in
/// the text, in pattern order, each carrying the action resolved for its
/// category.
pub open spec fn spec_scan_matches(
    text: Seq<char>,
    tier: u8,
    overrides: Map<Seq<char>, Seq<char>>,
    patterns: Seq<FirewallPattern>,
) -> Seq<FirewallMatch>
    decreases patterns.len(),
{
    if patterns.len() == 0 {
        Seq::empty()
    } else {
        let head = spec_scan_matches(text, tier, overrides, patterns.drop_last());
        let p = patterns.last();
        if contains_seq(text, p.needle@) {
            head.push(
                FirewallMatch {
                    category: p.category,
                    pattern_name: p.name,
                    description: p.description,
                    action: spec_resolve(tier, p.category, overrides),
                },
            )
        } else {
            head
        }
    }
}

/// Scan outbound request text against the compiled patterns and aggregate
/// the outcome: every triggered pattern contributes a match with its
/// resolved action, and the overall result is the strongest of them.
pub fn scan(text: &str, tier: u8, overrides: &TextMap, patterns: &Vec<FirewallPattern>) -> (r:
    FirewallResult)
    requires
        overrides.well_formed(),
    ensures
        result_matches(spec_scan_matches(text@, tier, overrides@, patterns@), r),
{
    let mut matches: Vec<FirewallMatch> = Vec::new();
    let mut i: usize = 0;
    while i < patterns.len()
        invariant
            overrides.well_formed(),
            i <= patterns@.len(),
            matches@ == spec_scan_matches(text@, tier, overrides@, patterns@.take(i as int)),
        decreases patterns@.len() - i,
    {
        proof {
            assert(patterns@.take(i + 1).drop_last() =~= patterns@.take(i as int));
            assert(patterns@.take(i + 1).last() == patterns@[i as int]);
        }
        let p = &patterns[i];
        if str_contains(text, p.needle.as_str()) {
            let action = resolve_action(tier, p.category, overrides);
            matches.push(
                FirewallMatch {
                    category: p.category,
                    pattern_name: p.name.clone(),
                    description: p.description.clone(),
                    action,
                },
            );
        }
        i += 1;
    }
    proof {
        assert(patterns@.take(patterns@.len() as int) =~= patterns@);
    }
    aggregate_matches(matches)
}

/// The firewall itself: the compiled pattern set scans are run against.
/// Scanning is pure — tier and overrides are read-only inputs, so
/// concurrent scans need no synchronization.
#[derive(Debug, Clone)]
pub struct PromptFirewall {
    patterns: Vec<FirewallPattern>,
}

impl PromptFirewall {
    /// The compiled patterns, in the order scans consult them.
    pub closed spec fn spec_patterns(&self) -> Seq<FirewallPattern> {
        self.patterns@
    }

    /// A firewall over the given compiled pattern set.
    pub fn new(patterns: Vec<FirewallPattern>) -> (r: Self)
        ensures
            r.spec_patterns() == patterns@,
    {
        PromptFirewall { patterns }
    }

    /// Scan one outbound request text under the given tier and overrides.
    pub fn scan(&self, text: &str, tier: u8, overrides: &TextMap) -> (r: FirewallResult)
        requires
            overrides.well_formed(),
        ensures
            result_matches(spec_scan_matches(text@, tier, overrides@, self.spec_patterns()), r),
    {
        scan(text, tier, overrides, &self.patterns)
    }
}

/// Law: the tier defaults follow the policy table exactly — tier 1 logs
/// every category, tier 2 blocks prompt injection and exfiltration and
/// logs the other three, and every tier from 3 up blocks every category.
pub proof fn lemma_tier_default_table()
    ensures
        forall|c: ThreatCategory| spec_tier_default(1, c) == FirewallAction::Log,
        spec_tier_default(2, ThreatCategory::PromptInjection) == FirewallAction::Block,
        spec_tier_default(2, ThreatCategory::ExfilViaPrompt) == FirewallAction::Block,
        spec_tier_default(2, ThreatCategory::Jailbreak) == FirewallAction::Log,
        spec_tier_default(2, ThreatCategory::ToolAbuse) == FirewallAction::Log,
        spec_tier_default(2, ThreatCategory::SystemPromptExtract) == FirewallAction::Log,
        forall|t: u8, c: ThreatCategory|
            t >= 3 ==> spec_tier_default(t, c) == FirewallAction::Block,
{
}

/// Law: a parseable override wins outright, whatever the tier and its
/// default say.
pub proof fn lemma_override_wins(
    tier: u8,
    category: ThreatCategory,
    overrides: Map<Seq<char>, Seq<char>>,
    a: FirewallAction,
)
    requires
        overrides.contains_key(spec_category_key(category)),
        spec_parse_action(overrides[spec_category_key(category)]) == Some(a),
    ensures
        spec_resolve(tier, category, overrides) == a,
{
}

/// Law: an override token that names no action leaves the resolution at
/// the tier default; it never errors.
pub proof fn lemma_unparseable_override_degrades(
    tier: u8,
    category: ThreatCategory,
    overrides: Map<Seq<char>, Seq<char>>,
)
    requires
        overrides.contains_key(spec_category_key(category)) ==> spec_parse_action(
            overrides[spec_category_key(category)],
        ) is None,
    ensures
        spec_resolve(tier, category, overrides) == spec_tier_default(tier, category),
{
}

/// The strongest action of a non-empty match list, `Log` for an empty one.
pub open spec fn strongest_of(matches: Seq<FirewallMatch>) -> FirewallAction {
    match spec_strongest(matches) {
        Some(a) => a,
        None => FirewallAction::Log,
    }
}

/// Law: the outcome of a non-empty match list is the maximum of its
/// matches' actions — no match is stronger, and some match attains it.
pub proof fn lemma_strongest_is_max(matches: Seq<FirewallMatch>)
    requires
        matches.len() > 0,
    ensures
        spec_strongest(matches) == Some(strongest_of(matches)),
        forall|i: int|
            0 <= i < matches.len() ==> action_rank(matches[i].action) <= action_rank(
                strongest_of(matches),
            ),
        exists|i: int| 0 <= i < matches.len() && matches[i].action == strongest_of(matches),
    decreases matches.len(),
{
    if matches.len() == 1 {
        assert(matches[0] == matches.last());
    } else {
        let head = matches.drop_last();
        lemma_strongest_is_max(head);
        let prev = strongest_of(head);
        if action_rank(prev) >= action_rank(matches.last().action) {
            let i = choose|i: int| 0 <= i < head.len() && head[i].action == prev;
            assert(matches[i].action == prev);
        } else {
            assert(matches[matches.len() - 1].action == strongest_of(matches));
        }
        assert forall|i: int|
            0 <= i < matches.len() implies action_rank(matches[i].action) <= action_rank(
            strongest_of(matches),
        ) by {
            if i < matches.len() - 1 {
                assert(head[i] == matches[i]);
            }
        }
    }
}

/// Law: when a scan discovers exactly two matches whose categories
/// resolve, under the given tier and overrides, to `Warn` for the first
/// and `Block` for the second, the outcome built from them is
/// `FirewallResult::Block`, carrying both matches in discovery order.
pub proof fn lemma_warn_and_block_scan_blocks(
    tier: u8,
    overrides: Map<Seq<char>, Seq<char>>,
    matches: Seq<FirewallMatch>,
    r: FirewallResult,
)
    requires
        matches.len() == 2,
        matches[0].action == spec_resolve(tier, matches[0].category, overrides),
        matches[1].action == spec_resolve(tier, matches[1].category, overrides),
        spec_resolve(tier, matches[0].category, overrides) == FirewallAction::Warn,
        spec_resolve(tier, matches[1].category, overrides) == FirewallAction::Block,
        result_matches(matches, r),
    ensures
        r matches FirewallResult::Block { matches: m } && m@ == matches,
{
    assert(matches.drop_last().drop_last() =~= Seq::<FirewallMatch>::empty());
    assert(spec_strongest(Seq::<FirewallMatch>::empty()) is None);
    assert(spec_strongest(matches.drop_last().drop_last()) is None);
    assert(matches.drop_last().last() == matches[0]);
    assert(spec_strongest(matches.drop_last()) == Some(matches[0].action));
    assert(spec_strongest(matches) == Some(FirewallAction::Block));
}

/// The alerting severity of a firewall action: `Block` is critical,
/// `Warn` is a warning, `Log` is informational.
pub open spec fn spec_action_severity(action: FirewallAction) -> Severity {
    match action {
        FirewallAction::Block => Severity::Critical,
        FirewallAction::Warn => Severity::Warning,
        FirewallAction::Log => Severity::Info,
    }
}

/// Map a firewall action to the severity its alert carries on the
/// observability path.
pub fn action_severity(action: FirewallAction) -> (r: Severity)
    ensures
        r == spec_action_severity(action),
{
    match action {
        FirewallAction::Block => Severity::Critical,
        FirewallAction::Warn => Severity::Warning,
        FirewallAction::Log => Severity::Info,
    }
}

/// Law: the action-to-severity mapping respects the two orders — a
/// stronger action never alerts at a lower severity.
pub proof fn lemma_action_severity_order_consistent(a: FirewallAction, b: FirewallAction)
    requires
        action_rank(a) <= action_rank(b),
    ensures
        crate::alerts::severity_rank(spec_action_severity(a)) <= crate::alerts::severity_rank(
            spec_action_severity(b),
        ),
{
}

} // verus!
