//! The operational-history presentation of a bundle and its redacted
//! support summary.

use vstd::prelude::*;

use crate::process::{json_quote, json_string};
use crate::instants::{rfc3339_text, representable_instant, utc_rfc3339_text};
use crate::operation_diagnostics::{DiagnosticCause, DiagnosticFact, DiagnosticFactValue, DiagnosticTarget};
use crate::text::{byte_len, byte_length, dec, dec_signed, i64_text, owned, push_str, starts_with, starts_with_seq, u64_text};

verus! {

/// The largest support summary, in bytes.
pub const SUPPORT_SUMMARY_MAX_BYTES: usize = 16384;

/// The completeness of a bundle's diagnostic history.
#[derive(Debug, Clone, Copy, PartialEq, Eq, Structural)]
pub enum DiagnosticHistoryState {
    Complete,
    LegacyUnknown,
    RetentionCapped,
    PersistenceGap,
    Unavailable,
}

/// The machine name of a history state.
pub open spec fn history_state_name(s: DiagnosticHistoryState) -> Seq<char> {
    match s {
        DiagnosticHistoryState::Complete => "complete"@,
        DiagnosticHistoryState::LegacyUnknown => "legacy_unknown"@,
        DiagnosticHistoryState::RetentionCapped => "retention_capped"@,
        DiagnosticHistoryState::PersistenceGap => "persistence_gap"@,
        DiagnosticHistoryState::Unavailable => "unavailable"@,
    }
}

impl DiagnosticHistoryState {
    /// The machine name of the state.
    pub fn as_str(self) -> (r: &'static str)
        ensures
            r@ == history_state_name(self),
    {
        proof {
            reveal_strlit("complete");
            reveal_strlit("legacy_unknown");
            reveal_strlit("retention_capped");
            reveal_strlit("persistence_gap");
            reveal_strlit("unavailable");
        }
        match self {
            DiagnosticHistoryState::Complete => "complete",
            DiagnosticHistoryState::LegacyUnknown => "legacy_unknown",
            DiagnosticHistoryState::RetentionCapped => "retention_capped",
            DiagnosticHistoryState::PersistenceGap => "persistence_gap",
            DiagnosticHistoryState::Unavailable => "unavailable",
        }
    }
}

/// One recorded cause of a diagnostic, reduced to what a support summary may
/// show.
#[derive(Debug, Clone, PartialEq, Eq)]
pub struct SafeSupportCause {
    pub code: String,
    pub phase: String,
    pub facts: Vec<String>,
}

/// One operational diagnostic as the shell presents it.
#[derive(Debug, Clone, PartialEq, Eq)]
pub struct OperationalDiagnosticPresentation {
    pub diagnostic_id: String,
    pub runtime_context_id: String,
    pub occurred_at: String,
    pub operation: String,
    pub phase: String,
    pub code: String,
    pub summary: String,
    pub outcome: String,
    pub severity: String,
    pub revision_before: Option<u64>,
    pub revision_after: Option<u64>,
    pub evidence_effect: String,
    pub retry_disposition: String,
    pub retry_guidance_code: String,
    pub targets: Vec<String>,
    pub causes: Vec<String>,
    pub detail_truncated: bool,
    pub support_causes: Vec<SafeSupportCause>,
}

/// One diagnostic as a support summary shows it: no identifiers, no free
/// text, only acquisition windows among its targets.
#[derive(Debug, Clone, PartialEq, Eq)]
pub struct SafeSupportDiagnostic {
    pub occurred_at: String,
    pub runtime_context_id: String,
    pub operation: String,
    pub phase: String,
    pub code: String,
    pub outcome: String,
    pub revision_before: Option<u64>,
    pub revision_after: Option<u64>,
    pub evidence_effect: String,
    pub retry_disposition: String,
    pub retry_guidance_code: String,
    pub acquisition_windows: Vec<String>,
    pub causes: Vec<SafeSupportCause>,
    pub detail_truncated: bool,
}

/// The character views of a list of strings.
pub open spec fn texts(v: Seq<String>) -> Seq<Seq<char>> {
    v.map_values(|s: String| s@)
}

/// A target that names an acquisition window.
pub open spec fn is_window(t: Seq<char>) -> bool {
    starts_with_seq(t, "window: "@)
}

/// Reduces a presented diagnostic to its support-summary form: the same
/// machine fields, only the acquisition-window targets, and the safe causes.
pub fn safe_support_diagnostic(d: &OperationalDiagnosticPresentation) -> (r: SafeSupportDiagnostic)
    ensures
        r.occurred_at@ == d.occurred_at@,
        r.runtime_context_id@ == d.runtime_context_id@,
        r.operation@ == d.operation@,
        r.phase@ == d.phase@,
        r.code@ == d.code@,
        r.outcome@ == d.outcome@,
        r.revision_before == d.revision_before,
        r.revision_after == d.revision_after,
        r.evidence_effect@ == d.evidence_effect@,
        r.retry_disposition@ == d.retry_disposition@,
        r.retry_guidance_code@ == d.retry_guidance_code@,
        texts(r.acquisition_windows@) == texts(d.targets@).filter(|t: Seq<char>| is_window(t)),
        r.causes@.len() == d.support_causes@.len(),
        forall|i: int| 0 <= i < r.causes@.len() ==> (#[trigger] r.causes@[i]).code@ == d.support_causes@[i].code@
            && r.causes@[i].phase@ == d.support_causes@[i].phase@
            && texts(r.causes@[i].facts@) == texts(d.support_causes@[i].facts@),
        r.detail_truncated == d.detail_truncated,
{
    let ghost all = texts(d.targets@);
    let mut windows: Vec<String> = Vec::new();
    let mut i: usize = 0;
    reveal(Seq::filter);
    assert(all.take(0).filter(|t: Seq<char>| is_window(t)) =~= Seq::<Seq<char>>::empty());
    assert(texts(windows@) =~= Seq::<Seq<char>>::empty());
    while i < d.targets.len()
        invariant
            i <= d.targets@.len(),
            all == texts(d.targets@),
            texts(windows@) == all.take(i as int).filter(|t: Seq<char>| is_window(t)),
        decreases d.targets@.len() - i,
    {
        proof {
            reveal_strlit("window: ");
            reveal(Seq::filter);
        }
        assert(all.take(i + 1).drop_last() =~= all.take(i as int));
        assert(all.take(i + 1).last() == d.targets@[i as int]@);
        let ghost before = windows@;
        if starts_with(d.targets[i].as_str(), "window: ") {
            windows.push(owned(d.targets[i].as_str()));
            assert(texts(windows@) =~= texts(before).push(d.targets@[i as int]@));
        }
        i = i + 1;
    }
    assert(all.take(d.targets@.len() as int) =~= all);
    let mut causes: Vec<SafeSupportCause> = Vec::new();
    let mut k: usize = 0;
    while k < d.support_causes.len()
        invariant
            k <= d.support_causes@.len(),
            causes@.len() == k,
            forall|j: int| 0 <= j < k ==> (#[trigger] causes@[j]).code@ == d.support_causes@[j].code@
                && causes@[j].phase@ == d.support_causes@[j].phase@
                && texts(causes@[j].facts@) == texts(d.support_causes@[j].facts@),
        decreases d.support_causes@.len() - k,
    {
        let c = &d.support_causes[k];
        let facts = crate::profiles::clone_strings(&c.facts);
        proof {
            assert(texts(facts@) =~= texts(c.facts@)) by {
                assert(crate::control_model::strs_view(facts@) == crate::control_model::strs_view(c.facts@));
                assert(crate::control_model::strs_view(facts@).len() == facts@.len());
                assert(crate::control_model::strs_view(c.facts@).len() == c.facts@.len());
                assert forall|j: int| 0 <= j < facts@.len() implies texts(facts@)[j] == texts(c.facts@)[j] by {
                    assert(crate::control_model::strs_view(facts@)[j] == facts@[j]@);
                    assert(crate::control_model::strs_view(c.facts@)[j] == c.facts@[j]@);
                }
            }
        }
        causes.push(SafeSupportCause { code: owned(c.code.as_str()), phase: owned(c.phase.as_str()), facts });
        k = k + 1;
    }
    SafeSupportDiagnostic {
        occurred_at: owned(d.occurred_at.as_str()),
        runtime_context_id: owned(d.runtime_context_id.as_str()),
        operation: owned(d.operation.as_str()),
        phase: owned(d.phase.as_str()),
        code: owned(d.code.as_str()),
        outcome: owned(d.outcome.as_str()),
        revision_before: d.revision_before,
        revision_after: d.revision_after,
        evidence_effect: owned(d.evidence_effect.as_str()),
        retry_disposition: owned(d.retry_disposition.as_str()),
        retry_guidance_code: owned(d.retry_guidance_code.as_str()),
        acquisition_windows: windows,
        causes,
        detail_truncated: d.detail_truncated,
    }
}

/// The operational-history presentation of a bundle.
#[derive(Debug, Clone, PartialEq, Eq)]
pub struct BundleDiagnosticsPresentation {
    pub history_state: DiagnosticHistoryState,
    pub retained_count: usize,
    pub retention_omitted_count: u64,
    pub presentation_omitted_count: usize,
    pub context_omitted_count: usize,
    pub record_limit: usize,
    pub byte_limit: usize,
    pub reason_code: Option<String>,
    pub context_count: usize,
    pub diagnostics: Vec<OperationalDiagnosticPresentation>,
    pub support_summary: String,
    pub support_summary_max_bytes: usize,
    pub support_summary_omitted_count: usize,
}

/// The support summary of a history without contexts or diagnostics: the
/// pretty-printed JSON of the redacted summary document.
pub open spec fn empty_summary_json(
    state: DiagnosticHistoryState,
    reason_code: Option<Seq<char>>,
    record_limit: usize,
    byte_limit: usize,
) -> Seq<char> {
    "{\n  \"schema\": \"antennabench_support_summary.v1\",\n  \"privacy\": {\n    \"redacted_by_default\": true,\n    \"omitted\": [\n      \"station identity and grid\",\n      \"bundle filename and local paths\",\n      \"target and arbitrary identifier values\",\n      \"controller output, attachments, and evidence rows\"\n    ]\n  },\n  \"history\": {\n    \"state\": \""@
        + history_state_name(state)
        + "\",\n    \"retained_count\": 0,\n    \"retention_omitted_count\": 0,\n    \"presentation_omitted_count\": 0,\n    \"context_presentation_omitted_count\": 0,\n    \"support_summary_omitted_count\": 0,\n    \"support_summary_context_omitted_count\": 0,\n    \"reason_code\": "@
        + match reason_code {
            Some(c) => json_string(c),
            None => "null"@,
        }
        + ",\n    \"diagnostic_record_limit\": "@ + dec(record_limit as nat)
        + ",\n    \"diagnostic_byte_limit\": "@ + dec(byte_limit as nat)
        + "\n  },\n  \"contexts\": [],\n  \"diagnostics\": []\n}"@
}

/// The support summary used when nothing else fits the byte limit.
pub open spec fn unavailable_summary() -> Seq<char> {
    "{\n  \"schema\": \"antennabench_support_summary.v1\",\n  \"history\": {\"state\": \"unavailable\"},\n  \"privacy\": {\"redacted_by_default\": true}\n}"@
}

/// The redacted support summary of a history with nothing recorded, as the
/// summary text and how many diagnostics it leaves out.
pub fn empty_support_summary(
    state: DiagnosticHistoryState,
    reason_code: Option<&str>,
    record_limit: usize,
    byte_limit: usize,
) -> (r: (String, usize))
    ensures
        r.1 == 0,
        ({
            let full = empty_summary_json(state, match reason_code { Some(c) => Some(c@), None => None }, record_limit, byte_limit);
            r.0@ == if byte_len(full) <= SUPPORT_SUMMARY_MAX_BYTES { full } else { unavailable_summary() }
        }),
{
    let mut out = owned("{\n  \"schema\": \"antennabench_support_summary.v1\",\n  \"privacy\": {\n    \"redacted_by_default\": true,\n    \"omitted\": [\n      \"station identity and grid\",\n      \"bundle filename and local paths\",\n      \"target and arbitrary identifier values\",\n      \"controller output, attachments, and evidence rows\"\n    ]\n  },\n  \"history\": {\n    \"state\": \"");
    push_str(&mut out, state.as_str());
    push_str(&mut out, "\",\n    \"retained_count\": 0,\n    \"retention_omitted_count\": 0,\n    \"presentation_omitted_count\": 0,\n    \"context_presentation_omitted_count\": 0,\n    \"support_summary_omitted_count\": 0,\n    \"support_summary_context_omitted_count\": 0,\n    \"reason_code\": ");
    match reason_code {
        Some(c) => {
            let q = json_quote(c);
            push_str(&mut out, q.as_str());
        },
        None => push_str(&mut out, "null"),
    }
    push_str(&mut out, ",\n    \"diagnostic_record_limit\": ");
    let a = u64_text(record_limit as u64);
    push_str(&mut out, a.as_str());
    push_str(&mut out, ",\n    \"diagnostic_byte_limit\": ");
    let b = u64_text(byte_limit as u64);
    push_str(&mut out, b.as_str());
    push_str(&mut out, "\n  },\n  \"contexts\": [],\n  \"diagnostics\": []\n}");
    proof {
        reveal_strlit("{\n  \"schema\": \"antennabench_support_summary.v1\",\n  \"privacy\": {\n    \"redacted_by_default\": true,\n    \"omitted\": [\n      \"station identity and grid\",\n      \"bundle filename and local paths\",\n      \"target and arbitrary identifier values\",\n      \"controller output, attachments, and evidence rows\"\n    ]\n  },\n  \"history\": {\n    \"state\": \"");
        reveal_strlit("\",\n    \"retained_count\": 0,\n    \"retention_omitted_count\": 0,\n    \"presentation_omitted_count\": 0,\n    \"context_presentation_omitted_count\": 0,\n    \"support_summary_omitted_count\": 0,\n    \"support_summary_context_omitted_count\": 0,\n    \"reason_code\": ");
        reveal_strlit("null");
        reveal_strlit(",\n    \"diagnostic_record_limit\": ");
        reveal_strlit(",\n    \"diagnostic_byte_limit\": ");
        reveal_strlit("\n  },\n  \"contexts\": [],\n  \"diagnostics\": []\n}");
    }
    if byte_length(out.as_str()) <= SUPPORT_SUMMARY_MAX_BYTES {
        (out, 0)
    } else {
        proof {
            reveal_strlit("{\n  \"schema\": \"antennabench_support_summary.v1\",\n  \"history\": {\"state\": \"unavailable\"},\n  \"privacy\": {\"redacted_by_default\": true}\n}");
        }
        (owned("{\n  \"schema\": \"antennabench_support_summary.v1\",\n  \"history\": {\"state\": \"unavailable\"},\n  \"privacy\": {\"redacted_by_default\": true}\n}"), 0)
    }
}

/// The reason a legacy bundle has no operational history.
pub open spec fn legacy_reason(schema_version: u16) -> Seq<char> {
    "bundle.schema_v"@ + dec(schema_version as nat) + "_history_unavailable"@
}

/// The presentation of a bundle whose schema predates the operational
/// history: the history is honestly unknown, nothing is listed, and the
/// support summary is the bounded, redacted document that says so.
pub fn legacy_diagnostics_presentation(schema_version: u16, record_limit: usize, byte_limit: usize) -> (r: BundleDiagnosticsPresentation)
    ensures
        r.history_state == DiagnosticHistoryState::LegacyUnknown,
        r.retained_count == 0,
        r.retention_omitted_count == 0,
        r.presentation_omitted_count == 0,
        r.context_omitted_count == 0,
        r.record_limit == record_limit,
        r.byte_limit == byte_limit,
        r.reason_code matches Some(c) && c@ == legacy_reason(schema_version),
        r.context_count == 0,
        r.diagnostics@.len() == 0,
        r.support_summary_max_bytes == SUPPORT_SUMMARY_MAX_BYTES,
        r.support_summary_omitted_count == 0,
        ({
            let full = empty_summary_json(DiagnosticHistoryState::LegacyUnknown, Some(legacy_reason(schema_version)), record_limit, byte_limit);
            r.support_summary@ == if byte_len(full) <= SUPPORT_SUMMARY_MAX_BYTES { full } else { unavailable_summary() }
        }),
        byte_len(r.support_summary@) <= SUPPORT_SUMMARY_MAX_BYTES,
{
    let mut reason = owned("bundle.schema_v");
    let v = u64_text(schema_version as u64);
    push_str(&mut reason, v.as_str());
    push_str(&mut reason, "_history_unavailable");
    proof {
        reveal_strlit("bundle.schema_v");
        reveal_strlit("_history_unavailable");
    }
    let (support_summary, omitted) = empty_support_summary(
        DiagnosticHistoryState::LegacyUnknown,
        Some(reason.as_str()),
        record_limit,
        byte_limit,
    );
    proof {
        reveal_strlit("{\n  \"schema\": \"antennabench_support_summary.v1\",\n  \"history\": {\"state\": \"unavailable\"},\n  \"privacy\": {\"redacted_by_default\": true}\n}");
        crate::text::lemma_byte_len_bound(unavailable_summary());
    }
    BundleDiagnosticsPresentation {
        history_state: DiagnosticHistoryState::LegacyUnknown,
        retained_count: 0,
        retention_omitted_count: 0,
        presentation_omitted_count: 0,
        context_omitted_count: 0,
        record_limit,
        byte_limit,
        reason_code: Some(reason),
        context_count: 0,
        diagnostics: Vec::new(),
        support_summary,
        support_summary_max_bytes: SUPPORT_SUMMARY_MAX_BYTES,
        support_summary_omitted_count: omitted,
    }
}

/// At most this many runtime contexts are presented.
pub const PRESENTED_CONTEXT_LIMIT: usize = 16;

/// The first position holding `id`, if any.
pub closed spec fn first_position(ids: Seq<Seq<char>>, id: Seq<char>) -> Option<int> {
    if exists|i: int| 0 <= i < ids.len() && ids[i] == id {
        Some(choose|i: int| 0 <= i < ids.len() && ids[i] == id && forall|k: int| 0 <= k < i ==> ids[k] != id)
    } else {
        None
    }
}

/// The positions of the runtime contexts presented: all of them when they
/// fit; otherwise the most recent ones, with the creating context taking
/// the oldest of those places when it is not among them.
pub open spec fn selected_contexts(ids: Seq<Seq<char>>, creator: Option<Seq<char>>) -> Seq<int> {
    let n = ids.len() as int;
    let limit = PRESENTED_CONTEXT_LIMIT as int;
    if n <= limit {
        Seq::new(n as nat, |i: int| i)
    } else {
        let recent = Seq::new(limit as nat, |i: int| n - limit + i);
        match creator {
            Some(c) => match first_position(ids, c) {
                Some(f) => if exists|j: int| n - limit <= j < n && ids[j] == c {
                    recent
                } else {
                    seq![f] + Seq::new((limit - 1) as nat, |i: int| n - limit + 1 + i)
                },
                None => recent,
            },
            None => recent,
        }
    }
}

pub proof fn lemma_first_position(ids: Seq<Seq<char>>, id: Seq<char>, f: int)
    requires
        0 <= f < ids.len(),
        ids[f] == id,
        forall|k: int| 0 <= k < f ==> ids[k] != id,
    ensures
        first_position(ids, id) == Some(f),
{
    let g = choose|i: int| 0 <= i < ids.len() && ids[i] == id && forall|k: int| 0 <= k < i ==> ids[k] != id;
    assert(0 <= g < ids.len() && ids[g] == id && forall|k: int| 0 <= k < g ==> ids[k] != id);
    if g < f {
        assert(ids[g] != id);
    }
    if f < g {
        assert(ids[f] != id);
    }
}

/// A recorded identifier has a first position, which holds it.
pub proof fn lemma_first_position_exists(ids: Seq<Seq<char>>, id: Seq<char>, i: int)
    requires
        0 <= i < ids.len(),
        ids[i] == id,
    ensures
        first_position(ids, id) matches Some(f) && 0 <= f <= i && ids[f] == id,
    decreases i,
{
    if exists|k: int| 0 <= k < i && ids[k] == id {
        let k = choose|k: int| 0 <= k < i && ids[k] == id;
        lemma_first_position_exists(ids, id, k);
    } else {
        lemma_first_position(ids, id, i);
    }
}

/// The positions of the runtime contexts to present, given their
/// identifiers in recording order and the creating context's identifier.
pub fn select_contexts(context_ids: &Vec<String>, creator_id: Option<&str>) -> (r: Vec<usize>)
    ensures
        r@.map_values(|i: usize| i as int) == selected_contexts(
            crate::control_model::strs_view(context_ids@),
            match creator_id { Some(c) => Some(c@), None => None },
        ),
{
    let ghost ids = crate::control_model::strs_view(context_ids@);
    let ghost creator = match creator_id { Some(c) => Some(c@), None => None::<Seq<char>> };
    let n = context_ids.len();
    assert(ids.len() == n);
    let mut selected: Vec<usize> = Vec::new();
    if n <= PRESENTED_CONTEXT_LIMIT {
        let mut i: usize = 0;
        while i < n
            invariant
                i <= n,
                selected@.len() == i,
                forall|k: int| 0 <= k < i ==> selected@[k] == k,
            decreases n - i,
        {
            selected.push(i);
            i = i + 1;
        }
        assert(selected@.map_values(|i: usize| i as int) =~= selected_contexts(ids, creator));
        return selected;
    }
    let start = n - PRESENTED_CONTEXT_LIMIT;
    let ghost recent = Seq::new(PRESENTED_CONTEXT_LIMIT as nat, |i: int| start + i);
    let mut found: Option<usize> = None;
    let mut in_recent = false;
    match creator_id {
        Some(c) => {
            let mut i: usize = 0;
            while i < n
                invariant
                    i <= n,
                    n == context_ids@.len(),
                    ids == crate::control_model::strs_view(context_ids@),
                    match found {
                        None => forall|k: int| 0 <= k < i ==> ids[k] != c@,
                        Some(f) => f < i && ids[f as int] == c@ && forall|k: int| 0 <= k < f ==> ids[k] != c@,
                    },
                    in_recent == exists|j: int| start <= j < i && ids[j] == c@,
                decreases n - i,
            {
                let same = crate::text::str_eq(context_ids[i].as_str(), c);
                assert(ids[i as int] == context_ids@[i as int]@);
                if same {
                    if found.is_none() {
                        found = Some(i);
                    }
                    if i >= start {
                        in_recent = true;
                    }
                }
                i = i + 1;
            }
            match found {
                Some(f) => proof { lemma_first_position(ids, c@, f as int); },
                None => {
                    assert(!(exists|i: int| 0 <= i < ids.len() && ids[i] == c@));
                },
            }
            assert(creator == Some(c@));
            assert(found matches Some(f) ==> first_position(ids, c@) == Some(f as int));
            assert(found is None ==> first_position(ids, c@) is None);
        },
        None => {},
    }
    assert(found matches Some(f) ==> (creator matches Some(cc) && first_position(ids, cc) == Some(f as int)
        && (in_recent == exists|j: int| start <= j < n && ids[j] == cc)));
    assert(found is None ==> (creator is None || (creator matches Some(cc) && first_position(ids, cc) is None)));
    let replace = match found {
        Some(_) => !in_recent,
        None => false,
    };
    let mut i: usize = if replace { start + 1 } else { start };
    match found {
        Some(f) => if replace {
            selected.push(f);
        },
        None => {},
    }
    let ghost prefix = selected@.map_values(|i: usize| i as int);
    let ghost base = i;
    while i < n
        invariant
            start < base <= start + 1 || base == start,
            base <= i <= n,
            start + PRESENTED_CONTEXT_LIMIT == n,
            selected@.len() == prefix.len() + (i - base),
            selected@.map_values(|i: usize| i as int).take(prefix.len() as int) == prefix,
            forall|k: int| prefix.len() <= k < selected@.len() ==> selected@[k] == base + (k - prefix.len()),
        decreases n - i,
    {
        let ghost before = selected@;
        selected.push(i);
        assert(selected@.map_values(|i: usize| i as int).take(prefix.len() as int) =~= before.map_values(|i: usize| i as int).take(prefix.len() as int));
        i = i + 1;
    }
    proof {
        let out = selected@.map_values(|i: usize| i as int);
        let expected = selected_contexts(ids, creator);
        if replace {
            assert(prefix.len() == 1);
            assert(prefix[0] == found.unwrap() as int);
            assert(out.take(1) == prefix);
            assert(out[0] == prefix[0]);
            assert(out =~= expected);
        } else {
            assert(prefix.len() == 0);
            assert(out =~= expected);
        }
    }
    selected
}

/// The machine name of a failure phase.
pub open spec fn phase_name(p: crate::operation_diagnostics::DiagnosticPhase) -> Seq<char> {
    match p {
        crate::operation_diagnostics::DiagnosticPhase::Admission => "admission"@,
        crate::operation_diagnostics::DiagnosticPhase::Acquire => "acquire"@,
        crate::operation_diagnostics::DiagnosticPhase::Checkpoint => "checkpoint"@,
        crate::operation_diagnostics::DiagnosticPhase::Render => "render"@,
        crate::operation_diagnostics::DiagnosticPhase::WriteDestination => "write_destination"@,
    }
}

fn phase_text(p: crate::operation_diagnostics::DiagnosticPhase) -> (r: String)
    ensures
        r@ == phase_name(p),
{
    proof {
        reveal_strlit("admission");
        reveal_strlit("acquire");
        reveal_strlit("checkpoint");
        reveal_strlit("render");
        reveal_strlit("write_destination");
    }
    owned(match p {
        crate::operation_diagnostics::DiagnosticPhase::Admission => "admission",
        crate::operation_diagnostics::DiagnosticPhase::Acquire => "acquire",
        crate::operation_diagnostics::DiagnosticPhase::Checkpoint => "checkpoint",
        crate::operation_diagnostics::DiagnosticPhase::Render => "render",
        crate::operation_diagnostics::DiagnosticPhase::WriteDestination => "write_destination",
    })
}

/// The recorded instants of a fact value chrono can hold.
pub open spec fn fact_value_representable(v: DiagnosticFactValue) -> bool {
    v matches DiagnosticFactValue::TimestampMs(t) ==> representable_instant(t)
}

/// The text a fact value is shown as.
pub open spec fn fact_value_text(v: DiagnosticFactValue) -> Seq<char> {
    match v {
        DiagnosticFactValue::Bool(b) => if b { "true"@ } else { "false"@ },
        DiagnosticFactValue::I64(n) => dec_signed(n as int),
        DiagnosticFactValue::U64(n) => dec(n as nat),
        DiagnosticFactValue::TimestampMs(t) => utc_rfc3339_text(t),
        DiagnosticFactValue::Enum(s) => s@,
        DiagnosticFactValue::Identifier(s) => s@,
    }
}

/// The text a fact value is shown as.
pub fn present_fact_value(v: &DiagnosticFactValue) -> (r: String)
    requires
        fact_value_representable(*v),
    ensures
        r@ == fact_value_text(*v),
{
    proof {
        reveal_strlit("true");
        reveal_strlit("false");
    }
    match v {
        DiagnosticFactValue::Bool(b) => owned(if *b { "true" } else { "false" }),
        DiagnosticFactValue::I64(n) => i64_text(*n),
        DiagnosticFactValue::U64(n) => u64_text(*n),
        DiagnosticFactValue::TimestampMs(t) => rfc3339_text(*t),
        DiagnosticFactValue::Enum(s) => s.clone(),
        DiagnosticFactValue::Identifier(s) => s.clone(),
    }
}

/// The text a target is shown as.
pub open spec fn target_text(t: DiagnosticTarget) -> Seq<char> {
    match t {
        DiagnosticTarget::Adapter { id } => "adapter: "@ + id@,
        DiagnosticTarget::Source { id } => "source: "@ + id@,
        DiagnosticTarget::Mutation { id } => "mutation: "@ + id@,
        DiagnosticTarget::Record { id } => "record: "@ + id@,
        DiagnosticTarget::Slot { id } => "slot: "@ + id@,
        DiagnosticTarget::Intent { id } => "intent: "@ + id@,
        DiagnosticTarget::AcquisitionWindow { start_ms, end_ms } => "window: "@ + utc_rfc3339_text(start_ms) + " to "@
            + utc_rfc3339_text(end_ms),
    }
}

/// The text a target is shown as; an acquisition window is named by its
/// bounds.
pub fn present_target(t: &DiagnosticTarget) -> (r: String)
    requires
        (*t) matches DiagnosticTarget::AcquisitionWindow { start_ms, end_ms } ==> representable_instant(start_ms)
            && representable_instant(end_ms),
    ensures
        r@ == target_text(*t),
{
    proof {
        reveal_strlit("adapter: ");
        reveal_strlit("source: ");
        reveal_strlit("mutation: ");
        reveal_strlit("record: ");
        reveal_strlit("slot: ");
        reveal_strlit("intent: ");
        reveal_strlit("window: ");
        reveal_strlit(" to ");
    }
    let (label, id) = match t {
        DiagnosticTarget::Adapter { id } => ("adapter: ", id),
        DiagnosticTarget::Source { id } => ("source: ", id),
        DiagnosticTarget::Mutation { id } => ("mutation: ", id),
        DiagnosticTarget::Record { id } => ("record: ", id),
        DiagnosticTarget::Slot { id } => ("slot: ", id),
        DiagnosticTarget::Intent { id } => ("intent: ", id),
        DiagnosticTarget::AcquisitionWindow { start_ms, end_ms } => {
            let mut out = owned("window: ");
            push_str(&mut out, rfc3339_text(*start_ms).as_str());
            push_str(&mut out, " to ");
            push_str(&mut out, rfc3339_text(*end_ms).as_str());
            return out;
        },
    };
    let mut out = owned(label);
    push_str(&mut out, id.as_str());
    out
}

/// A fact shown as `name=value`.
pub open spec fn fact_text(f: DiagnosticFact) -> Seq<char> {
    f.name@ + "="@ + fact_value_text(f.value)
}

/// The texts joined with a separator.
pub open spec fn joined(parts: Seq<Seq<char>>, sep: Seq<char>) -> Seq<char>
    decreases parts.len(),
{
    if parts.len() == 0 {
        Seq::empty()
    } else if parts.len() == 1 {
        parts[0]
    } else {
        joined(parts.drop_last(), sep) + sep + parts.last()
    }
}

/// The facts of a cause are all shown as text.
pub open spec fn facts_representable(facts: Seq<DiagnosticFact>) -> bool {
    forall|i: int| 0 <= i < facts.len() ==> fact_value_representable((#[trigger] facts[i]).value)
}

/// The text a cause is shown as: its code and phase, then its facts.
pub open spec fn cause_text(c: DiagnosticCause) -> Seq<char> {
    let head = c.code@ + " ("@ + phase_name(c.phase) + ")"@;
    if c.facts@.len() == 0 {
        head
    } else {
        head + " \u{b7} "@ + joined(c.facts@.map_values(|f: DiagnosticFact| fact_text(f)), ", "@)
    }
}

fn fact_texts(facts: &Vec<DiagnosticFact>, keep_identifiers: bool) -> (r: Vec<String>)
    requires
        facts_representable(facts@),
    ensures
        keep_identifiers ==> texts(r@) == facts@.map_values(|f: DiagnosticFact| fact_text(f)),
        !keep_identifiers ==> texts(r@) == safe_fact_texts(facts@),
{
    proof {
        reveal_strlit("=");
    }
    let mut out: Vec<String> = Vec::new();
    for i in 0..facts.len()
        invariant
            facts_representable(facts@),
            keep_identifiers ==> texts(out@) == facts@.take(i as int).map_values(|f: DiagnosticFact| fact_text(f)),
            !keep_identifiers ==> texts(out@) == safe_fact_texts(facts@.take(i as int)),
    {
        let f = &facts[i];
        proof {
            assert(facts@.take(i + 1).drop_last() =~= facts@.take(i as int));
            assert(facts@.take(i + 1).last() == facts@[i as int]);
            assert(fact_value_representable(facts@[i as int].value));
        }
        let identifier = match &f.value {
            DiagnosticFactValue::Identifier(_) => true,
            _ => false,
        };
        if keep_identifiers || !identifier {
            let mut t = owned(f.name.as_str());
            push_str(&mut t, "=");
            push_str(&mut t, present_fact_value(&f.value).as_str());
            proof {
                assert(texts(out@.push(t)) =~= texts(out@).push(t@));
                assert(facts@.take(i + 1).map_values(|f: DiagnosticFact| fact_text(f)) =~= facts@.take(i as int).map_values(
                    |f: DiagnosticFact| fact_text(f),
                ).push(fact_text(*f)));
            }
            out.push(t);
        } else {
            proof {
                assert(facts@.take(i + 1).map_values(|f: DiagnosticFact| fact_text(f)) =~= facts@.take(i as int).map_values(
                    |f: DiagnosticFact| fact_text(f),
                ).push(fact_text(*f)));
            }
        }
    }
    assert(facts@.take(facts@.len() as int) =~= facts@);
    out
}

/// The facts a support summary may show: all but identifiers, as text.
pub open spec fn safe_fact_texts(facts: Seq<DiagnosticFact>) -> Seq<Seq<char>>
    decreases facts.len(),
{
    if facts.len() == 0 {
        Seq::empty()
    } else {
        let rest = safe_fact_texts(facts.drop_last());
        if facts.last().value is Identifier {
            rest
        } else {
            rest.push(fact_text(facts.last()))
        }
    }
}

fn join_texts(parts: &Vec<String>, sep: &str) -> (r: String)
    ensures
        r@ == joined(texts(parts@), sep@),
{
    let mut out = String::new();
    for i in 0..parts.len()
        invariant
            out@ == joined(texts(parts@).take(i as int), sep@),
    {
        proof {
            assert(texts(parts@).take(i + 1).drop_last() =~= texts(parts@).take(i as int));
            assert(texts(parts@).take(i + 1).last() == parts@[i as int]@);
        }
        if i > 0 {
            push_str(&mut out, sep);
        } else {
            assert(texts(parts@).take(0) =~= Seq::<Seq<char>>::empty());
            assert(out@ =~= Seq::<char>::empty());
        }
        push_str(&mut out, parts[i].as_str());
    }
    assert(texts(parts@).take(parts@.len() as int) =~= texts(parts@));
    out
}

/// The text a cause is shown as.
pub fn present_cause(c: &DiagnosticCause) -> (r: String)
    requires
        facts_representable(c.facts@),
    ensures
        r@ == cause_text(*c),
{
    proof {
        reveal_strlit(" (");
        reveal_strlit(")");
        reveal_strlit(" \u{b7} ");
        reveal_strlit(", ");
    }
    let mut out = owned(c.code.as_str());
    push_str(&mut out, " (");
    push_str(&mut out, phase_text(c.phase).as_str());
    push_str(&mut out, ")");
    if c.facts.len() > 0 {
        let facts = fact_texts(&c.facts, true);
        push_str(&mut out, " \u{b7} ");
        push_str(&mut out, join_texts(&facts, ", ").as_str());
    }
    out
}

/// A cause as a support summary may show it: its code and phase name, and
/// its facts other than identifiers.
pub fn safe_support_cause(c: &DiagnosticCause) -> (r: SafeSupportCause)
    requires
        facts_representable(c.facts@),
    ensures
        r.code@ == c.code@,
        r.phase@ == phase_name(c.phase),
        texts(r.facts@) == safe_fact_texts(c.facts@),
{
    SafeSupportCause { code: c.code.clone(), phase: phase_text(c.phase), facts: fact_texts(&c.facts, false) }
}

} // verus!
