//! Failed operations recorded as operational diagnostics: the retry
//! guidance a failure kind earns, the summary of each operation, and the
//! record appended to a current session's diagnostic history.

use vstd::prelude::*;

use crate::desktop::DesktopState;
use crate::errors::{OperationErrorDetail, SessionErrorKind, SessionErrorPayload};
use crate::text::owned;

verus! {

/// The schema version from which sessions keep an operational history.
pub const DIAGNOSTIC_SCHEMA_VERSION: u16 = 6;

/// The operation that failed.
#[derive(Debug, Clone, Copy, PartialEq, Eq, Structural)]
pub enum DiagnosticOperation {
    SessionMutation,
    CheckpointRecovery,
    WsprLiveAcquisition,
    AdapterFileImport,
    WsjtxIntake,
    AntennaControllerAttach,
    AntennaControllerSwitch,
    AntennaControllerVerify,
    ReportRender,
    ReportExport,
    BundleExport,
}

/// Where in the operation it failed.
#[derive(Debug, Clone, Copy, PartialEq, Eq, Structural)]
pub enum DiagnosticPhase {
    Admission,
    Acquire,
    Checkpoint,
    Render,
    WriteDestination,
}

/// What the failure left of the evidence.
#[derive(Debug, Clone, Copy, PartialEq, Eq, Structural)]
pub enum EvidenceEffect {
    NoneCommitted,
    EarlierEvidenceRetained,
    PrimaryEvidenceCommitted,
}

/// Whether retrying can help.
#[derive(Debug, Clone, Copy, PartialEq, Eq, Structural)]
pub enum RetryDisposition {
    Retryable,
    RequiresStateChange,
    RequiresInputChange,
    NotRetryable,
}

/// The retry guidance recorded with a failure.
#[derive(Debug, Clone, PartialEq, Eq)]
pub struct DiagnosticRetry {
    pub disposition: RetryDisposition,
    pub guidance_code: String,
}

/// What a diagnostic is about.
#[derive(Debug, Clone, PartialEq, Eq)]
pub enum DiagnosticTarget {
    Adapter { id: String },
    Source { id: String },
    Mutation { id: String },
    Record { id: String },
    Slot { id: String },
    Intent { id: String },
    AcquisitionWindow { start_ms: i64, end_ms: i64 },
}

/// The value of a recorded fact.
#[derive(Debug, Clone, PartialEq, Eq)]
pub enum DiagnosticFactValue {
    Bool(bool),
    I64(i64),
    U64(u64),
    TimestampMs(i64),
    Enum(String),
    Identifier(String),
}

/// A named fact of a cause.
#[derive(Debug, Clone, PartialEq, Eq)]
pub struct DiagnosticFact {
    pub name: String,
    pub value: DiagnosticFactValue,
}

/// The cause of a failure.
#[derive(Debug, Clone, PartialEq, Eq)]
pub struct DiagnosticCause {
    pub code: String,
    pub phase: DiagnosticPhase,
    pub facts: Vec<DiagnosticFact>,
}

/// The outcome of a recorded operation.
#[derive(Debug, Clone, Copy, PartialEq, Eq, Structural)]
pub enum DiagnosticOutcome {
    Failed,
}

/// How severe a recorded outcome is.
#[derive(Debug, Clone, Copy, PartialEq, Eq, Structural)]
pub enum DiagnosticSeverity {
    Error,
}

/// A failure diagnostic as appended to a session's operational history.
#[derive(Debug, Clone, PartialEq, Eq)]
pub struct FailureDiagnostic {
    pub diagnostic_id: String,
    pub correlation_id: String,
    pub attempt_id: String,
    pub occurred_at_ms: i64,
    pub operation: DiagnosticOperation,
    pub phase: DiagnosticPhase,
    pub code: String,
    pub summary: String,
    pub outcome: DiagnosticOutcome,
    pub severity: DiagnosticSeverity,
    pub revision: u64,
    pub evidence_effect: EvidenceEffect,
    pub retry: DiagnosticRetry,
    pub targets: Vec<DiagnosticTarget>,
    pub causes: Vec<DiagnosticCause>,
}

/// The retry disposition a failure kind earns.
pub open spec fn retry_disposition(kind: SessionErrorKind) -> RetryDisposition {
    match kind {
        SessionErrorKind::StaleRevision | SessionErrorKind::Conflict => RetryDisposition::RequiresStateChange,
        SessionErrorKind::Validation | SessionErrorKind::Resource => RetryDisposition::RequiresInputChange,
        SessionErrorKind::Unsupported => RetryDisposition::NotRetryable,
        _ => RetryDisposition::Retryable,
    }
}

/// The guidance code of a retry disposition.
pub open spec fn guidance_code(d: RetryDisposition) -> Seq<char> {
    match d {
        RetryDisposition::RequiresStateChange => "refresh_state_then_retry"@,
        RetryDisposition::RequiresInputChange => "change_input_profile_or_code"@,
        RetryDisposition::NotRetryable => "operation_not_supported"@,
        RetryDisposition::Retryable => "retry_when_condition_clears"@,
    }
}

/// The retry guidance recorded for a failure of this kind.
pub fn retry_for(kind: SessionErrorKind) -> (r: DiagnosticRetry)
    ensures
        r.disposition == retry_disposition(kind),
        r.guidance_code@ == guidance_code(r.disposition),
{
    proof {
        reveal_strlit("refresh_state_then_retry");
        reveal_strlit("change_input_profile_or_code");
        reveal_strlit("operation_not_supported");
        reveal_strlit("retry_when_condition_clears");
    }
    let (disposition, code) = match kind {
        SessionErrorKind::StaleRevision | SessionErrorKind::Conflict => (
            RetryDisposition::RequiresStateChange,
            "refresh_state_then_retry",
        ),
        SessionErrorKind::Validation | SessionErrorKind::Resource => (
            RetryDisposition::RequiresInputChange,
            "change_input_profile_or_code",
        ),
        SessionErrorKind::Unsupported => (RetryDisposition::NotRetryable, "operation_not_supported"),
        _ => (RetryDisposition::Retryable, "retry_when_condition_clears"),
    };
    DiagnosticRetry { disposition, guidance_code: owned(code) }
}

/// The operator-facing summary of a failed operation.
pub open spec fn operation_summary(operation: DiagnosticOperation) -> Seq<char> {
    match operation {
        DiagnosticOperation::SessionMutation => "A session mutation did not commit."@,
        DiagnosticOperation::CheckpointRecovery => "Checkpoint recovery did not complete."@,
        DiagnosticOperation::WsprLiveAcquisition => "WSPR.live acquisition did not complete."@,
        DiagnosticOperation::AdapterFileImport => "A file import did not complete."@,
        DiagnosticOperation::WsjtxIntake => "WSJT-X intake did not complete."@,
        DiagnosticOperation::AntennaControllerAttach => "Controller attachment did not complete."@,
        DiagnosticOperation::AntennaControllerSwitch => "Controller switching did not complete."@,
        DiagnosticOperation::AntennaControllerVerify => "Controller verification did not complete."@,
        DiagnosticOperation::ReportRender => "Report rendering did not complete."@,
        DiagnosticOperation::ReportExport => "Report export did not complete."@,
        DiagnosticOperation::BundleExport => "Bundle export did not complete."@,
    }
}

/// The summary recorded for a failed operation.
pub fn summary_for(operation: DiagnosticOperation) -> (r: &'static str)
    ensures
        r@ == operation_summary(operation),
{
    proof {
        reveal_strlit("A session mutation did not commit.");
        reveal_strlit("Checkpoint recovery did not complete.");
        reveal_strlit("WSPR.live acquisition did not complete.");
        reveal_strlit("A file import did not complete.");
        reveal_strlit("WSJT-X intake did not complete.");
        reveal_strlit("Controller attachment did not complete.");
        reveal_strlit("Controller switching did not complete.");
        reveal_strlit("Controller verification did not complete.");
        reveal_strlit("Report rendering did not complete.");
        reveal_strlit("Report export did not complete.");
        reveal_strlit("Bundle export did not complete.");
    }
    match operation {
        DiagnosticOperation::SessionMutation => "A session mutation did not commit.",
        DiagnosticOperation::CheckpointRecovery => "Checkpoint recovery did not complete.",
        DiagnosticOperation::WsprLiveAcquisition => "WSPR.live acquisition did not complete.",
        DiagnosticOperation::AdapterFileImport => "A file import did not complete.",
        DiagnosticOperation::WsjtxIntake => "WSJT-X intake did not complete.",
        DiagnosticOperation::AntennaControllerAttach => "Controller attachment did not complete.",
        DiagnosticOperation::AntennaControllerSwitch => "Controller switching did not complete.",
        DiagnosticOperation::AntennaControllerVerify => "Controller verification did not complete.",
        DiagnosticOperation::ReportRender => "Report rendering did not complete.",
        DiagnosticOperation::ReportExport => "Report export did not complete.",
        DiagnosticOperation::BundleExport => "Bundle export did not complete.",
    }
}

/// The facts a failure's operation detail contributes: its stage, then the
/// observed amount and the limit where the detail has them.
pub open spec fn detail_facts(detail: Option<Box<OperationErrorDetail>>) -> Seq<(Seq<char>, DiagnosticFactValue)> {
    match detail {
        None => Seq::empty(),
        Some(d) => seq![("stage"@, DiagnosticFactValue::Enum(d.stage))] + match d.observed {
            Some(o) => seq![("observed"@, DiagnosticFactValue::U64(o))],
            None => Seq::empty(),
        } + match d.limit {
            Some(l) => seq![("limit"@, DiagnosticFactValue::U64(l))],
            None => Seq::empty(),
        },
    }
}

/// The names and values of recorded facts.
pub open spec fn facts_view(facts: Seq<DiagnosticFact>) -> Seq<(Seq<char>, DiagnosticFactValue)> {
    facts.map_values(|f: DiagnosticFact| (f.name@, f.value))
}

fn push_fact(facts: &mut Vec<DiagnosticFact>, name: &str, value: DiagnosticFactValue)
    ensures
        facts_view(final(facts)@) == facts_view(old(facts)@).push((name@, value)),
{
    let ghost before = facts@;
    facts.push(DiagnosticFact { name: owned(name), value });
    assert(facts_view(facts@) =~= facts_view(before).push((name@, value)));
}

/// The facts recorded for a failure's operation detail.
pub fn failure_facts(detail: &Option<Box<OperationErrorDetail>>) -> (r: Vec<DiagnosticFact>)
    ensures
        facts_view(r@) == detail_facts(*detail),
{
    let mut facts: Vec<DiagnosticFact> = Vec::new();
    proof {
        reveal_strlit("stage");
        reveal_strlit("observed");
        reveal_strlit("limit");
    }
    assert(facts_view(facts@) =~= Seq::<(Seq<char>, DiagnosticFactValue)>::empty());
    match detail {
        None => {},
        Some(d) => {
            push_fact(&mut facts, "stage", DiagnosticFactValue::Enum(d.stage.clone()));
            let ghost staged = facts_view(facts@);
            assert(staged =~= seq![("stage"@, DiagnosticFactValue::Enum(d.stage))]);
            match d.observed {
                Some(o) => push_fact(&mut facts, "observed", DiagnosticFactValue::U64(o)),
                None => {},
            }
            let ghost observed = facts_view(facts@);
            assert(observed =~= staged + match d.observed {
                Some(o) => seq![("observed"@, DiagnosticFactValue::U64(o))],
                None => Seq::empty(),
            });
            match d.limit {
                Some(l) => push_fact(&mut facts, "limit", DiagnosticFactValue::U64(l)),
                None => {},
            }
            assert(facts_view(facts@) =~= observed + match d.limit {
                Some(l) => seq![("limit"@, DiagnosticFactValue::U64(l))],
                None => Seq::empty(),
            });
        },
    }
    facts
}

/// The code a failure is recorded under: the operation detail's code, or
/// the caller's fallback.
pub open spec fn failure_code(payload: SessionErrorPayload, fallback_code: Seq<char>) -> Seq<char> {
    match payload.operation {
        Some(d) => d.code@,
        None => fallback_code,
    }
}

/// A record is the failure diagnostic of `payload` for this operation,
/// phase, evidence effect and targets, at the given revision, time and
/// allocated identities.
pub open spec fn is_failure_record(
    d: FailureDiagnostic,
    attempt_id: Seq<char>,
    diagnostic_id: Seq<char>,
    correlation_id: Seq<char>,
    occurred_at_ms: i64,
    revision: u64,
    operation: DiagnosticOperation,
    phase: DiagnosticPhase,
    fallback_code: Seq<char>,
    evidence_effect: EvidenceEffect,
    targets: Seq<DiagnosticTarget>,
    payload: SessionErrorPayload,
) -> bool {
    &&& d.attempt_id@ == attempt_id
    &&& d.diagnostic_id@ == diagnostic_id
    &&& d.correlation_id@ == correlation_id
    &&& d.occurred_at_ms == occurred_at_ms
    &&& d.revision == revision
    &&& d.operation == operation
    &&& d.phase == phase
    &&& d.code@ == failure_code(payload, fallback_code)
    &&& d.summary@ == operation_summary(operation)
    &&& d.outcome == DiagnosticOutcome::Failed
    &&& d.severity == DiagnosticSeverity::Error
    &&& d.evidence_effect == evidence_effect
    &&& d.retry.disposition == retry_disposition(payload.kind)
    &&& d.retry.guidance_code@ == guidance_code(d.retry.disposition)
    &&& d.targets@ == targets
    &&& d.causes@.len() == 1
    &&& d.causes@[0].code@ == failure_code(payload, fallback_code)
    &&& d.causes@[0].phase == phase
    &&& facts_view(d.causes@[0].facts@) == detail_facts(payload.operation)
}

/// The payload now says its failure was recorded under `id`.
pub open spec fn recorded_as(r: SessionErrorPayload, payload: SessionErrorPayload, id: Option<String>) -> bool {
    &&& r.kind == payload.kind
    &&& r.message@ == payload.message@
    &&& r.detail@ == payload.detail@
    &&& r.operation == payload.operation
    &&& r.diagnostic_persistence matches Some(p) && p.status@ == "persisted"@ && p.diagnostic_id == id && p.reason_code is None
}

/// The payload now says its failure could not be recorded, and why.
pub open spec fn not_recorded(r: SessionErrorPayload, payload: SessionErrorPayload, reason: Seq<char>) -> bool {
    &&& r.kind == payload.kind
    &&& r.message@ == payload.message@
    &&& r.detail@ == payload.detail@
    &&& r.operation == payload.operation
    &&& r.diagnostic_persistence matches Some(p) && p.status@ == "not_persisted"@ && p.diagnostic_id is None
        && (p.reason_code matches Some(c) && c@ == reason)
}

/// Records a failure in the operational history of the session whose
/// writer stands at `schema_version` and `revision`. A payload already
/// recorded, or a session without an operational history, is returned as
/// it is. Otherwise identities are drawn from `allocate` (an attempt, the
/// diagnostic, its correlation, then the mutation), the failure record is
/// handed to `append` with the mutation identity, stamped `occurred_at_ms`,
/// and the payload says whether it was recorded: with the receipt's
/// diagnostic identity, or as not persisted.
pub fn persist_failure_with_writer<
    A: Fn(&str) -> String,
    W: FnOnce(u64, String, FailureDiagnostic) -> Result<Option<String>, ()>,
>(
    schema_version: u16,
    revision: u64,
    occurred_at_ms: i64,
    allocate: A,
    append: W,
    operation: DiagnosticOperation,
    phase: DiagnosticPhase,
    fallback_code: &str,
    evidence_effect: EvidenceEffect,
    targets: Vec<DiagnosticTarget>,
    payload: SessionErrorPayload,
) -> (r: SessionErrorPayload)
    requires
        forall|prefix: &str| call_requires(allocate, (prefix,)),
        forall|m: u64, id: String, d: FailureDiagnostic| call_requires(append, (m, id, d)),
    ensures
        payload.diagnostic_persistence is Some || schema_version != DIAGNOSTIC_SCHEMA_VERSION ==> r == payload,
        payload.diagnostic_persistence is None && schema_version == DIAGNOSTIC_SCHEMA_VERSION ==> exists|
            attempt: String,
            diagnostic: String,
            correlation: String,
            mutation: String,
            record: FailureDiagnostic,
            receipt: Result<Option<String>, ()>,
        | {
            &&& call_ensures(allocate, ("diagnostic-attempt",), attempt)
            &&& call_ensures(allocate, ("diagnostic",), diagnostic)
            &&& call_ensures(allocate, ("diagnostic-operation",), correlation)
            &&& call_ensures(allocate, ("diagnostic-mutation",), mutation)
            &&& is_failure_record(
                record,
                attempt@,
                diagnostic@,
                correlation@,
                occurred_at_ms,
                revision,
                operation,
                phase,
                fallback_code@,
                evidence_effect,
                targets@,
                payload,
            )
            &&& call_ensures(append, (revision, mutation, record), receipt)
            &&& match receipt {
                Ok(id) => recorded_as(r, payload, id),
                Err(_) => not_recorded(r, payload, "diagnostic.persistence_failed"@),
            }
        },
{
    if payload.diagnostic_persistence.is_some() {
        return payload;
    }
    if schema_version != DIAGNOSTIC_SCHEMA_VERSION {
        return payload;
    }
    let code = match &payload.operation {
        Some(d) => owned(d.code.as_str()),
        None => owned(fallback_code),
    };
    let attempt_id = allocate("diagnostic-attempt");
    let retry = retry_for(payload.kind);
    let facts = failure_facts(&payload.operation);
    let diagnostic_id = allocate("diagnostic");
    let correlation_id = allocate("diagnostic-operation");
    let ghost attempt = attempt_id;
    let ghost diagnostic = diagnostic_id;
    let ghost correlation = correlation_id;
    let mut causes: Vec<DiagnosticCause> = Vec::new();
    causes.push(DiagnosticCause { code: owned(code.as_str()), phase, facts });
    let record = FailureDiagnostic {
        diagnostic_id,
        correlation_id,
        attempt_id,
        occurred_at_ms,
        operation,
        phase,
        code,
        summary: owned(summary_for(operation)),
        outcome: DiagnosticOutcome::Failed,
        severity: DiagnosticSeverity::Error,
        revision,
        evidence_effect,
        retry,
        targets,
        causes,
    };
    let ghost appended = record;
    let mutation_id = allocate("diagnostic-mutation");
    let ghost mutation = mutation_id;
    let receipt = append(revision, mutation_id, record);
    proof {
        reveal_strlit("diagnostic.persistence_failed");
        reveal_strlit("persisted");
        reveal_strlit("not_persisted");
    }
    let r = match receipt {
        Ok(id) => payload.with_diagnostic_persisted(id),
        Err(_) => payload.with_diagnostic_not_persisted("diagnostic.persistence_failed"),
    };
    assert(is_failure_record(
        appended,
        attempt@,
        diagnostic@,
        correlation@,
        appended.occurred_at_ms,
        revision,
        operation,
        phase,
        fallback_code@,
        evidence_effect,
        targets@,
        payload,
    ));
    r
}

/// Records a failure of an operation on the active session in that
/// session's operational history: `persist` receives the session's source,
/// the operation, phase and fallback code, no committed evidence, no
/// targets, and the payload. Without an active session the payload is
/// returned as it is.
pub fn persist_active_operation_failure<
    P: FnOnce(String, DiagnosticOperation, DiagnosticPhase, &str, EvidenceEffect, Vec<DiagnosticTarget>, SessionErrorPayload) -> SessionErrorPayload,
>(
    state: &DesktopState,
    persist: P,
    operation: DiagnosticOperation,
    phase: DiagnosticPhase,
    code: &str,
    payload: SessionErrorPayload,
) -> (r: SessionErrorPayload)
    requires
        forall|s: String, t: Vec<DiagnosticTarget>, p: SessionErrorPayload|
            call_requires(persist, (s, operation, phase, code, EvidenceEffect::NoneCommitted, t, p)),
    ensures
        state.active is None ==> r == payload,
        state.active matches Some(a) ==> exists|source: String, targets: Vec<DiagnosticTarget>| {
            &&& source@ == a.source@
            &&& targets@.len() == 0
            &&& call_ensures(persist, (source, operation, phase, code, EvidenceEffect::NoneCommitted, targets, payload), r)
        },
{
    let source = match state.active_session_source() {
        Ok((source, _)) => source,
        Err(_) => return payload,
    };
    let targets: Vec<DiagnosticTarget> = Vec::new();
    let ghost handed = (source, targets);
    let r = persist(source, operation, phase, code, EvidenceEffect::NoneCommitted, targets, payload);
    assert(handed.1@.len() == 0);
    r
}

/// Records a failed report export of the active session.
pub fn persist_report_export_failure<
    P: FnOnce(String, DiagnosticOperation, DiagnosticPhase, &str, EvidenceEffect, Vec<DiagnosticTarget>, SessionErrorPayload) -> SessionErrorPayload,
>(state: &DesktopState, persist: P, payload: SessionErrorPayload) -> (r: SessionErrorPayload)
    requires
        forall|s: String, t: Vec<DiagnosticTarget>, p: SessionErrorPayload|
            call_requires(
                persist,
                (s, DiagnosticOperation::ReportExport, DiagnosticPhase::WriteDestination, "report.export_failed", EvidenceEffect::NoneCommitted, t, p),
            ),
    ensures
        state.active is None ==> r == payload,
        state.active matches Some(a) ==> exists|source: String, targets: Vec<DiagnosticTarget>| {
            &&& source@ == a.source@
            &&& targets@.len() == 0
            &&& call_ensures(
                persist,
                (source, DiagnosticOperation::ReportExport, DiagnosticPhase::WriteDestination, "report.export_failed", EvidenceEffect::NoneCommitted, targets, payload),
                r,
            )
        },
{
    persist_active_operation_failure(
        state,
        persist,
        DiagnosticOperation::ReportExport,
        DiagnosticPhase::WriteDestination,
        "report.export_failed",
        payload,
    )
}

/// The targets of a WSJT-X intake failure: the UDP source.
pub open spec fn wsjtx_targets(t: Seq<DiagnosticTarget>) -> bool {
    t.len() == 1 && (t[0] matches DiagnosticTarget::Source { id } && id@ == "wsjtx-udp"@)
}

fn wsjtx_source_targets() -> (r: Vec<DiagnosticTarget>)
    ensures
        wsjtx_targets(r@),
{
    proof {
        reveal_strlit("wsjtx-udp");
    }
    let mut targets: Vec<DiagnosticTarget> = Vec::new();
    targets.push(DiagnosticTarget::Source { id: owned("wsjtx-udp") });
    targets
}

/// Records a failure to start WSJT-X intake for the session at `source`.
pub fn persist_wsjtx_start_failure<
    P: FnOnce(&str, DiagnosticOperation, DiagnosticPhase, &str, EvidenceEffect, Vec<DiagnosticTarget>, SessionErrorPayload) -> SessionErrorPayload,
>(source: &str, persist: P, payload: SessionErrorPayload) -> (r: SessionErrorPayload)
    requires
        forall|t: Vec<DiagnosticTarget>, p: SessionErrorPayload|
            call_requires(
                persist,
                (source, DiagnosticOperation::WsjtxIntake, DiagnosticPhase::Admission, "wsjtx.intake_start_failed", EvidenceEffect::NoneCommitted, t, p),
            ),
    ensures
        exists|targets: Vec<DiagnosticTarget>| {
            &&& wsjtx_targets(targets@)
            &&& call_ensures(
                persist,
                (source, DiagnosticOperation::WsjtxIntake, DiagnosticPhase::Admission, "wsjtx.intake_start_failed", EvidenceEffect::NoneCommitted, targets, payload),
                r,
            )
        },
{
    let targets = wsjtx_source_targets();
    let ghost handed = targets;
    persist(
        source,
        DiagnosticOperation::WsjtxIntake,
        DiagnosticPhase::Admission,
        "wsjtx.intake_start_failed",
        EvidenceEffect::NoneCommitted,
        targets,
        payload,
    )
}

/// The message of a WSJT-X acquisition gap.
pub open spec fn gap_message(receiver_ended: bool) -> Seq<char> {
    if receiver_ended {
        "WSJT-X reception stopped after recording an acquisition gap."@
    } else {
        "WSJT-X intake stopped after recording an acquisition gap."@
    }
}

/// Records an acquisition gap of WSJT-X intake under `code` for the
/// session at `source`; the earlier evidence stays committed.
pub fn persist_wsjtx_gap<
    P: FnOnce(&str, DiagnosticOperation, DiagnosticPhase, &str, EvidenceEffect, Vec<DiagnosticTarget>, SessionErrorPayload) -> SessionErrorPayload,
>(source: &str, code: &str, receiver_ended: bool, persist: P)
    requires
        forall|t: Vec<DiagnosticTarget>, p: SessionErrorPayload|
            call_requires(
                persist,
                (source, DiagnosticOperation::WsjtxIntake, DiagnosticPhase::Acquire, "wsjtx.acquisition_gap", EvidenceEffect::EarlierEvidenceRetained, t, p),
            ),
    ensures
        exists|targets: Vec<DiagnosticTarget>, payload: SessionErrorPayload, out: SessionErrorPayload| {
            &&& wsjtx_targets(targets@)
            &&& payload.kind == SessionErrorKind::Resource
            &&& payload.message@ == gap_message(receiver_ended)
            &&& payload.detail@ == "the bounded acquisition gap remains in adapter evidence"@
            &&& payload.diagnostic_persistence is None
            &&& payload.operation matches Some(op) && op.code@ == code@ && op.stage@ == "acquire"@
                && op.observed is None && op.limit is None && op.unit is None
            &&& call_ensures(
                persist,
                (source, DiagnosticOperation::WsjtxIntake, DiagnosticPhase::Acquire, "wsjtx.acquisition_gap", EvidenceEffect::EarlierEvidenceRetained, targets, payload),
                out,
            )
        },
{
    let message = if receiver_ended {
        "WSJT-X reception stopped after recording an acquisition gap."
    } else {
        "WSJT-X intake stopped after recording an acquisition gap."
    };
    let payload = SessionErrorPayload::new(
        SessionErrorKind::Resource,
        message,
        "the bounded acquisition gap remains in adapter evidence",
    ).with_operation(code, "acquire");
    let targets = wsjtx_source_targets();
    let ghost handed = (targets, payload);
    let out = persist(
        source,
        DiagnosticOperation::WsjtxIntake,
        DiagnosticPhase::Acquire,
        "wsjtx.acquisition_gap",
        EvidenceEffect::EarlierEvidenceRetained,
        targets,
        payload,
    );
    proof {
        reveal_strlit("WSJT-X reception stopped after recording an acquisition gap.");
        reveal_strlit("WSJT-X intake stopped after recording an acquisition gap.");
    }
    assert(call_ensures(
        persist,
        (source, DiagnosticOperation::WsjtxIntake, DiagnosticPhase::Acquire, "wsjtx.acquisition_gap", EvidenceEffect::EarlierEvidenceRetained, handed.0, handed.1),
        out,
    ));
}

} // verus!
