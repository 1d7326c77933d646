use antennabench_desktop::desktop::{confirm_pending_report_export_with, ExportReportOutcome, PendingReportExport, ReportDestinationIdentity, ReportExportFormat};
use std::cell::Cell;
use std::cell::RefCell;

use antennabench_desktop::desktop::{
    with_suspended_foreground_operation, ActiveSession, DesktopState, OpenedSession, ReportPresentation,
};
use antennabench_desktop::diagnostics::select_contexts;
use antennabench_desktop::errors::{OperationErrorDetail, SessionErrorKind, SessionErrorPayload};
use antennabench_desktop::operation_diagnostics::{
    failure_facts, persist_active_operation_failure, persist_failure_with_writer, persist_report_export_failure,
    persist_wsjtx_gap, retry_for, summary_for, DiagnosticFactValue, DiagnosticOperation, DiagnosticPhase,
    DiagnosticTarget, EvidenceEffect, FailureDiagnostic, RetryDisposition,
};
use antennabench_desktop::refresh::refresh_active_session_report_for;

fn summary(revision: Option<u64>) -> OpenedSession {
    OpenedSession {
        bundle_name: "from-disk.session.antennabundle".into(),
        session_id: "session-1".into(),
        callsign: "N1RWJ".into(),
        grid: "FN42".into(),
        antenna_count: 2,
        slot_count: 6,
        observation_count: 12,
        schema_version: 6,
        revision,
        lifecycle: None,
        report_available: false,
    }
}

fn presentation(id: u64, revision: Option<u64>) -> ReportPresentation {
    ReportPresentation {
        presentation_id: id,
        session_id: "session-1".into(),
        revision,
        lifecycle: None,
        has_controller_evidence: false,
        report_html: format!("<p>revision {revision:?}</p>"),
        summary_html: "<h1>Summary</h1>".into(),
        compact_summary_html: "<p>compact</p>".into(),
        controller_omitted_report_html: None,
        operational_history_report_html: "<p>history</p>".into(),
        operational_history_controller_omitted_report_html: None,
    }
}

fn state_with(presentation_revision: Option<u64>) -> DesktopState {
    let mut state = DesktopState::default();
    let mut active_summary = summary(Some(1));
    active_summary.bundle_name = "active.session.antennabundle".into();
    state.active = Some(ActiveSession {
        source: "/sessions/active.session.antennabundle".into(),
        summary: active_summary,
        presentation: Some(presentation(4, presentation_revision)),
        retained_presentation: None,
    });
    state.next_presentation_id = 4;
    state
}

#[test]
fn refresh_keeps_a_presentation_that_already_matches() {
    let mut state = state_with(Some(7));
    let rendered = Cell::new(0);
    let refreshed = refresh_active_session_report_for(
        &mut state,
        || Ok(((), summary(Some(7)))),
        |_: &()| {
            rendered.set(rendered.get() + 1);
            Ok(presentation(0, Some(7)))
        },
    )
    .unwrap();
    assert_eq!(refreshed.presentation_id, 4);
    assert_eq!(rendered.get(), 0);
    assert_eq!(state.next_presentation_id, 4);
    assert!(!state.foreground_busy);
}

#[test]
fn refresh_publishes_a_new_presentation_under_the_next_identity() {
    let mut state = state_with(Some(6));
    let refreshed = refresh_active_session_report_for(
        &mut state,
        || Ok(((), summary(Some(7)))),
        |_: &()| Ok(presentation(0, Some(7))),
    )
    .unwrap();
    assert_eq!(refreshed.presentation_id, 5);
    assert_eq!(refreshed.revision, Some(7));
    assert_eq!(state.next_presentation_id, 5);
    let active = state.active.as_ref().unwrap();
    assert_eq!(active.summary.bundle_name, "active.session.antennabundle");
    assert_eq!(active.summary.revision, Some(7));
    assert!(active.summary.report_available);
    assert_eq!(active.presentation.as_ref().unwrap().presentation_id, 5);
    assert!(!state.foreground_busy);
}

#[test]
fn refresh_gives_up_on_a_session_that_keeps_changing() {
    let mut state = state_with(Some(1));
    let revision = Cell::new(10u64);
    let refreshed = refresh_active_session_report_for(
        &mut state,
        || {
            revision.set(revision.get() + 1);
            Ok(((), summary(Some(revision.get()))))
        },
        |_: &()| Ok(presentation(0, None)),
    );
    let error = refreshed.unwrap_err();
    assert_eq!(error.kind, SessionErrorKind::StaleRevision);
    assert_eq!(error.message, "The session kept changing while its report was refreshing.");
    assert_eq!(revision.get(), 16);
    assert_eq!(state.next_presentation_id, 4);
    assert_eq!(state.active.as_ref().unwrap().presentation.as_ref().unwrap().revision, Some(1));
}

#[test]
fn refresh_without_an_active_session_or_while_busy_is_refused() {
    let mut state = DesktopState::default();
    let error = refresh_active_session_report_for(&mut state, || Ok(((), summary(None))), |_: &()| Ok(presentation(0, None)))
        .unwrap_err();
    assert_eq!(error.detail, "no active session report is available");
    let mut busy = state_with(None);
    busy.begin_foreground().unwrap();
    let error = refresh_active_session_report_for(&mut busy, || Ok(((), summary(None))), |_: &()| Ok(presentation(0, None)))
        .unwrap_err();
    assert_eq!(error.kind, SessionErrorKind::Busy);
}

#[test]
fn only_a_running_foreground_operation_can_be_suspended() {
    let mut state = DesktopState::default();
    let error = with_suspended_foreground_operation(&mut state, || 1).unwrap_err();
    assert_eq!(error.detail, "cannot suspend an inactive foreground operation");
    state.begin_foreground().unwrap();
    assert_eq!(with_suspended_foreground_operation(&mut state, || 2).unwrap(), 2);
    assert!(state.foreground_busy);
}

#[test]
fn retry_guidance_follows_the_failure_kind() {
    assert_eq!(retry_for(SessionErrorKind::Conflict).disposition, RetryDisposition::RequiresStateChange);
    assert_eq!(retry_for(SessionErrorKind::Conflict).guidance_code, "refresh_state_then_retry");
    assert_eq!(retry_for(SessionErrorKind::Resource).guidance_code, "change_input_profile_or_code");
    assert_eq!(retry_for(SessionErrorKind::Unsupported).disposition, RetryDisposition::NotRetryable);
    assert_eq!(retry_for(SessionErrorKind::Filesystem).guidance_code, "retry_when_condition_clears");
    assert_eq!(summary_for(DiagnosticOperation::ReportExport), "Report export did not complete.");
}

#[test]
fn operation_details_become_stage_observed_and_limit_facts() {
    let detail = Some(Box::new(OperationErrorDetail {
        code: "resource.desktop.ipc_bytes".into(),
        stage: "serialize".into(),
        observed: Some(90),
        limit: None,
        unit: Some("bytes".into()),
    }));
    let facts = failure_facts(&detail);
    assert_eq!(facts.len(), 2);
    assert_eq!(facts[0].name, "stage");
    assert_eq!(facts[0].value, DiagnosticFactValue::Enum("serialize".into()));
    assert_eq!(facts[1].name, "observed");
    assert_eq!(facts[1].value, DiagnosticFactValue::U64(90));
    assert!(failure_facts(&None).is_empty());
}

#[test]
fn a_failure_is_appended_once_and_the_payload_says_so() {
    let counter = Cell::new(0u32);
    let allocate = |prefix: &str| {
        counter.set(counter.get() + 1);
        format!("{prefix}-{}", counter.get())
    };
    let appended: RefCell<Option<(u64, String, FailureDiagnostic)>> = RefCell::new(None);
    let payload = SessionErrorPayload::new(SessionErrorKind::Conflict, "changed", "revision moved");
    let result = persist_failure_with_writer(
        6,
        41,
        1_700_000_000_000,
        allocate,
        |revision: u64, mutation: String, record: FailureDiagnostic| {
            *appended.borrow_mut() = Some((revision, mutation, record));
            Ok(Some("diagnostic-2".to_string()))
        },
        DiagnosticOperation::SessionMutation,
        DiagnosticPhase::Checkpoint,
        "session.mutation_failed",
        EvidenceEffect::NoneCommitted,
        vec![DiagnosticTarget::Slot { id: "slot-3".into() }],
        payload,
    );
    let persistence = result.diagnostic_persistence.unwrap();
    assert_eq!(persistence.status, "persisted");
    assert_eq!(persistence.diagnostic_id.as_deref(), Some("diagnostic-2"));
    let (revision, mutation, record) = appended.borrow_mut().take().unwrap();
    assert_eq!(revision, 41);
    assert_eq!(mutation, "diagnostic-mutation-4");
    assert_eq!(record.attempt_id, "diagnostic-attempt-1");
    assert_eq!(record.diagnostic_id, "diagnostic-2");
    assert_eq!(record.correlation_id, "diagnostic-operation-3");
    assert_eq!(record.occurred_at_ms, 1_700_000_000_000);
    assert_eq!(record.code, "session.mutation_failed");
    assert_eq!(record.summary, "A session mutation did not commit.");
    assert_eq!(record.retry.disposition, RetryDisposition::RequiresStateChange);
    assert_eq!(record.causes.len(), 1);
    assert!(record.causes[0].facts.is_empty());
}

#[test]
fn failures_of_old_sessions_or_already_recorded_ones_are_left_alone() {
    let payload = SessionErrorPayload::new(SessionErrorKind::Filesystem, "failed", "disk");
    let calls = Cell::new(0);
    let result = persist_failure_with_writer(
        5,
        1,
        1_700_000_000_000,
        |p: &str| {
            calls.set(calls.get() + 1);
            p.to_string()
        },
        |_: u64, _: String, _: FailureDiagnostic| Ok(None),
        DiagnosticOperation::BundleExport,
        DiagnosticPhase::WriteDestination,
        "bundle.export_failed",
        EvidenceEffect::NoneCommitted,
        Vec::new(),
        payload.clone(),
    );
    assert_eq!(result, payload);
    assert_eq!(calls.get(), 0);

    let refused = persist_failure_with_writer(
        6,
        1,
        1_700_000_000_000,
        |p: &str| p.to_string(),
        |_: u64, _: String, _: FailureDiagnostic| Err(()),
        DiagnosticOperation::BundleExport,
        DiagnosticPhase::WriteDestination,
        "bundle.export_failed",
        EvidenceEffect::NoneCommitted,
        Vec::new(),
        payload,
    );
    let persistence = refused.diagnostic_persistence.clone().unwrap();
    assert_eq!(persistence.status, "not_persisted");
    assert_eq!(persistence.reason_code.as_deref(), Some("diagnostic.persistence_failed"));
    let again = persist_failure_with_writer(
        6,
        1,
        1_700_000_000_000,
        |p: &str| p.to_string(),
        |_: u64, _: String, _: FailureDiagnostic| Ok(None),
        DiagnosticOperation::BundleExport,
        DiagnosticPhase::WriteDestination,
        "bundle.export_failed",
        EvidenceEffect::NoneCommitted,
        Vec::new(),
        refused.clone(),
    );
    assert_eq!(again, refused);
}

#[test]
fn report_export_failures_go_to_the_active_session() {
    let payload = SessionErrorPayload::new(SessionErrorKind::Destination, "no", "gone");
    let empty = DesktopState::default();
    let untouched = persist_report_export_failure(&empty, |_, _, _, _, _, _, p| p.with_message("changed"), payload.clone());
    assert_eq!(untouched, payload);

    let state = state_with(None);
    let seen: RefCell<Vec<String>> = RefCell::new(Vec::new());
    let result = persist_report_export_failure(
        &state,
        |source: String, operation, phase, code: &str, effect, targets: Vec<DiagnosticTarget>, p: SessionErrorPayload| {
            assert_eq!(operation, DiagnosticOperation::ReportExport);
            assert_eq!(phase, DiagnosticPhase::WriteDestination);
            assert_eq!(effect, EvidenceEffect::NoneCommitted);
            assert!(targets.is_empty());
            seen.borrow_mut().push(format!("{source} {code}"));
            p.with_diagnostic_not_persisted("diagnostic.writer_unavailable")
        },
        payload,
    );
    assert_eq!(seen.borrow().as_slice(), ["/sessions/active.session.antennabundle report.export_failed"]);
    assert_eq!(result.diagnostic_persistence.unwrap().status, "not_persisted");

    let other = persist_active_operation_failure(
        &state,
        |_, operation, _, code: &str, _, _, p: SessionErrorPayload| {
            assert_eq!(operation, DiagnosticOperation::ReportRender);
            assert_eq!(code, "report.render_failed");
            p
        },
        DiagnosticOperation::ReportRender,
        DiagnosticPhase::Render,
        "report.render_failed",
        SessionErrorPayload::report_pipeline("render"),
    );
    assert_eq!(other.detail, "render");
}

#[test]
fn wsjtx_gaps_are_recorded_against_the_udp_source() {
    let recorded: RefCell<Option<SessionErrorPayload>> = RefCell::new(None);
    persist_wsjtx_gap(
        "/sessions/a",
        "wsjtx.decode_backlog",
        true,
        |source: &str, _, phase, code: &str, effect, targets: Vec<DiagnosticTarget>, p: SessionErrorPayload| {
            assert_eq!(source, "/sessions/a");
            assert_eq!(phase, DiagnosticPhase::Acquire);
            assert_eq!(code, "wsjtx.acquisition_gap");
            assert_eq!(effect, EvidenceEffect::EarlierEvidenceRetained);
            assert_eq!(targets, vec![DiagnosticTarget::Source { id: "wsjtx-udp".into() }]);
            *recorded.borrow_mut() = Some(p.clone());
            p
        },
    );
    let payload = recorded.borrow_mut().take().unwrap();
    assert_eq!(payload.message, "WSJT-X reception stopped after recording an acquisition gap.");
    assert_eq!(payload.operation.unwrap().code, "wsjtx.decode_backlog");
}

fn context_ids(n: usize) -> Vec<String> {
    (0..n).map(|i| format!("context-{i}")).collect()
}

#[test]
fn all_contexts_are_presented_when_they_fit() {
    let ids = context_ids(3);
    assert_eq!(select_contexts(&ids, Some("context-1")), vec![0, 1, 2]);
}

#[test]
fn the_creating_context_replaces_the_oldest_recent_one() {
    let ids = context_ids(20);
    let expected: Vec<usize> = std::iter::once(0).chain(5..20).collect();
    assert_eq!(select_contexts(&ids, Some("context-0")), expected);
    assert_eq!(select_contexts(&ids, Some("context-7")), (4..20).collect::<Vec<usize>>());
    assert_eq!(select_contexts(&ids, Some("missing")), (4..20).collect::<Vec<usize>>());
    assert_eq!(select_contexts(&ids, None), (4..20).collect::<Vec<usize>>());
}

fn pending_export(id: &str, presentation_id: u64) -> PendingReportExport {
    PendingReportExport {
        pending_export_id: id.into(),
        destination: "/reports/run.html".into(),
        destination_identity: ReportDestinationIdentity {
            length: 10,
            modified_nanos: Some(1),
            device: 1,
            inode: 2,
            changed_seconds: 3,
            changed_nanos: 4,
            content_digest: vec![0; 32],
        },
        file_name: "run.html".into(),
        presentation_id,
        session_id: "session-1".into(),
        revision: Some(3),
        format: ReportExportFormat::FullEvidenceHtml,
        html: "<p>report</p>".into(),
    }
}

#[test]
fn a_confirmed_replacement_is_written_once() {
    let mut state = state_with(Some(3));
    state.pending_report_export = Some(pending_export("pending-1", 4));
    let writes = Cell::new(0);
    let outcome = confirm_pending_report_export_with(&mut state, "pending-1", |p| {
        assert_eq!(p.destination, "/reports/run.html");
        writes.set(writes.get() + 1);
        Ok(())
    })
    .unwrap();
    assert_eq!(
        outcome,
        ExportReportOutcome::Exported { file_name: "run.html".into(), revision: Some(3), format: ReportExportFormat::FullEvidenceHtml }
    );
    assert!(state.pending_report_export.is_none());
    let again = confirm_pending_report_export_with(&mut state, "pending-1", |_| Ok(())).unwrap_err();
    assert_eq!(again.detail, "the pending report replacement identity is unknown or already consumed");
    assert_eq!(writes.get(), 1);
}

#[test]
fn a_replacement_of_a_changed_presentation_is_refused() {
    let mut state = state_with(Some(3));
    state.pending_report_export = Some(pending_export("pending-2", 3));
    let error = confirm_pending_report_export_with(&mut state, "pending-2", |_| Ok(())).unwrap_err();
    assert_eq!(error.kind, SessionErrorKind::Conflict);
    assert_eq!(error.detail, "the active report presentation changed before replacement was confirmed");
    assert!(state.pending_report_export.is_none());
}
