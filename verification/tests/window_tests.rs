use std::cell::RefCell;

use antennabench_desktop::desktop::{ActiveSession, DesktopState, OpenedSession, ReportPresentation};
use antennabench_desktop::errors::SessionErrorKind;
use antennabench_desktop::report_window::{
    finish_window_creation, focus_answer, open_report_window_with, report_window_document_for, report_window_label, OpenReportWindowOutcome,
    ReportDocumentKind, ReportWindowDocument, ReportWindowPort, ReportWindowPortError, ReportWindowState,
};

#[derive(Default)]
struct FakePort {
    created: RefCell<Vec<String>>,
    focused: RefCell<Vec<String>>,
    create_failure: bool,
}

impl ReportWindowPort for FakePort {
    fn focus(&self, label: &str) -> Result<bool, ReportWindowPortError> {
        self.focused.borrow_mut().push(label.into());
        Ok(true)
    }

    fn create(&self, document: &ReportWindowDocument) -> Result<(), ReportWindowPortError> {
        if self.create_failure {
            return Err(ReportWindowPortError::Create);
        }
        self.created.borrow_mut().push(document.window_label.clone());
        Ok(())
    }
}

fn presentation(id: u64, revision: Option<u64>, summary: &str) -> ReportPresentation {
    ReportPresentation {
        presentation_id: id,
        session_id: "session-3e698e14-13ff-4ce4-b6bb-71e66734c6e4".into(),
        revision,
        lifecycle: None,
        has_controller_evidence: false,
        report_html: "<!doctype html><html><p>Full evidence</p></html>".into(),
        summary_html: summary.into(),
        compact_summary_html: "<p>compact</p>".into(),
        controller_omitted_report_html: None,
        operational_history_report_html: "<p>history</p>".into(),
        operational_history_controller_omitted_report_html: None,
    }
}

fn opened_state() -> DesktopState {
    let mut state = DesktopState::default();
    let session = ActiveSession {
        source: "/fixtures/canonical-sample-report.session.wsprabundle".into(),
        summary: OpenedSession {
            bundle_name: "canonical-sample-report.session.wsprabundle".into(),
            session_id: "session-3e698e14-13ff-4ce4-b6bb-71e66734c6e4".into(),
            callsign: "N1RWJ".into(),
            grid: "FN42".into(),
            antenna_count: 2,
            slot_count: 4,
            observation_count: 10,
            schema_version: 1,
            revision: None,
            lifecycle: None,
            report_available: true,
        },
        presentation: Some(presentation(0, None, "<html><h1>Session Summary</h1></html>")),
        retained_presentation: None,
    };
    state.activate(session, "/fixtures/canonical-sample-report.session.wsprabundle".into());
    state
}

fn fits(_: &ReportWindowDocument) -> Result<(), antennabench_desktop::errors::SessionErrorPayload> {
    Ok(())
}

#[test]
fn immutable_identity_reuses_exact_documents_and_allows_modes_to_coexist() {
    let mut active = opened_state();
    let mut windows = ReportWindowState::default();
    let port = FakePort::default();
    let presentation_id = active.active_session_report_for().unwrap().presentation_id;

    let summary = open_report_window_with(&active, &mut windows, "main", presentation_id, ReportDocumentKind::Summary, &port, fits).unwrap();
    let OpenReportWindowOutcome::Created { window_label: summary_label, .. } = summary else {
        panic!("first Summary window was not created");
    };
    let repeated = open_report_window_with(&active, &mut windows, "main", presentation_id, ReportDocumentKind::Summary, &port, fits).unwrap();
    assert!(matches!(repeated, OpenReportWindowOutcome::Focused { .. }));
    let full = open_report_window_with(&active, &mut windows, "main", presentation_id, ReportDocumentKind::FullEvidence, &port, fits).unwrap();
    let OpenReportWindowOutcome::Created { window_label: full_label, .. } = full else {
        panic!("Full evidence window was not created");
    };

    assert_ne!(summary_label, full_label);
    assert_eq!(port.created.borrow().len(), 2);
    assert_eq!(port.focused.borrow().as_slice(), std::slice::from_ref(&summary_label));
    let original = report_window_document_for(&windows, &summary_label).unwrap();
    assert_eq!(original.document_kind, ReportDocumentKind::Summary);
    assert!(original.html.contains("Session Summary"));
    assert_eq!(original.window_label, summary_label);

    let newer_presentation_id = {
        let session = active.active.as_mut().unwrap();
        let displayed = session.presentation.take().unwrap();
        let mut newer = displayed.duplicate();
        newer.presentation_id = displayed.presentation_id + 1;
        newer.revision = Some(displayed.revision.unwrap_or_default() + 1);
        newer.summary_html = "<p>newer immutable Summary</p>".into();
        let id = newer.presentation_id;
        session.retained_presentation = Some(displayed);
        session.presentation = Some(newer);
        id
    };
    let newer = open_report_window_with(&active, &mut windows, "main", newer_presentation_id, ReportDocumentKind::Summary, &port, fits).unwrap();
    let OpenReportWindowOutcome::Created { window_label: newer_label, .. } = newer else {
        panic!("newer Summary window was not created");
    };
    assert_ne!(summary_label, newer_label);
    assert_eq!(
        report_window_document_for(&windows, &summary_label).unwrap(),
        original,
        "a newer main presentation cannot mutate an open immutable reader"
    );
    assert_eq!(report_window_document_for(&windows, &newer_label).unwrap().html, "<p>newer immutable Summary</p>");
    assert_eq!(report_window_document_for(&windows, "main").unwrap_err().kind, SessionErrorKind::Unsupported);
}

#[test]
fn cleanup_and_failures_never_leave_reusable_registry_entries() {
    let mut active = opened_state();
    let mut windows = ReportWindowState::default();
    let presentation_id = active.active_session_report_for().unwrap().presentation_id;
    let failure = open_report_window_with(
        &active,
        &mut windows,
        "main",
        presentation_id,
        ReportDocumentKind::Summary,
        &FakePort { create_failure: true, ..FakePort::default() },
        fits,
    )
    .unwrap_err();
    assert_eq!(failure.kind, SessionErrorKind::ReportPipeline);
    assert!(!failure.detail.contains("<html"));
    assert!(windows.clear().is_empty());

    let port = FakePort::default();
    let created = open_report_window_with(&active, &mut windows, "main", presentation_id, ReportDocumentKind::Summary, &port, fits).unwrap();
    let OpenReportWindowOutcome::Created { window_label, .. } = created else {
        panic!("report window was not created");
    };
    windows.remove(&window_label);
    assert_eq!(report_window_document_for(&windows, &window_label).unwrap_err().kind, SessionErrorKind::Conflict);
    assert_eq!(
        open_report_window_with(&active, &mut windows, &window_label, presentation_id, ReportDocumentKind::Summary, &port, fits)
            .unwrap_err()
            .kind,
        SessionErrorKind::Unsupported
    );
}

#[test]
fn window_labels_are_a_sha256_identity() {
    let label = report_window_label("session-1", Some(3), ReportDocumentKind::Summary);
    assert!(label.starts_with("report-"));
    assert_eq!(label.len(), "report-".len() + 64);
    assert!(label["report-".len()..].chars().all(|c| c.is_ascii_hexdigit() && !c.is_ascii_uppercase()));
    assert_eq!(label, report_window_label("session-1", Some(3), ReportDocumentKind::Summary));
    assert_ne!(label, report_window_label("session-1", None, ReportDocumentKind::Summary));
    assert_eq!(
        report_window_label("", None, ReportDocumentKind::Summary),
        "report-7e152223828da2edf275caac66d36ad6d585fb5a41ccfc7ad10e55431816a45d"
    );
    assert_eq!(
        report_window_label("session-1", Some(3), ReportDocumentKind::FullEvidence),
        "report-be1e8905f2a176e2b3adf9bfdb8b18f886a0f0361af2be15deda632982a2a22f"
    );
}

#[test]
fn the_registry_is_bounded() {
    let mut windows = ReportWindowState::default();
    let port = FakePort::default();
    let mut active = opened_state();
    for revision in 0..12u64 {
        let session = active.active.as_mut().unwrap();
        session.presentation.as_mut().unwrap().revision = Some(revision);
        let id = session.presentation.as_ref().unwrap().presentation_id;
        assert!(open_report_window_with(&active, &mut windows, "main", id, ReportDocumentKind::Summary, &port, fits).is_ok());
    }
    let session = active.active.as_mut().unwrap();
    session.presentation.as_mut().unwrap().revision = Some(99);
    let id = session.presentation.as_ref().unwrap().presentation_id;
    let refused = open_report_window_with(&active, &mut windows, "main", id, ReportDocumentKind::Summary, &port, fits).unwrap_err();
    assert_eq!(refused.kind, SessionErrorKind::Resource);
    assert_eq!(windows.documents.len(), 12);
}

fn document(label: &str) -> ReportWindowDocument {
    ReportWindowDocument {
        window_label: label.into(),
        presentation_id: 1,
        session_id: "s-1".into(),
        bundle_name: "a.session.antennabundle".into(),
        revision: Some(4),
        lifecycle: None,
        document_kind: ReportDocumentKind::Summary,
        html: "<p>summary</p>".into(),
    }
}

#[test]
fn the_port_result_decides_creation_and_focus() {
    let mut windows = ReportWindowState { documents: vec![document("report-a")] };
    let failed = finish_window_creation(&mut windows, document("report-b"), Err(ReportWindowPortError::Create)).unwrap_err();
    assert_eq!(failed.kind, SessionErrorKind::ReportPipeline);
    assert!(!failed.detail.contains("<p>"));
    assert_eq!(windows.documents.len(), 1);
    let created = finish_window_creation(&mut windows, document("report-b"), Ok(())).unwrap();
    assert!(matches!(created, OpenReportWindowOutcome::Created { ref window_label, .. } if window_label == "report-b"));
    assert_eq!(windows.documents.len(), 2);
    assert!(matches!(
        focus_answer(Ok(true), "report-a".into(), Some(4), ReportDocumentKind::Summary).unwrap(),
        Some(OpenReportWindowOutcome::Focused { .. })
    ));
    assert!(focus_answer(Ok(false), "report-a".into(), Some(4), ReportDocumentKind::Summary).unwrap().is_none());
    assert_eq!(
        focus_answer(Err(ReportWindowPortError::Focus), "report-a".into(), None, ReportDocumentKind::Summary).unwrap_err().kind,
        SessionErrorKind::ReportPipeline
    );
}
