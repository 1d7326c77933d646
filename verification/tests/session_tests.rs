use antennabench_desktop::bundles::{
    bundle_export_kind, export_destination_name, BundleExportKind,
    allocate_import_destination, bundle_suffix, redact_paths, suggested_compact_summary_name,
    suggested_export_name, suggested_report_name,
};
use antennabench_desktop::desktop::{
    export_active_session_with_selection, open_session_with_selection, open_session_with_selection_and_verification,
    report_display_file_name,
    select_report_html, ActiveSession, ControllerEvidenceHandling, DesktopState,
    ExportSessionOutcome, OpenSessionOutcome, OpenedSession, OperationalHistoryHandling,
    ReportExportFormat, ReportPresentation,
};
use antennabench_desktop::diagnostics::{legacy_diagnostics_presentation, DiagnosticHistoryState, SUPPORT_SUMMARY_MAX_BYTES};
use antennabench_desktop::errors::{SessionErrorKind, SessionErrorPayload};
use antennabench_desktop::open_errors::{
    copy_error_payload, export_session_error_payload, open_bundle_selection, open_session_error_payload, storage_error_payload,
    CopyError, ExportSessionError, StoreError, ValidationIssue,
};

pub fn canonical_session(source: &str) -> ActiveSession {
    ActiveSession {
        source: source.into(),
        summary: OpenedSession {
            bundle_name: "canonical-sample-report.session.wsprabundle".into(),
            session_id: "session-3e698e14-13ff-4ce4-b6bb-71e66734c6e4".into(),
            callsign: "N1RWJ".into(),
            grid: "FN42".into(),
            antenna_count: 2,
            slot_count: 4,
            observation_count: 10,
            schema_version: 1,
            revision: None,
            lifecycle: None,
            report_available: true,
        },
        presentation: Some(ReportPresentation {
            presentation_id: 0,
            session_id: "session-3e698e14-13ff-4ce4-b6bb-71e66734c6e4".into(),
            revision: None,
            lifecycle: None,
            has_controller_evidence: false,
            report_html: "<!doctype html><p>Full evidence</p>".into(),
            summary_html: "<!doctype html><h1>Session Summary</h1>".into(),
            compact_summary_html: "<!doctype html><p>compact</p>".into(),
            controller_omitted_report_html: None,
            operational_history_report_html: "<p>redacted operational history</p>".into(),
            operational_history_controller_omitted_report_html: None,
        }),
        retained_presentation: None,
    }
}

fn fixture() -> String {
    "/fixtures/session-bundles/canonical-sample-report.session.wsprabundle".into()
}

fn no_ipc_limit(_: &OpenedSession) -> Result<(), SessionErrorPayload> {
    Ok(())
}

#[test]
fn selection_must_be_a_directory_bundle() {
    let error = open_session_error_payload(open_bundle_selection("ordinary-directory").expect_err("reject an ordinary directory"));
    assert_eq!(error.kind, SessionErrorKind::Selection);
}

#[test]
fn bundle_names_with_a_supported_suffix_are_accepted() {
    assert_eq!(open_bundle_selection("/tmp/field-day.session.wsprabundle").unwrap(), "field-day.session.wsprabundle");
    assert_eq!(bundle_suffix("x.session.antennabundle"), Some(".session.antennabundle"));
    assert_eq!(bundle_suffix("x.session.wsprabundle"), Some(".session.wsprabundle"));
    assert_eq!(bundle_suffix("x.zip"), None);
}

#[test]
fn compact_and_full_html_suggested_names_are_unambiguous() {
    let bundle = "/tmp/field-day.session.wsprabundle";
    assert_eq!(suggested_report_name(bundle), "field-day-report.html");
    assert_eq!(suggested_compact_summary_name(bundle), "field-day-compact-summary.html");
    let unknown = "/tmp/no-recognized-suffix";
    assert_eq!(suggested_report_name(unknown), "antennabench-report.html");
    assert_eq!(suggested_compact_summary_name(unknown), "antennabench-compact-summary.html");
}

#[test]
fn exported_copies_keep_the_bundle_suffix() {
    assert_eq!(suggested_export_name("/tmp/field-day.session.antennabundle"), "field-day-copy.session.antennabundle");
    assert_eq!(suggested_export_name("/tmp/plain-directory"), "session-copy.session.antennabundle");
}

#[test]
fn imports_take_the_first_free_numbered_name() {
    let taken = ["/data/sessions/trip.session.wsprabundle", "/data/sessions/trip-2.session.wsprabundle"];
    let destination =
        allocate_import_destination("/data/sessions", "/elsewhere/trip.session.wsprabundle", |p: &str| taken.contains(&p)).unwrap();
    assert_eq!(destination, "/data/sessions/trip-3.session.wsprabundle");
    let refused = allocate_import_destination("/data/sessions", "/elsewhere/trip", |_: &str| false).unwrap_err();
    assert_eq!(refused.kind, SessionErrorKind::Selection);
    let full = allocate_import_destination("/data/sessions", "/elsewhere/trip.session.wsprabundle", |_: &str| true).unwrap_err();
    assert_eq!(full.kind, SessionErrorKind::Destination);
}

#[test]
fn local_paths_are_redacted_from_error_details() {
    let error = SessionErrorPayload::new(
        SessionErrorKind::Filesystem,
        "failed",
        "/src/a.session.wsprabundle under /root/sessions to /out/b.session.wsprabundle",
    );
    let redacted = redact_paths(error, Some("/src/a.session.wsprabundle"), Some("/root/sessions"), Some("/out/b.session.wsprabundle"));
    assert_eq!(redacted.detail, "selected session under Saved sessions to selected destination");
}

#[test]
fn desktop_e2e_cancellation_is_a_normal_outcome() {
    let mut state = DesktopState::default();
    assert_eq!(
        open_session_with_selection(&mut state, || Ok(None), |p: &str| Ok(canonical_session(p)), no_ipc_limit)
            .expect("cancel opening"),
        OpenSessionOutcome::Cancelled
    );

    let source = fixture();
    open_session_with_selection(&mut state, || Ok(Some(source)), |p: &str| Ok(canonical_session(p)), no_ipc_limit)
        .expect("open canonical source before cancellation checks");
    let report = state.active_session_report_for().expect("capture active report");
    assert_eq!(
        open_session_with_selection(&mut state, || Ok(None), |p: &str| Ok(canonical_session(p)), no_ipc_limit)
            .expect("cancel replacement open"),
        OpenSessionOutcome::Cancelled
    );
    assert_eq!(
        export_active_session_with_selection(
            &mut state,
            |_: &str| Ok(None),
            |_: &str, _: &str| Ok(("unused.session.wsprabundle".to_string(), None))
        )
        .expect("cancel active export"),
        ExportSessionOutcome::Cancelled
    );
    assert_eq!(state.active_session_report_for().expect("retain report after cancellations"), report);
}

#[test]
fn a_second_foreground_operation_is_refused_as_busy() {
    let mut state = DesktopState::default();
    state.begin_foreground().unwrap();
    let refused = state.begin_foreground().unwrap_err();
    assert_eq!(refused.kind, SessionErrorKind::Busy);
    assert_eq!(refused.operation.unwrap().code, "resource.operation.busy");
    state.end_foreground();
    assert!(state.begin_foreground().is_ok());
}

#[test]
fn opening_assigns_increasing_presentation_identities() {
    let mut state = DesktopState::default();
    open_session_with_selection(&mut state, || Ok(Some(fixture())), |p: &str| Ok(canonical_session(p)), no_ipc_limit).unwrap();
    let first = state.active_session_report_for().unwrap().presentation_id;
    open_session_with_selection(&mut state, || Ok(Some(fixture())), |p: &str| Ok(canonical_session(p)), no_ipc_limit).unwrap();
    let second = state.active_session_report_for().unwrap().presentation_id;
    assert_eq!(first, 1);
    assert_eq!(second, 2);
}

#[test]
fn a_source_that_no_longer_matches_its_report_is_refused() {
    let mut state = DesktopState::default();
    open_session_with_selection(&mut state, || Ok(Some("/tmp/other.session.wsprabundle".into())), |p: &str| Ok(canonical_session(p)), no_ipc_limit)
        .unwrap();
    let error = state.active_session_report_for().unwrap_err();
    assert_eq!(error.kind, SessionErrorKind::ReportPipeline);
    assert_eq!(error.detail, "the active session source does not match its derived report");
}

#[test]
fn report_exports_choose_the_document_that_applies() {
    let session = canonical_session("/x");
    let p = session.presentation.unwrap();
    assert_eq!(
        select_report_html(&p, ReportExportFormat::CompactSummaryHtml, ControllerEvidenceHandling::OmittedAtExport, OperationalHistoryHandling::IncludedRedacted).unwrap(),
        "<!doctype html><p>compact</p>"
    );
    assert_eq!(
        select_report_html(&p, ReportExportFormat::FullEvidenceHtml, ControllerEvidenceHandling::OmittedAtExport, OperationalHistoryHandling::Omitted).unwrap(),
        "<!doctype html><p>Full evidence</p>"
    );
    assert_eq!(
        select_report_html(&p, ReportExportFormat::FullEvidenceHtml, ControllerEvidenceHandling::Complete, OperationalHistoryHandling::IncludedRedacted).unwrap(),
        "<p>redacted operational history</p>"
    );
    let mut with_controller = p.duplicate();
    with_controller.has_controller_evidence = true;
    let missing = select_report_html(&with_controller, ReportExportFormat::FullEvidenceHtml, ControllerEvidenceHandling::OmittedAtExport, OperationalHistoryHandling::Omitted).unwrap_err();
    assert_eq!(missing.kind, SessionErrorKind::ReportPipeline);
}

#[test]
fn report_destinations_must_be_html_and_long_names_are_shortened() {
    assert_eq!(report_display_file_name("/tmp/report.html").unwrap(), "report.html");
    assert_eq!(report_display_file_name("/tmp/report.txt").unwrap_err().kind, SessionErrorKind::Destination);
    let long = format!("/tmp/{}.html", "x".repeat(200));
    let shown = report_display_file_name(&long).unwrap();
    assert_eq!(shown.chars().count(), 161);
    assert!(shown.ends_with('…'));
}

#[test]
fn legacy_support_summary_is_bounded_redacted_and_honest() {
    let view = legacy_diagnostics_presentation(5, 512, 1024);
    assert_eq!(view.history_state, DiagnosticHistoryState::LegacyUnknown);
    assert!(view.support_summary.len() <= SUPPORT_SUMMARY_MAX_BYTES);
    assert!(view.support_summary.contains("redacted_by_default"));
    assert!(view.support_summary.contains("legacy_unknown"));
    assert!(!view.support_summary.contains("No failures"));
}

#[test]
fn legacy_support_summary_names_the_schema_reason() {
    let view = legacy_diagnostics_presentation(3, 512, 1024);
    assert_eq!(view.reason_code.as_deref(), Some("bundle.schema_v3_history_unavailable"));
    assert!(view.support_summary.contains("\"reason_code\": \"bundle.schema_v3_history_unavailable\""));
    assert!(view.support_summary.contains("\"diagnostic_record_limit\": 512"));
}

#[test]
fn storage_failures_have_specific_kinds() {
    let json = storage_error_payload(StoreError::ParseJson { path: "b/station.json".into(), source: "expected value".into() });
    assert_eq!(json.kind, SessionErrorKind::JsonParse);
    assert_eq!(json.detail, "b/station.json: expected value");
    let unsupported = storage_error_payload(StoreError::UnsupportedSchemaVersion { actual: 99 });
    assert_eq!(unsupported.detail, "unsupported schema version 99");
    let cancelled = storage_error_payload(StoreError::Resource {
        code: "resource.operation.cancelled".into(),
        stage: "Read".into(),
        limit: 1,
        observed: None,
        unit: "bytes".into(),
    });
    assert_eq!(cancelled.kind, SessionErrorKind::Cancelled);
    let invalid = storage_error_payload(StoreError::Validation {
        issues: vec![ValidationIssue { code: "validation issue".into(), file: "Station".into(), field_path: Some("session_id".into()) }],
        diagnostic_count: 7,
    });
    assert_eq!(invalid.kind, SessionErrorKind::Validation);
    assert_eq!(invalid.detail, "7 validation issue(s): validation issue at Station session_id; and 2 more");
    let other = storage_error_payload(StoreError::Other { message: "read failed".into(), source: Some("station.json: not found".into()) });
    assert_eq!(other.kind, SessionErrorKind::Filesystem);
    assert!(other.detail.contains("station.json"));
}

#[test]
fn a_failed_verification_leaves_the_active_session_alone() {
    let mut state = DesktopState::default();
    open_session_with_selection(&mut state, || Ok(Some(fixture())), |p: &str| Ok(canonical_session(p)), no_ipc_limit).unwrap();
    let before = state.active_session_report_for().unwrap();
    let next_id = state.next_presentation_id;
    let error = open_session_with_selection_and_verification(
        &mut state,
        || Ok(Some("/tmp/changed.session.wsprabundle".to_string())),
        |p: &str| Ok(canonical_session(p)),
        |_: &str| Err(SessionErrorPayload::new(SessionErrorKind::Verification, "changed", "the source changed")),
        no_ipc_limit,
    )
    .unwrap_err();
    assert_eq!(error.kind, SessionErrorKind::Verification);
    assert_eq!(error.detail, "the source changed");
    assert_eq!(state.active_session_report_for().unwrap(), before);
    assert_eq!(state.export_source, Some(fixture()));
    assert_eq!(state.next_presentation_id, next_id);
    assert!(!state.foreground_busy);
}

#[test]
fn a_verified_selection_becomes_the_active_session() {
    let mut state = DesktopState::default();
    let outcome = open_session_with_selection_and_verification(
        &mut state,
        || Ok(Some(fixture())),
        |p: &str| Ok(canonical_session(p)),
        |_: &str| Ok(()),
        no_ipc_limit,
    )
    .unwrap();
    assert!(matches!(outcome, OpenSessionOutcome::Opened { .. }));
    assert_eq!(state.export_source, Some(fixture()));
    assert_eq!(state.active_session_report_for().unwrap().presentation_id, 1);
}

#[test]
fn export_destination_and_verification_failures_are_typed() {
    let destination = export_session_error_payload(ExportSessionError::InvalidDestination { name: "export-directory".into() });
    let verification = copy_error_payload(CopyError::Verification {
        message: "the exported bundle could not be verified".into(),
        source: Some("exported.session.wsprabundle is not a bundle root".into()),
    });
    assert_eq!(destination.kind, SessionErrorKind::Destination);
    assert_eq!(verification.kind, SessionErrorKind::Verification);
}

#[test]
fn lossless_export_is_available_without_a_derived_report() {
    let mut state = DesktopState::default();
    let source = fixture();
    state.export_source = Some(source.clone());
    let destination = "/tmp/export/resource-safe-copy.session.wsprabundle".to_string();
    let outcome = export_active_session_with_selection(
        &mut state,
        |selected: &str| {
            assert_eq!(selected, source);
            Ok(Some(destination.clone()))
        },
        |from: &str, to: &str| {
            let name = export_destination_name(from, to).map_err(export_session_error_payload)?;
            let kind = bundle_export_kind(from, || -> Result<u16, StoreError> { panic!("a legacy bundle has no schema to read") })
                .map_err(export_session_error_payload)?;
            assert_eq!(kind, BundleExportKind::Lossless);
            Ok((name, None))
        },
    )
    .expect("storage-safe export does not require report eligibility");
    assert_eq!(
        outcome,
        ExportSessionOutcome::Exported { bundle_name: "resource-safe-copy.session.wsprabundle".into(), revision: None }
    );
    assert!(state.active_session_report_for().is_err());
}

#[test]
fn an_export_destination_must_keep_the_source_suffix() {
    let source = "/b/x.session.antennabundle";
    assert_eq!(export_destination_name(source, "/d/y.session.antennabundle").unwrap(), "y.session.antennabundle");
    match export_destination_name(source, "/d/y.session.wsprabundle") {
        Err(ExportSessionError::InvalidDestination { name }) => assert_eq!(name, "y.session.wsprabundle"),
        other => panic!("unexpected {other:?}"),
    }
    assert_eq!(bundle_export_kind(source, || Ok(2)).unwrap(), BundleExportKind::CheckpointedV2);
    assert_eq!(bundle_export_kind(source, || Ok(5)).unwrap(), BundleExportKind::CheckpointedV3);
    match bundle_export_kind(source, || Ok(9)) {
        Err(ExportSessionError::Live(_)) => {}
        other => panic!("unexpected {other:?}"),
    }
}

#[test]
fn missing_bundle_is_a_filesystem_error() {
    let error = storage_error_payload(StoreError::Other {
        message: "could not read missing.session.wsprabundle/station.json".into(),
        source: Some("No such file or directory (os error 2)".into()),
    });
    assert_eq!(error.kind, SessionErrorKind::Filesystem);
    assert!(error.detail.contains("missing.session.wsprabundle"));
}
