use std::cell::RefCell;
use antennabench_desktop::errors::{SessionErrorKind, SessionErrorPayload};
use antennabench_desktop::managed::{
    append_diagnostics, build_catalog, classify_storage_error, clipped, failed_inspection,
    is_supported_bundle_name, record_created, revalidate_direct_child, select_candidates, BundleDiagnostic,
    Candidate, CatalogStatus, DirectoryIdentity, LocatorRecord, ManagedCatalogEntry, ManagedEntryStatus,
    export_managed_session_with_selection, import_managed_session_for, open_managed_session_for, revalidate_available,
    CatalogBuild, ExportManagedSessionOutcome, ImportManagedSessionOutcome, PublishFailure, ManagedSessionCatalog, ManagedSessionsState, ObservedEntry, fit_catalog_to_ipc, fit_catalog_to_ipc_with_limit, ProblemSeverity, ProjectedEntry, StoreErrorClass,
};
use antennabench_desktop::paths::is_plain_name;

fn identity(inode: u64) -> DirectoryIdentity {
    DirectoryIdentity { device: 1, inode, length: 96, modified_nanos: Some(5) }
}

fn available(name: &str, session_id: &str, created_at_ms: Option<i64>) -> ProjectedEntry {
    let mut entry = ManagedCatalogEntry::problem(name.into(), ManagedEntryStatus::Available, "x", "y");
    entry.problems.clear();
    entry.session_id = Some(session_id.into());
    entry.created_at_ms = created_at_ms;
    ProjectedEntry {
        entry,
        record: LocatorRecord { bundle_name: name.into(), identity: identity(7), fingerprint: Some(vec![1, 2, 3]), activatable: true },
    }
}

#[test]
fn problem_texts_are_clipped_on_a_character_boundary() {
    assert_eq!(clipped("short"), "short");
    let long = "é".repeat(200);
    let c = clipped(&long);
    assert!(c.len() <= 256);
    assert!(c.ends_with("..."));
    assert_eq!(c.len(), 252 + 3);
}

#[test]
fn supported_names_and_plain_names() {
    assert!(is_supported_bundle_name("a.session.antennabundle"));
    assert!(is_supported_bundle_name("a.session.wsprabundle"));
    assert!(!is_supported_bundle_name("a.zip"));
    assert!(is_plain_name("a.session.wsprabundle"));
    assert!(!is_plain_name("../a.session.wsprabundle"));
    assert!(!is_plain_name("x/a.session.wsprabundle"));
    assert!(!is_plain_name(".."));
}

#[test]
fn catalog_lists_newest_first_and_warns_about_shared_session_ids() {
    let build = build_catalog(
        vec![
            available("b.session.antennabundle", "s-1", Some(1_000)),
            available("a.session.antennabundle", "s-2", None),
            available("c.session.antennabundle", "s-1", Some(2_000)),
        ],
        3,
        0,
    );
    let names: Vec<&str> = build.catalog.entries.iter().map(|e| e.bundle_name.as_str()).collect();
    assert_eq!(names, vec!["c.session.antennabundle", "b.session.antennabundle", "a.session.antennabundle"]);
    assert_eq!(build.catalog.status, CatalogStatus::Complete);
    assert_eq!(build.catalog.entries[0].same_session_id_count, 2);
    assert_eq!(build.catalog.entries[0].problems[0].code, "managed.same_session_id");
    assert_eq!(
        build.catalog.entries[0].problems[0].message,
        "2 saved bundle paths report this session ID; they remain separate copies."
    );
    assert_eq!(build.catalog.entries[2].same_session_id_count, 1);
    assert!(build.catalog.entries[2].problems.is_empty());
    assert_eq!(build.records[0].bundle_name, "c.session.antennabundle");
}

#[test]
fn incomplete_listings_say_why() {
    let build = build_catalog(Vec::new(), 300, 2);
    assert_eq!(build.catalog.status, CatalogStatus::Incomplete);
    assert_eq!(build.catalog.diagnostics.len(), 2);
    assert_eq!(build.catalog.diagnostics[0].code, "managed.directory_entry_unreadable");
    assert_eq!(build.catalog.diagnostics[1].message, "The managed session catalog is incomplete: 300 candidates exceeded the limit of 256.");
    assert_eq!(build.catalog.diagnostics[1].limit, Some(256));
}

#[test]
fn candidates_are_sorted_by_name_and_limited() {
    let many: Vec<Candidate> = (0..300).rev().map(|i| Candidate::Unsafe { name: format!("{i:03}.session.wsprabundle") }).collect();
    let (selected, observed) = select_candidates(many);
    assert_eq!(observed, 300);
    assert_eq!(selected.len(), 256);
    assert_eq!(selected[0].name(), "000.session.wsprabundle");
    assert_eq!(selected[255].name(), "255.session.wsprabundle");
}

#[test]
fn too_many_inspection_problems_are_summarized() {
    let mut entry = ManagedCatalogEntry::problem("a".into(), ManagedEntryStatus::Invalid, "first", "first problem");
    let diagnostics: Vec<BundleDiagnostic> = (0..10)
        .map(|i| BundleDiagnostic { code: format!("code-{i}"), is_error: i % 2 == 0, message: format!("message {i}") })
        .collect();
    append_diagnostics(&mut entry, &diagnostics);
    assert_eq!(entry.problems.len(), 8);
    assert_eq!(entry.problems[1].code, "code-0");
    assert_eq!(entry.problems[1].severity, ProblemSeverity::Error);
    assert_eq!(entry.problems[2].severity, ProblemSeverity::Warning);
}

#[test]
fn storage_failures_are_classified() {
    assert_eq!(classify_storage_error(StoreErrorClass::UnsupportedSchemaVersion), ManagedEntryStatus::Unsupported);
    assert_eq!(classify_storage_error(StoreErrorClass::Io { permission_denied: true }), ManagedEntryStatus::Unreadable);
    assert_eq!(classify_storage_error(StoreErrorClass::Io { permission_denied: false }), ManagedEntryStatus::Invalid);
    assert_eq!(classify_storage_error(StoreErrorClass::InvalidBundlePath), ManagedEntryStatus::Unsafe);
    let failed = failed_inspection("u.session.antennabundle", identity(3), Some(99), StoreErrorClass::UnsupportedSchemaVersion);
    assert_eq!(failed.entry.status, ManagedEntryStatus::Unsupported);
    assert_eq!(failed.entry.problems[0].code, "managed.unsupported_bundle");
    assert_eq!(failed.entry.schema_version, Some(99));
    assert!(!failed.record.activatable);
}

#[test]
fn locators_resolve_only_while_they_are_registered() {
    let mut state = ManagedSessionsState::default();
    assert_eq!(state.resolve("missing").unwrap_err().kind, SessionErrorKind::Selection);
    let record = LocatorRecord { bundle_name: "a.session.antennabundle".into(), identity: identity(9), fingerprint: None, activatable: true };
    let context = state.register_created("locator-1".into(), record);
    assert_eq!(context.origin_label, "Saved by AntennaBench");
    assert_eq!(state.resolve("locator-1").unwrap().bundle_name, "a.session.antennabundle");
}

#[test]
fn direct_children_must_keep_their_identity() {
    let record = LocatorRecord { bundle_name: "a.session.antennabundle".into(), identity: identity(9), fingerprint: None, activatable: true };
    assert!(revalidate_direct_child(&record, Ok(ObservedEntry { is_symlink: false, is_dir: true, identity: identity(9) })).is_ok());
    assert_eq!(
        revalidate_direct_child(&record, Ok(ObservedEntry { is_symlink: false, is_dir: true, identity: identity(10) })).unwrap_err().kind,
        SessionErrorKind::Verification
    );
    assert_eq!(revalidate_direct_child(&record, Err("gone".into())).unwrap_err().kind, SessionErrorKind::Filesystem);
    let escaping = LocatorRecord { bundle_name: "../a.session.antennabundle".into(), ..record };
    assert_eq!(
        revalidate_direct_child(&escaping, Ok(ObservedEntry { is_symlink: false, is_dir: true, identity: identity(9) })).unwrap_err().kind,
        SessionErrorKind::Verification
    );
}

#[test]
fn created_bundles_register_only_as_direct_available_children() {
    let ok = record_created("/data/sessions", "/data/sessions/new.session.antennabundle", |name: &str| available(name, "s", None));
    assert_eq!(ok.unwrap().bundle_name, "new.session.antennabundle");
    let elsewhere = record_created("/data/sessions", "/tmp/new.session.antennabundle", |name: &str| available(name, "s", None));
    assert_eq!(elsewhere.unwrap_err().kind, SessionErrorKind::Verification);
}

fn locator_entry(name: &str, locator: &str) -> ManagedCatalogEntry {
    let mut entry = ManagedCatalogEntry::problem(name.into(), ManagedEntryStatus::Available, "x", "y");
    entry.problems.clear();
    entry.locator_id = Some(locator.into());
    entry
}

fn locator_record(name: &str) -> LocatorRecord {
    LocatorRecord { bundle_name: name.into(), identity: identity(3), fingerprint: None, activatable: true }
}

#[test]
fn an_oversized_catalog_drops_its_last_entries_and_their_locators() {
    let mut catalog = ManagedSessionCatalog::complete(vec![
        locator_entry("a.session.antennabundle", "loc-a"),
        locator_entry("b.session.antennabundle", "loc-b"),
        locator_entry("c.session.antennabundle", "loc-c"),
    ]);
    let mut sessions = ManagedSessionsState {
        locators: vec![
            ("loc-a".into(), locator_record("a.session.antennabundle")),
            ("loc-b".into(), locator_record("b.session.antennabundle")),
            ("loc-c".into(), locator_record("c.session.antennabundle")),
        ],
    };
    let size = |c: &ManagedSessionCatalog| -> Result<usize, SessionErrorPayload> { Ok(100 * c.entries.len()) };
    fit_catalog_to_ipc_with_limit(&mut catalog, &mut sessions, 150, size).unwrap();
    assert_eq!(catalog.entries.len(), 1);
    assert_eq!(catalog.status, CatalogStatus::Incomplete);
    let note = catalog.diagnostics.last().unwrap();
    assert_eq!(note.code, "resource.desktop.managed_catalog_ipc_bytes");
    assert_eq!((note.limit, note.observed), (Some(150), Some(300)));
    let kept: Vec<&str> = sessions.locators.iter().map(|(id, _)| id.as_str()).collect();
    assert_eq!(kept, vec!["loc-a"]);
}

#[test]
fn a_catalog_that_fits_is_left_as_it_is() {
    let mut catalog = ManagedSessionCatalog::complete(vec![locator_entry("a.session.antennabundle", "loc-a")]);
    let mut sessions = ManagedSessionsState { locators: vec![("loc-a".into(), locator_record("a.session.antennabundle"))] };
    fit_catalog_to_ipc(&mut catalog, &mut sessions, |_: &ManagedSessionCatalog| -> Result<usize, SessionErrorPayload> { Ok(10) }).unwrap();
    assert_eq!(catalog.status, CatalogStatus::Complete);
    assert!(catalog.diagnostics.is_empty());
    assert_eq!(sessions.locators.len(), 1);
}

#[test]
fn a_catalog_that_cannot_fit_is_refused() {
    let mut catalog = ManagedSessionCatalog::complete(vec![locator_entry("a.session.antennabundle", "loc-a")]);
    let mut sessions = ManagedSessionsState::default();
    let error = fit_catalog_to_ipc_with_limit(&mut catalog, &mut sessions, 5, |_: &ManagedSessionCatalog| -> Result<usize, SessionErrorPayload> { Ok(9) })
        .unwrap_err();
    assert_eq!(error.kind, SessionErrorKind::Resource);
    assert_eq!(error.operation.unwrap().stage, "managed_session_catalog");
    assert!(catalog.entries.is_empty());
}

#[test]
fn forgetting_a_locator_removes_every_registration_under_it() {
    let mut sessions = ManagedSessionsState {
        locators: vec![
            ("loc-a".into(), locator_record("a.session.antennabundle")),
            ("loc-b".into(), locator_record("b.session.antennabundle")),
            ("loc-a".into(), locator_record("c.session.antennabundle")),
        ],
    };
    sessions.forget("loc-a");
    assert_eq!(sessions.locators.len(), 1);
    assert_eq!(sessions.locators[0].0, "loc-b");
}

fn plain_entry(name: &str) -> ManagedCatalogEntry {
    let mut entry = ManagedCatalogEntry::problem(name.into(), ManagedEntryStatus::Available, "x", "y");
    entry.problems.clear();
    entry
}

#[test]
fn a_new_catalog_gets_fresh_locators_for_named_records_only() {
    let mut sessions = ManagedSessionsState { locators: vec![("stale".into(), locator_record("old.session.antennabundle"))] };
    let build = CatalogBuild {
        catalog: ManagedSessionCatalog::complete(vec![
            plain_entry("a.session.antennabundle"),
            plain_entry("broken"),
            plain_entry("b.session.antennabundle"),
        ]),
        records: vec![locator_record("a.session.antennabundle"), locator_record(""), locator_record("b.session.antennabundle")],
    };
    let catalog = sessions
        .replace_catalog(build, |_: &ManagedSessionCatalog| -> Result<usize, SessionErrorPayload> { Ok(10) })
        .unwrap();
    assert_eq!(catalog.status, CatalogStatus::Complete);
    assert!(catalog.entries[1].locator_id.is_none());
    let first = catalog.entries[0].locator_id.clone().unwrap();
    let third = catalog.entries[2].locator_id.clone().unwrap();
    assert_ne!(first, third);
    assert_eq!(first.len(), 36);
    assert_eq!(sessions.locators.len(), 2);
    assert!(sessions.resolve("stale").is_err());
    assert_eq!(sessions.resolve(&first).unwrap().bundle_name, "a.session.antennabundle");
    assert_eq!(sessions.resolve(&third).unwrap().bundle_name, "b.session.antennabundle");
}

#[test]
fn a_catalog_that_cannot_be_measured_keeps_the_old_locators() {
    let mut sessions = ManagedSessionsState { locators: vec![("kept".into(), locator_record("old.session.antennabundle"))] };
    let build = CatalogBuild {
        catalog: ManagedSessionCatalog::complete(vec![plain_entry("a.session.antennabundle")]),
        records: vec![locator_record("a.session.antennabundle")],
    };
    let error = sessions
        .replace_catalog(build, |_: &ManagedSessionCatalog| -> Result<usize, SessionErrorPayload> {
            Err(SessionErrorPayload::report_pipeline("cannot encode"))
        })
        .unwrap_err();
    assert_eq!(error.kind, SessionErrorKind::ReportPipeline);
    assert_eq!(sessions.locators.len(), 1);
    assert_eq!(sessions.locators[0].0, "kept");
}

fn loaded_session(source: &str) -> antennabench_desktop::desktop::ActiveSession {
    antennabench_desktop::desktop::ActiveSession {
        source: source.into(),
        summary: antennabench_desktop::desktop::OpenedSession {
            bundle_name: "a.session.antennabundle".into(),
            session_id: "s-1".into(),
            callsign: "N1RWJ".into(),
            grid: "FN42".into(),
            antenna_count: 2,
            slot_count: 4,
            observation_count: 0,
            schema_version: 2,
            revision: Some(3),
            lifecycle: None,
            report_available: false,
        },
        presentation: None,
        retained_presentation: None,
    }
}

fn fits_ipc(_: &antennabench_desktop::desktop::OpenedSession) -> Result<(), SessionErrorPayload> {
    Ok(())
}

#[test]
fn successful_managed_open_uses_the_shared_activation_path() {
    let managed = ManagedSessionsState { locators: vec![("loc-a".into(), locator_record("a.session.antennabundle"))] };
    let mut active = antennabench_desktop::desktop::DesktopState::default();
    let path = "/home/op/Saved/a.session.antennabundle";
    let outcome = open_managed_session_for(
        &managed,
        &mut active,
        "/home/op/Saved",
        "loc-a",
        |_: &LocatorRecord| -> Result<String, SessionErrorPayload> { Ok(path.to_string()) },
        |p: &str| Ok(loaded_session(p)),
        fits_ipc,
    )
    .unwrap();
    assert!(matches!(outcome, antennabench_desktop::desktop::OpenSessionOutcome::Opened { .. }));
    assert_eq!(active.export_source.as_deref(), Some(path));
    assert_eq!(active.active.as_ref().unwrap().source, path);
}

#[test]
fn managed_open_errors_name_saved_sessions_not_the_directory() {
    let managed = ManagedSessionsState { locators: vec![("loc-a".into(), locator_record("a.session.antennabundle"))] };
    let mut active = antennabench_desktop::desktop::DesktopState::default();
    let error = open_managed_session_for(
        &managed,
        &mut active,
        "/home/op/Saved",
        "loc-a",
        |_: &LocatorRecord| -> Result<String, SessionErrorPayload> {
            Err(SessionErrorPayload::new(
                SessionErrorKind::Filesystem,
                "The saved session is unavailable.",
                "/home/op/Saved/a.session.antennabundle is missing",
            ))
        },
        |p: &str| Ok(loaded_session(p)),
        fits_ipc,
    )
    .unwrap_err();
    assert_eq!(error.detail, "Saved sessions/a.session.antennabundle is missing");
    assert!(active.active.is_none());
    let unknown = open_managed_session_for(
        &managed,
        &mut active,
        "/home/op/Saved",
        "loc-x",
        |_: &LocatorRecord| -> Result<String, SessionErrorPayload> { Ok(String::new()) },
        |p: &str| Ok(loaded_session(p)),
        fits_ipc,
    )
    .unwrap_err();
    assert_eq!(unknown.kind, SessionErrorKind::Selection);
}

#[test]
fn a_saved_session_that_moves_while_opening_is_refused() {
    let managed = ManagedSessionsState { locators: vec![("loc-a".into(), locator_record("a.session.antennabundle"))] };
    let mut active = antennabench_desktop::desktop::DesktopState::default();
    let calls = std::cell::Cell::new(0);
    let error = open_managed_session_for(
        &managed,
        &mut active,
        "/home/op/Saved",
        "loc-a",
        |_: &LocatorRecord| -> Result<String, SessionErrorPayload> {
            calls.set(calls.get() + 1);
            if calls.get() == 1 {
                Ok("/home/op/Saved/a.session.antennabundle".to_string())
            } else {
                Ok("/home/op/Saved/b.session.antennabundle".to_string())
            }
        },
        |p: &str| Ok(loaded_session(p)),
        fits_ipc,
    )
    .unwrap_err();
    assert_eq!(error.kind, SessionErrorKind::Verification);
    assert!(active.active.is_none());
}

#[test]
fn creation_registration_returns_an_exact_narrow_managed_context() {
    let mut state = ManagedSessionsState::default();
    let bundle = "/home/op/sessions/a.session.antennabundle";
    let mut record = locator_record("a.session.antennabundle");
    record.fingerprint = Some(vec![4, 5, 6]);
    let context = state.register_created("loc-new".into(), record);
    let record = state.resolve(&context.locator_id).unwrap();
    assert_eq!(context.bundle_name, record.bundle_name);
    assert_eq!(context.origin_label, "Saved by AntennaBench");
    assert_eq!(revalidate_available(&record, Ok(bundle.to_string()), || Some(vec![4, 5, 6])).unwrap(), bundle);
}

#[test]
fn ipc_bound_covers_n_minus_one_n_and_n_plus_one() {
    let size = |c: &ManagedSessionCatalog| -> Result<usize, SessionErrorPayload> { Ok(100 * c.entries.len() + 7) };
    let base_entries = || vec![locator_entry("one.session.antennabundle", "bounded")];
    let n = size(&ManagedSessionCatalog::complete(base_entries())).unwrap();
    for (limit, expected_entries) in [(n - 1, 0), (n, 1), (n + 1, 1)] {
        let mut catalog = ManagedSessionCatalog::complete(base_entries());
        let mut sessions = ManagedSessionsState { locators: vec![("bounded".into(), locator_record("one.session.antennabundle"))] };
        fit_catalog_to_ipc_with_limit(&mut catalog, &mut sessions, limit, size).unwrap();
        assert_eq!(catalog.entries.len(), expected_entries, "limit={limit} n={n}");
        assert!(size(&catalog).unwrap() <= limit);
        assert_eq!(sessions.locators.len(), expected_entries);
    }
}

#[test]
fn valid_bundle_imports_losslessly_then_registers_the_published_direct_child() {
    let mut state = ManagedSessionsState::default();
    let root = "/home/op/Saved";
    let staged = RefCell::new(Vec::<String>::new());
    let outcome = import_managed_session_for(
        &mut state,
        root,
        "/home/op/Downloads/field.session.antennabundle",
        |p: &str| p.ends_with("/field.session.antennabundle"),
        |_: &str, staging: &str| {
            staged.borrow_mut().push(staging.to_string());
            Ok(())
        },
        |_: &str| Ok(()),
        |_: &str, _: &str| Ok(()),
        |name: &str| available(name, "s-1", None),
        |_: &str| {},
        |_: &str| false,
        |_: &str| Ok(()),
    )
    .unwrap();
    let location = match outcome {
        ImportManagedSessionOutcome::Imported { location } => location,
        other => panic!("unexpected {other:?}"),
    };
    assert_eq!(location.bundle_name, "field-2.session.antennabundle");
    assert_eq!(state.resolve(&location.locator_id).unwrap().bundle_name, "field-2.session.antennabundle");
    let staging = staged.borrow()[0].clone();
    assert!(staging.starts_with("/home/op/Saved/.import-staging-"));
    assert!(staging.ends_with(".session.antennabundle"));
}

#[test]
fn publication_failure_or_collision_leaves_no_staging_or_partial_bundle() {
    let mut state = ManagedSessionsState::default();
    let removed = RefCell::new(Vec::<String>::new());
    let error = import_managed_session_for(
        &mut state,
        "/home/op/Saved",
        "/home/op/Downloads/field.session.antennabundle",
        |_: &str| false,
        |_: &str, _: &str| Ok(()),
        |_: &str| Ok(()),
        |_: &str, _: &str| Err(PublishFailure { already_exists: true, message: "destination exists".into() }),
        |name: &str| available(name, "s-1", None),
        |_: &str| {},
        |_: &str| true,
        |staging: &str| {
            removed.borrow_mut().push(staging.to_string());
            Ok(())
        },
    )
    .unwrap_err();
    assert_eq!(error.kind, SessionErrorKind::Conflict);
    assert_eq!(removed.borrow().len(), 1);
    assert!(state.locators.is_empty());
}

#[test]
fn managed_row_exports_without_activation_and_revalidates_after_selection() {
    let managed = ManagedSessionsState { locators: vec![("loc-a".into(), locator_record("a.session.antennabundle"))] };
    let calls = std::cell::Cell::new(0);
    let outcome = export_managed_session_with_selection(
        &managed,
        "/home/op/Saved",
        "loc-a",
        |_: &LocatorRecord| -> Result<String, SessionErrorPayload> {
            calls.set(calls.get() + 1);
            Ok("/home/op/Saved/a.session.antennabundle".to_string())
        },
        |_: &str| Ok(Some("/tmp/out/a.session.antennabundle".to_string())),
        |_: &str, _: &str| Ok(("a.session.antennabundle".to_string(), Some(4))),
    )
    .unwrap();
    assert_eq!(outcome, ExportManagedSessionOutcome::Exported { bundle_name: "a.session.antennabundle".into(), revision: Some(4) });
    assert_eq!(calls.get(), 2);
}

#[test]
fn managed_row_export_cancellation_preserves_the_source_and_catalog() {
    let managed = ManagedSessionsState { locators: vec![("loc-a".into(), locator_record("a.session.antennabundle"))] };
    let outcome = export_managed_session_with_selection(
        &managed,
        "/home/op/Saved",
        "loc-a",
        |_: &LocatorRecord| -> Result<String, SessionErrorPayload> { Ok("/home/op/Saved/a.session.antennabundle".to_string()) },
        |_: &str| Ok(None),
        |_: &str, _: &str| -> Result<(String, Option<u64>), SessionErrorPayload> { panic!("nothing is exported") },
    )
    .unwrap();
    assert_eq!(outcome, ExportManagedSessionOutcome::Cancelled);
    assert_eq!(managed.locators.len(), 1);
}
