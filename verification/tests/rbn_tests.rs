use antennabench_desktop::control_model::{Band, SessionLifecycle};
use antennabench_desktop::errors::SessionErrorKind;
use antennabench_desktop::rbn::{
    rbn_archive_admission, rbn_import_config, rbn_read_admission, rbn_session_admission, RbnScheduleSlot,
};

fn slot(starts_at_ms: i64, duration_seconds: u32, guard_seconds: u32, meters: u16) -> RbnScheduleSlot {
    RbnScheduleSlot { starts_at_ms, duration_seconds, guard_seconds, band: Band { meters } }
}

#[test]
fn only_regular_archives_within_the_limit_are_admitted() {
    let not_file = rbn_archive_admission("/tmp/day.zip", false, 10, 100).unwrap_err();
    assert_eq!(not_file.kind, SessionErrorKind::Selection);
    assert_eq!(not_file.detail, "selected path: /tmp/day.zip");
    let large = rbn_archive_admission("/tmp/day.zip", true, 101, 100).unwrap_err();
    assert_eq!(large.kind, SessionErrorKind::Resource);
    assert_eq!(large.operation.unwrap().stage, "admission");
    assert!(rbn_archive_admission("/tmp/day.zip", true, 100, 100).is_ok());
    let grown = rbn_read_admission(101, 100).unwrap_err();
    assert_eq!(grown.operation.unwrap().stage, "read");
    assert!(rbn_read_admission(100, 100).is_ok());
}

#[test]
fn only_started_signal_sessions_take_rbn_evidence() {
    assert_eq!(rbn_session_admission(2, SessionLifecycle::Running).unwrap_err().kind, SessionErrorKind::Unsupported);
    let draft = rbn_session_admission(3, SessionLifecycle::Draft).unwrap_err();
    assert_eq!(draft.detail, "current lifecycle: Draft");
    assert_eq!(rbn_session_admission(3, SessionLifecycle::Ready).unwrap_err().detail, "current lifecycle: Ready");
    assert!(rbn_session_admission(3, SessionLifecycle::Running).is_ok());
    assert!(rbn_session_admission(3, SessionLifecycle::Ended).is_ok());
}

#[test]
fn the_import_window_spans_the_schedule_and_bands_are_listed_once() {
    let slots = vec![slot(120_000, 110, 10, 20), slot(0, 110, 10, 40), slot(240_000, 110, 20, 20)];
    let config = rbn_import_config(&slots, "N1RWJ").unwrap();
    assert_eq!(config.heard_callsign, "N1RWJ");
    assert_eq!(config.window_start_ms, 0);
    assert_eq!(config.window_end_ms, 370_000);
    assert_eq!(config.selected_bands, vec![Band { meters: 20 }, Band { meters: 40 }]);
}

#[test]
fn an_empty_or_overflowing_schedule_has_no_window() {
    assert_eq!(rbn_import_config(&Vec::new(), "N1RWJ").unwrap_err().detail, "the schedule has no slots");
    let overflowing = vec![slot(0, u32::MAX, 1, 20)];
    assert_eq!(rbn_import_config(&overflowing, "N1RWJ").unwrap_err().detail, "a scheduled slot end overflowed");
    let one_valid = vec![slot(0, u32::MAX, 1, 20), slot(1_000, 10, 0, 20)];
    assert_eq!(rbn_import_config(&one_valid, "N1RWJ").unwrap().window_end_ms, 11_000);
}
