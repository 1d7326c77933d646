use std::cell::RefCell;

use antennabench_desktop::automation::{
    persist_attempt, persist_continued_readiness, ContinuationMutation, ContinuationOutcome,
};
use antennabench_desktop::conductor_state::LivePersistenceError;
use antennabench_desktop::control_model::{
    AntennaControlInvocationPolicy, AntennaControlPolicy, AntennaOccupancy, Band, ControlSession, ExperimentMode,
    ProjectedCycle, SessionLifecycle, WsprCycleDirection, WsprCycleIntent, WsprRunProjection, WsprSignal,
};
use antennabench_desktop::controller_run::AntennaControlMutation;
use antennabench_desktop::desktop::{ActiveSession, DesktopState, OpenedSession};
use antennabench_desktop::errors::{SessionErrorKind, SessionErrorPayload};
use antennabench_desktop::operation_diagnostics::{DiagnosticOperation, DiagnosticTarget};
use antennabench_desktop::transition::continuation_identity;

const SOURCE: &str = "/sessions/live.session.antennabundle";

fn desktop_at(source: &str) -> DesktopState {
    let mut state = DesktopState::default();
    state.active = Some(ActiveSession {
        source: source.into(),
        summary: OpenedSession {
            bundle_name: "live.session.antennabundle".into(),
            session_id: "session-1".into(),
            callsign: "N1RWJ".into(),
            grid: "FN42".into(),
            antenna_count: 1,
            slot_count: 2,
            observation_count: 0,
            schema_version: 6,
            revision: Some(8),
            lifecycle: None,
            report_available: false,
        },
        presentation: None,
        retained_presentation: None,
    });
    state
}

fn intent(id: &str, sequence: u64) -> WsprCycleIntent {
    WsprCycleIntent {
        intent_id: id.into(),
        antenna_label: "Dipole".into(),
        direction: Some(WsprCycleDirection::Transmit),
        band: Band { meters: 20 },
        signal: Some(WsprSignal { signal_plan_id: "plan-1".into(), frequency_hz: 14_095_600 }),
        sequence_number: sequence,
    }
}

/// A running session whose first cycle was armed on Dipole and whose next
/// intention keeps the same station state.
fn continuing_session() -> ControlSession {
    ControlSession {
        session_id: "session-1".into(),
        callsign: "N1RWJ".into(),
        schema_version: 6,
        revision: 8,
        lifecycle: SessionLifecycle::Running,
        mode: ExperimentMode::WholeStationAb,
        intents: vec![intent("intent-1", 1), intent("intent-2", 2)],
        antenna_control: None,
        rig: Vec::new(),
        projection: WsprRunProjection {
            cycles: vec![ProjectedCycle {
                intent_id: "intent-1".into(),
                antenna_label: "Dipole".into(),
                ready_event_id: "ready-1".into(),
                ready_at_ms: 8_000,
                starts_at_ms: 9_000,
                transmission_ends_at_ms: 10_000,
                occupancy_fully_covers_transmission: true,
            }],
            skipped_intent_ids: Vec::new(),
            occupancies: vec![AntennaOccupancy { antenna_label: "Dipole".into(), ready_event_id: "ready-1".into(), ends_at_ms: None }],
        },
    }
}

fn continue_at(
    desktop: &DesktopState,
    session: ControlSession,
    now_ms: i64,
    append_result: Result<(), LivePersistenceError>,
    last_committed: Option<String>,
    appended: &RefCell<Option<ContinuationMutation>>,
) -> Result<ContinuationOutcome, SessionErrorPayload> {
    persist_continued_readiness(
        desktop,
        SOURCE,
        now_ms,
        move || Ok(session),
        |t: i64| Ok(t + 1_000),
        |m: ContinuationMutation| {
            *appended.borrow_mut() = Some(m);
            append_result
        },
        move || last_committed,
        || Ok(()),
    )
}

#[test]
fn continuation_waits_for_the_protected_transmission() {
    let appended = RefCell::new(None);
    let outcome = continue_at(&desktop_at(SOURCE), continuing_session(), 9_999, Ok(()), None, &appended).unwrap();
    assert_eq!(outcome, ContinuationOutcome::Waiting(10_000));
    assert!(appended.borrow().is_none());
}

#[test]
fn continuation_arms_the_next_cycle_with_a_retry_stable_identity() {
    let appended = RefCell::new(None);
    let outcome = continue_at(&desktop_at(SOURCE), continuing_session(), 10_000, Ok(()), None, &appended).unwrap();
    assert_eq!(outcome, ContinuationOutcome::Continued);
    let mutation = appended.borrow_mut().take().unwrap();
    let identity = continuation_identity("session-1", "ready-1", "intent-2");
    assert_eq!(mutation.expected_revision, 8);
    assert_eq!(mutation.mutation_id, format!("mutation-{identity}"));
    assert_eq!(mutation.event.event_id, format!("event-{identity}"));
    assert_eq!(mutation.event.mutation_id, "pending");
    assert_eq!(mutation.event.slot_id, "intent-2");
    assert_eq!(mutation.event.antenna_label, "Dipole");
    assert_eq!(mutation.event.cycle_starts_at_ms, 11_000);
    assert_eq!(mutation.event.recorded_at_ms, 10_000);
    assert_eq!(mutation.event.source_ready_event_id, "ready-1");
    assert_eq!(mutation.event.schema_version, 6);
}

#[test]
fn continuation_does_not_apply_to_other_or_older_sessions() {
    let appended = RefCell::new(None);
    let other = continue_at(&desktop_at("/sessions/other.session.antennabundle"), continuing_session(), 20_000, Ok(()), None, &appended);
    assert_eq!(other.unwrap(), ContinuationOutcome::NotApplicable);
    let mut older = continuing_session();
    older.schema_version = 5;
    assert_eq!(continue_at(&desktop_at(SOURCE), older, 20_000, Ok(()), None, &appended).unwrap(), ContinuationOutcome::NotApplicable);
    let mut changed = continuing_session();
    changed.intents[1].antenna_label = "Vertical".into();
    assert_eq!(continue_at(&desktop_at(SOURCE), changed, 20_000, Ok(()), None, &appended).unwrap(), ContinuationOutcome::NotApplicable);
    assert!(appended.borrow().is_none());
    assert!(continue_at(&DesktopState::default(), continuing_session(), 20_000, Ok(()), None, &appended).is_err());
}

#[test]
fn a_failed_continuation_append_counts_only_when_the_mutation_landed() {
    let appended = RefCell::new(None);
    let identity = continuation_identity("session-1", "ready-1", "intent-2");
    let landed = continue_at(
        &desktop_at(SOURCE),
        continuing_session(),
        10_000,
        Err(LivePersistenceError::WriterBusy),
        Some(format!("mutation-{identity}")),
        &appended,
    );
    assert_eq!(landed.unwrap(), ContinuationOutcome::Continued);
    let lost = continue_at(
        &desktop_at(SOURCE),
        continuing_session(),
        10_000,
        Err(LivePersistenceError::WriterBusy),
        Some("mutation-other".into()),
        &appended,
    );
    assert_eq!(lost.unwrap_err().kind, SessionErrorKind::Busy);
}

fn automatic_session() -> ControlSession {
    let mut s = continuing_session();
    s.schema_version = 5;
    s.projection = WsprRunProjection { cycles: Vec::new(), skipped_intent_ids: Vec::new(), occupancies: Vec::new() };
    s.antenna_control = Some(AntennaControlPolicy::CommandControlled {
        invocation: AntennaControlInvocationPolicy::Automatic,
        manual_review_required: false,
    });
    s
}

struct Persisted {
    operation: DiagnosticOperation,
    code: String,
    targets: Vec<DiagnosticTarget>,
    payload: SessionErrorPayload,
}

fn attempt(
    desktop: &DesktopState,
    session: ControlSession,
    switch_success: bool,
    verification_success: Option<bool>,
    appended: &RefCell<Option<AntennaControlMutation>>,
    persisted: &RefCell<Option<Persisted>>,
) -> Result<(), SessionErrorPayload> {
    persist_attempt(
        desktop,
        SOURCE,
        "intent-1",
        false,
        switch_success,
        verification_success,
        "rig-switch".into(),
        if verification_success.is_some() { Some("rig-verify".into()) } else { None },
        Some(4_000),
        "mutation-7".into(),
        Vec::new(),
        move || Ok(session),
        |m: AntennaControlMutation| {
            *appended.borrow_mut() = Some(m);
            Ok(())
        },
        || None,
        &|prefix: &str| format!("{prefix}-9"),
        &|ready: i64| Ok(ready + 116_000),
        |operation: DiagnosticOperation, code: &str, targets: Vec<DiagnosticTarget>, payload: SessionErrorPayload| {
            *persisted.borrow_mut() = Some(Persisted { operation, code: code.into(), targets, payload: payload.clone() });
            payload
        },
    )
}

#[test]
fn a_verified_automatic_attempt_arms_the_first_cycle() {
    let appended = RefCell::new(None);
    let persisted = RefCell::new(None);
    attempt(&desktop_at(SOURCE), automatic_session(), true, Some(true), &appended, &persisted).unwrap();
    let mutation = appended.borrow_mut().take().unwrap();
    assert_eq!(mutation.expected_revision, 8);
    assert_eq!(mutation.mutation_id, "mutation-7");
    let event = mutation.armed_event.unwrap();
    assert_eq!(event.event_id, "event-9");
    assert_eq!(event.cycle_starts_at_ms, 120_000);
    assert_eq!(event.switch_record_id, "rig-switch");
    assert_eq!(event.verification_record_id, "rig-verify");
    assert!(persisted.borrow().is_none());
}

#[test]
fn a_failed_automatic_switch_is_retained_and_recorded_as_a_failure() {
    let appended = RefCell::new(None);
    let persisted = RefCell::new(None);
    attempt(&desktop_at(SOURCE), automatic_session(), false, None, &appended, &persisted).unwrap();
    assert!(appended.borrow_mut().take().unwrap().armed_event.is_none());
    let record = persisted.borrow_mut().take().unwrap();
    assert_eq!(record.operation, DiagnosticOperation::AntennaControllerSwitch);
    assert_eq!(record.code, "controller.switch_failed");
    assert_eq!(record.targets, vec![DiagnosticTarget::Intent { id: "intent-1".into() }, DiagnosticTarget::Mutation { id: "mutation-7".into() }]);
    assert_eq!(record.payload.kind, SessionErrorKind::Conflict);
    assert_eq!(record.payload.message, "Antenna-controller evidence was retained, but readiness was not granted.");
    assert_eq!(record.payload.operation.as_ref().unwrap().stage, "acquire");
}

#[test]
fn automatic_evidence_is_refused_for_replaced_or_stopped_sessions() {
    let appended = RefCell::new(None);
    let persisted = RefCell::new(None);
    let replaced = attempt(&desktop_at("/sessions/other.session.antennabundle"), automatic_session(), true, Some(true), &appended, &persisted)
        .unwrap_err();
    assert_eq!(replaced.message, "The active session changed while antenna control was running.");
    let mut stopped = automatic_session();
    stopped.lifecycle = SessionLifecycle::Ended;
    let refused = attempt(&desktop_at(SOURCE), stopped, true, Some(true), &appended, &persisted).unwrap_err();
    assert_eq!(refused.message, "The session stopped while antenna control was running.");
    assert!(appended.borrow().is_none());
}
