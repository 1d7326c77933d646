use std::cell::{Cell, RefCell};

use antennabench_desktop::conductor_actions::{ConductorAction, OperatorEventPayload};
use antennabench_desktop::conductor_session::{
    mutate_conductor_v2, mutate_conductor_v3, read_conductor, ConductorEventMutation, ConductorMutationRequest,
};
use antennabench_desktop::conductor_state::{register_view_action, ConductorRuntime, LivePersistenceError};
use antennabench_desktop::conductor_view::{
    ConductorView, CycleRunSources, EventReduction, RecoveryDisposition, RecoveryReport, ScheduleSlot, SlotRunSources,
};
use antennabench_desktop::control_model::{Band, ControlSession, ExperimentMode, SessionLifecycle, WsprRunProjection};
use antennabench_desktop::errors::SessionErrorKind;
use antennabench_desktop::open_errors::StoreError;

type View = ConductorView<f32, &'static str, f32>;

const SOURCE: &str = "/sessions/live.session.antennabundle";

fn cycle_sources(revision: u64) -> CycleRunSources<f32, &'static str, f32> {
    CycleRunSources {
        session: ControlSession {
            session_id: "session-1".into(),
            callsign: "N1RWJ".into(),
            schema_version: 6,
            revision,
            lifecycle: SessionLifecycle::Running,
            mode: ExperimentMode::TxFocused,
            intents: Vec::new(),
            antenna_control: None,
            rig: Vec::new(),
            projection: WsprRunProjection { cycles: Vec::new(), skipped_intent_ids: Vec::new(), occupancies: Vec::new() },
        },
        wspr_live_acquisition_enabled: true,
        antennas: vec!["Dipole".into()],
        recorded_slots: Vec::new(),
        projected_slots: Vec::new(),
        signal_plans: Vec::new(),
        events: Vec::new(),
        reduction: EventReduction { lifecycle: SessionLifecycle::Running, effective: Vec::new(), diagnostics: Vec::new() },
        run_diagnostics: Vec::new(),
    }
}

fn slot_sources(revision: u64) -> SlotRunSources {
    SlotRunSources {
        session_id: "session-2".into(),
        revision,
        lifecycle: SessionLifecycle::Running,
        wspr_live_acquisition_enabled: false,
        antennas: vec!["Dipole".into()],
        slots: vec![ScheduleSlot {
            slot_id: "slot-1".into(),
            sequence_number: 1,
            starts_at_ms: 0,
            guard_seconds: 0,
            duration_seconds: 120,
            band: Band { meters: 20 },
            antenna_label: "Dipole".into(),
            signal: None,
        }],
        reduction: EventReduction { lifecycle: SessionLifecycle::Running, effective: Vec::new(), diagnostics: Vec::new() },
    }
}

fn note(token: &str, revision: u64) -> ConductorMutationRequest<f32> {
    ConductorMutationRequest {
        action_token: token.into(),
        expected_revision: revision,
        action: ConductorAction::AddNote { slot_id: None, note: " feedline checked ".into() },
    }
}

#[test]
fn an_action_under_an_issued_token_writes_one_event_and_issues_a_fresh_view() {
    let mut conductor = ConductorRuntime::new();
    register_view_action(&mut conductor, "session-1", 4, "token-1".into());
    let reads = Cell::new(0u64);
    let read = || {
        reads.set(reads.get() + 1);
        Ok(cycle_sources(3 + reads.get()))
    };
    let written: RefCell<Option<ConductorEventMutation<f32>>> = RefCell::new(None);
    let view: View = mutate_conductor_v3(
        &mut conductor,
        "live".into(),
        note("token-1", 4),
        7_000,
        8_000,
        "token-2".into(),
        &read,
        |t: i64| Ok(t),
        |m: ConductorEventMutation<f32>| {
            *written.borrow_mut() = Some(m);
            Ok(())
        },
        || None,
        |_: &View| Ok(1_024),
    )
    .unwrap();
    let mutation = written.borrow_mut().take().unwrap();
    assert_eq!(mutation.expected_revision, 4);
    assert_eq!(mutation.mutation_id, "token-1");
    assert_eq!(mutation.event.occurred_at_ms, 7_000);
    assert_eq!(mutation.event.event_id, "event-for-token-1");
    assert_eq!(mutation.event.payload, OperatorEventPayload::NoteAdded { note: "feedline checked".into() });
    assert_eq!(view.revision, 5);
    assert_eq!(view.action_token, "token-2");
    assert_eq!(view.now_ms, 8_000);
    assert_eq!(conductor.pending_actions.len(), 2);
    assert_eq!(conductor.pending_actions[1].expected_revision, 5);
}

#[test]
fn unknown_or_mismatched_tokens_are_refused_before_anything_is_written() {
    let mut conductor = ConductorRuntime::new();
    register_view_action(&mut conductor, "session-1", 4, "token-1".into());
    let read = || Ok(cycle_sources(4));
    let refuse = |conductor: &mut ConductorRuntime, request: ConductorMutationRequest<f32>| {
        let result: Result<View, _> = mutate_conductor_v3(
            conductor,
            "live".into(),
            request,
            7_000,
            8_000,
            "token-2".into(),
            &read,
            |t: i64| Ok(t),
            |_: ConductorEventMutation<f32>| -> Result<(), LivePersistenceError> { panic!("nothing may be written") },
            || None,
            |_: &View| Ok(0),
        );
        result.unwrap_err()
    };
    let unknown = refuse(&mut conductor, note("token-9", 4));
    assert_eq!(unknown.kind, SessionErrorKind::StaleRevision);
    assert_eq!(unknown.message, "Refresh the conductor before submitting this action.");
    assert_eq!(unknown.detail, "the Rust-issued action token is missing or expired");
    let stale = refuse(&mut conductor, note("token-1", 3));
    assert_eq!(stale.detail, "the action token does not match this session revision");
}

#[test]
fn a_lost_acknowledgement_counts_when_the_mutation_landed() {
    let mut conductor = ConductorRuntime::new();
    register_view_action(&mut conductor, "session-2", 1, "token-1".into());
    let read = || Ok(slot_sources(1));
    let landed: Result<View, _> = mutate_conductor_v2(
        &mut conductor,
        "plain".into(),
        ConductorMutationRequest {
            action_token: "token-1".into(),
            expected_revision: 1,
            action: ConductorAction::ConfirmAntenna { slot_id: "slot-1".into(), antenna_label: "Dipole".into(), note: None },
        },
        30_000,
        31_000,
        "token-2".into(),
        &read,
        |_: ConductorEventMutation<f32>| Err(LivePersistenceError::WriterBusy),
        || Some("token-1".into()),
        |_: &View| Ok(10),
    );
    assert_eq!(landed.unwrap().session_id, "session-2");
    let lost: Result<View, _> = mutate_conductor_v2(
        &mut conductor,
        "plain".into(),
        note("token-1", 1),
        30_000,
        31_000,
        "token-3".into(),
        &read,
        |_: ConductorEventMutation<f32>| Err(LivePersistenceError::WriterBusy),
        || None,
        |_: &View| Ok(10),
    );
    assert_eq!(lost.unwrap_err().kind, SessionErrorKind::Busy);
}

fn report() -> RecoveryReport {
    RecoveryReport {
        disposition: RecoveryDisposition::RolledForward,
        starting_revision: 3,
        final_revision: 4,
        artifact_count: 1,
        interruption_recorded: true,
    }
}

#[test]
fn the_first_read_recovers_the_session_and_later_reads_do_not() {
    let mut conductor = ConductorRuntime::new();
    let recovered = Cell::new(0);
    let mut read_once = |token: &str| -> View {
        read_conductor(
            &mut conductor,
            SOURCE,
            "live".into(),
            Ok(6),
            9_000,
            token.into(),
            |version: u16| {
                assert_eq!(version, 6);
                recovered.set(recovered.get() + 1);
                Ok(report())
            },
            || -> Result<SlotRunSources, LivePersistenceError> { panic!("not a plain-slot session") },
            || Ok(cycle_sources(4)),
            |_: &View| Ok(100),
        )
        .unwrap()
    };
    let first = read_once("token-1");
    assert_eq!(first.recovery.as_ref().unwrap().disposition, "rolled_forward");
    let second = read_once("token-2");
    assert!(second.recovery.is_none());
    assert_eq!(recovered.get(), 1);
    assert_eq!(conductor.pending_actions.len(), 2);
    assert_eq!(conductor.initialized_source.as_deref(), Some(SOURCE));
}

#[test]
fn reads_refuse_unconductible_sources_and_schemas() {
    let mut conductor = ConductorRuntime::new();
    let mut read_with = |source: &str, schema: Result<u16, StoreError>, limit: usize| {
        let result: Result<View, _> = read_conductor(
            &mut conductor,
            source,
            "live".into(),
            schema,
            9_000,
            "token".into(),
            |_: u16| Ok(report()),
            || Ok(slot_sources(1)),
            || Ok(cycle_sources(1)),
            move |_: &View| Ok(limit),
        );
        result
    };
    let legacy = read_with("/sessions/old.antennabundle", Ok(2), 1).unwrap_err();
    assert_eq!(legacy.kind, SessionErrorKind::Unsupported);
    assert_eq!(legacy.message, "The live conductor requires a checkpointed session bundle.");
    let future = read_with(SOURCE, Ok(9), 1).unwrap_err();
    assert_eq!(future.detail, "unsupported schema version 9");
    let unreadable = read_with(SOURCE, Err(StoreError::UnsupportedSchemaVersion { actual: 1 }), 1).unwrap_err();
    assert_eq!(unreadable.detail, "unsupported schema version 1");
    let oversized = read_with(SOURCE, Ok(2), 600_000).unwrap_err();
    assert_eq!(oversized.kind, SessionErrorKind::Resource);
    let plain = read_with(SOURCE, Ok(2), 10).unwrap();
    assert_eq!(plain.slots.len(), 1);
}
