use antennabench_desktop::actions::CorrectablePayloadV2;
use antennabench_desktop::conductor_actions::{CorrectablePayload, OperatorEvent, OperatorEventPayload, ReadinessBasis, SignalConfirmation};
use antennabench_desktop::conductor_view::{
    build_view, build_view_v3, event_views_v3, recovery_view, CycleRunSources, EffectiveFact, EventReduction,
    ProjectionDiagnostic, RecoveryDisposition, RecoveryReport, ScheduleSlot, SignalEvidenceStatus, SignalPlan,
    SlotRunSources,
};
use antennabench_desktop::control_model::{
    AntennaOccupancy, Band, ControlSession, ExperimentMode, ProjectedCycle, SessionLifecycle, WsprCycleDirection,
    WsprCycleIntent, WsprRunProjection, WsprSignal,
};
use antennabench_desktop::timing::{ConductorPhase, SlotEvidenceStatus};
use antennabench_desktop::transition::TransitionDisposition;

fn allocation() -> Option<WsprSignal> {
    Some(WsprSignal { signal_plan_id: "plan-1".into(), frequency_hz: 14_095_600 })
}

fn intent(id: &str, antenna: &str, sequence: u64) -> WsprCycleIntent {
    WsprCycleIntent {
        intent_id: id.into(),
        antenna_label: antenna.into(),
        direction: Some(WsprCycleDirection::Transmit),
        band: Band { meters: 20 },
        signal: allocation(),
        sequence_number: sequence,
    }
}

fn slot(id: &str, antenna: &str, sequence: u32, starts_at_ms: i64) -> ScheduleSlot {
    ScheduleSlot {
        slot_id: id.into(),
        sequence_number: sequence,
        starts_at_ms,
        guard_seconds: 1,
        duration_seconds: 120,
        band: Band { meters: 20 },
        antenna_label: antenna.into(),
        signal: None,
    }
}

fn event(id: &str, at: i64, slot_id: Option<&str>, payload: OperatorEventPayload<f32>) -> OperatorEvent<f32> {
    OperatorEvent {
        schema_version: 6,
        session_id: "session-1".into(),
        recorded_at_ms: at,
        mutation_id: format!("mutation-{id}"),
        event_id: id.into(),
        occurred_at_ms: at,
        slot_id: slot_id.map(String::from),
        payload,
    }
}

fn fact<P>(id: &str, at: i64, slot_id: &str, payload: P) -> EffectiveFact<P> {
    EffectiveFact {
        source_event_id: id.into(),
        effective_through_event_id: id.into(),
        occurred_at_ms: at,
        slot_id: Some(slot_id.into()),
        payload,
        signal_findings: Vec::new(),
    }
}

fn confirmation(note: Option<&str>) -> CorrectablePayload<f32> {
    CorrectablePayload::SignalStateConfirmed {
        confirmation: SignalConfirmation {
            frequency_hz: Some(14_095_600),
            measured: 4.5,
            transmitted_callsign: Some("N1RWJ".into()),
            cadence_followed: Some(true),
            note: note.map(String::from),
        },
    }
}

fn cycle_sources() -> CycleRunSources<f32, &'static str, f32> {
    CycleRunSources {
        session: ControlSession {
            session_id: "session-1".into(),
            callsign: "N1RWJ".into(),
            schema_version: 6,
            revision: 12,
            lifecycle: SessionLifecycle::Running,
            mode: ExperimentMode::WholeStationAb,
            intents: vec![intent("intent-1", "Dipole", 1), intent("intent-2", "Vertical", 2)],
            antenna_control: None,
            rig: Vec::new(),
            projection: WsprRunProjection {
                cycles: vec![ProjectedCycle {
                    intent_id: "intent-1".into(),
                    antenna_label: "Dipole".into(),
                    ready_event_id: "ready-1".into(),
                    ready_at_ms: 100_000,
                    starts_at_ms: 120_000,
                    transmission_ends_at_ms: 230_600,
                    occupancy_fully_covers_transmission: true,
                }],
                skipped_intent_ids: Vec::new(),
                occupancies: vec![AntennaOccupancy { antenna_label: "Dipole".into(), ready_event_id: "ready-1".into(), ends_at_ms: None }],
            },
        },
        wspr_live_acquisition_enabled: false,
        antennas: vec!["Dipole".into(), "Vertical".into()],
        recorded_slots: vec![slot("intent-1", "Dipole", 1, 118_000), slot("intent-2", "Vertical", 2, 240_000)],
        projected_slots: vec![slot("intent-1", "Dipole", 1, 118_000), slot("intent-2", "Vertical", 2, 240_000)],
        signal_plans: vec![SignalPlan {
            signal_plan_id: "plan-1".into(),
            mode: "wspr",
            planned_power_watts: Some(5.0),
            transmitted_callsign: "N1RWJ".into(),
            message: "N1RWJ FN42 37".into(),
            repetition_count: 1,
            key_speed_wpm: None,
            transmit_seconds: 110,
            interval_seconds: 120,
        }],
        events: vec![
            event("switch-1", 50_000, None, OperatorEventPayload::AntennaSwitchStarted { note: None }),
            event(
                "ready-1",
                100_000,
                Some("intent-1"),
                OperatorEventPayload::WsprCycleArmed {
                    antenna_label: "Dipole".into(),
                    cycle_starts_at_ms: 120_000,
                    readiness: Some(ReadinessBasis::CommandVerified {
                        switch_record_id: "rig-1".into(),
                        verification_record_id: "rig-2".into(),
                    }),
                },
            ),
        ],
        reduction: EventReduction {
            lifecycle: SessionLifecycle::Running,
            effective: vec![
                fact("confirm-1", 110_000, "intent-1", CorrectablePayload::AntennaStateConfirmed { antenna_label: "Dipole".into(), note: None }),
                fact("signal-1", 115_000, "intent-1", confirmation(None)),
                fact("note-1", 40_000, "intent-2", CorrectablePayload::NoteAdded { note: "feedline checked".into() }),
            ],
            diagnostics: vec![ProjectionDiagnostic { code: "UnknownTarget".into(), message: "target missing".into(), event_id: "event-9".into() }],
        },
        run_diagnostics: vec![ProjectionDiagnostic { code: "wspr.cycle.late".into(), message: "armed late".into(), event_id: "ready-1".into() }],
    }
}

#[test]
fn the_cycle_view_shows_slots_events_and_the_next_transition() {
    let view = build_view_v3(
        "run.session.antennabundle".into(),
        &cycle_sources(),
        200_000,
        "token-1".into(),
        None,
    );
    assert_eq!(view.session_id, "session-1");
    assert_eq!(view.revision, 12);
    assert_eq!(view.phase, ConductorPhase::Active);
    assert_eq!(view.guidance, "WSPR cycle 1 is transmitting on 20m. Keep Dipole connected until the WSPR period completes.");
    assert_eq!(view.seconds_to_transition, Some(30));
    assert!(!view.wsjtx_required);
    assert_eq!(view.antenna_in_use.as_deref(), Some("Dipole"));

    let first = &view.slots[0];
    assert_eq!((first.timing.starts_at_ms, first.timing.usable_at_ms, first.timing.ends_at_ms), (120_000, 120_000, 230_600));
    assert_eq!(first.timing.evidence_status, SlotEvidenceStatus::Confirmed);
    assert_eq!(first.timing.actual_antenna.as_deref(), Some("Dipole"));
    assert_eq!(first.timing.band, "20m");
    assert_eq!(first.signal_status, SignalEvidenceStatus::Confirmed);
    let planned = first.planned_signal.as_ref().unwrap();
    assert_eq!((planned.mode, planned.frequency_hz, planned.planned_power_watts), ("wspr", 14_095_600, Some(5.0)));
    assert_eq!(first.actual_signal.as_ref().unwrap().measured, 4.5);
    assert_eq!(view.current_slot.as_ref().unwrap().timing.slot_id, "intent-1");

    let second = &view.slots[1];
    assert_eq!((second.timing.starts_at_ms, second.timing.usable_at_ms, second.timing.ends_at_ms), (240_000, 241_000, 360_000));
    assert_eq!(second.timing.evidence_status, SlotEvidenceStatus::Unknown);
    assert_eq!(second.timing.planned_antenna, "Vertical");
    assert_eq!(second.signal_status, SignalEvidenceStatus::Missing);

    let next = view.next_intent.as_ref().unwrap();
    assert_eq!(next.intent_id, "intent-2");
    assert_eq!(next.band, "20m");
    assert_eq!(next.transition.antenna, TransitionDisposition::OperatorActionRequired);
    assert!(next.operator_action_required);

    let kinds: Vec<&str> = view.effective_events.iter().map(|e| e.kind.as_str()).collect();
    assert_eq!(kinds, vec!["note_added", "antenna_switch_started", "wspr_cycle_armed", "antenna_state_confirmed", "signal_state_confirmed"]);
    assert_eq!(view.effective_events[1].summary, "Antenna switching started; occupancy is unknown.");
    assert_eq!(view.effective_events[2].summary, "Command verification made Dipole ready; WSPR cycle armed for 1970-01-01 00:02:00 UTC.");
    assert_eq!(view.effective_events[4].summary, "Actual transmitted signal state confirmed by the operator.");

    let codes: Vec<&str> = view.diagnostics.iter().map(|d| d.code.as_str()).collect();
    assert_eq!(codes, vec!["operator_event.unknowntarget", "wspr.cycle.late"]);
    assert_eq!(view.diagnostics[0].event_id.as_deref(), Some("event-9"));
    assert!(view.diagnostics[0].slot_id.is_none());
}

#[test]
fn competing_or_deviating_signal_confirmations_are_diagnosed_per_slot() {
    let mut sources = cycle_sources();
    sources.reduction.effective.push(fact("signal-2", 116_000, "intent-1", confirmation(Some("second reading"))));
    let mut deviated = fact("signal-3", 250_000, "intent-2", confirmation(None));
    deviated.signal_findings = vec![ProjectionDiagnostic { code: "signal.frequency_mismatch".into(), message: "off frequency".into(), event_id: "signal-3".into() }];
    sources.reduction.effective.push(deviated);
    let view = build_view_v3("run".into(), &sources, 200_000, "token-1".into(), None);
    assert_eq!(view.slots[0].signal_status, SignalEvidenceStatus::Conflicting);
    assert!(view.slots[0].actual_signal.is_none());
    assert_eq!(view.slots[1].signal_status, SignalEvidenceStatus::Deviated);
    let slot_diagnostics: Vec<(&str, Option<&str>, Option<&str>)> = view.diagnostics[2..]
        .iter()
        .map(|d| (d.code.as_str(), d.slot_id.as_deref(), d.event_id.as_deref()))
        .collect();
    assert_eq!(
        slot_diagnostics,
        vec![("conductor.signal.conflicting_evidence", Some("intent-1"), None), ("signal.frequency_mismatch", Some("intent-2"), None)]
    );
}

#[test]
fn conflicting_antenna_facts_leave_the_slot_unresolved() {
    let mut sources = cycle_sources();
    sources.reduction.effective.push(fact(
        "confirm-2",
        112_000,
        "intent-1",
        CorrectablePayload::AntennaStateConfirmed { antenna_label: "Vertical".into(), note: None },
    ));
    let view = build_view_v3("run".into(), &sources, 200_000, "token-1".into(), None);
    assert_eq!(view.slots[0].timing.evidence_status, SlotEvidenceStatus::Conflicting);
    assert!(view.slots[0].timing.actual_antenna.is_none());
    assert_eq!(view.diagnostics[2].code, "conductor.slot.conflicting_evidence");
    assert_eq!(view.diagnostics[2].message, "Competing effective operator facts keep this slot conservatively unresolved.");
}

#[test]
fn an_armed_cycle_confirms_an_otherwise_unknown_slot_and_a_switch_start_means_switching() {
    let mut sources = cycle_sources();
    sources.reduction.effective.clear();
    sources.events.reverse();
    let view = build_view_v3("run".into(), &sources, 100_500, "token-1".into(), None);
    assert_eq!(view.slots[0].timing.evidence_status, SlotEvidenceStatus::Confirmed);
    assert_eq!(view.slots[0].timing.actual_antenna.as_deref(), Some("Dipole"));
    let kinds: Vec<&str> = view.effective_events.iter().map(|e| e.kind.as_str()).collect();
    assert_eq!(kinds, vec!["antenna_switch_started", "wspr_cycle_armed"]);
}

#[test]
fn events_at_the_same_instant_keep_their_order() {
    let facts = vec![
        fact("b", 10, "s", CorrectablePayload::<f32>::NoteAdded { note: "second".into() }),
        fact("a", 5, "s", CorrectablePayload::<f32>::NoteAdded { note: "first".into() }),
        fact("c", 10, "s", CorrectablePayload::<f32>::NoteAdded { note: "third".into() }),
    ];
    let views = event_views_v3(&facts, &Vec::new());
    let ids: Vec<&str> = views.iter().map(|v| v.source_event_id.as_str()).collect();
    assert_eq!(ids, vec!["a", "b", "c"]);
}

#[test]
fn the_slot_view_shows_plain_slots_and_their_evidence() {
    let sources = SlotRunSources {
        session_id: "session-2".into(),
        revision: 4,
        lifecycle: SessionLifecycle::Running,
        wspr_live_acquisition_enabled: false,
        antennas: vec!["Dipole".into()],
        slots: vec![slot("slot-1", "Dipole", 1, 0), slot("slot-2", "Dipole", 2, 120_000)],
        reduction: EventReduction {
            lifecycle: SessionLifecycle::Running,
            effective: vec![
                fact("e1", 10_000, "slot-1", CorrectablePayloadV2::AntennaStateConfirmed { antenna_label: "Loop".into(), note: None }),
                fact("e2", 130_000, "slot-2", CorrectablePayloadV2::SlotMissed { reason: None }),
                fact("e3", 131_000, "slot-2", CorrectablePayloadV2::SlotBad { reason: "QRM".into() }),
            ],
            diagnostics: Vec::new(),
        },
    };
    let view = build_view::<f32, &'static str, f32>("plain".into(), &sources, 60_000, "token-2".into(), None);
    assert_eq!(view.phase, ConductorPhase::Active);
    assert_eq!(view.antenna_in_use.as_deref(), Some("Loop"));
    assert_eq!(view.slots[0].timing.usable_at_ms, 1_000);
    assert_eq!(view.slots[0].timing.ends_at_ms, 120_000);
    assert_eq!(view.slots[1].timing.evidence_status, SlotEvidenceStatus::Conflicting);
    assert_eq!(view.slots[1].signal_status, SignalEvidenceStatus::NotPlanned);
    assert!(view.next_intent.is_none());
    assert!(!view.wsjtx_required);
    assert_eq!(view.diagnostics.len(), 1);
    assert_eq!(view.diagnostics[0].slot_id.as_deref(), Some("slot-2"));
    assert_eq!(view.effective_events[0].summary, "Actual antenna confirmed as Loop.");
}

#[test]
fn recovery_dispositions_are_named_in_snake_case() {
    let report = RecoveryReport {
        disposition: RecoveryDisposition::IdempotentTailRemoved,
        starting_revision: 7,
        final_revision: 6,
        artifact_count: 2,
        interruption_recorded: true,
    };
    let view = recovery_view(&report);
    assert_eq!(view.disposition, "idempotent_tail_removed");
    assert_eq!((view.starting_revision, view.final_revision, view.artifact_count), (7, 6, 2));
    assert!(view.interruption_recorded);
    assert_eq!(recovery_view(&RecoveryReport { disposition: RecoveryDisposition::RolledForward, ..report }).disposition, "rolled_forward");
}
