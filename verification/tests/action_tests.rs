use antennabench_desktop::actions::CorrectablePayloadV2;
use antennabench_desktop::conductor_actions::{event_for_action, event_for_action_v3, event_summary, event_summary_v3, SignalConfirmation, PLAIN_SLOT_SCHEMA_VERSION};
use antennabench_desktop::conductor_state::PendingAction;
use antennabench_desktop::conductor_actions::{
    action_payload, action_payload_v3, correction_payload, correction_payload_v3, CorrectableAction, CorrectablePayload,
    ConductorAction, EventCorrection, OperatorEventPayload, ReadinessBasis,
};
use antennabench_desktop::errors::SessionErrorKind;

type Measured = (String, i32);

fn measured() -> Measured {
    ("cw".to_string(), 37)
}

fn next_cycle(at: i64) -> Result<i64, String> {
    Ok(at - at % 120_000 + 120_000)
}

#[test]
fn lifecycle_actions_trim_their_notes() {
    let start: ConductorAction<Measured> = ConductorAction::Start { note: Some("  clear band  ".into()) };
    assert_eq!(
        action_payload(start, 0).unwrap(),
        (None, OperatorEventPayload::SessionStarted { note: Some("clear band".into()) })
    );
    let end: ConductorAction<Measured> = ConductorAction::End { reason: Some("   ".into()) };
    assert_eq!(
        action_payload_v3(end, 0, 5, next_cycle).unwrap(),
        (None, OperatorEventPayload::SessionEnded { reason: None })
    );
}

#[test]
fn blank_required_fields_are_validation_errors() {
    let bad: ConductorAction<Measured> = ConductorAction::MarkBad { slot_id: "slot-1".into(), reason: "  ".into() };
    let error = action_payload(bad, 0).unwrap_err();
    assert_eq!(error.kind, SessionErrorKind::Validation);
    assert_eq!(error.message, "Complete the required conductor action field.");
    assert_eq!(error.detail, "reason must not be empty");

    let antenna: ConductorAction<Measured> =
        ConductorAction::ConfirmAntenna { slot_id: " ".into(), antenna_label: "".into(), note: None };
    assert_eq!(action_payload_v3(antenna, 0, 5, next_cycle).unwrap_err().detail, "slotId must not be empty");
}

#[test]
fn plain_slot_sessions_refuse_signal_state_and_cycle_intentions() {
    let signal: ConductorAction<Measured> = ConductorAction::ConfirmSignal {
        slot_id: "slot-1".into(),
        frequency_hz: Some(14_097_100),
        measured: measured(),
        transmitted_callsign: None,
        cadence_followed: None,
        note: None,
    };
    let error = action_payload(signal, 0).unwrap_err();
    assert_eq!(error.message, "Signal-state confirmation requires a schema-v3 session.");
    assert_eq!(error.detail, "schema-v2 events cannot represent actual signal state");

    let arm: ConductorAction<Measured> = ConductorAction::ArmWsprCycle { intent_id: "i-1".into(), antenna_label: "Dipole".into() };
    let error = action_payload(arm, 0).unwrap_err();
    assert_eq!(error.message, "Operator-paced WSPR actions require a current session.");

    let replacement: CorrectableAction<Measured> = CorrectableAction::ConfirmSignal {
        frequency_hz: None,
        measured: measured(),
        transmitted_callsign: None,
        cadence_followed: None,
        note: None,
    };
    assert!(correction_payload(replacement.clone()).is_err());
    assert!(correction_payload_v3(replacement).is_ok());
}

#[test]
fn arming_records_the_next_cycle_and_readiness_from_schema_five() {
    let arm = || -> ConductorAction<Measured> {
        ConductorAction::ArmWsprCycle { intent_id: " intent-7 ".into(), antenna_label: " Vertical ".into() }
    };
    let (slot, payload) = action_payload_v3(arm(), 130_000, 5, next_cycle).unwrap();
    assert_eq!(slot.as_deref(), Some("intent-7"));
    assert_eq!(
        payload,
        OperatorEventPayload::WsprCycleArmed {
            antenna_label: "Vertical".into(),
            cycle_starts_at_ms: 240_000,
            readiness: Some(ReadinessBasis::OperatorConfirmed),
        }
    );
    let (_, older) = action_payload_v3(arm(), 130_000, 4, next_cycle).unwrap();
    assert!(matches!(older, OperatorEventPayload::WsprCycleArmed { readiness: None, .. }));

    let failing = |_: i64| -> Result<i64, String> { Err("clock out of range".into()) };
    let error = action_payload_v3(arm(), 130_000, 5, failing).unwrap_err();
    assert_eq!(error.message, "The next WSPR cycle could not be calculated.");
    assert_eq!(error.detail, "clock out of range");
}

#[test]
fn skipping_a_cycle_marks_the_intent_missed() {
    let skip: ConductorAction<Measured> = ConductorAction::SkipWsprCycle { intent_id: "intent-2".into(), reason: Some(" rain ".into()) };
    assert_eq!(
        action_payload_v3(skip, 0, 5, next_cycle).unwrap(),
        (Some("intent-2".into()), OperatorEventPayload::SlotMissed { reason: Some("rain".into()) })
    );
}

#[test]
fn replacing_an_event_keeps_the_action_time_and_trimmed_fields() {
    let replace: ConductorAction<Measured> = ConductorAction::ReplaceEvent {
        target_event_id: " evt-9 ".into(),
        slot_id: Some("slot-3".into()),
        replacement: CorrectableAction::AddNote { note: " wet feedline ".into() },
        reason: " typo ".into(),
    };
    let (slot, payload) = action_payload(replace, 42_000).unwrap();
    assert_eq!(slot, None);
    assert_eq!(
        payload,
        OperatorEventPayload::EventCorrected {
            target_event_id: "evt-9".into(),
            correction: EventCorrection::Replace {
                occurred_at_ms: 42_000,
                slot_id: Some("slot-3".into()),
                payload: CorrectablePayload::NoteAdded { note: "wet feedline".into() },
            },
            reason: "typo".into(),
        }
    );

    let retract: ConductorAction<Measured> = ConductorAction::RetractEvent { target_event_id: "evt-9".into(), reason: "".into() };
    assert_eq!(action_payload_v3(retract, 0, 5, next_cycle).unwrap_err().detail, "reason must not be empty");
}

#[test]
fn signal_confirmation_keeps_measured_values() {
    let signal: ConductorAction<Measured> = ConductorAction::ConfirmSignal {
        slot_id: "slot-4".into(),
        frequency_hz: Some(14_097_100),
        measured: measured(),
        transmitted_callsign: Some(" K1ABC ".into()),
        cadence_followed: Some(true),
        note: Some("".into()),
    };
    let (slot, payload) = action_payload_v3(signal, 0, 5, next_cycle).unwrap();
    assert_eq!(slot.as_deref(), Some("slot-4"));
    match payload {
        OperatorEventPayload::SignalStateConfirmed { confirmation } => {
            assert_eq!(confirmation.frequency_hz, Some(14_097_100));
            assert_eq!(confirmation.measured, measured());
            assert_eq!(confirmation.transmitted_callsign.as_deref(), Some("K1ABC"));
            assert_eq!(confirmation.cadence_followed, Some(true));
            assert_eq!(confirmation.note, None);
        }
        other => panic!("unexpected payload {other:?}"),
    }
}

#[test]
fn effective_facts_are_summarized_for_the_timeline() {
    let (kind, summary) = event_summary(&CorrectablePayloadV2::AntennaStateConfirmed { antenna_label: "Dipole".into(), note: None });
    assert_eq!((kind, summary.as_str()), ("antenna_state_confirmed", "Actual antenna confirmed as Dipole."));
    let (_, noted) = event_summary(&CorrectablePayloadV2::AntennaStateConfirmed {
        antenna_label: "Dipole".into(),
        note: Some("swr 1.2".into()),
    });
    assert_eq!(noted, "Actual antenna confirmed as Dipole: swr 1.2");
    assert_eq!(event_summary(&CorrectablePayloadV2::SlotMissed { reason: None }).1, "Slot marked missed.");
    let signal: CorrectablePayload<Measured> = CorrectablePayload::SignalStateConfirmed {
        confirmation: SignalConfirmation {
            frequency_hz: None,
            measured: measured(),
            transmitted_callsign: None,
            cadence_followed: None,
            note: None,
        },
    };
    assert_eq!(
        event_summary_v3(&signal),
        ("signal_state_confirmed", "Actual transmitted signal state confirmed by the operator.".to_string())
    );
    let bad: CorrectablePayload<Measured> = CorrectablePayload::SlotBad { reason: "QRM".into() };
    assert_eq!(event_summary_v3(&bad), ("slot_bad", "QRM".to_string()));
}

#[test]
fn events_are_recorded_under_the_presenting_token() {
    let untimed = PendingAction { token: "tok-1".into(), session_id: "s".into(), expected_revision: 1, occurred_at_ms: None };
    let start: ConductorAction<Measured> = ConductorAction::Start { note: None };
    let error = event_for_action("s", &untimed, start).unwrap_err();
    assert_eq!(error.detail, "conductor action time was not initialized");

    let timed = PendingAction { occurred_at_ms: Some(90_000), ..untimed };
    let note: ConductorAction<Measured> = ConductorAction::AddNote { slot_id: None, note: " windy ".into() };
    let event = event_for_action("session-9", &timed, note).unwrap();
    assert_eq!(event.schema_version, PLAIN_SLOT_SCHEMA_VERSION);
    assert_eq!(event.event_id, "event-for-tok-1");
    assert_eq!(event.mutation_id, "tok-1");
    assert_eq!(event.session_id, "session-9");
    assert_eq!((event.recorded_at_ms, event.occurred_at_ms), (90_000, 90_000));
    assert_eq!(event.payload, OperatorEventPayload::NoteAdded { note: "windy".into() });

    let arm: ConductorAction<Measured> = ConductorAction::ArmWsprCycle { intent_id: "i".into(), antenna_label: "Dipole".into() };
    let armed = event_for_action_v3("session-9", 6, &timed, arm, next_cycle).unwrap();
    assert_eq!(armed.schema_version, 6);
    assert_eq!(armed.slot_id.as_deref(), Some("i"));
    assert!(matches!(armed.payload, OperatorEventPayload::WsprCycleArmed { cycle_starts_at_ms: 120_000, .. }));
}
