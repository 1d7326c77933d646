use antennabench_desktop::conductor_actions::{CorrectablePayload, EventCorrection, OperatorEvent, OperatorEventPayload, ReadinessBasis, SignalConfirmation};
use antennabench_desktop::control_model::{
    AntennaControlCommand, AntennaControlContext, AntennaControlDisposition, AntennaControlInvocation, AntennaControlOutput,
    AntennaControlOutputEncoding, AntennaControlRole, Band, ControlSession, ExperimentMode, ProjectedCycle, RigRecord,
    SessionLifecycle, WsprCycleDirection, WsprCycleIntent, WsprRunProjection,
};
use antennabench_desktop::report_snapshot::{
    report_adapter_evidence, control_attempts, lifecycle_events, project_operator_events_v2, project_operator_events_v3,
    report_snapshot, report_snapshot_v3, AdapterDisposition, AdapterRecord, ReportEventCorrectionAction,
    ReportLifecycleEventKind, ReportOperatorEventKind, ReportWsprAttribution, ReportWsprReadinessBasis, WsprLiveCounts,
    WsprLiveImport,
};

fn event(id: &str, at: i64, slot_id: Option<&str>, payload: OperatorEventPayload<f32>) -> OperatorEvent<f32> {
    OperatorEvent {
        schema_version: 6,
        session_id: "session-1".into(),
        recorded_at_ms: at,
        mutation_id: format!("mutation-{id}"),
        event_id: id.into(),
        occurred_at_ms: at,
        slot_id: slot_id.map(String::from),
        payload,
    }
}

fn confirmation() -> SignalConfirmation<f32> {
    SignalConfirmation { frequency_hz: Some(14_095_600), measured: 4.5, transmitted_callsign: None, cadence_followed: None, note: None }
}

fn describe(c: &SignalConfirmation<f32>) -> String {
    format!("{:?}", c.frequency_hz)
}

fn log() -> Vec<OperatorEvent<f32>> {
    vec![
        event("start", 1_000, None, OperatorEventPayload::SessionStarted { note: Some("on air".into()) }),
        event(
            "armed",
            100_000,
            Some("intent-1"),
            OperatorEventPayload::WsprCycleArmed {
                antenna_label: "Dipole".into(),
                cycle_starts_at_ms: 120_000,
                readiness: Some(ReadinessBasis::CommandVerified { switch_record_id: "rig-1".into(), verification_record_id: "rig-2".into() }),
            },
        ),
        event("signal", 130_000, Some("intent-1"), OperatorEventPayload::SignalStateConfirmed { confirmation: confirmation() }),
        event(
            "fix",
            140_000,
            None,
            OperatorEventPayload::EventCorrected {
                target_event_id: "signal".into(),
                correction: EventCorrection::Replace {
                    occurred_at_ms: 130_000,
                    slot_id: None,
                    payload: CorrectablePayload::SlotMissed { reason: None },
                },
                reason: "wrong slot".into(),
            },
        ),
        event(
            "undo",
            150_000,
            None,
            OperatorEventPayload::EventCorrected {
                target_event_id: "start".into(),
                correction: EventCorrection::Retract,
                reason: "duplicate".into(),
            },
        ),
        event("end", 400_000, None, OperatorEventPayload::SessionEnded { reason: None }),
    ]
}

#[test]
fn report_events_show_details_corrections_and_affected_slots() {
    let rejected = vec!["undo".to_string()];
    let events = project_operator_events_v3(&log(), &rejected, &describe);
    assert_eq!(events.len(), 6);
    assert_eq!(events[0].kind, ReportOperatorEventKind::SessionStarted);
    assert_eq!(events[0].detail.as_deref(), Some("on air"));
    assert_eq!(
        events[1].detail.as_deref(),
        Some("Dipole armed for 1970-01-01 00:02:00 UTC; readiness Some(CommandVerified { switch_record_id: \"rig-1\", verification_record_id: \"rig-2\" })")
    );
    assert_eq!(events[2].detail.as_deref(), Some("Signal-state confirmation Some(14095600)"));
    let fix = &events[3];
    assert_eq!(fix.kind, ReportOperatorEventKind::EventCorrected);
    assert_eq!(fix.detail.as_deref(), Some("Slot missed"));
    assert_eq!(fix.affected_slot_id.as_deref(), Some("intent-1"));
    let correction = fix.correction.as_ref().unwrap();
    assert_eq!(correction.action, ReportEventCorrectionAction::Replaced);
    assert!(correction.applied);
    let undo = events[4].correction.as_ref().unwrap();
    assert_eq!(undo.action, ReportEventCorrectionAction::Retracted);
    assert!(!undo.applied);
    assert!(events[4].detail.is_none());
    assert!(events[4].affected_slot_id.is_none());
    assert!(events[5].correction.is_none());
}

#[test]
fn plain_slot_reports_share_the_event_projection() {
    let events = vec![
        event("a", 1, Some("slot-1"), OperatorEventPayload::AntennaStateConfirmed { antenna_label: "Loop".into(), note: Some("after rain".into()) }),
        event("b", 2, Some("slot-1"), OperatorEventPayload::SlotBad { reason: "QRM".into() }),
    ];
    let projected = project_operator_events_v2(&events, &Vec::new());
    assert_eq!(projected[0].detail.as_deref(), Some("Actual antenna Loop; after rain"));
    assert_eq!(projected[1].detail.as_deref(), Some("QRM"));
    assert_eq!(projected[1].affected_slot_id.as_deref(), Some("slot-1"));
    let snapshot = report_snapshot(3, SessionLifecycle::Ended, &events, &Vec::new(), &Vec::new());
    assert_eq!(snapshot.checkpoint_revision, Some(3));
    assert!(snapshot.wspr_cycles.is_empty());
    assert!(snapshot.lifecycle_events.is_empty());
}

#[test]
fn lifecycle_events_keep_only_session_transitions() {
    let entries = lifecycle_events(&log());
    let kinds: Vec<ReportLifecycleEventKind> = entries.iter().map(|e| e.kind).collect();
    assert_eq!(kinds, vec![ReportLifecycleEventKind::Started, ReportLifecycleEventKind::Ended]);
    assert_eq!(entries[1].occurred_at_ms, 400_000);
}

fn intent(id: &str, sequence: u64) -> WsprCycleIntent {
    WsprCycleIntent {
        intent_id: id.into(),
        antenna_label: "Dipole".into(),
        direction: Some(WsprCycleDirection::Transmit),
        band: Band { meters: 20 },
        signal: None,
        sequence_number: sequence,
    }
}

fn output() -> AntennaControlOutput {
    AntennaControlOutput { encoding: AntennaControlOutputEncoding::Utf8, data: "ok".into(), truncated: false }
}

fn session() -> ControlSession {
    ControlSession {
        session_id: "session-1".into(),
        callsign: "N1RWJ".into(),
        schema_version: 6,
        revision: 9,
        lifecycle: SessionLifecycle::Running,
        mode: ExperimentMode::WholeStationAb,
        intents: vec![intent("intent-1", 1), intent("intent-2", 2), intent("intent-3", 3)],
        antenna_control: None,
        rig: vec![
            RigRecord { record_id: "rig-0".into(), mutation_id: "m".into(), antenna_control: None },
            RigRecord {
                record_id: "rig-1".into(),
                mutation_id: "m".into(),
                antenna_control: Some(AntennaControlInvocation {
                    role: AntennaControlRole::Switch,
                    controller_profile_name: "Bench".into(),
                    controller_profile_revision: "rev-1".into(),
                    command: AntennaControlCommand {
                        program_template: "switch".into(),
                        argument_templates: vec!["{target}".into()],
                        resolved_program: "switch".into(),
                        resolved_arguments: vec!["relay-a".into()],
                    },
                    context: AntennaControlContext {
                        antenna: "Dipole".into(),
                        target: "relay-a".into(),
                        mode: ExperimentMode::WholeStationAb,
                        direction: WsprCycleDirection::Transmit,
                        band: Band { meters: 20 },
                        frequency_hz: None,
                        sequence: 1,
                        intent_id: "intent-1".into(),
                        session_id: "session-1".into(),
                        callsign: "N1RWJ".into(),
                    },
                    started_at_ms: 90_000,
                    completed_at_ms: 90_500,
                    elapsed_milliseconds: 500,
                    disposition: AntennaControlDisposition::Exit { code: 0 },
                    stdout: output(),
                    stderr: output(),
                }),
            },
        ],
        projection: WsprRunProjection {
            cycles: vec![ProjectedCycle {
                intent_id: "intent-1".into(),
                antenna_label: "Dipole".into(),
                ready_event_id: "armed".into(),
                ready_at_ms: 100_000,
                starts_at_ms: 120_000,
                transmission_ends_at_ms: 230_600,
                occupancy_fully_covers_transmission: false,
            }],
            skipped_intent_ids: vec!["intent-2".into()],
            occupancies: Vec::new(),
        },
    }
}

fn import(completeness: &str) -> WsprLiveImport {
    WsprLiveImport {
        provider_id: "wspr.live".into(),
        source_id: "source-1".into(),
        captured_at_ms: 500_000,
        window_start_ms: 0,
        window_end_ms: 480_000,
        selected_bands: vec![Band { meters: 20 }, Band { meters: 40 }],
        completeness: completeness.into(),
        counts: WsprLiveCounts { total: 10, accepted: 8, malformed: 1, filtered: 1, unsupported: 0, duplicate: 0, conflict: 0, observations_created: 8 },
    }
}

#[test]
fn cycle_reports_attribute_armed_skipped_and_pending_intentions() {
    let snapshot = report_snapshot_v3(&session(), &log(), &Vec::new(), &Vec::new(), &describe);
    assert_eq!(snapshot.checkpoint_revision, Some(9));
    assert_eq!(snapshot.lifecycle, Some(SessionLifecycle::Running));
    let cycles = &snapshot.wspr_cycles;
    assert_eq!(cycles[0].attribution, ReportWsprAttribution::UnknownAntennaOccupancy);
    assert_eq!(cycles[0].readiness_basis, Some(ReportWsprReadinessBasis::CommandVerified));
    assert_eq!((cycles[0].ready_at_ms, cycles[0].starts_at_ms, cycles[0].transmission_ends_at_ms), (Some(100_000), Some(120_000), Some(230_600)));
    assert_eq!(cycles[0].actual_antenna.as_deref(), Some("Dipole"));
    assert_eq!(cycles[1].attribution, ReportWsprAttribution::Skipped);
    assert_eq!(cycles[2].attribution, ReportWsprAttribution::Pending);
    assert!(cycles[2].readiness_basis.is_none());
    assert_eq!(snapshot.operator_events.len(), 6);
}

#[test]
fn controller_attempts_come_from_rig_records_with_invocations() {
    let attempts = control_attempts(&session().rig);
    assert_eq!(attempts.len(), 1);
    assert_eq!(attempts[0].record_id, "rig-1");
    assert_eq!(attempts[0].resolved_arguments, vec!["relay-a".to_string()]);
    assert_eq!(attempts[0].target, "relay-a");
    assert_eq!(attempts[0].elapsed_milliseconds, 500);
}

#[test]
fn adapter_evidence_counts_dispositions_gaps_and_imports() {
    let records = vec![
        AdapterRecord { disposition: AdapterDisposition::Accepted, record_type: "spot".into(), inline_import: None },
        AdapterRecord { disposition: AdapterDisposition::Duplicate, record_type: "spot".into(), inline_import: None },
        AdapterRecord { disposition: AdapterDisposition::Accepted, record_type: "wspr_live_import_summary".into(), inline_import: Some(import("known")) },
        AdapterRecord { disposition: AdapterDisposition::Malformed, record_type: "spot".into(), inline_import: Some(import("partial")) },
    ];
    let evidence = report_adapter_evidence(&records);
    assert_eq!(evidence.record_count, 4);
    assert_eq!((evidence.accepted_count, evidence.duplicate_count, evidence.malformed_count), (2, 1, 1));
    assert_eq!(evidence.gap_count, 0);
    assert_eq!(evidence.imports.len(), 1);
    assert_eq!(evidence.imports[0].accepted_count, 8);
    assert_eq!(evidence.imports[0].selected_bands, vec![Band { meters: 20 }, Band { meters: 40 }]);
    assert!(evidence.imports[0].completeness_known);
    assert!(evidence.evidence_complete);

    let mut gapped = records.clone();
    gapped.push(AdapterRecord { disposition: AdapterDisposition::Accepted, record_type: "acquisition_gap".into(), inline_import: None });
    let evidence = report_adapter_evidence(&gapped);
    assert_eq!(evidence.gap_count, 1);
    assert!(!evidence.evidence_complete);

    let partial = vec![AdapterRecord { disposition: AdapterDisposition::Accepted, record_type: "wspr_live_import_summary".into(), inline_import: Some(import("partial")) }];
    let evidence = report_adapter_evidence(&partial);
    assert!(!evidence.imports[0].completeness_known);
    assert!(!evidence.evidence_complete);
}
