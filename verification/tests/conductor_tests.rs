use antennabench_desktop::actions::{
    correctable_detail_v2, correctable_detail_v3, optional_text, required_text, CorrectablePayloadV2, CorrectablePayloadV3,
};
use antennabench_desktop::control_model::{Band, SessionLifecycle, WsprCycleDirection, WsprCycleIntent};
use antennabench_desktop::errors::SessionErrorKind;
use antennabench_desktop::timing::{
    slot_evidence, timing_projection, timing_projection_v3, ConductorPhase, ConductorSlotView, SlotEvidenceStatus, SlotFact,
};
use antennabench_desktop::transition::{ConductorTransitionView, TransitionDisposition, TransitionPlan};

const START: i64 = 1_784_080_800_000;

fn slot(sequence: u32, starts: i64, evidence: SlotEvidenceStatus) -> ConductorSlotView {
    ConductorSlotView {
        slot_id: format!("slot-{sequence}"),
        sequence_number: sequence,
        starts_at_ms: starts,
        usable_at_ms: starts + 10_000,
        ends_at_ms: starts + 120_000,
        band: "20m".into(),
        planned_antenna: if sequence % 2 == 1 { "Vertical".into() } else { "Dipole".into() },
        direction: Some(WsprCycleDirection::Transmit),
        actual_antenna: None,
        evidence_status: evidence,
    }
}

fn schedule(last: SlotEvidenceStatus) -> Vec<ConductorSlotView> {
    vec![slot(1, START, SlotEvidenceStatus::Unknown), slot(2, START + 120_000, last)]
}

#[test]
fn deterministic_clock_projects_schedule_boundaries() {
    let slots = schedule(SlotEvidenceStatus::Unknown);
    let ready = timing_projection(SessionLifecycle::Ready, false, &slots, START - 30_000);
    assert_eq!(ready.phase, ConductorPhase::Ready);
    let awaiting = timing_projection(SessionLifecycle::Running, false, &slots, START - 30_000);
    assert_eq!(awaiting.phase, ConductorPhase::AwaitingSlot);
    assert_eq!(awaiting.seconds_to_transition, Some(30));
    let guard = timing_projection(SessionLifecycle::Running, false, &slots, START);
    assert_eq!(guard.phase, ConductorPhase::Guard);
    assert_eq!(guard.seconds_to_transition, Some(10));
    assert_eq!(guard.guidance, "Confirm the actual antenna for slot 1. Guard time remains before evidence is usable.");
    let active = timing_projection(SessionLifecycle::Running, false, &slots, START + 10_000);
    assert_eq!(active.phase, ConductorPhase::Active);
    assert_eq!(active.current_index, Some(0));
    assert_eq!(active.next_index, Some(1));
    let complete = timing_projection(SessionLifecycle::Running, false, &slots, START + 240_000);
    assert_eq!(complete.phase, ConductorPhase::Complete);
}

#[test]
fn confirmed_final_slot_projects_the_ingestion_grace_as_finalizing() {
    let slots = schedule(SlotEvidenceStatus::Confirmed);
    let waiting = timing_projection(SessionLifecycle::Running, true, &slots, START + 240_000);
    assert_eq!(waiting.phase, ConductorPhase::Finalizing);
    assert_eq!(waiting.seconds_to_transition, Some(300));
    let due = timing_projection(SessionLifecycle::Running, true, &slots, START + 540_000);
    assert_eq!(due.phase, ConductorPhase::Finalizing);
    assert_eq!(due.seconds_to_transition, Some(0));
}

fn plan(view: ConductorTransitionView, operator_action_required: bool) -> TransitionPlan {
    TransitionPlan {
        view,
        operator_action_required,
        source_ready_event_id: Some("ready-1".into()),
        next_intent_id: Some("intent-2".into()),
        prior_transmission_ends_at: Some(START + 120_000),
    }
}

fn unchanged_view() -> ConductorTransitionView {
    ConductorTransitionView {
        antenna: TransitionDisposition::NoChangeNeeded,
        direction: TransitionDisposition::NoChangeNeeded,
        band: TransitionDisposition::NoChangeNeeded,
        signal: TransitionDisposition::NoChangeNeeded,
    }
}

fn intent(direction: WsprCycleDirection) -> WsprCycleIntent {
    WsprCycleIntent {
        intent_id: "intent-2".into(),
        antenna_label: "Dipole".into(),
        direction: Some(direction),
        band: Band { meters: 40 },
        signal: None,
        sequence_number: 2,
    }
}

#[test]
fn repeated_unchanged_cycles_continue_automatically() {
    let slots = vec![slot(1, START, SlotEvidenceStatus::Unknown)];
    let next = intent(WsprCycleDirection::Transmit);
    let p = timing_projection_v3(SessionLifecycle::Running, false, &slots, Some(&next), &plan(unchanged_view(), false), false, START + 125_000);
    assert_eq!(p.phase, ConductorPhase::BetweenSlots);
    assert_eq!(p.guidance, "Dipole remains ready with unchanged WSPR settings. AntennaBench will continue automatically.");
    assert_eq!(p.seconds_to_transition, Some(0));
    assert_eq!(p.current_index, Some(0));
}

#[test]
fn changed_transitions_list_operator_instructions() {
    let slots = vec![slot(1, START, SlotEvidenceStatus::Unknown)];
    let next = intent(WsprCycleDirection::Receive);
    let view = ConductorTransitionView {
        antenna: TransitionDisposition::OperatorActionRequired,
        direction: TransitionDisposition::OperatorActionRequired,
        band: TransitionDisposition::OperatorActionRequired,
        signal: TransitionDisposition::NoChangeNeeded,
    };
    let p = timing_projection_v3(SessionLifecycle::Running, false, &slots, Some(&next), &plan(view, true), true, START + 125_000);
    assert_eq!(p.phase, ConductorPhase::Switching);
    assert_eq!(
        p.guidance,
        "In WSJT-X, turn Enable Tx off and keep Monitor on. Set the station to 40m. Switch to Dipole, then click Receive on Dipole ready."
    );
}

#[test]
fn active_cycles_name_the_antenna_in_use() {
    let mut slots = vec![slot(1, START, SlotEvidenceStatus::Unknown)];
    slots[0].actual_antenna = Some("Loop".into());
    let p = timing_projection_v3(SessionLifecycle::Running, false, &slots, None, &plan(unchanged_view(), false), false, START + 60_000);
    assert_eq!(p.phase, ConductorPhase::Active);
    assert_eq!(p.guidance, "WSPR cycle 1 is transmitting on 20m. Keep Loop connected until the WSPR period completes.");
    assert_eq!(p.seconds_to_transition, Some(60));
}

#[test]
fn slot_facts_decide_evidence_status() {
    let confirmed = |label: &str| SlotFact::AntennaStateConfirmed { antenna_label: label.into() };
    assert_eq!(slot_evidence(&vec![]), (SlotEvidenceStatus::Unknown, None));
    assert_eq!(slot_evidence(&vec![confirmed("Dipole"), SlotFact::NoteAdded]), (SlotEvidenceStatus::Confirmed, Some("Dipole".into())));
    assert_eq!(slot_evidence(&vec![confirmed("Dipole"), confirmed("Dipole")]), (SlotEvidenceStatus::Confirmed, Some("Dipole".into())));
    assert_eq!(slot_evidence(&vec![confirmed("Dipole"), confirmed("Vertical")]), (SlotEvidenceStatus::Conflicting, None));
    assert_eq!(slot_evidence(&vec![confirmed("Dipole"), SlotFact::SlotMissed]), (SlotEvidenceStatus::Conflicting, None));
    assert_eq!(slot_evidence(&vec![SlotFact::SlotMissed]), (SlotEvidenceStatus::Missed, None));
    assert_eq!(slot_evidence(&vec![SlotFact::SlotBad, SlotFact::SignalStateConfirmed]), (SlotEvidenceStatus::Bad, None));
}

#[test]
fn conductor_fields_are_trimmed_and_required() {
    assert_eq!(optional_text(Some("  note ".into())), Some("note".into()));
    assert_eq!(optional_text(Some("   ".into())), None);
    assert_eq!(optional_text(None), None);
    assert_eq!(required_text(" Dipole ".into(), "antennaLabel").unwrap(), "Dipole");
    let e = required_text("  ".into(), "antennaLabel").unwrap_err();
    assert_eq!(e.kind, SessionErrorKind::Validation);
    assert_eq!(e.detail, "antennaLabel must not be empty");
}

#[test]
fn correction_details_read_naturally() {
    assert_eq!(
        correctable_detail_v2(&CorrectablePayloadV2::AntennaStateConfirmed { antenna_label: "Dipole".into(), note: Some("checked".into()) }),
        "Actual antenna Dipole; checked"
    );
    assert_eq!(correctable_detail_v2(&CorrectablePayloadV2::SlotMissed { reason: None }), "Slot missed");
    assert_eq!(
        correctable_detail_v3(&CorrectablePayloadV3::SignalStateConfirmed { confirmation: "Transmitting".into() }),
        "Signal-state confirmation Transmitting"
    );
}
