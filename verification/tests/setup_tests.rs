use antennabench_desktop::conductor_state::{register_view_action, ConductorRuntime};
use antennabench_desktop::controller_run::{run_active_session_antenna_controller, AntennaControlMutation, RunControllerRequest};
use antennabench_desktop::process::ProcessResult;
use antennabench_desktop::controller_commands::{attach_active_session_antenna_controller, AttachControllerRequest};
use antennabench_desktop::automation::{
    attempt_decision, continuation_decision, controller_context, schedule_automatic_coordinator, target_for, worker_decision,
    ContinuationOutcome, ContinuationStep, WorkerDecision,
};
use antennabench_desktop::control_model::{
    AntennaControlCommand, AntennaControlContext, AntennaControlDisposition, AntennaControlInvocation,
    AntennaControlInvocationPolicy, AntennaControlOutput, AntennaControlOutputEncoding, AntennaControlPolicy,
    AntennaControlRole, Band, ControlSession, ExperimentMode, RigRecord, SessionLifecycle, WsprCycleDirection,
    WsprCycleIntent, WsprRunProjection, WsprSignal,
};
use antennabench_desktop::controller_view::active_controller_view_for;
use antennabench_desktop::policy::{command_verified_event, committed_attempt, AntennaControllerState, AutomationStatus};
use antennabench_desktop::profiles::{
    ControllerCatalog, ControllerCommandDraft, ControllerCommandTemplate, ControllerProfile, ControllerProfileDraft, ControllerTargetDraft, SetupControllerDraft,
};
use antennabench_desktop::setup::{activate_setup_controller, prepare_setup_controller, validate_targets};

fn intent(id: &str, antenna: &str, sequence: u64) -> WsprCycleIntent {
    WsprCycleIntent {
        intent_id: id.into(),
        antenna_label: antenna.into(),
        direction: Some(WsprCycleDirection::Transmit),
        band: Band { meters: 20 },
        signal: Some(WsprSignal { signal_plan_id: "plan-1".into(), frequency_hz: 14_095_600 }),
        sequence_number: sequence,
    }
}

fn session() -> ControlSession {
    ControlSession {
        session_id: "session-1".into(),
        callsign: "N1RWJ".into(),
        schema_version: 5,
        revision: 3,
        lifecycle: SessionLifecycle::Ready,
        mode: ExperimentMode::WholeStationAb,
        intents: vec![intent("intent-1", "Dipole", 1), intent("intent-2", "Vertical", 2)],
        antenna_control: None,
        rig: Vec::new(),
        projection: WsprRunProjection { cycles: Vec::new(), skipped_intent_ids: Vec::new(), occupancies: Vec::new() },
    }
}

fn target(label: &str, value: &str) -> ControllerTargetDraft {
    ControllerTargetDraft { antenna_label: label.into(), target: value.into() }
}

fn setup_draft(manual_review_required: bool, verification: bool) -> SetupControllerDraft {
    SetupControllerDraft {
        enabled: true,
        arm_for_session: true,
        invocation: AntennaControlInvocationPolicy::Automatic,
        manual_review_required,
        profile: ControllerProfileDraft {
            profile_id: None,
            name: " Bench switch ".into(),
            switch_command: ControllerCommandDraft {
                one_line: "switch --target {target} --mode {mode}".into(),
                program: String::new(),
                arguments: Vec::new(),
            },
            verification_command: if verification {
                Some(ControllerCommandDraft { one_line: "verify {target}".into(), program: String::new(), arguments: Vec::new() })
            } else {
                None
            },
            timeout_seconds: 10,
        },
        targets: vec![target(" Dipole ", " relay-a "), target("Vertical", "relay-b")],
    }
}

#[test]
fn targets_must_cover_every_scheduled_antenna_once() {
    let intents = session().intents;
    let ok = validate_targets(&intents, &vec![target(" Dipole ", " relay-a "), target("Vertical", "relay-b")]).unwrap();
    assert_eq!(ok, vec![("Dipole".to_string(), "relay-a".to_string()), ("Vertical".to_string(), "relay-b".to_string())]);
    assert_eq!(
        validate_targets(&intents, &vec![target("Loop", "relay-c")]).unwrap_err(),
        "target mapping references unscheduled antenna \"Loop\""
    );
    assert_eq!(
        validate_targets(&intents, &vec![target("Dipole", "  ")]).unwrap_err(),
        "antenna \"Dipole\" requires a bounded nonempty target"
    );
    assert_eq!(
        validate_targets(&intents, &vec![target("Dipole", "a"), target("Dipole", "b")]).unwrap_err(),
        "antenna \"Dipole\" has more than one target mapping"
    );
    assert_eq!(
        validate_targets(&intents, &vec![target("Dipole", "a")]).unwrap_err(),
        "every scheduled antenna requires exactly one target mapping"
    );
}

#[test]
fn setup_review_resolves_every_intention() {
    let mut s = session();
    let (prepared, review) =
        prepare_setup_controller(&setup_draft(false, true), &mut s, &Vec::new(), |prefix: &str| format!("{prefix}-1")).unwrap();
    assert_eq!(prepared.profile.name, "Bench switch");
    assert_eq!(review.invocations.len(), 2);
    assert_eq!(review.invocations[1].switch_arguments, vec!["--target", "relay-b", "--mode", "whole_station_ab"]);
    assert_eq!(review.invocations[0].verification_arguments, Some(vec!["relay-a".to_string()]));
    assert_eq!(review.invocations[0].direction, "transmit");
    assert_eq!(
        s.antenna_control,
        Some(AntennaControlPolicy::CommandControlled { invocation: AntennaControlInvocationPolicy::Automatic, manual_review_required: false })
    );
}

#[test]
fn command_authorized_readiness_requires_verification() {
    let mut s = session();
    let error = prepare_setup_controller(&setup_draft(false, false), &mut s, &Vec::new(), |prefix: &str| format!("{prefix}-1")).unwrap_err();
    assert_eq!(error, "command-authorized readiness requires an independent verification command");
    assert_eq!(s.antenna_control, None);
    let mut missing = setup_draft(true, false);
    missing.profile.profile_id = Some("gone".into());
    assert_eq!(
        prepare_setup_controller(&missing, &mut s, &Vec::new(), |prefix: &str| format!("{prefix}-1")).unwrap_err(),
        "the selected saved controller profile no longer exists"
    );
}

#[test]
fn activation_attaches_only_after_the_catalog_is_saved() {
    let mut s = session();
    let (prepared, _) = prepare_setup_controller(&setup_draft(true, false), &mut s, &Vec::new(), |prefix: &str| format!("{prefix}-1")).unwrap();
    let mut state = AntennaControllerState::default();
    let failed = activate_setup_controller(
        ControllerCatalog::default(),
        |_: &ControllerCatalog| Err(antennabench_desktop::errors::SessionErrorPayload::report_pipeline("disk full")),
        &mut state,
        "/tmp/s.session.antennabundle".into(),
        "session-1".into(),
        prepared,
    );
    assert!(failed.is_err());
    assert!(state.runtime.attached.is_none());

    let (prepared, _) = prepare_setup_controller(&setup_draft(true, false), &mut s, &Vec::new(), |prefix: &str| format!("{prefix}-2")).unwrap();
    let mut saved = None;
    activate_setup_controller(
        ControllerCatalog::default(),
        |c: &ControllerCatalog| {
            saved = Some(c.clone());
            Ok(())
        },
        &mut state,
        "/tmp/s.session.antennabundle".into(),
        "session-1".into(),
        prepared,
    )
    .unwrap();
    let saved = saved.unwrap();
    assert_eq!(saved.associations.len(), 1);
    assert_eq!(saved.profiles[0].profile_id, "controller-profile-2");
    let attached = state.runtime.attached.as_ref().unwrap();
    assert!(attached.armed);
    assert_eq!(attached.profile_id, "controller-profile-2");

    let catalog = saved;
    let view = active_controller_view_for("/tmp/s.session.antennabundle", "session-1", s.antenna_control, &catalog, &state.runtime);
    assert_eq!(view.policy, "command_controlled");
    assert!(view.attached && view.armed && !view.stale_profile);
    assert_eq!(view.profile_name.as_deref(), Some("Bench switch"));
    let other = active_controller_view_for("/tmp/other", "session-9", None, &catalog, &state.runtime);
    assert_eq!(other.policy, "manual");
    assert!(!other.attached && !other.armed && other.profile_id.is_none());
}

#[test]
fn command_verified_readiness_arms_the_next_cycle() {
    let s = session();
    let event = command_verified_event(&s, &s.intents[0], "switch-record".into(), "verification-record".into(), 1_000, "armed-event".into(), Ok(120_000))
        .unwrap();
    assert_eq!(event.cycle_starts_at_ms, 120_000);
    assert_eq!(event.slot_id.as_deref(), Some("intent-1"));
    assert_eq!(event.switch_record_id, "switch-record");
    let failed = command_verified_event(&s, &s.intents[0], "a".into(), "b".into(), 1_000, "e".into(), Err("out of range".into()))
        .unwrap_err();
    assert_eq!(failed.kind, antennabench_desktop::errors::SessionErrorKind::Validation);
}

fn automatic_session(manual_review_required: bool) -> ControlSession {
    let mut s = session();
    s.lifecycle = SessionLifecycle::Running;
    s.antenna_control = Some(AntennaControlPolicy::CommandControlled {
        invocation: AntennaControlInvocationPolicy::Automatic,
        manual_review_required,
    });
    s
}

fn attached_controller(source: &str, armed: bool) -> AntennaControllerState {
    let mut controller = AntennaControllerState::default();
    let profile = ControllerProfile {
        profile_id: "profile-1".into(),
        revision: "rev-1".into(),
        name: "Bench switch".into(),
        switch_command: ControllerCommandTemplate { program_template: "switch".into(), argument_templates: vec!["{target}".into()] },
        verification_command: None,
        timeout_seconds: 5,
    };
    controller.attach(source.into(), "session-1".into(), &profile, vec![("Dipole".into(), "port-1".into())], armed);
    controller
}

fn switch_record(intent_id: &str, mutation_id: &str, role: AntennaControlRole, code: i32) -> RigRecord {
    let output = AntennaControlOutput { encoding: AntennaControlOutputEncoding::Utf8, data: String::new(), truncated: false };
    RigRecord {
        record_id: format!("rig-{mutation_id}-{role:?}"),
        mutation_id: mutation_id.into(),
        antenna_control: Some(AntennaControlInvocation {
            role,
            controller_profile_name: "Bench switch".into(),
            controller_profile_revision: "rev-1".into(),
            command: AntennaControlCommand {
                program_template: "switch".into(),
                argument_templates: Vec::new(),
                resolved_program: "switch".into(),
                resolved_arguments: Vec::new(),
            },
            context: AntennaControlContext {
                antenna: "Dipole".into(),
                target: "port-1".into(),
                mode: ExperimentMode::WholeStationAb,
                direction: WsprCycleDirection::Transmit,
                band: Band { meters: 20 },
                frequency_hz: None,
                sequence: 1,
                intent_id: intent_id.into(),
                session_id: "session-1".into(),
                callsign: "N1RWJ".into(),
            },
            started_at_ms: 0,
            completed_at_ms: 10,
            elapsed_milliseconds: 10,
            disposition: AntennaControlDisposition::Exit { code },
            stdout: output.clone(),
            stderr: output,
        }),
    }
}

#[test]
fn a_worker_starts_only_under_an_armed_attachment_of_the_session() {
    let running = automatic_session(false);
    let mut controller = attached_controller("/s.session.antennabundle", true);
    let generation = schedule_automatic_coordinator(&mut controller, "/s.session.antennabundle", &running).unwrap();
    assert_eq!(generation, controller.generation);
    assert!(controller.runtime.worker_running);
    assert_eq!(controller.runtime.automation_status, AutomationStatus::Waiting);
    assert!(schedule_automatic_coordinator(&mut controller, "/s.session.antennabundle", &running).is_none());

    let mut disarmed = attached_controller("/s.session.antennabundle", false);
    assert!(schedule_automatic_coordinator(&mut disarmed, "/s.session.antennabundle", &running).is_none());
    assert_eq!(disarmed.runtime.automation_status, AutomationStatus::Blocked);

    let mut idle = attached_controller("/s.session.antennabundle", true);
    assert!(schedule_automatic_coordinator(&mut idle, "/s.session.antennabundle", &session()).is_none());
    assert_eq!(idle.runtime.automation_status, AutomationStatus::Idle);
}

#[test]
fn the_worker_switches_to_the_next_pending_intention() {
    match worker_decision(&automatic_session(true)) {
        WorkerDecision::Proceed { intent, manual_review_required, wait_until_ms } => {
            assert_eq!(intent.intent_id, "intent-1");
            assert!(manual_review_required);
            assert_eq!(wait_until_ms, None);
        }
        other => panic!("unexpected decision {other:?}"),
    }
    match worker_decision(&session()) {
        WorkerDecision::Finish { status, summary, disarm } => {
            assert_eq!(status, AutomationStatus::Idle);
            assert!(summary.is_none());
            assert!(!disarm);
        }
        other => panic!("unexpected decision {other:?}"),
    }
}

#[test]
fn a_committed_attempt_ends_the_worker() {
    let mut reviewed = automatic_session(true);
    reviewed.rig = vec![switch_record("intent-1", "m-1", AntennaControlRole::Switch, 0)];
    match worker_decision(&reviewed) {
        WorkerDecision::Finish { status, summary, disarm } => {
            assert_eq!(status, AutomationStatus::AwaitingReview);
            assert!(!disarm);
            assert_eq!(summary.unwrap().intent_id, "intent-1");
        }
        other => panic!("unexpected decision {other:?}"),
    }
    let mut failed = automatic_session(false);
    failed.rig = vec![switch_record("intent-1", "m-2", AntennaControlRole::Switch, 3)];
    match worker_decision(&failed) {
        WorkerDecision::Finish { status, disarm, .. } => {
            assert_eq!(status, AutomationStatus::Blocked);
            assert!(disarm);
        }
        other => panic!("unexpected decision {other:?}"),
    }
}

#[test]
fn attempts_end_the_worker_unless_verified_without_review() {
    assert_eq!(attempt_decision(false, None, false), Some((AutomationStatus::Blocked, true)));
    assert_eq!(attempt_decision(true, Some(false), true), Some((AutomationStatus::Blocked, true)));
    assert_eq!(attempt_decision(true, Some(true), true), Some((AutomationStatus::AwaitingReview, false)));
    assert_eq!(attempt_decision(true, None, false), Some((AutomationStatus::Blocked, true)));
    assert_eq!(attempt_decision(true, Some(true), false), None);
}

#[test]
fn finishing_a_replaced_worker_changes_nothing_and_blocking_disarms() {
    let mut controller = attached_controller("/s.session.antennabundle", true);
    let generation = controller.generation;
    assert!(!controller.cancelled(generation));
    controller.set_status(generation + 7, AutomationStatus::Running);
    assert_eq!(controller.runtime.automation_status, AutomationStatus::Idle);
    controller.set_status(generation, AutomationStatus::Running);
    assert_eq!(controller.runtime.automation_status, AutomationStatus::Running);
    controller.block(generation, "intent-1", "The pending antenna has no local controller target.", "repair the mapping");
    assert!(controller.cancelled(generation));
    assert!(!controller.runtime.attached.as_ref().unwrap().armed);
    assert_eq!(controller.runtime.automation_status, AutomationStatus::Blocked);
    let attempt = controller.runtime.last_attempt.clone().unwrap();
    assert!(!attempt.successful_switch);
    assert_eq!(attempt.detail, "The pending antenna has no local controller target.");
}

#[test]
fn a_worker_runs_with_its_pinned_profile_and_targets() {
    let controller = attached_controller("/s.session.antennabundle", true);
    let generation = controller.generation;
    let profile = ControllerProfile {
        profile_id: "profile-1".into(),
        revision: "rev-1".into(),
        name: "Bench switch".into(),
        switch_command: ControllerCommandTemplate { program_template: "switch".into(), argument_templates: Vec::new() },
        verification_command: None,
        timeout_seconds: 5,
    };
    let (association, pinned) = controller_context(&controller, "/s.session.antennabundle", generation, &vec![profile.clone()]).unwrap();
    assert_eq!(pinned.revision, "rev-1");
    assert_eq!(target_for(&association, "Dipole").as_deref(), Some("port-1"));
    assert_eq!(target_for(&association, "Vertical"), None);
    let stale = ControllerProfile { revision: "rev-2".into(), ..profile };
    let error = controller_context(&controller, "/s.session.antennabundle", generation, &vec![stale]).unwrap_err();
    assert_eq!(error.detail, "the pinned local controller revision is stale");
    let other = controller_context(&controller, "/s.session.antennabundle", generation + 1, &Vec::new()).unwrap_err();
    assert_eq!(other.detail, "automatic authority is not active for this session");
}

fn attach_request(revision: &str, armed: bool) -> AttachControllerRequest {
    AttachControllerRequest {
        profile_id: "profile-1".into(),
        profile_revision: revision.into(),
        targets: vec![target("Dipole", "port-1"), target("Vertical", "port-2")],
        armed,
    }
}

fn attach_catalog() -> ControllerCatalog {
    ControllerCatalog {
        version: 1,
        profiles: vec![ControllerProfile {
            profile_id: "profile-1".into(),
            revision: "rev-1".into(),
            name: "Bench switch".into(),
            switch_command: ControllerCommandTemplate { program_template: "switch".into(), argument_templates: Vec::new() },
            verification_command: None,
            timeout_seconds: 5,
        }],
        associations: Vec::new(),
    }
}

#[test]
fn attaching_writes_the_association_before_the_controller_attaches() {
    let mut controller = AntennaControllerState::default();
    let session = automatic_session(false);
    let written: std::cell::RefCell<Option<ControllerCatalog>> = std::cell::RefCell::new(None);
    let view = attach_active_session_antenna_controller(
        &mut controller,
        "/s.session.antennabundle",
        &session,
        attach_catalog(),
        attach_request("rev-1", true),
        |catalog: &ControllerCatalog| {
            *written.borrow_mut() = Some(catalog.clone());
            Ok(())
        },
    )
    .unwrap();
    let catalog = written.borrow_mut().take().unwrap();
    assert_eq!(catalog.associations.len(), 1);
    assert_eq!(catalog.associations[0].source, "/s.session.antennabundle");
    assert_eq!(catalog.associations[0].targets.len(), 2);
    let attached = controller.runtime.attached.as_ref().unwrap();
    assert!(attached.armed);
    assert_eq!(attached.profile_revision, "rev-1");
    assert_eq!(view.policy, "command_controlled");
}

#[test]
fn attaching_is_refused_for_old_manual_or_stale_requests() {
    let mut controller = AntennaControllerState::default();
    let mut old = automatic_session(false);
    old.schema_version = 4;
    let error = attach_active_session_antenna_controller(&mut controller, "/s", &old, attach_catalog(), attach_request("rev-1", true), |_: &ControllerCatalog| Ok(()))
        .unwrap_err();
    assert_eq!(error.detail, "schema version 4");
    let error = attach_active_session_antenna_controller(&mut controller, "/s", &session(), attach_catalog(), attach_request("rev-1", true), |_: &ControllerCatalog| Ok(()))
        .unwrap_err();
    assert_eq!(error.detail, "the portable antenna-control policy remains manual");
    let error = attach_active_session_antenna_controller(
        &mut controller,
        "/s",
        &automatic_session(false),
        attach_catalog(),
        attach_request("rev-0", true),
        |_: &ControllerCatalog| Ok(()),
    )
    .unwrap_err();
    assert_eq!(error.detail, "the requested local profile revision is unavailable");
    let failed = attach_active_session_antenna_controller(
        &mut controller,
        "/s",
        &automatic_session(false),
        attach_catalog(),
        attach_request("rev-1", true),
        |_: &ControllerCatalog| Err(antennabench_desktop::errors::SessionErrorPayload::report_pipeline("disk full")),
    )
    .unwrap_err();
    assert_eq!(failed.detail, "disk full");
    assert!(controller.runtime.attached.is_none());
}

fn run_profile_fixture(verification: bool) -> ControllerProfile {
    ControllerProfile {
        profile_id: "profile-1".into(),
        revision: "rev-1".into(),
        name: "Bench switch".into(),
        switch_command: ControllerCommandTemplate { program_template: "switch".into(), argument_templates: vec!["{target}".into()] },
        verification_command: if verification {
            Some(ControllerCommandTemplate { program_template: "verify".into(), argument_templates: vec!["{target}".into()] })
        } else {
            None
        },
        timeout_seconds: 5,
    }
}

fn exit_with(code: i32) -> impl Fn(&AntennaControlCommand, u64) -> ProcessResult {
    move |_: &AntennaControlCommand, _: u64| ProcessResult {
        started_at_ms: 1_000,
        completed_at_ms: 1_500,
        disposition: AntennaControlDisposition::Exit { code },
        stdout: AntennaControlOutput { encoding: AntennaControlOutputEncoding::Utf8, data: "ok".into(), truncated: false },
        stderr: AntennaControlOutput { encoding: AntennaControlOutputEncoding::Utf8, data: String::new(), truncated: false },
    }
}

fn run_setup(manual_review_required: bool, verification: bool) -> (AntennaControllerState, ConductorRuntime, ControlSession, Vec<ControllerProfile>) {
    let mut session = automatic_session(manual_review_required);
    session.schema_version = 5;
    session.intents[0].direction = Some(WsprCycleDirection::Transmit);
    let profile = run_profile_fixture(verification);
    let mut controller = AntennaControllerState::default();
    controller.attach("/s.session.antennabundle".into(), "session-1".into(), &profile, vec![("Dipole".into(), "port-1".into())], true);
    let mut conductor = ConductorRuntime::new();
    register_view_action(&mut conductor, "session-1", session.revision, "token-1".into());
    (controller, conductor, session, vec![profile])
}

fn run_request(intent: &str) -> RunControllerRequest {
    RunControllerRequest { action_token: "token-1".into(), expected_revision: 3, intent_id: intent.into() }
}

#[test]
fn a_verified_switch_without_review_arms_the_next_cycle() {
    let (mut controller, mut conductor, session, profiles) = run_setup(false, true);
    let appended: std::cell::RefCell<Option<AntennaControlMutation>> = std::cell::RefCell::new(None);
    let outcome = run_active_session_antenna_controller(
        &mut controller,
        &mut conductor,
        "/s.session.antennabundle",
        &session,
        &profiles,
        run_request("intent-1"),
        5_000,
        &exit_with(0),
        &|prefix: &str| format!("{prefix}-x"),
        &|ready: i64| Ok(ready + 120_000),
        |m: AntennaControlMutation| {
            *appended.borrow_mut() = Some(m);
            Ok(4)
        },
    )
    .unwrap();
    assert_eq!(outcome.revision, 4);
    assert!(outcome.verification_ran);
    assert!(!outcome.manual_ready_required);
    assert_eq!(outcome.detail, "Switch and verification exited successfully. Command verification armed the next eligible WSPR cycle.");
    let mutation = appended.borrow_mut().take().unwrap();
    assert_eq!(mutation.mutation_id, "token-1");
    assert_eq!(mutation.rig_records.len(), 2);
    assert_eq!(mutation.rig_records[0].mutation_id, "pending");
    let event = mutation.armed_event.unwrap();
    assert_eq!(event.cycle_starts_at_ms, 121_500);
    assert_eq!(event.verification_record_id, "rig-x");
    assert!(controller.runtime.last_attempt.as_ref().unwrap().successful_switch);
    assert_eq!(conductor.pending_actions[0].occurred_at_ms, Some(5_000));
}

#[test]
fn a_failed_switch_runs_no_verification_and_arms_nothing() {
    let (mut controller, mut conductor, session, profiles) = run_setup(true, true);
    let appended: std::cell::RefCell<Option<AntennaControlMutation>> = std::cell::RefCell::new(None);
    let outcome = run_active_session_antenna_controller(
        &mut controller,
        &mut conductor,
        "/s.session.antennabundle",
        &session,
        &profiles,
        run_request("intent-1"),
        5_000,
        &exit_with(3),
        &|prefix: &str| format!("{prefix}-y"),
        &|ready: i64| Ok(ready),
        |m: AntennaControlMutation| {
            *appended.borrow_mut() = Some(m);
            Ok(4)
        },
    )
    .unwrap();
    assert!(!outcome.verification_ran);
    assert!(outcome.manual_ready_required);
    let mutation = appended.borrow_mut().take().unwrap();
    assert_eq!(mutation.rig_records.len(), 1);
    assert!(mutation.armed_event.is_none());
}

#[test]
fn controller_runs_are_refused_before_anything_runs() {
    let (mut controller, mut conductor, session, profiles) = run_setup(false, false);
    let never = |_: &AntennaControlCommand, _: u64| -> ProcessResult { panic!("nothing may run") };
    let refuse = |controller: &mut AntennaControllerState, conductor: &mut ConductorRuntime, session: &ControlSession, request: RunControllerRequest| {
        run_active_session_antenna_controller(
            controller,
            conductor,
            "/s.session.antennabundle",
            session,
            &profiles,
            request,
            5_000,
            &never,
            &|prefix: &str| prefix.to_string(),
            &|ready: i64| Ok(ready),
            |_: AntennaControlMutation| Ok(1),
        )
        .unwrap_err()
    };
    let stale = RunControllerRequest { expected_revision: 2, ..run_request("intent-1") };
    assert_eq!(refuse(&mut controller, &mut conductor, &session, stale).detail, "expected checkpoint revision 2, actual revision 3");
    let other = refuse(&mut controller, &mut conductor, &session, run_request("intent-2"));
    assert_eq!(other.detail, "requested intention \"intent-2\", current intention \"intent-1\"");
    let mut ready = session.clone();
    ready.lifecycle = SessionLifecycle::Ready;
    assert_eq!(refuse(&mut controller, &mut conductor, &ready, run_request("intent-1")).detail, "the active session is not a running schema-v5 session");
    let forged = RunControllerRequest { action_token: "token-9".into(), ..run_request("intent-1") };
    assert_eq!(refuse(&mut controller, &mut conductor, &session, forged).detail, "the Rust-issued action token is missing or expired");
    controller.runtime.worker_running = true;
    assert_eq!(refuse(&mut controller, &mut conductor, &session, run_request("intent-1")).kind, antennabench_desktop::errors::SessionErrorKind::Busy);
}

#[test]
fn committed_success_pair_is_awaiting_review_instead_of_runnable_again() {
    let mut s = automatic_session(true);
    s.rig = vec![
        switch_record("intent-1", "attempt-1", AntennaControlRole::Switch, 0),
        switch_record("intent-1", "attempt-1", AntennaControlRole::Verification, 0),
    ];
    let summary = committed_attempt(&s, "intent-1").unwrap();
    assert!(summary.successful_switch);
    assert_eq!(summary.successful_verification, Some(true));
    assert!(summary.detail.contains("Awaiting"));
}

#[test]
fn command_verified_event_uses_verification_completion_for_next_boundary() {
    let s = session();
    let ready_at_ms: i64 = 1_784_339_999_000;
    let next_boundary_ms: i64 = 1_784_340_001_000;
    let event = command_verified_event(
        &s,
        &s.intents[0],
        "switch-record".into(),
        "verification-record".into(),
        ready_at_ms,
        "armed-event".into(),
        Ok(next_boundary_ms),
    )
    .unwrap();
    assert!(event.cycle_starts_at_ms > ready_at_ms);
    assert_eq!((event.cycle_starts_at_ms / 1000) % 120, 1);
    assert_eq!(event.recorded_at_ms, ready_at_ms);
    assert_eq!(event.switch_record_id, "switch-record");
    assert_eq!(event.verification_record_id, "verification-record");
}

#[test]
fn after_continuation_the_worker_repeats_attempts_or_blocks() {
    let s = automatic_session(false);
    assert!(matches!(continuation_decision(Ok(ContinuationOutcome::Continued), "intent-1", Some(&s)), ContinuationStep::Repeat));
    assert!(matches!(continuation_decision(Ok(ContinuationOutcome::Waiting(5)), "intent-1", Some(&s)), ContinuationStep::Repeat));
    assert!(matches!(continuation_decision(Ok(ContinuationOutcome::NotApplicable), "intent-1", Some(&s)), ContinuationStep::Attempt));
    assert!(matches!(continuation_decision(Ok(ContinuationOutcome::NotApplicable), "intent-9", Some(&s)), ContinuationStep::Repeat));
    assert!(matches!(continuation_decision(Ok(ContinuationOutcome::NotApplicable), "intent-1", None), ContinuationStep::Repeat));
    let error = antennabench_desktop::errors::SessionErrorPayload::new(
        antennabench_desktop::errors::SessionErrorKind::Busy,
        "busy",
        "writer",
    );
    match continuation_decision(Err(error), "intent-1", Some(&s)) {
        ContinuationStep::Block { intent_id, message, detail } => {
            assert_eq!(intent_id, "intent-1");
            assert_eq!(message, "Automatic continued-readiness evidence could not be committed.");
            assert_eq!(detail, "busy: writer");
        }
        other => panic!("unexpected {other:?}"),
    }
}
