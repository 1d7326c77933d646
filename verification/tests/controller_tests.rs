use antennabench_desktop::controller_commands::{delete_profile_from_catalog, revoke_if_attached, save_profile_to_catalog};
use antennabench_desktop::command::{interpolate_template, resolve_command, tokenize_command};
use antennabench_desktop::control_model::{
    AntennaControlCommand, AntennaControlContext, AntennaControlDisposition, AntennaControlOutput,
    AntennaControlOutputEncoding, Band, ExperimentMode, WsprCycleDirection,
};
use antennabench_desktop::policy::{AntennaControllerState, ControllerAttemptSummary};
use antennabench_desktop::process::{encode_output, execute_profile_attempt, CapturedBytes, ProcessResult};
use antennabench_desktop::profiles::{
    normalize_profile, remove_profile, validate_catalog, ControllerCatalog, ControllerCommandDraft,
    ControllerCommandTemplate, ControllerProfile, ControllerProfileDraft, PersistedAssociation,
    CATALOG_VERSION,
};

fn values() -> Vec<(String, String)> {
    vec![
        ("antenna".into(), "A B".into()),
        ("band".into(), "20m".into()),
        ("callsign".into(), "N1RWJ".into()),
        ("direction".into(), "transmit".into()),
        ("frequency_hz".into(), "14095600".into()),
        ("intent_id".into(), "intent-7".into()),
        ("mode".into(), "tx_focused".into()),
        ("sequence".into(), "7".into()),
        ("session_id".into(), "session-1".into()),
        ("target".into(), "relay A \"quoted\" {brace};$(nope)".into()),
    ]
}

fn fake_template(behavior: &str) -> ControllerCommandTemplate {
    ControllerCommandTemplate {
        program_template: "fake-controller".into(),
        argument_templates: vec!["--behavior".into(), behavior.into()],
    }
}

fn fake_context() -> AntennaControlContext {
    AntennaControlContext {
        antenna: "Dipole".into(),
        target: "relay-a".into(),
        mode: ExperimentMode::TxFocused,
        direction: WsprCycleDirection::Transmit,
        band: Band { meters: 20 },
        frequency_hz: Some(14_095_600),
        sequence: 1,
        intent_id: "intent-1".into(),
        session_id: "session-1".into(),
        callsign: "N1RWJ".into(),
    }
}

fn utf8(text: &str) -> AntennaControlOutput {
    AntennaControlOutput { encoding: AntennaControlOutputEncoding::Utf8, data: text.into(), truncated: false }
}

/// A controller process stand-in: the behavior argument decides the exit.
fn fake_run(command: &AntennaControlCommand, _timeout_seconds: u64) -> ProcessResult {
    let behavior = command.resolved_arguments.last().cloned().unwrap_or_default();
    let code = if behavior == "exit-zero" { 0 } else { 7 };
    ProcessResult {
        started_at_ms: 1_000,
        completed_at_ms: 1_250,
        disposition: AntennaControlDisposition::Exit { code },
        stdout: utf8(if code == 0 { "switched\n" } else { "" }),
        stderr: utf8(""),
    }
}

#[test]
fn tokenizer_groups_only_quotes_and_backslashes_without_shell_semantics() {
    assert_eq!(
        tokenize_command("\"/opt/my tool\" 'two words' plain\\ value | > '*' '$()' '&&' \"\"").unwrap(),
        vec!["/opt/my tool", "two words", "plain value", "|", ">", "*", "$()", "&&", ""]
    );
    assert!(tokenize_command("unterminated '").is_err());
    assert!(tokenize_command("trailing\\").is_err());
}

#[test]
fn blank_command_lines_have_no_program() {
    assert!(tokenize_command("   ").is_err());
}

#[test]
fn interpolation_isolated_inside_one_token_and_supports_literal_braces() {
    assert_eq!(
        interpolate_template("prefix-{target}-{{literal}}-{mode}", &values()).unwrap(),
        "prefix-relay A \"quoted\" {brace};$(nope)-{literal}-tx_focused"
    );
    assert!(interpolate_template("{unknown}", &values()).is_err());
    assert!(interpolate_template("}", &values()).is_err());
    assert!(interpolate_template("{target", &values()).is_err());

    let mut context = fake_context();
    context.target = "relay A \"quoted\" {brace};$(nope)".into();
    let resolved = resolve_command(
        &ControllerCommandTemplate {
            program_template: "switch".into(),
            argument_templates: vec!["--target={target}".into()],
        },
        &context,
    )
    .unwrap();
    assert_eq!(resolved.command.resolved_arguments.len(), 1);
    assert_eq!(resolved.command.resolved_arguments[0], "--target=relay A \"quoted\" {brace};$(nope)");
}

#[test]
fn every_context_placeholder_expands() {
    let resolved = resolve_command(
        &ControllerCommandTemplate {
            program_template: "switch".into(),
            argument_templates: vec![
                "{antenna}|{band}|{callsign}|{direction}|{frequency_hz}|{intent_id}|{mode}|{sequence}|{session_id}|{target}".into(),
            ],
        },
        &fake_context(),
    )
    .unwrap();
    assert_eq!(
        resolved.command.resolved_arguments[0],
        "Dipole|20m|N1RWJ|transmit|14095600|intent-1|tx_focused|1|session-1|relay-a"
    );
}

#[test]
fn output_encoding_is_utf8_or_base64_and_explicitly_truncated() {
    assert_eq!(
        encode_output(CapturedBytes { bytes: b"ok".to_vec(), truncated: false }),
        AntennaControlOutput { encoding: AntennaControlOutputEncoding::Utf8, data: "ok".into(), truncated: false }
    );
    let binary = encode_output(CapturedBytes { bytes: vec![0xff, 0x00], truncated: true });
    assert_eq!(binary.encoding, AntennaControlOutputEncoding::Base64);
    assert_eq!(binary.data, "/wA=");
    assert!(binary.truncated);
}

fn draft(one_line: &str, timeout_seconds: u8) -> ControllerProfileDraft {
    ControllerProfileDraft {
        profile_id: None,
        name: "Bench switch".into(),
        switch_command: ControllerCommandDraft { one_line: one_line.into(), program: String::new(), arguments: Vec::new() },
        verification_command: None,
        timeout_seconds,
    }
}

#[test]
fn profile_normalization_has_fixed_limits_and_revision_identity() {
    let draft = draft("switch --target {target} --mode {mode}", 10);
    let profile = normalize_profile(&draft, None, |prefix: &str| format!("{prefix}-1")).unwrap();
    assert_eq!(profile.switch_command.program_template, "switch");
    assert_eq!(profile.switch_command.argument_templates[3], "{mode}");
    assert_eq!(
        normalize_profile(&draft, Some(&profile), |prefix: &str| format!("{prefix}-2")).unwrap().revision,
        profile.revision
    );
    let mut invalid = draft;
    invalid.timeout_seconds = 61;
    assert!(normalize_profile(&invalid, None, |prefix: &str| format!("{prefix}-3")).is_err());
}

#[test]
fn changed_profile_gets_a_new_revision_but_keeps_its_identity() {
    let first = normalize_profile(&draft("switch {target}", 10), None, |prefix: &str| format!("{prefix}-1")).unwrap();
    let changed =
        normalize_profile(&draft("switch --to {target}", 10), Some(&first), |prefix: &str| format!("{prefix}-2")).unwrap();
    assert_eq!(changed.profile_id, first.profile_id);
    assert_eq!(changed.revision, "controller-revision-2");
}

#[test]
fn one_line_and_structured_profile_inputs_have_the_same_canonical_form() {
    let one_line = draft("\"/opt/My Controller\" --target \"{target}\" --mode {mode}", 10);
    let structured = ControllerProfileDraft {
        switch_command: ControllerCommandDraft {
            one_line: String::new(),
            program: "/opt/My Controller".into(),
            arguments: vec!["--target".into(), "{target}".into(), "--mode".into(), "{mode}".into()],
        },
        ..one_line.clone()
    };
    assert_eq!(
        normalize_profile(&one_line, None, |prefix: &str| format!("{prefix}-1")).unwrap().switch_command,
        normalize_profile(&structured, None, |prefix: &str| format!("{prefix}-2")).unwrap().switch_command
    );
}

fn catalog_with_one_association() -> ControllerCatalog {
    ControllerCatalog {
        version: CATALOG_VERSION,
        profiles: vec![ControllerProfile {
            profile_id: "profile-1".into(),
            revision: "revision-1".into(),
            name: "Fake controller".into(),
            switch_command: fake_template("exit-zero"),
            verification_command: None,
            timeout_seconds: 2,
        }],
        associations: vec![PersistedAssociation {
            source: "/tmp/example.antennabundle".into(),
            session_id: "session-1".into(),
            profile_id: "profile-1".into(),
            profile_revision: "revision-1".into(),
            targets: vec![("Dipole".into(), "relay-a".into())],
        }],
    }
}

#[test]
fn deleting_a_profile_removes_its_local_session_associations() {
    let mut catalog = catalog_with_one_association();
    assert!(remove_profile(&mut catalog, "profile-1"));
    assert!(catalog.profiles.is_empty());
    assert!(catalog.associations.is_empty());
    assert!(!remove_profile(&mut catalog, "profile-1"));
    assert!(validate_catalog(&catalog).is_ok());
}

#[test]
fn catalog_with_a_zero_timeout_is_refused() {
    let mut catalog = catalog_with_one_association();
    catalog.profiles[0].timeout_seconds = 0;
    assert!(validate_catalog(&catalog).is_err());
}

#[test]
fn exact_reattach_preserves_the_attempt_needed_for_explicit_retry() {
    let mut state = AntennaControllerState::default();
    let profile = ControllerProfile {
        profile_id: "profile-1".into(),
        revision: "revision-1".into(),
        name: "Bench switch".into(),
        switch_command: ControllerCommandTemplate { program_template: "switch".into(), argument_templates: vec!["{target}".into()] },
        verification_command: None,
        timeout_seconds: 10,
    };
    let source = String::from("/tmp/session.antennabench");
    let targets: Vec<(String, String)> = vec![("antenna-a".into(), "relay-a".into())];
    state.attach(source.clone(), "session-1".into(), &profile, targets.clone(), false);
    state.runtime.last_attempt = Some(ControllerAttemptSummary {
        intent_id: "intent-1".into(),
        successful_switch: false,
        successful_verification: None,
        detail: "blocked".into(),
        diagnostic: "exit 1".into(),
    });

    state.attach(source.clone(), "session-1".into(), &profile, targets, true);
    assert!(state.runtime.last_attempt.is_some());

    state.attach(source, "session-1".into(), &profile, vec![("antenna-a".into(), "relay-b".into())], true);
    assert!(state.runtime.last_attempt.is_none());
}

#[test]
fn restarted_controller_state_has_no_attachment_and_revoke_clears_authority() {
    let mut state = AntennaControllerState::default();
    assert!(state.runtime.attached.is_none());
    let profile = ControllerProfile {
        profile_id: "profile-1".into(),
        revision: "revision-1".into(),
        name: "Bench switch".into(),
        switch_command: fake_template("exit-zero"),
        verification_command: None,
        timeout_seconds: 10,
    };
    state.attach("/tmp/s".into(), "session-1".into(), &profile, Vec::new(), true);
    let generation = state.generation;
    state.revoke();
    assert!(state.runtime.attached.is_none());
    assert_eq!(state.generation, generation + 1);
}

#[test]
fn verification_runs_only_after_a_zero_switch_exit() {
    let profile = |switch_behavior: &str| ControllerProfile {
        profile_id: "profile-1".into(),
        revision: "revision-1".into(),
        name: "Fake controller".into(),
        switch_command: fake_template(switch_behavior),
        verification_command: Some(fake_template("exit-zero")),
        timeout_seconds: 10,
    };
    let (failed_switch, skipped_verification) =
        execute_profile_attempt(&profile("exit-nonzero"), fake_context(), &fake_run).unwrap();
    assert_eq!(failed_switch.disposition, AntennaControlDisposition::Exit { code: 7 });
    assert!(skipped_verification.is_none());

    let (successful_switch, verification) =
        execute_profile_attempt(&profile("exit-zero"), fake_context(), &fake_run).unwrap();
    assert!(successful_switch.disposition.is_exit_zero());
    assert_eq!(verification.unwrap().disposition, AntennaControlDisposition::Exit { code: 0 });
}

#[test]
fn unexpandable_switch_command_reports_the_switch_role() {
    let profile = ControllerProfile {
        profile_id: "profile-1".into(),
        revision: "revision-1".into(),
        name: "Fake controller".into(),
        switch_command: ControllerCommandTemplate { program_template: "switch".into(), argument_templates: vec!["{nope}".into()] },
        verification_command: None,
        timeout_seconds: 10,
    };
    let error = execute_profile_attempt(&profile, fake_context(), &fake_run).unwrap_err();
    assert_eq!(error.role, antennabench_desktop::control_model::AntennaControlRole::Switch);
}

#[test]
fn saving_a_new_profile_keeps_the_catalog_ordered_by_name() {
    let catalog = catalog_with_one_association();
    let mut new_draft = draft("switch {target}", 10);
    new_draft.name = " Alpha relay ".into();
    let (saved, profile, changed) =
        save_profile_to_catalog(catalog, &new_draft, |prefix: &str| format!("{prefix}-9")).unwrap();
    assert!(changed);
    assert_eq!(profile.profile_id, "controller-profile-9");
    assert_eq!(profile.name, "Alpha relay");
    let names: Vec<&str> = saved.profiles.iter().map(|p| p.name.as_str()).collect();
    assert_eq!(names, vec!["Alpha relay", "Fake controller"]);
    assert_eq!(saved.associations.len(), 1);
}

#[test]
fn saving_an_unchanged_profile_keeps_its_revision() {
    let catalog = ControllerCatalog::default();
    let (catalog, first, _) = save_profile_to_catalog(catalog, &draft("switch {target}", 10), |prefix: &str| format!("{prefix}-1")).unwrap();
    let mut edit = draft("switch {target}", 10);
    edit.profile_id = Some(first.profile_id.clone());
    let (catalog, second, changed) = save_profile_to_catalog(catalog, &edit, |prefix: &str| format!("{prefix}-2")).unwrap();
    assert!(!changed);
    assert_eq!(second.revision, first.revision);
    assert_eq!(catalog.profiles.len(), 1);
}

#[test]
fn saving_a_vanished_or_invalid_profile_is_refused() {
    let mut edit = draft("switch {target}", 10);
    edit.profile_id = Some("gone".into());
    let error = save_profile_to_catalog(ControllerCatalog::default(), &edit, |prefix: &str| prefix.to_string()).unwrap_err();
    assert_eq!(error.detail, "the requested local profile identity no longer exists");
    let invalid = draft("switch {target}", 0);
    let error = save_profile_to_catalog(ControllerCatalog::default(), &invalid, |prefix: &str| prefix.to_string()).unwrap_err();
    assert_eq!(error.message, "The local antenna-controller profile is not valid.");
}

#[test]
fn deleting_a_missing_profile_is_a_conflict_and_attachments_are_revoked() {
    let mut catalog = catalog_with_one_association();
    assert!(delete_profile_from_catalog(&mut catalog, "profile-1").is_ok());
    let error = delete_profile_from_catalog(&mut catalog, "profile-1").unwrap_err();
    assert_eq!(error.detail, "refresh the local controller profile list before deleting");

    let mut state = AntennaControllerState::default();
    let profile = catalog_with_one_association().profiles.remove(0);
    state.attach("/s".into(), "session-1".into(), &profile, Vec::new(), true);
    assert!(!revoke_if_attached(&mut state, "profile-2"));
    assert!(state.runtime.attached.is_some());
    assert!(revoke_if_attached(&mut state, "profile-1"));
    assert!(state.runtime.attached.is_none());
}
