use sha2::Digest;
use antennabench_desktop::conductor_state::requires_wsjtx_receiver;
use antennabench_desktop::control_model::ExperimentMode;
use antennabench_desktop::desktop::check_ipc_payload;
use antennabench_desktop::transition::continuation_identity;
use antennabench_desktop::conductor_state::{
    ensure_live_source, live_error_payload, register_view_action, ConductorRuntime, LivePersistenceError, PendingAction,
    MAX_PENDING_ACTION_TOKENS,
};
use antennabench_desktop::errors::SessionErrorKind;
use antennabench_desktop::open_errors::{open_session_error_payload, OpenSessionError, StoreError};

fn action(token: &str, revision: u64) -> PendingAction {
    PendingAction { token: token.into(), session_id: "session-1".into(), expected_revision: revision, occurred_at_ms: None }
}

#[test]
fn only_the_newest_action_tokens_are_remembered() {
    let mut runtime = ConductorRuntime::new();
    for i in 0..(MAX_PENDING_ACTION_TOKENS + 3) {
        runtime.register_action(action(&format!("token-{i}"), i as u64));
    }
    assert_eq!(runtime.pending_actions.len(), MAX_PENDING_ACTION_TOKENS);
    assert_eq!(runtime.pending_actions[0].token, "token-3");
    assert!(runtime.resolve_action("token-0", 5).is_none());
    assert!(runtime.resolve_action("token-34", 5).is_some());
}

#[test]
fn a_token_keeps_its_first_presentation_time() {
    let mut runtime = ConductorRuntime::new();
    register_view_action(&mut runtime, "session-1", 4, "token-a".into());
    let first = runtime.resolve_action("token-a", 1_000).unwrap();
    assert_eq!(first.occurred_at_ms, Some(1_000));
    let again = runtime.resolve_action("token-a", 9_000).unwrap();
    assert_eq!(again.occurred_at_ms, Some(1_000));
    assert_eq!(again.expected_revision, 4);
}

#[test]
fn controller_actions_need_a_matching_token() {
    let mut runtime = ConductorRuntime::new();
    register_view_action(&mut runtime, "session-1", 4, "token-a".into());
    assert!(runtime.authorize_controller_action("token-a", "session-1", 4, 0).is_ok());
    let stale = runtime.authorize_controller_action("token-a", "session-1", 5, 0).unwrap_err();
    assert_eq!(stale.kind, SessionErrorKind::StaleRevision);
    assert_eq!(stale.detail, "the action token does not match this session revision");
    let unknown = runtime.authorize_controller_action("token-b", "session-1", 4, 0).unwrap_err();
    assert_eq!(unknown.detail, "the Rust-issued action token is missing or expired");
}

#[test]
fn recovering_another_session_expires_its_tokens() {
    let mut runtime = ConductorRuntime::new();
    runtime.mark_initialized("/a.session.antennabundle".into());
    register_view_action(&mut runtime, "session-1", 1, "token-a".into());
    runtime.mark_initialized("/a.session.antennabundle".into());
    assert_eq!(runtime.pending_actions.len(), 1);
    assert!(runtime.is_initialized("/a.session.antennabundle"));
    runtime.mark_initialized("/b.session.antennabundle".into());
    assert!(runtime.pending_actions.is_empty());
    assert!(!runtime.is_initialized("/a.session.antennabundle"));
}

#[test]
fn only_current_bundles_can_be_conducted_live() {
    assert!(ensure_live_source("/sessions/run.session.antennabundle").is_ok());
    let error = ensure_live_source("/sessions/run.session.wsprabundle").unwrap_err();
    assert_eq!(error.kind, SessionErrorKind::Unsupported);
    assert_eq!(error.detail, "schema-v1 bundles remain read-only and must be explicitly upgraded");
}

#[test]
fn live_persistence_failures_keep_their_codes() {
    let stale = live_error_payload(LivePersistenceError::StaleRevision { expected: 7, actual: 9 });
    assert_eq!(stale.kind, SessionErrorKind::StaleRevision);
    assert_eq!(stale.detail, "expected checkpoint revision 7, actual revision 9");
    assert_eq!(stale.operation.unwrap().code, "session.stale_revision");

    let frozen = live_error_payload(LivePersistenceError::PlanFrozen { description: "plan is frozen".into() });
    assert_eq!(frozen.kind, SessionErrorKind::Validation);
    assert_eq!(frozen.operation.unwrap().stage, "preflight");

    let limited = live_error_payload(LivePersistenceError::ResourceLimit {
        code: "resource.events".into(),
        stream: "events".into(),
        observed: 11,
        limit: 10,
    });
    let op = limited.operation.unwrap();
    assert_eq!((op.observed, op.limit), (Some(11), Some(10)));
    assert_eq!(op.unit.as_deref(), Some("bounded_units"));

    let busy = open_session_error_payload(OpenSessionError::Live(LivePersistenceError::WriterBusy));
    assert_eq!(busy.kind, SessionErrorKind::Busy);
    assert_eq!(busy.message, "Another local operation is updating this session.");

    let store = live_error_payload(LivePersistenceError::Store(StoreError::UnsupportedSchemaVersion { actual: 9 }));
    assert_eq!(store.detail, "unsupported schema version 9");
}

#[test]
fn continuation_identities_are_the_truncated_digest_of_their_key() {
    let digest = sha2::Sha256::digest("session-1\0event-4\0intent-9".as_bytes());
    let hex: String = digest.iter().map(|b| format!("{b:02x}")).collect();
    let expected = format!("continued-{}", &hex[..32]);
    assert_eq!(continuation_identity("session-1", "event-4", "intent-9"), expected);
    assert_ne!(continuation_identity("session-1", "event-4", "intent-8"), expected);
}

#[test]
fn receive_sessions_without_public_collection_need_wsjtx() {
    assert!(requires_wsjtx_receiver(4, false, 0, ExperimentMode::RxFocused));
    assert!(!requires_wsjtx_receiver(3, false, 0, ExperimentMode::RxFocused));
    assert!(!requires_wsjtx_receiver(6, true, 0, ExperimentMode::WholeStationAb));
    assert!(!requires_wsjtx_receiver(6, false, 1, ExperimentMode::SingleAntennaProfiling));
    assert!(!requires_wsjtx_receiver(6, false, 0, ExperimentMode::TxFocused));
}

#[test]
fn ipc_payloads_are_held_to_their_byte_limit() {
    assert!(check_ipc_payload(Ok(512), 512, "conductor_view").is_ok());
    let error = check_ipc_payload(Ok(513), 512, "conductor_view").unwrap_err();
    let op = error.operation.unwrap();
    assert_eq!((op.code.as_str(), op.stage.as_str()), ("resource.desktop.ipc_bytes", "conductor_view"));
    assert_eq!((op.limit, op.observed), (Some(512), Some(513)));
    let broken = check_ipc_payload(Err("key must be a string".into()), 512, "conductor_view").unwrap_err();
    assert_eq!(broken.detail, "IPC serialization failed: key must be a string");
}
