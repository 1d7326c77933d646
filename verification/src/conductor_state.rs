//! The conductor's runtime state: which session it has recovered, the
//! action tokens it issued with each view, and the typed payloads of live
//! persistence failures.

use vstd::prelude::*;

use crate::control_model::ExperimentMode;
use crate::errors::{plain_error, resource_error, SessionErrorKind, SessionErrorPayload};
use crate::managed::v2_bundle_suffix;
use crate::open_errors::{storage_error_payload, storage_payload, StoreError};
use crate::paths::{file_name_of, path_file_name};
use crate::text::{dec, ends_with, ends_with_seq, owned, push_str, str_eq, u64_text};

verus! {

/// At most this many issued action tokens are remembered; older ones expire.
pub const MAX_PENDING_ACTION_TOKENS: usize = 32;

/// A failure of live session persistence, as plain values. Failures whose
/// payload quotes the failure's own description carry that description.
#[derive(Debug, Clone, PartialEq, Eq)]
pub enum LivePersistenceError {
    Store(StoreError),
    WriterBusy,
    StaleRevision { expected: u64, actual: u64 },
    MutationConflict { mutation_id: String },
    Capability { message: String },
    RecoveryRequired { description: String },
    InvalidMutation { description: String },
    PlanFrozen { description: String },
    ResourceLimit { code: String, stream: String, observed: u64, limit: u64 },
    ExternalModification { description: String },
    Io { description: String },
    CheckpointVerification { description: String },
}

/// A payload with this kind, message and detail, attributed to an
/// operation code at a stage.
pub open spec fn staged_error(
    p: SessionErrorPayload,
    kind: SessionErrorKind,
    message: Seq<char>,
    detail: Seq<char>,
    code: Seq<char>,
    stage: Seq<char>,
) -> bool {
    &&& p.kind == kind
    &&& p.message@ == message
    &&& p.detail@ == detail
    &&& p.diagnostic_persistence is None
    &&& p.operation matches Some(op) && op.code@ == code && op.stage@ == stage && op.observed is None
        && op.limit is None && op.unit is None
}

/// The payload of a live persistence failure.
pub open spec fn live_payload(e: LivePersistenceError, p: SessionErrorPayload) -> bool {
    match e {
        LivePersistenceError::Store(s) => storage_payload(s, p),
        LivePersistenceError::WriterBusy => staged_error(p, SessionErrorKind::Busy, "Another local operation is updating this session."@, "session writer lock is busy"@, "session.writer_busy"@, "admission"@),
        LivePersistenceError::StaleRevision { expected, actual } => staged_error(
            p,
            SessionErrorKind::StaleRevision,
            "The session changed. Refresh the conductor before retrying."@,
            "expected checkpoint revision "@ + dec(expected as nat) + ", actual revision "@ + dec(actual as nat),
            "session.stale_revision"@,
            "admission"@,
        ),
        LivePersistenceError::MutationConflict { mutation_id } => staged_error(
            p,
            SessionErrorKind::Conflict,
            "That action token was already used for different evidence."@,
            "conflicting mutation ID "@ + mutation_id@,
            "session.mutation_conflict"@,
            "admission"@,
        ),
        LivePersistenceError::Capability { message } => staged_error(p, SessionErrorKind::Unsupported, "This filesystem cannot safely conduct a live session."@, message@, "session.capability_unavailable"@, "admission"@),
        LivePersistenceError::RecoveryRequired { description } => staged_error(p, SessionErrorKind::Verification, "The session must be recovered before it can be changed."@, description@, "session.recovery_required"@, "recover"@),
        LivePersistenceError::InvalidMutation { description } => staged_error(p, SessionErrorKind::Validation, "The requested conductor action is not valid for this session."@, description@, "session.invalid_mutation"@, "preflight"@),
        LivePersistenceError::PlanFrozen { description } => staged_error(p, SessionErrorKind::Validation, "The requested conductor action is not valid for this session."@, description@, "session.invalid_mutation"@, "preflight"@),
        LivePersistenceError::ResourceLimit { code, stream, observed, limit } => resource_error(p, SessionErrorKind::Resource, code@, stream@, limit, Some(observed), "bounded_units"@),
        LivePersistenceError::ExternalModification { description } => staged_error(p, SessionErrorKind::Verification, "The session changed outside AntennaBench and live mutation was stopped."@, description@, "session.external_modification"@, "checkpoint"@),
        LivePersistenceError::Io { description } => staged_error(p, SessionErrorKind::Filesystem, "The conductor could not durably update the session."@, description@, "session.persistence_io"@, "checkpoint"@),
        LivePersistenceError::CheckpointVerification { description } => staged_error(p, SessionErrorKind::Verification, "The conductor could not verify a coherent checkpoint."@, description@, "session.checkpoint_verification"@, "checkpoint"@),
    }
}

fn staged(kind: SessionErrorKind, message: &str, detail: &str, code: &str, stage: &str) -> (r: SessionErrorPayload)
    ensures
        staged_error(r, kind, message@, detail@, code@, stage@),
{
    SessionErrorPayload::new(kind, message, detail).with_operation(code, stage)
}

/// The payload the shell receives for a live persistence failure.
pub fn live_error_payload(error: LivePersistenceError) -> (r: SessionErrorPayload)
    ensures
        live_payload(error, r),
{
    match error {
        LivePersistenceError::Store(s) => storage_error_payload(s),
        LivePersistenceError::WriterBusy => staged(
            SessionErrorKind::Busy,
            "Another local operation is updating this session.",
            "session writer lock is busy",
            "session.writer_busy",
            "admission",
        ),
        LivePersistenceError::StaleRevision { expected, actual } => {
            let mut detail = owned("expected checkpoint revision ");
            let e = u64_text(expected);
            push_str(&mut detail, e.as_str());
            push_str(&mut detail, ", actual revision ");
            let a = u64_text(actual);
            push_str(&mut detail, a.as_str());
            proof {
                reveal_strlit("expected checkpoint revision ");
                reveal_strlit(", actual revision ");
            }
            staged(
                SessionErrorKind::StaleRevision,
                "The session changed. Refresh the conductor before retrying.",
                detail.as_str(),
                "session.stale_revision",
                "admission",
            )
        },
        LivePersistenceError::MutationConflict { mutation_id } => {
            let mut detail = owned("conflicting mutation ID ");
            push_str(&mut detail, mutation_id.as_str());
            proof {
                reveal_strlit("conflicting mutation ID ");
            }
            staged(
                SessionErrorKind::Conflict,
                "That action token was already used for different evidence.",
                detail.as_str(),
                "session.mutation_conflict",
                "admission",
            )
        },
        LivePersistenceError::Capability { message } => staged(
            SessionErrorKind::Unsupported,
            "This filesystem cannot safely conduct a live session.",
            message.as_str(),
            "session.capability_unavailable",
            "admission",
        ),
        LivePersistenceError::RecoveryRequired { description } => staged(
            SessionErrorKind::Verification,
            "The session must be recovered before it can be changed.",
            description.as_str(),
            "session.recovery_required",
            "recover",
        ),
        LivePersistenceError::InvalidMutation { description } | LivePersistenceError::PlanFrozen { description } => staged(
            SessionErrorKind::Validation,
            "The requested conductor action is not valid for this session.",
            description.as_str(),
            "session.invalid_mutation",
            "preflight",
        ),
        LivePersistenceError::ResourceLimit { code, stream, observed, limit } => SessionErrorPayload::resource(
            SessionErrorKind::Resource,
            code.as_str(),
            stream.as_str(),
            limit,
            Some(observed),
            "bounded_units",
        ),
        LivePersistenceError::ExternalModification { description } => staged(
            SessionErrorKind::Verification,
            "The session changed outside AntennaBench and live mutation was stopped.",
            description.as_str(),
            "session.external_modification",
            "checkpoint",
        ),
        LivePersistenceError::Io { description } => staged(
            SessionErrorKind::Filesystem,
            "The conductor could not durably update the session.",
            description.as_str(),
            "session.persistence_io",
            "checkpoint",
        ),
        LivePersistenceError::CheckpointVerification { description } => staged(
            SessionErrorKind::Verification,
            "The conductor could not verify a coherent checkpoint.",
            description.as_str(),
            "session.checkpoint_verification",
            "checkpoint",
        ),
    }
}

/// The error when the active session cannot be conducted live.
pub open spec fn not_live_error(e: SessionErrorPayload) -> bool {
    plain_error(
        e,
        SessionErrorKind::Unsupported,
        "The live conductor requires a checkpointed session bundle."@,
        "schema-v1 bundles remain read-only and must be explicitly upgraded"@,
    )
}

/// A source whose file name carries the checkpointed bundle suffix.
pub open spec fn live_bundle_name(source: Seq<char>) -> bool {
    file_name_of(source) matches Some(name) && ends_with_seq(name, v2_bundle_suffix())
}

/// Only a checkpointed bundle, named with the current bundle suffix, can be
/// conducted live.
pub fn ensure_live_source(source: &str) -> (r: Result<(), SessionErrorPayload>)
    ensures
        live_bundle_name(source@) ==> r is Ok,
        !live_bundle_name(source@) ==> (r matches Err(e) && not_live_error(e)),
{
    proof {
        reveal_strlit(".session.antennabundle");
    }
    let valid = match path_file_name(source) {
        Some(name) => ends_with(name.as_str(), ".session.antennabundle"),
        None => false,
    };
    if valid {
        Ok(())
    } else {
        Err(SessionErrorPayload::new(
            SessionErrorKind::Unsupported,
            "The live conductor requires a checkpointed session bundle.",
            "schema-v1 bundles remain read-only and must be explicitly upgraded",
        ))
    }
}

/// An action token issued with a conductor view: the session and revision
/// it was issued for, and when it was first presented back.
#[derive(Debug, Clone, PartialEq, Eq)]
pub struct PendingAction {
    pub token: String,
    pub session_id: String,
    pub expected_revision: u64,
    pub occurred_at_ms: Option<i64>,
}

impl PendingAction {
    /// An independent copy of the pending action.
    pub fn duplicate(&self) -> (r: Self)
        ensures
            r == *self,
    {
        PendingAction {
            token: self.token.clone(),
            session_id: self.session_id.clone(),
            expected_revision: self.expected_revision,
            occurred_at_ms: self.occurred_at_ms,
        }
    }
}

/// The conductor's runtime state.
#[derive(Debug)]
pub struct ConductorRuntime {
    pub initialized_source: Option<String>,
    pub pending_actions: Vec<PendingAction>,
}

/// The first pending action holding `token`, if any.
pub open spec fn token_position(actions: Seq<PendingAction>, token: Seq<char>) -> Option<int> {
    if exists|i: int| 0 <= i < actions.len() && actions[i].token@ == token {
        Some(choose|i: int| 0 <= i < actions.len() && actions[i].token@ == token
            && forall|k: int| 0 <= k < i ==> actions[k].token@ != token)
    } else {
        None
    }
}

/// The remembered tokens after one more was issued: the newest ones, at
/// most the limit.
pub open spec fn after_register(actions: Seq<PendingAction>, action: PendingAction) -> Seq<PendingAction> {
    let all = actions.push(action);
    if all.len() > MAX_PENDING_ACTION_TOKENS {
        all.skip(all.len() - MAX_PENDING_ACTION_TOKENS)
    } else {
        all
    }
}

/// A pending action once presented: its first presentation time is kept.
pub open spec fn presented(a: PendingAction, now_ms: i64) -> PendingAction {
    PendingAction {
        occurred_at_ms: match a.occurred_at_ms {
            Some(t) => Some(t),
            None => Some(now_ms),
        },
        ..a
    }
}

proof fn lemma_token_position(actions: Seq<PendingAction>, token: Seq<char>, f: int)
    requires
        0 <= f < actions.len(),
        actions[f].token@ == token,
        forall|k: int| 0 <= k < f ==> actions[k].token@ != token,
    ensures
        token_position(actions, token) == Some(f),
{
    let g = choose|i: int| 0 <= i < actions.len() && actions[i].token@ == token
        && forall|k: int| 0 <= k < i ==> actions[k].token@ != token;
    assert(0 <= g < actions.len() && actions[g].token@ == token);
    if g < f {
        assert(actions[g].token@ != token);
    }
    if f < g {
        assert(actions[f].token@ != token);
    }
}

/// The error of an action token that was never issued or has expired.
pub open spec fn unknown_token_error(e: SessionErrorPayload) -> bool {
    plain_error(
        e,
        SessionErrorKind::StaleRevision,
        "Refresh Active Run before submitting this controller action."@,
        "the Rust-issued action token is missing or expired"@,
    )
}

/// The error of an action token issued for another session or revision.
pub open spec fn mismatched_token_error(e: SessionErrorPayload) -> bool {
    plain_error(
        e,
        SessionErrorKind::StaleRevision,
        "Refresh Active Run before submitting this controller action."@,
        "the action token does not match this session revision"@,
    )
}

impl ConductorRuntime {
    /// A runtime that has recovered no session and issued no tokens.
    pub fn new() -> (r: Self)
        ensures
            r.initialized_source is None,
            r.pending_actions@.len() == 0,
    {
        ConductorRuntime { initialized_source: None, pending_actions: Vec::new() }
    }

    /// The session at `source` was already recovered.
    pub fn is_initialized(&self, source: &str) -> (r: bool)
        ensures
            r == (self.initialized_source matches Some(s) && s@ == source@),
    {
        match &self.initialized_source {
            Some(s) => str_eq(s.as_str(), source),
            None => false,
        }
    }

    /// Records that the session at `source` was recovered; tokens issued for
    /// another session expire.
    pub fn mark_initialized(&mut self, source: String)
        ensures
            final(self).initialized_source == Some(source),
            (old(self).initialized_source matches Some(s) && s@ == source@) ==> final(self).pending_actions
                == old(self).pending_actions,
            !(old(self).initialized_source matches Some(s) && s@ == source@) ==> final(self).pending_actions@.len()
                == 0,
    {
        let same = self.is_initialized(source.as_str());
        if !same {
            self.pending_actions = Vec::new();
        }
        self.initialized_source = Some(source);
    }

    /// Remembers a newly issued token; beyond the limit the oldest expire.
    pub fn register_action(&mut self, action: PendingAction)
        ensures
            final(self).initialized_source == old(self).initialized_source,
            final(self).pending_actions@ == after_register(old(self).pending_actions@, action),
    {
        let ghost all = self.pending_actions@.push(action);
        self.pending_actions.push(action);
        let ghost mut dropped: int = 0;
        while self.pending_actions.len() > MAX_PENDING_ACTION_TOKENS
            invariant
                0 <= dropped <= all.len(),
                self.pending_actions@ == all.skip(dropped),
                self.initialized_source == old(self).initialized_source,
                dropped > 0 ==> all.len() - dropped >= MAX_PENDING_ACTION_TOKENS,
            decreases self.pending_actions@.len(),
        {
            self.pending_actions.remove(0);
            proof {
                assert(all.skip(dropped).remove(0) =~= all.skip(dropped + 1));
                dropped = dropped + 1;
            }
        }
        proof {
            if all.len() > MAX_PENDING_ACTION_TOKENS {
                assert(dropped == all.len() - MAX_PENDING_ACTION_TOKENS);
            } else {
                assert(dropped == 0);
                assert(all.skip(0) =~= all);
            }
        }
    }

    /// Finds the pending action holding `token`, records `now_ms` as its
    /// first presentation unless it was presented before, and returns it.
    pub fn resolve_action(&mut self, token: &str, now_ms: i64) -> (r: Option<PendingAction>)
        ensures
            final(self).initialized_source == old(self).initialized_source,
            match token_position(old(self).pending_actions@, token@) {
                None => r is None && final(self).pending_actions@ == old(self).pending_actions@,
                Some(i) => {
                    &&& r == Some(presented(old(self).pending_actions@[i], now_ms))
                    &&& final(self).pending_actions@ == old(self).pending_actions@.update(
                        i,
                        presented(old(self).pending_actions@[i], now_ms),
                    )
                },
            },
    {
        let mut i: usize = 0;
        while i < self.pending_actions.len()
            invariant
                i <= self.pending_actions@.len(),
                self.pending_actions@ == old(self).pending_actions@,
                self.initialized_source == old(self).initialized_source,
                forall|k: int| 0 <= k < i ==> self.pending_actions@[k].token@ != token@,
            decreases self.pending_actions@.len() - i,
        {
            if str_eq(self.pending_actions[i].token.as_str(), token) {
                proof {
                    lemma_token_position(self.pending_actions@, token@, i as int);
                }
                let current = self.pending_actions[i].duplicate();
                let updated = PendingAction {
                    occurred_at_ms: match current.occurred_at_ms {
                        Some(t) => Some(t),
                        None => Some(now_ms),
                    },
                    ..current
                };
                self.pending_actions.set(i, updated.duplicate());
                return Some(updated);
            }
            i = i + 1;
        }
        None
    }

    /// Admits a controller action only under a token issued with a view of
    /// the same session at the same revision.
    pub fn authorize_controller_action(
        &mut self,
        token: &str,
        session_id: &str,
        expected_revision: u64,
        now_ms: i64,
    ) -> (r: Result<(), SessionErrorPayload>)
        ensures
            final(self).initialized_source == old(self).initialized_source,
            match token_position(old(self).pending_actions@, token@) {
                None => r matches Err(e) && unknown_token_error(e) && final(self).pending_actions@
                    == old(self).pending_actions@,
                Some(i) => {
                    let a = old(self).pending_actions@[i];
                    &&& final(self).pending_actions@ == old(self).pending_actions@.update(i, presented(a, now_ms))
                    &&& (a.session_id@ == session_id@ && a.expected_revision == expected_revision) ==> r is Ok
                    &&& !(a.session_id@ == session_id@ && a.expected_revision == expected_revision) ==> (r matches Err(e)
                        && mismatched_token_error(e))
                },
            },
    {
        let pending = match self.resolve_action(token, now_ms) {
            Some(p) => p,
            None => {
                return Err(SessionErrorPayload::new(
                    SessionErrorKind::StaleRevision,
                    "Refresh Active Run before submitting this controller action.",
                    "the Rust-issued action token is missing or expired",
                ));
            },
        };
        if !str_eq(pending.session_id.as_str(), session_id) || pending.expected_revision != expected_revision {
            return Err(SessionErrorPayload::new(
                SessionErrorKind::StaleRevision,
                "Refresh Active Run before submitting this controller action.",
                "the action token does not match this session revision",
            ));
        }
        Ok(())
    }
}

/// Issues `token` with a conductor view of `session_id` at `revision`.
pub fn register_view_action(runtime: &mut ConductorRuntime, session_id: &str, revision: u64, token: String)
    ensures
        final(runtime).initialized_source == old(runtime).initialized_source,
        exists|a: PendingAction| {
            &&& a.token == token
            &&& a.session_id@ == session_id@
            &&& a.expected_revision == revision
            &&& a.occurred_at_ms is None
            &&& final(runtime).pending_actions@ == after_register(old(runtime).pending_actions@, a)
        },
{
    let action = PendingAction { token, session_id: owned(session_id), expected_revision: revision, occurred_at_ms: None };
    runtime.register_action(action);
}

/// The first schema version whose sessions may need a WSJT-X receiver.
pub const WSJTX_RECEIVER_SCHEMA_VERSION: u16 = 4;

/// A session needs the local WSJT-X receiver when it has no public
/// collection and no signal plans, and its mode receives WSPR.
pub open spec fn requires_wsjtx_receiver_spec(
    schema_version: u16,
    wspr_live_acquisition_enabled: bool,
    signal_plan_count: usize,
    mode: ExperimentMode,
) -> bool {
    &&& schema_version >= WSJTX_RECEIVER_SCHEMA_VERSION
    &&& !wspr_live_acquisition_enabled
    &&& signal_plan_count == 0
    &&& (mode == ExperimentMode::WholeStationAb || mode == ExperimentMode::RxFocused || mode == ExperimentMode::SingleAntennaProfiling)
}

/// Whether the conductor must ask for the local WSJT-X receiver.
pub fn requires_wsjtx_receiver(
    schema_version: u16,
    wspr_live_acquisition_enabled: bool,
    signal_plan_count: usize,
    mode: ExperimentMode,
) -> (r: bool)
    ensures
        r == requires_wsjtx_receiver_spec(schema_version, wspr_live_acquisition_enabled, signal_plan_count, mode),
{
    schema_version >= WSJTX_RECEIVER_SCHEMA_VERSION && !wspr_live_acquisition_enabled && signal_plan_count == 0
        && match mode {
        ExperimentMode::WholeStationAb | ExperimentMode::RxFocused | ExperimentMode::SingleAntennaProfiling => true,
        ExperimentMode::TxFocused => false,
    }
}

} // verus!
