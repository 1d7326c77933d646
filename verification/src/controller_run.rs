//! An operator-triggered controller attempt on the active session: every
//! precondition checked against the committed session, the attached
//! controller and the issued action token; the attempt run; and its
//! evidence handed to the session writer as one mutation.

use vstd::prelude::*;

use crate::automation::{armed_for, copy_profile, same_profile};
use crate::command::{context_values_spec, invocation_context, resolve_command, resolve_spec};
use crate::conductor_state::{presented, token_position, ConductorRuntime};
use crate::control_model::{
    exit_zero, manual_review_policy, AntennaControlContext, AntennaControlInvocation, AntennaControlPolicy,
    AntennaControlRole, ControlSession, RigRecord, SessionLifecycle, WsprCycleIntent, strs_view,
};
use crate::controller_commands::revision_at;
use crate::errors::{plain_error, SessionErrorKind, SessionErrorPayload};
use crate::mapping::targets_map;
use crate::automation::{next_intent_spec, target_for};
use crate::policy::{
    committed_outcome, committed_run_outcome, command_verified_event, first_invocation,
    inv_of, prior_transmission_end, run_detail, run_detail_spec, AntennaControllerState, CommandVerifiedEvent,
    ControllerAttemptSummary, RunControllerOutcome,
};
use crate::process::{attempt_diagnostic, attempt_diagnostic_spec, execute_profile_attempt, invocation_of, ran_with, ProcessResult};
use crate::profiles::ControllerProfile;
use crate::text::{debug_quoted, debug_text, dec, owned, push_str, str_eq, u64_text};

verus! {

/// The first schema version whose sessions can run a controller.
pub const CONTROLLED_SCHEMA_VERSION: u16 = 5;

/// An operator's request to run the attached controller for the pending
/// intention, under the action token issued with the view it saw.
#[derive(Debug, Clone, PartialEq, Eq)]
pub struct RunControllerRequest {
    pub action_token: String,
    pub expected_revision: u64,
    pub intent_id: String,
}

/// The evidence of one attempt, written as one mutation under the action
/// token: the invocation records and, when command verification readies
/// the next cycle, the event that arms it.
#[derive(Debug)]
pub struct AntennaControlMutation {
    pub expected_revision: u64,
    pub mutation_id: String,
    pub rig_records: Vec<RigRecord>,
    pub armed_event: Option<CommandVerifiedEvent>,
}

/// The record of one controller invocation, not yet assigned to a mutation.
pub fn rig_record(record_id: String, invocation: AntennaControlInvocation) -> (r: RigRecord)
    ensures
        r.record_id == record_id,
        r.mutation_id@ == "pending"@,
        r.antenna_control == Some(invocation),
{
    proof {
        reveal_strlit("pending");
    }
    RigRecord { record_id, mutation_id: owned("pending"), antenna_control: Some(invocation) }
}

/// Why a request is refused before any committed attempt is looked up.
pub open spec fn early_refusal(controller: AntennaControllerState, session: ControlSession) -> Option<
    (SessionErrorKind, Seq<char>, Seq<char>),
> {
    if controller.runtime.worker_running {
        Some((
            SessionErrorKind::Busy,
            "Automatic antenna control is already preparing this intention."@,
            "wait for the current Rust-owned controller process to finish"@,
        ))
    } else if session.schema_version < CONTROLLED_SCHEMA_VERSION || session.lifecycle != SessionLifecycle::Running {
        Some((
            SessionErrorKind::Conflict,
            "Antenna control is available only for an active schema-v5 session."@,
            "the active session is not a running schema-v5 session"@,
        ))
    } else if !(session.antenna_control matches Some(AntennaControlPolicy::CommandControlled { .. })) {
        Some((
            SessionErrorKind::Conflict,
            "This session was not planned for command-controlled antenna assistance."@,
            "the portable antenna-control policy is manual"@,
        ))
    } else {
        None
    }
}

/// An attempt for the intention is already committed under the token.
pub open spec fn already_committed(session: ControlSession, request: RunControllerRequest) -> bool {
    exists|k: int|
        first_invocation(session.rig@, request.action_token@, AntennaControlRole::Switch, k)
            && inv_of(session.rig@[k]).context.intent_id@ == request.intent_id@
}

/// The armed attachment of the session at `source`, if any.
pub open spec fn pinned_attachment(controller: AntennaControllerState, source: Seq<char>, session: ControlSession) -> Option<
    crate::policy::RuntimeAssociation,
> {
    match controller.runtime.attached {
        Some(a) => if armed_for(a, source, session.session_id@) {
            Some(a)
        } else {
            None
        },
        None => None,
    }
}

/// The pinned profile revision is still saved.
pub open spec fn revision_saved(profiles: Seq<ControllerProfile>, a: crate::policy::RuntimeAssociation) -> bool {
    exists|k: int| revision_at(profiles, a.profile_id@, a.profile_revision@, k)
}

/// An intention names its direction.
pub open spec fn has_direction(intent: WsprCycleIntent) -> bool {
    intent.direction is Some
}

/// Why the pinned attachment cannot run the intention, and whether the
/// refusal withdraws the controller authority.
pub open spec fn attachment_refusal(
    pinned: Option<crate::policy::RuntimeAssociation>,
    profiles: Seq<ControllerProfile>,
    intent: WsprCycleIntent,
) -> Option<(SessionErrorKind, Seq<char>, Seq<char>, bool)> {
    match pinned {
        None => Some((
            SessionErrorKind::Conflict,
            "Attach and arm a local controller before switching."@,
            "no armed local controller is associated with this active session"@,
            false,
        )),
        Some(a) => if !revision_saved(profiles, a) {
            Some((
                SessionErrorKind::Conflict,
                "The attached controller changed. Review and arm it again."@,
                "the pinned local controller revision is stale"@,
                true,
            ))
        } else if !targets_map(a.targets@).dom().contains(intent.antenna_label@) {
            Some((
                SessionErrorKind::Validation,
                "The pending antenna has no local controller target."@,
                "missing target for "@ + debug_quoted(intent.antenna_label@),
                false,
            ))
        } else if !has_direction(intent) {
            Some((
                SessionErrorKind::Validation,
                "The pending antenna intention cannot be expanded safely."@,
                "antenna control requires an intention direction"@,
                false,
            ))
        } else {
            None
        },
    }
}

/// The refusal of a stale revision.
pub open spec fn stale_revision_refusal(expected: u64, actual: u64) -> (SessionErrorKind, Seq<char>, Seq<char>, bool) {
    (
        SessionErrorKind::StaleRevision,
        "The session changed. Refresh Active Run before switching."@,
        "expected checkpoint revision "@ + dec(expected as nat) + ", actual revision "@ + dec(actual as nat),
        false,
    )
}

/// The refusal of a request for another intention than the pending one.
pub open spec fn changed_intent_refusal(requested: Seq<char>, current: Seq<char>) -> (SessionErrorKind, Seq<char>, Seq<char>, bool) {
    (
        SessionErrorKind::Conflict,
        "The pending antenna intention changed. Refresh before switching."@,
        "requested intention "@ + debug_quoted(requested) + ", current intention "@ + debug_quoted(current),
        false,
    )
}

/// The protected transmission interval has not ended at `now_ms`.
pub open spec fn transmitting(session: ControlSession, now_ms: i64) -> bool {
    prior_transmission_end(session) matches Some(end) && end > now_ms
}

/// Why a request without a committed attempt is refused before the token is
/// checked, and whether the refusal withdraws the controller authority.
pub open spec fn later_refusal(
    controller: AntennaControllerState,
    source: Seq<char>,
    session: ControlSession,
    profiles: Seq<ControllerProfile>,
    request: RunControllerRequest,
    now_ms: i64,
) -> Option<(SessionErrorKind, Seq<char>, Seq<char>, bool)> {
    if request.expected_revision != session.revision {
        Some(stale_revision_refusal(request.expected_revision, session.revision))
    } else if transmitting(session, now_ms) {
        Some((
            SessionErrorKind::Conflict,
            "Wait for the current WSPR transmission interval to finish before switching."@,
            "the antenna controller cannot run during the committed transmission interval"@,
            false,
        ))
    } else {
        match next_intent_spec(session) {
            None => Some((
                SessionErrorKind::Conflict,
                "There is no pending antenna intention to switch."@,
                "all cycle intentions are armed or skipped"@,
                false,
            )),
            Some(intent) => if intent.intent_id@ != request.intent_id@ {
                Some(changed_intent_refusal(request.intent_id@, intent.intent_id@))
            } else {
                attachment_refusal(pinned_attachment(controller, source, session), profiles, intent)
            },
        }
    }
}

/// The profile a run uses: the first saved one with the pinned identity
/// and revision.
pub open spec fn run_profile(profiles: Seq<ControllerProfile>, a: crate::policy::RuntimeAssociation) -> ControllerProfile {
    profiles[choose|k: int| revision_at(profiles, a.profile_id@, a.profile_revision@, k)]
}

/// The values a run expands its commands with.
pub open spec fn run_context_matches(
    c: AntennaControlContext,
    session: ControlSession,
    intent: WsprCycleIntent,
    target: Seq<char>,
) -> bool {
    &&& c.antenna@ == intent.antenna_label@
    &&& c.target@ == target
    &&& c.mode == session.mode
    &&& intent.direction == Some(c.direction)
    &&& c.band == intent.band
    &&& c.frequency_hz == (match intent.signal {
        Some(s) => Some(s.frequency_hz),
        None => None,
    })
    &&& c.sequence == intent.sequence_number
    &&& c.intent_id@ == intent.intent_id@
    &&& c.session_id@ == session.session_id@
    &&& c.callsign@ == session.callsign@
}

/// Everything a run checked before its token is presented.
pub struct RunPreparation {
    pub intent: WsprCycleIntent,
    pub profile: ControllerProfile,
    pub context: AntennaControlContext,
    pub manual_review_required: bool,
}

/// The first refusal among the checks that follow the lookup of a
/// committed attempt, with the controller authority withdrawn when the
/// pinned revision is gone; otherwise what the run uses.
pub fn prepare_controller_run(
    controller: &mut AntennaControllerState,
    source: &str,
    session: &ControlSession,
    profiles: &Vec<ControllerProfile>,
    request: &RunControllerRequest,
    now_ms: i64,
) -> (r: Result<RunPreparation, SessionErrorPayload>)
    ensures
        match later_refusal(*old(controller), source@, *session, profiles@, *request, now_ms) {
            Some((kind, message, detail, revoke)) => {
                &&& r matches Err(e) && plain_error(e, kind, message, detail)
                &&& !revoke ==> *final(controller) == *old(controller)
                &&& revoke ==> final(controller).runtime.attached is None && final(controller).generation == old(
                    controller,
                ).generation.wrapping_add(1)
            },
            None => {
                &&& *final(controller) == *old(controller)
                &&& next_intent_spec(*session) matches Some(intent)
                &&& pinned_attachment(*old(controller), source@, *session) matches Some(a)
                &&& match r {
                    Err(e) => exists|c: AntennaControlContext| {
                        let p = run_profile(profiles@, a);
                        &&& #[trigger] run_context_matches(c, *session, intent, targets_map(a.targets@)[intent.antenna_label@])
                        &&& {
                            ||| (resolve_spec(
                                p.switch_command.program_template@,
                                strs_view(p.switch_command.argument_templates@),
                                context_values_spec(c),
                            ) matches Err(m) && plain_error(e, SessionErrorKind::Validation, "The switch command could not be expanded."@, m))
                            ||| (p.verification_command matches Some(v) && resolve_spec(
                                v.program_template@,
                                strs_view(v.argument_templates@),
                                context_values_spec(c),
                            ) matches Err(m) && plain_error(
                                e,
                                SessionErrorKind::Validation,
                                "The verification command could not be expanded."@,
                                m,
                            ))
                        }
                    },
                    Ok(prep) => {
                        &&& prep.intent == intent
                        &&& same_profile(prep.profile, run_profile(profiles@, a))
                        &&& run_context_matches(prep.context, *session, intent, targets_map(a.targets@)[intent.antenna_label@])
                        &&& prep.manual_review_required == manual_review_policy(session.antenna_control)
                        &&& resolve_spec(
                            prep.profile.switch_command.program_template@,
                            strs_view(prep.profile.switch_command.argument_templates@),
                            context_values_spec(prep.context),
                        ) is Ok
                        &&& (prep.profile.verification_command matches Some(v) ==> resolve_spec(
                            v.program_template@,
                            strs_view(v.argument_templates@),
                            context_values_spec(prep.context),
                        ) is Ok)
                    },
                }
            },
        },
{
    if request.expected_revision != session.revision {
        let mut detail = owned("expected checkpoint revision ");
        let e = u64_text(request.expected_revision);
        push_str(&mut detail, e.as_str());
        push_str(&mut detail, ", actual revision ");
        let a = u64_text(session.revision);
        push_str(&mut detail, a.as_str());
        proof {
            reveal_strlit("expected checkpoint revision ");
            reveal_strlit(", actual revision ");
        }
        return Err(SessionErrorPayload::new(
            SessionErrorKind::StaleRevision,
            "The session changed. Refresh Active Run before switching.",
            detail.as_str(),
        ));
    }
    crate::policy::ensure_prior_transmission_complete(session, now_ms)?;
    let intent = match crate::automation::next_intent_of(session) {
        Some(i) => i,
        None => {
            return Err(SessionErrorPayload::new(
                SessionErrorKind::Conflict,
                "There is no pending antenna intention to switch.",
                "all cycle intentions are armed or skipped",
            ));
        },
    };
    if !str_eq(intent.intent_id.as_str(), request.intent_id.as_str()) {
        let mut detail = owned("requested intention ");
        let q = debug_text(request.intent_id.as_str());
        push_str(&mut detail, q.as_str());
        push_str(&mut detail, ", current intention ");
        let c = debug_text(intent.intent_id.as_str());
        push_str(&mut detail, c.as_str());
        proof {
            reveal_strlit("requested intention ");
            reveal_strlit(", current intention ");
        }
        return Err(SessionErrorPayload::new(
            SessionErrorKind::Conflict,
            "The pending antenna intention changed. Refresh before switching.",
            detail.as_str(),
        ));
    }
    let pinned = match &controller.runtime.attached {
        Some(a) => str_eq(a.source.as_str(), source) && str_eq(a.session_id.as_str(), session.session_id.as_str())
            && a.armed,
        None => false,
    };
    if !pinned {
        return Err(SessionErrorPayload::new(
            SessionErrorKind::Conflict,
            "Attach and arm a local controller before switching.",
            "no armed local controller is associated with this active session",
        ));
    }
    let (found, target) = match &controller.runtime.attached {
        Some(a) => (
            crate::controller_commands::find_revision(profiles, a.profile_id.as_str(), a.profile_revision.as_str()),
            target_for(a, intent.antenna_label.as_str()),
        ),
        None => (None, None),
    };
    let index = match found {
        Some(k) => k,
        None => {
            controller.revoke();
            return Err(SessionErrorPayload::new(
                SessionErrorKind::Conflict,
                "The attached controller changed. Review and arm it again.",
                "the pinned local controller revision is stale",
            ));
        },
    };
    proof {
        let a = old(controller).runtime.attached->Some_0;
        let c = choose|k: int| revision_at(profiles@, a.profile_id@, a.profile_revision@, k);
        crate::controller_commands::lemma_revision_at_unique(profiles@, a.profile_id@, a.profile_revision@, c, index as int);
    }
    let target = match target {
        Some(t) => t,
        None => {
            let mut detail = owned("missing target for ");
            let q = debug_text(intent.antenna_label.as_str());
            push_str(&mut detail, q.as_str());
            proof {
                reveal_strlit("missing target for ");
            }
            return Err(SessionErrorPayload::new(
                SessionErrorKind::Validation,
                "The pending antenna has no local controller target.",
                detail.as_str(),
            ));
        },
    };
    let context = match invocation_context(session, &intent, target) {
        Ok(c) => c,
        Err(detail) => {
            return Err(SessionErrorPayload::new(
                SessionErrorKind::Validation,
                "The pending antenna intention cannot be expanded safely.",
                detail.as_str(),
            ));
        },
    };
    let profile = copy_profile(&profiles[index]);
    proof {
        let a = old(controller).runtime.attached->Some_0;
        assert(run_profile(profiles@, a) == profiles@[index as int]);
        assert(run_context_matches(context, *session, intent, targets_map(a.targets@)[intent.antenna_label@]));
    }
    match resolve_command(&profile.switch_command, &context) {
        Ok(_) => {},
        Err(detail) => {
            return Err(SessionErrorPayload::new(
                SessionErrorKind::Validation,
                "The switch command could not be expanded.",
                detail.as_str(),
            ));
        },
    }
    match &profile.verification_command {
        Some(v) => match resolve_command(v, &context) {
            Ok(_) => {},
            Err(detail) => {
                return Err(SessionErrorPayload::new(
                    SessionErrorKind::Validation,
                    "The verification command could not be expanded.",
                    detail.as_str(),
                ));
            },
        },
        None => {},
    }
    let manual_review_required = match session.antenna_control {
        Some(AntennaControlPolicy::CommandControlled { manual_review_required, .. }) => manual_review_required,
        _ => false,
    };
    Ok(RunPreparation { intent, profile, context, manual_review_required })
}

/// An invocation ran a command of the pinned profile for the run's
/// intention, and records what `run` returned for it.
pub open spec fn ran_for<R: Fn(&crate::control_model::AntennaControlCommand, u64) -> ProcessResult>(
    inv: AntennaControlInvocation,
    role: AntennaControlRole,
    profiles: Seq<ControllerProfile>,
    a: crate::policy::RuntimeAssociation,
    session: ControlSession,
    intent: WsprCycleIntent,
    run: R,
) -> bool {
    exists|p: ControllerProfile, c: AntennaControlContext| {
        &&& #[trigger] same_profile(p, run_profile(profiles, a))
        &&& ran_with(inv, p.timeout_seconds, run)
        &&& #[trigger] run_context_matches(c, session, intent, targets_map(a.targets@)[intent.antenna_label@])
        &&& match role {
            AntennaControlRole::Switch => invocation_of(inv, p, role, p.switch_command, c),
            AntennaControlRole::Verification => p.verification_command matches Some(v) && invocation_of(inv, p, role, v, c),
        }
    }
}

/// The token of a run was issued for the session at the expected revision,
/// and is now presented.
pub open spec fn token_admitted(
    before: ConductorRuntime,
    after: ConductorRuntime,
    request: RunControllerRequest,
    session: ControlSession,
    now_ms: i64,
) -> bool {
    token_position(before.pending_actions@, request.action_token@) matches Some(i) && {
        let t = before.pending_actions@[i];
        &&& t.session_id@ == session.session_id@
        &&& t.expected_revision == request.expected_revision
        &&& after.pending_actions@ == before.pending_actions@.update(i, presented(t, now_ms))
    }
}

/// The token of `request` was issued with a view of `session` at the
/// expected revision.
pub open spec fn token_matches(before: ConductorRuntime, request: RunControllerRequest, session: ControlSession) -> bool {
    token_position(before.pending_actions@, request.action_token@) matches Some(i) && {
        let t = before.pending_actions@[i];
        t.session_id@ == session.session_id@ && t.expected_revision == request.expected_revision
    }
}

/// The pinned profile's switch command, or its verification command, does
/// not expand for the pending intention, and `e` says so.
pub open spec fn expansion_refused(
    e: SessionErrorPayload,
    controller: AntennaControllerState,
    source: Seq<char>,
    session: ControlSession,
    profiles: Seq<ControllerProfile>,
) -> bool {
    &&& next_intent_spec(session) matches Some(intent)
    &&& pinned_attachment(controller, source, session) matches Some(a)
    &&& exists|c: AntennaControlContext| {
        let p = run_profile(profiles, a);
        &&& #[trigger] run_context_matches(c, session, intent, targets_map(a.targets@)[intent.antenna_label@])
        &&& {
            ||| (resolve_spec(
                p.switch_command.program_template@,
                strs_view(p.switch_command.argument_templates@),
                context_values_spec(c),
            ) matches Err(m) && plain_error(e, SessionErrorKind::Validation, "The switch command could not be expanded."@, m))
            ||| (p.verification_command matches Some(v) && resolve_spec(
                v.program_template@,
                strs_view(v.argument_templates@),
                context_values_spec(c),
            ) matches Err(m) && plain_error(
                e,
                SessionErrorKind::Validation,
                "The verification command could not be expanded."@,
                m,
            ))
        }
    }
}

/// The pinned profile's switch command, or its verification command, does
/// not expand for the pending intention.
pub open spec fn expansion_fails(
    controller: AntennaControllerState,
    source: Seq<char>,
    session: ControlSession,
    profiles: Seq<ControllerProfile>,
) -> bool {
    &&& next_intent_spec(session) matches Some(intent)
    &&& pinned_attachment(controller, source, session) matches Some(a)
    &&& exists|c: AntennaControlContext| {
        let p = run_profile(profiles, a);
        &&& #[trigger] run_context_matches(c, session, intent, targets_map(a.targets@)[intent.antenna_label@])
        &&& {
            ||| resolve_spec(
                p.switch_command.program_template@,
                strs_view(p.switch_command.argument_templates@),
                context_values_spec(c),
            ) is Err
            ||| (p.verification_command matches Some(v) && resolve_spec(
                v.program_template@,
                strs_view(v.argument_templates@),
                context_values_spec(c),
            ) is Err)
        }
    }
}

/// Why a run whose checks all passed and whose token was admitted failed:
/// a next cycle that could not be calculated, or the append of the
/// attempt's evidence.
pub open spec fn admitted_run_failure<C, A>(
    e: SessionErrorPayload,
    request: RunControllerRequest,
    next_cycle: C,
    append: A,
) -> bool
    where
        C: Fn(i64) -> Result<i64, String>,
        A: FnOnce(AntennaControlMutation) -> Result<u64, SessionErrorPayload>,
{
    ||| exists|t: i64, m: String| {
        &&& #[trigger] call_ensures(next_cycle, (t,), Err::<i64, String>(m))
        &&& plain_error(e, SessionErrorKind::Validation, "The next WSPR cycle could not be calculated after verification."@, m@)
    }
    ||| exists|m: AntennaControlMutation| {
        &&& #[trigger] call_ensures(append, (m,), Err::<u64, SessionErrorPayload>(e))
        &&& m.mutation_id@ == request.action_token@
        &&& m.expected_revision == request.expected_revision
    }
}

/// Runs the attached controller for the pending intention, as the operator
/// requested. A request answered by an attempt already committed under its
/// token runs nothing again. Otherwise every check must pass and the token
/// must be admitted; the switch runs, and its verification only after a
/// zero exit; their records, and the readiness event when command
/// verification may arm the next cycle, are handed to `append` as one
/// mutation under the token; and the attempt becomes the controller's last
/// one. `run` runs a command with a timeout in seconds, `new_id` makes a
/// fresh identity with a prefix, and `next_cycle` gives the next WSPR cycle
/// after a ready time.
pub fn run_active_session_antenna_controller<
    R: Fn(&crate::control_model::AntennaControlCommand, u64) -> ProcessResult,
    N: Fn(&str) -> String,
    C: Fn(i64) -> Result<i64, String>,
    A: FnOnce(AntennaControlMutation) -> Result<u64, SessionErrorPayload>,
>(
    controller: &mut AntennaControllerState,
    conductor: &mut ConductorRuntime,
    source: &str,
    session: &ControlSession,
    profiles: &Vec<ControllerProfile>,
    request: RunControllerRequest,
    now_ms: i64,
    run: &R,
    new_id: &N,
    next_cycle: &C,
    append: A,
) -> (r: Result<RunControllerOutcome, SessionErrorPayload>)
    requires
        forall|c: &crate::control_model::AntennaControlCommand, t: u64| #[trigger] run.requires((c, t)),
        forall|prefix: &str| #[trigger] new_id.requires((prefix,)),
        forall|t: i64| #[trigger] next_cycle.requires((t,)),
        forall|m: AntennaControlMutation| #[trigger] append.requires((m,)),
    ensures
        early_refusal(*old(controller), *session) matches Some((kind, message, detail)) ==> (r matches Err(e)
            && plain_error(e, kind, message, detail) && *final(controller) == *old(controller) && *final(conductor)
            == *old(conductor)),
        early_refusal(*old(controller), *session) is None && already_committed(*session, request) ==> (r matches Ok(o)
            && committed_run_outcome(*session, request.action_token@, request.intent_id@, o) && *final(controller)
            == *old(controller) && *final(conductor) == *old(conductor)),
        early_refusal(*old(controller), *session) is None && !already_committed(*session, request) ==> match later_refusal(
            *old(controller),
            source@,
            *session,
            profiles@,
            request,
            now_ms,
        ) {
            Some((kind, message, detail, revoke)) => {
                &&& r matches Err(e) && plain_error(e, kind, message, detail)
                &&& *final(conductor) == *old(conductor)
                &&& !revoke ==> *final(controller) == *old(controller)
                &&& revoke ==> final(controller).runtime.attached is None
            },
            None => {
                &&& r is Err ==> *final(controller) == *old(controller)
                &&& expansion_fails(*old(controller), source@, *session, profiles@) ==> (r matches Err(e) && expansion_refused(
                    e,
                    *old(controller),
                    source@,
                    *session,
                    profiles@,
                ))
                &&& !token_matches(*old(conductor), request, *session) ==> r is Err
                &&& r matches Err(e) ==> {
                    ||| expansion_refused(e, *old(controller), source@, *session, profiles@)
                    ||| admitted_run_failure(e, request, *next_cycle, append) && token_matches(*old(conductor), request, *session)
                    ||| token_position(old(conductor).pending_actions@, request.action_token@) is None
                        && crate::conductor_state::unknown_token_error(e)
                    ||| token_position(old(conductor).pending_actions@, request.action_token@) is Some && !token_matches(
                        *old(conductor),
                        request,
                        *session,
                    ) && crate::conductor_state::mismatched_token_error(e)
                }
                &&& r matches Ok(o) ==> {
                    &&& token_admitted(*old(conductor), *final(conductor), request, *session, now_ms)
                    &&& next_intent_spec(*session) matches Some(intent)
                    &&& pinned_attachment(*old(controller), source@, *session) matches Some(a)
                    &&& exists|switch: AntennaControlInvocation, verification: Option<AntennaControlInvocation>, m: AntennaControlMutation, revision: u64|
                        #![trigger append.ensures((m,), Ok::<u64, SessionErrorPayload>(revision)), attempt_diagnostic_spec(switch, verification)]
                    {
                        let manual = manual_review_policy(session.antenna_control);
                        let verification_success = match verification {
                            Some(v) => Some(exit_zero(v.disposition)),
                            None => None,
                        };
                        &&& ran_for(switch, AntennaControlRole::Switch, profiles@, a, *session, intent, *run)
                        &&& (verification matches Some(v) ==> ran_for(v, AntennaControlRole::Verification, profiles@, a, *session, intent, *run))
                        &&& (verification is Some ==> exit_zero(switch.disposition))
                        &&& m.expected_revision == request.expected_revision
                        &&& m.mutation_id@ == request.action_token@
                        &&& m.rig_records@.len() == (if verification is Some { 2int } else { 1int })
                        &&& m.rig_records@[0].antenna_control == Some(switch)
                        &&& (verification matches Some(v) ==> m.rig_records@[1].antenna_control == Some(v))
                        &&& (m.armed_event is Some) == (!manual && exit_zero(switch.disposition) && verification_success == Some(true))
                        &&& append.ensures((m,), Ok::<u64, SessionErrorPayload>(revision))
                        &&& o.revision == revision
                        &&& o.intent_id@ == request.intent_id@
                        &&& o.switch_disposition == switch.disposition
                        &&& o.verification_ran == verification is Some
                        &&& o.manual_ready_required == manual
                        &&& o.detail@ == run_detail_spec(exit_zero(switch.disposition), verification_success, manual)
                        &&& o.diagnostic@ == attempt_diagnostic_spec(switch, verification)
                        &&& final(controller).runtime.last_attempt matches Some(s) && s.intent_id@ == request.intent_id@
                            && s.successful_switch == exit_zero(switch.disposition) && s.successful_verification
                            == verification_success && s.detail@ == o.detail@ && s.diagnostic@ == o.diagnostic@
                    }
                }
            },
        },
{
    if controller.runtime.worker_running {
        return Err(SessionErrorPayload::new(
            SessionErrorKind::Busy,
            "Automatic antenna control is already preparing this intention.",
            "wait for the current Rust-owned controller process to finish",
        ));
    }
    let running = session.schema_version >= CONTROLLED_SCHEMA_VERSION && session.lifecycle == SessionLifecycle::Running;
    if !running {
        return Err(SessionErrorPayload::new(
            SessionErrorKind::Conflict,
            "Antenna control is available only for an active schema-v5 session.",
            "the active session is not a running schema-v5 session",
        ));
    }
    match session.antenna_control {
        Some(AntennaControlPolicy::CommandControlled { .. }) => {},
        _ => {
            return Err(SessionErrorPayload::new(
                SessionErrorKind::Conflict,
                "This session was not planned for command-controlled antenna assistance.",
                "the portable antenna-control policy is manual",
            ));
        },
    }
    match committed_outcome(session, request.action_token.as_str(), request.intent_id.as_str()) {
        Some(o) => return Ok(o),
        None => {},
    }
    let prep = prepare_controller_run(controller, source, session, profiles, &request, now_ms)?;
    conductor.authorize_controller_action(
        request.action_token.as_str(),
        session.session_id.as_str(),
        request.expected_revision,
        now_ms,
    )?;
    proof {
        let a = pinned_attachment(*old(controller), source@, *session)->Some_0;
        let p = run_profile(profiles@, a);
        assert forall|c: AntennaControlContext|
            #[trigger] run_context_matches(c, *session, prep.intent, targets_map(a.targets@)[prep.intent.antenna_label@])
            implies context_values_spec(c) == context_values_spec(prep.context) by {
            assert(context_values_spec(c) =~= context_values_spec(prep.context));
        }
        assert(strs_view(p.switch_command.argument_templates@) == strs_view(prep.profile.switch_command.argument_templates@));
        if prep.profile.verification_command is Some {
            let v = prep.profile.verification_command->Some_0;
            let w = p.verification_command->Some_0;
            assert(strs_view(w.argument_templates@) == strs_view(v.argument_templates@));
        }
    }
    let RunPreparation { intent, profile, context, manual_review_required } = prep;
    let ghost ran_context = context;
    let (switch, verification) = match execute_profile_attempt(&profile, context, run) {
        Ok(attempt) => attempt,
        Err(error) => {
            let message = match error.role {
                AntennaControlRole::Switch => "The switch command could not be expanded.",
                AntennaControlRole::Verification => "The verification command could not be expanded.",
            };
            return Err(SessionErrorPayload::new(SessionErrorKind::Validation, message, error.detail.as_str()));
        },
    };
    let switch_success = switch.disposition.is_exit_zero();
    let verification_success = match &verification {
        Some(v) => Some(v.disposition.is_exit_zero()),
        None => None,
    };
    let diagnostic = attempt_diagnostic(&switch, verification.as_ref());
    let switch_disposition = crate::policy::copy_disposition(&switch.disposition);
    let verification_disposition = match &verification {
        Some(v) => Some(crate::policy::copy_disposition(&v.disposition)),
        None => None,
    };
    let ready_at = match &verification {
        Some(v) => v.completed_at_ms,
        None => 0,
    };
    let ghost switch_inv = switch;
    let ghost verification_inv = verification;
    let switch_record_id = new_id("rig");
    let mut rig_records: Vec<RigRecord> = Vec::new();
    let armed = !manual_review_required && switch_success && verification_success == Some(true);
    let switch_id_for_event = switch_record_id.clone();
    rig_records.push(rig_record(switch_record_id, switch));
    let verification_record_id = match verification {
        Some(v) => {
            let id = new_id("rig");
            rig_records.push(rig_record(id.clone(), v));
            Some(id)
        },
        None => None,
    };
    let armed_event = if armed {
        match verification_record_id {
            Some(vid) => {
                let event_id = new_id("event");
                let start = next_cycle(ready_at);
                let ghost start_g = start;
                proof {
                    assert(call_ensures(*next_cycle, (ready_at,), start_g));
                }
                let event = command_verified_event(session, &intent, switch_id_for_event, vid, ready_at, event_id, start)?;
                Some(event)
            },
            None => None,
        }
    } else {
        None
    };
    let mutation = AntennaControlMutation {
        expected_revision: request.expected_revision,
        mutation_id: request.action_token.clone(),
        rig_records,
        armed_event,
    };
    let ghost handed = mutation;
    let appended = append(mutation);
    let revision = match appended {
        Ok(v) => v,
        Err(e) => {
            proof {
                assert(call_ensures(append, (handed,), Err::<u64, SessionErrorPayload>(e)));
            }
            return Err(e);
        },
    };
    let detail = run_detail(switch_success, verification_success, manual_review_required);
    controller.runtime.last_attempt = Some(ControllerAttemptSummary {
        intent_id: request.intent_id.clone(),
        successful_switch: switch_success,
        successful_verification: verification_success,
        detail: owned(detail),
        diagnostic: owned(diagnostic.as_str()),
    });
    Ok(RunControllerOutcome {
        revision,
        intent_id: request.intent_id,
        switch_disposition,
        verification_disposition,
        verification_ran: verification_success.is_some(),
        manual_ready_required: manual_review_required,
        detail: owned(detail),
        diagnostic,
    })
}

} // verus!
