//! Volatile controller authority (attachment, arming, generations) and the
//! decisions read from a session's committed evidence: the next pending
//! intention, the protected transmission interval, and the outcome of a
//! committed controller attempt.

use vstd::prelude::*;

use crate::control_model::{
    exit_zero, manual_review_policy, AntennaControlDisposition, AntennaControlInvocation,
    AntennaControlRole, ControlSession, RigRecord, WsprCycleIntent,
};
use crate::errors::{plain_error, SessionErrorKind, SessionErrorPayload};
use crate::mapping::{same_targets, targets_map};
use crate::process::{attempt_diagnostic, attempt_diagnostic_spec};
use crate::profiles::ControllerProfile;
use crate::text::{owned, str_eq};

verus! {

/// The state of the automatic controller worker.
#[derive(Debug, Clone, Copy, PartialEq, Eq, Structural)]
pub enum AutomationStatus {
    Idle,
    Waiting,
    Running,
    AwaitingReview,
    Blocked,
}

pub open spec fn automation_status_name(s: AutomationStatus) -> Seq<char> {
    match s {
        AutomationStatus::Idle => "idle"@,
        AutomationStatus::Waiting => "waiting"@,
        AutomationStatus::Running => "running"@,
        AutomationStatus::AwaitingReview => "awaiting_review"@,
        AutomationStatus::Blocked => "blocked"@,
    }
}

impl AutomationStatus {
    pub fn as_str(self) -> (r: &'static str)
        ensures
            r@ == automation_status_name(self),
    {
        match self {
            AutomationStatus::Idle => "idle",
            AutomationStatus::Waiting => "waiting",
            AutomationStatus::Running => "running",
            AutomationStatus::AwaitingReview => "awaiting_review",
            AutomationStatus::Blocked => "blocked",
        }
    }
}

/// The volatile association of a controller profile revision with the
/// active session path.
#[derive(Debug, Clone)]
pub struct RuntimeAssociation {
    pub source: String,
    pub session_id: String,
    pub profile_id: String,
    pub profile_revision: String,
    pub targets: Vec<(String, String)>,
    pub armed: bool,
    pub generation: u64,
}

/// The last controller attempt, as shown to the operator.
#[derive(Debug, Clone, PartialEq, Eq)]
pub struct ControllerAttemptSummary {
    pub intent_id: String,
    pub successful_switch: bool,
    pub successful_verification: Option<bool>,
    pub detail: String,
    pub diagnostic: String,
}

/// Volatile controller state; nothing of it is restored after a restart.
#[derive(Debug)]
pub struct ControllerRuntime {
    pub attached: Option<RuntimeAssociation>,
    pub last_attempt: Option<ControllerAttemptSummary>,
    pub worker_running: bool,
    pub automation_status: AutomationStatus,
}

/// The controller authority of the desktop shell. Every change of
/// attachment advances the generation, which cancels work started under an
/// earlier one.
#[derive(Debug)]
pub struct AntennaControllerState {
    pub runtime: ControllerRuntime,
    pub generation: u64,
}

impl Default for AntennaControllerState {
    fn default() -> (r: Self)
        ensures
            r.generation == 0,
            r.runtime.attached is None,
            r.runtime.last_attempt is None,
            !r.runtime.worker_running,
            r.runtime.automation_status == AutomationStatus::Idle,
    {
        AntennaControllerState {
            runtime: ControllerRuntime {
                attached: None,
                last_attempt: None,
                worker_running: false,
                automation_status: AutomationStatus::Idle,
            },
            generation: 0,
        }
    }
}

/// An attachment is exactly the one requested.
pub open spec fn same_attachment(
    a: RuntimeAssociation,
    source: Seq<char>,
    session_id: Seq<char>,
    profile: ControllerProfile,
    targets: Seq<(String, String)>,
) -> bool {
    &&& a.source@ == source
    &&& a.session_id@ == session_id
    &&& a.profile_id@ == profile.profile_id@
    &&& a.profile_revision@ == profile.revision@
    &&& targets_map(a.targets@) == targets_map(targets)
}

impl AntennaControllerState {
    /// Withdraws all controller authority: detaches, forgets the last attempt,
    /// stops the worker, and cancels work of the current generation.
    pub fn revoke(&mut self)
        ensures
            final(self).generation == old(self).generation.wrapping_add(1),
            final(self).runtime.attached is None,
            final(self).runtime.last_attempt is None,
            !final(self).runtime.worker_running,
            final(self).runtime.automation_status == AutomationStatus::Idle,
    {
        self.generation = self.generation.wrapping_add(1);
        self.runtime.attached = None;
        self.runtime.last_attempt = None;
        self.runtime.worker_running = false;
        self.runtime.automation_status = AutomationStatus::Idle;
    }

    /// Attaches a profile revision to a session path under a new generation.
    /// The last attempt survives only an exact re-attachment (same path,
    /// session, profile revision, and target mapping), so an explicit retry
    /// can still see it.
    pub fn attach(
        &mut self,
        source: String,
        session_id: String,
        profile: &ControllerProfile,
        targets: Vec<(String, String)>,
        armed: bool,
    )
        ensures
            final(self).generation == old(self).generation.wrapping_add(1),
            final(self).runtime.attached matches Some(a) && a.source@ == source@
                && a.session_id@ == session_id@ && a.profile_id@ == profile.profile_id@
                && a.profile_revision@ == profile.revision@ && a.targets == targets && a.armed
                == armed && a.generation == final(self).generation,
            final(self).runtime.last_attempt == (if old(self).runtime.attached matches Some(prev)
                && same_attachment(prev, source@, session_id@, *profile, targets@) {
                old(self).runtime.last_attempt
            } else {
                None
            }),
            !final(self).runtime.worker_running,
            final(self).runtime.automation_status == AutomationStatus::Idle,
    {
        let generation = self.generation.wrapping_add(1);
        self.generation = generation;
        let preserve = match &self.runtime.attached {
            Some(prev) => str_eq(prev.source.as_str(), source.as_str()) && str_eq(
                prev.session_id.as_str(),
                session_id.as_str(),
            ) && str_eq(prev.profile_id.as_str(), profile.profile_id.as_str()) && str_eq(
                prev.profile_revision.as_str(),
                profile.revision.as_str(),
            ) && same_targets(&prev.targets, &targets),
            None => false,
        };
        self.runtime.attached = Some(
            RuntimeAssociation {
                source,
                session_id,
                profile_id: profile.profile_id.clone(),
                profile_revision: profile.revision.clone(),
                targets,
                armed,
                generation,
            },
        );
        if !preserve {
            self.runtime.last_attempt = None;
        }
        self.runtime.worker_running = false;
        self.runtime.automation_status = AutomationStatus::Idle;
    }
}

/// An intention is pending when it is neither armed nor skipped.
pub open spec fn intent_pending(s: ControlSession, id: Seq<char>) -> bool {
    &&& !exists|c: int|
        0 <= c < s.projection.cycles@.len() && (#[trigger] s.projection.cycles@[c]).intent_id@ == id
    &&& !exists|k: int|
        0 <= k < s.projection.skipped_intent_ids@.len()
            && (#[trigger] s.projection.skipped_intent_ids@[k])@ == id
}

/// The index of the first pending intention of the plan.
pub open spec fn first_pending(s: ControlSession, k: int) -> bool {
    &&& 0 <= k < s.intents@.len()
    &&& intent_pending(s, s.intents@[k].intent_id@)
    &&& forall|j: int| 0 <= j < k ==> !intent_pending(s, (#[trigger] s.intents@[j]).intent_id@)
}

fn armed_or_skipped(s: &ControlSession, id: &str) -> (r: bool)
    ensures
        r == !intent_pending(*s, id@),
{
    let cycles = &s.projection.cycles;
    let n = cycles.len();
    for c in 0..n
        invariant
            n == cycles@.len(),
            cycles == s.projection.cycles,
            forall|j: int| 0 <= j < c ==> (#[trigger] cycles@[j]).intent_id@ != id@,
    {
        if str_eq(cycles[c].intent_id.as_str(), id) {
            return true;
        }
    }
    let skipped = &s.projection.skipped_intent_ids;
    let m = skipped.len();
    for k in 0..m
        invariant
            m == skipped@.len(),
            skipped == s.projection.skipped_intent_ids,
            forall|j: int| 0 <= j < k ==> (#[trigger] skipped@[j])@ != id@,
    {
        if str_eq(skipped[k].as_str(), id) {
            return true;
        }
    }
    false
}

/// The first planned intention that is neither armed nor skipped.
pub fn next_intent(session: &ControlSession) -> (r: Option<&WsprCycleIntent>)
    ensures
        match r {
            Some(i) => exists|k: int| first_pending(*session, k) && session.intents@[k] == *i,
            None => forall|k: int|
                0 <= k < session.intents@.len() ==> !intent_pending(
                    *session,
                    (#[trigger] session.intents@[k]).intent_id@,
                ),
        },
{
    let n = session.intents.len();
    for k in 0..n
        invariant
            n == session.intents@.len(),
            forall|j: int|
                0 <= j < k ==> !intent_pending(*session, (#[trigger] session.intents@[j]).intent_id@),
    {
        if !armed_or_skipped(session, session.intents[k].intent_id.as_str()) {
            assert(first_pending(*session, k as int));
            return Some(&session.intents[k]);
        }
    }
    None
}

/// The end of the latest armed transmission interval, if any.
pub open spec fn prior_transmission_end(s: ControlSession) -> Option<i64> {
    if s.projection.cycles@.len() == 0 {
        None
    } else {
        Some(s.projection.cycles@.last().transmission_ends_at_ms)
    }
}

/// Refuses to switch antennas while the latest armed transmission interval
/// has not ended at `now_ms`.
pub fn ensure_prior_transmission_complete(session: &ControlSession, now_ms: i64) -> (r: Result<
    (),
    SessionErrorPayload,
>)
    ensures
        match prior_transmission_end(*session) {
            Some(end) if end > now_ms => r matches Err(e) && plain_error(
                e,
                SessionErrorKind::Conflict,
                "Wait for the current WSPR transmission interval to finish before switching."@,
                "the antenna controller cannot run during the committed transmission interval"@,
            ),
            _ => r is Ok,
        },
{
    let n = session.projection.cycles.len();
    if n > 0 && session.projection.cycles[n - 1].transmission_ends_at_ms > now_ms {
        return Err(
            SessionErrorPayload::new(
                SessionErrorKind::Conflict,
                "Wait for the current WSPR transmission interval to finish before switching.",
                "the antenna controller cannot run during the committed transmission interval",
            ),
        );
    }
    Ok(())
}

/// The detail of an automatic attempt, by its outcome.
pub open spec fn attempt_detail_spec(
    switch_success: bool,
    verification_success: Option<bool>,
    manual_review_required: bool,
) -> Seq<char> {
    if !switch_success {
        "Switch did not exit successfully. No verification ran; automation is blocked without retry."@
    } else if verification_success == Some(false) {
        "Switch exited successfully, but verification did not. Automation is blocked without retry."@
    } else if verification_success == Some(true) && !manual_review_required {
        "Switch and verification exited successfully. Command verification armed the next eligible WSPR cycle."@
    } else if verification_success == Some(true) {
        "Switch and verification exited successfully. Awaiting the named operator ready action."@
    } else {
        "Switch exited successfully. No verification command is configured; awaiting operator review."@
    }
}

pub fn attempt_detail(
    switch_success: bool,
    verification_success: Option<bool>,
    manual_review_required: bool,
) -> (r: &'static str)
    ensures
        r@ == attempt_detail_spec(switch_success, verification_success, manual_review_required),
{
    if !switch_success {
        "Switch did not exit successfully. No verification ran; automation is blocked without retry."
    } else if verification_success == Some(false) {
        "Switch exited successfully, but verification did not. Automation is blocked without retry."
    } else if verification_success == Some(true) && !manual_review_required {
        "Switch and verification exited successfully. Command verification armed the next eligible WSPR cycle."
    } else if verification_success == Some(true) {
        "Switch and verification exited successfully. Awaiting the named operator ready action."
    } else {
        "Switch exited successfully. No verification command is configured; awaiting operator review."
    }
}

/// The detail of an operator-triggered attempt, by its outcome.
pub open spec fn run_detail_spec(
    switch_success: bool,
    verification_success: Option<bool>,
    manual_review_required: bool,
) -> Seq<char> {
    if !switch_success {
        "Switch did not exit successfully. No verification ran; manual operation remains available."@
    } else if verification_success == Some(false) {
        "Switch exited successfully, but verification did not. Confirm hardware manually or retry explicitly."@
    } else if verification_success == Some(true) && !manual_review_required {
        "Switch and verification exited successfully. Command verification armed the next eligible WSPR cycle."@
    } else if verification_success == Some(true) {
        "Switch and verification exited successfully. Operator readiness is still required."@
    } else {
        "Switch exited successfully. No verification command is configured; operator readiness is required."@
    }
}

pub fn run_detail(
    switch_success: bool,
    verification_success: Option<bool>,
    manual_review_required: bool,
) -> (r: &'static str)
    ensures
        r@ == run_detail_spec(switch_success, verification_success, manual_review_required),
{
    if !switch_success {
        "Switch did not exit successfully. No verification ran; manual operation remains available."
    } else if verification_success == Some(false) {
        "Switch exited successfully, but verification did not. Confirm hardware manually or retry explicitly."
    } else if verification_success == Some(true) && !manual_review_required {
        "Switch and verification exited successfully. Command verification armed the next eligible WSPR cycle."
    } else if verification_success == Some(true) {
        "Switch and verification exited successfully. Operator readiness is still required."
    } else {
        "Switch exited successfully. No verification command is configured; operator readiness is required."
    }
}

} // verus!

verus! {

/// The answer to an operator-triggered controller run.
#[derive(Debug, Clone, PartialEq, Eq)]
pub struct RunControllerOutcome {
    pub revision: u64,
    pub intent_id: String,
    pub switch_disposition: AntennaControlDisposition,
    pub verification_disposition: Option<AntennaControlDisposition>,
    pub verification_ran: bool,
    pub manual_ready_required: bool,
    pub detail: String,
    pub diagnostic: String,
}

/// Two dispositions are the same outcome.
pub open spec fn same_disposition(a: AntennaControlDisposition, b: AntennaControlDisposition) -> bool {
    match (a, b) {
        (
            AntennaControlDisposition::SpawnError { message: x },
            AntennaControlDisposition::SpawnError { message: y },
        ) => x@ == y@,
        (AntennaControlDisposition::SpawnError { .. }, _) => false,
        (_, AntennaControlDisposition::SpawnError { .. }) => false,
        _ => a == b,
    }
}

/// A copy of a disposition.
pub fn copy_disposition(d: &AntennaControlDisposition) -> (r: AntennaControlDisposition)
    ensures
        r == *d,
        same_disposition(r, *d),
        exit_zero(r) == exit_zero(*d),
{
    match d {
        AntennaControlDisposition::Exit { code } => AntennaControlDisposition::Exit { code: *code },
        AntennaControlDisposition::Signaled { signal } => AntennaControlDisposition::Signaled {
            signal: *signal,
        },
        AntennaControlDisposition::Timeout => AntennaControlDisposition::Timeout,
        AntennaControlDisposition::SpawnError { message } => AntennaControlDisposition::SpawnError {
            message: message.clone(),
        },
    }
}

/// Record `r` belongs to mutation `mid` and holds an invocation in `role`.
pub open spec fn invocation_in(r: RigRecord, mid: Seq<char>, role: AntennaControlRole) -> bool {
    r.mutation_id@ == mid && (r.antenna_control matches Some(inv) && inv.role == role)
}

/// `k` is the first record of mutation `mid` with an invocation in `role`.
pub open spec fn first_invocation(
    rig: Seq<RigRecord>,
    mid: Seq<char>,
    role: AntennaControlRole,
    k: int,
) -> bool {
    &&& 0 <= k < rig.len()
    &&& invocation_in(rig[k], mid, role)
    &&& forall|j: int| 0 <= j < k ==> !invocation_in(#[trigger] rig[j], mid, role)
}

fn find_invocation(rig: &Vec<RigRecord>, mid: &str, role: AntennaControlRole) -> (r: Option<usize>)
    ensures
        match r {
            Some(k) => first_invocation(rig@, mid@, role, k as int),
            None => forall|j: int| 0 <= j < rig@.len() ==> !invocation_in(#[trigger] rig@[j], mid@, role),
        },
{
    let n = rig.len();
    for k in 0..n
        invariant
            n == rig@.len(),
            forall|j: int| 0 <= j < k ==> !invocation_in(#[trigger] rig@[j], mid@, role),
    {
        if str_eq(rig[k].mutation_id.as_str(), mid) {
            match &rig[k].antenna_control {
                Some(inv) => {
                    if inv.role == role {
                        return Some(k);
                    }
                },
                None => {},
            }
        }
    }
    None
}

/// The invocation of a record known to hold one.
pub open spec fn inv_of(r: RigRecord) -> AntennaControlInvocation {
    r.antenna_control->Some_0
}

/// An outcome reports the attempt already committed under an action token
/// for an intention: the switch invocation of that mutation, the
/// verification of the same mutation, and the session's revision.
pub open spec fn committed_run_outcome(session: ControlSession, mutation_id: Seq<char>, intent_id: Seq<char>, o: RunControllerOutcome) -> bool {
    exists|k: int|
                #![trigger first_invocation(session.rig@, mutation_id, AntennaControlRole::Switch, k)]
                first_invocation(session.rig@, mutation_id, AntennaControlRole::Switch, k) && {
                    let switch = inv_of(session.rig@[k]);
                    let verification: Option<AntennaControlInvocation> = if exists|v: int|
                        first_invocation(
                            session.rig@,
                            mutation_id,
                            AntennaControlRole::Verification,
                            v,
                        ) {
                        Some(
                            inv_of(
                                session.rig@[choose|v: int|
                                    first_invocation(
                                        session.rig@,
                                        mutation_id,
                                        AntennaControlRole::Verification,
                                        v,
                                    )],
                            ),
                        )
                    } else {
                        None
                    };
                    let verification_success = match verification {
                        Some(v) => Some(exit_zero(v.disposition)),
                        None => None,
                    };
                    &&& switch.context.intent_id@ == intent_id
                    &&& o.revision == session.revision
                    &&& o.intent_id@ == intent_id
                    &&& same_disposition(o.switch_disposition, switch.disposition)
                    &&& o.verification_ran == verification is Some
                    &&& (o.verification_disposition is Some) == (verification is Some)
                    &&& (verification matches Some(v) ==> same_disposition(
                        o.verification_disposition->Some_0,
                        v.disposition,
                    ))
                    &&& o.manual_ready_required == manual_review_policy(session.antenna_control)
                    &&& o.detail@ == run_detail_spec(
                        exit_zero(switch.disposition),
                        verification_success,
                        manual_review_policy(session.antenna_control),
                    )
                    &&& o.diagnostic@ == attempt_diagnostic_spec(switch, verification)
                }
}

/// The outcome of a committed operator-triggered attempt for `intent_id`,
/// found by its mutation identity, so that a retried request with the same
/// identity is answered without running anything again.
pub fn committed_outcome(session: &ControlSession, mutation_id: &str, intent_id: &str) -> (r: Option<
    RunControllerOutcome,
>)
    ensures
        match r {
            None => forall|k: int|
                first_invocation(session.rig@, mutation_id@, AntennaControlRole::Switch, k)
                    ==> inv_of(session.rig@[k]).context.intent_id@ != intent_id@,
            Some(o) => committed_run_outcome(*session, mutation_id@, intent_id@, o),
        },
{
    let sk = find_invocation(&session.rig, mutation_id, AntennaControlRole::Switch)?;
    let switch = match &session.rig[sk].antenna_control {
        Some(inv) => inv,
        None => {
            return None;
        },
    };
    if !str_eq(switch.context.intent_id.as_str(), intent_id) {
        return None;
    }
    let verification: Option<&AntennaControlInvocation> = match find_invocation(
        &session.rig,
        mutation_id,
        AntennaControlRole::Verification,
    ) {
        Some(vk) => {
            assert(first_invocation(
                session.rig@,
                mutation_id@,
                AntennaControlRole::Verification,
                vk as int,
            ));
            let ghost chosen = choose|v: int|
                first_invocation(session.rig@, mutation_id@, AntennaControlRole::Verification, v);
            assert(chosen == vk as int) by {
                if chosen < vk {
                    assert(!invocation_in(
                        session.rig@[chosen],
                        mutation_id@,
                        AntennaControlRole::Verification,
                    ));
                } else if chosen > vk {
                    assert(!invocation_in(
                        session.rig@[vk as int],
                        mutation_id@,
                        AntennaControlRole::Verification,
                    ));
                }
            }
            match &session.rig[vk].antenna_control {
                Some(inv) => Some(inv),
                None => None,
            }
        },
        None => None,
    };
    let switch_success = switch.disposition.is_exit_zero();
    let verification_success = match verification {
        Some(v) => Some(v.disposition.is_exit_zero()),
        None => None,
    };
    let manual_ready_required = match session.antenna_control {
        Some(
            crate::control_model::AntennaControlPolicy::CommandControlled {
                manual_review_required,
                ..
            },
        ) => manual_review_required,
        _ => false,
    };
    let detail = owned(run_detail(switch_success, verification_success, manual_ready_required));
    let diagnostic = attempt_diagnostic(switch, verification);
    let verification_disposition = match verification {
        Some(v) => Some(copy_disposition(&v.disposition)),
        None => None,
    };
    let o = RunControllerOutcome {
        revision: session.revision,
        intent_id: owned(intent_id),
        switch_disposition: copy_disposition(&switch.disposition),
        verification_disposition,
        verification_ran: verification.is_some(),
        manual_ready_required,
        detail,
        diagnostic,
    };
    assert(first_invocation(session.rig@, mutation_id@, AntennaControlRole::Switch, sk as int));
    Some(o)
}

} // verus!

verus! {

/// Record `r` holds a switch invocation for `intent_id`.
pub open spec fn switch_for(r: RigRecord, intent_id: Seq<char>) -> bool {
    r.antenna_control matches Some(inv) && inv.role == AntennaControlRole::Switch
        && inv.context.intent_id@ == intent_id
}

/// `k` is the latest switch record for `intent_id`.
pub open spec fn last_switch_for(rig: Seq<RigRecord>, intent_id: Seq<char>, k: int) -> bool {
    &&& 0 <= k < rig.len()
    &&& switch_for(rig[k], intent_id)
    &&& forall|j: int| k < j < rig.len() ==> !switch_for(#[trigger] rig[j], intent_id)
}

/// The verification invocation of mutation `mid`, when one was committed.
pub open spec fn committed_verification(rig: Seq<RigRecord>, mid: Seq<char>) -> Option<
    AntennaControlInvocation,
> {
    if exists|v: int| first_invocation(rig, mid, AntennaControlRole::Verification, v) {
        Some(
            inv_of(
                rig[choose|v: int| first_invocation(rig, mid, AntennaControlRole::Verification, v)],
            ),
        )
    } else {
        None
    }
}

proof fn lemma_first_invocation_unique(
    rig: Seq<RigRecord>,
    mid: Seq<char>,
    role: AntennaControlRole,
    a: int,
    b: int,
)
    requires
        first_invocation(rig, mid, role, a),
        first_invocation(rig, mid, role, b),
    ensures
        a == b,
{
    if a < b {
        assert(!invocation_in(rig[a], mid, role));
    } else if b < a {
        assert(!invocation_in(rig[b], mid, role));
    }
}

fn verification_of<'a>(rig: &'a Vec<RigRecord>, mid: &str) -> (r: Option<&'a AntennaControlInvocation>)
    ensures
        match r {
            Some(v) => committed_verification(rig@, mid@) == Some(*v),
            None => committed_verification(rig@, mid@) is None,
        },
{
    match find_invocation(rig, mid, AntennaControlRole::Verification) {
        Some(vk) => {
            proof {
                let chosen = choose|v: int|
                    first_invocation(rig@, mid@, AntennaControlRole::Verification, v);
                lemma_first_invocation_unique(
                    rig@,
                    mid@,
                    AntennaControlRole::Verification,
                    chosen,
                    vk as int,
                );
            }
            match &rig[vk].antenna_control {
                Some(inv) => Some(inv),
                None => None,
            }
        },
        None => None,
    }
}

fn last_switch_index(rig: &Vec<RigRecord>, intent_id: &str) -> (r: Option<usize>)
    ensures
        match r {
            Some(k) => last_switch_for(rig@, intent_id@, k as int),
            None => forall|k: int| 0 <= k < rig@.len() ==> !switch_for(#[trigger] rig@[k], intent_id@),
        },
{
    let mut k = rig.len();
    while k > 0
        invariant
            k <= rig@.len(),
            forall|j: int| k <= j < rig@.len() ==> !switch_for(#[trigger] rig@[j], intent_id@),
        decreases k,
    {
        let is_switch = match &rig[k - 1].antenna_control {
            Some(inv) => inv.role == AntennaControlRole::Switch && str_eq(
                inv.context.intent_id.as_str(),
                intent_id,
            ),
            None => false,
        };
        if is_switch {
            return Some(k - 1);
        }
        k = k - 1;
    }
    None
}

/// A summary describes the committed attempt for an intention: its latest
/// switch invocation and the verification of the same mutation, judged as
/// if manual review were required.
pub open spec fn committed_summary(rig: Seq<RigRecord>, intent_id: Seq<char>, s: ControllerAttemptSummary) -> bool {
    exists|k: int|
        #![trigger last_switch_for(rig, intent_id, k)]
        last_switch_for(rig, intent_id, k) && {
            let switch = inv_of(rig[k]);
            let verification = committed_verification(rig, rig[k].mutation_id@);
            let verification_success = match verification {
                Some(v) => Some(exit_zero(v.disposition)),
                None => None,
            };
            &&& s.intent_id@ == intent_id
            &&& s.successful_switch == exit_zero(switch.disposition)
            &&& s.successful_verification == verification_success
            &&& s.detail@ == attempt_detail_spec(exit_zero(switch.disposition), verification_success, true)
            &&& s.diagnostic@ == attempt_diagnostic_spec(switch, verification)
        }
}

/// The committed automatic attempt for an intention: its latest switch
/// invocation and the verification of the same mutation. Automatic
/// attempts are judged as if manual review were required.
pub fn committed_attempt(session: &ControlSession, intent_id: &str) -> (r: Option<
    ControllerAttemptSummary,
>)
    ensures
        match r {
            None => forall|k: int|
                0 <= k < session.rig@.len() ==> !switch_for(#[trigger] session.rig@[k], intent_id@),
            Some(s) => committed_summary(session.rig@, intent_id@, s),
        },
{
    let rig = &session.rig;
    let sk = match last_switch_index(rig, intent_id) {
        Some(sk) => sk,
        None => {
            return None;
        },
    };
    assert(last_switch_for(rig@, intent_id@, sk as int));
    let switch = match &rig[sk].antenna_control {
        Some(inv) => inv,
        None => {
            return None;
        },
    };
    let verification = verification_of(rig, rig[sk].mutation_id.as_str());
    let switch_success = switch.disposition.is_exit_zero();
    let verification_success = match verification {
        Some(v) => Some(v.disposition.is_exit_zero()),
        None => None,
    };
    Some(
        ControllerAttemptSummary {
            intent_id: owned(intent_id),
            successful_switch: switch_success,
            successful_verification: verification_success,
            detail: owned(attempt_detail(switch_success, verification_success, true)),
            diagnostic: attempt_diagnostic(switch, verification),
        },
    )
}

} // verus!

verus! {

/// The schema version of command-verified readiness events.
pub const COMMAND_VERIFIED_SCHEMA_VERSION: u16 = 5;

/// The operator event that arms a WSPR cycle on command-verified readiness:
/// the switch and its independent verification records justify it, and the
/// cycle is the next one after the verification completed. Instants are
/// milliseconds since the Unix epoch.
#[derive(Debug, Clone, PartialEq, Eq)]
pub struct CommandVerifiedEvent {
    pub schema_version: u16,
    pub session_id: String,
    pub recorded_at_ms: i64,
    pub adapter: String,
    pub mutation_id: String,
    pub member_index: u32,
    pub member_count: u32,
    pub event_id: String,
    pub occurred_at_ms: i64,
    pub slot_id: Option<String>,
    pub antenna_label: String,
    pub cycle_starts_at_ms: i64,
    pub switch_record_id: String,
    pub verification_record_id: String,
}

/// Builds the readiness event for an intention whose switch and verification
/// both succeeded, given the start of the next WSPR cycle after `ready_at`
/// (or why it could not be calculated).
pub fn command_verified_event(
    session: &ControlSession,
    intent: &WsprCycleIntent,
    switch_record_id: String,
    verification_record_id: String,
    ready_at_ms: i64,
    event_id: String,
    next_cycle_start: Result<i64, String>,
) -> (r: Result<CommandVerifiedEvent, SessionErrorPayload>)
    ensures
        match next_cycle_start {
            Err(m) => r matches Err(e) && plain_error(
                e,
                SessionErrorKind::Validation,
                "The next WSPR cycle could not be calculated after verification."@,
                m@,
            ),
            Ok(start) => r matches Ok(ev) && {
                &&& ev.schema_version == COMMAND_VERIFIED_SCHEMA_VERSION
                &&& ev.session_id@ == session.session_id@
                &&& ev.recorded_at_ms == ready_at_ms
                &&& ev.adapter@ == "local-direct-process-v1"@
                &&& ev.mutation_id@ == "pending"@
                &&& ev.member_index == 0
                &&& ev.member_count == 1
                &&& ev.event_id == event_id
                &&& ev.occurred_at_ms == ready_at_ms
                &&& ev.slot_id matches Some(s) && s@ == intent.intent_id@
                &&& ev.antenna_label@ == intent.antenna_label@
                &&& ev.cycle_starts_at_ms == start
                &&& ev.switch_record_id == switch_record_id
                &&& ev.verification_record_id == verification_record_id
            },
        },
{
    let start = match next_cycle_start {
        Err(m) => {
            return Err(SessionErrorPayload::new(
                SessionErrorKind::Validation,
                "The next WSPR cycle could not be calculated after verification.",
                m.as_str(),
            ));
        },
        Ok(s) => s,
    };
    proof {
        reveal_strlit("local-direct-process-v1");
        reveal_strlit("pending");
    }
    Ok(CommandVerifiedEvent {
        schema_version: COMMAND_VERIFIED_SCHEMA_VERSION,
        session_id: owned(session.session_id.as_str()),
        recorded_at_ms: ready_at_ms,
        adapter: owned("local-direct-process-v1"),
        mutation_id: owned("pending"),
        member_index: 0,
        member_count: 1,
        event_id,
        occurred_at_ms: ready_at_ms,
        slot_id: Some(owned(intent.intent_id.as_str())),
        antenna_label: owned(intent.antenna_label.as_str()),
        cycle_starts_at_ms: start,
        switch_record_id,
        verification_record_id,
    })
}

} // verus!
