//! The automatic controller worker's decisions: when a worker starts, what
//! it does with the next intention, how an attempt ends it, and how its
//! status reaches the controller state. The worker itself, which reads
//! checkpoints, waits and runs processes, lives with the shell.

use vstd::prelude::*;

use crate::control_model::{
    automatic_policy, exit_zero, manual_review_policy, AntennaControlInvocationPolicy, AntennaControlPolicy,
    ControlSession, SessionLifecycle, WsprCycleIntent,
};
use crate::errors::{plain_error, SessionErrorKind, SessionErrorPayload};
use crate::mapping::{map_get, targets_map};
use crate::policy::{
    committed_attempt, committed_summary, first_pending, intent_pending, next_intent, prior_transmission_end,
    switch_for, AntennaControllerState, AutomationStatus, ControllerAttemptSummary, RuntimeAssociation,
};
use crate::profiles::ControllerProfile;
use crate::text::{owned, str_eq};
use crate::transition::{plan_view, transition_plan, transition_plan_spec, PlanSpec};

verus! {

/// The next intention of a session: its first one that is neither armed
/// nor skipped.
pub open spec fn next_intent_spec(s: ControlSession) -> Option<WsprCycleIntent> {
    if exists|k: int| first_pending(s, k) {
        Some(s.intents@[choose|k: int| first_pending(s, k)])
    } else {
        None
    }
}

proof fn lemma_first_pending_unique(s: ControlSession, a: int, b: int)
    requires
        first_pending(s, a),
        first_pending(s, b),
    ensures
        a == b,
{
    if a < b {
        assert(!intent_pending(s, s.intents@[a].intent_id@));
    }
    if b < a {
        assert(!intent_pending(s, s.intents@[b].intent_id@));
    }
}

fn copy_intent(i: &WsprCycleIntent) -> (r: WsprCycleIntent)
    ensures
        r == *i,
{
    WsprCycleIntent {
        intent_id: i.intent_id.clone(),
        antenna_label: i.antenna_label.clone(),
        direction: i.direction,
        band: i.band,
        signal: crate::control_model::copy_signal(&i.signal),
        sequence_number: i.sequence_number,
    }
}

/// The next intention as `next_intent` finds it.
pub(crate) fn next_intent_of(session: &ControlSession) -> (r: Option<WsprCycleIntent>)
    ensures
        r == next_intent_spec(*session),
{
    match next_intent(session) {
        Some(i) => {
            proof {
                let k = choose|k: int| first_pending(*session, k) && session.intents@[k] == *i;
                let c = choose|k: int| first_pending(*session, k);
                lemma_first_pending_unique(*session, k, c);
            }
            Some(copy_intent(i))
        },
        None => {
            proof {
                if exists|k: int| first_pending(*session, k) {
                    let k = choose|k: int| first_pending(*session, k);
                    assert(!intent_pending(*session, session.intents@[k].intent_id@));
                }
            }
            None
        },
    }
}

/// A transition plan lets the run continue on the unchanged station state.
pub open spec fn plan_continues(p: PlanSpec) -> bool {
    &&& p.view.antenna == crate::transition::TransitionDisposition::NoChangeNeeded
    &&& p.view.direction == crate::transition::TransitionDisposition::NoChangeNeeded
    &&& p.view.band == crate::transition::TransitionDisposition::NoChangeNeeded
    &&& p.view.signal == crate::transition::TransitionDisposition::NoChangeNeeded
    &&& p.source_ready_event_id is Some
    &&& p.next_intent_id is Some
    &&& p.prior_transmission_ends_at is Some
}

/// A running session whose controller switches automatically.
pub open spec fn automatic_and_running(s: ControlSession) -> bool {
    s.lifecycle == SessionLifecycle::Running && automatic_policy(s.antenna_control)
}

/// The attachment a worker for this session may run under.
pub open spec fn armed_for(a: RuntimeAssociation, source: Seq<char>, session_id: Seq<char>) -> bool {
    a.source@ == source && a.session_id@ == session_id && a.armed
}

fn is_automatic_and_running(session: &ControlSession) -> (r: bool)
    ensures
        r == automatic_and_running(*session),
{
    session.lifecycle == SessionLifecycle::Running && match session.antenna_control {
        Some(AntennaControlPolicy::CommandControlled { invocation: AntennaControlInvocationPolicy::Automatic, .. }) => true,
        _ => false,
    }
}

/// Decides whether a new automatic worker starts for the session at
/// `source`: only for a running automatic session whose next transition
/// cannot simply continue, while no worker runs, and under an armed
/// attachment of that session; the worker runs under the attachment's
/// generation. Without such an attachment automation is blocked.
pub fn schedule_automatic_coordinator(controller: &mut AntennaControllerState, source: &str, session: &ControlSession) -> (r: Option<
    u64,
>)
    ensures
        !automatic_and_running(*session) ==> r is None && *final(controller) == *old(controller),
        automatic_and_running(*session) && plan_continues(transition_plan_spec(*session, next_intent_spec(*session)))
            ==> r is None && *final(controller) == *old(controller),
        automatic_and_running(*session) && !plan_continues(transition_plan_spec(*session, next_intent_spec(*session)))
            ==> {
            &&& final(controller).generation == old(controller).generation
            &&& final(controller).runtime.attached == old(controller).runtime.attached
            &&& final(controller).runtime.last_attempt == old(controller).runtime.last_attempt
            &&& old(controller).runtime.worker_running ==> r is None && *final(controller) == *old(controller)
            &&& !old(controller).runtime.worker_running ==> match old(controller).runtime.attached {
                Some(a) => if armed_for(a, source@, session.session_id@) {
                    r == Some(a.generation) && final(controller).runtime.worker_running
                        && final(controller).runtime.automation_status == AutomationStatus::Waiting
                } else {
                    r is None && !final(controller).runtime.worker_running
                        && final(controller).runtime.automation_status == AutomationStatus::Blocked
                },
                None => r is None && !final(controller).runtime.worker_running
                    && final(controller).runtime.automation_status == AutomationStatus::Blocked,
            }
        },
{
    if !is_automatic_and_running(session) {
        return None;
    }
    let next = next_intent_of(session);
    let plan = match &next {
        Some(i) => transition_plan(session, Some(i)),
        None => transition_plan(session, None),
    };
    if plan.can_continue() {
        return None;
    }
    if controller.runtime.worker_running {
        return None;
    }
    let generation = match &controller.runtime.attached {
        Some(a) => if str_eq(a.source.as_str(), source) && str_eq(a.session_id.as_str(), session.session_id.as_str())
            && a.armed {
            Some(a.generation)
        } else {
            None
        },
        None => None,
    };
    match generation {
        Some(g) => {
            controller.runtime.worker_running = true;
            controller.runtime.automation_status = AutomationStatus::Waiting;
            Some(g)
        },
        None => {
            controller.runtime.automation_status = AutomationStatus::Blocked;
            None
        },
    }
}

/// The attachment of generation `generation` is still the current one.
pub open spec fn current(c: AntennaControllerState, generation: u64) -> bool {
    c.runtime.attached matches Some(a) && a.generation == generation
}

/// How a worker of `generation` finishing leaves the controller state: the
/// summary becomes the last attempt, a disarming finish disarms the
/// attachment and cancels its generation, and the worker stops with the
/// status. A worker whose attachment was replaced changes nothing.
pub open spec fn finished(
    before: AntennaControllerState,
    after: AntennaControllerState,
    generation: u64,
    status: AutomationStatus,
    summary: Option<ControllerAttemptSummary>,
    disarm: bool,
) -> bool {
    if current(before, generation) {
        &&& after.runtime.last_attempt == (match summary {
            Some(s) => Some(s),
            None => before.runtime.last_attempt,
        })
        &&& after.runtime.attached == (if disarm {
            match before.runtime.attached {
                Some(a) => Some(RuntimeAssociation { armed: false, ..a }),
                None => None,
            }
        } else {
            before.runtime.attached
        })
        &&& after.generation == (if disarm { before.generation.wrapping_add(1) } else { before.generation })
        &&& !after.runtime.worker_running
        &&& after.runtime.automation_status == status
    } else {
        after == before
    }
}

impl AntennaControllerState {
    /// Work started under `generation` is cancelled once the generation has
    /// moved on.
    pub fn cancelled(&self, generation: u64) -> (r: bool)
        ensures
            r == (self.generation != generation),
    {
        self.generation != generation
    }

    fn is_current(&self, generation: u64) -> (r: bool)
        ensures
            r == current(*self, generation),
    {
        match &self.runtime.attached {
            Some(a) => a.generation == generation,
            None => false,
        }
    }

    /// Shows the status of the worker of `generation`, if its attachment is
    /// still the current one.
    pub fn set_status(&mut self, generation: u64, status: AutomationStatus)
        ensures
            current(*old(self), generation) ==> *final(self) == (AntennaControllerState {
                runtime: crate::policy::ControllerRuntime { automation_status: status, ..old(self).runtime },
                ..*old(self)
            }),
            !current(*old(self), generation) ==> *final(self) == *old(self),
    {
        if self.is_current(generation) {
            self.runtime.automation_status = status;
        }
    }

    /// Records a completed attempt of the worker of `generation`, which goes
    /// on waiting for the next intention.
    pub fn update_attempt(&mut self, generation: u64, summary: ControllerAttemptSummary)
        ensures
            current(*old(self), generation) ==> *final(self) == (AntennaControllerState {
                runtime: crate::policy::ControllerRuntime {
                    last_attempt: Some(summary),
                    automation_status: AutomationStatus::Waiting,
                    ..old(self).runtime
                },
                ..*old(self)
            }),
            !current(*old(self), generation) ==> *final(self) == *old(self),
    {
        if self.is_current(generation) {
            self.runtime.last_attempt = Some(summary);
            self.runtime.automation_status = AutomationStatus::Waiting;
        }
    }

    /// Ends the worker of `generation`.
    pub fn finish(
        &mut self,
        generation: u64,
        status: AutomationStatus,
        summary: Option<ControllerAttemptSummary>,
        disarm: bool,
    )
        ensures
            finished(*old(self), *final(self), generation, status, summary, disarm),
    {
        if !self.is_current(generation) {
            return;
        }
        match summary {
            Some(s) => self.runtime.last_attempt = Some(s),
            None => {},
        }
        if disarm {
            match self.runtime.attached.take() {
                Some(a) => self.runtime.attached = Some(RuntimeAssociation { armed: false, ..a }),
                None => {},
            }
            self.generation = self.generation.wrapping_add(1);
        }
        self.runtime.worker_running = false;
        self.runtime.automation_status = status;
    }

    /// Blocks automation for an intention: the worker of `generation` ends,
    /// disarmed, with a failed attempt that carries the reason.
    pub fn block(&mut self, generation: u64, intent_id: &str, message: &str, diagnostic: &str)
        ensures
            exists|s: ControllerAttemptSummary| {
                &&& s.intent_id@ == intent_id@
                &&& !s.successful_switch
                &&& s.successful_verification is None
                &&& s.detail@ == message@
                &&& s.diagnostic@ == diagnostic@
                &&& finished(*old(self), *final(self), generation, AutomationStatus::Blocked, Some(s), true)
            },
    {
        let summary = ControllerAttemptSummary {
            intent_id: owned(intent_id),
            successful_switch: false,
            successful_verification: None,
            detail: owned(message),
            diagnostic: owned(diagnostic),
        };
        let ghost given = summary;
        self.finish(generation, AutomationStatus::Blocked, Some(summary), true);
        assert({
            &&& given.intent_id@ == intent_id@
            &&& !given.successful_switch
            &&& given.successful_verification is None
            &&& given.detail@ == message@
            &&& given.diagnostic@ == diagnostic@
            &&& finished(*old(self), *self, generation, AutomationStatus::Blocked, Some(given), true)
        });
    }
}

/// What a worker does with the session it read.
#[derive(Debug)]
pub enum WorkerDecision {
    /// The worker ends with this status, summary and disarming.
    Finish { status: AutomationStatus, summary: Option<ControllerAttemptSummary>, disarm: bool },
    /// The worker switches to `intent`, after waiting for the protected
    /// transmission to end when there is one.
    Proceed { intent: WsprCycleIntent, manual_review_required: bool, wait_until_ms: Option<i64> },
}

/// How a committed attempt ends the worker: a successful attempt awaits
/// the operator when review is required or the transition needs the
/// operator; anything else blocks automation, disarmed.
pub open spec fn committed_status(s: ControllerAttemptSummary, manual_review_required: bool, operator_action_required: bool) -> (
    AutomationStatus,
    bool,
) {
    let successful = s.successful_switch && (manual_review_required || s.successful_verification == Some(true));
    if successful && (manual_review_required || operator_action_required) {
        (AutomationStatus::AwaitingReview, false)
    } else {
        (AutomationStatus::Blocked, true)
    }
}

/// Decides what the worker does with the session it just read: idle when
/// the session no longer runs automatically or nothing is pending; end on
/// an attempt already committed for the next intention; otherwise switch to
/// it after the protected transmission.
pub fn worker_decision(session: &ControlSession) -> (r: WorkerDecision)
    ensures
        !automatic_and_running(*session) ==> r == (WorkerDecision::Finish {
            status: AutomationStatus::Idle,
            summary: None,
            disarm: false,
        }),
        automatic_and_running(*session) ==> match next_intent_spec(*session) {
            None => r == (WorkerDecision::Finish { status: AutomationStatus::Idle, summary: None, disarm: false }),
            Some(i) => match r {
                WorkerDecision::Finish { status, summary, disarm } => summary matches Some(s) && committed_summary(
                    session.rig@,
                    i.intent_id@,
                    s,
                ) && (status, disarm) == committed_status(
                    s,
                    manual_review_policy(session.antenna_control),
                    transition_plan_spec(*session, Some(i)).operator_action_required,
                ),
                WorkerDecision::Proceed { intent, manual_review_required, wait_until_ms } => {
                    &&& intent == i
                    &&& manual_review_required == manual_review_policy(session.antenna_control)
                    &&& wait_until_ms == prior_transmission_end(*session)
                    &&& forall|k: int| 0 <= k < session.rig@.len() ==> !switch_for(#[trigger] session.rig@[k], i.intent_id@)
                },
            },
        },
{
    if !is_automatic_and_running(session) {
        return WorkerDecision::Finish { status: AutomationStatus::Idle, summary: None, disarm: false };
    }
    let manual_review_required = match session.antenna_control {
        Some(AntennaControlPolicy::CommandControlled { manual_review_required, .. }) => manual_review_required,
        _ => false,
    };
    let intent = match next_intent_of(session) {
        Some(i) => i,
        None => return WorkerDecision::Finish { status: AutomationStatus::Idle, summary: None, disarm: false },
    };
    match committed_attempt(session, intent.intent_id.as_str()) {
        Some(summary) => {
            let successful = summary.successful_switch && (manual_review_required || summary.successful_verification
                == Some(true));
            let plan = transition_plan(session, Some(&intent));
            if successful && (manual_review_required || plan.operator_action_required) {
                WorkerDecision::Finish { status: AutomationStatus::AwaitingReview, summary: Some(summary), disarm: false }
            } else {
                WorkerDecision::Finish { status: AutomationStatus::Blocked, summary: Some(summary), disarm: true }
            }
        },
        None => {
            let wait_until_ms = if session.projection.cycles.len() == 0 {
                None
            } else {
                Some(session.projection.cycles[session.projection.cycles.len() - 1].transmission_ends_at_ms)
            };
            WorkerDecision::Proceed { intent, manual_review_required, wait_until_ms }
        },
    }
}

/// How a finished attempt ends the worker, if it does: a failed switch or
/// verification blocks automation, disarmed; a review-required session
/// awaits the operator; an unverified switch blocks; a verified one lets
/// the worker go on.
pub open spec fn attempt_status(switch_success: bool, verification_success: Option<bool>, manual_review_required: bool) -> Option<
    (AutomationStatus, bool),
> {
    if !switch_success || verification_success == Some(false) {
        Some((AutomationStatus::Blocked, true))
    } else if manual_review_required {
        Some((AutomationStatus::AwaitingReview, false))
    } else if verification_success != Some(true) {
        Some((AutomationStatus::Blocked, true))
    } else {
        None
    }
}

/// How a finished attempt ends the worker; nothing when it goes on.
pub fn attempt_decision(switch_success: bool, verification_success: Option<bool>, manual_review_required: bool) -> (r: Option<
    (AutomationStatus, bool),
>)
    ensures
        r == attempt_status(switch_success, verification_success, manual_review_required),
{
    if !switch_success || verification_success == Some(false) {
        Some((AutomationStatus::Blocked, true))
    } else if manual_review_required {
        Some((AutomationStatus::AwaitingReview, false))
    } else if verification_success != Some(true) {
        Some((AutomationStatus::Blocked, true))
    } else {
        None
    }
}

/// The error when automatic authority is not active for the session.
pub open spec fn not_armed_error(e: SessionErrorPayload) -> bool {
    plain_error(
        e,
        SessionErrorKind::Conflict,
        "Attach and arm the local controller before automatic switching."@,
        "automatic authority is not active for this session"@,
    )
}

/// The error when the pinned profile revision is no longer in the catalog.
pub open spec fn stale_profile_error(e: SessionErrorPayload) -> bool {
    plain_error(
        e,
        SessionErrorKind::Conflict,
        "The attached controller changed. Review and attach it again."@,
        "the pinned local controller revision is stale"@,
    )
}

/// The position of the first profile with the identity and revision.
pub open spec fn pinned_profile(profiles: Seq<ControllerProfile>, id: Seq<char>, revision: Seq<char>, k: int) -> bool {
    &&& 0 <= k < profiles.len()
    &&& profiles[k].profile_id@ == id
    &&& profiles[k].revision@ == revision
    &&& forall|j: int| 0 <= j < k ==> !((#[trigger] profiles[j]).profile_id@ == id && profiles[j].revision@ == revision)
}

/// Two attachments hold the same values.
pub open spec fn same_association(b: RuntimeAssociation, a: RuntimeAssociation) -> bool {
    &&& b.source == a.source
    &&& b.session_id == a.session_id
    &&& b.profile_id == a.profile_id
    &&& b.profile_revision == a.profile_revision
    &&& b.targets@ == a.targets@
    &&& b.armed == a.armed
    &&& b.generation == a.generation
}

fn copy_association(a: &RuntimeAssociation) -> (r: RuntimeAssociation)
    ensures
        same_association(r, *a),
{
    let targets = copy_pairs(&a.targets);
    RuntimeAssociation {
        source: a.source.clone(),
        session_id: a.session_id.clone(),
        profile_id: a.profile_id.clone(),
        profile_revision: a.profile_revision.clone(),
        targets,
        armed: a.armed,
        generation: a.generation,
    }
}

/// Two profiles hold the same values.
pub open spec fn same_profile(a: ControllerProfile, b: ControllerProfile) -> bool {
    &&& a.profile_id == b.profile_id
    &&& a.revision == b.revision
    &&& a.name == b.name
    &&& a.timeout_seconds == b.timeout_seconds
    &&& a.switch_command.program_template == b.switch_command.program_template
    &&& a.switch_command.argument_templates@ == b.switch_command.argument_templates@
    &&& (a.verification_command is Some == b.verification_command is Some)
    &&& (a.verification_command matches Some(v) ==> (b.verification_command matches Some(w) && v.program_template
        == w.program_template && v.argument_templates@ == w.argument_templates@))
}

pub(crate) fn copy_profile(p: &ControllerProfile) -> (r: ControllerProfile)
    ensures
        same_profile(r, *p),
{
    let switch_command = crate::profiles::ControllerCommandTemplate {
        program_template: p.switch_command.program_template.clone(),
        argument_templates: crate::text::copy_strings(&p.switch_command.argument_templates),
    };
    let verification_command = match &p.verification_command {
        Some(v) => Some(crate::profiles::ControllerCommandTemplate {
            program_template: v.program_template.clone(),
            argument_templates: crate::text::copy_strings(&v.argument_templates),
        }),
        None => None,
    };
    ControllerProfile {
        profile_id: p.profile_id.clone(),
        revision: p.revision.clone(),
        name: p.name.clone(),
        switch_command,
        verification_command,
        timeout_seconds: p.timeout_seconds,
    }
}

/// An independent copy of a list of pairs.
pub(crate) fn copy_pairs(v: &Vec<(String, String)>) -> (r: Vec<(String, String)>)
    ensures
        r@ == v@,
{
    let mut out: Vec<(String, String)> = Vec::new();
    let mut i: usize = 0;
    while i < v.len()
        invariant
            i <= v@.len(),
            out@ == v@.take(i as int),
        decreases v@.len() - i,
    {
        out.push((v[i].0.clone(), v[i].1.clone()));
        assert(out@ =~= v@.take(i + 1));
        i = i + 1;
    }
    assert(v@.take(v@.len() as int) =~= v@);
    out
}

/// The attachment and pinned profile a worker of `generation` for the
/// session at `source` runs with, given the profiles of the local catalog.
pub fn controller_context(
    controller: &AntennaControllerState,
    source: &str,
    generation: u64,
    profiles: &Vec<ControllerProfile>,
) -> (r: Result<(RuntimeAssociation, ControllerProfile), SessionErrorPayload>)
    ensures
        match controller.runtime.attached {
            Some(a) => if a.source@ == source@ && a.armed && a.generation == generation {
                if exists|k: int| pinned_profile(profiles@, a.profile_id@, a.profile_revision@, k) {
                    r matches Ok((b, p)) && same_association(b, a) && exists|k: int| pinned_profile(profiles@, a.profile_id@, a.profile_revision@, k)
                        && p.profile_id == profiles@[k].profile_id && p.revision == profiles@[k].revision
                        && p.name == profiles@[k].name && p.timeout_seconds == profiles@[k].timeout_seconds
                        && p.switch_command.program_template == profiles@[k].switch_command.program_template
                        && p.switch_command.argument_templates@ == profiles@[k].switch_command.argument_templates@
                        && (p.verification_command is Some == profiles@[k].verification_command is Some)
                } else {
                    r matches Err(e) && stale_profile_error(e)
                }
            } else {
                r matches Err(e) && not_armed_error(e)
            },
            None => r matches Err(e) && not_armed_error(e),
        },
{
    let association = match &controller.runtime.attached {
        Some(a) => if str_eq(a.source.as_str(), source) && a.armed && a.generation == generation {
            copy_association(a)
        } else {
            return Err(SessionErrorPayload::new(
                SessionErrorKind::Conflict,
                "Attach and arm the local controller before automatic switching.",
                "automatic authority is not active for this session",
            ));
        },
        None => {
            return Err(SessionErrorPayload::new(
                SessionErrorKind::Conflict,
                "Attach and arm the local controller before automatic switching.",
                "automatic authority is not active for this session",
            ));
        },
    };
    let mut k: usize = 0;
    while k < profiles.len()
        invariant
            k <= profiles@.len(),
            controller.runtime.attached matches Some(a) && same_association(association, a) && a.source@ == source@
                && a.armed && a.generation == generation,
            forall|j: int| 0 <= j < k ==> !((#[trigger] profiles@[j]).profile_id@ == association.profile_id@
                && profiles@[j].revision@ == association.profile_revision@),
        decreases profiles@.len() - k,
    {
        if str_eq(profiles[k].profile_id.as_str(), association.profile_id.as_str()) && str_eq(
            profiles[k].revision.as_str(),
            association.profile_revision.as_str(),
        ) {
            let profile = copy_profile(&profiles[k]);
            assert(pinned_profile(profiles@, association.profile_id@, association.profile_revision@, k as int));
            return Ok((association, profile));
        }
        k = k + 1;
    }
    proof {
        if exists|k: int| pinned_profile(profiles@, association.profile_id@, association.profile_revision@, k) {
            let w = choose|k: int| pinned_profile(profiles@, association.profile_id@, association.profile_revision@, k);
            assert(!(profiles@[w].profile_id@ == association.profile_id@ && profiles@[w].revision@
                == association.profile_revision@));
        }
    }
    Err(SessionErrorPayload::new(
        SessionErrorKind::Conflict,
        "The attached controller changed. Review and attach it again.",
        "the pinned local controller revision is stale",
    ))
}

/// The controller target the attachment maps an antenna label to.
pub fn target_for(association: &RuntimeAssociation, antenna_label: &str) -> (r: Option<String>)
    ensures
        r is Some == targets_map(association.targets@).dom().contains(antenna_label@),
        r matches Some(t) ==> t@ == targets_map(association.targets@)[antenna_label@],
{
    match map_get(&association.targets, antenna_label) {
        Some(t) => Some(t.clone()),
        None => None,
    }
}

/// The next intention is the session's first one and nothing was armed or
/// skipped yet.
pub open spec fn initial_intent(s: ControlSession) -> bool {
    &&& s.projection.cycles@.len() == 0
    &&& s.projection.skipped_intent_ids@.len() == 0
    &&& next_intent_spec(s) matches Some(i)
    &&& s.intents@.len() > 0
    &&& s.intents@[0].intent_id@ == i.intent_id@
}

/// Command verification may arm the next cycle for an attempt on
/// `intent_id`: without manual review, after a successful switch and
/// verification, while the intention is still the next one, and either it
/// is the run's first or only the antenna changes, automatically.
pub open spec fn verification_arms(
    current: ControlSession,
    intent_id: Seq<char>,
    manual_review_required: bool,
    switch_success: bool,
    verification_success: Option<bool>,
) -> bool {
    &&& !manual_review_required
    &&& switch_success
    &&& verification_success == Some(true)
    &&& next_intent_spec(current) matches Some(i)
    &&& i.intent_id@ == intent_id
    &&& (initial_intent(current) || crate::transition::automatic_can_arm_spec(
        transition_plan_spec(current, Some(i)).view,
    ))
}

/// The diagnostic an attempt that did not grant readiness records, if any:
/// a failed switch, or else a failed verification.
pub open spec fn attempt_failure(switch_success: bool, verification_success: Option<bool>) -> Option<
    (crate::operation_diagnostics::DiagnosticOperation, Seq<char>),
> {
    if !switch_success {
        Some((crate::operation_diagnostics::DiagnosticOperation::AntennaControllerSwitch, "controller.switch_failed"@))
    } else if verification_success == Some(false) {
        Some((crate::operation_diagnostics::DiagnosticOperation::AntennaControllerVerify, "controller.verification_failed"@))
    } else {
        None
    }
}

/// The error when the active session changed under a running attempt.
pub open spec fn replaced_session_error(e: SessionErrorPayload) -> bool {
    plain_error(
        e,
        SessionErrorKind::Conflict,
        "The active session changed while antenna control was running."@,
        "automatic process evidence was not applied to a replacement session"@,
    )
}

/// The error when the session stopped under a running attempt.
pub open spec fn stopped_session_error(e: SessionErrorPayload) -> bool {
    plain_error(
        e,
        SessionErrorKind::Conflict,
        "The session stopped while antenna control was running."@,
        "automatic authority was revoked before evidence could be committed"@,
    )
}

fn is_initial_intent(current: &ControlSession, next: &Option<WsprCycleIntent>) -> (r: bool)
    requires
        *next == next_intent_spec(*current),
    ensures
        r == initial_intent(*current),
{
    match next {
        Some(i) => current.projection.cycles.len() == 0 && current.projection.skipped_intent_ids.len() == 0
            && current.intents.len() > 0 && str_eq(current.intents[0].intent_id.as_str(), i.intent_id.as_str()),
        None => false,
    }
}

/// What an attempt answers once its evidence `m` is handed to `append`:
/// done when it is written, or when the append fails though the last
/// committed mutation shows it landed; otherwise the append's error.
pub open spec fn attempt_written<Ap, Lc>(
    append: Ap,
    last_committed: Lc,
    m: crate::controller_run::AntennaControlMutation,
    r: Result<(), SessionErrorPayload>,
) -> bool
    where
        Ap: FnOnce(crate::controller_run::AntennaControlMutation) -> Result<(), crate::conductor_state::LivePersistenceError>,
        Lc: FnOnce() -> Option<String>,
{
    exists|appended: Result<(), crate::conductor_state::LivePersistenceError>| {
        &&& #[trigger] call_ensures(append, (m,), appended)
        &&& match appended {
            Ok(_) => r is Ok,
            Err(l) => exists|last: Option<String>| {
                &&& #[trigger] call_ensures(last_committed, (), last)
                &&& if crate::conductor_session::landed(last, m.mutation_id@) {
                    r is Ok
                } else {
                    r matches Err(e) && crate::conductor_state::live_payload(l, e)
                }
            },
        }
    }
}

/// The evidence of an attempt, written at the session's revision.
pub open spec fn attempt_mutation(
    m: crate::controller_run::AntennaControlMutation,
    current: ControlSession,
    mutation_id: Seq<char>,
    rig_records: Vec<crate::control_model::RigRecord>,
) -> bool {
    &&& m.expected_revision == current.revision
    &&& m.mutation_id@ == mutation_id
    &&& m.rig_records == rig_records
}

/// Commits the evidence of an automatic attempt on `intent_id` to the
/// active session at `source`, read afresh by `read`. The records are
/// handed to `append` as one mutation at the session's current revision,
/// with the readiness event when command verification may arm the next
/// cycle; a failed append counts as committed when `last_committed` shows
/// the mutation landed anyway. An attempt that did not grant readiness is
/// also recorded as an operational failure through `persist`.
pub fn persist_attempt<
    Rd: FnOnce() -> Result<ControlSession, crate::conductor_state::LivePersistenceError>,
    Ap: FnOnce(crate::controller_run::AntennaControlMutation) -> Result<(), crate::conductor_state::LivePersistenceError>,
    Lc: FnOnce() -> Option<String>,
    N: Fn(&str) -> String,
    C: Fn(i64) -> Result<i64, String>,
    P: FnOnce(crate::operation_diagnostics::DiagnosticOperation, &str, Vec<crate::operation_diagnostics::DiagnosticTarget>, SessionErrorPayload) -> SessionErrorPayload,
>(
    desktop: &crate::desktop::DesktopState,
    source: &str,
    intent_id: &str,
    manual_review_required: bool,
    switch_success: bool,
    verification_success: Option<bool>,
    switch_record_id: String,
    verification_record_id: Option<String>,
    ready_at_ms: Option<i64>,
    mutation_id: String,
    rig_records: Vec<crate::control_model::RigRecord>,
    read: Rd,
    append: Ap,
    last_committed: Lc,
    new_id: &N,
    next_cycle: &C,
    persist: P,
) -> (r: Result<(), SessionErrorPayload>)
    requires
        verification_success == Some(true) ==> verification_record_id is Some && ready_at_ms is Some,
        call_requires(read, ()),
        forall|m: crate::controller_run::AntennaControlMutation| call_requires(append, (m,)),
        call_requires(last_committed, ()),
        forall|prefix: &str| call_requires(new_id, (prefix,)),
        forall|t: i64| call_requires(next_cycle, (t,)),
        forall|o: crate::operation_diagnostics::DiagnosticOperation, c: &str, t: Vec<crate::operation_diagnostics::DiagnosticTarget>, p: SessionErrorPayload|
            call_requires(persist, (o, c, t, p)),
    ensures
        desktop.active is None ==> r is Err,
        desktop.active matches Some(a) ==> (a.source@ != source@ ==> (r matches Err(e) && replaced_session_error(e))),
        desktop.active matches Some(a) ==> (a.source@ == source@ ==> exists|read_result: Result<ControlSession, crate::conductor_state::LivePersistenceError>| {
            &&& call_ensures(read, (), read_result)
            &&& match read_result {
                Err(l) => r matches Err(e) && crate::conductor_state::live_payload(l, e),
                Ok(current) => if current.lifecycle != SessionLifecycle::Running {
                    r matches Err(e) && stopped_session_error(e)
                } else {
                    &&& verification_arms(current, intent_id@, manual_review_required, switch_success, verification_success)
                        ==> exists|started: Result<i64, String>| {
                        &&& #[trigger] call_ensures(*next_cycle, (ready_at_ms->Some_0,), started)
                        &&& match started {
                            Err(msg) => r matches Err(e) && plain_error(
                                e,
                                SessionErrorKind::Validation,
                                "The next WSPR cycle could not be calculated after verification."@,
                                msg@,
                            ),
                            Ok(_) => exists|m: crate::controller_run::AntennaControlMutation| {
                                &&& m.armed_event is Some
                                &&& attempt_mutation(m, current, mutation_id@, rig_records)
                                &&& #[trigger] attempt_written(append, last_committed, m, r)
                            },
                        }
                    }
                    &&& !verification_arms(current, intent_id@, manual_review_required, switch_success, verification_success)
                        ==> exists|m: crate::controller_run::AntennaControlMutation| {
                        &&& m.armed_event is None
                        &&& attempt_mutation(m, current, mutation_id@, rig_records)
                        &&& #[trigger] attempt_written(append, last_committed, m, r)
                    }
                    &&& r is Ok ==> exists|m: crate::controller_run::AntennaControlMutation, appended: Result<(), crate::conductor_state::LivePersistenceError>| {
                        &&& #[trigger] call_ensures(append, (m,), appended)
                        &&& m.expected_revision == current.revision
                        &&& m.mutation_id@ == mutation_id@
                        &&& m.rig_records == rig_records
                        &&& (m.armed_event is Some) == verification_arms(
                            current,
                            intent_id@,
                            manual_review_required,
                            switch_success,
                            verification_success,
                        )
                    }
                },
            }
        }),
        r is Ok ==> match attempt_failure(switch_success, verification_success) {
            Some((operation, code)) => exists|c: &str, t: Vec<crate::operation_diagnostics::DiagnosticTarget>, p: SessionErrorPayload, out: SessionErrorPayload| {
                &&& #[trigger] call_ensures(persist, (operation, c, t, p), out)
                &&& c@ == code
                &&& t@.len() == 2
                &&& t@[0] matches crate::operation_diagnostics::DiagnosticTarget::Intent { id } && id@ == intent_id@
                &&& t@[1] matches crate::operation_diagnostics::DiagnosticTarget::Mutation { id } && id@ == mutation_id@
                &&& p.kind == SessionErrorKind::Conflict
                &&& p.message@ == "Antenna-controller evidence was retained, but readiness was not granted."@
                &&& p.operation matches Some(op) && op.code@ == code && op.stage@ == "acquire"@
            },
            None => true,
        },
{
    let (active_source, _) = desktop.active_session_source()?;
    if !str_eq(active_source.as_str(), source) {
        return Err(SessionErrorPayload::new(
            SessionErrorKind::Conflict,
            "The active session changed while antenna control was running.",
            "automatic process evidence was not applied to a replacement session",
        ));
    }
    let current = match read() {
        Ok(c) => c,
        Err(l) => return Err(crate::conductor_state::live_error_payload(l)),
    };
    if current.lifecycle != SessionLifecycle::Running {
        return Err(SessionErrorPayload::new(
            SessionErrorKind::Conflict,
            "The session stopped while antenna control was running.",
            "automatic authority was revoked before evidence could be committed",
        ));
    }
    let next = next_intent_of(&current);
    let initial = is_initial_intent(&current, &next);
    let matches_next = match &next {
        Some(i) => str_eq(i.intent_id.as_str(), intent_id),
        None => false,
    };
    let can_arm = match &next {
        Some(i) => transition_plan(&current, Some(i)).automatic_verification_can_arm(),
        None => false,
    };
    let arms = !manual_review_required && switch_success && verification_success == Some(true) && matches_next
        && (initial || can_arm);
    let ghost mut started_g: Result<i64, String> = Ok(0);
    let armed_event = if arms {
        match (&next, verification_record_id, ready_at_ms) {
            (Some(i), Some(vid), Some(ready)) => {
                let event_id = new_id("event");
                let started = next_cycle(ready);
                proof {
                    started_g = started;
                    assert(call_ensures(*next_cycle, (ready,), started_g));
                }
                match crate::policy::command_verified_event(&current, i, switch_record_id, vid, ready, event_id, started) {
                    Ok(ev) => Some(ev),
                    Err(e) => return Err(e),
                }
            },
            _ => None,
        }
    } else {
        None
    };
    let mutation = crate::controller_run::AntennaControlMutation {
        expected_revision: current.revision,
        mutation_id: owned(mutation_id.as_str()),
        rig_records,
        armed_event,
    };
    let ghost handed = mutation;
    let appended = append(mutation);
    let ghost outcome = appended;
    proof {
        if let Some(i) = next {
            let plan = transition_plan_spec(current, Some(i));
            assert(can_arm == crate::transition::automatic_can_arm_spec(plan.view));
        }
        assert((handed.armed_event is Some) == verification_arms(
            current,
            intent_id@,
            manual_review_required,
            switch_success,
            verification_success,
        ));
        assert(call_ensures(append, (handed,), outcome));
    }
    match appended {
        Ok(()) => {},
        Err(l) => {
            let last = last_committed();
            let ghost seen = last;
            proof {
                assert(call_ensures(last_committed, (), seen));
            }
            let committed = match last {
                Some(c) => str_eq(c.as_str(), mutation_id.as_str()),
                None => false,
            };
            if !committed {
                let e = crate::conductor_state::live_error_payload(l);
                proof {
                    assert(attempt_written(append, last_committed, handed, Err::<(), SessionErrorPayload>(e)));
                }
                return Err(e);
            }
        },
    }
    proof {
        assert(attempt_written(append, last_committed, handed, Ok::<(), SessionErrorPayload>(())));
    }
    let failure = if !switch_success {
        Some((crate::operation_diagnostics::DiagnosticOperation::AntennaControllerSwitch, "controller.switch_failed"))
    } else if verification_success == Some(false) {
        Some((crate::operation_diagnostics::DiagnosticOperation::AntennaControllerVerify, "controller.verification_failed"))
    } else {
        None
    };
    match failure {
        Some((operation, code)) => {
            let payload = SessionErrorPayload::new(
                SessionErrorKind::Conflict,
                "Antenna-controller evidence was retained, but readiness was not granted.",
                "the typed controller invocation remains in the session evidence",
            ).with_operation(code, "acquire");
            let mut targets: Vec<crate::operation_diagnostics::DiagnosticTarget> = Vec::new();
            targets.push(crate::operation_diagnostics::DiagnosticTarget::Intent { id: owned(intent_id) });
            targets.push(crate::operation_diagnostics::DiagnosticTarget::Mutation { id: owned(mutation_id.as_str()) });
            let ghost handed_targets = targets;
            let ghost handed_payload = payload;
            let out = persist(operation, code, targets, payload);
            proof {
                reveal_strlit("controller.switch_failed");
                reveal_strlit("controller.verification_failed");
                reveal_strlit("Antenna-controller evidence was retained, but readiness was not granted.");
                reveal_strlit("acquire");
            }
            assert(call_ensures(persist, (operation, code, handed_targets, handed_payload), out));
        },
        None => {},
    }
    Ok(())
}

/// The first schema version whose runs continue on unchanged station state.
pub const CONTINUATION_SCHEMA_VERSION: u16 = 6;

/// What a continuation attempt did.
#[derive(Debug, Clone, Copy, PartialEq, Eq, Structural)]
pub enum ContinuationOutcome {
    /// The run does not continue on its own here.
    NotApplicable,
    /// The protected transmission ends at this instant.
    Waiting(i64),
    /// The next cycle was armed on the unchanged station state.
    Continued,
}

/// The event that arms the next cycle on the unchanged station state, with
/// the readiness it continues from.
#[derive(Debug)]
pub struct ContinuedReadinessEvent {
    pub schema_version: u16,
    pub session_id: String,
    pub recorded_at_ms: i64,
    pub mutation_id: String,
    pub event_id: String,
    pub occurred_at_ms: i64,
    pub slot_id: String,
    pub antenna_label: String,
    pub cycle_starts_at_ms: i64,
    pub source_ready_event_id: String,
}

/// The write of a continuation: one event at the expected revision.
#[derive(Debug)]
pub struct ContinuationMutation {
    pub expected_revision: u64,
    pub mutation_id: String,
    pub event: ContinuedReadinessEvent,
}

/// The continuation a session admits at `now_ms`, before anything is
/// written: none, a wait for the protected transmission, or the next
/// intention with the plan it continues.
pub open spec fn continuation_state(current: ControlSession, now_ms: i64) -> Option<Result<(WsprCycleIntent, PlanSpec), i64>> {
    if current.schema_version < CONTINUATION_SCHEMA_VERSION || current.lifecycle != SessionLifecycle::Running {
        None
    } else {
        let plan = transition_plan_spec(current, next_intent_spec(current));
        if !plan_continues(plan) {
            None
        } else if now_ms < plan.prior_transmission_ends_at->Some_0 {
            Some(Err(plan.prior_transmission_ends_at->Some_0))
        } else {
            Some(Ok((next_intent_spec(current)->Some_0, plan)))
        }
    }
}

/// The continuation `m` arms the intention `intent` of `current` at
/// `now_ms`, continuing the readiness the plan carries over.
pub open spec fn continues_with(
    m: ContinuationMutation,
    current: ControlSession,
    intent: WsprCycleIntent,
    plan: PlanSpec,
    now_ms: i64,
) -> bool {
    let identity = crate::transition::continuation_identity_spec(
        current.session_id@,
        plan.source_ready_event_id->Some_0,
        intent.intent_id@,
    );
    &&& m.expected_revision == current.revision
    &&& m.mutation_id@ == "mutation-"@ + identity
    &&& m.event.event_id@ == "event-"@ + identity
    &&& m.event.schema_version == current.schema_version
    &&& m.event.session_id@ == current.session_id@
    &&& m.event.recorded_at_ms == now_ms
    &&& m.event.occurred_at_ms == now_ms
    &&& m.event.mutation_id@ == "pending"@
    &&& m.event.slot_id@ == intent.intent_id@
    &&& m.event.antenna_label@ == intent.antenna_label@
    &&& m.event.source_ready_event_id@ == plan.source_ready_event_id->Some_0
}

/// What is answered once the continuation `m` is handed to `append`: when
/// it is written, or the append fails though the last committed mutation
/// shows it landed, the outcome of `refresh`; otherwise the append's error.
pub open spec fn continuation_written<Ap, Lc, Rf>(
    append: Ap,
    last_committed: Lc,
    refresh: Rf,
    m: ContinuationMutation,
    r: Result<ContinuationOutcome, SessionErrorPayload>,
) -> bool
    where
        Ap: FnOnce(ContinuationMutation) -> Result<(), crate::conductor_state::LivePersistenceError>,
        Lc: FnOnce() -> Option<String>,
        Rf: FnOnce() -> Result<(), SessionErrorPayload>,
{
    let refreshed = exists|done: Result<(), SessionErrorPayload>| {
        &&& #[trigger] call_ensures(refresh, (), done)
        &&& match done {
            Err(e) => r == Err::<ContinuationOutcome, SessionErrorPayload>(e),
            Ok(_) => r == Ok::<ContinuationOutcome, SessionErrorPayload>(ContinuationOutcome::Continued),
        }
    };
    exists|appended: Result<(), crate::conductor_state::LivePersistenceError>| {
        &&& #[trigger] call_ensures(append, (m,), appended)
        &&& match appended {
            Ok(_) => refreshed,
            Err(l) => exists|last: Option<String>| {
                &&& #[trigger] call_ensures(last_committed, (), last)
                &&& if crate::conductor_session::landed(last, m.mutation_id@) {
                    refreshed
                } else {
                    r matches Err(e) && crate::conductor_state::live_payload(l, e)
                }
            },
        }
    }
}

/// Arms the next cycle of the active session at `source`, read afresh by
/// `read`, when its station state carries over unchanged and the protected
/// transmission has ended at `now_ms`; the event's identity derives from
/// the session, the readiness it continues and the intention, so a retry is
/// recognized. A failed append counts as done when `last_committed` shows
/// the mutation landed; `refresh` then updates the active session's view.
pub fn persist_continued_readiness<
    Rd: FnOnce() -> Result<ControlSession, crate::conductor_state::LivePersistenceError>,
    C: FnOnce(i64) -> Result<i64, String>,
    Ap: FnOnce(ContinuationMutation) -> Result<(), crate::conductor_state::LivePersistenceError>,
    Lc: FnOnce() -> Option<String>,
    Rf: FnOnce() -> Result<(), SessionErrorPayload>,
>(
    desktop: &crate::desktop::DesktopState,
    source: &str,
    now_ms: i64,
    read: Rd,
    next_cycle: C,
    append: Ap,
    last_committed: Lc,
    refresh: Rf,
) -> (r: Result<ContinuationOutcome, SessionErrorPayload>)
    requires
        call_requires(read, ()),
        forall|t: i64| call_requires(next_cycle, (t,)),
        forall|m: ContinuationMutation| call_requires(append, (m,)),
        call_requires(last_committed, ()),
        call_requires(refresh, ()),
    ensures
        desktop.active is None ==> r is Err,
        desktop.active matches Some(a) ==> (a.source@ != source@ ==> r == Ok::<ContinuationOutcome, SessionErrorPayload>(
            ContinuationOutcome::NotApplicable,
        )),
        desktop.active matches Some(a) ==> (a.source@ == source@ ==> exists|read_result: Result<ControlSession, crate::conductor_state::LivePersistenceError>| {
            &&& call_ensures(read, (), read_result)
            &&& match read_result {
                Err(l) => r matches Err(e) && crate::conductor_state::live_payload(l, e),
                Ok(current) => match continuation_state(current, now_ms) {
                    None => r == Ok::<ContinuationOutcome, SessionErrorPayload>(ContinuationOutcome::NotApplicable),
                    Some(Err(deadline)) => r == Ok::<ContinuationOutcome, SessionErrorPayload>(ContinuationOutcome::Waiting(deadline)),
                    Some(Ok((intent, plan))) => exists|started: Result<i64, String>| {
                        &&& #[trigger] call_ensures(next_cycle, (now_ms,), started)
                        &&& match started {
                            Err(msg) => r matches Err(e) && plain_error(
                                e,
                                SessionErrorKind::Validation,
                                "The next WSPR cycle could not be calculated."@,
                                msg@,
                            ),
                            Ok(start) => exists|m: ContinuationMutation| {
                                &&& m.event.cycle_starts_at_ms == start
                                &&& continues_with(m, current, intent, plan, now_ms)
                                &&& #[trigger] continuation_written(append, last_committed, refresh, m, r)
                            },
                        }
                    },
                },
            }
        }),
{
    let (active_source, _) = desktop.active_session_source()?;
    if !str_eq(active_source.as_str(), source) {
        return Ok(ContinuationOutcome::NotApplicable);
    }
    let current = match read() {
        Ok(c) => c,
        Err(l) => return Err(crate::conductor_state::live_error_payload(l)),
    };
    if current.schema_version < CONTINUATION_SCHEMA_VERSION || current.lifecycle != SessionLifecycle::Running {
        return Ok(ContinuationOutcome::NotApplicable);
    }
    let next = next_intent_of(&current);
    let plan = match &next {
        Some(i) => transition_plan(&current, Some(i)),
        None => transition_plan(&current, None),
    };
    if !plan.can_continue() {
        return Ok(ContinuationOutcome::NotApplicable);
    }
    let deadline = match plan.prior_transmission_ends_at() {
        Some(d) => d,
        None => return Ok(ContinuationOutcome::NotApplicable),
    };
    if now_ms < deadline {
        return Ok(ContinuationOutcome::Waiting(deadline));
    }
    let intent = match next {
        Some(i) => i,
        None => return Ok(ContinuationOutcome::NotApplicable),
    };
    let started = next_cycle(now_ms);
    let ghost started_g = started;
    proof {
        assert(call_ensures(next_cycle, (now_ms,), started_g));
    }
    let start = match started {
        Ok(s) => s,
        Err(m) => {
            return Err(SessionErrorPayload::new(
                SessionErrorKind::Validation,
                "The next WSPR cycle could not be calculated.",
                m.as_str(),
            ));
        },
    };
    let source_ready_event_id = match &plan.source_ready_event_id {
        Some(id) => id.clone(),
        None => return Ok(ContinuationOutcome::NotApplicable),
    };
    let identity = crate::transition::continuation_identity(
        current.session_id.as_str(),
        source_ready_event_id.as_str(),
        intent.intent_id.as_str(),
    );
    let mut event_id = owned("event-");
    crate::text::push_str(&mut event_id, identity.as_str());
    let mut mutation_id = owned("mutation-");
    crate::text::push_str(&mut mutation_id, identity.as_str());
    proof {
        reveal_strlit("event-");
        reveal_strlit("mutation-");
        reveal_strlit("pending");
    }
    let event = ContinuedReadinessEvent {
        schema_version: current.schema_version,
        session_id: owned(current.session_id.as_str()),
        recorded_at_ms: now_ms,
        mutation_id: owned("pending"),
        event_id,
        occurred_at_ms: now_ms,
        slot_id: owned(intent.intent_id.as_str()),
        antenna_label: owned(intent.antenna_label.as_str()),
        cycle_starts_at_ms: start,
        source_ready_event_id,
    };
    let mutation = ContinuationMutation { expected_revision: current.revision, mutation_id: owned(mutation_id.as_str()), event };
    let ghost handed = mutation;
    let appended = append(mutation);
    let ghost outcome = appended;
    proof {
        assert(call_ensures(append, (handed,), outcome));
    }
    match appended {
        Ok(()) => {},
        Err(l) => {
            let last = last_committed();
            let ghost seen = last;
            proof {
                assert(call_ensures(last_committed, (), seen));
            }
            let committed = match last {
                Some(c) => str_eq(c.as_str(), mutation_id.as_str()),
                None => false,
            };
            if !committed {
                let e = crate::conductor_state::live_error_payload(l);
                proof {
                    assert(continuation_written(append, last_committed, refresh, handed, Err::<ContinuationOutcome, SessionErrorPayload>(e)));
                }
                return Err(e);
            }
        },
    }
    let done = refresh();
    let ghost done_g = done;
    let r = match done {
        Err(e) => Err(e),
        Ok(()) => Ok(ContinuationOutcome::Continued),
    };
    proof {
        assert(call_ensures(refresh, (), done_g));
        assert(continuation_written(append, last_committed, refresh, handed, r));
    }
    r
}

/// What a worker does after it tried to continue readiness on an unchanged
/// station state.
#[derive(Debug)]
pub enum ContinuationStep {
    /// The worker reads the session again.
    Repeat,
    /// The worker goes on to run the controller for the intention.
    Attempt,
    /// The worker blocks automation on the intention with this message and
    /// detail.
    Block { intent_id: String, message: String, detail: String },
}

/// What the worker does after trying to continue readiness for the
/// intention `intent_id`: a continued or still-protected run is read again;
/// when continuation does not apply, the controller runs only if the
/// session, read again as `current` (`None` when it cannot be read), still
/// has that intention next; a failure blocks automation.
pub fn continuation_decision(
    outcome: Result<ContinuationOutcome, SessionErrorPayload>,
    intent_id: &str,
    current: Option<&ControlSession>,
) -> (r: ContinuationStep)
    ensures
        match outcome {
            Ok(ContinuationOutcome::Continued) => r is Repeat,
            Ok(ContinuationOutcome::Waiting(_)) => r is Repeat,
            Ok(ContinuationOutcome::NotApplicable) => {
                let still_next = current matches Some(c) && next_intent_spec(*c) matches Some(i) && i.intent_id@
                    == intent_id@;
                &&& still_next ==> r is Attempt
                &&& !still_next ==> r is Repeat
            },
            Err(e) => r matches ContinuationStep::Block { intent_id: id, message, detail } && id@ == intent_id@
                && message@ == "Automatic continued-readiness evidence could not be committed."@ && detail@ == e.message@
                + ": "@ + e.detail@,
        },
{
    match outcome {
        Ok(ContinuationOutcome::Continued) => ContinuationStep::Repeat,
        Ok(ContinuationOutcome::Waiting(_)) => ContinuationStep::Repeat,
        Ok(ContinuationOutcome::NotApplicable) => {
            let still_next = match current {
                Some(c) => match next_intent_of(c) {
                    Some(i) => str_eq(i.intent_id.as_str(), intent_id),
                    None => false,
                },
                None => false,
            };
            if still_next {
                ContinuationStep::Attempt
            } else {
                ContinuationStep::Repeat
            }
        },
        Err(e) => {
            let mut detail = owned(e.message.as_str());
            crate::text::push_str(&mut detail, ": ");
            crate::text::push_str(&mut detail, e.detail.as_str());
            proof {
                reveal_strlit("Automatic continued-readiness evidence could not be committed.");
                reveal_strlit(": ");
            }
            ContinuationStep::Block {
                intent_id: owned(intent_id),
                message: owned("Automatic continued-readiness evidence could not be committed."),
                detail,
            }
        },
    }
}

} // verus!
