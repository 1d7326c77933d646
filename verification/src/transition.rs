//! Cycle-to-cycle transition evaluation: what must change between the
//! previous armed cycle and the next intention, and whether the run may
//! continue without an operator action.

use vstd::prelude::*;

use crate::control_model::{
    automatic_policy, exit_zero, manual_review_policy, AntennaControlRole, ControlSession,
    RigRecord, WsprCycleIntent,
};
use crate::policy::inv_of;
use crate::text::str_eq;

verus! {

/// What one aspect of the station needs before the next cycle.
#[derive(Debug, Clone, Copy, PartialEq, Eq, Structural)]
pub enum TransitionDisposition {
    NoChangeNeeded,
    OperatorActionRequired,
    AutomaticActionPending,
    AutomaticallyCompletedAndVerified,
    UnknownBlocked,
}

/// The four aspects of a transition.
#[derive(Debug, Clone, Copy, PartialEq, Eq, Structural)]
pub struct ConductorTransitionView {
    pub antenna: TransitionDisposition,
    pub direction: TransitionDisposition,
    pub band: TransitionDisposition,
    pub signal: TransitionDisposition,
}

/// The evaluated transition to the next intention.
#[derive(Debug, Clone)]
pub struct TransitionPlan {
    pub view: ConductorTransitionView,
    pub operator_action_required: bool,
    pub source_ready_event_id: Option<String>,
    pub next_intent_id: Option<String>,
    pub prior_transmission_ends_at: Option<i64>,
}

pub open spec fn all_unchanged(v: ConductorTransitionView) -> bool {
    &&& v.antenna == TransitionDisposition::NoChangeNeeded
    &&& v.direction == TransitionDisposition::NoChangeNeeded
    &&& v.band == TransitionDisposition::NoChangeNeeded
    &&& v.signal == TransitionDisposition::NoChangeNeeded
}

pub open spec fn can_continue_spec(p: TransitionPlan) -> bool {
    &&& all_unchanged(p.view)
    &&& p.source_ready_event_id is Some
    &&& p.next_intent_id is Some
    &&& p.prior_transmission_ends_at is Some
}

pub open spec fn automatic_can_arm_spec(v: ConductorTransitionView) -> bool {
    &&& v.antenna == TransitionDisposition::AutomaticActionPending
    &&& v.direction == TransitionDisposition::NoChangeNeeded
    &&& v.band == TransitionDisposition::NoChangeNeeded
    &&& v.signal == TransitionDisposition::NoChangeNeeded
}

impl TransitionPlan {
    /// Whether the run continues on the trusted, unchanged station state.
    pub fn can_continue(&self) -> (r: bool)
        ensures
            r == can_continue_spec(*self),
    {
        self.view.antenna == TransitionDisposition::NoChangeNeeded && self.view.direction
            == TransitionDisposition::NoChangeNeeded && self.view.band
            == TransitionDisposition::NoChangeNeeded && self.view.signal
            == TransitionDisposition::NoChangeNeeded && self.source_ready_event_id.is_some()
            && self.next_intent_id.is_some() && self.prior_transmission_ends_at.is_some()
    }

    pub fn prior_transmission_ends_at(&self) -> (r: Option<i64>)
        ensures
            r == self.prior_transmission_ends_at,
    {
        self.prior_transmission_ends_at
    }

    /// Whether command verification alone may arm the next cycle: only the
    /// antenna changes, and automatically.
    pub fn automatic_verification_can_arm(&self) -> (r: bool)
        ensures
            r == automatic_can_arm_spec(self.view),
    {
        self.view.antenna == TransitionDisposition::AutomaticActionPending && self.view.direction
            == TransitionDisposition::NoChangeNeeded && self.view.band
            == TransitionDisposition::NoChangeNeeded && self.view.signal
            == TransitionDisposition::NoChangeNeeded
    }
}

/// An unchanged aspect needs nothing; any change needs the operator.
pub fn unchanged(same: bool) -> (r: TransitionDisposition)
    ensures
        r == (if same {
            TransitionDisposition::NoChangeNeeded
        } else {
            TransitionDisposition::OperatorActionRequired
        }),
{
    if same {
        TransitionDisposition::NoChangeNeeded
    } else {
        TransitionDisposition::OperatorActionRequired
    }
}

/// A successful switch invocation for the intention.
pub open spec fn successful_switch(r: RigRecord, intent_id: Seq<char>) -> bool {
    r.antenna_control matches Some(inv) && inv.role == AntennaControlRole::Switch
        && inv.context.intent_id@ == intent_id && exit_zero(inv.disposition)
}

/// A successful verification in the same mutation as switch record `s`,
/// for the same intention and target.
pub open spec fn verifies(v: RigRecord, s: RigRecord, intent_id: Seq<char>) -> bool {
    &&& v.mutation_id@ == s.mutation_id@
    &&& v.antenna_control matches Some(inv) && inv.role == AntennaControlRole::Verification
        && inv.context.intent_id@ == intent_id && inv.context.target@ == inv_of(s).context.target@
        && exit_zero(inv.disposition)
}

pub open spec fn verified_automatic_attempt(rig: Seq<RigRecord>, intent_id: Seq<char>) -> bool {
    exists|i: int, j: int|
        0 <= i < rig.len() && 0 <= j < rig.len() && successful_switch(#[trigger] rig[i], intent_id)
            && verifies(#[trigger] rig[j], rig[i], intent_id)
}

pub open spec fn successful_switch_attempt(rig: Seq<RigRecord>, intent_id: Seq<char>) -> bool {
    exists|i: int| 0 <= i < rig.len() && successful_switch(#[trigger] rig[i], intent_id)
}

fn is_successful_switch(r: &RigRecord, intent_id: &str) -> (b: bool)
    ensures
        b == successful_switch(*r, intent_id@),
{
    match &r.antenna_control {
        Some(inv) => inv.role == AntennaControlRole::Switch && str_eq(
            inv.context.intent_id.as_str(),
            intent_id,
        ) && inv.disposition.is_exit_zero(),
        None => false,
    }
}

fn is_verification_of(v: &RigRecord, s: &RigRecord, intent_id: &str) -> (b: bool)
    requires
        s.antenna_control is Some,
    ensures
        b == verifies(*v, *s, intent_id@),
{
    let target = match &s.antenna_control {
        Some(inv) => &inv.context.target,
        None => {
            return false;
        },
    };
    str_eq(v.mutation_id.as_str(), s.mutation_id.as_str()) && match &v.antenna_control {
        Some(inv) => inv.role == AntennaControlRole::Verification && str_eq(
            inv.context.intent_id.as_str(),
            intent_id,
        ) && str_eq(inv.context.target.as_str(), target.as_str()) && inv.disposition.is_exit_zero(),
        None => false,
    }
}

/// Whether a successful switch for the intention was verified by a
/// successful verification of the same mutation and target.
pub fn has_verified_automatic_attempt(rig: &Vec<RigRecord>, intent_id: &str) -> (r: bool)
    ensures
        r == verified_automatic_attempt(rig@, intent_id@),
{
    let n = rig.len();
    for i in 0..n
        invariant
            n == rig@.len(),
            forall|a: int, b: int|
                0 <= a < i && 0 <= b < n ==> !(successful_switch(#[trigger] rig@[a], intent_id@)
                    && verifies(#[trigger] rig@[b], rig@[a], intent_id@)),
    {
        if is_successful_switch(&rig[i], intent_id) {
            for j in 0..n
                invariant
                    n == rig@.len(),
                    i < n,
                    successful_switch(rig@[i as int], intent_id@),
                    forall|a: int, b: int|
                        0 <= a < i && 0 <= b < n ==> !(successful_switch(
                            #[trigger] rig@[a],
                            intent_id@,
                        ) && verifies(#[trigger] rig@[b], rig@[a], intent_id@)),
                    forall|b: int|
                        0 <= b < j ==> !verifies(#[trigger] rig@[b], rig@[i as int], intent_id@),
            {
                if is_verification_of(&rig[j], &rig[i], intent_id) {
                    return true;
                }
            }
        }
    }
    false
}

/// Whether any switch for the intention exited successfully.
pub fn has_successful_switch_attempt(rig: &Vec<RigRecord>, intent_id: &str) -> (r: bool)
    ensures
        r == successful_switch_attempt(rig@, intent_id@),
{
    let n = rig.len();
    for i in 0..n
        invariant
            n == rig@.len(),
            forall|a: int| 0 <= a < i ==> !successful_switch(#[trigger] rig@[a], intent_id@),
    {
        if is_successful_switch(&rig[i], intent_id) {
            return true;
        }
    }
    false
}

} // verus!

verus! {

/// The index of the first intention with identity `id`.
pub open spec fn find_intent(intents: Seq<WsprCycleIntent>, id: Seq<char>) -> Option<int>
    decreases intents.len(),
{
    if intents.len() == 0 {
        None
    } else if intents[0].intent_id@ == id {
        Some(0)
    } else {
        match find_intent(intents.drop_first(), id) {
            Some(k) => Some(k + 1),
            None => None,
        }
    }
}

pub proof fn lemma_find_intent(intents: Seq<WsprCycleIntent>, id: Seq<char>)
    ensures
        find_intent(intents, id) matches Some(k) ==> 0 <= k < intents.len()
            && intents[k].intent_id@ == id,
    decreases intents.len(),
{
    if intents.len() > 0 && intents[0].intent_id@ != id {
        lemma_find_intent(intents.drop_first(), id);
    }
}

pub(crate) fn find_intent_index(intents: &Vec<WsprCycleIntent>, id: &str) -> (r: Option<usize>)
    ensures
        match r {
            Some(k) => find_intent(intents@, id@) == Some(k as int) && k < intents@.len(),
            None => find_intent(intents@, id@) is None,
        },
{
    let n = intents.len();
    let mut k: usize = 0;
    assert(intents@.skip(0) =~= intents@);
    while k < n
        invariant
            k <= n,
            n == intents@.len(),
            find_intent(intents@, id@) == (match find_intent(intents@.skip(k as int), id@) {
                Some(j) => Some(j + k),
                None => None,
            }),
        decreases n - k,
    {
        assert(intents@.skip(k as int)[0] == intents@[k as int]);
        if str_eq(intents[k].intent_id.as_str(), id) {
            return Some(k);
        }
        assert(intents@.skip(k as int).drop_first() =~= intents@.skip(k + 1));
        k = k + 1;
    }
    None
}

/// The evaluated transition, as values.
pub struct PlanSpec {
    pub view: ConductorTransitionView,
    pub operator_action_required: bool,
    pub source_ready_event_id: Option<Seq<char>>,
    pub next_intent_id: Option<Seq<char>>,
    pub prior_transmission_ends_at: Option<i64>,
}

pub open spec fn unknown_view() -> ConductorTransitionView {
    ConductorTransitionView {
        antenna: TransitionDisposition::UnknownBlocked,
        direction: TransitionDisposition::UnknownBlocked,
        band: TransitionDisposition::UnknownBlocked,
        signal: TransitionDisposition::UnknownBlocked,
    }
}

pub open spec fn plan_view(p: TransitionPlan) -> PlanSpec {
    PlanSpec {
        view: p.view,
        operator_action_required: p.operator_action_required,
        source_ready_event_id: match p.source_ready_event_id {
            Some(s) => Some(s@),
            None => None,
        },
        next_intent_id: match p.next_intent_id {
            Some(s) => Some(s@),
            None => None,
        },
        prior_transmission_ends_at: p.prior_transmission_ends_at,
    }
}

pub open spec fn same_spec(a: TransitionDisposition) -> bool {
    a == TransitionDisposition::NoChangeNeeded || a
        == TransitionDisposition::AutomaticallyCompletedAndVerified
}

/// The transition from the previous armed cycle to the next intention.
/// Anything that cannot be established from committed evidence is
/// `UnknownBlocked` and requires the operator.
pub open spec fn transition_plan_spec(s: ControlSession, next: Option<WsprCycleIntent>) -> PlanSpec {
    let occ = s.projection.occupancies@;
    let cycles = s.projection.cycles@;
    match next {
        None => PlanSpec {
            view: unknown_view(),
            operator_action_required: true,
            source_ready_event_id: None,
            next_intent_id: None,
            prior_transmission_ends_at: None,
        },
        Some(next) => if occ.len() == 0 || occ.last().ends_at_ms is Some {
            PlanSpec {
                view: unknown_view(),
                operator_action_required: true,
                source_ready_event_id: None,
                next_intent_id: Some(next.intent_id@),
                prior_transmission_ends_at: if cycles.len() == 0 {
                    None
                } else {
                    Some(cycles.last().transmission_ends_at_ms)
                },
            }
        } else if cycles.len() == 0 || cycles.last().ready_event_id@
            != occ.last().ready_event_id@ || cycles.last().antenna_label@
            != occ.last().antenna_label@ {
            PlanSpec {
                view: unknown_view(),
                operator_action_required: true,
                source_ready_event_id: None,
                next_intent_id: Some(next.intent_id@),
                prior_transmission_ends_at: None,
            }
        } else {
            let previous_cycle = cycles.last();
            match find_intent(s.intents@, previous_cycle.intent_id@) {
                None => PlanSpec {
                    view: unknown_view(),
                    operator_action_required: true,
                    source_ready_event_id: None,
                    next_intent_id: Some(next.intent_id@),
                    prior_transmission_ends_at: Some(previous_cycle.transmission_ends_at_ms),
                },
                Some(pk) => {
                    let previous = s.intents@[pk];
                    let antenna = if previous.antenna_label@ == next.antenna_label@ {
                        TransitionDisposition::NoChangeNeeded
                    } else if verified_automatic_attempt(s.rig@, next.intent_id@) {
                        TransitionDisposition::AutomaticallyCompletedAndVerified
                    } else if successful_switch_attempt(s.rig@, next.intent_id@) {
                        TransitionDisposition::OperatorActionRequired
                    } else if automatic_policy(s.antenna_control) {
                        TransitionDisposition::AutomaticActionPending
                    } else {
                        TransitionDisposition::OperatorActionRequired
                    };
                    let direction = if previous.direction == next.direction {
                        TransitionDisposition::NoChangeNeeded
                    } else {
                        TransitionDisposition::OperatorActionRequired
                    };
                    let band = if previous.band == next.band {
                        TransitionDisposition::NoChangeNeeded
                    } else {
                        TransitionDisposition::OperatorActionRequired
                    };
                    let signal = if crate::control_model::signal_view(previous.signal) == crate::control_model::signal_view(next.signal) {
                        TransitionDisposition::NoChangeNeeded
                    } else {
                        TransitionDisposition::OperatorActionRequired
                    };
                    let manual_review = manual_review_policy(s.antenna_control) && antenna
                        == TransitionDisposition::AutomaticallyCompletedAndVerified;
                    PlanSpec {
                        view: ConductorTransitionView { antenna, direction, band, signal },
                        operator_action_required: manual_review || !same_spec(antenna)
                            || !same_spec(direction) || !same_spec(band) || !same_spec(signal),
                        source_ready_event_id: Some(occ.last().ready_event_id@),
                        next_intent_id: Some(next.intent_id@),
                        prior_transmission_ends_at: Some(previous_cycle.transmission_ends_at_ms),
                    }
                },
            }
        },
    }
}

fn unknown() -> (r: ConductorTransitionView)
    ensures
        r == unknown_view(),
{
    ConductorTransitionView {
        antenna: TransitionDisposition::UnknownBlocked,
        direction: TransitionDisposition::UnknownBlocked,
        band: TransitionDisposition::UnknownBlocked,
        signal: TransitionDisposition::UnknownBlocked,
    }
}

fn same_disposition_kind(a: TransitionDisposition) -> (r: bool)
    ensures
        r == same_spec(a),
{
    a == TransitionDisposition::NoChangeNeeded || a
        == TransitionDisposition::AutomaticallyCompletedAndVerified
}

/// Evaluates the transition to `next` from the committed evidence.
pub fn transition_plan(session: &ControlSession, next: Option<&WsprCycleIntent>) -> (r: TransitionPlan)
    ensures
        plan_view(r) == transition_plan_spec(
            *session,
            match next {
                Some(n) => Some(*n),
                None => None,
            },
        ),
{
    let next = match next {
        None => {
            return TransitionPlan {
                view: unknown(),
                operator_action_required: true,
                source_ready_event_id: None,
                next_intent_id: None,
                prior_transmission_ends_at: None,
            };
        },
        Some(n) => n,
    };
    let occupancies = &session.projection.occupancies;
    let cycles = &session.projection.cycles;
    let on = occupancies.len();
    let cn = cycles.len();
    if on == 0 || occupancies[on - 1].ends_at_ms.is_some() {
        return TransitionPlan {
            view: unknown(),
            operator_action_required: true,
            source_ready_event_id: None,
            next_intent_id: Some(next.intent_id.clone()),
            prior_transmission_ends_at: if cn == 0 {
                None
            } else {
                Some(cycles[cn - 1].transmission_ends_at_ms)
            },
        };
    }
    let occupancy = &occupancies[on - 1];
    if cn == 0 || !str_eq(cycles[cn - 1].ready_event_id.as_str(), occupancy.ready_event_id.as_str())
        || !str_eq(cycles[cn - 1].antenna_label.as_str(), occupancy.antenna_label.as_str()) {
        return TransitionPlan {
            view: unknown(),
            operator_action_required: true,
            source_ready_event_id: None,
            next_intent_id: Some(next.intent_id.clone()),
            prior_transmission_ends_at: None,
        };
    }
    let previous_cycle = &cycles[cn - 1];
    let pk = match find_intent_index(&session.intents, previous_cycle.intent_id.as_str()) {
        None => {
            return TransitionPlan {
                view: unknown(),
                operator_action_required: true,
                source_ready_event_id: None,
                next_intent_id: Some(next.intent_id.clone()),
                prior_transmission_ends_at: Some(previous_cycle.transmission_ends_at_ms),
            };
        },
        Some(pk) => pk,
    };
    proof {
        lemma_find_intent(session.intents@, previous_cycle.intent_id@);
    }
    let previous = &session.intents[pk];
    let antenna = if str_eq(previous.antenna_label.as_str(), next.antenna_label.as_str()) {
        TransitionDisposition::NoChangeNeeded
    } else if has_verified_automatic_attempt(&session.rig, next.intent_id.as_str()) {
        TransitionDisposition::AutomaticallyCompletedAndVerified
    } else if has_successful_switch_attempt(&session.rig, next.intent_id.as_str()) {
        TransitionDisposition::OperatorActionRequired
    } else if match session.antenna_control {
        Some(
            crate::control_model::AntennaControlPolicy::CommandControlled {
                invocation: crate::control_model::AntennaControlInvocationPolicy::Automatic,
                ..
            },
        ) => true,
        _ => false,
    } {
        TransitionDisposition::AutomaticActionPending
    } else {
        TransitionDisposition::OperatorActionRequired
    };
    let direction = unchanged(previous.direction == next.direction);
    let band = unchanged(previous.band == next.band);
    let signal = unchanged(crate::control_model::same_signal(&previous.signal, &next.signal));
    let manual = match session.antenna_control {
        Some(
            crate::control_model::AntennaControlPolicy::CommandControlled {
                manual_review_required,
                ..
            },
        ) => manual_review_required,
        _ => false,
    };
    let manual_review = manual && antenna == TransitionDisposition::AutomaticallyCompletedAndVerified;
    let operator_action_required = manual_review || !same_disposition_kind(antenna)
        || !same_disposition_kind(direction) || !same_disposition_kind(band)
        || !same_disposition_kind(signal);
    TransitionPlan {
        view: ConductorTransitionView { antenna, direction, band, signal },
        operator_action_required,
        source_ready_event_id: Some(occupancy.ready_event_id.clone()),
        next_intent_id: Some(next.intent_id.clone()),
        prior_transmission_ends_at: Some(previous_cycle.transmission_ends_at_ms),
    }
}

/// The text whose digest identifies a continuation: the session, the
/// source event and the intent, separated by NUL characters.
pub open spec fn continuation_key(session_id: Seq<char>, source_event_id: Seq<char>, intent_id: Seq<char>) -> Seq<char> {
    session_id + seq!['\0'] + source_event_id + seq!['\0'] + intent_id
}

/// The identity of a continuation: `continued-` and the first 32
/// hexadecimal digits of the SHA-256 of its key.
pub open spec fn continuation_identity_spec(session_id: Seq<char>, source_event_id: Seq<char>, intent_id: Seq<char>) -> Seq<char> {
    "continued-"@ + crate::report_window::hex_text(
        crate::report_window::sha256_of(vstd::utf8::encode_utf8(continuation_key(session_id, source_event_id, intent_id))).take(16),
    )
}

/// The deterministic identity of continuing from a source event into an
/// intent, so that a retried continuation is recognized as the same one.
pub fn continuation_identity(session_id: &str, source_event_id: &str, intent_id: &str) -> (r: String)
    ensures
        r@ == continuation_identity_spec(session_id@, source_event_id@, intent_id@),
{
    let mut key = String::from_str(session_id);
    crate::text::push_char(&mut key, '\0');
    crate::text::push_str(&mut key, source_event_id);
    crate::text::push_char(&mut key, '\0');
    crate::text::push_str(&mut key, intent_id);
    assert(key@ =~= continuation_key(session_id@, source_event_id@, intent_id@));
    let digest = crate::report_window::sha256_digest(key.as_str().as_bytes());
    let mut head: Vec<u8> = Vec::new();
    let mut i: usize = 0;
    while i < 16
        invariant
            i <= 16,
            digest@.len() == 32,
            head@ == digest@.take(i as int),
        decreases 16 - i,
    {
        head.push(digest[i]);
        assert(digest@.take(i + 1) =~= digest@.take(i as int).push(digest@[i as int]));
        i = i + 1;
    }
    let mut out = String::from_str("continued-");
    let hex = crate::report_window::hex_string(&head);
    crate::text::push_str(&mut out, hex.as_str());
    proof {
        reveal_strlit("continued-");
    }
    out
}

} // verus!
