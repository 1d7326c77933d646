//! The conductor's read model: what a session's reduced event log, its run
//! projection and its schedule show the operator at an instant.

use vstd::prelude::*;

use crate::conductor_actions::{
    event_summary_v3, event_summary_v3_spec, CorrectablePayload, OperatorEvent, OperatorEventPayload,
    ReadinessBasis, SignalConfirmation,
};
use crate::control_model::{
    band_name, AntennaOccupancy, Band, ControlSession, ProjectedCycle, SessionLifecycle, WsprCycleDirection, WsprCycleIntent,
    WsprSignal,
};
use crate::command::band_text;
use crate::timing::{
    slot_evidence, slot_evidence_spec, timing_projection, timing_projection_v3, timing_spec, timing_v3_spec, ConductorPhase,
    ConductorSlotView,
    SlotEvidenceStatus, SlotFact,
};
use crate::transition::{plan_view, transition_plan, transition_plan_spec, ConductorTransitionView, TransitionPlan};
use crate::transition::find_intent;
use crate::actions::CorrectablePayloadV2;
use crate::conductor_actions::{event_summary, event_summary_spec};
use crate::instants::{instant_text, representable_instant, utc_instant_text};
use crate::text::{ascii_lowercase, clone_opt, lower_ascii, opt_view, owned, push_str};

verus! {

/// A diagnostic raised while reducing or projecting the event log, naming
/// the event it concerns.
#[derive(Debug, Clone, PartialEq, Eq)]
pub struct ProjectionDiagnostic {
    pub code: String,
    pub message: String,
    pub event_id: String,
}

/// An operator fact still in effect after corrections: the event it came
/// from, the last event that shaped it, and, for a signal confirmation, what
/// checking it against the schedule for its slot reported.
#[derive(Debug, Clone, PartialEq)]
pub struct EffectiveFact<P> {
    pub source_event_id: String,
    pub effective_through_event_id: String,
    pub occurred_at_ms: i64,
    pub slot_id: Option<String>,
    pub payload: P,
    pub signal_findings: Vec<ProjectionDiagnostic>,
}

/// What reducing a session's operator events leaves: the lifecycle they
/// lead to, the effective facts in order, and the diagnostics of the events
/// that were not applied.
#[derive(Debug, Clone, PartialEq)]
pub struct EventReduction<P> {
    pub lifecycle: crate::control_model::SessionLifecycle,
    pub effective: Vec<EffectiveFact<P>>,
    pub diagnostics: Vec<ProjectionDiagnostic>,
}

/// One entry of the conductor's event list; instants are milliseconds since
/// the Unix epoch.
#[derive(Debug, Clone, PartialEq, Eq)]
pub struct ConductorEventView {
    pub source_event_id: String,
    pub effective_through_event_id: String,
    pub occurred_at_ms: i64,
    pub slot_id: Option<String>,
    pub kind: String,
    pub summary: String,
}

/// A diagnostic as the conductor shows it.
#[derive(Debug, Clone, PartialEq, Eq)]
pub struct ConductorDiagnostic {
    pub code: String,
    pub message: String,
    pub slot_id: Option<String>,
    pub event_id: Option<String>,
}

/// The values of an event entry: source, effective-through, instant, slot,
/// kind and summary.
pub type EventModel = (Seq<char>, Seq<char>, i64, Option<Seq<char>>, Seq<char>, Seq<char>);

/// The values of a diagnostic: code, message, slot and event.
pub type DiagnosticModel = (Seq<char>, Seq<char>, Option<Seq<char>>, Option<Seq<char>>);

pub open spec fn event_model(v: ConductorEventView) -> EventModel {
    (v.source_event_id@, v.effective_through_event_id@, v.occurred_at_ms, opt_view(v.slot_id), v.kind@, v.summary@)
}

pub open spec fn event_models(s: Seq<ConductorEventView>) -> Seq<EventModel> {
    s.map_values(|v: ConductorEventView| event_model(v))
}

pub open spec fn diagnostic_model(d: ConductorDiagnostic) -> DiagnosticModel {
    (d.code@, d.message@, opt_view(d.slot_id), opt_view(d.event_id))
}

pub open spec fn diagnostic_models(s: Seq<ConductorDiagnostic>) -> Seq<DiagnosticModel> {
    s.map_values(|d: ConductorDiagnostic| diagnostic_model(d))
}

/// The entry an effective fact of a cycle-intention session shows.
pub open spec fn fact_event_model<Q>(f: EffectiveFact<CorrectablePayload<Q>>) -> EventModel {
    let (kind, summary) = event_summary_v3_spec(f.payload);
    (f.source_event_id@, f.effective_through_event_id@, f.occurred_at_ms, opt_view(f.slot_id), kind, summary)
}

/// Who made an armed cycle ready, as the event list words it.
pub open spec fn readiness_wording(r: Option<ReadinessBasis>) -> Seq<char> {
    match r {
        Some(ReadinessBasis::CommandVerified { .. }) => "Command verification"@,
        _ => "Operator confirmation"@,
    }
}

/// The entry a recorded switch start or armed cycle adds to the list; other
/// events add none.
pub open spec fn recorded_event_model<Q>(e: OperatorEvent<Q>) -> Option<EventModel> {
    match e.payload {
        OperatorEventPayload::AntennaSwitchStarted { note } => Some((
            e.event_id@,
            e.event_id@,
            e.occurred_at_ms,
            opt_view(e.slot_id),
            "antenna_switch_started"@,
            match note {
                Some(n) => n@,
                None => "Antenna switching started; occupancy is unknown."@,
            },
        )),
        OperatorEventPayload::WsprCycleArmed { antenna_label, cycle_starts_at_ms, readiness } => Some((
            e.event_id@,
            e.event_id@,
            e.occurred_at_ms,
            opt_view(e.slot_id),
            "wspr_cycle_armed"@,
            readiness_wording(readiness) + " made "@ + antenna_label@ + " ready; WSPR cycle armed for "@
                + utc_instant_text(cycle_starts_at_ms) + "."@,
        )),
        _ => None,
    }
}

/// The entries the recorded events add, in order.
pub open spec fn recorded_event_models<Q>(events: Seq<OperatorEvent<Q>>) -> Seq<EventModel>
    decreases events.len(),
{
    if events.len() == 0 {
        Seq::empty()
    } else {
        let rest = recorded_event_models(events.drop_last());
        match recorded_event_model(events.last()) {
            Some(m) => rest.push(m),
            None => rest,
        }
    }
}

/// The armed cycles recorded start at instants chrono can hold.
pub open spec fn armed_instants_representable<Q>(events: Seq<OperatorEvent<Q>>) -> bool {
    forall|i: int| 0 <= i < events.len() ==> ((#[trigger] events[i]).payload matches OperatorEventPayload::WsprCycleArmed { cycle_starts_at_ms, .. }
        ==> representable_instant(cycle_starts_at_ms))
}

/// `x` placed after every entry of `sorted` that is not later than it.
pub open spec fn insert_by_time(sorted: Seq<EventModel>, x: EventModel) -> Seq<EventModel>
    decreases sorted.len(),
{
    if sorted.len() == 0 || sorted.last().2 <= x.2 {
        sorted.push(x)
    } else {
        insert_by_time(sorted.drop_last(), x).push(sorted.last())
    }
}

/// The entries ordered by instant, entries at the same instant keeping
/// their order (a stable sort).
pub open spec fn sort_by_time(s: Seq<EventModel>) -> Seq<EventModel>
    decreases s.len(),
{
    if s.len() == 0 {
        s
    } else {
        insert_by_time(sort_by_time(s.drop_last()), s.last())
    }
}

proof fn lemma_insert_at(s: Seq<EventModel>, x: EventModel, pos: int)
    requires
        0 <= pos <= s.len(),
        forall|j: int| pos <= j < s.len() ==> (#[trigger] s[j]).2 > x.2,
        pos == 0 || s[pos - 1].2 <= x.2,
    ensures
        insert_by_time(s, x) == s.insert(pos, x),
    decreases s.len(),
{
    if s.len() == 0 {
        assert(s.insert(pos, x) =~= s.push(x));
    } else if s.last().2 <= x.2 {
        assert(pos == s.len()) by {
            if pos < s.len() {
                assert(s[s.len() - 1].2 > x.2);
            }
        }
        assert(s.insert(pos, x) =~= s.push(x));
    } else {
        let d = s.drop_last();
        assert(pos < s.len()) by {
            if pos == s.len() {
                assert(s[pos - 1] == s.last());
            }
        }
        lemma_insert_at(d, x, pos);
        assert(d.insert(pos, x).push(s.last()) =~= s.insert(pos, x));
    }
}

/// The entries of the event list sorted by instant, stably.
fn sort_events_by_time(v: Vec<ConductorEventView>) -> (r: Vec<ConductorEventView>)
    ensures
        event_models(r@) == sort_by_time(event_models(v@)),
{
    let mut stack = v;
    let mut pending: Vec<ConductorEventView> = Vec::new();
    let ghost original = event_models(stack@);
    while stack.len() > 0
        invariant
            event_models(stack@) + event_models(pending@.reverse()) == original,
        decreases stack.len(),
    {
        let x = stack.pop().unwrap();
        proof {
            assert(event_models(stack@.push(x)) =~= event_models(stack@).push(event_model(x)));
            assert(event_models(pending@.push(x).reverse()) =~= seq![event_model(x)] + event_models(pending@.reverse()));
            assert(event_models(stack@) + (seq![event_model(x)] + event_models(pending@.reverse())) =~= event_models(stack@).push(event_model(x)) + event_models(pending@.reverse()));
        }
        pending.push(x);
    }
    assert(event_models(stack@) =~= Seq::<EventModel>::empty());
    assert(event_models(pending@.reverse()) =~= original);
    let mut out: Vec<ConductorEventView> = Vec::new();
    let ghost n = pending@.len();
    while pending.len() > 0
        invariant
            n == original.len(),
            pending@.len() <= n,
            event_models(pending@.reverse()) == original.skip(n - pending@.len()),
            event_models(out@) == sort_by_time(original.take(n - pending@.len())),
        decreases pending.len(),
    {
        let x = pending.pop().unwrap();
        let ghost done = n - pending@.len() - 1;
        proof {
            assert(event_models(pending@.push(x).reverse()) =~= seq![event_model(x)] + event_models(pending@.reverse()));
            assert(original.skip(done) =~= seq![event_model(x)] + original.skip(done + 1));
            assert(event_models(pending@.reverse()) =~= (seq![event_model(x)] + event_models(pending@.reverse())).drop_first());
            assert(original.skip(done + 1) =~= original.skip(done).drop_first());
            assert(original.take(done + 1).drop_last() =~= original.take(done));
            assert(original.take(done + 1).last() == event_model(x)) by {
                assert(original.skip(done)[0] == original[done]);
            }
        }
        let mut pos = out.len();
        while pos > 0 && out[pos - 1].occurred_at_ms > x.occurred_at_ms
            invariant
                pos <= out@.len(),
                forall|j: int| pos <= j < out@.len() ==> (#[trigger] out@[j]).occurred_at_ms > x.occurred_at_ms,
            decreases pos,
        {
            pos = pos - 1;
        }
        proof {
            let m = event_models(out@);
            assert forall|j: int| pos <= j < m.len() implies (#[trigger] m[j]).2 > event_model(x).2 by {
                assert(m[j] == event_model(out@[j]));
            }
            if pos > 0 {
                assert(m[pos - 1] == event_model(out@[pos - 1]));
            }
            lemma_insert_at(m, event_model(x), pos as int);
        }
        let ghost before = out@;
        out.insert(pos, x);
        proof {
            assert(event_models(out@) =~= event_models(before).insert(pos as int, event_model(x)));
        }
    }
    assert(original.take(n as int) =~= original);
    out
}

pub open spec fn fact_event_models<Q>(facts: Seq<EffectiveFact<CorrectablePayload<Q>>>) -> Seq<EventModel> {
    facts.map_values(|f: EffectiveFact<CorrectablePayload<Q>>| fact_event_model(f))
}

/// The conductor's event list of a cycle-intention session: the effective
/// facts, then the recorded switch starts and armed cycles, ordered stably
/// by instant.
pub open spec fn event_list_v3<Q>(facts: Seq<EffectiveFact<CorrectablePayload<Q>>>, events: Seq<OperatorEvent<Q>>) -> Seq<EventModel> {
    sort_by_time(fact_event_models(facts) + recorded_event_models(events))
}

fn fact_entry<Q>(f: &EffectiveFact<CorrectablePayload<Q>>) -> (r: ConductorEventView)
    ensures
        event_model(r) == fact_event_model(*f),
{
    let (kind, summary) = event_summary_v3(&f.payload);
    ConductorEventView {
        source_event_id: f.source_event_id.clone(),
        effective_through_event_id: f.effective_through_event_id.clone(),
        occurred_at_ms: f.occurred_at_ms,
        slot_id: clone_opt(&f.slot_id),
        kind: owned(kind),
        summary,
    }
}

fn recorded_entry<Q>(e: &OperatorEvent<Q>) -> (r: Option<ConductorEventView>)
    requires
        e.payload matches OperatorEventPayload::WsprCycleArmed { cycle_starts_at_ms, .. } ==> representable_instant(cycle_starts_at_ms),
    ensures
        match r {
            Some(v) => recorded_event_model(*e) == Some(event_model(v)),
            None => recorded_event_model(*e) is None,
        },
{
    proof {
        reveal_strlit("antenna_switch_started");
        reveal_strlit("wspr_cycle_armed");
        reveal_strlit("Command verification");
        reveal_strlit("Operator confirmation");
        reveal_strlit(" made ");
        reveal_strlit(" ready; WSPR cycle armed for ");
        reveal_strlit(".");
    }
    let (kind, summary) = match &e.payload {
        OperatorEventPayload::AntennaSwitchStarted { note } => (
            "antenna_switch_started",
            match note {
                Some(n) => n.clone(),
                None => owned("Antenna switching started; occupancy is unknown."),
            },
        ),
        OperatorEventPayload::WsprCycleArmed { antenna_label, cycle_starts_at_ms, readiness } => {
            let mut text = match readiness {
                Some(ReadinessBasis::CommandVerified { .. }) => owned("Command verification"),
                _ => owned("Operator confirmation"),
            };
            push_str(&mut text, " made ");
            push_str(&mut text, antenna_label.as_str());
            push_str(&mut text, " ready; WSPR cycle armed for ");
            let at = instant_text(*cycle_starts_at_ms);
            push_str(&mut text, at.as_str());
            push_str(&mut text, ".");
            ("wspr_cycle_armed", text)
        },
        _ => return None,
    };
    Some(ConductorEventView {
        source_event_id: e.event_id.clone(),
        effective_through_event_id: e.event_id.clone(),
        occurred_at_ms: e.occurred_at_ms,
        slot_id: clone_opt(&e.slot_id),
        kind: owned(kind),
        summary,
    })
}

/// The conductor's event list of a cycle-intention session.
pub fn event_views_v3<Q>(facts: &Vec<EffectiveFact<CorrectablePayload<Q>>>, events: &Vec<OperatorEvent<Q>>) -> (r: Vec<ConductorEventView>)
    requires
        armed_instants_representable(events@),
    ensures
        event_models(r@) == event_list_v3(facts@, events@),
{
    let mut all: Vec<ConductorEventView> = Vec::new();
    for i in 0..facts.len()
        invariant
            event_models(all@) == fact_event_models(facts@.take(i as int)),
    {
        let v = fact_entry(&facts[i]);
        proof {
            assert(facts@.take(i + 1) =~= facts@.take(i as int).push(facts@[i as int]));
            assert(fact_event_models(facts@.take(i + 1)) =~= fact_event_models(facts@.take(i as int)).push(fact_event_model(facts@[i as int])));
            assert(event_models(all@.push(v)) =~= event_models(all@).push(event_model(v)));
        }
        all.push(v);
    }
    assert(facts@.take(facts@.len() as int) =~= facts@);
    let ghost base = fact_event_models(facts@);
    for i in 0..events.len()
        invariant
            armed_instants_representable(events@),
            base == fact_event_models(facts@),
            event_models(all@) == base + recorded_event_models(events@.take(i as int)),
    {
        let e = &events[i];
        proof {
            assert(events@.take(i + 1).drop_last() =~= events@.take(i as int));
            assert(events@.take(i + 1).last() == events@[i as int]);
            assert(events@[i as int] == *e);
        }
        match recorded_entry(e) {
            Some(v) => {
                proof {
                    assert(event_models(all@.push(v)) =~= event_models(all@).push(event_model(v)));
                    assert(base + recorded_event_models(events@.take(i + 1)) =~= (base + recorded_event_models(events@.take(i as int))).push(event_model(v)));
                }
                all.push(v);
            },
            None => {},
        }
    }
    assert(events@.take(events@.len() as int) =~= events@);
    sort_events_by_time(all)
}

/// The diagnostics of the event reduction and of the run projection, as the
/// conductor shows them: a reduction code is named under `operator_event.`
/// in lower case.
pub open spec fn base_diagnostic_models(reduced: Seq<ProjectionDiagnostic>, projected: Seq<ProjectionDiagnostic>) -> Seq<DiagnosticModel> {
    reduced.map_values(|d: ProjectionDiagnostic| ("operator_event."@ + lower_ascii(d.code@), d.message@, None::<Seq<char>>, Some(d.event_id@)))
        + projected.map_values(|d: ProjectionDiagnostic| (d.code@, d.message@, None::<Seq<char>>, Some(d.event_id@)))
}

fn base_diagnostics(reduced: &Vec<ProjectionDiagnostic>, projected: &Vec<ProjectionDiagnostic>) -> (r: Vec<ConductorDiagnostic>)
    ensures
        diagnostic_models(r@) == base_diagnostic_models(reduced@, projected@),
{
    proof {
        reveal_strlit("operator_event.");
    }
    let mut out: Vec<ConductorDiagnostic> = Vec::new();
    let ghost rm = reduced@.map_values(|d: ProjectionDiagnostic| ("operator_event."@ + lower_ascii(d.code@), d.message@, None::<Seq<char>>, Some(d.event_id@)));
    let ghost pm = projected@.map_values(|d: ProjectionDiagnostic| (d.code@, d.message@, None::<Seq<char>>, Some(d.event_id@)));
    for i in 0..reduced.len()
        invariant
            rm == reduced@.map_values(|d: ProjectionDiagnostic| ("operator_event."@ + lower_ascii(d.code@), d.message@, None::<Seq<char>>, Some(d.event_id@))),
            diagnostic_models(out@) == rm.take(i as int),
    {
        let d = &reduced[i];
        let mut code = owned("operator_event.");
        let lowered = ascii_lowercase(d.code.as_str());
        push_str(&mut code, lowered.as_str());
        let v = ConductorDiagnostic { code, message: d.message.clone(), slot_id: None, event_id: Some(d.event_id.clone()) };
        proof {
            assert(rm.take(i + 1) =~= rm.take(i as int).push(rm[i as int]));
            assert(diagnostic_models(out@.push(v)) =~= diagnostic_models(out@).push(diagnostic_model(v)));
        }
        out.push(v);
    }
    assert(rm.take(reduced@.len() as int) =~= rm);
    for i in 0..projected.len()
        invariant
            pm == projected@.map_values(|d: ProjectionDiagnostic| (d.code@, d.message@, None::<Seq<char>>, Some(d.event_id@))),
            diagnostic_models(out@) == rm + pm.take(i as int),
    {
        let d = &projected[i];
        let v = ConductorDiagnostic { code: d.code.clone(), message: d.message.clone(), slot_id: None, event_id: Some(d.event_id.clone()) };
        proof {
            assert(pm.take(i + 1) =~= pm.take(i as int).push(pm[i as int]));
            assert(diagnostic_models(out@.push(v)) =~= diagnostic_models(out@).push(diagnostic_model(v)));
            assert(rm + pm.take(i + 1) =~= (rm + pm.take(i as int)).push(pm[i as int]));
        }
        out.push(v);
    }
    assert(pm.take(projected@.len() as int) =~= pm);
    out
}

/// What the operator's confirmations say about a slot's transmitted signal.
#[derive(Debug, Clone, Copy, PartialEq, Eq, Structural)]
pub enum SignalEvidenceStatus {
    NotPlanned,
    Missing,
    Confirmed,
    Deviated,
    Conflicting,
}

/// One slot of a schedule: its window, band, planned antenna and, where
/// one is allocated, its controlled signal.
#[derive(Debug, Clone, PartialEq, Eq)]
pub struct ScheduleSlot {
    pub slot_id: String,
    pub sequence_number: u32,
    pub starts_at_ms: i64,
    pub guard_seconds: u32,
    pub duration_seconds: u32,
    pub band: Band,
    pub antenna_label: String,
    pub signal: Option<WsprSignal>,
}

/// A controlled-signal plan; its mode `M` and planned power `W` are carried
/// as recorded.
#[derive(Debug, Clone, PartialEq)]
pub struct SignalPlan<M, W> {
    pub signal_plan_id: String,
    pub mode: M,
    pub planned_power_watts: Option<W>,
    pub transmitted_callsign: String,
    pub message: String,
    pub repetition_count: u16,
    pub key_speed_wpm: Option<u16>,
    pub transmit_seconds: u32,
    pub interval_seconds: u32,
}

/// The signal planned for a slot: its plan at the allocated frequency.
#[derive(Debug, Clone, PartialEq)]
pub struct PlannedSignalView<M, W> {
    pub mode: M,
    pub frequency_hz: u64,
    pub planned_power_watts: Option<W>,
    pub transmitted_callsign: String,
    pub message: String,
    pub repetition_count: u16,
    pub key_speed_wpm: Option<u16>,
    pub transmit_seconds: u32,
    pub interval_seconds: u32,
}

/// A slot as the conductor shows it: its timing and antenna evidence, and
/// the planned and confirmed signal.
#[derive(Debug, Clone, PartialEq)]
pub struct SlotView<Q, M, W> {
    pub timing: ConductorSlotView,
    pub planned_signal: Option<PlannedSignalView<M, W>>,
    pub actual_signal: Option<SignalConfirmation<Q>>,
    pub signal_status: SignalEvidenceStatus,
}

/// The first position from `k` on whose element satisfies `p`.
pub open spec fn first_from<T>(s: Seq<T>, p: spec_fn(T) -> bool, k: int) -> Option<int>
    decreases s.len() - k,
{
    if k < 0 || k >= s.len() {
        None
    } else if p(s[k]) {
        Some(k)
    } else {
        first_from(s, p, k + 1)
    }
}

pub proof fn lemma_first_from_found<T>(s: Seq<T>, p: spec_fn(T) -> bool, k: int, j: int)
    requires
        0 <= k <= j < s.len(),
        p(s[j]),
        forall|m: int| k <= m < j ==> !p(#[trigger] s[m]),
    ensures
        first_from(s, p, k) == Some(j),
    decreases j - k,
{
    if k < j {
        lemma_first_from_found(s, p, k + 1, j);
    }
}

pub proof fn lemma_first_from_none<T>(s: Seq<T>, p: spec_fn(T) -> bool, k: int)
    requires
        0 <= k,
        forall|m: int| k <= m < s.len() ==> !p(#[trigger] s[m]),
    ensures
        first_from(s, p, k) is None,
    decreases s.len() - k,
{
    if k < s.len() {
        lemma_first_from_none(s, p, k + 1);
    }
}

pub open spec fn cycle_for(id: Seq<char>) -> spec_fn(ProjectedCycle) -> bool {
    |c: ProjectedCycle| c.intent_id@ == id
}

pub open spec fn slot_named(id: Seq<char>) -> spec_fn(ScheduleSlot) -> bool {
    |s: ScheduleSlot| s.slot_id@ == id
}

pub open spec fn plan_named<M, W>(id: Seq<char>) -> spec_fn(SignalPlan<M, W>) -> bool {
    |p: SignalPlan<M, W>| p.signal_plan_id@ == id
}

/// The armed cycle of an intention, if the run has armed one.
pub open spec fn armed_cycle(cycles: Seq<ProjectedCycle>, id: Seq<char>) -> Option<ProjectedCycle> {
    match first_from(cycles, cycle_for(id), 0) {
        Some(k) => Some(cycles[k]),
        None => None,
    }
}

/// The intention a slot stands for, if any.
pub open spec fn slot_intent(intents: Seq<WsprCycleIntent>, id: Seq<char>) -> Option<WsprCycleIntent> {
    match find_intent(intents, id) {
        Some(k) => Some(intents[k]),
        None => None,
    }
}

/// The signal allocated to a slot: its intention's, else the recorded
/// slot's.
pub open spec fn slot_allocation(intents: Seq<WsprCycleIntent>, recorded: Seq<ScheduleSlot>, id: Seq<char>) -> Option<WsprSignal> {
    match slot_intent(intents, id) {
        Some(i) if i.signal is Some => i.signal,
        _ => match first_from(recorded, slot_named(id), 0) {
            Some(k) => recorded[k].signal,
            None => None,
        },
    }
}

/// The planned signal a slot shows: the allocation's plan at its frequency.
pub open spec fn planned_signal_ok<M, W>(v: Option<PlannedSignalView<M, W>>, plans: Seq<SignalPlan<M, W>>, alloc: Option<WsprSignal>) -> bool {
    match alloc {
        None => v is None,
        Some(a) => match first_from(plans, plan_named::<M, W>(a.signal_plan_id@), 0) {
            None => v is None,
            Some(k) => v matches Some(x) && {
                let p = plans[k];
                &&& x.mode == p.mode
                &&& x.frequency_hz == a.frequency_hz
                &&& x.planned_power_watts == p.planned_power_watts
                &&& x.transmitted_callsign@ == p.transmitted_callsign@
                &&& x.message@ == p.message@
                &&& x.repetition_count == p.repetition_count
                &&& x.key_speed_wpm == p.key_speed_wpm
                &&& x.transmit_seconds == p.transmit_seconds
                &&& x.interval_seconds == p.interval_seconds
            },
        },
    }
}

/// The effective facts about a slot, in order.
pub open spec fn facts_for<P>(facts: Seq<EffectiveFact<P>>, id: Seq<char>) -> Seq<EffectiveFact<P>>
    decreases facts.len(),
{
    if facts.len() == 0 {
        Seq::empty()
    } else {
        let rest = facts_for(facts.drop_last(), id);
        if facts.last().slot_id matches Some(s) && s@ == id {
            rest.push(facts.last())
        } else {
            rest
        }
    }
}

/// The signal confirmations among facts, in order.
pub open spec fn confirmations<Q>(facts: Seq<EffectiveFact<CorrectablePayload<Q>>>) -> Seq<EffectiveFact<CorrectablePayload<Q>>>
    decreases facts.len(),
{
    if facts.len() == 0 {
        Seq::empty()
    } else {
        let rest = confirmations(facts.drop_last());
        if facts.last().payload is SignalStateConfirmed {
            rest.push(facts.last())
        } else {
            rest
        }
    }
}

/// The kind of fact a payload records about its slot.
pub open spec fn slot_fact_of<Q>(p: CorrectablePayload<Q>) -> SlotFact {
    match p {
        CorrectablePayload::AntennaStateConfirmed { antenna_label, .. } => SlotFact::AntennaStateConfirmed { antenna_label },
        CorrectablePayload::SignalStateConfirmed { .. } => SlotFact::SignalStateConfirmed,
        CorrectablePayload::SlotMissed { .. } => SlotFact::SlotMissed,
        CorrectablePayload::SlotBad { .. } => SlotFact::SlotBad,
        CorrectablePayload::NoteAdded { .. } => SlotFact::NoteAdded,
    }
}

pub open spec fn slot_facts<Q>(facts: Seq<EffectiveFact<CorrectablePayload<Q>>>) -> Seq<SlotFact> {
    facts.map_values(|f: EffectiveFact<CorrectablePayload<Q>>| slot_fact_of(f.payload))
}

/// A slot's antenna evidence: its facts decide, and an armed cycle confirms
/// its antenna where they say nothing.
pub open spec fn slot_evidence_v3<Q>(
    facts: Seq<EffectiveFact<CorrectablePayload<Q>>>,
    cycles: Seq<ProjectedCycle>,
    id: Seq<char>,
) -> (SlotEvidenceStatus, Option<Seq<char>>) {
    let (status, actual) = slot_evidence_spec(slot_facts(facts_for(facts, id)));
    match armed_cycle(cycles, id) {
        Some(c) if status == SlotEvidenceStatus::Unknown => (SlotEvidenceStatus::Confirmed, Some(c.antenna_label@)),
        _ => (status, actual),
    }
}

pub open spec fn conflicting_slot_diagnostic(id: Seq<char>) -> DiagnosticModel {
    (
        "conductor.slot.conflicting_evidence"@,
        "Competing effective operator facts keep this slot conservatively unresolved."@,
        Some(id),
        None,
    )
}

pub open spec fn conflicting_signal_diagnostic(id: Seq<char>) -> DiagnosticModel {
    (
        "conductor.signal.conflicting_evidence"@,
        "Competing signal confirmations keep the actual transmitted state unresolved."@,
        Some(id),
        None,
    )
}

/// What checking a slot's single signal confirmation found, as slot
/// diagnostics.
pub open spec fn finding_models(findings: Seq<ProjectionDiagnostic>, id: Seq<char>) -> Seq<DiagnosticModel> {
    findings.map_values(|d: ProjectionDiagnostic| (d.code@, d.message@, Some(id), None::<Seq<char>>))
}

/// The signal evidence of a slot: no confirmation leaves it missing or
/// unplanned, one is confirmed or deviated by what checking it found, more
/// than one conflict.
pub open spec fn signal_outcome<Q>(
    facts: Seq<EffectiveFact<CorrectablePayload<Q>>>,
    planned: bool,
    id: Seq<char>,
) -> (SignalEvidenceStatus, Option<SignalConfirmation<Q>>, Seq<DiagnosticModel>) {
    let cs = confirmations(facts_for(facts, id));
    if cs.len() == 0 {
        (if planned { SignalEvidenceStatus::Missing } else { SignalEvidenceStatus::NotPlanned }, None, Seq::empty())
    } else if cs.len() == 1 {
        let c = cs[0];
        (
            if c.signal_findings@.len() == 0 { SignalEvidenceStatus::Confirmed } else { SignalEvidenceStatus::Deviated },
            match c.payload {
                CorrectablePayload::SignalStateConfirmed { confirmation } => Some(confirmation),
                _ => None,
            },
            finding_models(c.signal_findings@, id),
        )
    } else {
        (SignalEvidenceStatus::Conflicting, None, seq![conflicting_signal_diagnostic(id)])
    }
}

pub(crate) fn find_cycle(cycles: &Vec<ProjectedCycle>, id: &str) -> (r: Option<usize>)
    ensures
        match r {
            Some(k) => first_from(cycles@, cycle_for(id@), 0) == Some(k as int) && k < cycles@.len(),
            None => first_from(cycles@, cycle_for(id@), 0) is None,
        },
{
    for k in 0..cycles.len()
        invariant
            forall|m: int| 0 <= m < k ==> !cycle_for(id@)(#[trigger] cycles@[m]),
    {
        if crate::text::str_eq(cycles[k].intent_id.as_str(), id) {
            proof {
                lemma_first_from_found(cycles@, cycle_for(id@), 0, k as int);
            }
            return Some(k);
        }
    }
    proof {
        lemma_first_from_none(cycles@, cycle_for(id@), 0);
    }
    None
}

fn find_recorded_slot(slots: &Vec<ScheduleSlot>, id: &str) -> (r: Option<usize>)
    ensures
        match r {
            Some(k) => first_from(slots@, slot_named(id@), 0) == Some(k as int) && k < slots@.len(),
            None => first_from(slots@, slot_named(id@), 0) is None,
        },
{
    for k in 0..slots.len()
        invariant
            forall|m: int| 0 <= m < k ==> !slot_named(id@)(#[trigger] slots@[m]),
    {
        if crate::text::str_eq(slots[k].slot_id.as_str(), id) {
            proof {
                lemma_first_from_found(slots@, slot_named(id@), 0, k as int);
            }
            return Some(k);
        }
    }
    proof {
        lemma_first_from_none(slots@, slot_named(id@), 0);
    }
    None
}

fn find_plan<M, W>(plans: &Vec<SignalPlan<M, W>>, id: &str) -> (r: Option<usize>)
    ensures
        match r {
            Some(k) => first_from(plans@, plan_named::<M, W>(id@), 0) == Some(k as int) && k < plans@.len(),
            None => first_from(plans@, plan_named::<M, W>(id@), 0) is None,
        },
{
    for k in 0..plans.len()
        invariant
            forall|m: int| 0 <= m < k ==> !plan_named::<M, W>(id@)(#[trigger] plans@[m]),
    {
        if crate::text::str_eq(plans[k].signal_plan_id.as_str(), id) {
            proof {
                lemma_first_from_found(plans@, plan_named::<M, W>(id@), 0, k as int);
            }
            return Some(k);
        }
    }
    proof {
        lemma_first_from_none(plans@, plan_named::<M, W>(id@), 0);
    }
    None
}

fn allocation_for(intents: &Vec<WsprCycleIntent>, recorded: &Vec<ScheduleSlot>, id: &str) -> (r: Option<WsprSignal>)
    ensures
        r == slot_allocation(intents@, recorded@, id@),
{
    if let Some(k) = crate::transition::find_intent_index(intents, id) {
        if intents[k].signal.is_some() {
            return crate::control_model::copy_signal(&intents[k].signal);
        }
    }
    match find_recorded_slot(recorded, id) {
        Some(k) => crate::control_model::copy_signal(&recorded[k].signal),
        None => None,
    }
}

fn planned_signal_for<M: Copy, W: Copy>(plans: &Vec<SignalPlan<M, W>>, alloc: &Option<WsprSignal>) -> (r: Option<PlannedSignalView<M, W>>)
    ensures
        planned_signal_ok(r, plans@, *alloc),
{
    let a = match alloc {
        Some(a) => a,
        None => return None,
    };
    match find_plan(plans, a.signal_plan_id.as_str()) {
        Some(k) => {
            let p = &plans[k];
            Some(PlannedSignalView {
                mode: p.mode,
                frequency_hz: a.frequency_hz,
                planned_power_watts: p.planned_power_watts,
                transmitted_callsign: p.transmitted_callsign.clone(),
                message: p.message.clone(),
                repetition_count: p.repetition_count,
                key_speed_wpm: p.key_speed_wpm,
                transmit_seconds: p.transmit_seconds,
                interval_seconds: p.interval_seconds,
            })
        },
        None => None,
    }
}

fn slot_fact<Q>(p: &CorrectablePayload<Q>) -> (r: SlotFact)
    ensures
        r == slot_fact_of(*p),
{
    match p {
        CorrectablePayload::AntennaStateConfirmed { antenna_label, .. } => SlotFact::AntennaStateConfirmed { antenna_label: antenna_label.clone() },
        CorrectablePayload::SignalStateConfirmed { .. } => SlotFact::SignalStateConfirmed,
        CorrectablePayload::SlotMissed { .. } => SlotFact::SlotMissed,
        CorrectablePayload::SlotBad { .. } => SlotFact::SlotBad,
        CorrectablePayload::NoteAdded { .. } => SlotFact::NoteAdded,
    }
}

fn copy_confirmation<Q: Copy>(c: &SignalConfirmation<Q>) -> (r: SignalConfirmation<Q>)
    ensures
        r == *c,
{
    SignalConfirmation {
        frequency_hz: c.frequency_hz,
        measured: c.measured,
        transmitted_callsign: clone_opt(&c.transmitted_callsign),
        cadence_followed: c.cadence_followed,
        note: clone_opt(&c.note),
    }
}

/// The facts about a slot as fact kinds, with how many signal confirmations
/// they hold and the position of the first among all facts.
fn gather_slot_facts<Q>(facts: &Vec<EffectiveFact<CorrectablePayload<Q>>>, id: &str) -> (r: (Vec<SlotFact>, usize, Option<usize>))
    ensures
        r.0@ == slot_facts(facts_for(facts@, id@)),
        r.1 == confirmations(facts_for(facts@, id@)).len(),
        r.1 > 0 ==> (r.2 matches Some(k) && k < facts@.len() && facts@[k as int] == confirmations(facts_for(facts@, id@))[0]),
{
    let mut kinds: Vec<SlotFact> = Vec::new();
    let mut count: usize = 0;
    let mut first: Option<usize> = None;
    for i in 0..facts.len()
        invariant
            kinds@ == slot_facts(facts_for(facts@.take(i as int), id@)),
            count == confirmations(facts_for(facts@.take(i as int), id@)).len(),
            count <= i,
            count > 0 ==> (first matches Some(k) && k < i && facts@[k as int] == confirmations(facts_for(facts@.take(i as int), id@))[0]),
    {
        let f = &facts[i];
        let ghost before = facts_for(facts@.take(i as int), id@);
        proof {
            assert(facts@.take(i + 1).drop_last() =~= facts@.take(i as int));
            assert(facts@.take(i + 1).last() == facts@[i as int]);
        }
        let matches = match &f.slot_id {
            Some(s) => crate::text::str_eq(s.as_str(), id),
            None => false,
        };
        if matches {
            let k = slot_fact(&f.payload);
            proof {
                assert(facts_for(facts@.take(i + 1), id@) == before.push(*f));
                assert(slot_facts(before.push(*f)) =~= slot_facts(before).push(k));
                assert(before.push(*f).drop_last() =~= before);
            }
            kinds.push(k);
            let is_confirmation = match &f.payload {
                CorrectablePayload::SignalStateConfirmed { .. } => true,
                _ => false,
            };
            if is_confirmation {
                proof {
                    assert(confirmations(before.push(*f)) == confirmations(before).push(*f));
                    if count > 0 {
                        assert(confirmations(before).push(*f)[0] == confirmations(before)[0]);
                    }
                }
                if count == 0 {
                    first = Some(i);
                }
                count = count + 1;
            } else {
                proof {
                    assert(confirmations(before.push(*f)) == confirmations(before));
                }
            }
        } else {
            proof {
                assert(facts_for(facts@.take(i + 1), id@) == before);
            }
        }
    }
    assert(facts@.take(facts@.len() as int) =~= facts@);
    (kinds, count, first)
}

/// The timing and antenna evidence a slot shows: an armed cycle's window
/// replaces the scheduled one, and the intention's antenna and direction
/// replace the slot's.
pub open spec fn timing_slot_ok(
    t: ConductorSlotView,
    slot: ScheduleSlot,
    intent: Option<WsprCycleIntent>,
    cycle: Option<ProjectedCycle>,
    evidence: (SlotEvidenceStatus, Option<Seq<char>>),
) -> bool {
    &&& t.slot_id@ == slot.slot_id@
    &&& t.sequence_number == slot.sequence_number
    &&& t.starts_at_ms == (match cycle {
        Some(c) => c.starts_at_ms,
        None => slot.starts_at_ms,
    })
    &&& t.usable_at_ms == (match cycle {
        Some(c) => c.starts_at_ms as int,
        None => slot.starts_at_ms + slot.guard_seconds * 1000,
    })
    &&& t.ends_at_ms == (match cycle {
        Some(c) => c.transmission_ends_at_ms as int,
        None => slot.starts_at_ms + slot.duration_seconds * 1000,
    })
    &&& t.band@ == band_name(slot.band)
    &&& t.planned_antenna@ == (match intent {
        Some(i) => i.antenna_label@,
        None => slot.antenna_label@,
    })
    &&& t.direction == (match intent {
        Some(i) => i.direction,
        None => None,
    })
    &&& t.evidence_status == evidence.0
    &&& opt_view(t.actual_antenna) == evidence.1
}

/// The diagnostics a slot raises: conflicting antenna evidence, then what
/// its signal evidence found.
pub open spec fn slot_diagnostics<Q>(
    facts: Seq<EffectiveFact<CorrectablePayload<Q>>>,
    intents: Seq<WsprCycleIntent>,
    cycles: Seq<ProjectedCycle>,
    recorded: Seq<ScheduleSlot>,
    slot: ScheduleSlot,
) -> Seq<DiagnosticModel> {
    let id = slot.slot_id@;
    (if slot_evidence_v3(facts, cycles, id).0 == SlotEvidenceStatus::Conflicting {
        seq![conflicting_slot_diagnostic(id)]
    } else {
        Seq::empty()
    }) + signal_outcome(facts, slot_allocation(intents, recorded, id) is Some, id).2
}

/// A slot view shows the slot as its facts, intention, armed cycle and
/// signal plan make it.
pub open spec fn slot_view_ok<Q, M, W>(
    v: SlotView<Q, M, W>,
    facts: Seq<EffectiveFact<CorrectablePayload<Q>>>,
    intents: Seq<WsprCycleIntent>,
    cycles: Seq<ProjectedCycle>,
    recorded: Seq<ScheduleSlot>,
    plans: Seq<SignalPlan<M, W>>,
    slot: ScheduleSlot,
) -> bool {
    let id = slot.slot_id@;
    let alloc = slot_allocation(intents, recorded, id);
    let signal = signal_outcome(facts, alloc is Some, id);
    &&& timing_slot_ok(v.timing, slot, slot_intent(intents, id), armed_cycle(cycles, id), slot_evidence_v3(facts, cycles, id))
    &&& planned_signal_ok(v.planned_signal, plans, alloc)
    &&& v.actual_signal == signal.1
    &&& v.signal_status == signal.0
}

proof fn lemma_confirmations_confirm<Q>(facts: Seq<EffectiveFact<CorrectablePayload<Q>>>)
    ensures
        forall|j: int| 0 <= j < confirmations(facts).len() ==> (#[trigger] confirmations(facts)[j]).payload is SignalStateConfirmed,
    decreases facts.len(),
{
    if facts.len() > 0 {
        lemma_confirmations_confirm(facts.drop_last());
    }
}

fn slot_diagnostic(code: &str, message: &str, id: &str) -> (r: ConductorDiagnostic)
    ensures
        diagnostic_model(r) == (code@, message@, Some(id@), None::<Seq<char>>),
{
    ConductorDiagnostic { code: owned(code), message: owned(message), slot_id: Some(owned(id)), event_id: None }
}

/// One slot of the conductor, with the diagnostics it raises.
fn build_slot<Q: Copy, M: Copy, W: Copy>(
    facts: &Vec<EffectiveFact<CorrectablePayload<Q>>>,
    intents: &Vec<WsprCycleIntent>,
    cycles: &Vec<ProjectedCycle>,
    recorded: &Vec<ScheduleSlot>,
    plans: &Vec<SignalPlan<M, W>>,
    slot: &ScheduleSlot,
) -> (r: (SlotView<Q, M, W>, Vec<ConductorDiagnostic>))
    requires
        representable_instant(slot.starts_at_ms),
    ensures
        slot_view_ok(r.0, facts@, intents@, cycles@, recorded@, plans@, *slot),
        diagnostic_models(r.1@) == slot_diagnostics(facts@, intents@, cycles@, recorded@, *slot),
{
    let id = slot.slot_id.as_str();
    let ghost gid = slot.slot_id@;
    proof {
        crate::transition::lemma_find_intent(intents@, gid);
        reveal_strlit("conductor.slot.conflicting_evidence");
        reveal_strlit("Competing effective operator facts keep this slot conservatively unresolved.");
        reveal_strlit("conductor.signal.conflicting_evidence");
        reveal_strlit("Competing signal confirmations keep the actual transmitted state unresolved.");
    }
    let intent_k = crate::transition::find_intent_index(intents, id);
    let cycle_k = find_cycle(cycles, id);
    let (kinds, count, first) = gather_slot_facts(facts, id);
    let (mut status, mut actual_antenna) = slot_evidence(&kinds);
    if status == SlotEvidenceStatus::Unknown {
        if let Some(k) = cycle_k {
            status = SlotEvidenceStatus::Confirmed;
            actual_antenna = Some(cycles[k].antenna_label.clone());
        }
    }
    let mut diags: Vec<ConductorDiagnostic> = Vec::new();
    if status == SlotEvidenceStatus::Conflicting {
        diags.push(slot_diagnostic(
            "conductor.slot.conflicting_evidence",
            "Competing effective operator facts keep this slot conservatively unresolved.",
            id,
        ));
    }
    let ghost evidence_diags = diagnostic_models(diags@);
    let alloc = allocation_for(intents, recorded, id);
    let planned_signal = planned_signal_for(plans, &alloc);
    let ghost cs = confirmations(facts_for(facts@, gid));
    proof {
        lemma_confirmations_confirm(facts_for(facts@, gid));
    }
    let (actual_signal, signal_status) = if count == 0 {
        (None, if alloc.is_some() { SignalEvidenceStatus::Missing } else { SignalEvidenceStatus::NotPlanned })
    } else if count == 1 {
        let k = first.unwrap();
        let f = &facts[k];
        assert(cs[0].payload is SignalStateConfirmed);
        let confirmation = match &f.payload {
            CorrectablePayload::SignalStateConfirmed { confirmation } => copy_confirmation(confirmation),
            _ => {
                proof {
                    assert(false);
                }
                return (SlotView { timing: ConductorSlotView {
                    slot_id: owned(id),
                    sequence_number: 0,
                    starts_at_ms: 0,
                    usable_at_ms: 0,
                    ends_at_ms: 0,
                    band: String::new(),
                    planned_antenna: String::new(),
                    direction: None,
                    actual_antenna: None,
                    evidence_status: status,
                }, planned_signal, actual_signal: None, signal_status: SignalEvidenceStatus::NotPlanned }, diags);
            },
        };
        let ghost fm = finding_models(f.signal_findings@, gid);
        for j in 0..f.signal_findings.len()
            invariant
                fm == finding_models(f.signal_findings@, gid),
                id@ == gid,
                diagnostic_models(diags@) == evidence_diags + fm.take(j as int),
        {
            let d = &f.signal_findings[j];
            let v = ConductorDiagnostic { code: d.code.clone(), message: d.message.clone(), slot_id: Some(owned(id)), event_id: None };
            proof {
                assert(diagnostic_model(v) == fm[j as int]);
                assert(fm.take(j + 1) =~= fm.take(j as int).push(fm[j as int]));
                assert(diagnostic_models(diags@.push(v)) =~= diagnostic_models(diags@).push(diagnostic_model(v)));
                assert(evidence_diags + fm.take(j + 1) =~= (evidence_diags + fm.take(j as int)).push(fm[j as int]));
            }
            diags.push(v);
        }
        assert(fm.take(f.signal_findings@.len() as int) =~= fm);
        let st = if f.signal_findings.len() == 0 { SignalEvidenceStatus::Confirmed } else { SignalEvidenceStatus::Deviated };
        (Some(confirmation), st)
    } else {
        let v = slot_diagnostic(
            "conductor.signal.conflicting_evidence",
            "Competing signal confirmations keep the actual transmitted state unresolved.",
            id,
        );
        proof {
            assert(diagnostic_models(diags@.push(v)) =~= diagnostic_models(diags@).push(diagnostic_model(v)));
        }
        diags.push(v);
        (None, SignalEvidenceStatus::Conflicting)
    };
    let (starts_at_ms, usable_at_ms, ends_at_ms) = match cycle_k {
        Some(k) => (cycles[k].starts_at_ms, cycles[k].starts_at_ms, cycles[k].transmission_ends_at_ms),
        None => (
            slot.starts_at_ms,
            slot.starts_at_ms + (slot.guard_seconds as i64) * 1000,
            slot.starts_at_ms + (slot.duration_seconds as i64) * 1000,
        ),
    };
    let (planned_antenna, direction) = match intent_k {
        Some(k) => (intents[k].antenna_label.clone(), intents[k].direction),
        None => (slot.antenna_label.clone(), None),
    };
    let timing = ConductorSlotView {
        slot_id: owned(id),
        sequence_number: slot.sequence_number,
        starts_at_ms,
        usable_at_ms,
        ends_at_ms,
        band: band_text(slot.band),
        planned_antenna,
        direction,
        actual_antenna,
        evidence_status: status,
    };
    proof {
        if count == 0 {
            assert(evidence_diags + Seq::<DiagnosticModel>::empty() =~= evidence_diags);
        } else if count > 1 {
            assert(evidence_diags.push(conflicting_signal_diagnostic(gid)) =~= evidence_diags + seq![conflicting_signal_diagnostic(gid)]);
        }
    }
    (SlotView { timing, planned_signal, actual_signal, signal_status }, diags)
}

/// How checkpoint recovery left a session.
#[derive(Debug, Clone, Copy, PartialEq, Eq, Structural)]
pub enum RecoveryDisposition {
    Clean,
    RolledForward,
    RolledBack,
    IdempotentTailRemoved,
}

/// What checkpoint recovery reported: how it ended, the revisions before
/// and after, how many artifacts it handled, and whether it recorded an
/// interruption.
#[derive(Debug, Clone, Copy, PartialEq, Eq, Structural)]
pub struct RecoveryReport {
    pub disposition: RecoveryDisposition,
    pub starting_revision: u64,
    pub final_revision: u64,
    pub artifact_count: usize,
    pub interruption_recorded: bool,
}

/// A recovery as the conductor shows it.
#[derive(Debug, Clone, PartialEq, Eq)]
pub struct ConductorRecoveryView {
    pub disposition: String,
    pub starting_revision: u64,
    pub final_revision: u64,
    pub artifact_count: usize,
    pub interruption_recorded: bool,
}

/// The machine name of a recovery disposition.
pub open spec fn disposition_name(d: RecoveryDisposition) -> Seq<char> {
    match d {
        RecoveryDisposition::Clean => "clean"@,
        RecoveryDisposition::RolledForward => "rolled_forward"@,
        RecoveryDisposition::RolledBack => "rolled_back"@,
        RecoveryDisposition::IdempotentTailRemoved => "idempotent_tail_removed"@,
    }
}

/// A recovery view shows the report: its disposition by name, its
/// revisions, artifact count and whether it recorded an interruption.
pub open spec fn recovery_view_ok(r: ConductorRecoveryView, report: RecoveryReport) -> bool {
    &&& r.disposition@ == disposition_name(report.disposition)
    &&& r.starting_revision == report.starting_revision
    &&& r.final_revision == report.final_revision
    &&& r.artifact_count == report.artifact_count
    &&& r.interruption_recorded == report.interruption_recorded
}

/// The conductor's view of a recovery report.
pub fn recovery_view(report: &RecoveryReport) -> (r: ConductorRecoveryView)
    ensures
        recovery_view_ok(r, *report),
{
    proof {
        reveal_strlit("clean");
        reveal_strlit("rolled_forward");
        reveal_strlit("rolled_back");
        reveal_strlit("idempotent_tail_removed");
    }
    ConductorRecoveryView {
        disposition: owned(match report.disposition {
            RecoveryDisposition::Clean => "clean",
            RecoveryDisposition::RolledForward => "rolled_forward",
            RecoveryDisposition::RolledBack => "rolled_back",
            RecoveryDisposition::IdempotentTailRemoved => "idempotent_tail_removed",
        }),
        starting_revision: report.starting_revision,
        final_revision: report.final_revision,
        artifact_count: report.artifact_count,
        interruption_recorded: report.interruption_recorded,
    }
}

/// The next intention as the conductor shows it, with the transition it
/// needs.
#[derive(Debug, Clone, PartialEq, Eq)]
pub struct ConductorIntentView {
    pub intent_id: String,
    pub sequence_number: u64,
    pub band: String,
    pub antenna_label: String,
    pub direction: Option<WsprCycleDirection>,
    pub transition: ConductorTransitionView,
    pub operator_action_required: bool,
}

/// The conductor's read model of a session at an instant.
#[derive(Debug, Clone, PartialEq)]
pub struct ConductorView<Q, M, W> {
    pub bundle_name: String,
    pub session_id: String,
    pub revision: u64,
    pub lifecycle: SessionLifecycle,
    pub now_ms: i64,
    pub action_token: String,
    pub phase: ConductorPhase,
    pub guidance: String,
    pub wsjtx_required: bool,
    pub seconds_to_transition: Option<i64>,
    pub antennas: Vec<String>,
    pub current_slot: Option<SlotView<Q, M, W>>,
    pub next_slot: Option<SlotView<Q, M, W>>,
    pub next_intent: Option<ConductorIntentView>,
    pub antenna_in_use: Option<String>,
    pub slots: Vec<SlotView<Q, M, W>>,
    pub effective_events: Vec<ConductorEventView>,
    pub diagnostics: Vec<ConductorDiagnostic>,
    pub recovery: Option<ConductorRecoveryView>,
}

/// What the conductor reads of a session planned as WSPR cycle intentions:
/// its committed state and projection, its antennas, the recorded and the
/// current schedule's slots, its signal plans, its operator events and what
/// reducing them left, and the run projection's diagnostics.
#[derive(Debug, Clone, PartialEq)]
pub struct CycleRunSources<Q, M, W> {
    pub session: ControlSession,
    pub wspr_live_acquisition_enabled: bool,
    pub antennas: Vec<String>,
    pub recorded_slots: Vec<ScheduleSlot>,
    pub projected_slots: Vec<ScheduleSlot>,
    pub signal_plans: Vec<SignalPlan<M, W>>,
    pub events: Vec<OperatorEvent<Q>>,
    pub reduction: EventReduction<CorrectablePayload<Q>>,
    pub run_diagnostics: Vec<ProjectionDiagnostic>,
}

/// Whether the operator is switching antennas: the last recorded switch
/// start or armed cycle is a switch start.
pub open spec fn switching_from<Q>(events: Seq<OperatorEvent<Q>>) -> bool
    decreases events.len(),
{
    if events.len() == 0 {
        false
    } else {
        match events.last().payload {
            OperatorEventPayload::AntennaSwitchStarted { .. } => true,
            OperatorEventPayload::WsprCycleArmed { .. } => false,
            _ => switching_from(events.drop_last()),
        }
    }
}

/// The antenna of the last occupancy that has not ended.
pub open spec fn open_occupancy(occupancies: Seq<AntennaOccupancy>) -> Option<Seq<char>>
    decreases occupancies.len(),
{
    if occupancies.len() == 0 {
        None
    } else if occupancies.last().ends_at_ms is None {
        Some(occupancies.last().antenna_label@)
    } else {
        open_occupancy(occupancies.drop_last())
    }
}

/// The slots' diagnostics, slot by slot.
pub open spec fn all_slot_diagnostics<Q>(
    facts: Seq<EffectiveFact<CorrectablePayload<Q>>>,
    intents: Seq<WsprCycleIntent>,
    cycles: Seq<ProjectedCycle>,
    recorded: Seq<ScheduleSlot>,
    slots: Seq<ScheduleSlot>,
) -> Seq<DiagnosticModel>
    decreases slots.len(),
{
    if slots.len() == 0 {
        Seq::empty()
    } else {
        all_slot_diagnostics(facts, intents, cycles, recorded, slots.drop_last()) + slot_diagnostics(facts, intents, cycles, recorded, slots.last())
    }
}

pub open spec fn timing_views<Q, M, W>(s: Seq<SlotView<Q, M, W>>) -> Seq<ConductorSlotView> {
    s.map_values(|v: SlotView<Q, M, W>| v.timing)
}

/// The slots' windows start at instants chrono can hold.
pub open spec fn slot_instants_representable(slots: Seq<ScheduleSlot>) -> bool {
    forall|i: int| 0 <= i < slots.len() ==> representable_instant((#[trigger] slots[i]).starts_at_ms)
}

/// The next intention as the conductor shows it under its transition plan.
pub open spec fn intent_view_ok(v: Option<ConductorIntentView>, next: Option<WsprCycleIntent>, plan: crate::transition::PlanSpec) -> bool {
    match next {
        None => v is None,
        Some(i) => v matches Some(x) && {
            &&& x.intent_id@ == i.intent_id@
            &&& x.sequence_number == i.sequence_number
            &&& x.band@ == band_name(i.band)
            &&& x.antenna_label@ == i.antenna_label@
            &&& x.direction == i.direction
            &&& x.transition == plan.view
            &&& x.operator_action_required == plan.operator_action_required
        },
    }
}

fn copy_timing(t: &ConductorSlotView) -> (r: ConductorSlotView)
    ensures
        r == *t,
{
    ConductorSlotView {
        slot_id: t.slot_id.clone(),
        sequence_number: t.sequence_number,
        starts_at_ms: t.starts_at_ms,
        usable_at_ms: t.usable_at_ms,
        ends_at_ms: t.ends_at_ms,
        band: t.band.clone(),
        planned_antenna: t.planned_antenna.clone(),
        direction: t.direction,
        actual_antenna: clone_opt(&t.actual_antenna),
        evidence_status: t.evidence_status,
    }
}

fn copy_slot_view<Q: Copy, M: Copy, W: Copy>(v: &SlotView<Q, M, W>) -> (r: SlotView<Q, M, W>)
    ensures
        r == *v,
{
    SlotView {
        timing: copy_timing(&v.timing),
        planned_signal: match &v.planned_signal {
            Some(p) => Some(PlannedSignalView {
                mode: p.mode,
                frequency_hz: p.frequency_hz,
                planned_power_watts: p.planned_power_watts,
                transmitted_callsign: p.transmitted_callsign.clone(),
                message: p.message.clone(),
                repetition_count: p.repetition_count,
                key_speed_wpm: p.key_speed_wpm,
                transmit_seconds: p.transmit_seconds,
                interval_seconds: p.interval_seconds,
            }),
            None => None,
        },
        actual_signal: match &v.actual_signal {
            Some(c) => Some(copy_confirmation(c)),
            None => None,
        },
        signal_status: v.signal_status,
    }
}

fn is_switching<Q>(events: &Vec<OperatorEvent<Q>>) -> (r: bool)
    ensures
        r == switching_from(events@),
{
    let mut k = events.len();
    assert(events@.take(k as int) =~= events@);
    while k > 0
        invariant
            k <= events@.len(),
            switching_from(events@) == switching_from(events@.take(k as int)),
        decreases k,
    {
        proof {
            assert(events@.take(k as int).drop_last() =~= events@.take(k - 1));
            assert(events@.take(k as int).last() == events@[k - 1]);
        }
        match &events[k - 1].payload {
            OperatorEventPayload::AntennaSwitchStarted { .. } => return true,
            OperatorEventPayload::WsprCycleArmed { .. } => return false,
            _ => {},
        }
        k = k - 1;
    }
    proof {
        assert(events@.take(events@.len() as int) =~= events@);
    }
    false
}

fn antenna_in_use(occupancies: &Vec<AntennaOccupancy>) -> (r: Option<String>)
    ensures
        opt_view(r) == open_occupancy(occupancies@),
{
    let mut k = occupancies.len();
    assert(occupancies@.take(k as int) =~= occupancies@);
    while k > 0
        invariant
            k <= occupancies@.len(),
            open_occupancy(occupancies@) == open_occupancy(occupancies@.take(k as int)),
        decreases k,
    {
        proof {
            assert(occupancies@.take(k as int).drop_last() =~= occupancies@.take(k - 1));
            assert(occupancies@.take(k as int).last() == occupancies@[k - 1]);
        }
        if occupancies[k - 1].ends_at_ms.is_none() {
            return Some(occupancies[k - 1].antenna_label.clone());
        }
        k = k - 1;
    }
    None
}

/// The conductor's read model of a cycle-intention session at `now_ms`,
/// issued with `action_token`: its slots with their evidence and signals,
/// the effective events, the diagnostics, the next intention with its
/// transition, and the phase and guidance that follow.
pub open spec fn view_v3_ok<Q, M, W>(
    r: ConductorView<Q, M, W>,
    bundle_name: Seq<char>,
    sources: CycleRunSources<Q, M, W>,
    now_ms: i64,
    action_token: Seq<char>,
    recovery: Option<ConductorRecoveryView>,
) -> bool {
    let session = sources.session;
    let facts = sources.reduction.effective@;
    let next = crate::automation::next_intent_spec(session);
    &&& r.bundle_name@ == bundle_name
    &&& r.session_id@ == session.session_id@
    &&& r.revision == session.revision
    &&& r.lifecycle == sources.reduction.lifecycle
    &&& r.now_ms == now_ms
    &&& r.action_token@ == action_token
    &&& r.recovery == recovery
    &&& r.antennas@ == sources.antennas@
    &&& r.wsjtx_required == crate::conductor_state::requires_wsjtx_receiver_spec(
        session.schema_version,
        sources.wspr_live_acquisition_enabled,
        sources.signal_plans@.len() as usize,
        session.mode,
    )
    &&& r.slots@.len() == sources.projected_slots@.len()
    &&& forall|k: int| 0 <= k < r.slots@.len() ==> slot_view_ok(
        #[trigger] r.slots@[k],
        facts,
        session.intents@,
        session.projection.cycles@,
        sources.recorded_slots@,
        sources.signal_plans@,
        sources.projected_slots@[k],
    )
    &&& event_models(r.effective_events@) == event_list_v3(facts, sources.events@)
    &&& diagnostic_models(r.diagnostics@) == base_diagnostic_models(sources.reduction.diagnostics@, sources.run_diagnostics@)
        + all_slot_diagnostics(facts, session.intents@, session.projection.cycles@, sources.recorded_slots@, sources.projected_slots@)
    &&& intent_view_ok(r.next_intent, next, transition_plan_spec(session, next))
    &&& opt_view(r.antenna_in_use) == open_occupancy(session.projection.occupancies@)
    &&& exists|p: TransitionPlan| #![trigger plan_view(p)] {
        let t = timing_v3_spec(
            sources.reduction.lifecycle,
            sources.wspr_live_acquisition_enabled,
            timing_views(r.slots@),
            next,
            p,
            switching_from(sources.events@),
            now_ms,
        );
        &&& plan_view(p) == transition_plan_spec(session, next)
        &&& r.phase == t.0
        &&& r.guidance@ == t.1
        &&& r.seconds_to_transition == t.2
        &&& r.current_slot == (match t.3 {
            Some(i) => Some(r.slots@[i as int]),
            None => None,
        })
        &&& r.next_slot == (match t.4 {
            Some(i) => Some(r.slots@[i as int]),
            None => None,
        })
    }
}

/// The cycle-intention sources hold only instants chrono can hold.
pub open spec fn cycle_sources_ok<Q, M, W>(sources: CycleRunSources<Q, M, W>) -> bool {
    &&& armed_instants_representable(sources.events@)
    &&& slot_instants_representable(sources.projected_slots@)
}

/// Builds the conductor's read model of a session planned as WSPR cycle
/// intentions at `now_ms`.
pub fn build_view_v3<Q: Copy, M: Copy, W: Copy>(
    bundle_name: String,
    sources: &CycleRunSources<Q, M, W>,
    now_ms: i64,
    action_token: String,
    recovery: Option<ConductorRecoveryView>,
) -> (r: ConductorView<Q, M, W>)
    requires
        cycle_sources_ok(*sources),
    ensures
        view_v3_ok(r, bundle_name@, *sources, now_ms, action_token@, recovery),
{
    let session = &sources.session;
    let facts = &sources.reduction.effective;
    let effective_events = event_views_v3(facts, &sources.events);
    let mut diagnostics = base_diagnostics(&sources.reduction.diagnostics, &sources.run_diagnostics);
    let ghost base = diagnostic_models(diagnostics@);
    let mut slots: Vec<SlotView<Q, M, W>> = Vec::new();
    let mut timings: Vec<ConductorSlotView> = Vec::new();
    let projected = &sources.projected_slots;
    for k in 0..projected.len()
        invariant
            slot_instants_representable(projected@),
            slots@.len() == k,
            timings@ == timing_views(slots@),
            forall|j: int| 0 <= j < k ==> slot_view_ok(
                #[trigger] slots@[j],
                facts@,
                session.intents@,
                session.projection.cycles@,
                sources.recorded_slots@,
                sources.signal_plans@,
                projected@[j],
            ),
            diagnostic_models(diagnostics@) == base + all_slot_diagnostics(
                facts@,
                session.intents@,
                session.projection.cycles@,
                sources.recorded_slots@,
                projected@.take(k as int),
            ),
    {
        assert(representable_instant(projected@[k as int].starts_at_ms));
        let (view, found) = build_slot(facts, &session.intents, &session.projection.cycles, &sources.recorded_slots, &sources.signal_plans, &projected[k]);
        let ghost before = diagnostics@;
        let ghost found_m = found@;
        let mut found = found;
        diagnostics.append(&mut found);
        proof {
            assert(projected@.take(k + 1).drop_last() =~= projected@.take(k as int));
            assert(projected@.take(k + 1).last() == projected@[k as int]);
            assert(diagnostic_models(diagnostics@) =~= diagnostic_models(before) + diagnostic_models(found_m));
        }
        timings.push(copy_timing(&view.timing));
        slots.push(view);
        proof {
            assert(timing_views(slots@) =~= timings@);
        }
    }
    assert(projected@.take(projected@.len() as int) =~= projected@);
    let next = crate::automation::next_intent_of(session);
    let plan = match &next {
        Some(i) => transition_plan(session, Some(i)),
        None => transition_plan(session, None),
    };
    let switching = is_switching(&sources.events);
    let timing = match &next {
        Some(i) => timing_projection_v3(sources.reduction.lifecycle, sources.wspr_live_acquisition_enabled, &timings, Some(i), &plan, switching, now_ms),
        None => timing_projection_v3(sources.reduction.lifecycle, sources.wspr_live_acquisition_enabled, &timings, None, &plan, switching, now_ms),
    };
    let current_slot = match timing.current_index {
        Some(i) => Some(copy_slot_view(&slots[i])),
        None => None,
    };
    let next_slot = match timing.next_index {
        Some(i) => Some(copy_slot_view(&slots[i])),
        None => None,
    };
    let next_intent = match &next {
        Some(i) => Some(ConductorIntentView {
            intent_id: i.intent_id.clone(),
            sequence_number: i.sequence_number,
            band: band_text(i.band),
            antenna_label: i.antenna_label.clone(),
            direction: i.direction,
            transition: plan.view,
            operator_action_required: plan.operator_action_required,
        }),
        None => None,
    };
    proof {
        assert(plan_view(plan) == transition_plan_spec(*session, crate::automation::next_intent_spec(*session)));
    }
    let wsjtx_required = crate::conductor_state::requires_wsjtx_receiver(
        session.schema_version,
        sources.wspr_live_acquisition_enabled,
        sources.signal_plans.len(),
        session.mode,
    );
    ConductorView {
        bundle_name,
        session_id: session.session_id.clone(),
        revision: session.revision,
        lifecycle: sources.reduction.lifecycle,
        now_ms,
        action_token,
        phase: timing.phase,
        guidance: timing.guidance,
        wsjtx_required,
        seconds_to_transition: timing.seconds_to_transition,
        antennas: crate::text::copy_strings(&sources.antennas),
        current_slot,
        next_slot,
        next_intent,
        antenna_in_use: antenna_in_use(&session.projection.occupancies),
        slots,
        effective_events,
        diagnostics,
        recovery,
    }
}

/// What the conductor reads of a session planned as plain slots: its
/// identity, committed revision and lifecycle, its antennas, its slots, and
/// what reducing its operator events left.
#[derive(Debug, Clone, PartialEq)]
pub struct SlotRunSources {
    pub session_id: String,
    pub revision: u64,
    pub lifecycle: SessionLifecycle,
    pub wspr_live_acquisition_enabled: bool,
    pub antennas: Vec<String>,
    pub slots: Vec<ScheduleSlot>,
    pub reduction: EventReduction<CorrectablePayloadV2>,
}

/// The entry an effective fact of a plain-slot session shows.
pub open spec fn plain_fact_event_model(f: EffectiveFact<CorrectablePayloadV2>) -> EventModel {
    let (kind, summary) = event_summary_spec(f.payload);
    (f.source_event_id@, f.effective_through_event_id@, f.occurred_at_ms, opt_view(f.slot_id), kind, summary)
}

/// The kind of fact a plain-slot payload records.
pub open spec fn plain_slot_fact_of(p: CorrectablePayloadV2) -> SlotFact {
    match p {
        CorrectablePayloadV2::AntennaStateConfirmed { antenna_label, .. } => SlotFact::AntennaStateConfirmed { antenna_label },
        CorrectablePayloadV2::SlotMissed { .. } => SlotFact::SlotMissed,
        CorrectablePayloadV2::SlotBad { .. } => SlotFact::SlotBad,
        CorrectablePayloadV2::NoteAdded { .. } => SlotFact::NoteAdded,
    }
}

/// A plain slot's antenna evidence, as its facts decide it.
pub open spec fn plain_slot_evidence(facts: Seq<EffectiveFact<CorrectablePayloadV2>>, id: Seq<char>) -> (SlotEvidenceStatus, Option<Seq<char>>) {
    slot_evidence_spec(plain_slot_facts(facts_for(facts, id)))
}

pub open spec fn plain_slot_facts(facts: Seq<EffectiveFact<CorrectablePayloadV2>>) -> Seq<SlotFact> {
    facts.map_values(|f: EffectiveFact<CorrectablePayloadV2>| plain_slot_fact_of(f.payload))
}

/// A plain slot shows its scheduled window and antenna, its evidence, and
/// no signal.
pub open spec fn plain_slot_ok<Q, M, W>(v: SlotView<Q, M, W>, facts: Seq<EffectiveFact<CorrectablePayloadV2>>, slot: ScheduleSlot) -> bool {
    &&& timing_slot_ok(v.timing, slot, None, None, plain_slot_evidence(facts, slot.slot_id@))
    &&& v.planned_signal is None
    &&& v.actual_signal is None
    &&& v.signal_status == SignalEvidenceStatus::NotPlanned
}

/// The plain slots' diagnostics: one for each slot whose evidence
/// conflicts.
pub open spec fn plain_slot_diagnostics(facts: Seq<EffectiveFact<CorrectablePayloadV2>>, slots: Seq<ScheduleSlot>) -> Seq<DiagnosticModel>
    decreases slots.len(),
{
    if slots.len() == 0 {
        Seq::empty()
    } else {
        let rest = plain_slot_diagnostics(facts, slots.drop_last());
        if plain_slot_evidence(facts, slots.last().slot_id@).0 == SlotEvidenceStatus::Conflicting {
            rest.push(conflicting_slot_diagnostic(slots.last().slot_id@))
        } else {
            rest
        }
    }
}

fn plain_slot_fact(p: &CorrectablePayloadV2) -> (r: SlotFact)
    ensures
        r == plain_slot_fact_of(*p),
{
    match p {
        CorrectablePayloadV2::AntennaStateConfirmed { antenna_label, .. } => SlotFact::AntennaStateConfirmed { antenna_label: antenna_label.clone() },
        CorrectablePayloadV2::SlotMissed { .. } => SlotFact::SlotMissed,
        CorrectablePayloadV2::SlotBad { .. } => SlotFact::SlotBad,
        CorrectablePayloadV2::NoteAdded { .. } => SlotFact::NoteAdded,
    }
}

fn plain_slot_view<Q, M, W>(facts: &Vec<EffectiveFact<CorrectablePayloadV2>>, slot: &ScheduleSlot) -> (r: SlotView<Q, M, W>)
    requires
        representable_instant(slot.starts_at_ms),
    ensures
        plain_slot_ok(r, facts@, *slot),
{
    let id = slot.slot_id.as_str();
    let ghost gid = slot.slot_id@;
    let mut kinds: Vec<SlotFact> = Vec::new();
    for i in 0..facts.len()
        invariant
            id@ == gid,
            kinds@ == plain_slot_facts(facts_for(facts@.take(i as int), gid)),
    {
        let f = &facts[i];
        let ghost before = facts_for(facts@.take(i as int), gid);
        proof {
            assert(facts@.take(i + 1).drop_last() =~= facts@.take(i as int));
            assert(facts@.take(i + 1).last() == facts@[i as int]);
        }
        let matches = match &f.slot_id {
            Some(s) => crate::text::str_eq(s.as_str(), id),
            None => false,
        };
        if matches {
            let k = plain_slot_fact(&f.payload);
            proof {
                assert(facts_for(facts@.take(i + 1), gid) == before.push(*f));
                assert(plain_slot_facts(before.push(*f)) =~= plain_slot_facts(before).push(k));
            }
            kinds.push(k);
        } else {
            proof {
                assert(facts_for(facts@.take(i + 1), gid) == before);
            }
        }
    }
    assert(facts@.take(facts@.len() as int) =~= facts@);
    let (status, actual_antenna) = slot_evidence(&kinds);
    SlotView {
        timing: ConductorSlotView {
            slot_id: owned(id),
            sequence_number: slot.sequence_number,
            starts_at_ms: slot.starts_at_ms,
            usable_at_ms: slot.starts_at_ms + (slot.guard_seconds as i64) * 1000,
            ends_at_ms: slot.starts_at_ms + (slot.duration_seconds as i64) * 1000,
            band: band_text(slot.band),
            planned_antenna: slot.antenna_label.clone(),
            direction: None,
            actual_antenna,
            evidence_status: status,
        },
        planned_signal: None,
        actual_signal: None,
        signal_status: SignalEvidenceStatus::NotPlanned,
    }
}

/// The conductor's read model of a plain-slot session at `now_ms`, issued
/// with `action_token`: its slots with their antenna evidence, the
/// effective events in order, the diagnostics, and the phase and guidance
/// that follow; the antenna in use is the current slot's confirmed antenna.
pub open spec fn view_v2_ok<Q, M, W>(
    r: ConductorView<Q, M, W>,
    bundle_name: Seq<char>,
    sources: SlotRunSources,
    now_ms: i64,
    action_token: Seq<char>,
    recovery: Option<ConductorRecoveryView>,
) -> bool {
    let facts = sources.reduction.effective@;
    let t = timing_spec(sources.lifecycle, sources.wspr_live_acquisition_enabled, timing_views(r.slots@), now_ms);
    &&& r.bundle_name@ == bundle_name
    &&& r.session_id@ == sources.session_id@
    &&& r.revision == sources.revision
    &&& r.lifecycle == sources.lifecycle
    &&& r.now_ms == now_ms
    &&& r.action_token@ == action_token
    &&& r.recovery == recovery
    &&& r.antennas@ == sources.antennas@
    &&& !r.wsjtx_required
    &&& r.next_intent is None
    &&& r.slots@.len() == sources.slots@.len()
    &&& forall|k: int| 0 <= k < r.slots@.len() ==> plain_slot_ok(#[trigger] r.slots@[k], facts, sources.slots@[k])
    &&& event_models(r.effective_events@) == facts.map_values(|f: EffectiveFact<CorrectablePayloadV2>| plain_fact_event_model(f))
    &&& diagnostic_models(r.diagnostics@) == base_diagnostic_models(sources.reduction.diagnostics@, Seq::empty())
        + plain_slot_diagnostics(facts, sources.slots@)
    &&& r.phase == t.0
    &&& r.guidance@ == t.1
    &&& r.seconds_to_transition == t.2
    &&& r.current_slot == (match t.3 {
        Some(i) => Some(r.slots@[i as int]),
        None => None,
    })
    &&& r.next_slot == (match t.4 {
        Some(i) => Some(r.slots@[i as int]),
        None => None,
    })
    &&& opt_view(r.antenna_in_use) == (match t.3 {
        Some(i) => opt_view(r.slots@[i as int].timing.actual_antenna),
        None => None,
    })
}

/// Builds the conductor's read model of a session planned as plain slots at
/// `now_ms`.
pub fn build_view<Q: Copy, M: Copy, W: Copy>(
    bundle_name: String,
    sources: &SlotRunSources,
    now_ms: i64,
    action_token: String,
    recovery: Option<ConductorRecoveryView>,
) -> (r: ConductorView<Q, M, W>)
    requires
        slot_instants_representable(sources.slots@),
    ensures
        view_v2_ok(r, bundle_name@, *sources, now_ms, action_token@, recovery),
{
    proof {
        reveal_strlit("conductor.slot.conflicting_evidence");
        reveal_strlit("Competing effective operator facts keep this slot conservatively unresolved.");
    }
    let facts = &sources.reduction.effective;
    let ghost fm = facts@.map_values(|f: EffectiveFact<CorrectablePayloadV2>| plain_fact_event_model(f));
    let mut effective_events: Vec<ConductorEventView> = Vec::new();
    for i in 0..facts.len()
        invariant
            fm == facts@.map_values(|f: EffectiveFact<CorrectablePayloadV2>| plain_fact_event_model(f)),
            event_models(effective_events@) == fm.take(i as int),
    {
        let f = &facts[i];
        let (kind, summary) = event_summary(&f.payload);
        let v = ConductorEventView {
            source_event_id: f.source_event_id.clone(),
            effective_through_event_id: f.effective_through_event_id.clone(),
            occurred_at_ms: f.occurred_at_ms,
            slot_id: clone_opt(&f.slot_id),
            kind: owned(kind),
            summary,
        };
        proof {
            assert(event_model(v) == fm[i as int]);
            assert(fm.take(i + 1) =~= fm.take(i as int).push(fm[i as int]));
            assert(event_models(effective_events@.push(v)) =~= event_models(effective_events@).push(event_model(v)));
        }
        effective_events.push(v);
    }
    assert(fm.take(facts@.len() as int) =~= fm);
    let no_projection_diagnostics: Vec<ProjectionDiagnostic> = Vec::new();
    let mut diagnostics = base_diagnostics(&sources.reduction.diagnostics, &no_projection_diagnostics);
    assert(no_projection_diagnostics@ =~= Seq::<ProjectionDiagnostic>::empty());
    let ghost base = diagnostic_models(diagnostics@);
    let mut slots: Vec<SlotView<Q, M, W>> = Vec::new();
    let mut timings: Vec<ConductorSlotView> = Vec::new();
    let planned = &sources.slots;
    for k in 0..planned.len()
        invariant
            slot_instants_representable(planned@),
            slots@.len() == k,
            timings@ == timing_views(slots@),
            forall|j: int| 0 <= j < k ==> plain_slot_ok(#[trigger] slots@[j], facts@, planned@[j]),
            diagnostic_models(diagnostics@) == base + plain_slot_diagnostics(facts@, planned@.take(k as int)),
    {
        assert(representable_instant(planned@[k as int].starts_at_ms));
        let view: SlotView<Q, M, W> = plain_slot_view(facts, &planned[k]);
        proof {
            assert(planned@.take(k + 1).drop_last() =~= planned@.take(k as int));
            assert(planned@.take(k + 1).last() == planned@[k as int]);
        }
        if view.timing.evidence_status == SlotEvidenceStatus::Conflicting {
            let d = slot_diagnostic(
                "conductor.slot.conflicting_evidence",
                "Competing effective operator facts keep this slot conservatively unresolved.",
                planned[k].slot_id.as_str(),
            );
            proof {
                assert(diagnostic_models(diagnostics@.push(d)) =~= diagnostic_models(diagnostics@).push(diagnostic_model(d)));
            }
            diagnostics.push(d);
        }
        timings.push(copy_timing(&view.timing));
        slots.push(view);
        proof {
            assert(timing_views(slots@) =~= timings@);
        }
    }
    assert(planned@.take(planned@.len() as int) =~= planned@);
    let timing = timing_projection(sources.lifecycle, sources.wspr_live_acquisition_enabled, &timings, now_ms);
    let current_slot = match timing.current_index {
        Some(i) => Some(copy_slot_view(&slots[i])),
        None => None,
    };
    let next_slot = match timing.next_index {
        Some(i) => Some(copy_slot_view(&slots[i])),
        None => None,
    };
    let antenna_in_use = match timing.current_index {
        Some(i) => clone_opt(&slots[i].timing.actual_antenna),
        None => None,
    };
    ConductorView {
        bundle_name,
        session_id: sources.session_id.clone(),
        revision: sources.revision,
        lifecycle: sources.lifecycle,
        now_ms,
        action_token,
        phase: timing.phase,
        guidance: timing.guidance,
        wsjtx_required: false,
        seconds_to_transition: timing.seconds_to_transition,
        antennas: crate::text::copy_strings(&sources.antennas),
        current_slot,
        next_slot,
        next_intent: None,
        antenna_in_use,
        slots,
        effective_events,
        diagnostics,
        recovery,
    }
}

} // verus!
