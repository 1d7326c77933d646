//! What a live session contributes to its report: the operator events with
//! their corrections, the lifecycle, the WSPR cycles and how each was
//! attributed, the antenna-controller attempts, and the adapter evidence.

use vstd::prelude::*;

use crate::actions::antenna_detail;
use crate::conductor_actions::{CorrectablePayload, EventCorrection, OperatorEvent, OperatorEventPayload, ReadinessBasis, SignalConfirmation};
use crate::conductor_view::first_from;
use crate::control_model::{
    AntennaControlDisposition, AntennaControlOutput, AntennaControlRole, Band, ControlSession, ExperimentMode, ProjectedCycle,
    RigRecord, SessionLifecycle, WsprCycleDirection, WsprCycleIntent,
};
use crate::instants::{instant_text, representable_instant, utc_instant_text};
use crate::text::{clone_opt, debug_quoted, debug_text, opt_view, owned, push_str};

verus! {

/// The kind of an operator event in the report.
#[derive(Debug, Clone, Copy, PartialEq, Eq, Structural)]
pub enum ReportOperatorEventKind {
    SessionStarted,
    SessionInterrupted,
    InterruptionDetected,
    SessionResumed,
    SessionEnded,
    SessionAbandoned,
    AntennaSwitchStarted,
    WsprCycleArmed,
    AntennaStateConfirmed,
    SignalStateConfirmed,
    SlotMissed,
    SlotBad,
    NoteAdded,
    EventCorrected,
}

/// What a correction did to its target.
#[derive(Debug, Clone, Copy, PartialEq, Eq, Structural)]
pub enum ReportEventCorrectionAction {
    Retracted,
    Replaced,
}

/// A correction as the report shows it; `applied` is false when reducing
/// the events rejected it.
#[derive(Debug, Clone, PartialEq, Eq)]
pub struct ReportEventCorrection {
    pub target_event_id: String,
    pub action: ReportEventCorrectionAction,
    pub reason: String,
    pub applied: bool,
}

/// An operator event as the report shows it, with the slot it affects.
#[derive(Debug, Clone, PartialEq, Eq)]
pub struct ReportOperatorEvent {
    pub event_id: String,
    pub occurred_at_ms: i64,
    pub slot_id: Option<String>,
    pub affected_slot_id: Option<String>,
    pub kind: ReportOperatorEventKind,
    pub detail: Option<String>,
    pub correction: Option<ReportEventCorrection>,
}

/// The report kind of an event.
pub open spec fn report_kind<Q>(p: OperatorEventPayload<Q>) -> ReportOperatorEventKind {
    match p {
        OperatorEventPayload::SessionStarted { .. } => ReportOperatorEventKind::SessionStarted,
        OperatorEventPayload::SessionInterrupted { .. } => ReportOperatorEventKind::SessionInterrupted,
        OperatorEventPayload::InterruptionDetected { .. } => ReportOperatorEventKind::InterruptionDetected,
        OperatorEventPayload::SessionResumed { .. } => ReportOperatorEventKind::SessionResumed,
        OperatorEventPayload::SessionEnded { .. } => ReportOperatorEventKind::SessionEnded,
        OperatorEventPayload::SessionAbandoned { .. } => ReportOperatorEventKind::SessionAbandoned,
        OperatorEventPayload::AntennaSwitchStarted { .. } => ReportOperatorEventKind::AntennaSwitchStarted,
        OperatorEventPayload::WsprCycleArmed { .. } => ReportOperatorEventKind::WsprCycleArmed,
        OperatorEventPayload::SlotMissed { .. } => ReportOperatorEventKind::SlotMissed,
        OperatorEventPayload::AntennaStateConfirmed { .. } => ReportOperatorEventKind::AntennaStateConfirmed,
        OperatorEventPayload::SignalStateConfirmed { .. } => ReportOperatorEventKind::SignalStateConfirmed,
        OperatorEventPayload::SlotBad { .. } => ReportOperatorEventKind::SlotBad,
        OperatorEventPayload::NoteAdded { .. } => ReportOperatorEventKind::NoteAdded,
        OperatorEventPayload::EventCorrected { .. } => ReportOperatorEventKind::EventCorrected,
    }
}

/// The `Debug` text of a readiness basis, as Rust derives it.
pub open spec fn readiness_debug(r: Option<ReadinessBasis>) -> Seq<char> {
    match r {
        None => "None"@,
        Some(ReadinessBasis::OperatorConfirmed) => "Some(OperatorConfirmed)"@,
        Some(ReadinessBasis::CommandVerified { switch_record_id, verification_record_id }) => "Some(CommandVerified { switch_record_id: "@
            + debug_quoted(switch_record_id@) + ", verification_record_id: "@ + debug_quoted(verification_record_id@) + " })"@,
        Some(ReadinessBasis::Continued { source_ready_event_id }) => "Some(Continued { source_ready_event_id: "@ + debug_quoted(
            source_ready_event_id@,
        ) + " })"@,
    }
}

fn readiness_debug_text(r: &Option<ReadinessBasis>) -> (t: String)
    ensures
        t@ == readiness_debug(*r),
{
    proof {
        reveal_strlit("None");
        reveal_strlit("Some(OperatorConfirmed)");
        reveal_strlit("Some(CommandVerified { switch_record_id: ");
        reveal_strlit(", verification_record_id: ");
        reveal_strlit(" })");
        reveal_strlit("Some(Continued { source_ready_event_id: ");
    }
    match r {
        None => owned("None"),
        Some(ReadinessBasis::OperatorConfirmed) => owned("Some(OperatorConfirmed)"),
        Some(ReadinessBasis::CommandVerified { switch_record_id, verification_record_id }) => {
            let mut t = owned("Some(CommandVerified { switch_record_id: ");
            push_str(&mut t, debug_text(switch_record_id.as_str()).as_str());
            push_str(&mut t, ", verification_record_id: ");
            push_str(&mut t, debug_text(verification_record_id.as_str()).as_str());
            push_str(&mut t, " })");
            t
        },
        Some(ReadinessBasis::Continued { source_ready_event_id }) => {
            let mut t = owned("Some(Continued { source_ready_event_id: ");
            push_str(&mut t, debug_text(source_ready_event_id.as_str()).as_str());
            push_str(&mut t, " })");
            t
        },
    }
}

/// The signal confirmation an event carries, directly or as the
/// replacement a correction records.
pub open spec fn carried_confirmation<Q>(p: OperatorEventPayload<Q>) -> Option<SignalConfirmation<Q>> {
    match p {
        OperatorEventPayload::SignalStateConfirmed { confirmation } => Some(confirmation),
        OperatorEventPayload::EventCorrected {
            correction: EventCorrection::Replace { payload: CorrectablePayload::SignalStateConfirmed { confirmation }, .. },
            ..
        } => Some(confirmation),
        _ => None,
    }
}

/// The detail of a replacement fact; `text` describes a signal
/// confirmation.
pub open spec fn replacement_detail<Q>(p: CorrectablePayload<Q>, text: Option<String>) -> Seq<char> {
    match p {
        CorrectablePayload::AntennaStateConfirmed { antenna_label, note } => antenna_detail(antenna_label@, note),
        CorrectablePayload::SignalStateConfirmed { .. } => "Signal-state confirmation "@ + text->Some_0@,
        CorrectablePayload::SlotMissed { reason } => match reason {
            Some(r) => r@,
            None => "Slot missed"@,
        },
        CorrectablePayload::SlotBad { reason } => reason@,
        CorrectablePayload::NoteAdded { note } => note@,
    }
}

/// The detail the report shows for an event; `text` describes the signal
/// confirmation it carries.
pub open spec fn report_detail<Q>(p: OperatorEventPayload<Q>, text: Option<String>) -> Option<Seq<char>> {
    match p {
        OperatorEventPayload::SessionStarted { note } => opt_view(note),
        OperatorEventPayload::SessionInterrupted { reason } => opt_view(reason),
        OperatorEventPayload::InterruptionDetected { reason } => opt_view(reason),
        OperatorEventPayload::SessionResumed { note } => opt_view(note),
        OperatorEventPayload::SessionEnded { reason } => opt_view(reason),
        OperatorEventPayload::SessionAbandoned { reason } => opt_view(reason),
        OperatorEventPayload::AntennaSwitchStarted { note } => opt_view(note),
        OperatorEventPayload::WsprCycleArmed { antenna_label, cycle_starts_at_ms, readiness } => Some(
            antenna_label@ + " armed for "@ + utc_instant_text(cycle_starts_at_ms) + "; readiness "@ + readiness_debug(readiness),
        ),
        OperatorEventPayload::SlotMissed { reason } => opt_view(reason),
        OperatorEventPayload::AntennaStateConfirmed { antenna_label, note } => Some(antenna_detail(antenna_label@, note)),
        OperatorEventPayload::SignalStateConfirmed { .. } => Some("Signal-state confirmation "@ + text->Some_0@),
        OperatorEventPayload::SlotBad { reason } => Some(reason@),
        OperatorEventPayload::NoteAdded { note } => Some(note@),
        OperatorEventPayload::EventCorrected { correction, .. } => match correction {
            EventCorrection::Retract => None,
            EventCorrection::Replace { payload, .. } => Some(replacement_detail(payload, text)),
        },
    }
}

pub open spec fn event_named<Q>(id: Seq<char>) -> spec_fn(OperatorEvent<Q>) -> bool {
    |e: OperatorEvent<Q>| e.event_id@ == id
}

/// The slot an event affects: a replacement's slot, else the slot of the
/// corrected event, else its own.
pub open spec fn affected_slot<Q>(events: Seq<OperatorEvent<Q>>, e: OperatorEvent<Q>) -> Option<Seq<char>> {
    let corrected = match e.payload {
        OperatorEventPayload::EventCorrected { target_event_id, correction, .. } => match correction {
            EventCorrection::Replace { slot_id: Some(s), .. } => Some(s@),
            _ => match first_from(events, event_named::<Q>(target_event_id@), 0) {
                Some(k) => opt_view(events[k].slot_id),
                None => None,
            },
        },
        _ => None,
    };
    match corrected {
        Some(s) => Some(s),
        None => opt_view(e.slot_id),
    }
}

/// The ids of the events that reducing the log rejected.
pub open spec fn rejected_id(rejected: Seq<String>, id: Seq<char>) -> bool {
    exists|i: int| 0 <= i < rejected.len() && (#[trigger] rejected[i])@ == id
}

/// A report event shows the recorded event: its identity, time, slots,
/// kind and detail, and for a correction what it did and whether it
/// applied.
pub open spec fn report_event_ok<Q>(
    r: ReportOperatorEvent,
    events: Seq<OperatorEvent<Q>>,
    rejected: Seq<String>,
    e: OperatorEvent<Q>,
    text: Option<String>,
) -> bool {
    &&& r.event_id@ == e.event_id@
    &&& r.occurred_at_ms == e.occurred_at_ms
    &&& opt_view(r.slot_id) == opt_view(e.slot_id)
    &&& opt_view(r.affected_slot_id) == affected_slot(events, e)
    &&& r.kind == report_kind(e.payload)
    &&& opt_view(r.detail) == report_detail(e.payload, text)
    &&& match e.payload {
        OperatorEventPayload::EventCorrected { target_event_id, correction, reason } => r.correction matches Some(c) && {
            &&& c.target_event_id@ == target_event_id@
            &&& c.action == (match correction {
                EventCorrection::Retract => ReportEventCorrectionAction::Retracted,
                EventCorrection::Replace { .. } => ReportEventCorrectionAction::Replaced,
            })
            &&& c.reason@ == reason@
            &&& c.applied == !rejected_id(rejected, e.event_id@)
        },
        _ => r.correction is None,
    }
}

/// The armed cycles of the log start at instants chrono can hold.
pub open spec fn armed_starts_representable<Q>(events: Seq<OperatorEvent<Q>>) -> bool {
    forall|i: int| 0 <= i < events.len() ==> ((#[trigger] events[i]).payload matches OperatorEventPayload::WsprCycleArmed { cycle_starts_at_ms, .. }
        ==> representable_instant(cycle_starts_at_ms))
}

fn is_rejected(rejected: &Vec<String>, id: &str) -> (r: bool)
    ensures
        r == rejected_id(rejected@, id@),
{
    for i in 0..rejected.len()
        invariant
            forall|j: int| 0 <= j < i ==> (#[trigger] rejected@[j])@ != id@,
    {
        if crate::text::str_eq(rejected[i].as_str(), id) {
            return true;
        }
    }
    false
}

fn find_event<Q>(events: &Vec<OperatorEvent<Q>>, id: &str) -> (r: Option<usize>)
    ensures
        match r {
            Some(k) => first_from(events@, event_named::<Q>(id@), 0) == Some(k as int) && k < events@.len(),
            None => first_from(events@, event_named::<Q>(id@), 0) is None,
        },
{
    for k in 0..events.len()
        invariant
            forall|m: int| 0 <= m < k ==> !event_named::<Q>(id@)(#[trigger] events@[m]),
    {
        if crate::text::str_eq(events[k].event_id.as_str(), id) {
            proof {
                crate::conductor_view::lemma_first_from_found(events@, event_named::<Q>(id@), 0, k as int);
            }
            return Some(k);
        }
    }
    proof {
        crate::conductor_view::lemma_first_from_none(events@, event_named::<Q>(id@), 0);
    }
    None
}

fn antenna_detail_of(label: &String, note: &Option<String>) -> (r: String)
    ensures
        r@ == antenna_detail(label@, *note),
{
    proof {
        reveal_strlit("Actual antenna ");
        reveal_strlit("; ");
    }
    let mut out = owned("Actual antenna ");
    push_str(&mut out, label.as_str());
    if let Some(n) = note {
        push_str(&mut out, "; ");
        push_str(&mut out, n.as_str());
    }
    out
}

fn confirmation_text(text: &Option<String>) -> (r: String)
    requires
        text is Some,
    ensures
        r@ == "Signal-state confirmation "@ + text->Some_0@,
{
    proof {
        reveal_strlit("Signal-state confirmation ");
    }
    let mut out = owned("Signal-state confirmation ");
    match text {
        Some(t) => push_str(&mut out, t.as_str()),
        None => {},
    }
    out
}

/// One event as the report shows it; `text` describes the signal
/// confirmation it carries, if any.
fn report_event<Q>(events: &Vec<OperatorEvent<Q>>, rejected: &Vec<String>, e: &OperatorEvent<Q>, text: Option<String>) -> (r: ReportOperatorEvent)
    requires
        carried_confirmation(e.payload) is Some ==> text is Some,
        e.payload matches OperatorEventPayload::WsprCycleArmed { cycle_starts_at_ms, .. } ==> representable_instant(cycle_starts_at_ms),
    ensures
        report_event_ok(r, events@, rejected@, *e, text),
{
    proof {
        reveal_strlit(" armed for ");
        reveal_strlit("; readiness ");
        reveal_strlit("Slot missed");
    }
    let (kind, detail, correction, replacement_slot) = match &e.payload {
        OperatorEventPayload::SessionStarted { note } => (ReportOperatorEventKind::SessionStarted, clone_opt(note), None, None),
        OperatorEventPayload::SessionInterrupted { reason } => (ReportOperatorEventKind::SessionInterrupted, clone_opt(reason), None, None),
        OperatorEventPayload::InterruptionDetected { reason } => (ReportOperatorEventKind::InterruptionDetected, clone_opt(reason), None, None),
        OperatorEventPayload::SessionResumed { note } => (ReportOperatorEventKind::SessionResumed, clone_opt(note), None, None),
        OperatorEventPayload::SessionEnded { reason } => (ReportOperatorEventKind::SessionEnded, clone_opt(reason), None, None),
        OperatorEventPayload::SessionAbandoned { reason } => (ReportOperatorEventKind::SessionAbandoned, clone_opt(reason), None, None),
        OperatorEventPayload::AntennaSwitchStarted { note } => (ReportOperatorEventKind::AntennaSwitchStarted, clone_opt(note), None, None),
        OperatorEventPayload::WsprCycleArmed { antenna_label, cycle_starts_at_ms, readiness } => {
            let mut d = owned(antenna_label.as_str());
            push_str(&mut d, " armed for ");
            push_str(&mut d, instant_text(*cycle_starts_at_ms).as_str());
            push_str(&mut d, "; readiness ");
            push_str(&mut d, readiness_debug_text(readiness).as_str());
            (ReportOperatorEventKind::WsprCycleArmed, Some(d), None, None)
        },
        OperatorEventPayload::SlotMissed { reason } => (ReportOperatorEventKind::SlotMissed, clone_opt(reason), None, None),
        OperatorEventPayload::AntennaStateConfirmed { antenna_label, note } => (
            ReportOperatorEventKind::AntennaStateConfirmed,
            Some(antenna_detail_of(antenna_label, note)),
            None,
            None,
        ),
        OperatorEventPayload::SignalStateConfirmed { .. } => (ReportOperatorEventKind::SignalStateConfirmed, Some(confirmation_text(&text)), None, None),
        OperatorEventPayload::SlotBad { reason } => (ReportOperatorEventKind::SlotBad, Some(reason.clone()), None, None),
        OperatorEventPayload::NoteAdded { note } => (ReportOperatorEventKind::NoteAdded, Some(note.clone()), None, None),
        OperatorEventPayload::EventCorrected { target_event_id, correction, reason } => {
            let (action, detail, slot) = match correction {
                EventCorrection::Retract => (ReportEventCorrectionAction::Retracted, None, None),
                EventCorrection::Replace { slot_id, payload, .. } => {
                    let d = match payload {
                        CorrectablePayload::AntennaStateConfirmed { antenna_label, note } => antenna_detail_of(antenna_label, note),
                        CorrectablePayload::SignalStateConfirmed { .. } => confirmation_text(&text),
                        CorrectablePayload::SlotMissed { reason } => match reason {
                            Some(r) => r.clone(),
                            None => owned("Slot missed"),
                        },
                        CorrectablePayload::SlotBad { reason } => reason.clone(),
                        CorrectablePayload::NoteAdded { note } => note.clone(),
                    };
                    (ReportEventCorrectionAction::Replaced, Some(d), clone_opt(slot_id))
                },
            };
            let c = ReportEventCorrection {
                target_event_id: target_event_id.clone(),
                action,
                reason: reason.clone(),
                applied: !is_rejected(rejected, e.event_id.as_str()),
            };
            (ReportOperatorEventKind::EventCorrected, detail, Some(c), slot)
        },
    };
    let from_correction = match replacement_slot {
        Some(s) => Some(s),
        None => match &correction {
            Some(c) => match find_event(events, c.target_event_id.as_str()) {
                Some(k) => clone_opt(&events[k].slot_id),
                None => None,
            },
            None => None,
        },
    };
    let affected_slot_id = match from_correction {
        Some(s) => Some(s),
        None => clone_opt(&e.slot_id),
    };
    ReportOperatorEvent {
        event_id: e.event_id.clone(),
        occurred_at_ms: e.occurred_at_ms,
        slot_id: clone_opt(&e.slot_id),
        affected_slot_id,
        kind,
        detail,
        correction,
    }
}

/// `texts` holds what `describe` gave for the signal confirmation each
/// event carries, and nothing for the others.
pub open spec fn described<Q, D: Fn(&SignalConfirmation<Q>) -> String>(
    describe: D,
    events: Seq<OperatorEvent<Q>>,
    texts: Seq<Option<String>>,
) -> bool {
    &&& texts.len() == events.len()
    &&& forall|i: int| 0 <= i < events.len() ==> match carried_confirmation((#[trigger] events[i]).payload) {
        Some(c) => texts[i] matches Some(t) && call_ensures(describe, (&c,), t),
        None => texts[i] is None,
    }
}

/// The operator events of a cycle-intention session as the report shows
/// them, in log order; `rejected` names the events that reducing the log
/// did not apply, and `describe` gives the text of a signal confirmation.
pub fn project_operator_events_v3<Q, D: Fn(&SignalConfirmation<Q>) -> String>(
    events: &Vec<OperatorEvent<Q>>,
    rejected: &Vec<String>,
    describe: &D,
) -> (r: Vec<ReportOperatorEvent>)
    requires
        armed_starts_representable(events@),
        forall|c: &SignalConfirmation<Q>| call_requires(*describe, (c,)),
    ensures
        r@.len() == events@.len(),
        exists|texts: Seq<Option<String>>| {
            &&& #[trigger] described(*describe, events@, texts)
            &&& forall|i: int| 0 <= i < r@.len() ==> report_event_ok(#[trigger] r@[i], events@, rejected@, events@[i], texts[i])
        },
{
    let mut out: Vec<ReportOperatorEvent> = Vec::new();
    let ghost mut texts: Seq<Option<String>> = Seq::empty();
    for i in 0..events.len()
        invariant
            armed_starts_representable(events@),
            forall|c: &SignalConfirmation<Q>| call_requires(*describe, (c,)),
            out@.len() == i,
            texts.len() == i,
            forall|j: int| 0 <= j < i ==> match carried_confirmation((#[trigger] events@[j]).payload) {
                Some(c) => texts[j] matches Some(t) && call_ensures(*describe, (&c,), t),
                None => texts[j] is None,
            },
            forall|j: int| 0 <= j < i ==> report_event_ok(#[trigger] out@[j], events@, rejected@, events@[j], texts[j]),
    {
        let e = &events[i];
        let text = match &e.payload {
            OperatorEventPayload::SignalStateConfirmed { confirmation } => Some(describe(confirmation)),
            OperatorEventPayload::EventCorrected {
                correction: EventCorrection::Replace { payload: CorrectablePayload::SignalStateConfirmed { confirmation }, .. },
                ..
            } => Some(describe(confirmation)),
            _ => None,
        };
        assert(events@[i as int] == *e);
        let v = report_event(events, rejected, e, text);
        out.push(v);
        proof {
            texts = texts.push(text);
            assert(out@[i as int] == v);
        }
    }
    assert(described(*describe, events@, texts));
    out
}

/// The log holds only the events of a plain-slot session: no switch
/// starts, armed cycles or signal confirmations.
pub open spec fn plain_slot_log<Q>(events: Seq<OperatorEvent<Q>>) -> bool {
    forall|i: int| 0 <= i < events.len() ==> {
        let p = (#[trigger] events[i]).payload;
        &&& !(p is AntennaSwitchStarted)
        &&& !(p is WsprCycleArmed)
        &&& carried_confirmation(p) is None
    }
}

/// The operator events of a plain-slot session as the report shows them,
/// in log order; `rejected` names the events that reducing the log did not
/// apply.
pub fn project_operator_events_v2<Q>(events: &Vec<OperatorEvent<Q>>, rejected: &Vec<String>) -> (r: Vec<ReportOperatorEvent>)
    requires
        plain_slot_log(events@),
    ensures
        r@.len() == events@.len(),
        forall|i: int| 0 <= i < r@.len() ==> report_event_ok(#[trigger] r@[i], events@, rejected@, events@[i], None),
{
    let mut out: Vec<ReportOperatorEvent> = Vec::new();
    for i in 0..events.len()
        invariant
            plain_slot_log(events@),
            out@.len() == i,
            forall|j: int| 0 <= j < i ==> report_event_ok(#[trigger] out@[j], events@, rejected@, events@[j], None),
    {
        let e = &events[i];
        assert(events@[i as int] == *e);
        let v = report_event(events, rejected, e, None);
        out.push(v);
        assert(out@[i as int] == v);
    }
    out
}

/// The kind of a lifecycle event in the report.
#[derive(Debug, Clone, Copy, PartialEq, Eq, Structural)]
pub enum ReportLifecycleEventKind {
    Started,
    Interrupted,
    InterruptionDetected,
    Resumed,
    Ended,
    Abandoned,
}

/// A lifecycle event as the report shows it.
#[derive(Debug, Clone, PartialEq, Eq)]
pub struct ReportLifecycleEvent {
    pub kind: ReportLifecycleEventKind,
    pub occurred_at_ms: i64,
    pub detail: Option<String>,
}

/// The lifecycle entry an event gives, if it is a lifecycle event.
pub open spec fn lifecycle_entry<Q>(e: OperatorEvent<Q>) -> Option<(ReportLifecycleEventKind, i64, Option<Seq<char>>)> {
    match e.payload {
        OperatorEventPayload::SessionStarted { note } => Some((ReportLifecycleEventKind::Started, e.occurred_at_ms, opt_view(note))),
        OperatorEventPayload::SessionInterrupted { reason } => Some((ReportLifecycleEventKind::Interrupted, e.occurred_at_ms, opt_view(reason))),
        OperatorEventPayload::InterruptionDetected { reason } => Some((ReportLifecycleEventKind::InterruptionDetected, e.occurred_at_ms, opt_view(reason))),
        OperatorEventPayload::SessionResumed { note } => Some((ReportLifecycleEventKind::Resumed, e.occurred_at_ms, opt_view(note))),
        OperatorEventPayload::SessionEnded { reason } => Some((ReportLifecycleEventKind::Ended, e.occurred_at_ms, opt_view(reason))),
        OperatorEventPayload::SessionAbandoned { reason } => Some((ReportLifecycleEventKind::Abandoned, e.occurred_at_ms, opt_view(reason))),
        _ => None,
    }
}

/// The lifecycle entries of a log, in order.
pub open spec fn lifecycle_entries<Q>(events: Seq<OperatorEvent<Q>>) -> Seq<(ReportLifecycleEventKind, i64, Option<Seq<char>>)>
    decreases events.len(),
{
    if events.len() == 0 {
        Seq::empty()
    } else {
        let rest = lifecycle_entries(events.drop_last());
        match lifecycle_entry(events.last()) {
            Some(x) => rest.push(x),
            None => rest,
        }
    }
}

pub open spec fn lifecycle_models(s: Seq<ReportLifecycleEvent>) -> Seq<(ReportLifecycleEventKind, i64, Option<Seq<char>>)> {
    s.map_values(|e: ReportLifecycleEvent| (e.kind, e.occurred_at_ms, opt_view(e.detail)))
}

/// The lifecycle events of a log as the report shows them.
pub fn lifecycle_events<Q>(events: &Vec<OperatorEvent<Q>>) -> (r: Vec<ReportLifecycleEvent>)
    ensures
        lifecycle_models(r@) == lifecycle_entries(events@),
{
    let mut out: Vec<ReportLifecycleEvent> = Vec::new();
    for i in 0..events.len()
        invariant
            lifecycle_models(out@) == lifecycle_entries(events@.take(i as int)),
    {
        let e = &events[i];
        proof {
            assert(events@.take(i + 1).drop_last() =~= events@.take(i as int));
            assert(events@.take(i + 1).last() == events@[i as int]);
        }
        let entry = match &e.payload {
            OperatorEventPayload::SessionStarted { note } => Some((ReportLifecycleEventKind::Started, clone_opt(note))),
            OperatorEventPayload::SessionInterrupted { reason } => Some((ReportLifecycleEventKind::Interrupted, clone_opt(reason))),
            OperatorEventPayload::InterruptionDetected { reason } => Some((ReportLifecycleEventKind::InterruptionDetected, clone_opt(reason))),
            OperatorEventPayload::SessionResumed { note } => Some((ReportLifecycleEventKind::Resumed, clone_opt(note))),
            OperatorEventPayload::SessionEnded { reason } => Some((ReportLifecycleEventKind::Ended, clone_opt(reason))),
            OperatorEventPayload::SessionAbandoned { reason } => Some((ReportLifecycleEventKind::Abandoned, clone_opt(reason))),
            _ => None,
        };
        if let Some((kind, detail)) = entry {
            let v = ReportLifecycleEvent { kind, occurred_at_ms: e.occurred_at_ms, detail };
            proof {
                assert(lifecycle_models(out@.push(v)) =~= lifecycle_models(out@).push((v.kind, v.occurred_at_ms, opt_view(v.detail))));
            }
            out.push(v);
        }
    }
    assert(events@.take(events@.len() as int) =~= events@);
    out
}

/// How the report attributes a planned cycle.
#[derive(Debug, Clone, Copy, PartialEq, Eq, Structural)]
pub enum ReportWsprAttribution {
    Attributable,
    UnknownAntennaOccupancy,
    Skipped,
    Pending,
}

/// What made an armed cycle ready, as the report names it.
#[derive(Debug, Clone, Copy, PartialEq, Eq, Structural)]
pub enum ReportWsprReadinessBasis {
    OperatorConfirmed,
    CommandVerified,
    Continued,
}

/// A planned WSPR cycle as the report shows it, with what the run made of
/// it.
#[derive(Debug, Clone, PartialEq, Eq)]
pub struct ReportWsprCycle {
    pub intent_id: String,
    pub sequence_number: u64,
    pub band: Band,
    pub direction: Option<WsprCycleDirection>,
    pub planned_antenna: String,
    pub actual_antenna: Option<String>,
    pub ready_at_ms: Option<i64>,
    pub starts_at_ms: Option<i64>,
    pub transmission_ends_at_ms: Option<i64>,
    pub attribution: ReportWsprAttribution,
    pub readiness_basis: Option<ReportWsprReadinessBasis>,
}

pub open spec fn armed_for<Q>(id: Seq<char>) -> spec_fn(OperatorEvent<Q>) -> bool {
    |e: OperatorEvent<Q>| opt_view(e.slot_id) == Some(id) && e.payload is WsprCycleArmed
}

/// The readiness basis the report names for a recorded basis.
pub open spec fn report_basis(r: Option<ReadinessBasis>) -> ReportWsprReadinessBasis {
    match r {
        Some(ReadinessBasis::CommandVerified { .. }) => ReportWsprReadinessBasis::CommandVerified,
        Some(ReadinessBasis::Continued { .. }) => ReportWsprReadinessBasis::Continued,
        _ => ReportWsprReadinessBasis::OperatorConfirmed,
    }
}

/// The readiness basis of the first cycle armed for an intention.
pub open spec fn intent_readiness<Q>(events: Seq<OperatorEvent<Q>>, id: Seq<char>) -> Option<ReportWsprReadinessBasis> {
    match first_from(events, armed_for::<Q>(id), 0) {
        Some(k) => match events[k].payload {
            OperatorEventPayload::WsprCycleArmed { readiness, .. } => Some(report_basis(readiness)),
            _ => None,
        },
        None => None,
    }
}

/// A report cycle shows its intention and what the run made of it: the
/// armed cycle's antenna, readiness and window, and whether one antenna
/// occupancy covers its transmission; an intention without one is skipped
/// or still pending.
pub open spec fn report_cycle_ok<Q>(
    r: ReportWsprCycle,
    intent: WsprCycleIntent,
    cycles: Seq<ProjectedCycle>,
    skipped: Seq<String>,
    events: Seq<OperatorEvent<Q>>,
) -> bool {
    let observed = crate::conductor_view::armed_cycle(cycles, intent.intent_id@);
    &&& r.intent_id@ == intent.intent_id@
    &&& r.sequence_number == intent.sequence_number
    &&& r.band == intent.band
    &&& r.direction == intent.direction
    &&& r.planned_antenna@ == intent.antenna_label@
    &&& r.readiness_basis == intent_readiness(events, intent.intent_id@)
    &&& match observed {
        Some(c) => {
            &&& opt_view(r.actual_antenna) == Some(c.antenna_label@)
            &&& r.ready_at_ms == Some(c.ready_at_ms)
            &&& r.starts_at_ms == Some(c.starts_at_ms)
            &&& r.transmission_ends_at_ms == Some(c.transmission_ends_at_ms)
            &&& r.attribution == if c.occupancy_fully_covers_transmission {
                ReportWsprAttribution::Attributable
            } else {
                ReportWsprAttribution::UnknownAntennaOccupancy
            }
        },
        None => {
            &&& r.actual_antenna is None
            &&& r.ready_at_ms is None
            &&& r.starts_at_ms is None
            &&& r.transmission_ends_at_ms is None
            &&& r.attribution == if rejected_id(skipped, intent.intent_id@) {
                ReportWsprAttribution::Skipped
            } else {
                ReportWsprAttribution::Pending
            }
        },
    }
}

fn find_armed<Q>(events: &Vec<OperatorEvent<Q>>, id: &str) -> (r: Option<usize>)
    ensures
        match r {
            Some(k) => first_from(events@, armed_for::<Q>(id@), 0) == Some(k as int) && k < events@.len(),
            None => first_from(events@, armed_for::<Q>(id@), 0) is None,
        },
{
    for k in 0..events.len()
        invariant
            forall|m: int| 0 <= m < k ==> !armed_for::<Q>(id@)(#[trigger] events@[m]),
    {
        let e = &events[k];
        let same = match &e.slot_id {
            Some(s) => crate::text::str_eq(s.as_str(), id),
            None => false,
        };
        let armed = match &e.payload {
            OperatorEventPayload::WsprCycleArmed { .. } => true,
            _ => false,
        };
        assert(events@[k as int] == *e);
        if same && armed {
            proof {
                crate::conductor_view::lemma_first_from_found(events@, armed_for::<Q>(id@), 0, k as int);
            }
            return Some(k);
        }
    }
    proof {
        crate::conductor_view::lemma_first_from_none(events@, armed_for::<Q>(id@), 0);
    }
    None
}

fn report_cycle<Q>(intent: &WsprCycleIntent, cycles: &Vec<ProjectedCycle>, skipped: &Vec<String>, events: &Vec<OperatorEvent<Q>>) -> (r: ReportWsprCycle)
    ensures
        report_cycle_ok(r, *intent, cycles@, skipped@, events@),
{
    let readiness_basis = match find_armed(events, intent.intent_id.as_str()) {
        Some(k) => match &events[k].payload {
            OperatorEventPayload::WsprCycleArmed { readiness, .. } => Some(match readiness {
                Some(ReadinessBasis::CommandVerified { .. }) => ReportWsprReadinessBasis::CommandVerified,
                Some(ReadinessBasis::Continued { .. }) => ReportWsprReadinessBasis::Continued,
                _ => ReportWsprReadinessBasis::OperatorConfirmed,
            }),
            _ => None,
        },
        None => None,
    };
    let observed = crate::conductor_view::find_cycle(cycles, intent.intent_id.as_str());
    let (actual_antenna, ready_at_ms, starts_at_ms, transmission_ends_at_ms, attribution) = match observed {
        Some(k) => {
            let c = &cycles[k];
            (
                Some(c.antenna_label.clone()),
                Some(c.ready_at_ms),
                Some(c.starts_at_ms),
                Some(c.transmission_ends_at_ms),
                if c.occupancy_fully_covers_transmission {
                    ReportWsprAttribution::Attributable
                } else {
                    ReportWsprAttribution::UnknownAntennaOccupancy
                },
            )
        },
        None => (
            None,
            None,
            None,
            None,
            if is_rejected(skipped, intent.intent_id.as_str()) {
                ReportWsprAttribution::Skipped
            } else {
                ReportWsprAttribution::Pending
            },
        ),
    };
    ReportWsprCycle {
        intent_id: intent.intent_id.clone(),
        sequence_number: intent.sequence_number,
        band: intent.band,
        direction: intent.direction,
        planned_antenna: intent.antenna_label.clone(),
        actual_antenna,
        ready_at_ms,
        starts_at_ms,
        transmission_ends_at_ms,
        attribution,
        readiness_basis,
    }
}

/// The planned cycles of a session as the report shows them, in plan
/// order.
pub fn report_cycles<Q>(session: &ControlSession, events: &Vec<OperatorEvent<Q>>) -> (r: Vec<ReportWsprCycle>)
    ensures
        r@.len() == session.intents@.len(),
        forall|i: int| 0 <= i < r@.len() ==> report_cycle_ok(
            #[trigger] r@[i],
            session.intents@[i],
            session.projection.cycles@,
            session.projection.skipped_intent_ids@,
            events@,
        ),
{
    let mut out: Vec<ReportWsprCycle> = Vec::new();
    for i in 0..session.intents.len()
        invariant
            out@.len() == i,
            forall|j: int| 0 <= j < i ==> report_cycle_ok(
                #[trigger] out@[j],
                session.intents@[j],
                session.projection.cycles@,
                session.projection.skipped_intent_ids@,
                events@,
            ),
    {
        let v = report_cycle(&session.intents[i], &session.projection.cycles, &session.projection.skipped_intent_ids, events);
        out.push(v);
        assert(out@[i as int] == v);
    }
    out
}

/// An antenna-controller invocation as the report shows it.
#[derive(Debug, Clone, PartialEq, Eq)]
pub struct ReportAntennaControlAttempt {
    pub record_id: String,
    pub role: AntennaControlRole,
    pub controller_profile_name: String,
    pub controller_profile_revision: String,
    pub resolved_program: String,
    pub resolved_arguments: Vec<String>,
    pub intent_id: String,
    pub antenna: String,
    pub target: String,
    pub mode: ExperimentMode,
    pub started_at_ms: i64,
    pub completed_at_ms: i64,
    pub elapsed_milliseconds: u64,
    pub disposition: AntennaControlDisposition,
    pub stdout: AntennaControlOutput,
    pub stderr: AntennaControlOutput,
}

/// A report attempt shows a rig record's controller invocation.
pub open spec fn attempt_ok(a: ReportAntennaControlAttempt, r: RigRecord) -> bool {
    r.antenna_control matches Some(inv) && {
        &&& a.record_id@ == r.record_id@
        &&& a.role == inv.role
        &&& a.controller_profile_name@ == inv.controller_profile_name@
        &&& a.controller_profile_revision@ == inv.controller_profile_revision@
        &&& a.resolved_program@ == inv.command.resolved_program@
        &&& a.resolved_arguments@ == inv.command.resolved_arguments@
        &&& a.intent_id@ == inv.context.intent_id@
        &&& a.antenna@ == inv.context.antenna@
        &&& a.target@ == inv.context.target@
        &&& a.mode == inv.context.mode
        &&& a.started_at_ms == inv.started_at_ms
        &&& a.completed_at_ms == inv.completed_at_ms
        &&& a.elapsed_milliseconds == inv.elapsed_milliseconds
        &&& a.disposition == inv.disposition
        &&& a.stdout == inv.stdout
        &&& a.stderr == inv.stderr
    }
}

/// The rig records that hold a controller invocation, in order.
pub open spec fn invocation_records(rig: Seq<RigRecord>) -> Seq<RigRecord>
    decreases rig.len(),
{
    if rig.len() == 0 {
        Seq::empty()
    } else {
        let rest = invocation_records(rig.drop_last());
        if rig.last().antenna_control is Some {
            rest.push(rig.last())
        } else {
            rest
        }
    }
}

fn copy_output(o: &AntennaControlOutput) -> (r: AntennaControlOutput)
    ensures
        r == *o,
{
    AntennaControlOutput { encoding: o.encoding, data: o.data.clone(), truncated: o.truncated }
}

/// The antenna-controller attempts the rig records hold, as the report
/// shows them, in record order.
pub fn control_attempts(rig: &Vec<RigRecord>) -> (r: Vec<ReportAntennaControlAttempt>)
    ensures
        r@.len() == invocation_records(rig@).len(),
        forall|i: int| 0 <= i < r@.len() ==> attempt_ok(#[trigger] r@[i], invocation_records(rig@)[i]),
{
    let mut out: Vec<ReportAntennaControlAttempt> = Vec::new();
    for i in 0..rig.len()
        invariant
            out@.len() == invocation_records(rig@.take(i as int)).len(),
            forall|j: int| 0 <= j < out@.len() ==> attempt_ok(#[trigger] out@[j], invocation_records(rig@.take(i as int))[j]),
    {
        let record = &rig[i];
        let ghost before = invocation_records(rig@.take(i as int));
        proof {
            assert(rig@.take(i + 1).drop_last() =~= rig@.take(i as int));
            assert(rig@.take(i + 1).last() == rig@[i as int]);
            assert(rig@[i as int] == *record);
        }
        if let Some(inv) = &record.antenna_control {
            let a = ReportAntennaControlAttempt {
                record_id: record.record_id.clone(),
                role: inv.role,
                controller_profile_name: inv.controller_profile_name.clone(),
                controller_profile_revision: inv.controller_profile_revision.clone(),
                resolved_program: inv.command.resolved_program.clone(),
                resolved_arguments: crate::text::copy_strings(&inv.command.resolved_arguments),
                intent_id: inv.context.intent_id.clone(),
                antenna: inv.context.antenna.clone(),
                target: inv.context.target.clone(),
                mode: inv.context.mode,
                started_at_ms: inv.started_at_ms,
                completed_at_ms: inv.completed_at_ms,
                elapsed_milliseconds: inv.elapsed_milliseconds,
                disposition: crate::policy::copy_disposition(&inv.disposition),
                stdout: copy_output(&inv.stdout),
                stderr: copy_output(&inv.stderr),
            };
            proof {
                assert(invocation_records(rig@.take(i + 1)) == before.push(*record));
                assert(attempt_ok(a, *record));
            }
            out.push(a);
            proof {
                assert forall|j: int| 0 <= j < out@.len() implies attempt_ok(#[trigger] out@[j], invocation_records(rig@.take(i + 1))[j]) by {
                    if j < out@.len() - 1 {
                        assert(before.push(*record)[j] == before[j]);
                    }
                }
            }
        } else {
            proof {
                assert(invocation_records(rig@.take(i + 1)) == before);
            }
        }
    }
    assert(rig@.take(rig@.len() as int) =~= rig@);
    out
}

/// How an adapter handled one record it received.
#[derive(Debug, Clone, Copy, PartialEq, Eq, Structural)]
pub enum AdapterDisposition {
    Accepted,
    Malformed,
    Unsupported,
    Filtered,
    Duplicate,
    Conflict,
    PartiallyNormalized,
}

/// The counts a WSPR.live import summary records.
#[derive(Debug, Clone, Copy, PartialEq, Eq, Structural)]
pub struct WsprLiveCounts {
    pub total: usize,
    pub accepted: usize,
    pub malformed: usize,
    pub filtered: usize,
    pub unsupported: usize,
    pub duplicate: usize,
    pub conflict: usize,
    pub observations_created: usize,
}

/// A WSPR.live import summary as recorded.
#[derive(Debug, Clone, PartialEq, Eq)]
pub struct WsprLiveImport {
    pub provider_id: String,
    pub source_id: String,
    pub captured_at_ms: i64,
    pub window_start_ms: i64,
    pub window_end_ms: i64,
    pub selected_bands: Vec<Band>,
    pub completeness: String,
    pub counts: WsprLiveCounts,
}

/// One adapter record: how it was handled, its record type, and what its
/// inline input reads as a WSPR.live import summary, where it reads as one.
#[derive(Debug, Clone, PartialEq, Eq)]
pub struct AdapterRecord {
    pub disposition: AdapterDisposition,
    pub record_type: String,
    pub inline_import: Option<WsprLiveImport>,
}

/// An import as the report shows it.
#[derive(Debug, Clone, PartialEq, Eq)]
pub struct ReportImportedEvidence {
    pub provider_id: String,
    pub source_id: String,
    pub captured_at_ms: i64,
    pub window_start_ms: i64,
    pub window_end_ms: i64,
    pub selected_bands: Vec<Band>,
    pub total_count: usize,
    pub accepted_count: usize,
    pub malformed_count: usize,
    pub filtered_count: usize,
    pub unsupported_count: usize,
    pub duplicate_count: usize,
    pub conflict_count: usize,
    pub observations_created: usize,
    pub completeness_known: bool,
}

/// The report's summary of the adapter records.
#[derive(Debug, Clone, PartialEq, Eq)]
pub struct ReportAdapterEvidence {
    pub record_count: usize,
    pub accepted_count: usize,
    pub malformed_count: usize,
    pub unsupported_count: usize,
    pub filtered_count: usize,
    pub duplicate_count: usize,
    pub conflict_count: usize,
    pub partially_normalized_count: usize,
    pub gap_count: usize,
    pub imports: Vec<ReportImportedEvidence>,
    pub evidence_complete: bool,
}

/// An import shown in the report: its identity, window, bands and counts;
/// its completeness is known when it says `known`.
pub open spec fn import_ok(r: ReportImportedEvidence, i: WsprLiveImport) -> bool {
    &&& r.provider_id@ == i.provider_id@
    &&& r.source_id@ == i.source_id@
    &&& r.captured_at_ms == i.captured_at_ms
    &&& r.window_start_ms == i.window_start_ms
    &&& r.window_end_ms == i.window_end_ms
    &&& r.selected_bands@ == i.selected_bands@
    &&& r.total_count == i.counts.total
    &&& r.accepted_count == i.counts.accepted
    &&& r.malformed_count == i.counts.malformed
    &&& r.filtered_count == i.counts.filtered
    &&& r.unsupported_count == i.counts.unsupported
    &&& r.duplicate_count == i.counts.duplicate
    &&& r.conflict_count == i.counts.conflict
    &&& r.observations_created == i.counts.observations_created
    &&& r.completeness_known == (i.completeness@ == "known"@)
}

/// An import summary as the report shows it.
pub fn into_report(i: &WsprLiveImport) -> (r: ReportImportedEvidence)
    ensures
        import_ok(r, *i),
{
    let mut bands: Vec<Band> = Vec::new();
    for k in 0..i.selected_bands.len()
        invariant
            bands@ == i.selected_bands@.take(k as int),
    {
        bands.push(i.selected_bands[k]);
        assert(i.selected_bands@.take(k + 1) =~= i.selected_bands@.take(k as int).push(i.selected_bands@[k as int]));
    }
    assert(i.selected_bands@.take(i.selected_bands@.len() as int) =~= i.selected_bands@);
    proof {
        reveal_strlit("known");
    }
    ReportImportedEvidence {
        provider_id: i.provider_id.clone(),
        source_id: i.source_id.clone(),
        captured_at_ms: i.captured_at_ms,
        window_start_ms: i.window_start_ms,
        window_end_ms: i.window_end_ms,
        selected_bands: bands,
        total_count: i.counts.total,
        accepted_count: i.counts.accepted,
        malformed_count: i.counts.malformed,
        filtered_count: i.counts.filtered,
        unsupported_count: i.counts.unsupported,
        duplicate_count: i.counts.duplicate,
        conflict_count: i.counts.conflict,
        observations_created: i.counts.observations_created,
        completeness_known: crate::text::str_eq(i.completeness.as_str(), "known"),
    }
}

/// How many records were handled with the disposition.
pub open spec fn count_disposition(records: Seq<AdapterRecord>, d: AdapterDisposition) -> nat
    decreases records.len(),
{
    if records.len() == 0 {
        0
    } else {
        count_disposition(records.drop_last(), d) + if records.last().disposition == d { 1nat } else { 0nat }
    }
}

/// How many records have the record type.
pub open spec fn count_type(records: Seq<AdapterRecord>, t: Seq<char>) -> nat
    decreases records.len(),
{
    if records.len() == 0 {
        0
    } else {
        count_type(records.drop_last(), t) + if records.last().record_type@ == t { 1nat } else { 0nat }
    }
}

/// The import summaries among the records, in order.
pub open spec fn import_summaries(records: Seq<AdapterRecord>) -> Seq<WsprLiveImport>
    decreases records.len(),
{
    if records.len() == 0 {
        Seq::empty()
    } else {
        let rest = import_summaries(records.drop_last());
        let last = records.last();
        if last.record_type@ == "wspr_live_import_summary"@ && last.inline_import is Some {
            rest.push(last.inline_import->Some_0)
        } else {
            rest
        }
    }
}

/// The adapter evidence shows each disposition's count, the acquisition
/// gaps, the import summaries, and is complete when there is no gap and
/// every import knows its completeness.
pub open spec fn adapter_evidence_ok(r: ReportAdapterEvidence, records: Seq<AdapterRecord>) -> bool {
    let imports = import_summaries(records);
    &&& r.record_count == records.len()
    &&& r.accepted_count == count_disposition(records, AdapterDisposition::Accepted)
    &&& r.malformed_count == count_disposition(records, AdapterDisposition::Malformed)
    &&& r.unsupported_count == count_disposition(records, AdapterDisposition::Unsupported)
    &&& r.filtered_count == count_disposition(records, AdapterDisposition::Filtered)
    &&& r.duplicate_count == count_disposition(records, AdapterDisposition::Duplicate)
    &&& r.conflict_count == count_disposition(records, AdapterDisposition::Conflict)
    &&& r.partially_normalized_count == count_disposition(records, AdapterDisposition::PartiallyNormalized)
    &&& r.gap_count == count_type(records, "acquisition_gap"@)
    &&& r.imports@.len() == imports.len()
    &&& forall|i: int| 0 <= i < imports.len() ==> import_ok(#[trigger] r.imports@[i], imports[i])
    &&& r.evidence_complete == (r.gap_count == 0 && imports_known(imports))
}

/// Every import knows its completeness.
pub open spec fn imports_known(imports: Seq<WsprLiveImport>) -> bool {
    forall|i: int| 0 <= i < imports.len() ==> (#[trigger] imports[i]).completeness@ == "known"@
}

proof fn lemma_imports_known_push(s: Seq<WsprLiveImport>, x: WsprLiveImport)
    ensures
        imports_known(s.push(x)) == (imports_known(s) && x.completeness@ == "known"@),
{
    let t = s.push(x);
    if imports_known(t) {
        assert(t[s.len() as int] == x);
        assert forall|i: int| 0 <= i < s.len() implies (#[trigger] s[i]).completeness@ == "known"@ by {
            assert(t[i] == s[i]);
        }
    }
    if imports_known(s) && x.completeness@ == "known"@ {
        assert forall|i: int| 0 <= i < t.len() implies (#[trigger] t[i]).completeness@ == "known"@ by {
            if i < s.len() {
                assert(t[i] == s[i]);
            }
        }
    }
}

proof fn lemma_counts_bounded(records: Seq<AdapterRecord>, d: AdapterDisposition, t: Seq<char>)
    ensures
        count_disposition(records, d) <= records.len(),
        count_type(records, t) <= records.len(),
    decreases records.len(),
{
    if records.len() > 0 {
        lemma_counts_bounded(records.drop_last(), d, t);
    }
}

/// The report's summary of the adapter records.
pub fn report_adapter_evidence(records: &Vec<AdapterRecord>) -> (r: ReportAdapterEvidence)
    ensures
        adapter_evidence_ok(r, records@),
{
    proof {
        reveal_strlit("acquisition_gap");
        reveal_strlit("wspr_live_import_summary");
        reveal_strlit("known");
    }
    let mut e = ReportAdapterEvidence {
        record_count: records.len(),
        accepted_count: 0,
        malformed_count: 0,
        unsupported_count: 0,
        filtered_count: 0,
        duplicate_count: 0,
        conflict_count: 0,
        partially_normalized_count: 0,
        gap_count: 0,
        imports: Vec::new(),
        evidence_complete: false,
    };
    let mut all_known = true;
    for i in 0..records.len()
        invariant
            e.record_count == records@.len(),
            e.accepted_count == count_disposition(records@.take(i as int), AdapterDisposition::Accepted),
            e.malformed_count == count_disposition(records@.take(i as int), AdapterDisposition::Malformed),
            e.unsupported_count == count_disposition(records@.take(i as int), AdapterDisposition::Unsupported),
            e.filtered_count == count_disposition(records@.take(i as int), AdapterDisposition::Filtered),
            e.duplicate_count == count_disposition(records@.take(i as int), AdapterDisposition::Duplicate),
            e.conflict_count == count_disposition(records@.take(i as int), AdapterDisposition::Conflict),
            e.partially_normalized_count == count_disposition(records@.take(i as int), AdapterDisposition::PartiallyNormalized),
            e.gap_count == count_type(records@.take(i as int), "acquisition_gap"@),
            e.imports@.len() == import_summaries(records@.take(i as int)).len(),
            forall|j: int| 0 <= j < import_summaries(records@.take(i as int)).len() ==> import_ok(#[trigger] e.imports@[j], import_summaries(records@.take(i as int))[j]),
            all_known == imports_known(import_summaries(records@.take(i as int))),
    {
        let record = &records[i];
        let ghost p = records@.take(i as int);
        let ghost q = records@.take(i + 1);
        proof {
            assert(q.drop_last() =~= p);
            assert(q.last() == records@[i as int]);
            assert(records@[i as int] == *record);
            lemma_counts_bounded(p, record.disposition, "acquisition_gap"@);
            lemma_counts_bounded(p, AdapterDisposition::Accepted, "acquisition_gap"@);
            lemma_counts_bounded(p, AdapterDisposition::Malformed, "acquisition_gap"@);
            lemma_counts_bounded(p, AdapterDisposition::Unsupported, "acquisition_gap"@);
            lemma_counts_bounded(p, AdapterDisposition::Filtered, "acquisition_gap"@);
            lemma_counts_bounded(p, AdapterDisposition::Duplicate, "acquisition_gap"@);
            lemma_counts_bounded(p, AdapterDisposition::Conflict, "acquisition_gap"@);
            lemma_counts_bounded(p, AdapterDisposition::PartiallyNormalized, "acquisition_gap"@);
        }
        match record.disposition {
            AdapterDisposition::Accepted => e.accepted_count = e.accepted_count + 1,
            AdapterDisposition::Malformed => e.malformed_count = e.malformed_count + 1,
            AdapterDisposition::Unsupported => e.unsupported_count = e.unsupported_count + 1,
            AdapterDisposition::Filtered => e.filtered_count = e.filtered_count + 1,
            AdapterDisposition::Duplicate => e.duplicate_count = e.duplicate_count + 1,
            AdapterDisposition::Conflict => e.conflict_count = e.conflict_count + 1,
            AdapterDisposition::PartiallyNormalized => e.partially_normalized_count = e.partially_normalized_count + 1,
        }
        if crate::text::str_eq(record.record_type.as_str(), "acquisition_gap") {
            e.gap_count = e.gap_count + 1;
        }
        let is_import = crate::text::str_eq(record.record_type.as_str(), "wspr_live_import_summary");
        if is_import {
            if let Some(import) = &record.inline_import {
                let shown = into_report(import);
                let known = crate::text::str_eq(import.completeness.as_str(), "known");
                proof {
                    assert(import_summaries(q) == import_summaries(p).push(*import));
                }
                e.imports.push(shown);
                proof {
                    let s = import_summaries(q);
                    assert forall|j: int| 0 <= j < s.len() implies import_ok(#[trigger] e.imports@[j], s[j]) by {
                        if j < s.len() - 1 {
                            assert(s[j] == import_summaries(p)[j]);
                        }
                    }
                    lemma_imports_known_push(import_summaries(p), *import);
                }
                all_known = all_known && known;
            } else {
                proof {
                    assert(import_summaries(q) == import_summaries(p));
                }
            }
        } else {
            proof {
                assert(import_summaries(q) == import_summaries(p));
            }
        }
    }
    proof {
        assert(records@.take(records@.len() as int) =~= records@);
    }
    e.evidence_complete = e.gap_count == 0 && all_known;
    e
}

/// What a live session contributes to its report.
#[derive(Debug, Clone, PartialEq, Eq)]
pub struct ReportSnapshotContext {
    pub checkpoint_revision: Option<u64>,
    pub lifecycle: Option<SessionLifecycle>,
    pub lifecycle_events: Vec<ReportLifecycleEvent>,
    pub operator_events: Vec<ReportOperatorEvent>,
    pub wspr_cycles: Vec<ReportWsprCycle>,
    pub antenna_control_attempts: Vec<ReportAntennaControlAttempt>,
    pub adapter_evidence: ReportAdapterEvidence,
}

/// The report contribution of a plain-slot session at `revision` and
/// `lifecycle`: its lifecycle and operator events and its adapter evidence;
/// such a session has no WSPR cycles or controller attempts.
pub fn report_snapshot<Q>(
    revision: u64,
    lifecycle: SessionLifecycle,
    events: &Vec<OperatorEvent<Q>>,
    rejected: &Vec<String>,
    adapter_records: &Vec<AdapterRecord>,
) -> (r: ReportSnapshotContext)
    requires
        plain_slot_log(events@),
    ensures
        r.checkpoint_revision == Some(revision),
        r.lifecycle == Some(lifecycle),
        lifecycle_models(r.lifecycle_events@) == lifecycle_entries(events@),
        r.operator_events@.len() == events@.len(),
        forall|i: int| 0 <= i < r.operator_events@.len() ==> report_event_ok(#[trigger] r.operator_events@[i], events@, rejected@, events@[i], None),
        r.wspr_cycles@.len() == 0,
        r.antenna_control_attempts@.len() == 0,
        adapter_evidence_ok(r.adapter_evidence, adapter_records@),
{
    ReportSnapshotContext {
        checkpoint_revision: Some(revision),
        lifecycle: Some(lifecycle),
        lifecycle_events: lifecycle_events(events),
        operator_events: project_operator_events_v2(events, rejected),
        wspr_cycles: Vec::new(),
        antenna_control_attempts: Vec::new(),
        adapter_evidence: report_adapter_evidence(adapter_records),
    }
}

/// The report contribution of a cycle-intention session: its committed
/// revision and lifecycle, its lifecycle and operator events, each planned
/// cycle with what the run made of it, the controller attempts its rig
/// records hold, and its adapter evidence.
pub fn report_snapshot_v3<Q, D: Fn(&SignalConfirmation<Q>) -> String>(
    session: &ControlSession,
    events: &Vec<OperatorEvent<Q>>,
    rejected: &Vec<String>,
    adapter_records: &Vec<AdapterRecord>,
    describe: &D,
) -> (r: ReportSnapshotContext)
    requires
        armed_starts_representable(events@),
        forall|c: &SignalConfirmation<Q>| call_requires(*describe, (c,)),
    ensures
        r.checkpoint_revision == Some(session.revision),
        r.lifecycle == Some(session.lifecycle),
        lifecycle_models(r.lifecycle_events@) == lifecycle_entries(events@),
        r.operator_events@.len() == events@.len(),
        exists|texts: Seq<Option<String>>| {
            &&& #[trigger] described(*describe, events@, texts)
            &&& forall|i: int| 0 <= i < r.operator_events@.len() ==> report_event_ok(
                #[trigger] r.operator_events@[i],
                events@,
                rejected@,
                events@[i],
                texts[i],
            )
        },
        r.wspr_cycles@.len() == session.intents@.len(),
        forall|i: int| 0 <= i < r.wspr_cycles@.len() ==> report_cycle_ok(
            #[trigger] r.wspr_cycles@[i],
            session.intents@[i],
            session.projection.cycles@,
            session.projection.skipped_intent_ids@,
            events@,
        ),
        r.antenna_control_attempts@.len() == invocation_records(session.rig@).len(),
        forall|i: int| 0 <= i < r.antenna_control_attempts@.len() ==> attempt_ok(
            #[trigger] r.antenna_control_attempts@[i],
            invocation_records(session.rig@)[i],
        ),
        adapter_evidence_ok(r.adapter_evidence, adapter_records@),
{
    ReportSnapshotContext {
        checkpoint_revision: Some(session.revision),
        lifecycle: Some(session.lifecycle),
        lifecycle_events: lifecycle_events(events),
        operator_events: project_operator_events_v3(events, rejected, describe),
        wspr_cycles: report_cycles(session, events),
        antenna_control_attempts: control_attempts(&session.rig),
        adapter_evidence: report_adapter_evidence(adapter_records),
    }
}

} // verus!
