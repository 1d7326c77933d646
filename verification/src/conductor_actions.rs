//! Operator conductor actions turned into the operator events a session
//! records: required fields must be present, optional notes are trimmed,
//! and actions a session's schema cannot represent are refused.

use vstd::prelude::*;

use crate::actions::{optional_text, required_text, required_text_detail, CorrectablePayloadV2};
use crate::conductor_state::PendingAction;
use crate::errors::{plain_error, SessionErrorKind, SessionErrorPayload};
use crate::text::{opt_view, trim_seq};

verus! {

/// A correctable fact as the operator entered it. `Q` carries the measured
/// signal values (mode and power) unchanged.
#[derive(Debug, Clone, PartialEq)]
pub enum CorrectableAction<Q> {
    ConfirmAntenna { antenna_label: String, note: Option<String> },
    ConfirmSignal {
        frequency_hz: Option<u64>,
        measured: Q,
        transmitted_callsign: Option<String>,
        cadence_followed: Option<bool>,
        note: Option<String>,
    },
    MarkMissed { reason: Option<String> },
    MarkBad { reason: String },
    AddNote { note: String },
}

/// A conductor action as the operator requested it.
#[derive(Debug, Clone, PartialEq)]
pub enum ConductorAction<Q> {
    Start { note: Option<String> },
    Interrupt { reason: Option<String> },
    Resume { note: Option<String> },
    End { reason: Option<String> },
    Abandon { reason: Option<String> },
    ArmWsprCycle { intent_id: String, antenna_label: String },
    SkipWsprCycle { intent_id: String, reason: Option<String> },
    ConfirmAntenna { slot_id: String, antenna_label: String, note: Option<String> },
    ConfirmSignal {
        slot_id: String,
        frequency_hz: Option<u64>,
        measured: Q,
        transmitted_callsign: Option<String>,
        cadence_followed: Option<bool>,
        note: Option<String>,
    },
    MarkMissed { slot_id: String, reason: Option<String> },
    MarkBad { slot_id: String, reason: String },
    AddNote { slot_id: Option<String>, note: String },
    RetractEvent { target_event_id: String, reason: String },
    ReplaceEvent { target_event_id: String, slot_id: Option<String>, replacement: CorrectableAction<Q>, reason: String },
}

/// A confirmed signal state.
#[derive(Debug, Clone, PartialEq)]
pub struct SignalConfirmation<Q> {
    pub frequency_hz: Option<u64>,
    pub measured: Q,
    pub transmitted_callsign: Option<String>,
    pub cadence_followed: Option<bool>,
    pub note: Option<String>,
}

/// A correctable fact as recorded.
#[derive(Debug, Clone, PartialEq)]
pub enum CorrectablePayload<Q> {
    AntennaStateConfirmed { antenna_label: String, note: Option<String> },
    SignalStateConfirmed { confirmation: SignalConfirmation<Q> },
    SlotMissed { reason: Option<String> },
    SlotBad { reason: String },
    NoteAdded { note: String },
}

/// What made an armed cycle ready: the operator's confirmation, a
/// successful switch verified by command, or the readiness of the previous
/// cycle carried over unchanged.
#[derive(Debug, Clone, PartialEq, Eq)]
pub enum ReadinessBasis {
    OperatorConfirmed,
    CommandVerified { switch_record_id: String, verification_record_id: String },
    Continued { source_ready_event_id: String },
}

/// A correction of an earlier event.
#[derive(Debug, Clone, PartialEq)]
pub enum EventCorrection<Q> {
    Retract,
    Replace { occurred_at_ms: i64, slot_id: Option<String>, payload: CorrectablePayload<Q> },
}

/// An operator event as recorded.
#[derive(Debug, Clone, PartialEq)]
pub enum OperatorEventPayload<Q> {
    SessionStarted { note: Option<String> },
    SessionInterrupted { reason: Option<String> },
    InterruptionDetected { reason: Option<String> },
    SessionResumed { note: Option<String> },
    SessionEnded { reason: Option<String> },
    SessionAbandoned { reason: Option<String> },
    AntennaSwitchStarted { note: Option<String> },
    WsprCycleArmed { antenna_label: String, cycle_starts_at_ms: i64, readiness: Option<ReadinessBasis> },
    SlotMissed { reason: Option<String> },
    AntennaStateConfirmed { antenna_label: String, note: Option<String> },
    SignalStateConfirmed { confirmation: SignalConfirmation<Q> },
    SlotBad { reason: String },
    NoteAdded { note: String },
    EventCorrected { target_event_id: String, correction: EventCorrection<Q>, reason: String },
}

/// The schema version from which armed cycles record their readiness basis.
pub const READINESS_SCHEMA_VERSION: u16 = 5;

/// A required field is present: not blank.
pub open spec fn present(v: String) -> bool {
    trim_seq(v@).len() > 0
}

/// The trimmed text of an optional field, absent when blank.
pub open spec fn trimmed(v: Option<String>) -> Option<Seq<char>> {
    match v {
        Some(s) => if trim_seq(s@).len() > 0 {
            Some(trim_seq(s@))
        } else {
            None
        },
        None => None,
    }
}

/// The error of a missing required field.
pub open spec fn missing(e: SessionErrorPayload, field: Seq<char>) -> bool {
    plain_error(e, SessionErrorKind::Validation, "Complete the required conductor action field."@, required_text_detail(field))
}

/// The error of a signal confirmation in a session that cannot record one.
pub open spec fn signal_unsupported(e: SessionErrorPayload) -> bool {
    plain_error(
        e,
        SessionErrorKind::Validation,
        "Signal-state confirmation requires a schema-v3 session."@,
        "schema-v2 events cannot represent actual signal state"@,
    )
}

/// A recorded signal confirmation carries the entered values, trimmed.
pub open spec fn confirmation_of<Q>(
    c: SignalConfirmation<Q>,
    frequency_hz: Option<u64>,
    measured: Q,
    transmitted_callsign: Option<String>,
    cadence_followed: Option<bool>,
    note: Option<String>,
) -> bool {
    &&& c.frequency_hz == frequency_hz
    &&& c.measured == measured
    &&& opt_view(c.transmitted_callsign) == trimmed(transmitted_callsign)
    &&& c.cadence_followed == cadence_followed
    &&& opt_view(c.note) == trimmed(note)
}

/// Builds a signal confirmation with trimmed free text.
pub fn signal_confirmation<Q>(
    frequency_hz: Option<u64>,
    measured: Q,
    transmitted_callsign: Option<String>,
    cadence_followed: Option<bool>,
    note: Option<String>,
) -> (r: SignalConfirmation<Q>)
    ensures
        confirmation_of(r, frequency_hz, measured, transmitted_callsign, cadence_followed, note),
{
    SignalConfirmation {
        frequency_hz,
        measured,
        transmitted_callsign: optional_text(transmitted_callsign),
        cadence_followed,
        note: optional_text(note),
    }
}

/// The recorded form of a correctable fact in a cycle-intention session.
pub open spec fn correction_v3_spec<Q>(a: CorrectableAction<Q>, r: Result<CorrectablePayload<Q>, SessionErrorPayload>) -> bool {
    match a {
        CorrectableAction::ConfirmAntenna { antenna_label, note } => if !present(antenna_label) {
            r matches Err(e) && missing(e, "antennaLabel"@)
        } else {
            r matches Ok(CorrectablePayload::AntennaStateConfirmed { antenna_label: l, note: n }) && l@ == trim_seq(antenna_label@) && opt_view(n) == trimmed(note)
        },
        CorrectableAction::ConfirmSignal { frequency_hz, measured, transmitted_callsign, cadence_followed, note } => r matches Ok(CorrectablePayload::SignalStateConfirmed { confirmation })
            && confirmation_of(confirmation, frequency_hz, measured, transmitted_callsign, cadence_followed, note),
        CorrectableAction::MarkMissed { reason } => r matches Ok(CorrectablePayload::SlotMissed { reason: x }) && opt_view(x) == trimmed(reason),
        CorrectableAction::MarkBad { reason } => if !present(reason) {
            r matches Err(e) && missing(e, "reason"@)
        } else {
            r matches Ok(CorrectablePayload::SlotBad { reason: x }) && x@ == trim_seq(reason@)
        },
        CorrectableAction::AddNote { note } => if !present(note) {
            r matches Err(e) && missing(e, "note"@)
        } else {
            r matches Ok(CorrectablePayload::NoteAdded { note: x }) && x@ == trim_seq(note@)
        },
    }
}

/// Validates a correctable fact for a cycle-intention session.
pub fn correction_payload_v3<Q>(action: CorrectableAction<Q>) -> (r: Result<CorrectablePayload<Q>, SessionErrorPayload>)
    ensures
        correction_v3_spec(action, r),
{
    match action {
        CorrectableAction::ConfirmAntenna { antenna_label, note } => Ok(CorrectablePayload::AntennaStateConfirmed {
            antenna_label: required_text(antenna_label, "antennaLabel")?,
            note: optional_text(note),
        }),
        CorrectableAction::ConfirmSignal { frequency_hz, measured, transmitted_callsign, cadence_followed, note } => Ok(CorrectablePayload::SignalStateConfirmed {
            confirmation: signal_confirmation(frequency_hz, measured, transmitted_callsign, cadence_followed, note),
        }),
        CorrectableAction::MarkMissed { reason } => Ok(CorrectablePayload::SlotMissed { reason: optional_text(reason) }),
        CorrectableAction::MarkBad { reason } => Ok(CorrectablePayload::SlotBad { reason: required_text(reason, "reason")? }),
        CorrectableAction::AddNote { note } => Ok(CorrectablePayload::NoteAdded { note: required_text(note, "note")? }),
    }
}

/// The recorded form of a correctable fact in a plain-slot session, which
/// cannot record signal state.
pub open spec fn correction_v2_spec<Q>(a: CorrectableAction<Q>, r: Result<CorrectablePayload<Q>, SessionErrorPayload>) -> bool {
    match a {
        CorrectableAction::ConfirmSignal { .. } => r matches Err(e) && signal_unsupported(e),
        _ => correction_v3_spec(a, r),
    }
}

/// Validates a correctable fact for a plain-slot session.
pub fn correction_payload<Q>(action: CorrectableAction<Q>) -> (r: Result<CorrectablePayload<Q>, SessionErrorPayload>)
    ensures
        correction_v2_spec(action, r),
{
    match action {
        CorrectableAction::ConfirmSignal { .. } => Err(SessionErrorPayload::new(
            SessionErrorKind::Validation,
            "Signal-state confirmation requires a schema-v3 session.",
            "schema-v2 events cannot represent actual signal state",
        )),
        other => correction_payload_v3(other),
    }
}

} // verus!

verus! {

/// The slot reference and payload of a session-lifecycle action.
pub open spec fn lifecycle_spec<Q>(a: ConductorAction<Q>, r: Result<(Option<String>, OperatorEventPayload<Q>), SessionErrorPayload>) -> bool {
    match a {
        ConductorAction::Start { note } => r matches Ok((None, OperatorEventPayload::SessionStarted { note: x })) && opt_view(x) == trimmed(note),
        ConductorAction::Interrupt { reason } => r matches Ok((None, OperatorEventPayload::SessionInterrupted { reason: x })) && opt_view(x) == trimmed(reason),
        ConductorAction::Resume { note } => r matches Ok((None, OperatorEventPayload::SessionResumed { note: x })) && opt_view(x) == trimmed(note),
        ConductorAction::End { reason } => r matches Ok((None, OperatorEventPayload::SessionEnded { reason: x })) && opt_view(x) == trimmed(reason),
        ConductorAction::Abandon { reason } => r matches Ok((None, OperatorEventPayload::SessionAbandoned { reason: x })) && opt_view(x) == trimmed(reason),
        _ => true,
    }
}

/// The slot reference and payload of an action that both schemas record
/// alike: antenna confirmations, missed and bad marks, notes, and
/// corrections (whose replacement follows `correct`).
pub open spec fn common_spec<Q>(
    a: ConductorAction<Q>,
    occurred_at_ms: i64,
    r: Result<(Option<String>, OperatorEventPayload<Q>), SessionErrorPayload>,
    v3: bool,
) -> bool {
    match a {
        ConductorAction::ConfirmAntenna { slot_id, antenna_label, note } => if !present(slot_id) {
            r matches Err(e) && missing(e, "slotId"@)
        } else if !present(antenna_label) {
            r matches Err(e) && missing(e, "antennaLabel"@)
        } else {
            r matches Ok((Some(s), OperatorEventPayload::AntennaStateConfirmed { antenna_label: l, note: n })) && s@ == trim_seq(slot_id@)
                && l@ == trim_seq(antenna_label@) && opt_view(n) == trimmed(note)
        },
        ConductorAction::MarkMissed { slot_id, reason } => if !present(slot_id) {
            r matches Err(e) && missing(e, "slotId"@)
        } else {
            r matches Ok((Some(s), OperatorEventPayload::SlotMissed { reason: x })) && s@ == trim_seq(slot_id@) && opt_view(x) == trimmed(reason)
        },
        ConductorAction::MarkBad { slot_id, reason } => if !present(slot_id) {
            r matches Err(e) && missing(e, "slotId"@)
        } else if !present(reason) {
            r matches Err(e) && missing(e, "reason"@)
        } else {
            r matches Ok((Some(s), OperatorEventPayload::SlotBad { reason: x })) && s@ == trim_seq(slot_id@) && x@ == trim_seq(reason@)
        },
        ConductorAction::AddNote { slot_id, note } => if !present(note) {
            r matches Err(e) && missing(e, "note"@)
        } else {
            r matches Ok((s, OperatorEventPayload::NoteAdded { note: x })) && opt_view(s) == trimmed(slot_id) && x@ == trim_seq(note@)
        },
        ConductorAction::RetractEvent { target_event_id, reason } => if !present(target_event_id) {
            r matches Err(e) && missing(e, "targetEventId"@)
        } else if !present(reason) {
            r matches Err(e) && missing(e, "reason"@)
        } else {
            r matches Ok((None, OperatorEventPayload::EventCorrected { target_event_id: t, correction: EventCorrection::Retract, reason: x }))
                && t@ == trim_seq(target_event_id@) && x@ == trim_seq(reason@)
        },
        ConductorAction::ReplaceEvent { target_event_id, slot_id, replacement, reason } => if !present(target_event_id) {
            r matches Err(e) && missing(e, "targetEventId"@)
        } else {
            exists|c: Result<CorrectablePayload<Q>, SessionErrorPayload>| {
                &&& (if v3 { correction_v3_spec(replacement, c) } else { correction_v2_spec(replacement, c) })
                &&& match c {
                    Err(e) => r == Err::<(Option<String>, OperatorEventPayload<Q>), SessionErrorPayload>(e),
                    Ok(p) => if !present(reason) {
                        r matches Err(e) && missing(e, "reason"@)
                    } else {
                        r matches Ok((None, OperatorEventPayload::EventCorrected { target_event_id: t, correction: EventCorrection::Replace { occurred_at_ms: o, slot_id: s, payload }, reason: x }))
                            && t@ == trim_seq(target_event_id@) && o == occurred_at_ms && opt_view(s) == trimmed(slot_id)
                            && payload == p && x@ == trim_seq(reason@)
                    },
                }
            }
        },
        _ => true,
    }
}

/// An action is a session-lifecycle action.
pub open spec fn is_lifecycle<Q>(a: ConductorAction<Q>) -> bool {
    a is Start || a is Interrupt || a is Resume || a is End || a is Abandon
}

/// The error when a plain-slot session is asked for a cycle-intention action.
pub open spec fn intentions_unsupported(e: SessionErrorPayload) -> bool {
    plain_error(
        e,
        SessionErrorKind::Validation,
        "Operator-paced WSPR actions require a current session."@,
        "schema-v2 sessions do not support durable cycle intentions"@,
    )
}

/// The event payload of an action in a plain-slot session.
pub fn action_payload<Q>(action: ConductorAction<Q>, occurred_at_ms: i64) -> (r: Result<
    (Option<String>, OperatorEventPayload<Q>),
    SessionErrorPayload,
>)
    ensures
        is_lifecycle(action) ==> lifecycle_spec(action, r),
        (action is ArmWsprCycle || action is SkipWsprCycle) ==> (r matches Err(e) && intentions_unsupported(e)),
        action is ConfirmSignal ==> (r matches Err(e) && signal_unsupported(e)),
        common_spec(action, occurred_at_ms, r, false),
{
    match action {
        ConductorAction::Start { note } => Ok((None, OperatorEventPayload::SessionStarted { note: optional_text(note) })),
        ConductorAction::Interrupt { reason } => Ok((None, OperatorEventPayload::SessionInterrupted { reason: optional_text(reason) })),
        ConductorAction::Resume { note } => Ok((None, OperatorEventPayload::SessionResumed { note: optional_text(note) })),
        ConductorAction::End { reason } => Ok((None, OperatorEventPayload::SessionEnded { reason: optional_text(reason) })),
        ConductorAction::Abandon { reason } => Ok((None, OperatorEventPayload::SessionAbandoned { reason: optional_text(reason) })),
        ConductorAction::ArmWsprCycle { .. } | ConductorAction::SkipWsprCycle { .. } => Err(SessionErrorPayload::new(
            SessionErrorKind::Validation,
            "Operator-paced WSPR actions require a current session.",
            "schema-v2 sessions do not support durable cycle intentions",
        )),
        ConductorAction::ConfirmAntenna { slot_id, antenna_label, note } => {
            let slot = required_text(slot_id, "slotId")?;
            let label = required_text(antenna_label, "antennaLabel")?;
            Ok((Some(slot), OperatorEventPayload::AntennaStateConfirmed { antenna_label: label, note: optional_text(note) }))
        },
        ConductorAction::ConfirmSignal { .. } => Err(SessionErrorPayload::new(
            SessionErrorKind::Validation,
            "Signal-state confirmation requires a schema-v3 session.",
            "schema-v2 events cannot represent actual signal state",
        )),
        ConductorAction::MarkMissed { slot_id, reason } => {
            let slot = required_text(slot_id, "slotId")?;
            Ok((Some(slot), OperatorEventPayload::SlotMissed { reason: optional_text(reason) }))
        },
        ConductorAction::MarkBad { slot_id, reason } => {
            let slot = required_text(slot_id, "slotId")?;
            let reason = required_text(reason, "reason")?;
            Ok((Some(slot), OperatorEventPayload::SlotBad { reason }))
        },
        ConductorAction::AddNote { slot_id, note } => {
            let slot = optional_text(slot_id);
            let note = required_text(note, "note")?;
            Ok((slot, OperatorEventPayload::NoteAdded { note }))
        },
        ConductorAction::RetractEvent { target_event_id, reason } => {
            let target = required_text(target_event_id, "targetEventId")?;
            let reason = required_text(reason, "reason")?;
            Ok((None, OperatorEventPayload::EventCorrected { target_event_id: target, correction: EventCorrection::Retract, reason }))
        },
        ConductorAction::ReplaceEvent { target_event_id, slot_id, replacement, reason } => {
            let target = required_text(target_event_id, "targetEventId")?;
            let slot = optional_text(slot_id);
            let payload = correction_payload(replacement)?;
            let reason = required_text(reason, "reason")?;
            Ok((None, OperatorEventPayload::EventCorrected {
                target_event_id: target,
                correction: EventCorrection::Replace { occurred_at_ms, slot_id: slot, payload },
                reason,
            }))
        },
    }
}

/// The event payload of an action in a cycle-intention session. Arming
/// asks `next_cycle` for the start of the next WSPR cycle after the action,
/// and records the readiness basis from the schema that has one.
pub fn action_payload_v3<Q, F: FnOnce(i64) -> Result<i64, String>>(
    action: ConductorAction<Q>,
    occurred_at_ms: i64,
    schema_version: u16,
    next_cycle: F,
) -> (r: Result<(Option<String>, OperatorEventPayload<Q>), SessionErrorPayload>)
    requires
        call_requires(next_cycle, (occurred_at_ms,)),
    ensures
        is_lifecycle(action) ==> lifecycle_spec(action, r),
        common_spec(action, occurred_at_ms, r, true),
        action matches ConductorAction::SkipWsprCycle { intent_id, reason } ==> if !present(intent_id) {
            r matches Err(e) && missing(e, "intentId"@)
        } else {
            r matches Ok((Some(s), OperatorEventPayload::SlotMissed { reason: x })) && s@ == trim_seq(intent_id@) && opt_view(x) == trimmed(reason)
        },
        action matches ConductorAction::ConfirmSignal { slot_id, frequency_hz, measured, transmitted_callsign, cadence_followed, note } ==> if !present(slot_id) {
            r matches Err(e) && missing(e, "slotId"@)
        } else {
            r matches Ok((Some(s), OperatorEventPayload::SignalStateConfirmed { confirmation })) && s@ == trim_seq(slot_id@)
                && confirmation_of(confirmation, frequency_hz, measured, transmitted_callsign, cadence_followed, note)
        },
        action matches ConductorAction::ArmWsprCycle { intent_id, antenna_label } ==> exists|c: Result<i64, String>| {
            &&& call_ensures(next_cycle, (occurred_at_ms,), c)
            &&& match c {
                Err(m) => r matches Err(e) && plain_error(e, SessionErrorKind::Validation, "The next WSPR cycle could not be calculated."@, m@),
                Ok(start) => if !present(intent_id) {
                    r matches Err(e) && missing(e, "intentId"@)
                } else if !present(antenna_label) {
                    r matches Err(e) && missing(e, "antennaLabel"@)
                } else {
                    r matches Ok((Some(s), OperatorEventPayload::WsprCycleArmed { antenna_label: l, cycle_starts_at_ms, readiness }))
                        && s@ == trim_seq(intent_id@) && l@ == trim_seq(antenna_label@) && cycle_starts_at_ms == start
                        && readiness == (if schema_version >= READINESS_SCHEMA_VERSION { Some(ReadinessBasis::OperatorConfirmed) } else { None })
                },
            }
        },
{
    match action {
        ConductorAction::Start { note } => Ok((None, OperatorEventPayload::SessionStarted { note: optional_text(note) })),
        ConductorAction::Interrupt { reason } => Ok((None, OperatorEventPayload::SessionInterrupted { reason: optional_text(reason) })),
        ConductorAction::Resume { note } => Ok((None, OperatorEventPayload::SessionResumed { note: optional_text(note) })),
        ConductorAction::End { reason } => Ok((None, OperatorEventPayload::SessionEnded { reason: optional_text(reason) })),
        ConductorAction::Abandon { reason } => Ok((None, OperatorEventPayload::SessionAbandoned { reason: optional_text(reason) })),
        ConductorAction::ArmWsprCycle { intent_id, antenna_label } => {
            let cycle = next_cycle(occurred_at_ms);
            let start = match cycle {
                Err(m) => {
                    return Err(SessionErrorPayload::new(
                        SessionErrorKind::Validation,
                        "The next WSPR cycle could not be calculated.",
                        m.as_str(),
                    ));
                },
                Ok(s) => s,
            };
            let intent = required_text(intent_id, "intentId")?;
            let label = required_text(antenna_label, "antennaLabel")?;
            let readiness = if schema_version >= READINESS_SCHEMA_VERSION {
                Some(ReadinessBasis::OperatorConfirmed)
            } else {
                None
            };
            Ok((Some(intent), OperatorEventPayload::WsprCycleArmed { antenna_label: label, cycle_starts_at_ms: start, readiness }))
        },
        ConductorAction::SkipWsprCycle { intent_id, reason } => {
            let intent = required_text(intent_id, "intentId")?;
            Ok((Some(intent), OperatorEventPayload::SlotMissed { reason: optional_text(reason) }))
        },
        ConductorAction::ConfirmAntenna { slot_id, antenna_label, note } => {
            let slot = required_text(slot_id, "slotId")?;
            let label = required_text(antenna_label, "antennaLabel")?;
            Ok((Some(slot), OperatorEventPayload::AntennaStateConfirmed { antenna_label: label, note: optional_text(note) }))
        },
        ConductorAction::ConfirmSignal { slot_id, frequency_hz, measured, transmitted_callsign, cadence_followed, note } => {
            let slot = required_text(slot_id, "slotId")?;
            Ok((Some(slot), OperatorEventPayload::SignalStateConfirmed {
                confirmation: signal_confirmation(frequency_hz, measured, transmitted_callsign, cadence_followed, note),
            }))
        },
        ConductorAction::MarkMissed { slot_id, reason } => {
            let slot = required_text(slot_id, "slotId")?;
            Ok((Some(slot), OperatorEventPayload::SlotMissed { reason: optional_text(reason) }))
        },
        ConductorAction::MarkBad { slot_id, reason } => {
            let slot = required_text(slot_id, "slotId")?;
            let reason = required_text(reason, "reason")?;
            Ok((Some(slot), OperatorEventPayload::SlotBad { reason }))
        },
        ConductorAction::AddNote { slot_id, note } => {
            let slot = optional_text(slot_id);
            let note = required_text(note, "note")?;
            Ok((slot, OperatorEventPayload::NoteAdded { note }))
        },
        ConductorAction::RetractEvent { target_event_id, reason } => {
            let target = required_text(target_event_id, "targetEventId")?;
            let reason = required_text(reason, "reason")?;
            Ok((None, OperatorEventPayload::EventCorrected { target_event_id: target, correction: EventCorrection::Retract, reason }))
        },
        ConductorAction::ReplaceEvent { target_event_id, slot_id, replacement, reason } => {
            let target = required_text(target_event_id, "targetEventId")?;
            let slot = optional_text(slot_id);
            let payload = correction_payload_v3(replacement)?;
            let reason = required_text(reason, "reason")?;
            Ok((None, OperatorEventPayload::EventCorrected {
                target_event_id: target,
                correction: EventCorrection::Replace { occurred_at_ms, slot_id: slot, payload },
                reason,
            }))
        },
    }
}

/// The message of an antenna confirmation, with its note when it has one.
pub open spec fn antenna_summary(label: Seq<char>, note: Option<String>) -> Seq<char> {
    match note {
        Some(n) => "Actual antenna confirmed as "@ + label + ": "@ + n@,
        None => "Actual antenna confirmed as "@ + label + "."@,
    }
}

/// The message of a missed slot: its reason, or a plain statement.
pub open spec fn missed_summary(reason: Option<String>) -> Seq<char> {
    match reason {
        Some(r) => r@,
        None => "Slot marked missed."@,
    }
}

fn confirmed_antenna_text(label: &str, note: &Option<String>) -> (r: String)
    ensures
        r@ == antenna_summary(label@, *note),
{
    proof {
        reveal_strlit("Actual antenna confirmed as ");
        reveal_strlit(": ");
        reveal_strlit(".");
    }
    let mut out = String::from_str("Actual antenna confirmed as ");
    crate::text::push_str(&mut out, label);
    match note {
        Some(n) => {
            crate::text::push_str(&mut out, ": ");
            crate::text::push_str(&mut out, n.as_str());
        },
        None => crate::text::push_str(&mut out, "."),
    }
    out
}

fn missed_text(reason: &Option<String>) -> (r: String)
    ensures
        r@ == missed_summary(*reason),
{
    proof {
        reveal_strlit("Slot marked missed.");
    }
    match reason {
        Some(r) => r.clone(),
        None => String::from_str("Slot marked missed."),
    }
}

/// The kind and summary an effective fact of a plain-slot session shows.
pub open spec fn event_summary_spec(payload: CorrectablePayloadV2) -> (Seq<char>, Seq<char>) {
    match payload {
        CorrectablePayloadV2::AntennaStateConfirmed { antenna_label, note } => ("antenna_state_confirmed"@, antenna_summary(antenna_label@, note)),
        CorrectablePayloadV2::SlotMissed { reason } => ("slot_missed"@, missed_summary(reason)),
        CorrectablePayloadV2::SlotBad { reason } => ("slot_bad"@, reason@),
        CorrectablePayloadV2::NoteAdded { note } => ("note_added"@, note@),
    }
}

/// The kind and summary shown for an effective fact of a plain-slot session.
pub fn event_summary(payload: &CorrectablePayloadV2) -> (r: (&'static str, String))
    ensures
        (r.0@, r.1@) == event_summary_spec(*payload),
{
    proof {
        reveal_strlit("antenna_state_confirmed");
        reveal_strlit("slot_missed");
        reveal_strlit("slot_bad");
        reveal_strlit("note_added");
    }
    match payload {
        CorrectablePayloadV2::AntennaStateConfirmed { antenna_label, note } => (
            "antenna_state_confirmed",
            confirmed_antenna_text(antenna_label.as_str(), note),
        ),
        CorrectablePayloadV2::SlotMissed { reason } => ("slot_missed", missed_text(reason)),
        CorrectablePayloadV2::SlotBad { reason } => ("slot_bad", reason.clone()),
        CorrectablePayloadV2::NoteAdded { note } => ("note_added", note.clone()),
    }
}

/// The kind and summary an effective fact of a cycle-intention session
/// shows.
pub open spec fn event_summary_v3_spec<Q>(payload: CorrectablePayload<Q>) -> (Seq<char>, Seq<char>) {
    match payload {
        CorrectablePayload::AntennaStateConfirmed { antenna_label, note } => ("antenna_state_confirmed"@, antenna_summary(antenna_label@, note)),
        CorrectablePayload::SignalStateConfirmed { confirmation } => ("signal_state_confirmed"@, match confirmation.note {
            Some(n) => n@,
            None => "Actual transmitted signal state confirmed by the operator."@,
        }),
        CorrectablePayload::SlotMissed { reason } => ("slot_missed"@, missed_summary(reason)),
        CorrectablePayload::SlotBad { reason } => ("slot_bad"@, reason@),
        CorrectablePayload::NoteAdded { note } => ("note_added"@, note@),
    }
}

/// The kind and summary shown for an effective fact of a cycle-intention
/// session.
pub fn event_summary_v3<Q>(payload: &CorrectablePayload<Q>) -> (r: (&'static str, String))
    ensures
        (r.0@, r.1@) == event_summary_v3_spec(*payload),
{
    proof {
        reveal_strlit("antenna_state_confirmed");
        reveal_strlit("signal_state_confirmed");
        reveal_strlit("Actual transmitted signal state confirmed by the operator.");
        reveal_strlit("slot_missed");
        reveal_strlit("slot_bad");
        reveal_strlit("note_added");
    }
    match payload {
        CorrectablePayload::AntennaStateConfirmed { antenna_label, note } => (
            "antenna_state_confirmed",
            confirmed_antenna_text(antenna_label.as_str(), note),
        ),
        CorrectablePayload::SignalStateConfirmed { confirmation } => (
            "signal_state_confirmed",
            match &confirmation.note {
                Some(n) => n.clone(),
                None => String::from_str("Actual transmitted signal state confirmed by the operator."),
            },
        ),
        CorrectablePayload::SlotMissed { reason } => ("slot_missed", missed_text(reason)),
        CorrectablePayload::SlotBad { reason } => ("slot_bad", reason.clone()),
        CorrectablePayload::NoteAdded { note } => ("note_added", note.clone()),
    }
}

/// The schema version of plain-slot sessions.
pub const PLAIN_SLOT_SCHEMA_VERSION: u16 = 2;

/// An operator event as recorded, under the action token that issued it.
#[derive(Debug, Clone, PartialEq)]
pub struct OperatorEvent<Q> {
    pub schema_version: u16,
    pub session_id: String,
    pub recorded_at_ms: i64,
    pub mutation_id: String,
    pub event_id: String,
    pub occurred_at_ms: i64,
    pub slot_id: Option<String>,
    pub payload: OperatorEventPayload<Q>,
}

/// The error of an action whose token was never presented back.
pub open spec fn untimed_error(e: SessionErrorPayload) -> bool {
    plain_error(
        e,
        SessionErrorKind::ReportPipeline,
        "The local report could not be prepared."@,
        "conductor action time was not initialized"@,
    )
}

/// An event carries the token's identity, time and the action's slot and
/// payload.
pub open spec fn event_of<Q>(
    ev: OperatorEvent<Q>,
    schema_version: u16,
    session_id: Seq<char>,
    token: Seq<char>,
    at: i64,
    slot_id: Option<String>,
    payload: OperatorEventPayload<Q>,
) -> bool {
    &&& ev.schema_version == schema_version
    &&& ev.session_id@ == session_id
    &&& ev.recorded_at_ms == at
    &&& ev.occurred_at_ms == at
    &&& ev.mutation_id@ == token
    &&& ev.event_id@ == "event-for-"@ + token
    &&& ev.slot_id == slot_id
    &&& ev.payload == payload
}

/// `r` is what recording the payload outcome `p` of a plain-slot action
/// presented at `at` gives.
pub open spec fn plain_event_outcome<Q>(
    action: ConductorAction<Q>,
    at: i64,
    session_id: Seq<char>,
    token: Seq<char>,
    p: Result<(Option<String>, OperatorEventPayload<Q>), SessionErrorPayload>,
    r: Result<OperatorEvent<Q>, SessionErrorPayload>,
) -> bool {
    &&& (is_lifecycle(action) ==> lifecycle_spec(action, p))
    &&& ((action is ArmWsprCycle || action is SkipWsprCycle) ==> (p matches Err(e) && intentions_unsupported(e)))
    &&& (action is ConfirmSignal ==> (p matches Err(e) && signal_unsupported(e)))
    &&& common_spec(action, at, p, false)
    &&& match p {
        Err(e) => r == Err::<OperatorEvent<Q>, SessionErrorPayload>(e),
        Ok((slot, payload)) => r matches Ok(ev) && event_of(ev, PLAIN_SLOT_SCHEMA_VERSION, session_id, token, at, slot, payload),
    }
}

/// `r` is what recording the payload outcome `p` of a cycle-intention
/// action presented at `at` gives.
pub open spec fn intention_event_outcome<Q>(
    action: ConductorAction<Q>,
    at: i64,
    schema_version: u16,
    session_id: Seq<char>,
    token: Seq<char>,
    p: Result<(Option<String>, OperatorEventPayload<Q>), SessionErrorPayload>,
    r: Result<OperatorEvent<Q>, SessionErrorPayload>,
) -> bool {
    &&& (is_lifecycle(action) ==> lifecycle_spec(action, p))
    &&& common_spec(action, at, p, true)
    &&& match p {
        Err(e) => r == Err::<OperatorEvent<Q>, SessionErrorPayload>(e),
        Ok((slot, payload)) => r matches Ok(ev) && event_of(ev, schema_version, session_id, token, at, slot, payload),
    }
}

fn untimed() -> (r: SessionErrorPayload)
    ensures
        untimed_error(r),
{
    SessionErrorPayload::report_pipeline("conductor action time was not initialized")
}

fn event_record<Q>(
    schema_version: u16,
    session_id: &str,
    token: &str,
    at: i64,
    slot_id: Option<String>,
    payload: OperatorEventPayload<Q>,
) -> (r: OperatorEvent<Q>)
    ensures
        event_of(r, schema_version, session_id@, token@, at, slot_id, payload),
{
    let mut event_id = String::from_str("event-for-");
    crate::text::push_str(&mut event_id, token);
    proof {
        reveal_strlit("event-for-");
    }
    OperatorEvent {
        schema_version,
        session_id: String::from_str(session_id),
        recorded_at_ms: at,
        mutation_id: String::from_str(token),
        event_id,
        occurred_at_ms: at,
        slot_id,
        payload,
    }
}

/// The event a plain-slot session records for an action presented under
/// `pending`, at the time the token was first presented.
pub fn event_for_action<Q>(session_id: &str, pending: &PendingAction, action: ConductorAction<Q>) -> (r: Result<OperatorEvent<Q>, SessionErrorPayload>)
    ensures
        pending.occurred_at_ms is None ==> (r matches Err(e) && untimed_error(e)),
        pending.occurred_at_ms matches Some(at) ==> exists|p: Result<(Option<String>, OperatorEventPayload<Q>), SessionErrorPayload>|
            #[trigger] plain_event_outcome(action, at, session_id@, pending.token@, p, r),
{
    let at = match pending.occurred_at_ms {
        Some(t) => t,
        None => return Err(untimed()),
    };
    let p = action_payload(action, at);
    let ghost made = p;
    let r = match p {
        Err(e) => Err(e),
        Ok((slot, payload)) => Ok(event_record(PLAIN_SLOT_SCHEMA_VERSION, session_id, pending.token.as_str(), at, slot, payload)),
    };
    assert(plain_event_outcome(action, at, session_id@, pending.token@, made, r));
    r
}

/// The event a cycle-intention session of `schema_version` records for an
/// action presented under `pending`; arming asks `next_cycle` for the next
/// WSPR cycle after the action.
pub fn event_for_action_v3<Q, F: FnOnce(i64) -> Result<i64, String>>(
    session_id: &str,
    schema_version: u16,
    pending: &PendingAction,
    action: ConductorAction<Q>,
    next_cycle: F,
) -> (r: Result<OperatorEvent<Q>, SessionErrorPayload>)
    requires
        forall|t: i64| call_requires(next_cycle, (t,)),
    ensures
        pending.occurred_at_ms is None ==> (r matches Err(e) && untimed_error(e)),
        pending.occurred_at_ms matches Some(at) ==> exists|p: Result<(Option<String>, OperatorEventPayload<Q>), SessionErrorPayload>|
            #[trigger] intention_event_outcome(action, at, schema_version, session_id@, pending.token@, p, r),
{
    let at = match pending.occurred_at_ms {
        Some(t) => t,
        None => return Err(untimed()),
    };
    let p = action_payload_v3(action, at, schema_version, next_cycle);
    let ghost made = p;
    let r = match p {
        Err(e) => Err(e),
        Ok((slot, payload)) => Ok(event_record(schema_version, session_id, pending.token.as_str(), at, slot, payload)),
    };
    assert(intention_event_outcome(action, at, schema_version, session_id@, pending.token@, made, r));
    r
}

} // verus!
