//! Normalization of operator-entered conductor action fields.

use vstd::prelude::*;

use crate::errors::{plain_error, SessionErrorKind, SessionErrorPayload};
use crate::text::{opt_view, owned, push_str, trim, trim_seq};

verus! {

/// An optional note: trimmed, and absent when nothing but whitespace was
/// entered.
pub fn optional_text(value: Option<String>) -> (r: Option<String>)
    ensures
        opt_view(r) == (match value {
            Some(v) => if trim_seq(v@).len() > 0 {
                Some(trim_seq(v@))
            } else {
                None
            },
            None => None,
        }),
{
    match value {
        Some(v) => {
            let t = trim(v.as_str());
            if t.unicode_len() == 0 {
                None
            } else {
                Some(t)
            }
        },
        None => None,
    }
}

/// The detail of a rejected required field.
pub open spec fn required_text_detail(field: Seq<char>) -> Seq<char> {
    field + " must not be empty"@
}

/// A required field: its trimmed value, or a validation error naming the
/// field when nothing but whitespace was entered.
pub fn required_text(value: String, field: &str) -> (r: Result<String, SessionErrorPayload>)
    ensures
        trim_seq(value@).len() > 0 ==> (r matches Ok(t) && t@ == trim_seq(value@)),
        trim_seq(value@).len() == 0 ==> (r matches Err(e) && plain_error(
            e,
            SessionErrorKind::Validation,
            "Complete the required conductor action field."@,
            required_text_detail(field@),
        )),
{
    let t = trim(value.as_str());
    if t.unicode_len() == 0 {
        let mut detail = String::new();
        push_str(&mut detail, field);
        push_str(&mut detail, " must not be empty");
        proof {
            reveal_strlit(" must not be empty");
        }
        Err(SessionErrorPayload::new(
            SessionErrorKind::Validation,
            "Complete the required conductor action field.",
            detail.as_str(),
        ))
    } else {
        Ok(t)
    }
}

} // verus!

verus! {

/// A correctable operator fact of a plain-slot session.
#[derive(Debug, Clone, PartialEq, Eq)]
pub enum CorrectablePayloadV2 {
    AntennaStateConfirmed { antenna_label: String, note: Option<String> },
    SlotMissed { reason: Option<String> },
    SlotBad { reason: String },
    NoteAdded { note: String },
}

/// A correctable operator fact of a cycle-intention session; a signal-state
/// confirmation is carried as its debug text.
#[derive(Debug, Clone, PartialEq, Eq)]
pub enum CorrectablePayloadV3 {
    AntennaStateConfirmed { antenna_label: String, note: Option<String> },
    SignalStateConfirmed { confirmation: String },
    SlotMissed { reason: Option<String> },
    SlotBad { reason: String },
    NoteAdded { note: String },
}

/// The detail shown for a confirmed antenna, with its note.
pub open spec fn antenna_detail(label: Seq<char>, note: Option<String>) -> Seq<char> {
    match note {
        Some(n) => "Actual antenna "@ + label + "; "@ + n@,
        None => "Actual antenna "@ + label,
    }
}

fn antenna_detail_text(label: &String, note: &Option<String>) -> (r: String)
    ensures
        r@ == antenna_detail(label@, *note),
{
    let mut out = owned("Actual antenna ");
    push_str(&mut out, label.as_str());
    if let Some(n) = note {
        push_str(&mut out, "; ");
        push_str(&mut out, n.as_str());
    }
    proof {
        reveal_strlit("Actual antenna ");
        reveal_strlit("; ");
    }
    out
}

/// The detail text of a plain-slot operator fact.
pub open spec fn detail_v2_spec(p: CorrectablePayloadV2) -> Seq<char> {
    match p {
        CorrectablePayloadV2::AntennaStateConfirmed { antenna_label, note } => antenna_detail(antenna_label@, note),
        CorrectablePayloadV2::SlotMissed { reason } => match reason {
            Some(r) => r@,
            None => "Slot missed"@,
        },
        CorrectablePayloadV2::SlotBad { reason } => reason@,
        CorrectablePayloadV2::NoteAdded { note } => note@,
    }
}

/// The detail shown for a plain-slot operator fact.
pub fn correctable_detail_v2(payload: &CorrectablePayloadV2) -> (r: String)
    ensures
        r@ == detail_v2_spec(*payload),
{
    match payload {
        CorrectablePayloadV2::AntennaStateConfirmed { antenna_label, note } => antenna_detail_text(antenna_label, note),
        CorrectablePayloadV2::SlotMissed { reason } => match reason {
            Some(r) => owned(r.as_str()),
            None => owned("Slot missed"),
        },
        CorrectablePayloadV2::SlotBad { reason } => owned(reason.as_str()),
        CorrectablePayloadV2::NoteAdded { note } => owned(note.as_str()),
    }
}

/// The detail text of a cycle-intention operator fact.
pub open spec fn detail_v3_spec(p: CorrectablePayloadV3) -> Seq<char> {
    match p {
        CorrectablePayloadV3::AntennaStateConfirmed { antenna_label, note } => antenna_detail(antenna_label@, note),
        CorrectablePayloadV3::SignalStateConfirmed { confirmation } => "Signal-state confirmation "@ + confirmation@,
        CorrectablePayloadV3::SlotMissed { reason } => match reason {
            Some(r) => r@,
            None => "Slot missed"@,
        },
        CorrectablePayloadV3::SlotBad { reason } => reason@,
        CorrectablePayloadV3::NoteAdded { note } => note@,
    }
}

/// The detail shown for a cycle-intention operator fact.
pub fn correctable_detail_v3(payload: &CorrectablePayloadV3) -> (r: String)
    ensures
        r@ == detail_v3_spec(*payload),
{
    match payload {
        CorrectablePayloadV3::AntennaStateConfirmed { antenna_label, note } => antenna_detail_text(antenna_label, note),
        CorrectablePayloadV3::SignalStateConfirmed { confirmation } => {
            let mut out = owned("Signal-state confirmation ");
            push_str(&mut out, confirmation.as_str());
            proof {
                reveal_strlit("Signal-state confirmation ");
            }
            out
        },
        CorrectablePayloadV3::SlotMissed { reason } => match reason {
            Some(r) => owned(r.as_str()),
            None => owned("Slot missed"),
        },
        CorrectablePayloadV3::SlotBad { reason } => owned(reason.as_str()),
        CorrectablePayloadV3::NoteAdded { note } => owned(note.as_str()),
    }
}

} // verus!

