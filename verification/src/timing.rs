//! Conductor timing: which phase a run is in at a given instant, what the
//! operator is told, and how long until the next boundary.

use vstd::prelude::*;

use crate::control_model::{band_name, SessionLifecycle, WsprCycleDirection, WsprCycleIntent};
use crate::command::band_text;
use crate::transition::{can_continue_spec, TransitionDisposition, TransitionPlan};
use crate::text::{replace_all, replace_seq};
use crate::text::{dec, owned, push_str, str_eq, u64_text, opt_view};

verus! {

/// How long WSPR.live is given to ingest spots after the final cycle.
pub const WSPR_LIVE_INGESTION_GRACE_SECONDS: i64 = 300;

/// The conductor's phase.
#[derive(Debug, Clone, Copy, PartialEq, Eq, Structural)]
pub enum ConductorPhase {
    Ready,
    AwaitingSlot,
    Guard,
    Active,
    BetweenSlots,
    Switching,
    Finalizing,
    Complete,
    Interrupted,
    Ended,
    Abandoned,
}

/// What the operator's facts say about one slot.
#[derive(Debug, Clone, Copy, PartialEq, Eq, Structural)]
pub enum SlotEvidenceStatus {
    Unknown,
    Confirmed,
    Missed,
    Bad,
    Conflicting,
}

/// One scheduled slot as the conductor shows it; instants are milliseconds
/// since the Unix epoch.
#[derive(Debug, Clone, PartialEq, Eq)]
pub struct ConductorSlotView {
    pub slot_id: String,
    pub sequence_number: u32,
    pub starts_at_ms: i64,
    pub usable_at_ms: i64,
    pub ends_at_ms: i64,
    pub band: String,
    pub planned_antenna: String,
    pub direction: Option<WsprCycleDirection>,
    pub actual_antenna: Option<String>,
    pub evidence_status: SlotEvidenceStatus,
}

/// The phase, operator guidance, seconds to the next boundary, and the
/// current and next slot indexes.
#[derive(Debug, Clone, PartialEq, Eq)]
pub struct TimingProjection {
    pub phase: ConductorPhase,
    pub guidance: String,
    pub seconds_to_transition: Option<i64>,
    pub current_index: Option<usize>,
    pub next_index: Option<usize>,
}

/// The view of a projection.
pub open spec fn projection_view(p: TimingProjection) -> (ConductorPhase, Seq<char>, Option<i64>, Option<usize>, Option<usize>) {
    (p.phase, p.guidance@, p.seconds_to_transition, p.current_index, p.next_index)
}

/// Whole seconds from `now` until `target` (milliseconds), never negative.
pub open spec fn seconds_until(target: int, now: int) -> i64 {
    if target - now <= 0 {
        0
    } else {
        ((target - now) / 1000) as i64
    }
}

fn secs_until(target: i128, now: i64) -> (r: i64)
    requires
        i64::MIN <= target <= i64::MAX + 300000,
    ensures
        r == seconds_until(target as int, now as int),
{
    let d: i128 = target - now as i128;
    if d <= 0 {
        0
    } else {
        (d / 1000) as i64
    }
}

/// The first slot at or after `k` whose window contains `now`.
pub open spec fn active_from(s: Seq<ConductorSlotView>, now: i64, k: int) -> Option<int>
    decreases s.len() - k,
{
    if k < 0 || k >= s.len() {
        None
    } else if now >= s[k].starts_at_ms && now < s[k].ends_at_ms {
        Some(k)
    } else {
        active_from(s, now, k + 1)
    }
}

/// The first slot at or after `k` that starts after `now`.
pub open spec fn upcoming_from(s: Seq<ConductorSlotView>, now: i64, k: int) -> Option<int>
    decreases s.len() - k,
{
    if k < 0 || k >= s.len() {
        None
    } else if s[k].starts_at_ms > now {
        Some(k)
    } else {
        upcoming_from(s, now, k + 1)
    }
}

/// The active slot found from `k` holds the instant in its window.
pub proof fn lemma_active_from(s: Seq<ConductorSlotView>, now: i64, k: int)
    requires
        0 <= k,
    ensures
        active_from(s, now, k) matches Some(i) ==> k <= i < s.len() && now >= s[i].starts_at_ms && now < s[i].ends_at_ms,
    decreases s.len() - k,
{
    if k < s.len() {
        lemma_active_from(s, now, k + 1);
    }
}

/// The upcoming slot found from `k` starts after the instant.
pub proof fn lemma_upcoming_from(s: Seq<ConductorSlotView>, now: i64, k: int)
    requires
        0 <= k,
    ensures
        upcoming_from(s, now, k) matches Some(i) ==> k <= i < s.len() && s[i].starts_at_ms > now,
    decreases s.len() - k,
{
    if k < s.len() {
        lemma_upcoming_from(s, now, k + 1);
    }
}

fn find_active(slots: &Vec<ConductorSlotView>, now: i64) -> (r: Option<usize>)
    ensures
        match r {
            Some(i) => active_from(slots@, now, 0) == Some(i as int),
            None => active_from(slots@, now, 0) is None,
        },
        r matches Some(i) ==> i < slots@.len(),
{
    proof {
        lemma_active_from(slots@, now, 0);
    }
    let mut i: usize = 0;
    while i < slots.len()
        invariant
            i <= slots@.len(),
            active_from(slots@, now, 0) == active_from(slots@, now, i as int),
        decreases slots@.len() - i,
    {
        if now >= slots[i].starts_at_ms && now < slots[i].ends_at_ms {
            return Some(i);
        }
        i = i + 1;
    }
    None
}

fn find_upcoming(slots: &Vec<ConductorSlotView>, now: i64) -> (r: Option<usize>)
    ensures
        match r {
            Some(i) => upcoming_from(slots@, now, 0) == Some(i as int),
            None => upcoming_from(slots@, now, 0) is None,
        },
        r matches Some(i) ==> i < slots@.len(),
{
    proof {
        lemma_upcoming_from(slots@, now, 0);
    }
    let mut i: usize = 0;
    while i < slots.len()
        invariant
            i <= slots@.len(),
            upcoming_from(slots@, now, 0) == upcoming_from(slots@, now, i as int),
        decreases slots@.len() - i,
    {
        if slots[i].starts_at_ms > now {
            return Some(i);
        }
        i = i + 1;
    }
    None
}

/// An optional slot index as `usize`.
pub open spec fn opt_index(o: Option<int>) -> Option<usize> {
    match o {
        Some(i) => Some(i as usize),
        None => None,
    }
}

/// The projection of a run with a plain schedule of slots.
pub open spec fn timing_spec(
    lifecycle: SessionLifecycle,
    acquisition_enabled: bool,
    s: Seq<ConductorSlotView>,
    now: i64,
) -> (ConductorPhase, Seq<char>, Option<i64>, Option<usize>, Option<usize>) {
    let first = if s.len() > 0 { Some(0usize) } else { None };
    match lifecycle {
        SessionLifecycle::Ready => (ConductorPhase::Ready, "Start the session when the station is ready. No rig or network is required."@, None, None, first),
        SessionLifecycle::Interrupted => (ConductorPhase::Interrupted, "The durable session is interrupted. Review recovery details, then resume or end."@, None, None, opt_index(upcoming_from(s, now, 0))),
        SessionLifecycle::Ended => (ConductorPhase::Ended, "The session is ended and no further evidence can be appended."@, None, None, None),
        SessionLifecycle::Abandoned => (ConductorPhase::Abandoned, "The session is abandoned and its existing evidence remains preserved."@, None, None, None),
        SessionLifecycle::Draft => (ConductorPhase::Ready, "Complete and validate the plan before starting this session."@, None, None, first),
        SessionLifecycle::Running => match active_from(s, now, 0) {
            Some(i) => {
                let slot = s[i];
                let next = if i + 1 < s.len() { Some((i + 1) as usize) } else { None };
                if now < slot.usable_at_ms {
                    (ConductorPhase::Guard, "Confirm the actual antenna for slot "@ + dec(slot.sequence_number as nat) + ". Guard time remains before evidence is usable."@, Some(seconds_until(slot.usable_at_ms as int, now as int)), Some(i as usize), next)
                } else {
                    (ConductorPhase::Active, "Slot "@ + dec(slot.sequence_number as nat) + " is active. Planned antenna: "@ + slot.planned_antenna@ + ". Confirm the actual antenna explicitly."@, Some(seconds_until(slot.ends_at_ms as int, now as int)), Some(i as usize), next)
                }
            },
            None => match upcoming_from(s, now, 0) {
                Some(n) => (
                    if n == 0 { ConductorPhase::AwaitingSlot } else { ConductorPhase::BetweenSlots },
                    "Prepare "@ + s[n].planned_antenna@ + " for slot "@ + dec(s[n].sequence_number as nat) + ". The planned label is guidance only until explicitly confirmed."@,
                    Some(seconds_until(s[n].starts_at_ms as int, now as int)),
                    None,
                    Some(n as usize),
                ),
                None => if acquisition_enabled && s.len() > 0 && s.last().evidence_status == SlotEvidenceStatus::Confirmed {
                    let acquisition_at = s.last().ends_at_ms + WSPR_LIVE_INGESTION_GRACE_SECONDS * 1000;
                    (
                        ConductorPhase::Finalizing,
                        if now < acquisition_at {
                            "The final antenna state is confirmed. Waiting for WSPR.live ingestion, then AntennaBench will capture cumulative public spots and end automatically."@
                        } else {
                            "Final WSPR.live acquisition is due. AntennaBench will finish automatically, or show recovery actions if the source fails."@
                        },
                        Some(seconds_until(acquisition_at, now as int)),
                        None,
                        None,
                    )
                } else {
                    (ConductorPhase::Complete, "All planned slot windows have elapsed. Confirm the final actual antenna to authorize public-spot finalization, or end explicitly without it."@, None, None, None)
                },
            },
        },
    }
}

fn plain_projection(phase: ConductorPhase, guidance: &str, next_index: Option<usize>) -> (r: TimingProjection)
    ensures
        projection_view(r) == (phase, guidance@, None::<i64>, None::<usize>, next_index),
{
    TimingProjection { phase, guidance: owned(guidance), seconds_to_transition: None, current_index: None, next_index }
}

/// Projects the conductor state of a run with a plain schedule of slots at
/// an instant.
pub fn timing_projection(
    lifecycle: SessionLifecycle,
    wspr_live_acquisition_enabled: bool,
    slots: &Vec<ConductorSlotView>,
    now_ms: i64,
) -> (r: TimingProjection)
    ensures
        projection_view(r) == timing_spec(lifecycle, wspr_live_acquisition_enabled, slots@, now_ms),
        r.current_index matches Some(i) ==> i < slots@.len(),
        r.next_index matches Some(i) ==> i < slots@.len(),
{
    let first = if slots.len() > 0 { Some(0usize) } else { None };
    match lifecycle {
        SessionLifecycle::Ready => return plain_projection(ConductorPhase::Ready, "Start the session when the station is ready. No rig or network is required.", first),
        SessionLifecycle::Interrupted => return plain_projection(ConductorPhase::Interrupted, "The durable session is interrupted. Review recovery details, then resume or end.", find_upcoming(slots, now_ms)),
        SessionLifecycle::Ended => return plain_projection(ConductorPhase::Ended, "The session is ended and no further evidence can be appended.", None),
        SessionLifecycle::Abandoned => return plain_projection(ConductorPhase::Abandoned, "The session is abandoned and its existing evidence remains preserved.", None),
        SessionLifecycle::Draft => return plain_projection(ConductorPhase::Ready, "Complete and validate the plan before starting this session.", first),
        SessionLifecycle::Running => {},
    }
    if let Some(index) = find_active(slots, now_ms) {
        let slot = &slots[index];
        let next = if index + 1 < slots.len() { Some(index + 1) } else { None };
        let seq = u64_text(slot.sequence_number as u64);
        if now_ms < slot.usable_at_ms {
            let mut g = owned("Confirm the actual antenna for slot ");
            push_str(&mut g, seq.as_str());
            push_str(&mut g, ". Guard time remains before evidence is usable.");
            proof {
                reveal_strlit("Confirm the actual antenna for slot ");
                reveal_strlit(". Guard time remains before evidence is usable.");
            }
            return TimingProjection {
                phase: ConductorPhase::Guard,
                guidance: g,
                seconds_to_transition: Some(secs_until(slot.usable_at_ms as i128, now_ms)),
                current_index: Some(index),
                next_index: next,
            };
        }
        let mut g = owned("Slot ");
        push_str(&mut g, seq.as_str());
        push_str(&mut g, " is active. Planned antenna: ");
        push_str(&mut g, slot.planned_antenna.as_str());
        push_str(&mut g, ". Confirm the actual antenna explicitly.");
        proof {
            reveal_strlit("Slot ");
            reveal_strlit(" is active. Planned antenna: ");
            reveal_strlit(". Confirm the actual antenna explicitly.");
        }
        return TimingProjection {
            phase: ConductorPhase::Active,
            guidance: g,
            seconds_to_transition: Some(secs_until(slot.ends_at_ms as i128, now_ms)),
            current_index: Some(index),
            next_index: next,
        };
    }
    if let Some(next) = find_upcoming(slots, now_ms) {
        let phase = if next == 0 { ConductorPhase::AwaitingSlot } else { ConductorPhase::BetweenSlots };
        let slot = &slots[next];
        let mut g = owned("Prepare ");
        push_str(&mut g, slot.planned_antenna.as_str());
        push_str(&mut g, " for slot ");
        let seq = u64_text(slot.sequence_number as u64);
        push_str(&mut g, seq.as_str());
        push_str(&mut g, ". The planned label is guidance only until explicitly confirmed.");
        proof {
            reveal_strlit("Prepare ");
            reveal_strlit(" for slot ");
            reveal_strlit(". The planned label is guidance only until explicitly confirmed.");
        }
        return TimingProjection {
            phase,
            guidance: g,
            seconds_to_transition: Some(secs_until(slot.starts_at_ms as i128, now_ms)),
            current_index: None,
            next_index: Some(next),
        };
    }
    let n = slots.len();
    if wspr_live_acquisition_enabled && n > 0 && slots[n - 1].evidence_status == SlotEvidenceStatus::Confirmed {
        let acquisition_at: i128 = slots[n - 1].ends_at_ms as i128 + (WSPR_LIVE_INGESTION_GRACE_SECONDS as i128) * 1000;
        let guidance = if (now_ms as i128) < acquisition_at {
            owned("The final antenna state is confirmed. Waiting for WSPR.live ingestion, then AntennaBench will capture cumulative public spots and end automatically.")
        } else {
            owned("Final WSPR.live acquisition is due. AntennaBench will finish automatically, or show recovery actions if the source fails.")
        };
        return TimingProjection {
            phase: ConductorPhase::Finalizing,
            guidance,
            seconds_to_transition: Some(secs_until(acquisition_at, now_ms)),
            current_index: None,
            next_index: None,
        };
    }
    plain_projection(ConductorPhase::Complete, "All planned slot windows have elapsed. Confirm the final actual antenna to authorize public-spot finalization, or end explicitly without it.", None)
}

} // verus!

verus! {

/// The latest-ending slot among those ended by `now`, scanning from index
/// `k` with the best found so far; of equally late slots the last one wins.
pub open spec fn latest_completed(s: Seq<ConductorSlotView>, now: i64, k: int, best: Option<int>) -> Option<int>
    decreases s.len() - k,
{
    if k < 0 || k >= s.len() {
        best
    } else {
        let better = s[k].ends_at_ms <= now && match best {
            None => true,
            Some(b) => s[k].ends_at_ms >= s[b].ends_at_ms,
        };
        latest_completed(s, now, k + 1, if better { Some(k) } else { best })
    }
}

proof fn lemma_latest_completed(s: Seq<ConductorSlotView>, now: i64, k: int, best: Option<int>)
    requires
        0 <= k,
        best matches Some(b) ==> 0 <= b < s.len(),
    ensures
        latest_completed(s, now, k, best) matches Some(i) ==> 0 <= i < s.len(),
    decreases s.len() - k,
{
    if k < s.len() {
        let better = s[k].ends_at_ms <= now && match best {
            None => true,
            Some(b) => s[k].ends_at_ms >= s[b].ends_at_ms,
        };
        lemma_latest_completed(s, now, k + 1, if better { Some(k) } else { best });
    }
}

fn find_completed(slots: &Vec<ConductorSlotView>, now: i64) -> (r: Option<usize>)
    ensures
        opt_index(latest_completed(slots@, now, 0, None)) == r,
        r matches Some(i) ==> i < slots@.len(),
{
    let mut best: Option<usize> = None;
    let mut k: usize = 0;
    while k < slots.len()
        invariant
            k <= slots@.len(),
            best matches Some(b) ==> b < slots@.len(),
            latest_completed(slots@, now, 0, None) == latest_completed(
                slots@,
                now,
                k as int,
                match best {
                    Some(b) => Some(b as int),
                    None => None,
                },
            ),
        decreases slots@.len() - k,
    {
        let better = slots[k].ends_at_ms <= now && match best {
            None => true,
            Some(b) => slots[k].ends_at_ms >= slots[b].ends_at_ms,
        };
        if better {
            best = Some(k);
        }
        k = k + 1;
    }
    proof {
        lemma_latest_completed(slots@, now, 0, None);
    }
    best
}

/// Joins texts with a separator.
pub open spec fn joined_with(parts: Seq<Seq<char>>, sep: Seq<char>) -> Seq<char>
    decreases parts.len(),
{
    if parts.len() == 0 {
        Seq::empty()
    } else if parts.len() == 1 {
        parts[0]
    } else {
        joined_with(parts.drop_last(), sep) + sep + parts.last()
    }
}

fn join_strings(parts: &Vec<String>, sep: &str) -> (r: String)
    ensures
        r@ == joined_with(parts@.map_values(|p: String| p@), sep@),
{
    let ghost views = parts@.map_values(|p: String| p@);
    let mut out = String::new();
    let mut i: usize = 0;
    while i < parts.len()
        invariant
            i <= parts@.len(),
            views == parts@.map_values(|p: String| p@),
            out@ == joined_with(views.take(i as int), sep@),
        decreases parts@.len() - i,
    {
        if i > 0 {
            push_str(&mut out, sep);
        }
        push_str(&mut out, parts[i].as_str());
        assert(views.take(i + 1).drop_last() =~= views.take(i as int));
        i = i + 1;
    }
    assert(views.take(parts@.len() as int) =~= views);
    out
}

/// The WSJT-X instruction and ready-action name for the next intention's
/// direction.
pub open spec fn direction_instruction(intent: WsprCycleIntent) -> (Seq<char>, Seq<char>) {
    match intent.direction {
        Some(WsprCycleDirection::Receive) => ("In WSJT-X, turn Enable Tx off and keep Monitor on"@, "Receive on "@ + intent.antenna_label@),
        Some(WsprCycleDirection::Transmit) => ("In WSJT-X, set Tx Pct to 100% and turn Enable Tx on"@, "Transmit on "@ + intent.antenna_label@),
        None => ("Prepare WSJT-X for the next WSPR period"@, intent.antenna_label@),
    }
}

/// A disposition that needs the operator.
pub open spec fn needs_operator(d: TransitionDisposition) -> bool {
    d == TransitionDisposition::OperatorActionRequired || d == TransitionDisposition::UnknownBlocked
}

/// The operator instructions for a transition that cannot simply continue,
/// in the order they are given.
pub open spec fn transition_instructions(intent: WsprCycleIntent, plan: TransitionPlan) -> Seq<Seq<char>> {
    let d = direction_instruction(intent);
    let v = plan.view;
    (if needs_operator(v.direction) { seq![d.0] } else { Seq::empty() })
    + (if v.band == TransitionDisposition::OperatorActionRequired { seq!["Set the station to "@ + band_name(intent.band)] } else { Seq::empty() })
    + (if v.signal == TransitionDisposition::OperatorActionRequired { seq!["Prepare the next controlled-signal allocation"@] } else { Seq::empty() })
    + (if needs_operator(v.antenna) {
        seq!["Switch to "@ + intent.antenna_label@]
    } else if v.antenna == TransitionDisposition::AutomaticActionPending {
        seq!["Waiting for automatic switch to "@ + intent.antenna_label@ + " and independent verification"@]
    } else {
        Seq::empty()
    })
    + (if plan.operator_action_required { seq!["then click "@ + d.1 + " ready"@] } else { Seq::empty() })
}

/// The guidance for a transition: its instructions as one sentence list.
pub open spec fn transition_guidance(intent: WsprCycleIntent, plan: TransitionPlan) -> Seq<char> {
    let parts = transition_instructions(intent, plan);
    if parts.len() == 0 {
        "Waiting for the Rust-owned transition coordinator."@
    } else {
        replace_seq(joined_with(parts, ". "@), ". then click"@, ", then click"@) + "."@
    }
}

/// The antenna shown for a slot: the confirmed one, else the planned one.
pub open spec fn shown_antenna(slot: ConductorSlotView) -> Seq<char> {
    match slot.actual_antenna {
        Some(a) => a@,
        None => slot.planned_antenna@,
    }
}

/// The projection of a run planned as WSPR cycle intentions.
pub open spec fn timing_v3_spec(
    lifecycle: SessionLifecycle,
    acquisition_enabled: bool,
    s: Seq<ConductorSlotView>,
    next_intent: Option<WsprCycleIntent>,
    plan: TransitionPlan,
    switching: bool,
    now: i64,
) -> (ConductorPhase, Seq<char>, Option<i64>, Option<usize>, Option<usize>) {
    let completed = opt_index(latest_completed(s, now, 0, None));
    match lifecycle {
        SessionLifecycle::Ready => (ConductorPhase::Ready, "Start when you are ready."@, None, None, None),
        SessionLifecycle::Draft => (ConductorPhase::Ready, "Start when you are ready."@, None, None, None),
        SessionLifecycle::Interrupted => (ConductorPhase::Interrupted, "The session is interrupted and antenna occupancy is unknown. Resume, then confirm an antenna again."@, None, None, None),
        SessionLifecycle::Ended => (ConductorPhase::Ended, "The session is ended and no further evidence can be appended."@, None, None, None),
        SessionLifecycle::Abandoned => (ConductorPhase::Abandoned, "The session is abandoned and its existing evidence remains preserved."@, None, None, None),
        SessionLifecycle::Running => match active_from(s, now, 0) {
            Some(i) => {
                let op = match s[i].direction {
                    Some(WsprCycleDirection::Receive) => "receiving"@,
                    Some(WsprCycleDirection::Transmit) => "transmitting"@,
                    None => "active"@,
                };
                (
                    ConductorPhase::Active,
                    "WSPR cycle "@ + dec(s[i].sequence_number as nat) + " is "@ + op + " on "@ + s[i].band@ + ". Keep "@ + shown_antenna(s[i]) + " connected until the WSPR period completes."@,
                    Some(seconds_until(s[i].ends_at_ms as int, now as int)),
                    Some(i as usize),
                    None,
                )
            },
            None => match upcoming_from(s, now, 0) {
                Some(i) => {
                    let op = match s[i].direction {
                        Some(WsprCycleDirection::Receive) => "receive"@,
                        Some(WsprCycleDirection::Transmit) => "transmit"@,
                        None => "WSPR"@,
                    };
                    (
                        ConductorPhase::AwaitingSlot,
                        shown_antenna(s[i]) + " is ready to "@ + op + ". WSPR cycle "@ + dec(s[i].sequence_number as nat) + " starts at the next even-minute WSPR time."@,
                        Some(seconds_until(s[i].starts_at_ms as int, now as int)),
                        None,
                        Some(i as usize),
                    )
                },
                None => match next_intent {
                    Some(intent) => if can_continue_spec(plan) {
                        (
                            ConductorPhase::BetweenSlots,
                            intent.antenna_label@ + " remains ready with unchanged WSPR settings. AntennaBench will continue automatically."@,
                            match plan.prior_transmission_ends_at {
                                Some(deadline) => Some(seconds_until(deadline as int, now as int)),
                                None => None,
                            },
                            completed,
                            None,
                        )
                    } else {
                        (
                            if switching { ConductorPhase::Switching } else { ConductorPhase::BetweenSlots },
                            transition_guidance(intent, plan),
                            None,
                            completed,
                            None,
                        )
                    },
                    None => if acquisition_enabled && s.len() > 0 {
                        let acquisition_at = s.last().ends_at_ms + WSPR_LIVE_INGESTION_GRACE_SECONDS * 1000;
                        (
                            ConductorPhase::Finalizing,
                            if now < acquisition_at {
                                "All intended cycles are complete. Waiting briefly for WSPR.live ingestion before final capture."@
                            } else {
                                "Final WSPR.live acquisition is due. AntennaBench will finish automatically or show a retry action."@
                            },
                            Some(seconds_until(acquisition_at, now as int)),
                            completed,
                            None,
                        )
                    } else {
                        (ConductorPhase::Complete, "All intended WSPR cycles are complete. End the session when you are satisfied with the evidence."@, None, completed, None)
                    },
                },
            },
        },
    }
}

fn instructions_for(intent: &WsprCycleIntent, plan: &TransitionPlan) -> (r: Vec<String>)
    ensures
        r@.map_values(|p: String| p@) == transition_instructions(*intent, *plan),
{
    proof {
        reveal_strlit("In WSJT-X, turn Enable Tx off and keep Monitor on");
        reveal_strlit("In WSJT-X, set Tx Pct to 100% and turn Enable Tx on");
        reveal_strlit("Prepare WSJT-X for the next WSPR period");
        reveal_strlit("Receive on ");
        reveal_strlit("Transmit on ");
        reveal_strlit("Set the station to ");
        reveal_strlit("Prepare the next controlled-signal allocation");
        reveal_strlit("Switch to ");
        reveal_strlit("Waiting for automatic switch to ");
        reveal_strlit(" and independent verification");
        reveal_strlit("then click ");
        reveal_strlit(" ready");
    }
    let (first, ready_name) = match intent.direction {
        Some(WsprCycleDirection::Receive) => {
            let mut n = owned("Receive on ");
            push_str(&mut n, intent.antenna_label.as_str());
            (owned("In WSJT-X, turn Enable Tx off and keep Monitor on"), n)
        },
        Some(WsprCycleDirection::Transmit) => {
            let mut n = owned("Transmit on ");
            push_str(&mut n, intent.antenna_label.as_str());
            (owned("In WSJT-X, set Tx Pct to 100% and turn Enable Tx on"), n)
        },
        None => (owned("Prepare WSJT-X for the next WSPR period"), owned(intent.antenna_label.as_str())),
    };
    let ghost target = transition_instructions(*intent, *plan);
    let v = plan.view;
    let mut out: Vec<String> = Vec::new();
    let ghost p1: Seq<Seq<char>> = if needs_operator(v.direction) { seq![first@] } else { Seq::empty() };
    if v.direction == TransitionDisposition::OperatorActionRequired || v.direction == TransitionDisposition::UnknownBlocked {
        out.push(first);
    }
    assert(out@.map_values(|p: String| p@) =~= p1);
    let ghost p2: Seq<Seq<char>> = p1 + if v.band == TransitionDisposition::OperatorActionRequired { seq!["Set the station to "@ + band_name(intent.band)] } else { Seq::empty() };
    if v.band == TransitionDisposition::OperatorActionRequired {
        let mut t = owned("Set the station to ");
        let b = band_text(intent.band);
        push_str(&mut t, b.as_str());
        out.push(t);
    }
    assert(out@.map_values(|p: String| p@) =~= p2);
    let ghost p3: Seq<Seq<char>> = p2 + if v.signal == TransitionDisposition::OperatorActionRequired { seq!["Prepare the next controlled-signal allocation"@] } else { Seq::empty() };
    if v.signal == TransitionDisposition::OperatorActionRequired {
        out.push(owned("Prepare the next controlled-signal allocation"));
    }
    assert(out@.map_values(|p: String| p@) =~= p3);
    let ghost p4: Seq<Seq<char>> = p3 + if needs_operator(v.antenna) {
        seq!["Switch to "@ + intent.antenna_label@]
    } else if v.antenna == TransitionDisposition::AutomaticActionPending {
        seq!["Waiting for automatic switch to "@ + intent.antenna_label@ + " and independent verification"@]
    } else {
        Seq::empty()
    };
    if v.antenna == TransitionDisposition::OperatorActionRequired || v.antenna == TransitionDisposition::UnknownBlocked {
        let mut t = owned("Switch to ");
        push_str(&mut t, intent.antenna_label.as_str());
        out.push(t);
    } else if v.antenna == TransitionDisposition::AutomaticActionPending {
        let mut t = owned("Waiting for automatic switch to ");
        push_str(&mut t, intent.antenna_label.as_str());
        push_str(&mut t, " and independent verification");
        out.push(t);
    }
    assert(out@.map_values(|p: String| p@) =~= p4);
    if plan.operator_action_required {
        let mut t = owned("then click ");
        push_str(&mut t, ready_name.as_str());
        push_str(&mut t, " ready");
        out.push(t);
    }
    assert(out@.map_values(|p: String| p@) =~= target);
    out
}

/// Projects the conductor state of a run planned as WSPR cycle intentions:
/// the cycle in progress, the next scheduled one, the transition to the next
/// intention, or the final acquisition.
pub fn timing_projection_v3(
    lifecycle: SessionLifecycle,
    wspr_live_acquisition_enabled: bool,
    slots: &Vec<ConductorSlotView>,
    next_intent: Option<&WsprCycleIntent>,
    transition: &TransitionPlan,
    switching: bool,
    now_ms: i64,
) -> (r: TimingProjection)
    ensures
        projection_view(r) == timing_v3_spec(
            lifecycle,
            wspr_live_acquisition_enabled,
            slots@,
            match next_intent {
                Some(i) => Some(*i),
                None => None,
            },
            *transition,
            switching,
            now_ms,
        ),
        r.current_index matches Some(i) ==> i < slots@.len(),
        r.next_index matches Some(i) ==> i < slots@.len(),
{
    match lifecycle {
        SessionLifecycle::Ready | SessionLifecycle::Draft => return plain_projection(ConductorPhase::Ready, "Start when you are ready.", None),
        SessionLifecycle::Interrupted => return plain_projection(ConductorPhase::Interrupted, "The session is interrupted and antenna occupancy is unknown. Resume, then confirm an antenna again.", None),
        SessionLifecycle::Ended => return plain_projection(ConductorPhase::Ended, "The session is ended and no further evidence can be appended.", None),
        SessionLifecycle::Abandoned => return plain_projection(ConductorPhase::Abandoned, "The session is abandoned and its existing evidence remains preserved.", None),
        SessionLifecycle::Running => {},
    }
    if let Some(index) = find_active(slots, now_ms) {
        let slot = &slots[index];
        proof {
            reveal_strlit("receiving");
            reveal_strlit("transmitting");
            reveal_strlit("active");
            reveal_strlit("WSPR cycle ");
            reveal_strlit(" is ");
            reveal_strlit(" on ");
            reveal_strlit(". Keep ");
            reveal_strlit(" connected until the WSPR period completes.");
        }
        let op = match slot.direction {
            Some(WsprCycleDirection::Receive) => "receiving",
            Some(WsprCycleDirection::Transmit) => "transmitting",
            None => "active",
        };
        let mut g = owned("WSPR cycle ");
        let seq = u64_text(slot.sequence_number as u64);
        push_str(&mut g, seq.as_str());
        push_str(&mut g, " is ");
        push_str(&mut g, op);
        push_str(&mut g, " on ");
        push_str(&mut g, slot.band.as_str());
        push_str(&mut g, ". Keep ");
        match &slot.actual_antenna {
            Some(a) => push_str(&mut g, a.as_str()),
            None => push_str(&mut g, slot.planned_antenna.as_str()),
        }
        push_str(&mut g, " connected until the WSPR period completes.");
        return TimingProjection {
            phase: ConductorPhase::Active,
            guidance: g,
            seconds_to_transition: Some(secs_until(slot.ends_at_ms as i128, now_ms)),
            current_index: Some(index),
            next_index: None,
        };
    }
    if let Some(index) = find_upcoming(slots, now_ms) {
        let slot = &slots[index];
        proof {
            reveal_strlit("receive");
            reveal_strlit("transmit");
            reveal_strlit("WSPR");
            reveal_strlit(" is ready to ");
            reveal_strlit(". WSPR cycle ");
            reveal_strlit(" starts at the next even-minute WSPR time.");
        }
        let op = match slot.direction {
            Some(WsprCycleDirection::Receive) => "receive",
            Some(WsprCycleDirection::Transmit) => "transmit",
            None => "WSPR",
        };
        let mut g = match &slot.actual_antenna {
            Some(a) => owned(a.as_str()),
            None => owned(slot.planned_antenna.as_str()),
        };
        push_str(&mut g, " is ready to ");
        push_str(&mut g, op);
        push_str(&mut g, ". WSPR cycle ");
        let seq = u64_text(slot.sequence_number as u64);
        push_str(&mut g, seq.as_str());
        push_str(&mut g, " starts at the next even-minute WSPR time.");
        return TimingProjection {
            phase: ConductorPhase::AwaitingSlot,
            guidance: g,
            seconds_to_transition: Some(secs_until(slot.starts_at_ms as i128, now_ms)),
            current_index: None,
            next_index: Some(index),
        };
    }
    let completed = find_completed(slots, now_ms);
    if let Some(intent) = next_intent {
        if transition.can_continue() {
            let mut g = owned(intent.antenna_label.as_str());
            push_str(&mut g, " remains ready with unchanged WSPR settings. AntennaBench will continue automatically.");
            proof {
                reveal_strlit(" remains ready with unchanged WSPR settings. AntennaBench will continue automatically.");
            }
            let secs = match transition.prior_transmission_ends_at() {
                Some(deadline) => Some(secs_until(deadline as i128, now_ms)),
                None => None,
            };
            return TimingProjection {
                phase: ConductorPhase::BetweenSlots,
                guidance: g,
                seconds_to_transition: secs,
                current_index: completed,
                next_index: None,
            };
        }
        let instructions = instructions_for(intent, transition);
        let guidance = if instructions.len() == 0 {
            proof {
                reveal_strlit("Waiting for the Rust-owned transition coordinator.");
            }
            owned("Waiting for the Rust-owned transition coordinator.")
        } else {
            let joined = join_strings(&instructions, ". ");
            let mut g = replace_all(joined.as_str(), ". then click", ", then click");
            push_str(&mut g, ".");
            proof {
                reveal_strlit(". ");
                reveal_strlit(". then click");
                reveal_strlit(", then click");
                reveal_strlit(".");
            }
            g
        };
        return TimingProjection {
            phase: if switching { ConductorPhase::Switching } else { ConductorPhase::BetweenSlots },
            guidance,
            seconds_to_transition: None,
            current_index: completed,
            next_index: None,
        };
    }
    let n = slots.len();
    if wspr_live_acquisition_enabled && n > 0 {
        let acquisition_at: i128 = slots[n - 1].ends_at_ms as i128 + (WSPR_LIVE_INGESTION_GRACE_SECONDS as i128) * 1000;
        let guidance = if (now_ms as i128) < acquisition_at {
            owned("All intended cycles are complete. Waiting briefly for WSPR.live ingestion before final capture.")
        } else {
            owned("Final WSPR.live acquisition is due. AntennaBench will finish automatically or show a retry action.")
        };
        return TimingProjection {
            phase: ConductorPhase::Finalizing,
            guidance,
            seconds_to_transition: Some(secs_until(acquisition_at, now_ms)),
            current_index: completed,
            next_index: None,
        };
    }
    TimingProjection {
        phase: ConductorPhase::Complete,
        guidance: owned("All intended WSPR cycles are complete. End the session when you are satisfied with the evidence."),
        seconds_to_transition: None,
        current_index: completed,
        next_index: None,
    }
}

} // verus!

verus! {

/// An operator fact recorded about a slot.
#[derive(Debug, Clone, PartialEq, Eq)]
pub enum SlotFact {
    AntennaStateConfirmed { antenna_label: String },
    SlotMissed,
    SlotBad,
    SignalStateConfirmed,
    NoteAdded,
}

/// The antenna a fact confirms, if it confirms one.
pub open spec fn confirmed_label(f: SlotFact) -> Option<Seq<char>> {
    match f {
        SlotFact::AntennaStateConfirmed { antenna_label } => Some(antenna_label@),
        _ => None,
    }
}

/// The first confirmed antenna among the facts from index `k`.
pub open spec fn first_confirmed(facts: Seq<SlotFact>, k: int) -> Option<Seq<char>>
    decreases facts.len() - k,
{
    if k < 0 || k >= facts.len() {
        None
    } else {
        match confirmed_label(facts[k]) {
            Some(l) => Some(l),
            None => first_confirmed(facts, k + 1),
        }
    }
}

/// Two facts confirm different antennas.
pub open spec fn conflicting_labels(facts: Seq<SlotFact>) -> bool {
    exists|i: int, j: int|
        0 <= i < facts.len() && 0 <= j < facts.len() && (#[trigger] confirmed_label(facts[i])) is Some
            && (#[trigger] confirmed_label(facts[j])) is Some && confirmed_label(facts[i])
            != confirmed_label(facts[j])
}

/// Some fact is of the given kind.
pub open spec fn has_missed(facts: Seq<SlotFact>) -> bool {
    exists|i: int| 0 <= i < facts.len() && #[trigger] facts[i] == SlotFact::SlotMissed
}

/// Some fact marks the slot bad.
pub open spec fn has_bad(facts: Seq<SlotFact>) -> bool {
    exists|i: int| 0 <= i < facts.len() && #[trigger] facts[i] == SlotFact::SlotBad
}

/// The evidence status of a slot from its facts: one confirmed antenna, a
/// miss or a bad mark alone decide it; more than one kind of fact, or two
/// different confirmed antennas, conflict; notes and signal confirmations
/// do not count.
pub open spec fn slot_evidence_spec(facts: Seq<SlotFact>) -> (SlotEvidenceStatus, Option<Seq<char>>) {
    let confirmed = first_confirmed(facts, 0);
    let kinds = (if confirmed is Some { 1int } else { 0 }) + (if has_missed(facts) { 1int } else { 0 }) + (if has_bad(facts) { 1int } else { 0 });
    if conflicting_labels(facts) || kinds > 1 {
        (SlotEvidenceStatus::Conflicting, None)
    } else if confirmed is Some {
        (SlotEvidenceStatus::Confirmed, confirmed)
    } else if has_missed(facts) {
        (SlotEvidenceStatus::Missed, None)
    } else if has_bad(facts) {
        (SlotEvidenceStatus::Bad, None)
    } else {
        (SlotEvidenceStatus::Unknown, None)
    }
}

proof fn lemma_first_confirmed(facts: Seq<SlotFact>, k: int)
    requires
        0 <= k,
    ensures
        first_confirmed(facts, k) is None <==> forall|i: int| k <= i < facts.len() ==> (#[trigger] confirmed_label(facts[i])) is None,
        first_confirmed(facts, k) matches Some(l) ==> exists|i: int| k <= i < facts.len() && #[trigger] confirmed_label(facts[i]) == Some(l),
    decreases facts.len() - k,
{
    if k < facts.len() {
        lemma_first_confirmed(facts, k + 1);
        if confirmed_label(facts[k]) is None {
            assert forall|i: int| k <= i < facts.len() && (forall|m: int| k + 1 <= m < facts.len() ==> (#[trigger] confirmed_label(facts[m])) is None) implies (#[trigger] confirmed_label(facts[i])) is None by {
                if i > k {
                }
            }
        }
    }
}

/// The evidence status of a slot and its confirmed antenna.
pub fn slot_evidence(facts: &Vec<SlotFact>) -> (r: (SlotEvidenceStatus, Option<String>))
    ensures
        (r.0, opt_view(r.1)) == slot_evidence_spec(facts@),
{
    let mut first: Option<String> = None;
    let mut conflict = false;
    let mut missed = false;
    let mut bad = false;
    let mut i: usize = 0;
    proof {
        lemma_first_confirmed(facts@, 0);
    }
    while i < facts.len()
        invariant
            i <= facts@.len(),
            first_confirmed(facts@, 0) is None ==> forall|m: int| 0 <= m < facts@.len() ==> (#[trigger] confirmed_label(facts@[m])) is None,
            first_confirmed(facts@, 0) matches Some(l) ==> exists|m: int| 0 <= m < facts@.len() && #[trigger] confirmed_label(facts@[m]) == Some(l),
            match first {
                None => forall|m: int| 0 <= m < i ==> (#[trigger] confirmed_label(facts@[m])) is None,
                Some(f) => first_confirmed(facts@, 0) == Some(f@),
            },
            first is Some ==> first_confirmed(facts@, 0) == opt_view(first),
            first is None ==> first_confirmed(facts@, 0) == first_confirmed(facts@, i as int),
            conflict ==> conflicting_labels(facts@),
            !conflict ==> forall|m: int| 0 <= m < i && (#[trigger] confirmed_label(facts@[m])) is Some ==> confirmed_label(facts@[m]) == opt_view(first),
            missed <==> exists|m: int| 0 <= m < i && #[trigger] facts@[m] == SlotFact::SlotMissed,
            bad <==> exists|m: int| 0 <= m < i && #[trigger] facts@[m] == SlotFact::SlotBad,
        decreases facts@.len() - i,
    {
        match &facts[i] {
            SlotFact::AntennaStateConfirmed { antenna_label } => {
                match &first {
                    None => {
                        first = Some(owned(antenna_label.as_str()));
                    },
                    Some(f) => {
                        if !str_eq(f.as_str(), antenna_label.as_str()) {
                            if !conflict {
                                let ghost w = choose|m: int| 0 <= m < facts@.len() && #[trigger] confirmed_label(facts@[m]) == first_confirmed(facts@, 0);
                                assert(confirmed_label(facts@[i as int]) != confirmed_label(facts@[w]));
                            }
                            conflict = true;
                        }
                    },
                }
            },
            SlotFact::SlotMissed => {
                missed = true;
            },
            SlotFact::SlotBad => {
                bad = true;
            },
            _ => {},
        }
        proof {
            if facts@[i as int] == SlotFact::SlotMissed {
                assert(exists|m: int| 0 <= m < i + 1 && #[trigger] facts@[m] == SlotFact::SlotMissed);
            }
            if facts@[i as int] == SlotFact::SlotBad {
                assert(exists|m: int| 0 <= m < i + 1 && #[trigger] facts@[m] == SlotFact::SlotBad);
            }
        }
        i = i + 1;
    }
    let kinds = (if first.is_some() { 1u8 } else { 0 }) + (if missed { 1u8 } else { 0 }) + (if bad { 1u8 } else { 0 });
    proof {
        if !conflict {
            assert(!conflicting_labels(facts@));
        }
    }
    if conflict || kinds > 1 {
        (SlotEvidenceStatus::Conflicting, None)
    } else if first.is_some() {
        (SlotEvidenceStatus::Confirmed, first)
    } else if missed {
        (SlotEvidenceStatus::Missed, None)
    } else if bad {
        (SlotEvidenceStatus::Bad, None)
    } else {
        (SlotEvidenceStatus::Unknown, None)
    }
}

} // verus!

