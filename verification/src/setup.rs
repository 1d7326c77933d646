//! Controller setup for a new session: target mappings for the scheduled
//! antennas, the normalized profile, and the review of every invocation the
//! session will make.

use vstd::prelude::*;

use crate::command::{band_text, invocation_context, resolve_command, resolve_spec, context_values_spec};
use crate::control_model::{
    band_name, direction_name, mode_name, AntennaControlInvocationPolicy, AntennaControlPolicy,
    ControlSession, ExperimentMode, WsprCycleDirection, WsprCycleIntent, strs_view,
};
use crate::errors::SessionErrorPayload;
use crate::mapping::{map_get, targets_map};
use crate::policy::AntennaControllerState;
use crate::profiles::{
    ControllerCommandTemplate,
    normalize_profile, persist_profile_and_association, profile_draft_error, ControllerCatalog,
    ControllerProfile, ControllerTargetDraft, PreparedSetupController, SetupControllerDraft,
    TARGET_MAX_BYTES,
};
use crate::text::{byte_len, byte_length, debug_quoted, debug_text, dec, owned, push_str, str_eq, trim, trim_seq};

verus! {

/// Some intention is scheduled on the antenna.
pub open spec fn scheduled(intents: Seq<WsprCycleIntent>, label: Seq<char>) -> bool {
    exists|i: int| 0 <= i < intents.len() && (#[trigger] intents[i]).antenna_label@ == label
}

/// The mapping so far already has the label.
pub open spec fn mapped(m: Seq<(Seq<char>, Seq<char>)>, label: Seq<char>) -> bool {
    exists|i: int| 0 <= i < m.len() && (#[trigger] m[i]).0 == label
}

/// Why one more target mapping is refused, if it is.
pub open spec fn target_error(
    intents: Seq<WsprCycleIntent>,
    m: Seq<(Seq<char>, Seq<char>)>,
    t: ControllerTargetDraft,
) -> Option<Seq<char>> {
    let label = trim_seq(t.antenna_label@);
    let value = trim_seq(t.target@);
    if !scheduled(intents, label) {
        Some("target mapping references unscheduled antenna "@ + debug_quoted(label))
    } else if value.len() == 0 || byte_len(value) > TARGET_MAX_BYTES {
        Some("antenna "@ + debug_quoted(label) + " requires a bounded nonempty target"@)
    } else if mapped(m, label) {
        Some("antenna "@ + debug_quoted(label) + " has more than one target mapping"@)
    } else {
        None
    }
}

/// The trimmed mappings of the first `k` target drafts, or the first refusal.
pub open spec fn targets_from(
    intents: Seq<WsprCycleIntent>,
    ts: Seq<ControllerTargetDraft>,
    k: int,
) -> Result<Seq<(Seq<char>, Seq<char>)>, Seq<char>>
    decreases k,
{
    if k <= 0 {
        Ok(Seq::empty())
    } else {
        match targets_from(intents, ts, k - 1) {
            Err(e) => Err(e),
            Ok(m) => match target_error(intents, m, ts[k - 1]) {
                Some(e) => Err(e),
                None => Ok(m.push((trim_seq(ts[k - 1].antenna_label@), trim_seq(ts[k - 1].target@)))),
            },
        }
    }
}

/// The validated target mapping: every draft names a scheduled antenna with
/// a bounded nonempty target, no antenna twice, and every scheduled antenna
/// has a target.
pub open spec fn validated_targets(
    intents: Seq<WsprCycleIntent>,
    ts: Seq<ControllerTargetDraft>,
) -> Result<Seq<(Seq<char>, Seq<char>)>, Seq<char>> {
    match targets_from(intents, ts, ts.len() as int) {
        Err(e) => Err(e),
        Ok(m) => if forall|i: int| 0 <= i < intents.len() ==> mapped(m, (#[trigger] intents[i]).antenna_label@) {
            Ok(m)
        } else {
            Err("every scheduled antenna requires exactly one target mapping"@)
        },
    }
}

/// The plain-value view of a list of pairs.
pub open spec fn pairs_seq(v: Seq<(String, String)>) -> Seq<(Seq<char>, Seq<char>)> {
    v.map_values(|p: (String, String)| (p.0@, p.1@))
}

proof fn lemma_targets_from_err(intents: Seq<WsprCycleIntent>, ts: Seq<ControllerTargetDraft>, k: int, n: int)
    requires
        0 <= k <= n,
        targets_from(intents, ts, k) is Err,
    ensures
        targets_from(intents, ts, n) == targets_from(intents, ts, k),
    decreases n - k,
{
    if k < n {
        lemma_targets_from_err(intents, ts, k, n - 1);
    }
}

fn is_scheduled(intents: &Vec<WsprCycleIntent>, label: &str) -> (r: bool)
    ensures
        r == scheduled(intents@, label@),
{
    let mut i: usize = 0;
    while i < intents.len()
        invariant
            i <= intents@.len(),
            forall|j: int| 0 <= j < i ==> (#[trigger] intents@[j]).antenna_label@ != label@,
        decreases intents@.len() - i,
    {
        if str_eq(intents[i].antenna_label.as_str(), label) {
            return true;
        }
        i = i + 1;
    }
    false
}

fn is_mapped(m: &Vec<(String, String)>, label: &str) -> (r: bool)
    ensures
        r == mapped(pairs_seq(m@), label@),
{
    let mut i: usize = 0;
    while i < m.len()
        invariant
            i <= m@.len(),
            forall|j: int| 0 <= j < i ==> (#[trigger] m@[j]).0@ != label@,
        decreases m@.len() - i,
    {
        if str_eq(m[i].0.as_str(), label) {
            assert(pairs_seq(m@)[i as int].0 == label@);
            return true;
        }
        i = i + 1;
    }
    assert forall|j: int| 0 <= j < pairs_seq(m@).len() implies (#[trigger] pairs_seq(m@)[j]).0 != label@ by {
        assert(pairs_seq(m@)[j].0 == m@[j].0@);
    }
    false
}

/// Validates the target mappings of a controller setup against the antennas
/// the session schedules.
pub fn validate_targets(
    intents: &Vec<WsprCycleIntent>,
    targets: &Vec<ControllerTargetDraft>,
) -> (r: Result<Vec<(String, String)>, String>)
    ensures
        match validated_targets(intents@, targets@) {
            Ok(m) => r matches Ok(v) && pairs_seq(v@) == m,
            Err(e) => r matches Err(s) && s@ == e,
        },
{
    let mut result: Vec<(String, String)> = Vec::new();
    let n = targets.len();
    let mut k: usize = 0;
    assert(pairs_seq(result@) =~= Seq::<(Seq<char>, Seq<char>)>::empty());
    while k < n
        invariant
            k <= n,
            n == targets@.len(),
            targets_from(intents@, targets@, k as int) == Ok::<Seq<(Seq<char>, Seq<char>)>, Seq<char>>(pairs_seq(result@)),
        decreases n - k,
    {
        let t = &targets[k];
        let label = trim(t.antenna_label.as_str());
        let value = trim(t.target.as_str());
        if !is_scheduled(intents, label.as_str()) {
            let mut m = owned("target mapping references unscheduled antenna ");
            let q = debug_text(label.as_str());
            push_str(&mut m, q.as_str());
            proof {
                reveal_strlit("target mapping references unscheduled antenna ");

                assert(targets_from(intents@, targets@, k + 1) is Err);
                lemma_targets_from_err(intents@, targets@, k + 1, n as int);
            }
            return Err(m);
        }
        if value.unicode_len() == 0 || byte_length(value.as_str()) > TARGET_MAX_BYTES {
            let mut m = owned("antenna ");
            let q = debug_text(label.as_str());
            push_str(&mut m, q.as_str());
            push_str(&mut m, " requires a bounded nonempty target");
            proof {
                reveal_strlit("antenna ");
                reveal_strlit(" requires a bounded nonempty target");

                assert(targets_from(intents@, targets@, k + 1) is Err);
                lemma_targets_from_err(intents@, targets@, k + 1, n as int);
            }
            return Err(m);
        }
        if is_mapped(&result, label.as_str()) {
            let mut m = owned("antenna ");
            let q = debug_text(label.as_str());
            push_str(&mut m, q.as_str());
            push_str(&mut m, " has more than one target mapping");
            proof {
                reveal_strlit("antenna ");
                reveal_strlit(" has more than one target mapping");

                assert(targets_from(intents@, targets@, k + 1) is Err);
                lemma_targets_from_err(intents@, targets@, k + 1, n as int);
            }
            return Err(m);
        }
        let ghost before = result@;
        result.push((label, value));
        assert(pairs_seq(result@) =~= pairs_seq(before).push((trim_seq(targets@[k as int].antenna_label@), trim_seq(targets@[k as int].target@))));
        k = k + 1;
    }
    let mut i: usize = 0;
    while i < intents.len()
        invariant
            i <= intents@.len(),
            forall|j: int| 0 <= j < i ==> mapped(pairs_seq(result@), (#[trigger] intents@[j]).antenna_label@),
            n == targets@.len(),
            targets_from(intents@, targets@, n as int) == Ok::<Seq<(Seq<char>, Seq<char>)>, Seq<char>>(pairs_seq(result@)),
        decreases intents@.len() - i,
    {
        if !is_mapped(&result, intents[i].antenna_label.as_str()) {
            proof {
                assert(!mapped(pairs_seq(result@), intents@[i as int].antenna_label@));
                reveal_strlit("every scheduled antenna requires exactly one target mapping");
            }
            return Err(owned("every scheduled antenna requires exactly one target mapping"));
        }
        i = i + 1;
    }
    Ok(result)
}

} // verus!

verus! {

/// One intention's resolved commands, shown for review before the session
/// starts.
#[derive(Debug, Clone, PartialEq, Eq)]
pub struct ControllerInvocationPreview {
    pub intent_id: String,
    pub antenna: String,
    pub target: String,
    pub mode: ExperimentMode,
    pub direction: String,
    pub switch_program: String,
    pub switch_arguments: Vec<String>,
    pub verification_program: Option<String>,
    pub verification_arguments: Option<Vec<String>>,
}

/// The operator's review of a prepared controller setup.
#[derive(Debug, Clone, PartialEq, Eq)]
pub struct SetupControllerReview {
    pub profile_id: String,
    pub profile_revision: String,
    pub profile_name: String,
    pub timeout_seconds: u8,
    pub arm_for_session: bool,
    pub invocation: AntennaControlInvocationPolicy,
    pub manual_review_required: bool,
    pub authority_summary: String,
    pub disclosure: String,
    pub invocations: Vec<ControllerInvocationPreview>,
}

/// A preview shows a verification program exactly when it shows its
/// arguments.
pub open spec fn previews_paired(v: Seq<ControllerInvocationPreview>) -> bool {
    forall|i: int| 0 <= i < v.len() ==> ((#[trigger] v[i]).verification_program is Some <==> v[i].verification_arguments is Some)
}

/// The plain-value view of a preview.
pub open spec fn preview_view(p: ControllerInvocationPreview) -> (
    Seq<char>,
    Seq<char>,
    Seq<char>,
    ExperimentMode,
    Seq<char>,
    (Seq<char>, Seq<Seq<char>>),
    Option<(Seq<char>, Seq<Seq<char>>)>,
) {
    (
        p.intent_id@,
        p.antenna@,
        p.target@,
        p.mode,
        p.direction@,
        (p.switch_program@, strs_view(p.switch_arguments@)),
        match (p.verification_program, p.verification_arguments) {
            (Some(vp), Some(va)) => Some((vp@, strs_view(va@))),
            _ => None,
        },
    )
}

/// The placeholder values for an intention of a session with a target.
pub open spec fn intent_values(
    session: ControlSession,
    intent: WsprCycleIntent,
    d: WsprCycleDirection,
    target: Seq<char>,
) -> Seq<(Seq<char>, Seq<char>)> {
    seq![
        ("antenna"@, intent.antenna_label@),
        ("band"@, band_name(intent.band)),
        ("callsign"@, session.callsign@),
        ("direction"@, direction_name(d)),
        ("frequency_hz"@, match intent.signal {
            Some(sig) => dec(sig.frequency_hz as nat),
            None => seq![],
        }),
        ("intent_id"@, intent.intent_id@),
        ("mode"@, mode_name(session.mode)),
        ("sequence"@, dec(intent.sequence_number as nat)),
        ("session_id"@, session.session_id@),
        ("target"@, target),
    ]
}

/// The preview of one intention, or why its commands cannot be resolved.
pub open spec fn preview_spec(
    session: ControlSession,
    intent: WsprCycleIntent,
    target: Seq<char>,
    profile: ControllerProfile,
) -> Result<
    (Seq<char>, Seq<char>, Seq<char>, ExperimentMode, Seq<char>, (Seq<char>, Seq<Seq<char>>), Option<(Seq<char>, Seq<Seq<char>>)>),
    Seq<char>,
> {
    match intent.direction {
        None => Err("antenna control requires an intention direction"@),
        Some(d) => {
            let values = intent_values(session, intent, d, target);
            match resolve_spec(profile.switch_command.program_template@, strs_view(profile.switch_command.argument_templates@), values) {
                Err(m) => Err(m),
                Ok(sw) => match profile.verification_command {
                    None => Ok((intent.intent_id@, intent.antenna_label@, target, session.mode, direction_name(d), sw, None)),
                    Some(v) => match resolve_spec(v.program_template@, strs_view(v.argument_templates@), values) {
                        Err(m) => Err(m),
                        Ok(ve) => Ok((intent.intent_id@, intent.antenna_label@, target, session.mode, direction_name(d), sw, Some(ve))),
                    },
                },
            }
        },
    }
}

/// The previews of the first `k` intentions, or the first failure.
pub open spec fn previews_spec(
    session: ControlSession,
    targets: Map<Seq<char>, Seq<char>>,
    profile: ControllerProfile,
    k: int,
) -> Result<
    Seq<(Seq<char>, Seq<char>, Seq<char>, ExperimentMode, Seq<char>, (Seq<char>, Seq<Seq<char>>), Option<(Seq<char>, Seq<Seq<char>>)>)>,
    Seq<char>,
>
    decreases k,
{
    if k <= 0 {
        Ok(Seq::empty())
    } else {
        match previews_spec(session, targets, profile, k - 1) {
            Err(e) => Err(e),
            Ok(ps) => {
                let intent = session.intents@[k - 1];
                if !targets.dom().contains(intent.antenna_label@) {
                    Err("a normalized target mapping is missing"@)
                } else {
                    match preview_spec(session, intent, targets[intent.antenna_label@], profile) {
                        Err(m) => Err(m),
                        Ok(p) => Ok(ps.push(p)),
                    }
                }
            },
        }
    }
}

proof fn lemma_previews_err(session: ControlSession, targets: Map<Seq<char>, Seq<char>>, profile: ControllerProfile, k: int, n: int)
    requires
        0 <= k <= n,
        previews_spec(session, targets, profile, k) is Err,
    ensures
        previews_spec(session, targets, profile, n) == previews_spec(session, targets, profile, k),
    decreases n - k,
{
    if k < n {
        lemma_previews_err(session, targets, profile, k, n - 1);
    }
}

/// The first saved profile with an identity.
pub open spec fn catalog_profile(catalog: Seq<ControllerProfile>, id: Seq<char>) -> Option<ControllerProfile> {
    if exists|i: int| 0 <= i < catalog.len() && (#[trigger] catalog[i]).profile_id@ == id {
        let i = choose|i: int| 0 <= i < catalog.len() && (#[trigger] catalog[i]).profile_id@ == id && forall|j: int| 0 <= j < i ==> (#[trigger] catalog[j]).profile_id@ != id;
        Some(catalog[i])
    } else {
        None
    }
}

fn find_profile<'a>(catalog: &'a Vec<ControllerProfile>, id: &str) -> (r: Option<&'a ControllerProfile>)
    ensures
        match r {
            Some(p) => exists|i: int| 0 <= i < catalog@.len() && catalog@[i] == *p && p.profile_id@ == id@,
            None => forall|i: int| 0 <= i < catalog@.len() ==> (#[trigger] catalog@[i]).profile_id@ != id@,
        },
{
    let mut i: usize = 0;
    while i < catalog.len()
        invariant
            i <= catalog@.len(),
            forall|j: int| 0 <= j < i ==> (#[trigger] catalog@[j]).profile_id@ != id@,
        decreases catalog@.len() - i,
    {
        if str_eq(catalog[i].profile_id.as_str(), id) {
            return Some(&catalog[i]);
        }
        i = i + 1;
    }
    None
}

fn preview_for(
    session: &ControlSession,
    intent: &WsprCycleIntent,
    target: &String,
    profile: &ControllerProfile,
) -> (r: Result<ControllerInvocationPreview, String>)
    ensures
        match preview_spec(*session, *intent, target@, *profile) {
            Ok(v) => r matches Ok(p) && preview_view(p) == v,
            Err(m) => r matches Err(e) && e@ == m,
        },
        r matches Ok(p) ==> (p.verification_program is Some <==> p.verification_arguments is Some),
{
    let context = invocation_context(session, intent, owned(target.as_str()))?;
    let d = context.direction;
    assert(context_values_spec(context) =~= intent_values(*session, *intent, d, target@));
    let switch = resolve_command(&profile.switch_command, &context)?;
    let direction = owned(context.direction.as_str());
    let verification = match &profile.verification_command {
        Some(command) => Some(resolve_command(command, &context)?),
        None => None,
    };
    let (verification_program, verification_arguments) = match verification {
        Some(v) => (Some(v.command.resolved_program), Some(v.command.resolved_arguments)),
        None => (None, None),
    };
    Ok(ControllerInvocationPreview {
        intent_id: owned(intent.intent_id.as_str()),
        antenna: context.antenna,
        target: context.target,
        mode: context.mode,
        direction,
        switch_program: switch.command.resolved_program,
        switch_arguments: switch.command.resolved_arguments,
        verification_program,
        verification_arguments,
    })
}

type PreviewValue = (Seq<char>, Seq<char>, Seq<char>, ExperimentMode, Seq<char>, (Seq<char>, Seq<Seq<char>>), Option<(Seq<char>, Seq<Seq<char>>)>);

proof fn lemma_previews_step(
    session: ControlSession,
    tmap: Map<Seq<char>, Seq<char>>,
    profile: ControllerProfile,
    k: int,
    ps: Seq<PreviewValue>,
)
    requires
        0 <= k < session.intents@.len(),
        previews_spec(session, tmap, profile, k) == Ok::<Seq<PreviewValue>, Seq<char>>(ps),
    ensures
        previews_spec(session, tmap, profile, k + 1) == (if !tmap.dom().contains(session.intents@[k].antenna_label@) {
            Err::<Seq<PreviewValue>, Seq<char>>("a normalized target mapping is missing"@)
        } else {
            match preview_spec(session, session.intents@[k], tmap[session.intents@[k].antenna_label@], profile) {
                Err(m) => Err(m),
                Ok(p) => Ok(ps.push(p)),
            }
        }),
{
}

/// The previews of every intention of a session, or the first failure.
fn previews_for(
    session: &ControlSession,
    targets: &Vec<(String, String)>,
    profile: &ControllerProfile,
) -> (r: Result<Vec<ControllerInvocationPreview>, String>)
    ensures
        match previews_spec(*session, targets_map(targets@), *profile, session.intents@.len() as int) {
            Ok(ps) => r matches Ok(v) && v@.map_values(|p: ControllerInvocationPreview| preview_view(p)) == ps,
            Err(m) => r matches Err(e) && e@ == m,
        },
        r matches Ok(v) ==> previews_paired(v@),
{
    let ghost tmap = targets_map(targets@);
    let n = session.intents.len();
    let mut invocations: Vec<ControllerInvocationPreview> = Vec::new();
    let mut k: usize = 0;
    assert(invocations@.map_values(|p: ControllerInvocationPreview| preview_view(p)) =~= Seq::<PreviewValue>::empty());
    while k < n
        invariant
            k <= n,
            n == session.intents@.len(),
            tmap == targets_map(targets@),
            previews_spec(*session, tmap, *profile, k as int) == Ok::<Seq<PreviewValue>, Seq<char>>(
                invocations@.map_values(|p: ControllerInvocationPreview| preview_view(p))),
            previews_paired(invocations@),
        decreases n - k,
    {
        let ghost before = invocations@;
        proof {
            lemma_previews_step(*session, tmap, *profile, k as int, before.map_values(|p: ControllerInvocationPreview| preview_view(p)));
        }
        let intent = &session.intents[k];
        let target = match map_get(targets, intent.antenna_label.as_str()) {
            Some(t) => t,
            None => {
                proof {
                    reveal_strlit("a normalized target mapping is missing");
                    lemma_previews_err(*session, tmap, *profile, k + 1, n as int);
                }
                return Err(owned("a normalized target mapping is missing"));
            },
        };
        let preview = match preview_for(session, intent, target, profile) {
            Ok(p) => p,
            Err(e) => {
                proof {
                    lemma_previews_err(*session, tmap, *profile, k + 1, n as int);
                }
                return Err(e);
            },
        };
        invocations.push(preview);
        assert(invocations@.map_values(|p: ControllerInvocationPreview| preview_view(p)) =~= before.map_values(|p: ControllerInvocationPreview| preview_view(p)).push(preview_view(preview)));
        k = k + 1;
    }
    Ok(invocations)
}

/// The review text of who authorizes readiness.
pub open spec fn authority_summary_text(manual_review_required: bool) -> Seq<char> {
    if manual_review_required {
        "Commands prepare and verify each intention; the named operator ready action remains required."@
    } else {
        "Successful switch and independent verification commands authorize the next eligible WSPR boundary without an operator ready action."@
    }
}

/// The review text of what becomes portable evidence.
pub open spec fn disclosure_text() -> Seq<char> {
    "Resolved programs, indexed arguments, stdout, and stderr become portable session evidence and may disclose paths, addresses, usernames, or credentials."@
}

/// A profile carries the normalized name, commands and timeout of a draft.
pub open spec fn profile_from_draft(p: ControllerProfile, d: crate::profiles::ControllerProfileDraft) -> bool {
    &&& p.name@ == trim_seq(d.name@)
    &&& crate::profiles::template_parts(p.switch_command) == crate::profiles::normalized_command(d.switch_command)->Ok_0
    &&& crate::profiles::opt_template_parts(p.verification_command) == crate::profiles::normalized_verification(d)
    &&& p.timeout_seconds == d.timeout_seconds
}

/// Why a controller setup is refused before its targets are checked, if it
/// is: a selected saved profile that no longer exists, an invalid profile
/// draft, or command-authorized readiness without a verification command.
pub open spec fn setup_profile_error(draft: SetupControllerDraft, catalog: Seq<ControllerProfile>) -> Option<Seq<char>> {
    if draft.profile.profile_id matches Some(id) && catalog_profile(catalog, id@) is None {
        Some("the selected saved controller profile no longer exists"@)
    } else if profile_draft_error(draft.profile) is Some {
        profile_draft_error(draft.profile)
    } else if !draft.manual_review_required && draft.profile.verification_command is None {
        Some("command-authorized readiness requires an independent verification command"@)
    } else {
        None
    }
}

/// Prepares a controller setup for a new session: normalizes the profile
/// (reusing a selected saved one), validates the targets, records the
/// command-controlled policy in the session plan, and resolves every
/// intention's commands for review.
pub fn prepare_setup_controller(
    draft: &SetupControllerDraft,
    session: &mut ControlSession,
    catalog: &Vec<ControllerProfile>,
    new_id: impl Fn(&str) -> String,
) -> (r: Result<(PreparedSetupController, SetupControllerReview), String>)
    requires
        forall|prefix: &str| #[trigger] new_id.requires((prefix,)),
    ensures
        setup_profile_error(*draft, catalog@) matches Some(m) ==> (r matches Err(e) && e@ == m
            && *final(session) == *old(session)),
        setup_profile_error(*draft, catalog@) is None ==> (validated_targets(old(session).intents@, draft.targets@) matches Err(m)
            ==> (r matches Err(e) && e@ == m && *final(session) == *old(session))),
        setup_profile_error(*draft, catalog@) is None && validated_targets(old(session).intents@, draft.targets@) is Ok ==> {
            &&& (ControlSession {
                antenna_control: Some(AntennaControlPolicy::CommandControlled {
                    invocation: draft.invocation,
                    manual_review_required: draft.manual_review_required,
                }),
                ..*old(session)
            }) == *final(session)
            &&& match r {
                Err(e) => exists|p: ControllerProfile, k: int| 0 <= k <= final(session).intents@.len()
                    && previews_spec(*final(session), targets_map_seq(validated_targets(old(session).intents@, draft.targets@)->Ok_0), p, k)
                    == Err::<Seq<(Seq<char>, Seq<char>, Seq<char>, ExperimentMode, Seq<char>, (Seq<char>, Seq<Seq<char>>), Option<(Seq<char>, Seq<Seq<char>>)>)>, Seq<char>>(e@)
                    && profile_from_draft(p, draft.profile),
                Ok((prepared, review)) => {
                    &&& profile_from_draft(prepared.profile, draft.profile)
                    &&& (draft.profile.profile_id matches Some(id) ==> prepared.profile.profile_id@ == id@)
                    &&& pairs_seq(prepared.targets@) == validated_targets(old(session).intents@, draft.targets@)->Ok_0
                    &&& prepared.arm_for_session == draft.arm_for_session
                    &&& review.profile_id@ == prepared.profile.profile_id@
                    &&& review.profile_revision@ == prepared.profile.revision@
                    &&& review.profile_name@ == prepared.profile.name@
                    &&& review.timeout_seconds == prepared.profile.timeout_seconds
                    &&& review.arm_for_session == draft.arm_for_session
                    &&& review.invocation == draft.invocation
                    &&& review.manual_review_required == draft.manual_review_required
                    &&& review.authority_summary@ == authority_summary_text(draft.manual_review_required)
                    &&& review.disclosure@ == disclosure_text()
                    &&& previews_spec(*final(session), targets_map(prepared.targets@), prepared.profile, final(session).intents@.len() as int)
                        == Ok::<Seq<(Seq<char>, Seq<char>, Seq<char>, ExperimentMode, Seq<char>, (Seq<char>, Seq<Seq<char>>), Option<(Seq<char>, Seq<Seq<char>>)>)>, Seq<char>>(
                            review.invocations@.map_values(|p: ControllerInvocationPreview| preview_view(p)))
                    &&& previews_paired(review.invocations@)
                },
            }
        },
{
    let existing = match &draft.profile.profile_id {
        Some(id) => {
            let found = find_profile(catalog, id.as_str());
            if found.is_none() {
                proof {
                    assert(catalog_profile(catalog@, id@) is None);
                }
                return Err(owned("the selected saved controller profile no longer exists"));
            }
            found
        },
        None => None,
    };
    proof {
        match &draft.profile.profile_id {
            Some(id) => {
                assert(exists|i: int| 0 <= i < catalog@.len() && (#[trigger] catalog@[i]).profile_id@ == id@);
            },
            None => {},
        }
    }
    let profile = normalize_profile(&draft.profile, existing, new_id)?;
    if !draft.manual_review_required && profile.verification_command.is_none() {
        return Err(owned("command-authorized readiness requires an independent verification command"));
    }
    let targets = validate_targets(&session.intents, &draft.targets)?;
    session.antenna_control = Some(AntennaControlPolicy::CommandControlled {
        invocation: draft.invocation,
        manual_review_required: draft.manual_review_required,
    });
    proof {
        lemma_pairs_map(targets@);
    }
    let invocations = match previews_for(session, &targets, &profile) {
        Ok(v) => v,
        Err(e) => {
            assert(previews_spec(*session, targets_map_seq(pairs_seq(targets@)), profile, session.intents@.len() as int)
                == Err::<Seq<PreviewValue>, Seq<char>>(e@));
            return Err(e);
        },
    };
    proof {
        reveal_strlit("Commands prepare and verify each intention; the named operator ready action remains required.");
        reveal_strlit("Successful switch and independent verification commands authorize the next eligible WSPR boundary without an operator ready action.");
        reveal_strlit("Resolved programs, indexed arguments, stdout, and stderr become portable session evidence and may disclose paths, addresses, usernames, or credentials.");
    }
    let review = SetupControllerReview {
        profile_id: owned(profile.profile_id.as_str()),
        profile_revision: owned(profile.revision.as_str()),
        profile_name: owned(profile.name.as_str()),
        timeout_seconds: profile.timeout_seconds,
        arm_for_session: draft.arm_for_session,
        invocation: draft.invocation,
        manual_review_required: draft.manual_review_required,
        authority_summary: if draft.manual_review_required {
            owned("Commands prepare and verify each intention; the named operator ready action remains required.")
        } else {
            owned("Successful switch and independent verification commands authorize the next eligible WSPR boundary without an operator ready action.")
        },
        disclosure: owned("Resolved programs, indexed arguments, stdout, and stderr become portable session evidence and may disclose paths, addresses, usernames, or credentials."),
        invocations,
    };
    let prepared = PreparedSetupController { profile, targets, arm_for_session: draft.arm_for_session };
    Ok((prepared, review))
}

/// The map a plain-value list of pairs denotes; later pairs override
/// earlier ones.
pub open spec fn targets_map_seq(v: Seq<(Seq<char>, Seq<char>)>) -> Map<Seq<char>, Seq<char>>
    decreases v.len(),
{
    if v.len() == 0 {
        Map::empty()
    } else {
        targets_map_seq(v.drop_last()).insert(v.last().0, v.last().1)
    }
}

proof fn lemma_pairs_map(v: Seq<(String, String)>)
    ensures
        targets_map(v) == targets_map_seq(pairs_seq(v)),
    decreases v.len(),
{
    if v.len() > 0 {
        lemma_pairs_map(v.drop_last());
        assert(pairs_seq(v).drop_last() =~= pairs_seq(v.drop_last()));
    }
}

} // verus!

verus! {

/// An independent copy of a list of pairs.
pub fn copy_pairs_pub(v: &Vec<(String, String)>) -> (r: Vec<(String, String)>)
    ensures
        pairs_seq(r@) == pairs_seq(v@),
{
    copy_pairs(v)
}

fn copy_pairs(v: &Vec<(String, String)>) -> (r: Vec<(String, String)>)
    ensures
        pairs_seq(r@) == pairs_seq(v@),
{
    let mut out: Vec<(String, String)> = Vec::new();
    for i in 0..v.len()
        invariant
            pairs_seq(out@) == pairs_seq(v@).take(i as int),
    {
        let ghost before = out@;
        out.push((owned(v[i].0.as_str()), owned(v[i].1.as_str())));
        assert(pairs_seq(out@) =~= pairs_seq(before).push((v@[i as int].0@, v@[i as int].1@)));
        assert(pairs_seq(v@).take(i + 1) =~= pairs_seq(v@).take(i as int).push((v@[i as int].0@, v@[i as int].1@)));
    }
    assert(pairs_seq(v@).take(v@.len() as int) =~= pairs_seq(v@));
    out
}

/// Saves the prepared profile and its association with the session through
/// `write`, and only when that succeeded attaches the profile to the session
/// under a new generation.
pub fn activate_setup_controller<W: FnOnce(&ControllerCatalog) -> Result<(), SessionErrorPayload>>(
    catalog: ControllerCatalog,
    write: W,
    state: &mut AntennaControllerState,
    source: String,
    session_id: String,
    prepared: PreparedSetupController,
) -> (r: Result<(), SessionErrorPayload>)
    requires
        forall|c: &ControllerCatalog| call_requires(write, (c,)),
    ensures
        exists|c: &ControllerCatalog, w: Result<(), SessionErrorPayload>| {
            &&& call_ensures(write, (c,), w)
            &&& c.associations@.len() > 0
            &&& c.associations@.last().source@ == source@
            &&& c.associations@.last().session_id@ == session_id@
            &&& c.associations@.last().profile_id@ == prepared.profile.profile_id@
            &&& c.associations@.last().profile_revision@ == prepared.profile.revision@
            &&& c.associations@.last().targets == prepared.targets
            &&& c.profiles@.to_multiset().contains(prepared.profile)
            &&& r == w
        },
        r is Err ==> *final(state) == *old(state),
        r is Ok ==> {
            &&& final(state).generation == old(state).generation.wrapping_add(1)
            &&& final(state).runtime.attached matches Some(a) && a.source@ == source@
                && a.session_id@ == session_id@ && a.profile_id@ == prepared.profile.profile_id@
                && a.profile_revision@ == prepared.profile.revision@
                && pairs_seq(a.targets@) == pairs_seq(prepared.targets@)
                && a.armed == prepared.arm_for_session
        },
{
    let profile = ControllerProfile {
        profile_id: owned(prepared.profile.profile_id.as_str()),
        revision: owned(prepared.profile.revision.as_str()),
        name: owned(prepared.profile.name.as_str()),
        switch_command: crate::profiles::ControllerCommandTemplate {
            program_template: owned(prepared.profile.switch_command.program_template.as_str()),
            argument_templates: crate::profiles::clone_strings(&prepared.profile.switch_command.argument_templates),
        },
        verification_command: None,
        timeout_seconds: prepared.profile.timeout_seconds,
    };
    let targets = copy_pairs(&prepared.targets);
    let arm = prepared.arm_for_session;
    let ghost prepared_profile = prepared.profile;
    let ghost old_profiles_filtered = catalog.profiles@.filter(crate::profiles::keeps_profile(prepared.profile.profile_id@));
    let ghost prepared_targets = prepared.targets;
    let updated = persist_profile_and_association(catalog, source.as_str(), session_id.as_str(), prepared);
    proof {
        let f = old_profiles_filtered;
        vstd::seq_lib::to_multiset_build(f, prepared_profile);
        assert(updated.profiles@.to_multiset().contains(prepared_profile));
    }
    let written = write(&updated);
    assert(call_ensures(write, (&updated,), written));
    if written.is_err() {
        return written;
    }
    state.attach(source, session_id, &profile, targets, arm);
    written
}

} // verus!

