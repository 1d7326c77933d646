//! Properties the library promises across its operations, each proved from
//! the specifications its functions are verified against.

use vstd::prelude::*;

use crate::bundles::{bundle_stem, suggested_name};
use crate::command::{tok_step, tokenize_spec, Quote, TokState};
use crate::conductor_state::{after_register, token_position, PendingAction, MAX_PENDING_ACTION_TOKENS};
use crate::conductor_view::{insert_by_time, sort_by_time, EventModel};
use crate::control_model::{strs_view, SessionLifecycle, WsprCycleIntent};
use crate::diagnostics::{first_position, lemma_first_position_exists, selected_contexts, PRESENTED_CONTEXT_LIMIT};
use crate::managed::{entries_sorted, entry_before, ProjectedEntry};
use crate::policy::{same_attachment, RuntimeAssociation};
use crate::profiles::{
    associations_error_from, association_error, bad_mapping_text, catalog_error, keeps_association_of, normalized_command,
    profile_error, profiles_error_from, template_view_error, ControllerCatalog, ControllerCommandDraft, ControllerProfile,
    ControllerTargetDraft, PersistedAssociation, PROFILE_IDENTITY_MAX_BYTES, PROFILE_NAME_MAX_BYTES,
    PROFILE_TIMEOUT_MAX_SECONDS, PROFILE_TIMEOUT_MIN_SECONDS,
};
use crate::setup::{mapped, scheduled, targets_from, validated_targets};
use crate::text::{is_ws, trim_seq};
use crate::timing::{active_from, timing_spec, timing_v3_spec, seconds_until, upcoming_from, ConductorSlotView};
use crate::transition::TransitionPlan;

verus! {

/// A one-line command and the structured program and arguments it
/// tokenizes to have the same canonical template (or the same refusal).
pub proof fn law_one_line_matches_structured(one_line: ControllerCommandDraft, structured: ControllerCommandDraft)
    requires
        trim_seq(one_line.one_line@).len() > 0,
        tokenize_spec(one_line.one_line@) is Ok,
        trim_seq(structured.one_line@).len() == 0,
        structured.program@ == tokenize_spec(one_line.one_line@)->Ok_0[0],
        strs_view(structured.arguments@) == tokenize_spec(one_line.one_line@)->Ok_0.skip(1),
    ensures
        normalized_command(one_line) == normalized_command(structured),
{
}

/// Outside quotes and escapes, every character other than whitespace,
/// quotes and the backslash is an ordinary token character: pipes,
/// redirections, globs and substitutions have no meaning.
pub proof fn law_no_shell_metacharacters(st: TokState, c: char)
    requires
        !st.escaped,
        c != '\\',
        c != '\'',
        c != '"',
        !is_ws(c),
    ensures
        tok_step(st, c).token == st.token.push(c),
        tok_step(st, c).tokens == st.tokens,
        tok_step(st, c).quote == st.quote,
{
}

/// Inside quotes, whitespace is part of the token.
pub proof fn law_quotes_group_whitespace(st: TokState, c: char)
    requires
        !st.escaped,
        st.quote is Some,
        is_ws(c),
    ensures
        tok_step(st, c).token == st.token.push(c),
        tok_step(st, c).tokens == st.tokens,
{
}

/// The suggested full-report and compact-summary names of a bundle never
/// coincide, whether or not its name has a recognized suffix.
pub proof fn law_suggested_names_unambiguous(source: Seq<char>)
    ensures
        suggested_name(source, "-report.html"@, "antennabench-report.html"@) != suggested_name(
            source,
            "-compact-summary.html"@,
            "antennabench-compact-summary.html"@,
        ),
{
    reveal_strlit("-report.html");
    reveal_strlit("-compact-summary.html");
    reveal_strlit("antennabench-report.html");
    reveal_strlit("antennabench-compact-summary.html");
    match bundle_stem(source) {
        Some(stem) => {
            assert((stem + "-report.html"@).len() != (stem + "-compact-summary.html"@).len());
        },
        None => {
            assert("antennabench-report.html"@.len() != "antennabench-compact-summary.html"@.len());
        },
    }
}

/// The seconds to the next boundary are never negative, whatever the phase.
pub proof fn law_timing_seconds_nonnegative(
    lifecycle: SessionLifecycle,
    acquisition_enabled: bool,
    slots: Seq<ConductorSlotView>,
    next_intent: Option<WsprCycleIntent>,
    plan: TransitionPlan,
    switching: bool,
    now: i64,
)
    ensures
        timing_spec(lifecycle, acquisition_enabled, slots, now).2 matches Some(s) ==> s >= 0,
        timing_v3_spec(lifecycle, acquisition_enabled, slots, next_intent, plan, switching, now).2 matches Some(s) ==> s >= 0,
{
    assert forall|t: int, n: int|
        i64::MIN <= t <= i64::MAX + 300000 && i64::MIN <= n <= i64::MAX implies #[trigger] seconds_until(t, n) >= 0 by {
        if t - n > 0 {
            assert(0 <= (t - n) / 1000 <= i64::MAX) by (nonlinear_arith)
                requires
                    0 < t - n <= 2 * 9223372036854775807 + 300001;
        }
    }
}

/// After a profile is deleted, no remaining association references it.
pub proof fn law_deleted_profile_leaves_no_association(associations: Seq<PersistedAssociation>, profile_id: Seq<char>)
    ensures
        forall|i: int| 0 <= i < associations.filter(keeps_association_of(profile_id)).len()
            ==> (#[trigger] associations.filter(keeps_association_of(profile_id))[i]).profile_id@ != profile_id,
{
    assert forall|i: int| 0 <= i < associations.filter(keeps_association_of(profile_id)).len()
        implies (#[trigger] associations.filter(keeps_association_of(profile_id))[i]).profile_id@ != profile_id by {
        associations.lemma_filter_pred(keeps_association_of(profile_id), i);
    }
}

/// Re-attaching exactly what is attached (same path, session, profile
/// revision and targets) is an exact re-attachment, which keeps the last
/// attempt for an explicit retry.
pub proof fn law_exact_reattach_is_recognized(a: RuntimeAssociation, profile: ControllerProfile)
    requires
        profile.profile_id@ == a.profile_id@,
        profile.revision@ == a.profile_revision@,
    ensures
        same_attachment(a, a.source@, a.session_id@, profile, a.targets@),
{
}

/// A different profile revision is never an exact re-attachment, so the
/// last attempt is dropped.
pub proof fn law_new_revision_is_not_reattach(
    a: RuntimeAssociation,
    source: Seq<char>,
    session_id: Seq<char>,
    profile: ControllerProfile,
    targets: Seq<(String, String)>,
)
    requires
        profile.revision@ != a.profile_revision@,
    ensures
        !same_attachment(a, source, session_id, profile, targets),
{
}

/// In catalog order, dated entries come first, newest first, and undated
/// entries last.
pub proof fn law_catalog_newest_first(s: Seq<ProjectedEntry>, i: int, j: int)
    requires
        entries_sorted(s),
        0 <= i < j < s.len(),
    ensures
        (s[i].entry.created_at_ms is Some && s[j].entry.created_at_ms is Some) ==> s[i].entry.created_at_ms->0 >= s[j].entry.created_at_ms->0,
        s[i].entry.created_at_ms is None ==> s[j].entry.created_at_ms is None,
{
    assert(!entry_before(s[j].entry, s[i].entry));
}

proof fn lemma_targets_from_unique(intents: Seq<WsprCycleIntent>, ts: Seq<ControllerTargetDraft>, k: int)
    requires
        0 <= k <= ts.len(),
        targets_from(intents, ts, k) is Ok,
    ensures
        forall|a: int, b: int| 0 <= a < b < targets_from(intents, ts, k)->Ok_0.len()
            ==> (#[trigger] targets_from(intents, ts, k)->Ok_0[a]).0 != (#[trigger] targets_from(intents, ts, k)->Ok_0[b]).0,
        forall|a: int| 0 <= a < targets_from(intents, ts, k)->Ok_0.len()
            ==> scheduled(intents, (#[trigger] targets_from(intents, ts, k)->Ok_0[a]).0)
            && targets_from(intents, ts, k)->Ok_0[a].1.len() > 0,
    decreases k,
{
    if k > 0 {
        lemma_targets_from_unique(intents, ts, k - 1);
        let m = targets_from(intents, ts, k - 1)->Ok_0;
        let label = trim_seq(ts[k - 1].antenna_label@);
        let m2 = targets_from(intents, ts, k)->Ok_0;
        assert(m2 == m.push((label, trim_seq(ts[k - 1].target@))));
        assert forall|a: int, b: int| 0 <= a < b < m2.len() implies (#[trigger] m2[a]).0 != (#[trigger] m2[b]).0 by {
            if b == m2.len() - 1 {
                if m2[a].0 == label {
                    assert(m[a].0 == label);
                    assert(mapped(m, label));
                }
            } else {
                assert(m2[a] == m[a]);
                assert(m2[b] == m[b]);
            }
        }
        assert forall|a: int| 0 <= a < m2.len() implies scheduled(intents, (#[trigger] m2[a]).0) && m2[a].1.len() > 0 by {
            if a < m.len() {
                assert(m2[a] == m[a]);
            }
        }
    }
}

/// A validated target mapping gives every scheduled antenna exactly one
/// nonempty target and names no unscheduled antenna.
pub proof fn law_validated_targets_cover_schedule(intents: Seq<WsprCycleIntent>, ts: Seq<ControllerTargetDraft>)
    requires
        validated_targets(intents, ts) is Ok,
    ensures
        forall|i: int| 0 <= i < intents.len() ==> mapped(validated_targets(intents, ts)->Ok_0, (#[trigger] intents[i]).antenna_label@),
        forall|a: int, b: int| 0 <= a < b < validated_targets(intents, ts)->Ok_0.len()
            ==> (#[trigger] validated_targets(intents, ts)->Ok_0[a]).0 != (#[trigger] validated_targets(intents, ts)->Ok_0[b]).0,
        forall|a: int| 0 <= a < validated_targets(intents, ts)->Ok_0.len()
            ==> scheduled(intents, (#[trigger] validated_targets(intents, ts)->Ok_0[a]).0)
            && validated_targets(intents, ts)->Ok_0[a].1.len() > 0,
{
    lemma_targets_from_unique(intents, ts, ts.len() as int);
}

/// The presented runtime contexts never exceed the limit, and the context
/// that created the session is always among them once it was recorded.
pub proof fn law_creator_context_is_presented(ids: Seq<Seq<char>>, creator: Seq<char>, i: int)
    requires
        0 <= i < ids.len(),
        ids[i] == creator,
    ensures
        selected_contexts(ids, Some(creator)).len() <= PRESENTED_CONTEXT_LIMIT,
        exists|k: int| 0 <= k < selected_contexts(ids, Some(creator)).len() && ids[#[trigger] selected_contexts(ids, Some(creator))[k]] == creator,
{
    let sel = selected_contexts(ids, Some(creator));
    let n = ids.len() as int;
    let limit = PRESENTED_CONTEXT_LIMIT as int;
    if n <= limit {
        assert(sel == Seq::new(n as nat, |x: int| x));
        assert(ids[sel[i]] == creator);
    } else {
        lemma_first_position_exists(ids, creator, i);
        let f = first_position(ids, creator)->Some_0;
        if exists|j: int| n - limit <= j < n && ids[j] == creator {
            let j = choose|j: int| n - limit <= j < n && ids[j] == creator;
            assert(sel == Seq::new(limit as nat, |x: int| n - limit + x));
            assert(ids[sel[j - (n - limit)]] == creator);
        } else {
            assert(sel == seq![f] + Seq::new((limit - 1) as nat, |x: int| n - limit + 1 + x));
            assert(ids[sel[0]] == creator);
        }
    }
}

/// Issuing a token never lets the remembered tokens exceed the limit, and
/// the token just issued is the newest one remembered, so it can be
/// resolved.
pub proof fn law_issued_token_is_remembered(actions: Seq<PendingAction>, action: PendingAction)
    ensures
        after_register(actions, action).len() <= MAX_PENDING_ACTION_TOKENS,
        after_register(actions, action).last() == action,
        token_position(after_register(actions, action), action.token@) is Some,
{
    let after = after_register(actions, action);
    let all = actions.push(action);
    if all.len() > MAX_PENDING_ACTION_TOKENS {
        assert(after.len() == MAX_PENDING_ACTION_TOKENS);
        assert(after.last() == all.last());
    }
    assert(after[after.len() - 1] == action);
}

/// Entries ordered by instant.
pub open spec fn ordered_by_time(s: Seq<EventModel>) -> bool {
    forall|i: int, j: int| 0 <= i < j < s.len() ==> s[i].2 <= s[j].2
}

proof fn lemma_insert_keeps_order(sorted: Seq<EventModel>, x: EventModel)
    requires
        ordered_by_time(sorted),
    ensures
        ordered_by_time(insert_by_time(sorted, x)),
        insert_by_time(sorted, x).len() == sorted.len() + 1,
        insert_by_time(sorted, x).to_multiset() == sorted.to_multiset().insert(x),
        forall|k: int| 0 <= k < insert_by_time(sorted, x).len() ==> (#[trigger] insert_by_time(sorted, x)[k] == x
            || sorted.contains(insert_by_time(sorted, x)[k])),
        sorted.len() > 0 ==> insert_by_time(sorted, x).last().2 == (if sorted.last().2 <= x.2 { x.2 } else { sorted.last().2 }),
    decreases sorted.len(),
{
    broadcast use vstd::seq_lib::group_seq_properties;
    broadcast use vstd::multiset::group_multiset_axioms;
    if sorted.len() == 0 || sorted.last().2 <= x.2 {
    } else {
        let d = sorted.drop_last();
        assert(ordered_by_time(d));
        lemma_insert_keeps_order(d, x);
        let t = insert_by_time(d, x);
        assert(sorted =~= d.push(sorted.last()));
        assert forall|i: int, j: int| 0 <= i < j < t.push(sorted.last()).len() implies t.push(sorted.last())[i].2 <= t.push(
            sorted.last(),
        )[j].2 by {
            if j == t.len() {
                if t[i] != x {
                    assert(d.contains(t[i]));
                    let k = choose|k: int| 0 <= k < d.len() && d[k] == t[i];
                    assert(sorted[k] == d[k]);
                }
            }
        }
        assert forall|k: int| 0 <= k < t.push(sorted.last()).len() implies (#[trigger] t.push(sorted.last())[k] == x
            || sorted.contains(t.push(sorted.last())[k])) by {
            if k < t.len() && t[k] != x {
                let m = choose|m: int| 0 <= m < d.len() && d[m] == t[k];
                assert(sorted[m] == d[m]);
            } else if k == t.len() {
                assert(sorted[sorted.len() - 1] == sorted.last());
            }
        }
        if d.len() > 0 {
            assert(d.last() == sorted[sorted.len() - 2]);
        }
    }
}

/// The conductor's event list is a stable sort of its entries: ordered by
/// instant, holding exactly the entries it was built from.
pub proof fn law_event_list_is_ordered(s: Seq<EventModel>)
    ensures
        ordered_by_time(sort_by_time(s)),
        sort_by_time(s).to_multiset() == s.to_multiset(),
    decreases s.len(),
{
    broadcast use vstd::seq_lib::group_seq_properties;
    broadcast use vstd::multiset::group_multiset_axioms;
    if s.len() > 0 {
        law_event_list_is_ordered(s.drop_last());
        lemma_insert_keeps_order(sort_by_time(s.drop_last()), s.last());
        assert(s =~= s.drop_last().push(s.last()));
    }
}

/// A profile that keeps every fixed limit: a non-empty identity and
/// revision of at most the identity limit, a name that is not blank and at
/// most the name limit, a timeout of one through sixty seconds, and valid
/// command templates.
pub open spec fn profile_valid(p: ControllerProfile) -> bool {
    &&& p.profile_id@.len() > 0 && crate::text::byte_len(p.profile_id@) <= PROFILE_IDENTITY_MAX_BYTES
    &&& p.revision@.len() > 0 && crate::text::byte_len(p.revision@) <= PROFILE_IDENTITY_MAX_BYTES
    &&& trim_seq(p.name@).len() > 0 && crate::text::byte_len(p.name@) <= PROFILE_NAME_MAX_BYTES
    &&& PROFILE_TIMEOUT_MIN_SECONDS <= p.timeout_seconds <= PROFILE_TIMEOUT_MAX_SECONDS
    &&& template_view_error(p.switch_command) is None
    &&& p.verification_command matches Some(v) ==> template_view_error(v) is None
}

/// An association that names a session and a known profile revision, and
/// maps targets whose labels and values are neither blank nor over the
/// target limit.
pub open spec fn association_valid(c: ControllerCatalog, a: PersistedAssociation) -> bool {
    &&& a.source@.len() > 0 && a.session_id@.len() > 0 && a.profile_id@.len() > 0 && a.profile_revision@.len() > 0
    &&& exists|k: int| 0 <= k < c.profiles@.len() && (#[trigger] c.profiles@[k]).profile_id@ == a.profile_id@
    &&& a.targets@.len() > 0
    &&& forall|t: int| 0 <= t < a.targets@.len() ==> !bad_mapping_text((#[trigger] a.targets@[t]).0@) && !bad_mapping_text(
        a.targets@[t].1@,
    )
}

/// A catalog every rule admits: valid profiles with distinct identities,
/// and valid associations, one per session path.
pub open spec fn catalog_valid(c: ControllerCatalog) -> bool {
    &&& forall|i: int| 0 <= i < c.profiles@.len() ==> profile_valid(#[trigger] c.profiles@[i])
    &&& forall|i: int, j: int| 0 <= i < j < c.profiles@.len() ==> (#[trigger] c.profiles@[i]).profile_id@
        != (#[trigger] c.profiles@[j]).profile_id@
    &&& forall|i: int| 0 <= i < c.associations@.len() ==> association_valid(c, #[trigger] c.associations@[i])
    &&& forall|i: int, j: int| 0 <= i < j < c.associations@.len() ==> !((#[trigger] c.associations@[i]).source@
        == (#[trigger] c.associations@[j]).source@ && c.associations@[i].session_id@ == c.associations@[j].session_id@)
}

proof fn lemma_profiles_error_from(ps: Seq<ControllerProfile>, k: int)
    requires
        0 <= k <= ps.len(),
    ensures
        profiles_error_from(ps, k) is None <==> forall|i: int| k <= i < ps.len() ==> (#[trigger] profile_error(ps, i)) is None,
    decreases ps.len() - k,
{
    if k < ps.len() {
        lemma_profiles_error_from(ps, k + 1);
    }
}

proof fn lemma_associations_error_from(c: ControllerCatalog, k: int)
    requires
        0 <= k <= c.associations@.len(),
    ensures
        associations_error_from(c, k) is None <==> forall|i: int| k <= i < c.associations@.len() ==> (#[trigger] association_error(c, i)) is None,
    decreases c.associations@.len() - k,
{
    if k < c.associations@.len() {
        lemma_associations_error_from(c, k + 1);
    }
}

/// A catalog is refused exactly when it breaks a rule: identities, names,
/// timeouts, templates, unique profile identities, and complete, unique,
/// resolvable associations with usable target mappings.
pub proof fn law_catalog_validation(c: ControllerCatalog)
    ensures
        catalog_error(c) is None <==> catalog_valid(c),
{
    lemma_profiles_error_from(c.profiles@, 0);
    lemma_associations_error_from(c, 0);
    let ps = c.profiles@;
    let xs = c.associations@;
    if catalog_valid(c) {
        assert forall|i: int| 0 <= i < ps.len() implies #[trigger] profile_error(ps, i) is None by {
            assert(profile_valid(ps[i]));
            assert(!crate::profiles::duplicate_profile_before(ps, i)) by {
                if crate::profiles::duplicate_profile_before(ps, i) {
                    let j = choose|j: int| 0 <= j < i && (#[trigger] ps[j]).profile_id@ == ps[i].profile_id@;
                    assert(ps[j].profile_id@ != ps[i].profile_id@);
                }
            }
        }
        assert forall|i: int| 0 <= i < xs.len() implies #[trigger] association_error(c, i) is None by {
            assert(association_valid(c, xs[i]));
            assert(!crate::profiles::duplicate_association_before(xs, i)) by {
                if crate::profiles::duplicate_association_before(xs, i) {
                    let j = choose|j: int| 0 <= j < i && (#[trigger] xs[j]).source@ == xs[i].source@ && xs[j].session_id@
                        == xs[i].session_id@;
                    assert(!(xs[j].source@ == xs[i].source@ && xs[j].session_id@ == xs[i].session_id@));
                }
            }
        }
    }
    if catalog_error(c) is None {
        assert forall|i: int| 0 <= i < ps.len() implies profile_valid(#[trigger] ps[i]) by {
            assert(profile_error(ps, i) is None);
        }
        assert forall|i: int, j: int| 0 <= i < j < ps.len() implies (#[trigger] ps[i]).profile_id@ != (#[trigger] ps[j]).profile_id@ by {
            assert(profile_error(ps, j) is None);
            if ps[i].profile_id@ == ps[j].profile_id@ {
                assert(crate::profiles::duplicate_profile_before(ps, j));
            }
        }
        assert forall|i: int| 0 <= i < xs.len() implies association_valid(c, #[trigger] xs[i]) by {
            assert(association_error(c, i) is None);
        }
        assert forall|i: int, j: int| 0 <= i < j < xs.len() implies !((#[trigger] xs[i]).source@ == (#[trigger] xs[j]).source@
            && xs[i].session_id@ == xs[j].session_id@) by {
            assert(association_error(c, j) is None);
            if xs[i].source@ == xs[j].source@ && xs[i].session_id@ == xs[j].session_id@ {
                assert(crate::profiles::duplicate_association_before(xs, j));
            }
        }
    }
}

/// Waiting and suspended foreground admission stay single-flight: while an
/// operation holds the foreground, a waiting operation keeps waiting and a
/// suspended one cannot take it back; once the holder suspends, exactly one
/// waiting operation is let in, and while it runs nothing else is; the
/// suspended operation takes the foreground back only after that one has
/// ended, in the state the holder left.
pub proof fn law_foreground_single_flight(s: crate::desktop::DesktopState)
    requires
        s.foreground_busy,
    ensures
        crate::desktop::take_step(s) is None,
        crate::desktop::resume_step(s) is None,
        crate::desktop::take_step(crate::desktop::with_busy(s, false)) == Some(s),
        crate::desktop::take_step(crate::desktop::take_step(crate::desktop::with_busy(s, false))->Some_0) is None,
        crate::desktop::resume_step(crate::desktop::take_step(crate::desktop::with_busy(s, false))->Some_0) is None,
        crate::desktop::resume_step(crate::desktop::with_busy(s, false)) == Some(s),
{
    assert(crate::desktop::with_busy(crate::desktop::with_busy(s, false), true) == s);
}

/// Quoted text is literal: inside an open quote, every character other
/// than the backslash and that quote's own closing mark joins the token and
/// leaves the quote open, so an apostrophe inside double quotes, or a
/// double quote inside single quotes, is an ordinary character; the
/// quote's own closing mark closes it and adds nothing.
pub proof fn law_quoted_text_is_literal(st: TokState, c: char)
    requires
        !st.escaped,
        c != '\\',
    ensures
        st.quote == Some(Quote::Double) && c != '"' ==> {
            &&& tok_step(st, c).token == st.token.push(c)
            &&& tok_step(st, c).quote == Some(Quote::Double)
            &&& tok_step(st, c).tokens == st.tokens
        },
        st.quote == Some(Quote::Single) && c != '\'' ==> {
            &&& tok_step(st, c).token == st.token.push(c)
            &&& tok_step(st, c).quote == Some(Quote::Single)
            &&& tok_step(st, c).tokens == st.tokens
        },
        st.quote == Some(Quote::Double) && c == '"' ==> {
            &&& tok_step(st, c).quote is None
            &&& tok_step(st, c).token == st.token
            &&& tok_step(st, c).tokens == st.tokens
        },
        st.quote == Some(Quote::Single) && c == '\'' ==> {
            &&& tok_step(st, c).quote is None
            &&& tok_step(st, c).token == st.token
            &&& tok_step(st, c).tokens == st.tokens
        },
{
}

/// A backslash takes the next character literally, inside quotes or not,
/// and adds nothing itself; an escaped character never opens or closes a
/// quote and never separates tokens.
pub proof fn law_backslash_escapes_one_character(st: TokState, c: char)
    ensures
        st.escaped ==> {
            &&& tok_step(st, c).token == st.token.push(c)
            &&& !tok_step(st, c).escaped
            &&& tok_step(st, c).quote == st.quote
            &&& tok_step(st, c).tokens == st.tokens
        },
        !st.escaped && c == '\\' ==> {
            &&& tok_step(st, c).escaped
            &&& tok_step(st, c).token == st.token
            &&& tok_step(st, c).quote == st.quote
            &&& tok_step(st, c).tokens == st.tokens
        },
{
}

/// Outside quotes, a quote character opens a quote of its own kind and is
/// not part of the token, and whitespace ends the token begun before it (a
/// run of whitespace ends it once).
pub proof fn law_quotes_open_and_whitespace_separates(st: TokState, c: char)
    requires
        !st.escaped,
        st.quote is None,
    ensures
        c == '\'' ==> tok_step(st, c).quote == Some(Quote::Single) && tok_step(st, c).token == st.token
            && tok_step(st, c).tokens == st.tokens,
        c == '"' ==> tok_step(st, c).quote == Some(Quote::Double) && tok_step(st, c).token == st.token
            && tok_step(st, c).tokens == st.tokens,
        is_ws(c) && st.started ==> {
            &&& tok_step(st, c).tokens == st.tokens.push(st.token)
            &&& tok_step(st, c).token.len() == 0
            &&& !tok_step(st, c).started
            &&& tok_step(st, c).quote is None
        },
        is_ws(c) && !st.started ==> tok_step(st, c) == st,
{
}

/// Every slot before the one a running session reports holds the instant
/// outside its window.
proof fn lemma_active_is_first(s: Seq<ConductorSlotView>, now: i64, k: int)
    requires
        0 <= k,
    ensures
        forall|j: int|
            k <= j < s.len() && !(active_from(s, now, k) matches Some(i) && i <= j) ==> !(
            #[trigger] s[j].starts_at_ms <= now && now < s[j].ends_at_ms),
    decreases s.len() - k,
{
    if k < s.len() {
        lemma_active_is_first(s, now, k + 1);
    }
}

/// While a session runs, it is in a slot (guard time or active) exactly
/// when some slot's window holds the instant; the slot it reports is the
/// first such, the next one is the slot after it, and the slot is active
/// once its evidence is usable. Otherwise it awaits the first slot still to
/// start: before the schedule's first slot, or between slots.
pub proof fn law_running_phase_follows_the_windows(acquisition_enabled: bool, s: Seq<ConductorSlotView>, now: i64)
    requires
        s.len() <= usize::MAX,
    ensures
        ({
            let t = timing_spec(SessionLifecycle::Running, acquisition_enabled, s, now);
            (t.0 == crate::timing::ConductorPhase::Active || t.0 == crate::timing::ConductorPhase::Guard) <==> exists|k: int|
                0 <= k < s.len() && #[trigger] s[k].starts_at_ms <= now && now < s[k].ends_at_ms
        }),
        ({
            let t = timing_spec(SessionLifecycle::Running, acquisition_enabled, s, now);
            (t.0 == crate::timing::ConductorPhase::Active || t.0 == crate::timing::ConductorPhase::Guard) ==> {
                &&& t.3 matches Some(i) && i < s.len() && (forall|j: int|
                    0 <= j < i ==> !(#[trigger] s[j].starts_at_ms <= now && now < s[j].ends_at_ms))
                    && t.4 == (if i + 1 < s.len() { Some((i + 1) as usize) } else { None::<usize> })
                    && (t.0 == crate::timing::ConductorPhase::Active <==> s[i as int].usable_at_ms <= now)
            }
        }),
        ({
            let t = timing_spec(SessionLifecycle::Running, acquisition_enabled, s, now);
            (t.0 == crate::timing::ConductorPhase::AwaitingSlot || t.0 == crate::timing::ConductorPhase::BetweenSlots) ==> {
                &&& t.4 matches Some(n) && n < s.len() && now < s[n as int].starts_at_ms
                    && (forall|j: int| 0 <= j < n ==> #[trigger] s[j].starts_at_ms <= now)
                    && (t.0 == crate::timing::ConductorPhase::AwaitingSlot <==> n == 0)
            }
        }),
{
    lemma_active_is_first(s, now, 0);
    crate::timing::lemma_active_from(s, now, 0);
    crate::timing::lemma_upcoming_from(s, now, 0);
    lemma_upcoming_is_first(s, now, 0);
}

/// Every slot before the first upcoming one has already started.
proof fn lemma_upcoming_is_first(s: Seq<ConductorSlotView>, now: i64, k: int)
    requires
        0 <= k,
    ensures
        forall|j: int|
            k <= j < s.len() && !(upcoming_from(s, now, k) matches Some(i) && i <= j) ==> #[trigger] s[j].starts_at_ms
                <= now,
    decreases s.len() - k,
{
    if k < s.len() {
        lemma_upcoming_is_first(s, now, k + 1);
    }
}

/// The countdown runs to the boundary the phase waits for: while a slot is
/// active its countdown runs to the slot's end; during its guard time, to
/// the instant its evidence becomes usable; before a slot, to that slot's
/// start. The slot named holds the instant in its window, or starts after
/// it. The slots are as many as a vector can hold.
pub proof fn law_countdown_runs_to_the_next_boundary(
    lifecycle: SessionLifecycle,
    acquisition_enabled: bool,
    s: Seq<ConductorSlotView>,
    next_intent: Option<WsprCycleIntent>,
    plan: TransitionPlan,
    switching: bool,
    now: i64,
)
    requires
        s.len() <= usize::MAX,
    ensures
        timing_spec(lifecycle, acquisition_enabled, s, now).0 == crate::timing::ConductorPhase::Active ==> {
            let t = timing_spec(lifecycle, acquisition_enabled, s, now);
            &&& t.3 matches Some(i) && i < s.len() && s[i as int].starts_at_ms <= now < s[i as int].ends_at_ms
                && s[i as int].usable_at_ms <= now && t.2 == Some(seconds_until(s[i as int].ends_at_ms as int, now as int))
        },
        timing_spec(lifecycle, acquisition_enabled, s, now).0 == crate::timing::ConductorPhase::Guard ==> {
            let t = timing_spec(lifecycle, acquisition_enabled, s, now);
            &&& t.3 matches Some(i) && i < s.len() && s[i as int].starts_at_ms <= now < s[i as int].usable_at_ms
                && t.2 == Some(seconds_until(s[i as int].usable_at_ms as int, now as int))
        },
        (timing_spec(lifecycle, acquisition_enabled, s, now).0 == crate::timing::ConductorPhase::AwaitingSlot
            || timing_spec(lifecycle, acquisition_enabled, s, now).0 == crate::timing::ConductorPhase::BetweenSlots) ==> {
            let t = timing_spec(lifecycle, acquisition_enabled, s, now);
            &&& t.4 matches Some(n) && n < s.len() && now < s[n as int].starts_at_ms
                && t.2 == Some(seconds_until(s[n as int].starts_at_ms as int, now as int))
        },
        timing_v3_spec(lifecycle, acquisition_enabled, s, next_intent, plan, switching, now).0
            == crate::timing::ConductorPhase::Active ==> {
            let t = timing_v3_spec(lifecycle, acquisition_enabled, s, next_intent, plan, switching, now);
            &&& t.3 matches Some(i) && i < s.len() && s[i as int].starts_at_ms <= now < s[i as int].ends_at_ms
                && t.2 == Some(seconds_until(s[i as int].ends_at_ms as int, now as int))
        },
        timing_v3_spec(lifecycle, acquisition_enabled, s, next_intent, plan, switching, now).0
            == crate::timing::ConductorPhase::AwaitingSlot ==> {
            let t = timing_v3_spec(lifecycle, acquisition_enabled, s, next_intent, plan, switching, now);
            &&& t.4 matches Some(n) && n < s.len() && now < s[n as int].starts_at_ms
                && t.2 == Some(seconds_until(s[n as int].starts_at_ms as int, now as int))
        },
{
    crate::timing::lemma_active_from(s, now, 0);
    crate::timing::lemma_upcoming_from(s, now, 0);
}

/// The intention of the last armed cycle, when the session still plans it.
pub open spec fn armed_intent(s: crate::control_model::ControlSession) -> Option<WsprCycleIntent> {
    let cycles = s.projection.cycles@;
    if cycles.len() == 0 {
        None
    } else {
        match crate::transition::find_intent(s.intents@, cycles.last().intent_id@) {
            Some(k) => Some(s.intents@[k]),
            None => None,
        }
    }
}

/// A band, direction or signal needs nothing only when it is what the last
/// armed cycle used; a run goes on without the operator only when all three
/// are unchanged; and a change of band always needs the operator.
pub proof fn law_changes_need_the_operator(s: crate::control_model::ControlSession, next: WsprCycleIntent)
    ensures
        crate::transition::transition_plan_spec(s, Some(next)).view.band == crate::transition::TransitionDisposition::NoChangeNeeded
            ==> (armed_intent(s) matches Some(prev) && prev.band == next.band),
        crate::transition::transition_plan_spec(s, Some(next)).view.direction
            == crate::transition::TransitionDisposition::NoChangeNeeded ==> (armed_intent(s) matches Some(prev) && prev.direction
            == next.direction),
        crate::transition::transition_plan_spec(s, Some(next)).view.signal == crate::transition::TransitionDisposition::NoChangeNeeded
            ==> (armed_intent(s) matches Some(prev) && crate::control_model::signal_view(prev.signal)
            == crate::control_model::signal_view(next.signal)),
        !crate::transition::transition_plan_spec(s, Some(next)).operator_action_required ==> (armed_intent(s) matches Some(prev)
            && prev.band == next.band && prev.direction == next.direction && crate::control_model::signal_view(prev.signal)
            == crate::control_model::signal_view(next.signal)),
        (armed_intent(s) matches Some(prev) && prev.band != next.band) ==> {
            &&& crate::transition::transition_plan_spec(s, Some(next)).view.band != crate::transition::TransitionDisposition::NoChangeNeeded
            &&& crate::transition::transition_plan_spec(s, Some(next)).operator_action_required
        },
{
    let cycles = s.projection.cycles@;
    if cycles.len() > 0 {
        crate::transition::lemma_find_intent(s.intents@, cycles.last().intent_id@);
    }
}

/// The antenna is still occupied by the cycle last armed: an occupancy is
/// open and the last armed cycle was armed from it with the same antenna.
pub open spec fn occupancy_continues(s: crate::control_model::ControlSession) -> bool {
    let occ = s.projection.occupancies@;
    let cycles = s.projection.cycles@;
    &&& occ.len() > 0
    &&& occ.last().ends_at_ms is None
    &&& cycles.len() > 0
    &&& cycles.last().ready_event_id@ == occ.last().ready_event_id@
    &&& cycles.last().antenna_label@ == occ.last().antenna_label@
}

/// What committed evidence cannot establish blocks every aspect and needs
/// the operator: no next intention, no open occupancy matched by the last
/// armed cycle, or no known intention behind that cycle. Otherwise the
/// direction, band and signal each need nothing when unchanged and need
/// the operator when changed; the antenna needs nothing exactly when its
/// label is unchanged; the run needs the operator whenever some aspect is
/// neither unchanged nor completed and verified automatically, and not
/// when all four are unchanged.
pub proof fn law_transition_dispositions(s: crate::control_model::ControlSession, next: WsprCycleIntent)
    ensures
        crate::transition::transition_plan_spec(s, None).view == crate::transition::unknown_view(),
        crate::transition::transition_plan_spec(s, None).operator_action_required,
        !(occupancy_continues(s) && armed_intent(s) is Some) ==> {
            &&& crate::transition::transition_plan_spec(s, Some(next)).view == crate::transition::unknown_view()
            &&& crate::transition::transition_plan_spec(s, Some(next)).operator_action_required
        },
        (occupancy_continues(s) && armed_intent(s) is Some) ==> {
            let p = crate::transition::transition_plan_spec(s, Some(next));
            let prev = armed_intent(s).unwrap();
            &&& p.view.direction == (if prev.direction == next.direction {
                crate::transition::TransitionDisposition::NoChangeNeeded
            } else {
                crate::transition::TransitionDisposition::OperatorActionRequired
            })
            &&& p.view.band == (if prev.band == next.band {
                crate::transition::TransitionDisposition::NoChangeNeeded
            } else {
                crate::transition::TransitionDisposition::OperatorActionRequired
            })
            &&& p.view.signal == (if crate::control_model::signal_view(prev.signal) == crate::control_model::signal_view(
                next.signal,
            ) {
                crate::transition::TransitionDisposition::NoChangeNeeded
            } else {
                crate::transition::TransitionDisposition::OperatorActionRequired
            })
            &&& (p.view.antenna == crate::transition::TransitionDisposition::NoChangeNeeded <==> prev.antenna_label@
                == next.antenna_label@)
            &&& p.source_ready_event_id == Some(s.projection.occupancies@.last().ready_event_id@)
        },
        ({
            let p = crate::transition::transition_plan_spec(s, Some(next));
            &&& !crate::transition::same_spec(p.view.antenna) ==> p.operator_action_required
            &&& !crate::transition::same_spec(p.view.direction) ==> p.operator_action_required
            &&& !crate::transition::same_spec(p.view.band) ==> p.operator_action_required
            &&& !crate::transition::same_spec(p.view.signal) ==> p.operator_action_required
            &&& (p.view.antenna == crate::transition::TransitionDisposition::NoChangeNeeded && p.view.direction
                == crate::transition::TransitionDisposition::NoChangeNeeded && p.view.band
                == crate::transition::TransitionDisposition::NoChangeNeeded && p.view.signal
                == crate::transition::TransitionDisposition::NoChangeNeeded) ==> !p.operator_action_required
        }),
{
    let cycles = s.projection.cycles@;
    if cycles.len() > 0 {
        crate::transition::lemma_find_intent(s.intents@, cycles.last().intent_id@);
    }
}

/// A report event's kind names the variant of the event it reports, and no
/// other: each recorded payload has its own kind.
pub proof fn law_report_kind_names_the_recorded_variant<Q>(
    r: crate::report_snapshot::ReportOperatorEvent,
    events: Seq<crate::conductor_actions::OperatorEvent<Q>>,
    rejected: Seq<String>,
    e: crate::conductor_actions::OperatorEvent<Q>,
    text: Option<String>,
)
    requires
        crate::report_snapshot::report_event_ok(r, events, rejected, e, text),
    ensures
        (r.kind == crate::report_snapshot::ReportOperatorEventKind::SessionStarted) == (e.payload is SessionStarted),
        (r.kind == crate::report_snapshot::ReportOperatorEventKind::SessionInterrupted) == (e.payload is SessionInterrupted),
        (r.kind == crate::report_snapshot::ReportOperatorEventKind::InterruptionDetected) == (e.payload is InterruptionDetected),
        (r.kind == crate::report_snapshot::ReportOperatorEventKind::SessionResumed) == (e.payload is SessionResumed),
        (r.kind == crate::report_snapshot::ReportOperatorEventKind::SessionEnded) == (e.payload is SessionEnded),
        (r.kind == crate::report_snapshot::ReportOperatorEventKind::SessionAbandoned) == (e.payload is SessionAbandoned),
        (r.kind == crate::report_snapshot::ReportOperatorEventKind::AntennaSwitchStarted) == (e.payload is AntennaSwitchStarted),
        (r.kind == crate::report_snapshot::ReportOperatorEventKind::WsprCycleArmed) == (e.payload is WsprCycleArmed),
        (r.kind == crate::report_snapshot::ReportOperatorEventKind::AntennaStateConfirmed) == (e.payload is AntennaStateConfirmed),
        (r.kind == crate::report_snapshot::ReportOperatorEventKind::SignalStateConfirmed) == (e.payload is SignalStateConfirmed),
        (r.kind == crate::report_snapshot::ReportOperatorEventKind::SlotMissed) == (e.payload is SlotMissed),
        (r.kind == crate::report_snapshot::ReportOperatorEventKind::SlotBad) == (e.payload is SlotBad),
        (r.kind == crate::report_snapshot::ReportOperatorEventKind::NoteAdded) == (e.payload is NoteAdded),
        (r.kind == crate::report_snapshot::ReportOperatorEventKind::EventCorrected) == (e.payload is EventCorrected),
{
}

/// A report event keeps the recorded event's identity and instant, carries
/// the operator's own words as its detail (a missed slot's reason, a bad
/// slot's reason, a note, an interruption's or ending's reason), and has a
/// correction exactly when it reports one, applied unless it was rejected.
pub proof fn law_report_event_carries_the_record<Q>(
    r: crate::report_snapshot::ReportOperatorEvent,
    events: Seq<crate::conductor_actions::OperatorEvent<Q>>,
    rejected: Seq<String>,
    e: crate::conductor_actions::OperatorEvent<Q>,
    text: Option<String>,
)
    requires
        crate::report_snapshot::report_event_ok(r, events, rejected, e, text),
    ensures
        r.event_id@ == e.event_id@,
        r.occurred_at_ms == e.occurred_at_ms,
        crate::text::opt_view(r.slot_id) == crate::text::opt_view(e.slot_id),
        e.payload matches crate::conductor_actions::OperatorEventPayload::SlotMissed { reason } ==> crate::text::opt_view(
            r.detail,
        ) == crate::text::opt_view(reason),
        e.payload matches crate::conductor_actions::OperatorEventPayload::SlotBad { reason } ==> crate::text::opt_view(
            r.detail,
        ) == Some(reason@),
        e.payload matches crate::conductor_actions::OperatorEventPayload::NoteAdded { note } ==> crate::text::opt_view(
            r.detail,
        ) == Some(note@),
        e.payload matches crate::conductor_actions::OperatorEventPayload::SessionStarted { note } ==> crate::text::opt_view(
            r.detail,
        ) == crate::text::opt_view(note),
        e.payload matches crate::conductor_actions::OperatorEventPayload::SessionResumed { note } ==> crate::text::opt_view(
            r.detail,
        ) == crate::text::opt_view(note),
        e.payload matches crate::conductor_actions::OperatorEventPayload::AntennaSwitchStarted { note }
            ==> crate::text::opt_view(r.detail) == crate::text::opt_view(note),
        e.payload matches crate::conductor_actions::OperatorEventPayload::SessionInterrupted { reason }
            ==> crate::text::opt_view(r.detail) == crate::text::opt_view(reason),
        e.payload matches crate::conductor_actions::OperatorEventPayload::InterruptionDetected { reason }
            ==> crate::text::opt_view(r.detail) == crate::text::opt_view(reason),
        e.payload matches crate::conductor_actions::OperatorEventPayload::SessionEnded { reason } ==> crate::text::opt_view(
            r.detail,
        ) == crate::text::opt_view(reason),
        e.payload matches crate::conductor_actions::OperatorEventPayload::SessionAbandoned { reason }
            ==> crate::text::opt_view(r.detail) == crate::text::opt_view(reason),
        r.correction is Some <==> e.payload is EventCorrected,
        e.payload matches crate::conductor_actions::OperatorEventPayload::EventCorrected { target_event_id, reason, .. }
            ==> (r.correction matches Some(c) && c.target_event_id@ == target_event_id@ && c.reason@ == reason@
            && c.applied == !crate::report_snapshot::rejected_id(rejected, e.event_id@)),
{
}

/// How an automatic attempt ends the worker: a failed switch or
/// verification blocks automation and disarms it; a successful switch
/// under a review-required policy awaits the operator and stays armed; the
/// worker goes on by itself only after a verified switch without review;
/// and it disarms exactly when it blocks.
pub proof fn law_attempt_outcome(switch_success: bool, verification_success: Option<bool>, manual_review_required: bool)
    ensures
        (!switch_success || verification_success == Some(false)) ==> crate::automation::attempt_status(
            switch_success,
            verification_success,
            manual_review_required,
        ) == Some((crate::policy::AutomationStatus::Blocked, true)),
        (switch_success && verification_success != Some(false) && manual_review_required) ==> crate::automation::attempt_status(
            switch_success,
            verification_success,
            manual_review_required,
        ) == Some((crate::policy::AutomationStatus::AwaitingReview, false)),
        crate::automation::attempt_status(switch_success, verification_success, manual_review_required) is None <==> (
        switch_success && verification_success == Some(true) && !manual_review_required),
        crate::automation::attempt_status(switch_success, verification_success, manual_review_required) matches Some(
            (status, disarm),
        ) ==> (disarm <==> status == crate::policy::AutomationStatus::Blocked),
{
}

} // verus!
