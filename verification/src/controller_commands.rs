//! The controller commands the shell offers: saving and deleting local
//! profiles in the catalog, and attaching a profile revision to the active
//! session. Reading and writing the catalog file stays with the shell.

use vstd::prelude::*;

use crate::automation::{copy_pairs, copy_profile, same_profile};
use crate::control_model::{AntennaControlPolicy, ControlSession};
use crate::controller_view::{active_controller_view_for, view_spec, ActiveControllerView};
use crate::errors::{plain_error, SessionErrorKind, SessionErrorPayload};
use crate::policy::{AntennaControllerState, AutomationStatus};
use crate::profiles::{
    keeps_profile, normalize_profile, normalized_profile, persist_profile_and_association, profile_draft_error,
    profiles_sorted, remove_profile, upsert_profile, ControllerCatalog, ControllerProfile, ControllerProfileDraft,
    ControllerTargetDraft, PreparedSetupController,
};
use crate::setup::{pairs_seq, validate_targets, validated_targets};
use crate::text::{dec, owned, push_str, str_eq, u64_text};

verus! {

/// The first schema version whose sessions can be attached to a controller.
pub const CONTROLLER_SCHEMA_VERSION: u16 = 5;

/// A request to attach a profile revision to the active session.
#[derive(Debug, Clone, PartialEq, Eq)]
pub struct AttachControllerRequest {
    pub profile_id: String,
    pub profile_revision: String,
    pub targets: Vec<ControllerTargetDraft>,
    pub armed: bool,
}

/// The position of the first profile with an identity.
pub open spec fn profile_at(ps: Seq<ControllerProfile>, id: Seq<char>, k: int) -> bool {
    &&& 0 <= k < ps.len()
    &&& ps[k].profile_id@ == id
    &&& forall|j: int| 0 <= j < k ==> (#[trigger] ps[j]).profile_id@ != id
}

/// The saved profile a draft edits: the first with the draft's identity.
pub open spec fn edited_profile(ps: Seq<ControllerProfile>, draft: ControllerProfileDraft) -> Option<ControllerProfile> {
    match draft.profile_id {
        Some(id) => if exists|k: int| profile_at(ps, id@, k) {
            Some(ps[choose|k: int| profile_at(ps, id@, k)])
        } else {
            None
        },
        None => None,
    }
}

proof fn lemma_profile_at_unique(ps: Seq<ControllerProfile>, id: Seq<char>, a: int, b: int)
    requires
        profile_at(ps, id, a),
        profile_at(ps, id, b),
    ensures
        a == b,
{
    if a < b {
        assert(ps[a].profile_id@ != id);
    }
    if b < a {
        assert(ps[b].profile_id@ != id);
    }
}

fn find_profile<'a>(ps: &'a Vec<ControllerProfile>, id: &str) -> (r: Option<&'a ControllerProfile>)
    ensures
        match r {
            Some(p) => exists|k: int| profile_at(ps@, id@, k) && ps@[k] == *p,
            None => !exists|k: int| 0 <= k < ps@.len() && (#[trigger] ps@[k]).profile_id@ == id@,
        },
{
    let mut k: usize = 0;
    while k < ps.len()
        invariant
            k <= ps@.len(),
            forall|j: int| 0 <= j < k ==> (#[trigger] ps@[j]).profile_id@ != id@,
        decreases ps@.len() - k,
    {
        if str_eq(ps[k].profile_id.as_str(), id) {
            assert(profile_at(ps@, id@, k as int));
            return Some(&ps[k]);
        }
        k = k + 1;
    }
    None
}

/// The error of a draft whose saved profile no longer exists.
pub open spec fn vanished_profile_error(e: SessionErrorPayload) -> bool {
    plain_error(
        e,
        SessionErrorKind::Conflict,
        "The saved antenna-controller profile changed. Refresh before saving."@,
        "the requested local profile identity no longer exists"@,
    )
}

/// The error of an invalid profile draft.
pub open spec fn invalid_profile_error(e: SessionErrorPayload, detail: Seq<char>) -> bool {
    plain_error(e, SessionErrorKind::Validation, "The local antenna-controller profile is not valid."@, detail)
}

/// Saves a profile draft into the catalog: a draft naming a saved profile
/// edits it, keeping its identity and, when nothing changed, its revision.
/// The catalog keeps one profile per identity, ordered by name. The result
/// also says whether the saved revision changed, which withdraws any
/// attachment of the profile.
pub fn save_profile_to_catalog(
    catalog: ControllerCatalog,
    draft: &ControllerProfileDraft,
    new_id: impl Fn(&str) -> String,
) -> (r: Result<(ControllerCatalog, ControllerProfile, bool), SessionErrorPayload>)
    requires
        forall|prefix: &str| #[trigger] new_id.requires((prefix,)),
    ensures
        (draft.profile_id is Some && edited_profile(catalog.profiles@, *draft) is None) ==> (r matches Err(e)
            && vanished_profile_error(e)),
        !(draft.profile_id is Some && edited_profile(catalog.profiles@, *draft) is None) ==> match profile_draft_error(*draft) {
            Some(m) => r matches Err(e) && invalid_profile_error(e, m),
            None => r matches Ok((c, p, changed)) && {
                &&& normalized_profile(*draft, edited_profile(catalog.profiles@, *draft), new_id, p)
                &&& changed == match edited_profile(catalog.profiles@, *draft) {
                    Some(e) => e.revision@ != p.revision@,
                    None => true,
                }
                &&& c.version == catalog.version
                &&& c.associations == catalog.associations
                &&& profiles_sorted(c.profiles@)
                &&& exists|q: ControllerProfile| same_profile(q, p) && c.profiles@.to_multiset() == catalog.profiles@.filter(
                    keeps_profile(p.profile_id@),
                ).push(q).to_multiset()
            },
        },
{
    let existing = match &draft.profile_id {
        Some(id) => {
            let found = find_profile(&catalog.profiles, id.as_str());
            proof {
                match found {
                    Some(p) => {
                        let k = choose|k: int| profile_at(catalog.profiles@, id@, k) && catalog.profiles@[k] == *p;
                        let c = choose|k: int| profile_at(catalog.profiles@, id@, k);
                        lemma_profile_at_unique(catalog.profiles@, id@, k, c);
                    },
                    None => {
                        if exists|k: int| profile_at(catalog.profiles@, id@, k) {
                            let k = choose|k: int| profile_at(catalog.profiles@, id@, k);
                            assert(catalog.profiles@[k].profile_id@ == id@);
                        }
                    },
                }
            }
            match found {
                Some(p) => Some(p),
                None => {
                    return Err(SessionErrorPayload::new(
                        SessionErrorKind::Conflict,
                        "The saved antenna-controller profile changed. Refresh before saving.",
                        "the requested local profile identity no longer exists",
                    ));
                },
            }
        },
        None => None,
    };
    let profile = match normalize_profile(draft, existing, new_id) {
        Ok(p) => p,
        Err(detail) => {
            return Err(SessionErrorPayload::new(
                SessionErrorKind::Validation,
                "The local antenna-controller profile is not valid.",
                detail.as_str(),
            ));
        },
    };
    let changed = match existing {
        Some(e) => !str_eq(e.revision.as_str(), profile.revision.as_str()),
        None => true,
    };
    let saved = copy_profile(&profile);
    let ghost kept = profile;
    let ControllerCatalog { version, profiles, associations } = catalog;
    let profiles = upsert_profile(profiles, profile);
    assert(same_profile(kept, saved));
    Ok((ControllerCatalog { version, profiles, associations }, saved, changed))
}

/// Withdraws the controller authority when the attached profile is the
/// one given; otherwise nothing changes. Says whether it withdrew it.
pub fn revoke_if_attached(controller: &mut AntennaControllerState, profile_id: &str) -> (r: bool)
    ensures
        r == (old(controller).runtime.attached matches Some(a) && a.profile_id@ == profile_id@),
        r ==> {
            &&& final(controller).generation == old(controller).generation.wrapping_add(1)
            &&& final(controller).runtime.attached is None
            &&& final(controller).runtime.last_attempt is None
            &&& !final(controller).runtime.worker_running
            &&& final(controller).runtime.automation_status == AutomationStatus::Idle
        },
        !r ==> *final(controller) == *old(controller),
{
    let attached = match &controller.runtime.attached {
        Some(a) => str_eq(a.profile_id.as_str(), profile_id),
        None => false,
    };
    if attached {
        controller.revoke();
    }
    attached
}

/// The error of deleting a profile that no longer exists.
pub open spec fn missing_profile_error(e: SessionErrorPayload) -> bool {
    plain_error(
        e,
        SessionErrorKind::Conflict,
        "The saved antenna-controller profile no longer exists."@,
        "refresh the local controller profile list before deleting"@,
    )
}

/// Deletes a saved profile and every session association to it.
pub fn delete_profile_from_catalog(catalog: &mut ControllerCatalog, profile_id: &str) -> (r: Result<(), SessionErrorPayload>)
    ensures
        r is Ok == exists|k: int|
            0 <= k < old(catalog).profiles@.len() && (#[trigger] old(catalog).profiles@[k]).profile_id@ == profile_id@,
        r matches Err(e) ==> missing_profile_error(e),
        final(catalog).version == old(catalog).version,
        final(catalog).profiles@ == old(catalog).profiles@.filter(keeps_profile(profile_id@)),
        final(catalog).associations@ == old(catalog).associations@.filter(
            crate::profiles::keeps_association_of(profile_id@),
        ),
{
    if !remove_profile(catalog, profile_id) {
        return Err(SessionErrorPayload::new(
            SessionErrorKind::Conflict,
            "The saved antenna-controller profile no longer exists.",
            "refresh the local controller profile list before deleting",
        ));
    }
    Ok(())
}

/// The position of the first profile with an identity and revision.
pub open spec fn revision_at(ps: Seq<ControllerProfile>, id: Seq<char>, revision: Seq<char>, k: int) -> bool {
    &&& 0 <= k < ps.len()
    &&& ps[k].profile_id@ == id
    &&& ps[k].revision@ == revision
    &&& forall|j: int| 0 <= j < k ==> !((#[trigger] ps[j]).profile_id@ == id && ps[j].revision@ == revision)
}

pub(crate) fn find_revision(ps: &Vec<ControllerProfile>, id: &str, revision: &str) -> (r: Option<usize>)
    ensures
        match r {
            Some(k) => revision_at(ps@, id@, revision@, k as int),
            None => !exists|k: int| revision_at(ps@, id@, revision@, k),
        },
{
    let mut k: usize = 0;
    while k < ps.len()
        invariant
            k <= ps@.len(),
            forall|j: int| 0 <= j < k ==> !((#[trigger] ps@[j]).profile_id@ == id@ && ps@[j].revision@ == revision@),
        decreases ps@.len() - k,
    {
        if str_eq(ps[k].profile_id.as_str(), id) && str_eq(ps[k].revision.as_str(), revision) {
            return Some(k);
        }
        k = k + 1;
    }
    proof {
        if exists|k: int| revision_at(ps@, id@, revision@, k) {
            let w = choose|k: int| revision_at(ps@, id@, revision@, k);
            assert(!(ps@[w].profile_id@ == id@ && ps@[w].revision@ == revision@));
        }
    }
    None
}

/// A revision has one first position.
pub proof fn lemma_revision_at_unique(ps: Seq<ControllerProfile>, id: Seq<char>, revision: Seq<char>, a: int, b: int)
    requires
        revision_at(ps, id, revision, a),
        revision_at(ps, id, revision, b),
    ensures
        a == b,
{
    if a < b {
        assert(!(ps[a].profile_id@ == id && ps[a].revision@ == revision));
    }
    if b < a {
        assert(!(ps[b].profile_id@ == id && ps[b].revision@ == revision));
    }
}

/// Why an attachment request is refused before anything is written, if it
/// is.
pub open spec fn attach_refusal(session: ControlSession, catalog: ControllerCatalog, request: AttachControllerRequest) -> Option<
    (SessionErrorKind, Seq<char>, Seq<char>),
> {
    if session.schema_version < CONTROLLER_SCHEMA_VERSION {
        Some((
            SessionErrorKind::Unsupported,
            "Antenna-controller profiles require a schema-v5 session."@,
            "schema version "@ + dec(session.schema_version as nat),
        ))
    } else if !(session.antenna_control matches Some(AntennaControlPolicy::CommandControlled { .. })) {
        Some((
            SessionErrorKind::Conflict,
            "This session was not planned for command-controlled antenna assistance."@,
            "the portable antenna-control policy remains manual"@,
        ))
    } else if !exists|k: int| revision_at(catalog.profiles@, request.profile_id@, request.profile_revision@, k) {
        Some((
            SessionErrorKind::Conflict,
            "The selected controller profile changed. Review and attach it again."@,
            "the requested local profile revision is unavailable"@,
        ))
    } else {
        match validated_targets(session.intents@, request.targets@) {
            Err(m) => Some((SessionErrorKind::Validation, "The antenna target mapping is not valid."@, m)),
            Ok(_) => None,
        }
    }
}

/// Attaches a saved profile revision to the active session at `source`:
/// the session must be current enough and planned for command control,
/// the revision must still be saved, and every target must map a scheduled
/// antenna. The catalog with the profile and the session's association is
/// handed to `write`; only once it is written does the controller attach,
/// and the controller view of the session is returned.
pub fn attach_active_session_antenna_controller<W: FnOnce(&ControllerCatalog) -> Result<(), SessionErrorPayload>>(
    controller: &mut AntennaControllerState,
    source: &str,
    session: &ControlSession,
    catalog: ControllerCatalog,
    request: AttachControllerRequest,
    write: W,
) -> (r: Result<ActiveControllerView, SessionErrorPayload>)
    requires
        forall|c: &ControllerCatalog| call_requires(write, (c,)),
    ensures
        attach_refusal(*session, catalog, request) matches Some((kind, message, detail)) ==> (r matches Err(e)
            && plain_error(e, kind, message, detail) && *final(controller) == *old(controller)),
        attach_refusal(*session, catalog, request) is None ==> exists|written: ControllerCatalog, outcome: Result<(), SessionErrorPayload>| {
            &&& call_ensures(write, (&written,), outcome)
            &&& written.version == catalog.version
            &&& written.associations@.last().source@ == source@
            &&& written.associations@.last().session_id@ == session.session_id@
            &&& written.associations@.last().profile_id@ == request.profile_id@
            &&& written.associations@.last().profile_revision@ == request.profile_revision@
            &&& pairs_seq(written.associations@.last().targets@) == validated_targets(session.intents@, request.targets@)->Ok_0
            &&& match outcome {
                Err(e) => r == Err::<ActiveControllerView, SessionErrorPayload>(e) && *final(controller) == *old(controller),
                Ok(_) => {
                    &&& final(controller).generation == old(controller).generation.wrapping_add(1)
                    &&& final(controller).runtime.attached matches Some(a) && a.source@ == source@
                        && a.session_id@ == session.session_id@ && a.profile_id@ == request.profile_id@
                        && a.profile_revision@ == request.profile_revision@ && a.armed == request.armed
                        && pairs_seq(a.targets@) == validated_targets(session.intents@, request.targets@)->Ok_0
                    &&& r matches Ok(view) && view_spec(
                        source@,
                        session.session_id@,
                        session.antenna_control,
                        written,
                        final(controller).runtime,
                        view,
                    )
                },
            }
        },
{
    if session.schema_version < CONTROLLER_SCHEMA_VERSION {
        let mut detail = owned("schema version ");
        let v = u64_text(session.schema_version as u64);
        push_str(&mut detail, v.as_str());
        proof {
            reveal_strlit("schema version ");
        }
        return Err(SessionErrorPayload::new(
            SessionErrorKind::Unsupported,
            "Antenna-controller profiles require a schema-v5 session.",
            detail.as_str(),
        ));
    }
    match session.antenna_control {
        Some(AntennaControlPolicy::CommandControlled { .. }) => {},
        _ => {
            return Err(SessionErrorPayload::new(
                SessionErrorKind::Conflict,
                "This session was not planned for command-controlled antenna assistance.",
                "the portable antenna-control policy remains manual",
            ));
        },
    }
    let found = find_revision(&catalog.profiles, request.profile_id.as_str(), request.profile_revision.as_str());
    let index = match found {
        Some(i) => i,
        None => {
            return Err(SessionErrorPayload::new(
                SessionErrorKind::Conflict,
                "The selected controller profile changed. Review and attach it again.",
                "the requested local profile revision is unavailable",
            ));
        },
    };
    let targets = match validate_targets(&session.intents, &request.targets) {
        Ok(t) => t,
        Err(detail) => {
            return Err(SessionErrorPayload::new(
                SessionErrorKind::Validation,
                "The antenna target mapping is not valid.",
                detail.as_str(),
            ));
        },
    };
    let profile = copy_profile(&catalog.profiles[index]);
    let chosen = copy_profile(&catalog.profiles[index]);
    let prepared = PreparedSetupController { profile, targets: copy_pairs(&targets), arm_for_session: request.armed };
    let written = persist_profile_and_association(catalog, source, session.session_id.as_str(), prepared);
    let outcome = write(&written);
    match outcome {
        Err(e) => Err(e),
        Ok(()) => {
            controller.attach(owned(source), owned(session.session_id.as_str()), &chosen, targets, request.armed);
            Ok(active_controller_view_for(
                source,
                session.session_id.as_str(),
                session.antenna_control,
                &written,
                &controller.runtime,
            ))
        },
    }
}

} // verus!
