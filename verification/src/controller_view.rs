//! What the shell shows of the active session's antenna controller: the
//! session policy, the attached or persisted profile revision, whether that
//! revision is stale, and whether the volatile arming still applies.

use vstd::prelude::*;

use crate::control_model::{AntennaControlInvocationPolicy, AntennaControlPolicy};
use crate::policy::{automation_status_name, ControllerAttemptSummary, ControllerRuntime};
use crate::profiles::{ControllerCatalog, ControllerProfile, PersistedAssociation};
use crate::setup::{pairs_seq, copy_pairs_pub};
use crate::text::{owned, str_eq, opt_view, clone_opt};

verus! {

/// The controller view of the active session.
#[derive(Debug, Clone, PartialEq, Eq)]
pub struct ActiveControllerView {
    pub policy: String,
    pub invocation: Option<AntennaControlInvocationPolicy>,
    pub manual_review_required: Option<bool>,
    pub automation_status: String,
    pub attached: bool,
    pub armed: bool,
    pub profile_id: Option<String>,
    pub profile_revision: Option<String>,
    pub profile_name: Option<String>,
    pub targets: Vec<(String, String)>,
    pub stale_profile: bool,
    pub last_attempt: Option<ControllerAttemptSummary>,
}

/// The first persisted association of a session path.
pub open spec fn persisted_for(xs: Seq<PersistedAssociation>, source: Seq<char>, session_id: Seq<char>, k: int) -> Option<PersistedAssociation>
    decreases xs.len() - k,
{
    if k < 0 || k >= xs.len() {
        None
    } else if xs[k].source@ == source && xs[k].session_id@ == session_id {
        Some(xs[k])
    } else {
        persisted_for(xs, source, session_id, k + 1)
    }
}

/// The first saved profile with an identity.
pub open spec fn profile_for(ps: Seq<ControllerProfile>, id: Seq<char>, k: int) -> Option<ControllerProfile>
    decreases ps.len() - k,
{
    if k < 0 || k >= ps.len() {
        None
    } else if ps[k].profile_id@ == id {
        Some(ps[k])
    } else {
        profile_for(ps, id, k + 1)
    }
}

fn find_persisted<'a>(xs: &'a Vec<PersistedAssociation>, source: &str, session_id: &str) -> (r: Option<&'a PersistedAssociation>)
    ensures
        match r {
            Some(a) => persisted_for(xs@, source@, session_id@, 0) == Some(*a),
            None => persisted_for(xs@, source@, session_id@, 0) is None,
        },
{
    let mut i: usize = 0;
    while i < xs.len()
        invariant
            i <= xs@.len(),
            persisted_for(xs@, source@, session_id@, 0) == persisted_for(xs@, source@, session_id@, i as int),
        decreases xs@.len() - i,
    {
        if str_eq(xs[i].source.as_str(), source) && str_eq(xs[i].session_id.as_str(), session_id) {
            return Some(&xs[i]);
        }
        i = i + 1;
    }
    None
}

fn find_profile_by_id<'a>(ps: &'a Vec<ControllerProfile>, id: &str) -> (r: Option<&'a ControllerProfile>)
    ensures
        match r {
            Some(p) => profile_for(ps@, id@, 0) == Some(*p),
            None => profile_for(ps@, id@, 0) is None,
        },
{
    let mut i: usize = 0;
    while i < ps.len()
        invariant
            i <= ps@.len(),
            profile_for(ps@, id@, 0) == profile_for(ps@, id@, i as int),
        decreases ps@.len() - i,
    {
        if str_eq(ps[i].profile_id.as_str(), id) {
            return Some(&ps[i]);
        }
        i = i + 1;
    }
    None
}

/// The attached profile revision and targets when the attachment belongs to
/// the session path, else the persisted association's; the revision is stale
/// when the catalog no longer holds that revision of the profile; arming
/// applies only to a current attachment.
pub open spec fn view_spec(
    source: Seq<char>,
    session_id: Seq<char>,
    policy: Option<AntennaControlPolicy>,
    catalog: ControllerCatalog,
    runtime: ControllerRuntime,
    v: ActiveControllerView,
) -> bool {
    let attached = match runtime.attached {
        Some(a) => if a.source@ == source && a.session_id@ == session_id { Some(a) } else { None },
        None => None,
    };
    let persisted = persisted_for(catalog.associations@, source, session_id, 0);
    let profile_id: Option<Seq<char>> = match attached {
        Some(a) => Some(a.profile_id@),
        None => match persisted {
            Some(p) => Some(p.profile_id@),
            None => None,
        },
    };
    let profile_revision: Option<Seq<char>> = match attached {
        Some(a) => Some(a.profile_revision@),
        None => match persisted {
            Some(p) => Some(p.profile_revision@),
            None => None,
        },
    };
    let profile = match profile_id {
        Some(id) => profile_for(catalog.profiles@, id, 0),
        None => None,
    };
    let stale = match profile_revision {
        Some(rev) => match profile {
            None => true,
            Some(p) => p.revision@ != rev,
        },
        None => false,
    };
    &&& v.policy@ == (match policy {
        Some(AntennaControlPolicy::CommandControlled { .. }) => "command_controlled"@,
        _ => "manual"@,
    })
    &&& v.invocation == (match policy {
        Some(AntennaControlPolicy::CommandControlled { invocation, .. }) => Some(invocation),
        _ => None,
    })
    &&& v.manual_review_required == (match policy {
        Some(AntennaControlPolicy::CommandControlled { manual_review_required, .. }) => Some(manual_review_required),
        _ => None,
    })
    &&& v.automation_status@ == automation_status_name(runtime.automation_status)
    &&& v.attached == attached is Some
    &&& v.armed == ((attached matches Some(a) && a.armed) && !stale)
    &&& opt_view(v.profile_id) == profile_id
    &&& opt_view(v.profile_revision) == profile_revision
    &&& opt_view(v.profile_name) == (match profile {
        Some(p) => Some(p.name@),
        None => None,
    })
    &&& pairs_seq(v.targets@) == (match attached {
        Some(a) => pairs_seq(a.targets@),
        None => match persisted {
            Some(p) => pairs_seq(p.targets@),
            None => Seq::empty(),
        },
    })
    &&& v.stale_profile == stale
    &&& attempt_view(v.last_attempt) == attempt_view(runtime.last_attempt)
}

/// The plain-value view of an optional attempt summary.
pub open spec fn attempt_view(a: Option<ControllerAttemptSummary>) -> Option<(Seq<char>, bool, Option<bool>, Seq<char>, Seq<char>)> {
    match a {
        Some(x) => Some((x.intent_id@, x.successful_switch, x.successful_verification, x.detail@, x.diagnostic@)),
        None => None,
    }
}

/// The controller view of the active session at `source`.
pub fn active_controller_view_for(
    source: &str,
    session_id: &str,
    policy: Option<AntennaControlPolicy>,
    catalog: &ControllerCatalog,
    runtime: &ControllerRuntime,
) -> (r: ActiveControllerView)
    ensures
        view_spec(source@, session_id@, policy, *catalog, *runtime, r),
{
    let attached = match &runtime.attached {
        Some(a) => if str_eq(a.source.as_str(), source) && str_eq(a.session_id.as_str(), session_id) {
            Some(a)
        } else {
            None
        },
        None => None,
    };
    let persisted = find_persisted(&catalog.associations, source, session_id);
    let profile_id: Option<&String> = match attached {
        Some(a) => Some(&a.profile_id),
        None => match persisted {
            Some(p) => Some(&p.profile_id),
            None => None,
        },
    };
    let profile_revision: Option<&String> = match attached {
        Some(a) => Some(&a.profile_revision),
        None => match persisted {
            Some(p) => Some(&p.profile_revision),
            None => None,
        },
    };
    let profile = match profile_id {
        Some(id) => find_profile_by_id(&catalog.profiles, id.as_str()),
        None => None,
    };
    let stale = match profile_revision {
        Some(rev) => match profile {
            None => true,
            Some(p) => !str_eq(p.revision.as_str(), rev.as_str()),
        },
        None => false,
    };
    proof {
        reveal_strlit("command_controlled");
        reveal_strlit("manual");
    }
    let (policy_text, invocation, manual_review_required) = match policy {
        Some(AntennaControlPolicy::CommandControlled { invocation, manual_review_required }) => (
            owned("command_controlled"),
            Some(invocation),
            Some(manual_review_required),
        ),
        _ => (owned("manual"), None, None),
    };
    let targets = match attached {
        Some(a) => copy_pairs_pub(&a.targets),
        None => match persisted {
            Some(p) => copy_pairs_pub(&p.targets),
            None => {
                let v: Vec<(String, String)> = Vec::new();
                assert(pairs_seq(v@) =~= Seq::<(Seq<char>, Seq<char>)>::empty());
                v
            },
        },
    };
    let last_attempt = match &runtime.last_attempt {
        Some(a) => Some(ControllerAttemptSummary {
            intent_id: owned(a.intent_id.as_str()),
            successful_switch: a.successful_switch,
            successful_verification: a.successful_verification,
            detail: owned(a.detail.as_str()),
            diagnostic: owned(a.diagnostic.as_str()),
        }),
        None => None,
    };
    ActiveControllerView {
        policy: policy_text,
        invocation,
        manual_review_required,
        automation_status: owned(runtime.automation_status.as_str()),
        attached: attached.is_some(),
        armed: match attached {
            Some(a) => a.armed,
            None => false,
        } && !stale,
        profile_id: match profile_id {
            Some(id) => Some(owned(id.as_str())),
            None => None,
        },
        profile_revision: match profile_revision {
            Some(rev) => Some(owned(rev.as_str())),
            None => None,
        },
        profile_name: match profile {
            Some(p) => Some(owned(p.name.as_str())),
            None => None,
        },
        targets,
        stale_profile: stale,
        last_attempt,
    }
}

} // verus!
