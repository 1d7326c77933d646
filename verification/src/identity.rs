use vstd::prelude::*;

use crate::text::{opt_view, owned, str_eq};

verus! {

/// The source identity recorded for a build: its channel, its commit when
/// known, and the working-tree state.
#[derive(Debug, Clone, PartialEq, Eq)]
pub struct ResolvedSourceIdentity {
    pub channel: String,
    pub commit: Option<String>,
    pub state: String,
}

/// Channel chosen when no explicit channel is given.
pub open spec fn default_channel(profile: Seq<char>) -> Seq<char> {
    if profile == "debug"@ { "development"@ } else { "local"@ }
}

/// State chosen when no explicit state is given.
pub open spec fn default_state(git_dirty: Option<bool>) -> Seq<char> {
    match git_dirty {
        Some(true) => "dirty"@,
        Some(false) => "clean"@,
        None => "unknown"@,
    }
}

/// Explicit (authoritative) inputs win over locally probed values; a missing
/// git probe yields no commit and the `unknown` state.
pub fn resolve_source_identity(
    profile: &str,
    explicit_channel: Option<String>,
    explicit_commit: Option<String>,
    explicit_state: Option<String>,
    git_commit: Option<String>,
    git_dirty: Option<bool>,
) -> (r: ResolvedSourceIdentity)
    ensures
        r.channel@ == (match explicit_channel {
            Some(c) => c@,
            None => default_channel(profile@),
        }),
        opt_view(r.commit) == (match explicit_commit {
            Some(c) => Some(c@),
            None => opt_view(git_commit),
        }),
        r.state@ == (match explicit_state {
            Some(s) => s@,
            None => default_state(git_dirty),
        }),
{
    let channel = match explicit_channel {
        Some(c) => c,
        None => {
            proof {
                reveal_strlit("debug");
                reveal_strlit("development");
                reveal_strlit("local");
            }
            if str_eq(profile, "debug") {
                owned("development")
            } else {
                owned("local")
            }
        },
    };
    let commit = match explicit_commit {
        Some(c) => Some(c),
        None => git_commit,
    };
    let state = match explicit_state {
        Some(s) => s,
        None => match git_dirty {
            Some(true) => owned("dirty"),
            Some(false) => owned("clean"),
            None => owned("unknown"),
        },
    };
    ResolvedSourceIdentity { channel, commit, state }
}

} // verus!
