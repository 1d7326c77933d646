//! Build-context values compiled into the desktop shell.

use vstd::prelude::*;

use crate::text::{owned, str_eq};

verus! {

/// Working-tree state of the source a build was made from.
#[derive(Debug, Clone, Copy, PartialEq, Eq, Structural)]
pub enum SourceState {
    Clean,
    Dirty,
    Unknown,
}

/// The channel a build was published through.
#[derive(Debug, Clone, Copy, PartialEq, Eq, Structural)]
pub enum BuildChannel {
    OfficialRelease,
    Development,
    Local,
    Unknown,
}

/// A compiled-in value: present exactly when it is not empty.
pub fn compiled(value: &str) -> (r: Option<String>)
    ensures
        r matches Some(s) ==> s@ == value@,
        r is Some <==> value@.len() > 0,
{
    if value.unicode_len() == 0 {
        None
    } else {
        Some(owned(value))
    }
}

/// The recorded source state named by a compiled-in value; any other value
/// is unknown.
pub open spec fn source_state_spec(value: Seq<char>) -> SourceState {
    if value == "clean"@ {
        SourceState::Clean
    } else if value == "dirty"@ {
        SourceState::Dirty
    } else {
        SourceState::Unknown
    }
}

/// Classifies a compiled-in source-state value.
pub fn source_state(value: &str) -> (r: SourceState)
    ensures
        r == source_state_spec(value@),
{
    if str_eq(value, "clean") {
        SourceState::Clean
    } else if str_eq(value, "dirty") {
        SourceState::Dirty
    } else {
        SourceState::Unknown
    }
}

/// The build channel named by a compiled-in value; any other value is
/// unknown.
pub open spec fn build_channel_spec(value: Seq<char>) -> BuildChannel {
    if value == "official_release"@ {
        BuildChannel::OfficialRelease
    } else if value == "development"@ {
        BuildChannel::Development
    } else if value == "local"@ {
        BuildChannel::Local
    } else {
        BuildChannel::Unknown
    }
}

/// Classifies a compiled-in build-channel value.
pub fn build_channel(value: &str) -> (r: BuildChannel)
    ensures
        r == build_channel_spec(value@),
{
    if str_eq(value, "official_release") {
        BuildChannel::OfficialRelease
    } else if str_eq(value, "development") {
        BuildChannel::Development
    } else if str_eq(value, "local") {
        BuildChannel::Local
    } else {
        BuildChannel::Unknown
    }
}

} // verus!
