//! Session-bundle names: recognized suffixes, names suggested for derived
//! files and copies, collision-free import names, and path redaction.

use vstd::prelude::*;

use crate::errors::{plain_error, SessionErrorKind, SessionErrorPayload};
use crate::managed::{supported_bundle_name, v1_bundle_suffix, v2_bundle_suffix};
use crate::paths::{file_name_of, joined, path_file_name, path_join};
use crate::text::{
    dec, drop_last_chars, ends_with, ends_with_seq, owned, push_str, replace_all, replace_seq,
    u64_text,
};

verus! {

/// The recognized bundle suffix of a name, current suffix first.
pub open spec fn bundle_suffix_spec(name: Seq<char>) -> Option<Seq<char>> {
    if ends_with_seq(name, v2_bundle_suffix()) {
        Some(v2_bundle_suffix())
    } else if ends_with_seq(name, v1_bundle_suffix()) {
        Some(v1_bundle_suffix())
    } else {
        None
    }
}

/// The recognized bundle suffix of a directory name.
pub fn bundle_suffix(name: &str) -> (r: Option<&'static str>)
    ensures
        match r {
            Some(s) => bundle_suffix_spec(name@) == Some(s@),
            None => bundle_suffix_spec(name@) is None,
        },
{
    proof {
        reveal_strlit(".session.antennabundle");
        reveal_strlit(".session.wsprabundle");
    }
    if ends_with(name, ".session.antennabundle") {
        Some(".session.antennabundle")
    } else if ends_with(name, ".session.wsprabundle") {
        Some(".session.wsprabundle")
    } else {
        None
    }
}

/// `str::trim_end_matches` with a text pattern: every trailing repetition of
/// the pattern removed.
pub open spec fn trim_end_all(s: Seq<char>, p: Seq<char>) -> Seq<char>
    decreases s.len(),
{
    if p.len() > 0 && ends_with_seq(s, p) {
        trim_end_all(s.subrange(0, s.len() - p.len()), p)
    } else {
        s
    }
}

fn trim_end_matches(s: &str, p: &str) -> (r: String)
    ensures
        r@ == trim_end_all(s@, p@),
{
    let mut cur = owned(s);
    if p.unicode_len() == 0 {
        return cur;
    }
    while ends_with(cur.as_str(), p)
        invariant
            p@.len() > 0,
            trim_end_all(cur@, p@) == trim_end_all(s@, p@),
        decreases cur@.len(),
    {
        cur = drop_last_chars(cur.as_str(), p.unicode_len());
    }
    cur
}

/// The bundle stem of a path: its file name without the recognized suffix.
pub open spec fn bundle_stem(path: Seq<char>) -> Option<Seq<char>> {
    match file_name_of(path) {
        Some(name) => match bundle_suffix_spec(name) {
            Some(suffix) => Some(trim_end_all(name, suffix)),
            None => None,
        },
        None => None,
    }
}

fn stem_of(source: &str) -> (r: Option<String>)
    ensures
        match r {
            Some(s) => bundle_stem(source@) == Some(s@),
            None => bundle_stem(source@) is None,
        },
{
    let name = path_file_name(source)?;
    let suffix = bundle_suffix(name.as_str())?;
    Some(trim_end_matches(name.as_str(), suffix))
}

/// The file name suggested for a derived document of a bundle: the bundle
/// stem and the document's ending, or the fallback when the bundle name has
/// no recognized suffix.
pub open spec fn suggested_name(source: Seq<char>, ending: Seq<char>, fallback: Seq<char>) -> Seq<char> {
    match bundle_stem(source) {
        Some(stem) => stem + ending,
        None => fallback,
    }
}

/// The suggested file name of a bundle's full HTML report.
pub fn suggested_report_name(source: &str) -> (r: String)
    ensures
        r@ == suggested_name(source@, "-report.html"@, "antennabench-report.html"@),
{
    match stem_of(source) {
        Some(stem) => {
            let mut out = stem;
            push_str(&mut out, "-report.html");
            out
        },
        None => owned("antennabench-report.html"),
    }
}

/// The suggested file name of a bundle's compact summary.
pub fn suggested_compact_summary_name(source: &str) -> (r: String)
    ensures
        r@ == suggested_name(
            source@,
            "-compact-summary.html"@,
            "antennabench-compact-summary.html"@,
        ),
{
    match stem_of(source) {
        Some(stem) => {
            let mut out = stem;
            push_str(&mut out, "-compact-summary.html");
            out
        },
        None => owned("antennabench-compact-summary.html"),
    }
}

/// The error for a selection without a supported bundle suffix.
pub open spec fn unsupported_selection(e: SessionErrorPayload) -> bool {
    plain_error(
        e,
        SessionErrorKind::Selection,
        "Choose a .session.antennabundle or .session.wsprabundle directory."@,
        "the selected directory name does not use a supported bundle suffix"@,
    )
}

fn unsupported_selection_error() -> (r: SessionErrorPayload)
    ensures
        unsupported_selection(r),
{
    SessionErrorPayload::new(
        SessionErrorKind::Selection,
        "Choose a .session.antennabundle or .session.wsprabundle directory.",
        "the selected directory name does not use a supported bundle suffix",
    )
}

/// The suffix of a path's file name; a path without a file name has the
/// empty name.
pub open spec fn path_suffix(path: Seq<char>) -> Option<Seq<char>> {
    bundle_suffix_spec(
        match file_name_of(path) {
            Some(n) => n,
            None => Seq::empty(),
        },
    )
}

/// The recognized bundle suffix of a selected path, or a selection error.
pub fn bundle_suffix_for(path: &str) -> (r: Result<&'static str, SessionErrorPayload>)
    ensures
        match r {
            Ok(s) => path_suffix(path@) == Some(s@),
            Err(e) => path_suffix(path@) is None && unsupported_selection(e),
        },
{
    let name = match path_file_name(path) {
        Some(n) => n,
        None => String::new(),
    };
    match bundle_suffix(name.as_str()) {
        Some(s) => Ok(s),
        None => Err(unsupported_selection_error()),
    }
}

/// The name suggested for an exported copy: the bundle stem (or `session`)
/// with `-copy` before the suffix, which defaults to the current one.
pub open spec fn export_name_spec(source: Seq<char>) -> Seq<char> {
    let suffix = match path_suffix(source) {
        Some(s) => s,
        None => v2_bundle_suffix(),
    };
    let stem = match file_name_of(source) {
        Some(name) => if ends_with_seq(name, suffix) {
            name.subrange(0, name.len() - suffix.len())
        } else {
            "session"@
        },
        None => "session"@,
    };
    stem + "-copy"@ + suffix
}

/// The suggested name of an exported copy of a bundle.
pub fn suggested_export_name(source: &str) -> (r: String)
    ensures
        r@ == export_name_spec(source@),
{
    proof {
        reveal_strlit(".session.antennabundle");
    }
    let suffix = match bundle_suffix_for(source) {
        Ok(s) => s,
        Err(_) => ".session.antennabundle",
    };
    let mut out = match path_file_name(source) {
        Some(name) => if ends_with(name.as_str(), suffix) {
            drop_last_chars(name.as_str(), suffix.unicode_len())
        } else {
            owned("session")
        },
        None => owned("session"),
    };
    push_str(&mut out, "-copy");
    push_str(&mut out, suffix);
    out
}

/// The name tried on a given attempt to import a bundle with a stem and
/// suffix: the plain name first, then `-2`, `-3`, and so on.
pub open spec fn import_name(stem: Seq<char>, attempt: nat, suffix: Seq<char>) -> Seq<char> {
    if attempt == 1 {
        stem + suffix
    } else {
        stem + "-"@ + dec(attempt) + suffix
    }
}

/// The stem of an import source: its file name without the suffix.
pub open spec fn import_stem(source: Seq<char>) -> Seq<char> {
    let name = file_name_of(source)->0;
    let suffix = path_suffix(source)->0;
    name.subrange(0, name.len() - suffix.len())
}

/// The destination tried on a given attempt.
pub open spec fn attempt_path(root: Seq<char>, source: Seq<char>, attempt: nat) -> Seq<char> {
    joined(root, import_name(import_stem(source), attempt, path_suffix(source)->0))
}

/// A probe of the given path returned the given answer.
pub open spec fn probed<F: Fn(&str) -> bool>(occupied: F, path: Seq<char>, answer: bool) -> bool {
    exists|p: &str| p@ == path && #[trigger] call_ensures(occupied, (p,), answer)
}

/// The most names tried for one import.
pub const MAX_IMPORT_ATTEMPTS: u64 = 10000;

/// What allocating an import destination answers: an unsupported source
/// name is refused; otherwise the first candidate the probe reports free,
/// after every earlier one was reported occupied, or, when all are
/// occupied, the allocation error.
pub open spec fn import_destination_allocated<F: Fn(&str) -> bool>(
    root: Seq<char>,
    source: Seq<char>,
    occupied: F,
    r: Result<String, SessionErrorPayload>,
) -> bool {
    &&& !(file_name_of(source) matches Some(n) && supported_bundle_name(n)) ==> (r matches Err(e) && unsupported_selection(e))
    &&& r matches Ok(d) ==> (file_name_of(source) matches Some(n) && supported_bundle_name(n)) && exists|k: nat| {
        &&& 1 <= k <= MAX_IMPORT_ATTEMPTS
        &&& d@ == attempt_path(root, source, k)
        &&& probed(occupied, d@, false)
        &&& forall|j: nat| 1 <= j < k ==> probed(occupied, #[trigger] attempt_path(root, source, j), true)
    }
    &&& (file_name_of(source) matches Some(n) && supported_bundle_name(n)) ==> (r matches Err(e) ==> plain_error(
        e,
        SessionErrorKind::Destination,
        "A collision-free imported session name could not be allocated."@,
        "10,000 managed bundle names were already occupied"@,
    ))
    &&& (file_name_of(source) matches Some(n) && supported_bundle_name(n)) && r is Err ==> forall|j: nat|
        1 <= j <= MAX_IMPORT_ATTEMPTS ==> probed(occupied, #[trigger] attempt_path(root, source, j), true)
}

/// Allocates a collision-free destination in the managed directory for an
/// imported bundle: the first of the names `stem`, `stem-2`, ... up to the
/// attempt limit that the `occupied` probe reports free.
pub fn allocate_import_destination<F: Fn(&str) -> bool>(
    root: &str,
    source: &str,
    occupied: F,
) -> (r: Result<String, SessionErrorPayload>)
    requires
        forall|p: &str| call_requires(occupied, (p,)),
    ensures
        import_destination_allocated(root@, source@, occupied, r),
{
    let name = match path_file_name(source) {
        Some(n) => n,
        None => return Err(unsupported_selection_error()),
    };
    if !crate::managed::is_supported_bundle_name(name.as_str()) {
        return Err(unsupported_selection_error());
    }
    let suffix = bundle_suffix_for(source)?;
    let stem = drop_last_chars(name.as_str(), suffix.unicode_len());
    assert(stem@ == import_stem(source@));
    let mut attempt: u64 = 1;
    while attempt <= MAX_IMPORT_ATTEMPTS
        invariant
            1 <= attempt <= MAX_IMPORT_ATTEMPTS + 1,
            stem@ == import_stem(source@),
            path_suffix(source@) == Some(suffix@),
            file_name_of(source@) == Some(name@),
            supported_bundle_name(name@),
            forall|p: &str| call_requires(occupied, (p,)),
            forall|j: nat| 1 <= j < attempt ==> probed(occupied, #[trigger] attempt_path(root@, source@, j), true),
        decreases MAX_IMPORT_ATTEMPTS + 1 - attempt,
    {
        let mut candidate = owned(stem.as_str());
        if attempt != 1 {
            push_str(&mut candidate, "-");
            let n = u64_text(attempt);
            push_str(&mut candidate, n.as_str());
        }
        push_str(&mut candidate, suffix);
        proof {
            reveal_strlit("-");
        }
        assert(candidate@ == import_name(import_stem(source@), attempt as nat, suffix@));
        let destination = path_join(root, candidate.as_str());
        let probe = destination.as_str();
        let taken = occupied(probe);
        assert(destination@ == attempt_path(root@, source@, attempt as nat));
        if !taken {
            assert(probed(occupied, destination@, false));
            return Ok(destination);
        }
        assert(probed(occupied, attempt_path(root@, source@, attempt as nat), true));
        attempt = attempt + 1;
    }
    Err(SessionErrorPayload::new(
        SessionErrorKind::Destination,
        "A collision-free imported session name could not be allocated.",
        "10,000 managed bundle names were already occupied",
    ))
}

/// Replaces local paths in an error detail by the labels the shell shows:
/// the selected session, the managed directory, and an optional destination.
pub fn redact_paths(
    error: SessionErrorPayload,
    source: Option<&str>,
    root: Option<&str>,
    other: Option<&str>,
) -> (r: SessionErrorPayload)
    ensures
        (SessionErrorPayload { detail: r.detail, ..error }) == r,
        r.detail@ == {
            let d1 = match source {
                Some(p) => replace_seq(error.detail@, p@, "selected session"@),
                None => error.detail@,
            };
            let d2 = match root {
                Some(p) => replace_seq(d1, p@, "Saved sessions"@),
                None => d1,
            };
            match other {
                Some(p) => replace_seq(d2, p@, "selected destination"@),
                None => d2,
            }
        },
{
    proof {
        reveal_strlit("selected session");
        reveal_strlit("Saved sessions");
        reveal_strlit("selected destination");
    }
    let mut error = error;
    if let Some(p) = source {
        error.detail = replace_all(error.detail.as_str(), p, "selected session");
    }
    if let Some(p) = root {
        error.detail = replace_all(error.detail.as_str(), p, "Saved sessions");
    }
    if let Some(p) = other {
        error.detail = replace_all(error.detail.as_str(), p, "selected destination");
    }
    error
}

/// How a bundle is exported: a current bundle through its store, by its
/// schema generation; any other bundle copied losslessly.
#[derive(Debug, Clone, Copy, PartialEq, Eq, Structural)]
pub enum BundleExportKind {
    /// A legacy bundle, copied byte for byte.
    Lossless,
    /// A schema-v2 bundle, exported at its checkpoint.
    CheckpointedV2,
    /// A schema-v3 to v6 bundle, exported at its checkpoint.
    CheckpointedV3,
}

/// The name an export destination is shown by: its file name, or the whole
/// path when it has none.
pub open spec fn destination_shown(destination: Seq<char>) -> Seq<char> {
    match file_name_of(destination) {
        Some(n) => n,
        None => destination,
    }
}

/// The destination keeps the bundle suffix of the source.
pub open spec fn keeps_source_suffix(source: Seq<char>, destination: Seq<char>) -> bool {
    &&& file_name_of(destination) is Some
    &&& path_suffix(source) matches Some(suffix) && ends_with_seq(file_name_of(destination)->0, suffix)
}

/// The bundle name an export of `source` to `destination` is known by: the
/// destination's file name, which must keep the source's bundle suffix.
pub fn export_destination_name(source: &str, destination: &str) -> (r: Result<String, crate::open_errors::ExportSessionError>)
    ensures
        keeps_source_suffix(source@, destination@) ==> (r matches Ok(n) && Some(n@) == file_name_of(destination@)),
        !keeps_source_suffix(source@, destination@) ==> (r matches Err(crate::open_errors::ExportSessionError::InvalidDestination {
            name,
        }) && name@ == destination_shown(destination@)),
{
    proof {
        reveal_strlit("");
        reveal_strlit(".session.antennabundle");
        reveal_strlit(".session.wsprabundle");
    }
    let name = path_file_name(destination);
    let source_name = path_file_name(source);
    let suffix = match &source_name {
        Some(n) => bundle_suffix(n.as_str()),
        None => bundle_suffix(""),
    };
    assert(path_suffix(source@) == match suffix {
        Some(x) => Some(x@),
        None => None::<Seq<char>>,
    });
    match name {
        Some(n) => match suffix {
            Some(sfx) => if ends_with(n.as_str(), sfx) {
                Ok(n)
            } else {
                Err(crate::open_errors::ExportSessionError::InvalidDestination { name: n })
            },
            None => Err(crate::open_errors::ExportSessionError::InvalidDestination { name: n }),
        },
        None => Err(crate::open_errors::ExportSessionError::InvalidDestination { name: owned(destination) }),
    }
}

/// The schema generations exported through the schema-v3 store.
pub open spec fn v3_generation(version: u16) -> bool {
    3 <= version <= 6
}

/// How the bundle at `source` is exported: a current bundle by the schema
/// version `schema` reads, which is asked only then; an unreadable or
/// unsupported schema is a storage failure.
pub fn bundle_export_kind<S: FnOnce() -> Result<u16, crate::open_errors::StoreError>>(
    source: &str,
    schema: S,
) -> (r: Result<BundleExportKind, crate::open_errors::ExportSessionError>)
    requires
        call_requires(schema, ()),
    ensures
        !(file_name_of(source@) matches Some(n) && ends_with_seq(n, v2_bundle_suffix())) ==> r
            == Ok::<BundleExportKind, crate::open_errors::ExportSessionError>(BundleExportKind::Lossless),
        (file_name_of(source@) matches Some(n) && ends_with_seq(n, v2_bundle_suffix())) ==> exists|
            read: Result<u16, crate::open_errors::StoreError>,
        | {
            &&& #[trigger] call_ensures(schema, (), read)
            &&& match read {
                Err(se) => r == Err::<BundleExportKind, crate::open_errors::ExportSessionError>(
                    crate::open_errors::ExportSessionError::Live(crate::conductor_state::LivePersistenceError::Store(se)),
                ),
                Ok(v) => if v == 2 {
                    r == Ok::<BundleExportKind, crate::open_errors::ExportSessionError>(BundleExportKind::CheckpointedV2)
                } else if v3_generation(v) {
                    r == Ok::<BundleExportKind, crate::open_errors::ExportSessionError>(BundleExportKind::CheckpointedV3)
                } else {
                    r == Err::<BundleExportKind, crate::open_errors::ExportSessionError>(
                        crate::open_errors::ExportSessionError::Live(
                            crate::conductor_state::LivePersistenceError::Store(
                                crate::open_errors::StoreError::UnsupportedSchemaVersion { actual: v },
                            ),
                        ),
                    )
                },
            }
        },
{
    proof {
        reveal_strlit(".session.antennabundle");
    }
    let current = match path_file_name(source) {
        Some(n) => ends_with(n.as_str(), ".session.antennabundle"),
        None => false,
    };
    if !current {
        return Ok(BundleExportKind::Lossless);
    }
    let read = schema();
    let ghost read_g = read;
    proof {
        assert(call_ensures(schema, (), read_g));
    }
    match read {
        Err(se) => Err(crate::open_errors::ExportSessionError::Live(crate::conductor_state::LivePersistenceError::Store(se))),
        Ok(v) => if v == 2 {
            Ok(BundleExportKind::CheckpointedV2)
        } else if 3 <= v && v <= 6 {
            Ok(BundleExportKind::CheckpointedV3)
        } else {
            Err(
                crate::open_errors::ExportSessionError::Live(
                    crate::conductor_state::LivePersistenceError::Store(
                        crate::open_errors::StoreError::UnsupportedSchemaVersion { actual: v },
                    ),
                ),
            )
        },
    }
}

} // verus!
