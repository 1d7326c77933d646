//! The catalog of session bundles saved in the managed sessions directory:
//! entry projection, problem lists, ordering, duplicate-identity warnings,
//! and the opaque locators that later commands resolve.

use vstd::prelude::*;

use crate::control_model::{Band, ExperimentMode, SessionLifecycle};
use crate::errors::{plain_error, SessionErrorKind, SessionErrorPayload};
use crate::paths::{is_plain_name, parent_of, path_file_name, path_parent, plain_name, file_name_of};
use crate::text::{seq_lt, str_less, lemma_seq_lt_transitive, lemma_seq_lt_irreflexive, str_eq, opt_view, 
    byte_len, byte_length, chars_of, ends_with, ends_with_seq, is_longest_prefix_within, owned,
    prefix_string, prefix_within, push_str, replace_all, replace_seq, u64_text, dec,
};

verus! {

/// At most this many suffix-matching directory entries are projected.
pub const MAX_CATALOG_CANDIDATES: usize = 256;

/// At most this many problems are listed for one entry.
pub const MAX_ENTRY_PROBLEMS: usize = 8;

/// A problem code or message is clipped to this many bytes.
pub const MAX_PROBLEM_TEXT_BYTES: usize = 256;

/// The label shown for entries of the managed directory.
pub open spec fn managed_origin_label() -> Seq<char> {
    "Saved by AntennaBench"@
}

/// The suffix of a current session bundle.
pub open spec fn v2_bundle_suffix() -> Seq<char> {
    ".session.antennabundle"@
}

/// The suffix of a legacy session bundle.
pub open spec fn v1_bundle_suffix() -> Seq<char> {
    ".session.wsprabundle"@
}

/// A bundle name carries one of the two supported suffixes.
pub open spec fn supported_bundle_name(name: Seq<char>) -> bool {
    ends_with_seq(name, v2_bundle_suffix()) || ends_with_seq(name, v1_bundle_suffix())
}

/// Whether a directory name carries a supported bundle suffix.
pub fn is_supported_bundle_name(name: &str) -> (r: bool)
    ensures
        r == supported_bundle_name(name@),
{
    ends_with(name, ".session.antennabundle") || ends_with(name, ".session.wsprabundle")
}

/// Whether the catalog lists every candidate.
#[derive(Debug, Clone, Copy, PartialEq, Eq, Structural)]
pub enum CatalogStatus {
    Complete,
    Incomplete,
}

/// A catalog-level note on why the list is incomplete.
#[derive(Debug, Clone, PartialEq, Eq)]
pub struct CatalogDiagnostic {
    pub code: String,
    pub message: String,
    pub limit: Option<u64>,
    pub observed: Option<u64>,
}

/// The state of one catalog entry.
#[derive(Debug, Clone, Copy, PartialEq, Eq, Structural)]
pub enum ManagedEntryStatus {
    Available,
    Invalid,
    Unsupported,
    Unreadable,
    Unsafe,
}

/// How serious a listed problem is.
#[derive(Debug, Clone, Copy, PartialEq, Eq, Structural)]
pub enum ProblemSeverity {
    Warning,
    Error,
}

/// One problem listed for an entry.
#[derive(Debug, Clone, PartialEq, Eq)]
pub struct ManagedSessionProblem {
    pub code: String,
    pub severity: ProblemSeverity,
    pub message: String,
}

/// One row of the saved-sessions catalog.
#[derive(Debug, Clone, PartialEq, Eq)]
pub struct ManagedCatalogEntry {
    pub locator_id: Option<String>,
    pub bundle_name: String,
    pub origin_label: String,
    pub status: ManagedEntryStatus,
    pub session_id: Option<String>,
    pub callsign: Option<String>,
    pub created_at_ms: Option<i64>,
    pub lifecycle: Option<SessionLifecycle>,
    pub schema_version: Option<u16>,
    pub revision: Option<u64>,
    pub mode: Option<ExperimentMode>,
    pub bands: Vec<Band>,
    pub antenna_labels: Vec<String>,
    pub antenna_count: Option<usize>,
    pub same_session_id_count: usize,
    pub problems: Vec<ManagedSessionProblem>,
}

/// The catalog returned to the shell.
#[derive(Debug, Clone, PartialEq, Eq)]
pub struct ManagedSessionCatalog {
    pub status: CatalogStatus,
    pub entries: Vec<ManagedCatalogEntry>,
    pub diagnostics: Vec<CatalogDiagnostic>,
}

impl ManagedSessionCatalog {
    /// A complete catalog of the given entries.
    pub fn complete(entries: Vec<ManagedCatalogEntry>) -> (r: Self)
        ensures
            r.status == CatalogStatus::Complete,
            r.entries == entries,
            r.diagnostics@.len() == 0,
    {
        ManagedSessionCatalog { status: CatalogStatus::Complete, entries, diagnostics: Vec::new() }
    }
}

/// The filesystem identity of a bundle directory when it was listed.
#[derive(Debug, Clone, Copy, PartialEq, Eq, Structural)]
pub struct DirectoryIdentity {
    pub device: u64,
    pub inode: u64,
    pub length: u64,
    pub modified_nanos: Option<u128>,
}

/// What a locator resolves to: a direct child of the managed directory, its
/// identity, and the fingerprint of its inspected projection.
#[derive(Debug, Clone, PartialEq, Eq)]
pub struct LocatorRecord {
    pub bundle_name: String,
    pub identity: DirectoryIdentity,
    pub fingerprint: Option<Vec<u8>>,
    pub activatable: bool,
}

/// The identity recorded for an entry that cannot be located.
pub open spec fn empty_identity() -> DirectoryIdentity {
    DirectoryIdentity { device: 0, inode: 0, length: 0, modified_nanos: None }
}

impl LocatorRecord {
    /// A record that no command can resolve to a bundle.
    pub fn unavailable() -> (r: Self)
        ensures
            r.bundle_name@.len() == 0,
            r.identity == empty_identity(),
            r.fingerprint is None,
            !r.activatable,
    {
        LocatorRecord {
            bundle_name: String::new(),
            identity: DirectoryIdentity { device: 0, inode: 0, length: 0, modified_nanos: None },
            fingerprint: None,
            activatable: false,
        }
    }
}

/// The clipped form of a problem code or message: unchanged when it fits in
/// the byte limit, else its longest character prefix within three bytes less,
/// followed by an ellipsis of three dots.
pub open spec fn clipped_spec(v: Seq<char>) -> Seq<char> {
    if byte_len(v) <= MAX_PROBLEM_TEXT_BYTES {
        v
    } else {
        v.take(choose|k: int| #[trigger] is_longest_prefix_within(v, k, (MAX_PROBLEM_TEXT_BYTES - 3) as nat))
            + "..."@
    }
}

proof fn lemma_longest_prefix_unique(s: Seq<char>, k1: int, k2: int, limit: nat)
    requires
        is_longest_prefix_within(s, k1, limit),
        is_longest_prefix_within(s, k2, limit),
    ensures
        k1 == k2,
{
    if k1 < k2 {
        crate::text::lemma_byte_len_monotone(s, k1 + 1, k2);
    } else if k2 < k1 {
        crate::text::lemma_byte_len_monotone(s, k2 + 1, k1);
    }
}

/// Clips a problem text to the byte limit on a character boundary.
pub fn clipped(value: &str) -> (r: String)
    ensures
        r@ == clipped_spec(value@),
        byte_len(r@) <= MAX_PROBLEM_TEXT_BYTES,
{
    if byte_length(value) <= MAX_PROBLEM_TEXT_BYTES {
        return owned(value);
    }
    let cs = chars_of(value);
    let k = prefix_within(&cs, MAX_PROBLEM_TEXT_BYTES - 3);
    let mut out = prefix_string(&cs, k);
    push_str(&mut out, "...");
    proof {
        reveal_strlit("...");
        let c = choose|j: int| #[trigger] is_longest_prefix_within(value@, j, (MAX_PROBLEM_TEXT_BYTES - 3) as nat);
        assert(is_longest_prefix_within(value@, k as int, (MAX_PROBLEM_TEXT_BYTES - 3) as nat));
        lemma_longest_prefix_unique(value@, c, k as int, (MAX_PROBLEM_TEXT_BYTES - 3) as nat);
        crate::text::lemma_encode_concat(value@.take(k as int), "..."@);
        assert(vstd::utf8::encode_utf8("..."@).len() == 3) by {
            reveal_with_fuel(vstd::utf8::encode_utf8, 4);
        }
    }
    out
}

/// The character views of a problem.
pub open spec fn problem_view(p: ManagedSessionProblem) -> (Seq<char>, ProblemSeverity, Seq<char>) {
    (p.code@, p.severity, p.message@)
}

/// The character views of a problem list.
pub open spec fn problems_view(ps: Seq<ManagedSessionProblem>) -> Seq<(Seq<char>, ProblemSeverity, Seq<char>)> {
    ps.map_values(|p: ManagedSessionProblem| problem_view(p))
}

/// A problem list after one more problem is offered: it is appended, clipped,
/// unless the list is already full.
pub open spec fn pushed_problems(
    ps: Seq<(Seq<char>, ProblemSeverity, Seq<char>)>,
    code: Seq<char>,
    severity: ProblemSeverity,
    message: Seq<char>,
) -> Seq<(Seq<char>, ProblemSeverity, Seq<char>)> {
    if ps.len() >= MAX_ENTRY_PROBLEMS {
        ps
    } else {
        ps.push((clipped_spec(code), severity, clipped_spec(message)))
    }
}

/// Two entries agree on everything but their problem lists.
pub open spec fn same_but_problems(a: ManagedCatalogEntry, b: ManagedCatalogEntry) -> bool {
    (ManagedCatalogEntry { problems: b.problems, ..a }) == b
}

/// Offers one problem to an entry's bounded problem list.
pub fn push_problem(
    entry: &mut ManagedCatalogEntry,
    code: &str,
    severity: ProblemSeverity,
    message: &str,
)
    ensures
        same_but_problems(*old(entry), *final(entry)),
        problems_view(final(entry).problems@) == pushed_problems(
            problems_view(old(entry).problems@),
            code@,
            severity,
            message@,
        ),
{
    if entry.problems.len() >= MAX_ENTRY_PROBLEMS {
        return;
    }
    let p = ManagedSessionProblem { code: clipped(code), severity, message: clipped(message) };
    let ghost before = entry.problems@;
    entry.problems.push(p);
    assert(problems_view(entry.problems@) =~= problems_view(before).push(problem_view(p)));
}

impl ManagedCatalogEntry {
    /// An entry that could not be projected: only its name, its status and
    /// one error-severity problem.
    pub fn problem(bundle_name: String, status: ManagedEntryStatus, code: &str, message: &str) -> (r: Self)
        ensures
            r.locator_id is None,
            r.bundle_name == bundle_name,
            r.origin_label@ == managed_origin_label(),
            r.status == status,
            r.session_id is None,
            r.callsign is None,
            r.created_at_ms is None,
            r.lifecycle is None,
            r.schema_version is None,
            r.revision is None,
            r.mode is None,
            r.bands@.len() == 0,
            r.antenna_labels@.len() == 0,
            r.antenna_count is None,
            r.same_session_id_count == 0,
            problems_view(r.problems@) == seq![(clipped_spec(code@), ProblemSeverity::Error, clipped_spec(message@))],
    {
        let mut problems = Vec::new();
        problems.push(ManagedSessionProblem {
            code: clipped(code),
            severity: ProblemSeverity::Error,
            message: clipped(message),
        });
        assert(problems_view(problems@) =~= seq![(clipped_spec(code@), ProblemSeverity::Error, clipped_spec(message@))]);
        proof {
            reveal_strlit("Saved by AntennaBench");
        }
        ManagedCatalogEntry {
            locator_id: None,
            bundle_name,
            origin_label: owned("Saved by AntennaBench"),
            status,
            session_id: None,
            callsign: None,
            created_at_ms: None,
            lifecycle: None,
            schema_version: None,
            revision: None,
            mode: None,
            bands: Vec::new(),
            antenna_labels: Vec::new(),
            antenna_count: None,
            same_session_id_count: 0,
            problems,
        }
    }
}

} // verus!

verus! {

/// One diagnostic reported by bundle inspection.
#[derive(Debug, Clone, PartialEq, Eq)]
pub struct BundleDiagnostic {
    pub code: String,
    pub is_error: bool,
    pub message: String,
}

/// The problem severity of an inspection diagnostic.
pub open spec fn diagnostic_severity(d: BundleDiagnostic) -> ProblemSeverity {
    if d.is_error {
        ProblemSeverity::Error
    } else {
        ProblemSeverity::Warning
    }
}

/// The problem list after the first `n` diagnostics are offered in order.
pub open spec fn offered_problems(
    ps: Seq<(Seq<char>, ProblemSeverity, Seq<char>)>,
    ds: Seq<BundleDiagnostic>,
    n: int,
) -> Seq<(Seq<char>, ProblemSeverity, Seq<char>)>
    decreases n,
{
    if n <= 0 {
        ps
    } else {
        pushed_problems(
            offered_problems(ps, ds, n - 1),
            ds[n - 1].code@,
            diagnostic_severity(ds[n - 1]),
            ds[n - 1].message@,
        )
    }
}

/// How many inspection diagnostics are listed individually.
pub open spec fn visible_diagnostics(len: nat) -> int {
    if len > MAX_ENTRY_PROBLEMS {
        MAX_ENTRY_PROBLEMS - 1
    } else {
        len as int
    }
}

/// The note that closes a truncated problem list.
pub open spec fn truncation_message(len: nat) -> Seq<char> {
    "Only the first 8 of "@ + dec(len) + " inspection problems are shown."@
}

/// The problem list after all inspection diagnostics are appended: the first
/// ones individually, and a closing note when there were too many.
pub open spec fn diagnostics_problems(
    ps: Seq<(Seq<char>, ProblemSeverity, Seq<char>)>,
    ds: Seq<BundleDiagnostic>,
) -> Seq<(Seq<char>, ProblemSeverity, Seq<char>)> {
    let base = offered_problems(ps, ds, visible_diagnostics(ds.len()));
    if ds.len() > MAX_ENTRY_PROBLEMS {
        pushed_problems(
            base,
            "managed.problems_truncated"@,
            ProblemSeverity::Warning,
            truncation_message(ds.len()),
        )
    } else {
        base
    }
}

/// Appends inspection diagnostics to an entry's problem list.
pub fn append_diagnostics(entry: &mut ManagedCatalogEntry, diagnostics: &Vec<BundleDiagnostic>)
    ensures
        same_but_problems(*old(entry), *final(entry)),
        problems_view(final(entry).problems@) == diagnostics_problems(
            problems_view(old(entry).problems@),
            diagnostics@,
        ),
{
    let n = diagnostics.len();
    let visible: usize = if n > MAX_ENTRY_PROBLEMS {
        MAX_ENTRY_PROBLEMS - 1
    } else {
        n
    };
    let ghost start = *entry;
    let mut i: usize = 0;
    while i < visible
        invariant
            i <= visible,
            visible as int == visible_diagnostics(diagnostics@.len()),
            n == diagnostics@.len(),
            same_but_problems(start, *entry),
            problems_view(entry.problems@) == offered_problems(
                problems_view(start.problems@),
                diagnostics@,
                i as int,
            ),
        decreases visible - i,
    {
        let d = &diagnostics[i];
        let severity = if d.is_error {
            ProblemSeverity::Error
        } else {
            ProblemSeverity::Warning
        };
        push_problem(entry, d.code.as_str(), severity, d.message.as_str());
        i = i + 1;
    }
    if n > MAX_ENTRY_PROBLEMS {
        let mut message = String::new();
        push_str(&mut message, "Only the first 8 of ");
        let count = u64_text(n as u64);
        push_str(&mut message, count.as_str());
        push_str(&mut message, " inspection problems are shown.");
        proof {
            reveal_strlit("Only the first 8 of ");
            reveal_strlit(" inspection problems are shown.");
            reveal_strlit("managed.problems_truncated");
        }
        push_problem(entry, "managed.problems_truncated", ProblemSeverity::Warning, message.as_str());
    }
}

/// The managed locator no longer matches the directory.
pub fn stale_locator_error() -> (r: SessionErrorPayload)
    ensures
        plain_error(
            r,
            SessionErrorKind::Verification,
            "The saved session changed after the catalog was loaded."@,
            "refresh Saved sessions and choose the current entry"@,
        ),
{
    SessionErrorPayload::new(
        SessionErrorKind::Verification,
        "The saved session changed after the catalog was loaded.",
        "refresh Saved sessions and choose the current entry",
    )
}

/// The managed directory could not be read; the detail is the system error.
pub fn root_read_error(error: &str) -> (r: SessionErrorPayload)
    ensures
        plain_error(
            r,
            SessionErrorKind::Filesystem,
            "The AntennaBench sessions directory could not be read."@,
            error@,
        ),
{
    SessionErrorPayload::new(
        SessionErrorKind::Filesystem,
        "The AntennaBench sessions directory could not be read.",
        error,
    )
}

/// The locator registry could not be used.
pub fn state_error() -> (r: SessionErrorPayload)
    ensures
        plain_error(
            r,
            SessionErrorKind::ReportPipeline,
            "The local report could not be prepared."@,
            "managed session locator state is unavailable"@,
        ),
{
    SessionErrorPayload::report_pipeline("managed session locator state is unavailable")
}

/// How a storage failure during inspection is classified.
#[derive(Debug, Clone, Copy, PartialEq, Eq, Structural)]
pub enum StoreErrorClass {
    UnsupportedSchemaVersion,
    Io { permission_denied: bool },
    InvalidBundleRoot,
    InvalidBundleFilePath,
    InvalidBundlePath,
    Resource,
    Other,
}

/// The entry status of a storage failure.
pub open spec fn storage_status(class: StoreErrorClass) -> ManagedEntryStatus {
    match class {
        StoreErrorClass::UnsupportedSchemaVersion => ManagedEntryStatus::Unsupported,
        StoreErrorClass::Io { permission_denied } => if permission_denied {
            ManagedEntryStatus::Unreadable
        } else {
            ManagedEntryStatus::Invalid
        },
        StoreErrorClass::InvalidBundleRoot => ManagedEntryStatus::Unsafe,
        StoreErrorClass::InvalidBundleFilePath => ManagedEntryStatus::Unsafe,
        StoreErrorClass::InvalidBundlePath => ManagedEntryStatus::Unsafe,
        StoreErrorClass::Resource => ManagedEntryStatus::Unreadable,
        StoreErrorClass::Other => ManagedEntryStatus::Invalid,
    }
}

/// Classifies a storage failure met while inspecting a bundle.
pub fn classify_storage_error(class: StoreErrorClass) -> (r: ManagedEntryStatus)
    ensures
        r == storage_status(class),
{
    match class {
        StoreErrorClass::UnsupportedSchemaVersion => ManagedEntryStatus::Unsupported,
        StoreErrorClass::Io { permission_denied } => if permission_denied {
            ManagedEntryStatus::Unreadable
        } else {
            ManagedEntryStatus::Invalid
        },
        StoreErrorClass::InvalidBundleRoot => ManagedEntryStatus::Unsafe,
        StoreErrorClass::InvalidBundleFilePath => ManagedEntryStatus::Unsafe,
        StoreErrorClass::InvalidBundlePath => ManagedEntryStatus::Unsafe,
        StoreErrorClass::Resource => ManagedEntryStatus::Unreadable,
        StoreErrorClass::Other => ManagedEntryStatus::Invalid,
    }
}

/// An inspected entry with the record its locator will resolve to.
#[derive(Debug, Clone, PartialEq, Eq)]
pub struct ProjectedEntry {
    pub entry: ManagedCatalogEntry,
    pub record: LocatorRecord,
}

/// The problem code of a failed inspection.
pub open spec fn failure_code(status: ManagedEntryStatus) -> Seq<char> {
    match status {
        ManagedEntryStatus::Unsupported => "managed.unsupported_bundle"@,
        ManagedEntryStatus::Unreadable => "managed.unreadable_bundle"@,
        ManagedEntryStatus::Unsafe => "managed.unsafe_bundle"@,
        _ => "managed.invalid_bundle"@,
    }
}

/// The problem message of a failed inspection.
pub open spec fn failure_message(status: ManagedEntryStatus) -> Seq<char> {
    match status {
        ManagedEntryStatus::Unsupported => "This bundle uses a schema version that this AntennaBench build does not support."@,
        ManagedEntryStatus::Unreadable => "A required bundle member could not be read within the local resource policy."@,
        ManagedEntryStatus::Unsafe => "The bundle contains an unsafe filesystem entry or path layout."@,
        _ => "The bundle did not pass bounded compatibility inspection."@,
    }
}

/// The entry of a bundle whose inspection failed: a problem entry classified
/// from the failure, with the schema version when it was read, and a record
/// that keeps the identity but can never be opened.
pub fn failed_inspection(
    name: &str,
    identity: DirectoryIdentity,
    schema_version: Option<u16>,
    error: StoreErrorClass,
) -> (r: ProjectedEntry)
    ensures
        r.entry.bundle_name@ == name@,
        r.entry.status == storage_status(error),
        r.entry.schema_version == schema_version,
        r.entry.session_id is None,
        r.entry.locator_id is None,
        problems_view(r.entry.problems@) == seq![(
            clipped_spec(failure_code(storage_status(error))),
            ProblemSeverity::Error,
            clipped_spec(failure_message(storage_status(error))),
        )],
        r.record.bundle_name@ == name@,
        r.record.identity == identity,
        r.record.fingerprint is None,
        !r.record.activatable,
{
    let status = classify_storage_error(error);
    proof {
        reveal_strlit("managed.unsupported_bundle");
        reveal_strlit("managed.unreadable_bundle");
        reveal_strlit("managed.unsafe_bundle");
        reveal_strlit("managed.invalid_bundle");
        reveal_strlit("This bundle uses a schema version that this AntennaBench build does not support.");
        reveal_strlit("A required bundle member could not be read within the local resource policy.");
        reveal_strlit("The bundle contains an unsafe filesystem entry or path layout.");
        reveal_strlit("The bundle did not pass bounded compatibility inspection.");
    }
    let (code, message) = match status {
        ManagedEntryStatus::Unsupported => (
            "managed.unsupported_bundle",
            "This bundle uses a schema version that this AntennaBench build does not support.",
        ),
        ManagedEntryStatus::Unreadable => (
            "managed.unreadable_bundle",
            "A required bundle member could not be read within the local resource policy.",
        ),
        ManagedEntryStatus::Unsafe => (
            "managed.unsafe_bundle",
            "The bundle contains an unsafe filesystem entry or path layout.",
        ),
        _ => (
            "managed.invalid_bundle",
            "The bundle did not pass bounded compatibility inspection.",
        ),
    };
    let mut entry = ManagedCatalogEntry::problem(owned(name), status, code, message);
    entry.schema_version = schema_version;
    ProjectedEntry {
        entry,
        record: LocatorRecord {
            bundle_name: owned(name),
            identity,
            fingerprint: None,
            activatable: false,
        },
    }
}

} // verus!

verus! {

/// Replaces the managed directory's path in an error detail by the name the
/// shell shows for it.
pub fn redact_managed_path(error: SessionErrorPayload, root: Option<&str>) -> (r: SessionErrorPayload)
    ensures
        (SessionErrorPayload { detail: r.detail, ..error }) == r,
        r.detail@ == (match root {
            Some(root) => replace_seq(error.detail@, root@, "Saved sessions"@),
            None => error.detail@,
        }),
{
    let mut error = error;
    if let Some(root) = root {
        proof {
            reveal_strlit("Saved sessions");
        }
        error.detail = replace_all(error.detail.as_str(), root, "Saved sessions");
    }
    error
}

/// The outcome of asking the platform to reveal a location: the system
/// error text becomes the detail of a filesystem error.
pub fn reveal_with(outcome: Result<(), String>) -> (r: Result<(), SessionErrorPayload>)
    ensures
        outcome is Ok <==> r is Ok,
        outcome matches Err(e) ==> (r matches Err(p) && plain_error(
            p,
            SessionErrorKind::Filesystem,
            "The managed session location could not be revealed."@,
            e@,
        )),
{
    match outcome {
        Ok(()) => Ok(()),
        Err(e) => Err(SessionErrorPayload::new(
            SessionErrorKind::Filesystem,
            "The managed session location could not be revealed.",
            e.as_str(),
        )),
    }
}

/// The plain-value view of a locator record.
pub open spec fn record_view(r: LocatorRecord) -> (Seq<char>, DirectoryIdentity, Option<Seq<u8>>, bool) {
    (
        r.bundle_name@,
        r.identity,
        match r.fingerprint {
            Some(f) => Some(f@),
            None => None,
        },
        r.activatable,
    )
}

fn copy_bytes(v: &Vec<u8>) -> (r: Vec<u8>)
    ensures
        r@ == v@,
{
    let mut out: Vec<u8> = Vec::new();
    for i in 0..v.len()
        invariant
            out@ == v@.take(i as int),
    {
        out.push(v[i]);
        assert(v@.take(i + 1) =~= v@.take(i as int).push(v@[i as int]));
    }
    assert(v@.take(v@.len() as int) =~= v@);
    out
}

impl LocatorRecord {
    /// An independent copy of the record.
    pub fn duplicate(&self) -> (r: Self)
        ensures
            record_view(r) == record_view(*self),
    {
        LocatorRecord {
            bundle_name: owned(self.bundle_name.as_str()),
            identity: self.identity,
            fingerprint: match &self.fingerprint {
                Some(f) => Some(copy_bytes(f)),
                None => None,
            },
            activatable: self.activatable,
        }
    }
}

/// Where a newly registered managed session can be found again.
#[derive(Debug, Clone, PartialEq, Eq)]
pub struct ManagedLocationContext {
    pub locator_id: String,
    pub bundle_name: String,
    pub origin_label: String,
}

/// The opaque locators handed out with the most recent catalog.
#[derive(Debug, Default)]
pub struct ManagedSessionsState {
    pub locators: Vec<(String, LocatorRecord)>,
}

/// The record a locator resolves to: the first registration under that
/// identifier.
pub open spec fn resolves_at(locators: Seq<(String, LocatorRecord)>, id: Seq<char>, i: int) -> bool {
    &&& 0 <= i < locators.len()
    &&& locators[i].0@ == id
    &&& forall|j: int| 0 <= j < i ==> (#[trigger] locators[j]).0@ != id
}

/// The error of an unknown or stale locator.
pub open spec fn unknown_locator(e: SessionErrorPayload) -> bool {
    plain_error(
        e,
        SessionErrorKind::Selection,
        "Refresh Saved sessions and choose the entry again."@,
        "the managed locator is unknown or stale"@,
    )
}

impl ManagedSessionsState {
    /// The record registered under a locator, or a selection error when the
    /// locator is unknown.
    pub fn resolve(&self, locator_id: &str) -> (r: Result<LocatorRecord, SessionErrorPayload>)
        ensures
            (exists|i: int| resolves_at(self.locators@, locator_id@, i)) <==> r is Ok,
            r matches Ok(rec) ==> exists|i: int| resolves_at(self.locators@, locator_id@, i)
                && record_view(rec) == record_view(self.locators@[i].1),
            r matches Err(e) ==> unknown_locator(e),
    {
        let n = self.locators.len();
        let mut i: usize = 0;
        while i < n
            invariant
                i <= n,
                n == self.locators@.len(),
                forall|j: int| 0 <= j < i ==> (#[trigger] self.locators@[j]).0@ != locator_id@,
            decreases n - i,
        {
            if str_eq(self.locators[i].0.as_str(), locator_id) {
                assert(resolves_at(self.locators@, locator_id@, i as int));
                return Ok(self.locators[i].1.duplicate());
            }
            i = i + 1;
        }
        Err(SessionErrorPayload::new(
            SessionErrorKind::Selection,
            "Refresh Saved sessions and choose the entry again.",
            "the managed locator is unknown or stale",
        ))
    }

    /// Registers a newly created bundle under a fresh locator; any earlier
    /// registration under the same identifier is replaced.
    pub fn register_created(&mut self, locator_id: String, record: LocatorRecord) -> (r: ManagedLocationContext)
        ensures
            r.locator_id@ == locator_id@,
            r.bundle_name@ == record.bundle_name@,
            r.origin_label@ == managed_origin_label(),
            final(self).locators@ == without_key(old(self).locators@, locator_id@).push((locator_id, record)),
            resolves_at(final(self).locators@, locator_id@, final(self).locators@.len() - 1),
            record_view(final(self).locators@.last().1) == record_view(record),
            forall|i: int| 0 <= i < old(self).locators@.len() && (#[trigger] old(self).locators@[i]).0@
                != locator_id@ ==> final(self).locators@.contains(old(self).locators@[i]),
            forall|i: int| 0 <= i < final(self).locators@.len() - 1 ==> old(self).locators@.contains(
                #[trigger] final(self).locators@[i],
            ),
            locator_ids_distinct(old(self).locators@) ==> locator_ids_distinct(final(self).locators@),
    {
        let ghost before = self.locators@;
        proof {
            lemma_without_key(before, locator_id@);
            reveal_strlit("Saved by AntennaBench");
        }
        let bundle_name = owned(record.bundle_name.as_str());
        let id_copy = owned(locator_id.as_str());
        self.forget(locator_id.as_str());
        let ghost kept = self.locators@;
        self.locators.push((locator_id, record));
        proof {
            let after = self.locators@;
            assert(after.drop_last() == kept);
            assert forall|j: int| 0 <= j < after.len() - 1 implies (#[trigger] after[j]).0@ != locator_id@ by {
                assert(after[j] == kept[j]);
            }
            assert forall|i: int| 0 <= i < before.len() && (#[trigger] before[i]).0@ != locator_id@ implies after.contains(before[i]) by {
                let j = choose|j: int| 0 <= j < kept.len() && kept[j] == before[i];
                assert(after[j] == before[i]);
            }
            assert forall|i: int| 0 <= i < after.len() - 1 implies before.contains(#[trigger] after[i]) by {
                assert(after[i] == kept[i]);
                assert(kept.contains(kept[i]));
            }
            if locator_ids_distinct(before) {
                assert forall|i: int, j: int| 0 <= i < j < after.len() implies (#[trigger] after[i]).0@ != (#[trigger] after[j]).0@ by {
                    if j == after.len() - 1 {
                        assert(after[i] == kept[i]);
                    } else {
                        assert(after[i] == kept[i] && after[j] == kept[j]);
                    }
                }
            }
        }
        ManagedLocationContext {
            locator_id: id_copy,
            bundle_name,
            origin_label: owned("Saved by AntennaBench"),
        }
    }
}

/// What the filesystem reports for a locator's path.
#[derive(Debug, Clone, Copy, PartialEq, Eq, Structural)]
pub struct ObservedEntry {
    pub is_symlink: bool,
    pub is_dir: bool,
    pub identity: DirectoryIdentity,
}

/// A locator's name can only be a plain, suffix-matching direct child.
pub open spec fn locator_name_ok(record: LocatorRecord) -> bool {
    plain_name(record.bundle_name@) && supported_bundle_name(record.bundle_name@)
}

/// Checks a locator's name before its path is inspected.
pub fn check_locator_name(record: &LocatorRecord) -> (r: Result<(), SessionErrorPayload>)
    ensures
        r is Ok <==> locator_name_ok(*record),
        r matches Err(e) ==> is_stale_locator_error(e),
{
    if !is_plain_name(record.bundle_name.as_str()) || !is_supported_bundle_name(record.bundle_name.as_str()) {
        return Err(stale_locator_error());
    }
    Ok(())
}

/// The stale-locator error.
pub open spec fn is_stale_locator_error(e: SessionErrorPayload) -> bool {
    plain_error(
        e,
        SessionErrorKind::Verification,
        "The saved session changed after the catalog was loaded."@,
        "refresh Saved sessions and choose the current entry"@,
    )
}

/// The error when a locator's path can no longer be inspected.
pub open spec fn missing_entry_error(e: SessionErrorPayload, detail: Seq<char>) -> bool {
    plain_error(
        e,
        SessionErrorKind::Filesystem,
        "The saved session is no longer available at its managed location."@,
        detail,
    )
}

/// Revalidates a locator against what the filesystem now reports for its
/// path: it must still be a plain, suffix-matching name, a real directory
/// rather than an indirection, with the identity recorded at listing time.
pub fn revalidate_direct_child(
    record: &LocatorRecord,
    observed: Result<ObservedEntry, String>,
) -> (r: Result<(), SessionErrorPayload>)
    ensures
        r is Ok <==> (locator_name_ok(*record) && (observed matches Ok(o) && !o.is_symlink && o.is_dir
            && o.identity == record.identity)),
        !locator_name_ok(*record) ==> (r matches Err(e) && is_stale_locator_error(e)),
        locator_name_ok(*record) ==> match observed {
            Err(detail) => r matches Err(e) && missing_entry_error(e, detail@),
            Ok(o) => (o.is_symlink || !o.is_dir || o.identity != record.identity) ==> (r matches Err(
                e,
            ) && is_stale_locator_error(e)),
        },
{
    if !is_plain_name(record.bundle_name.as_str()) || !is_supported_bundle_name(record.bundle_name.as_str()) {
        return Err(stale_locator_error());
    }
    match observed {
        Err(detail) => Err(SessionErrorPayload::new(
            SessionErrorKind::Filesystem,
            "The saved session is no longer available at its managed location.",
            detail.as_str(),
        )),
        Ok(o) => {
            if o.is_symlink || !o.is_dir || o.identity != record.identity {
                Err(stale_locator_error())
            } else {
                Ok(())
            }
        },
    }
}

fn same_bytes(a: &Vec<u8>, b: &Vec<u8>) -> (r: bool)
    ensures
        r == (a@ == b@),
{
    if a.len() != b.len() {
        return false;
    }
    let mut i: usize = 0;
    while i < a.len()
        invariant
            i <= a@.len(),
            a@.len() == b@.len(),
            forall|j: int| 0 <= j < i ==> a@[j] == b@[j],
        decreases a@.len() - i,
    {
        if a[i] != b[i] {
            return false;
        }
        i = i + 1;
    }
    assert(a@ =~= b@);
    true
}

/// Revalidates a locator before its bundle is opened: the direct child must
/// still be valid, the entry must have been available when listed, and the
/// bundle's current fingerprint, computed only then, must equal the listed
/// one.
pub fn revalidate_available<F: FnOnce() -> Option<Vec<u8>>>(
    record: &LocatorRecord,
    direct_child: Result<String, SessionErrorPayload>,
    current_fingerprint: F,
) -> (r: Result<String, SessionErrorPayload>)
    requires
        call_requires(current_fingerprint, ()),
    ensures
        direct_child matches Err(e) ==> r == Err::<String, SessionErrorPayload>(e),
        direct_child is Ok && !record.activatable ==> (r matches Err(e) && plain_error(
            e,
            SessionErrorKind::Validation,
            "This saved session is not available to open."@,
            "the catalog entry is invalid, unsupported, or unreadable"@,
        )),
        r matches Ok(path) ==> (direct_child matches Ok(p) && p == path && record.activatable
            && exists|fp: Option<Vec<u8>>| call_ensures(current_fingerprint, (), fp) && (fp matches Some(
            f) && record.fingerprint matches Some(g) && f@ == g@)),
        direct_child is Ok && record.activatable ==> exists|fp: Option<Vec<u8>>| call_ensures(current_fingerprint, (), fp) && (
            match fp {
                None => r matches Err(e) && plain_error(
                    e,
                    SessionErrorKind::Verification,
                    "The saved session no longer matches its catalog entry."@,
                    "the current bundle could not be verified as available"@,
                ),
                Some(f) => match record.fingerprint {
                    Some(g) => if f@ == g@ {
                        r is Ok
                    } else {
                        r matches Err(e) && is_stale_locator_error(e)
                    },
                    None => r matches Err(e) && is_stale_locator_error(e),
                },
            }),
{
    let path = match direct_child {
        Err(e) => return Err(e),
        Ok(p) => p,
    };
    if !record.activatable {
        return Err(SessionErrorPayload::new(
            SessionErrorKind::Validation,
            "This saved session is not available to open.",
            "the catalog entry is invalid, unsupported, or unreadable",
        ));
    }
    let current = current_fingerprint();
    let fingerprint = match current {
        None => return Err(SessionErrorPayload::new(
            SessionErrorKind::Verification,
            "The saved session no longer matches its catalog entry.",
            "the current bundle could not be verified as available",
        )),
        Some(f) => f,
    };
    match &record.fingerprint {
        Some(g) => if same_bytes(&fingerprint, g) {
            Ok(path)
        } else {
            Err(stale_locator_error())
        },
        None => Err(stale_locator_error()),
    }
}

/// The bundle a registration can admit: a plain, suffix-matching direct
/// child of the root.
pub open spec fn registrable_child(root: Seq<char>, path: Seq<char>) -> bool {
    file_name_of(path) matches Some(n) && plain_name(n) && supported_bundle_name(n) && parent_of(path) == Some(root)
}

/// The error of a created bundle that inspection did not find available.
pub open spec fn not_registrable_error(e: SessionErrorPayload) -> bool {
    plain_error(
        e,
        SessionErrorKind::Verification,
        "The new session could not be registered as a managed session."@,
        "the created bundle did not pass managed catalog inspection"@,
    )
}

/// What registering the bundle created at `path` answers: a path that is
/// not a registrable child is stale; otherwise the record `inspect` gives
/// for its name, when it is available.
pub open spec fn created_record<F: FnOnce(&str) -> ProjectedEntry>(
    root: Seq<char>,
    path: Seq<char>,
    inspect: F,
    r: Result<LocatorRecord, SessionErrorPayload>,
) -> bool {
    &&& !registrable_child(root, path) ==> (r matches Err(e) && is_stale_locator_error(e))
    &&& registrable_child(root, path) ==> exists|name: &str, p: ProjectedEntry| {
        &&& #[trigger] call_ensures(inspect, (name,), p)
        &&& Some(name@) == file_name_of(path)
        &&& p.record.activatable ==> r == Ok::<LocatorRecord, SessionErrorPayload>(p.record)
        &&& !p.record.activatable ==> (r matches Err(e) && not_registrable_error(e))
    }
}

/// Registers a bundle just created in the managed directory: its path must
/// be a plain, suffix-matching direct child of the root, and its inspection
/// must find it available.
pub fn record_created<F: FnOnce(&str) -> ProjectedEntry>(
    root: &str,
    path: &str,
    inspect: F,
) -> (r: Result<LocatorRecord, SessionErrorPayload>)
    requires
        forall|name: &str| call_requires(inspect, (name,)),
    ensures
        created_record(root@, path@, inspect, r),
{
    let name = match path_file_name(path) {
        Some(n) => n,
        None => return Err(stale_locator_error()),
    };
    if !is_plain_name(name.as_str()) || !is_supported_bundle_name(name.as_str()) {
        return Err(stale_locator_error());
    }
    let parent_ok = match path_parent(path) {
        Some(p) => str_eq(p.as_str(), root),
        None => false,
    };
    if !parent_ok {
        return Err(stale_locator_error());
    }
    let shown = name.as_str();
    let projected = inspect(shown);
    proof {
        assert(call_ensures(inspect, (shown,), projected));
    }
    if !projected.record.activatable {
        return Err(SessionErrorPayload::new(
            SessionErrorKind::Verification,
            "The new session could not be registered as a managed session.",
            "the created bundle did not pass managed catalog inspection",
        ));
    }
    Ok(projected.record)
}

} // verus!

verus! {

/// A suffix-matching directory entry found while listing the managed
/// directory.
#[derive(Debug, Clone, PartialEq, Eq)]
pub enum Candidate {
    Directory { name: String, path: String },
    Unsafe { name: String },
    Unreadable { name: String, path: String, message: String },
}

/// The name of a candidate.
pub open spec fn candidate_name(c: Candidate) -> Seq<char> {
    match c {
        Candidate::Directory { name, .. } => name@,
        Candidate::Unsafe { name } => name@,
        Candidate::Unreadable { name, .. } => name@,
    }
}

impl Candidate {
    /// The directory entry's name.
    pub fn name(&self) -> (r: &str)
        ensures
            r@ == candidate_name(*self),
    {
        match self {
            Candidate::Directory { name, .. } => name.as_str(),
            Candidate::Unsafe { name } => name.as_str(),
            Candidate::Unreadable { name, .. } => name.as_str(),
        }
    }
}

/// Candidates appear in name order.
pub open spec fn candidates_sorted(s: Seq<Candidate>) -> bool {
    forall|i: int, j: int|
        0 <= i < j < s.len() ==> !seq_lt(candidate_name(#[trigger] s[j]), candidate_name(#[trigger] s[i]))
}

fn insert_candidate(out: &mut Vec<Candidate>, c: Candidate)
    requires
        candidates_sorted(old(out)@),
    ensures
        candidates_sorted(final(out)@),
        final(out)@.to_multiset() == old(out)@.to_multiset().insert(c),
        final(out)@.len() == old(out)@.len() + 1,
{
    let n = out.len();
    let mut pos: usize = 0;
    while pos < n && !str_less(c.name(), out[pos].name())
        invariant
            pos <= n,
            n == out@.len(),
            out@ == old(out)@,
            forall|i: int| 0 <= i < pos ==> !seq_lt(candidate_name(c), candidate_name(#[trigger] out@[i])),
        decreases n - pos,
    {
        pos = pos + 1;
    }
    let ghost before = out@;
    proof {
        vstd::seq_lib::to_multiset_insert(before, pos as int, c);
    }
    out.insert(pos, c);
    assert(out@ == before.insert(pos as int, c));
    assert forall|i: int, j: int| 0 <= i < j < out@.len() implies !seq_lt(
        candidate_name(#[trigger] out@[j]),
        candidate_name(#[trigger] out@[i]),
    ) by {
        if j == pos {
            assert(out@[i] == before[i]);
        } else if i == pos {
            assert(out@[j] == before[j - 1]);
            if seq_lt(candidate_name(out@[j]), candidate_name(c)) {
                lemma_seq_lt_transitive(candidate_name(before[j - 1]), candidate_name(c), candidate_name(before[pos as int]));
                if j - 1 == pos {
                    lemma_seq_lt_irreflexive(candidate_name(before[pos as int]));
                }
            }
        } else {
            let bi = if i < pos { i } else { i - 1 };
            let bj = if j < pos { j } else { j - 1 };
            assert(out@[i] == before[bi]);
            assert(out@[j] == before[bj]);
        }
    }
}

/// The candidates to project: all of them in name order, cut to the
/// candidate limit, with the number that were found.
pub fn select_candidates(candidates: Vec<Candidate>) -> (r: (Vec<Candidate>, usize))
    ensures
        r.1 == candidates@.len(),
        r.0@.len() == if candidates@.len() > MAX_CATALOG_CANDIDATES {
            MAX_CATALOG_CANDIDATES as int
        } else {
            candidates@.len() as int
        },
        exists|s: Seq<Candidate>|
            s.to_multiset() == candidates@.to_multiset() && s.len() == candidates@.len()
                && candidates_sorted(s) && r.0@ == s.take(r.0@.len() as int),
{
    let ghost orig = candidates@;
    let mut rest = candidates;
    let mut out: Vec<Candidate> = Vec::new();
    let n = rest.len();
    let mut k: usize = 0;
    assert(orig.skip(0) =~= orig);
    assert(orig.take(0) =~= Seq::<Candidate>::empty());
    proof {
        orig.take(0).to_multiset_ensures();
    }
    while k < n
        invariant
            k <= n,
            n == orig.len(),
            rest@ == orig.skip(k as int),
            candidates_sorted(out@),
            out@.len() == k,
            out@.to_multiset() == orig.take(k as int).to_multiset(),
        decreases n - k,
    {
        let c = rest.remove(0);
        assert(c == orig[k as int]);
        assert(rest@ =~= orig.skip(k + 1));
        proof {
            assert(orig.take(k + 1) =~= orig.take(k as int).push(c));
            vstd::seq_lib::to_multiset_build(orig.take(k as int), c);
        }
        insert_candidate(&mut out, c);
        k = k + 1;
    }
    assert(orig.take(n as int) =~= orig);
    let ghost sorted = out@;
    if out.len() > MAX_CATALOG_CANDIDATES {
        out.truncate(MAX_CATALOG_CANDIDATES);
    }
    assert(out@ =~= sorted.take(out@.len() as int));
    (out, n)
}

/// Catalog order: entries with a creation time first, newest first; then by
/// bundle name.
pub open spec fn entry_before(a: ManagedCatalogEntry, b: ManagedCatalogEntry) -> bool {
    match (a.created_at_ms, b.created_at_ms) {
        (Some(x), Some(y)) => x > y || (x == y && seq_lt(a.bundle_name@, b.bundle_name@)),
        (Some(_), None) => true,
        (None, Some(_)) => false,
        (None, None) => seq_lt(a.bundle_name@, b.bundle_name@),
    }
}

proof fn lemma_entry_before_transitive(a: ManagedCatalogEntry, b: ManagedCatalogEntry, c: ManagedCatalogEntry)
    requires
        entry_before(a, b),
        entry_before(b, c),
    ensures
        entry_before(a, c),
{
    if seq_lt(a.bundle_name@, b.bundle_name@) && seq_lt(b.bundle_name@, c.bundle_name@) {
        lemma_seq_lt_transitive(a.bundle_name@, b.bundle_name@, c.bundle_name@);
    }
}

proof fn lemma_entry_before_irreflexive(a: ManagedCatalogEntry)
    ensures
        !entry_before(a, a),
{
    lemma_seq_lt_irreflexive(a.bundle_name@);
}

fn entry_less(a: &ManagedCatalogEntry, b: &ManagedCatalogEntry) -> (r: bool)
    ensures
        r == entry_before(*a, *b),
{
    match (a.created_at_ms, b.created_at_ms) {
        (Some(x), Some(y)) => x > y || (x == y && str_less(a.bundle_name.as_str(), b.bundle_name.as_str())),
        (Some(_), None) => true,
        (None, Some(_)) => false,
        (None, None) => str_less(a.bundle_name.as_str(), b.bundle_name.as_str()),
    }
}

/// Projected entries appear in catalog order.
pub open spec fn entries_sorted(s: Seq<ProjectedEntry>) -> bool {
    forall|i: int, j: int| 0 <= i < j < s.len() ==> !entry_before((#[trigger] s[j]).entry, (#[trigger] s[i]).entry)
}

fn insert_entry(out: &mut Vec<ProjectedEntry>, p: ProjectedEntry)
    requires
        entries_sorted(old(out)@),
    ensures
        entries_sorted(final(out)@),
        final(out)@.to_multiset() == old(out)@.to_multiset().insert(p),
        final(out)@.len() == old(out)@.len() + 1,
{
    let n = out.len();
    let mut pos: usize = 0;
    while pos < n && !entry_less(&p.entry, &out[pos].entry)
        invariant
            pos <= n,
            n == out@.len(),
            out@ == old(out)@,
            forall|i: int| 0 <= i < pos ==> !entry_before(p.entry, (#[trigger] out@[i]).entry),
        decreases n - pos,
    {
        pos = pos + 1;
    }
    let ghost before = out@;
    proof {
        vstd::seq_lib::to_multiset_insert(before, pos as int, p);
    }
    out.insert(pos, p);
    assert(out@ == before.insert(pos as int, p));
    assert forall|i: int, j: int| 0 <= i < j < out@.len() implies !entry_before(
        (#[trigger] out@[j]).entry,
        (#[trigger] out@[i]).entry,
    ) by {
        if j == pos {
            assert(out@[i] == before[i]);
        } else if i == pos {
            assert(out@[j] == before[j - 1]);
            if entry_before(out@[j].entry, p.entry) {
                lemma_entry_before_transitive(before[j - 1].entry, p.entry, before[pos as int].entry);
                if j - 1 == pos {
                    lemma_entry_before_irreflexive(before[pos as int].entry);
                }
            }
        } else {
            let bi = if i < pos { i } else { i - 1 };
            let bj = if j < pos { j } else { j - 1 };
            assert(out@[i] == before[bi]);
            assert(out@[j] == before[bj]);
        }
    }
}

/// The projected entries in catalog order (a stable sort).
pub fn sort_entries(v: Vec<ProjectedEntry>) -> (r: Vec<ProjectedEntry>)
    ensures
        entries_sorted(r@),
        r@.to_multiset() == v@.to_multiset(),
        r@.len() == v@.len(),
{
    let ghost orig = v@;
    let mut rest = v;
    let mut out: Vec<ProjectedEntry> = Vec::new();
    let n = rest.len();
    let mut k: usize = 0;
    assert(orig.skip(0) =~= orig);
    assert(orig.take(0) =~= Seq::<ProjectedEntry>::empty());
    proof {
        orig.take(0).to_multiset_ensures();
    }
    while k < n
        invariant
            k <= n,
            n == orig.len(),
            rest@ == orig.skip(k as int),
            entries_sorted(out@),
            out@.len() == k,
            out@.to_multiset() == orig.take(k as int).to_multiset(),
        decreases n - k,
    {
        let p = rest.remove(0);
        assert(p == orig[k as int]);
        assert(rest@ =~= orig.skip(k + 1));
        proof {
            assert(orig.take(k + 1) =~= orig.take(k as int).push(p));
            vstd::seq_lib::to_multiset_build(orig.take(k as int), p);
        }
        insert_entry(&mut out, p);
        k = k + 1;
    }
    assert(orig.take(n as int) =~= orig);
    out
}

} // verus!

verus! {

/// Whether an entry reports the given session identity.
pub open spec fn reports_session(p: ProjectedEntry, sid: Seq<char>) -> bool {
    p.entry.session_id matches Some(x) && x@ == sid
}

/// How many of the first `n` entries report a session identity.
pub open spec fn session_count(s: Seq<ProjectedEntry>, sid: Seq<char>, n: int) -> nat
    decreases n,
{
    if n <= 0 {
        0
    } else {
        session_count(s, sid, n - 1) + if reports_session(s[n - 1], sid) {
            1nat
        } else {
            0nat
        }
    }
}

/// The note added to an entry whose session identity is shared.
pub open spec fn same_id_message(count: nat) -> Seq<char> {
    dec(count) + " saved bundle paths report this session ID; they remain separate copies."@
}

/// The problems of an entry whose identity `count` entries share: with
/// another entry sharing it, a warning is added, replacing the last problem
/// when the list is full.
pub open spec fn same_id_problems(
    ps: Seq<(Seq<char>, ProblemSeverity, Seq<char>)>,
    count: nat,
) -> Seq<(Seq<char>, ProblemSeverity, Seq<char>)> {
    if count > 1 {
        pushed_problems(
            if ps.len() == MAX_ENTRY_PROBLEMS {
                ps.drop_last()
            } else {
                ps
            },
            "managed.same_session_id"@,
            ProblemSeverity::Warning,
            same_id_message(count),
        )
    } else {
        ps
    }
}

/// One entry after duplicate-identity warnings: an entry without a session
/// identity is unchanged; one with an identity records how many listed
/// entries share it and warns when it is shared.
pub open spec fn warned_entry(before: ProjectedEntry, after: ProjectedEntry, all: Seq<ProjectedEntry>) -> bool {
    match before.entry.session_id {
        None => after == before,
        Some(sid) => {
            &&& after.record == before.record
            &&& (ManagedCatalogEntry {
                same_session_id_count: after.entry.same_session_id_count,
                problems: after.entry.problems,
                ..before.entry
            }) == after.entry
            &&& after.entry.same_session_id_count == session_count(all, sid@, all.len() as int)
            &&& problems_view(after.entry.problems@) == same_id_problems(
                problems_view(before.entry.problems@),
                session_count(all, sid@, all.len() as int),
            )
        },
    }
}

fn count_session(entries: &Vec<ProjectedEntry>, sid: &str) -> (r: usize)
    ensures
        r == session_count(entries@, sid@, entries@.len() as int),
{
    let mut count: usize = 0;
    let mut i: usize = 0;
    while i < entries.len()
        invariant
            i <= entries@.len(),
            count == session_count(entries@, sid@, i as int),
            count <= i,
        decreases entries@.len() - i,
    {
        let matches = match &entries[i].entry.session_id {
            Some(x) => crate::text::str_eq(x.as_str(), sid),
            None => false,
        };
        if matches {
            count = count + 1;
        }
        i = i + 1;
    }
    count
}

/// Marks every entry whose session identity other listed entries share.
pub fn apply_same_id_warnings(entries: &mut Vec<ProjectedEntry>)
    ensures
        final(entries)@.len() == old(entries)@.len(),
        forall|i: int| 0 <= i < old(entries)@.len() ==> warned_entry(
            #[trigger] old(entries)@[i],
            final(entries)@[i],
            old(entries)@,
        ),
{
    let ghost orig = entries@;
    let n = entries.len();
    let mut counts: Vec<usize> = Vec::new();
    let mut i: usize = 0;
    while i < n
        invariant
            i <= n,
            n == orig.len(),
            entries@ == orig,
            counts@.len() == i,
            forall|j: int| 0 <= j < i ==> (orig[j].entry.session_id matches Some(sid) ==> #[trigger] counts@[j]
                == session_count(orig, sid@, n as int)),
        decreases n - i,
    {
        let c = match &entries[i].entry.session_id {
            Some(sid) => count_session(entries, sid.as_str()),
            None => 0,
        };
        counts.push(c);
        i = i + 1;
    }
    let mut rest: Vec<ProjectedEntry> = Vec::new();
    std::mem::swap(&mut rest, entries);
    let mut out: Vec<ProjectedEntry> = Vec::new();
    let mut k: usize = 0;
    assert(orig.skip(0) =~= orig);
    while k < n
        invariant
            k <= n,
            n == orig.len(),
            counts@.len() == n,
            rest@ == orig.skip(k as int),
            out@.len() == k,
            forall|j: int| 0 <= j < n ==> (orig[j].entry.session_id matches Some(sid) ==> #[trigger] counts@[j]
                == session_count(orig, sid@, n as int)),
            forall|j: int| 0 <= j < k ==> warned_entry(#[trigger] orig[j], out@[j], orig),
        decreases n - k,
    {
        let mut p = rest.remove(0);
        assert(p == orig[k as int]);
        assert(rest@ =~= orig.skip(k + 1));
        let ghost p0 = p;
        if p.entry.session_id.is_some() {
            let count = counts[k];
            p.entry.same_session_id_count = count;
            if count > 1 {
                if p.entry.problems.len() == MAX_ENTRY_PROBLEMS {
                    let ghost ps = p.entry.problems@;
                    p.entry.problems.pop();
                    assert(problems_view(p.entry.problems@) =~= problems_view(ps).drop_last());
                }
                let mut message = u64_text(count as u64);
                push_str(&mut message, " saved bundle paths report this session ID; they remain separate copies.");
                proof {
                    reveal_strlit(" saved bundle paths report this session ID; they remain separate copies.");
                    reveal_strlit("managed.same_session_id");
                }
                push_problem(&mut p.entry, "managed.same_session_id", ProblemSeverity::Warning, message.as_str());
            }
        }
        out.push(p);
        assert(out@[k as int] == p);
        k = k + 1;
    }
    *entries = out;
}

/// The projected catalog and the records its locators resolve to, index for
/// index.
#[derive(Debug)]
pub struct CatalogBuild {
    pub catalog: ManagedSessionCatalog,
    pub records: Vec<LocatorRecord>,
}

} // verus!

verus! {

/// The plain-value view of a catalog diagnostic.
pub open spec fn diagnostic_view(d: CatalogDiagnostic) -> (Seq<char>, Seq<char>, Option<u64>, Option<u64>) {
    (d.code@, d.message@, d.limit, d.observed)
}

/// The catalog diagnostics for a listing: unreadable directory entries first,
/// then candidates beyond the limit.
pub open spec fn listing_diagnostics(observed: nat, scan_failures: u64) -> Seq<(Seq<char>, Seq<char>, Option<u64>, Option<u64>)> {
    (if scan_failures > 0 {
        seq![(
            "managed.directory_entry_unreadable"@,
            "The managed session catalog is incomplete: "@ + dec(scan_failures as nat)
                + " directory entries could not be inspected."@,
            None::<u64>,
            Some(scan_failures),
        )]
    } else {
        Seq::empty()
    }) + (if observed > MAX_CATALOG_CANDIDATES {
        seq![(
            "resource.desktop.managed_catalog_candidates"@,
            "The managed session catalog is incomplete: "@ + dec(observed) + " candidates exceeded the limit of 256."@,
            Some(MAX_CATALOG_CANDIDATES as u64),
            Some(observed as u64),
        )]
    } else {
        Seq::empty()
    })
}

/// Assembles the catalog from the projected candidates: entries in catalog
/// order with duplicate-identity warnings, the locator record of each entry
/// at the same index, and an incomplete status with its reasons when
/// directory entries could not be inspected or candidates were cut.
pub fn build_catalog(projected: Vec<ProjectedEntry>, observed: usize, scan_failures: u64) -> (r: CatalogBuild)
    requires
        observed <= u64::MAX,
    ensures
        r.catalog.entries@.len() == projected@.len(),
        r.records@.len() == projected@.len(),
        exists|s: Seq<ProjectedEntry>| {
            &&& s.to_multiset() == projected@.to_multiset()
            &&& s.len() == projected@.len()
            &&& entries_sorted(s)
            &&& forall|i: int| 0 <= i < s.len() ==> warned_entry(
                #[trigger] s[i],
                (ProjectedEntry { entry: r.catalog.entries@[i], record: r.records@[i] }),
                s,
            )
        },
        r.catalog.status == (if scan_failures > 0 || observed > MAX_CATALOG_CANDIDATES {
            CatalogStatus::Incomplete
        } else {
            CatalogStatus::Complete
        }),
        r.catalog.diagnostics@.map_values(|d: CatalogDiagnostic| diagnostic_view(d))
            == listing_diagnostics(observed as nat, scan_failures),
{
    let mut sorted = sort_entries(projected);
    let ghost s = sorted@;
    apply_same_id_warnings(&mut sorted);
    let ghost warned = sorted@;
    let n = sorted.len();
    let mut entries: Vec<ManagedCatalogEntry> = Vec::new();
    let mut records: Vec<LocatorRecord> = Vec::new();
    let mut rest = sorted;
    let mut k: usize = 0;
    assert(warned.skip(0) =~= warned);
    while k < n
        invariant
            k <= n,
            n == warned.len(),
            rest@ == warned.skip(k as int),
            entries@.len() == k,
            records@.len() == k,
            forall|j: int| 0 <= j < k ==> (#[trigger] entries@[j]) == warned[j].entry && records@[j] == warned[j].record,
        decreases n - k,
    {
        let p = rest.remove(0);
        assert(p == warned[k as int]);
        assert(rest@ =~= warned.skip(k + 1));
        entries.push(p.entry);
        records.push(p.record);
        k = k + 1;
    }
    assert forall|i: int| 0 <= i < s.len() implies warned_entry(
        #[trigger] s[i],
        (ProjectedEntry { entry: entries@[i], record: records@[i] }),
        s,
    ) by {
        assert(entries@[i] == warned[i].entry);
        assert((ProjectedEntry { entry: entries@[i], record: records@[i] }) == warned[i]);
    }
    let mut catalog = ManagedSessionCatalog::complete(entries);
    proof {
        reveal_strlit("managed.directory_entry_unreadable");
        reveal_strlit("The managed session catalog is incomplete: ");
        reveal_strlit(" directory entries could not be inspected.");
        reveal_strlit("resource.desktop.managed_catalog_candidates");
        reveal_strlit(" candidates exceeded the limit of 256.");
    }
    if scan_failures > 0 {
        catalog.status = CatalogStatus::Incomplete;
        let mut message = owned("The managed session catalog is incomplete: ");
        let count = u64_text(scan_failures);
        push_str(&mut message, count.as_str());
        push_str(&mut message, " directory entries could not be inspected.");
        catalog.diagnostics.push(CatalogDiagnostic {
            code: owned("managed.directory_entry_unreadable"),
            message,
            limit: None,
            observed: Some(scan_failures),
        });
    }
    if observed > MAX_CATALOG_CANDIDATES {
        catalog.status = CatalogStatus::Incomplete;
        let mut message = owned("The managed session catalog is incomplete: ");
        let count = u64_text(observed as u64);
        push_str(&mut message, count.as_str());
        push_str(&mut message, " candidates exceeded the limit of 256.");
        catalog.diagnostics.push(CatalogDiagnostic {
            code: owned("resource.desktop.managed_catalog_candidates"),
            message,
            limit: Some(MAX_CATALOG_CANDIDATES as u64),
            observed: Some(observed as u64),
        });
    }
    assert(catalog.diagnostics@.map_values(|d: CatalogDiagnostic| diagnostic_view(d))
        =~= listing_diagnostics(observed as nat, scan_failures));
    CatalogBuild { catalog, records }
}

} // verus!

verus! {

/// `x` is the error `e` with the managed directory's path `root` in its
/// detail replaced by the name the shell shows for it.
pub open spec fn redacted(x: SessionErrorPayload, e: SessionErrorPayload, root: Seq<char>) -> bool {
    &&& (SessionErrorPayload { detail: x.detail, ..e }) == x
    &&& x.detail@ == replace_seq(e.detail@, root, "Saved sessions"@)
}

/// `r` answers `r0` with the managed directory's path redacted from an
/// error.
pub open spec fn answered_redacted(
    r0: Result<crate::desktop::OpenSessionOutcome, SessionErrorPayload>,
    r: Result<crate::desktop::OpenSessionOutcome, SessionErrorPayload>,
    root: Seq<char>,
) -> bool {
    match r0 {
        Ok(o) => r == Ok::<crate::desktop::OpenSessionOutcome, SessionErrorPayload>(o),
        Err(e) => r matches Err(x) && redacted(x, e, root),
    }
}

/// The error when the saved session changed while it was opening.
pub open spec fn source_changed_error(e: SessionErrorPayload) -> bool {
    plain_error(
        e,
        SessionErrorKind::Verification,
        "The saved session changed while it was opening."@,
        "the managed source no longer resolves to the opened direct child"@,
    )
}

/// `v` answers whether the record still resolves to `opened`, as
/// `revalidate` finds it again.
pub open spec fn still_resolves<R>(rec: LocatorRecord, opened: Seq<char>, revalidate: R, v: Result<(), SessionErrorPayload>) -> bool
    where
        R: Fn(&LocatorRecord) -> Result<String, SessionErrorPayload>,
{
    exists|again: Result<String, SessionErrorPayload>| {
        &&& #[trigger] call_ensures(revalidate, (&rec,), again)
        &&& match again {
            Err(e) => v == Err::<(), SessionErrorPayload>(e),
            Ok(c) => if c@ == opened {
                v == Ok::<(), SessionErrorPayload>(())
            } else {
                v matches Err(e) && source_changed_error(e)
            },
        }
    }
}

/// What opening the saved bundle at `path` answers before redaction, for
/// each result of the load, the second resolution and the transfer check
/// in turn.
pub open spec fn managed_opened<R, L, C>(
    rec: LocatorRecord,
    path: Seq<char>,
    revalidate: R,
    load: L,
    check_ipc: C,
    r0: Result<crate::desktop::OpenSessionOutcome, SessionErrorPayload>,
) -> bool
    where
        R: Fn(&LocatorRecord) -> Result<String, SessionErrorPayload>,
        L: FnOnce(&str) -> Result<crate::desktop::ActiveSession, SessionErrorPayload>,
        C: FnOnce(&crate::desktop::OpenedSession) -> Result<(), SessionErrorPayload>,
{
    exists|p: &str, loaded: Result<crate::desktop::ActiveSession, SessionErrorPayload>| {
        &&& p@ == path
        &&& #[trigger] call_ensures(load, (p,), loaded)
        &&& match loaded {
            Err(e) => r0 == Err::<crate::desktop::OpenSessionOutcome, SessionErrorPayload>(e),
            Ok(s) => exists|verified: Result<(), SessionErrorPayload>| {
                &&& #[trigger] still_resolves(rec, p@, revalidate, verified)
                &&& match verified {
                    Err(e) => r0 == Err::<crate::desktop::OpenSessionOutcome, SessionErrorPayload>(e),
                    Ok(_) => exists|shown: &crate::desktop::OpenedSession, checked: Result<(), SessionErrorPayload>| {
                        &&& crate::desktop::same_summary(*shown, s.summary)
                        &&& #[trigger] call_ensures(check_ipc, (shown,), checked)
                        &&& match checked {
                            Err(e) => r0 == Err::<crate::desktop::OpenSessionOutcome, SessionErrorPayload>(e),
                            Ok(_) => r0 matches Ok(crate::desktop::OpenSessionOutcome::Opened { session })
                                && crate::desktop::same_summary(session, s.summary),
                        }
                    },
                }
            },
        }
    }
}

/// What opening the saved session of record `rec` answers, leaving `after`
/// behind: `revalidate` finds the bundle's path, which is opened unless a
/// foreground operation is running; an opened session's source is that
/// path, and the managed directory's path `root` is redacted from every
/// error.
pub open spec fn managed_open_outcome<R, L, C>(
    rec: LocatorRecord,
    root: Seq<char>,
    busy: bool,
    after: crate::desktop::DesktopState,
    revalidate: R,
    load: L,
    check_ipc: C,
    r: Result<crate::desktop::OpenSessionOutcome, SessionErrorPayload>,
) -> bool
    where
        R: Fn(&LocatorRecord) -> Result<String, SessionErrorPayload>,
        L: FnOnce(&str) -> Result<crate::desktop::ActiveSession, SessionErrorPayload>,
        C: FnOnce(&crate::desktop::OpenedSession) -> Result<(), SessionErrorPayload>,
{
    exists|first: Result<String, SessionErrorPayload>| {
        &&& #[trigger] call_ensures(revalidate, (&rec,), first)
        &&& match first {
            Err(e) => r matches Err(x) && redacted(x, e, root),
            Ok(path) => exists|r0: Result<crate::desktop::OpenSessionOutcome, SessionErrorPayload>| {
                &&& #[trigger] answered_redacted(r0, r, root)
                &&& busy ==> (r0 matches Err(e) && crate::desktop::busy_error(e))
                &&& !busy ==> managed_opened(rec, path@, revalidate, load, check_ipc, r0)
                &&& r matches Ok(crate::desktop::OpenSessionOutcome::Opened { .. }) ==> after.export_source == Some(path)
            },
        }
    }
}

/// Opens the saved session a locator resolves to. The locator must resolve,
/// its direct child must still be available (as `revalidate` finds it), and
/// after reading, the opened path must still be what the locator resolves
/// to; the managed directory's path is redacted from any error.
pub fn open_managed_session_for<
    R: Fn(&LocatorRecord) -> Result<String, SessionErrorPayload>,
    L: FnOnce(&str) -> Result<crate::desktop::ActiveSession, SessionErrorPayload>,
    C: FnOnce(&crate::desktop::OpenedSession) -> Result<(), SessionErrorPayload>,
>(
    managed: &ManagedSessionsState,
    active: &mut crate::desktop::DesktopState,
    root: &str,
    locator_id: &str,
    revalidate: R,
    load: L,
    check_ipc: C,
) -> (r: Result<crate::desktop::OpenSessionOutcome, SessionErrorPayload>)
    requires
        forall|rec: &LocatorRecord| call_requires(revalidate, (rec,)),
        forall|p: &str| call_requires(load, (p,)),
        forall|s: &crate::desktop::OpenedSession| call_requires(check_ipc, (s,)),
    ensures
        !(exists|i: int| resolves_at(managed.locators@, locator_id@, i)) ==> (r matches Err(e) && unknown_locator(e)
            && *final(active) == *old(active)),
        !(r matches Ok(crate::desktop::OpenSessionOutcome::Opened { .. })) ==> *final(active) == *old(active),
        r matches Ok(crate::desktop::OpenSessionOutcome::Opened { session }) ==> (final(active).active matches Some(a)
            && crate::desktop::same_summary(session, a.summary)),
        (exists|i: int| resolves_at(managed.locators@, locator_id@, i)) ==> exists|rec: LocatorRecord, i: int| {
            &&& #[trigger] resolves_at(managed.locators@, locator_id@, i)
            &&& record_view(rec) == record_view(managed.locators@[i].1)
            &&& #[trigger] managed_open_outcome(
                rec,
                root@,
                old(active).foreground_busy,
                *final(active),
                revalidate,
                load,
                check_ipc,
                r,
            )
        },
{
    let record = managed.resolve(locator_id)?;
    let first = revalidate(&record);
    let ghost first_g = first;
    let path = match first {
        Ok(p) => p,
        Err(e) => {
            let x = redact_managed_path(e, Some(root));
            proof {
                assert(call_ensures(revalidate, (&record,), first_g));
                assert(managed_open_outcome(record, root@, old(active).foreground_busy, *active, revalidate, load, check_ipc, Err(x)));
            }
            return Err(x);
        },
    };
    let verify = |opened: &str| -> (v: Result<(), SessionErrorPayload>)
        requires
            call_requires(revalidate, (&record,)),
        ensures
            still_resolves(record, opened@, revalidate, v),
    {
        let again = revalidate(&record);
        let ghost again_g = again;
        proof {
            assert(call_ensures(revalidate, (&record,), again_g));
        }
        match again {
            Err(e) => Err(e),
            Ok(current) => if str_eq(current.as_str(), opened) {
                Ok(())
            } else {
                Err(SessionErrorPayload::new(
                    SessionErrorKind::Verification,
                    "The saved session changed while it was opening.",
                    "the managed source no longer resolves to the opened direct child",
                ))
            },
        }
    };
    let ghost opened_path = path;
    let r0 = crate::desktop::open_session_at_path_verified(active, path, load, verify, check_ipc);
    let r = match r0 {
        Ok(outcome) => Ok(outcome),
        Err(e) => Err(redact_managed_path(e, Some(root))),
    };
    proof {
        assert(call_ensures(revalidate, (&record,), first_g));
        assert(answered_redacted(r0, r, root@));
        if !old(active).foreground_busy {
            assert(crate::desktop::opened_from(opened_path@, load, verify, check_ipc, r0));
            assert(managed_opened(record, opened_path@, revalidate, load, check_ipc, r0));
        }
        assert(managed_open_outcome(record, root@, old(active).foreground_busy, *active, revalidate, load, check_ipc, r));
    }
    r
}

/// The largest managed catalog handed to the shell, in bytes.
pub const MANAGED_CATALOG_IPC_BYTES: usize = 524288;

/// The locators without those registered under `id`.
pub open spec fn without_key(locators: Seq<(String, LocatorRecord)>, id: Seq<char>) -> Seq<(String, LocatorRecord)>
    decreases locators.len(),
{
    if locators.len() == 0 {
        locators
    } else {
        let rest = without_key(locators.drop_last(), id);
        if locators.last().0@ == id {
            rest
        } else {
            rest.push(locators.last())
        }
    }
}

/// No identifier is registered twice.
pub open spec fn locator_ids_distinct(locators: Seq<(String, LocatorRecord)>) -> bool {
    forall|i: int, j: int| 0 <= i < j < locators.len() ==> (#[trigger] locators[i]).0@ != (#[trigger] locators[j]).0@
}

/// Forgetting an identifier keeps every other registration, adds none, and
/// keeps identifiers distinct.
pub proof fn lemma_without_key(l: Seq<(String, LocatorRecord)>, id: Seq<char>)
    ensures
        forall|k: int| 0 <= k < without_key(l, id).len() ==> (#[trigger] without_key(l, id)[k]).0@ != id,
        forall|x: (String, LocatorRecord)| #[trigger] without_key(l, id).contains(x) ==> l.contains(x),
        forall|i: int| 0 <= i < l.len() && (#[trigger] l[i]).0@ != id ==> without_key(l, id).contains(l[i]),
        locator_ids_distinct(l) ==> locator_ids_distinct(without_key(l, id)),
    decreases l.len(),
{
    if l.len() > 0 {
        let init = l.drop_last();
        lemma_without_key(init, id);
        let rest = without_key(init, id);
        assert forall|x: (String, LocatorRecord)| rest.contains(x) implies l.contains(x) by {
            let j = choose|j: int| 0 <= j < init.len() && init[j] == x;
            assert(l[j] == x);
        }
        if locator_ids_distinct(l) {
            assert forall|i: int, j: int| 0 <= i < j < init.len() implies (#[trigger] init[i]).0@ != (#[trigger] init[j]).0@ by {
                assert(init[i] == l[i] && init[j] == l[j]);
            }
        }
        if l.last().0@ == id {
            assert forall|i: int| 0 <= i < l.len() && (#[trigger] l[i]).0@ != id implies without_key(l, id).contains(l[i]) by {
                assert(l[i] == init[i]);
            }
        } else {
            let w = rest.push(l.last());
            assert(without_key(l, id) == w);
            assert forall|x: (String, LocatorRecord)| w.contains(x) implies l.contains(x) by {
                let j = choose|j: int| 0 <= j < w.len() && w[j] == x;
                if j == w.len() - 1 {
                    assert(l[l.len() - 1] == x);
                } else {
                    assert(rest[j] == x);
                    assert(rest.contains(x));
                }
            }
            assert forall|i: int| 0 <= i < l.len() && (#[trigger] l[i]).0@ != id implies w.contains(l[i]) by {
                if i == l.len() - 1 {
                    assert(w[w.len() - 1] == l[i]);
                } else {
                    assert(l[i] == init[i]);
                    let j = choose|j: int| 0 <= j < rest.len() && rest[j] == l[i];
                    assert(w[j] == l[i]);
                }
            }
            assert forall|k: int| 0 <= k < w.len() implies (#[trigger] w[k]).0@ != id by {
                if k < rest.len() {
                    assert(w[k] == rest[k]);
                }
            }
            if locator_ids_distinct(l) {
                assert forall|i: int, j: int| 0 <= i < j < w.len() implies (#[trigger] w[i]).0@ != (#[trigger] w[j]).0@ by {
                    if j == w.len() - 1 {
                        assert(w[i] == rest[i]);
                        assert(rest.contains(rest[i]));
                        let m = choose|m: int| 0 <= m < init.len() && init[m] == rest[i];
                        assert(l[m] == rest[i]);
                        assert(w[j] == l[l.len() - 1]);
                    } else {
                        assert(w[i] == rest[i] && w[j] == rest[j]);
                    }
                }
            }
        }
    }
}

/// The locators without those registered under any of `ids`, forgotten in
/// order.
pub open spec fn without_keys(locators: Seq<(String, LocatorRecord)>, ids: Seq<Seq<char>>) -> Seq<(String, LocatorRecord)>
    decreases ids.len(),
{
    if ids.len() == 0 {
        locators
    } else {
        without_key(without_keys(locators, ids.drop_last()), ids.last())
    }
}

/// The locator identifiers of the entries from position `k` on, the last
/// entry's first.
pub open spec fn trailing_locators(entries: Seq<ManagedCatalogEntry>, k: int) -> Seq<Seq<char>>
    decreases entries.len() - k,
{
    if k < 0 || k >= entries.len() {
        Seq::empty()
    } else {
        trailing_locators(entries, k + 1) + match entries[k].locator_id {
            Some(id) => seq![id@],
            None => Seq::empty(),
        }
    }
}

/// The note a shortened catalog carries.
pub open spec fn shortened_note(d: CatalogDiagnostic, limit: usize, observed: usize) -> bool {
    &&& d.code@ == "resource.desktop.managed_catalog_ipc_bytes"@
    &&& d.message@ == "The managed session catalog was shortened to fit the desktop IPC limit."@
    &&& d.limit == Some(limit as u64)
    &&& d.observed == Some(observed as u64)
}

impl ManagedSessionsState {
    /// Forgets every locator registered under `id`.
    pub fn forget(&mut self, id: &str)
        ensures
            final(self).locators@ == without_key(old(self).locators@, id@),
            locator_ids_distinct(old(self).locators@) ==> locator_ids_distinct(final(self).locators@),
    {
        proof {
            lemma_without_key(self.locators@, id@);
        }
        let ghost all = self.locators@;
        let total = self.locators.len();
        let mut i: usize = 0;
        let mut j: usize = 0;
        assert(all.take(0) =~= Seq::<(String, LocatorRecord)>::empty());
        assert(all.skip(0) =~= all);
        while i < self.locators.len()
            invariant
                j <= all.len(),
                all.len() == total,
                self.locators@ == without_key(all.take(j as int), id@) + all.skip(j as int),
                i == without_key(all.take(j as int), id@).len(),
            decreases all.len() - j,
        {
            assert(self.locators@.len() == i + all.skip(j as int).len());
            assert(j < all.len());
            assert(self.locators@[i as int] == all[j as int]);
            assert(all.take(j + 1).drop_last() =~= all.take(j as int));
            assert(all.take(j + 1).last() == all[j as int]);
            let ghost kept = without_key(all.take(j as int), id@);
            if str_eq(self.locators[i].0.as_str(), id) {
                self.locators.remove(i);
                assert(self.locators@ =~= kept + all.skip(j + 1));
            } else {
                assert(self.locators@ =~= kept.push(all[j as int]) + all.skip(j + 1));
                i = i + 1;
            }
            j = j + 1;
        }
        assert(self.locators@.len() == i + (all.len() - j));
        assert(j == all.len());
        assert(all.take(j as int) =~= all);
        assert(self.locators@ =~= without_key(all, id@));
    }
}

/// Shortens a catalog, dropping its last entries and their locators, until
/// its size as measured by `serialized_len` fits `limit`; a shortened
/// catalog is marked incomplete with a note of the limit and the first
/// size. When every entry is gone and it still does not fit, the catalog
/// is refused with a resource error; a failed measurement is returned as
/// it is.
pub fn fit_catalog_to_ipc_with_limit<F: Fn(&ManagedSessionCatalog) -> Result<usize, SessionErrorPayload>>(
    catalog: &mut ManagedSessionCatalog,
    sessions: &mut ManagedSessionsState,
    limit: usize,
    serialized_len: F,
) -> (r: Result<(), SessionErrorPayload>)
    requires
        forall|c: &ManagedSessionCatalog| call_requires(serialized_len, (c,)),
    ensures
        exists|first: Result<usize, SessionErrorPayload>| {
            &&& call_ensures(serialized_len, (&*old(catalog),), first)
            &&& match first {
                Err(e) => r == Err::<(), SessionErrorPayload>(e) && *final(catalog) == *old(catalog),
                Ok(b) => if b <= limit {
                    r is Ok && *final(catalog) == *old(catalog)
                } else {
                    &&& final(catalog).status == CatalogStatus::Incomplete
                    &&& final(catalog).diagnostics@.len() == old(catalog).diagnostics@.len() + 1
                    &&& final(catalog).diagnostics@.take(old(catalog).diagnostics@.len() as int) == old(catalog).diagnostics@
                    &&& shortened_note(final(catalog).diagnostics@.last(), limit, b)
                },
            }
        },
        exists|k: int| {
            &&& 0 <= k <= old(catalog).entries@.len()
            &&& final(catalog).entries@ == old(catalog).entries@.take(k)
            &&& final(sessions).locators@ == without_keys(old(sessions).locators@, trailing_locators(old(catalog).entries@, k))
        },
        locator_ids_distinct(old(sessions).locators@) ==> locator_ids_distinct(final(sessions).locators@),
        r is Ok ==> exists|b: usize| call_ensures(serialized_len, (&*final(catalog),), Ok::<usize, SessionErrorPayload>(b)) && b <= limit,
{
    let first = serialized_len(catalog);
    let ghost measured = first;
    let ghost start = *catalog;
    let ghost start_locators = sessions.locators@;
    proof {
        assert(start.entries@.take(start.entries@.len() as int) =~= start.entries@);
        assert(trailing_locators(start.entries@, start.entries@.len() as int) =~= Seq::<Seq<char>>::empty());
    }
    let mut bytes = match first {
        Err(e) => return Err(e),
        Ok(b) => b,
    };
    if bytes <= limit {
        return Ok(());
    }
    catalog.status = CatalogStatus::Incomplete;
    proof {
        reveal_strlit("resource.desktop.managed_catalog_ipc_bytes");
        reveal_strlit("The managed session catalog was shortened to fit the desktop IPC limit.");
    }
    let ghost diags_before = catalog.diagnostics@;
    catalog.diagnostics.push(CatalogDiagnostic {
        code: String::from_str("resource.desktop.managed_catalog_ipc_bytes"),
        message: String::from_str("The managed session catalog was shortened to fit the desktop IPC limit."),
        limit: Some(limit as u64),
        observed: Some(bytes as u64),
    });
    assert(catalog.diagnostics@.take(diags_before.len() as int) =~= diags_before);
    let ghost marked = *catalog;
    while bytes > limit
        invariant
            catalog.status == marked.status,
            catalog.diagnostics == marked.diagnostics,
            catalog.entries@.len() <= start.entries@.len(),
            catalog.entries@ == start.entries@.take(catalog.entries@.len() as int),
            sessions.locators@ == without_keys(start_locators, trailing_locators(start.entries@, catalog.entries@.len() as int)),
            locator_ids_distinct(start_locators) ==> locator_ids_distinct(sessions.locators@),
            forall|c: &ManagedSessionCatalog| call_requires(serialized_len, (c,)),
            bytes > limit || call_ensures(serialized_len, (&*catalog,), Ok::<usize, SessionErrorPayload>(bytes)),
            start == *old(catalog),
            start_locators == old(sessions).locators@,
            call_ensures(serialized_len, (&start,), measured),
            measured matches Ok(b0) && b0 > limit && marked.status == CatalogStatus::Incomplete
                && marked.diagnostics@.len() == start.diagnostics@.len() + 1
                && marked.diagnostics@.take(start.diagnostics@.len() as int) == start.diagnostics@
                && shortened_note(marked.diagnostics@.last(), limit, b0),
        ensures
            bytes <= limit,
            call_ensures(serialized_len, (&*catalog,), Ok::<usize, SessionErrorPayload>(bytes)),
            catalog.status == marked.status,
            catalog.diagnostics == marked.diagnostics,
            catalog.entries@.len() <= start.entries@.len(),
            catalog.entries@ == start.entries@.take(catalog.entries@.len() as int),
            sessions.locators@ == without_keys(start_locators, trailing_locators(start.entries@, catalog.entries@.len() as int)),
            locator_ids_distinct(start_locators) ==> locator_ids_distinct(sessions.locators@),
        decreases catalog.entries@.len(),
    {
        let m = catalog.entries.len();
        let removed = match catalog.entries.pop() {
            Some(e) => e,
            None => {
                return Err(SessionErrorPayload::resource(
                    SessionErrorKind::Resource,
                    "resource.desktop.managed_catalog_ipc_bytes",
                    "managed_session_catalog",
                    limit as u64,
                    Some(bytes as u64),
                    "bytes",
                ));
            },
        };
        proof {
            assert(removed == start.entries@[m - 1]);
            assert(catalog.entries@ =~= start.entries@.take(m - 1));
            let ids = trailing_locators(start.entries@, m as int);
            let more = trailing_locators(start.entries@, m - 1);
            assert(more == ids + match start.entries@[m - 1].locator_id {
                Some(id) => seq![id@],
                None => Seq::<Seq<char>>::empty(),
            });
            if removed.locator_id is Some {
                assert(more.drop_last() =~= ids);
            } else {
                assert(more =~= ids);
            }
        }
        match &removed.locator_id {
            Some(id) => sessions.forget(id.as_str()),
            None => {},
        }
        let measured_now = serialized_len(catalog);
        bytes = match measured_now {
            Err(e) => return Err(e),
            Ok(b) => b,
        };
    }
    Ok(())
}

/// Shortens a catalog to the desktop IPC limit.
pub fn fit_catalog_to_ipc<F: Fn(&ManagedSessionCatalog) -> Result<usize, SessionErrorPayload>>(
    catalog: &mut ManagedSessionCatalog,
    sessions: &mut ManagedSessionsState,
    serialized_len: F,
) -> (r: Result<(), SessionErrorPayload>)
    requires
        forall|c: &ManagedSessionCatalog| call_requires(serialized_len, (c,)),
    ensures
        exists|first: Result<usize, SessionErrorPayload>| {
            &&& call_ensures(serialized_len, (&*old(catalog),), first)
            &&& match first {
                Err(e) => r == Err::<(), SessionErrorPayload>(e) && *final(catalog) == *old(catalog),
                Ok(b) => if b <= MANAGED_CATALOG_IPC_BYTES {
                    r is Ok && *final(catalog) == *old(catalog)
                } else {
                    &&& final(catalog).status == CatalogStatus::Incomplete
                    &&& final(catalog).diagnostics@.len() == old(catalog).diagnostics@.len() + 1
                    &&& final(catalog).diagnostics@.take(old(catalog).diagnostics@.len() as int) == old(catalog).diagnostics@
                    &&& shortened_note(final(catalog).diagnostics@.last(), MANAGED_CATALOG_IPC_BYTES, b)
                },
            }
        },
        exists|k: int| {
            &&& 0 <= k <= old(catalog).entries@.len()
            &&& final(catalog).entries@ == old(catalog).entries@.take(k)
            &&& final(sessions).locators@ == without_keys(old(sessions).locators@, trailing_locators(old(catalog).entries@, k))
        },
        locator_ids_distinct(old(sessions).locators@) ==> locator_ids_distinct(final(sessions).locators@),
        r is Ok ==> exists|b: usize| call_ensures(serialized_len, (&*final(catalog),), Ok::<usize, SessionErrorPayload>(b)) && b
            <= MANAGED_CATALOG_IPC_BYTES,
{
    fit_catalog_to_ipc_with_limit(catalog, sessions, MANAGED_CATALOG_IPC_BYTES, serialized_len)
}

/// `uuid::Uuid::new_v4().to_string()`: a fresh version-4 UUID as text. Its
/// value is drawn at random, so nothing is stated of it.
#[verifier::external_body]
fn random_locator_id() -> (r: String) {
    uuid::Uuid::new_v4().to_string()
}

/// The locators registered in entry order under the identifiers handed
/// out, each for the record at its position: a later registration under an
/// identifier replaces an earlier one.
pub open spec fn registered(ids: Seq<Option<String>>, records: Seq<LocatorRecord>) -> Seq<(String, LocatorRecord)>
    decreases ids.len(),
{
    if ids.len() == 0 {
        Seq::empty()
    } else {
        let rest = registered(ids.drop_last(), records);
        match ids.last() {
            Some(id) => without_key(rest, id@).push((id, records[ids.len() - 1])),
            None => rest,
        }
    }
}

/// `assigned` is `built` with the identifiers `ids` handed out: an entry
/// whose record names a bundle gets its identifier as locator; any other
/// entry, and one beyond the records, is kept as it is.
pub open spec fn locators_assigned(
    built: ManagedSessionCatalog,
    records: Seq<LocatorRecord>,
    assigned: ManagedSessionCatalog,
    ids: Seq<Option<String>>,
) -> bool {
    &&& assigned.status == built.status
    &&& assigned.diagnostics == built.diagnostics
    &&& assigned.entries@.len() == built.entries@.len()
    &&& ids.len() == built.entries@.len()
    &&& forall|k: int| #![trigger ids[k]] 0 <= k < ids.len() ==> if k < records.len() && records[k].bundle_name@.len() > 0 {
        ids[k] is Some && assigned.entries@[k] == (ManagedCatalogEntry { locator_id: ids[k], ..built.entries@[k] })
    } else {
        ids[k] is None && assigned.entries@[k] == built.entries@[k]
    }
}

/// How a catalog measured by `serialized_len` was fitted to the transfer
/// limit: kept as it was when it fit, else marked incomplete with a note.
pub open spec fn fitted<F: Fn(&ManagedSessionCatalog) -> Result<usize, SessionErrorPayload>>(
    before: ManagedSessionCatalog,
    after: ManagedSessionCatalog,
    serialized_len: F,
) -> bool {
    exists|first: Result<usize, SessionErrorPayload>| {
        &&& #[trigger] call_ensures(serialized_len, (&before,), first)
        &&& first matches Ok(b) && if b <= MANAGED_CATALOG_IPC_BYTES {
            after == before
        } else {
            &&& after.status == CatalogStatus::Incomplete
            &&& after.diagnostics@.len() == before.diagnostics@.len() + 1
            &&& after.diagnostics@.take(before.diagnostics@.len() as int) == before.diagnostics@
            &&& shortened_note(after.diagnostics@.last(), MANAGED_CATALOG_IPC_BYTES, b)
        }
    }
}

impl ManagedSessionsState {
    /// Takes over a freshly built catalog: each entry whose record names a
    /// bundle gets a fresh random locator registered for that record, the
    /// catalog is fitted to the transfer limit, and the locators are
    /// replaced by those of the fitted catalog. When fitting fails, the
    /// locators are kept as they were.
    pub fn replace_catalog<F: Fn(&ManagedSessionCatalog) -> Result<usize, SessionErrorPayload>>(
        &mut self,
        build: CatalogBuild,
        serialized_len: F,
    ) -> (r: Result<ManagedSessionCatalog, SessionErrorPayload>)
        requires
            forall|c: &ManagedSessionCatalog| call_requires(serialized_len, (c,)),
        ensures
            r is Err ==> final(self).locators@ == old(self).locators@,
            r is Ok ==> locator_ids_distinct(final(self).locators@),
            r matches Ok(c) ==> exists|assigned: ManagedSessionCatalog, ids: Seq<Option<String>>, k: int|
                #![trigger locators_assigned(build.catalog, build.records@, assigned, ids), trailing_locators(assigned.entries@, k)]
            {
                &&& locators_assigned(build.catalog, build.records@, assigned, ids)
                &&& 0 <= k <= assigned.entries@.len()
                &&& c.entries@ == assigned.entries@.take(k)
                &&& final(self).locators@ == without_keys(registered(ids, build.records@), trailing_locators(assigned.entries@, k))
                &&& fitted(assigned, ManagedSessionCatalog { entries: c.entries, ..c }, serialized_len)
                &&& exists|b: usize| call_ensures(serialized_len, (&c,), Ok::<usize, SessionErrorPayload>(b)) && b
                    <= MANAGED_CATALOG_IPC_BYTES
            },
    {
        let CatalogBuild { catalog: built, records } = build;
        let ghost built_g = built;
        let ghost recs = records@;
        let ManagedSessionCatalog { status, entries, diagnostics } = built;
        let mut remaining = entries;
        let mut records = records;
        let mut out: Vec<ManagedCatalogEntry> = Vec::new();
        let mut fresh = ManagedSessionsState { locators: Vec::new() };
        let ghost mut ids: Seq<Option<String>> = Seq::empty();
        let n = remaining.len();
        let m = records.len();
        let mut k: usize = 0;
        assert(remaining@.skip(0) =~= built_g.entries@);
        assert(records@.skip(0) =~= recs);
        while k < n
            invariant
                k <= n,
                n == built_g.entries@.len(),
                m == recs.len(),
                remaining@ == built_g.entries@.skip(k as int),
                k <= m ==> records@ == recs.skip(k as int),
                k > m ==> records@.len() == 0,
                out@.len() == k,
                ids.len() == k,
                forall|j: int| #![trigger ids[j]] 0 <= j < k ==> if j < recs.len() && recs[j].bundle_name@.len() > 0 {
                    ids[j] is Some && out@[j] == (ManagedCatalogEntry { locator_id: ids[j], ..built_g.entries@[j] })
                } else {
                    ids[j] is None && out@[j] == built_g.entries@[j]
                },
                fresh.locators@ == registered(ids, recs),
                locator_ids_distinct(fresh.locators@),
            decreases n - k,
        {
            let mut entry = remaining.remove(0);
            assert(entry == built_g.entries@[k as int]);
            assert(remaining@ =~= built_g.entries@.skip(k + 1));
            let ghost before_ids = ids;
            let ghost before_out = out@;
            if k < m {
                let record = records.remove(0);
                assert(record == recs[k as int]);
                assert(records@ =~= recs.skip(k + 1));
                if !record.bundle_name.as_str().is_empty() {
                    let id = random_locator_id();
                    let ghost g = id;
                    entry.locator_id = Some(id.clone());
                    fresh.register_created(id, record);
                    proof {
                        ids = ids.push(Some(g));
                        assert(ids.drop_last() =~= before_ids);
                    }
                } else {
                    proof {
                        ids = ids.push(None);
                        assert(ids.drop_last() =~= before_ids);
                    }
                }
            } else {
                proof {
                    ids = ids.push(None);
                    assert(ids.drop_last() =~= before_ids);
                }
            }
            out.push(entry);
            proof {
                assert forall|j: int| #![trigger ids[j]] 0 <= j < k + 1 implies if j < recs.len() && recs[j].bundle_name@.len() > 0 {
                    ids[j] is Some && out@[j] == (ManagedCatalogEntry { locator_id: ids[j], ..built_g.entries@[j] })
                } else {
                    ids[j] is None && out@[j] == built_g.entries@[j]
                } by {
                    if j < k {
                        assert(ids[j] == before_ids[j]);
                        assert(out@[j] == before_out[j]);
                    }
                }
            }
            k = k + 1;
        }
        let mut catalog = ManagedSessionCatalog { status, entries: out, diagnostics };
        let ghost assigned = catalog;
        assert(locators_assigned(built_g, recs, assigned, ids));
        let fitted_now = fit_catalog_to_ipc(&mut catalog, &mut fresh, serialized_len);
        match fitted_now {
            Err(e) => Err(e),
            Ok(()) => {
                self.locators = fresh.locators;
                assert(fitted(assigned, ManagedSessionCatalog { entries: catalog.entries, ..catalog }, serialized_len));
                Ok(catalog)
            },
        }
    }
}

/// What exporting a saved session answered.
#[derive(Debug, Clone, PartialEq, Eq)]
pub enum ExportManagedSessionOutcome {
    Cancelled,
    Exported { bundle_name: String, revision: Option<u64> },
}

/// `x` is the error `e` with the selected session's path, the managed
/// directory's path and the destination's path replaced in its detail by
/// the names the shell shows for them, in that order.
pub open spec fn paths_redacted(
    x: SessionErrorPayload,
    e: SessionErrorPayload,
    source: Seq<char>,
    root: Seq<char>,
    destination: Seq<char>,
) -> bool {
    &&& (SessionErrorPayload { detail: x.detail, ..e }) == x
    &&& x.detail@ == replace_seq(
        replace_seq(replace_seq(e.detail@, source, "selected session"@), root, "Saved sessions"@),
        destination,
        "selected destination"@,
    )
}

/// What exporting the saved session of record `rec` answers, for each
/// result in turn: `revalidate` finds the bundle's path; `select` chooses a
/// destination for it, and a cancelled choice exports nothing; the bundle is
/// revalidated again and `export` copies it from that path to the
/// destination; an export failure has the local paths redacted.
pub open spec fn managed_export_outcome<R, S, X>(
    rec: LocatorRecord,
    root: Seq<char>,
    revalidate: R,
    select: S,
    export: X,
    r: Result<ExportManagedSessionOutcome, SessionErrorPayload>,
) -> bool
    where
        R: Fn(&LocatorRecord) -> Result<String, SessionErrorPayload>,
        S: FnOnce(&str) -> Result<Option<String>, SessionErrorPayload>,
        X: FnOnce(&str, &str) -> Result<(String, Option<u64>), SessionErrorPayload>,
{
    exists|first: Result<String, SessionErrorPayload>| {
        &&& #[trigger] call_ensures(revalidate, (&rec,), first)
        &&& match first {
            Err(e) => r == Err::<ExportManagedSessionOutcome, SessionErrorPayload>(e),
            Ok(found) => exists|shown: &str, chosen: Result<Option<String>, SessionErrorPayload>| {
                &&& shown@ == found@
                &&& #[trigger] call_ensures(select, (shown,), chosen)
                &&& match chosen {
                    Err(e) => r == Err::<ExportManagedSessionOutcome, SessionErrorPayload>(e),
                    Ok(None) => r == Ok::<ExportManagedSessionOutcome, SessionErrorPayload>(ExportManagedSessionOutcome::Cancelled),
                    Ok(Some(destination)) => exists|second: Result<String, SessionErrorPayload>| {
                        &&& #[trigger] call_ensures(revalidate, (&rec,), second)
                        &&& match second {
                            Err(e) => r == Err::<ExportManagedSessionOutcome, SessionErrorPayload>(e),
                            Ok(current) => exists|from: &str, to: &str, exported: Result<(String, Option<u64>), SessionErrorPayload>| {
                                &&& from@ == current@
                                &&& to@ == destination@
                                &&& #[trigger] call_ensures(export, (from, to), exported)
                                &&& match exported {
                                    Err(e) => r matches Err(x) && paths_redacted(x, e, current@, root, destination@),
                                    Ok((bundle_name, revision)) => r == Ok::<ExportManagedSessionOutcome, SessionErrorPayload>(
                                        ExportManagedSessionOutcome::Exported { bundle_name, revision },
                                    ),
                                }
                            },
                        }
                    },
                }
            },
        }
    }
}

/// Exports the saved session a locator resolves to, to a destination that
/// `select` chooses for its current path; the bundle is revalidated before
/// the choice and again before `export` copies it.
pub fn export_managed_session_with_selection<
    R: Fn(&LocatorRecord) -> Result<String, SessionErrorPayload>,
    S: FnOnce(&str) -> Result<Option<String>, SessionErrorPayload>,
    X: FnOnce(&str, &str) -> Result<(String, Option<u64>), SessionErrorPayload>,
>(
    managed: &ManagedSessionsState,
    root: &str,
    locator_id: &str,
    revalidate: R,
    select: S,
    export: X,
) -> (r: Result<ExportManagedSessionOutcome, SessionErrorPayload>)
    requires
        forall|rec: &LocatorRecord| call_requires(revalidate, (rec,)),
        forall|p: &str| call_requires(select, (p,)),
        forall|a: &str, b: &str| call_requires(export, (a, b)),
    ensures
        !(exists|i: int| resolves_at(managed.locators@, locator_id@, i)) ==> (r matches Err(e) && unknown_locator(e)),
        (exists|i: int| resolves_at(managed.locators@, locator_id@, i)) ==> exists|rec: LocatorRecord, i: int| {
            &&& #[trigger] resolves_at(managed.locators@, locator_id@, i)
            &&& record_view(rec) == record_view(managed.locators@[i].1)
            &&& #[trigger] managed_export_outcome(rec, root@, revalidate, select, export, r)
        },
{
    let record = managed.resolve(locator_id)?;
    let first = revalidate(&record);
    let ghost first_g = first;
    proof {
        assert(call_ensures(revalidate, (&record,), first_g));
    }
    let found = match first {
        Ok(p) => p,
        Err(e) => {
            proof {
                assert(managed_export_outcome(record, root@, revalidate, select, export, Err::<ExportManagedSessionOutcome, SessionErrorPayload>(e)));
            }
            return Err(e);
        },
    };
    let shown = found.as_str();
    let chosen = select(shown);
    let ghost chosen_g = chosen;
    proof {
        assert(call_ensures(select, (shown,), chosen_g));
    }
    let destination = match chosen {
        Err(e) => {
            proof {
                assert(managed_export_outcome(record, root@, revalidate, select, export, Err::<ExportManagedSessionOutcome, SessionErrorPayload>(e)));
            }
            return Err(e);
        },
        Ok(None) => {
            proof {
                assert(managed_export_outcome(record, root@, revalidate, select, export, Ok::<ExportManagedSessionOutcome, SessionErrorPayload>(ExportManagedSessionOutcome::Cancelled)));
            }
            return Ok(ExportManagedSessionOutcome::Cancelled);
        },
        Ok(Some(d)) => d,
    };
    let second = revalidate(&record);
    let ghost second_g = second;
    proof {
        assert(call_ensures(revalidate, (&record,), second_g));
    }
    let current = match second {
        Ok(p) => p,
        Err(e) => {
            proof {
                assert(managed_export_outcome(record, root@, revalidate, select, export, Err::<ExportManagedSessionOutcome, SessionErrorPayload>(e)));
            }
            return Err(e);
        },
    };
    let from = current.as_str();
    let to = destination.as_str();
    let exported = export(from, to);
    let ghost exported_g = exported;
    proof {
        assert(call_ensures(export, (from, to), exported_g));
    }
    let r = match exported {
        Ok((bundle_name, revision)) => Ok(ExportManagedSessionOutcome::Exported { bundle_name, revision }),
        Err(e) => Err(crate::bundles::redact_paths(e, Some(from), Some(root), Some(to))),
    };
    proof {
        assert(managed_export_outcome(record, root@, revalidate, select, export, r));
    }
    r
}

/// `uuid::Uuid::new_v4().simple().to_string()`: a fresh random token of
/// hexadecimal digits. Its value is drawn at random, so nothing is stated of
/// it.
#[verifier::external_body]
fn random_staging_token() -> (r: String) {
    uuid::Uuid::new_v4().simple().to_string()
}

/// Why a verified staging copy could not be published: whether the
/// destination already existed, and the system's message.
#[derive(Debug, Clone, PartialEq, Eq)]
pub struct PublishFailure {
    pub already_exists: bool,
    pub message: String,
}

/// What importing a session into the managed directory answered.
#[derive(Debug)]
pub enum ImportManagedSessionOutcome {
    Cancelled,
    Imported { location: ManagedLocationContext },
}

/// The error of a source that could not be copied into staging.
pub open spec fn staging_copy_error(x: SessionErrorPayload, ce: crate::open_errors::CopyError) -> bool {
    exists|p: SessionErrorPayload| {
        &&& #[trigger] crate::open_errors::copy_payload(ce, p)
        &&& x.kind == p.kind
        &&& x.message@ == "The selected session could not be copied safely into Saved sessions."@
        &&& x.detail@ == p.detail@
        &&& x.operation == p.operation
        &&& x.diagnostic_persistence == p.diagnostic_persistence
    }
}

/// The error of a staging copy that could not be published.
pub open spec fn publish_error(x: SessionErrorPayload, f: PublishFailure) -> bool {
    plain_error(
        x,
        if f.already_exists { SessionErrorKind::Conflict } else { SessionErrorKind::Filesystem },
        "The verified session could not be published to Saved sessions."@,
        f.message@,
    )
}

/// `x` is `e` with the source, managed directory and staging paths redacted.
pub open spec fn import_redacted(x: SessionErrorPayload, e: SessionErrorPayload, source: Seq<char>, root: Seq<char>, staging: Seq<char>) -> bool {
    &&& (SessionErrorPayload { detail: x.detail, ..e }) == x
    &&& x.detail@ == replace_seq(
        replace_seq(replace_seq(e.detail@, source, "selected session"@), root, "Saved sessions"@),
        staging,
        "selected destination"@,
    )
}

/// What the staged import answers before its staging copy is cleaned up,
/// for each result in turn, with the locators going from `before` to
/// `after`: the source is copied into staging, the copy is validated and
/// published at the destination, and the published bundle is registered
/// under the locator `locator_id`; any failure keeps the locators.
pub open spec fn staged_import<C, V, P, I>(
    source: Seq<char>,
    root: Seq<char>,
    staging: Seq<char>,
    destination: Seq<char>,
    locator_id: Seq<char>,
    copy: C,
    validate: V,
    publish: P,
    inspect: I,
    before: Seq<(String, LocatorRecord)>,
    after: Seq<(String, LocatorRecord)>,
    r0: Result<ManagedLocationContext, SessionErrorPayload>,
) -> bool
    where
        C: FnOnce(&str, &str) -> Result<(), crate::open_errors::CopyError>,
        V: FnOnce(&str) -> Result<(), SessionErrorPayload>,
        P: FnOnce(&str, &str) -> Result<(), PublishFailure>,
        I: FnOnce(&str) -> ProjectedEntry,
{
    exists|from: &str, into: &str, copied: Result<(), crate::open_errors::CopyError>| {
        &&& from@ == source
        &&& into@ == staging
        &&& #[trigger] call_ensures(copy, (from, into), copied)
        &&& match copied {
            Err(ce) => r0 matches Err(x) && staging_copy_error(x, ce) && after == before,
            Ok(_) => exists|checked: &str, validated: Result<(), SessionErrorPayload>| {
                &&& checked@ == staging
                &&& #[trigger] call_ensures(validate, (checked,), validated)
                &&& match validated {
                    Err(e) => r0 matches Err(x) && import_redacted(x, e, source, root, staging) && after == before,
                    Ok(_) => exists|staged: &str, target: &str, published: Result<(), PublishFailure>| {
                        &&& staged@ == staging
                        &&& target@ == destination
                        &&& #[trigger] call_ensures(publish, (staged, target), published)
                        &&& match published {
                            Err(f) => r0 matches Err(x) && publish_error(x, f) && after == before,
                            Ok(_) => exists|rec: Result<LocatorRecord, SessionErrorPayload>| {
                                &&& #[trigger] created_record(root, destination, inspect, rec)
                                &&& match rec {
                                    Err(e) => r0 == Err::<ManagedLocationContext, SessionErrorPayload>(e) && after == before,
                                    Ok(record) => r0 matches Ok(loc) && {
                                        &&& loc.locator_id@ == locator_id
                                        &&& loc.bundle_name@ == record.bundle_name@
                                        &&& loc.origin_label@ == managed_origin_label()
                                        &&& exists|id: String| id@ == locator_id && after == without_key(before, locator_id).push((id, record))
                                    },
                                }
                            },
                        }
                    },
                }
            },
        }
    }
}

/// What an import answers once a failed attempt's staging copy, if it is
/// there, is removed: the attempt's answer with local paths redacted, or
/// the failure to remove the staging copy.
pub open spec fn import_cleaned_up<E, D>(
    source: Seq<char>,
    root: Seq<char>,
    staging: Seq<char>,
    staging_exists: E,
    remove_staging: D,
    r0: Result<ManagedLocationContext, SessionErrorPayload>,
    r: Result<ImportManagedSessionOutcome, SessionErrorPayload>,
) -> bool
    where
        E: FnOnce(&str) -> bool,
        D: FnOnce(&str) -> Result<(), String>,
{
    match r0 {
        Ok(loc) => r matches Ok(ImportManagedSessionOutcome::Imported { location }) && location == loc,
        Err(e) => exists|probe: &str, present: bool| {
            &&& probe@ == staging
            &&& #[trigger] call_ensures(staging_exists, (probe,), present)
            &&& if present {
                exists|removed: Result<(), String>| {
                    &&& #[trigger] call_ensures(remove_staging, (probe,), removed)
                    &&& match removed {
                        Err(m) => r matches Err(x) && plain_error(
                            x,
                            SessionErrorKind::Filesystem,
                            "The import failed and its private staging copy could not be removed."@,
                            m@,
                        ),
                        Ok(_) => r matches Err(x) && import_redacted(x, e, source, root, staging),
                    }
                }
            } else {
                r matches Err(x) && import_redacted(x, e, source, root, staging)
            }
        },
    }
}

/// Imports the session bundle at `source` into the managed directory at
/// `root`: a free destination is allocated through `occupied`; the bundle
/// is copied into a private staging directory, validated there, published
/// at the destination and registered; a failed attempt leaves no staging
/// copy behind and keeps the locators, and local paths are redacted from
/// its error.
pub fn import_managed_session_for<O, C, V, P, I, U, E, D>(
    state: &mut ManagedSessionsState,
    root: &str,
    source: &str,
    occupied: O,
    copy: C,
    validate: V,
    publish: P,
    inspect: I,
    unpublish: U,
    staging_exists: E,
    remove_staging: D,
) -> (r: Result<ImportManagedSessionOutcome, SessionErrorPayload>)
    where
        O: Fn(&str) -> bool,
        C: FnOnce(&str, &str) -> Result<(), crate::open_errors::CopyError>,
        V: FnOnce(&str) -> Result<(), SessionErrorPayload>,
        P: FnOnce(&str, &str) -> Result<(), PublishFailure>,
        I: FnOnce(&str) -> ProjectedEntry,
        U: FnOnce(&str),
        E: FnOnce(&str) -> bool,
        D: FnOnce(&str) -> Result<(), String>,
    requires
        forall|p: &str| call_requires(occupied, (p,)),
        forall|a: &str, b: &str| call_requires(copy, (a, b)),
        forall|p: &str| call_requires(validate, (p,)),
        forall|a: &str, b: &str| call_requires(publish, (a, b)),
        forall|p: &str| call_requires(inspect, (p,)),
        forall|p: &str| call_requires(unpublish, (p,)),
        forall|p: &str| call_requires(staging_exists, (p,)),
        forall|p: &str| call_requires(remove_staging, (p,)),
    ensures
        r is Err ==> final(state).locators@ == old(state).locators@,
        exists|allocated: Result<String, SessionErrorPayload>| {
            &&& #[trigger] crate::bundles::import_destination_allocated(root@, source@, occupied, allocated)
            &&& match allocated {
                Err(e) => r == Err::<ImportManagedSessionOutcome, SessionErrorPayload>(e),
                Ok(destination) => exists|staging: Seq<char>, locator_id: Seq<char>, r0: Result<ManagedLocationContext, SessionErrorPayload>| {
                    &&& #[trigger] staged_import(
                        source@,
                        root@,
                        staging,
                        destination@,
                        locator_id,
                        copy,
                        validate,
                        publish,
                        inspect,
                        old(state).locators@,
                        final(state).locators@,
                        r0,
                    )
                    &&& #[trigger] import_cleaned_up(source@, root@, staging, staging_exists, remove_staging, r0, r)
                },
            }
        },
{
    let allocated = crate::bundles::allocate_import_destination(root, source, occupied);
    let ghost allocated_g = allocated;
    let destination = match allocated {
        Ok(d) => d,
        Err(e) => return Err(e),
    };
    let suffix = match crate::bundles::bundle_suffix_for(source) {
        Ok(x) => x,
        Err(e) => {
            proof {
                assert(false);
            }
            return Err(e);
        },
    };
    let mut staging_name = owned(".import-staging-");
    let token = random_staging_token();
    push_str(&mut staging_name, token.as_str());
    push_str(&mut staging_name, suffix);
    let staging = crate::paths::path_join(root, staging_name.as_str());
    let locator_id = random_locator_id();
    let ghost id_g = locator_id@;
    let ghost before = state.locators@;
    let r0 = import_attempt(state, root, source, staging.as_str(), destination.as_str(), locator_id, copy, validate, publish, inspect, unpublish);
    let ghost r0_g = r0;
    let r = match r0 {
        Ok(location) => Ok(ImportManagedSessionOutcome::Imported { location }),
        Err(e) => {
            let probe = staging.as_str();
            let present = staging_exists(probe);
            let ghost present_g = present;
            proof {
                assert(call_ensures(staging_exists, (probe,), present_g));
            }
            if present {
                let removed = remove_staging(probe);
                let ghost removed_g = removed;
                proof {
                    assert(call_ensures(remove_staging, (probe,), removed_g));
                }
                match removed {
                    Err(m) => {
                        let x = SessionErrorPayload::new(
                            SessionErrorKind::Filesystem,
                            "The import failed and its private staging copy could not be removed.",
                            m.as_str(),
                        );
                        proof {
                            assert(import_cleaned_up(source@, root@, staging@, staging_exists, remove_staging, r0_g, Err::<ImportManagedSessionOutcome, SessionErrorPayload>(x)));
                            assert(staged_import(source@, root@, staging@, destination@, id_g, copy, validate, publish, inspect, before, state.locators@, r0_g));
                        }
                        return Err(x);
                    },
                    Ok(()) => {},
                }
            }
            Err(crate::bundles::redact_paths(e, Some(source), Some(root), Some(probe)))
        },
    };
    proof {
        assert(import_cleaned_up(source@, root@, staging@, staging_exists, remove_staging, r0_g, r));
        assert(staged_import(source@, root@, staging@, destination@, id_g, copy, validate, publish, inspect, before, state.locators@, r0_g));
    }
    r
}

/// One staged import attempt, before its staging copy is cleaned up.
fn import_attempt<C, V, P, I, U>(
    state: &mut ManagedSessionsState,
    root: &str,
    source: &str,
    staging: &str,
    destination: &str,
    locator_id: String,
    copy: C,
    validate: V,
    publish: P,
    inspect: I,
    unpublish: U,
) -> (r: Result<ManagedLocationContext, SessionErrorPayload>)
    where
        C: FnOnce(&str, &str) -> Result<(), crate::open_errors::CopyError>,
        V: FnOnce(&str) -> Result<(), SessionErrorPayload>,
        P: FnOnce(&str, &str) -> Result<(), PublishFailure>,
        I: FnOnce(&str) -> ProjectedEntry,
        U: FnOnce(&str),
    requires
        forall|a: &str, b: &str| call_requires(copy, (a, b)),
        forall|p: &str| call_requires(validate, (p,)),
        forall|a: &str, b: &str| call_requires(publish, (a, b)),
        forall|p: &str| call_requires(inspect, (p,)),
        forall|p: &str| call_requires(unpublish, (p,)),
    ensures
        r is Err ==> final(state).locators@ == old(state).locators@,
        staged_import(
            source@,
            root@,
            staging@,
            destination@,
            locator_id@,
            copy,
            validate,
            publish,
            inspect,
            old(state).locators@,
            final(state).locators@,
            r,
        ),
{
    let copied = copy(source, staging);
    let ghost copied_g = copied;
    proof {
        assert(call_ensures(copy, (source, staging), copied_g));
    }
    if let Err(ce) = copied {
        let x = crate::open_errors::copy_error_payload(ce).with_message(
            "The selected session could not be copied safely into Saved sessions.",
        );
        return Err(x);
    }
    let validated = validate(staging);
    let ghost validated_g = validated;
    proof {
        assert(call_ensures(validate, (staging,), validated_g));
    }
    if let Err(e) = validated {
        return Err(crate::bundles::redact_paths(e, Some(source), Some(root), Some(staging)));
    }
    let published = publish(staging, destination);
    let ghost published_g = published;
    proof {
        assert(call_ensures(publish, (staging, destination), published_g));
    }
    if let Err(f) = published {
        let kind = if f.already_exists { SessionErrorKind::Conflict } else { SessionErrorKind::Filesystem };
        return Err(SessionErrorPayload::new(kind, "The verified session could not be published to Saved sessions.", f.message.as_str()));
    }
    let rec = record_created(root, destination, inspect);
    let ghost rec_g = rec;
    match rec {
        Err(e) => {
            unpublish(destination);
            proof {
                assert(created_record(root@, destination@, inspect, rec_g));
            }
            Err(e)
        },
        Ok(record) => {
            let location = state.register_created(locator_id, record);
            proof {
                assert(created_record(root@, destination@, inspect, rec_g));
            }
            Ok(location)
        },
    }
}

} // verus!
