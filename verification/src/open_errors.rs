//! The typed errors of opening, reading, copying and reporting session
//! bundles, and the payloads the shell receives for them.

use vstd::prelude::*;

use crate::bundles::{bundle_suffix, bundle_suffix_spec};
use crate::errors::{plain_error, resource_error, SessionErrorKind, SessionErrorPayload};
use crate::paths::{file_name_of, path_file_name};
use crate::text::{dec, owned, push_str, str_eq, u64_text};

use crate::conductor_state::{live_error_payload, live_payload, LivePersistenceError};

verus! {

/// A failure's message with its underlying cause, when there is one.
pub open spec fn with_source_text(message: Seq<char>, source: Option<Seq<char>>) -> Seq<char> {
    match source {
        Some(s) => message + ": "@ + s,
        None => message,
    }
}

/// The text of a failure followed by its cause.
pub fn error_with_source(message: &str, source: Option<&str>) -> (r: String)
    ensures
        r@ == with_source_text(
            message@,
            match source {
                Some(s) => Some(s@),
                None => None,
            },
        ),
{
    let mut out = owned(message);
    if let Some(s) = source {
        push_str(&mut out, ": ");
        push_str(&mut out, s);
        proof {
            reveal_strlit(": ");
        }
    }
    out
}

/// A bundle file could not be read; the detail names the file and the
/// system error.
pub fn file_error(path: &str, error: &str) -> (r: SessionErrorPayload)
    ensures
        plain_error(
            r,
            SessionErrorKind::Filesystem,
            "The selected RBN ZIP archive could not be read."@,
            path@ + ": "@ + error@,
        ),
{
    let mut detail = owned(path);
    push_str(&mut detail, ": ");
    push_str(&mut detail, error);
    proof {
        reveal_strlit(": ");
    }
    SessionErrorPayload::new(
        SessionErrorKind::Filesystem,
        "The selected RBN ZIP archive could not be read.",
        detail.as_str(),
    )
}

/// One validation diagnostic: its code, the bundle file (as its debug
/// text), and the field path when known.
#[derive(Debug, Clone, PartialEq, Eq)]
pub struct ValidationIssue {
    pub code: String,
    pub file: String,
    pub field_path: Option<String>,
}

/// The text of one validation diagnostic.
pub open spec fn issue_text(i: ValidationIssue) -> Seq<char> {
    i.code@ + " at "@ + i.file@ + match i.field_path {
        Some(f) => " "@ + f@,
        None => Seq::empty(),
    }
}

/// At most this many validation diagnostics are shown.
pub const MAX_DISPLAYED_DIAGNOSTICS: usize = 5;

/// The shown diagnostics joined with `; `.
pub open spec fn issues_text(issues: Seq<ValidationIssue>) -> Seq<char>
    decreases issues.len(),
{
    if issues.len() == 0 {
        Seq::empty()
    } else if issues.len() == 1 {
        issue_text(issues[0])
    } else {
        issues_text(issues.drop_last()) + "; "@ + issue_text(issues.last())
    }
}

/// The detail of a validation failure: the total count, the first shown
/// diagnostics, and how many more there were.
pub open spec fn validation_detail_spec(issues: Seq<ValidationIssue>, count: u64) -> Seq<char> {
    let shown = if issues.len() > MAX_DISPLAYED_DIAGNOSTICS { issues.take(MAX_DISPLAYED_DIAGNOSTICS as int) } else { issues };
    let remaining: int = if count > MAX_DISPLAYED_DIAGNOSTICS { count - MAX_DISPLAYED_DIAGNOSTICS } else { 0 };
    dec(count as nat) + " validation issue(s): "@ + issues_text(shown) + if remaining > 0 {
        "; and "@ + dec(remaining as nat) + " more"@
    } else {
        Seq::empty()
    }
}

/// Describes a validation failure.
pub fn validation_error_detail(issues: &Vec<ValidationIssue>, diagnostic_count: u64) -> (r: String)
    ensures
        r@ == validation_detail_spec(issues@, diagnostic_count),
{
    let mut out = u64_text(diagnostic_count);
    push_str(&mut out, " validation issue(s): ");
    let shown = if issues.len() > MAX_DISPLAYED_DIAGNOSTICS { MAX_DISPLAYED_DIAGNOSTICS } else { issues.len() };
    let ghost shown_seq = issues@.take(shown as int);
    let ghost prefix = out@;
    let mut i: usize = 0;
    while i < shown
        invariant
            i <= shown,
            shown <= issues@.len(),
            shown_seq == issues@.take(shown as int),
            out@ == prefix + issues_text(shown_seq.take(i as int)),
        decreases shown - i,
    {
        if i > 0 {
            push_str(&mut out, "; ");
        }
        let issue = &issues[i];
        push_str(&mut out, issue.code.as_str());
        push_str(&mut out, " at ");
        push_str(&mut out, issue.file.as_str());
        if let Some(f) = &issue.field_path {
            push_str(&mut out, " ");
            push_str(&mut out, f.as_str());
        }
        proof {
            reveal_strlit("; ");
            reveal_strlit(" at ");
            reveal_strlit(" ");
            assert(shown_seq.take(i + 1).drop_last() =~= shown_seq.take(i as int));
            assert(shown_seq.take(i + 1).last() == issues@[i as int]);
            if i == 0 {
                assert(shown_seq.take(1).len() == 1);
                assert(shown_seq.take(0) =~= Seq::<ValidationIssue>::empty());
            }
        }
        i = i + 1;
    }
    assert(shown_seq.take(shown as int) =~= shown_seq);
    assert(shown_seq == (if issues@.len() > MAX_DISPLAYED_DIAGNOSTICS { issues@.take(MAX_DISPLAYED_DIAGNOSTICS as int) } else { issues@ })) by {
        if issues@.len() <= MAX_DISPLAYED_DIAGNOSTICS {
            assert(issues@.take(issues@.len() as int) =~= issues@);
        }
    }
    if diagnostic_count > MAX_DISPLAYED_DIAGNOSTICS as u64 {
        push_str(&mut out, "; and ");
        let rest = u64_text(diagnostic_count - MAX_DISPLAYED_DIAGNOSTICS as u64);
        push_str(&mut out, rest.as_str());
        push_str(&mut out, " more");
        proof {
            reveal_strlit("; and ");
            reveal_strlit(" more");
        }
    }
    proof {
        reveal_strlit(" validation issue(s): ");
    }
    out
}

/// A storage failure while reading a bundle, as plain values: the rendered
/// texts of its parts.
#[derive(Debug, Clone, PartialEq, Eq)]
pub enum StoreError {
    ParseJson { path: String, source: String },
    AmbiguousManifest { message: String },
    Validation { issues: Vec<ValidationIssue>, diagnostic_count: u64 },
    UnsupportedSchemaVersion { actual: u16 },
    Resource { code: String, stage: String, limit: u64, observed: Option<u64>, unit: String },
    Other { message: String, source: Option<String> },
}

/// The kind of a resource stop: a cancellation or a resource limit.
pub open spec fn resource_kind(code: Seq<char>) -> SessionErrorKind {
    if code == "resource.operation.cancelled"@ {
        SessionErrorKind::Cancelled
    } else {
        SessionErrorKind::Resource
    }
}

/// The payload of a storage failure.
pub open spec fn storage_payload(e: StoreError, p: SessionErrorPayload) -> bool {
    match e {
        StoreError::ParseJson { path, source } => plain_error(p, SessionErrorKind::JsonParse, "A bundle file contains invalid JSON."@, path@ + ": "@ + source@),
        StoreError::AmbiguousManifest { message } => plain_error(p, SessionErrorKind::JsonParse, "The bundle manifest is invalid or ambiguous."@, message@),
        StoreError::Validation { issues, diagnostic_count } => plain_error(p, SessionErrorKind::Validation, "The session bundle did not pass validation."@, validation_detail_spec(issues@, diagnostic_count)),
        StoreError::UnsupportedSchemaVersion { actual } => plain_error(p, SessionErrorKind::Unsupported, "This session bundle schema is not supported by this AntennaBench version."@, "unsupported schema version "@ + dec(actual as nat)),
        StoreError::Resource { code, stage, limit, observed, unit } => resource_error(p, resource_kind(code@), code@, stage@, limit, observed, unit@),
        StoreError::Other { message, source } => plain_error(p, SessionErrorKind::Filesystem, "The session bundle could not be read."@, with_source_text(message@, match source {
            Some(s) => Some(s@),
            None => None,
        })),
    }
}

fn resource_stop(code: &str, stage: &str, limit: u64, observed: Option<u64>, unit: &str) -> (r: SessionErrorPayload)
    ensures
        resource_error(r, resource_kind(code@), code@, stage@, limit, observed, unit@),
{
    proof {
        reveal_strlit("resource.operation.cancelled");
    }
    let kind = if str_eq(code, "resource.operation.cancelled") {
        SessionErrorKind::Cancelled
    } else {
        SessionErrorKind::Resource
    };
    SessionErrorPayload::resource(kind, code, stage, limit, observed, unit)
}

/// The payload the shell receives for a storage failure.
pub fn storage_error_payload(error: StoreError) -> (r: SessionErrorPayload)
    ensures
        storage_payload(error, r),
{
    match error {
        StoreError::ParseJson { path, source } => {
            let mut detail = path;
            push_str(&mut detail, ": ");
            push_str(&mut detail, source.as_str());
            proof {
                reveal_strlit(": ");
            }
            SessionErrorPayload::new(SessionErrorKind::JsonParse, "A bundle file contains invalid JSON.", detail.as_str())
        },
        StoreError::AmbiguousManifest { message } => SessionErrorPayload::new(
            SessionErrorKind::JsonParse,
            "The bundle manifest is invalid or ambiguous.",
            message.as_str(),
        ),
        StoreError::Validation { issues, diagnostic_count } => {
            let detail = validation_error_detail(&issues, diagnostic_count);
            SessionErrorPayload::new(SessionErrorKind::Validation, "The session bundle did not pass validation.", detail.as_str())
        },
        StoreError::UnsupportedSchemaVersion { actual } => {
            let mut detail = owned("unsupported schema version ");
            let v = u64_text(actual as u64);
            push_str(&mut detail, v.as_str());
            proof {
                reveal_strlit("unsupported schema version ");
            }
            SessionErrorPayload::new(
                SessionErrorKind::Unsupported,
                "This session bundle schema is not supported by this AntennaBench version.",
                detail.as_str(),
            )
        },
        StoreError::Resource { code, stage, limit, observed, unit } => resource_stop(code.as_str(), stage.as_str(), limit, observed, unit.as_str()),
        StoreError::Other { message, source } => {
            let detail = match &source {
                Some(s) => error_with_source(message.as_str(), Some(s.as_str())),
                None => error_with_source(message.as_str(), None),
            };
            SessionErrorPayload::new(SessionErrorKind::Filesystem, "The session bundle could not be read.", detail.as_str())
        },
    }
}

/// A failure to copy a bundle, as plain values.
#[derive(Debug, Clone, PartialEq, Eq)]
pub enum CopyError {
    Source { source: StoreError },
    DestinationExists { path: String },
    DestinationInsideSource { path: String },
    PrepareDestination { message: String, source: Option<String> },
    Verification { message: String, source: Option<String> },
    UnsupportedSourceEntry { message: String },
    CleanupFailed { message: String, source: Option<String> },
    Other { message: String, source: Option<String> },
}

/// The optional view of an optional cause.
pub open spec fn source_view(s: Option<String>) -> Option<Seq<char>> {
    match s {
        Some(x) => Some(x@),
        None => None,
    }
}

/// The payload of a copy failure.
pub open spec fn copy_payload(e: CopyError, p: SessionErrorPayload) -> bool {
    match e {
        CopyError::Source { source } => storage_payload(source, p),
        CopyError::DestinationExists { path } => plain_error(p, SessionErrorKind::Destination, "A file or directory already exists at that destination."@, path@),
        CopyError::DestinationInsideSource { path } => plain_error(p, SessionErrorKind::Destination, "Choose a destination outside the active source bundle."@, path@),
        CopyError::PrepareDestination { message, source } => plain_error(p, SessionErrorKind::Destination, "The export destination could not be prepared."@, with_source_text(message@, source_view(source))),
        CopyError::Verification { message, source } => plain_error(p, SessionErrorKind::Verification, "The exported copy did not pass verification and was removed."@, with_source_text(message@, source_view(source))),
        CopyError::UnsupportedSourceEntry { message } => plain_error(p, SessionErrorKind::Filesystem, "The source contains an unsafe filesystem entry and was not exported."@, message@),
        CopyError::CleanupFailed { message, source } => plain_error(p, SessionErrorKind::Filesystem, "The export failed, and its incomplete destination could not be removed."@, with_source_text(message@, source_view(source))),
        CopyError::Other { message, source } => plain_error(p, SessionErrorKind::Filesystem, "The session bundle could not be copied."@, with_source_text(message@, source_view(source))),
    }
}

fn with_source(message: &String, source: &Option<String>) -> (r: String)
    ensures
        r@ == with_source_text(message@, source_view(*source)),
{
    match source {
        Some(s) => error_with_source(message.as_str(), Some(s.as_str())),
        None => error_with_source(message.as_str(), None),
    }
}

/// The payload the shell receives for a copy failure.
pub fn copy_error_payload(error: CopyError) -> (r: SessionErrorPayload)
    ensures
        copy_payload(error, r),
{
    match error {
        CopyError::Source { source } => storage_error_payload(source),
        CopyError::DestinationExists { path } => SessionErrorPayload::new(
            SessionErrorKind::Destination,
            "A file or directory already exists at that destination.",
            path.as_str(),
        ),
        CopyError::DestinationInsideSource { path } => SessionErrorPayload::new(
            SessionErrorKind::Destination,
            "Choose a destination outside the active source bundle.",
            path.as_str(),
        ),
        CopyError::PrepareDestination { message, source } => {
            let d = with_source(&message, &source);
            SessionErrorPayload::new(SessionErrorKind::Destination, "The export destination could not be prepared.", d.as_str())
        },
        CopyError::Verification { message, source } => {
            let d = with_source(&message, &source);
            SessionErrorPayload::new(SessionErrorKind::Verification, "The exported copy did not pass verification and was removed.", d.as_str())
        },
        CopyError::UnsupportedSourceEntry { message } => SessionErrorPayload::new(
            SessionErrorKind::Filesystem,
            "The source contains an unsafe filesystem entry and was not exported.",
            message.as_str(),
        ),
        CopyError::CleanupFailed { message, source } => {
            let d = with_source(&message, &source);
            SessionErrorPayload::new(SessionErrorKind::Filesystem, "The export failed, and its incomplete destination could not be removed.", d.as_str())
        },
        CopyError::Other { message, source } => {
            let d = with_source(&message, &source);
            SessionErrorPayload::new(SessionErrorKind::Filesystem, "The session bundle could not be copied.", d.as_str())
        },
    }
}

/// A failure of the report pipeline, as plain values.
#[derive(Debug, Clone, PartialEq, Eq)]
pub enum ReportError {
    InvalidBundle { issues: Vec<ValidationIssue>, diagnostic_count: u64 },
    Analysis { message: String },
    Resource { code: String, stage: String, limit: u64, observed: Option<u64>, unit: String },
    Serialization { message: String },
}

/// The payload of a report failure.
pub open spec fn report_payload(e: ReportError, p: SessionErrorPayload) -> bool {
    match e {
        ReportError::InvalidBundle { issues, diagnostic_count } => plain_error(p, SessionErrorKind::Validation, "The normalized session was not valid for reporting."@, validation_detail_spec(issues@, diagnostic_count)),
        ReportError::Analysis { message } => plain_error(p, SessionErrorKind::Analysis, "The session evidence could not be analyzed."@, message@),
        ReportError::Resource { code, stage, limit, observed, unit } => resource_error(p, resource_kind(code@), code@, stage@, limit, observed, unit@),
        ReportError::Serialization { message } => plain_error(p, SessionErrorKind::ReportPipeline, "The local report could not be serialized."@, message@),
    }
}

/// The payload the shell receives for a report failure.
pub fn report_error_payload(error: ReportError) -> (r: SessionErrorPayload)
    ensures
        report_payload(error, r),
{
    match error {
        ReportError::InvalidBundle { issues, diagnostic_count } => {
            let detail = validation_error_detail(&issues, diagnostic_count);
            SessionErrorPayload::new(SessionErrorKind::Validation, "The normalized session was not valid for reporting.", detail.as_str())
        },
        ReportError::Analysis { message } => SessionErrorPayload::new(
            SessionErrorKind::Analysis,
            "The session evidence could not be analyzed.",
            message.as_str(),
        ),
        ReportError::Resource { code, stage, limit, observed, unit } => resource_stop(code.as_str(), stage.as_str(), limit, observed, unit.as_str()),
        ReportError::Serialization { message } => SessionErrorPayload::new(
            SessionErrorKind::ReportPipeline,
            "The local report could not be serialized.",
            message.as_str(),
        ),
    }
}

/// Why a bundle could not be opened.
#[derive(Debug, Clone, PartialEq, Eq)]
pub enum OpenSessionError {
    InvalidBundleSelection { name: String },
    Storage(StoreError),
    Live(LivePersistenceError),
    SnapshotChanged,
}

/// The payload of an open failure.
pub open spec fn open_payload(e: OpenSessionError, p: SessionErrorPayload) -> bool {
    match e {
        OpenSessionError::InvalidBundleSelection { name } => plain_error(p, SessionErrorKind::Selection, "Choose a .session.antennabundle or .session.wsprabundle directory."@, "Selected directory: "@ + name@),
        OpenSessionError::Storage(s) => storage_payload(s, p),
        OpenSessionError::Live(l) => live_payload(l, p),
        OpenSessionError::SnapshotChanged => plain_error(p, SessionErrorKind::StaleRevision, "The session changed while its coherent snapshot was being prepared."@, "the prior presentation remains available; retry the refresh"@),
    }
}

/// The payload the shell receives for an open failure.
pub fn open_session_error_payload(error: OpenSessionError) -> (r: SessionErrorPayload)
    ensures
        open_payload(error, r),
{
    match error {
        OpenSessionError::InvalidBundleSelection { name } => {
            let mut detail = owned("Selected directory: ");
            push_str(&mut detail, name.as_str());
            proof {
                reveal_strlit("Selected directory: ");
            }
            SessionErrorPayload::new(
                SessionErrorKind::Selection,
                "Choose a .session.antennabundle or .session.wsprabundle directory.",
                detail.as_str(),
            )
        },
        OpenSessionError::Storage(s) => storage_error_payload(s),
        OpenSessionError::Live(l) => live_error_payload(l),
        OpenSessionError::SnapshotChanged => SessionErrorPayload::new(
            SessionErrorKind::StaleRevision,
            "The session changed while its coherent snapshot was being prepared.",
            "the prior presentation remains available; retry the refresh",
        ),
    }
}

/// Why a bundle could not be exported.
#[derive(Debug, Clone, PartialEq, Eq)]
pub enum ExportSessionError {
    NoActiveSession,
    InvalidDestination { name: String },
    Copy(CopyError),
    Live(LivePersistenceError),
}

/// The payload of an export failure.
pub open spec fn export_payload(e: ExportSessionError, p: SessionErrorPayload) -> bool {
    match e {
        ExportSessionError::NoActiveSession => plain_error(p, SessionErrorKind::ReportPipeline, "Open a session bundle before exporting a copy."@, "no active session is available"@),
        ExportSessionError::InvalidDestination { name } => plain_error(p, SessionErrorKind::Destination, "Keep the source bundle's .session.antennabundle or .session.wsprabundle suffix."@, "Selected destination: "@ + name@),
        ExportSessionError::Copy(c) => copy_payload(c, p),
        ExportSessionError::Live(l) => live_payload(l, p),
    }
}

/// The payload the shell receives for an export failure.
pub fn export_session_error_payload(error: ExportSessionError) -> (r: SessionErrorPayload)
    ensures
        export_payload(error, r),
{
    match error {
        ExportSessionError::NoActiveSession => SessionErrorPayload::new(
            SessionErrorKind::ReportPipeline,
            "Open a session bundle before exporting a copy.",
            "no active session is available",
        ),
        ExportSessionError::InvalidDestination { name } => {
            let mut detail = owned("Selected destination: ");
            push_str(&mut detail, name.as_str());
            proof {
                reveal_strlit("Selected destination: ");
            }
            SessionErrorPayload::new(
                SessionErrorKind::Destination,
                "Keep the source bundle's .session.antennabundle or .session.wsprabundle suffix.",
                detail.as_str(),
            )
        },
        ExportSessionError::Copy(c) => copy_error_payload(c),
        ExportSessionError::Live(l) => live_error_payload(l),
    }
}

/// The name under which a selected path is opened: its file name when it
/// carries a recognized bundle suffix; otherwise the selection is refused,
/// naming the file (or the whole path when it has no file name).
pub open spec fn bundle_selection_spec(path: Seq<char>) -> Result<Seq<char>, Seq<char>> {
    match file_name_of(path) {
        Some(name) => if bundle_suffix_spec(name) is Some {
            Ok(name)
        } else {
            Err(name)
        },
        None => Err(path),
    }
}

/// Checks that a selected path names a session bundle before it is read.
pub fn open_bundle_selection(path: &str) -> (r: Result<String, OpenSessionError>)
    ensures
        match bundle_selection_spec(path@) {
            Ok(name) => r matches Ok(n) && n@ == name,
            Err(name) => r matches Err(OpenSessionError::InvalidBundleSelection { name: n }) && n@ == name,
        },
{
    match path_file_name(path) {
        Some(name) => if bundle_suffix(name.as_str()).is_some() {
            Ok(name)
        } else {
            Err(OpenSessionError::InvalidBundleSelection { name })
        },
        None => Err(OpenSessionError::InvalidBundleSelection { name: owned(path) }),
    }
}

} // verus!
