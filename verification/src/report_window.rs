//! Separate, immutable report windows: one window per session revision and
//! document kind, a bounded registry of open windows, and the document each
//! window may read.

use vstd::prelude::*;
use sha2::Digest;

use crate::control_model::SessionLifecycle;
use crate::desktop::{presentation_for_id, presentation_for_id_spec, DesktopState, pipeline_error};
use crate::errors::{plain_error, SessionErrorKind, SessionErrorPayload};
use crate::text::{dec, owned, push_char, push_str, starts_with, starts_with_seq, str_eq, u64_text};

verus! {

/// At most this many report windows are open at once.
pub const MAX_REPORT_WINDOWS: usize = 12;

/// The label prefix of every report window.
pub open spec fn report_window_prefix() -> Seq<char> {
    "report-"@
}

/// The kind of document a report window shows.
#[derive(Debug, Clone, Copy, PartialEq, Eq, Structural)]
pub enum ReportDocumentKind {
    Summary,
    FullEvidence,
}

/// The title of a document kind.
pub open spec fn kind_title(k: ReportDocumentKind) -> Seq<char> {
    match k {
        ReportDocumentKind::Summary => "Summary"@,
        ReportDocumentKind::FullEvidence => "Full evidence"@,
    }
}

impl ReportDocumentKind {
    /// The title shown for the document kind.
    pub fn title(self) -> (r: &'static str)
        ensures
            r@ == kind_title(self),
    {
        proof {
            reveal_strlit("Summary");
            reveal_strlit("Full evidence");
        }
        match self {
            ReportDocumentKind::Summary => "Summary",
            ReportDocumentKind::FullEvidence => "Full evidence",
        }
    }
}

/// The immutable document a report window reads.
#[derive(Debug, PartialEq, Eq)]
pub struct ReportWindowDocument {
    pub window_label: String,
    pub presentation_id: u64,
    pub session_id: String,
    pub bundle_name: String,
    pub revision: Option<u64>,
    pub lifecycle: Option<SessionLifecycle>,
    pub document_kind: ReportDocumentKind,
    pub html: String,
}

/// Two documents hold the same values.
pub open spec fn same_document(a: ReportWindowDocument, b: ReportWindowDocument) -> bool {
    &&& a.window_label@ == b.window_label@
    &&& a.presentation_id == b.presentation_id
    &&& a.session_id@ == b.session_id@
    &&& a.bundle_name@ == b.bundle_name@
    &&& a.revision == b.revision
    &&& a.lifecycle == b.lifecycle
    &&& a.document_kind == b.document_kind
    &&& a.html@ == b.html@
}

impl ReportWindowDocument {
    /// An independent copy of the document.
    pub fn duplicate(&self) -> (r: Self)
        ensures
            same_document(r, *self),
    {
        ReportWindowDocument {
            window_label: owned(self.window_label.as_str()),
            presentation_id: self.presentation_id,
            session_id: owned(self.session_id.as_str()),
            bundle_name: owned(self.bundle_name.as_str()),
            revision: self.revision,
            lifecycle: self.lifecycle,
            document_kind: self.document_kind,
            html: owned(self.html.as_str()),
        }
    }
}

/// Whether a report window was created or an existing one focused.
#[derive(Debug, PartialEq, Eq)]
pub enum OpenReportWindowOutcome {
    Created { window_label: String, revision: Option<u64>, document_kind: ReportDocumentKind },
    Focused { window_label: String, revision: Option<u64>, document_kind: ReportDocumentKind },
}

/// A failure of the native window operations.
#[derive(Debug, Clone, Copy, PartialEq, Eq, Structural)]
pub enum ReportWindowPortError {
    Focus,
    Create,
}

/// The native window operations a report window needs.
pub trait ReportWindowPort {
    /// Focuses the window with the label; `false` when no such window exists.
    fn focus(&self, label: &str) -> Result<bool, ReportWindowPortError>;

    /// Creates the window that shows the document.
    fn create(&self, document: &ReportWindowDocument) -> Result<(), ReportWindowPortError>;
}

/// The documents of the open report windows, one per label.
#[derive(Debug, Default)]
pub struct ReportWindowState {
    pub documents: Vec<ReportWindowDocument>,
}

/// The labels of a registry.
pub open spec fn registry_labels(d: Seq<ReportWindowDocument>) -> Seq<Seq<char>> {
    d.map_values(|x: ReportWindowDocument| x.window_label@)
}

/// No label is registered twice.
pub open spec fn labels_unique(d: Seq<ReportWindowDocument>) -> bool {
    forall|i: int, j: int| 0 <= i < j < d.len() ==> (#[trigger] d[i]).window_label@ != (#[trigger] d[j]).window_label@
}

/// The registry after one label is removed: every other document stays, in
/// order.
pub open spec fn without_label(d: Seq<ReportWindowDocument>, label: Seq<char>) -> Seq<ReportWindowDocument> {
    d.filter(|x: ReportWindowDocument| x.window_label@ != label)
}

impl ReportWindowState {
    /// Forgets the document of a window that was closed.
    pub fn remove(&mut self, label: &str)
        ensures
            final(self).documents@ == without_label(old(self).documents@, label@),
    {
        let ghost orig = self.documents@;
        let mut rest: Vec<ReportWindowDocument> = Vec::new();
        std::mem::swap(&mut rest, &mut self.documents);
        let n = rest.len();
        let mut kept: Vec<ReportWindowDocument> = Vec::new();
        let mut k: usize = 0;
        assert(orig.skip(0) =~= orig);
        reveal(Seq::filter);
        assert(orig.take(0).filter(|x: ReportWindowDocument| x.window_label@ != label@) =~= Seq::<ReportWindowDocument>::empty());
        while k < n
            invariant
                k <= n,
                n == orig.len(),
                rest@ == orig.skip(k as int),
                kept@ == orig.take(k as int).filter(|x: ReportWindowDocument| x.window_label@ != label@),
            decreases n - k,
        {
            let d = rest.remove(0);
            assert(d == orig[k as int]);
            assert(rest@ =~= orig.skip(k + 1));
            assert(orig.take(k + 1).drop_last() =~= orig.take(k as int));
            assert(orig.take(k + 1).last() == d);
            reveal(Seq::filter);
            let keep = !str_eq(d.window_label.as_str(), label);
            if keep {
                kept.push(d);
            }
            k = k + 1;
        }
        assert(orig.take(n as int) =~= orig);
        self.documents = kept;
    }

    /// Forgets every document, returning the labels of the windows to close.
    pub fn clear(&mut self) -> (r: Vec<String>)
        ensures
            final(self).documents@.len() == 0,
            r@.map_values(|s: String| s@) == registry_labels(old(self).documents@),
    {
        let mut labels: Vec<String> = Vec::new();
        let n = self.documents.len();
        for i in 0..n
            invariant
                n == self.documents@.len(),
                labels@.map_values(|s: String| s@) == registry_labels(self.documents@).take(i as int),
        {
            labels.push(owned(self.documents[i].window_label.as_str()));
            assert(registry_labels(self.documents@).take(i + 1) =~= registry_labels(self.documents@).take(i as int).push(self.documents@[i as int].window_label@));
            assert(labels@.map_values(|s: String| s@) =~= registry_labels(self.documents@).take(i as int).push(self.documents@[i as int].window_label@));
        }
        assert(registry_labels(self.documents@).take(n as int) =~= registry_labels(self.documents@));
        self.documents = Vec::new();
        labels
    }
}

/// The detail of a native window failure.
pub open spec fn port_error_detail(e: ReportWindowPortError) -> Seq<char> {
    match e {
        ReportWindowPortError::Focus => "the matching immutable report window could not be focused"@,
        ReportWindowPortError::Create => "the restricted native report window could not be created"@,
    }
}

/// A native window failure as the error the shell receives.
pub fn report_window_error(error: ReportWindowPortError) -> (r: SessionErrorPayload)
    ensures
        plain_error(
            r,
            SessionErrorKind::ReportPipeline,
            "The separate report window could not be opened."@,
            port_error_detail(error),
        ),
{
    let detail = match error {
        ReportWindowPortError::Focus => "the matching immutable report window could not be focused",
        ReportWindowPortError::Create => "the restricted native report window could not be created",
    };
    proof {
        reveal_strlit("the matching immutable report window could not be focused");
        reveal_strlit("the restricted native report window could not be created");
    }
    SessionErrorPayload::new(
        SessionErrorKind::ReportPipeline,
        "The separate report window could not be opened.",
        detail,
    )
}

/// The SHA-256 digest `sha2::Sha256::digest` computes of some bytes.
pub uninterp spec fn sha256_of(bytes: Seq<u8>) -> Seq<u8>;

/// `sha2::Sha256::digest`: the 32-byte SHA-256 digest of the bytes.
#[verifier::external_body]
pub(crate) fn sha256_digest(bytes: &[u8]) -> (r: Vec<u8>)
    ensures
        r@ == sha256_of(bytes@),
        r@.len() == 32,
{
    sha2::Sha256::digest(bytes).to_vec()
}

/// A lower-case hexadecimal digit.
pub open spec fn hex_digit(d: u8) -> char {
    if d < 10 {
        ((48 + d) as u8) as char
    } else {
        ((87 + d) as u8) as char
    }
}

/// Two lower-case hexadecimal digits per byte.
pub open spec fn hex_text(bytes: Seq<u8>) -> Seq<char>
    decreases bytes.len(),
{
    if bytes.len() == 0 {
        Seq::empty()
    } else {
        hex_text(bytes.drop_last()).push(hex_digit(bytes.last() / 16)).push(
            hex_digit(bytes.last() % 16),
        )
    }
}

fn hex_char(d: u8) -> (c: char)
    requires
        d < 16,
    ensures
        c == hex_digit(d),
{
    if d < 10 {
        (48u8 + d) as char
    } else {
        (87u8 + d) as char
    }
}

/// Each byte is written as two hexadecimal digits.
pub proof fn lemma_hex_text_len(bytes: Seq<u8>)
    ensures
        hex_text(bytes).len() == 2 * bytes.len(),
    decreases bytes.len(),
{
    if bytes.len() > 0 {
        lemma_hex_text_len(bytes.drop_last());
    }
}

pub(crate) fn hex_string(bytes: &Vec<u8>) -> (r: String)
    ensures
        r@ == hex_text(bytes@),
{
    let mut out = String::new();
    for i in 0..bytes.len()
        invariant
            out@ == hex_text(bytes@.take(i as int)),
    {
        let b = bytes[i];
        push_char(&mut out, hex_char(b / 16));
        push_char(&mut out, hex_char(b % 16));
        assert(bytes@.take(i + 1).drop_last() =~= bytes@.take(i as int));
    }
    assert(bytes@.take(bytes@.len() as int) =~= bytes@);
    out
}

/// The revision as text in a window identity: its number, or `legacy`.
pub open spec fn revision_text(revision: Option<u64>) -> Seq<char> {
    match revision {
        Some(v) => dec(v as nat),
        None => "legacy"@,
    }
}

/// The identity text of a report window.
pub open spec fn window_identity(session_id: Seq<char>, revision: Option<u64>, kind: ReportDocumentKind) -> Seq<char> {
    session_id + "\n"@ + revision_text(revision) + "\n"@ + kind_title(kind)
}

/// The label of a report window: the prefix and the hexadecimal SHA-256 of
/// the session identity, revision and document kind.
pub open spec fn window_label_spec(session_id: Seq<char>, revision: Option<u64>, kind: ReportDocumentKind) -> Seq<char> {
    report_window_prefix() + hex_text(sha256_of(vstd::utf8::encode_utf8(window_identity(session_id, revision, kind))))
}

/// The label of the window for a session revision and document kind.
pub fn report_window_label(session_id: &str, revision: Option<u64>, document_kind: ReportDocumentKind) -> (r: String)
    ensures
        r@ == window_label_spec(session_id@, revision, document_kind),
        r@.len() == 71,
{
    let mut identity = owned(session_id);
    push_str(&mut identity, "\n");
    match revision {
        Some(v) => {
            let t = u64_text(v);
            push_str(&mut identity, t.as_str());
        },
        None => push_str(&mut identity, "legacy"),
    }
    push_str(&mut identity, "\n");
    push_str(&mut identity, document_kind.title());
    proof {
        reveal_strlit("\n");
        reveal_strlit("legacy");
        reveal_strlit("report-");
    }
    let digest = sha256_digest(identity.as_str().as_bytes());
    let mut out = owned("report-");
    let hex = hex_string(&digest);
    push_str(&mut out, hex.as_str());
    proof {
        lemma_hex_text_len(digest@);
    }
    out
}

} // verus!

verus! {

/// The document a report window for a presentation and kind shows.
pub open spec fn document_html(p: crate::desktop::ReportPresentation, kind: ReportDocumentKind) -> Seq<char> {
    match kind {
        ReportDocumentKind::Summary => p.summary_html@,
        ReportDocumentKind::FullEvidence => p.report_html@,
    }
}

/// A document is the one built for a presentation of a session.
pub open spec fn document_of(
    d: ReportWindowDocument,
    session: crate::desktop::ActiveSession,
    p: crate::desktop::ReportPresentation,
    kind: ReportDocumentKind,
) -> bool {
    &&& d.window_label@ == window_label_spec(p.session_id@, p.revision, kind)
    &&& d.presentation_id == p.presentation_id
    &&& d.session_id@ == p.session_id@
    &&& d.bundle_name@ == session.summary.bundle_name@
    &&& d.revision == p.revision
    &&& d.lifecycle == p.lifecycle
    &&& d.document_kind == kind
    &&& d.html@ == document_html(p, kind)
}

/// The error when the displayed presentation is gone.
pub open spec fn displayed_gone(e: SessionErrorPayload) -> bool {
    plain_error(
        e,
        SessionErrorKind::Conflict,
        "The displayed report is no longer available."@,
        "the requested presentation does not belong to the active session"@,
    )
}

/// The document for a displayed presentation of the active session, checked
/// against the transfer limit by `check_ipc`.
pub fn selected_document<F: FnOnce(&ReportWindowDocument) -> Result<(), SessionErrorPayload>>(
    active: &DesktopState,
    displayed_presentation_id: u64,
    document_kind: ReportDocumentKind,
    check_ipc: F,
) -> (r: Result<ReportWindowDocument, SessionErrorPayload>)
    requires
        forall|d: &ReportWindowDocument| call_requires(check_ipc, (d,)),
    ensures
        match active.active {
            None => r matches Err(e) && pipeline_error(e, "no active session report is available"@),
            Some(session) => match presentation_for_id_spec(session, displayed_presentation_id) {
                None => r matches Err(e) && displayed_gone(e),
                Some(p) => exists|d: &ReportWindowDocument, c: Result<(), SessionErrorPayload>| {
                    &&& document_of(*d, session, p, document_kind)
                    &&& call_ensures(check_ipc, (d,), c)
                    &&& match c {
                        Ok(()) => r matches Ok(doc) && same_document(doc, *d),
                        Err(e) => r == Err::<ReportWindowDocument, SessionErrorPayload>(e),
                    }
                },
            },
        },
{
    let session = match &active.active {
        Some(a) => a,
        None => return Err(SessionErrorPayload::report_pipeline("no active session report is available")),
    };
    let presentation = match presentation_for_id(session, displayed_presentation_id) {
        Some(p) => p,
        None => return Err(SessionErrorPayload::new(
            SessionErrorKind::Conflict,
            "The displayed report is no longer available.",
            "the requested presentation does not belong to the active session",
        )),
    };
    let html = match document_kind {
        ReportDocumentKind::Summary => owned(presentation.summary_html.as_str()),
        ReportDocumentKind::FullEvidence => owned(presentation.report_html.as_str()),
    };
    let document = ReportWindowDocument {
        window_label: report_window_label(presentation.session_id.as_str(), presentation.revision, document_kind),
        presentation_id: presentation.presentation_id,
        session_id: owned(presentation.session_id.as_str()),
        bundle_name: owned(session.summary.bundle_name.as_str()),
        revision: presentation.revision,
        lifecycle: presentation.lifecycle,
        document_kind,
        html,
    };
    let checked = check_ipc(&document);
    match checked {
        Ok(()) => Ok(document),
        Err(e) => Err(e),
    }
}

/// The index of the document registered under a label.
fn find_label(documents: &Vec<ReportWindowDocument>, label: &str) -> (r: Option<usize>)
    ensures
        match r {
            Some(i) => i < documents@.len() && documents@[i as int].window_label@ == label@,
            None => forall|i: int| 0 <= i < documents@.len() ==> (#[trigger] documents@[i]).window_label@ != label@,
        },
{
    let mut i: usize = 0;
    while i < documents.len()
        invariant
            i <= documents@.len(),
            forall|j: int| 0 <= j < i ==> (#[trigger] documents@[j]).window_label@ != label@,
        decreases documents@.len() - i,
    {
        if str_eq(documents[i].window_label.as_str(), label) {
            return Some(i);
        }
        i = i + 1;
    }
    None
}

proof fn lemma_without_absent(d: Seq<ReportWindowDocument>, label: Seq<char>)
    requires
        forall|i: int| 0 <= i < d.len() ==> (#[trigger] d[i]).window_label@ != label,
    ensures
        without_label(d, label) == d,
    decreases d.len(),
{
    reveal(Seq::filter);
    if d.len() > 0 {
        lemma_without_absent(d.drop_last(), label);
        assert(d.drop_last().push(d.last()) =~= d);
    }
}

proof fn lemma_without_labels_unique(d: Seq<ReportWindowDocument>, label: Seq<char>)
    requires
        labels_unique(d),
    ensures
        labels_unique(without_label(d, label)),
        forall|i: int| 0 <= i < without_label(d, label).len() ==> (#[trigger] without_label(d, label)[i]).window_label@ != label,
        forall|x: ReportWindowDocument| #[trigger] without_label(d, label).contains(x) ==> d.contains(x),
    decreases d.len(),
{
    reveal(Seq::filter);
    if d.len() > 0 {
        lemma_without_labels_unique(d.drop_last(), label);
        let w = without_label(d, label);
        let w0 = without_label(d.drop_last(), label);
        if d.last().window_label@ != label {
            assert(w == w0.push(d.last()));
        } else {
            assert(w == w0);
        }
        assert forall|x: ReportWindowDocument| w.contains(x) implies d.contains(x) by {
            let k = choose|k: int| 0 <= k < w.len() && w[k] == x;
            if d.last().window_label@ != label && k == w.len() - 1 {
                assert(d[d.len() - 1] == x);
            } else {
                assert(w0[k] == x);
                assert(w0.contains(x));
                let m = choose|m: int| 0 <= m < d.drop_last().len() && d.drop_last()[m] == x;
                assert(d[m] == x);
            }
        }
        if d.last().window_label@ != label {
            assert(w == w0.push(d.last()));
            assert forall|i: int, j: int| 0 <= i < j < w.len() implies (#[trigger] w[i]).window_label@ != (#[trigger] w[j]).window_label@ by {
                if j == w.len() - 1 {
                    assert(w0.contains(w0[i]));
                    assert(d.drop_last().contains(w0[i]));
                    let k = choose|k: int| 0 <= k < d.drop_last().len() && d.drop_last()[k] == w0[i];
                    assert(d[k] == w0[i]);
                    assert(d[d.len() - 1] == d.last());
                } else {
                    assert(w[i] == w0[i]);
                    assert(w[j] == w0[j]);
                }
            }
        }
    }
}

/// Removes the document under a label from a registry in which labels are
/// unique.
fn remove_label(windows: &mut ReportWindowState, label: &str)
    requires
        labels_unique(old(windows).documents@),
    ensures
        final(windows).documents@ == without_label(old(windows).documents@, label@),
        labels_unique(final(windows).documents@),
{
    proof {
        lemma_without_labels_unique(windows.documents@, label@);
    }
    windows.remove(label);
}

/// The error when the separate-window limit is reached.
pub open spec fn window_limit_error(e: SessionErrorPayload) -> bool {
    plain_error(
        e,
        SessionErrorKind::Resource,
        "No more separate report windows can be opened."@,
        "close an existing report window before opening another; limit=12"@,
    )
}

/// A native window operation failed.
pub open spec fn port_failure(e: SessionErrorPayload) -> bool {
    ||| plain_error(e, SessionErrorKind::ReportPipeline, "The separate report window could not be opened."@, port_error_detail(ReportWindowPortError::Focus))
    ||| plain_error(e, SessionErrorKind::ReportPipeline, "The separate report window could not be opened."@, port_error_detail(ReportWindowPortError::Create))
}

/// What opening the window with `label` answers, with the registry going
/// from `before` to `after`: a registered window is focused, and stays
/// registered unless its native window is gone; otherwise, below the limit,
/// a window is created and registered last; a failed focus keeps the
/// registry; a failed creation, or the limit, is an error that leaves no
/// entry for the label behind, and a registry without the label as it was.
pub open spec fn window_opened(
    before: Seq<ReportWindowDocument>,
    after: Seq<ReportWindowDocument>,
    label: Seq<char>,
    r: Result<OpenReportWindowOutcome, SessionErrorPayload>,
) -> bool {
    let present = exists|i: int| 0 <= i < before.len() && (#[trigger] before[i]).window_label@ == label;
    let kept = without_label(before, label);
    &&& !present ==> kept == before
    &&& match r {
        Ok(OpenReportWindowOutcome::Focused { window_label, .. }) => present && after == before && window_label@ == label,
        Ok(OpenReportWindowOutcome::Created { window_label, .. }) => {
            &&& window_label@ == label
            &&& kept.len() < MAX_REPORT_WINDOWS
            &&& after.drop_last() == kept
            &&& after.len() == kept.len() + 1
        },
        Err(e) => {
            ||| present && after == before && port_failure(e)
            ||| after == kept && kept.len() >= MAX_REPORT_WINDOWS && window_limit_error(e)
            ||| after == kept && kept.len() < MAX_REPORT_WINDOWS && port_failure(e)
        },
    }
}

/// The error of a failed native window operation.
pub open spec fn port_failed(e: SessionErrorPayload, op: ReportWindowPortError) -> bool {
    plain_error(e, SessionErrorKind::ReportPipeline, "The separate report window could not be opened."@, port_error_detail(op))
}

/// What focusing the registered window `label` answers, given the port's
/// result: the focused window, `None` when its native window is gone, or
/// the port's failure.
pub fn focus_answer(
    focused: Result<bool, ReportWindowPortError>,
    label: String,
    revision: Option<u64>,
    document_kind: ReportDocumentKind,
) -> (r: Result<Option<OpenReportWindowOutcome>, SessionErrorPayload>)
    ensures
        match focused {
            Err(op) => r matches Err(e) && port_failed(e, op),
            Ok(true) => r == Ok::<Option<OpenReportWindowOutcome>, SessionErrorPayload>(
                Some(OpenReportWindowOutcome::Focused { window_label: label, revision, document_kind }),
            ),
            Ok(false) => r == Ok::<Option<OpenReportWindowOutcome>, SessionErrorPayload>(None),
        },
{
    match focused {
        Err(op) => Err(report_window_error(op)),
        Ok(true) => Ok(Some(OpenReportWindowOutcome::Focused { window_label: label, revision, document_kind })),
        Ok(false) => Ok(None),
    }
}

/// Registers the window created for `document`, given the port's result:
/// a created window is registered last and answered as created; a failed
/// creation is the port's failure, with the registry as it was.
pub fn finish_window_creation(
    windows: &mut ReportWindowState,
    document: ReportWindowDocument,
    created: Result<(), ReportWindowPortError>,
) -> (r: Result<OpenReportWindowOutcome, SessionErrorPayload>)
    requires
        labels_unique(old(windows).documents@),
        forall|i: int| 0 <= i < old(windows).documents@.len() ==> (#[trigger] old(windows).documents@[i]).window_label@
            != document.window_label@,
    ensures
        labels_unique(final(windows).documents@),
        match created {
            Err(op) => r matches Err(e) && port_failed(e, op) && final(windows).documents@ == old(windows).documents@,
            Ok(()) => {
                &&& r matches Ok(OpenReportWindowOutcome::Created { window_label, revision, document_kind })
                    && window_label@ == document.window_label@ && revision == document.revision && document_kind
                    == document.document_kind
                &&& final(windows).documents@ == old(windows).documents@.push(document)
            },
        },
{
    match created {
        Err(op) => {
            return Err(report_window_error(op));
        },
        Ok(()) => {},
    }
    let label = owned(document.window_label.as_str());
    let revision = document.revision;
    let document_kind = document.document_kind;
    let ghost before_push = windows.documents@;
    windows.documents.push(document);
    assert forall|i: int, j: int| 0 <= i < j < windows.documents@.len() implies (#[trigger] windows.documents@[i]).window_label@ != (#[trigger] windows.documents@[j]).window_label@ by {
        if j == windows.documents@.len() - 1 {
            assert(windows.documents@[i] == before_push[i]);
        } else {
            assert(windows.documents@[i] == before_push[i]);
            assert(windows.documents@[j] == before_push[j]);
        }
    }
    Ok(OpenReportWindowOutcome::Created { window_label: label, revision, document_kind })
}

/// Opens the separate window of a displayed report, from the main shell
/// only: an open window with the same immutable identity is focused; a
/// window whose native counterpart is gone is forgotten and created anew;
/// the number of open windows is bounded; and a failed creation leaves no
/// registry entry behind.
pub fn open_report_window_with<P: ReportWindowPort, F: FnOnce(&ReportWindowDocument) -> Result<(), SessionErrorPayload>>(
    active: &DesktopState,
    windows: &mut ReportWindowState,
    caller_label: &str,
    displayed_presentation_id: u64,
    document_kind: ReportDocumentKind,
    port: &P,
    check_ipc: F,
) -> (r: Result<OpenReportWindowOutcome, SessionErrorPayload>)
    requires
        labels_unique(old(windows).documents@),
        forall|d: &ReportWindowDocument| call_requires(check_ipc, (d,)),
    ensures
        labels_unique(final(windows).documents@),
        caller_label@ != "main"@ ==> (r matches Err(e) && plain_error(
            e,
            SessionErrorKind::Unsupported,
            "This window cannot open another report window."@,
            "only the main AntennaBench shell owns report-window creation"@,
        ) && final(windows).documents@ == old(windows).documents@),
        r matches Ok(OpenReportWindowOutcome::Focused { window_label, .. }) ==> {
            &&& final(windows).documents@ == old(windows).documents@
            &&& exists|i: int| 0 <= i < old(windows).documents@.len() && (#[trigger] old(windows).documents@[i]).window_label@ == window_label@
        },
        r matches Ok(OpenReportWindowOutcome::Created { window_label, document_kind: k, .. }) ==> {
            &&& k == document_kind
            &&& active.active matches Some(session) && presentation_for_id_spec(session, displayed_presentation_id) matches Some(p)
                && window_label@ == window_label_spec(p.session_id@, p.revision, document_kind)
                && final(windows).documents@.len() == without_label(old(windows).documents@, window_label@).len() + 1
                && final(windows).documents@.drop_last() == without_label(old(windows).documents@, window_label@)
                && document_of(final(windows).documents@.last(), session, p, document_kind)
            &&& without_label(old(windows).documents@, window_label@).len() < MAX_REPORT_WINDOWS
        },
        r is Err ==> forall|x: ReportWindowDocument| final(windows).documents@.contains(x) ==> old(windows).documents@.contains(x),
        caller_label@ == "main"@ ==> match active.active {
            None => r matches Err(e) && pipeline_error(e, "no active session report is available"@)
                && final(windows).documents@ == old(windows).documents@,
            Some(session) => match presentation_for_id_spec(session, displayed_presentation_id) {
                None => r matches Err(e) && displayed_gone(e) && final(windows).documents@ == old(windows).documents@,
                Some(p) => exists|d: &ReportWindowDocument, c: Result<(), SessionErrorPayload>| {
                    &&& document_of(*d, session, p, document_kind)
                    &&& #[trigger] call_ensures(check_ipc, (d,), c)
                    &&& match c {
                        Err(e) => r == Err::<OpenReportWindowOutcome, SessionErrorPayload>(e)
                            && final(windows).documents@ == old(windows).documents@,
                        Ok(()) => window_opened(
                            old(windows).documents@,
                            final(windows).documents@,
                            window_label_spec(p.session_id@, p.revision, document_kind),
                            r,
                        ),
                    }
                },
            },
        },
{
    proof {
        reveal_strlit("main");
    }
    if !str_eq(caller_label, "main") {
        return Err(SessionErrorPayload::new(
            SessionErrorKind::Unsupported,
            "This window cannot open another report window.",
            "only the main AntennaBench shell owns report-window creation",
        ));
    }
    let selected = selected_document(active, displayed_presentation_id, document_kind, check_ipc);
    let document = match selected {
        Ok(d) => d,
        Err(e) => return Err(e),
    };
    let ghost old_docs = windows.documents@;
    proof {
        if !(exists|i: int| 0 <= i < old_docs.len() && (#[trigger] old_docs[i]).window_label@ == document.window_label@) {
            lemma_without_absent(old_docs, document.window_label@);
        }
    }
    let label = owned(document.window_label.as_str());
    match find_label(&windows.documents, label.as_str()) {
        Some(i) => {
            let focused = port.focus(label.as_str());
            match focus_answer(focused, owned(label.as_str()), document.revision, document_kind) {
                Err(e) => return Err(e),
                Ok(Some(outcome)) => return Ok(outcome),
                Ok(None) => {
                    remove_label(windows, label.as_str());
                },
            }
        },
        None => {
            proof {
                lemma_without_absent(windows.documents@, label@);
            }
        },
    }
    proof {
        lemma_without_labels_unique(old_docs, label@);
    }
    assert(windows.documents@ == without_label(old_docs, label@));
    if windows.documents.len() >= MAX_REPORT_WINDOWS {
        return Err(SessionErrorPayload::new(
            SessionErrorKind::Resource,
            "No more separate report windows can be opened.",
            "close an existing report window before opening another; limit=12",
        ));
    }
    let created = port.create(&document);
    let r = finish_window_creation(windows, document, created);
    proof {
        if r is Ok {
            assert(windows.documents@.drop_last() =~= without_label(old_docs, label@));
        }
    }
    r
}

/// The immutable document of a report window; only report windows may read
/// one, and a window whose registration is gone gets a conflict.
pub fn report_window_document_for(windows: &ReportWindowState, caller_label: &str) -> (r: Result<
    ReportWindowDocument,
    SessionErrorPayload,
>)
    ensures
        !starts_with_seq(caller_label@, report_window_prefix()) ==> (r matches Err(e) && plain_error(
            e,
            SessionErrorKind::Unsupported,
            "This window cannot read a report-window presentation."@,
            "the caller is outside the restricted report-window label boundary"@,
        )),
        starts_with_seq(caller_label@, report_window_prefix()) ==> match r {
            Ok(d) => exists|i: int| 0 <= i < windows.documents@.len() && (#[trigger] windows.documents@[i]).window_label@ == caller_label@
                && same_document(d, windows.documents@[i]),
            Err(e) => (forall|i: int| 0 <= i < windows.documents@.len() ==> (#[trigger] windows.documents@[i]).window_label@ != caller_label@)
                && plain_error(
                e,
                SessionErrorKind::Conflict,
                "This report window no longer has an immutable presentation."@,
                "close the stale window and reopen the displayed report from the main shell"@,
            ),
        },
{
    proof {
        reveal_strlit("report-");
    }
    if !starts_with(caller_label, "report-") {
        return Err(SessionErrorPayload::new(
            SessionErrorKind::Unsupported,
            "This window cannot read a report-window presentation.",
            "the caller is outside the restricted report-window label boundary",
        ));
    }
    match find_label(&windows.documents, caller_label) {
        Some(i) => Ok(windows.documents[i].duplicate()),
        None => Err(SessionErrorPayload::new(
            SessionErrorKind::Conflict,
            "This report window no longer has an immutable presentation.",
            "close the stale window and reopen the displayed report from the main shell",
        )),
    }
}

} // verus!


verus! {

/// Closes every report window: the registry is emptied and `close` is asked
/// to close each window that was registered.
pub fn close_report_windows<C: Fn(&str)>(windows: &mut ReportWindowState, close: C)
    requires
        forall|label: &str| call_requires(close, (label,)),
    ensures
        final(windows).documents@.len() == 0,
{
    let labels = windows.clear();
    for i in 0..labels.len()
        invariant
            forall|label: &str| call_requires(close, (label,)),
    {
        close(labels[i].as_str());
    }
}

} // verus!
