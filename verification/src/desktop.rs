//! The desktop's active-session state: single-flight foreground admission,
//! presentation identities, pending report replacements, and the report
//! documents handed to the shell.

use vstd::prelude::*;

use crate::control_model::SessionLifecycle;
use crate::errors::{plain_error, resource_error, SessionErrorKind, SessionErrorPayload};
use crate::paths::{file_name_of, path_file_name};
use crate::text::{
    byte_len, byte_length, chars_of, ends_with, ends_with_seq, owned, prefix_string, push_char,
    push_str, str_eq, opt_view, clone_opt,
};

verus! {

/// The largest report document handed to the shell.
pub const REPORT_DOCUMENT_IPC_BYTES: u64 = 16777216;

/// A displayed report file name keeps at most this many characters.
pub const REPORT_DISPLAY_FILE_NAME_CHARS: usize = 160;

/// The derived HTML documents of one committed report snapshot.
#[derive(Debug, PartialEq, Eq)]
pub struct ReportPresentation {
    pub presentation_id: u64,
    pub session_id: String,
    pub revision: Option<u64>,
    pub lifecycle: Option<SessionLifecycle>,
    pub has_controller_evidence: bool,
    pub report_html: String,
    pub summary_html: String,
    pub compact_summary_html: String,
    pub controller_omitted_report_html: Option<String>,
    pub operational_history_report_html: String,
    pub operational_history_controller_omitted_report_html: Option<String>,
}

/// Two presentations hold the same values.
pub open spec fn same_presentation(a: ReportPresentation, b: ReportPresentation) -> bool {
    &&& a.presentation_id == b.presentation_id
    &&& a.session_id@ == b.session_id@
    &&& a.revision == b.revision
    &&& a.lifecycle == b.lifecycle
    &&& a.has_controller_evidence == b.has_controller_evidence
    &&& a.report_html@ == b.report_html@
    &&& a.summary_html@ == b.summary_html@
    &&& a.compact_summary_html@ == b.compact_summary_html@
    &&& opt_view(a.controller_omitted_report_html) == opt_view(b.controller_omitted_report_html)
    &&& a.operational_history_report_html@ == b.operational_history_report_html@
    &&& opt_view(a.operational_history_controller_omitted_report_html) == opt_view(
        b.operational_history_controller_omitted_report_html,
    )
}

impl ReportPresentation {
    /// An independent copy of the presentation.
    pub fn duplicate(&self) -> (r: Self)
        ensures
            same_presentation(r, *self),
    {
        ReportPresentation {
            presentation_id: self.presentation_id,
            session_id: owned(self.session_id.as_str()),
            revision: self.revision,
            lifecycle: self.lifecycle,
            has_controller_evidence: self.has_controller_evidence,
            report_html: owned(self.report_html.as_str()),
            summary_html: owned(self.summary_html.as_str()),
            compact_summary_html: owned(self.compact_summary_html.as_str()),
            controller_omitted_report_html: clone_opt(&self.controller_omitted_report_html),
            operational_history_report_html: owned(self.operational_history_report_html.as_str()),
            operational_history_controller_omitted_report_html: clone_opt(
                &self.operational_history_controller_omitted_report_html,
            ),
        }
    }
}

/// The summary of an opened session shown by the shell.
#[derive(Debug, PartialEq, Eq)]
pub struct OpenedSession {
    pub bundle_name: String,
    pub session_id: String,
    pub callsign: String,
    pub grid: String,
    pub antenna_count: usize,
    pub slot_count: usize,
    pub observation_count: usize,
    pub schema_version: u16,
    pub revision: Option<u64>,
    pub lifecycle: Option<SessionLifecycle>,
    pub report_available: bool,
}

/// Two summaries hold the same values.
pub open spec fn same_summary(a: OpenedSession, b: OpenedSession) -> bool {
    &&& a.bundle_name@ == b.bundle_name@
    &&& a.session_id@ == b.session_id@
    &&& a.callsign@ == b.callsign@
    &&& a.grid@ == b.grid@
    &&& a.antenna_count == b.antenna_count
    &&& a.slot_count == b.slot_count
    &&& a.observation_count == b.observation_count
    &&& a.schema_version == b.schema_version
    &&& a.revision == b.revision
    &&& a.lifecycle == b.lifecycle
    &&& a.report_available == b.report_available
}

impl OpenedSession {
    /// An independent copy of the summary.
    pub fn duplicate(&self) -> (r: Self)
        ensures
            same_summary(r, *self),
    {
        OpenedSession {
            bundle_name: owned(self.bundle_name.as_str()),
            session_id: owned(self.session_id.as_str()),
            callsign: owned(self.callsign.as_str()),
            grid: owned(self.grid.as_str()),
            antenna_count: self.antenna_count,
            slot_count: self.slot_count,
            observation_count: self.observation_count,
            schema_version: self.schema_version,
            revision: self.revision,
            lifecycle: self.lifecycle,
            report_available: self.report_available,
        }
    }
}

/// The open session: where it was opened from, its summary, its current
/// report presentation and the presentation still shown before a refresh.
#[derive(Debug)]
pub struct ActiveSession {
    pub source: String,
    pub summary: OpenedSession,
    pub presentation: Option<ReportPresentation>,
    pub retained_presentation: Option<ReportPresentation>,
}

/// The derived documents that can be exported.
#[derive(Debug, Clone, Copy, PartialEq, Eq, Structural)]
pub enum ReportExportFormat {
    CompactSummaryHtml,
    FullEvidenceHtml,
}

/// Whether controller details appear in a full report export.
#[derive(Debug, Clone, Copy, PartialEq, Eq, Structural)]
pub enum ControllerEvidenceHandling {
    Complete,
    OmittedAtExport,
}

/// Whether the redacted operational history appears in a full report export.
#[derive(Debug, Clone, Copy, PartialEq, Eq, Structural)]
pub enum OperationalHistoryHandling {
    Omitted,
    IncludedRedacted,
}

/// The identity of an existing report file when its replacement was
/// prepared; a replacement is confirmed only if the file is still the same.
#[derive(Debug, Clone, PartialEq, Eq)]
pub struct ReportDestinationIdentity {
    pub length: u64,
    pub modified_nanos: Option<u128>,
    pub device: u64,
    pub inode: u64,
    pub changed_seconds: i64,
    pub changed_nanos: i64,
    pub content_digest: Vec<u8>,
}

/// A report replacement waiting for the operator's confirmation.
#[derive(Debug)]
pub struct PendingReportExport {
    pub pending_export_id: String,
    pub destination: String,
    pub destination_identity: ReportDestinationIdentity,
    pub file_name: String,
    pub presentation_id: u64,
    pub session_id: String,
    pub revision: Option<u64>,
    pub format: ReportExportFormat,
    pub html: String,
}

/// The outcome of a report export request.
#[derive(Debug, PartialEq, Eq)]
pub enum ExportReportOutcome {
    Cancelled,
    Exported { file_name: String, revision: Option<u64>, format: ReportExportFormat },
    ConfirmationRequired {
        pending_export_id: String,
        file_name: String,
        revision: Option<u64>,
        format: ReportExportFormat,
    },
}

/// Everything the desktop remembers about the active session.
#[derive(Debug)]
pub struct DesktopState {
    pub active: Option<ActiveSession>,
    pub export_source: Option<String>,
    pub pending_report_export: Option<PendingReportExport>,
    pub foreground_busy: bool,
    pub next_presentation_id: u64,
}

impl Default for DesktopState {
    fn default() -> (r: Self)
        ensures
            r.active is None,
            r.export_source is None,
            r.pending_report_export is None,
            !r.foreground_busy,
            r.next_presentation_id == 0,
    {
        DesktopState {
            active: None,
            export_source: None,
            pending_report_export: None,
            foreground_busy: false,
            next_presentation_id: 0,
        }
    }
}

/// The error of a second concurrent foreground operation.
pub open spec fn busy_error(e: SessionErrorPayload) -> bool {
    resource_error(
        e,
        SessionErrorKind::Busy,
        "resource.operation.busy"@,
        "foreground"@,
        1,
        Some(2u64),
        "operations"@,
    )
}

fn foreground_busy_error() -> (r: SessionErrorPayload)
    ensures
        busy_error(r),
{
    SessionErrorPayload::resource(
        SessionErrorKind::Busy,
        "resource.operation.busy",
        "foreground",
        1,
        Some(2),
        "operations",
    )
}

/// The state with the foreground flag set as given.
pub open spec fn with_busy(s: DesktopState, busy: bool) -> DesktopState {
    DesktopState { foreground_busy: busy, ..s }
}

/// What a waiting operation finds: the state it takes the foreground in,
/// or `None` while another operation holds it and it keeps waiting.
pub open spec fn take_step(s: DesktopState) -> Option<DesktopState> {
    if s.foreground_busy {
        None
    } else {
        Some(with_busy(s, true))
    }
}

/// What a suspended operation finds when it takes the foreground back: the
/// state it resumes in, or `None` while an operation it let in still runs.
pub open spec fn resume_step(s: DesktopState) -> Option<DesktopState> {
    if s.foreground_busy {
        None
    } else {
        Some(with_busy(s, true))
    }
}

/// Two states agree on everything but the foreground flag.
pub open spec fn same_but_busy(a: DesktopState, b: DesktopState) -> bool {
    (DesktopState { foreground_busy: b.foreground_busy, ..a }) == b
}

impl DesktopState {
    /// Admits one foreground operation at a time: a second one is refused
    /// with a busy error while the first runs.
    pub fn begin_foreground(&mut self) -> (r: Result<(), SessionErrorPayload>)
        ensures
            old(self).foreground_busy ==> (r matches Err(e) && busy_error(e) && *final(self)
                == *old(self)),
            !old(self).foreground_busy ==> (r is Ok && final(self).foreground_busy && same_but_busy(
                *old(self),
                *final(self),
            )),
    {
        if self.foreground_busy {
            return Err(foreground_busy_error());
        }
        self.foreground_busy = true;
        Ok(())
    }

    /// Ends the running foreground operation.
    pub fn end_foreground(&mut self)
        ensures
            !final(self).foreground_busy,
            same_but_busy(*old(self), *final(self)),
    {
        self.foreground_busy = false;
    }

    /// Lets other foreground work run while the current operation waits on
    /// something outside it; only a running operation can be suspended.
    pub fn suspend_foreground(&mut self) -> (r: Result<(), SessionErrorPayload>)
        ensures
            !old(self).foreground_busy ==> (r matches Err(e) && plain_error(
                e,
                SessionErrorKind::ReportPipeline,
                "The local report could not be prepared."@,
                "cannot suspend an inactive foreground operation"@,
            ) && *final(self) == *old(self)),
            old(self).foreground_busy ==> (r is Ok && !final(self).foreground_busy && same_but_busy(
                *old(self),
                *final(self),
            )),
    {
        if !self.foreground_busy {
            return Err(SessionErrorPayload::report_pipeline("cannot suspend an inactive foreground operation"));
        }
        self.foreground_busy = false;
        Ok(())
    }

    /// Takes the foreground for a waiting operation when no other holds it;
    /// `false` means the caller keeps waiting, with nothing changed.
    pub fn try_take_foreground(&mut self) -> (r: bool)
        ensures
            r == take_step(*old(self)) is Some,
            r ==> *final(self) == take_step(*old(self))->Some_0,
            !r ==> *final(self) == *old(self),
    {
        if self.foreground_busy {
            return false;
        }
        self.foreground_busy = true;
        true
    }

    /// Takes the foreground back for a suspended operation once the
    /// operation it let in has ended; `false` means it keeps waiting, with
    /// nothing changed.
    pub fn try_resume_foreground(&mut self) -> (r: bool)
        ensures
            r == resume_step(*old(self)) is Some,
            r ==> *final(self) == resume_step(*old(self))->Some_0,
            !r ==> *final(self) == *old(self),
    {
        if self.foreground_busy {
            return false;
        }
        self.foreground_busy = true;
        true
    }

    /// Takes the foreground back once no other operation holds it.
    pub fn resume_foreground(&mut self)
        requires
            !old(self).foreground_busy,
        ensures
            final(self).foreground_busy,
            same_but_busy(*old(self), *final(self)),
    {
        self.foreground_busy = true;
    }

    /// Gives a newly activated session's presentation the next identity and
    /// drops any pending report replacement.
    pub fn assign_presentation_id(&mut self, session: &mut ActiveSession)
        ensures
            final(self).pending_report_export is None,
            final(self).active == old(self).active,
            final(self).export_source == old(self).export_source,
            final(self).foreground_busy == old(self).foreground_busy,
            final(session).source == old(session).source,
            final(session).summary == old(session).summary,
            final(session).retained_presentation == old(session).retained_presentation,
            match old(session).presentation {
                None => final(session).presentation is None && final(self).next_presentation_id
                    == old(self).next_presentation_id,
                Some(p) => {
                    let next = if old(self).next_presentation_id == u64::MAX {
                        u64::MAX
                    } else {
                        (old(self).next_presentation_id + 1) as u64
                    };
                    &&& final(self).next_presentation_id == next
                    &&& final(session).presentation matches Some(q) && q == (ReportPresentation {
                        presentation_id: next,
                        ..p
                    })
                },
            },
    {
        self.pending_report_export = None;
        match session.presentation.take() {
            Some(mut p) => {
                self.next_presentation_id = self.next_presentation_id.saturating_add(1);
                p.presentation_id = self.next_presentation_id;
                session.presentation = Some(p);
            },
            None => {},
        }
    }

    /// Makes an opened session the active one, remembering where it was
    /// opened from for later exports.
    pub fn activate(&mut self, session: ActiveSession, path: String)
        ensures
            final(self).pending_report_export is None,
            final(self).export_source == Some(path),
            final(self).foreground_busy == old(self).foreground_busy,
            final(self).active matches Some(a) && a.source == session.source && a.summary
                == session.summary && a.retained_presentation == session.retained_presentation
                && match session.presentation {
                None => a.presentation is None,
                Some(p) => a.presentation matches Some(q) && q == (ReportPresentation {
                    presentation_id: final(self).next_presentation_id,
                    ..p
                }),
            },
    {
        let mut session = session;
        self.assign_presentation_id(&mut session);
        self.active = Some(session);
        self.export_source = Some(path);
    }

    /// The active session's source path and bundle name.
    pub fn active_session_source(&self) -> (r: Result<(String, String), SessionErrorPayload>)
        ensures
            match self.active {
                Some(a) => r matches Ok(pair) && pair.0@ == a.source@ && pair.1@
                    == a.summary.bundle_name@,
                None => r matches Err(e) && plain_error(
                    e,
                    SessionErrorKind::Unsupported,
                    "Create or open a schema-v2 session before using the conductor."@,
                    "no active session is available"@,
                ),
            },
    {
        match &self.active {
            Some(a) => Ok((owned(a.source.as_str()), owned(a.summary.bundle_name.as_str()))),
            None => Err(SessionErrorPayload::new(
                SessionErrorKind::Unsupported,
                "Create or open a schema-v2 session before using the conductor.",
                "no active session is available",
            )),
        }
    }

    /// Cancels a pending report replacement; an identifier that is not the
    /// pending one changes nothing. Cancelling is itself a foreground
    /// operation.
    pub fn cancel_pending_report_export_for(&mut self, pending_export_id: &str) -> (r: Result<
        ExportReportOutcome,
        SessionErrorPayload,
    >)
        ensures
            old(self).foreground_busy ==> (r matches Err(e) && busy_error(e) && *final(self)
                == *old(self)),
            !old(self).foreground_busy ==> {
                &&& r == Ok::<ExportReportOutcome, SessionErrorPayload>(ExportReportOutcome::Cancelled)
                &&& !final(self).foreground_busy
                &&& final(self).active == old(self).active
                &&& final(self).export_source == old(self).export_source
                &&& final(self).next_presentation_id == old(self).next_presentation_id
                &&& final(self).pending_report_export == (match old(self).pending_report_export {
                    Some(p) => if p.pending_export_id@ == pending_export_id@ {
                        None
                    } else {
                        Some(p)
                    },
                    None => None,
                })
            },
    {
        self.begin_foreground()?;
        let matches = match &self.pending_report_export {
            Some(p) => str_eq(p.pending_export_id.as_str(), pending_export_id),
            None => false,
        };
        if matches {
            self.pending_report_export = None;
        }
        self.end_foreground();
        Ok(ExportReportOutcome::Cancelled)
    }
}

/// A report pipeline error with the given detail.
pub open spec fn pipeline_error(e: SessionErrorPayload, detail: Seq<char>) -> bool {
    plain_error(e, SessionErrorKind::ReportPipeline, "The local report could not be prepared."@, detail)
}

/// The active report the shell may show: the active session must still be
/// the bundle its report was derived from, a report must have been rendered,
/// and the document must fit the transfer limit.
pub open spec fn report_for_spec(s: DesktopState, r: Result<ReportPresentation, SessionErrorPayload>) -> bool {
    match s.active {
        None => r matches Err(e) && pipeline_error(e, "no active session report is available"@),
        Some(a) => match file_name_of(a.source@) {
            None => r matches Err(e) && pipeline_error(
                e,
                "the active session source name is unavailable"@,
            ),
            Some(name) => if name != a.summary.bundle_name@ {
                r matches Err(e) && pipeline_error(
                    e,
                    "the active session source does not match its derived report"@,
                )
            } else {
                match a.presentation {
                    None => r matches Err(e) && pipeline_error(
                        e,
                        "the active snapshot is available for lossless export, but report rendering is unavailable"@,
                    ),
                    Some(p) => if byte_len(p.report_html@) > REPORT_DOCUMENT_IPC_BYTES {
                        r matches Err(e) && resource_error(
                            e,
                            SessionErrorKind::Resource,
                            "resource.desktop.ipc_bytes"@,
                            "report_document"@,
                            REPORT_DOCUMENT_IPC_BYTES,
                            Some(byte_len(p.report_html@) as u64),
                            "bytes"@,
                        )
                    } else {
                        r matches Ok(q) && same_presentation(q, p)
                    },
                }
            },
        },
    }
}

impl DesktopState {
    /// The active report presentation, read as a foreground operation.
    pub fn active_session_report_for(&mut self) -> (r: Result<ReportPresentation, SessionErrorPayload>)
        ensures
            old(self).foreground_busy ==> (r matches Err(e) && busy_error(e)),
            !old(self).foreground_busy ==> report_for_spec(*old(self), r),
            *final(self) == *old(self),
    {
        self.begin_foreground()?;
        let r = self.report_now();
        self.end_foreground();
        r
    }

    fn report_now(&self) -> (r: Result<ReportPresentation, SessionErrorPayload>)
        ensures
            report_for_spec(*self, r),
    {
        let session = match &self.active {
            Some(a) => a,
            None => return Err(SessionErrorPayload::report_pipeline("no active session report is available")),
        };
        let name = match path_file_name(session.source.as_str()) {
            Some(n) => n,
            None => return Err(
                SessionErrorPayload::report_pipeline("the active session source name is unavailable"),
            ),
        };
        if !str_eq(name.as_str(), session.summary.bundle_name.as_str()) {
            return Err(
                SessionErrorPayload::report_pipeline(
                    "the active session source does not match its derived report",
                ),
            );
        }
        let presentation = match &session.presentation {
            Some(p) => p,
            None => return Err(
                SessionErrorPayload::report_pipeline(
                    "the active snapshot is available for lossless export, but report rendering is unavailable",
                ),
            ),
        };
        let len = byte_length(presentation.report_html.as_str());
        if len as u64 > REPORT_DOCUMENT_IPC_BYTES {
            return Err(SessionErrorPayload::resource(
                SessionErrorKind::Resource,
                "resource.desktop.ipc_bytes",
                "report_document",
                REPORT_DOCUMENT_IPC_BYTES,
                Some(len as u64),
                "bytes",
            ));
        }
        Ok(presentation.duplicate())
    }
}

} // verus!

verus! {

/// The error when the active session changed under an operation that was
/// reading it.
pub open spec fn reload_conflict(e: SessionErrorPayload) -> bool {
    plain_error(
        e,
        SessionErrorKind::Conflict,
        "The active session changed while WSPR.live evidence was importing."@,
        "the import remains committed to the originally selected session"@,
    )
}

impl DesktopState {
    /// Replaces the active session by its refreshed reading, unless another
    /// session became active meanwhile; any pending report replacement is
    /// dropped.
    pub fn reload_active_session(&mut self, source: &str, refreshed: ActiveSession) -> (r: Result<
        OpenedSession,
        SessionErrorPayload,
    >)
        ensures
            (old(self).active matches Some(a) && a.source@ != source@) ==> (r matches Err(e)
                && reload_conflict(e) && *final(self) == *old(self)),
            !(old(self).active matches Some(a) && a.source@ != source@) ==> {
                &&& r matches Ok(summary) && same_summary(summary, refreshed.summary)
                &&& final(self).active == Some(refreshed)
                &&& final(self).pending_report_export is None
                &&& final(self).export_source == old(self).export_source
                &&& final(self).foreground_busy == old(self).foreground_busy
                &&& final(self).next_presentation_id == old(self).next_presentation_id
            },
    {
        let conflict = match &self.active {
            Some(a) => !str_eq(a.source.as_str(), source),
            None => false,
        };
        if conflict {
            return Err(SessionErrorPayload::new(
                SessionErrorKind::Conflict,
                "The active session changed while WSPR.live evidence was importing.",
                "the import remains committed to the originally selected session",
            ));
        }
        let summary = refreshed.summary.duplicate();
        self.active = Some(refreshed);
        self.pending_report_export = None;
        Ok(summary)
    }
}

/// The presentation of a session with a given identity: the current one, or
/// the one still retained from before a refresh.
pub open spec fn presentation_for_id_spec(session: ActiveSession, id: u64) -> Option<ReportPresentation> {
    match session.presentation {
        Some(p) if p.presentation_id == id => Some(p),
        _ => match session.retained_presentation {
            Some(p) if p.presentation_id == id => Some(p),
            _ => None,
        },
    }
}

/// Finds the presentation of the active session with a given identity.
pub fn presentation_for_id(session: &ActiveSession, id: u64) -> (r: Option<&ReportPresentation>)
    ensures
        match r {
            Some(p) => presentation_for_id_spec(*session, id) == Some(*p),
            None => presentation_for_id_spec(*session, id) is None,
        },
{
    if let Some(p) = &session.presentation {
        if p.presentation_id == id {
            return Some(p);
        }
    }
    if let Some(p) = &session.retained_presentation {
        if p.presentation_id == id {
            return Some(p);
        }
    }
    None
}

/// Which document an export writes: the compact summary as it is; for the
/// full report, controller omission applies only when the snapshot has
/// controller evidence, and the operational history only to full reports.
pub open spec fn export_html_spec(
    p: ReportPresentation,
    format: ReportExportFormat,
    controller_evidence: ControllerEvidenceHandling,
    operational_history: OperationalHistoryHandling,
) -> Result<Seq<char>, Seq<char>> {
    let controller = if format == ReportExportFormat::FullEvidenceHtml && p.has_controller_evidence {
        controller_evidence
    } else {
        ControllerEvidenceHandling::Complete
    };
    let history = if format == ReportExportFormat::FullEvidenceHtml {
        operational_history
    } else {
        OperationalHistoryHandling::Omitted
    };
    match format {
        ReportExportFormat::CompactSummaryHtml => Ok(p.compact_summary_html@),
        ReportExportFormat::FullEvidenceHtml => match (controller, history) {
            (ControllerEvidenceHandling::Complete, OperationalHistoryHandling::Omitted) => Ok(p.report_html@),
            (ControllerEvidenceHandling::OmittedAtExport, OperationalHistoryHandling::Omitted) => match p.controller_omitted_report_html {
                Some(h) => Ok(h@),
                None => Err("controller omission export is unavailable for this report snapshot"@),
            },
            (ControllerEvidenceHandling::Complete, OperationalHistoryHandling::IncludedRedacted) => Ok(p.operational_history_report_html@),
            (ControllerEvidenceHandling::OmittedAtExport, OperationalHistoryHandling::IncludedRedacted) => match p.operational_history_controller_omitted_report_html {
                Some(h) => Ok(h@),
                None => Err("combined controller omission and operational-history export is unavailable"@),
            },
        },
    }
}

/// Selects the document an export writes.
pub fn select_report_html(
    p: &ReportPresentation,
    format: ReportExportFormat,
    controller_evidence: ControllerEvidenceHandling,
    operational_history: OperationalHistoryHandling,
) -> (r: Result<String, SessionErrorPayload>)
    ensures
        match export_html_spec(*p, format, controller_evidence, operational_history) {
            Ok(h) => r matches Ok(s) && s@ == h,
            Err(d) => r matches Err(e) && pipeline_error(e, d),
        },
{
    let controller = if format == ReportExportFormat::FullEvidenceHtml && p.has_controller_evidence {
        controller_evidence
    } else {
        ControllerEvidenceHandling::Complete
    };
    let history = if format == ReportExportFormat::FullEvidenceHtml {
        operational_history
    } else {
        OperationalHistoryHandling::Omitted
    };
    match format {
        ReportExportFormat::CompactSummaryHtml => Ok(owned(p.compact_summary_html.as_str())),
        ReportExportFormat::FullEvidenceHtml => match (controller, history) {
            (ControllerEvidenceHandling::Complete, OperationalHistoryHandling::Omitted) => Ok(owned(p.report_html.as_str())),
            (ControllerEvidenceHandling::OmittedAtExport, OperationalHistoryHandling::Omitted) => match &p.controller_omitted_report_html {
                Some(h) => Ok(owned(h.as_str())),
                None => Err(SessionErrorPayload::report_pipeline(
                    "controller omission export is unavailable for this report snapshot",
                )),
            },
            (ControllerEvidenceHandling::Complete, OperationalHistoryHandling::IncludedRedacted) => Ok(owned(p.operational_history_report_html.as_str())),
            (ControllerEvidenceHandling::OmittedAtExport, OperationalHistoryHandling::IncludedRedacted) => match &p.operational_history_controller_omitted_report_html {
                Some(h) => Ok(owned(h.as_str())),
                None => Err(SessionErrorPayload::report_pipeline(
                    "combined controller omission and operational-history export is unavailable",
                )),
            },
        },
    }
}

/// The name shown for a report destination: its file name, which must end in
/// `.html`, cut to 160 characters with an ellipsis when longer.
pub open spec fn display_name_spec(destination: Seq<char>) -> Option<Seq<char>> {
    match file_name_of(destination) {
        Some(name) => if ends_with_seq(name, ".html"@) {
            if name.len() > REPORT_DISPLAY_FILE_NAME_CHARS {
                Some(name.take(REPORT_DISPLAY_FILE_NAME_CHARS as int).push('\u{2026}'))
            } else {
                Some(name)
            }
        } else {
            None
        },
        None => None,
    }
}

/// The file name of a report destination as the shell shows it.
pub fn report_display_file_name(destination: &str) -> (r: Result<String, SessionErrorPayload>)
    ensures
        match display_name_spec(destination@) {
            Some(n) => r matches Ok(s) && s@ == n,
            None => r matches Err(e) && plain_error(
                e,
                SessionErrorKind::Destination,
                "Choose an .html destination for the standalone report."@,
                "the selected destination does not have a usable .html file name"@,
            ),
        },
{
    proof {
        reveal_strlit(".html");
    }
    let name = match path_file_name(destination) {
        Some(n) => n,
        None => return Err(SessionErrorPayload::new(
            SessionErrorKind::Destination,
            "Choose an .html destination for the standalone report.",
            "the selected destination does not have a usable .html file name",
        )),
    };
    if !ends_with(name.as_str(), ".html") {
        return Err(SessionErrorPayload::new(
            SessionErrorKind::Destination,
            "Choose an .html destination for the standalone report.",
            "the selected destination does not have a usable .html file name",
        ));
    }
    let cs = chars_of(name.as_str());
    if cs.len() > REPORT_DISPLAY_FILE_NAME_CHARS {
        let mut out = prefix_string(&cs, REPORT_DISPLAY_FILE_NAME_CHARS);
        push_char(&mut out, '\u{2026}');
        Ok(out)
    } else {
        Ok(name)
    }
}

/// A report destination could not be used; the detail names the file and
/// the system error.
pub fn report_destination_error(message: &str, file_name: &str, error: &str) -> (r: SessionErrorPayload)
    ensures
        plain_error(r, SessionErrorKind::Destination, message@, file_name@ + ": "@ + error@),
{
    let mut detail = owned(file_name);
    push_str(&mut detail, ": ");
    push_str(&mut detail, error);
    proof {
        reveal_strlit(": ");
    }
    SessionErrorPayload::new(SessionErrorKind::Destination, message, detail.as_str())
}

/// The error of a pending report replacement that is no longer current.
pub open spec fn stale_pending(e: SessionErrorPayload, detail: Seq<char>) -> bool {
    plain_error(
        e,
        SessionErrorKind::Conflict,
        "The pending report replacement is no longer current."@,
        detail,
    )
}

/// A pending report replacement is no longer current.
pub fn stale_pending_report_error(detail: &str) -> (r: SessionErrorPayload)
    ensures
        stale_pending(r, detail@),
{
    SessionErrorPayload::new(
        SessionErrorKind::Conflict,
        "The pending report replacement is no longer current.",
        detail,
    )
}

/// The active presentation still is the one a replacement was prepared
/// from.
pub open spec fn still_current(s: DesktopState, pending: PendingReportExport) -> bool {
    s.active matches Some(a) && a.presentation matches Some(p) && p.presentation_id
        == pending.presentation_id && p.session_id@ == pending.session_id@ && p.revision
        == pending.revision
}

impl DesktopState {
    /// Records a replacement of an existing report file for confirmation,
    /// provided the presentation it was prepared from is still the active
    /// one.
    pub fn register_pending_report_export(&mut self, pending: PendingReportExport) -> (r: Result<
        ExportReportOutcome,
        SessionErrorPayload,
    >)
        ensures
            still_current(*old(self), pending) ==> {
                &&& r matches Ok(ExportReportOutcome::ConfirmationRequired { pending_export_id, file_name, revision, format })
                    && pending_export_id@ == pending.pending_export_id@ && file_name@ == pending.file_name@
                    && revision == pending.revision && format == pending.format
                &&& final(self).pending_report_export == Some(pending)
                &&& final(self).active == old(self).active
                &&& final(self).export_source == old(self).export_source
                &&& final(self).foreground_busy == old(self).foreground_busy
                &&& final(self).next_presentation_id == old(self).next_presentation_id
            },
            !still_current(*old(self), pending) ==> (r matches Err(e) && stale_pending(
                e,
                "the active report presentation changed during destination selection"@,
            ) && *final(self) == *old(self)),
    {
        let current = match &self.active {
            Some(a) => match &a.presentation {
                Some(p) => p.presentation_id == pending.presentation_id && str_eq(
                    p.session_id.as_str(),
                    pending.session_id.as_str(),
                ) && p.revision == pending.revision,
                None => false,
            },
            None => false,
        };
        if !current {
            return Err(stale_pending_report_error(
                "the active report presentation changed during destination selection",
            ));
        }
        let outcome = ExportReportOutcome::ConfirmationRequired {
            pending_export_id: owned(pending.pending_export_id.as_str()),
            file_name: owned(pending.file_name.as_str()),
            revision: pending.revision,
            format: pending.format,
        };
        self.pending_report_export = Some(pending);
        Ok(outcome)
    }
}

} // verus!

verus! {

/// The outcome of opening a session.
#[derive(Debug, PartialEq, Eq)]
pub enum OpenSessionOutcome {
    Cancelled,
    Opened { session: OpenedSession },
}

/// The outcome of exporting a lossless copy of the active session.
#[derive(Debug, PartialEq, Eq)]
pub enum ExportSessionOutcome {
    Cancelled,
    Exported { bundle_name: String, revision: Option<u64> },
}

/// The error of a payload that could not be encoded for the shell.
pub open spec fn ipc_encoding_error(e: SessionErrorPayload, message: Seq<char>) -> bool {
    plain_error(
        e,
        SessionErrorKind::ReportPipeline,
        "The local report could not be prepared."@,
        "IPC serialization failed: "@ + message,
    )
}

/// Checks a payload bound for the shell against its byte limit, given the
/// outcome of encoding it: its encoded length, or why it could not be
/// encoded. `role` names the payload in the resource error.
pub fn check_ipc_payload(encoded: Result<usize, String>, limit: u64, role: &str) -> (r: Result<(), SessionErrorPayload>)
    ensures
        encoded matches Err(m) ==> (r matches Err(e) && ipc_encoding_error(e, m@)),
        encoded matches Ok(n) ==> (n <= limit ==> r is Ok),
        encoded matches Ok(n) ==> (n > limit ==> (r matches Err(e) && resource_error(
            e,
            SessionErrorKind::Resource,
            "resource.desktop.ipc_bytes"@,
            role@,
            limit,
            Some(n as u64),
            "bytes"@,
        ))),
{
    match encoded {
        Err(m) => {
            let mut detail = owned("IPC serialization failed: ");
            push_str(&mut detail, m.as_str());
            proof {
                reveal_strlit("IPC serialization failed: ");
            }
            Err(SessionErrorPayload::report_pipeline(detail.as_str()))
        },
        Ok(n) => if n as u64 > limit {
            Err(SessionErrorPayload::resource(
                SessionErrorKind::Resource,
                "resource.desktop.ipc_bytes",
                role,
                limit,
                Some(n as u64),
                "bytes",
            ))
        } else {
            Ok(())
        },
    }
}

/// Confirms the pending replacement of an existing report file, as the
/// single foreground operation. The replacement identified by
/// `pending_export_id` is consumed, and `replace` writes it only while the
/// presentation it was prepared from is still the active one.
pub fn confirm_pending_report_export_with<R: FnOnce(&PendingReportExport) -> Result<(), SessionErrorPayload>>(
    state: &mut DesktopState,
    pending_export_id: &str,
    replace: R,
) -> (r: Result<ExportReportOutcome, SessionErrorPayload>)
    requires
        forall|p: &PendingReportExport| call_requires(replace, (p,)),
    ensures
        old(state).foreground_busy ==> (r matches Err(e) && busy_error(e) && *final(state) == *old(state)),
        !old(state).foreground_busy && !(old(state).pending_report_export matches Some(p)
            && p.pending_export_id@ == pending_export_id@) ==> (r matches Err(e) && stale_pending(
            e,
            "the pending report replacement identity is unknown or already consumed"@,
        ) && *final(state) == *old(state)),
        !old(state).foreground_busy ==> (old(state).pending_report_export matches Some(p) ==> (p.pending_export_id@
            == pending_export_id@ ==> {
            &&& *final(state) == (DesktopState { pending_report_export: None, ..*old(state) })
            &&& !still_current(*old(state), p) ==> (r matches Err(e) && stale_pending(
                e,
                "the active report presentation changed before replacement was confirmed"@,
            ))
            &&& still_current(*old(state), p) ==> exists|written: Result<(), SessionErrorPayload>| {
                &&& call_ensures(replace, (&p,), written)
                &&& match written {
                    Err(e) => r == Err::<ExportReportOutcome, SessionErrorPayload>(e),
                    Ok(_) => r matches Ok(ExportReportOutcome::Exported { file_name, revision, format })
                        && file_name@ == p.file_name@ && revision == p.revision && format == p.format,
                }
            }
        })),
{
    state.begin_foreground()?;
    let known = match &state.pending_report_export {
        Some(p) => str_eq(p.pending_export_id.as_str(), pending_export_id),
        None => false,
    };
    if !known {
        state.end_foreground();
        return Err(stale_pending_report_error("the pending report replacement identity is unknown or already consumed"));
    }
    let pending = match state.pending_report_export.take() {
        Some(p) => p,
        None => {
            state.end_foreground();
            return Err(stale_pending_report_error("the pending report replacement identity is unknown or already consumed"));
        },
    };
    let current = match &state.active {
        Some(a) => match &a.presentation {
            Some(p) => p.presentation_id == pending.presentation_id && str_eq(
                p.session_id.as_str(),
                pending.session_id.as_str(),
            ) && p.revision == pending.revision,
            None => false,
        },
        None => false,
    };
    state.end_foreground();
    if !current {
        return Err(stale_pending_report_error("the active report presentation changed before replacement was confirmed"));
    }
    let written = replace(&pending);
    match written {
        Err(e) => Err(e),
        Ok(()) => Ok(ExportReportOutcome::Exported {
            file_name: pending.file_name,
            revision: pending.revision,
            format: pending.format,
        }),
    }
}

/// Runs an operation as the single foreground operation.
pub fn with_foreground_operation<T, F: FnOnce() -> Result<T, SessionErrorPayload>>(
    state: &mut DesktopState,
    operation: F,
) -> (r: Result<T, SessionErrorPayload>)
    requires
        call_requires(operation, ()),
    ensures
        old(state).foreground_busy ==> (r matches Err(e) && busy_error(e) && *final(state) == *old(state)),
        !old(state).foreground_busy ==> (call_ensures(operation, (), r) && *final(state) == *old(state)),
{
    state.begin_foreground()?;
    let r = operation();
    state.end_foreground();
    r
}

/// Runs `operation` with the current foreground operation suspended, and
/// takes the foreground back afterwards.
pub fn with_suspended_foreground_operation<T, F: FnOnce() -> T>(
    state: &mut DesktopState,
    operation: F,
) -> (r: Result<T, SessionErrorPayload>)
    requires
        call_requires(operation, ()),
    ensures
        !old(state).foreground_busy ==> (r matches Err(e) && plain_error(
            e,
            SessionErrorKind::ReportPipeline,
            "The local report could not be prepared."@,
            "cannot suspend an inactive foreground operation"@,
        ) && *final(state) == *old(state)),
        old(state).foreground_busy ==> (r matches Ok(t) && call_ensures(operation, (), t) && *final(state)
            == *old(state)),
{
    state.suspend_foreground()?;
    let result = operation();
    state.resume_foreground();
    Ok(result)
}

/// What opening the bundle at `path` answers, for each result of the load,
/// the verification and the transfer check in turn.
pub open spec fn opened_from<L, V, C>(
    path: Seq<char>,
    load: L,
    verify: V,
    check_ipc: C,
    r: Result<OpenSessionOutcome, SessionErrorPayload>,
) -> bool
    where
        L: FnOnce(&str) -> Result<ActiveSession, SessionErrorPayload>,
        V: FnOnce(&str) -> Result<(), SessionErrorPayload>,
        C: FnOnce(&OpenedSession) -> Result<(), SessionErrorPayload>,
{
    exists|p: &str, loaded: Result<ActiveSession, SessionErrorPayload>| {
        &&& p@ == path
        &&& #[trigger] call_ensures(load, (p,), loaded)
        &&& match loaded {
            Err(e) => r == Err::<OpenSessionOutcome, SessionErrorPayload>(e),
            Ok(s) => exists|verified: Result<(), SessionErrorPayload>| {
                &&& #[trigger] call_ensures(verify, (p,), verified)
                &&& match verified {
                    Err(e) => r == Err::<OpenSessionOutcome, SessionErrorPayload>(e),
                    Ok(_) => exists|shown: &OpenedSession, checked: Result<(), SessionErrorPayload>| {
                        &&& same_summary(*shown, s.summary)
                        &&& #[trigger] call_ensures(check_ipc, (shown,), checked)
                        &&& match checked {
                            Err(e) => r == Err::<OpenSessionOutcome, SessionErrorPayload>(e),
                            Ok(_) => r matches Ok(OpenSessionOutcome::Opened { session }) && same_summary(session, s.summary),
                        }
                    },
                }
            },
        }
    }
}

/// What opening a session answers, for each result of the selection, the
/// load, the verification and the transfer check in turn: a failure of any
/// of them is the answer, a cancelled selection is `Cancelled`, and when all
/// succeed the loaded summary is opened.
pub open spec fn open_outcome<F, L, V, C>(
    select: F,
    load: L,
    verify: V,
    check_ipc: C,
    r: Result<OpenSessionOutcome, SessionErrorPayload>,
) -> bool
    where
        F: FnOnce() -> Result<Option<String>, SessionErrorPayload>,
        L: FnOnce(&str) -> Result<ActiveSession, SessionErrorPayload>,
        V: FnOnce(&str) -> Result<(), SessionErrorPayload>,
        C: FnOnce(&OpenedSession) -> Result<(), SessionErrorPayload>,
{
    exists|selected: Result<Option<String>, SessionErrorPayload>| {
        &&& #[trigger] call_ensures(select, (), selected)
        &&& match selected {
            Err(e) => r == Err::<OpenSessionOutcome, SessionErrorPayload>(e),
            Ok(None) => r == Ok::<OpenSessionOutcome, SessionErrorPayload>(OpenSessionOutcome::Cancelled),
            Ok(Some(path)) => opened_from(path@, load, verify, check_ipc, r),
        }
    }
}

/// Opens a session chosen by `select`: nothing changes when the choice is
/// cancelled or anything fails; otherwise the bundle read by `load`, checked
/// by `verify` and whose summary `check_ipc` admits becomes the active
/// session, with a new presentation identity. The whole operation is the
/// single foreground operation.
pub fn open_session_with_selection_and_verification<
    F: FnOnce() -> Result<Option<String>, SessionErrorPayload>,
    L: FnOnce(&str) -> Result<ActiveSession, SessionErrorPayload>,
    V: FnOnce(&str) -> Result<(), SessionErrorPayload>,
    C: FnOnce(&OpenedSession) -> Result<(), SessionErrorPayload>,
>(
    state: &mut DesktopState,
    select: F,
    load: L,
    verify: V,
    check_ipc: C,
) -> (r: Result<OpenSessionOutcome, SessionErrorPayload>)
    requires
        call_requires(select, ()),
        forall|p: &str| call_requires(load, (p,)),
        forall|p: &str| call_requires(verify, (p,)),
        forall|s: &OpenedSession| call_requires(check_ipc, (s,)),
    ensures
        old(state).foreground_busy ==> (r matches Err(e) && busy_error(e) && *final(state) == *old(state)),
        !old(state).foreground_busy && !(r matches Ok(OpenSessionOutcome::Opened { .. })) ==> *final(state) == *old(state),
        !old(state).foreground_busy ==> open_outcome(select, load, verify, check_ipc, r),
        r matches Ok(OpenSessionOutcome::Opened { session }) ==> {
            &&& !old(state).foreground_busy
            &&& !final(state).foreground_busy
            &&& final(state).pending_report_export is None
            &&& exists|path: String, p: &str, s: ActiveSession| {
                &&& call_ensures(select, (), Ok::<Option<String>, SessionErrorPayload>(Some(path)))
                &&& p@ == path@
                &&& call_ensures(load, (p,), Ok::<ActiveSession, SessionErrorPayload>(s))
                &&& final(state).export_source == Some(path)
                &&& final(state).active matches Some(a) && a.source == s.source && a.summary == s.summary
                &&& same_summary(session, s.summary)
            }
        },
{
    state.begin_foreground()?;
    let selected = select();
    let ghost selected_copy = selected;
    proof {
        assert(call_ensures(select, (), selected_copy));
    }
    let path = match selected {
        Err(e) => {
            state.end_foreground();
            return Err(e);
        },
        Ok(None) => {
            state.end_foreground();
            return Ok(OpenSessionOutcome::Cancelled);
        },
        Ok(Some(p)) => p,
    };
    let p = path.as_str();
    let loaded = load(p);
    let ghost loaded_g = loaded;
    let session = match loaded {
        Err(e) => {
            proof {
                assert(call_ensures(load, (p,), loaded_g));
            }
            state.end_foreground();
            return Err(e);
        },
        Ok(s) => s,
    };
    let verified = verify(p);
    let ghost verified_g = verified;
    proof {
        assert(call_ensures(load, (p,), loaded_g));
        assert(call_ensures(verify, (p,), verified_g));
    }
    if let Err(e) = verified {
        state.end_foreground();
        return Err(e);
    }
    let summary = session.summary.duplicate();
    let checked = check_ipc(&summary);
    proof {
        assert(call_ensures(check_ipc, (&summary,), checked));
    }
    if let Err(e) = checked {
        state.end_foreground();
        return Err(e);
    }
    self_activate(state, session, path);
    state.end_foreground();
    Ok(OpenSessionOutcome::Opened { session: summary })
}

fn self_activate(state: &mut DesktopState, session: ActiveSession, path: String)
    ensures
        final(state).pending_report_export is None,
        final(state).export_source == Some(path),
        final(state).foreground_busy == old(state).foreground_busy,
        final(state).active matches Some(a) && a.source == session.source && a.summary == session.summary,
{
    state.activate(session, path);
}

/// What opening the bundle at `path` without a further check answers, for
/// each result of the load and the transfer check in turn.
pub open spec fn opened_unchecked_from<L, C>(
    path: Seq<char>,
    load: L,
    check_ipc: C,
    r: Result<OpenSessionOutcome, SessionErrorPayload>,
) -> bool
    where
        L: FnOnce(&str) -> Result<ActiveSession, SessionErrorPayload>,
        C: FnOnce(&OpenedSession) -> Result<(), SessionErrorPayload>,
{
    exists|p: &str, loaded: Result<ActiveSession, SessionErrorPayload>| {
        &&& p@ == path
        &&& #[trigger] call_ensures(load, (p,), loaded)
        &&& match loaded {
            Err(e) => r == Err::<OpenSessionOutcome, SessionErrorPayload>(e),
            Ok(s) => exists|shown: &OpenedSession, checked: Result<(), SessionErrorPayload>| {
                &&& same_summary(*shown, s.summary)
                &&& #[trigger] call_ensures(check_ipc, (shown,), checked)
                &&& match checked {
                    Err(e) => r == Err::<OpenSessionOutcome, SessionErrorPayload>(e),
                    Ok(_) => r matches Ok(OpenSessionOutcome::Opened { session }) && same_summary(session, s.summary),
                }
            },
        }
    }
}

/// What opening a session without a further check answers, for each
/// result of the selection, the load and the transfer check in turn.
pub open spec fn open_outcome_unchecked<F, L, C>(
    select: F,
    load: L,
    check_ipc: C,
    r: Result<OpenSessionOutcome, SessionErrorPayload>,
) -> bool
    where
        F: FnOnce() -> Result<Option<String>, SessionErrorPayload>,
        L: FnOnce(&str) -> Result<ActiveSession, SessionErrorPayload>,
        C: FnOnce(&OpenedSession) -> Result<(), SessionErrorPayload>,
{
    exists|selected: Result<Option<String>, SessionErrorPayload>| {
        &&& #[trigger] call_ensures(select, (), selected)
        &&& match selected {
            Err(e) => r == Err::<OpenSessionOutcome, SessionErrorPayload>(e),
            Ok(None) => r == Ok::<OpenSessionOutcome, SessionErrorPayload>(OpenSessionOutcome::Cancelled),
            Ok(Some(path)) => opened_unchecked_from(path@, load, check_ipc, r),
        }
    }
}

/// Opens a session chosen by `select`, with no further verification.
pub fn open_session_with_selection<
    F: FnOnce() -> Result<Option<String>, SessionErrorPayload>,
    L: FnOnce(&str) -> Result<ActiveSession, SessionErrorPayload>,
    C: FnOnce(&OpenedSession) -> Result<(), SessionErrorPayload>,
>(
    state: &mut DesktopState,
    select: F,
    load: L,
    check_ipc: C,
) -> (r: Result<OpenSessionOutcome, SessionErrorPayload>)
    requires
        call_requires(select, ()),
        forall|p: &str| call_requires(load, (p,)),
        forall|s: &OpenedSession| call_requires(check_ipc, (s,)),
    ensures
        old(state).foreground_busy ==> (r matches Err(e) && busy_error(e) && *final(state) == *old(state)),
        !old(state).foreground_busy && !(r matches Ok(OpenSessionOutcome::Opened { .. })) ==> *final(state) == *old(state),
        r matches Ok(OpenSessionOutcome::Opened { session }) ==> (!final(state).foreground_busy
            && (final(state).active matches Some(a) && same_summary(session, a.summary))),
        !old(state).foreground_busy ==> open_outcome_unchecked(select, load, check_ipc, r),
{
    let accept = |p: &str| -> (r: Result<(), SessionErrorPayload>) ensures r is Ok { Ok(()) };
    open_session_with_selection_and_verification(state, select, load, accept, check_ipc)
}

/// Opens the session at a known path, checked by `verify`.
pub fn open_session_at_path_verified<
    L: FnOnce(&str) -> Result<ActiveSession, SessionErrorPayload>,
    V: FnOnce(&str) -> Result<(), SessionErrorPayload>,
    C: FnOnce(&OpenedSession) -> Result<(), SessionErrorPayload>,
>(
    state: &mut DesktopState,
    path: String,
    load: L,
    verify: V,
    check_ipc: C,
) -> (r: Result<OpenSessionOutcome, SessionErrorPayload>)
    requires
        forall|p: &str| call_requires(load, (p,)),
        forall|p: &str| call_requires(verify, (p,)),
        forall|s: &OpenedSession| call_requires(check_ipc, (s,)),
    ensures
        old(state).foreground_busy ==> (r matches Err(e) && busy_error(e) && *final(state) == *old(state)),
        !old(state).foreground_busy && !(r matches Ok(OpenSessionOutcome::Opened { .. })) ==> *final(state) == *old(state),
        r matches Ok(OpenSessionOutcome::Opened { session }) ==> (!final(state).foreground_busy
            && final(state).export_source == Some(path) && (final(state).active matches Some(a)
            && same_summary(session, a.summary))),
        !old(state).foreground_busy ==> opened_from(path@, load, verify, check_ipc, r),
{
    let ghost p0 = path;
    let select = move || -> (r: Result<Option<String>, SessionErrorPayload>) ensures r == Ok::<Option<String>, SessionErrorPayload>(Some(p0)) { Ok(Some(path)) };
    open_session_with_selection_and_verification(state, select, load, verify, check_ipc)
}

/// Activates a bundle that was just created: its reading becomes the
/// active session once its summary fits the transfer limit.
pub fn activate_created_bundle<
    L: FnOnce(&str) -> Result<ActiveSession, SessionErrorPayload>,
    C: FnOnce(&OpenedSession) -> Result<(), SessionErrorPayload>,
>(
    state: &mut DesktopState,
    path: String,
    load: L,
    check_ipc: C,
) -> (r: Result<OpenedSession, SessionErrorPayload>)
    requires
        forall|p: &str| call_requires(load, (p,)),
        forall|s: &OpenedSession| call_requires(check_ipc, (s,)),
    ensures
        r is Err ==> *final(state) == *old(state),
        r matches Ok(summary) ==> {
            &&& final(state).export_source == Some(path)
            &&& final(state).pending_report_export is None
            &&& final(state).foreground_busy == old(state).foreground_busy
            &&& exists|p: &str, s: ActiveSession| {
                &&& p@ == path@
                &&& call_ensures(load, (p,), Ok::<ActiveSession, SessionErrorPayload>(s))
                &&& final(state).active matches Some(a) && a.source == s.source && a.summary == s.summary
                &&& same_summary(summary, s.summary)
            }
        },
        exists|p: &str, loaded: Result<ActiveSession, SessionErrorPayload>| {
            &&& p@ == path@
            &&& #[trigger] call_ensures(load, (p,), loaded)
            &&& match loaded {
                Err(e) => r == Err::<OpenedSession, SessionErrorPayload>(e),
                Ok(s) => exists|shown: &OpenedSession, checked: Result<(), SessionErrorPayload>| {
                    &&& same_summary(*shown, s.summary)
                    &&& #[trigger] call_ensures(check_ipc, (shown,), checked)
                    &&& match checked {
                        Err(e) => r == Err::<OpenedSession, SessionErrorPayload>(e),
                        Ok(_) => r is Ok,
                    }
                },
            }
        },
{
    let p = path.as_str();
    let loaded = load(p);
    let ghost loaded_g = loaded;
    let session = match loaded {
        Ok(s) => s,
        Err(e) => {
            assert(call_ensures(load, (p,), loaded_g));
            return Err(e);
        },
    };
    let summary = session.summary.duplicate();
    let checked = check_ipc(&summary);
    proof {
        assert(call_ensures(load, (p,), loaded_g));
        assert(call_ensures(check_ipc, (&summary,), checked));
    }
    if let Err(e) = checked {
        return Err(e);
    }
    self_activate(state, session, path);
    Ok(summary)
}

/// Exports a lossless copy of the active session (or of the last opened
/// source) to a destination chosen by `select`; a cancelled choice is a
/// normal outcome. The whole operation is the single foreground operation
/// and changes nothing in the state.
pub fn export_active_session_with_selection<
    F: FnOnce(&str) -> Result<Option<String>, SessionErrorPayload>,
    X: FnOnce(&str, &str) -> Result<(String, Option<u64>), SessionErrorPayload>,
>(
    state: &mut DesktopState,
    select: F,
    export: X,
) -> (r: Result<ExportSessionOutcome, SessionErrorPayload>)
    requires
        forall|s: &str| call_requires(select, (s,)),
        forall|s: &str, d: &str| call_requires(export, (s, d)),
    ensures
        *final(state) == *old(state),
        old(state).foreground_busy ==> (r matches Err(e) && busy_error(e)),
        !old(state).foreground_busy && old(state).active is None && old(state).export_source is None ==> (r matches Err(e) && plain_error(
            e,
            SessionErrorKind::ReportPipeline,
            "Open a session bundle before exporting a copy."@,
            "no active session is available"@,
        )),
        r matches Ok(ExportSessionOutcome::Exported { bundle_name, revision }) ==> exists|source: &str, destination: &str| {
            &&& source@ == (match old(state).active {
                Some(a) => a.source@,
                None => old(state).export_source->0@,
            })
            &&& call_ensures(export, (source, destination), Ok::<(String, Option<u64>), SessionErrorPayload>((bundle_name, revision)))
        },
        !old(state).foreground_busy && (old(state).active is Some || old(state).export_source is Some) ==> exists|
            source: &str,
            chosen: Result<Option<String>, SessionErrorPayload>,
        | {
            &&& source@ == (match old(state).active {
                Some(a) => a.source@,
                None => old(state).export_source->0@,
            })
            &&& #[trigger] call_ensures(select, (source,), chosen)
            &&& match chosen {
                Err(e) => r == Err::<ExportSessionOutcome, SessionErrorPayload>(e),
                Ok(None) => r == Ok::<ExportSessionOutcome, SessionErrorPayload>(ExportSessionOutcome::Cancelled),
                Ok(Some(dest)) => exists|destination: &str, exported: Result<(String, Option<u64>), SessionErrorPayload>| {
                    &&& destination@ == dest@
                    &&& #[trigger] call_ensures(export, (source, destination), exported)
                    &&& match exported {
                        Err(e) => r == Err::<ExportSessionOutcome, SessionErrorPayload>(e),
                        Ok((bundle_name, revision)) => r == Ok::<ExportSessionOutcome, SessionErrorPayload>(
                            ExportSessionOutcome::Exported { bundle_name, revision },
                        ),
                    }
                },
            }
        },
{
    state.begin_foreground()?;
    let source = match &state.active {
        Some(a) => owned(a.source.as_str()),
        None => match &state.export_source {
            Some(p) => owned(p.as_str()),
            None => {
                state.end_foreground();
                return Err(SessionErrorPayload::new(
                    SessionErrorKind::ReportPipeline,
                    "Open a session bundle before exporting a copy.",
                    "no active session is available",
                ));
            },
        },
    };
    let src = source.as_str();
    let chosen = select(src);
    let ghost chosen_g = chosen;
    proof {
        assert(call_ensures(select, (src,), chosen_g));
    }
    let destination = match chosen {
        Err(e) => {
            state.end_foreground();
            return Err(e);
        },
        Ok(None) => {
            state.end_foreground();
            return Ok(ExportSessionOutcome::Cancelled);
        },
        Ok(Some(d)) => d,
    };
    let dst = destination.as_str();
    let exported = export(src, dst);
    proof {
        assert(call_ensures(export, (src, dst), exported));
    }
    state.end_foreground();
    match exported {
        Ok((bundle_name, revision)) => Ok(ExportSessionOutcome::Exported { bundle_name, revision }),
        Err(e) => Err(e),
    }
}

} // verus!

verus! {

/// Opens the session at a known path with no further verification.
pub fn open_session_at_path<
    L: FnOnce(&str) -> Result<ActiveSession, SessionErrorPayload>,
    C: FnOnce(&OpenedSession) -> Result<(), SessionErrorPayload>,
>(
    state: &mut DesktopState,
    path: String,
    load: L,
    check_ipc: C,
) -> (r: Result<OpenSessionOutcome, SessionErrorPayload>)
    requires
        forall|p: &str| call_requires(load, (p,)),
        forall|s: &OpenedSession| call_requires(check_ipc, (s,)),
    ensures
        old(state).foreground_busy ==> (r matches Err(e) && busy_error(e) && *final(state) == *old(state)),
        !old(state).foreground_busy && !(r matches Ok(OpenSessionOutcome::Opened { .. })) ==> *final(state) == *old(state),
        r matches Ok(OpenSessionOutcome::Opened { session }) ==> (!final(state).foreground_busy
            && final(state).export_source == Some(path) && (final(state).active matches Some(a)
            && same_summary(session, a.summary))),
        !old(state).foreground_busy ==> opened_unchecked_from(path@, load, check_ipc, r),
{
    open_session_at_path_verified(state, path, load, |p: &str| -> (r: Result<(), SessionErrorPayload>) ensures r is Ok { Ok(()) }, check_ipc)
}

} // verus!

verus! {

/// What exporting the report of presentation `p` at `source` answers, for
/// each result of the destination choice, the check of its name, the choice
/// of document, the inspection of the destination and the write in turn: a
/// new destination is written with the chosen document and the export is
/// done; an existing one is left untouched and waits, recorded in `pending`,
/// for confirmation.
pub open spec fn report_export_outcome<F, I, W>(
    p: ReportPresentation,
    source: Seq<char>,
    format: ReportExportFormat,
    controller_evidence: ControllerEvidenceHandling,
    operational_history: OperationalHistoryHandling,
    select: F,
    inspect: I,
    write_new: W,
    pending: Option<PendingReportExport>,
    r: Result<ExportReportOutcome, SessionErrorPayload>,
) -> bool
    where
        F: FnOnce(&str) -> Result<Option<String>, SessionErrorPayload>,
        I: FnOnce(&str, &str) -> Result<Option<ReportDestinationIdentity>, SessionErrorPayload>,
        W: FnOnce(&str, &str, &str) -> Result<(), SessionErrorPayload>,
{
    exists|src: &str, chosen: Result<Option<String>, SessionErrorPayload>| {
        &&& src@ == source
        &&& #[trigger] call_ensures(select, (src,), chosen)
        &&& match chosen {
            Err(e) => r == Err::<ExportReportOutcome, SessionErrorPayload>(e),
            Ok(None) => r == Ok::<ExportReportOutcome, SessionErrorPayload>(ExportReportOutcome::Cancelled),
            Ok(Some(d)) => match display_name_spec(d@) {
                None => r matches Err(e) && plain_error(
                    e,
                    SessionErrorKind::Destination,
                    "Choose an .html destination for the standalone report."@,
                    "the selected destination does not have a usable .html file name"@,
                ),
                Some(name) => match export_html_spec(p, format, controller_evidence, operational_history) {
                    Err(m) => r matches Err(e) && pipeline_error(e, m),
                    Ok(html) => exists|dd: &str, nn: &str, inspected: Result<Option<ReportDestinationIdentity>, SessionErrorPayload>| {
                        &&& dd@ == d@
                        &&& nn@ == name
                        &&& #[trigger] call_ensures(inspect, (dd, nn), inspected)
                        &&& match inspected {
                            Err(e) => r == Err::<ExportReportOutcome, SessionErrorPayload>(e),
                            Ok(None) => exists|hh: &str, written: Result<(), SessionErrorPayload>| {
                                &&& hh@ == html
                                &&& #[trigger] call_ensures(write_new, (dd, nn, hh), written)
                                &&& match written {
                                    Err(e) => r == Err::<ExportReportOutcome, SessionErrorPayload>(e),
                                    Ok(_) => r matches Ok(ExportReportOutcome::Exported { file_name, revision, format: f })
                                        && file_name@ == name && revision == p.revision && f == format,
                                }
                            },
                            Ok(Some(_)) => {
                                &&& r matches Ok(ExportReportOutcome::ConfirmationRequired { file_name, revision, format: f, .. })
                                    && file_name@ == name && revision == p.revision && f == format
                                &&& pending matches Some(q) && q.destination@ == d@ && q.file_name@ == name
                                    && q.presentation_id == p.presentation_id && q.html@ == html
                            },
                        }
                    },
                },
            },
        }
    }
}

/// Exports a derived report of the active presentation to a destination
/// chosen by `select`. A new file is written at once by `write_new`; an
/// existing report file (as `inspect` finds it) is only recorded as a
/// pending replacement awaiting confirmation, and only while the same
/// presentation is still active. Any earlier pending replacement is
/// dropped. The whole operation is the single foreground operation.
pub fn export_active_report_with_selection_and_disclosure<
    F: FnOnce(&str) -> Result<Option<String>, SessionErrorPayload>,
    I: FnOnce(&str, &str) -> Result<Option<ReportDestinationIdentity>, SessionErrorPayload>,
    W: FnOnce(&str, &str, &str) -> Result<(), SessionErrorPayload>,
    N: FnOnce() -> String,
>(
    state: &mut DesktopState,
    format: ReportExportFormat,
    controller_evidence: ControllerEvidenceHandling,
    operational_history: OperationalHistoryHandling,
    select: F,
    inspect: I,
    write_new: W,
    new_id: N,
) -> (r: Result<ExportReportOutcome, SessionErrorPayload>)
    requires
        forall|s: &str| call_requires(select, (s,)),
        forall|d: &str, n: &str| call_requires(inspect, (d, n)),
        forall|d: &str, n: &str, h: &str| call_requires(write_new, (d, n, h)),
        call_requires(new_id, ()),
    ensures
        old(state).foreground_busy ==> (r matches Err(e) && busy_error(e) && *final(state) == *old(state)),
        !old(state).foreground_busy ==> {
            &&& !final(state).foreground_busy
            &&& final(state).active == old(state).active
            &&& final(state).export_source == old(state).export_source
            &&& final(state).next_presentation_id == old(state).next_presentation_id
            &&& !(r matches Ok(ExportReportOutcome::ConfirmationRequired { .. })) ==> final(state).pending_report_export is None
        },
        !old(state).foreground_busy && old(state).active is None ==> (r matches Err(e) && pipeline_error(e, "no active session report is available"@)),
        !old(state).foreground_busy && (old(state).active matches Some(a) && a.presentation is None) ==> (r matches Err(e) && pipeline_error(e, "no coherent report snapshot is available"@)),
        r matches Ok(ExportReportOutcome::Exported { file_name, revision, format: f }) ==> {
            &&& f == format
            &&& old(state).active matches Some(a) && a.presentation matches Some(p) && revision == p.revision
                && exists|src: &str, d: String| src@ == a.source@ && call_ensures(select, (src,), Ok::<Option<String>, SessionErrorPayload>(Some(d)))
                && display_name_spec(d@) == Some(file_name@)
        },
        r matches Ok(ExportReportOutcome::ConfirmationRequired { pending_export_id, file_name, revision, format: f }) ==> {
            &&& f == format
            &&& final(state).pending_report_export matches Some(pending) && pending.pending_export_id@ == pending_export_id@
                && pending.file_name@ == file_name@ && pending.revision == revision && pending.format == format
                && (old(state).active matches Some(a) && a.presentation matches Some(p)
                && pending.presentation_id == p.presentation_id && pending.session_id@ == p.session_id@
                && revision == p.revision
                && export_html_spec(p, format, controller_evidence, operational_history) == Ok::<Seq<char>, Seq<char>>(pending.html@))
        },
        !old(state).foreground_busy ==> match old(state).active {
            Some(a) => match a.presentation {
                Some(p) => report_export_outcome(
                    p,
                    a.source@,
                    format,
                    controller_evidence,
                    operational_history,
                    select,
                    inspect,
                    write_new,
                    final(state).pending_report_export,
                    r,
                ),
                None => true,
            },
            None => true,
        },
{
    state.begin_foreground()?;
    state.pending_report_export = None;
    let (source, presentation) = match &state.active {
        None => {
            state.end_foreground();
            return Err(SessionErrorPayload::report_pipeline("no active session report is available"));
        },
        Some(a) => match &a.presentation {
            None => {
                state.end_foreground();
                return Err(SessionErrorPayload::report_pipeline("no coherent report snapshot is available"));
            },
            Some(p) => (owned(a.source.as_str()), p.duplicate()),
        },
    };
    let src = source.as_str();
    let chosen = select(src);
    let ghost chosen_g = chosen;
    proof {
        assert(call_ensures(select, (src,), chosen_g));
    }
    let destination = match chosen {
        Err(e) => {
            state.end_foreground();
            return Err(e);
        },
        Ok(None) => {
            state.end_foreground();
            return Ok(ExportReportOutcome::Cancelled);
        },
        Ok(Some(d)) => d,
    };
    let file_name = match report_display_file_name(destination.as_str()) {
        Err(e) => {
            state.end_foreground();
            return Err(e);
        },
        Ok(n) => n,
    };
    let html = match select_report_html(&presentation, format, controller_evidence, operational_history) {
        Err(e) => {
            state.end_foreground();
            return Err(e);
        },
        Ok(h) => h,
    };
    let dd = destination.as_str();
    let nn = file_name.as_str();
    let inspected = inspect(dd, nn);
    proof {
        assert(call_ensures(inspect, (dd, nn), inspected));
    }
    let existing = match inspected {
        Err(e) => {
            state.end_foreground();
            return Err(e);
        },
        Ok(x) => x,
    };
    match existing {
        None => {
            let hh = html.as_str();
            let written = write_new(dd, nn, hh);
            proof {
                assert(call_ensures(write_new, (dd, nn, hh), written));
            }
            state.end_foreground();
            match written {
                Err(e) => Err(e),
                Ok(()) => Ok(ExportReportOutcome::Exported { file_name, revision: presentation.revision, format }),
            }
        },
        Some(destination_identity) => {
            let pending_export_id = new_id();
            let pending = PendingReportExport {
                pending_export_id,
                destination,
                destination_identity,
                file_name,
                presentation_id: presentation.presentation_id,
                session_id: owned(presentation.session_id.as_str()),
                revision: presentation.revision,
                format,
                html,
            };
            let registered = state.register_pending_report_export(pending);
            state.end_foreground();
            registered
        },
    }
}

/// Exports a derived report without the operational history.
pub fn export_active_report_with_selection<
    F: FnOnce(&str) -> Result<Option<String>, SessionErrorPayload>,
    I: FnOnce(&str, &str) -> Result<Option<ReportDestinationIdentity>, SessionErrorPayload>,
    W: FnOnce(&str, &str, &str) -> Result<(), SessionErrorPayload>,
    N: FnOnce() -> String,
>(
    state: &mut DesktopState,
    format: ReportExportFormat,
    controller_evidence: ControllerEvidenceHandling,
    select: F,
    inspect: I,
    write_new: W,
    new_id: N,
) -> (r: Result<ExportReportOutcome, SessionErrorPayload>)
    requires
        forall|s: &str| call_requires(select, (s,)),
        forall|d: &str, n: &str| call_requires(inspect, (d, n)),
        forall|d: &str, n: &str, h: &str| call_requires(write_new, (d, n, h)),
        call_requires(new_id, ()),
    ensures
        old(state).foreground_busy ==> (r matches Err(e) && busy_error(e) && *final(state) == *old(state)),
        !old(state).foreground_busy ==> !final(state).foreground_busy && final(state).active == old(state).active,
        r matches Ok(ExportReportOutcome::ConfirmationRequired { .. }) ==> (final(state).pending_report_export matches Some(pending)
            && (old(state).active matches Some(a) && a.presentation matches Some(p)
            && export_html_spec(p, format, controller_evidence, OperationalHistoryHandling::Omitted) == Ok::<Seq<char>, Seq<char>>(pending.html@))),
        !old(state).foreground_busy ==> match old(state).active {
            Some(a) => match a.presentation {
                Some(p) => report_export_outcome(
                    p,
                    a.source@,
                    format,
                    controller_evidence,
                    OperationalHistoryHandling::Omitted,
                    select,
                    inspect,
                    write_new,
                    final(state).pending_report_export,
                    r,
                ),
                None => true,
            },
            None => true,
        },
{
    export_active_report_with_selection_and_disclosure(
        state,
        format,
        controller_evidence,
        OperationalHistoryHandling::Omitted,
        select,
        inspect,
        write_new,
        new_id,
    )
}

} // verus!

