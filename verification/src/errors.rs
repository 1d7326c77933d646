//! Typed error payloads returned across the desktop boundary.

use vstd::prelude::*;

use crate::text::{dec, owned, push_str, u64_text};

verus! {

/// The category of a failed desktop operation.
#[derive(Debug, Clone, Copy, PartialEq, Eq, Structural)]
pub enum SessionErrorKind {
    Selection,
    Destination,
    Filesystem,
    JsonParse,
    Validation,
    Analysis,
    ReportPipeline,
    Verification,
    Resource,
    Busy,
    StaleRevision,
    Conflict,
    Unsupported,
    Cancelled,
}

/// Machine-readable detail of an operation stopped by a policy.
#[derive(Debug, Clone, PartialEq, Eq)]
pub struct OperationErrorDetail {
    pub code: String,
    pub stage: String,
    pub observed: Option<u64>,
    pub limit: Option<u64>,
    pub unit: Option<String>,
}

/// Whether the failure was also recorded as an operational diagnostic.
#[derive(Debug, Clone, PartialEq, Eq)]
pub struct DiagnosticPersistenceDetail {
    pub status: String,
    pub diagnostic_id: Option<String>,
    pub reason_code: Option<String>,
}

/// The typed error every desktop command returns.
#[derive(Debug, Clone, PartialEq, Eq)]
pub struct SessionErrorPayload {
    pub kind: SessionErrorKind,
    pub message: String,
    pub detail: String,
    pub operation: Option<Box<OperationErrorDetail>>,
    pub diagnostic_persistence: Option<Box<DiagnosticPersistenceDetail>>,
}

/// A payload carries exactly the given kind, message and detail, and no
/// operation or persistence detail.
pub open spec fn plain_error(
    e: SessionErrorPayload,
    kind: SessionErrorKind,
    message: Seq<char>,
    detail: Seq<char>,
) -> bool {
    &&& e.kind == kind
    &&& e.message@ == message
    &&& e.detail@ == detail
    &&& e.operation is None
    &&& e.diagnostic_persistence is None
}

/// The detail text of a resource-policy stop.
pub open spec fn resource_detail(
    code: Seq<char>,
    stage: Seq<char>,
    limit: u64,
    observed: Option<u64>,
    unit: Seq<char>,
) -> Seq<char> {
    "code="@ + code + " stage="@ + stage + " limit="@ + dec(limit as nat) + " observed="@ + (
    match observed {
        Some(v) => dec(v as nat),
        None => "unknown"@,
    }) + " unit="@ + unit + " complete=false"@
}

/// A payload is the resource-policy stop with the given code, stage, limit,
/// observation and unit.
pub open spec fn resource_error(
    r: SessionErrorPayload,
    kind: SessionErrorKind,
    code: Seq<char>,
    stage: Seq<char>,
    limit: u64,
    observed: Option<u64>,
    unit: Seq<char>,
) -> bool {
    &&& r.kind == kind
    &&& r.message@ == "The local operation was stopped by its resource policy."@
    &&& r.detail@ == resource_detail(code, stage, limit, observed, unit)
    &&& r.diagnostic_persistence is None
    &&& r.operation matches Some(op) && op.code@ == code && op.stage@ == stage
        && op.observed == observed && op.limit == Some(limit) && (op.unit matches Some(u) && u@
        == unit)
}

impl SessionErrorPayload {
    pub fn new(kind: SessionErrorKind, message: &str, detail: &str) -> (r: Self)
        ensures
            plain_error(r, kind, message@, detail@),
    {
        SessionErrorPayload {
            kind,
            message: owned(message),
            detail: owned(detail),
            operation: None,
            diagnostic_persistence: None,
        }
    }

    /// The report pipeline failed.
    pub fn report_pipeline(detail: &str) -> (r: Self)
        ensures
            plain_error(
                r,
                SessionErrorKind::ReportPipeline,
                "The local report could not be prepared."@,
                detail@,
            ),
    {
        Self::new(SessionErrorKind::ReportPipeline, "The local report could not be prepared.", detail)
    }

    /// The operation was stopped by a resource policy.
    pub fn resource(
        kind: SessionErrorKind,
        code: &str,
        stage: &str,
        limit: u64,
        observed: Option<u64>,
        unit: &str,
    ) -> (r: Self)
        ensures
            resource_error(r, kind, code@, stage@, limit, observed, unit@),
    {
        let mut detail = String::new();
        push_str(&mut detail, "code=");
        push_str(&mut detail, code);
        push_str(&mut detail, " stage=");
        push_str(&mut detail, stage);
        push_str(&mut detail, " limit=");
        let limit_text = u64_text(limit);
        push_str(&mut detail, limit_text.as_str());
        push_str(&mut detail, " observed=");
        match observed {
            Some(v) => {
                let t = u64_text(v);
                push_str(&mut detail, t.as_str());
            },
            None => push_str(&mut detail, "unknown"),
        }
        push_str(&mut detail, " unit=");
        push_str(&mut detail, unit);
        push_str(&mut detail, " complete=false");
        let mut payload = Self::new(
            kind,
            "The local operation was stopped by its resource policy.",
            detail.as_str(),
        );
        payload.operation = Some(
            Box::new(
                OperationErrorDetail {
                    code: owned(code),
                    stage: owned(stage),
                    observed,
                    limit: Some(limit),
                    unit: Some(owned(unit)),
                },
            ),
        );
        payload
    }

    /// Marks the failure as persisted in the diagnostic history.
    pub fn with_diagnostic_persisted(self, diagnostic_id: Option<String>) -> (r: Self)
        ensures
            r.kind == self.kind,
            r.message@ == self.message@,
            r.detail@ == self.detail@,
            r.operation == self.operation,
            r.diagnostic_persistence matches Some(d) && d.status@ == "persisted"@
                && d.diagnostic_id == diagnostic_id && d.reason_code is None,
    {
        let mut r = self;
        r.diagnostic_persistence = Some(
            Box::new(
                DiagnosticPersistenceDetail {
                    status: owned("persisted"),
                    diagnostic_id,
                    reason_code: None,
                },
            ),
        );
        r
    }

    /// Attaches an operation code and stage without policy numbers.
    pub fn with_operation(self, code: &str, stage: &str) -> (r: Self)
        ensures
            r.kind == self.kind,
            r.message@ == self.message@,
            r.detail@ == self.detail@,
            r.diagnostic_persistence == self.diagnostic_persistence,
            r.operation matches Some(op) && op.code@ == code@ && op.stage@ == stage@
                && op.observed is None && op.limit is None && op.unit is None,
    {
        let mut r = self;
        r.operation = Some(
            Box::new(
                OperationErrorDetail {
                    code: owned(code),
                    stage: owned(stage),
                    observed: None,
                    limit: None,
                    unit: None,
                },
            ),
        );
        r
    }

    /// Marks the failure as not persisted, with the reason.
    pub fn with_diagnostic_not_persisted(self, reason_code: &str) -> (r: Self)
        ensures
            r.kind == self.kind,
            r.message@ == self.message@,
            r.detail@ == self.detail@,
            r.operation == self.operation,
            r.diagnostic_persistence matches Some(d) && d.status@ == "not_persisted"@
                && d.diagnostic_id is None && (d.reason_code matches Some(c) && c@ == reason_code@),
    {
        let mut r = self;
        r.diagnostic_persistence = Some(
            Box::new(
                DiagnosticPersistenceDetail {
                    status: owned("not_persisted"),
                    diagnostic_id: None,
                    reason_code: Some(owned(reason_code)),
                },
            ),
        );
        r
    }

    /// Replaces the operator-facing message.
    pub fn with_message(self, message: &str) -> (r: Self)
        ensures
            r.kind == self.kind,
            r.message@ == message@,
            r.detail@ == self.detail@,
            r.operation == self.operation,
            r.diagnostic_persistence == self.diagnostic_persistence,
    {
        let mut r = self;
        r.message = owned(message);
        r
    }
}

} // verus!
