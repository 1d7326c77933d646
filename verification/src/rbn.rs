//! Importing a Reverse Beacon Network daily archive into the active signal
//! session: which archives and sessions are admitted, and the listening
//! window and bands the session's schedule gives the import.

use vstd::prelude::*;

use crate::control_model::{Band, SessionLifecycle};
use crate::errors::{plain_error, resource_error, SessionErrorKind, SessionErrorPayload};
use crate::instants::{representable_instant, EARLIEST_INSTANT_MS, LATEST_INSTANT_MS};
use crate::text::{owned, push_str};

verus! {

/// The schema version of sessions with an explicit signal plan, the only
/// ones that take RBN evidence.
pub const SIGNAL_SESSION_SCHEMA_VERSION: u16 = 3;

/// One scheduled slot as the import reads it: its start (UTC milliseconds),
/// how long it runs and its guard after it (seconds), and its band.
#[derive(Debug, Clone, Copy, PartialEq, Eq, Structural)]
pub struct RbnScheduleSlot {
    pub starts_at_ms: i64,
    pub duration_seconds: u32,
    pub guard_seconds: u32,
    pub band: Band,
}

/// What the import looks for: spots of the station's callsign inside the
/// window, on the scheduled bands.
#[derive(Debug)]
pub struct RbnImportConfig {
    pub heard_callsign: String,
    pub window_start_ms: i64,
    pub window_end_ms: i64,
    pub selected_bands: Vec<Band>,
}

/// The error of a selection that is not a regular file.
pub open spec fn not_a_file_error(e: SessionErrorPayload, path: Seq<char>) -> bool {
    plain_error(e, SessionErrorKind::Selection, "Choose a regular local RBN ZIP archive."@, "selected path: "@ + path)
}

/// The error of an archive over the compressed-size limit at `stage`.
pub open spec fn archive_too_large(e: SessionErrorPayload, stage: Seq<char>, limit: u64, observed: u64) -> bool {
    resource_error(e, SessionErrorKind::Resource, "resource.rbn.compressed_bytes"@, stage, limit, Some(observed), "bytes"@)
}

/// Admits a selected archive before it is read: it must be a regular file
/// of at most `limit` compressed bytes.
pub fn rbn_archive_admission(path: &str, is_file: bool, compressed_len: u64, limit: u64) -> (r: Result<(), SessionErrorPayload>)
    ensures
        !is_file ==> (r matches Err(e) && not_a_file_error(e, path@)),
        is_file && compressed_len > limit ==> (r matches Err(e) && archive_too_large(e, "admission"@, limit, compressed_len)),
        is_file && compressed_len <= limit ==> r is Ok,
{
    if !is_file {
        let mut detail = owned("selected path: ");
        push_str(&mut detail, path);
        proof {
            reveal_strlit("selected path: ");
        }
        return Err(SessionErrorPayload::new(
            SessionErrorKind::Selection,
            "Choose a regular local RBN ZIP archive.",
            detail.as_str(),
        ));
    }
    if compressed_len > limit {
        return Err(SessionErrorPayload::resource(
            SessionErrorKind::Resource,
            "resource.rbn.compressed_bytes",
            "admission",
            limit,
            Some(compressed_len),
            "bytes",
        ));
    }
    Ok(())
}

/// Admits the bytes read from an archive: at most `limit` of them, since the
/// file may have grown after it was admitted.
pub fn rbn_read_admission(read_len: u64, limit: u64) -> (r: Result<(), SessionErrorPayload>)
    ensures
        read_len > limit ==> (r matches Err(e) && archive_too_large(e, "read"@, limit, read_len)),
        read_len <= limit ==> r is Ok,
{
    if read_len > limit {
        return Err(SessionErrorPayload::resource(
            SessionErrorKind::Resource,
            "resource.rbn.compressed_bytes",
            "read",
            limit,
            Some(read_len),
            "bytes",
        ));
    }
    Ok(())
}

/// The `Debug` name of a lifecycle.
pub open spec fn lifecycle_name(l: SessionLifecycle) -> Seq<char> {
    match l {
        SessionLifecycle::Draft => "Draft"@,
        SessionLifecycle::Ready => "Ready"@,
        SessionLifecycle::Running => "Running"@,
        SessionLifecycle::Interrupted => "Interrupted"@,
        SessionLifecycle::Ended => "Ended"@,
        SessionLifecycle::Abandoned => "Abandoned"@,
    }
}

fn lifecycle_text(l: SessionLifecycle) -> (r: &'static str)
    ensures
        r@ == lifecycle_name(l),
{
    proof {
        reveal_strlit("Draft");
        reveal_strlit("Ready");
        reveal_strlit("Running");
        reveal_strlit("Interrupted");
        reveal_strlit("Ended");
        reveal_strlit("Abandoned");
    }
    match l {
        SessionLifecycle::Draft => "Draft",
        SessionLifecycle::Ready => "Ready",
        SessionLifecycle::Running => "Running",
        SessionLifecycle::Interrupted => "Interrupted",
        SessionLifecycle::Ended => "Ended",
        SessionLifecycle::Abandoned => "Abandoned",
    }
}

/// The error of a session without an explicit signal plan.
pub open spec fn not_signal_session_error(e: SessionErrorPayload) -> bool {
    plain_error(
        e,
        SessionErrorKind::Unsupported,
        "RBN archive import requires a schema-v3 signal session."@,
        "open or create a schema-v3 session with an explicit signal plan"@,
    )
}

/// The error of a session that has not started.
pub open spec fn not_started_error(e: SessionErrorPayload, l: SessionLifecycle) -> bool {
    plain_error(
        e,
        SessionErrorKind::Unsupported,
        "RBN evidence can be imported only after the session has started."@,
        "current lifecycle: "@ + lifecycle_name(l),
    )
}

/// Admits the active session: a schema-v3 signal session that has started.
pub fn rbn_session_admission(schema_version: u16, lifecycle: SessionLifecycle) -> (r: Result<(), SessionErrorPayload>)
    ensures
        schema_version != SIGNAL_SESSION_SCHEMA_VERSION ==> (r matches Err(e) && not_signal_session_error(e)),
        schema_version == SIGNAL_SESSION_SCHEMA_VERSION && (lifecycle == SessionLifecycle::Draft || lifecycle
            == SessionLifecycle::Ready) ==> (r matches Err(e) && not_started_error(e, lifecycle)),
        schema_version == SIGNAL_SESSION_SCHEMA_VERSION && lifecycle != SessionLifecycle::Draft && lifecycle
            != SessionLifecycle::Ready ==> r is Ok,
{
    if schema_version != SIGNAL_SESSION_SCHEMA_VERSION {
        return Err(SessionErrorPayload::new(
            SessionErrorKind::Unsupported,
            "RBN archive import requires a schema-v3 signal session.",
            "open or create a schema-v3 session with an explicit signal plan",
        ));
    }
    match lifecycle {
        SessionLifecycle::Draft | SessionLifecycle::Ready => {
            let mut detail = owned("current lifecycle: ");
            push_str(&mut detail, lifecycle_text(lifecycle));
            proof {
                reveal_strlit("current lifecycle: ");
            }
            Err(SessionErrorPayload::new(
                SessionErrorKind::Unsupported,
                "RBN evidence can be imported only after the session has started.",
                detail.as_str(),
            ))
        },
        _ => Ok(()),
    }
}

/// When a slot's guard ends, unless adding its duration and guard
/// overflows or leaves the instants chrono represents.
pub open spec fn slot_end(s: RbnScheduleSlot) -> Option<i64> {
    let seconds = s.duration_seconds + s.guard_seconds;
    let end = s.starts_at_ms + seconds * 1000;
    if seconds > u32::MAX || !(EARLIEST_INSTANT_MS <= end <= LATEST_INSTANT_MS) {
        None
    } else {
        Some(end as i64)
    }
}

/// The earliest start among the slots.
pub open spec fn earliest_start(slots: Seq<RbnScheduleSlot>) -> Option<i64>
    decreases slots.len(),
{
    if slots.len() == 0 {
        None
    } else {
        let t = slots.last().starts_at_ms;
        match earliest_start(slots.drop_last()) {
            Some(m) => if t < m { Some(t) } else { Some(m) },
            None => Some(t),
        }
    }
}

/// The latest end among the slots whose end exists.
pub open spec fn latest_end(slots: Seq<RbnScheduleSlot>) -> Option<i64>
    decreases slots.len(),
{
    if slots.len() == 0 {
        None
    } else {
        let rest = latest_end(slots.drop_last());
        match slot_end(slots.last()) {
            None => rest,
            Some(t) => match rest {
                Some(m) => if t > m { Some(t) } else { Some(m) },
                None => Some(t),
            },
        }
    }
}

/// The bands of the slots, each once, in the order first seen.
pub open spec fn scheduled_bands(slots: Seq<RbnScheduleSlot>) -> Seq<Band>
    decreases slots.len(),
{
    if slots.len() == 0 {
        Seq::empty()
    } else {
        let rest = scheduled_bands(slots.drop_last());
        if rest.contains(slots.last().band) {
            rest
        } else {
            rest.push(slots.last().band)
        }
    }
}

/// The error of a schedule without slots.
pub open spec fn no_window_error(e: SessionErrorPayload) -> bool {
    plain_error(
        e,
        SessionErrorKind::Unsupported,
        "The active signal session has no RBN import window."@,
        "the schedule has no slots"@,
    )
}

/// The error of a schedule in which no slot end exists.
pub open spec fn no_valid_window_error(e: SessionErrorPayload) -> bool {
    plain_error(
        e,
        SessionErrorKind::Unsupported,
        "The active signal session has no valid RBN import window."@,
        "a scheduled slot end overflowed"@,
    )
}

fn slot_end_of(s: &RbnScheduleSlot) -> (r: Option<i64>)
    requires
        representable_instant(s.starts_at_ms),
    ensures
        r == slot_end(*s),
{
    let seconds = match s.duration_seconds.checked_add(s.guard_seconds) {
        Some(t) => t,
        None => return None,
    };
    let end = s.starts_at_ms + (seconds as i64) * 1000;
    if EARLIEST_INSTANT_MS <= end && end <= LATEST_INSTANT_MS {
        Some(end)
    } else {
        None
    }
}

fn contains_band(bands: &Vec<Band>, b: Band) -> (r: bool)
    ensures
        r == bands@.contains(b),
{
    let mut i: usize = 0;
    while i < bands.len()
        invariant
            i <= bands@.len(),
            forall|j: int| 0 <= j < i ==> bands@[j] != b,
        decreases bands@.len() - i,
    {
        if bands[i] == b {
            assert(bands@[i as int] == b);
            return true;
        }
        i = i + 1;
    }
    false
}

/// The listening window and bands of an import into a session whose
/// station is `callsign`: the window runs from the earliest slot start to
/// the latest slot end after its guard, leaving out slots whose end does
/// not exist; the bands are the scheduled ones, each once, in order.
pub fn rbn_import_config(slots: &Vec<RbnScheduleSlot>, callsign: &str) -> (r: Result<RbnImportConfig, SessionErrorPayload>)
    requires
        forall|i: int| 0 <= i < slots@.len() ==> representable_instant(#[trigger] slots@[i].starts_at_ms),
    ensures
        match earliest_start(slots@) {
            None => r matches Err(e) && no_window_error(e),
            Some(start) => match latest_end(slots@) {
                None => r matches Err(e) && no_valid_window_error(e),
                Some(end) => r matches Ok(c) && {
                    &&& c.heard_callsign@ == callsign@
                    &&& c.window_start_ms == start
                    &&& c.window_end_ms == end
                    &&& c.selected_bands@ == scheduled_bands(slots@)
                },
            },
        },
{
    let n = slots.len();
    let mut start: Option<i64> = None;
    let mut end: Option<i64> = None;
    let mut bands: Vec<Band> = Vec::new();
    let mut i: usize = 0;
    assert(slots@.take(0) =~= Seq::<RbnScheduleSlot>::empty());
    while i < n
        invariant
            i <= n,
            n == slots@.len(),
            forall|j: int| 0 <= j < slots@.len() ==> representable_instant(#[trigger] slots@[j].starts_at_ms),
            start == earliest_start(slots@.take(i as int)),
            end == latest_end(slots@.take(i as int)),
            bands@ == scheduled_bands(slots@.take(i as int)),
        decreases n - i,
    {
        let s = slots[i];
        assert(slots@.take(i + 1).drop_last() =~= slots@.take(i as int));
        assert(slots@.take(i + 1).last() == s);
        start = match start {
            Some(m) => if s.starts_at_ms < m { Some(s.starts_at_ms) } else { Some(m) },
            None => Some(s.starts_at_ms),
        };
        end = match slot_end_of(&s) {
            None => end,
            Some(t) => match end {
                Some(m) => if t > m { Some(t) } else { Some(m) },
                None => Some(t),
            },
        };
        if !contains_band(&bands, s.band) {
            bands.push(s.band);
        }
        i = i + 1;
    }
    assert(slots@.take(n as int) =~= slots@);
    let start = match start {
        Some(t) => t,
        None => {
            return Err(SessionErrorPayload::new(
                SessionErrorKind::Unsupported,
                "The active signal session has no RBN import window.",
                "the schedule has no slots",
            ));
        },
    };
    let end = match end {
        Some(t) => t,
        None => {
            return Err(SessionErrorPayload::new(
                SessionErrorKind::Unsupported,
                "The active signal session has no valid RBN import window.",
                "a scheduled slot end overflowed",
            ));
        },
    };
    Ok(RbnImportConfig { heard_callsign: owned(callsign), window_start_ms: start, window_end_ms: end, selected_bands: bands })
}

} // verus!
