//! Refreshing the active session's report: a coherent snapshot is read,
//! rendered and read again; the new presentation is published only when the
//! session did not change while it was rendered.

use vstd::prelude::*;

use crate::desktop::{busy_error, same_presentation, DesktopState, OpenedSession, ReportPresentation};
use crate::errors::{plain_error, SessionErrorKind, SessionErrorPayload};
use crate::text::{owned, str_eq};

verus! {

/// How many times a refresh reads the session before giving up on a
/// session that keeps changing.
pub const MAX_REFRESH_ATTEMPTS: usize = 3;

/// The identity a newly published presentation receives.
pub open spec fn next_presentation_id(n: u64) -> u64 {
    if n == u64::MAX {
        u64::MAX
    } else {
        (n + 1) as u64
    }
}

/// A presentation was rendered from the snapshot with this summary.
pub open spec fn matches_snapshot(p: ReportPresentation, snapshot: OpenedSession) -> bool {
    p.revision == snapshot.revision && p.session_id@ == snapshot.session_id@
}

/// The summary published with a refreshed report: the snapshot's values
/// under the active bundle name, with the report available.
pub open spec fn refreshed_summary(s: OpenedSession, snapshot: OpenedSession, bundle_name: Seq<char>) -> bool {
    &&& s.bundle_name@ == bundle_name
    &&& s.session_id@ == snapshot.session_id@
    &&& s.callsign@ == snapshot.callsign@
    &&& s.grid@ == snapshot.grid@
    &&& s.antenna_count == snapshot.antenna_count
    &&& s.slot_count == snapshot.slot_count
    &&& s.observation_count == snapshot.observation_count
    &&& s.schema_version == snapshot.schema_version
    &&& s.revision == snapshot.revision
    &&& s.lifecycle == snapshot.lifecycle
    &&& s.report_available
}

/// The error when there is no active session to refresh.
pub open spec fn no_report_error(e: SessionErrorPayload) -> bool {
    plain_error(
        e,
        SessionErrorKind::ReportPipeline,
        "The local report could not be prepared."@,
        "no active session report is available"@,
    )
}

/// The error when every attempt saw the session change under it.
pub open spec fn kept_changing_error(e: SessionErrorPayload) -> bool {
    plain_error(
        e,
        SessionErrorKind::StaleRevision,
        "The session kept changing while its report was refreshing."@,
        "no stale presentation was published; retry after the current intake burst"@,
    )
}

/// What a successful refresh leaves behind: either the current
/// presentation already matched a snapshot that `load` gave, and nothing
/// changed; or a presentation that `prepare` rendered from a snapshot whose
/// revision a second `load` confirmed is published under the next
/// identity, together with the snapshot's summary, and any pending report
/// replacement is dropped.
pub open spec fn refreshed<S, L: Fn() -> Result<(S, OpenedSession), SessionErrorPayload>, P: Fn(&S) -> Result<ReportPresentation, SessionErrorPayload>>(
    before: DesktopState,
    after: DesktopState,
    p: ReportPresentation,
    load: L,
    prepare: P,
) -> bool {
    &&& before.active matches Some(a)
    &&& after.active matches Some(b)
    &&& after.foreground_busy == before.foreground_busy
    &&& after.export_source == before.export_source
    &&& b.source == a.source
    &&& b.retained_presentation == a.retained_presentation
    &&& {
        ||| {
            &&& after == before
            &&& a.presentation matches Some(q) && same_presentation(q, p)
            &&& exists|s: (S, OpenedSession)| call_ensures(load, (), Ok::<(S, OpenedSession), SessionErrorPayload>(s)) && matches_snapshot(p, s.1)
        }
        ||| exists|s: (S, OpenedSession), v: (S, OpenedSession), q: ReportPresentation| {
            &&& call_ensures(load, (), Ok::<(S, OpenedSession), SessionErrorPayload>(s))
            &&& call_ensures(load, (), Ok::<(S, OpenedSession), SessionErrorPayload>(v))
            &&& v.1.revision == s.1.revision
            &&& call_ensures(prepare, (&s.0,), Ok::<ReportPresentation, SessionErrorPayload>(q))
            &&& p == (ReportPresentation { presentation_id: next_presentation_id(before.next_presentation_id), ..q })
            &&& b.presentation matches Some(x) && same_presentation(x, p)
            &&& refreshed_summary(b.summary, s.1, a.summary.bundle_name@)
            &&& after.next_presentation_id == p.presentation_id
            &&& after.pending_report_export is None
        }
    }
}

/// The current presentation was rendered from the snapshot with this
/// summary.
pub open spec fn reusable(current: Option<ReportPresentation>, snapshot: OpenedSession) -> bool {
    current matches Some(q) && matches_snapshot(q, snapshot)
}

/// What a refresh answers within `k` attempts, leaving `after` behind: an
/// attempt reads a snapshot with `load`; a current presentation rendered
/// from it is answered with nothing changed; otherwise `prepare` renders the
/// snapshot and a second `load` confirms its revision, and the rendering is
/// published as `next`; a changed revision spends the attempt; a failure of
/// either closure is answered as it is; no attempt left is an error.
pub open spec fn refresh_attempts<S, L, P>(
    before: DesktopState,
    after: DesktopState,
    current: Option<ReportPresentation>,
    next: u64,
    load: L,
    prepare: P,
    k: nat,
    r: Result<ReportPresentation, SessionErrorPayload>,
) -> bool
    where
        L: Fn() -> Result<(S, OpenedSession), SessionErrorPayload>,
        P: Fn(&S) -> Result<ReportPresentation, SessionErrorPayload>,
    decreases k,
{
    if k == 0 {
        r matches Err(e) && kept_changing_error(e)
    } else {
        exists|first: Result<(S, OpenedSession), SessionErrorPayload>| {
            &&& #[trigger] call_ensures(load, (), first)
            &&& match first {
                Err(e) => r == Err::<ReportPresentation, SessionErrorPayload>(e),
                Ok(s) => if reusable(current, s.1) {
                    &&& r matches Ok(x) && same_presentation(x, current->Some_0)
                    &&& after == before
                } else {
                    exists|rendered: Result<ReportPresentation, SessionErrorPayload>| {
                        &&& #[trigger] call_ensures(prepare, (&s.0,), rendered)
                        &&& match rendered {
                            Err(e) => r == Err::<ReportPresentation, SessionErrorPayload>(e),
                            Ok(q) => exists|second: Result<(S, OpenedSession), SessionErrorPayload>| {
                                &&& #[trigger] call_ensures(load, (), second)
                                &&& match second {
                                    Err(e) => r == Err::<ReportPresentation, SessionErrorPayload>(e),
                                    Ok(v) => if v.1.revision == s.1.revision {
                                        &&& r == Ok::<ReportPresentation, SessionErrorPayload>(
                                            ReportPresentation { presentation_id: next, ..q },
                                        )
                                        &&& after.next_presentation_id == next
                                    } else {
                                        refresh_attempts(before, after, current, next, load, prepare, (k - 1) as nat, r)
                                    },
                                }
                            },
                        }
                    }
                },
            }
        }
    }
}

fn same_revision(a: Option<u64>, b: Option<u64>) -> (r: bool)
    ensures
        r == (a == b),
{
    match (a, b) {
        (None, None) => true,
        (Some(x), Some(y)) => x == y,
        _ => false,
    }
}

/// Refreshes the active session's report as the single foreground
/// operation. `load` reads the session's committed snapshot, given with
/// its summary; `prepare` renders a snapshot's report. A failure of either
/// is returned with nothing changed.
pub fn refresh_active_session_report_for<
    S,
    L: Fn() -> Result<(S, OpenedSession), SessionErrorPayload>,
    P: Fn(&S) -> Result<ReportPresentation, SessionErrorPayload>,
>(state: &mut DesktopState, load: L, prepare: P) -> (r: Result<ReportPresentation, SessionErrorPayload>)
    requires
        call_requires(load, ()),
        forall|s: &S| call_requires(prepare, (s,)),
    ensures
        old(state).foreground_busy ==> (r matches Err(e) && busy_error(e) && *final(state) == *old(state)),
        !old(state).foreground_busy && old(state).active is None ==> (r matches Err(e) && no_report_error(e)
            && *final(state) == *old(state)),
        r is Err ==> *final(state) == *old(state),
        r matches Ok(p) ==> refreshed(*old(state), *final(state), p, load, prepare),
        (!old(state).foreground_busy && old(state).active is Some) ==> refresh_attempts(
            *old(state),
            *final(state),
            old(state).active->Some_0.presentation,
            next_presentation_id(old(state).next_presentation_id),
            load,
            prepare,
            MAX_REFRESH_ATTEMPTS as nat,
            r,
        ),
{
    state.begin_foreground()?;
    let bundle_name = match &state.active {
        None => {
            state.end_foreground();
            return Err(SessionErrorPayload::report_pipeline("no active session report is available"));
        },
        Some(a) => owned(a.summary.bundle_name.as_str()),
    };
    let ghost busy_state = *state;
    let mut attempt: usize = 0;
    while attempt < MAX_REFRESH_ATTEMPTS
        invariant
            *state == busy_state,
            busy_state == (DesktopState { foreground_busy: true, ..*old(state) }),
            !old(state).foreground_busy,
            old(state).active matches Some(a) && bundle_name@ == a.summary.bundle_name@,
            call_requires(load, ()),
            forall|s: &S| call_requires(prepare, (s,)),
            attempt <= MAX_REFRESH_ATTEMPTS,
            forall|rr: Result<ReportPresentation, SessionErrorPayload>, after: DesktopState|
                #[trigger] refresh_attempts(
                    *old(state),
                    after,
                    old(state).active->Some_0.presentation,
                    next_presentation_id(old(state).next_presentation_id),
                    load,
                    prepare,
                    (MAX_REFRESH_ATTEMPTS - attempt) as nat,
                    rr,
                ) ==> refresh_attempts(
                    *old(state),
                    after,
                    old(state).active->Some_0.presentation,
                    next_presentation_id(old(state).next_presentation_id),
                    load,
                    prepare,
                    MAX_REFRESH_ATTEMPTS as nat,
                    rr,
                ),
        decreases MAX_REFRESH_ATTEMPTS - attempt,
    {
        let ghost k = (MAX_REFRESH_ATTEMPTS - attempt) as nat;
        let ghost current = old(state).active->Some_0.presentation;
        let ghost next_id = next_presentation_id(old(state).next_presentation_id);
        let got = load();
        let ghost got_g = got;
        let (snapshot, summary) = match got {
            Ok(loaded) => loaded,
            Err(e) => {
                state.end_foreground();
                proof {
                    assert(call_ensures(load, (), got_g));
                    assert(refresh_attempts(*old(state), *state, current, next_id, load, prepare, k, Err(e)));
                }
                return Err(e);
            },
        };
        let ghost first = (snapshot, summary);
        let existing = match &state.active {
            Some(a) => match &a.presentation {
                Some(p) => if same_revision(p.revision, summary.revision) && str_eq(
                    p.session_id.as_str(),
                    summary.session_id.as_str(),
                ) {
                    Some(p.duplicate())
                } else {
                    None
                },
                None => None,
            },
            None => None,
        };
        if let Some(p) = existing {
            state.end_foreground();
            assert(matches_snapshot(p, first.1));
            proof {
                assert(call_ensures(load, (), got_g));
                assert(reusable(current, first.1));
                assert(refresh_attempts(*old(state), *state, current, next_id, load, prepare, k, Ok(p)));
            }
            return Ok(p);
        }
        assert(!reusable(current, first.1));
        let made = prepare(&snapshot);
        let ghost made_g = made;
        let mut presentation = match made {
            Ok(p) => p,
            Err(e) => {
                state.end_foreground();
                proof {
                    assert(call_ensures(load, (), got_g));
                    assert(call_ensures(prepare, (&first.0,), made_g));
                    assert(refresh_attempts(*old(state), *state, current, next_id, load, prepare, k, Err(e)));
                }
                return Err(e);
            },
        };
        let ghost rendered = presentation;
        let again = load();
        let ghost again_g = again;
        let verified = match again {
            Ok(loaded) => loaded,
            Err(e) => {
                state.end_foreground();
                proof {
                    assert(call_ensures(load, (), got_g));
                    assert(call_ensures(prepare, (&first.0,), made_g));
                    assert(call_ensures(load, (), again_g));
                    assert(refresh_attempts(*old(state), *state, current, next_id, load, prepare, k, Err(e)));
                }
                return Err(e);
            },
        };
        let ghost second = verified;
        if !same_revision(summary.revision, verified.1.revision) {
            proof {
                assert forall|rr: Result<ReportPresentation, SessionErrorPayload>, after: DesktopState|
                    #[trigger] refresh_attempts(*old(state), after, current, next_id, load, prepare, (k - 1) as nat, rr)
                    implies refresh_attempts(*old(state), after, current, next_id, load, prepare, k, rr) by {
                    assert(call_ensures(load, (), got_g));
                    assert(call_ensures(prepare, (&first.0,), made_g));
                    assert(call_ensures(load, (), again_g));
                }
                assert forall|rr: Result<ReportPresentation, SessionErrorPayload>, after: DesktopState|
                    #[trigger] refresh_attempts(
                        *old(state),
                        after,
                        current,
                        next_id,
                        load,
                        prepare,
                        (MAX_REFRESH_ATTEMPTS - (attempt + 1)) as nat,
                        rr,
                    ) implies refresh_attempts(*old(state), after, current, next_id, load, prepare, MAX_REFRESH_ATTEMPTS as nat, rr) by {
                    assert((MAX_REFRESH_ATTEMPTS - (attempt + 1)) as nat == (k - 1) as nat);
                    assert(refresh_attempts(*old(state), after, current, next_id, load, prepare, (k - 1) as nat, rr));
                    assert(refresh_attempts(*old(state), after, current, next_id, load, prepare, k, rr));
                    assert(refresh_attempts(
                        *old(state),
                        after,
                        current,
                        next_id,
                        load,
                        prepare,
                        (MAX_REFRESH_ATTEMPTS - attempt) as nat,
                        rr,
                    ));
                }
            }
            attempt = attempt + 1;
            continue;
        }
        let refreshed_summary = OpenedSession {
            bundle_name: owned(bundle_name.as_str()),
            session_id: summary.session_id,
            callsign: summary.callsign,
            grid: summary.grid,
            antenna_count: summary.antenna_count,
            slot_count: summary.slot_count,
            observation_count: summary.observation_count,
            schema_version: summary.schema_version,
            revision: summary.revision,
            lifecycle: summary.lifecycle,
            report_available: true,
        };
        let next = if state.next_presentation_id == u64::MAX {
            u64::MAX
        } else {
            state.next_presentation_id + 1
        };
        presentation.presentation_id = next;
        let published = presentation.duplicate();
        match state.active.take() {
            Some(mut a) => {
                a.summary = refreshed_summary;
                a.presentation = Some(published);
                state.active = Some(a);
            },
            None => {},
        }
        state.next_presentation_id = next;
        state.pending_report_export = None;
        state.end_foreground();
        assert(call_ensures(load, (), Ok::<(S, OpenedSession), SessionErrorPayload>(first)));
        assert(call_ensures(load, (), Ok::<(S, OpenedSession), SessionErrorPayload>(second)));
        assert(call_ensures(prepare, (&first.0,), Ok::<ReportPresentation, SessionErrorPayload>(rendered)));
        proof {
            assert(call_ensures(load, (), got_g));
            assert(call_ensures(prepare, (&first.0,), made_g));
            assert(call_ensures(load, (), again_g));
            assert(refresh_attempts(*old(state), *state, current, next_id, load, prepare, k, Ok(presentation)));
        }
        return Ok(presentation);
    }
    state.end_foreground();
    let e = SessionErrorPayload::new(
        SessionErrorKind::StaleRevision,
        "The session kept changing while its report was refreshing.",
        "no stale presentation was published; retry after the current intake burst",
    );
    proof {
        assert(refresh_attempts(
            *old(state),
            *state,
            old(state).active->Some_0.presentation,
            next_presentation_id(old(state).next_presentation_id),
            load,
            prepare,
            0,
            Err(e),
        ));
        assert((MAX_REFRESH_ATTEMPTS - attempt) as nat == 0);
        assert(refresh_attempts(
            *old(state),
            *state,
            old(state).active->Some_0.presentation,
            next_presentation_id(old(state).next_presentation_id),
            load,
            prepare,
            (MAX_REFRESH_ATTEMPTS - attempt) as nat,
            Err(e),
        ));
    }
    Err(e)
}

} // verus!
