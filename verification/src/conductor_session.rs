//! Reading and advancing the live conductor: a view is issued with an
//! action token, and an action presented under that token becomes one
//! operator event written at the revision the view showed.

use vstd::prelude::*;

use crate::conductor_actions::{
    event_for_action, event_for_action_v3, intention_event_outcome, plain_event_outcome, ConductorAction, OperatorEvent,
    OperatorEventPayload,
};
use crate::conductor_state::{
    after_register, live_error_payload, live_payload, presented, register_view_action, token_position, ConductorRuntime,
    LivePersistenceError, PendingAction,
};
use crate::conductor_view::{
    build_view, build_view_v3, cycle_sources_ok, recovery_view, recovery_view_ok, slot_instants_representable, view_v2_ok, view_v3_ok,
    ConductorRecoveryView, ConductorView, CycleRunSources, RecoveryReport, SlotRunSources,
};
use crate::desktop::{check_ipc_payload, ipc_encoding_error};
use crate::errors::{plain_error, resource_error, SessionErrorKind, SessionErrorPayload};
use crate::text::{dec, owned, push_str, str_eq, u64_text};

verus! {

/// The largest conductor view handed to the shell, in bytes.
pub const CONDUCTOR_VIEW_IPC_BYTES: u64 = 524288;

/// An action submitted under the token a conductor view was issued with,
/// for the revision that view showed.
#[derive(Debug, Clone, PartialEq)]
pub struct ConductorMutationRequest<Q> {
    pub action_token: String,
    pub expected_revision: u64,
    pub action: ConductorAction<Q>,
}

/// The write of one operator event at the expected revision, identified by
/// the action token.
#[derive(Debug, Clone, PartialEq)]
pub struct ConductorEventMutation<Q> {
    pub expected_revision: u64,
    pub mutation_id: String,
    pub event: OperatorEvent<Q>,
}

/// The error of an action that must be refreshed first, with its reason.
pub open spec fn refresh_error(e: SessionErrorPayload, detail: Seq<char>) -> bool {
    plain_error(e, SessionErrorKind::StaleRevision, "Refresh the conductor before submitting this action."@, detail)
}

/// The reason of an action token that was never issued or has expired.
pub open spec fn missing_token() -> Seq<char> {
    "the Rust-issued action token is missing or expired"@
}

/// The reason of an action token issued for another session or revision.
pub open spec fn mismatched_token() -> Seq<char> {
    "the action token does not match this session revision"@
}

/// The error of a schema the conductor cannot conduct.
pub open spec fn unsupported_schema_error(e: SessionErrorPayload, version: u16) -> bool {
    plain_error(
        e,
        SessionErrorKind::Unsupported,
        "This session schema cannot be conducted by this AntennaBench version."@,
        "unsupported schema version "@ + dec(version as nat),
    )
}

fn refresh(detail: &str) -> (r: SessionErrorPayload)
    ensures
        refresh_error(r, detail@),
{
    SessionErrorPayload::new(SessionErrorKind::StaleRevision, "Refresh the conductor before submitting this action.", detail)
}

fn unsupported_schema(version: u16) -> (r: SessionErrorPayload)
    ensures
        unsupported_schema_error(r, version),
{
    let mut detail = owned("unsupported schema version ");
    push_str(&mut detail, u64_text(version as u64).as_str());
    proof {
        reveal_strlit("unsupported schema version ");
    }
    SessionErrorPayload::new(
        SessionErrorKind::Unsupported,
        "This session schema cannot be conducted by this AntennaBench version.",
        detail.as_str(),
    )
}

/// The token the view was issued with is remembered for the session and
/// revision it shows.
pub open spec fn issued(before: Seq<PendingAction>, after: Seq<PendingAction>, token: String, session_id: Seq<char>, revision: u64) -> bool {
    exists|a: PendingAction| {
        &&& a.token == token
        &&& a.session_id@ == session_id
        &&& a.expected_revision == revision
        &&& a.occurred_at_ms is None
        &&& after == #[trigger] after_register(before, a)
    }
}

/// What the shell is answered with, given the outcome of encoding the view
/// `v`: the view when its encoding fits in `limit` bytes, and otherwise why
/// it was refused.
pub open spec fn ipc_answer<V>(
    encoded: Result<usize, String>,
    limit: u64,
    role: Seq<char>,
    v: V,
    r: Result<V, SessionErrorPayload>,
) -> bool {
    match encoded {
        Err(m) => r matches Err(e) && ipc_encoding_error(e, m@),
        Ok(n) => if n <= limit {
            r == Ok::<V, SessionErrorPayload>(v)
        } else {
            r matches Err(e) && resource_error(
                e,
                SessionErrorKind::Resource,
                "resource.desktop.ipc_bytes"@,
                role,
                limit,
                Some(n as u64),
                "bytes"@,
            )
        },
    }
}

/// The last committed mutation is `token`.
pub open spec fn landed(last: Option<String>, token: Seq<char>) -> bool {
    last matches Some(c) && c@ == token
}

/// The outcome of writing `m`: when the append succeeds, or fails though
/// the last committed mutation shows `m` landed, `then` holds; otherwise
/// the append's error is answered.
pub open spec fn write_outcome<Q, Ap, Lc, V>(
    append: Ap,
    last_committed: Lc,
    m: ConductorEventMutation<Q>,
    then: bool,
    r: Result<V, SessionErrorPayload>,
) -> bool
    where
        Ap: FnOnce(ConductorEventMutation<Q>) -> Result<(), LivePersistenceError>,
        Lc: FnOnce() -> Option<String>,
{
    exists|appended: Result<(), LivePersistenceError>| {
        &&& #[trigger] call_ensures(append, (m,), appended)
        &&& match appended {
            Ok(_) => then,
            Err(l) => exists|last: Option<String>| {
                &&& #[trigger] call_ensures(last_committed, (), last)
                &&& if landed(last, m.mutation_id@) {
                    then
                } else {
                    r matches Err(e) && live_payload(l, e)
                }
            },
        }
    }
}

/// The answer once a cycle-intention event is written: the session is read
/// again and shown in a view issued with `next_token`, which the shell
/// receives when its encoding fits.
pub open spec fn answer_v3<Q, M, W, Rd, Ln>(
    read: Rd,
    encoded_len: Ln,
    bundle_name: Seq<char>,
    viewed_at_ms: i64,
    next_token: Seq<char>,
    r: Result<ConductorView<Q, M, W>, SessionErrorPayload>,
) -> bool
    where
        Rd: Fn() -> Result<CycleRunSources<Q, M, W>, LivePersistenceError>,
        Ln: FnOnce(&ConductorView<Q, M, W>) -> Result<usize, String>,
{
    exists|again: Result<CycleRunSources<Q, M, W>, LivePersistenceError>| {
        &&& #[trigger] call_ensures(read, (), again)
        &&& match again {
            Err(l) => r matches Err(e) && live_payload(l, e),
            Ok(after) => exists|v: ConductorView<Q, M, W>, n: Result<usize, String>| {
                &&& view_v3_ok(v, bundle_name, after, viewed_at_ms, next_token, None)
                &&& #[trigger] call_ensures(encoded_len, (&v,), n)
                &&& ipc_answer(n, CONDUCTOR_VIEW_IPC_BYTES, "conductor_view"@, v, r)
            },
        }
    }
}

/// The answer once a plain-slot event is written, as for a cycle-intention
/// session.
pub open spec fn answer_v2<Q, M, W, Rd, Ln>(
    read: Rd,
    encoded_len: Ln,
    bundle_name: Seq<char>,
    viewed_at_ms: i64,
    next_token: Seq<char>,
    r: Result<ConductorView<Q, M, W>, SessionErrorPayload>,
) -> bool
    where
        Rd: Fn() -> Result<SlotRunSources, LivePersistenceError>,
        Ln: FnOnce(&ConductorView<Q, M, W>) -> Result<usize, String>,
{
    exists|again: Result<SlotRunSources, LivePersistenceError>| {
        &&& #[trigger] call_ensures(read, (), again)
        &&& match again {
            Err(l) => r matches Err(e) && live_payload(l, e),
            Ok(after) => exists|v: ConductorView<Q, M, W>, n: Result<usize, String>| {
                &&& view_v2_ok(v, bundle_name, after, viewed_at_ms, next_token, None)
                &&& #[trigger] call_ensures(encoded_len, (&v,), n)
                &&& ipc_answer(n, CONDUCTOR_VIEW_IPC_BYTES, "conductor_view"@, v, r)
            },
        }
    }
}

/// Writes the event an action presented under `request`'s token records in
/// a cycle-intention session, read by `read`, and answers with a fresh view
/// issued with `next_token`. The token must still be remembered and must
/// have been issued for this session at the expected revision; it is first
/// presented at `presented_at_ms`. A failed append counts as done when
/// `last_committed` shows the token's mutation landed.
pub fn mutate_conductor_v3<Q: Copy, M: Copy, W: Copy, Rd, Nc, Ap, Lc, Ln>(
    conductor: &mut ConductorRuntime,
    bundle_name: String,
    request: ConductorMutationRequest<Q>,
    presented_at_ms: i64,
    viewed_at_ms: i64,
    next_token: String,
    read: &Rd,
    next_cycle: Nc,
    append: Ap,
    last_committed: Lc,
    encoded_len: Ln,
) -> (r: Result<ConductorView<Q, M, W>, SessionErrorPayload>)
    where
        Rd: Fn() -> Result<CycleRunSources<Q, M, W>, LivePersistenceError>,
        Nc: FnOnce(i64) -> Result<i64, String>,
        Ap: FnOnce(ConductorEventMutation<Q>) -> Result<(), LivePersistenceError>,
        Lc: FnOnce() -> Option<String>,
        Ln: FnOnce(&ConductorView<Q, M, W>) -> Result<usize, String>,
    requires
        call_requires(*read, ()),
        forall|s: CycleRunSources<Q, M, W>| call_ensures(*read, (), Ok(s)) ==> cycle_sources_ok(s),
        forall|t: i64| call_requires(next_cycle, (t,)),
        forall|m: ConductorEventMutation<Q>| call_requires(append, (m,)),
        call_requires(last_committed, ()),
        forall|v: &ConductorView<Q, M, W>| call_requires(encoded_len, (v,)),
    ensures
        exists|snapshot: Result<CycleRunSources<Q, M, W>, LivePersistenceError>| {
            &&& #[trigger] call_ensures(*read, (), snapshot)
            &&& match snapshot {
                Err(l) => r matches Err(e) && live_payload(l, e) && final(conductor).pending_actions@ == old(conductor).pending_actions@,
                Ok(s) => match token_position(old(conductor).pending_actions@, request.action_token@) {
                    None => r matches Err(e) && refresh_error(e, missing_token()),
                    Some(i) => {
                        let p = presented(old(conductor).pending_actions@[i], presented_at_ms);
                        if p.session_id@ != s.session.session_id@ || p.expected_revision != request.expected_revision {
                            r matches Err(e) && refresh_error(e, mismatched_token())
                        } else {
                            &&& exists|made: Result<(Option<String>, OperatorEventPayload<Q>), SessionErrorPayload>, written: Result<OperatorEvent<Q>, SessionErrorPayload>| {
                                &&& #[trigger] intention_event_outcome(
                                    request.action,
                                    p.occurred_at_ms->Some_0,
                                    s.session.schema_version,
                                    s.session.session_id@,
                                    p.token@,
                                    made,
                                    written,
                                )
                                &&& match written {
                                    Err(e) => r == Err::<ConductorView<Q, M, W>, SessionErrorPayload>(e),
                                    Ok(ev) => write_outcome(
                                        append,
                                        last_committed,
                                        ConductorEventMutation { expected_revision: request.expected_revision, mutation_id: p.token, event: ev },
                                        answer_v3(*read, encoded_len, bundle_name@, viewed_at_ms, next_token@, r),
                                        r,
                                    ),
                                }
                            }
                            &&& r is Ok ==> exists|ev: OperatorEvent<Q>, appended: Result<(), LivePersistenceError>, after: CycleRunSources<Q, M, W>|
                                #![trigger call_ensures(append, ((ConductorEventMutation { expected_revision: request.expected_revision, mutation_id: p.token, event: ev }),), appended), call_ensures(*read, (), Ok::<CycleRunSources<Q, M, W>, LivePersistenceError>(after))]
                            {
                                &&& exists|made: Result<(Option<String>, OperatorEventPayload<Q>), SessionErrorPayload>| #[trigger] intention_event_outcome(
                                    request.action,
                                    p.occurred_at_ms->Some_0,
                                    s.session.schema_version,
                                    s.session.session_id@,
                                    p.token@,
                                    made,
                                    Ok(ev),
                                )
                                &&& call_ensures(
                                    append,
                                    ((ConductorEventMutation { expected_revision: request.expected_revision, mutation_id: p.token, event: ev }),),
                                    appended,
                                )
                                &&& call_ensures(*read, (), Ok::<CycleRunSources<Q, M, W>, LivePersistenceError>(after))
                                &&& view_v3_ok(r->Ok_0, bundle_name@, after, viewed_at_ms, next_token@, None)
                                &&& issued(
                                    old(conductor).pending_actions@.update(i, p),
                                    final(conductor).pending_actions@,
                                    next_token,
                                    after.session.session_id@,
                                    after.session.revision,
                                )
                            }
                        }
                    },
                },
            }
        },
{
    let snapshot = match read() {
        Ok(s) => s,
        Err(l) => return Err(live_error_payload(l)),
    };
    let pending = match conductor.resolve_action(request.action_token.as_str(), presented_at_ms) {
        Some(p) => p,
        None => {
            proof {
                reveal_strlit("the Rust-issued action token is missing or expired");
            }
            return Err(refresh("the Rust-issued action token is missing or expired"));
        },
    };
    if !str_eq(pending.session_id.as_str(), snapshot.session.session_id.as_str()) || pending.expected_revision != request.expected_revision {
        proof {
            reveal_strlit("the action token does not match this session revision");
        }
        return Err(refresh("the action token does not match this session revision"));
    }
    let written = event_for_action_v3(
        snapshot.session.session_id.as_str(),
        snapshot.session.schema_version,
        &pending,
        request.action,
        next_cycle,
    );
    let event = match written {
        Ok(ev) => ev,
        Err(e) => return Err(e),
    };
    let mutation = ConductorEventMutation { expected_revision: request.expected_revision, mutation_id: pending.token.clone(), event };
    let ghost handed = mutation;
    let appended = append(mutation);
    let ghost outcome = appended;
    if let Err(l) = appended {
        let last = last_committed();
        let ghost seen = last;
        let committed = match last {
            Some(c) => str_eq(c.as_str(), pending.token.as_str()),
            None => false,
        };
        if !committed {
            proof {
                assert(call_ensures(append, (handed,), outcome));
                assert(call_ensures(last_committed, (), seen));
            }
            return Err(live_error_payload(l));
        }
        proof {
            assert(call_ensures(last_committed, (), seen));
        }
    }
    let again = read();
    let ghost reread = again;
    let bundle = match again {
        Ok(b) => b,
        Err(l) => {
            proof {
                assert(call_ensures(append, (handed,), outcome));
                assert(call_ensures(*read, (), reread));
            }
            return Err(live_error_payload(l));
        },
    };
    register_view_action(conductor, bundle.session.session_id.as_str(), bundle.session.revision, next_token.clone());
    let view = build_view_v3(bundle_name, &bundle, viewed_at_ms, next_token, None);
    let n = encoded_len(&view);
    let ghost size = n;
    let checked = check_ipc_payload(n, CONDUCTOR_VIEW_IPC_BYTES, "conductor_view");
    proof {
        assert(call_ensures(append, (handed,), outcome));
        assert(call_ensures(*read, (), reread));
        assert(call_ensures(encoded_len, (&view,), size));
    }
    if let Err(e) = checked {
        return Err(e);
    }
    proof {
        assert(call_ensures(append, (handed,), outcome));
        assert(call_ensures(*read, (), Ok::<CycleRunSources<Q, M, W>, LivePersistenceError>(bundle)));
    }
    Ok(view)
}

/// Writes the event an action presented under `request`'s token records in
/// a plain-slot session, read by `read`, and answers with a fresh view
/// issued with `next_token`; the token is checked as for a cycle-intention
/// session.
pub fn mutate_conductor_v2<Q: Copy, M: Copy, W: Copy, Rd, Ap, Lc, Ln>(
    conductor: &mut ConductorRuntime,
    bundle_name: String,
    request: ConductorMutationRequest<Q>,
    presented_at_ms: i64,
    viewed_at_ms: i64,
    next_token: String,
    read: &Rd,
    append: Ap,
    last_committed: Lc,
    encoded_len: Ln,
) -> (r: Result<ConductorView<Q, M, W>, SessionErrorPayload>)
    where
        Rd: Fn() -> Result<SlotRunSources, LivePersistenceError>,
        Ap: FnOnce(ConductorEventMutation<Q>) -> Result<(), LivePersistenceError>,
        Lc: FnOnce() -> Option<String>,
        Ln: FnOnce(&ConductorView<Q, M, W>) -> Result<usize, String>,
    requires
        call_requires(*read, ()),
        forall|s: SlotRunSources| call_ensures(*read, (), Ok(s)) ==> slot_instants_representable(s.slots@),
        forall|m: ConductorEventMutation<Q>| call_requires(append, (m,)),
        call_requires(last_committed, ()),
        forall|v: &ConductorView<Q, M, W>| call_requires(encoded_len, (v,)),
    ensures
        exists|snapshot: Result<SlotRunSources, LivePersistenceError>| {
            &&& #[trigger] call_ensures(*read, (), snapshot)
            &&& match snapshot {
                Err(l) => r matches Err(e) && live_payload(l, e) && final(conductor).pending_actions@ == old(conductor).pending_actions@,
                Ok(s) => match token_position(old(conductor).pending_actions@, request.action_token@) {
                    None => r matches Err(e) && refresh_error(e, missing_token()),
                    Some(i) => {
                        let p = presented(old(conductor).pending_actions@[i], presented_at_ms);
                        if p.session_id@ != s.session_id@ || p.expected_revision != request.expected_revision {
                            r matches Err(e) && refresh_error(e, mismatched_token())
                        } else {
                            &&& exists|made: Result<(Option<String>, OperatorEventPayload<Q>), SessionErrorPayload>, written: Result<OperatorEvent<Q>, SessionErrorPayload>| {
                                &&& #[trigger] plain_event_outcome(
                                    request.action,
                                    p.occurred_at_ms->Some_0,
                                    s.session_id@,
                                    p.token@,
                                    made,
                                    written,
                                )
                                &&& match written {
                                    Err(e) => r == Err::<ConductorView<Q, M, W>, SessionErrorPayload>(e),
                                    Ok(ev) => write_outcome(
                                        append,
                                        last_committed,
                                        ConductorEventMutation { expected_revision: request.expected_revision, mutation_id: p.token, event: ev },
                                        answer_v2(*read, encoded_len, bundle_name@, viewed_at_ms, next_token@, r),
                                        r,
                                    ),
                                }
                            }
                            &&& r is Ok ==> exists|ev: OperatorEvent<Q>, appended: Result<(), LivePersistenceError>, after: SlotRunSources|
                                #![trigger call_ensures(append, ((ConductorEventMutation { expected_revision: request.expected_revision, mutation_id: p.token, event: ev }),), appended), call_ensures(*read, (), Ok::<SlotRunSources, LivePersistenceError>(after))]
                            {
                                &&& exists|made: Result<(Option<String>, OperatorEventPayload<Q>), SessionErrorPayload>| #[trigger] plain_event_outcome(
                                    request.action,
                                    p.occurred_at_ms->Some_0,
                                    s.session_id@,
                                    p.token@,
                                    made,
                                    Ok(ev),
                                )
                                &&& call_ensures(
                                    append,
                                    ((ConductorEventMutation { expected_revision: request.expected_revision, mutation_id: p.token, event: ev }),),
                                    appended,
                                )
                                &&& call_ensures(*read, (), Ok::<SlotRunSources, LivePersistenceError>(after))
                                &&& view_v2_ok(r->Ok_0, bundle_name@, after, viewed_at_ms, next_token@, None)
                                &&& issued(
                                    old(conductor).pending_actions@.update(i, p),
                                    final(conductor).pending_actions@,
                                    next_token,
                                    after.session_id@,
                                    after.revision,
                                )
                            }
                        }
                    },
                },
            }
        },
{
    let snapshot = match read() {
        Ok(s) => s,
        Err(l) => return Err(live_error_payload(l)),
    };
    let pending = match conductor.resolve_action(request.action_token.as_str(), presented_at_ms) {
        Some(p) => p,
        None => {
            proof {
                reveal_strlit("the Rust-issued action token is missing or expired");
            }
            return Err(refresh("the Rust-issued action token is missing or expired"));
        },
    };
    if !str_eq(pending.session_id.as_str(), snapshot.session_id.as_str()) || pending.expected_revision != request.expected_revision {
        proof {
            reveal_strlit("the action token does not match this session revision");
        }
        return Err(refresh("the action token does not match this session revision"));
    }
    let written = event_for_action(snapshot.session_id.as_str(), &pending, request.action);
    let event = match written {
        Ok(ev) => ev,
        Err(e) => return Err(e),
    };
    let mutation = ConductorEventMutation { expected_revision: request.expected_revision, mutation_id: pending.token.clone(), event };
    let ghost handed = mutation;
    let appended = append(mutation);
    let ghost outcome = appended;
    if let Err(l) = appended {
        let last = last_committed();
        let ghost seen = last;
        let committed = match last {
            Some(c) => str_eq(c.as_str(), pending.token.as_str()),
            None => false,
        };
        if !committed {
            proof {
                assert(call_ensures(append, (handed,), outcome));
                assert(call_ensures(last_committed, (), seen));
            }
            return Err(live_error_payload(l));
        }
        proof {
            assert(call_ensures(last_committed, (), seen));
        }
    }
    let again = read();
    let ghost reread = again;
    let bundle = match again {
        Ok(b) => b,
        Err(l) => {
            proof {
                assert(call_ensures(append, (handed,), outcome));
                assert(call_ensures(*read, (), reread));
            }
            return Err(live_error_payload(l));
        },
    };
    register_view_action(conductor, bundle.session_id.as_str(), bundle.revision, next_token.clone());
    let view = build_view(bundle_name, &bundle, viewed_at_ms, next_token, None);
    let n = encoded_len(&view);
    let ghost size = n;
    let checked = check_ipc_payload(n, CONDUCTOR_VIEW_IPC_BYTES, "conductor_view");
    proof {
        assert(call_ensures(append, (handed,), outcome));
        assert(call_ensures(*read, (), reread));
        assert(call_ensures(encoded_len, (&view,), size));
    }
    if let Err(e) = checked {
        return Err(e);
    }
    proof {
        assert(call_ensures(append, (handed,), outcome));
        assert(call_ensures(*read, (), Ok::<SlotRunSources, LivePersistenceError>(bundle)));
    }
    Ok(view)
}

/// The schema version of plain-slot sessions that can be conducted.
pub const PLAIN_CONDUCTOR_SCHEMA: u16 = 2;

/// The newest schema version that can be conducted.
pub const NEWEST_CONDUCTOR_SCHEMA: u16 = 6;

/// What reading the conductor of the session at `source` shows: its view,
/// issued with a fresh token; the first time the session is conducted it
/// is recovered first, tokens issued for another session expire, and the
/// view shows the recovery.
pub open spec fn read_view_ok<Q, M, W, Rv, Rs, Rc>(
    r: ConductorView<Q, M, W>,
    old_conductor: ConductorRuntime,
    new_conductor: ConductorRuntime,
    source: Seq<char>,
    version: u16,
    bundle_name: Seq<char>,
    viewed_at_ms: i64,
    next_token: String,
    recover: Rv,
    read_slots: Rs,
    read_cycles: Rc,
) -> bool
    where
        Rv: FnOnce(u16) -> Result<RecoveryReport, LivePersistenceError>,
        Rs: FnOnce() -> Result<SlotRunSources, LivePersistenceError>,
        Rc: FnOnce() -> Result<CycleRunSources<Q, M, W>, LivePersistenceError>,
{
    let initialized = old_conductor.initialized_source matches Some(s) && s@ == source;
    let base = if initialized { old_conductor.pending_actions@ } else { Seq::empty() };
    &&& new_conductor.initialized_source matches Some(s) && s@ == source
    &&& (initialized ==> r.recovery is None)
    &&& (!initialized ==> exists|report: RecoveryReport| {
        &&& #[trigger] call_ensures(recover, (version,), Ok::<RecoveryReport, LivePersistenceError>(report))
        &&& r.recovery matches Some(v) && recovery_view_ok(v, report)
    })
    &&& if version == PLAIN_CONDUCTOR_SCHEMA {
        exists|b: SlotRunSources| {
            &&& #[trigger] call_ensures(read_slots, (), Ok::<SlotRunSources, LivePersistenceError>(b))
            &&& view_v2_ok(r, bundle_name, b, viewed_at_ms, next_token@, r.recovery)
            &&& issued(base, new_conductor.pending_actions@, next_token, b.session_id@, b.revision)
        }
    } else {
        exists|b: CycleRunSources<Q, M, W>| {
            &&& #[trigger] call_ensures(read_cycles, (), Ok::<CycleRunSources<Q, M, W>, LivePersistenceError>(b))
            &&& view_v3_ok(r, bundle_name, b, viewed_at_ms, next_token@, r.recovery)
            &&& issued(base, new_conductor.pending_actions@, next_token, b.session.session_id@, b.session.revision)
        }
    }
}

/// What reading a session of schema `version` answers once recovery, if
/// any, is done: the slots or cycles are read and shown in a view issued
/// with `next_token`, which the shell receives when its encoding fits.
pub open spec fn shown_outcome<Q, M, W, Rs, Rc, Ln>(
    version: u16,
    bundle_name: Seq<char>,
    viewed_at_ms: i64,
    next_token: Seq<char>,
    recovery: Option<ConductorRecoveryView>,
    read_slots: Rs,
    read_cycles: Rc,
    encoded_len: Ln,
    r: Result<ConductorView<Q, M, W>, SessionErrorPayload>,
) -> bool
    where
        Rs: FnOnce() -> Result<SlotRunSources, LivePersistenceError>,
        Rc: FnOnce() -> Result<CycleRunSources<Q, M, W>, LivePersistenceError>,
        Ln: FnOnce(&ConductorView<Q, M, W>) -> Result<usize, String>,
{
    if version == PLAIN_CONDUCTOR_SCHEMA {
        exists|got: Result<SlotRunSources, LivePersistenceError>| {
            &&& #[trigger] call_ensures(read_slots, (), got)
            &&& match got {
                Err(l) => r matches Err(e) && live_payload(l, e),
                Ok(b) => exists|v: ConductorView<Q, M, W>, n: Result<usize, String>| {
                    &&& view_v2_ok(v, bundle_name, b, viewed_at_ms, next_token, recovery)
                    &&& #[trigger] call_ensures(encoded_len, (&v,), n)
                    &&& ipc_answer(n, CONDUCTOR_VIEW_IPC_BYTES, "conductor_view"@, v, r)
                },
            }
        }
    } else {
        exists|got: Result<CycleRunSources<Q, M, W>, LivePersistenceError>| {
            &&& #[trigger] call_ensures(read_cycles, (), got)
            &&& match got {
                Err(l) => r matches Err(e) && live_payload(l, e),
                Ok(b) => exists|v: ConductorView<Q, M, W>, n: Result<usize, String>| {
                    &&& view_v3_ok(v, bundle_name, b, viewed_at_ms, next_token, recovery)
                    &&& #[trigger] call_ensures(encoded_len, (&v,), n)
                    &&& ipc_answer(n, CONDUCTOR_VIEW_IPC_BYTES, "conductor_view"@, v, r)
                },
            }
        }
    }
}

/// What reading the conductor of the session at `source` answers for each
/// result of the recovery (run the first time the session is conducted),
/// the read and the encoding in turn.
pub open spec fn read_outcome<Q, M, W, Rv, Rs, Rc, Ln>(
    old_conductor: ConductorRuntime,
    source: Seq<char>,
    version: u16,
    bundle_name: Seq<char>,
    viewed_at_ms: i64,
    next_token: Seq<char>,
    recover: Rv,
    read_slots: Rs,
    read_cycles: Rc,
    encoded_len: Ln,
    r: Result<ConductorView<Q, M, W>, SessionErrorPayload>,
) -> bool
    where
        Rv: FnOnce(u16) -> Result<RecoveryReport, LivePersistenceError>,
        Rs: FnOnce() -> Result<SlotRunSources, LivePersistenceError>,
        Rc: FnOnce() -> Result<CycleRunSources<Q, M, W>, LivePersistenceError>,
        Ln: FnOnce(&ConductorView<Q, M, W>) -> Result<usize, String>,
{
    if old_conductor.initialized_source matches Some(s) && s@ == source {
        shown_outcome(version, bundle_name, viewed_at_ms, next_token, None, read_slots, read_cycles, encoded_len, r)
    } else {
        exists|recovered: Result<RecoveryReport, LivePersistenceError>| {
            &&& #[trigger] call_ensures(recover, (version,), recovered)
            &&& match recovered {
                Err(l) => r matches Err(e) && live_payload(l, e),
                Ok(report) => exists|shown: ConductorRecoveryView| {
                    &&& recovery_view_ok(shown, report)
                    &&& #[trigger] shown_outcome(
                        version,
                        bundle_name,
                        viewed_at_ms,
                        next_token,
                        Some(shown),
                        read_slots,
                        read_cycles,
                        encoded_len,
                        r,
                    )
                },
            }
        }
    }
}

/// A schema version the conductor can conduct.
pub open spec fn conductible(version: u16) -> bool {
    PLAIN_CONDUCTOR_SCHEMA <= version <= NEWEST_CONDUCTOR_SCHEMA
}

/// Reads the conductor of the live session at `source`, whose schema
/// version reads as `schema`: a schema it cannot conduct is refused; the
/// first time the session is conducted it is recovered by `recover`; the
/// session is then read and shown in a view issued with `next_token`.
pub fn read_conductor<Q: Copy, M: Copy, W: Copy, Rv, Rs, Rc, Ln>(
    conductor: &mut ConductorRuntime,
    source: &str,
    bundle_name: String,
    schema: Result<u16, crate::open_errors::StoreError>,
    viewed_at_ms: i64,
    next_token: String,
    recover: Rv,
    read_slots: Rs,
    read_cycles: Rc,
    encoded_len: Ln,
) -> (r: Result<ConductorView<Q, M, W>, SessionErrorPayload>)
    where
        Rv: FnOnce(u16) -> Result<RecoveryReport, LivePersistenceError>,
        Rs: FnOnce() -> Result<SlotRunSources, LivePersistenceError>,
        Rc: FnOnce() -> Result<CycleRunSources<Q, M, W>, LivePersistenceError>,
        Ln: FnOnce(&ConductorView<Q, M, W>) -> Result<usize, String>,
    requires
        forall|v: u16| call_requires(recover, (v,)),
        call_requires(read_slots, ()),
        call_requires(read_cycles, ()),
        forall|s: SlotRunSources| call_ensures(read_slots, (), Ok(s)) ==> slot_instants_representable(s.slots@),
        forall|s: CycleRunSources<Q, M, W>| call_ensures(read_cycles, (), Ok(s)) ==> cycle_sources_ok(s),
        forall|v: &ConductorView<Q, M, W>| call_requires(encoded_len, (v,)),
    ensures
        !crate::conductor_state::live_bundle_name(source@) ==> (r matches Err(e) && crate::conductor_state::not_live_error(e)),
        crate::conductor_state::live_bundle_name(source@) ==> match schema {
            Err(se) => r matches Err(e) && crate::open_errors::storage_payload(se, e),
            Ok(v) => {
                &&& !conductible(v) ==> (r matches Err(e) && unsupported_schema_error(e, v))
                &&& conductible(v) ==> read_outcome(
                    *old(conductor),
                    source@,
                    v,
                    bundle_name@,
                    viewed_at_ms,
                    next_token@,
                    recover,
                    read_slots,
                    read_cycles,
                    encoded_len,
                    r,
                )
                &&& (conductible(v) && r is Ok) ==> read_view_ok(
                    r->Ok_0,
                    *old(conductor),
                    *final(conductor),
                    source@,
                    v,
                    bundle_name@,
                    viewed_at_ms,
                    next_token,
                    recover,
                    read_slots,
                    read_cycles,
                )
            },
        },
{
    crate::conductor_state::ensure_live_source(source)?;
    let version = match schema {
        Ok(v) => v,
        Err(e) => return Err(crate::open_errors::storage_error_payload(e)),
    };
    if version < PLAIN_CONDUCTOR_SCHEMA || version > NEWEST_CONDUCTOR_SCHEMA {
        return Err(unsupported_schema(version));
    }
    let ghost was_initialized = old(conductor).initialized_source matches Some(s) && s@ == source@;
    let ghost mut recovered_g: Result<RecoveryReport, LivePersistenceError> = Err(LivePersistenceError::WriterBusy);
    let recovery = if !conductor.is_initialized(source) {
        let recovered = recover(version);
        proof {
            recovered_g = recovered;
        }
        let report = match recovered {
            Ok(report) => report,
            Err(l) => {
                proof {
                    assert(call_ensures(recover, (version,), recovered_g));
                }
                return Err(live_error_payload(l));
            },
        };
        conductor.mark_initialized(owned(source));
        let shown = recovery_view(&report);
        proof {
            assert(call_ensures(recover, (version,), Ok::<RecoveryReport, LivePersistenceError>(report)));
            assert(conductor.pending_actions@ =~= Seq::<PendingAction>::empty());
        }
        Some(shown)
    } else {
        None
    };
    let ghost shown_g = recovery;
    let view = if version == PLAIN_CONDUCTOR_SCHEMA {
        let got = read_slots();
        let ghost got_g = got;
        let bundle = match got {
            Ok(b) => b,
            Err(l) => {
                let e = live_error_payload(l);
                proof {
                    assert(call_ensures(read_slots, (), got_g));
                    assert(shown_outcome(
                        version, bundle_name@, viewed_at_ms, next_token@, shown_g, read_slots, read_cycles, encoded_len,
                        Err::<ConductorView<Q, M, W>, SessionErrorPayload>(e),
                    ));
                    if !was_initialized {
                        assert(call_ensures(recover, (version,), recovered_g));
                    }
                }
                return Err(e);
            },
        };
        register_view_action(conductor, bundle.session_id.as_str(), bundle.revision, next_token.clone());
        let view = build_view(bundle_name, &bundle, viewed_at_ms, next_token, recovery);
        proof {
            assert(call_ensures(read_slots, (), Ok::<SlotRunSources, LivePersistenceError>(bundle)));
        }
        view
    } else {
        let got = read_cycles();
        let ghost got_g = got;
        let bundle = match got {
            Ok(b) => b,
            Err(l) => {
                let e = live_error_payload(l);
                proof {
                    assert(call_ensures(read_cycles, (), got_g));
                    assert(shown_outcome(
                        version, bundle_name@, viewed_at_ms, next_token@, shown_g, read_slots, read_cycles, encoded_len,
                        Err::<ConductorView<Q, M, W>, SessionErrorPayload>(e),
                    ));
                    if !was_initialized {
                        assert(call_ensures(recover, (version,), recovered_g));
                    }
                }
                return Err(e);
            },
        };
        register_view_action(conductor, bundle.session.session_id.as_str(), bundle.session.revision, next_token.clone());
        let view = build_view_v3(bundle_name, &bundle, viewed_at_ms, next_token, recovery);
        proof {
            assert(call_ensures(read_cycles, (), Ok::<CycleRunSources<Q, M, W>, LivePersistenceError>(bundle)));
        }
        view
    };
    let n = encoded_len(&view);
    let ghost size = n;
    let checked = check_ipc_payload(n, CONDUCTOR_VIEW_IPC_BYTES, "conductor_view");
    let r = match checked {
        Err(e) => Err(e),
        Ok(()) => Ok(view),
    };
    proof {
        assert(call_ensures(encoded_len, (&view,), size));
        assert(shown_outcome(version, bundle_name@, viewed_at_ms, next_token@, shown_g, read_slots, read_cycles, encoded_len, r));
        if !was_initialized {
            assert(call_ensures(recover, (version,), recovered_g));
            assert(recovered_g is Ok);
            assert(shown_g is Some);
            assert(recovery_view_ok(shown_g->Some_0, recovered_g->Ok_0));
        } else {
            assert(shown_g is None);
        }
        assert(read_outcome(*old(conductor), source@, version, bundle_name@, viewed_at_ms, next_token@, recover, read_slots, read_cycles, encoded_len, r));
    }
    r
}

} // verus!
