//! Guards and sessions: what is asked of the backend, when, and how much time is left.

use vstd::prelude::*;

use crate::fake::{Event, EventView, FakeBackend, FakeView};
use crate::linux::DbusBackend;
use crate::session::{Clock, Kind, Manager, ManagerView, Session, SessionView, TestClock};
use crate::time::{Duration, Instant};
use crate::windows::PowerRequestBackend;
use crate::{
    acquire, Backend, Error, Flags, Guard, GuardView, Handle, HandleView, NativeBackend, Platform,
    Request, RequestView, SystemAssertion,
};

verus! {

// ---------------------------------------------------------------------------
// Requests, errors, handles
// ---------------------------------------------------------------------------

/// Flags are empty exactly if none is set; the two ready-made sets hold the system up and differ
/// in the display.
pub proof fn law_flags(flags: Flags, empty: bool, both: Flags, system: Flags, none: Flags)
    requires
        call_ensures(Flags::is_empty, (flags,), empty),
        call_ensures(Flags::display_and_system, (), both),
        call_ensures(Flags::system_only, (), system),
        call_ensures(Flags::default, (), none),
    ensures
        empty <==> !(flags.display || flags.system || flags.disk),
        both.display && both.system && !both.disk,
        !system.display && system.system && !system.disk,
        !none.display && !none.system && !none.disk,
        flags.count() == (if flags.display {
            1int
        } else {
            0
        }) + (if flags.system {
            1int
        } else {
            0
        }) + (if flags.disk {
            1int
        } else {
            0
        }),
{
}

/// A request asks for what it was made with, and a timeout changes nothing else.
pub proof fn law_request_keeps_what_it_was_made_with(
    flags: Flags,
    reason: &str,
    req: Request,
    timeout: Duration,
    timed: Request,
)
    requires
        call_ensures(Request::new, (flags, reason), req),
        call_ensures(Request::with_timeout, (req, timeout), timed),
    ensures
        req.flags == flags,
        req.reason@ == reason@,
        req.timeout is None,
        timed.flags == flags,
        timed.reason@ == reason@,
        timed.timeout == Some(timeout),
{
    assert(timed@.flags == req@.flags);
    assert(timed@.reason == req@.reason);
    assert(timed@.timeout == Some(timeout));
}

/// An error in words names the call and gives the whole code, or says what is not supported.
pub proof fn law_error_is_told_in_full(e: Error, text: String)
    requires
        call_ensures(Error::message, (&e,), text),
    ensures
        match e {
            Error::Os { call, code } => exists|number: Seq<char>|
                #[trigger] crate::laws::signed_number(number, code as int) && text@ == call@
                    + " failed (code "@ + number + ")"@,
            Error::Unsupported(what) => text@ == "unsupported on this platform: "@ + what@,
            Error::EmptyRequest => text@ == "request asked for no assertions"@,
        },
{
    if let Error::Os { call, code } = e {
        crate::laws::lemma_signed_is_signed(code as int);
    }
}

/// Whether `t` is `front` and `last` with a comma and a space between them.
pub open spec fn joined(t: Seq<char>, front: Seq<char>, last: Seq<char>) -> bool {
    t == front + ", "@ + last
}

/// Whether `t` lists the ids in order, each in decimal, with a comma and a space between them.
pub open spec fn lists(t: Seq<char>, ids: Seq<u64>) -> bool
    decreases ids.len(),
{
    if ids.len() == 0 {
        t.len() == 0
    } else if ids.len() == 1 {
        crate::laws::plain_number(t, ids[0] as int)
    } else {
        exists|front: Seq<char>, last: Seq<char>|
            {
                &&& #[trigger] joined(t, front, last)
                &&& lists(front, ids.drop_last())
                &&& crate::laws::plain_number(last, ids.last() as int)
            }
    }
}

proof fn lemma_id_list_lists(ids: Seq<u64>)
    ensures
        lists(crate::id_list(ids), ids),
    decreases ids.len(),
{
    if ids.len() == 1 {
        crate::laws::lemma_decimal_is_plain(ids[0] as nat);
    } else if ids.len() > 1 {
        let front = crate::id_list(ids.drop_last());
        let last = crate::text::decimal(ids.last() as nat);
        lemma_id_list_lists(ids.drop_last());
        crate::laws::lemma_decimal_is_plain(ids.last() as nat);
        assert(joined(crate::id_list(ids), front, last));
    }
}

/// A handle in words lists every id and says whether it is timed.
pub proof fn law_handle_is_told_in_full(handle: Handle, text: String)
    requires
        call_ensures(Handle::describe, (&handle,), text),
    ensures
        exists|list: Seq<char>| #[trigger]
            lists(list, handle.ids@) && text@ == "Handle { ids: ["@ + list + "], timed: "@ + (
            if handle.timed {
                "true"@
            } else {
                "false"@
            }) + " }"@,
{
    lemma_id_list_lists(handle.ids@);
}

/// Each platform gets its own backend, and the macOS one has declared no activity yet.
pub proof fn law_platform_gets_its_backend(platform: Platform, backend: NativeBackend)
    requires
        call_ensures(crate::default_backend, (platform,), backend),
    ensures
        backend is IoKit <==> platform is MacOs,
        backend is PowerRequest <==> platform is Windows,
        backend is Dbus <==> platform is Unix,
        backend matches NativeBackend::IoKit(iokit) ==> iokit.user_activity_id == 0,
{
}

// ---------------------------------------------------------------------------
// The in-memory backend
// ---------------------------------------------------------------------------

/// The id that is handed out after `last`, `k` further on; past the largest the count starts
/// over at zero.
pub open spec fn kth_id(last: u64, k: int) -> int {
    if last + k <= u64::MAX {
        last + k
    } else {
        last + k - u64::MAX - 1
    }
}

/// An acquire hands out one id for each flag, counting on from the last, holds them, and writes
/// down the ids, the flags and the reason; a scheduled failure comes instead, once, and leaves
/// no trace.
pub proof fn law_fake_acquire(
    pre: FakeBackend,
    req: Request,
    post: FakeBackend,
    result: Result<Handle, Error>,
)
    requires
        exists|b: &mut FakeBackend|
            *b == pre && *final(b) == post && #[trigger] call_ensures(
                FakeBackend::acquire,
                (b, &req),
                result,
            ),
    ensures
        post@.fail_next_acquire is None,
        post@.fail_next_release == pre@.fail_next_release,
        match pre@.fail_next_acquire {
            Some(e) => {
                &&& result == Err::<Handle, Error>(e)
                &&& post@.live == pre@.live
                &&& post@.events == pre@.events
                &&& post@.last_id == pre@.last_id
            },
            None => {
                &&& result is Ok
                &&& ({
                    let ids = result->Ok_0.ids@;
                    &&& ids.len() == (if req.flags.display {
                        1int
                    } else {
                        0
                    }) + (if req.flags.system {
                        1int
                    } else {
                        0
                    }) + (if req.flags.disk {
                        1int
                    } else {
                        0
                    })
                    &&& forall|i: int|
                        0 <= i < ids.len() ==> #[trigger] ids[i] == kth_id(pre@.last_id, i + 1)
                    &&& result->Ok_0.timed <==> req.timeout is Some
                    &&& forall|id: u64| #[trigger]
                        post@.live.contains(id) <==> pre@.live.contains(id) || ids.contains(id)
                    &&& post@.last_id == kth_id(pre@.last_id, ids.len() as int)
                    &&& post@.events == pre@.events.push(
                        EventView::Acquire { ids, flags: req.flags, reason: req.reason@ },
                    )
                })
            },
        },
{
    assert(FakeBackend::acquires(pre, req@, post, crate::acquired_view(result)));
    if pre@.fail_next_acquire is None {
        let ids = result->Ok_0.ids@;
        assert(ids == crate::fake::ids_after(pre@.last_id, req.flags.count()));
        assert forall|i: int| 0 <= i < ids.len() implies #[trigger] ids[i] == kth_id(
            pre@.last_id,
            i + 1,
        ) by {
            assert(ids[i] == crate::fake::id_after(pre@.last_id, i + 1));
        }
        assert forall|id: u64| #[trigger]
            post@.live.contains(id) <==> pre@.live.contains(id) || ids.contains(id) by {
            assert(ids.to_set().contains(id) <==> ids.contains(id));
        }
    }
}

/// A release is written down, and then holds none of the ids of the handle and all of the
/// others; after a scheduled failure, which comes once, everything is still held.
pub proof fn law_fake_release(
    pre: FakeBackend,
    handle: Handle,
    post: FakeBackend,
    result: Result<(), Error>,
)
    requires
        exists|b: &mut FakeBackend|
            *b == pre && *final(b) == post && #[trigger] call_ensures(
                FakeBackend::release,
                (b, &handle),
                result,
            ),
    ensures
        post@.fail_next_release is None,
        post@.fail_next_acquire == pre@.fail_next_acquire,
        post@.last_id == pre@.last_id,
        post@.events == pre@.events.push(EventView::Release { ids: handle.ids@ }),
        match pre@.fail_next_release {
            Some(e) => result == Err::<(), Error>(e) && post@.live == pre@.live,
            None => {
                &&& result is Ok
                &&& forall|id: u64| #[trigger]
                    post@.live.contains(id) <==> pre@.live.contains(id)
                        && !handle.ids@.contains(id)
            },
        },
{
    assert(FakeBackend::releases(pre, handle@, post, result));
    assert(forall|id: u64|
        #![auto]
        handle.ids@.to_set().contains(id) <==> handle.ids@.contains(id));
}

/// What is shown of the backend is what it holds: the ids in increasing order, each once, and
/// their number; and a new one holds nothing.
pub proof fn law_fake_shows_what_it_holds(b: FakeBackend, ids: Vec<u64>, n: usize, new: FakeBackend)
    requires
        call_ensures(FakeBackend::live_ids, (&b,), ids),
        call_ensures(FakeBackend::live_count, (&b,), n),
        call_ensures(FakeBackend::new, (), new),
    ensures
        forall|id: u64| ids@.contains(id) <==> #[trigger] b@.live.contains(id),
        forall|i: int, j: int| 0 <= i < j < ids@.len() ==> ids@[i] < ids@[j],
        n == ids@.len(),
        new@.live == Set::<u64>::empty(),
        new@.events.len() == 0,
        new@.last_id == 0,
        new@.fail_next_acquire is None && new@.fail_next_release is None,
{
    assert(ids@.no_duplicates());
    ids@.unique_seq_to_set();
    assert(forall|id: u64|
        #![auto]
        ids@.to_set().contains(id) <==> ids@.contains(id));
}

/// A declaration of user activity is written down with its reason and does nothing else.
pub proof fn law_fake_activity(
    pre: FakeBackend,
    reason: &str,
    post: FakeBackend,
    result: Result<(), Error>,
)
    requires
        exists|b: &mut FakeBackend|
            *b == pre && *final(b) == post && #[trigger] call_ensures(
                FakeBackend::declare_user_activity,
                (b, reason),
                result,
            ),
    ensures
        result is Ok,
        post@.live == pre@.live,
        post@.events == pre@.events.push(EventView::UserActivity { reason: reason@ }),
{
}

// ---------------------------------------------------------------------------
// Guards
// ---------------------------------------------------------------------------

/// A request for nothing is refused and the backend comes back as it was. Any other reaches the
/// backend once; what it grants is what the guard holds, and what it refuses is the error.
pub proof fn law_acquire<B: Backend>(backend: B, req: Request, result: Result<Guard<B>, (Error, B)>)
    requires
        call_ensures(acquire::<B>, (backend, req), result),
    ensures
        !(req.flags.display || req.flags.system || req.flags.disk) ==> result
            == Err::<Guard<B>, (Error, B)>((Error::EmptyRequest, backend)),
        (req.flags.display || req.flags.system || req.flags.disk) ==> match result {
            Ok(guard) => {
                &&& guard@.backend is Some
                &&& B::acquires(backend, req@, guard@.backend->Some_0, Ok(guard@.handle))
                &&& guard@.flags == req.flags
                &&& !guard@.released
            },
            Err((e, back)) => B::acquires(backend, req@, back, Err(e)),
        },
{
}

/// A guard that still holds something releases it once, whole, and hands the backend back as
/// that release left it, with its result.
pub proof fn law_release<B: Backend>(guard: Guard<B>, back: (B, Result<(), Error>))
    requires
        call_ensures(Guard::<B>::release, (guard,), back),
        guard@.backend is Some,
    ensures
        !guard@.released ==> B::releases(
            guard@.backend->Some_0,
            guard@.handle,
            back.0,
            back.1,
        ),
        guard@.released ==> back.0 == guard@.backend->Some_0 && back.1 is Ok,
{
}

/// Acquiring and releasing leaves held what was held before, and two lines in the log: the ids
/// that were handed out, and the same ids given back.
pub proof fn law_acquire_then_release(
    backend: FakeBackend,
    req: Request,
    guard: Guard<FakeBackend>,
    back: (FakeBackend, Result<(), Error>),
)
    requires
        crate::leak::in_order(backend@),
        crate::leak::has_room(backend@, req.flags.count()),
        backend@.fail_next_release is None,
        call_ensures(acquire::<FakeBackend>, (backend, req), Ok(guard)),
        call_ensures(Guard::<FakeBackend>::release, (guard,), back),
    ensures
        back.1 is Ok,
        back.0@.live == backend@.live,
        back.0@.events == backend@.events.push(
            EventView::Acquire {
                ids: guard@.handle.ids,
                flags: req.flags,
                reason: req.reason@,
            },
        ).push(EventView::Release { ids: guard@.handle.ids }),
{
    crate::leak::law_release_undoes_acquire(backend@, req@);
}

/// A guard that is dropped gives back what it still holds, once, and has a line to report
/// exactly if that failed: the line tells the handle, the backend's name and the error.
pub proof fn law_dropped_guard_gives_back<B: Backend>(
    pre: Guard<B>,
    post: Guard<B>,
    report: Option<String>,
)
    requires
        exists|g: &mut Guard<B>|
            *g == pre && *final(g) == post && #[trigger] call_ensures(
                Guard::<B>::release_or_report,
                (g,),
                report,
            ),
    ensures
        pre@.released || pre@.backend is None ==> report is None && post@ == pre@,
        !pre@.released && pre@.backend is Some ==> {
            &&& post@.released
            &&& post@.handle == pre@.handle
            &&& post@.backend is Some
            &&& exists|result: Result<(), Error>|
                {
                    &&& #[trigger] B::releases(
                        pre@.backend->Some_0,
                        pre@.handle,
                        post@.backend->Some_0,
                        result,
                    )
                    &&& report is Some <==> result is Err
                    &&& result matches Err(e) ==> exists|name: Seq<char>|
                        #[trigger] post@.backend->Some_0.goes_by(name) && report->Some_0@
                            == "no-afk: FAILED to release power assertion "@ + crate::handle_text(
                            pre@.handle,
                        ) + " via "@ + name + ": "@ + crate::error_text(e)
                            + ". The system may not sleep until this process exits."@
                }
        },
{
}

// ---------------------------------------------------------------------------
// The countdown
// ---------------------------------------------------------------------------

/// The time gone since a session's start is the reading less the start, and none before it.
pub proof fn law_elapsed_is_the_time_since_the_start(
    session: Session,
    now: Instant,
    elapsed: Duration,
)
    requires
        call_ensures(Session::elapsed, (&session, now), elapsed),
    ensures
        now@ >= session.started@ ==> session.started@ + elapsed@ == now@,
        now@ < session.started@ ==> elapsed@ == 0,
        session@.elapsed(now) == elapsed@,
{
}

/// A session of some length has left what lies between the reading and its end, counted from
/// its start, and nothing after that; it has expired exactly from its end on. An indefinite one
/// has no time to count and never expires.
pub proof fn law_remaining_is_the_time_to_the_end(
    session: Session,
    now: Instant,
    left: Option<Duration>,
    expired: bool,
)
    requires
        call_ensures(Session::remaining, (&session, now), left),
        call_ensures(Session::is_expired, (&session, now), expired),
    ensures
        match session.kind {
            Kind::Indefinite => left is None && !expired,
            Kind::For(total) => {
                let end = session.started@ + total@;
                &&& left is Some
                &&& session.started@ <= now@ <= end ==> now@ + left->Some_0@ == end
                &&& now@ >= end ==> left->Some_0@ == 0
                &&& now@ < session.started@ ==> left->Some_0@ == total@
                &&& now@ >= session.started@ ==> (expired <==> now@ >= end)
                &&& now@ < session.started@ ==> (expired <==> total@ == 0)
            },
        },
{
}

/// The same, of what a session says.
pub proof fn law_session_ends_at_its_length(session: SessionView, total: Duration, now: Instant)
    requires
        session.kind == Kind::For(total),
        now@ >= session.started@,
    ensures
        session.elapsed(now) == now@ - session.started@,
        session.remaining(now) == Some(
            if now@ <= session.started@ + total@ {
                (session.started@ + total@ - now@) as nat
            } else {
                0
            },
        ),
        session.expired(now) <==> now@ >= session.started@ + total@,
{
}

/// A moved clock reads as far on as it was moved.
pub proof fn law_test_clock_is_moved(
    pre: TestClock,
    by: Duration,
    post: TestClock,
    before: Instant,
    after: Instant,
)
    requires
        exists|c: &mut TestClock|
            *c == pre && *final(c) == post && #[trigger] call_ensures(
                TestClock::advance,
                (c, by),
                (),
            ),
        call_ensures(TestClock::now, (&pre,), before),
        call_ensures(TestClock::now, (&post,), after),
    ensures
        after@ == before@ + by@,
{
}

// ---------------------------------------------------------------------------
// The manager
// ---------------------------------------------------------------------------

/// A new manager has no session; what it shows is its session, and whether there is one.
pub proof fn law_manager_shows_its_session<B: Backend, C: Clock>(
    backend: B,
    clock: C,
    new: Manager<B, C>,
    manager: Manager<B, C>,
    active: bool,
    session: Option<&Session>,
)
    requires
        call_ensures(Manager::<B, C>::new, (backend, clock), new),
        call_ensures(Manager::<B, C>::is_active, (&manager,), active),
        call_ensures(Manager::<B, C>::session, (&manager,), session),
    ensures
        new@.active is None,
        new@.backend == backend,
        new@.clock == clock,
        active <==> session is Some,
        active <==> manager@.active is Some,
        session matches Some(s) ==> s@ == manager@.active->Some_0.0,
{
}

/// The time left is counted from the session's start by a reading of the clock.
pub proof fn law_time_left_is_read_off_the_clock<B: Backend, C: Clock>(
    manager: Manager<B, C>,
    left: Option<Duration>,
)
    requires
        call_ensures(Manager::<B, C>::remaining, (&manager,), left),
    ensures
        manager@.active is None ==> left is None,
        manager@.active matches Some((session, _)) ==> match session.kind {
            Kind::Indefinite => left is None,
            Kind::For(total) => {
                &&& left is Some
                &&& exists|now: Instant| #[trigger]
                    manager@.clock.may_read(now) && {
                        let end = session.started@ + total@;
                        &&& session.started@ <= now@ <= end ==> now@ + left->Some_0@ == end
                        &&& now@ >= end ==> left->Some_0@ == 0
                        &&& now@ < session.started@ ==> left->Some_0@ == total@
                    }
            },
        },
{
}

/// What a session asks of the backend: its flags, its reason, and its length as the deadline, if
/// it has one.
pub open spec fn asked_for(kind: Kind, flags: Flags, reason: Seq<char>, req: RequestView) -> bool {
    &&& req.flags == flags
    &&& req.reason == reason
    &&& match kind {
        Kind::Indefinite => req.timeout is None,
        Kind::For(d) => req.timeout == Some(d),
    }
}

/// Whether `mid` is a backend from which the manager's live session, if there was one, has been
/// released.
pub open spec fn let_go<B: Backend, C: Clock>(pre: Manager<B, C>, mid: B) -> bool {
    match pre@.active {
        None => mid == pre@.backend,
        Some((_, handle)) => B::releases(pre@.backend, handle, mid, Ok(())),
    }
}

/// A start that succeeds has released the old session and then asked the backend once, for the
/// flags, the reason and the deadline that were asked for; the live session is that one, from a
/// reading of the clock on. One that fails leaves no session: the old one could not be released,
/// or nothing was asked for, or the backend refused.
pub proof fn law_start<B: Backend, C: Clock>(
    pre: Manager<B, C>,
    kind: Kind,
    flags: Flags,
    reason: &str,
    post: Manager<B, C>,
    result: Result<(), Error>,
)
    requires
        exists|m: &mut Manager<B, C>|
            *m == pre && *final(m) == post && #[trigger] call_ensures(
                Manager::<B, C>::start,
                (m, kind, flags, reason),
                result,
            ),
    ensures
        post@.clock == pre@.clock,
        result is Ok <==> post@.active is Some,
        match result {
            Ok(_) => {
                let (session, handle) = post@.active->Some_0;
                &&& flags.display || flags.system || flags.disk
                &&& session.kind == kind
                &&& session.flags == flags
                &&& session.reason == reason@
                &&& pre@.clock.may_read(session.started)
                &&& exists|mid: B, req: RequestView|
                    {
                        &&& let_go(pre, mid)
                        &&& asked_for(kind, flags, reason@, req)
                        &&& #[trigger] B::acquires(mid, req, post@.backend, Ok(handle))
                    }
            },
            Err(e) => {
                ||| pre@.active is Some && B::releases(
                    pre@.backend,
                    pre@.active->Some_0.1,
                    post@.backend,
                    Err(e),
                )
                ||| !(flags.display || flags.system || flags.disk) && e == Error::EmptyRequest
                    && let_go(pre, post@.backend)
                ||| exists|mid: B, req: RequestView|
                    {
                        &&& flags.display || flags.system || flags.disk
                        &&& let_go(pre, mid)
                        &&& asked_for(kind, flags, reason@, req)
                        &&& #[trigger] B::acquires(mid, req, post@.backend, Err(e))
                    }
            },
        },
{
    lemma_start(pre, kind, flags, reason@, post, result);
}

proof fn lemma_start<B: Backend, C: Clock>(
    pre: Manager<B, C>,
    kind: Kind,
    flags: Flags,
    reason: Seq<char>,
    post: Manager<B, C>,
    result: Result<(), Error>,
)
    requires
        crate::session::manager_starts(pre@, kind, flags, reason, post@, result),
    ensures
        result matches Ok(_) ==> post@.active is Some && exists|mid: B, req: RequestView|
            {
                &&& let_go(pre, mid)
                &&& asked_for(kind, flags, reason, req)
                &&& #[trigger] B::acquires(mid, req, post@.backend, Ok(post@.active->Some_0.1))
            },
        result matches Err(e) ==> {
            ||| pre@.active is Some && B::releases(
                pre@.backend,
                pre@.active->Some_0.1,
                post@.backend,
                Err(e),
            )
            ||| !(flags.display || flags.system || flags.disk) && e == Error::EmptyRequest
                && let_go(pre, post@.backend)
            ||| exists|mid: B, req: RequestView|
                {
                    &&& flags.display || flags.system || flags.disk
                    &&& let_go(pre, mid)
                    &&& asked_for(kind, flags, reason, req)
                    &&& #[trigger] B::acquires(mid, req, post@.backend, Err(e))
                }
        },
{
    let req = crate::session::session_request(kind, flags, reason);
    assert(asked_for(kind, flags, reason, req));
    let (mid, stopped) = choose|mid: ManagerView<B, C>, stopped: Result<(), Error>|
        {
            &&& #[trigger] crate::session::manager_stops(pre@, mid, stopped)
            &&& match stopped {
                Ok(_) => crate::session::manager_begins(mid, kind, flags, reason, post@, result),
                Err(e) => post@ == mid && result == Err::<(), Error>(e),
            }
        };
    if let Ok(nothing) = stopped {
        assert(nothing == ());
        assert(let_go(pre, mid.backend));
        if !flags.asks_nothing() {
            let got = choose|got: Result<HandleView, Error>|
                #[trigger] B::acquires(mid.backend, req, post@.backend, got) && (got is Ok
                    <==> result is Ok) && (got matches Ok(handle) ==> post@.active is Some
                    && post@.active->Some_0.1 == handle) && (got matches Err(e) ==> result
                    == Err::<(), Error>(e));
            assert(B::acquires(mid.backend, req, post@.backend, got));
        }
    }
}

/// A stop releases what the live session holds, once, and there is no session after it,
/// whatever comes of that; without a session it does nothing and succeeds.
pub proof fn law_stop<B: Backend, C: Clock>(
    pre: Manager<B, C>,
    post: Manager<B, C>,
    result: Result<(), Error>,
)
    requires
        exists|m: &mut Manager<B, C>|
            *m == pre && *final(m) == post && #[trigger] call_ensures(
                Manager::<B, C>::stop,
                (m,),
                result,
            ),
    ensures
        post@.active is None,
        post@.clock == pre@.clock,
        match pre@.active {
            None => result is Ok && post@.backend == pre@.backend,
            Some((_, handle)) => B::releases(pre@.backend, handle, post@.backend, result),
        },
{
}

/// A tick ends a session only at a reading of the clock that is at least the session's whole
/// length after its start, and leaves a timed session alone only at a reading that is less. An
/// end releases what the session holds and is reported, or the failure to release it is.
pub proof fn law_tick_ends_a_session_on_time<B: Backend, C: Clock>(
    pre: Manager<B, C>,
    post: Manager<B, C>,
    result: Result<bool, Error>,
)
    requires
        exists|m: &mut Manager<B, C>|
            *m == pre && *final(m) == post && #[trigger] call_ensures(
                Manager::<B, C>::tick,
                (m,),
                result,
            ),
    ensures
        result == Ok::<bool, Error>(false) ==> {
            &&& post@ == pre@
            &&& pre@.active matches Some((session, _)) ==> match session.kind {
                Kind::Indefinite => true,
                Kind::For(total) => total@ > 0 && exists|now: Instant| #[trigger]
                    pre@.clock.may_read(now) && now@ < session.started@ + total@,
            }
        },
        result != Ok::<bool, Error>(false) ==> {
            &&& post@.active is None
            &&& post@.clock == pre@.clock
            &&& pre@.active is Some
            &&& ({
                let (session, handle) = pre@.active->Some_0;
                &&& session.kind is For
                &&& exists|now: Instant| #[trigger]
                    pre@.clock.may_read(now) && (session.kind->For_0@ > 0 ==> now@
                        >= session.started@ + session.kind->For_0@)
                &&& match result {
                    Ok(ended) => ended && B::releases(
                        pre@.backend,
                        handle,
                        post@.backend,
                        Ok(()),
                    ),
                    Err(e) => B::releases(pre@.backend, handle, post@.backend, Err(e)),
                }
            })
        },
{
    if result != Ok::<bool, Error>(false) {
        let stopped = choose|stopped: Result<(), Error>|
            #[trigger] crate::session::manager_stops(pre@, post@, stopped) && (stopped is Ok
                <==> result is Ok) && (stopped matches Err(e) ==> result == Err::<bool, Error>(
                e,
            ));
        if let Ok(nothing) = stopped {
            assert(nothing == ());
        }
    }
}

/// By a clock that stands still, a tick ends a session exactly if its end has come.
pub proof fn law_tick_by_a_still_clock<B: Backend>(
    pre: Manager<B, TestClock>,
    total: Duration,
    post: Manager<B, TestClock>,
    result: Result<bool, Error>,
)
    requires
        exists|m: &mut Manager<B, TestClock>|
            *m == pre && *final(m) == post && #[trigger] call_ensures(
                Manager::<B, TestClock>::tick,
                (m,),
                result,
            ),
        pre@.active is Some,
        pre@.active->Some_0.0.kind == Kind::For(total),
        pre@.active->Some_0.0.started@ <= pre@.clock@,
    ensures
        post@.active is Some <==> pre@.clock@ < pre@.active->Some_0.0.started@ + total@,
        result == Ok::<bool, Error>(false) <==> pre@.clock@ < pre@.active->Some_0.0.started@
            + total@,
{
}

/// Resetting the display idle timer tells the backend so, once, and leaves the session alone.
pub proof fn law_poke_reaches_the_backend<C: Clock>(
    pre: Manager<FakeBackend, C>,
    post: Manager<FakeBackend, C>,
    result: Result<(), Error>,
)
    requires
        exists|m: &mut Manager<FakeBackend, C>|
            *m == pre && *final(m) == post && #[trigger] call_ensures(
                Manager::<FakeBackend, C>::poke_display,
                (m,),
                result,
            ),
    ensures
        result is Ok,
        post@.active == pre@.active,
        post@.clock == pre@.clock,
        post@.backend@.live == pre@.backend@.live,
        post@.backend@.events == pre@.backend@.events.push(
            EventView::UserActivity { reason: "session tick"@ },
        ),
{
}

// ---------------------------------------------------------------------------
// What is shown of a value
// ---------------------------------------------------------------------------

/// What a request, a handle, a session and an event are taken to say is all that they hold.
pub proof fn law_nothing_is_left_unsaid(req: Request, handle: Handle, session: Session, event: Event)
    ensures
        req@.flags == req.flags && req@.reason == req.reason@ && req@.timeout == req.timeout,
        handle@.ids == handle.ids@ && handle@.timed == handle.timed,
        session@.kind == session.kind && session@.flags == session.flags,
        session@.reason == session.reason@ && session@.started == session.started,
        match event {
            Event::Acquire { ids, flags, reason } => event@ == (EventView::Acquire {
                ids: ids@,
                flags,
                reason: reason@,
            }),
            Event::Release { ids } => event@ == (EventView::Release { ids: ids@ }),
            Event::UserActivity { reason } => event@ == (EventView::UserActivity {
                reason: reason@,
            }),
        },
{
}

/// A guard gives its flags and its handle as they are; a copy of a handle, a session or an event
/// says the same.
pub proof fn law_copies_say_the_same<B: Backend>(
    guard: Guard<B>,
    flags: Flags,
    handle: &Handle,
    h: Handle,
    h2: Handle,
    s: Session,
    s2: Session,
    e: Event,
    e2: Event,
    none: Handle,
)
    requires
        call_ensures(Guard::<B>::flags, (&guard,), flags),
        call_ensures(Guard::<B>::handle, (&guard,), handle),
        call_ensures(Handle::clone, (&h,), h2),
        call_ensures(Session::clone, (&s,), s2),
        call_ensures(Event::clone, (&e,), e2),
        call_ensures(Handle::default, (), none),
    ensures
        flags == guard@.flags,
        handle.ids@ == guard@.handle.ids && handle.timed == guard@.handle.timed,
        h2.ids@ == h.ids@ && h2.timed == h.timed,
        s2.kind == s.kind && s2.flags == s.flags && s2.reason@ == s.reason@ && s2.started
            == s.started,
        e2@ == e@,
        none.ids@.len() == 0 && !none.timed,
{
    assert(h2@.ids == h@.ids);
    assert(s2@.reason == s@.reason && s2@.kind == s@.kind);
    assert(s2@.flags == s@.flags && s2@.started == s@.started);
    assert(handle@.ids == guard@.handle.ids);
    assert(none@.ids.len() == 0);
}

/// The log is shown whole and in order; a failure that is scheduled is scheduled, and nothing
/// else changes.
pub proof fn law_fake_log_and_failures(
    b: FakeBackend,
    events: Vec<Event>,
    err: Error,
    acquire_fails: FakeBackend,
    release_fails: FakeBackend,
)
    requires
        call_ensures(FakeBackend::events, (&b,), events),
        exists|f: &mut FakeBackend|
            *f == b && *final(f) == acquire_fails && #[trigger] call_ensures(
                FakeBackend::fail_next_acquire,
                (f, err),
                (),
            ),
        exists|f: &mut FakeBackend|
            *f == b && *final(f) == release_fails && #[trigger] call_ensures(
                FakeBackend::fail_next_release,
                (f, err),
                (),
            ),
    ensures
        events@.len() == b@.events.len(),
        forall|i: int| 0 <= i < events@.len() ==> (#[trigger] events@[i])@ == b@.events[i],
        acquire_fails@ == (FakeView { fail_next_acquire: Some(err), ..b@ }),
        release_fails@ == (FakeView { fail_next_release: Some(err), ..b@ }),
{
    assert forall|i: int| 0 <= i < events@.len() implies (#[trigger] events@[i])@
        == b@.events[i] by {
        assert(crate::fake::events_view(events@)[i] == events@[i]@);
    }
}

/// A platform without an implementation refuses everything, says which platform it is, and does
/// not change.
pub proof fn law_stubs_refuse(
    dbus: DbusBackend,
    dbus_after: DbusBackend,
    power: PowerRequestBackend,
    power_after: PowerRequestBackend,
    req: RequestView,
    handle: HandleView,
    got: Result<HandleView, Error>,
    released: Result<(), Error>,
    name: Seq<char>,
)
    ensures
        DbusBackend::acquires(dbus, req, dbus_after, got) ==> got == Err::<HandleView, Error>(
            Error::Unsupported("keep-awake is not implemented on Linux yet"),
        ),
        DbusBackend::releases(dbus, handle, dbus_after, released) ==> released == Err::<
            (),
            Error,
        >(Error::Unsupported("keep-awake is not implemented on Linux yet")),
        dbus.goes_by(name) <==> name == "linux/dbus"@,
        PowerRequestBackend::acquires(power, req, power_after, got) ==> got == Err::<
            HandleView,
            Error,
        >(Error::Unsupported("keep-awake is not implemented on Windows yet")),
        PowerRequestBackend::releases(power, handle, power_after, released) ==> released == Err::<
            (),
            Error,
        >(Error::Unsupported("keep-awake is not implemented on Windows yet")),
        power.goes_by(name) <==> name == "windows/powerrequest"@,
{
}

} // verus!
