//! Nothing leaks.
//!
//! A leaked assertion keeps the machine awake with no way left to let it sleep. Here the
//! in-memory backend stands for the OS, and what it holds is compared with what it should
//! hold: what others held before, and what the live session holds.

use vstd::prelude::*;

use crate::fake::{EventView, FakeBackend, FakeView};
use crate::session::{Clock, Kind, ManagerView};
use crate::settings::Settings;
use crate::shell::{AppView, Command, ReactionView};
use crate::{Backend, Error, Flags, HandleView, RequestView};

verus! {

/// Whether the event hands this id out.
pub open spec fn hands_out(event: EventView, id: u64) -> bool {
    match event {
        EventView::Acquire { ids, .. } => ids.contains(id),
        _ => false,
    }
}

/// Whether this id has been handed out at some time, by the log.
pub open spec fn issued(state: FakeView, id: u64) -> bool {
    exists|i: int| 0 <= i < state.events.len() && #[trigger] hands_out(state.events[i], id)
}

/// No id that is held, or has been handed out, is above the last one.
pub open spec fn in_order(state: FakeView) -> bool {
    &&& forall|id: u64| #[trigger] state.live.contains(id) ==> id <= state.last_id
    &&& forall|id: u64| #[trigger] issued(state, id) ==> id <= state.last_id
}

/// Whether `n` more ids can be handed out before the count starts over.
pub open spec fn has_room(state: FakeView, n: nat) -> bool {
    state.last_id + n <= u64::MAX
}

/// The ids of a request that is granted: as many as there are flags, all different, each above
/// every id that was handed out before, and none of them held before.
pub proof fn law_granted_ids_are_new(state: FakeView, req: RequestView)
    requires
        in_order(state),
        has_room(state, req.flags.count()),
        state.fail_next_acquire is None,
    ensures
        ({
            let (after, got) = state.acquire(req);
            &&& got is Ok
            &&& got->Ok_0.ids.len() == req.flags.count()
            &&& got->Ok_0.ids.no_duplicates()
            &&& forall|id: u64, before: u64|
                #[trigger] got->Ok_0.ids.contains(id) && #[trigger] issued(state, before)
                    ==> before < id
            &&& forall|id: u64| #[trigger] got->Ok_0.ids.contains(id) ==> issued(after, id)
            &&& got->Ok_0.ids.to_set().disjoint(state.live)
            &&& after.live == state.live + got->Ok_0.ids.to_set()
            &&& got->Ok_0.timed == (req.timeout is Some)
        }),
{
    let (after, got) = state.acquire(req);
    let ids = crate::fake::ids_after(state.last_id, req.flags.count());
    assert forall|i: int| 0 <= i < ids.len() implies #[trigger] ids[i] == state.last_id + i
        + 1 by {}
    assert forall|id: u64| ids.contains(id) implies id > state.last_id && issued(after, id) by {
        let i = choose|i: int| 0 <= i < ids.len() && ids[i] == id;
        assert(ids[i] == state.last_id + i + 1);
        assert(hands_out(after.events[state.events.len() as int], id));
    }
    assert(ids.to_set().disjoint(state.live)) by {
        assert forall|id: u64| ids.to_set().contains(id) implies !state.live.contains(id) by {
            assert(ids.contains(id));
        }
    }
}

/// Whatever the backend is asked to do, ids stay in order and the last one never falls.
pub proof fn law_ids_stay_in_order(state: FakeView, req: RequestView, handle: HandleView)
    requires
        in_order(state),
        has_room(state, req.flags.count()),
    ensures
        in_order(state.acquire(req).0),
        state.acquire(req).0.last_id >= state.last_id,
        in_order(state.release(handle).0),
        state.release(handle).0.last_id == state.last_id,
{
    lemma_release_stays_in_order(state, handle);
    let after = state.acquire(req).0;
    if state.fail_next_acquire is None {
        let ids = crate::fake::ids_after(state.last_id, req.flags.count());
        assert(after.last_id == state.last_id + req.flags.count());
        assert forall|id: u64| ids.contains(id) implies id <= after.last_id by {
            let i = choose|i: int| 0 <= i < ids.len() && ids[i] == id;
            assert(ids[i] == state.last_id + i + 1);
        }
        assert forall|id: u64| #[trigger] after.live.contains(id) implies id <= after.last_id by {
            assert(state.live.contains(id) || ids.contains(id));
        }
        assert forall|id: u64| #[trigger] issued(after, id) implies id <= after.last_id by {
            lemma_issued_grows(state, after, id);
        }
    } else {
        assert forall|id: u64| #[trigger] issued(after, id) implies id <= after.last_id by {
            assert(issued(state, id));
        }
    }
}

/// What is handed out after one more event was handed out before, or by that event.
proof fn lemma_issued_grows(state: FakeView, after: FakeView, id: u64)
    requires
        after.events.len() == state.events.len() + 1,
        after.events.drop_last() =~= state.events,
        issued(after, id),
    ensures
        issued(state, id) || hands_out(after.events.last(), id),
{
    let i = choose|i: int| 0 <= i < after.events.len() && hands_out(after.events[i], id);
    if i < state.events.len() {
        assert(after.events.drop_last()[i] == state.events[i]);
        assert(hands_out(state.events[i], id));
    }
}

proof fn lemma_release_stays_in_order(state: FakeView, handle: HandleView)
    requires
        in_order(state),
    ensures
        in_order(state.release(handle).0),
{
    let after = state.release(handle).0;
    assert forall|id: u64| #[trigger] after.live.contains(id) implies id <= after.last_id by {
        assert(state.live.contains(id));
    }
    assert forall|id: u64| #[trigger] issued(after, id) implies id <= after.last_id by {
        lemma_issued_grows(state, after, id);
    }
}

/// A request that is refused holds nothing more than before.
pub proof fn law_refused_request_holds_nothing(state: FakeView, req: RequestView)
    requires
        state.acquire(req).1 is Err,
    ensures
        state.acquire(req).0.live == state.live,
{
}

/// Releasing what was granted gives back exactly that.
pub proof fn law_release_undoes_acquire(state: FakeView, req: RequestView)
    requires
        in_order(state),
        has_room(state, req.flags.count()),
        state.fail_next_acquire is None,
        state.fail_next_release is None,
    ensures
        ({
            let (held, got) = state.acquire(req);
            let (after, result) = held.release(got->Ok_0);
            &&& got is Ok
            &&& result is Ok
            &&& after.live == state.live
        }),
{
    law_granted_ids_are_new(state, req);
    let (held, got) = state.acquire(req);
    assert(held.release(got->Ok_0).0.live =~= state.live);
}

/// The ids held for the live session.
pub open spec fn session_ids<C>(manager: ManagerView<FakeBackend, C>) -> Set<u64> {
    match manager.active {
        Some((_, handle)) => handle.ids.to_set(),
        None => Set::empty(),
    }
}

/// How many assertions the live session calls for: one for each of its flags.
pub open spec fn session_count<C>(manager: ManagerView<FakeBackend, C>) -> nat {
    match manager.active {
        Some((session, _)) => session.flags.count(),
        None => 0,
    }
}

/// What is held is what others hold, `rest`, and what the live session holds: one assertion for
/// each of its flags.
pub open spec fn holds<C>(manager: ManagerView<FakeBackend, C>, rest: Set<u64>) -> bool {
    &&& manager.backend@.live == rest + session_ids(manager)
    &&& rest.disjoint(session_ids(manager))
    &&& rest.finite()
    &&& session_ids(manager).finite()
    &&& session_ids(manager).len() == session_count(manager)
    &&& in_order(manager.backend@)
}

/// A new manager over a backend that has not been used holds nothing.
pub proof fn law_new_manager_holds_nothing<C: Clock>(manager: ManagerView<FakeBackend, C>)
    requires
        manager.backend@ == crate::fake::unused(),
        manager.active is None,
    ensures
        holds(manager, Set::empty()),
{
    assert(manager.backend@.live =~= Set::<u64>::empty() + session_ids(manager));
}

/// In every state, as many assertions are held as others hold and the live session has flags;
/// without a session, only what others hold.
pub proof fn law_held_count<C: Clock>(manager: ManagerView<FakeBackend, C>, rest: Set<u64>)
    requires
        holds(manager, rest),
    ensures
        manager.backend@.live.len() == rest.len() + session_count(manager),
        manager.active is None ==> manager.backend@.live == rest,
{
    vstd::set_lib::lemma_set_disjoint_lens(rest, session_ids(manager));
    assert(rest + Set::<u64>::empty() =~= rest);
}

/// Ending the session gives back what it held and nothing else.
pub proof fn law_stop_leaves_nothing<C: Clock>(
    pre: ManagerView<FakeBackend, C>,
    post: ManagerView<FakeBackend, C>,
    result: Result<(), Error>,
    rest: Set<u64>,
)
    requires
        holds(pre, rest),
        crate::session::manager_stops(pre, post, result),
        pre.backend@.fail_next_release is None,
    ensures
        result is Ok,
        holds(post, rest),
        post.backend@.live == rest,
{
    assert(post.backend@.live =~= rest);
    assert(rest + Set::<u64>::empty() =~= rest);
    if let Some((_, handle)) = pre.active {
        lemma_release_stays_in_order(pre.backend@, handle);
    }
}

/// Starting a session leaves held what others hold and what the new session holds: one
/// assertion for each flag, and nothing of the session it replaces. If it fails, only what
/// others hold is left.
pub proof fn law_start_replaces_without_leaking<C: Clock>(
    pre: ManagerView<FakeBackend, C>,
    kind: Kind,
    flags: Flags,
    reason: Seq<char>,
    post: ManagerView<FakeBackend, C>,
    result: Result<(), Error>,
    rest: Set<u64>,
)
    requires
        holds(pre, rest),
        crate::session::manager_starts(pre, kind, flags, reason, post, result),
        pre.backend@.fail_next_release is None,
        has_room(pre.backend@, flags.count()),
    ensures
        holds(post, rest),
        result is Ok <==> !flags.asks_nothing() && pre.backend@.fail_next_acquire is None,
        result is Ok ==> post.backend@.live.len() == rest.len() + flags.count(),
        result is Err ==> post.backend@.live == rest,
{
    let (mid, stopped) = choose|mid: ManagerView<FakeBackend, C>, stopped: Result<(), Error>|
        {
            &&& #[trigger] crate::session::manager_stops(pre, mid, stopped)
            &&& match stopped {
                Ok(_) => crate::session::manager_begins(mid, kind, flags, reason, post, result),
                Err(e) => post == mid && result == Err::<(), Error>(e),
            }
        };
    law_stop_leaves_nothing(pre, mid, stopped, rest);
    if !flags.asks_nothing() {
        let req = crate::session::session_request(kind, flags, reason);
        let got = choose|got: Result<HandleView, Error>| #[trigger]
            FakeBackend::acquires(mid.backend, req, post.backend, got);
        law_ids_stay_in_order(mid.backend@, req, crate::no_handle());
        if mid.backend@.fail_next_acquire is None {
            law_granted_ids_are_new(mid.backend@, req);
            got->Ok_0.ids.unique_seq_to_set();
            law_held_count(post, rest);
        }
    }
}

/// Resetting the display idle timer takes and gives back nothing.
pub proof fn law_poke_leaks_nothing<C: Clock>(
    pre: ManagerView<FakeBackend, C>,
    post: ManagerView<FakeBackend, C>,
    result: Result<(), Error>,
    rest: Set<u64>,
)
    requires
        holds(pre, rest),
        post == (ManagerView { backend: post.backend, ..pre }),
        exists|backend: &mut FakeBackend|
            {
                &&& *backend == pre.backend
                &&& *final(backend) == post.backend
                &&& #[trigger] call_ensures(
                    FakeBackend::declare_user_activity,
                    (backend, "session tick"),
                    result,
                )
            },
    ensures
        result is Ok,
        holds(post, rest),
        post.backend@.live == pre.backend@.live,
{
    assert forall|id: u64| #[trigger] issued(post.backend@, id) implies id
        <= post.backend@.last_id by {
        lemma_issued_grows(pre.backend@, post.backend@, id);
    }
}

/// A tick keeps what is held in step with the session, whether it ends it or not.
pub proof fn law_tick_leaks_nothing<C: Clock>(
    pre: ManagerView<FakeBackend, C>,
    post: ManagerView<FakeBackend, C>,
    result: Result<bool, Error>,
    rest: Set<u64>,
)
    requires
        holds(pre, rest),
        crate::session::manager_ticks(pre, post, result),
        pre.backend@.fail_next_release is None,
    ensures
        result is Ok,
        holds(post, rest),
        result == Ok::<bool, Error>(true) ==> post.backend@.live == rest,
{
    if post != pre {
        let stopped = choose|stopped: Result<(), Error>| #[trigger]
            crate::session::manager_stops(pre, post, stopped);
        law_stop_leaves_nothing(pre, post, stopped, rest);
    }
}

/// A change of the settings leaks nothing.
pub proof fn law_settings_leak_nothing<C: Clock>(
    pre: AppView<FakeBackend, C>,
    settings: Settings,
    post: AppView<FakeBackend, C>,
    result: Result<(), Error>,
    rest: Set<u64>,
)
    requires
        holds(pre.awake, rest),
        crate::shell::settings_apply(pre, settings, post, result),
        pre.awake.backend@.fail_next_release is None,
        pre.awake.active is Some ==> has_room(
            pre.awake.backend@,
            crate::shell::session_flags(settings.keep_display).count(),
        ),
    ensures
        holds(post.awake, rest),
{
    if let Some((session, _)) = pre.awake.active {
        let flags = crate::shell::session_flags(settings.keep_display);
        if settings.keep_display != pre.keep_display || session.flags != flags {
            law_start_replaces_without_leaking(
                pre.awake,
                session.kind,
                flags,
                session.reason,
                post.awake,
                result,
                rest,
            );
        }
    }
}

/// How many ids a click may have handed out: one for each flag of the session that it starts.
pub open spec fn ids_for<C>(pre: AppView<FakeBackend, C>, command: Command) -> nat {
    let keep = crate::shell::session_flags(pre.keep_display).count();
    match command {
        Command::Toggle => if pre.awake.active is Some {
            0
        } else {
            keep
        },
        Command::KeepDisplay => if pre.awake.active is Some {
            crate::shell::session_flags(!pre.keep_display).count()
        } else {
            0
        },
        Command::Start(_) => keep,
        _ => 0,
    }
}

/// No click leaks, whichever item it is on. After a click on Quit only what others hold is
/// left.
pub proof fn law_click_leaks_nothing<C: Clock>(
    pre: AppView<FakeBackend, C>,
    command: Command,
    post: AppView<FakeBackend, C>,
    reaction: ReactionView,
    rest: Set<u64>,
)
    requires
        holds(pre.awake, rest),
        crate::shell::click_does(pre, command, post, reaction),
        pre.awake.backend@.fail_next_release is None,
        has_room(pre.awake.backend@, ids_for(pre, command)),
    ensures
        holds(post.awake, rest),
        command is Quit ==> post.awake.backend@.live == rest,
{
    match command {
        Command::Quit => {
            let result = choose|result: Result<(), Error>| #[trigger]
                crate::session::manager_stops(pre.awake, post.awake, result);
            law_stop_leaves_nothing(pre.awake, post.awake, result, rest);
        },
        Command::Toggle => {
            let flags = crate::shell::session_flags(pre.keep_display);
            if pre.awake.active is Some {
                let result = choose|result: Result<(), Error>| #[trigger]
                    crate::session::manager_stops(pre.awake, post.awake, result);
                law_stop_leaves_nothing(pre.awake, post.awake, result, rest);
            } else {
                let (kind, result) = choose|kind: Kind, result: Result<(), Error>| #[trigger]
                    crate::session::manager_starts(
                        pre.awake,
                        kind,
                        flags,
                        "menu toggle"@,
                        post.awake,
                        result,
                    );
                law_start_replaces_without_leaking(
                    pre.awake,
                    kind,
                    flags,
                    "menu toggle"@,
                    post.awake,
                    result,
                    rest,
                );
            }
        },
        Command::KeepDisplay => {
            let settings = Settings { keep_display: !pre.keep_display, ..pre.settings() };
            let result = choose|result: Result<(), Error>| #[trigger]
                crate::shell::settings_apply(pre, settings, post, result);
            law_settings_leak_nothing(pre, settings, post, result, rest);
        },
        Command::Start(_) => {
            let flags = crate::shell::session_flags(pre.keep_display);
            let (kind, result) = choose|kind: Kind, result: Result<(), Error>| #[trigger]
                crate::session::manager_starts(
                    pre.awake,
                    kind,
                    flags,
                    "menu"@,
                    post.awake,
                    result,
                );
            law_start_replaces_without_leaking(
                pre.awake,
                kind,
                flags,
                "menu"@,
                post.awake,
                result,
                rest,
            );
        },
        _ => {},
    }
}

// ---------------------------------------------------------------------------
// A manager that has its backend to itself
// ---------------------------------------------------------------------------

/// What is held is what the live session holds: one assertion for each of its flags.
pub open spec fn sole<C>(manager: ManagerView<FakeBackend, C>) -> bool {
    &&& manager.backend@.live == session_ids(manager)
    &&& manager.backend@.live.finite()
    &&& manager.backend@.live.len() == session_count(manager)
}

/// The ids of one request are all different, even where the count starts over among them.
proof fn lemma_few_ids_differ(last: u64, n: nat)
    requires
        n <= 3,
    ensures
        crate::fake::ids_after(last, n).no_duplicates(),
{
    let ids = crate::fake::ids_after(last, n);
    assert forall|i: int, j: int| 0 <= i < j < ids.len() implies ids[i] != ids[j] by {
        assert(ids[i] == crate::fake::id_after(last, i + 1));
        assert(ids[j] == crate::fake::id_after(last, j + 1));
    }
}

/// A manager that has its backend to itself holds one assertion for each flag of its session,
/// or nothing without one, however many ids have been handed out: starting a session keeps it
/// so, and a start that fails leaves nothing held.
pub proof fn law_sole_start<C: Clock>(
    pre: ManagerView<FakeBackend, C>,
    kind: Kind,
    flags: Flags,
    reason: Seq<char>,
    post: ManagerView<FakeBackend, C>,
    result: Result<(), Error>,
)
    requires
        sole(pre),
        crate::session::manager_starts(pre, kind, flags, reason, post, result),
        pre.backend@.fail_next_release is None,
    ensures
        sole(post),
        result is Err ==> post.backend@.live == Set::<u64>::empty(),
{
    let (mid, stopped) = choose|mid: ManagerView<FakeBackend, C>, stopped: Result<(), Error>|
        {
            &&& #[trigger] crate::session::manager_stops(pre, mid, stopped)
            &&& match stopped {
                Ok(_) => crate::session::manager_begins(mid, kind, flags, reason, post, result),
                Err(e) => post == mid && result == Err::<(), Error>(e),
            }
        };
    law_sole_stop(pre, mid, stopped);
    if !flags.asks_nothing() {
        let req = crate::session::session_request(kind, flags, reason);
        let got = choose|got: Result<HandleView, Error>| #[trigger]
            FakeBackend::acquires(mid.backend, req, post.backend, got);
        if mid.backend@.fail_next_acquire is None {
            let ids = crate::fake::ids_after(mid.backend@.last_id, flags.count());
            lemma_few_ids_differ(mid.backend@.last_id, flags.count());
            ids.unique_seq_to_set();
            assert(Set::<u64>::empty() + ids.to_set() =~= ids.to_set());
        }
    }
}

/// For a manager that has its backend to itself, a stop leaves nothing held.
pub proof fn law_sole_stop<C: Clock>(
    pre: ManagerView<FakeBackend, C>,
    post: ManagerView<FakeBackend, C>,
    result: Result<(), Error>,
)
    requires
        sole(pre),
        crate::session::manager_stops(pre, post, result),
        pre.backend@.fail_next_release is None,
    ensures
        sole(post),
        result is Ok,
        post.backend@.live == Set::<u64>::empty(),
{
    assert(post.backend@.live =~= Set::<u64>::empty());
}

/// For a manager that has its backend to itself, a tick keeps what is held in step with the
/// session.
pub proof fn law_sole_tick<C: Clock>(
    pre: ManagerView<FakeBackend, C>,
    post: ManagerView<FakeBackend, C>,
    result: Result<bool, Error>,
)
    requires
        sole(pre),
        crate::session::manager_ticks(pre, post, result),
        pre.backend@.fail_next_release is None,
    ensures
        sole(post),
        result == Ok::<bool, Error>(true) ==> post.backend@.live == Set::<u64>::empty(),
{
    if post != pre {
        let stopped = choose|stopped: Result<(), Error>| #[trigger]
            crate::session::manager_stops(pre, post, stopped);
        law_sole_stop(pre, post, stopped);
    }
}

} // verus!
