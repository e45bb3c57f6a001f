//! Session lifecycle: durations, countdown, auto-end.
//!
//! Pure logic over an injectable [`Clock`], so the whole state machine is testable without
//! sleeping in tests or touching real power state.

use vstd::prelude::*;

use crate::time::{Duration, Instant, MAX_NANOS, NANOS_PER_SEC};
use crate::{acquire, Backend, Error, Flags, Guard, HandleView, Request, RequestView};

verus! {

// ---------------------------------------------------------------------------
// Clock
// ---------------------------------------------------------------------------

pub trait Clock: Send + Sync + Sized + std::fmt::Debug {
    /// Whether the clock may read `t` at this point. A clock that leaves this out may read
    /// anything.
    open spec fn may_read(&self, t: Instant) -> bool {
        true
    }

    fn now(&self) -> (t: Instant)
        ensures
            self.may_read(t),
    ;
}

/// `std::time::Instant`: a reading of the operating system's monotonic clock.
#[verifier::external_type_specification]
#[verifier::external_body]
pub struct ExOsInstant(std::time::Instant);

/// `std::time::Instant::now` reads the operating system's monotonic clock. Nothing is claimed
/// of the reading.
#[verifier::external_body]
fn os_now() -> std::time::Instant {
    std::time::Instant::now()
}

/// `std::time::Instant::checked_sub`: whether the instant that lies this many seconds and
/// nanoseconds before `os` can be represented. Nothing is claimed of the answer.
#[verifier::external_body]
fn reaches_back(os: &std::time::Instant, secs: u64, nanos: u32) -> bool
    requires
        nanos < NANOS_PER_SEC,
{
    os.checked_sub(std::time::Duration::new(secs, nanos)).is_some()
}

/// Whether [`reaches_back`] may give this answer for a span of `n` nanoseconds.
spec fn may_reach(os: std::time::Instant, n: nat, answer: bool) -> bool {
    call_ensures(
        reaches_back,
        (&os, (n / NANOS_PER_SEC as nat) as u64, (n % NANOS_PER_SEC as nat) as u32),
        answer,
    )
}

/// Whether `os` lies `n` nanoseconds past the earliest instant that can be represented: it
/// reaches that far back, and no farther.
spec fn past_the_earliest(os: std::time::Instant, n: nat) -> bool {
    &&& n > 0 ==> may_reach(os, n, true)
    &&& n < MAX_NANOS ==> may_reach(os, n + 1, false)
}

/// How far `os` lies past the earliest instant that can be represented. That instant is the
/// same for every clock, so it makes an origin.
fn past_earliest(os: &std::time::Instant) -> (d: Duration)
    ensures
        past_the_earliest(*os, d@),
{
    let mut low: u128 = 0;
    let mut high: u128 = MAX_NANOS + 1;
    while high - low > 1
        invariant
            low < high <= MAX_NANOS + 1,
            low > 0 ==> may_reach(*os, low as nat, true),
            high <= MAX_NANOS ==> may_reach(*os, high as nat, false),
        decreases high - low,
    {
        let mid: u128 = low + (high - low) / 2;
        if reaches_back(os, (mid / NANOS_PER_SEC) as u64, (mid % NANOS_PER_SEC) as u32) {
            low = mid;
        } else {
            high = mid;
        }
    }
    Duration::new((low / NANOS_PER_SEC) as u64, (low % NANOS_PER_SEC) as u32)
}

/// The operating system's monotonic clock. Its readings count from the earliest instant that
/// the operating system can represent, so those of any two such clocks are on one time line.
#[derive(Debug, Clone, Copy)]
pub struct SystemClock;

impl Default for SystemClock {
    fn default() -> (clock: SystemClock)
        ensures
            clock == SystemClock,
    {
        SystemClock
    }
}

impl Clock for SystemClock {
    /// What the operating system's clock may read.
    closed spec fn may_read(&self, t: Instant) -> bool {
        exists|os: std::time::Instant| #[trigger]
            call_ensures(os_now, (), os) && past_the_earliest(os, t@)
    }

    fn now(&self) -> (t: Instant) {
        let os = os_now();
        Instant::at(past_earliest(&os))
    }
}

/// A reading is that of an instant that the operating system gave: it lies that many
/// nanoseconds, to the last one, past the earliest that can be represented.
proof fn law_system_clock_is_read_to_the_nanosecond(t: Instant)
    requires
        call_ensures(SystemClock::now, (&SystemClock,), t),
    ensures
        exists|os: std::time::Instant|
            {
                &&& #[trigger] call_ensures(os_now, (), os)
                &&& t@ > 0 ==> call_ensures(
                    reaches_back,
                    (&os, (t@ / 1_000_000_000) as u64, (t@ % 1_000_000_000) as u32),
                    true,
                )
                &&& t@ < MAX_NANOS ==> call_ensures(
                    reaches_back,
                    (&os, ((t@ + 1) / 1_000_000_000) as u64, ((t@ + 1) % 1_000_000_000) as u32),
                    false,
                )
            },
{
    let os = choose|os: std::time::Instant| #[trigger]
        call_ensures(os_now, (), os) && past_the_earliest(os, t@);
    assert(t@ > 0 ==> may_reach(os, t@, true));
    assert(t@ < MAX_NANOS ==> may_reach(os, t@ + 1, false));
}

/// A clock that only moves when you tell it to.
#[derive(Debug)]
pub struct TestClock {
    offset: Duration,
}

impl View for TestClock {
    type V = nat;

    /// How far the clock has been moved, in nanoseconds.
    closed spec fn view(&self) -> nat {
        self.offset@
    }
}

impl Default for TestClock {
    fn default() -> (clock: TestClock)
        ensures
            clock@ == 0,
    {
        TestClock { offset: Duration::zero() }
    }
}

impl TestClock {
    pub fn advance(&mut self, by: Duration)
        requires
            old(self)@ + by@ <= MAX_NANOS,
        ensures
            final(self)@ == old(self)@ + by@,
    {
        self.offset = self.offset.plus(by);
    }
}

impl Clock for TestClock {
    open spec fn may_read(&self, t: Instant) -> bool {
        t@ == self@
    }

    fn now(&self) -> (t: Instant) {
        Instant::at(self.offset)
    }
}

// ---------------------------------------------------------------------------
// Session
// ---------------------------------------------------------------------------

#[derive(Debug, Clone, Copy, PartialEq, Eq, Structural)]
pub enum Kind {
    /// Until the user turns it off, or the app quits.
    Indefinite,
    /// Auto-ends after this long.
    For(Duration),
}

#[derive(Debug)]
pub struct Session {
    pub kind: Kind,
    pub flags: Flags,
    pub reason: String,
    /// When the session began, by its manager's clock.
    pub started: Instant,
}

/// What a [`Session`] says.
pub struct SessionView {
    pub kind: Kind,
    pub flags: Flags,
    pub reason: Seq<char>,
    pub started: Instant,
}

impl View for Session {
    type V = SessionView;

    open spec fn view(&self) -> SessionView {
        SessionView {
            kind: self.kind,
            flags: self.flags,
            reason: self.reason@,
            started: self.started,
        }
    }
}

impl SessionView {
    /// Nanoseconds since the session began, zero before that.
    pub open spec fn elapsed(self, now: Instant) -> nat {
        crate::time::minus_saturating(now@, self.started@)
    }

    /// Nanoseconds left, never below zero; none is counted for an indefinite session.
    pub open spec fn remaining(self, now: Instant) -> Option<nat> {
        match self.kind {
            Kind::Indefinite => None,
            Kind::For(total) => Some(crate::time::minus_saturating(total@, self.elapsed(now))),
        }
    }

    /// Whether a countdown has run out.
    pub open spec fn expired(self, now: Instant) -> bool {
        self.remaining(now) == Some(0nat)
    }
}

/// The span by its length.
pub open spec fn span_view(d: Option<Duration>) -> Option<nat> {
    match d {
        Some(d) => Some(d@),
        None => None,
    }
}

impl Clone for Session {
    fn clone(&self) -> (session: Session)
        ensures
            session@ == self@,
    {
        Session {
            kind: self.kind,
            flags: self.flags,
            reason: self.reason.clone(),
            started: self.started,
        }
    }
}

impl Session {
    pub fn elapsed(&self, now: Instant) -> (elapsed: Duration)
        ensures
            elapsed@ == self@.elapsed(now),
    {
        now.saturating_duration_since(self.started)
    }

    /// Time left, or `None` for an indefinite session. Saturates at zero.
    pub fn remaining(&self, now: Instant) -> (left: Option<Duration>)
        ensures
            span_view(left) == self@.remaining(now),
    {
        match self.kind {
            Kind::Indefinite => None,
            Kind::For(total) => Some(total.saturating_sub(self.elapsed(now))),
        }
    }

    pub fn is_expired(&self, now: Instant) -> (expired: bool)
        ensures
            expired == self@.expired(now),
    {
        match self.remaining(now) {
            Some(left) => left.is_zero(),
            None => false,
        }
    }
}

// ---------------------------------------------------------------------------
// Manager
// ---------------------------------------------------------------------------

/// Owns at most one live session. This is the type the UI layer drives.
#[derive(Debug)]
pub struct Manager<B: Backend, C: Clock> {
    /// The backend while there is no session. A live session has it in its guard.
    idle: Option<B>,
    clock: C,
    active: Option<(Session, Guard<B>)>,
}

/// The state of a [`Manager`]: its backend and clock, and the live session with what is held
/// for it.
pub struct ManagerView<B, C> {
    pub backend: B,
    pub clock: C,
    pub active: Option<(SessionView, HandleView)>,
}

impl<B: Backend, C: Clock> View for Manager<B, C> {
    type V = ManagerView<B, C>;

    closed spec fn view(&self) -> ManagerView<B, C> {
        ManagerView {
            backend: match self.active {
                Some((_, guard)) => guard@.backend->Some_0,
                None => self.idle->Some_0,
            },
            clock: self.clock,
            active: match self.active {
                Some((session, guard)) => Some((session@, guard@.handle)),
                None => None,
            },
        }
    }
}

/// The request that a session makes: a timed one hands its deadline to the OS.
pub open spec fn session_request(kind: Kind, flags: Flags, reason: Seq<char>) -> RequestView {
    RequestView {
        flags,
        reason,
        timeout: match kind {
            Kind::Indefinite => None,
            Kind::For(d) => Some(d),
        },
    }
}

/// What ending the session does: one release of what is held for it, and it is gone whatever
/// the release says. Without a session nothing happens.
pub open spec fn manager_stops<B: Backend, C>(
    pre: ManagerView<B, C>,
    post: ManagerView<B, C>,
    result: Result<(), Error>,
) -> bool {
    match pre.active {
        None => post == pre && result is Ok,
        Some((_, handle)) => {
            &&& B::releases(pre.backend, handle, post.backend, result)
            &&& post == (ManagerView { backend: post.backend, active: None, ..pre })
        },
    }
}

/// What beginning a session does in a manager that has none: a request for nothing is refused,
/// else the backend is asked once. Only if it agrees is there a session, from the time the
/// clock reads.
pub open spec fn manager_begins<B: Backend, C: Clock>(
    pre: ManagerView<B, C>,
    kind: Kind,
    flags: Flags,
    reason: Seq<char>,
    post: ManagerView<B, C>,
    result: Result<(), Error>,
) -> bool {
    if flags.asks_nothing() {
        post == pre && result == Err::<(), Error>(Error::EmptyRequest)
    } else {
        exists|got: Result<HandleView, Error>|
            {
                &&& #[trigger] B::acquires(
                    pre.backend,
                    session_request(kind, flags, reason),
                    post.backend,
                    got,
                )
                &&& match got {
                    Ok(handle) => {
                        &&& result is Ok
                        &&& exists|started: Instant| #[trigger]
                            pre.clock.may_read(started) && post == (ManagerView {
                                backend: post.backend,
                                active: Some((SessionView { kind, flags, reason, started }, handle)),
                                ..pre
                            })
                    },
                    Err(e) => {
                        &&& result == Err::<(), Error>(e)
                        &&& post == (ManagerView { backend: post.backend, ..pre })
                    },
                }
            }
    }
}

/// What starting a session does: the old one is ended first, and only if that went well does
/// the new one begin.
pub open spec fn manager_starts<B: Backend, C: Clock>(
    pre: ManagerView<B, C>,
    kind: Kind,
    flags: Flags,
    reason: Seq<char>,
    post: ManagerView<B, C>,
    result: Result<(), Error>,
) -> bool {
    exists|mid: ManagerView<B, C>, stopped: Result<(), Error>|
        {
            &&& #[trigger] manager_stops(pre, mid, stopped)
            &&& match stopped {
                Ok(_) => manager_begins(mid, kind, flags, reason, post, result),
                Err(e) => post == mid && result == Err::<(), Error>(e),
            }
        }
}

/// What a tick does: a session whose countdown has run out by the clock is ended, any other is
/// left alone.
pub open spec fn manager_ticks<B: Backend, C: Clock>(
    pre: ManagerView<B, C>,
    post: ManagerView<B, C>,
    result: Result<bool, Error>,
) -> bool {
    match pre.active {
        None => post == pre && result == Ok::<bool, Error>(false),
        Some((session, _)) => exists|now: Instant| #[trigger]
            pre.clock.may_read(now) && if session.expired(now) {
                exists|stopped: Result<(), Error>| #[trigger]
                    manager_stops(pre, post, stopped) && match stopped {
                        Ok(_) => result == Ok::<bool, Error>(true),
                        Err(e) => result == Err::<bool, Error>(e),
                    }
            } else {
                post == pre && result == Ok::<bool, Error>(false)
            },
    }
}

impl<B: Backend, C: Clock> Manager<B, C> {
    /// The backend is in one place: with the guard that holds what the session asked for, or
    /// here if there is no session.
    pub closed spec fn wf(&self) -> bool {
        match self.active {
            Some((session, guard)) => {
                &&& self.idle is None
                &&& guard@.owes()
                &&& guard@.flags == session.flags
            },
            None => self.idle is Some,
        }
    }

    pub fn new(backend: B, clock: C) -> (manager: Manager<B, C>)
        ensures
            manager.wf(),
            manager@ == (ManagerView { backend, clock, active: None }),
    {
        Manager { idle: Some(backend), clock, active: None }
    }

    pub fn is_active(&self) -> (active: bool)
        ensures
            active == (self@.active is Some),
    {
        self.active.is_some()
    }

    pub fn session(&self) -> (session: Option<&Session>)
        ensures
            match self@.active {
                Some((view, _)) => session is Some && session->Some_0@ == view,
                None => session is None,
            },
    {
        match &self.active {
            Some((session, _)) => Some(session),
            None => None,
        }
    }

    /// Time left by the clock, or `None` without a session or for an indefinite one.
    pub fn remaining(&self) -> (left: Option<Duration>)
        ensures
            match self@.active {
                Some((session, _)) => exists|now: Instant| #[trigger]
                    self@.clock.may_read(now) && span_view(left) == session.remaining(now),
                None => left is None,
            },
    {
        match self.session() {
            Some(session) => {
                let now = self.clock.now();
                assert(self@.clock.may_read(now));
                session.remaining(now)
            },
            None => None,
        }
    }

    /// Start a session, replacing any existing one.
    ///
    /// The old session is released *before* the new one is acquired, so a failure to acquire
    /// leaves us cleanly off rather than holding stale assertions.
    pub fn start(&mut self, kind: Kind, flags: Flags, reason: &str) -> (result: Result<(), Error>)
        requires
            old(self).wf(),
        ensures
            final(self).wf(),
            manager_starts(old(self)@, kind, flags, reason@, final(self)@, result),
    {
        let stopped = self.stop();
        let ghost mid = self@;
        assert(manager_stops(old(self)@, mid, stopped));
        match stopped {
            Ok(_) => {},
            Err(e) => return Err(e),
        }
        let mut req = Request::new(flags, reason);
        // Hand the deadline to the OS as well as tracking it here. The kernel-side timeout is
        // what saves us while this process is suspended and cannot tick.
        if let Kind::For(d) = kind {
            req = req.with_timeout(d);
        }
        let backend = self.idle.take().unwrap();
        match acquire(backend, req) {
            Ok(guard) => {
                let started = self.clock.now();
                let session = Session { kind, flags, reason: reason.to_owned(), started };
                self.active = Some((session, guard));
                assert(manager_begins(mid, kind, flags, reason@, self@, Ok(())));
                Ok(())
            },
            Err((e, backend)) => {
                self.idle = Some(backend);
                assert(manager_begins(mid, kind, flags, reason@, self@, Err(e)));
                Err(e)
            },
        }
    }

    /// End the current session. No-op if there isn't one.
    pub fn stop(&mut self) -> (result: Result<(), Error>)
        requires
            old(self).wf(),
        ensures
            final(self).wf(),
            manager_stops(old(self)@, final(self)@, result),
    {
        match self.active.take() {
            Some((_, guard)) => {
                let (backend, result) = guard.release();
                self.idle = Some(backend);
                result
            },
            None => Ok(()),
        }
    }

    /// Drive expiry. Call this roughly once a second from the UI.
    ///
    /// Returns `true` if a session just auto-ended, so the caller can update the tray and
    /// notify.
    pub fn tick(&mut self) -> (result: Result<bool, Error>)
        requires
            old(self).wf(),
        ensures
            final(self).wf(),
            manager_ticks(old(self)@, final(self)@, result),
    {
        let expired: bool = match self.session() {
            Some(session) => {
                let now = self.clock.now();
                assert(self@.clock.may_read(now));
                session.is_expired(now)
            },
            None => false,
        };
        if expired {
            let stopped = self.stop();
            assert(manager_stops(old(self)@, self@, stopped));
            match stopped {
                Ok(_) => Ok(true),
                Err(e) => Err(e),
            }
        } else {
            Ok(false)
        }
    }

    /// Reset the display idle timer. Belt-and-braces against the screensaver.
    ///
    /// Does **not** affect presence: the idle counter that Slack and Teams read is unaffected
    /// by this call.
    pub fn poke_display(&mut self) -> (result: Result<(), Error>)
        requires
            old(self).wf(),
        ensures
            final(self).wf(),
            final(self)@ == (ManagerView { backend: final(self)@.backend, ..old(self)@ }),
            exists|backend: &mut B|
                {
                    &&& *backend == old(self)@.backend
                    &&& *final(backend) == final(self)@.backend
                    &&& #[trigger] call_ensures(
                        B::declare_user_activity,
                        (backend, "session tick"),
                        result,
                    )
                },
    {
        let backend = match &mut self.active {
            Some((_, guard)) => guard.backend(),
            None => self.idle.as_mut().unwrap(),
        };
        backend.declare_user_activity("session tick")
    }
}

// ---------------------------------------------------------------------------
// Laws
// ---------------------------------------------------------------------------

/// An indefinite session has no time left to count and never expires.
pub proof fn law_indefinite_never_expires(session: SessionView, now: Instant)
    requires
        session.kind is Indefinite,
    ensures
        session.remaining(now) is None,
        !session.expired(now),
{
}

/// The time gone and the time left of a countdown add up to its length until it runs out;
/// from then on nothing is left.
pub proof fn law_countdown_adds_up(session: SessionView, total: Duration, now: Instant)
    requires
        session.kind == Kind::For(total),
    ensures
        session.elapsed(now) <= total@ ==> session.remaining(now) == Some(
            (total@ - session.elapsed(now)) as nat,
        ),
        session.elapsed(now) >= total@ ==> session.remaining(now) == Some(0nat),
        session.expired(now) <==> session.elapsed(now) >= total@,
{
}

/// A countdown never grows as time passes, and a session that has expired stays expired.
pub proof fn law_countdown_only_falls(session: SessionView, sooner: Instant, later: Instant)
    requires
        sooner@ <= later@,
    ensures
        match (session.remaining(sooner), session.remaining(later)) {
            (Some(before), Some(after)) => after <= before,
            (None, None) => true,
            _ => false,
        },
        session.expired(sooner) ==> session.expired(later),
{
}

/// A session asks the OS for a timeout exactly if it is timed, and for its own length.
pub proof fn law_deadline_goes_to_the_os(kind: Kind, flags: Flags, reason: Seq<char>)
    ensures
        session_request(kind, flags, reason).timeout is Some <==> kind is For,
        forall|d: Duration|
            kind == Kind::For(d) ==> session_request(kind, flags, reason).timeout == Some(d),
{
}

/// After a stop there is no session, whatever the backend said, and a second stop does
/// nothing and succeeds.
pub proof fn law_stop_is_final<B: Backend, C>(
    pre: ManagerView<B, C>,
    mid: ManagerView<B, C>,
    first: Result<(), Error>,
    post: ManagerView<B, C>,
    second: Result<(), Error>,
)
    requires
        manager_stops(pre, mid, first),
        manager_stops(mid, post, second),
    ensures
        mid.active is None,
        post == mid,
        second is Ok,
{
}

/// A start that fails leaves no session; one that succeeds leaves the one that was asked for,
/// and no other.
pub proof fn law_start_is_all_or_nothing<B: Backend, C: Clock>(
    pre: ManagerView<B, C>,
    kind: Kind,
    flags: Flags,
    reason: Seq<char>,
    post: ManagerView<B, C>,
    result: Result<(), Error>,
)
    requires
        manager_starts(pre, kind, flags, reason, post, result),
    ensures
        result is Err ==> post.active is None,
        result is Ok ==> {
            &&& post.active is Some
            &&& post.active->Some_0.0.kind == kind
            &&& post.active->Some_0.0.flags == flags
            &&& post.active->Some_0.0.reason == reason
            &&& pre.clock.may_read(post.active->Some_0.0.started)
        },
        flags.asks_nothing() ==> result is Err,
        post.clock == pre.clock,
{
}

/// A tick leaves an indefinite session alone.
pub proof fn law_tick_spares_the_indefinite<B: Backend, C: Clock>(
    pre: ManagerView<B, C>,
    post: ManagerView<B, C>,
    result: Result<bool, Error>,
)
    requires
        manager_ticks(pre, post, result),
        pre.active is Some,
        pre.active->Some_0.0.kind is Indefinite,
    ensures
        post == pre,
        result == Ok::<bool, Error>(false),
{
}

/// A session auto-ends once: the tick that reports its end, or that the release at its end
/// failed, leaves no session, and the next tick has nothing to report and changes nothing.
pub proof fn law_auto_end_is_reported_once<B: Backend, C: Clock>(
    pre: ManagerView<B, C>,
    mid: ManagerView<B, C>,
    first: Result<bool, Error>,
    post: ManagerView<B, C>,
    next: Result<bool, Error>,
)
    requires
        manager_ticks(pre, mid, first),
        first != Ok::<bool, Error>(false),
        manager_ticks(mid, post, next),
    ensures
        pre.active is Some,
        mid.active is None,
        post == mid,
        next == Ok::<bool, Error>(false),
{
}

/// A tick that reports no end and no error changes nothing.
pub proof fn law_quiet_tick_changes_nothing<B: Backend, C: Clock>(
    pre: ManagerView<B, C>,
    post: ManagerView<B, C>,
)
    requires
        manager_ticks(pre, post, Ok(false)),
    ensures
        post == pre,
{
}

} // verus!
