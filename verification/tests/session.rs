//! Session and leak-safety tests, all against `FakeBackend` so they run on any platform.
//!
//! The recurring assertion in here is `live_count() == 0`. A leaked power assertion means the
//! user's machine silently never sleeps again, so every path that can end a session gets
//! checked for it.

use std::sync::{Arc, Mutex};

use awake_core::fake::{Event, FakeBackend};
use awake_core::session::{Clock, Kind, Manager, Session, SystemClock, TestClock};
use awake_core::settings::Settings;
use awake_core::shell::AppState;
use awake_core::time::{Duration, Instant};
use awake_core::{acquire, Backend, Error, Flags, Handle, Request, SystemAssertion};

/// A backend that a test can look into while someone else drives it.
#[derive(Debug, Clone)]
struct SharedBackend(Arc<Mutex<FakeBackend>>);

impl SharedBackend {
    fn new() -> SharedBackend {
        SharedBackend(Arc::new(Mutex::new(FakeBackend::new())))
    }

    fn live_count(&self) -> usize {
        self.0.lock().unwrap().live_count()
    }

    fn live_ids(&self) -> Vec<u64> {
        self.0.lock().unwrap().live_ids()
    }

    fn events(&self) -> Vec<Event> {
        self.0.lock().unwrap().events()
    }

    fn fail_next_acquire(&self, err: Error) {
        self.0.lock().unwrap().fail_next_acquire(err)
    }

    fn fail_next_release(&self, err: Error) {
        self.0.lock().unwrap().fail_next_release(err)
    }
}

impl Backend for SharedBackend {
    fn name(&self) -> &'static str {
        self.0.lock().unwrap().name()
    }

    fn acquire(&mut self, req: &Request) -> Result<Handle, Error> {
        self.0.lock().unwrap().acquire(req)
    }

    fn release(&mut self, handle: &Handle) -> Result<(), Error> {
        self.0.lock().unwrap().release(handle)
    }

    fn declare_user_activity(&mut self, reason: &str) -> Result<(), Error> {
        self.0.lock().unwrap().declare_user_activity(reason)
    }

    fn system_assertions(&self) -> Result<Vec<SystemAssertion>, Error> {
        self.0.lock().unwrap().system_assertions()
    }
}

/// A clock that a test can move while a manager reads it.
#[derive(Debug, Clone)]
struct SharedClock(Arc<Mutex<TestClock>>);

impl SharedClock {
    fn new() -> SharedClock {
        SharedClock(Arc::new(Mutex::new(TestClock::default())))
    }

    fn advance(&self, by: Duration) {
        self.0.lock().unwrap().advance(by)
    }
}

impl Clock for SharedClock {
    fn now(&self) -> Instant {
        self.0.lock().unwrap().now()
    }
}

fn manager() -> (Manager<SharedBackend, SharedClock>, SharedBackend, SharedClock) {
    let backend = SharedBackend::new();
    let clock = SharedClock::new();
    let mgr = Manager::new(backend.clone(), clock.clone());
    (mgr, backend, clock)
}

// ---------------------------------------------------------------------------
// Guard / leak safety
// ---------------------------------------------------------------------------

#[test]
fn guard_releases_on_drop() {
    let backend = SharedBackend::new();
    {
        let _guard = acquire(
            backend.clone(),
            Request::new(Flags::display_and_system(), "test"),
        )
        .unwrap();
        assert_eq!(backend.live_count(), 2, "display + system = two assertions");
    }
    assert_eq!(backend.live_count(), 0, "drop must release");
}

#[test]
fn drop_does_not_panic_when_release_fails() {
    let backend = SharedBackend::new();
    backend.fail_next_release(Error::Os { call: "test", code: -1 });

    // Must not panic: a panic inside Drop during unwind aborts the process.
    drop(acquire(backend.clone(), Request::new(Flags::system_only(), "test")).unwrap());

    // The release was attempted and reported, even though it failed.
    assert!(matches!(backend.events().last(), Some(Event::Release { .. })));
}

#[test]
fn empty_request_is_rejected() {
    let backend = SharedBackend::new();
    let (err, back) =
        acquire(backend.clone(), Request::new(Flags::default(), "nothing")).unwrap_err();

    assert_eq!(err, Error::EmptyRequest);
    assert_eq!(backend.live_count(), 0);
    assert!(back.events().is_empty(), "the backend has not heard of it");
}

#[test]
fn explicit_release_surfaces_errors_that_drop_would_swallow() {
    let backend = SharedBackend::new();
    backend.fail_next_release(Error::Os { call: "test", code: -7 });

    let guard = acquire(backend.clone(), Request::new(Flags::system_only(), "test")).unwrap();
    let (_, result) = guard.release();
    assert!(result.is_err(), "release() should report what Drop hides");
    assert_eq!(result, Err(Error::Os { call: "test", code: -7 }));
    assert_eq!(backend.events().len(), 2, "drop makes no second attempt");
    assert_eq!(backend.events()[1], Event::Release { ids: vec![1] });
}

#[test]
fn explicit_release_reaches_the_backend_once() {
    let backend = SharedBackend::new();
    let guard = acquire(
        backend.clone(),
        Request::new(Flags::display_and_system(), "test"),
    )
    .unwrap();
    assert_eq!(guard.flags(), Flags::display_and_system());
    assert_eq!(guard.handle().ids, vec![1, 2]);
    assert!(!guard.handle().timed);

    let (back, result) = guard.release();
    assert_eq!(result, Ok(()));
    assert_eq!(back.live_count(), 0, "the backend comes back");

    let releases = backend
        .events()
        .iter()
        .filter(|e| matches!(e, Event::Release { .. }))
        .count();
    assert_eq!(releases, 1, "dropping a released guard must not release again");
    assert_eq!(backend.live_count(), 0);
}

#[test]
fn a_failed_release_is_reported_in_words() {
    let backend = SharedBackend::new();
    backend.fail_next_release(Error::Os { call: "test", code: -1 });
    let mut guard = acquire(
        backend.clone(),
        Request::new(Flags::display_and_system(), "test").with_timeout(Duration::from_secs(9)),
    )
    .unwrap();

    assert_eq!(
        guard.release_or_report().unwrap(),
        "no-afk: FAILED to release power assertion Handle { ids: [1, 2], timed: true } via \
         fake: test failed (code -1). The system may not sleep until this process exits."
    );
    assert_eq!(guard.release_or_report(), None, "there is nothing left to release");
    assert_eq!(backend.live_ids(), vec![1, 2]);
}

#[test]
fn a_refused_acquire_leaves_no_guard() {
    let backend = SharedBackend::new();
    backend.fail_next_acquire(Error::Os { call: "test", code: 5 });
    let (err, back) =
        acquire(backend.clone(), Request::new(Flags::system_only(), "test")).unwrap_err();

    assert_eq!(err, Error::Os { call: "test", code: 5 });
    assert!(backend.events().is_empty(), "nothing was acquired, so nothing is released");

    let guard = acquire(back, Request::new(Flags::system_only(), "test")).unwrap();
    assert_eq!(guard.handle().ids, vec![1], "the backend can be asked again");
}

// ---------------------------------------------------------------------------
// Session arithmetic
// ---------------------------------------------------------------------------

#[test]
fn indefinite_sessions_never_expire() {
    let (mut mgr, backend, clock) = manager();
    mgr.start(Kind::Indefinite, Flags::display_and_system(), "forever").unwrap();

    clock.advance(Duration::from_secs(60 * 60 * 24 * 7));

    assert_eq!(mgr.remaining(), None, "indefinite has no remaining time");
    assert!(!mgr.tick().unwrap(), "should not auto-end");
    assert!(mgr.is_active());
    assert_eq!(backend.live_count(), 2);
}

#[test]
fn timed_session_counts_down_and_auto_ends() {
    let (mut mgr, backend, clock) = manager();
    mgr.start(Kind::For(Duration::from_secs(600)), Flags::display_and_system(), "30m")
        .unwrap();

    assert_eq!(mgr.remaining(), Some(Duration::from_secs(600)));

    clock.advance(Duration::from_secs(240));
    assert_eq!(mgr.remaining(), Some(Duration::from_secs(360)));
    assert!(!mgr.tick().unwrap(), "not expired yet");
    assert_eq!(backend.live_count(), 2);

    clock.advance(Duration::from_secs(360));
    assert!(mgr.tick().unwrap(), "should report the auto-end");
    assert!(!mgr.is_active());
    assert_eq!(backend.live_count(), 0, "auto-end must release");
}

#[test]
fn remaining_saturates_at_zero_rather_than_underflowing() {
    let (mut mgr, _backend, clock) = manager();
    mgr.start(Kind::For(Duration::from_secs(10)), Flags::system_only(), "short").unwrap();

    clock.advance(Duration::from_secs(9999));

    assert_eq!(mgr.remaining(), Some(Duration::zero()), "must not wrap around");
}

#[test]
fn tick_is_idempotent_after_expiry() {
    let (mut mgr, backend, clock) = manager();
    mgr.start(Kind::For(Duration::from_secs(5)), Flags::system_only(), "short").unwrap();
    clock.advance(Duration::from_secs(5));

    assert!(mgr.tick().unwrap(), "first tick reports the end");
    assert!(!mgr.tick().unwrap(), "second tick has nothing to report");
    assert!(!mgr.tick().unwrap());
    assert_eq!(backend.live_count(), 0);
}

#[test]
fn a_session_counts_from_its_start() {
    let origin = Instant::at(Duration::from_secs(100));
    let session = Session {
        kind: Kind::For(Duration::from_secs(30)),
        flags: Flags::system_only(),
        reason: "test".to_string(),
        started: origin,
    };

    let before = Instant::at(Duration::from_secs(40));
    assert_eq!(session.elapsed(before), Duration::zero(), "a clock behind the start");
    assert_eq!(session.remaining(before), Some(Duration::from_secs(30)));

    let during = Instant::at(Duration::new(129, 999_999_999));
    assert_eq!(session.elapsed(during), Duration::new(29, 999_999_999));
    assert_eq!(session.remaining(during), Some(Duration::new(0, 1)));
    assert!(!session.is_expired(during));

    let at_the_end = Instant::at(Duration::from_secs(130));
    assert_eq!(session.remaining(at_the_end), Some(Duration::zero()));
    assert!(session.is_expired(at_the_end));
    assert!(session.is_expired(Instant::at(Duration::from_secs(1000))));
}

#[test]
fn a_tick_that_cannot_release_reports_it_and_ends_the_session() {
    let (mut mgr, backend, clock) = manager();
    mgr.start(Kind::For(Duration::from_secs(5)), Flags::system_only(), "short").unwrap();
    clock.advance(Duration::from_secs(6));
    backend.fail_next_release(Error::Os { call: "test", code: 3 });

    assert_eq!(mgr.tick(), Err(Error::Os { call: "test", code: 3 }));
    assert!(!mgr.is_active());
    assert_eq!(mgr.tick(), Ok(false), "it is reported once");
    assert_eq!(mgr.tick(), Ok(false));
}

// ---------------------------------------------------------------------------
// Manager lifecycle
// ---------------------------------------------------------------------------

#[test]
fn starting_a_new_session_replaces_the_old_one_without_leaking() {
    let (mut mgr, backend, _clock) = manager();

    mgr.start(Kind::Indefinite, Flags::display_and_system(), "first").unwrap();
    assert_eq!(backend.live_count(), 2);

    mgr.start(Kind::Indefinite, Flags::system_only(), "second").unwrap();
    assert_eq!(backend.live_count(), 1, "old session released, new one is system-only");
    assert_eq!(mgr.session().unwrap().reason, "second");
}

#[test]
fn a_failed_start_leaves_us_cleanly_off() {
    let (mut mgr, backend, _clock) = manager();
    mgr.start(Kind::Indefinite, Flags::display_and_system(), "first").unwrap();

    backend.fail_next_acquire(Error::Os { call: "test", code: -1 });
    assert!(mgr.start(Kind::Indefinite, Flags::system_only(), "doomed").is_err());

    assert!(!mgr.is_active(), "must not report an active session");
    assert_eq!(backend.live_count(), 0, "and must not hold stale assertions");
}

#[test]
fn a_start_that_cannot_release_the_old_session_acquires_nothing() {
    let (mut mgr, backend, _clock) = manager();
    mgr.start(Kind::Indefinite, Flags::system_only(), "first").unwrap();

    backend.fail_next_release(Error::Os { call: "test", code: -2 });
    assert_eq!(
        mgr.start(Kind::Indefinite, Flags::system_only(), "second"),
        Err(Error::Os { call: "test", code: -2 })
    );

    assert!(!mgr.is_active());
    let acquires = backend
        .events()
        .iter()
        .filter(|e| matches!(e, Event::Acquire { .. }))
        .count();
    assert_eq!(acquires, 1);
}

#[test]
fn stop_is_a_noop_when_idle() {
    let (mut mgr, backend, _clock) = manager();
    assert!(mgr.stop().is_ok());
    assert!(mgr.stop().is_ok());
    assert_eq!(backend.live_count(), 0);
}

#[test]
fn dropping_the_manager_releases_the_session() {
    let backend = SharedBackend::new();
    {
        let mut mgr = Manager::new(backend.clone(), TestClock::default());
        mgr.start(Kind::Indefinite, Flags::display_and_system(), "test").unwrap();
        assert_eq!(backend.live_count(), 2);
    }
    assert_eq!(backend.live_count(), 0, "quitting the app must release");
}

#[test]
fn poking_the_display_is_passed_on() {
    let (mut mgr, backend, _clock) = manager();
    assert_eq!(mgr.poke_display(), Ok(()));
    assert_eq!(
        backend.events(),
        vec![Event::UserActivity { reason: "session tick".to_string() }]
    );

    mgr.start(Kind::Indefinite, Flags::display_and_system(), "on").unwrap();
    assert_eq!(mgr.poke_display(), Ok(()), "during a session too");
    assert_eq!(backend.events().len(), 3);
    assert_eq!(backend.live_count(), 2, "nothing is taken or given back");
    assert!(mgr.is_active());
}

#[test]
fn no_click_leaks() {
    let (mgr, backend, clock) = manager();
    let mut shell = AppState::new(mgr, Settings::default());
    let clicks = [
        ("toggle", 2),
        ("start:60", 2),
        ("keep_display", 1),
        ("status", 1),
        ("start:inf", 1),
        ("keep_display", 2),
        ("donate", 2),
        ("toggle", 0),
        ("keep_display", 0),
        ("autostart", 0),
        ("start:5", 1),
    ];
    for (id, held) in clicks {
        shell.handle_menu_event(id);
        assert_eq!(backend.live_count(), held, "after {id}");
    }

    clock.advance(Duration::from_secs(5));
    assert!(shell.tick(), "the countdown has run out");
    assert_eq!(backend.live_count(), 0);

    shell.handle_menu_event("start:inf");
    assert_eq!(backend.live_count(), 1);
    shell.handle_menu_event("quit");
    assert_eq!(backend.live_count(), 0);
}

// ---------------------------------------------------------------------------
// Request shape
// ---------------------------------------------------------------------------

#[test]
fn timed_sessions_hand_the_deadline_to_the_os_too() {
    // The kernel-side timeout is what protects users if this process is suspended, so a timed
    // session must always set it.
    let (mut mgr, _backend, _clock) = manager();
    mgr.start(Kind::For(Duration::from_secs(300)), Flags::system_only(), "5m").unwrap();

    let req = Request::new(Flags::system_only(), "5m").with_timeout(Duration::from_secs(300));
    assert_eq!(req.timeout, Some(Duration::from_secs(300)));
}

/// A backend that writes down the requests it gets.
#[derive(Debug, Clone)]
struct Recorder(Arc<Mutex<Vec<Request>>>);

impl Backend for Recorder {
    fn name(&self) -> &'static str {
        "recorder"
    }

    fn acquire(&mut self, req: &Request) -> Result<Handle, Error> {
        self.0.lock().unwrap().push(req.clone());
        Ok(Handle { ids: vec![7], timed: req.timeout.is_some() })
    }

    fn release(&mut self, _handle: &Handle) -> Result<(), Error> {
        Ok(())
    }
}

#[test]
fn the_backend_gets_the_deadline_of_a_timed_session_only() {
    let requests = Arc::new(Mutex::new(Vec::new()));
    let mut mgr = Manager::new(Recorder(requests.clone()), TestClock::default());
    mgr.start(Kind::For(Duration::from_secs(300)), Flags::system_only(), "5m").unwrap();
    mgr.start(Kind::Indefinite, Flags::display_and_system(), "on").unwrap();

    assert_eq!(
        *requests.lock().unwrap(),
        vec![
            Request::new(Flags::system_only(), "5m").with_timeout(Duration::from_secs(300)),
            Request::new(Flags::display_and_system(), "on"),
        ]
    );
    assert_eq!(
        mgr.poke_display(),
        Err(Error::Unsupported("declare_user_activity")),
        "a backend does not have to support it"
    );
    assert_eq!(
        Recorder(requests).system_assertions(),
        Err(Error::Unsupported("system_assertions"))
    );
}

#[test]
fn reason_is_recorded_for_the_pmset_listing() {
    let (mut mgr, backend, _clock) = manager();
    mgr.start(Kind::Indefinite, Flags::display_and_system(), "manual toggle").unwrap();

    match backend.events().first() {
        Some(Event::Acquire { reason, flags, .. }) => {
            assert_eq!(reason, "manual toggle");
            assert_eq!(*flags, Flags::display_and_system());
        }
        other => panic!("expected an Acquire event, got {other:?}"),
    }
}

#[test]
fn system_clock_advances() {
    let a = SystemClock.now();
    // Time passes.
    for _ in 0..10_000 {
        let _ = SystemClock.now();
    }
    assert!(SystemClock.now() > a);
    assert!(SystemClock.now().saturating_duration_since(a) < Duration::from_secs(15));
}

#[test]
fn system_clocks_are_on_one_time_line() {
    let (first, second) = (SystemClock, SystemClock::default());
    let mut last = first.now();
    for _ in 0..100 {
        for clock in [second, first] {
            let next = clock.now();
            assert!(next >= last, "readings never go back");
            last = next;
        }
    }
}

fn assert_send<T: Send>() {}

#[test]
fn session_is_send_and_sync_friendly() {
    assert_send::<Session>();
    assert_send::<Kind>();
}
