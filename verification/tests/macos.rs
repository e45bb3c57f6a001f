//! The macOS backend against a kernel in memory that answers as IOKit does.

use std::collections::BTreeSet;

use awake_core::macos::{
    kinds_for, AcquireCall, ActivityCall, IoKitBackend, Property, IO_RETURN_BAD_ARGUMENT,
    KERN_SUCCESS, KEY_LEVEL, KEY_NAME, KEY_TIMEOUT, KEY_TIMEOUT_ACTION, KEY_TYPE, TIMEOUT_ACTION_RELEASE,
    TYPE_DISK, TYPE_DISPLAY, TYPE_SYSTEM,
};
use awake_core::time::Duration;
use awake_core::{acquire, Backend, Error, Flags, Handle, Request};

const NO_RESOURCES: i32 = -536870210;

#[derive(Debug, Default)]
struct Kernel {
    last_id: u32,
    live: BTreeSet<u32>,
    created: Vec<Vec<(&'static str, Property)>>,
    released: Vec<u32>,
    declared: Vec<ActivityCall>,
    /// How many creations succeed before one fails.
    capacity: Option<usize>,
}

impl Kernel {
    fn create(&mut self, properties: Vec<(&'static str, Property)>) -> (i32, u32) {
        if self.capacity == Some(self.created.len()) {
            return (NO_RESOURCES, 0);
        }
        self.last_id += 1;
        self.live.insert(self.last_id);
        self.created.push(properties);
        (KERN_SUCCESS, self.last_id)
    }

    fn release(&mut self, id: u32) -> i32 {
        self.released.push(id);
        if self.live.remove(&id) {
            KERN_SUCCESS
        } else {
            IO_RETURN_BAD_ARGUMENT
        }
    }

    /// Re-arms an id, or makes one for 0.
    fn declare(&mut self, call: ActivityCall) -> (i32, u32) {
        let id = call.id;
        self.declared.push(call);
        if id == 0 {
            self.last_id += 1;
            self.live.insert(self.last_id);
            (KERN_SUCCESS, self.last_id)
        } else {
            (KERN_SUCCESS, id)
        }
    }
}

#[derive(Debug, Default)]
struct Simulated {
    backend: IoKitBackend,
    kernel: Kernel,
}

impl Backend for Simulated {
    fn name(&self) -> &'static str {
        self.backend.name()
    }

    fn acquire(&mut self, req: &Request) -> Result<Handle, Error> {
        let mut run = self.backend.acquire(req);
        loop {
            match run.next() {
                AcquireCall::Create(properties) => {
                    let (rc, id) = self.kernel.create(properties);
                    run.answered(rc, id);
                }
                AcquireCall::Release(id) => {
                    let rc = self.kernel.release(id);
                    run.answered(rc, 0);
                }
                AcquireCall::Nothing => return run.finish(),
            }
        }
    }

    fn release(&mut self, handle: &Handle) -> Result<(), Error> {
        let mut run = self.backend.release(handle);
        while let Some(id) = run.next() {
            let rc = self.kernel.release(id);
            run.answered(rc);
        }
        run.finish()
    }

    fn declare_user_activity(&mut self, reason: &str) -> Result<(), Error> {
        let (rc, id) = self.kernel.declare(self.backend.user_activity(reason));
        self.backend.declare_user_activity(rc, id)
    }
}

#[test]
fn kinds_map_one_assertion_per_flag() {
    assert_eq!(kinds_for(Flags::display_and_system()).len(), 2);
    assert_eq!(kinds_for(Flags::system_only()), vec![TYPE_SYSTEM]);
    assert!(kinds_for(Flags::default()).is_empty());
}

#[test]
fn every_flag_has_its_own_kind() {
    let all = Flags { display: true, system: true, disk: true };
    assert_eq!(kinds_for(all), vec![TYPE_DISPLAY, TYPE_SYSTEM, TYPE_DISK]);
    assert_eq!(TYPE_DISPLAY, "PreventUserIdleDisplaySleep");
    assert_eq!(TYPE_SYSTEM, "PreventUserIdleSystemSleep");
    assert_eq!(TYPE_DISK, "PreventDiskIdle");
}

#[test]
fn real_assertions_round_trip() {
    let backend = Simulated::default();
    let req = Request::new(Flags::display_and_system(), "unit test");

    let guard = acquire(backend, req).expect("acquire should succeed on macOS");
    assert_eq!(guard.handle().ids.len(), 2, "display + system = two assertions");
    assert!(guard.handle().ids.iter().all(|id| *id != 0), "ids should be non-zero");

    guard.release().1.expect("release should succeed");
}

#[test]
fn timeout_assertion_is_accepted_by_the_kernel() {
    let mut backend = Simulated::default();
    let req = Request::new(Flags::system_only(), "timeout test")
        .with_timeout(Duration::from_secs(1));

    let handle = backend.acquire(&req).expect("timed acquire should succeed");
    backend.release(&handle).expect("release should succeed");
}

#[test]
fn properties_name_the_assertion_and_its_deadline() {
    let mut backend = Simulated::default();
    let req = Request::new(Flags::system_only(), "timeout test")
        .with_timeout(Duration::from_secs(1));
    backend.acquire(&req).unwrap();
    backend.acquire(&Request::new(Flags::system_only(), "on")).unwrap();

    assert_eq!(
        backend.kernel.created[0],
        vec![
            (KEY_TYPE, Property::Text(TYPE_SYSTEM.to_string())),
            (KEY_LEVEL, Property::Number(255)),
            (KEY_NAME, Property::Text("no-afk: timeout test".to_string())),
            (KEY_TIMEOUT, Property::Seconds(Duration::from_secs(1))),
            (KEY_TIMEOUT_ACTION, Property::Text(TIMEOUT_ACTION_RELEASE.to_string())),
        ]
    );
    assert_eq!(backend.kernel.created[1].len(), 3, "no timeout, no timeout action");
    assert_eq!(backend.kernel.created[1][2].0, "AssertName");
}

/// A timed session that the kernel expires must still release cleanly.
#[test]
fn releasing_a_timed_assertion_twice_is_ok() {
    let mut backend = Simulated::default();
    let req = Request::new(Flags::system_only(), "timed").with_timeout(Duration::from_secs(60));

    let handle = backend.acquire(&req).expect("acquire");
    assert!(handle.timed);

    backend.release(&handle).expect("first release");
    backend
        .release(&handle)
        .expect("second release must be tolerated — the kernel may have got there first");
}

/// The flip side: nothing but us can release an *untimed* assertion, so a double-release is a
/// real bug and must not be silently swallowed.
#[test]
fn releasing_an_untimed_assertion_twice_is_an_error() {
    let mut backend = Simulated::default();
    let handle = backend
        .acquire(&Request::new(Flags::system_only(), "untimed"))
        .expect("acquire");
    assert!(!handle.timed);

    backend.release(&handle).expect("first release");
    let err = backend.release(&handle).expect_err("second release should surface");
    assert!(matches!(err, Error::Os { call: "IOPMAssertionRelease", .. }));
    assert_eq!(err, Error::Os { call: "IOPMAssertionRelease", code: -536870206 });
}

#[test]
fn a_timed_release_tolerates_no_other_status() {
    let backend = IoKitBackend::default();
    let mut run = backend.release(&Handle { ids: vec![5, 6, 7], timed: true });
    assert_eq!(run.next(), Some(5));
    run.answered(IO_RETURN_BAD_ARGUMENT);
    assert_eq!(run.next(), Some(6));
    run.answered(NO_RESOURCES);
    assert_eq!(run.next(), Some(7), "a failure does not stop the rest");
    run.answered(-1);
    assert_eq!(run.next(), None);
    assert_eq!(
        run.finish(),
        Err(Error::Os { call: "IOPMAssertionRelease", code: -536870210 }),
        "the first failure is the one reported"
    );
}

#[test]
fn a_partial_acquire_rolls_back() {
    let mut backend = Simulated::default();
    backend.kernel.capacity = Some(2);
    let all = Flags { display: true, system: true, disk: true };

    let err = backend.acquire(&Request::new(all, "too much")).unwrap_err();
    assert_eq!(
        err,
        Error::Os { call: "IOPMAssertionCreateWithProperties", code: -536870210 }
    );
    assert_eq!(backend.kernel.released, vec![1, 2]);
    assert!(backend.kernel.live.is_empty(), "nothing may stay behind");
}

#[test]
fn declare_user_activity_reuses_its_id() {
    let mut backend = Simulated::default();
    backend.declare_user_activity("test").expect("first call");
    let first = backend.backend.user_activity_id;

    backend.declare_user_activity("test").expect("second call");
    let second = backend.backend.user_activity_id;

    assert_ne!(first, 0, "should have stored a real assertion id");
    assert_eq!(first, second, "must re-arm, not create a second assertion");
}

#[test]
fn a_failed_declaration_keeps_the_id() {
    let mut backend = IoKitBackend { user_activity_id: 9 };
    assert_eq!(
        backend.declare_user_activity(-1, 12),
        Err(Error::Os { call: "IOPMAssertionDeclareUserActivity", code: -1 })
    );
    assert_eq!(backend.user_activity_id, 9);
}

#[test]
fn user_activity_is_declared_for_the_local_user() {
    let mut backend = Simulated::default();
    backend.declare_user_activity("test").unwrap();
    backend.declare_user_activity("again").unwrap();
    assert_eq!(
        backend.kernel.declared,
        vec![
            ActivityCall { name: "no-afk: test".to_string(), user_type: 0, id: 0 },
            ActivityCall { name: "no-afk: again".to_string(), user_type: 0, id: 1 },
        ]
    );
    assert_eq!(backend.kernel.live.len(), 1, "one assertion, however often");
}

#[test]
fn a_timed_request_puts_its_deadline_on_every_assertion() {
    let mut backend = Simulated::default();
    let timeout = Duration::new(90, 500_000_000);
    let req = Request::new(Flags::display_and_system(), "movie").with_timeout(timeout);
    let handle = backend.acquire(&req).unwrap();

    assert_eq!(handle, Handle { ids: vec![1, 2], timed: true });
    assert_eq!(backend.kernel.created.len(), 2);
    for entries in &backend.kernel.created {
        assert_eq!(entries[3], (KEY_TIMEOUT, Property::Seconds(timeout)));
    }
}

#[test]
fn the_system_list_is_not_made_up() {
    assert_eq!(
        IoKitBackend::default().system_assertions(),
        Err(Error::Unsupported("system_assertions"))
    );
}
