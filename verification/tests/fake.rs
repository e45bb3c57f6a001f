//! The in-memory backend itself.

use awake_core::fake::{Event, FakeBackend};
use awake_core::time::Duration;
use awake_core::{Backend, Error, Flags, Handle, Request};

#[test]
fn ids_are_handed_out_one_per_flag() {
    let mut backend = FakeBackend::new();
    let all = Flags { display: true, system: true, disk: true };

    let first = backend.acquire(&Request::new(all, "all")).unwrap();
    assert_eq!(first, Handle { ids: vec![1, 2, 3], timed: false });

    let timed = Request::new(Flags::system_only(), "one").with_timeout(Duration::from_secs(1));
    let second = backend.acquire(&timed).unwrap();
    assert_eq!(second, Handle { ids: vec![4], timed: true });

    assert_eq!(backend.live_count(), 4);
    assert_eq!(backend.live_ids(), vec![1, 2, 3, 4]);
}

#[test]
fn release_gives_back_what_acquire_took() {
    let mut backend = FakeBackend::new();
    let kept = backend.acquire(&Request::new(Flags::system_only(), "kept")).unwrap();
    let handle = backend
        .acquire(&Request::new(Flags::display_and_system(), "gone"))
        .unwrap();
    assert_eq!(backend.release(&handle), Ok(()));

    assert_eq!(backend.live_ids(), kept.ids);
    assert_eq!(
        backend.events(),
        vec![
            Event::Acquire {
                ids: vec![1],
                flags: Flags::system_only(),
                reason: "kept".to_string()
            },
            Event::Acquire {
                ids: vec![2, 3],
                flags: Flags::display_and_system(),
                reason: "gone".to_string()
            },
            Event::Release { ids: vec![2, 3] },
        ]
    );
}

#[test]
fn scheduled_failures_happen_once() {
    let mut backend = FakeBackend::new();
    let req = Request::new(Flags::system_only(), "test");
    backend.fail_next_acquire(Error::Unsupported("acquire"));
    backend.fail_next_release(Error::Unsupported("release"));

    assert_eq!(backend.acquire(&req), Err(Error::Unsupported("acquire")));
    assert!(backend.events().is_empty(), "a refused acquire is not logged");

    let handle = backend.acquire(&req).unwrap();
    assert_eq!(handle.ids, vec![1]);
    assert_eq!(backend.release(&handle), Err(Error::Unsupported("release")));
    assert_eq!(backend.live_count(), 1, "a failed release gives nothing back");
    assert_eq!(backend.release(&handle), Ok(()));
    assert_eq!(backend.release(&handle), Ok(()), "an id that is not held is no error");
    assert_eq!(backend.live_count(), 0);
}

#[test]
fn the_system_list_holds_one_made_up_entry() {
    let backend = FakeBackend::default();
    let list = backend.system_assertions().unwrap();
    assert_eq!(list.len(), 1);
    assert_eq!(list[0].pid, 1234);
    assert_eq!(list[0].process, "FakeApp");
    assert_eq!(list[0].kind, "PreventUserIdleDisplaySleep");
    assert_eq!(list[0].name, "fake assertion");
    assert_eq!(backend.name(), "fake");
}
