//! An in-memory [`Backend`] for tests.
//!
//! Lets the session state machine be tested on any platform, and, more importantly, lets
//! tests assert that **nothing leaked**, which is the failure mode that actually hurts users.

use std::collections::BTreeSet;

use vstd::prelude::*;

use crate::{Backend, Error, Flags, Handle, HandleView, Request, RequestView, SystemAssertion};

verus! {

broadcast use {
    vstd::std_specs::btree::group_btree_axioms,
    vstd::laws_cmp::group_laws_cmp,
    Seq::lemma_push_to_set_commute,
};

#[derive(Debug, PartialEq, Eq)]
pub enum Event {
    Acquire { ids: Vec<u64>, flags: Flags, reason: String },
    Release { ids: Vec<u64> },
    UserActivity { reason: String },
}

/// What an [`Event`] says.
pub enum EventView {
    Acquire { ids: Seq<u64>, flags: Flags, reason: Seq<char> },
    Release { ids: Seq<u64> },
    UserActivity { reason: Seq<char> },
}

impl View for Event {
    type V = EventView;

    open spec fn view(&self) -> EventView {
        match *self {
            Event::Acquire { ids, flags, reason } => EventView::Acquire {
                ids: ids@,
                flags,
                reason: reason@,
            },
            Event::Release { ids } => EventView::Release { ids: ids@ },
            Event::UserActivity { reason } => EventView::UserActivity { reason: reason@ },
        }
    }
}

impl Clone for Event {
    fn clone(&self) -> (event: Event)
        ensures
            event@ == self@,
    {
        match self {
            Event::Acquire { ids, flags, reason } => Event::Acquire {
                ids: ids.clone(),
                flags: *flags,
                reason: reason.clone(),
            },
            Event::Release { ids } => Event::Release { ids: ids.clone() },
            Event::UserActivity { reason } => Event::UserActivity { reason: reason.clone() },
        }
    }
}

/// A backend that keeps its assertions in memory and writes down what it was asked to do.
#[derive(Debug)]
pub struct FakeBackend {
    next_id: u64,
    live: BTreeSet<u64>,
    events: Vec<Event>,
    fail_next_acquire: Option<Error>,
    fail_next_release: Option<Error>,
}

/// The state of a [`FakeBackend`]: the last id handed out, the ids held, the log, and the
/// errors that the next calls are to end in.
pub struct FakeView {
    pub last_id: u64,
    pub live: Set<u64>,
    pub events: Seq<EventView>,
    pub fail_next_acquire: Option<Error>,
    pub fail_next_release: Option<Error>,
}

/// The log, event by event.
pub open spec fn events_view(events: Seq<Event>) -> Seq<EventView> {
    Seq::new(events.len(), |i: int| events[i]@)
}

/// The id that comes `k` after `last`; past the largest the count starts over.
pub open spec fn id_after(last: u64, k: int) -> u64 {
    ((last + k) % 0x1_0000_0000_0000_0000) as u64
}

/// The `n` ids that follow `last`.
pub open spec fn ids_after(last: u64, n: nat) -> Seq<u64> {
    Seq::new(n, |i: int| id_after(last, i + 1))
}

impl FakeView {
    /// The state after an acquire, and its result.
    pub open spec fn acquire(self, req: RequestView) -> (FakeView, Result<HandleView, Error>) {
        match self.fail_next_acquire {
            Some(e) => (FakeView { fail_next_acquire: None, ..self }, Err(e)),
            None => {
                let ids = ids_after(self.last_id, req.flags.count());
                (
                    FakeView {
                        last_id: id_after(self.last_id, req.flags.count() as int),
                        live: self.live + ids.to_set(),
                        events: self.events.push(
                            EventView::Acquire { ids, flags: req.flags, reason: req.reason },
                        ),
                        ..self
                    },
                    Ok(HandleView { ids, timed: req.timeout is Some }),
                )
            },
        }
    }

    /// The state after a release, and its result.
    pub open spec fn release(self, handle: HandleView) -> (FakeView, Result<(), Error>) {
        let events = self.events.push(EventView::Release { ids: handle.ids });
        match self.fail_next_release {
            Some(e) => (FakeView { events, fail_next_release: None, ..self }, Err(e)),
            None => (FakeView { events, live: self.live - handle.ids.to_set(), ..self }, Ok(())),
        }
    }
}

impl View for FakeBackend {
    type V = FakeView;

    closed spec fn view(&self) -> FakeView {
        FakeView {
            last_id: self.next_id,
            live: self.live@,
            events: events_view(self.events@),
            fail_next_acquire: self.fail_next_acquire,
            fail_next_release: self.fail_next_release,
        }
    }
}

proof fn lemma_increasing(keys: Seq<&u64>)
    requires
        vstd::std_specs::btree::increasing_seq(keys),
    ensures
        forall|i: int, j: int| 0 <= i < j < keys.len() ==> *keys[i] < *keys[j],
{
    assert(vstd::laws_cmp::obeys_cmp::<&u64>());
    assert forall|i: int, j: int| 0 <= i < j < keys.len() implies *keys[i] < *keys[j] by {
        assert(vstd::std_specs::cmp::OrdSpec::cmp_spec(&keys[i], &keys[j]) is Less);
    }
}

/// A backend that has not been used.
pub open spec fn unused() -> FakeView {
    FakeView {
        last_id: 0,
        live: Set::empty(),
        events: Seq::empty(),
        fail_next_acquire: None,
        fail_next_release: None,
    }
}

impl Default for FakeBackend {
    fn default() -> (backend: FakeBackend)
        ensures
            backend@ == unused(),
    {
        FakeBackend::new()
    }
}

impl FakeBackend {
    pub fn new() -> (backend: FakeBackend)
        ensures
            backend@ == unused(),
    {
        let backend = FakeBackend {
            next_id: 0,
            live: BTreeSet::new(),
            events: Vec::new(),
            fail_next_acquire: None,
            fail_next_release: None,
        };
        assert(backend@.events =~= Seq::<EventView>::empty());
        backend
    }

    /// Assertions currently held. **Should be 0 at the end of every test.**
    pub fn live_count(&self) -> (n: usize)
        ensures
            n == self@.live.len(),
    {
        self.live.len()
    }

    /// The ids currently held, in increasing order.
    pub fn live_ids(&self) -> (ids: Vec<u64>)
        ensures
            ids@.to_set() == self@.live,
            forall|i: int, j: int| 0 <= i < j < ids@.len() ==> ids@[i] < ids@[j],
    {
        let mut ids: Vec<u64> = Vec::new();
        for id in it: self.live.iter()
            invariant
                ids@ =~= it.seq().take(it.index()).unref(),
        {
            ids.push(*id);
        }
        proof {
            let all = vstd::std_specs::iter::IteratorSpec::remaining(
                &vstd::std_specs::btree::spec_btree_keys_iter(&self.live),
            );
            assert(ids@ =~= all.unref());
            lemma_increasing(all);
        }
        ids
    }

    /// Everything the backend was asked to do and did, in order.
    pub fn events(&self) -> (events: Vec<Event>)
        ensures
            events_view(events@) == self@.events,
    {
        let mut events: Vec<Event> = Vec::new();
        let mut i: usize = 0;
        while i < self.events.len()
            invariant
                i <= self.events@.len(),
                events_view(events@) =~= events_view(self.events@).take(i as int),
            decreases self.events@.len() - i,
        {
            let ghost upto = events_view(events@);
            events.push(self.events[i].clone());
            assert(events_view(events@) =~= upto.push(self.events@[i as int]@));
            i = i + 1;
        }
        assert(events_view(self.events@).take(i as int) =~= events_view(self.events@));
        events
    }

    /// Make the next `acquire` fail, to exercise error paths.
    pub fn fail_next_acquire(&mut self, err: Error)
        ensures
            final(self)@ == (FakeView { fail_next_acquire: Some(err), ..old(self)@ }),
    {
        self.fail_next_acquire = Some(err);
    }

    /// Make the next `release` fail, to prove that dropping a guard does not panic.
    pub fn fail_next_release(&mut self, err: Error)
        ensures
            final(self)@ == (FakeView { fail_next_release: Some(err), ..old(self)@ }),
    {
        self.fail_next_release = Some(err);
    }
}

impl Backend for FakeBackend {
    open spec fn goes_by(&self, name: Seq<char>) -> bool {
        name == "fake"@
    }

    open spec fn acquires(
        pre: FakeBackend,
        req: RequestView,
        post: FakeBackend,
        result: Result<HandleView, Error>,
    ) -> bool {
        (post@, result) == pre@.acquire(req)
    }

    open spec fn releases(
        pre: FakeBackend,
        handle: HandleView,
        post: FakeBackend,
        result: Result<(), Error>,
    ) -> bool {
        (post@, result) == pre@.release(handle)
    }

    fn name(&self) -> (name: &'static str) {
        "fake"
    }

    /// One assertion per requested flag.
    fn acquire(&mut self, req: &Request) -> (result: Result<Handle, Error>) {
        match self.fail_next_acquire.take() {
            Some(e) => return Err(e),
            None => {},
        }
        let mut n: usize = 0;
        if req.flags.display {
            n = n + 1;
        }
        if req.flags.system {
            n = n + 1;
        }
        if req.flags.disk {
            n = n + 1;
        }
        let mut ids: Vec<u64> = Vec::new();
        let ghost last = self.next_id;
        let ghost live = self.live@;
        let mut i: usize = 0;
        while i < n
            invariant
                i <= n,
                n <= 3,
                self.next_id == id_after(last, i as int),
                ids@ =~= ids_after(last, i as nat),
                self.live@ =~= live + ids@.to_set(),
                self.events == old(self).events,
                self.fail_next_acquire is None,
                self.fail_next_release == old(self).fail_next_release,
            decreases n - i,
        {
            self.next_id = self.next_id.wrapping_add(1);
            let id: u64 = self.next_id;
            self.live.insert(id);
            ids.push(id);
            i = i + 1;
        }
        self.events.push(
            Event::Acquire { ids: ids.clone(), flags: req.flags, reason: req.reason.clone() },
        );
        assert(self@.events =~= old(self)@.acquire(req@).0.events);
        Ok(Handle { ids, timed: req.timeout.is_some() })
    }

    fn release(&mut self, handle: &Handle) -> (result: Result<(), Error>) {
        self.events.push(Event::Release { ids: handle.ids.clone() });
        assert(self@.events =~= old(self)@.release(handle@).0.events);
        match self.fail_next_release.take() {
            Some(e) => return Err(e),
            None => {},
        }
        let ghost live = self.live@;
        let mut i: usize = 0;
        while i < handle.ids.len()
            invariant
                i <= handle.ids@.len(),
                self.live@ =~= live - handle.ids@.take(i as int).to_set(),
                self@.events == old(self)@.release(handle@).0.events,
                self.next_id == old(self).next_id,
                self.fail_next_acquire == old(self).fail_next_acquire,
                self.fail_next_release is None,
            decreases handle.ids@.len() - i,
        {
            let ghost gone = handle.ids@.take(i as int);
            self.live.remove(&handle.ids[i]);
            assert(handle.ids@.take(i + 1) =~= gone.push(handle.ids@[i as int]));
            i = i + 1;
        }
        assert(handle.ids@.take(i as int) =~= handle.ids@);
        Ok(())
    }

    fn declare_user_activity(&mut self, reason: &str) -> (result: Result<(), Error>)
        ensures
            result is Ok,
            final(self)@ == (FakeView {
                events: old(self)@.events.push(EventView::UserActivity { reason: reason@ }),
                ..old(self)@
            }),
    {
        self.events.push(Event::UserActivity { reason: reason.to_owned() });
        assert(self@.events =~= old(self)@.events.push(EventView::UserActivity { reason: reason@ }));
        Ok(())
    }

    fn system_assertions(&self) -> (result: Result<Vec<SystemAssertion>, Error>)
        ensures
            result is Ok,
            result->Ok_0@.len() == 1,
            result->Ok_0@[0].pid == 1234,
            result->Ok_0@[0].process@ == "FakeApp"@,
            result->Ok_0@[0].kind@ == "PreventUserIdleDisplaySleep"@,
            result->Ok_0@[0].name@ == "fake assertion"@,
    {
        let mut list: Vec<SystemAssertion> = Vec::new();
        list.push(
            SystemAssertion {
                pid: 1234,
                process: "FakeApp".to_owned(),
                kind: "PreventUserIdleDisplaySleep".to_owned(),
                name: "fake assertion".to_owned(),
            },
        );
        Ok(list)
    }
}

} // verus!
