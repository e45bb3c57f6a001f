//! macOS backend: what to ask of IOKit power assertions, and what to make of its answers.
//!
//! The calls themselves are made by whoever drives the runs below: [`AcquireRun`] and
//! [`ReleaseRun`] say what to call next and take in what came back.
//!
//! Assertions are created with `IOPMAssertionCreateWithProperties` rather than the simpler
//! `IOPMAssertionCreateWithName`, because only the properties form accepts a timeout, and an
//! OS-enforced deadline is the only one that survives our process being suspended.

use vstd::prelude::*;
use vstd::string::*;

use crate::time::Duration;
use crate::{Error, Flags, Handle, HandleView, Request, RequestView, SystemAssertion};

verus! {

// Assertion type strings. The system's own listing may print the legacy aliases instead.
pub const TYPE_DISPLAY: &'static str = "PreventUserIdleDisplaySleep";

pub const TYPE_SYSTEM: &'static str = "PreventUserIdleSystemSleep";

pub const TYPE_DISK: &'static str = "PreventDiskIdle";

// Property dictionary keys, from IOKit/pwr_mgt/IOPMLib.h.
pub const KEY_TYPE: &'static str = "AssertType";

pub const KEY_LEVEL: &'static str = "AssertLevel";

pub const KEY_NAME: &'static str = "AssertName";

pub const KEY_TIMEOUT: &'static str = "TimeoutSeconds";

pub const KEY_TIMEOUT_ACTION: &'static str = "TimeoutAction";

pub const TIMEOUT_ACTION_RELEASE: &'static str = "TimeoutActionRelease";

pub const LEVEL_ON: i32 = 255;

/// The user type for `IOPMAssertionDeclareUserActivity`.
pub const IOPM_USER_ACTIVE_LOCAL: i32 = 0;

pub const KERN_SUCCESS: i32 = 0;

/// `kIOReturnBadArgument` (0xE00002C2) as a signed `IOReturn`.
///
/// This is what `IOPMAssertionRelease` returns for an id it does not recognise, be it bogus,
/// already released, or expired. Because a benign double-release is indistinguishable from a
/// caller passing garbage, it is **not** tolerated unconditionally: see [`Handle::timed`].
pub const IO_RETURN_BAD_ARGUMENT: i32 = -536870206;

/// The assertion types that the flags call for, one for each flag.
pub open spec fn kinds_of(flags: Flags) -> Seq<&'static str> {
    (if flags.display {
        seq![TYPE_DISPLAY]
    } else {
        seq![]
    }) + (if flags.system {
        seq![TYPE_SYSTEM]
    } else {
        seq![]
    }) + (if flags.disk {
        seq![TYPE_DISK]
    } else {
        seq![]
    })
}

/// There is one assertion for each flag that is set, and it is of the flag's own type.
pub proof fn law_one_assertion_per_flag(flags: Flags)
    ensures
        kinds_of(flags).len() == flags.count(),
        kinds_of(flags).contains(TYPE_DISPLAY) <==> flags.display,
        kinds_of(flags).contains(TYPE_SYSTEM) <==> flags.system,
        kinds_of(flags).contains(TYPE_DISK) <==> flags.disk,
{
    reveal_strlit("PreventUserIdleDisplaySleep");
    reveal_strlit("PreventUserIdleSystemSleep");
    reveal_strlit("PreventDiskIdle");
    assert(TYPE_DISPLAY@.len() == 27 && TYPE_SYSTEM@.len() == 26 && TYPE_DISK@.len() == 15);
    let kinds = kinds_of(flags);
    if flags.display {
        assert(kinds[0] == TYPE_DISPLAY);
    }
    if flags.system {
        assert(kinds[if flags.display {
            1int
        } else {
            0int
        }] == TYPE_SYSTEM);
    }
    if flags.disk {
        assert(kinds.last() == TYPE_DISK);
    }
}

pub fn kinds_for(flags: Flags) -> (kinds: Vec<&'static str>)
    ensures
        kinds@ == kinds_of(flags),
{
    let mut kinds: Vec<&'static str> = Vec::with_capacity(3);
    if flags.display {
        kinds.push(TYPE_DISPLAY);
    }
    if flags.system {
        kinds.push(TYPE_SYSTEM);
    }
    if flags.disk {
        kinds.push(TYPE_DISK);
    }
    assert(kinds@ =~= kinds_of(flags));
    kinds
}

// ---------------------------------------------------------------------------
// Creating one assertion
// ---------------------------------------------------------------------------

/// One value of an assertion's property dictionary.
#[derive(Debug, PartialEq, Eq)]
pub enum Property {
    Text(String),
    Number(i32),
    /// A span of time, to be given in seconds.
    Seconds(Duration),
}

/// What a [`Property`] says.
pub enum PropertyView {
    Text(Seq<char>),
    Number(i32),
    Seconds(Duration),
}

impl View for Property {
    type V = PropertyView;

    open spec fn view(&self) -> PropertyView {
        match *self {
            Property::Text(text) => PropertyView::Text(text@),
            Property::Number(n) => PropertyView::Number(n),
            Property::Seconds(d) => PropertyView::Seconds(d),
        }
    }
}

/// A dictionary, entry by entry.
pub open spec fn properties_view(entries: Seq<(&'static str, Property)>) -> Seq<
    (&'static str, PropertyView),
> {
    Seq::new(entries.len(), |i: int| (entries[i].0, entries[i].1@))
}

/// The properties of an assertion: its type, that it is on, its name, and where it has a
/// timeout, the timeout and that the kernel is to release the assertion then.
pub open spec fn properties_of(
    kind: Seq<char>,
    name: Seq<char>,
    timeout: Option<Duration>,
) -> Seq<(&'static str, PropertyView)> {
    let always = seq![
        (KEY_TYPE, PropertyView::Text(kind)),
        (KEY_LEVEL, PropertyView::Number(LEVEL_ON)),
        (KEY_NAME, PropertyView::Text(name)),
    ];
    match timeout {
        None => always,
        Some(t) => always.push((KEY_TIMEOUT, PropertyView::Seconds(t))).push(
            (KEY_TIMEOUT_ACTION, PropertyView::Text(TIMEOUT_ACTION_RELEASE@)),
        ),
    }
}

/// The property dictionary of an assertion.
pub fn assertion_properties(kind: &str, name: &str, timeout: Option<Duration>) -> (entries: Vec<
    (&'static str, Property),
>)
    ensures
        properties_view(entries@) == properties_of(kind@, name@, timeout),
{
    let mut entries: Vec<(&'static str, Property)> = Vec::new();
    entries.push((KEY_TYPE, Property::Text(kind.to_owned())));
    entries.push((KEY_LEVEL, Property::Number(LEVEL_ON)));
    entries.push((KEY_NAME, Property::Text(name.to_owned())));
    if let Some(t) = timeout {
        entries.push((KEY_TIMEOUT, Property::Seconds(t)));
        entries.push((KEY_TIMEOUT_ACTION, Property::Text(TIMEOUT_ACTION_RELEASE.to_owned())));
    }
    assert(properties_view(entries@) =~= properties_of(kind@, name@, timeout));
    entries
}

/// What `IOPMAssertionCreateWithProperties` came to, by its status and the id it left.
pub open spec fn creation(rc: i32, id: u32) -> Result<u32, Error> {
    if rc == KERN_SUCCESS {
        Ok(id)
    } else {
        Err(Error::Os { call: "IOPMAssertionCreateWithProperties", code: rc as i64 })
    }
}

pub fn create_assertion(rc: i32, id: u32) -> (result: Result<u32, Error>)
    ensures
        result == creation(rc, id),
{
    if rc != KERN_SUCCESS {
        return Err(Error::Os { call: "IOPMAssertionCreateWithProperties", code: rc as i64 });
    }
    Ok(id)
}

// ---------------------------------------------------------------------------
// Backend
// ---------------------------------------------------------------------------

/// The name that an assertion goes by, so that the user can tell whose it is.
pub open spec fn assertion_name(reason: Seq<char>) -> Seq<char> {
    "no-afk: "@ + reason
}

/// The name under which `reason` is shown to the user.
pub fn name_assertion(reason: &str) -> (name: String)
    ensures
        name@ == assertion_name(reason@),
{
    let mut name = "no-afk: ".to_owned();
    name.append(reason);
    name
}

/// What the macOS backend keeps between calls.
#[derive(Debug, PartialEq, Eq)]
pub struct IoKitBackend {
    /// Reused across declarations of user activity.
    ///
    /// `IOPMAssertionDeclareUserActivity` *re-arms* an existing id when given one, but creates a
    /// brand new assertion when given 0. Passing 0 every tick would leak one assertion per call.
    pub user_activity_id: u32,
}

/// What `IOPMAssertionDeclareUserActivity` is called with.
#[derive(Debug, PartialEq, Eq)]
pub struct ActivityCall {
    pub name: String,
    pub user_type: i32,
    /// The id to re-arm, or 0 to have one created.
    pub id: u32,
}

/// The id to keep after a declaration of user activity that was given `stored` has come back
/// with this status and id.
pub open spec fn activity_answered(stored: u32, rc: i32, id: u32) -> u32 {
    if rc == KERN_SUCCESS {
        id
    } else {
        stored
    }
}

impl Default for IoKitBackend {
    fn default() -> (backend: IoKitBackend)
        ensures
            backend.user_activity_id == 0,
    {
        IoKitBackend { user_activity_id: 0 }
    }
}

impl IoKitBackend {
    pub fn name(&self) -> (name: &'static str)
        ensures
            name@ == "macos/iokit"@,
    {
        "macos/iokit"
    }

    /// Begin to acquire what `req` asks for.
    pub fn acquire(&self, req: &Request) -> (run: AcquireRun)
        ensures
            run@ == acquire_begin(req@),
    {
        AcquireRun {
            name: name_assertion(req.reason.as_str()),
            timeout: req.timeout,
            kinds: kinds_for(req.flags),
            ids: Vec::new(),
            failed: None,
            undone: 0,
        }
    }

    /// Begin to release what `handle` stands for.
    pub fn release(&self, handle: &Handle) -> (run: ReleaseRun)
        ensures
            run@ == release_begin(handle@),
    {
        ReleaseRun { ids: handle.ids.clone(), timed: handle.timed, tried: 0, first_err: None }
    }

    /// What to call `IOPMAssertionDeclareUserActivity` with.
    pub fn user_activity(&self, reason: &str) -> (call: ActivityCall)
        ensures
            call.name@ == assertion_name(reason@),
            call.user_type == IOPM_USER_ACTIVE_LOCAL,
            call.id == self.user_activity_id,
    {
        ActivityCall {
            name: name_assertion(reason),
            user_type: IOPM_USER_ACTIVE_LOCAL,
            id: self.user_activity_id,
        }
    }

    /// Take in what the call of [`IoKitBackend::user_activity`] came to: its status and the id it
    /// left. On success that id is the one to give it next time.
    pub fn declare_user_activity(&mut self, rc: i32, id: u32) -> (result: Result<(), Error>)
        ensures
            final(self).user_activity_id == activity_answered(old(self).user_activity_id, rc, id),
            result == (if rc == KERN_SUCCESS {
                Ok::<(), Error>(())
            } else {
                Err(Error::Os { call: "IOPMAssertionDeclareUserActivity", code: rc as i64 })
            }),
    {
        if rc != KERN_SUCCESS {
            return Err(Error::Os { call: "IOPMAssertionDeclareUserActivity", code: rc as i64 });
        }
        self.user_activity_id = id;
        Ok(())
    }

    /// Every assertion currently held on the system. `IOPMCopyAssertionsByProcess` would have
    /// the list; until it is asked, a clear error is better than a plausible empty list.
    pub fn system_assertions(&self) -> (result: Result<Vec<SystemAssertion>, Error>)
        ensures
            result == Err::<Vec<SystemAssertion>, Error>(Error::Unsupported("system_assertions")),
    {
        Err(Error::Unsupported("system_assertions"))
    }
}

// ---------------------------------------------------------------------------
// Acquiring
// ---------------------------------------------------------------------------

/// An acquire under way: one assertion is created for each kind, and if one fails, those
/// created before it are released again.
#[derive(Debug)]
pub struct AcquireRun {
    name: String,
    timeout: Option<Duration>,
    kinds: Vec<&'static str>,
    ids: Vec<u64>,
    failed: Option<Error>,
    undone: usize,
}

/// What an acquire wants done next.
#[derive(Debug, PartialEq, Eq)]
pub enum AcquireCall {
    /// `IOPMAssertionCreateWithProperties` with these properties.
    Create(Vec<(&'static str, Property)>),
    /// `IOPMAssertionRelease` of this id.
    Release(u32),
    /// Nothing more: the result stands.
    Nothing,
}

/// What an [`AcquireCall`] says.
pub enum AcquireCallView {
    Create(Seq<(&'static str, PropertyView)>),
    Release(u32),
    Nothing,
}

impl View for AcquireCall {
    type V = AcquireCallView;

    open spec fn view(&self) -> AcquireCallView {
        match *self {
            AcquireCall::Create(entries) => AcquireCallView::Create(properties_view(entries@)),
            AcquireCall::Release(id) => AcquireCallView::Release(id),
            AcquireCall::Nothing => AcquireCallView::Nothing,
        }
    }
}

/// The state of an [`AcquireRun`]: what is being asked for, the ids created so far, the failure
/// that ended that, and how many of the ids have been released again.
pub struct AcquireView {
    pub name: Seq<char>,
    pub timeout: Option<Duration>,
    pub kinds: Seq<&'static str>,
    pub ids: Seq<u64>,
    pub failed: Option<Error>,
    pub undone: nat,
}

/// The state in which an acquire of `req` begins.
pub open spec fn acquire_begin(req: RequestView) -> AcquireView {
    AcquireView {
        name: assertion_name(req.reason),
        timeout: req.timeout,
        kinds: kinds_of(req.flags),
        ids: Seq::empty(),
        failed: None,
        undone: 0,
    }
}

impl AcquireView {
    /// The call that is due.
    pub open spec fn next(self) -> AcquireCallView {
        match self.failed {
            None => if self.ids.len() < self.kinds.len() {
                AcquireCallView::Create(
                    properties_of(self.kinds[self.ids.len() as int]@, self.name, self.timeout),
                )
            } else {
                AcquireCallView::Nothing
            },
            Some(_) => if self.undone < self.ids.len() {
                AcquireCallView::Release(self.ids[self.undone as int] as u32)
            } else {
                AcquireCallView::Nothing
            },
        }
    }

    /// The state after the call that is due has come back with this status and id. What a
    /// release in a rollback comes back with makes no difference.
    pub open spec fn answered(self, rc: i32, id: u32) -> AcquireView {
        match self.next() {
            AcquireCallView::Create(_) => match creation(rc, id) {
                Ok(id) => AcquireView { ids: self.ids.push(id as u64), ..self },
                Err(e) => AcquireView { failed: Some(e), ..self },
            },
            AcquireCallView::Release(_) => AcquireView { undone: self.undone + 1, ..self },
            AcquireCallView::Nothing => self,
        }
    }

    /// What the acquire comes to.
    pub open spec fn result(self) -> Result<HandleView, Error> {
        match self.failed {
            Some(e) => Err(e),
            None => Ok(HandleView { ids: self.ids, timed: self.timeout is Some }),
        }
    }
}

impl View for AcquireRun {
    type V = AcquireView;

    closed spec fn view(&self) -> AcquireView {
        AcquireView {
            name: self.name@,
            timeout: self.timeout,
            kinds: self.kinds@,
            ids: self.ids@,
            failed: self.failed,
            undone: self.undone as nat,
        }
    }
}

impl AcquireRun {
    /// The call that is due.
    pub fn next(&self) -> (call: AcquireCall)
        ensures
            call@ == self@.next(),
    {
        match self.failed {
            None => if self.ids.len() < self.kinds.len() {
                AcquireCall::Create(
                    assertion_properties(
                        self.kinds[self.ids.len()],
                        self.name.as_str(),
                        self.timeout,
                    ),
                )
            } else {
                AcquireCall::Nothing
            },
            Some(_) => if self.undone < self.ids.len() {
                AcquireCall::Release(
                    #[verifier::truncate]
                    (self.ids[self.undone] as u32),
                )
            } else {
                AcquireCall::Nothing
            },
        }
    }

    /// Take in what the call that was due came back with: its status and, for a creation, the
    /// id.
    pub fn answered(&mut self, rc: i32, id: u32)
        ensures
            final(self)@ == old(self)@.answered(rc, id),
    {
        match self.failed {
            None => if self.ids.len() < self.kinds.len() {
                match create_assertion(rc, id) {
                    Ok(id) => self.ids.push(id as u64),
                    // Roll back. A partially-acquired session is worse than a failed one: the
                    // UI would show "off" while assertions were still held.
                    Err(e) => self.failed = Some(e),
                }
            },
            Some(_) => if self.undone < self.ids.len() {
                self.undone = self.undone + 1;
            },
        }
    }

    /// What the acquire came to, once no call is due.
    pub fn finish(self) -> (result: Result<Handle, Error>)
        ensures
            crate::acquired_view(result) == self@.result(),
    {
        match self.failed {
            Some(e) => Err(e),
            None => Ok(Handle { ids: self.ids, timed: self.timeout.is_some() }),
        }
    }
}

// ---------------------------------------------------------------------------
// Releasing
// ---------------------------------------------------------------------------

/// A release under way: every id is tried, whatever came of those before it.
#[derive(Debug)]
pub struct ReleaseRun {
    ids: Vec<u64>,
    timed: bool,
    tried: usize,
    first_err: Option<Error>,
}

/// The state of a [`ReleaseRun`]: what is being released, how many of the ids have been tried,
/// and the first error that counts.
pub struct ReleaseView {
    pub handle: HandleView,
    pub tried: nat,
    pub first_err: Option<Error>,
}

/// The state in which a release of `handle` begins.
pub open spec fn release_begin(handle: HandleView) -> ReleaseView {
    ReleaseView { handle, tried: 0, first_err: None }
}

/// Whether a status of `IOPMAssertionRelease` is as good as success. For a timed assertion an
/// unknown id just means that the kernel was first; for an untimed one nothing should have
/// released it but us.
pub open spec fn tolerated(rc: i32, timed: bool) -> bool {
    rc == KERN_SUCCESS || (rc == IO_RETURN_BAD_ARGUMENT && timed)
}

/// The error for a status that is not tolerated.
pub open spec fn release_error(rc: i32) -> Error {
    Error::Os { call: "IOPMAssertionRelease", code: rc as i64 }
}

impl ReleaseView {
    /// The id to release next.
    pub open spec fn next(self) -> Option<u32> {
        if self.tried < self.handle.ids.len() {
            Some(self.handle.ids[self.tried as int] as u32)
        } else {
            None
        }
    }

    /// The state after the release of the next id has come back with this status.
    pub open spec fn answered(self, rc: i32) -> ReleaseView {
        if self.next() is None {
            self
        } else {
            ReleaseView {
                tried: self.tried + 1,
                first_err: if tolerated(rc, self.handle.timed) || self.first_err is Some {
                    self.first_err
                } else {
                    Some(release_error(rc))
                },
                ..self
            }
        }
    }

    /// What the release comes to.
    pub open spec fn result(self) -> Result<(), Error> {
        match self.first_err {
            Some(e) => Err(e),
            None => Ok(()),
        }
    }
}

impl View for ReleaseRun {
    type V = ReleaseView;

    closed spec fn view(&self) -> ReleaseView {
        ReleaseView {
            handle: HandleView { ids: self.ids@, timed: self.timed },
            tried: self.tried as nat,
            first_err: self.first_err,
        }
    }
}

impl ReleaseRun {
    /// The id to hand to `IOPMAssertionRelease` next.
    pub fn next(&self) -> (id: Option<u32>)
        ensures
            id == self@.next(),
    {
        if self.tried < self.ids.len() {
            Some(
                #[verifier::truncate]
                (self.ids[self.tried] as u32),
            )
        } else {
            None
        }
    }

    /// Take in the status that `IOPMAssertionRelease` came back with.
    pub fn answered(&mut self, rc: i32)
        ensures
            final(self)@ == old(self)@.answered(rc),
    {
        if self.tried >= self.ids.len() {
            return ;
        }
        self.tried = self.tried + 1;
        if rc == KERN_SUCCESS {
            return ;
        }
        if rc == IO_RETURN_BAD_ARGUMENT && self.timed {
            return ;
        }
        if self.first_err.is_none() {
            self.first_err = Some(Error::Os { call: "IOPMAssertionRelease", code: rc as i64 });
        }
    }

    /// What the release came to, once every id has been tried.
    pub fn finish(self) -> (result: Result<(), Error>)
        ensures
            result == self@.result(),
    {
        match self.first_err {
            Some(e) => Err(e),
            None => Ok(()),
        }
    }
}

// ---------------------------------------------------------------------------
// Laws
// ---------------------------------------------------------------------------

/// An acquire of `req` after these answers, each a status and an id.
pub open spec fn acquire_after(req: RequestView, answers: Seq<(i32, u32)>) -> AcquireView
    decreases answers.len(),
{
    if answers.len() == 0 {
        acquire_begin(req)
    } else {
        acquire_after(req, answers.drop_last()).answered(answers.last().0, answers.last().1)
    }
}

/// The ids that the kernel created on the way, in order.
pub open spec fn created_ids(req: RequestView, answers: Seq<(i32, u32)>) -> Seq<u32>
    decreases answers.len(),
{
    if answers.len() == 0 {
        Seq::empty()
    } else {
        let before = created_ids(req, answers.drop_last());
        let call = acquire_after(req, answers.drop_last()).next();
        if call is Create && answers.last().0 == KERN_SUCCESS {
            before.push(answers.last().1)
        } else {
            before
        }
    }
}

/// The ids that were handed back to the kernel on the way, in order.
pub open spec fn returned_ids(req: RequestView, answers: Seq<(i32, u32)>) -> Seq<u32>
    decreases answers.len(),
{
    if answers.len() == 0 {
        Seq::empty()
    } else {
        let before = returned_ids(req, answers.drop_last());
        match acquire_after(req, answers.drop_last()).next() {
            AcquireCallView::Release(id) => before.push(id),
            _ => before,
        }
    }
}

/// The smaller of the two.
pub open spec fn least(a: int, b: int) -> int {
    if a <= b {
        a
    } else {
        b
    }
}

pub(crate) proof fn lemma_acquire_course(req: RequestView, answers: Seq<(i32, u32)>)
    ensures
        ({
            let run = acquire_after(req, answers);
            let created = created_ids(req, answers);
            let n = answers.len() as int;
            let k = run.ids.len() as int;
            &&& run == (AcquireView {
                ids: run.ids,
                failed: run.failed,
                undone: run.undone,
                ..acquire_begin(req)
            })
            &&& created.len() == k
            &&& forall|i: int| 0 <= i < k ==> #[trigger] run.ids[i] == created[i] as u64
            &&& returned_ids(req, answers) =~= created.take(run.undone as int)
            &&& forall|i: int| 0 <= i < k ==> (#[trigger] answers[i]).0 == KERN_SUCCESS
            &&& match run.failed {
                None => {
                    &&& run.undone == 0
                    &&& k == least(n, run.kinds.len() as int)
                },
                Some(e) => {
                    &&& k < run.kinds.len()
                    &&& k < n
                    &&& run.undone == least(n - k - 1, k)
                    &&& answers[k].0 != KERN_SUCCESS
                    &&& Err::<u32, Error>(e) == creation(answers[k].0, answers[k].1)
                },
            }
        }),
    decreases answers.len(),
{
    if answers.len() > 0 {
        let before = answers.drop_last();
        lemma_acquire_course(req, before);
        let run = acquire_after(req, before);
        let k = run.ids.len() as int;
        assert(forall|i: int| 0 <= i < before.len() ==> before[i] == answers[i]);
        if run.failed is Some && run.undone < k {
            let id = created_ids(req, before)[run.undone as int];
            assert(run.ids[run.undone as int] == id as u64);
            assert((id as u64) as u32 == id);
        }
    } else {
        assert(created_ids(req, answers).take(0) =~= Seq::<u32>::empty());
    }
}

/// An acquire is all or nothing, whatever the kernel answers. It is over after at most two
/// calls for each flag. If it succeeds, it holds one assertion for each flag, the ones the
/// kernel created, and has handed none back. If it fails, it has handed back every assertion
/// that was created, and it reports the creation that failed. It succeeds exactly if none does.
pub proof fn law_acquire_rolls_back(req: RequestView, answers: Seq<(i32, u32)>)
    requires
        answers.len() >= 2 * req.flags.count(),
    ensures
        ({
            let run = acquire_after(req, answers);
            let created = created_ids(req, answers);
            let returned = returned_ids(req, answers);
            &&& run.next() is Nothing
            &&& run.result() is Ok <==> forall|i: int|
                0 <= i < req.flags.count() ==> (#[trigger] answers[i]).0 == KERN_SUCCESS
            &&& match run.result() {
                Ok(handle) => {
                    &&& created.len() == req.flags.count()
                    &&& returned.len() == 0
                    &&& handle.ids == Seq::new(created.len(), |i: int| created[i] as u64)
                    &&& handle.timed == (req.timeout is Some)
                },
                Err(e) => {
                    &&& created.len() < req.flags.count()
                    &&& returned == created
                    &&& Err::<u32, Error>(e) == creation(
                        answers[created.len() as int].0,
                        answers[created.len() as int].1,
                    )
                },
            }
        }),
{
    lemma_acquire_course(req, answers);
    law_one_assertion_per_flag(req.flags);
    let run = acquire_after(req, answers);
    let created = created_ids(req, answers);
    if run.failed is None {
        assert(run.ids =~= Seq::new(created.len(), |i: int| created[i] as u64));
    } else {
        assert(created.take(run.undone as int) =~= created);
    }
}

/// A timed request puts its deadline on every assertion that it has created, with the kernel to
/// release it then; an untimed request puts one on none. Each is on, and goes by the request's
/// reason.
pub proof fn law_deadline_is_on_every_assertion(req: RequestView, answers: Seq<(i32, u32)>)
    requires
        acquire_after(req, answers).next() is Create,
    ensures
        ({
            let call = acquire_after(req, answers).next();
            let entries = call->Create_0;
            &&& entries[1] == (KEY_LEVEL, PropertyView::Number(LEVEL_ON))
            &&& entries[2] == (KEY_NAME, PropertyView::Text(assertion_name(req.reason)))
            &&& match req.timeout {
                Some(t) => {
                    &&& entries.len() == 5
                    &&& entries[3] == (KEY_TIMEOUT, PropertyView::Seconds(t))
                    &&& entries[4] == (
                        KEY_TIMEOUT_ACTION,
                        PropertyView::Text(TIMEOUT_ACTION_RELEASE@),
                    )
                },
                None => entries.len() == 3,
            }
        }),
{
    lemma_acquire_course(req, answers);
}

/// The id kept after these declarations of user activity, each answered by a status and an id.
pub open spec fn activity_after(answers: Seq<(i32, u32)>) -> u32
    decreases answers.len(),
{
    if answers.len() == 0 {
        0
    } else {
        activity_answered(
            activity_after(answers.drop_last()),
            answers.last().0,
            answers.last().1,
        )
    }
}

/// Whether declaration `i` was given no id and went well: the kernel has created an assertion.
pub open spec fn activity_creates(answers: Seq<(i32, u32)>, i: int) -> bool {
    &&& 0 <= i < answers.len()
    &&& answers[i].0 == KERN_SUCCESS
    &&& activity_after(answers.take(i)) == 0
}

proof fn lemma_activity_keeps_its_id(answers: Seq<(i32, u32)>, i: int, j: int)
    requires
        0 <= i < j <= answers.len(),
        answers[i].0 == KERN_SUCCESS,
        forall|k: int|
            0 <= k < answers.len() && answers[k].0 == KERN_SUCCESS ==> (#[trigger] answers[k]).1
                != 0,
    ensures
        activity_after(answers.take(j)) != 0,
    decreases j,
{
    let upto = answers.take(j);
    assert(upto.drop_last() =~= answers.take(j - 1));
    assert(upto.last() == answers[j - 1]);
    if i < j - 1 {
        lemma_activity_keeps_its_id(answers, i, j - 1);
    }
}

/// However often user activity is declared, the kernel is made to create one assertion at most,
/// given that it leaves a real id behind: every later declaration re-arms that one.
pub proof fn law_user_activity_is_created_once(answers: Seq<(i32, u32)>, i: int, j: int)
    requires
        forall|k: int|
            0 <= k < answers.len() && answers[k].0 == KERN_SUCCESS ==> (#[trigger] answers[k]).1
                != 0,
        activity_creates(answers, i),
        activity_creates(answers, j),
    ensures
        i == j,
{
    if i < j {
        lemma_activity_keeps_its_id(answers, i, j);
    }
    if j < i {
        lemma_activity_keeps_its_id(answers, j, i);
    }
}

/// A release of `handle` after these statuses.
pub open spec fn release_after(handle: HandleView, statuses: Seq<i32>) -> ReleaseView
    decreases statuses.len(),
{
    if statuses.len() == 0 {
        release_begin(handle)
    } else {
        release_after(handle, statuses.drop_last()).answered(statuses.last())
    }
}

/// The ids that were handed to the kernel on the way, in order.
pub open spec fn tried_ids(handle: HandleView, statuses: Seq<i32>) -> Seq<u32>
    decreases statuses.len(),
{
    if statuses.len() == 0 {
        Seq::empty()
    } else {
        let before = tried_ids(handle, statuses.drop_last());
        match release_after(handle, statuses.drop_last()).next() {
            Some(id) => before.push(id),
            None => before,
        }
    }
}

/// Whether `k` is the first of the statuses that is not tolerated.
pub open spec fn first_fault(statuses: Seq<i32>, timed: bool, k: int) -> bool {
    &&& 0 <= k < statuses.len()
    &&& !tolerated(statuses[k], timed)
    &&& forall|j: int| 0 <= j < k ==> tolerated(#[trigger] statuses[j], timed)
}

pub(crate) proof fn lemma_release_course(handle: HandleView, statuses: Seq<i32>)
    requires
        statuses.len() <= handle.ids.len(),
    ensures
        ({
            let run = release_after(handle, statuses);
            &&& run.handle == handle
            &&& run.tried == statuses.len()
            &&& tried_ids(handle, statuses) =~= Seq::new(
                statuses.len(),
                |i: int| handle.ids[i] as u32,
            )
            &&& run.first_err is None <==> forall|i: int|
                0 <= i < statuses.len() ==> tolerated(#[trigger] statuses[i], handle.timed)
            &&& forall|k: int| #[trigger]
                first_fault(statuses, handle.timed, k) ==> run.first_err == Some(
                    release_error(statuses[k]),
                )
        }),
    decreases statuses.len(),
{
    if statuses.len() > 0 {
        let before = statuses.drop_last();
        lemma_release_course(handle, before);
        assert(forall|i: int| 0 <= i < before.len() ==> before[i] == statuses[i]);
        assert forall|k: int| #[trigger] first_fault(statuses, handle.timed, k) implies
            release_after(handle, statuses).first_err == Some(release_error(statuses[k])) by {
            if k < before.len() {
                assert(first_fault(before, handle.timed, k));
            }
        }
        assert(statuses[statuses.len() - 1] == statuses.last());
    }
}

/// A release tries every id once and in order, whatever the kernel answers on the way. It
/// succeeds exactly if every answer is tolerated, and else reports the first that is not.
pub proof fn law_release_tries_every_id(handle: HandleView, statuses: Seq<i32>)
    requires
        statuses.len() == handle.ids.len(),
    ensures
        release_after(handle, statuses).next() is None,
        tried_ids(handle, statuses) == Seq::new(
            handle.ids.len(),
            |i: int| handle.ids[i] as u32,
        ),
        release_after(handle, statuses).result() is Ok <==> forall|i: int|
            0 <= i < statuses.len() ==> tolerated(#[trigger] statuses[i], handle.timed),
        forall|k: int| #[trigger]
            first_fault(statuses, handle.timed, k) ==> release_after(handle, statuses).result()
                == Err::<(), Error>(release_error(statuses[k])),
{
    lemma_release_course(handle, statuses);
}

/// Releasing a timed handle succeeds although the kernel no longer knows some of its ids, or
/// any: they may have expired, or been released before.
pub proof fn law_timed_release_may_come_late(handle: HandleView, statuses: Seq<i32>)
    requires
        handle.timed,
        statuses.len() == handle.ids.len(),
        forall|i: int|
            0 <= i < statuses.len() ==> (#[trigger] statuses[i] == KERN_SUCCESS || statuses[i]
                == IO_RETURN_BAD_ARGUMENT),
    ensures
        release_after(handle, statuses).result() is Ok,
{
    lemma_release_course(handle, statuses);
}

/// Releasing an untimed handle whose ids the kernel does not know is an error: nobody but us
/// can have released them.
pub proof fn law_untimed_double_release_surfaces(handle: HandleView, statuses: Seq<i32>)
    requires
        !handle.timed,
        handle.ids.len() > 0,
        statuses.len() == handle.ids.len(),
        forall|i: int|
            0 <= i < statuses.len() ==> #[trigger] statuses[i] == IO_RETURN_BAD_ARGUMENT,
    ensures
        release_after(handle, statuses).result() == Err::<(), Error>(
            release_error(IO_RETURN_BAD_ARGUMENT),
        ),
{
    lemma_release_course(handle, statuses);
    assert(statuses[0] == IO_RETURN_BAD_ARGUMENT);
    assert(first_fault(statuses, false, 0));
}

} // verus!
