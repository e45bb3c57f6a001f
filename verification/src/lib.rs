//! Keep-awake primitives.
//!
//! Three independent OS subsystems are told apart:
//!
//! - system sleep: [`Flags::system`];
//! - display sleep, screensaver and lock: [`Flags::display`];
//! - user-idle presence, which no power assertion touches: [`presence`].
//!
//! # Leak safety
//!
//! The leak that matters is losing a [`Handle`] while the process still runs. So a [`Guard`]
//! releases what it holds exactly once: when asked to, or else when it is dropped. A failed
//! release on drop is reported and never panics.
//!
//! Prefer [`Request::timeout`] over a timer in the app: the kernel owns that deadline, so it
//! fires even while the process is alive but no longer ticking.

use std::io::Write;

use vstd::prelude::*;
use vstd::string::*;

use crate::linux::DbusBackend;
use crate::macos::IoKitBackend;
use crate::text::{push_decimal, push_signed_decimal};
use crate::time::Duration;
use crate::windows::PowerRequestBackend;

pub mod fake;
pub mod laws;
pub mod leak;
pub mod linux;
pub mod macos;
pub mod presence;
pub mod session;
pub mod settings;
pub mod shell;
pub mod text;
pub mod time;
pub mod windows;

verus! {

// ---------------------------------------------------------------------------
// Errors
// ---------------------------------------------------------------------------

#[derive(Debug, Clone, PartialEq, Eq)]
pub enum Error {
    /// The OS call failed. `code` is the platform-native status.
    Os { call: &'static str, code: i64 },
    /// This platform (or this backend) does not implement the operation.
    Unsupported(&'static str),
    /// A request that asks for nothing. Almost always a caller bug, and silently acquiring
    /// nothing would look like a working keep-awake session.
    EmptyRequest,
}

/// The line of text that describes an error.
pub open spec fn error_text(e: Error) -> Seq<char> {
    match e {
        Error::Os { call, code } => call@ + " failed (code "@ + crate::text::signed_decimal(
            code as int,
        ) + ")"@,
        Error::Unsupported(what) => "unsupported on this platform: "@ + what@,
        Error::EmptyRequest => "request asked for no assertions"@,
    }
}

impl Error {
    /// The error in words.
    pub fn message(&self) -> (text: String)
        ensures
            text@ == error_text(*self),
    {
        match self {
            Error::Os { call, code } => {
                let mut text = (*call).to_owned();
                text.append(" failed (code ");
                push_signed_decimal(&mut text, *code);
                text.append(")");
                text
            },
            Error::Unsupported(what) => {
                let mut text = "unsupported on this platform: ".to_owned();
                text.append(what);
                text
            },
            Error::EmptyRequest => "request asked for no assertions".to_owned(),
        }
    }
}

// ---------------------------------------------------------------------------
// Flags
// ---------------------------------------------------------------------------

/// Which OS idle behaviours to suppress.
#[derive(Debug, Clone, Copy, PartialEq, Eq, Hash, Structural)]
pub struct Flags {
    /// Prevent display sleep. On macOS this also suppresses the screensaver and therefore
    /// the lock screen.
    pub display: bool,
    /// Prevent idle *system* sleep. The display may still sleep.
    pub system: bool,
    /// Keep disks spun up. Rarely wanted on SSD-only hardware.
    pub disk: bool,
}

impl Flags {
    /// Whether nothing is asked for.
    pub open spec fn asks_nothing(self) -> bool {
        !self.display && !self.system && !self.disk
    }

    /// How many behaviours are to be suppressed.
    pub open spec fn count(self) -> nat {
        (if self.display {
            1nat
        } else {
            0nat
        }) + (if self.system {
            1nat
        } else {
            0nat
        }) + (if self.disk {
            1nat
        } else {
            0nat
        })
    }

    /// Screen stays on, machine stays up.
    pub fn display_and_system() -> (flags: Flags)
        ensures
            flags == (Flags { display: true, system: true, disk: false }),
    {
        Flags { display: true, system: true, disk: false }
    }

    /// Stay awake but let the screen go dark: long downloads, builds, renders.
    pub fn system_only() -> (flags: Flags)
        ensures
            flags == (Flags { display: false, system: true, disk: false }),
    {
        Flags { display: false, system: true, disk: false }
    }

    pub fn is_empty(self) -> (empty: bool)
        ensures
            empty == self.asks_nothing(),
    {
        !self.display && !self.system && !self.disk
    }
}

impl Default for Flags {
    fn default() -> (flags: Flags)
        ensures
            flags == (Flags { display: false, system: false, disk: false }),
    {
        Flags { display: false, system: false, disk: false }
    }
}

// ---------------------------------------------------------------------------
// Request
// ---------------------------------------------------------------------------

/// A keep-awake request. Turn one into a live [`Guard`] with [`acquire`].
#[derive(Debug, Clone, PartialEq, Eq)]
pub struct Request {
    pub flags: Flags,
    /// Human-readable why. Surfaced to the user in the OS's own assertion listing, so make it
    /// legible: backends prefix it with `no-afk: `.
    pub reason: String,
    /// OS-enforced auto-release.
    pub timeout: Option<Duration>,
}

/// What a [`Request`] says.
pub struct RequestView {
    pub flags: Flags,
    pub reason: Seq<char>,
    pub timeout: Option<Duration>,
}

impl View for Request {
    type V = RequestView;

    open spec fn view(&self) -> RequestView {
        RequestView { flags: self.flags, reason: self.reason@, timeout: self.timeout }
    }
}

impl Request {
    pub fn new(flags: Flags, reason: &str) -> (req: Request)
        ensures
            req@ == (RequestView { flags, reason: reason@, timeout: None }),
    {
        Request { flags, reason: reason.to_owned(), timeout: None }
    }

    pub fn with_timeout(self, timeout: Duration) -> (req: Request)
        ensures
            req@ == (RequestView { timeout: Some(timeout), ..self@ }),
    {
        let mut req = self;
        req.timeout = Some(timeout);
        req
    }
}

// ---------------------------------------------------------------------------
// Backend
// ---------------------------------------------------------------------------

/// Opaque per-platform assertion handle.
///
/// This is a *list* because macOS allows exactly one type per assertion, so display and
/// system together are two live assertions, not one.
#[derive(Debug, PartialEq, Eq)]
pub struct Handle {
    pub ids: Vec<u64>,
    /// These assertions carry an OS-enforced timeout, so the kernel may already have released
    /// them behind our back.
    ///
    /// A backend may not be able to tell an assertion that expired from an id that never was.
    /// It tolerates an unknown id only when this flag says that an expiry was possible.
    pub timed: bool,
}

/// What a [`Handle`] says.
pub struct HandleView {
    pub ids: Seq<u64>,
    pub timed: bool,
}

impl View for Handle {
    type V = HandleView;

    open spec fn view(&self) -> HandleView {
        HandleView { ids: self.ids@, timed: self.timed }
    }
}

/// The handle that stands for nothing.
pub open spec fn no_handle() -> HandleView {
    HandleView { ids: Seq::empty(), timed: false }
}

impl Default for Handle {
    fn default() -> (handle: Handle)
        ensures
            handle@ == no_handle(),
    {
        Handle { ids: Vec::new(), timed: false }
    }
}

impl Clone for Handle {
    fn clone(&self) -> (handle: Handle)
        ensures
            handle@ == self@,
    {
        Handle { ids: self.ids.clone(), timed: self.timed }
    }
}

/// The ids one after the other, with a comma and a space between them.
pub open spec fn id_list(ids: Seq<u64>) -> Seq<char>
    decreases ids.len(),
{
    if ids.len() == 0 {
        Seq::empty()
    } else if ids.len() == 1 {
        crate::text::decimal(ids[0] as nat)
    } else {
        id_list(ids.drop_last()) + ", "@ + crate::text::decimal(ids.last() as nat)
    }
}

/// The handle as it is shown in a report.
pub open spec fn handle_text(handle: HandleView) -> Seq<char> {
    "Handle { ids: ["@ + id_list(handle.ids) + "], timed: "@ + (if handle.timed {
        "true"@
    } else {
        "false"@
    }) + " }"@
}

impl Handle {
    /// The handle in words.
    pub fn describe(&self) -> (text: String)
        ensures
            text@ == handle_text(self@),
    {
        let mut text = "Handle { ids: [".to_owned();
        let mut i: usize = 0;
        assert(self.ids@.take(0) =~= Seq::<u64>::empty());
        while i < self.ids.len()
            invariant
                i <= self.ids@.len(),
                text@ =~= "Handle { ids: ["@ + id_list(self.ids@.take(i as int)),
            decreases self.ids@.len() - i,
        {
            if i > 0 {
                text.append(", ");
            }
            push_decimal(&mut text, self.ids[i]);
            proof {
                let upto = self.ids@.take(i + 1);
                assert(upto.drop_last() =~= self.ids@.take(i as int));
                assert(upto.last() == self.ids@[i as int]);
            }
            i = i + 1;
        }
        assert(self.ids@.take(i as int) =~= self.ids@);
        text.append("], timed: ");
        text.append(if self.timed {
            "true"
        } else {
            "false"
        });
        text.append(" }");
        text
    }
}

/// `result` with the handle taken by what it says.
pub open spec fn acquired_view(result: Result<Handle, Error>) -> Result<HandleView, Error> {
    match result {
        Ok(handle) => Ok(handle@),
        Err(e) => Err(e),
    }
}

/// One entry from the OS-wide assertion list: the data behind a "why is my Mac awake?" panel.
#[derive(Debug, Clone, PartialEq, Eq)]
pub struct SystemAssertion {
    pub pid: i32,
    pub process: String,
    pub kind: String,
    pub name: String,
}

/// A platform implementation. Swap in [`fake::FakeBackend`] to test session logic without
/// touching real OS power state.
///
/// What a call may do is up to the platform. Each implementation says it in relations between
/// the backend before the call, the backend after it, and the result. An implementation that
/// leaves one out promises nothing there.
pub trait Backend: Send + Sync + Sized + std::fmt::Debug {
    /// Whether [`Backend::name`] may give `name`.
    open spec fn goes_by(&self, name: Seq<char>) -> bool {
        true
    }

    /// Whether acquiring `req` may turn `pre` into `post` with this result.
    open spec fn acquires(
        pre: Self,
        req: RequestView,
        post: Self,
        result: Result<HandleView, Error>,
    ) -> bool {
        true
    }

    /// Whether releasing `handle` may turn `pre` into `post` with this result.
    open spec fn releases(
        pre: Self,
        handle: HandleView,
        post: Self,
        result: Result<(), Error>,
    ) -> bool {
        true
    }

    fn name(&self) -> (name: &'static str)
        ensures
            self.goes_by(name@),
    ;

    fn acquire(&mut self, req: &Request) -> (result: Result<Handle, Error>)
        ensures
            Self::acquires(*old(self), req@, *final(self), acquired_view(result)),
    ;

    /// Release everything in `handle`. Must be idempotent-tolerant and must attempt *every* id
    /// even if an earlier one fails: a partial release is a leak.
    fn release(&mut self, handle: &Handle) -> (result: Result<(), Error>)
        ensures
            Self::releases(*old(self), handle@, *final(self), result),
    ;

    /// Reset the OS display-idle timer once, waking the display if it is asleep.
    ///
    /// This does **not** reset the idle counter that presence detectors read.
    fn declare_user_activity(&mut self, _reason: &str) -> (result: Result<(), Error>)
        default_ensures
            *final(self) == *old(self),
            result == Err::<(), Error>(Error::Unsupported("declare_user_activity")),
    {
        Err(Error::Unsupported("declare_user_activity"))
    }

    /// Every assertion currently held on the system, by any process.
    fn system_assertions(&self) -> (result: Result<Vec<SystemAssertion>, Error>)
        default_ensures
            result == Err::<Vec<SystemAssertion>, Error>(Error::Unsupported("system_assertions")),
    {
        Err(Error::Unsupported("system_assertions"))
    }
}

/// The families of operating systems that are told apart.
#[derive(Debug, Clone, Copy, PartialEq, Eq, Structural)]
pub enum Platform {
    MacOs,
    Windows,
    /// Any other Unix.
    Unix,
}

/// A platform's own backend.
#[derive(Debug)]
pub enum NativeBackend {
    IoKit(IoKitBackend),
    PowerRequest(PowerRequestBackend),
    Dbus(DbusBackend),
}

/// The backend for a platform, as it is before its first use.
pub fn default_backend(platform: Platform) -> (backend: NativeBackend)
    ensures
        match platform {
            Platform::MacOs => backend is IoKit && backend->IoKit_0.user_activity_id == 0,
            Platform::Windows => backend == NativeBackend::PowerRequest(PowerRequestBackend),
            Platform::Unix => backend == NativeBackend::Dbus(DbusBackend),
        },
{
    match platform {
        Platform::MacOs => NativeBackend::IoKit(IoKitBackend::default()),
        Platform::Windows => NativeBackend::PowerRequest(PowerRequestBackend),
        Platform::Unix => NativeBackend::Dbus(DbusBackend),
    }
}

// ---------------------------------------------------------------------------
// Guard
// ---------------------------------------------------------------------------

/// A live keep-awake session. Releases on drop.
#[derive(Debug)]
pub struct Guard<B: Backend> {
    /// The backend, until it is handed back.
    backend: Option<B>,
    handle: Handle,
    flags: Flags,
    released: bool,
}

/// What a [`Guard`] stands for: the backend as it is now, unless it has been handed back, what
/// is held through it, and whether that has been given back.
pub struct GuardView<B> {
    pub backend: Option<B>,
    pub handle: HandleView,
    pub flags: Flags,
    pub released: bool,
}

impl<B: Backend> View for Guard<B> {
    type V = GuardView<B>;

    closed spec fn view(&self) -> GuardView<B> {
        GuardView {
            backend: self.backend,
            handle: self.handle@,
            flags: self.flags,
            released: self.released,
        }
    }
}

impl<B> GuardView<B> {
    /// Whether there is something left to give back.
    pub open spec fn owes(self) -> bool {
        self.backend is Some && !self.released
    }
}

/// What giving back what a guard holds does: one release of the whole handle, unless it has
/// been given back before.
pub open spec fn guard_settles<B: Backend>(
    pre: GuardView<B>,
    post: GuardView<B>,
    result: Result<(), Error>,
) -> bool {
    if pre.owes() {
        &&& post.backend is Some
        &&& B::releases(pre.backend->Some_0, pre.handle, post.backend->Some_0, result)
        &&& post == (GuardView { backend: post.backend, released: true, ..pre })
    } else {
        post == pre && result is Ok
    }
}

/// What handing the backend back does: what is held is given back first, and the guard is left
/// without a backend.
pub open spec fn guard_hands_back<B: Backend>(
    pre: GuardView<B>,
    post: GuardView<B>,
    back: (B, Result<(), Error>),
) -> bool {
    &&& guard_settles(pre, GuardView { backend: Some(back.0), released: true, ..pre }, back.1)
    &&& post == (GuardView { backend: None, released: true, ..pre })
}

/// What a guard holds is given back once: settling it a second time reaches no backend and
/// reports no error, whatever came of the first time.
pub proof fn law_guard_settles_once<B: Backend>(
    pre: GuardView<B>,
    mid: GuardView<B>,
    first: Result<(), Error>,
    post: GuardView<B>,
    second: Result<(), Error>,
)
    requires
        guard_settles(pre, mid, first),
        guard_settles(mid, post, second),
    ensures
        post == mid,
        second is Ok,
{
}

/// After an explicit release, whatever came of it, there is nothing left for the drop to do: it
/// reaches no backend and has nothing to report.
pub proof fn law_drop_after_release_does_nothing<B: Backend>(
    pre: GuardView<B>,
    mid: GuardView<B>,
    back: (B, Result<(), Error>),
    post: GuardView<B>,
    dropped: Result<(), Error>,
)
    requires
        guard_hands_back(pre, mid, back),
        guard_settles(mid, post, dropped),
    ensures
        post == mid,
        dropped is Ok,
{
}

/// What is reported when a release fails and nobody is there to be told.
pub open spec fn release_failure(handle: HandleView, name: Seq<char>, e: Error) -> Seq<char> {
    "no-afk: FAILED to release power assertion "@ + handle_text(handle) + " via "@ + name + ": "@
        + error_text(e) + ". The system may not sleep until this process exits."@
}

impl<B: Backend> Guard<B> {
    /// Give back what is held, if anything still is.
    fn settle(&mut self) -> (result: Result<(), Error>)
        ensures
            guard_settles(old(self)@, final(self)@, result),
    {
        if self.released {
            return Ok(());
        }
        match &mut self.backend {
            Some(backend) => {
                self.released = true;
                backend.release(&self.handle)
            },
            None => Ok(()),
        }
    }

    /// Give back what is held, if anything still is, and hand the backend back.
    fn hand_back(&mut self) -> (back: (B, Result<(), Error>))
        requires
            old(self)@.backend is Some,
        ensures
            guard_hands_back(old(self)@, final(self)@, back),
    {
        let result = self.settle();
        self.released = true;
        let backend = self.backend.take().unwrap();
        (backend, result)
    }

    /// Give back what is held, if anything still is, for a caller who cannot pass an error on:
    /// a failure comes back as the line to report.
    pub fn release_or_report(&mut self) -> (report: Option<String>)
        ensures
            exists|result: Result<(), Error>|
                {
                    &&& #[trigger] guard_settles(old(self)@, final(self)@, result)
                    &&& match result {
                        Ok(_) => report is None,
                        Err(e) => exists|name: Seq<char>|
                            {
                                &&& final(self)@.backend is Some
                                &&& #[trigger] final(self)@.backend->Some_0.goes_by(name)
                                &&& report is Some
                                &&& report->Some_0@ == release_failure(old(self)@.handle, name, e)
                            },
                    }
                },
    {
        match self.settle() {
            Ok(_) => None,
            Err(e) => match &self.backend {
                Some(backend) => {
                    let name = backend.name();
                    assert(self@.backend->Some_0.goes_by(name@));
                    let mut line = "no-afk: FAILED to release power assertion ".to_owned();
                    line.append(self.handle.describe().as_str());
                    line.append(" via ");
                    line.append(name);
                    line.append(": ");
                    line.append(e.message().as_str());
                    line.append(". The system may not sleep until this process exits.");
                    Some(line)
                },
                None => None,
            },
        }
    }

    /// The backend, which is there until it is handed back.
    pub(crate) fn backend(&mut self) -> (backend: &mut B)
        requires
            old(self)@.backend is Some,
        ensures
            Some(*backend) == old(self)@.backend,
            final(self)@ == (GuardView { backend: Some(*final(backend)), ..old(self)@ }),
    {
        self.backend.as_mut().unwrap()
    }

    pub fn flags(&self) -> (flags: Flags)
        ensures
            flags == self@.flags,
    {
        self.flags
    }

    pub fn handle(&self) -> (handle: &Handle)
        ensures
            handle@ == self@.handle,
    {
        &self.handle
    }

    /// Release explicitly, surfacing any error, and hand the backend back. Dropping the guard
    /// releases too, but swallows failures: use this when the caller can actually report a
    /// problem.
    ///
    /// The backend comes back as one release has left it: the drop of the spent guard does not
    /// reach it.
    pub fn release(self) -> (back: (B, Result<(), Error>))
        requires
            self@.backend is Some,
        ensures
            !self@.released ==> B::releases(
                self@.backend->Some_0,
                self@.handle,
                back.0,
                back.1,
            ),
            self@.released ==> Some(back.0) == self@.backend && back.1 is Ok,
    {
        let mut guard = self;
        guard.hand_back()
    }
}

impl<B: Backend> Drop for Guard<B> {
    /// Hands the report of [`Guard::release_or_report`] to `std::io::stderr`. Nothing is
    /// claimed here: that the backend's release does not unwind, which a destructor must not
    /// do, is up to the backend, and a line that cannot be written is lost.
    #[verifier::external_body]
    fn drop(&mut self)
        opens_invariants none
        no_unwind
    {
        if let Some(line) = self.release_or_report() {
            let _ = writeln!(std::io::stderr(), "{line}");
        }
    }
}

/// Acquire a keep-awake session. A refusal hands the backend back with the error: untouched if
/// nothing was asked for, else as the one call of [`Backend::acquire`] has left it.
pub fn acquire<B: Backend>(backend: B, req: Request) -> (result: Result<Guard<B>, (Error, B)>)
    ensures
        req@.flags.asks_nothing() ==> result == Err::<Guard<B>, (Error, B)>(
            (Error::EmptyRequest, backend),
        ),
        !req@.flags.asks_nothing() ==> exists|post: B, got: Result<HandleView, Error>|
            {
                &&& #[trigger] B::acquires(backend, req@, post, got)
                &&& match got {
                    Ok(handle) => result is Ok && result->Ok_0@ == (GuardView {
                        backend: Some(post),
                        handle,
                        flags: req.flags,
                        released: false,
                    }),
                    Err(e) => result == Err::<Guard<B>, (Error, B)>((e, post)),
                }
            },
{
    let mut backend = backend;
    let ghost pre = backend;
    if req.flags.is_empty() {
        return Err((Error::EmptyRequest, backend));
    }
    let got = backend.acquire(&req);
    assert(B::acquires(pre, req@, backend, acquired_view(got)));
    match got {
        Ok(handle) => Ok(
            Guard { backend: Some(backend), handle, flags: req.flags, released: false },
        ),
        Err(e) => Err((e, backend)),
    }
}

} // verus!
