//! Keeping presence detectors (Slack, Teams) from marking you away.
//!
//! This is a different mechanism from the rest of the crate and carries a different cost. Power
//! assertions are free and permission-less; this needs an **Accessibility grant** and only
//! works by posting synthetic input, because detectors read the HID idle counter and nothing
//! short of an input event resets it.
//!
//! # Guard rails
//!
//! Synthetic input is intrusive, so [`should_nudge`] keeps it rare and invisible:
//!
//! - never unless the machine has *already* been idle past a threshold, so it cannot land in
//!   the middle of real typing or a drag;
//! - never while the screen is locked, where it would misreport a genuinely absent user;
//! - never without the grant, because the OS discards an ungranted event without an error.
//!
//! Only macOS has the system calls for this. The functions here take the platform and what its
//! calls returned, and say what that amounts to; elsewhere there is nothing to read and no key to
//! press. [`NudgeRun`] says which calls a nudge is made of.

use vstd::prelude::*;

use crate::time::{Duration, NANOS_PER_SEC};
use crate::{Error, Platform};

verus! {

/// How many seconds the machine must have been idle before a nudge is allowed.
///
/// Slack marks you away after about 10 minutes and Teams after about 5, so two minutes leaves
/// generous margin while keeping injections infrequent.
pub const DEFAULT_IDLE_THRESHOLD_SECS: u64 = 120;

/// Whether a nudge is in order.
pub open spec fn nudge_in_order(
    trusted: bool,
    screen_locked: bool,
    idle: nat,
    threshold: nat,
) -> bool {
    trusted && !screen_locked && idle >= threshold
}

/// The whole decision, as a pure function.
pub fn should_nudge(
    trusted: bool,
    screen_locked: bool,
    idle: Duration,
    threshold: Duration,
) -> (nudge: bool)
    ensures
        nudge == nudge_in_order(trusted, screen_locked, idle@, threshold@),
{
    trusted && !screen_locked && idle.at_least(threshold)
}

/// Without the grant, behind a locked screen, or while the machine is in use, no nudge is in
/// order, whatever the rest of the readings say.
pub proof fn law_guard_rails(trusted: bool, screen_locked: bool, idle: nat, threshold: nat)
    ensures
        !trusted ==> !nudge_in_order(trusted, screen_locked, idle, threshold),
        screen_locked ==> !nudge_in_order(trusted, screen_locked, idle, threshold),
        idle < threshold ==> !nudge_in_order(trusted, screen_locked, idle, threshold),
        trusted && !screen_locked && idle >= threshold ==> nudge_in_order(
            trusted,
            screen_locked,
            idle,
            threshold,
        ),
{
}

// ---------------------------------------------------------------------------
// Readings
// ---------------------------------------------------------------------------

/// Whether this process may post synthetic input, by what `AXIsProcessTrusted` returned.
pub fn is_trusted(platform: Platform, granted: bool) -> (trusted: bool)
    ensures
        trusted == (platform is MacOs && granted),
{
    platform == Platform::MacOs && granted
}

/// The option to set for `AXIsProcessTrustedWithOptions`, so that it shows the OS prompt for the
/// grant. Elsewhere than on macOS there is no prompt to show. The answer appears in a later
/// [`is_trusted`] call.
pub fn request_trust(platform: Platform) -> (option: Option<&'static str>)
    ensures
        option == (if platform is MacOs {
            Some("AXTrustedCheckOptionPrompt")
        } else {
            None
        }),
{
    if platform == Platform::MacOs {
        Some("AXTrustedCheckOptionPrompt")
    } else {
        None
    }
}

/// Idle time as presence detectors measure it, by the HID idle counter. A reading that is no
/// span of time counts as none.
pub fn idle(platform: Platform, reading: Option<Duration>) -> (idle: Duration)
    ensures
        idle@ == (if platform is MacOs && reading is Some {
            reading->Some_0@
        } else {
            0
        }),
{
    match reading {
        Some(reading) => if platform == Platform::MacOs {
            reading
        } else {
            Duration::zero()
        },
        None => Duration::zero(),
    }
}

/// Whether the screen is locked, by the window server's session: there is none when headless,
/// and its lock entry is absent, or not a boolean, or says so.
pub fn screen_locked(platform: Platform, session: Option<Option<bool>>) -> (locked: bool)
    ensures
        locked == (platform is MacOs && session == Some(Some(true))),
{
    match session {
        Some(Some(locked)) => platform == Platform::MacOs && locked,
        Some(None) => false,
        None => false,
    }
}

// ---------------------------------------------------------------------------
// Keeper
// ---------------------------------------------------------------------------

/// Applies the guard rails around a nudge.
#[derive(Debug, Clone)]
pub struct Keeper {
    pub threshold: Duration,
}

impl Default for Keeper {
    fn default() -> (keeper: Keeper)
        ensures
            keeper.threshold@ == DEFAULT_IDLE_THRESHOLD_SECS * NANOS_PER_SEC,
    {
        Keeper { threshold: Duration::from_secs(DEFAULT_IDLE_THRESHOLD_SECS) }
    }
}

/// What a tick came to, by what the nudge came to, if there was one.
pub open spec fn tick_outcome(nudged: Option<Result<(), Error>>) -> Result<bool, Error> {
    match nudged {
        None => Ok(false),
        Some(Ok(_)) => Ok(true),
        Some(Err(e)) => Err(e),
    }
}

impl Keeper {
    /// Nudge if and only if it is appropriate by these readings, by calling `nudge` once.
    ///
    /// `Ok(true)` means a keystroke was posted, `Ok(false)` that conditions were not met, the
    /// ordinary case while the machine is in use. In that case `nudge` need not be fit to be
    /// called: it is not.
    pub fn tick<F: FnOnce() -> Result<(), Error>>(
        &self,
        trusted: bool,
        screen_locked: bool,
        idle: Duration,
        nudge: F,
    ) -> (result: Result<bool, Error>)
        requires
            nudge_in_order(trusted, screen_locked, idle@, self.threshold@) ==> call_requires(
                nudge,
                (),
            ),
        ensures
            if nudge_in_order(trusted, screen_locked, idle@, self.threshold@) {
                exists|nudged: Result<(), Error>| #[trigger]
                    call_ensures(nudge, (), nudged) && result == tick_outcome(Some(nudged))
            } else {
                result == tick_outcome(None)
            },
    {
        if !should_nudge(trusted, screen_locked, idle, self.threshold) {
            return Ok(false);
        }
        match nudge() {
            Ok(_) => Ok(true),
            Err(e) => Err(e),
        }
    }
}

// ---------------------------------------------------------------------------
// Nudge
// ---------------------------------------------------------------------------

/// F15. Essentially nothing binds it, so the keystroke has no visible effect.
pub const VK_F15: u16 = 0x71;

/// What a nudge wants done next.
#[derive(Debug, Clone, Copy, PartialEq, Eq, Structural)]
pub enum NudgeCall {
    /// `CGEventSourceCreate`.
    CreateSource,
    /// `CGEventCreateKeyboardEvent` for [`VK_F15`].
    CreateKey { down: bool },
    /// `CGEventPost` of the event just created, and its release.
    PostKey { down: bool },
    /// The release of the source.
    ReleaseSource,
    /// Nothing more: the result stands.
    Nothing,
}

/// A nudge under way: the key goes down and up again.
#[derive(Debug, PartialEq, Eq)]
pub struct NudgeRun {
    /// The call that is due.
    pub due: NudgeCall,
    /// Whether there is a source to release.
    pub source: bool,
    /// Whether an event could not be created.
    pub failed: bool,
}

/// What is due once no more keys are.
pub open spec fn nudge_end(source: bool) -> NudgeCall {
    if source {
        NudgeCall::ReleaseSource
    } else {
        NudgeCall::Nothing
    }
}

/// The nudge in which the call that was due has come back, with something or with nothing.
pub open spec fn nudge_answered(run: NudgeRun, something: bool) -> NudgeRun {
    match run.due {
        NudgeCall::CreateSource => NudgeRun {
            due: NudgeCall::CreateKey { down: true },
            source: something,
            ..run
        },
        NudgeCall::CreateKey { down } => if something {
            NudgeRun { due: NudgeCall::PostKey { down }, ..run }
        } else {
            NudgeRun { due: nudge_end(run.source), failed: true, ..run }
        },
        NudgeCall::PostKey { down } => NudgeRun {
            due: if down {
                NudgeCall::CreateKey { down: false }
            } else {
                nudge_end(run.source)
            },
            ..run
        },
        NudgeCall::ReleaseSource => NudgeRun { due: NudgeCall::Nothing, ..run },
        NudgeCall::Nothing => run,
    }
}

/// The nudge that begins.
pub open spec fn nudge_begun() -> NudgeRun {
    NudgeRun { due: NudgeCall::CreateSource, source: false, failed: false }
}

/// What a nudge comes to.
pub open spec fn nudge_result(run: NudgeRun) -> Result<(), Error> {
    if run.failed {
        Err(Error::Os { call: "CGEventCreateKeyboardEvent", code: 0 })
    } else {
        Ok(())
    }
}

/// The nudge to be carried out, or why there can be none: on macOS the grant is missing, and
/// elsewhere there is no such thing.
pub open spec fn nudge_attempt(platform: Platform, trusted: bool) -> Result<NudgeRun, Error> {
    match platform {
        Platform::MacOs => if trusted {
            Ok(nudge_begun())
        } else {
            Err(Error::Unsupported("Accessibility permission has not been granted"))
        },
        _ => Err(Error::Unsupported("presence nudging is macOS-only so far")),
    }
}

/// Begin to post one harmless keystroke, if the grant is there. It is checked rather than
/// assumed: an ungranted event is silently dropped by the OS, and success could not be told from
/// a no-op.
pub fn post_nudge(platform: Platform, trusted: bool) -> (run: Result<NudgeRun, Error>)
    ensures
        run == nudge_attempt(platform, trusted),
{
    match platform {
        Platform::MacOs => {
            if !trusted {
                return Err(Error::Unsupported("Accessibility permission has not been granted"));
            }
            Ok(NudgeRun { due: NudgeCall::CreateSource, source: false, failed: false })
        },
        _ => Err(Error::Unsupported("presence nudging is macOS-only so far")),
    }
}

/// Begin to post one harmless keystroke, resetting the idle counter.
///
/// Prefer [`Keeper::tick`], which applies the guard rails.
pub fn nudge(platform: Platform, trusted: bool) -> (run: Result<NudgeRun, Error>)
    ensures
        run == nudge_attempt(platform, trusted),
{
    post_nudge(platform, trusted)
}

impl NudgeRun {
    /// Take in whether the call that was due came back with something. A missing source is
    /// valid; a missing event is not.
    pub fn answered(&mut self, something: bool)
        ensures
            *final(self) == nudge_answered(*old(self), something),
    {
        let end = if self.source {
            NudgeCall::ReleaseSource
        } else {
            NudgeCall::Nothing
        };
        match self.due {
            NudgeCall::CreateSource => {
                self.source = something;
                self.due = NudgeCall::CreateKey { down: true };
            },
            NudgeCall::CreateKey { down } => {
                if something {
                    self.due = NudgeCall::PostKey { down };
                } else {
                    self.failed = true;
                    self.due = end;
                }
            },
            NudgeCall::PostKey { down } => {
                if down {
                    self.due = NudgeCall::CreateKey { down: false };
                } else {
                    self.due = end;
                }
            },
            NudgeCall::ReleaseSource => {
                self.due = NudgeCall::Nothing;
            },
            NudgeCall::Nothing => {},
        }
    }

    /// What the nudge came to, once no call is due.
    pub fn finish(&self) -> (result: Result<(), Error>)
        ensures
            result == nudge_result(*self),
    {
        if self.failed {
            return Err(Error::Os { call: "CGEventCreateKeyboardEvent", code: 0 });
        }
        Ok(())
    }
}

/// A nudge after these answers.
pub open spec fn nudge_after(answers: Seq<bool>) -> NudgeRun
    decreases answers.len(),
{
    if answers.len() == 0 {
        nudge_begun()
    } else {
        nudge_answered(nudge_after(answers.drop_last()), answers.last())
    }
}

/// The calls made on the way, in order.
pub open spec fn nudge_calls(answers: Seq<bool>) -> Seq<NudgeCall>
    decreases answers.len(),
{
    if answers.len() == 0 {
        Seq::empty()
    } else {
        let before = nudge_calls(answers.drop_last());
        match nudge_after(answers.drop_last()).due {
            NudgeCall::Nothing => before,
            call => before.push(call),
        }
    }
}

/// A nudge posts the key down and then up, each event as soon as it is created. It stops at the
/// first event that cannot be created, which is its error; and a source that was created is
/// released at the end, whichever way it went.
pub proof fn law_nudge_cleans_up(answers: Seq<bool>)
    requires
        answers.len() == 6,
    ensures
        ({
            let source = answers[0];
            let down = answers[1];
            let up = answers[3];
            let end: Seq<NudgeCall> = if source {
                seq![NudgeCall::ReleaseSource]
            } else {
                seq![]
            };
            let second: Seq<NudgeCall> = seq![NudgeCall::CreateKey { down: false }] + (if up {
                seq![NudgeCall::PostKey { down: false }]
            } else {
                seq![]
            });
            let first: Seq<NudgeCall> = if down {
                seq![NudgeCall::PostKey { down: true }] + second
            } else {
                seq![]
            };
            &&& nudge_after(answers).due is Nothing
            &&& nudge_calls(answers) == seq![
                NudgeCall::CreateSource,
                NudgeCall::CreateKey { down: true },
            ] + first + end
            &&& nudge_result(nudge_after(answers)) is Ok <==> down && up
            &&& nudge_result(nudge_after(answers)) is Err ==> nudge_result(nudge_after(answers))
                == Err::<(), Error>(Error::Os { call: "CGEventCreateKeyboardEvent", code: 0 })
        }),
{
    reveal_with_fuel(nudge_after, 7);
    reveal_with_fuel(nudge_calls, 7);
    let a = answers;
    assert(a.drop_last().drop_last().drop_last().drop_last().drop_last().drop_last().len() == 0);
    assert(a.drop_last().drop_last().drop_last().drop_last().drop_last().last() == a[0]);
    assert(a.drop_last().drop_last().drop_last().drop_last().last() == a[1]);
    assert(a.drop_last().drop_last().drop_last().last() == a[2]);
    assert(a.drop_last().drop_last().last() == a[3]);
    assert(a.drop_last().last() == a[4]);
}

/// A nudge fails without the grant and succeeds in beginning with it, as the trust check says:
/// whoever is not trusted is never told that a key was pressed.
pub proof fn law_nudge_agrees_with_the_trust_check(platform: Platform, granted: bool)
    ensures
        nudge_attempt(platform, platform is MacOs && granted) is Ok <==> platform is MacOs
            && granted,
{
}

} // verus!
