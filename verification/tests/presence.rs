//! Presence: when a nudge is allowed, and how one goes.

use awake_core::presence::{
    idle, is_trusted, nudge, post_nudge, request_trust, screen_locked, should_nudge, Keeper,
    NudgeCall, DEFAULT_IDLE_THRESHOLD_SECS,
};
use awake_core::time::Duration;
use awake_core::{Error, Platform};

const PLATFORMS: [Platform; 3] = [Platform::MacOs, Platform::Windows, Platform::Unix];

#[test]
fn nudges_only_when_idle_past_the_threshold() {
    let t = Duration::from_secs(120);
    assert!(!should_nudge(true, false, Duration::from_secs(119), t));
    assert!(should_nudge(true, false, Duration::from_secs(120), t));
    assert!(should_nudge(true, false, Duration::from_secs(600), t));
}

/// The point of the threshold: never land a synthetic keystroke in the middle of someone
/// actually typing.
#[test]
fn never_nudges_while_the_machine_is_in_use() {
    let t = Duration::from_secs(120);
    assert!(!should_nudge(true, false, Duration::zero(), t));
    assert!(!should_nudge(true, false, Duration::from_secs(1), t));
}

#[test]
fn never_nudges_while_the_screen_is_locked() {
    let t = Duration::from_secs(120);
    assert!(!should_nudge(true, true, Duration::from_secs(600), t));
}

#[test]
fn never_nudges_without_the_grant() {
    let t = Duration::from_secs(120);
    assert!(!should_nudge(false, false, Duration::from_secs(600), t));
}

/// `nudge` must report the missing grant rather than appear to succeed, because the underlying
/// OS call gives no error of its own when untrusted.
#[test]
fn nudge_agrees_with_the_trust_check() {
    for platform in PLATFORMS {
        for granted in [false, true] {
            let trusted = is_trusted(platform, granted);
            if !trusted {
                assert!(
                    nudge(platform, trusted).is_err(),
                    "must not claim success while untrusted"
                );
            }
        }
    }
}

#[test]
fn idle_is_a_plausible_reading() {
    for platform in PLATFORMS {
        let d = idle(platform, None);
        assert!(
            d < Duration::from_secs(60 * 60 * 24 * 365),
            "implausible: {d:?}"
        );
    }
}

#[test]
fn screen_lock_query_does_not_panic() {
    for platform in PLATFORMS {
        let _ = screen_locked(platform, None);
    }
}

#[test]
fn readings_count_on_macos_only() {
    let reading = Duration::new(3, 500_000_000);
    assert!(is_trusted(Platform::MacOs, true));
    assert!(!is_trusted(Platform::MacOs, false));
    assert_eq!(request_trust(Platform::MacOs), Some("AXTrustedCheckOptionPrompt"));
    assert_eq!(idle(Platform::MacOs, Some(reading)), reading);
    assert_eq!(idle(Platform::MacOs, None), Duration::zero());
    for platform in [Platform::Windows, Platform::Unix] {
        assert!(!is_trusted(platform, true));
        assert_eq!(request_trust(platform), None);
        assert_eq!(idle(platform, Some(reading)), Duration::zero());
        assert!(!screen_locked(platform, Some(Some(true))));
    }
}

#[test]
fn keeper_defaults_to_the_documented_threshold() {
    assert_eq!(
        Keeper::default().threshold,
        Duration::from_secs(DEFAULT_IDLE_THRESHOLD_SECS)
    );
    assert_eq!(Keeper::default().threshold, Duration::from_secs(120));
}

#[test]
fn without_support_a_tick_does_nothing() {
    let platform = Platform::Unix;
    assert_eq!(
        nudge(platform, false),
        Err(Error::Unsupported("presence nudging is macOS-only so far"))
    );
    assert_eq!(post_nudge(Platform::Windows, true), nudge(platform, false));
    let eager = Keeper { threshold: Duration::zero() };
    for keeper in [Keeper::default(), eager] {
        assert_eq!(
            keeper.tick(
                is_trusted(platform, false),
                screen_locked(platform, None),
                idle(platform, None),
                || panic!("there is no key to press"),
            ),
            Ok(false),
            "the grant is missing"
        );
    }
}

#[test]
fn a_tick_nudges_only_when_it_may() {
    let keeper = Keeper::default();
    let long = Duration::from_secs(120);
    let short = Duration::new(119, 999_999_999);
    let mut nudged = 0;

    assert_eq!(keeper.tick(false, false, long, || panic!("no grant")), Ok(false));
    assert_eq!(keeper.tick(true, true, long, || panic!("locked")), Ok(false));
    assert_eq!(keeper.tick(true, false, short, || panic!("in use")), Ok(false));
    assert_eq!(nudged, 0);
    assert_eq!(
        keeper.tick(true, false, long, || {
            nudged += 1;
            Ok(())
        }),
        Ok(true)
    );
    assert_eq!(nudged, 1);
    assert_eq!(
        keeper.tick(true, false, long, || Err(Error::EmptyRequest)),
        Err(Error::EmptyRequest),
        "a nudge that fails is no nudge"
    );
}

#[test]
fn only_a_true_lock_entry_is_a_lock() {
    assert!(!screen_locked(Platform::MacOs, None));
    assert!(!screen_locked(Platform::MacOs, Some(None)));
    assert!(!screen_locked(Platform::MacOs, Some(Some(false))));
    assert!(screen_locked(Platform::MacOs, Some(Some(true))));
}

fn drive(answers: [bool; 6]) -> (Vec<NudgeCall>, Result<(), Error>) {
    let mut run = nudge(Platform::MacOs, true).unwrap();
    let mut calls = Vec::new();
    for answer in answers {
        if run.due != NudgeCall::Nothing {
            calls.push(run.due);
        }
        run.answered(answer);
    }
    assert_eq!(run.due, NudgeCall::Nothing);
    (calls, run.finish())
}

#[test]
fn a_nudge_presses_and_lets_go() {
    let (calls, result) = drive([true; 6]);
    assert_eq!(
        calls,
        vec![
            NudgeCall::CreateSource,
            NudgeCall::CreateKey { down: true },
            NudgeCall::PostKey { down: true },
            NudgeCall::CreateKey { down: false },
            NudgeCall::PostKey { down: false },
            NudgeCall::ReleaseSource,
        ]
    );
    assert_eq!(result, Ok(()));
}

#[test]
fn a_nudge_that_fails_still_releases_its_source() {
    let failure = Err(Error::Os { call: "CGEventCreateKeyboardEvent", code: 0 });

    let (calls, result) = drive([true, false, false, false, false, false]);
    assert_eq!(calls.len(), 3);
    assert_eq!(calls[2], NudgeCall::ReleaseSource);
    assert_eq!(result, failure);

    let (calls, result) = drive([false, true, false, false, true, true]);
    assert_eq!(
        calls,
        vec![
            NudgeCall::CreateSource,
            NudgeCall::CreateKey { down: true },
            NudgeCall::PostKey { down: true },
            NudgeCall::CreateKey { down: false },
        ]
    );
    assert_eq!(result, failure);
}

#[test]
fn a_nudge_needs_the_grant() {
    assert_eq!(
        nudge(Platform::MacOs, false),
        Err(Error::Unsupported("Accessibility permission has not been granted"))
    );
}
