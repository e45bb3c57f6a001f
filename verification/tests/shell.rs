//! The menu bar shell.

use awake_core::fake::FakeBackend;
use awake_core::linux::DbusBackend;
use awake_core::session::{Kind, Manager, TestClock};
use awake_core::settings::Settings;
use awake_core::shell::{
    autostart_target, format_remaining, kind_for, parse_command, preset_id, presets, AppState,
    Command, Reaction,
};
use awake_core::text::parse_u64;
use awake_core::time::Duration;
use awake_core::windows::PowerRequestBackend;
use awake_core::{default_backend, Backend, Error, Flags, NativeBackend, Platform};

fn shell() -> AppState<FakeBackend, TestClock> {
    shell_with(Settings::default())
}

fn shell_with(settings: Settings) -> AppState<FakeBackend, TestClock> {
    AppState::new(Manager::new(FakeBackend::new(), TestClock::default()), settings)
}

fn quiet_refresh() -> Reaction {
    Reaction::Refresh { checked: None, log: None }
}

#[test]
fn remaining_time_is_shown_as_a_countdown() {
    assert_eq!(format_remaining(Duration::from_secs(8 * 3600 + 4 * 60 + 11)), "8:04:11");
    assert_eq!(format_remaining(Duration::from_secs(43 * 60 + 9)), "43:09");
    assert_eq!(format_remaining(Duration::from_secs(7)), "0:07");
    assert_eq!(format_remaining(Duration::zero()), "0:00");
    assert_eq!(format_remaining(Duration::new(59, 999_999_999)), "0:59");
    assert_eq!(format_remaining(Duration::from_secs(3600)), "1:00:00");
    assert_eq!(format_remaining(Duration::from_secs(u64::MAX)), "5124095576030431:00:15");
}

#[test]
fn presets_start_what_they_say() {
    let list = presets();
    assert_eq!(list.len(), 7);
    assert_eq!(list[0], ("Indefinitely", None));
    assert_eq!(list[1], ("For 15 minutes", Some(900)));
    assert_eq!(list[6], ("For 8 hours", Some(28800)));
    assert_eq!(preset_id(None), "start:inf");
    assert_eq!(preset_id(Some(900)), "start:900");
    for (_, secs) in list {
        assert_eq!(parse_command(&preset_id(secs)), Command::Start(secs));
    }
    assert_eq!(
        parse_command(&preset_id(Some(u64::MAX))),
        Command::Start(Some(u64::MAX))
    );
}

#[test]
fn menu_ids_are_told_apart() {
    assert_eq!(parse_command("quit"), Command::Quit);
    assert_eq!(parse_command("toggle"), Command::Toggle);
    assert_eq!(parse_command("keep_display"), Command::KeepDisplay);
    assert_eq!(parse_command("donate"), Command::Donate);
    assert_eq!(parse_command("autostart"), Command::Autostart);
    assert_eq!(parse_command("start:+15"), Command::Start(Some(15)));
    assert_eq!(parse_command("start:007"), Command::Start(Some(7)));
    for odd in [
        "", "status", "Quit", "start", "start:", "start:+", "start:-1", "start:1.5", "start: 5",
        "start:Inf", "start:18446744073709551616", "start:٣",
    ] {
        assert_eq!(parse_command(odd), Command::Ignored, "{odd:?}");
    }
}

#[test]
fn numbers_are_read_as_far_as_they_fit() {
    assert_eq!(parse_u64("0"), Some(0));
    assert_eq!(parse_u64("18446744073709551615"), Some(u64::MAX));
    assert_eq!(parse_u64("18446744073709551616"), None);
    assert_eq!(parse_u64("99999999999999999999999"), None);
    assert_eq!(parse_u64(""), None);
    assert_eq!(parse_u64("++1"), None);
}

#[test]
fn a_number_of_seconds_is_a_kind_of_session() {
    assert_eq!(kind_for(None), Kind::Indefinite);
    assert_eq!(kind_for(Some(900)), Kind::For(Duration::from_secs(900)));
}

#[test]
fn the_toggle_switches_on_and_off() {
    let mut shell = shell();
    let labels = shell.refresh();
    assert_eq!(labels.status, "Asleep as usual");
    assert_eq!(labels.toggle, "Turn On");
    assert_eq!(labels.icon, Some(false), "the first refresh pushes an icon");

    assert_eq!(shell.handle_menu_event("toggle"), quiet_refresh());
    let labels = shell.refresh();
    assert_eq!(labels.status, "Awake — indefinitely");
    assert_eq!(labels.toggle, "Turn Off");
    assert_eq!(labels.icon, Some(true));
    assert_eq!(shell.refresh().icon, None, "only a change is pushed");

    assert_eq!(shell.handle_menu_event("toggle"), quiet_refresh());
    assert_eq!(shell.refresh().icon, Some(false));
}

#[test]
fn turn_on_starts_what_the_settings_say() {
    let mut shell = shell_with(Settings {
        keep_display: false,
        default_duration_secs: Some(1800),
    });
    assert_eq!(shell.flags(), Flags::system_only());
    assert_eq!(shell.handle_menu_event("toggle"), quiet_refresh());
    assert_eq!(shell.refresh().status, "Awake — 30:00 left");

    assert_eq!(shell.handle_menu_event("toggle"), quiet_refresh());
    assert_eq!(shell.refresh().status, "Asleep as usual");
    assert_eq!(shell.handle_menu_event("start:inf"), quiet_refresh());
    assert_eq!(shell.refresh().status, "Awake — indefinitely", "a preset says its own length");
}

#[test]
fn changed_settings_are_gone_by_at_once() {
    let mut shell = shell();
    assert_eq!(shell.settings(), Settings::default());
    shell.handle_menu_event("start:60");

    let settings = Settings { keep_display: false, default_duration_secs: Some(900) };
    assert_eq!(shell.apply_settings(settings), Ok(()));
    assert_eq!(shell.settings(), settings);
    assert_eq!(shell.flags(), Flags::system_only());
    assert_eq!(shell.refresh().status, "Awake — 1:00 left", "the session goes on");

    shell.handle_menu_event("toggle");
    shell.handle_menu_event("toggle");
    assert_eq!(shell.refresh().status, "Awake — 15:00 left");

    shell.handle_menu_event("keep_display");
    assert_eq!(
        shell.settings(),
        Settings { keep_display: true, default_duration_secs: Some(900) }
    );
}

#[test]
fn a_preset_shows_its_countdown() {
    let mut shell = shell();
    assert_eq!(shell.handle_menu_event("start:900"), quiet_refresh());
    assert_eq!(shell.refresh().status, "Awake — 15:00 left");
    assert!(!shell.tick());

    assert_eq!(shell.handle_menu_event("start:0"), quiet_refresh());
    assert!(shell.tick(), "nothing left to count");
    assert!(!shell.tick());
    assert_eq!(shell.refresh().status, "Asleep as usual");
}

#[test]
fn the_display_item_flips_the_flags() {
    let mut shell = shell();
    assert_eq!(shell.flags(), Flags::display_and_system());
    assert_eq!(
        shell.handle_menu_event("keep_display"),
        Reaction::Refresh { checked: Some(false), log: None }
    );
    assert_eq!(shell.flags(), Flags::system_only());
    assert_eq!(shell.refresh().status, "Asleep as usual", "no session begins");

    shell.handle_menu_event("start:60");
    assert_eq!(
        shell.handle_menu_event("keep_display"),
        Reaction::Refresh { checked: Some(true), log: None }
    );
    assert_eq!(shell.flags(), Flags::display_and_system());
    assert_eq!(shell.refresh().status, "Awake — 1:00 left");
}

#[test]
fn other_items_leave_the_session_alone() {
    let mut shell = shell();
    shell.handle_menu_event("toggle");
    assert_eq!(
        shell.handle_menu_event("donate"),
        Reaction::OpenUrl("https://ko-fi.com/irfanhodzic")
    );
    assert_eq!(shell.handle_menu_event("autostart"), Reaction::ToggleAutostart);
    assert_eq!(shell.handle_menu_event("start:soon"), Reaction::Nothing);
    assert_eq!(shell.handle_menu_event("status"), Reaction::Nothing);
    assert_eq!(shell.refresh().toggle, "Turn Off");

    assert_eq!(shell.handle_menu_event("quit"), Reaction::Exit);
    assert_eq!(shell.refresh().toggle, "Turn On");
    shell.shut_down();
    assert_eq!(shell.refresh().toggle, "Turn On");
}

#[test]
fn failures_are_reported_in_words() {
    let mut shell = AppState::new(
        Manager::new(DbusBackend, TestClock::default()),
        Settings::default(),
    );
    assert_eq!(
        shell.handle_menu_event("toggle"),
        Reaction::Refresh {
            checked: None,
            log: Some(
                "no-afk: toggle failed: unsupported on this platform: keep-awake is not \
                 implemented on Linux yet"
                    .to_string()
            ),
        }
    );
    let mut shell = AppState::new(
        Manager::new(PowerRequestBackend, TestClock::default()),
        Settings::default(),
    );
    assert_eq!(
        shell.handle_menu_event("start:inf"),
        Reaction::Refresh {
            checked: None,
            log: Some(
                "no-afk: start failed: unsupported on this platform: keep-awake is not \
                 implemented on Windows yet"
                    .to_string()
            ),
        }
    );
}

#[test]
fn errors_read_as_sentences() {
    assert_eq!(
        Error::Os { call: "IOPMAssertionRelease", code: -536870206 }.message(),
        "IOPMAssertionRelease failed (code -536870206)"
    );
    assert_eq!(
        Error::Os { call: "x", code: i64::MIN }.message(),
        "x failed (code -9223372036854775808)"
    );
    assert_eq!(Error::Os { call: "x", code: 0 }.message(), "x failed (code 0)");
    assert_eq!(Error::Unsupported("this").message(), "unsupported on this platform: this");
    assert_eq!(Error::EmptyRequest.message(), "request asked for no assertions");
}

#[test]
fn launching_at_login_is_switched_over() {
    assert!(!autostart_target(Some(true)));
    assert!(autostart_target(Some(false)));
    assert!(autostart_target(None), "what cannot be read counts as off");
}

#[test]
fn each_platform_has_its_backend() {
    match default_backend(Platform::MacOs) {
        NativeBackend::IoKit(backend) => {
            assert_eq!(backend.name(), "macos/iokit");
            assert_eq!(backend.user_activity_id, 0);
        }
        other => panic!("{other:?}"),
    }
    match default_backend(Platform::Windows) {
        NativeBackend::PowerRequest(backend) => {
            assert_eq!(backend.name(), "windows/powerrequest")
        }
        other => panic!("{other:?}"),
    }
    match default_backend(Platform::Unix) {
        NativeBackend::Dbus(mut backend) => {
            assert_eq!(backend.name(), "linux/dbus");
            assert_eq!(
                backend.declare_user_activity("test"),
                Err(Error::Unsupported("declare_user_activity"))
            );
        }
        other => panic!("{other:?}"),
    }
}

#[test]
fn flags_ask_for_something_or_nothing() {
    assert!(Flags::default().is_empty());
    assert!(!Flags::system_only().is_empty());
    assert!(!Flags { display: false, system: false, disk: true }.is_empty());
}
