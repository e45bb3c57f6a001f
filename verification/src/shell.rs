//! The menu bar shell without the menu bar: what a click does, and what is shown.
//!
//! A click arrives as a menu item's id. [`AppState::handle_menu_event`] applies it to the
//! session and says what is left for the UI to do; [`AppState::refresh`] says what the tray and
//! the menu are to show.

use vstd::prelude::*;
use vstd::string::*;

use crate::session::{Clock, Kind, Manager, ManagerView};
use crate::settings::Settings;
use crate::text::{parse_u64, push_decimal, push_two_places, same_text, strip_prefix};
use crate::time::{Duration, NANOS_PER_SEC};
use crate::{Backend, Error, Flags};

verus! {

pub const DONATE_URL: &'static str = "https://ko-fi.com/irfanhodzic";

// ---------------------------------------------------------------------------
// Presets
// ---------------------------------------------------------------------------

/// Durations offered in the menu, in seconds. `None` is indefinite.
pub open spec fn preset_list() -> Seq<(&'static str, Option<u64>)> {
    seq![
        ("Indefinitely", None),
        ("For 15 minutes", Some(900)),
        ("For 30 minutes", Some(1800)),
        ("For 1 hour", Some(3600)),
        ("For 2 hours", Some(7200)),
        ("For 4 hours", Some(14400)),
        ("For 8 hours", Some(28800)),
    ]
}

/// The durations offered in the menu, each with its label.
pub fn presets() -> (list: Vec<(&'static str, Option<u64>)>)
    ensures
        list@ == preset_list(),
{
    let mut list: Vec<(&'static str, Option<u64>)> = Vec::new();
    list.push(("Indefinitely", None));
    list.push(("For 15 minutes", Some(15 * 60)));
    list.push(("For 30 minutes", Some(30 * 60)));
    list.push(("For 1 hour", Some(60 * 60)));
    list.push(("For 2 hours", Some(2 * 60 * 60)));
    list.push(("For 4 hours", Some(4 * 60 * 60)));
    list.push(("For 8 hours", Some(8 * 60 * 60)));
    assert(list@ =~= preset_list());
    list
}

/// The id of the menu item that starts a session of this many seconds.
pub open spec fn preset_id_text(secs: Option<u64>) -> Seq<char> {
    match secs {
        None => "start:inf"@,
        Some(n) => "start:"@ + crate::text::decimal(n as nat),
    }
}

/// The id of the menu item that starts a session of this many seconds.
pub fn preset_id(secs: Option<u64>) -> (id: String)
    ensures
        id@ == preset_id_text(secs),
{
    match secs {
        None => "start:inf".to_owned(),
        Some(n) => {
            let mut id = "start:".to_owned();
            push_decimal(&mut id, n);
            id
        },
    }
}

// ---------------------------------------------------------------------------
// Commands
// ---------------------------------------------------------------------------

/// What a menu item asks for.
#[derive(Debug, Clone, Copy, PartialEq, Eq, Structural)]
pub enum Command {
    Quit,
    Toggle,
    KeepDisplay,
    Donate,
    Autostart,
    /// Start a session of this many seconds, or an indefinite one.
    Start(Option<u64>),
    /// Not an item that does anything.
    Ignored,
}

/// What the menu item with this id asks for.
pub open spec fn command_of(id: Seq<char>) -> Command {
    if id == "quit"@ {
        Command::Quit
    } else if id == "toggle"@ {
        Command::Toggle
    } else if id == "keep_display"@ {
        Command::KeepDisplay
    } else if id == "donate"@ {
        Command::Donate
    } else if id == "autostart"@ {
        Command::Autostart
    } else {
        match crate::text::after_prefix(id, "start:"@) {
            None => Command::Ignored,
            Some(spec_text) => if spec_text == "inf"@ {
                Command::Start(None)
            } else {
                match crate::text::u64_spelled(spec_text) {
                    Some(n) => Command::Start(Some(n)),
                    None => Command::Ignored,
                }
            },
        }
    }
}

/// What the menu item with this id asks for.
pub fn parse_command(id: &str) -> (command: Command)
    ensures
        command == command_of(id@),
{
    if same_text(id, "quit") {
        Command::Quit
    } else if same_text(id, "toggle") {
        Command::Toggle
    } else if same_text(id, "keep_display") {
        Command::KeepDisplay
    } else if same_text(id, "donate") {
        Command::Donate
    } else if same_text(id, "autostart") {
        Command::Autostart
    } else {
        match strip_prefix(id, "start:") {
            None => Command::Ignored,
            Some(rest) => if same_text(rest, "inf") {
                Command::Start(None)
            } else {
                match parse_u64(rest) {
                    Some(n) => Command::Start(Some(n)),
                    None => Command::Ignored,
                }
            },
        }
    }
}

/// Clicking a preset starts a session of the preset's length, whatever the length.
pub proof fn law_preset_starts_its_length(secs: Option<u64>)
    ensures
        command_of(preset_id_text(secs)) == Command::Start(secs),
{
    let id = preset_id_text(secs);
    reveal_strlit("quit");
    reveal_strlit("toggle");
    reveal_strlit("keep_display");
    reveal_strlit("donate");
    reveal_strlit("autostart");
    reveal_strlit("start:");
    reveal_strlit("start:inf");
    reveal_strlit("inf");
    assert(id[0] == 's');
    assert(id != "quit"@ && id != "toggle"@ && id != "keep_display"@ && id != "donate"@ && id
        != "autostart"@) by {
        assert("quit"@[0] == 'q');
        assert("toggle"@[0] == 't');
        assert("keep_display"@[0] == 'k');
        assert("donate"@[0] == 'd');
        assert("autostart"@[0] == 'a');
    }
    match secs {
        None => {
            assert("start:"@.is_prefix_of(id));
            assert(id.skip(6) =~= "inf"@);
        },
        Some(n) => {
            let digits = crate::text::decimal(n as nat);
            assert("start:"@.is_prefix_of(id));
            assert(id.skip(6) =~= digits);
            crate::text::law_u64_round_trip(n);
            crate::text::law_decimal_reads_back(n as nat);
            assert(crate::text::is_digit(digits[0]));
            assert("inf"@[0] == 'i');
        },
    }
}

// ---------------------------------------------------------------------------
// Text
// ---------------------------------------------------------------------------

/// Seconds as `8:04:11`, `43:09` or `0:07`.
pub open spec fn countdown_text(secs: nat) -> Seq<char> {
    let h = secs / 3600;
    let m = (secs % 3600) / 60;
    let s = secs % 60;
    if h > 0 {
        crate::text::decimal(h) + ":"@ + crate::text::two_places(m) + ":"@
            + crate::text::two_places(s)
    } else {
        crate::text::decimal(m) + ":"@ + crate::text::two_places(s)
    }
}

/// `8:04:11` / `43:09` / `0:07`
pub fn format_remaining(d: Duration) -> (text: String)
    ensures
        text@ == countdown_text(d@ / NANOS_PER_SEC as nat),
{
    let total: u64 = d.as_secs();
    let h: u64 = total / 3600;
    let m: u64 = (total % 3600) / 60;
    let s: u64 = total % 60;
    let mut text = String::new();
    if h > 0 {
        push_decimal(&mut text, h);
        text.append(":");
        push_two_places(&mut text, m);
    } else {
        push_decimal(&mut text, m);
    }
    text.append(":");
    push_two_places(&mut text, s);
    assert(text@ =~= countdown_text(d@ / NANOS_PER_SEC as nat));
    text
}

/// The status line: no session, an indefinite one, or one with this many nanoseconds left.
pub open spec fn status_text(session: Option<Option<nat>>) -> Seq<char> {
    match session {
        None => "Asleep as usual"@,
        Some(None) => "Awake — indefinitely"@,
        Some(Some(left)) => "Awake — "@ + countdown_text(left / NANOS_PER_SEC as nat)
            + " left"@,
    }
}

// ---------------------------------------------------------------------------
// State
// ---------------------------------------------------------------------------

/// What the shell keeps.
#[derive(Debug)]
pub struct AppState<B: Backend, C: Clock> {
    awake: Manager<B, C>,
    /// Whether to hold the display assertion as well as the system one.
    keep_display: bool,
    /// How long a session from "Turn On" lasts. `None` is indefinite.
    default_duration_secs: Option<u64>,
    /// Last icon we pushed, so the tick doesn't re-set it 60 times a minute.
    icon_active: Option<bool>,
}

/// The state of an [`AppState`].
pub struct AppView<B, C> {
    pub awake: ManagerView<B, C>,
    pub keep_display: bool,
    pub default_duration_secs: Option<u64>,
    pub icon_active: Option<bool>,
}

impl<B, C> AppView<B, C> {
    /// The settings that the shell goes by.
    pub open spec fn settings(self) -> Settings {
        Settings {
            keep_display: self.keep_display,
            default_duration_secs: self.default_duration_secs,
        }
    }
}

impl<B: Backend, C: Clock> View for AppState<B, C> {
    type V = AppView<B, C>;

    closed spec fn view(&self) -> AppView<B, C> {
        AppView {
            awake: self.awake@,
            keep_display: self.keep_display,
            default_duration_secs: self.default_duration_secs,
            icon_active: self.icon_active,
        }
    }
}

/// The flags that a session is started with.
pub open spec fn session_flags(keep_display: bool) -> Flags {
    Flags { display: keep_display, system: true, disk: false }
}

/// The kind of a session of this many seconds.
pub open spec fn kind_lasts(kind: Kind, secs: Option<u64>) -> bool {
    match (kind, secs) {
        (Kind::Indefinite, None) => true,
        (Kind::For(d), Some(n)) => d@ == n * NANOS_PER_SEC,
        _ => false,
    }
}

/// The kind of a session of this many seconds.
pub fn kind_for(secs: Option<u64>) -> (kind: Kind)
    ensures
        kind_lasts(kind, secs),
{
    match secs {
        None => Kind::Indefinite,
        Some(n) => Kind::For(Duration::from_secs(n)),
    }
}

/// What is left for the UI to do after a click.
#[derive(Debug, PartialEq, Eq)]
pub enum Reaction {
    /// Leave the app. The session has been ended.
    Exit,
    /// Tick the display item to `checked`, report `log`, and refresh.
    Refresh { checked: Option<bool>, log: Option<String> },
    /// Open this address.
    OpenUrl(&'static str),
    /// Switch launching at login over.
    ToggleAutostart,
    Nothing,
}

/// What a [`Reaction`] says.
pub enum ReactionView {
    Exit,
    Refresh { checked: Option<bool>, log: Option<Seq<char>> },
    OpenUrl(Seq<char>),
    ToggleAutostart,
    Nothing,
}

impl View for Reaction {
    type V = ReactionView;

    open spec fn view(&self) -> ReactionView {
        match *self {
            Reaction::Exit => ReactionView::Exit,
            Reaction::Refresh { checked, log } => ReactionView::Refresh {
                checked,
                log: match log {
                    Some(line) => Some(line@),
                    None => None,
                },
            },
            Reaction::OpenUrl(url) => ReactionView::OpenUrl(url@),
            Reaction::ToggleAutostart => ReactionView::ToggleAutostart,
            Reaction::Nothing => ReactionView::Nothing,
        }
    }
}

/// The line to report for a result: its error behind `what`, if it is one.
pub open spec fn report_of(what: Seq<char>, result: Result<(), Error>) -> Option<Seq<char>> {
    match result {
        Ok(_) => None,
        Err(e) => Some(what + crate::error_text(e)),
    }
}

fn report(what: &str, result: Result<(), Error>) -> (line: Option<String>)
    ensures
        match line {
            Some(line) => report_of(what@, result) == Some(line@),
            None => report_of(what@, result) is None,
        },
{
    match result {
        Ok(_) => None,
        Err(e) => {
            let mut line = what.to_owned();
            line.append(e.message().as_str());
            Some(line)
        },
    }
}

/// What a change of the settings does: a live session is started anew at once under the flags
/// that they now call for, with its kind and reason, unless it has these flags and the display
/// setting stays. Without a session none begins.
pub open spec fn settings_apply<B: Backend, C: Clock>(
    pre: AppView<B, C>,
    settings: Settings,
    post: AppView<B, C>,
    result: Result<(), Error>,
) -> bool {
    &&& match pre.awake.active {
        Some((session, _)) if settings.keep_display != pre.keep_display || session.flags
            != session_flags(settings.keep_display) => crate::session::manager_starts(
                pre.awake,
                session.kind,
                session_flags(settings.keep_display),
                session.reason,
                post.awake,
                result,
            ),
        _ => post.awake == pre.awake && result is Ok,
    }
    &&& post == (AppView {
        awake: post.awake,
        keep_display: settings.keep_display,
        default_duration_secs: settings.default_duration_secs,
        ..pre
    })
}

/// What a click does to the state, and what it leaves for the UI to do.
pub open spec fn click_does<B: Backend, C: Clock>(
    pre: AppView<B, C>,
    command: Command,
    post: AppView<B, C>,
    reaction: ReactionView,
) -> bool {
    match command {
        Command::Quit => {
            &&& exists|result: Result<(), Error>| #[trigger]
                crate::session::manager_stops(pre.awake, post.awake, result)
            &&& post == (AppView { awake: post.awake, ..pre })
            &&& reaction is Exit
        },
        Command::Toggle => {
            &&& if pre.awake.active is Some {
                exists|result: Result<(), Error>|
                    {
                        &&& crate::session::manager_stops(pre.awake, post.awake, result)
                        &&& reaction == (ReactionView::Refresh {
                            checked: None,
                            log: #[trigger] report_of("no-afk: toggle failed: "@, result),
                        })
                    }
            } else {
                exists|kind: Kind, result: Result<(), Error>|
                    {
                        &&& #[trigger] kind_lasts(kind, pre.default_duration_secs)
                        &&& crate::session::manager_starts(
                            pre.awake,
                            kind,
                            session_flags(pre.keep_display),
                            "menu toggle"@,
                            post.awake,
                            result,
                        )
                        &&& reaction == (ReactionView::Refresh {
                            checked: None,
                            log: #[trigger] report_of("no-afk: toggle failed: "@, result),
                        })
                    }
            }
            &&& post == (AppView { awake: post.awake, ..pre })
        },
        Command::KeepDisplay => exists|result: Result<(), Error>|
            {
                &&& settings_apply(
                    pre,
                    Settings { keep_display: !pre.keep_display, ..pre.settings() },
                    post,
                    result,
                )
                &&& reaction == (ReactionView::Refresh {
                    checked: Some(!pre.keep_display),
                    log: #[trigger] report_of(
                        "no-afk: could not re-apply display setting: "@,
                        result,
                    ),
                })
            },
        Command::Donate => post == pre && reaction == ReactionView::OpenUrl(DONATE_URL@),
        Command::Autostart => post == pre && reaction is ToggleAutostart,
        Command::Start(secs) => {
            &&& exists|kind: Kind, result: Result<(), Error>|
                {
                    &&& #[trigger] kind_lasts(kind, secs)
                    &&& crate::session::manager_starts(
                        pre.awake,
                        kind,
                        session_flags(pre.keep_display),
                        "menu"@,
                        post.awake,
                        result,
                    )
                    &&& reaction == (ReactionView::Refresh {
                        checked: None,
                        log: #[trigger] report_of("no-afk: start failed: "@, result),
                    })
                }
            &&& post == (AppView { awake: post.awake, ..pre })
        },
        Command::Ignored => post == pre && reaction is Nothing,
    }
}

/// What the tray and the menu are to show.
#[derive(Debug, PartialEq, Eq)]
pub struct Labels {
    pub status: String,
    pub toggle: &'static str,
    /// The icon to push: active or not; `None` if the one shown is right.
    pub icon: Option<bool>,
}

impl<B: Backend, C: Clock> AppState<B, C> {
    pub closed spec fn wf(&self) -> bool {
        self.awake.wf()
    }

    /// The shell over `awake` that goes by these settings. No icon has been pushed.
    pub fn new(awake: Manager<B, C>, settings: Settings) -> (state: AppState<B, C>)
        requires
            awake.wf(),
        ensures
            state.wf(),
            state@ == (AppView {
                awake: awake@,
                keep_display: settings.keep_display,
                default_duration_secs: settings.default_duration_secs,
                icon_active: None,
            }),
    {
        AppState {
            awake,
            keep_display: settings.keep_display,
            default_duration_secs: settings.default_duration_secs,
            icon_active: None,
        }
    }

    /// The settings as they are now, to be saved.
    pub fn settings(&self) -> (settings: Settings)
        ensures
            settings == self@.settings(),
    {
        Settings {
            keep_display: self.keep_display,
            default_duration_secs: self.default_duration_secs,
        }
    }

    /// Go by these settings from now on, in a live session too.
    pub fn apply_settings(&mut self, settings: Settings) -> (result: Result<(), Error>)
        requires
            old(self).wf(),
        ensures
            final(self).wf(),
            settings_apply(old(self)@, settings, final(self)@, result),
    {
        let flips: bool = settings.keep_display != self.keep_display;
        self.keep_display = settings.keep_display;
        self.default_duration_secs = settings.default_duration_secs;
        // Re-acquire with the new flags so the change takes effect immediately rather than at
        // the next session.
        let session = match self.awake.session() {
            Some(session) => Some(session.clone()),
            None => None,
        };
        match session {
            Some(session) => {
                let flags = self.flags();
                if flips || session.flags != flags {
                    self.awake.start(session.kind, flags, session.reason.as_str())
                } else {
                    Ok(())
                }
            },
            None => Ok(()),
        }
    }

    pub fn flags(&self) -> (flags: Flags)
        ensures
            flags == session_flags(self@.keep_display),
    {
        if self.keep_display {
            Flags::display_and_system()
        } else {
            Flags::system_only()
        }
    }

    /// Apply a click on the menu item with this id.
    pub fn handle_menu_event(&mut self, id: &str) -> (reaction: Reaction)
        requires
            old(self).wf(),
        ensures
            final(self).wf(),
            click_does(old(self)@, command_of(id@), final(self)@, reaction@),
    {
        match parse_command(id) {
            Command::Quit => {
                // Release explicitly. The process may exit without unwinding.
                let result = self.awake.stop();
                assert(crate::session::manager_stops(old(self)@.awake, self@.awake, result));
                Reaction::Exit
            },
            Command::Toggle => {
                let result = if self.awake.is_active() {
                    self.awake.stop()
                } else {
                    let flags = self.flags();
                    let kind = kind_for(self.default_duration_secs);
                    self.awake.start(kind, flags, "menu toggle")
                };
                Reaction::Refresh { checked: None, log: report("no-afk: toggle failed: ", result) }
            },
            Command::KeepDisplay => {
                let keep_display: bool = !self.keep_display;
                let result = self.apply_settings(Settings { keep_display, ..self.settings() });
                Reaction::Refresh {
                    checked: Some(keep_display),
                    log: report("no-afk: could not re-apply display setting: ", result),
                }
            },
            Command::Donate => Reaction::OpenUrl(DONATE_URL),
            Command::Autostart => Reaction::ToggleAutostart,
            Command::Start(secs) => {
                let flags = self.flags();
                let kind = kind_for(secs);
                let result = self.awake.start(kind, flags, "menu");
                Reaction::Refresh { checked: None, log: report("no-afk: start failed: ", result) }
            },
            Command::Ignored => Reaction::Nothing,
        }
    }

    /// What is to be shown now.
    pub fn refresh(&mut self) -> (labels: Labels)
        ensures
            old(self).wf() ==> final(self).wf(),
            match old(self)@.awake.active {
                None => labels.status@ == status_text(None),
                Some((session, _)) => exists|now: crate::time::Instant| #[trigger]
                    old(self)@.awake.clock.may_read(now) && labels.status@ == status_text(
                        Some(session.remaining(now)),
                    ),
            },
            labels.toggle@ == (if old(self)@.awake.active is Some {
                "Turn Off"@
            } else {
                "Turn On"@
            }),
            labels.icon == (if old(self)@.icon_active == Some(old(self)@.awake.active is Some) {
                None
            } else {
                Some(old(self)@.awake.active is Some)
            }),
            final(self)@ == (AppView {
                icon_active: Some(old(self)@.awake.active is Some),
                ..old(self)@
            }),
    {
        let active: bool = self.awake.is_active();
        let status = if !active {
            "Asleep as usual".to_owned()
        } else {
            match self.awake.remaining() {
                Some(left) => {
                    let mut status = "Awake — ".to_owned();
                    status.append(format_remaining(left).as_str());
                    status.append(" left");
                    status
                },
                None => "Awake — indefinitely".to_owned(),
            }
        };
        let toggle = if active {
            "Turn Off"
        } else {
            "Turn On"
        };
        // Only touch the tray icon when it actually changes.
        let shown: bool = match self.icon_active {
            Some(last) => last == active,
            None => false,
        };
        let icon = if shown {
            None
        } else {
            Some(active)
        };
        self.icon_active = Some(active);
        Labels { status, toggle, icon }
    }

    /// Drive the countdown. `true` if a session just auto-ended; a failure counts as no end.
    pub fn tick(&mut self) -> (ended: bool)
        requires
            old(self).wf(),
        ensures
            final(self).wf(),
            exists|result: Result<bool, Error>| #[trigger]
                crate::session::manager_ticks(old(self)@.awake, final(self)@.awake, result)
                    && ended == (result == Ok::<bool, Error>(true)),
            final(self)@ == (AppView { awake: final(self)@.awake, ..old(self)@ }),
    {
        let result = self.awake.tick();
        assert(crate::session::manager_ticks(old(self)@.awake, self@.awake, result));
        match result {
            Ok(ended) => ended,
            Err(_) => false,
        }
    }

    /// Release on the way out, however the app came to leave.
    pub fn shut_down(&mut self)
        requires
            old(self).wf(),
        ensures
            final(self).wf(),
            exists|result: Result<(), Error>| #[trigger]
                crate::session::manager_stops(old(self)@.awake, final(self)@.awake, result),
            final(self)@ == (AppView { awake: final(self)@.awake, ..old(self)@ }),
    {
        let result = self.awake.stop();
        assert(crate::session::manager_stops(old(self)@.awake, self@.awake, result));
    }
}

/// Whether launching at login is to be switched on, by whether it is on now. What cannot be
/// read counts as off.
pub fn autostart_target(enabled: Option<bool>) -> (enable: bool)
    ensures
        enable == (enabled != Some(true)),
{
    match enabled {
        Some(enabled) => !enabled,
        None => true,
    }
}

// ---------------------------------------------------------------------------
// Laws
// ---------------------------------------------------------------------------

/// What the menu starts always keeps the system up, so it is never refused as empty.
pub proof fn law_menu_never_asks_for_nothing(keep_display: bool)
    ensures
        session_flags(keep_display).system,
        session_flags(keep_display).display == keep_display,
        !session_flags(keep_display).asks_nothing(),
{
}

/// After a click on Quit there is no session left.
pub proof fn law_quit_ends_the_session<B: Backend, C: Clock>(
    pre: AppView<B, C>,
    post: AppView<B, C>,
    reaction: ReactionView,
)
    requires
        click_does(pre, Command::Quit, post, reaction),
    ensures
        post.awake.active is None,
        reaction is Exit,
{
}

/// The toggle ends a session if there is one. Else it starts one that lasts as long as the
/// settings say, with the flags of the display setting, unless it reports why it could not.
pub proof fn law_toggle_flips<B: Backend, C: Clock>(
    pre: AppView<B, C>,
    post: AppView<B, C>,
    reaction: ReactionView,
)
    requires
        click_does(pre, Command::Toggle, post, reaction),
    ensures
        pre.awake.active is Some ==> post.awake.active is None,
        pre.awake.active is None ==> (post.awake.active is Some <==> reaction
            == (ReactionView::Refresh { checked: None, log: None })),
        pre.awake.active is None && post.awake.active is Some ==> {
            &&& kind_lasts(post.awake.active->Some_0.0.kind, pre.default_duration_secs)
            &&& post.awake.active->Some_0.0.flags == session_flags(pre.keep_display)
        },
        post.settings() == pre.settings(),
{
    if pre.awake.active is None {
        let (kind, result) = choose|kind: Kind, result: Result<(), Error>|
            {
                &&& #[trigger] kind_lasts(kind, pre.default_duration_secs)
                &&& crate::session::manager_starts(
                    pre.awake,
                    kind,
                    session_flags(pre.keep_display),
                    "menu toggle"@,
                    post.awake,
                    result,
                )
                &&& reaction == (ReactionView::Refresh {
                    checked: None,
                    log: #[trigger] report_of("no-afk: toggle failed: "@, result),
                })
            };
        crate::session::law_start_is_all_or_nothing(
            pre.awake,
            kind,
            session_flags(pre.keep_display),
            "menu toggle"@,
            post.awake,
            result,
        );
    }
}

/// A change of the settings takes effect at once: a live session goes on under the flags that
/// they call for, with its kind and reason, unless the change failed, and then there is none.
/// Without a session none begins.
pub proof fn law_settings_reach_the_session<B: Backend, C: Clock>(
    pre: AppView<B, C>,
    settings: Settings,
    post: AppView<B, C>,
    result: Result<(), Error>,
)
    requires
        settings_apply(pre, settings, post, result),
    ensures
        post.settings() == settings,
        pre.awake.active is None ==> post.awake == pre.awake,
        pre.awake.active is Some ==> (post.awake.active is Some <==> result is Ok),
        pre.awake.active is Some && post.awake.active is Some ==> {
            &&& post.awake.active->Some_0.0.kind == pre.awake.active->Some_0.0.kind
            &&& post.awake.active->Some_0.0.reason == pre.awake.active->Some_0.0.reason
            &&& post.awake.active->Some_0.0.flags == session_flags(settings.keep_display)
        },
{
    let session = pre.awake.active->Some_0.0;
    let flags = session_flags(settings.keep_display);
    if pre.awake.active is Some && (settings.keep_display != pre.keep_display || session.flags
        != flags) {
        crate::session::law_start_is_all_or_nothing(
            pre.awake,
            session.kind,
            flags,
            session.reason,
            post.awake,
            result,
        );
    }
}

/// The display item flips the setting. A live session goes on under the new flags, with its
/// kind and reason, unless the click reports why it could not; without a session none begins.
pub proof fn law_display_item_reaches_the_session<B: Backend, C: Clock>(
    pre: AppView<B, C>,
    post: AppView<B, C>,
    reaction: ReactionView,
)
    requires
        click_does(pre, Command::KeepDisplay, post, reaction),
    ensures
        post.settings() == (Settings { keep_display: !pre.keep_display, ..pre.settings() }),
        pre.awake.active is None ==> post.awake == pre.awake,
        pre.awake.active is Some ==> (post.awake.active is Some <==> reaction
            == (ReactionView::Refresh { checked: Some(post.keep_display), log: None })),
        pre.awake.active is Some && post.awake.active is Some ==> {
            &&& post.awake.active->Some_0.0.kind == pre.awake.active->Some_0.0.kind
            &&& post.awake.active->Some_0.0.reason == pre.awake.active->Some_0.0.reason
            &&& post.awake.active->Some_0.0.flags == session_flags(post.keep_display)
        },
{
    if pre.awake.active is Some {
        let session = pre.awake.active->Some_0.0;
        let settings = Settings { keep_display: !pre.keep_display, ..pre.settings() };
        let result = choose|result: Result<(), Error>|
            {
                &&& settings_apply(pre, settings, post, result)
                &&& reaction == (ReactionView::Refresh {
                    checked: Some(!pre.keep_display),
                    log: #[trigger] report_of(
                        "no-afk: could not re-apply display setting: "@,
                        result,
                    ),
                })
            };
        crate::session::law_start_is_all_or_nothing(
            pre.awake,
            session.kind,
            session_flags(settings.keep_display),
            session.reason,
            post.awake,
            result,
        );
    }
}

} // verus!
