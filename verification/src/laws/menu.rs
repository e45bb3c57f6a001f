//! The menu: what a click does, what is shown, and what becomes of the settings.

use vstd::prelude::*;

use crate::session::{Clock, Kind, Manager};
use crate::settings::{
    FileReading, LoadAnswer, LoadCall, LoadCallView, LoadRun, SaveCall, SaveCallView, SaveFault,
    SaveRun, Settings,
};
use crate::shell::{AppState, Command, Labels, Reaction};
use crate::time::{Duration, Instant};
use crate::{Backend, Error, Flags};

verus! {

// ---------------------------------------------------------------------------
// The countdown as text
// ---------------------------------------------------------------------------

/// What the numbers between the colons of `t` read as, each colon worth a factor of sixty: all
/// but the last, and the last.
pub open spec fn clock_parts(t: Seq<char>) -> (int, int)
    decreases t.len(),
{
    if t.len() == 0 {
        (0, 0)
    } else {
        let (done, last) = clock_parts(t.drop_last());
        if t.last() == ':' {
            ((done + last) * 60, 0)
        } else {
            (done, last * 10 + (t.last() as int - 48))
        }
    }
}

/// How many seconds `t` reads as.
pub open spec fn clock_value(t: Seq<char>) -> int {
    clock_parts(t).0 + clock_parts(t).1
}

/// Whether `t` is written as hours, minutes and seconds, or as minutes and seconds where there
/// are no hours: the first number plain, the others on two places, with colons between them.
pub open spec fn clock_face(t: Seq<char>, h: int, m: int, s: int) -> bool {
    let n = t.len() as int;
    &&& n >= 4
    &&& crate::laws::two_digits(t.skip(n - 2), s)
    &&& t[n - 3] == ':'
    &&& h == 0 ==> crate::laws::plain_number(t.take(n - 3), m)
    &&& h > 0 ==> {
        &&& n >= 7
        &&& crate::laws::two_digits(t.subrange(n - 5, n - 3), m)
        &&& t[n - 6] == ':'
        &&& crate::laws::plain_number(t.take(n - 6), h)
    }
}

/// Whether `t` shows this many seconds: it reads as them, and is written as hours, minutes below
/// sixty and seconds below sixty that make them up.
pub open spec fn shows(t: Seq<char>, secs: int) -> bool {
    &&& clock_value(t) == secs
    &&& exists|h: int, m: int, s: int|
        {
            &&& #[trigger] clock_face(t, h, m, s)
            &&& h >= 0
            &&& 0 <= m < 60
            &&& 0 <= s < 60
            &&& h * 3600 + m * 60 + s == secs
        }
}

proof fn lemma_clock_digits(front: Seq<char>, d: Seq<char>)
    requires
        crate::laws::digits(d),
        clock_parts(front).1 == 0,
    ensures
        clock_parts(front + d) == (clock_parts(front).0, crate::laws::reads(d)),
    decreases d.len(),
{
    if d.len() == 0 {
        assert(front + d =~= front);
    } else {
        let less = d.drop_last();
        assert(forall|i: int| 0 <= i < less.len() ==> less[i] == d[i]);
        lemma_clock_digits(front, less);
        assert((front + d).drop_last() =~= front + less);
        assert((front + d).last() == d[d.len() - 1]);
        assert(d[d.len() - 1] <= '9');
    }
}

proof fn lemma_clock_colon(front: Seq<char>)
    ensures
        clock_parts(front + ":"@) == ((clock_parts(front).0 + clock_parts(front).1) * 60, 0int),
{
    reveal_strlit(":");
    let t = front + ":"@;
    assert(t.drop_last() =~= front);
    assert(t.last() == ':');
}

proof fn lemma_countdown_shows(secs: nat)
    ensures
        shows(crate::shell::countdown_text(secs), secs as int),
{
    let t = crate::shell::countdown_text(secs);
    let h = secs / 3600;
    let m = (secs % 3600) / 60;
    let s = secs % 60;
    let seconds = crate::text::two_places(s);
    crate::laws::lemma_two_places(s);
    reveal_strlit(":");
    let none = Seq::<char>::empty();
    assert(clock_parts(none) == (0int, 0int));
    if h > 0 {
        let hours = crate::text::decimal(h);
        let minutes = crate::text::two_places(m);
        crate::laws::lemma_decimal_is_plain(h);
        crate::laws::lemma_two_places(m);
        lemma_clock_digits(none, hours);
        assert(none + hours =~= hours);
        lemma_clock_colon(hours);
        lemma_clock_digits(hours + ":"@, minutes);
        lemma_clock_colon(hours + ":"@ + minutes);
        lemma_clock_digits(hours + ":"@ + minutes + ":"@, seconds);
        assert(t =~= hours + ":"@ + minutes + ":"@ + seconds);
        let n = t.len() as int;
        assert(t.skip(n - 2) =~= seconds);
        assert(t.subrange(n - 5, n - 3) =~= minutes);
        assert(t.take(n - 6) =~= hours);
        assert(t[n - 3] == ':' && t[n - 6] == ':');
    } else {
        let minutes = crate::text::decimal(m);
        crate::laws::lemma_decimal_is_plain(m);
        lemma_clock_digits(none, minutes);
        assert(none + minutes =~= minutes);
        lemma_clock_colon(minutes);
        lemma_clock_digits(minutes + ":"@, seconds);
        assert(t =~= minutes + ":"@ + seconds);
        let n = t.len() as int;
        assert(t.skip(n - 2) =~= seconds);
        assert(t.take(n - 3) =~= minutes);
        assert(t[n - 3] == ':');
    }
    assert(clock_face(t, h as int, m as int, s as int));
    assert(h * 3600 + m * 60 + s == secs);
}

/// The countdown shows the whole seconds that are left: the numbers between its colons read as
/// them, minutes behind hours and seconds are on two places and below sixty, and the first
/// number is plain.
pub proof fn law_countdown_shows_the_time(d: Duration, text: String)
    requires
        call_ensures(crate::shell::format_remaining, (d,), text),
    ensures
        shows(text@, d@ as int / 1_000_000_000),
{
    lemma_countdown_shows(d@ / crate::time::NANOS_PER_SEC as nat);
}

/// Two spans are shown alike exactly if they are of the same number of whole seconds.
pub proof fn law_countdown_tells_times_apart(
    a: Duration,
    b: Duration,
    shown_a: String,
    shown_b: String,
)
    requires
        call_ensures(crate::shell::format_remaining, (a,), shown_a),
        call_ensures(crate::shell::format_remaining, (b,), shown_b),
    ensures
        shown_a@ == shown_b@ <==> a@ / 1_000_000_000 == b@ / 1_000_000_000,
{
    lemma_countdown_shows(a@ / crate::time::NANOS_PER_SEC as nat);
    lemma_countdown_shows(b@ / crate::time::NANOS_PER_SEC as nat);
}

// ---------------------------------------------------------------------------
// Menu items
// ---------------------------------------------------------------------------

/// A number of seconds in minutes below an hour, in hours from there on.
pub open spec fn whole_units(secs: int) -> int {
    if secs < 3600 {
        secs / 60
    } else {
        secs / 3600
    }
}

/// Whether `label` is made of this number and the unit in which it says this many seconds.
pub open spec fn labelled(label: Seq<char>, number: Seq<char>, secs: int) -> bool {
    &&& crate::laws::plain_number(number, whole_units(secs))
    &&& label == "For "@ + number + (if secs < 3600 {
        " minutes"@
    } else if secs == 3600 {
        " hour"@
    } else {
        " hours"@
    })
}

/// Whether `label` says how long a session of this many seconds is: in minutes below an hour, in
/// hours from there on.
pub open spec fn says_length(label: Seq<char>, secs: Option<u64>) -> bool {
    match secs {
        None => label == "Indefinitely"@,
        Some(n) => exists|number: Seq<char>| #[trigger] labelled(label, number, n as int),
    }
}

proof fn lemma_label(label: Seq<char>, secs: u64, number: nat, unit: Seq<char>)
    requires
        number == whole_units(secs as int),
        label == "For "@ + crate::text::decimal(number) + unit,
        unit == (if secs < 3600 {
            " minutes"@
        } else if secs == 3600 {
            " hour"@
        } else {
            " hours"@
        }),
    ensures
        says_length(label, Some(secs)),
{
    crate::laws::lemma_decimal_is_plain(number);
    let length = Some(secs);
    assert(labelled(label, crate::text::decimal(number), length->Some_0 as int));
}

/// The presets are an indefinite session and then six lengths, from a quarter of an hour on,
/// each twice the one before; and each label says its length.
pub proof fn law_presets_say_their_length(list: Vec<(&'static str, Option<u64>)>)
    requires
        call_ensures(crate::shell::presets, (), list),
    ensures
        list@.len() == 7,
        list@[0].1 is None,
        list@[1].1 == Some(900u64),
        forall|i: int|
            1 <= i < 6 ==> (#[trigger] list@[i]).1 is Some && list@[i + 1].1 is Some
                && list@[i + 1].1->Some_0 == 2 * list@[i].1->Some_0,
        forall|i: int| 0 <= i < 7 ==> says_length((#[trigger] list@[i]).0@, list@[i].1),
{
    reveal_strlit("For ");
    reveal_strlit(" minutes");
    reveal_strlit(" hour");
    reveal_strlit(" hours");
    reveal_strlit("For 15 minutes");
    reveal_strlit("For 30 minutes");
    reveal_strlit("For 1 hour");
    reveal_strlit("For 2 hours");
    reveal_strlit("For 4 hours");
    reveal_strlit("For 8 hours");
    reveal_with_fuel(crate::text::decimal, 3);
    assert(crate::text::decimal(15) =~= seq!['1', '5']);
    assert(crate::text::decimal(30) =~= seq!['3', '0']);
    assert(crate::text::decimal(1) =~= seq!['1']);
    assert(crate::text::decimal(2) =~= seq!['2']);
    assert(crate::text::decimal(4) =~= seq!['4']);
    assert(crate::text::decimal(8) =~= seq!['8']);
    assert("For 15 minutes"@ =~= "For "@ + crate::text::decimal(15) + " minutes"@);
    assert("For 30 minutes"@ =~= "For "@ + crate::text::decimal(30) + " minutes"@);
    assert("For 1 hour"@ =~= "For "@ + crate::text::decimal(1) + " hour"@);
    assert("For 2 hours"@ =~= "For "@ + crate::text::decimal(2) + " hours"@);
    assert("For 4 hours"@ =~= "For "@ + crate::text::decimal(4) + " hours"@);
    assert("For 8 hours"@ =~= "For "@ + crate::text::decimal(8) + " hours"@);
    lemma_label("For 15 minutes"@, 900, 15, " minutes"@);
    lemma_label("For 30 minutes"@, 1800, 30, " minutes"@);
    lemma_label("For 1 hour"@, 3600, 1, " hour"@);
    lemma_label("For 2 hours"@, 7200, 2, " hours"@);
    lemma_label("For 4 hours"@, 14400, 4, " hours"@);
    lemma_label("For 8 hours"@, 28800, 8, " hours"@);
}

/// Whether `id` is that of the item that starts a session of this many seconds.
pub open spec fn starts(id: Seq<char>, secs: Option<u64>) -> bool {
    match secs {
        None => id == "start:inf"@,
        Some(n) => exists|t: Seq<char>| #[trigger]
            crate::laws::spells(t, n as int) && id == "start:"@ + t,
    }
}

/// A preset's id is that of the item that starts a session of its length, written plainly.
pub proof fn law_preset_id_says_its_length(secs: Option<u64>, id: String)
    requires
        call_ensures(crate::shell::preset_id, (secs,), id),
    ensures
        starts(id@, secs),
        secs matches Some(n) ==> exists|t: Seq<char>| #[trigger]
            crate::laws::plain_number(t, n as int) && id@ == "start:"@ + t,
{
    if let Some(n) = secs {
        let t = crate::text::decimal(n as nat);
        crate::laws::lemma_decimal_is_plain(n as nat);
        assert(crate::laws::spells(t, n as int)) by {
            assert('0' <= t[0]);
        }
    }
}

/// Each id is taken for what it says: the five items by their names, a start by its length, and
/// anything else for nothing.
pub proof fn law_ids_are_told_apart(id: &str, command: Command)
    requires
        call_ensures(crate::shell::parse_command, (id,), command),
    ensures
        command is Quit <==> id@ == "quit"@,
        command is Toggle <==> id@ == "toggle"@,
        command is KeepDisplay <==> id@ == "keep_display"@,
        command is Donate <==> id@ == "donate"@,
        command is Autostart <==> id@ == "autostart"@,
        forall|secs: Option<u64>| command == Command::Start(secs) <==> #[trigger] starts(id@, secs),
{
    lemma_commands(id@);
}

proof fn lemma_commands(id: Seq<char>)
    ensures
        ({
            let command = crate::shell::command_of(id);
            &&& command is Quit <==> id == "quit"@
            &&& command is Toggle <==> id == "toggle"@
            &&& command is KeepDisplay <==> id == "keep_display"@
            &&& command is Donate <==> id == "donate"@
            &&& command is Autostart <==> id == "autostart"@
            &&& forall|secs: Option<u64>|
                command == Command::Start(secs) <==> #[trigger] starts(id, secs)
        }),
{
    reveal_strlit("quit");
    reveal_strlit("toggle");
    reveal_strlit("keep_display");
    reveal_strlit("donate");
    reveal_strlit("autostart");
    reveal_strlit("start:");
    reveal_strlit("start:inf");
    reveal_strlit("inf");
    assert("quit"@[0] == 'q' && "toggle"@[0] == 't' && "keep_display"@[0] == 'k');
    assert("donate"@[0] == 'd' && "autostart"@[0] == 'a' && "start:"@[0] == 's');
    let command = crate::shell::command_of(id);
    assert("start:inf"@ =~= "start:"@ + "inf"@);
    assert("inf"@[0] == 'i');
    match crate::text::after_prefix(id, "start:"@) {
        Some(rest) => {
            assert(id =~= "start:"@ + rest);
            assert(id[0] == 's');
            crate::laws::lemma_spelled(rest);
            assert forall|secs: Option<u64>|
                command == Command::Start(secs) <==> #[trigger] starts(id, secs) by {
                match secs {
                    None => {
                        if id == "start:inf"@ {
                            assert(rest =~= "inf"@);
                        }
                    },
                    Some(n) => {
                        if starts(id, secs) {
                            let t = choose|t: Seq<char>| #[trigger]
                                crate::laws::spells(t, n as int) && id == "start:"@ + t;
                            assert(t =~= id.skip(6));
                            assert(rest =~= id.skip(6));
                            assert(rest != "inf"@) by {
                                if rest == "inf"@ {
                                    assert(rest[0] == 'i');
                                    assert(!crate::laws::spells(rest, n as int));
                                }
                            }
                        }
                        if command == Command::Start(secs) {
                            assert(crate::laws::spells(rest, n as int));
                        }
                    },
                }
            }
        },
        None => {
            assert forall|secs: Option<u64>| !(#[trigger] starts(id, secs)) by {
                if starts(id, secs) {
                    match secs {
                        None => {
                            assert("start:"@.is_prefix_of(id));
                        },
                        Some(n) => {
                            let t = choose|t: Seq<char>| #[trigger]
                                crate::laws::spells(t, n as int) && id == "start:"@ + t;
                            assert("start:"@.is_prefix_of(id));
                        },
                    }
                }
            }
        },
    }
}

// ---------------------------------------------------------------------------
// Clicks
// ---------------------------------------------------------------------------

/// Whether a session of this kind lasts this many seconds.
pub open spec fn lasts(kind: Kind, secs: Option<u64>) -> bool {
    match secs {
        None => kind is Indefinite,
        Some(n) => kind is For && kind->For_0@ == n * 1_000_000_000,
    }
}

/// Whether these flags keep the system up, the display as the setting says, and not the disk.
pub open spec fn flags_by(keep_display: bool, flags: Flags) -> bool {
    flags.display == keep_display && flags.system && !flags.disk
}

/// Whether a click that was to start a session did: the live session is of this length, with
/// the flags of the display setting and for this reason, and there is nothing to report; or else
/// there is no session, and the report says why.
pub open spec fn started_or_reported<B: Backend, C: Clock>(
    pre: AppState<B, C>,
    secs: Option<u64>,
    reason: Seq<char>,
    post: AppState<B, C>,
    what: Seq<char>,
    log: Option<Seq<char>>,
) -> bool {
    &&& log is None <==> post@.awake.active is Some
    &&& post@.awake.active matches Some((session, _)) ==> {
        &&& lasts(session.kind, secs)
        &&& flags_by(pre@.keep_display, session.flags)
        &&& session.reason == reason
        &&& exists|result: Result<(), Error>|
            result is Ok && #[trigger] crate::session::manager_starts(
                pre@.awake,
                session.kind,
                session.flags,
                session.reason,
                post@.awake,
                result,
            )
    }
    &&& log matches Some(line) ==> exists|e: Error, kind: Kind, flags: Flags|
        {
            &&& #[trigger] crate::session::manager_starts(
                pre@.awake,
                kind,
                flags,
                reason,
                post@.awake,
                Err(e),
            )
            &&& lasts(kind, secs)
            &&& flags_by(pre@.keep_display, flags)
            &&& line == what + crate::error_text(e)
        }
}

/// What a reaction has to report, if it is a refresh.
pub open spec fn log_of(reaction: Reaction) -> Option<Seq<char>> {
    match reaction {
        Reaction::Refresh { log: Some(line), .. } => Some(line@),
        _ => None,
    }
}

proof fn lemma_started<B: Backend, C: Clock>(
    pre: AppState<B, C>,
    secs: Option<u64>,
    kind: Kind,
    reason: Seq<char>,
    post: AppState<B, C>,
    what: Seq<char>,
    result: Result<(), Error>,
)
    requires
        crate::shell::kind_lasts(kind, secs),
        crate::session::manager_starts(
            pre@.awake,
            kind,
            crate::shell::session_flags(pre@.keep_display),
            reason,
            post@.awake,
            result,
        ),
    ensures
        started_or_reported(
            pre,
            secs,
            reason,
            post,
            what,
            crate::shell::report_of(what, result),
        ),
{
    let flags = crate::shell::session_flags(pre@.keep_display);
    assert(lasts(kind, secs));
    assert(flags_by(pre@.keep_display, flags));
    crate::session::law_start_is_all_or_nothing(
        pre@.awake,
        kind,
        flags,
        reason,
        post@.awake,
        result,
    );
    if let Err(e) = result {
        assert(crate::session::manager_starts(
            pre@.awake,
            kind,
            flags,
            reason,
            post@.awake,
            Err(e),
        ));
    }
}

/// A click on a preset, whichever it is, starts a session of the preset's length with the flags
/// of the display setting, or reports why it could not. It changes no setting.
pub proof fn law_preset_click<B: Backend, C: Clock>(
    pre: AppState<B, C>,
    secs: Option<u64>,
    id: &str,
    post: AppState<B, C>,
    reaction: Reaction,
)
    requires
        starts(id@, secs),
        exists|a: &mut AppState<B, C>|
            *a == pre && *final(a) == post && #[trigger] call_ensures(
                AppState::<B, C>::handle_menu_event,
                (a, id),
                reaction,
            ),
    ensures
        reaction matches Reaction::Refresh { checked, .. } && checked is None,
        post@.keep_display == pre@.keep_display,
        post@.default_duration_secs == pre@.default_duration_secs,
        post@.icon_active == pre@.icon_active,
        started_or_reported(
            pre,
            secs,
            "menu"@,
            post,
            "no-afk: start failed: "@,
            log_of(reaction),
        ),
{
    lemma_commands(id@);
    assert(crate::shell::command_of(id@) == Command::Start(secs));
    let (kind, result) = choose|kind: Kind, result: Result<(), Error>|
        {
            &&& #[trigger] crate::shell::kind_lasts(kind, secs)
            &&& crate::session::manager_starts(
                pre@.awake,
                kind,
                crate::shell::session_flags(pre@.keep_display),
                "menu"@,
                post@.awake,
                result,
            )
            &&& reaction@ == (crate::shell::ReactionView::Refresh {
                checked: None,
                log: #[trigger] crate::shell::report_of("no-afk: start failed: "@, result),
            })
        };
    lemma_started(pre, secs, kind, "menu"@, post, "no-afk: start failed: "@, result);
    assert(log_of(reaction) == crate::shell::report_of("no-afk: start failed: "@, result));
}

/// A click on the toggle ends the session if there is one, and else starts one as long as the
/// settings say, with the flags of the display setting, or reports why it could not. It changes
/// no setting.
pub proof fn law_toggle_click<B: Backend, C: Clock>(
    pre: AppState<B, C>,
    id: &str,
    post: AppState<B, C>,
    reaction: Reaction,
)
    requires
        id@ == "toggle"@,
        exists|a: &mut AppState<B, C>|
            *a == pre && *final(a) == post && #[trigger] call_ensures(
                AppState::<B, C>::handle_menu_event,
                (a, id),
                reaction,
            ),
    ensures
        reaction matches Reaction::Refresh { checked, .. } && checked is None,
        post@.keep_display == pre@.keep_display,
        post@.default_duration_secs == pre@.default_duration_secs,
        post@.icon_active == pre@.icon_active,
        pre@.awake.active is Some ==> {
            &&& post@.awake.active is None
            &&& exists|result: Result<(), Error>|
                {
                    &&& #[trigger] B::releases(
                        pre@.awake.backend,
                        pre@.awake.active->Some_0.1,
                        post@.awake.backend,
                        result,
                    )
                    &&& match result {
                        Ok(_) => log_of(reaction) is None,
                        Err(e) => log_of(reaction) == Some(
                            "no-afk: toggle failed: "@ + crate::error_text(e),
                        ),
                    }
                }
        },
        pre@.awake.active is None ==> started_or_reported(
            pre,
            pre@.default_duration_secs,
            "menu toggle"@,
            post,
            "no-afk: toggle failed: "@,
            log_of(reaction),
        ),
{
    lemma_commands(id@);
    if pre@.awake.active is None {
        let (kind, result) = choose|kind: Kind, result: Result<(), Error>|
            {
                &&& #[trigger] crate::shell::kind_lasts(kind, pre@.default_duration_secs)
                &&& crate::session::manager_starts(
                    pre@.awake,
                    kind,
                    crate::shell::session_flags(pre@.keep_display),
                    "menu toggle"@,
                    post@.awake,
                    result,
                )
                &&& reaction@ == (crate::shell::ReactionView::Refresh {
                    checked: None,
                    log: #[trigger] crate::shell::report_of("no-afk: toggle failed: "@, result),
                })
            };
        lemma_started(
            pre,
            pre@.default_duration_secs,
            kind,
            "menu toggle"@,
            post,
            "no-afk: toggle failed: "@,
            result,
        );
        assert(log_of(reaction) == crate::shell::report_of("no-afk: toggle failed: "@, result));
    } else {
        let result = choose|result: Result<(), Error>|
            {
                &&& crate::session::manager_stops(pre@.awake, post@.awake, result)
                &&& reaction@ == (crate::shell::ReactionView::Refresh {
                    checked: None,
                    log: #[trigger] crate::shell::report_of("no-afk: toggle failed: "@, result),
                })
            };
        assert(B::releases(
            pre@.awake.backend,
            pre@.awake.active->Some_0.1,
            post@.awake.backend,
            result,
        ));
    }
}

/// A click on the display item flips the display setting and no other, and ticks the item by
/// it. A live session goes on with its kind and reason under the flags of the new setting, or
/// there is none and the report says why; without a session none begins.
pub proof fn law_display_click<B: Backend, C: Clock>(
    pre: AppState<B, C>,
    id: &str,
    post: AppState<B, C>,
    reaction: Reaction,
)
    requires
        id@ == "keep_display"@,
        exists|a: &mut AppState<B, C>|
            *a == pre && *final(a) == post && #[trigger] call_ensures(
                AppState::<B, C>::handle_menu_event,
                (a, id),
                reaction,
            ),
    ensures
        post@.keep_display == !pre@.keep_display,
        post@.default_duration_secs == pre@.default_duration_secs,
        post@.icon_active == pre@.icon_active,
        reaction matches Reaction::Refresh { checked, .. } && checked == Some(post@.keep_display),
        pre@.awake.active is None ==> post@.awake == pre@.awake && log_of(reaction) is None,
        pre@.awake.active matches Some((before, _)) ==> {
            &&& log_of(reaction) is None <==> post@.awake.active is Some
            &&& post@.awake.active matches Some((session, _)) ==> {
                &&& session.kind == before.kind
                &&& session.reason == before.reason
                &&& flags_by(post@.keep_display, session.flags)
            }
            &&& exists|result: Result<(), Error>, flags: Flags|
                {
                    &&& #[trigger] crate::session::manager_starts(
                        pre@.awake,
                        before.kind,
                        flags,
                        before.reason,
                        post@.awake,
                        result,
                    )
                    &&& flags_by(post@.keep_display, flags)
                    &&& match result {
                        Ok(_) => log_of(reaction) is None,
                        Err(e) => log_of(reaction) == Some(
                            "no-afk: could not re-apply display setting: "@ + crate::error_text(
                                e,
                            ),
                        ),
                    }
                }
        },
{
    lemma_commands(id@);
    let settings = Settings { keep_display: !pre@.keep_display, ..pre@.settings() };
    let what = "no-afk: could not re-apply display setting: "@;
    let result = choose|result: Result<(), Error>|
        {
            &&& crate::shell::settings_apply(pre@, settings, post@, result)
            &&& reaction@ == (crate::shell::ReactionView::Refresh {
                checked: Some(!pre@.keep_display),
                log: #[trigger] crate::shell::report_of(what, result),
            })
        };
    assert(log_of(reaction) == crate::shell::report_of(what, result));
    if let Some((before, _)) = pre@.awake.active {
        let flags = crate::shell::session_flags(!pre@.keep_display);
        crate::session::law_start_is_all_or_nothing(
            pre@.awake,
            before.kind,
            flags,
            before.reason,
            post@.awake,
            result,
        );
        assert(crate::session::manager_starts(
            pre@.awake,
            before.kind,
            flags,
            before.reason,
            post@.awake,
            result,
        ));
    }
}

/// The other clicks: Quit ends the session and leaves the app, the donation opens its address,
/// launching at login is switched over, and an id that is no item does nothing. None of them
/// changes anything else.
pub proof fn law_other_clicks<B: Backend, C: Clock>(
    pre: AppState<B, C>,
    id: &str,
    post: AppState<B, C>,
    reaction: Reaction,
)
    requires
        id@ != "toggle"@,
        id@ != "keep_display"@,
        forall|secs: Option<u64>| !(#[trigger] starts(id@, secs)),
        exists|a: &mut AppState<B, C>|
            *a == pre && *final(a) == post && #[trigger] call_ensures(
                AppState::<B, C>::handle_menu_event,
                (a, id),
                reaction,
            ),
    ensures
        id@ == "quit"@ ==> {
            &&& reaction is Exit
            &&& post@.awake.active is None
            &&& pre@.awake.active matches Some((_, handle)) ==> exists|result: Result<(), Error>|
                #[trigger]
                B::releases(pre@.awake.backend, handle, post@.awake.backend, result)
            &&& post@.settings() == pre@.settings()
        },
        id@ != "quit"@ ==> post@ == pre@,
        id@ == "donate"@ ==> reaction is OpenUrl && reaction->OpenUrl_0@
            == "https://ko-fi.com/irfanhodzic"@,
        id@ == "autostart"@ ==> reaction is ToggleAutostart,
        id@ != "quit"@ && id@ != "donate"@ && id@ != "autostart"@ ==> reaction is Nothing,
{
    lemma_commands(id@);
    let command = crate::shell::command_of(id@);
    if let Command::Start(secs) = command {
        assert(starts(id@, secs));
    }
    if command is Quit && pre@.awake.active is Some {
        let result = choose|result: Result<(), Error>| #[trigger]
            crate::session::manager_stops(pre@.awake, post@.awake, result);
        assert(B::releases(
            pre@.awake.backend,
            pre@.awake.active->Some_0.1,
            post@.awake.backend,
            result,
        ));
    }
}

// ---------------------------------------------------------------------------
// The shell
// ---------------------------------------------------------------------------

/// A new shell goes by the settings it is given, has pushed no icon, and leaves the manager as
/// it is; what it gives back as settings and as flags is what it goes by.
pub proof fn law_shell_goes_by_its_settings<B: Backend, C: Clock>(
    awake: Manager<B, C>,
    settings: Settings,
    new: AppState<B, C>,
    state: AppState<B, C>,
    now: Settings,
    flags: Flags,
)
    requires
        call_ensures(AppState::<B, C>::new, (awake, settings), new),
        call_ensures(AppState::<B, C>::settings, (&state,), now),
        call_ensures(AppState::<B, C>::flags, (&state,), flags),
    ensures
        new@.awake == awake@,
        new@.keep_display == settings.keep_display,
        new@.default_duration_secs == settings.default_duration_secs,
        new@.icon_active is None,
        now.keep_display == state@.keep_display,
        now.default_duration_secs == state@.default_duration_secs,
        flags_by(state@.keep_display, flags),
{
}

/// Settings that are applied are gone by from then on. A live session whose flags they change
/// goes on with its kind and reason under the new flags, or there is none and the error says
/// why; one that they do not change is left alone, and without a session none begins.
pub proof fn law_settings_are_applied<B: Backend, C: Clock>(
    pre: AppState<B, C>,
    settings: Settings,
    post: AppState<B, C>,
    result: Result<(), Error>,
)
    requires
        exists|a: &mut AppState<B, C>|
            *a == pre && *final(a) == post && #[trigger] call_ensures(
                AppState::<B, C>::apply_settings,
                (a, settings),
                result,
            ),
    ensures
        post@.keep_display == settings.keep_display,
        post@.default_duration_secs == settings.default_duration_secs,
        post@.icon_active == pre@.icon_active,
        pre@.awake.active is None ==> post@.awake == pre@.awake && result is Ok,
        pre@.awake.active matches Some((before, _)) ==> {
            &&& result is Ok <==> post@.awake.active is Some
            &&& post@.awake.active matches Some((session, _)) ==> {
                &&& session.kind == before.kind
                &&& session.reason == before.reason
                &&& flags_by(settings.keep_display, session.flags)
            }
            &&& settings.keep_display == pre@.keep_display && flags_by(
                settings.keep_display,
                before.flags,
            ) ==> post@.awake == pre@.awake
            &&& settings.keep_display != pre@.keep_display || !flags_by(
                settings.keep_display,
                before.flags,
            ) ==> exists|flags: Flags|
                flags_by(settings.keep_display, flags)
                    && #[trigger] crate::session::manager_starts(
                    pre@.awake,
                    before.kind,
                    flags,
                    before.reason,
                    post@.awake,
                    result,
                )
        },
{
    crate::shell::law_settings_reach_the_session(pre@, settings, post@, result);
    assert(flags_by(
        settings.keep_display,
        crate::shell::session_flags(settings.keep_display),
    ));
}

/// What is shown: whether there is a session, and how much of it is left by a reading of the
/// clock; what the toggle would do; and the icon, if it is not the one pushed last. Showing it
/// changes nothing but which icon was pushed.
pub proof fn law_what_is_shown<B: Backend, C: Clock>(
    pre: AppState<B, C>,
    post: AppState<B, C>,
    labels: Labels,
)
    requires
        exists|a: &mut AppState<B, C>|
            *a == pre && *final(a) == post && #[trigger] call_ensures(
                AppState::<B, C>::refresh,
                (a,),
                labels,
            ),
    ensures
        post@.awake == pre@.awake,
        post@.keep_display == pre@.keep_display,
        post@.default_duration_secs == pre@.default_duration_secs,
        post@.icon_active == Some(pre@.awake.active is Some),
        labels.icon is None <==> pre@.icon_active == Some(pre@.awake.active is Some),
        labels.icon matches Some(active) ==> active == (pre@.awake.active is Some),
        match pre@.awake.active {
            None => labels.status@ == "Asleep as usual"@ && labels.toggle@ == "Turn On"@,
            Some((session, _)) => labels.toggle@ == "Turn Off"@ && match session.kind {
                Kind::Indefinite => labels.status@ == "Awake — indefinitely"@,
                Kind::For(total) => exists|now: Instant, left: int, shown: Seq<char>|
                    {
                        &&& #[trigger] pre@.awake.clock.may_read(now)
                        &&& #[trigger] shows(shown, left / 1_000_000_000)
                        &&& labels.status@ == "Awake — "@ + shown + " left"@
                        &&& left == (if now@ < session.started@ {
                            total@ as int
                        } else if now@ <= session.started@ + total@ {
                            session.started@ + total@ - now@
                        } else {
                            0
                        })
                    },
            },
        },
{
    if let Some((session, _)) = pre@.awake.active {
        let now = choose|now: Instant| #[trigger]
            pre@.awake.clock.may_read(now) && labels.status@ == crate::shell::status_text(
                Some(session.remaining(now)),
            );
        if let Kind::For(total) = session.kind {
            let left = session.remaining(now)->Some_0;
            let shown = crate::shell::countdown_text(left / crate::time::NANOS_PER_SEC as nat);
            lemma_countdown_shows(left / crate::time::NANOS_PER_SEC as nat);
            assert(pre@.awake.clock.may_read(now) && shows(shown, left as int / 1_000_000_000));
        }
    }
}

/// The shell's tick reports an end exactly if its manager's does without failing; on the way out
/// the session is ended. Neither changes a setting.
pub proof fn law_shell_ticks_and_shuts_down<B: Backend, C: Clock>(
    pre: AppState<B, C>,
    ticked: AppState<B, C>,
    ended: bool,
    out: AppState<B, C>,
)
    requires
        exists|a: &mut AppState<B, C>|
            *a == pre && *final(a) == ticked && #[trigger] call_ensures(
                AppState::<B, C>::tick,
                (a,),
                ended,
            ),
        exists|a: &mut AppState<B, C>|
            *a == pre && *final(a) == out && #[trigger] call_ensures(
                AppState::<B, C>::shut_down,
                (a,),
                (),
            ),
    ensures
        ticked@.settings() == pre@.settings(),
        ticked@.icon_active == pre@.icon_active,
        ended ==> pre@.awake.active is Some && ticked@.awake.active is None && ({
            let session = pre@.awake.active->Some_0.0;
            &&& session.kind is For
            &&& exists|now: Instant| #[trigger]
                pre@.awake.clock.may_read(now) && (session.kind->For_0@ > 0 ==> now@
                    >= session.started@ + session.kind->For_0@)
        }),
        !ended && ticked@.awake.active is Some ==> ticked@.awake == pre@.awake,
        out@.settings() == pre@.settings(),
        out@.awake.active is None,
        pre@.awake.active matches Some((_, handle)) ==> exists|result: Result<(), Error>|
            #[trigger]
            B::releases(pre@.awake.backend, handle, out@.awake.backend, result),
{
    let result = choose|result: Result<(), Error>| #[trigger]
        crate::session::manager_stops(pre@.awake, out@.awake, result);
    if pre@.awake.active is Some {
        assert(B::releases(
            pre@.awake.backend,
            pre@.awake.active->Some_0.1,
            out@.awake.backend,
            result,
        ));
    }
}

/// Launching at login is switched on unless it is on.
pub proof fn law_autostart_is_switched_over(enabled: Option<bool>, enable: bool)
    requires
        call_ensures(crate::shell::autostart_target, (enabled,), enable),
    ensures
        enabled matches Some(on) ==> enable == !on,
        enabled is None ==> enable,
{
}

/// A number of seconds makes a session that lasts them.
pub proof fn law_kind_lasts_its_seconds(secs: Option<u64>, kind: Kind)
    requires
        call_ensures(crate::shell::kind_for, (secs,), kind),
    ensures
        lasts(kind, secs),
{
}

// ---------------------------------------------------------------------------
// The settings file
// ---------------------------------------------------------------------------

/// By default the display is kept on, indefinitely.
pub proof fn law_default_settings(settings: Settings)
    requires
        call_ensures(Settings::default, (), settings),
    ensures
        settings.keep_display,
        settings.default_duration_secs is None,
{
}

/// A load looks for the directory, reads the file, and has what the file holds decoded; an
/// ending comes to what it says, and an answer to something else changes nothing.
pub proof fn law_load_goes_on(
    begun: LoadRun,
    pre: LoadRun,
    answer: LoadAnswer,
    post: LoadRun,
    call: LoadCall,
)
    requires
        call_ensures(Settings::load, (), begun),
        call_ensures(LoadRun::next, (&pre,), call),
        exists|r: &mut LoadRun|
            *r == pre && *final(r) == post && #[trigger] call_ensures(
                LoadRun::answered,
                (r, answer),
                (),
            ),
    ensures
        begun@.due is Resolve && !(begun@.reading is Read) && !(begun@.reading is Corrupt),
        call is Resolve <==> pre@.due is Resolve,
        call is Read <==> pre@.due is Read,
        call is Nothing <==> pre@.due is Nothing,
        pre@.due matches LoadCallView::Decode(text) ==> call is Decode && call->Decode_0@ == text,
        pre@.due is Nothing ==> post@ == pre@,
        !(pre@.due is Nothing) ==> match answer {
            LoadAnswer::Ended(reading) => post@.due is Nothing && post@.reading == reading,
            LoadAnswer::Found => if pre@.due is Resolve {
                post@.due is Read && !(post@.reading is Read) && !(post@.reading is Corrupt)
            } else {
                post@ == pre@
            },
            LoadAnswer::Text(text) => if pre@.due is Read {
                post@.due == LoadCallView::Decode(text@) && post@.reading == pre@.reading
            } else {
                post@ == pre@
            },
        },
{
}

/// A load comes to the settings that were read, or else to the defaults, and reports exactly a
/// file that is not a settings file: which one, and why.
pub proof fn law_load_comes_to(run: LoadRun, outcome: (Settings, Option<String>))
    requires
        call_ensures(LoadRun::finish, (run,), outcome),
    ensures
        match run@.reading {
            FileReading::Read(settings) => outcome.0 == settings && outcome.1 is None,
            FileReading::Corrupt { path, err } => {
                &&& outcome.0 == (Settings { keep_display: true, default_duration_secs: None })
                &&& outcome.1 is Some
                &&& outcome.1->Some_0@ == "no-afk: ignoring unreadable "@ + path@ + ": "@ + err@
            },
            _ => outcome.0 == (Settings { keep_display: true, default_duration_secs: None })
                && outcome.1 is None,
        },
{
}

/// A save looks for the directory, makes it, has the settings encoded, and writes what they were
/// encoded as; the first fault ends it.
pub proof fn law_save_goes_on(
    settings: Settings,
    begun: SaveRun,
    pre: SaveRun,
    answer: Result<String, SaveFault>,
    post: SaveRun,
    call: SaveCall,
)
    requires
        call_ensures(Settings::save, (&settings,), begun),
        call_ensures(SaveRun::next, (&pre,), call),
        exists|r: &mut SaveRun|
            *r == pre && *final(r) == post && #[trigger] call_ensures(
                SaveRun::answered,
                (r, answer),
                (),
            ),
    ensures
        begun@.settings == settings && begun@.due is Resolve && begun@.fault is None,
        call@ == pre@.due,
        pre@.due matches SaveCallView::Encode(s) ==> call == SaveCall::Encode(s),
        pre@.due matches SaveCallView::Write(text) ==> call is Write && call->Write_0@ == text,
        post@.settings == pre@.settings,
        pre@.due is Nothing ==> post@ == pre@,
        !(pre@.due is Nothing) ==> match answer {
            Err(fault) => post@.due is Nothing && post@.fault == Some(fault),
            Ok(text) => post@.fault == pre@.fault && match pre@.due {
                SaveCallView::Resolve => post@.due is MakeDirectory,
                SaveCallView::MakeDirectory => post@.due == SaveCallView::Encode(pre@.settings),
                SaveCallView::Encode(_) => post@.due == SaveCallView::Write(text@),
                _ => post@.due is Nothing,
            },
        },
{
}

/// A save comes to success, or to a message that says what failed, and where there is a place,
/// where.
pub proof fn law_save_comes_to(run: SaveRun, result: Result<(), String>)
    requires
        call_ensures(SaveRun::finish, (run,), result),
    ensures
        result is Ok <==> run@.fault is None,
        run@.fault matches Some(fault) ==> result->Err_0@ == (match fault {
            SaveFault::NoDirectory => "could not resolve the config directory"@,
            SaveFault::Directory { dir, err } => dir@ + ": "@ + err@,
            SaveFault::Encoding { err } => err@,
            SaveFault::Write { path, err } => path@ + ": "@ + err@,
        }),
{
}

} // verus!
