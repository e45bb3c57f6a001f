//! macOS: what is asked of the kernel, in which order, and what is made of its answers.

use vstd::prelude::*;

use crate::macos::{
    AcquireCall, AcquireCallView, AcquireRun, ActivityCall, IoKitBackend, Property, PropertyView,
    ReleaseRun,
};
use crate::presence::{Keeper, NudgeCall, NudgeRun};
use crate::time::Duration;
use crate::{Error, Flags, Handle, HandleView, Platform, Request, RequestView, SystemAssertion};

verus! {

// ---------------------------------------------------------------------------
// Which assertions
// ---------------------------------------------------------------------------

/// 1 for a flag that is set, else 0.
pub open spec fn one_if(flag: bool) -> int {
    if flag {
        1
    } else {
        0
    }
}

/// How many flags are set.
pub open spec fn flags_set(flags: Flags) -> int {
    one_if(flags.display) + one_if(flags.system) + one_if(flags.disk)
}

/// The type of the `k`th assertion for these flags: the display's comes first, then the
/// system's, then the disk's, each if its flag is set.
pub open spec fn kth_type(flags: Flags, k: int) -> Seq<char> {
    if k < one_if(flags.display) {
        "PreventUserIdleDisplaySleep"@
    } else if k < one_if(flags.display) + one_if(flags.system) {
        "PreventUserIdleSystemSleep"@
    } else {
        "PreventDiskIdle"@
    }
}

/// Whether these are the types for the flags: one for each that is set, in order.
pub open spec fn types_for(flags: Flags, kinds: Seq<&'static str>) -> bool {
    &&& kinds.len() == flags_set(flags)
    &&& forall|k: int| 0 <= k < kinds.len() ==> (#[trigger] kinds[k])@ == kth_type(flags, k)
}

/// Each flag that is set calls for an assertion of its own type, and no other.
pub proof fn law_each_flag_has_its_type(flags: Flags, kinds: Vec<&'static str>)
    requires
        call_ensures(crate::macos::kinds_for, (flags,), kinds),
    ensures
        types_for(flags, kinds@),
{
}

/// Whether the dictionary is that of an assertion of type `kind`: its type, that it is on, its
/// name, and where there is a deadline, the deadline and that the kernel releases it then.
pub open spec fn describes(
    entries: Seq<(&'static str, PropertyView)>,
    kind: Seq<char>,
    name: Seq<char>,
    timeout: Option<Duration>,
) -> bool {
    &&& entries.len() == (if timeout is Some {
        5int
    } else {
        3
    })
    &&& entries[0] == ("AssertType", PropertyView::Text(kind))
    &&& entries[1] == ("AssertLevel", PropertyView::Number(255))
    &&& entries[2] == ("AssertName", PropertyView::Text(name))
    &&& timeout matches Some(t) ==> {
        &&& entries[3] == ("TimeoutSeconds", PropertyView::Seconds(t))
        &&& entries[4] == ("TimeoutAction", PropertyView::Text("TimeoutActionRelease"@))
    }
}

/// The dictionary of an assertion says what it is to be.
pub proof fn law_dictionary_describes_the_assertion(
    kind: &str,
    name: &str,
    timeout: Option<Duration>,
    entries: Vec<(&'static str, Property)>,
)
    requires
        call_ensures(crate::macos::assertion_properties, (kind, name, timeout), entries),
    ensures
        describes(crate::macos::properties_view(entries@), kind@, name@, timeout),
        forall|i: int|
            0 <= i < entries@.len() ==> match (#[trigger] entries@[i]).1 {
                Property::Text(t) => crate::macos::properties_view(entries@)[i]
                    == (entries@[i].0, PropertyView::Text(t@)),
                Property::Number(n) => crate::macos::properties_view(entries@)[i]
                    == (entries@[i].0, PropertyView::Number(n)),
                Property::Seconds(d) => crate::macos::properties_view(entries@)[i]
                    == (entries@[i].0, PropertyView::Seconds(d)),
            },
{
}

/// A creation went well exactly if its status is zero; its id is the kernel's. Else the status
/// is the error.
pub proof fn law_creation_goes_by_its_status(rc: i32, id: u32, result: Result<u32, Error>)
    requires
        call_ensures(crate::macos::create_assertion, (rc, id), result),
    ensures
        rc == 0 ==> result == Ok::<u32, Error>(id),
        rc != 0 ==> result == Err::<u32, Error>(
            Error::Os { call: "IOPMAssertionCreateWithProperties", code: rc as i64 },
        ),
{
}

/// The user can tell whose an assertion is, and why it is there.
pub proof fn law_assertion_is_named(reason: &str, name: String)
    requires
        call_ensures(crate::macos::name_assertion, (reason,), name),
    ensures
        name@ == "no-afk: "@ + reason@,
{
}

// ---------------------------------------------------------------------------
// Acquiring, step by step
// ---------------------------------------------------------------------------

/// An acquire begins with nothing created, and goes by the request's flags, reason and deadline.
pub proof fn law_acquire_begins(backend: IoKitBackend, req: Request, run: AcquireRun)
    requires
        call_ensures(IoKitBackend::acquire, (&backend, &req), run),
    ensures
        run@.name == "no-afk: "@ + req.reason@,
        run@.timeout == req.timeout,
        types_for(req.flags, run@.kinds),
        run@.ids.len() == 0,
        run@.failed is None,
        run@.undone == 0,
{
}

/// As long as no creation has failed, the assertion due is that of the next type; afterwards it
/// is the release of the next one created; and then nothing.
pub proof fn law_acquire_call_that_is_due(run: AcquireRun, call: AcquireCall)
    requires
        call_ensures(AcquireRun::next, (&run,), call),
    ensures
        run@.failed is None && run@.ids.len() < run@.kinds.len() ==> call@ is Create && describes(
            call@->Create_0,
            run@.kinds[run@.ids.len() as int]@,
            run@.name,
            run@.timeout,
        ),
        run@.failed is None && run@.ids.len() >= run@.kinds.len() ==> call@ is Nothing,
        run@.failed is Some && run@.undone < run@.ids.len() ==> call@
            == AcquireCallView::Release(run@.ids[run@.undone as int] as u32),
        run@.failed is Some && run@.undone >= run@.ids.len() ==> call@ is Nothing,
        call@ matches AcquireCallView::Create(entries) ==> call is Create && entries
            == crate::macos::properties_view(call->Create_0@),
        call@ matches AcquireCallView::Release(id) ==> call == AcquireCall::Release(id),
        call@ is Nothing ==> call is Nothing,
{
}

/// An id that the kernel created is kept; a creation that fails is the failure to report; and an
/// id that was released in a rollback is done with, whatever the kernel said.
pub proof fn law_acquire_answer_is_taken_in(pre: AcquireRun, rc: i32, id: u32, post: AcquireRun)
    requires
        exists|r: &mut AcquireRun|
            *r == pre && *final(r) == post && #[trigger] call_ensures(
                AcquireRun::answered,
                (r, rc, id),
                (),
            ),
    ensures
        post@.name == pre@.name,
        post@.timeout == pre@.timeout,
        post@.kinds == pre@.kinds,
        ({
            let creating = pre@.failed is None && pre@.ids.len() < pre@.kinds.len();
            let undoing = pre@.failed is Some && pre@.undone < pre@.ids.len();
            &&& post@.ids == (if creating && rc == 0 {
                pre@.ids.push(id as u64)
            } else {
                pre@.ids
            })
            &&& post@.failed == (if creating && rc != 0 {
                Some(Error::Os { call: "IOPMAssertionCreateWithProperties", code: rc as i64 })
            } else {
                pre@.failed
            })
            &&& post@.undone == pre@.undone + one_if(undoing)
        }),
{
}

/// An acquire comes to its failure, or else to what was created, timed if it has a deadline.
pub proof fn law_acquire_comes_to(run: AcquireRun, result: Result<Handle, Error>)
    requires
        call_ensures(AcquireRun::finish, (run,), result),
    ensures
        match run@.failed {
            Some(e) => result == Err::<Handle, Error>(e),
            None => {
                &&& result is Ok
                &&& result->Ok_0.ids@ == run@.ids
                &&& result->Ok_0.timed <==> run@.timeout is Some
            },
        },
{
}

// ---------------------------------------------------------------------------
// Acquiring, as a whole
// ---------------------------------------------------------------------------

/// The dictionaries of the creations that were asked of the kernel on the way, in order.
pub open spec fn creations(req: RequestView, answers: Seq<(i32, u32)>) -> Seq<
    Seq<(&'static str, PropertyView)>,
>
    decreases answers.len(),
{
    if answers.len() == 0 {
        Seq::empty()
    } else {
        let before = creations(req, answers.drop_last());
        match crate::macos::acquire_after(req, answers.drop_last()).next() {
            AcquireCallView::Create(entries) => before.push(entries),
            _ => before,
        }
    }
}

proof fn lemma_creations(req: RequestView, answers: Seq<(i32, u32)>)
    ensures
        ({
            let asked = creations(req, answers);
            let run = crate::macos::acquire_after(req, answers);
            &&& asked.len() == run.ids.len() + one_if(run.failed is Some)
            &&& asked.len() <= flags_set(req.flags)
            &&& forall|k: int|
                0 <= k < asked.len() ==> describes(
                    #[trigger] asked[k],
                    kth_type(req.flags, k),
                    "no-afk: "@ + req.reason,
                    req.timeout,
                )
        }),
    decreases answers.len(),
{
    crate::macos::lemma_acquire_course(req, answers);
    crate::macos::law_one_assertion_per_flag(req.flags);
    if answers.len() > 0 {
        lemma_creations(req, answers.drop_last());
        crate::macos::lemma_acquire_course(req, answers.drop_last());
        let run = crate::macos::acquire_after(req, answers.drop_last());
        assert(types_for(req.flags, run.kinds));
        if run.next() is Create {
            let k = run.ids.len() as int;
            assert(run.kinds[k]@ == kth_type(req.flags, k));
            assert(describes(
                run.next()->Create_0,
                kth_type(req.flags, k),
                "no-afk: "@ + req.reason,
                req.timeout,
            ));
        }
    }
}

/// Whatever the kernel answers, the `k`th creation asked of it is of the type of the `k`th flag
/// that is set, is on, goes by the request's reason, and has the request's deadline if there is
/// one. An acquire that succeeds has asked for as many as there are flags: one for the display
/// exactly if its flag is set, and so for the system and the disk.
pub proof fn law_kernel_is_asked_for_each_flag(req: RequestView, answers: Seq<(i32, u32)>)
    ensures
        ({
            let asked = creations(req, answers);
            let run = crate::macos::acquire_after(req, answers);
            &&& forall|k: int|
                0 <= k < asked.len() ==> describes(
                    #[trigger] asked[k],
                    kth_type(req.flags, k),
                    "no-afk: "@ + req.reason,
                    req.timeout,
                )
            &&& asked.len() <= flags_set(req.flags)
            &&& run.next() is Nothing && run.result() is Ok ==> asked.len() == flags_set(req.flags)
            &&& run.next() is Nothing && run.result() is Ok ==> {
                &&& req.flags.display <==> exists|k: int|
                    0 <= k < asked.len() && (#[trigger] asked[k])[0] == (
                        "AssertType",
                        PropertyView::Text("PreventUserIdleDisplaySleep"@),
                    )
                &&& req.flags.system <==> exists|k: int|
                    0 <= k < asked.len() && (#[trigger] asked[k])[0] == (
                        "AssertType",
                        PropertyView::Text("PreventUserIdleSystemSleep"@),
                    )
                &&& req.flags.disk <==> exists|k: int|
                    0 <= k < asked.len() && (#[trigger] asked[k])[0] == (
                        "AssertType",
                        PropertyView::Text("PreventDiskIdle"@),
                    )
            }
        }),
{
    lemma_creations(req, answers);
    crate::macos::lemma_acquire_course(req, answers);
    crate::macos::law_one_assertion_per_flag(req.flags);
    let asked = creations(req, answers);
    let run = crate::macos::acquire_after(req, answers);
    reveal_strlit("PreventUserIdleDisplaySleep");
    reveal_strlit("PreventUserIdleSystemSleep");
    reveal_strlit("PreventDiskIdle");
    assert("PreventUserIdleDisplaySleep"@.len() == 27);
    assert("PreventUserIdleSystemSleep"@.len() == 26);
    assert("PreventDiskIdle"@.len() == 15);
    if run.next() is Nothing && run.result() is Ok {
        let d = one_if(req.flags.display);
        let s = one_if(req.flags.system);
        assert(forall|k: int|
            0 <= k < asked.len() ==> (#[trigger] asked[k])[0] == (
                "AssertType",
                PropertyView::Text(kth_type(req.flags, k)),
            ));
        if req.flags.display {
            assert(kth_type(req.flags, 0) == "PreventUserIdleDisplaySleep"@);
            assert(asked[0][0].1 == PropertyView::Text("PreventUserIdleDisplaySleep"@));
        }
        if req.flags.system {
            assert(kth_type(req.flags, d) == "PreventUserIdleSystemSleep"@);
            assert(asked[d][0].1 == PropertyView::Text("PreventUserIdleSystemSleep"@));
        }
        if req.flags.disk {
            assert(kth_type(req.flags, d + s) == "PreventDiskIdle"@);
            assert(asked[d + s][0].1 == PropertyView::Text("PreventDiskIdle"@));
        }
    }
}

/// An acquire fails exactly if one of its creations does, and reports the status of the first
/// that did; it has then handed back exactly the ids that were created, in the same order.
pub proof fn law_failed_acquire_holds_nothing(req: RequestView, answers: Seq<(i32, u32)>, k: int)
    requires
        answers.len() >= 2 * flags_set(req.flags),
        0 <= k < flags_set(req.flags),
        answers[k].0 != 0,
        forall|j: int| 0 <= j < k ==> (#[trigger] answers[j]).0 == 0,
    ensures
        crate::macos::acquire_after(req, answers).next() is Nothing,
        crate::macos::acquire_after(req, answers).result() == Err::<HandleView, Error>(
            Error::Os {
                call: "IOPMAssertionCreateWithProperties",
                code: answers[k].0 as i64,
            },
        ),
        crate::macos::returned_ids(req, answers) == Seq::new(k as nat, |j: int| answers[j].1),
{
    crate::macos::law_acquire_rolls_back(req, answers);
    crate::macos::lemma_acquire_course(req, answers);
    lemma_first_ids(req, answers, k);
    let created = crate::macos::created_ids(req, answers);
    let run = crate::macos::acquire_after(req, answers);
    assert(run.result() is Err);
    assert(created.len() == k) by {
        if created.len() < k {
            assert(answers[created.len() as int].0 == 0);
        }
        if created.len() > k {
            assert(answers[k].0 == crate::macos::KERN_SUCCESS);
        }
    }
    assert(created =~= Seq::new(k as nat, |j: int| answers[j].1));
}

/// The ids created are those of the answers, one by one.
proof fn lemma_first_ids(req: RequestView, answers: Seq<(i32, u32)>, k: int)
    ensures
        forall|i: int|
            0 <= i < crate::macos::created_ids(req, answers).len() ==> i < answers.len()
                && #[trigger] crate::macos::created_ids(req, answers)[i] == answers[i].1,
    decreases answers.len(),
{
    if answers.len() > 0 {
        let before = answers.drop_last();
        lemma_first_ids(req, before, k);
        crate::macos::lemma_acquire_course(req, before);
        assert(forall|i: int| 0 <= i < before.len() ==> before[i] == answers[i]);
    }
}

/// An acquire whose creations all go well holds the ids that the kernel gave, in order, and has
/// handed none back.
pub proof fn law_acquire_holds_what_was_created(req: RequestView, answers: Seq<(i32, u32)>)
    requires
        answers.len() >= 2 * flags_set(req.flags),
        forall|j: int| 0 <= j < flags_set(req.flags) ==> (#[trigger] answers[j]).0 == 0,
    ensures
        crate::macos::acquire_after(req, answers).next() is Nothing,
        crate::macos::acquire_after(req, answers).result() is Ok,
        crate::macos::acquire_after(req, answers).result()->Ok_0.ids == Seq::new(
            flags_set(req.flags) as nat,
            |j: int| answers[j].1 as u64,
        ),
        crate::macos::acquire_after(req, answers).result()->Ok_0.timed <==> req.timeout is Some,
        crate::macos::returned_ids(req, answers).len() == 0,
{
    crate::macos::law_acquire_rolls_back(req, answers);
    lemma_first_ids(req, answers, 0);
    let held = crate::macos::acquire_after(req, answers).result()->Ok_0.ids;
    assert(held =~= Seq::new(flags_set(req.flags) as nat, |j: int| answers[j].1 as u64));
}

// ---------------------------------------------------------------------------
// Releasing
// ---------------------------------------------------------------------------

/// Whether the status of a release stands for nothing held any more: success, or an unknown id
/// where the kernel may have released it at the deadline.
pub open spec fn let_pass(rc: i32, timed: bool) -> bool {
    rc == 0 || (timed && rc == -536870206)
}

/// A release begins with no id tried.
pub proof fn law_release_begins(backend: IoKitBackend, handle: Handle, run: ReleaseRun)
    requires
        call_ensures(IoKitBackend::release, (&backend, &handle), run),
    ensures
        run@.handle.ids == handle.ids@,
        run@.handle.timed == handle.timed,
        run@.tried == 0,
        run@.first_err is None,
{
}

/// The id due is the next that was not tried yet.
pub proof fn law_release_id_that_is_due(run: ReleaseRun, id: Option<u32>)
    requires
        call_ensures(ReleaseRun::next, (&run,), id),
    ensures
        id is Some <==> run@.tried < run@.handle.ids.len(),
        id matches Some(id) ==> id == run@.handle.ids[run@.tried as int] as u32,
{
}

/// An answer is counted, and is the error if it is the first that does not pass.
pub proof fn law_release_answer_is_taken_in(pre: ReleaseRun, rc: i32, post: ReleaseRun)
    requires
        exists|r: &mut ReleaseRun|
            *r == pre && *final(r) == post && #[trigger] call_ensures(
                ReleaseRun::answered,
                (r, rc),
                (),
            ),
    ensures
        post@.handle == pre@.handle,
        pre@.tried >= pre@.handle.ids.len() ==> post@ == pre@,
        pre@.tried < pre@.handle.ids.len() ==> {
            &&& post@.tried == pre@.tried + 1
            &&& post@.first_err == (if pre@.first_err is None && !let_pass(
                rc,
                pre@.handle.timed,
            ) {
                Some(Error::Os { call: "IOPMAssertionRelease", code: rc as i64 })
            } else {
                pre@.first_err
            })
        },
{
}

/// A release comes to its first error, or to success.
pub proof fn law_release_comes_to(run: ReleaseRun, result: Result<(), Error>)
    requires
        call_ensures(ReleaseRun::finish, (run,), result),
    ensures
        match run@.first_err {
            Some(e) => result == Err::<(), Error>(e),
            None => result is Ok,
        },
{
}

/// A release of a handle hands every id to the kernel, in order, and succeeds exactly if every
/// status passes; else it reports the first that does not.
pub proof fn law_release_by_its_statuses(handle: HandleView, statuses: Seq<i32>)
    requires
        statuses.len() == handle.ids.len(),
    ensures
        crate::macos::release_after(handle, statuses).next() is None,
        crate::macos::tried_ids(handle, statuses) == Seq::new(
            handle.ids.len(),
            |i: int| handle.ids[i] as u32,
        ),
        crate::macos::release_after(handle, statuses).result() is Ok <==> forall|i: int|
            0 <= i < statuses.len() ==> let_pass(#[trigger] statuses[i], handle.timed),
        forall|k: int|
            0 <= k < statuses.len() && !let_pass(#[trigger] statuses[k], handle.timed) && (forall|
                j: int,
            |
                0 <= j < k ==> let_pass(#[trigger] statuses[j], handle.timed))
                ==> crate::macos::release_after(handle, statuses).result() == Err::<(), Error>(
                Error::Os { call: "IOPMAssertionRelease", code: statuses[k] as i64 },
            ),
{
    crate::macos::lemma_release_course(handle, statuses);
    assert(forall|rc: i32|
        #![auto]
        let_pass(rc, handle.timed) <==> crate::macos::tolerated(rc, handle.timed));
    assert forall|k: int|
        0 <= k < statuses.len() && !let_pass(#[trigger] statuses[k], handle.timed) && (forall|
            j: int,
        |
            0 <= j < k ==> let_pass(#[trigger] statuses[j], handle.timed)) implies
        crate::macos::release_after(handle, statuses).result() == Err::<(), Error>(
        Error::Os { call: "IOPMAssertionRelease", code: statuses[k] as i64 },
    ) by {
        assert(crate::macos::first_fault(statuses, handle.timed, k));
    }
}

// ---------------------------------------------------------------------------
// User activity
// ---------------------------------------------------------------------------

/// User activity is declared for the local user, by name, and with the id that was kept.
pub proof fn law_activity_is_declared_with_the_kept_id(
    backend: IoKitBackend,
    reason: &str,
    call: ActivityCall,
)
    requires
        call_ensures(IoKitBackend::user_activity, (&backend, reason), call),
    ensures
        call.name@ == "no-afk: "@ + reason@,
        call.user_type == 0,
        call.id == backend.user_activity_id,
{
}

/// The id of a declaration that went well is kept; one that failed changes nothing, and its
/// status is the error.
pub proof fn law_activity_answer_is_kept(
    pre: IoKitBackend,
    rc: i32,
    id: u32,
    post: IoKitBackend,
    result: Result<(), Error>,
)
    requires
        exists|b: &mut IoKitBackend|
            *b == pre && *final(b) == post && #[trigger] call_ensures(
                IoKitBackend::declare_user_activity,
                (b, rc, id),
                result,
            ),
    ensures
        rc == 0 ==> result is Ok && post.user_activity_id == id,
        rc != 0 ==> post.user_activity_id == pre.user_activity_id && result == Err::<(), Error>(
            Error::Os { call: "IOPMAssertionDeclareUserActivity", code: rc as i64 },
        ),
{
}

/// The system's list is not made up.
pub proof fn law_system_list_is_an_error(
    backend: IoKitBackend,
    result: Result<Vec<SystemAssertion>, Error>,
)
    requires
        call_ensures(IoKitBackend::system_assertions, (&backend,), result),
    ensures
        result is Err,
        result->Err_0 == Error::Unsupported("system_assertions"),
{
}

// ---------------------------------------------------------------------------
// Presence
// ---------------------------------------------------------------------------

/// A nudge is allowed exactly if the grant is there, the screen is not locked, and the machine
/// has been idle for the threshold or longer.
pub proof fn law_nudge_is_allowed(
    trusted: bool,
    screen_locked: bool,
    idle: Duration,
    threshold: Duration,
    allowed: bool,
)
    requires
        call_ensures(
            crate::presence::should_nudge,
            (trusted, screen_locked, idle, threshold),
            allowed,
        ),
    ensures
        allowed <==> trusted && !screen_locked && idle@ >= threshold@,
{
}

/// The readings count on macOS only, and there as they are.
pub proof fn law_readings(
    platform: Platform,
    granted: bool,
    reading: Option<Duration>,
    session: Option<Option<bool>>,
    trusted: bool,
    idle: Duration,
    locked: bool,
    prompt: Option<&'static str>,
)
    requires
        call_ensures(crate::presence::is_trusted, (platform, granted), trusted),
        call_ensures(crate::presence::idle, (platform, reading), idle),
        call_ensures(crate::presence::screen_locked, (platform, session), locked),
        call_ensures(crate::presence::request_trust, (platform,), prompt),
    ensures
        !(platform is MacOs) ==> !trusted && idle@ == 0 && !locked && prompt is None,
        platform is MacOs ==> {
            &&& trusted == granted
            &&& match reading {
                Some(d) => idle@ == d@,
                None => idle@ == 0,
            }
            &&& locked <==> session is Some && session->Some_0 is Some
                && session->Some_0->Some_0
            &&& prompt == Some("AXTrustedCheckOptionPrompt")
        },
{
}

/// A nudge can begin only on macOS and only with the grant, and then with the source of the
/// event; else the error says which is missing.
pub proof fn law_nudge_begins(
    platform: Platform,
    trusted: bool,
    run: Result<NudgeRun, Error>,
    posted: Result<NudgeRun, Error>,
)
    requires
        call_ensures(crate::presence::nudge, (platform, trusted), run),
        call_ensures(crate::presence::post_nudge, (platform, trusted), posted),
    ensures
        run == posted,
        run is Ok <==> platform is MacOs && trusted,
        run matches Ok(r) ==> r.due is CreateSource && !r.source && !r.failed,
        platform is MacOs && !trusted ==> run == Err::<NudgeRun, Error>(
            Error::Unsupported("Accessibility permission has not been granted"),
        ),
        !(platform is MacOs) ==> run == Err::<NudgeRun, Error>(
            Error::Unsupported("presence nudging is macOS-only so far"),
        ),
{
}

/// A nudge goes on by what its last call came back with: source, key down, key up, each created
/// and then posted, and the source released at the end if there is one.
pub proof fn law_nudge_goes_on(pre: NudgeRun, something: bool, post: NudgeRun)
    requires
        exists|r: &mut NudgeRun|
            *r == pre && *final(r) == post && #[trigger] call_ensures(
                NudgeRun::answered,
                (r, something),
                (),
            ),
    ensures
        post.source == (if pre.due is CreateSource {
            something
        } else {
            pre.source
        }),
        post.failed == (pre.failed || (pre.due is CreateKey && !something)),
        match pre.due {
            NudgeCall::CreateSource => post.due == (NudgeCall::CreateKey { down: true }),
            NudgeCall::CreateKey { down } => if something {
                post.due == (NudgeCall::PostKey { down })
            } else {
                post.due == ending(pre.source)
            },
            NudgeCall::PostKey { down } => if down {
                post.due == (NudgeCall::CreateKey { down: false })
            } else {
                post.due == ending(pre.source)
            },
            _ => post.due is Nothing,
        },
{
}

/// What is left to do at the end of a nudge.
pub open spec fn ending(source: bool) -> NudgeCall {
    if source {
        NudgeCall::ReleaseSource
    } else {
        NudgeCall::Nothing
    }
}

/// A nudge failed exactly if an event could not be created.
pub proof fn law_nudge_comes_to(run: NudgeRun, result: Result<(), Error>)
    requires
        call_ensures(NudgeRun::finish, (&run,), result),
    ensures
        run.failed ==> result == Err::<(), Error>(
            Error::Os { call: "CGEventCreateKeyboardEvent", code: 0 },
        ),
        !run.failed ==> result is Ok,
{
}

/// A tick nudges exactly if that is allowed by the keeper's threshold; it says so if the nudge
/// succeeded, and hands its error on if it failed.
pub proof fn law_keeper_nudges_when_allowed<F: FnOnce() -> Result<(), Error>>(
    keeper: Keeper,
    trusted: bool,
    screen_locked: bool,
    idle: Duration,
    nudge: F,
    result: Result<bool, Error>,
)
    requires
        call_ensures(
            Keeper::tick::<F>,
            (&keeper, trusted, screen_locked, idle, nudge),
            result,
        ),
    ensures
        !(trusted && !screen_locked && idle@ >= keeper.threshold@) ==> result
            == Ok::<bool, Error>(false),
        trusted && !screen_locked && idle@ >= keeper.threshold@ ==> exists|
            nudged: Result<(), Error>,
        | #[trigger]
            call_ensures(nudge, (), nudged) && match nudged {
                Ok(_) => result == Ok::<bool, Error>(true),
                Err(e) => result == Err::<bool, Error>(e),
            },
{
}

/// By default the machine must have been idle for two minutes.
pub proof fn law_default_threshold_is_two_minutes(keeper: Keeper)
    requires
        call_ensures(Keeper::default, (), keeper),
    ensures
        keeper.threshold@ == 2 * 60 * 1_000_000_000,
{
}

} // verus!
