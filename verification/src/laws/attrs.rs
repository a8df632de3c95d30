//! Runs that change and check attributes.

use crate::config::Timeout;
use crate::errno::{EACCES, EBADF, EINVAL, FsError};
use crate::host::{Action, Reply};
use crate::laws::run::{answer, asked, host_error, is_run, lemma_step, lemma_steps, linux_error};
use crate::linux::{SETATTR_ATIME, SETATTR_ATIME_NOW, SETATTR_GID, SETATTR_MODE, SETATTR_MTIME};
use crate::linux::{SETATTR_MTIME_NOW, SETATTR_SIZE, SETATTR_UID};
use crate::operation::Step;
use crate::ops::attrs::{access, setattr, Access, Setattr, SetattrPhase};
use crate::override_stat::{without_suid_sgid, OverrideStat};
use crate::stat::{access_granted, Context, Stat64};
use crate::time::is_unix_time;
use crate::win::{GENERIC_READ, GENERIC_WRITE};
use vstd::prelude::*;

verus! {

/// Whether the guest wants an attribute to be set.
pub open spec fn wants(valid: u32, attribute: u32) -> bool {
    valid & attribute == attribute
}

/// Whether the guest wants the user or the group to be set.
pub open spec fn wants_owner(valid: u32) -> bool {
    valid & (SETATTR_UID | SETATTR_GID) != 0
}

/// Whether the guest wants a time to be set.
pub open spec fn wants_times(valid: u32) -> bool {
    valid & (SETATTR_ATIME | SETATTR_MTIME | SETATTR_ATIME_NOW | SETATTR_MTIME_NOW) != 0
}

/// The recorded user: the one that the guest wants, or the one that was recorded.
pub open spec fn new_uid(o: OverrideStat, attr: Stat64, valid: u32) -> Option<u32> {
    if wants(valid, SETATTR_UID) {
        Some(attr.st_uid)
    } else {
        o.uid
    }
}

/// The recorded group: the one that the guest wants, or the one that was recorded.
pub open spec fn new_gid(o: OverrideStat, attr: Stat64, valid: u32) -> Option<u32> {
    if wants(valid, SETATTR_GID) {
        Some(attr.st_gid)
    } else {
        o.gid
    }
}

/// A mode without its set-id bits, if there is one.
pub open spec fn stripped(mode: Option<u32>) -> Option<u32> {
    match mode {
        Some(m) => Some(without_suid_sgid(m)),
        None => None,
    }
}

/// The recorded mode before a new size counts: the one that the guest wants, or the one that was
/// recorded, without its set-id bits if the owner changes.
pub open spec fn unsized_mode(o: OverrideStat, attr: Stat64, valid: u32) -> Option<u32> {
    if wants(valid, SETATTR_MODE) {
        Some(attr.st_mode)
    } else if wants_owner(valid) {
        stripped(o.mode)
    } else {
        o.mode
    }
}

/// The recorded mode: a new size removes set-id bits.
pub open spec fn new_mode(o: OverrideStat, attr: Stat64, valid: u32) -> Option<u32> {
    if wants(valid, SETATTR_SIZE) {
        stripped(unsized_mode(o, attr, valid))
    } else {
        unsized_mode(o, attr, valid)
    }
}

/// Whether there is something to record.
pub open spec fn is_recorded(o: OverrideStat, attr: Stat64, valid: u32) -> bool {
    wants(valid, SETATTR_MODE) || wants_owner(valid) || new_mode(o, attr, valid) != unsized_mode(
        o,
        attr,
        valid,
    )
}

/// Whether a word counts a number in two's complement.
pub open spec fn is_word_of(word: u64, n: int) -> bool {
    word == n || word == n + 0x1_0000_0000_0000_0000
}

/// A time that is set: the host's, if the guest wants that, else the guest's, if it gives one.
/// The host counts tenths of microseconds since the year 1601, which are 116444736000000000 more
/// than since 1970.
pub open spec fn is_time(
    ft: Option<u64>,
    now: bool,
    given: bool,
    now_secs: i64,
    now_nsec: u32,
    secs: i64,
    nsec: u32,
) -> bool {
    if now {
        ft matches Some(t) && is_word_of(
            t,
            now_secs * 10_000_000 + now_nsec as int / 100 + 116_444_736_000_000_000,
        )
    } else if given {
        ft matches Some(t) && is_word_of(
            t,
            secs * 10_000_000 + nsec as int / 100 + 116_444_736_000_000_000,
        )
    } else {
        ft is None
    }
}

/// What the host may be asked for, as the `i`-th action, when attributes are set.
pub open spec fn may_ask(
    steps: Seq<Step<Setattr>>,
    i: int,
    number: u64,
    attr: Stat64,
    fh: Option<u64>,
    valid: u32,
) -> bool {
    let path = steps[0].fs_before.inodes@[number].path@;
    let o = steps[1].reply->Override_0;
    match asked(steps, i) {
        Some(Action::ReadOverride { path: p }) => i == 0 && p@ == path,
        Some(Action::RemoveCapability { path: p }) => {
            p@ == path && (wants_owner(valid) || wants(valid, SETATTR_SIZE))
        },
        Some(Action::IsReadOnly { handle }) => wants(valid, SETATTR_SIZE) && fh == Some(handle),
        Some(Action::OpenWrite { path: p }) => {
            wants(valid, SETATTR_SIZE) && fh is None && p@ == path
        },
        Some(Action::Reopen { inode, handle, desired_access }) => {
            &&& wants(valid, SETATTR_SIZE)
            &&& fh == Some(handle)
            &&& inode == number
            &&& desired_access == GENERIC_READ | GENERIC_WRITE
            &&& answer(steps, i - 1) == Reply::Flag(false)
        },
        Some(Action::SetLength { handle, length }) => {
            &&& wants(valid, SETATTR_SIZE)
            &&& answer(steps, i - 1) == Reply::Handle(handle)
            &&& attr.st_size >= 0 ==> length == attr.st_size
            &&& is_word_of(length, attr.st_size as int)
        },
        Some(Action::Close { handle }) => {
            asked(steps, i - 1) matches Some(Action::SetLength { handle: h, .. }) && h == handle
        },
        Some(Action::WriteOverride { path: p, owner, mode }) => {
            &&& p@ == path
            &&& is_recorded(o, attr, valid)
            &&& match (new_uid(o, attr, valid), new_gid(o, attr, valid)) {
                (Some(u), Some(g)) => owner == Some((u, g)),
                _ => owner is None,
            }
            &&& mode == new_mode(o, attr, valid)
        },
        Some(Action::Now) => wants_times(valid),
        Some(Action::SetFileTimes { path: p, atime, mtime }) => {
            &&& p@ == path
            &&& wants_times(valid)
            &&& asked(steps, i - 1) == Some(Action::Now)
            &&& answer(steps, i - 1) matches Reply::Time { secs, nsec }
            &&& is_time(
                atime,
                wants(valid, SETATTR_ATIME_NOW),
                wants(valid, SETATTR_ATIME),
                secs,
                nsec,
                attr.st_atime,
                attr.st_atime_nsec,
            )
            &&& is_time(
                mtime,
                wants(valid, SETATTR_MTIME_NOW),
                wants(valid, SETATTR_MTIME),
                secs,
                nsec,
                attr.st_mtime,
                attr.st_mtime_nsec,
            )
        },
        Some(Action::Getattr { inode, handle }) => inode == number && handle == fh,
        Some(_) => false,
        None => true,
    }
}

/// Whether an action before the `i`-th gave the file its new size, and its capabilities were
/// removed after it.
pub open spec fn was_sized(steps: Seq<Step<Setattr>>, i: int) -> bool {
    exists|j: int|
        0 <= j && j + 2 < i && (#[trigger] asked(steps, j)) is Some && asked(steps, j)->Some_0
            is SetLength && answer(steps, j) == Reply::Unit && asked(steps, j + 2) is Some && asked(
            steps,
            j + 2,
        )->Some_0 is RemoveCapability
}

/// Whether an action before the `i`-th recorded owner and mode.
pub open spec fn was_recorded(steps: Seq<Step<Setattr>>, i: int) -> bool {
    exists|j: int|
        0 <= j < i && (#[trigger] asked(steps, j)) is Some && asked(steps, j)->Some_0
            is WriteOverride && answer(steps, j) == Reply::Unit
}

/// Whether an action before the `i`-th set the times.
pub open spec fn was_timed(steps: Seq<Step<Setattr>>, i: int) -> bool {
    exists|j: int|
        0 <= j < i && (#[trigger] asked(steps, j)) is Some && asked(steps, j)->Some_0
            is SetFileTimes && answer(steps, j) == Reply::Unit
}

/// Where setting attributes has come to before the `i`-th step.
spec fn has_come_to(
    steps: Seq<Step<Setattr>>,
    i: int,
    number: u64,
    attr: Stat64,
    fh: Option<u64>,
    valid: u32,
) -> bool {
    let op = steps[i].before;
    let path = steps[0].fs_before.inodes@[number].path@;
    let o = steps[1].reply->Override_0;
    let late = op.phase is Recording || op.phase is Timing || op.phase is SettingTimes
        || op.phase is Getting;
    &&& op.inode == number
    &&& op.attr == attr
    &&& op.handle == fh
    &&& op.valid == valid
    &&& i == 0 <==> op.phase is Start
    &&& op.phase !is Over
    &&& i > 0 ==> op.path@ == path && asked(steps, i - 1) is Some
    &&& i == 1 <==> op.phase is Reading
    &&& i > 1 ==> {
        &&& steps[1].reply is Override
        &&& op.record.uid == new_uid(o, attr, valid)
        &&& op.record.gid == new_gid(o, attr, valid)
        &&& late ==> op.record.mode == new_mode(o, attr, valid)
        &&& late ==> op.changed == is_recorded(o, attr, valid)
        &&& !late ==> op.record.mode == unsized_mode(o, attr, valid)
        &&& !late ==> op.changed == (wants(valid, SETATTR_MODE) || wants_owner(valid))
    }
    &&& op.phase is Stripping ==> wants_owner(valid)
    &&& i > 1 && !(op.phase is Stripping) && !late ==> wants(valid, SETATTR_SIZE)
    &&& op.phase matches SetattrPhase::Checking { handle } ==> asked(steps, i - 1) == Some(
        Action::IsReadOnly { handle },
    ) && fh == Some(handle)
    &&& op.phase is Opening ==> (asked(steps, i - 1)->Some_0 is Reopen || asked(
        steps,
        i - 1,
    )->Some_0 is OpenWrite)
    &&& op.phase matches SetattrPhase::Resizing { file } ==> (asked(steps, i - 1) matches Some(
        Action::SetLength { handle, .. },
    ) && handle == file)
    &&& op.phase matches SetattrPhase::Closing { failed } ==> {
        &&& i >= 2
        &&& asked(steps, i - 1)->Some_0 is Close
        &&& asked(steps, i - 2) is Some && asked(steps, i - 2)->Some_0 is SetLength
        &&& match failed {
            None => answer(steps, i - 2) == Reply::Unit,
            Some(e) => answer(steps, i - 2) matches Reply::Failed(f) && e == host_error(f),
        }
    }
    &&& op.phase is SizeStripping ==> {
        &&& i >= 3
        &&& asked(steps, i - 3) is Some && asked(steps, i - 3)->Some_0 is SetLength
        &&& answer(steps, i - 3) == Reply::Unit
        &&& asked(steps, i - 1)->Some_0 is RemoveCapability
    }
    &&& late && wants(valid, SETATTR_SIZE) ==> was_sized(steps, i)
    &&& op.phase is Recording ==> asked(steps, i - 1)->Some_0 is WriteOverride
    &&& late && !(op.phase is Recording) && is_recorded(o, attr, valid) ==> was_recorded(steps, i)
    &&& op.phase is Timing ==> asked(steps, i - 1) == Some(Action::Now)
    &&& op.phase is SettingTimes ==> asked(steps, i - 1)->Some_0 is SetFileTimes
    &&& op.phase is Getting ==> asked(steps, i - 1)->Some_0 is Getattr
    &&& op.phase is Getting && wants_times(valid) ==> was_timed(steps, i)
}

proof fn lemma_was_kept(steps: Seq<Step<Setattr>>, i: int)
    ensures
        was_sized(steps, i) ==> was_sized(steps, i + 1),
        was_recorded(steps, i) ==> was_recorded(steps, i + 1),
        was_timed(steps, i) ==> was_timed(steps, i + 1),
{
}

proof fn lemma_has_come_to(
    steps: Seq<Step<Setattr>>,
    out: Result<(Stat64, Timeout), FsError>,
    i: int,
    number: u64,
    attr: Stat64,
    fh: Option<u64>,
    valid: u32,
)
    requires
        call_ensures(setattr, (number, attr, fh, valid), steps[0].before),
        is_run(steps, out),
        steps[0].fs_before.inodes@.contains_key(number),
        0 <= i < steps.len(),
    ensures
        has_come_to(steps, i, number, attr, fh, valid),
    decreases i,
{
    if i > 0 {
        lemma_has_come_to(steps, out, i - 1, number, attr, fh, valid);
        lemma_step(steps, i - 1);
        lemma_step(steps, i);
        lemma_was_kept(steps, i - 1);
        let j = i - 1;
        let s = steps[j];
        if s.before.phase is SizeStripping {
            assert(asked(steps, j - 3) is Some);
            assert(was_sized(steps, i));
        }
        if s.before.phase is Recording && s.reply == Reply::Unit {
            assert(asked(steps, j - 1) is Some);
            assert(was_recorded(steps, i));
        }
        if s.before.phase is SettingTimes && s.reply == Reply::Unit {
            assert(asked(steps, j - 1) is Some);
            assert(was_timed(steps, i));
        }
    }
}

/// When attributes are set, the host is asked for nothing but what the guest wants, and about
/// nothing but the file that the guest names: a new size is the one that is given; what is
/// recorded is the user, the group and the mode that are given, and for each that is not, what
/// was recorded before; the times are those that are given. Then the attributes of that file are
/// asked for.
pub proof fn law_setattr_asks_for_what_is_wanted(
    steps: Seq<Step<Setattr>>,
    number: u64,
    attr: Stat64,
    fh: Option<u64>,
    valid: u32,
    out: Result<(Stat64, Timeout), FsError>,
    i: int,
)
    requires
        call_ensures(setattr, (number, attr, fh, valid), steps[0].before),
        is_run(steps, out),
        steps[0].fs_before.inodes@.contains_key(number),
        0 <= i < steps.len(),
    ensures
        may_ask(steps, i, number, attr, fh, valid),
        asked(steps, 0) is Some && asked(steps, 0)->Some_0 is ReadOverride,
        steps[i].fs_after == steps[i].fs_before,
{
    lemma_steps(steps);
    lemma_has_come_to(steps, out, i, number, attr, fh, valid);
    lemma_step(steps, i);
}

/// Attributes that were set are set: everything that the guest wants was done, and had worked,
/// before the attributes were asked for that the guest gets.
pub proof fn law_setattr_sets_what_is_wanted(
    steps: Seq<Step<Setattr>>,
    number: u64,
    attr: Stat64,
    fh: Option<u64>,
    valid: u32,
    out: (Stat64, Timeout),
)
    requires
        call_ensures(setattr, (number, attr, fh, valid), steps[0].before),
        is_run(steps, Ok(out)),
    ensures
        ({
            let last = steps.len() - 1;
            let o = steps[1].reply->Override_0;
            &&& steps[0].fs_before.inodes@.contains_key(number)
            &&& steps[1].reply is Override
            &&& wants(valid, SETATTR_SIZE) ==> was_sized(steps, last)
            &&& is_recorded(o, attr, valid) ==> was_recorded(steps, last)
            &&& wants_times(valid) ==> was_timed(steps, last)
            &&& asked(steps, last - 1) == Some(Action::Getattr { inode: number, handle: fh })
            &&& answer(steps, last - 1) == Reply::Attr(out.0, out.1)
        }),
{
    lemma_steps(steps);
    let last = steps.len() - 1;
    if steps[0].fs_before.inodes@.contains_key(number) {
        lemma_has_come_to(steps, Ok(out), last, number, attr, fh, valid);
        lemma_has_come_to(steps, Ok(out), last - 1, number, attr, fh, valid);
        lemma_step(steps, last);
        lemma_step(steps, last - 1);
    }
}

/// Whether a time that is given, and is not the present, lies beyond what the host can count.
pub open spec fn cannot_be_counted(attr: Stat64, valid: u32) -> bool {
    ||| wants(valid, SETATTR_ATIME) && !wants(valid, SETATTR_ATIME_NOW) && !is_unix_time(
        attr.st_atime,
        attr.st_atime_nsec,
    )
    ||| wants(valid, SETATTR_MTIME) && !wants(valid, SETATTR_MTIME_NOW) && !is_unix_time(
        attr.st_mtime,
        attr.st_mtime_nsec,
    )
}

/// Attributes that cannot be set: of a file that is not known, through a handle without write
/// access, to a time that the host cannot count, or because the host or a part of the work says
/// so, whose error the guest gets.
pub proof fn law_failed_setattr(
    steps: Seq<Step<Setattr>>,
    number: u64,
    attr: Stat64,
    fh: Option<u64>,
    valid: u32,
    error: FsError,
)
    requires
        call_ensures(setattr, (number, attr, fh, valid), steps[0].before),
        is_run(steps, Err(error)),
    ensures
        !steps[0].fs_before.inodes@.contains_key(number) ==> steps.len() == 1 && error
            == linux_error(EBADF),
        steps[0].fs_before.inodes@.contains_key(number) ==> {
            let last = steps.len() - 1;
            let a = asked(steps, last - 1)->Some_0;
            let r = answer(steps, last - 1);
            &&& last >= 1
            &&& asked(steps, last - 1) is Some
            &&& {
                ||| a is IsReadOnly && r == Reply::Flag(true) && error == linux_error(EBADF)
                ||| a is Now && error == linux_error(EINVAL) && cannot_be_counted(attr, valid)
                ||| (a is OpenWrite || a is Reopen || a is SetFileTimes) && (
                r matches Reply::Failed(e) && error == host_error(e))
                ||| a is Close && (answer(steps, last - 2) matches Reply::Failed(e) && error
                    == host_error(e))
                ||| (a is WriteOverride || a is Getattr) && r == Reply::Failed(error)
            }
        },
{
    lemma_steps(steps);
    let last = steps.len() - 1;
    if steps[0].fs_before.inodes@.contains_key(number) {
        lemma_has_come_to(steps, Err(error), last, number, attr, fh, valid);
        lemma_step(steps, last);
    }
}

/// An access is checked against the attributes of the file that the guest names, and against
/// nothing else.
pub proof fn law_access_is_checked_on_the_file(
    steps: Seq<Step<Access>>,
    ctx: Context,
    inode: u64,
    mask: u32,
    out: Result<(), FsError>,
)
    requires
        call_ensures(access, (ctx, inode, mask), steps[0].before),
        is_run(steps, out),
    ensures
        steps.len() == 2,
        asked(steps, 0) == Some(Action::Getattr { inode, handle: None }),
        match answer(steps, 0) {
            Reply::Attr(st, _) => if access_granted(ctx, st, mask) {
                out == Ok::<(), FsError>(())
            } else {
                out == Err::<(), FsError>(linux_error(EACCES))
            },
            Reply::Failed(e) => out == Err::<(), FsError>(e),
            _ => false,
        },
{
    lemma_steps(steps);
}

} // verus!
