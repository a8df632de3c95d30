//! What is kept in streams, and how names and times are written.

use crate::config::{CachePolicy, Config};
use crate::dir::{dot_entries, entries_from, entry_at, name_units, next_offset, record_fits};
use crate::dir::{start_listing, units_at, views, CachedDirEntry, EntryView};
use crate::errno::{ERANGE, FsError};
use crate::fs::{dir_open_options, file_open_options, names_file, DIR_TAG};
use crate::inode::following;
use crate::laws::run::linux_error;
use crate::linux::{DT_DIR, DT_LNK, DT_REG, OPEN_CACHE_DIR, OPEN_DIRECT_IO, OPEN_KEEP_CACHE};
use crate::linux::{S_ISGID, S_ISUID, S_IXGRP};
use crate::number::{all_digits, digits_of, digits_value, lemma_digits_read_back};
use crate::override_stat::{clear_suid_sgid, format_override_stat, is_valid_owner};
use crate::override_stat::{law_clear_suid_sgid, law_override_stat_reads_back};
use crate::override_stat::{merge_override_stat, parse_override_stat, OverrideStat};
use crate::override_stat::{id_text, mode_text};
use crate::path::{ads_stream_path, ads_xattr_path, cstr_to_path, link_target, path_to_wide};
use crate::path::{stream_suffix_of, with_slashes};
use crate::text::{law_utf16_reads_back, lossy_utf8, utf16, utf16_lossy};
use crate::time::{fits_filetime, fits_unix_time, unix_to_filetime};
use crate::win::{FILE_ATTRIBUTE_DIRECTORY, FILE_ATTRIBUTE_REPARSE_POINT, IO_REPARSE_TAG_SYMLINK};
use crate::xattr::{attribute_of, first_zero, list_names, names_protected};
use crate::xattr::{sized_reply, stream_attribute, XattrReply};
use vstd::prelude::*;
use vstd::utf8::encode_utf8;

verus! {

/// The digits of a number.
pub open spec fn writes_number(s: Seq<u8>, n: u32, radix: nat) -> bool {
    s.len() > 0 && all_digits(s, radix) && digits_value(s, radix) == n
}

/// A record is written as the user, the group and the mode, in this order, with colons between
/// them: the first two in decimal, the mode in octal behind a zero, and an `x` for what is not
/// known.
pub proof fn law_record_is_written(o: &OverrideStat, text: Vec<u8>) -> (parts: (
    Seq<u8>,
    Seq<u8>,
    Seq<u8>,
))
    requires
        call_ensures(format_override_stat, (o,), text),
    ensures
        text@ == parts.0 + seq![0x3au8] + parts.1 + seq![0x3au8] + parts.2,
        o.uid matches Some(u) ==> writes_number(parts.0, u, 10),
        o.uid is None ==> parts.0 == seq![0x78u8],
        o.gid matches Some(g) ==> writes_number(parts.1, g, 10),
        o.gid is None ==> parts.1 == seq![0x78u8],
        o.mode matches Some(m) ==> parts.2.len() > 1 && parts.2[0] == 0x30 && writes_number(
            parts.2.skip(1),
            m,
            8,
        ),
        o.mode is None ==> parts.2 == seq![0x78u8],
{
    if let Some(u) = o.uid {
        lemma_digits_read_back(u as nat, 10);
    }
    if let Some(g) = o.gid {
        lemma_digits_read_back(g as nat, 10);
    }
    if let Some(m) = o.mode {
        lemma_digits_read_back(m as nat, 8);
        assert(mode_text(o.mode).skip(1) =~= digits_of(m as nat, 8));
    }
    (id_text(o.uid), id_text(o.gid), mode_text(o.mode))
}

/// A record that was written is read as it was.
pub proof fn law_record_is_read_as_it_was(
    o: &OverrideStat,
    text: Vec<u8>,
    bytes: &[u8],
    r: OverrideStat,
)
    requires
        call_ensures(format_override_stat, (o,), text),
        bytes@ == text@,
        call_ensures(parse_override_stat, (bytes,), r),
    ensures
        r == *o,
{
    law_override_stat_reads_back(*o);
}

/// A change of a record changes what it names and keeps the rest. The two highest numbers name
/// no user and no group.
pub proof fn law_change_keeps_the_rest(
    owner: Option<(u32, u32)>,
    mode: Option<u32>,
    before: OverrideStat,
    r: OverrideStat,
    valid: bool,
)
    requires
        call_ensures(merge_override_stat, (owner, mode, before), r),
        call_ensures(is_valid_owner, (owner,), valid),
    ensures
        owner is None ==> r.uid == before.uid && r.gid == before.gid && !valid,
        owner matches Some((u, g)) ==> {
            &&& u < 0xffff_fffe ==> r.uid == Some(u)
            &&& u >= 0xffff_fffe ==> r.uid == before.uid
            &&& g < 0xffff_fffe ==> r.gid == Some(g)
            &&& g >= 0xffff_fffe ==> r.gid == before.gid
            &&& valid <==> u < 0xffff_fffe && g < 0xffff_fffe
        },
        mode is Some ==> r.mode == mode,
        mode is None ==> r.mode == before.mode,
{
}

/// Removing set-id bits removes the set-user-id bit, and the set-group-id bit if the group may
/// execute the file, and nothing else.
pub proof fn law_set_id_bits_are_removed(mode: u32, r: u32)
    requires
        call_ensures(clear_suid_sgid, (mode,), r),
    ensures
        r & S_ISUID == 0,
        mode & S_IXGRP != 0 ==> r & S_ISGID == 0,
        mode & S_IXGRP == 0 ==> r & S_ISGID == mode & S_ISGID,
        r & !(S_ISUID | S_ISGID) == mode & !(S_ISUID | S_ISGID),
{
    law_clear_suid_sgid(mode);
}

/// A time of the guest is counted by the host in tenths of microseconds since 1601.
pub proof fn law_time_is_counted_by_the_host(secs: i64, nsec: u32, ft: u64, fits: bool)
    requires
        call_ensures(unix_to_filetime, (secs, nsec), ft),
        call_ensures(fits_filetime, (secs, nsec), fits),
    ensures
        ({
            let ticks = secs * 10_000_000 + nsec as int / 100;
            &&& fits <==> i64::MIN <= secs * 10_000_000 <= i64::MAX && i64::MIN <= ticks <= i64::MAX
                && ticks + 116_444_736_000_000_000 <= i64::MAX
            &&& fits && ticks + 116_444_736_000_000_000 >= 0 ==> ft == ticks
                + 116_444_736_000_000_000
            &&& fits && ticks + 116_444_736_000_000_000 < 0 ==> ft == ticks
                + 116_444_736_000_000_000 + 0x1_0000_0000_0000_0000
        }),
{
}

/// A time of the host that the guest can be told of is at most as long before 1970 as sixty-four
/// bits can count.
pub proof fn law_time_can_be_told(ft: u64, fits: bool)
    requires
        call_ensures(fits_unix_time, (ft,), fits),
    ensures
        ft < 0x8000_0000_0000_0000 ==> fits,
        ft >= 0x8000_0000_0000_0000 ==> (fits <==> ft - 0x1_0000_0000_0000_0000
            - 116_444_736_000_000_000 >= i64::MIN),
{
}

/// An answer is handed over if there is room for it. Without any room the guest is told how long
/// it is; with too little it is refused.
pub proof fn law_answer_needs_room(size: u32, data: Vec<u8>, r: Result<XattrReply, FsError>)
    requires
        call_ensures(sized_reply, (size, data), r),
        data@.len() <= u32::MAX,
    ensures
        size == 0 ==> r == Ok::<XattrReply, FsError>(XattrReply::Count(data@.len() as u32)),
        0 < size < data@.len() ==> r == Err::<XattrReply, FsError>(linux_error(ERANGE)),
        size > 0 && size >= data@.len() ==> (r matches Ok(XattrReply::Data(d)) && d@ == data@),
{
}

/// The two names that belong to the emulation are known by their bytes.
pub proof fn law_two_names_are_protected(name: &[u8], r: bool)
    requires
        call_ensures(names_protected, (name,), r),
    ensures
        r <==> name@ == encode_utf8("user.containers.override_stat"@) || name@ == encode_utf8(
            "security.capability"@,
        ),
{
}

/// The list of names grows by each name, in UTF-8 and with a zero behind it, unless the name
/// belongs to the emulation. No names make no list.
pub proof fn law_list_grows_by_each_name(
    names: &Vec<String>,
    name: String,
    more: &Vec<String>,
    r: Vec<u8>,
    s: Vec<u8>,
)
    requires
        more@ == names@.push(name),
        call_ensures(list_names, (names,), r),
        call_ensures(list_names, (more,), s),
    ensures
        names@.len() == 0 ==> r@ == Seq::<u8>::empty(),
        name@ == "user.containers.override_stat"@ || name@ == "security.capability"@ ==> s@ == r@,
        name@ != "user.containers.override_stat"@ && name@ != "security.capability"@ ==> s@ == r@
            + encode_utf8(name@).push(0),
{
    assert(more@.drop_last() =~= names@);
    assert(more@.last() == name);
}

proof fn lemma_first_zero(u: Seq<u16>, i: int)
    requires
        0 <= i <= u.len(),
    ensures
        i <= first_zero(u, i) <= u.len(),
        forall|j: int| i <= j < first_zero(u, i) ==> u[j] != 0,
        first_zero(u, i) < u.len() ==> u[first_zero(u, i)] == 0,
    decreases u.len() - i,
{
    if i < u.len() && u[i] != 0 {
        lemma_first_zero(u, i + 1);
    }
}

/// A stream holds an attribute if its name is a colon, the attribute and `:$DATA`; the attribute
/// is what stands between. The name ends at a zero, or with the buffer.
pub proof fn law_stream_holds_its_attribute(buffer: &[u16], r: Option<String>) -> (units: int)
    requires
        call_ensures(stream_attribute, (buffer,), r),
    ensures
        0 <= units <= buffer@.len(),
        forall|j: int| 0 <= j < units ==> buffer@[j] != 0,
        units < buffer@.len() ==> buffer@[units] == 0,
        ({
            let name = utf16_lossy(buffer@.take(units));
            &&& r matches Some(s) ==> s@.len() > 0 && name == ":"@ + s@ + ":$DATA"@
            &&& forall|s: Seq<char>|
                s.len() > 0 && name == #[trigger] (":"@ + s + ":$DATA"@) ==> (r matches Some(t)
                    && t@ == s)
        }),
{
    let n = first_zero(buffer@, 0);
    lemma_first_zero(buffer@, 0);
    let name = utf16_lossy(buffer@.take(n));
    reveal_strlit(":");
    reveal_strlit(":$DATA");
    if let Some(s) = r {
        assert(name =~= ":"@ + s@ + ":$DATA"@) by {
            let k = name.len() - 6;
            assert(name.skip(k) == ":$DATA"@);
            assert forall|i: int| 0 <= i < name.len() implies name[i] == (":"@ + s@
                + ":$DATA"@)[i] by {
                if i >= k {
                    assert(name.skip(k)[i - k] == name[i]);
                }
            }
        }
    }
    assert forall|s: Seq<char>| s.len() > 0 && name == #[trigger] (":"@ + s + ":$DATA"@) implies (
    r matches Some(t) && t@ == s) by {
        assert(name.skip(name.len() - 6) =~= ":$DATA"@);
        assert(name.subrange(1, name.len() - 6) =~= s);
        assert(attribute_of(name) == Some(s));
    }
    n
}

/// The guest reads the target of a link with slashes in place of backslashes, and every other
/// character as it is, as far as the longest path goes.
pub proof fn law_target_has_slashes(target: &str, r: Vec<u8>) -> (text: Seq<char>)
    requires
        call_ensures(link_target, (target,), r),
    ensures
        text.len() == target@.len(),
        forall|i: int|
            0 <= i < text.len() ==> #[trigger] text[i] == if target@[i] == '\\' {
                '/'
            } else {
                target@[i]
            },
        encode_utf8(text).len() <= 4096 ==> r@ == encode_utf8(text),
        encode_utf8(text).len() > 4096 ==> r@ == encode_utf8(text).take(4096),
{
    with_slashes(target@)
}

/// A path as the host takes it is read back as the path, and a zero ends it.
pub proof fn law_wide_path_reads_back(path: &str, r: Vec<u16>)
    requires
        call_ensures(path_to_wide, (path,), r),
    ensures
        r@.len() > 0,
        r@.last() == 0,
        utf16_lossy(r@.drop_last()) == path@,
{
    law_utf16_reads_back(path@);
    assert(r@.drop_last() =~= utf16(path@));
}

/// A stream is named by its file and its suffix, an attribute by a colon and its name.
pub proof fn law_streams_are_named(
    base: &str,
    suffix: &str,
    name: &[u8],
    stream: String,
    own: String,
    attribute: String,
    text: String,
)
    requires
        call_ensures(ads_stream_path, (base, suffix), stream),
        call_ensures(stream_suffix_of, (name,), own),
        call_ensures(ads_xattr_path, (base, name), attribute),
        call_ensures(cstr_to_path, (name,), text),
    ensures
        stream@ == base@ + suffix@,
        own@ == ":"@ + lossy_utf8(name@),
        attribute@ == base@ + (":"@ + lossy_utf8(name@)),
        text@ == lossy_utf8(name@),
{
}

/// The options with which files and directories are opened follow from the cache policy.
pub proof fn law_options_follow_the_policy(policy: CachePolicy, file: u32, dir: u32)
    requires
        call_ensures(file_open_options, (policy,), file),
        call_ensures(dir_open_options, (policy,), dir),
    ensures
        policy == CachePolicy::Never ==> file == OPEN_DIRECT_IO && dir == 0,
        policy == CachePolicy::Auto ==> file == 0 && dir == 0,
        policy == CachePolicy::Always ==> file == OPEN_KEEP_CACHE && dir == OPEN_CACHE_DIR,
{
}

/// A policy is named in lower case, capitalised or in upper case; nothing else names one.
pub proof fn law_policy_has_three_names(s: &str, r: Result<CachePolicy, &'static str>)
    requires
        call_ensures(CachePolicy::parse, (s,), r),
    ensures
        s@ == "never"@ || s@ == "Never"@ || s@ == "NEVER"@ ==> r == Ok::<
            CachePolicy,
            &'static str,
        >(CachePolicy::Never),
        s@ == "auto"@ || s@ == "Auto"@ || s@ == "AUTO"@ ==> r == Ok::<CachePolicy, &'static str>(
            CachePolicy::Auto,
        ),
        s@ == "always"@ || s@ == "Always"@ || s@ == "ALWAYS"@ ==> r == Ok::<
            CachePolicy,
            &'static str,
        >(CachePolicy::Always),
        r is Ok ==> s@ == "never"@ || s@ == "Never"@ || s@ == "NEVER"@ || s@ == "auto"@ || s@
            == "Auto"@ || s@ == "AUTO"@ || s@ == "always"@ || s@ == "Always"@ || s@ == "ALWAYS"@,
{
    reveal_strlit("never");
    reveal_strlit("Never");
    reveal_strlit("NEVER");
    reveal_strlit("auto");
    reveal_strlit("Auto");
    reveal_strlit("AUTO");
    reveal_strlit("always");
    reveal_strlit("Always");
    reveal_strlit("ALWAYS");
    assert("auto"@[0] != "never"@[0] && "auto"@[0] != "Never"@[0] && "auto"@[0] != "NEVER"@[0]);
    assert("Auto"@[0] != "never"@[0] && "Auto"@[0] != "Never"@[0] && "Auto"@[0] != "NEVER"@[0]);
    assert("always"@[0] != "never"@[0] && "always"@[1] != "auto"@[1] && "always"@[0] != "Auto"@[0]);
    assert("Always"@[1] != "Auto"@[1] && "Always"@[1] != "AUTO"@[1] && "Always"@[0] != "auto"@[0]);
    assert("ALWAYS"@[1] != "Auto"@[1] && "ALWAYS"@[1] != "AUTO"@[1] && "ALWAYS"@[0] != "auto"@[0]);
    assert("always"@[0] != "AUTO"@[0] && "always"@[0] != "Never"@[0]);
    assert("always"@[0] != "NEVER"@[0]);
    assert("AUTO"@[0] != "never"@[0] && "AUTO"@[0] != "Never"@[0]);
}

/// A configuration that nobody gave serves the first drive, without extended attributes and without
/// caching of writes, and what the guest is told holds for five seconds.
pub proof fn law_default_configuration(cfg: Config, policy: CachePolicy)
    requires
        call_ensures(Config::default, (), cfg),
        call_ensures(CachePolicy::default, (), policy),
    ensures
        cfg.root_dir@ == "C:\\"@,
        cfg.entry_timeout.secs == 5 && cfg.entry_timeout.nanos == 0,
        cfg.attr_timeout.secs == 5 && cfg.attr_timeout.nanos == 0,
        cfg.cache_policy == CachePolicy::Auto,
        !cfg.writeback,
        !cfg.xattr,
        cfg.export_fsid == 0,
        cfg.export_table is None,
        policy == CachePolicy::Auto,
{
}

/// Numbers are counted up one by one, and the last is followed by zero. A handle is one of a file
/// of the host if it is not zero and its highest bit is clear.
pub proof fn law_numbers_and_handles(n: u64, handle: u64, file: bool)
    requires
        call_ensures(names_file, (handle,), file),
    ensures
        n < u64::MAX ==> following(n) == n + 1,
        n == u64::MAX ==> following(n) == 0,
        file <==> handle != 0 && handle & 0x8000_0000_0000_0000 == 0,
        DIR_TAG == 0x8000_0000_0000_0000,
{
}

/// A number in a buffer, the lowest byte first.
pub open spec fn little_endian(b: Seq<u8>, i: int, n: nat) -> int
    decreases n,
{
    if n == 0 {
        0
    } else {
        b[i] + 0x100 * little_endian(b, i + 1, (n - 1) as nat)
    }
}

/// An entry of a directory is what its record says: its index, its name in UTF-16, which the guest
/// gets in UTF-8, and its type. Only a symbolic link is a link; a directory is a directory, and
/// all else is a file.
pub proof fn law_record_tells_of_its_entry(b: Seq<u8>, o: int) -> (units: Seq<u16>)
    requires
        record_fits(b, o),
    ensures
        ({
            let e = entry_at(b, o);
            let attributes = little_endian(b, o + 56, 4) as u32;
            let link = attributes & FILE_ATTRIBUTE_REPARSE_POINT != 0 && little_endian(b, o + 64, 4)
                == IO_REPARSE_TAG_SYMLINK;
            &&& e.ino == little_endian(b, o + 96, 8)
            &&& units.len() == little_endian(b, o + 60, 4) / 2
            &&& forall|k: int|
                0 <= k < units.len() ==> #[trigger] units[k] == little_endian(
                    b,
                    o + 104 + 2 * k,
                    2,
                )
            &&& e.name == encode_utf8(utf16_lossy(units))
            &&& link ==> e.type_ == DT_LNK
            &&& !link && attributes & FILE_ATTRIBUTE_DIRECTORY != 0 ==> e.type_ == DT_DIR
            &&& !link && attributes & FILE_ATTRIBUTE_DIRECTORY == 0 ==> e.type_ == DT_REG
        }),
{
    reveal_with_fuel(little_endian, 9);
    units_at(b, o + 104, name_units(b, o))
}

/// The entries of a buffer are those of its records, one after the other: a record that says how
/// far away the next one is is followed by the entries from there, and the two names that every
/// directory has are left out.
pub proof fn law_records_follow_one_another(b: Seq<u8>, o: int)
    requires
        record_fits(b, o),
        o + little_endian(b, o, 4) <= b.len(),
    ensures
        ({
            let e = entry_at(b, o);
            let own = if e.name == seq![0x2eu8] || e.name == seq![0x2eu8, 0x2eu8] {
                Seq::<EntryView>::empty()
            } else {
                seq![e]
            };
            let next = little_endian(b, o, 4);
            entries_from(b, o) == if next == 0 {
                own
            } else {
                own + entries_from(b, o + next)
            }
        }),
{
    reveal_with_fuel(little_endian, 5);
    assert(next_offset(b, o) == little_endian(b, o, 4));
}

/// A listing starts with the directory itself and its parent.
pub proof fn law_listing_starts_with_dots(
    inode: u64,
    parent_inode: u64,
    r: Vec<CachedDirEntry>,
)
    requires
        call_ensures(start_listing, (inode, parent_inode), r),
    ensures
        r@.len() == 2,
        r@[0].ino == inode && r@[0].name@ == seq![0x2eu8] && r@[0].type_ == DT_DIR,
        r@[1].ino == parent_inode && r@[1].name@ == seq![0x2eu8, 0x2eu8] && r@[1].type_ == DT_DIR,
{
    let v = views(r@);
    assert(v == dot_entries(inode, parent_inode));
    assert(v.len() == r@.len());
    assert(v.len() == 2);
    assert(v[0] == r@[0]@);
    assert(v[1] == r@[1]@);
}

} // verus!
