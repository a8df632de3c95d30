//! The ownership and mode that a guest sees, kept in a named stream of the file.
//!
//! The stream holds the text `uid:gid:0mode`, the first two in decimal and the mode
//! in octal. A part that is not known is written as `x`.

use crate::linux::{S_ISGID, S_ISUID, S_IXGRP};
use crate::number::{digits_of, item_to_value, item_value, law_number_reads_back, push_number};
use crate::number::{all_digits, is_digit, lemma_digits_read_back};
use vstd::prelude::*;
use vstd::slice::slice_subrange;

verus! {

/// The stream that holds ownership and mode.
pub const OVERRIDE_STAT_STREAM: &'static str = ":user.containers.override_stat";

/// The stream that emulates the file capabilities.
pub const SECURITY_CAPABILITY_STREAM: &'static str = ":security.capability";

/// Owners from here on do not name a user or a group.
pub const UID_MAX: u32 = 0xffff_fffe;

/// What the stream says of ownership and mode.
#[derive(Clone, Copy, Debug, PartialEq, Eq)]
pub struct OverrideStat {
    pub uid: Option<u32>,
    pub gid: Option<u32>,
    pub mode: Option<u32>,
}

impl OverrideStat {
    /// Nothing is known.
    pub open spec fn nothing() -> OverrideStat {
        OverrideStat { uid: None, gid: None, mode: None }
    }

    pub fn none() -> (r: OverrideStat)
        ensures
            r == OverrideStat::nothing(),
    {
        OverrideStat { uid: None, gid: None, mode: None }
    }
}

/// Where the first colon stands, or the length if there is none.
pub open spec fn first_colon(s: Seq<u8>) -> int
    decreases s.len(),
{
    if s.len() == 0 || s[0] == 0x3a {
        0
    } else {
        1 + first_colon(s.skip(1))
    }
}

/// The `n`-th of the parts that colons separate, counted from zero.
pub open spec fn field(s: Seq<u8>, n: nat) -> Option<Seq<u8>>
    decreases n,
{
    let i = first_colon(s);
    if n == 0 {
        Some(s.take(i))
    } else if i >= s.len() {
        None
    } else {
        field(s.skip(i + 1), (n - 1) as nat)
    }
}

/// The number in the `n`-th part.
pub open spec fn field_value(s: Seq<u8>, n: nat, radix: nat) -> Option<u32> {
    match field(s, n) {
        Some(item) => item_value(item, radix),
        None => None,
    }
}

/// What the bytes of the stream say.
pub open spec fn override_of(s: Seq<u8>) -> OverrideStat {
    OverrideStat {
        uid: field_value(s, 0, 10),
        gid: field_value(s, 1, 10),
        mode: field_value(s, 2, 8),
    }
}

proof fn lemma_first_colon(s: Seq<u8>)
    ensures
        0 <= first_colon(s) <= s.len(),
        first_colon(s) < s.len() ==> s[first_colon(s)] == 0x3a,
        forall|j: int| 0 <= j < first_colon(s) ==> s[j] != 0x3a,
    decreases s.len(),
{
    if s.len() > 0 && s[0] != 0x3a {
        let t = s.skip(1);
        lemma_first_colon(t);
        assert forall|j: int| 0 <= j < first_colon(s) implies s[j] != 0x3a by {
            if j > 0 {
                assert(t[j - 1] == s[j]);
            }
        }
    }
}

proof fn lemma_first_colon_is(s: Seq<u8>, i: int)
    requires
        0 <= i <= s.len(),
        i < s.len() ==> s[i] == 0x3a,
        forall|j: int| 0 <= j < i ==> s[j] != 0x3a,
    ensures
        first_colon(s) == i,
{
    lemma_first_colon(s);
}

/// The position of the first colon at or behind `from`, or the length.
fn colon_from(buf: &[u8], from: usize) -> (r: usize)
    requires
        from <= buf@.len(),
    ensures
        from <= r <= buf@.len(),
        r == from + first_colon(buf@.skip(from as int)),
{
    let mut i: usize = from;
    while i < buf.len() && buf[i] != 0x3a
        invariant
            from <= i <= buf@.len(),
            forall|j: int| from <= j < i ==> buf@[j] != 0x3a,
        decreases buf@.len() - i,
    {
        i = i + 1;
    }
    proof {
        let s = buf@.skip(from as int);
        assert forall|j: int| 0 <= j < i - from implies s[j] != 0x3a by {
            assert(buf@[from + j] != 0x3a);
        }
        lemma_first_colon_is(s, i - from);
    }
    i
}

/// Reads ownership and mode from the bytes of the stream. Parts that are missing or
/// hold no number are not known; parts behind the third are passed over.
pub fn parse_override_stat(buf: &[u8]) -> (r: OverrideStat)
    ensures
        r == override_of(buf@),
{
    let ghost s = buf@;
    assert(s.skip(0) =~= s);
    let a: usize = colon_from(buf, 0);
    assert(s.subrange(0, a as int) =~= s.take(a as int));
    let uid: Option<u32> = item_to_value(slice_subrange(buf, 0, a), 10);
    if a == buf.len() {
        assert(field(s, 1) is None);
        assert(field(s, 2) is None);
        return OverrideStat { uid, gid: None, mode: None };
    }
    let ghost s1 = s.skip(a + 1);
    let b: usize = colon_from(buf, a + 1);
    let gid: Option<u32> = item_to_value(slice_subrange(buf, a + 1, b), 10);
    assert(s.subrange(a + 1, b as int) =~= s1.take(b - (a + 1)));
    assert(field(s, 1) == field(s1, 0));
    assert(field(s, 2) == field(s1, 1));
    if b == buf.len() {
        return OverrideStat { uid, gid, mode: None };
    }
    let ghost s2 = s.skip(b + 1);
    assert(s1.skip(b - (a + 1) + 1) =~= s2);
    let c: usize = colon_from(buf, b + 1);
    let mode: Option<u32> = item_to_value(slice_subrange(buf, b + 1, c), 8);
    assert(s.subrange(b + 1, c as int) =~= s2.take(c - (b + 1)));
    assert(field(s1, 1) == field(s2, 0));
    OverrideStat { uid, gid, mode }
}

/// The text of a part in decimal.
pub open spec fn id_text(id: Option<u32>) -> Seq<u8> {
    match id {
        Some(n) => digits_of(n as nat, 10),
        None => seq![0x78u8],
    }
}

/// The text of the mode: a zero, then octal digits.
pub open spec fn mode_text(mode: Option<u32>) -> Seq<u8> {
    match mode {
        Some(n) => seq![0x30u8] + digits_of(n as nat, 8),
        None => seq![0x78u8],
    }
}

/// The text of the stream.
pub open spec fn override_text(o: OverrideStat) -> Seq<u8> {
    id_text(o.uid) + seq![0x3au8] + id_text(o.gid) + seq![0x3au8] + mode_text(o.mode)
}

/// Writes ownership and mode out as the stream holds them.
pub fn format_override_stat(o: &OverrideStat) -> (r: Vec<u8>)
    ensures
        r@ == override_text(*o),
{
    let mut out: Vec<u8> = Vec::new();
    match o.uid {
        Some(u) => push_number(&mut out, u, 10),
        None => out.push(0x78),
    }
    assert(out@ =~= id_text(o.uid));
    out.push(0x3a);
    match o.gid {
        Some(g) => push_number(&mut out, g, 10),
        None => out.push(0x78),
    }
    assert(out@ =~= id_text(o.uid) + seq![0x3au8] + id_text(o.gid));
    out.push(0x3a);
    match o.mode {
        Some(m) => {
            out.push(0x30);
            push_number(&mut out, m, 8);
        },
        None => out.push(0x78),
    }
    assert(out@ =~= override_text(*o));
    out
}

/// Whether an owner names both a user and a group.
pub open spec fn names_owner(owner: Option<(u32, u32)>) -> bool {
    owner matches Some((u, g)) && u < UID_MAX && g < UID_MAX
}

pub fn is_valid_owner(owner: Option<(u32, u32)>) -> (r: bool)
    ensures
        r == names_owner(owner),
{
    match owner {
        Some((u, g)) => u < UID_MAX && g < UID_MAX,
        None => false,
    }
}

/// What the stream holds after a change of owner and mode: what the change names, and
/// for the rest what was there before.
pub open spec fn merged(
    owner: Option<(u32, u32)>,
    mode: Option<u32>,
    before: OverrideStat,
) -> OverrideStat {
    OverrideStat {
        uid: match owner {
            Some((u, _)) if u < UID_MAX => Some(u),
            _ => before.uid,
        },
        gid: match owner {
            Some((_, g)) if g < UID_MAX => Some(g),
            _ => before.gid,
        },
        mode: match mode {
            Some(m) => Some(m),
            None => before.mode,
        },
    }
}

/// Applies a change of owner and mode to what the stream held before.
pub fn merge_override_stat(
    owner: Option<(u32, u32)>,
    mode: Option<u32>,
    before: OverrideStat,
) -> (r: OverrideStat)
    ensures
        r == merged(owner, mode, before),
{
    let (uid, gid) = match owner {
        Some((u, g)) => (
            if u < UID_MAX {
                Some(u)
            } else {
                before.uid
            },
            if g < UID_MAX {
                Some(g)
            } else {
                before.gid
            },
        ),
        None => (before.uid, before.gid),
    };
    let mode = match mode {
        Some(m) => Some(m),
        None => before.mode,
    };
    OverrideStat { uid, gid, mode }
}

/// The mode without its set-user-id bit, and without its set-group-id bit where the
/// group may execute the file.
pub open spec fn without_suid_sgid(mode: u32) -> u32 {
    if mode & S_IXGRP != 0 {
        mode & !S_ISUID & !S_ISGID
    } else {
        mode & !S_ISUID
    }
}

/// Clears the set-user-id bit, and the set-group-id bit if the group executable bit is
/// set.
pub fn clear_suid_sgid(mode: u32) -> (r: u32)
    ensures
        r == without_suid_sgid(mode),
{
    let mut new_mode: u32 = mode & !S_ISUID;
    if (mode & S_IXGRP) != 0 {
        new_mode = new_mode & !S_ISGID;
    }
    new_mode
}

/// Clearing leaves no set-user-id bit, leaves no set-group-id bit on a file that its
/// group may execute, and touches no other bit.
pub proof fn law_clear_suid_sgid(mode: u32)
    ensures
        without_suid_sgid(mode) & S_ISUID == 0,
        mode & S_IXGRP != 0 ==> without_suid_sgid(mode) & S_ISGID == 0,
        mode & S_IXGRP == 0 ==> without_suid_sgid(mode) & S_ISGID == mode & S_ISGID,
        without_suid_sgid(mode) & !(S_ISUID | S_ISGID) == mode & !(S_ISUID | S_ISGID),
{
    assert((mode & !0o4000u32) & 0o4000u32 == 0) by (bit_vector);
    assert((mode & !0o4000u32 & !0o2000u32) & 0o4000u32 == 0) by (bit_vector);
    assert((mode & !0o4000u32 & !0o2000u32) & 0o2000u32 == 0) by (bit_vector);
    assert((mode & !0o4000u32) & 0o2000u32 == mode & 0o2000u32) by (bit_vector);
    assert((mode & !0o4000u32) & !(0o4000u32 | 0o2000u32) == mode & !(0o4000u32 | 0o2000u32))
        by (bit_vector);
    assert((mode & !0o4000u32 & !0o2000u32) & !(0o4000u32 | 0o2000u32) == mode & !(0o4000u32
        | 0o2000u32)) by (bit_vector);
}

/// Clearing twice is clearing once.
pub proof fn law_clear_suid_sgid_settles(mode: u32)
    ensures
        without_suid_sgid(without_suid_sgid(mode)) == without_suid_sgid(mode),
{
    assert((mode & !0o4000u32) & !0o4000u32 == mode & !0o4000u32) by (bit_vector);
    assert((mode & !0o4000u32) & 0o0010u32 == mode & 0o0010u32) by (bit_vector);
    assert((mode & !0o4000u32 & !0o2000u32) & 0o0010u32 == mode & 0o0010u32) by (bit_vector);
    assert((mode & !0o4000u32 & !0o2000u32) & !0o4000u32 & !0o2000u32 == mode & !0o4000u32
        & !0o2000u32) by (bit_vector);
}

proof fn lemma_no_colon(s: Seq<u8>, radix: nat)
    requires
        all_digits(s, radix),
    ensures
        forall|j: int| 0 <= j < s.len() ==> s[j] != 0x3a,
{
    assert forall|j: int| 0 <= j < s.len() implies s[j] != 0x3a by {
        assert(is_digit(s[j], radix));
    }
}

proof fn lemma_id_text(id: Option<u32>)
    ensures
        forall|j: int| 0 <= j < id_text(id).len() ==> id_text(id)[j] != 0x3a,
        item_value(id_text(id), 10) == id,
{
    match id {
        Some(n) => {
            lemma_digits_read_back(n as nat, 10);
            lemma_no_colon(digits_of(n as nat, 10), 10);
            law_number_reads_back(n, 10);
        },
        None => {
            lemma_x_is_no_number(10);
        },
    }
}

proof fn lemma_mode_text(mode: Option<u32>)
    ensures
        forall|j: int| 0 <= j < mode_text(mode).len() ==> mode_text(mode)[j] != 0x3a,
        item_value(mode_text(mode), 8) == mode,
{
    match mode {
        Some(n) => {
            lemma_digits_read_back(n as nat, 8);
            lemma_no_colon(digits_of(n as nat, 8), 8);
            law_number_reads_back(n, 8);
        },
        None => {
            lemma_x_is_no_number(8);
        },
    }
}

proof fn lemma_x_is_no_number(radix: nat)
    requires
        radix <= 10,
    ensures
        item_value(seq![0x78u8], radix) is None,
{
    let s = seq![0x78u8];
    assert(!is_digit(s[0], radix));
}

/// What is written to the stream is read back from it, whichever parts are known.
pub proof fn law_override_stat_reads_back(o: OverrideStat)
    ensures
        override_of(override_text(o)) == o,
{
    let a = id_text(o.uid);
    let b = id_text(o.gid);
    let c = mode_text(o.mode);
    let s = override_text(o);
    lemma_id_text(o.uid);
    lemma_id_text(o.gid);
    lemma_mode_text(o.mode);
    lemma_first_colon_is(s, a.len() as int);
    assert(s.take(a.len() as int) =~= a);
    let s1 = s.skip(a.len() as int + 1);
    assert(s1 =~= b + seq![0x3au8] + c);
    lemma_first_colon_is(s1, b.len() as int);
    assert(s1.take(b.len() as int) =~= b);
    let s2 = s1.skip(b.len() as int + 1);
    assert(s2 =~= c);
    lemma_first_colon_is(s2, c.len() as int);
    assert(s2.take(c.len() as int) =~= c);
    assert(field(s, 1) == field(s1, 0));
    assert(field(s, 2) == field(s1, 1));
    assert(field(s1, 1) == field(s2, 0));
}

/// Where a change names owner and mode in full, what was there before does not matter.
pub proof fn law_full_change_needs_no_read(
    owner: Option<(u32, u32)>,
    mode: Option<u32>,
    before: OverrideStat,
)
    requires
        names_owner(owner),
        mode is Some,
    ensures
        merged(owner, mode, before) == (OverrideStat {
            uid: Some(owner.unwrap().0),
            gid: Some(owner.unwrap().1),
            mode,
        }),
{
}

} // verus!
