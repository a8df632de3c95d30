//! Extended attributes, which are kept in named streams.

use crate::errno::{ERANGE, FsError};
use crate::text::{bytes_eq, from_utf16_lossy, str_eq, utf16_lossy};
use vstd::prelude::*;
use vstd::slice::slice_subrange;
use vstd::utf8::{encode_utf8, encode_utf8_decode_utf8};

verus! {

/// The attribute that holds ownership and mode.
pub const OVERRIDE_STAT_NAME: &'static str = "user.containers.override_stat";

/// The attribute that emulates the file capabilities.
pub const SECURITY_CAPABILITY_NAME: &'static str = "security.capability";

/// What a stream that is no attribute of its own is called, and what every name of a
/// stream ends in.
pub const DATA_SUFFIX: &'static str = ":$DATA";

/// Whether an attribute belongs to the emulation, so that the guest sees it only through
/// ordinary attributes.
pub open spec fn is_protected_name(name: Seq<char>) -> bool {
    name == OVERRIDE_STAT_NAME@ || name == SECURITY_CAPABILITY_NAME@
}

/// Whether bytes from the guest name an attribute that belongs to the emulation.
pub open spec fn is_protected(name: Seq<u8>) -> bool {
    name == encode_utf8(OVERRIDE_STAT_NAME@) || name == encode_utf8(SECURITY_CAPABILITY_NAME@)
}

pub fn names_protected(name: &[u8]) -> (r: bool)
    ensures
        r == is_protected(name@),
{
    bytes_eq(name, OVERRIDE_STAT_NAME.as_bytes()) || bytes_eq(
        name,
        SECURITY_CAPABILITY_NAME.as_bytes(),
    )
}

/// A name is protected as a text if and only if it is as bytes.
pub proof fn law_protected_as_text_or_bytes(name: Seq<char>)
    ensures
        is_protected(encode_utf8(name)) == is_protected_name(name),
{
    encode_utf8_decode_utf8(name);
    encode_utf8_decode_utf8(OVERRIDE_STAT_NAME@);
    encode_utf8_decode_utf8(SECURITY_CAPABILITY_NAME@);
}

/// What the guest is answered when it asks for an attribute or for their names.
#[derive(Debug, PartialEq, Eq)]
pub enum XattrReply {
    /// How long the answer is.
    Count(u32),
    /// The answer.
    Data(Vec<u8>),
}

/// The length of an answer, as far as the guest can be told.
pub open spec fn told_length(len: nat) -> u32 {
    (len % 0x1_0000_0000) as u32
}

/// What is answered if the guest has room for `size` bytes. Without room it asks for the
/// length; with too little room it is refused.
pub open spec fn sized(size: u32, data: Seq<u8>, r: Result<XattrReply, FsError>) -> bool {
    if size == 0 {
        r == Ok::<XattrReply, FsError>(XattrReply::Count(told_length(data.len())))
    } else if size < told_length(data.len()) {
        r == Err::<XattrReply, FsError>(FsError::linux(ERANGE))
    } else {
        r matches Ok(XattrReply::Data(d)) && d@ == data
    }
}

pub fn sized_reply(size: u32, data: Vec<u8>) -> (r: Result<XattrReply, FsError>)
    ensures
        sized(size, data@, r),
{
    let length: u32 = (data.len() as u64 % 0x1_0000_0000) as u32;
    if size == 0 {
        Ok(XattrReply::Count(length))
    } else if size < length {
        Err(FsError::errno(ERANGE))
    } else {
        Ok(XattrReply::Data(data))
    }
}

/// With as much room as it was told, the guest gets the answer; with less, but some, it
/// is refused.
pub proof fn law_told_length_is_enough(
    data: Seq<u8>,
    asked: Result<XattrReply, FsError>,
    size: u32,
    answered: Result<XattrReply, FsError>,
)
    requires
        sized(0, data, asked),
        size != 0,
        sized(size, data, answered),
    ensures
        asked matches Ok(XattrReply::Count(n)) && (answered matches Ok(XattrReply::Data(d)) && d@
            == data <==> size >= n) && (answered is Err <==> size < n),
{
}

/// The index of the first zero from `i` on, or the length.
pub open spec fn first_zero(u: Seq<u16>, i: int) -> int
    decreases u.len() - i,
{
    if i >= u.len() {
        u.len() as int
    } else if u[i] == 0 {
        i
    } else {
        first_zero(u, i + 1)
    }
}

/// The name of a stream in a buffer that ends it with a zero, unless the name fills it.
pub open spec fn stream_name(buffer: Seq<u16>) -> Seq<char> {
    utf16_lossy(buffer.take(first_zero(buffer, 0)))
}

/// The attribute that a stream holds: its name is the attribute between a colon and the
/// suffix. The contents of the file itself are a stream without such a name.
pub open spec fn attribute_of(name: Seq<char>) -> Option<Seq<char>> {
    let suffix = DATA_SUFFIX@;
    if name.len() > 1 + suffix.len() && name[0] == ':' && name.skip(name.len() - suffix.len())
        == suffix {
        Some(name.subrange(1, name.len() - suffix.len()))
    } else {
        None
    }
}

fn until_zero(buffer: &[u16]) -> (n: usize)
    ensures
        n == first_zero(buffer@, 0),
        n <= buffer@.len(),
{
    let mut n: usize = 0;
    while n < buffer.len() && buffer[n] != 0
        invariant
            n <= buffer.len(),
            first_zero(buffer@, 0) == first_zero(buffer@, n as int),
        decreases buffer.len() - n,
    {
        n += 1;
    }
    n
}

fn chars_of(s: &str) -> (r: Vec<char>)
    ensures
        r@ == s@,
{
    let mut out: Vec<char> = Vec::new();
    for c in it: s.chars()
        invariant
            it.seq() == s@,
            out@ == it.seq().take(it.index() as int),
    {
        out.push(c);
        assert(out@ =~= it.seq().take(it.index() + 1));
    }
    assert(out@ =~= s@);
    out
}

fn text_of(chars: &Vec<char>, from: usize, to: usize) -> (r: String)
    requires
        from <= to <= chars@.len(),
    ensures
        r@ == chars@.subrange(from as int, to as int),
{
    let mut out = String::new();
    let mut i: usize = from;
    while i < to
        invariant
            from <= i <= to <= chars.len(),
            out@ == chars@.subrange(from as int, i as int),
        decreases to - i,
    {
        out.push(chars[i]);
        i += 1;
        assert(out@ =~= chars@.subrange(from as int, i as int));
    }
    out
}

/// Finds out which attribute a stream holds.
pub fn stream_attribute(buffer: &[u16]) -> (r: Option<String>)
    ensures
        match attribute_of(stream_name(buffer@)) {
            Some(name) => r matches Some(s) && s@ == name,
            None => r is None,
        },
{
    let n: usize = until_zero(buffer);
    let name = from_utf16_lossy(slice_subrange(buffer, 0, n));
    assert(buffer@.subrange(0, n as int) =~= buffer@.take(n as int));
    let chars = chars_of(name.as_str());
    let suffix = chars_of(DATA_SUFFIX);
    proof {
        reveal_strlit(":$DATA");
    }
    if chars.len() <= 1 + suffix.len() || chars[0] != ':' {
        return None;
    }
    let end: usize = chars.len() - suffix.len();
    let tail = text_of(&chars, end, chars.len());
    assert(tail@ =~= chars@.skip(end as int));
    if !str_eq(tail.as_str(), DATA_SUFFIX) {
        return None;
    }
    Some(text_of(&chars, 1, end))
}

/// The attribute that a name for it is made from is read back from that name.
pub proof fn law_attribute_name_reads_back(name: Seq<char>)
    requires
        name.len() > 0,
    ensures
        attribute_of(":"@ + name + DATA_SUFFIX@) == Some(name),
{
    reveal_strlit(":");
    reveal_strlit(":$DATA");
    let full = ":"@ + name + DATA_SUFFIX@;
    assert(full.skip(full.len() - DATA_SUFFIX@.len()) =~= DATA_SUFFIX@);
    assert(full.subrange(1, full.len() - DATA_SUFFIX@.len()) =~= name);
}

/// The contents of the file itself are no attribute.
pub proof fn law_contents_are_no_attribute()
    ensures
        attribute_of("::$DATA"@) is None,
{
    reveal_strlit("::$DATA");
    reveal_strlit(":$DATA");
}

/// The names that the guest is told: each that is not protected, with a zero behind it.
pub open spec fn names_buffer(names: Seq<String>) -> Seq<u8>
    decreases names.len(),
{
    if names.len() == 0 {
        seq![]
    } else {
        let rest = names_buffer(names.drop_last());
        let last = names.last()@;
        if is_protected_name(last) {
            rest
        } else {
            rest + encode_utf8(last).push(0)
        }
    }
}

pub fn list_names(names: &Vec<String>) -> (r: Vec<u8>)
    ensures
        r@ == names_buffer(names@),
{
    let mut out: Vec<u8> = Vec::new();
    let mut i: usize = 0;
    assert(names@.take(0) =~= Seq::<String>::empty());
    while i < names.len()
        invariant
            i <= names.len(),
            out@ == names_buffer(names@.take(i as int)),
        decreases names.len() - i,
    {
        let name = names[i].as_str();
        assert(names@.take(i + 1).drop_last() =~= names@.take(i as int));
        if !str_eq(name, OVERRIDE_STAT_NAME) && !str_eq(name, SECURITY_CAPABILITY_NAME) {
            let ghost before = out@;
            out.extend_from_slice(name.as_bytes());
            out.push(0);
            assert(out@ =~= before + encode_utf8(name@).push(0));
        }
        i += 1;
    }
    assert(names@.take(i as int) =~= names@);
    out
}

/// A protected name is never among the names that the guest is told.
pub proof fn law_protected_names_are_not_told(a: Seq<String>, p: String, b: Seq<String>)
    requires
        is_protected_name(p@),
    ensures
        names_buffer(a.push(p) + b) == names_buffer(a + b),
    decreases b.len(),
{
    if b.len() == 0 {
        assert(a.push(p) + b =~= a.push(p));
        assert(a + b =~= a);
        assert(a.push(p).drop_last() =~= a);
    } else {
        law_protected_names_are_not_told(a, p, b.drop_last());
        assert((a.push(p) + b).drop_last() =~= a.push(p) + b.drop_last());
        assert((a + b).drop_last() =~= a + b.drop_last());
    }
}

} // verus!
