//! Paths of the host, and the names of the streams that hang on them.
//!
//! Every path is made of a configured root and of names that were decoded from the
//! guest, so it is text.

use crate::linux::PATH_MAX;
use crate::text::{concat, from_utf8_lossy, lossy_utf8, push_utf16, to_bytes, utf16};
use std::path::Path;
use vstd::prelude::*;
use vstd::utf8::encode_utf8;

verus! {

/// A path as a null-terminated wide string.
pub open spec fn wide(p: Seq<char>) -> Seq<u16> {
    utf16(p).push(0)
}

/// The path as a null-terminated wide string.
pub fn path_to_wide(p: &str) -> (r: Vec<u16>)
    ensures
        r@ == wide(p@),
{
    let mut out: Vec<u16> = Vec::new();
    push_utf16(&mut out, p);
    assert(out@ =~= utf16(p@));
    out.push(0);
    out
}

/// `\??\`, where the object manager keeps the drives.
pub open spec fn nt_prefix() -> Seq<u16> {
    seq![0x5cu16, 0x3fu16, 0x3fu16, 0x5cu16]
}

/// `\\?\`, which marks a Win32 path that is taken literally.
pub open spec fn verbatim_prefix() -> Seq<u16> {
    seq![0x5cu16, 0x5cu16, 0x3fu16, 0x5cu16]
}

/// Whether a wide path starts with `\\?\`.
pub open spec fn is_verbatim(w: Seq<u16>) -> bool {
    w.len() >= 4 && w.take(4) == verbatim_prefix()
}

/// The object-manager name of a path, without terminator: `\??\` and then the path,
/// less its own `\\?\` if it has one.
pub open spec fn nt_name(p: Seq<char>) -> Seq<u16> {
    if is_verbatim(utf16(p)) {
        nt_prefix() + utf16(p).skip(4)
    } else {
        nt_prefix() + utf16(p)
    }
}

/// Converts a Win32 path to an object-manager path (`\??\C:\...`) as a
/// null-terminated wide string.
pub fn path_to_nt_wide(path: &str) -> (r: Vec<u16>)
    ensures
        r@ == nt_name(path@).push(0),
{
    let mut wide_path: Vec<u16> = Vec::new();
    push_utf16(&mut wide_path, path);
    assert(wide_path@ =~= utf16(path@));
    let mut out: Vec<u16> = Vec::new();
    out.push(0x5c);
    out.push(0x3f);
    out.push(0x3f);
    out.push(0x5c);
    assert(out@ =~= nt_prefix());
    let verbatim: bool = wide_path.len() >= 4 && wide_path[0] == 0x5c && wide_path[1] == 0x5c
        && wide_path[2] == 0x3f && wide_path[3] == 0x5c;
    proof {
        let w = utf16(path@);
        if verbatim {
            assert(w.take(4) =~= verbatim_prefix());
        } else if w.len() >= 4 && w.take(4) == verbatim_prefix() {
            assert(w[0] == w.take(4)[0] && w[1] == w.take(4)[1]);
            assert(w[2] == w.take(4)[2] && w[3] == w.take(4)[3]);
        }
    }
    let start: usize = if verbatim {
        4
    } else {
        0
    };
    let mut i: usize = start;
    while i < wide_path.len()
        invariant
            start <= i <= wide_path@.len(),
            out@ == nt_prefix() + wide_path@.subrange(start as int, i as int),
        decreases wide_path@.len() - i,
    {
        out.push(wide_path[i]);
        assert(out@ =~= nt_prefix() + wide_path@.subrange(start as int, i + 1));
        i = i + 1;
    }
    assert(out@ =~= nt_name(path@));
    out.push(0);
    out
}

/// The object-manager name of a path depends on the path alone, not on whether it was
/// written with `\\?\` in front.
pub proof fn law_nt_name_ignores_verbatim_prefix(plain: Seq<char>, verbatim: Seq<char>)
    requires
        !is_verbatim(utf16(plain)),
        utf16(verbatim) == verbatim_prefix() + utf16(plain),
    ensures
        nt_name(verbatim) == nt_name(plain),
{
    assert(utf16(verbatim).take(4) =~= verbatim_prefix());
    assert(utf16(verbatim).skip(4) =~= utf16(plain));
}

/// The path of a named stream of a file. The suffix starts with a colon.
pub fn ads_stream_path(base: &str, stream_suffix: &str) -> (r: String)
    ensures
        r@ == base@ + stream_suffix@,
{
    concat(base, stream_suffix)
}

/// The suffix that names the stream of an extended attribute.
pub open spec fn stream_suffix(name: Seq<u8>) -> Seq<char> {
    ":"@ + lossy_utf8(name)
}

/// The suffix that names the stream of an extended attribute or a security context.
pub fn stream_suffix_of(name: &[u8]) -> (r: String)
    ensures
        r@ == stream_suffix(name@),
{
    let text = from_utf8_lossy(name);
    concat(":", text.as_str())
}

/// The path of the stream that holds an extended attribute of a file.
pub fn ads_xattr_path(base: &str, name: &[u8]) -> (r: String)
    ensures
        r@ == base@ + stream_suffix(name@),
{
    let suffix = stream_suffix_of(name);
    ads_stream_path(base, suffix.as_str())
}

/// The path that a name from the guest stands for.
pub fn cstr_to_path(name: &[u8]) -> (r: String)
    ensures
        r@ == lossy_utf8(name@),
{
    from_utf8_lossy(name)
}

/// A name that no host takes for anything but a name: it holds no separator, does not
/// start with a drive, and is neither empty nor one of the two names that every directory
/// has.
pub open spec fn is_plain_name(name: Seq<char>) -> bool {
    &&& name.len() > 0
    &&& !name.contains('/')
    &&& !name.contains('\\')
    &&& !(name.len() > 1 && name[1] == ':')
    &&& name != seq!['.']
    &&& name != dotdot()
}

/// The name that every directory has for its parent.
pub open spec fn dotdot() -> Seq<char> {
    seq!['.', '.']
}

/// Whether a character separates names: a slash does on every host, a backslash on some.
pub open spec fn is_separator(c: char, backslash: bool) -> bool {
    c == '/' || (backslash && c == '\\')
}

/// Where the last separator of a path stands; -1 if there is none.
pub open spec fn last_separator(path: Seq<char>, backslash: bool) -> int
    decreases path.len(),
{
    if path.len() == 0 {
        -1
    } else if is_separator(path.last(), backslash) {
        path.len() - 1
    } else {
        last_separator(path.drop_last(), backslash)
    }
}

/// What a stretch between two separators adds to a path: nothing, if it is empty or stands
/// for the directory that it is in.
pub open spec fn piece(stretch: Seq<char>) -> Seq<Seq<char>> {
    if stretch.len() == 0 || stretch == seq!['.'] {
        seq![]
    } else {
        seq![stretch]
    }
}

/// The names that a path leads through, with or without the backslash as a separator.
pub open spec fn pieces_at(path: Seq<char>, backslash: bool) -> Seq<Seq<char>>
    decreases path.len(),
{
    let k = last_separator(path, backslash);
    if 0 <= k < path.len() {
        pieces_at(path.take(k), backslash) + piece(path.skip(k + 1))
    } else {
        piece(path)
    }
}

/// The names that a path leads through.
pub open spec fn pieces(path: Seq<char>) -> Seq<Seq<char>> {
    pieces_at(path, true)
}

/// Whether `s` ends in `tail`.
pub open spec fn ends_in(s: Seq<char>, tail: Seq<char>) -> bool {
    s.len() >= tail.len() && s.skip(s.len() - tail.len()) == tail
}

/// Whether a path starts with a separator.
pub open spec fn starts_with_separator(path: Seq<char>) -> bool {
    path.len() > 0 && is_separator(path[0], true)
}

/// Whether a path starts with two separators. Its first names may then be a prefix, that
/// is a share, a device or a drive, and no names.
pub open spec fn may_have_prefix(path: Seq<char>) -> bool {
    path.len() >= 2 && is_separator(path[0], true) && is_separator(path[1], true)
}

/// Whether a path may start with a drive.
pub open spec fn may_have_drive(path: Seq<char>) -> bool {
    path.len() >= 2 && path[1] == ':'
}

/// Whether every host takes a path for one that starts where another ends: it has no
/// separator in front, and no drive.
pub open spec fn is_relative(path: Seq<char>) -> bool {
    !starts_with_separator(path) && !may_have_drive(path)
}

/// A path with another put behind it, and a separator between the two where one is needed.
/// None is behind a slash; behind a backslash or a colon some hosts need one.
pub open spec fn is_child_of(child: Seq<char>, parent: Seq<char>, name: Seq<char>) -> bool {
    if parent.len() == 0 || parent.last() == '/' {
        child == parent + name
    } else {
        ||| (parent.last() == '\\' || parent.last() == ':') && child == parent + name
        ||| child == parent + seq!['\\'] + name
        ||| child == parent + seq!['/'] + name
    }
}

/// A path with another in place of everything behind its prefix. Without two separators in
/// front the prefix is at most a drive.
pub open spec fn replaces(child: Seq<char>, parent: Seq<char>, name: Seq<char>) -> bool {
    ||| child == name
    ||| may_have_drive(parent) && child == parent.take(2) + name
    ||| may_have_prefix(parent) && exists|k: int|
        0 <= k <= parent.len() && child == #[trigger] parent.take(k) + name
}

/// What is known of a path put behind one that is taken literally. The host writes such a
/// path anew: what is relative stands behind its names, and anything else behind its prefix.
/// A plain name stands at the end, and `..` is resolved or stands there like any name.
pub open spec fn joins_verbatim(child: Seq<char>, parent: Seq<char>, name: Seq<char>) -> bool {
    &&& is_plain_name(name) ==> ends_in(child, seq!['\\'] + name) || ends_in(
        child,
        seq!['/'] + name,
    )
    &&& !pieces(parent).contains(dotdot()) ==> {
        &&& !pieces(name).contains(dotdot()) && is_relative(name) ==> pieces(child) == pieces(
            parent,
        ) + pieces(name)
        &&& !pieces(name).contains(dotdot()) && !is_relative(name) ==> exists|k: int|
            0 <= k <= pieces(parent).len() && pieces(child) == #[trigger] pieces(parent).take(k)
                + pieces(name)
        &&& name == dotdot() ==> pieces(child).is_prefix_of(pieces(parent).push(name))
    }
}

/// What is known of a path put behind another. One that is relative stands behind it; one
/// that starts with a slash takes its place, but for a prefix. Whether one that starts with a
/// backslash or with a drive is relative differs from host to host.
pub open spec fn joins(child: Seq<char>, parent: Seq<char>, name: Seq<char>) -> bool {
    if is_verbatim(utf16(parent)) {
        joins_verbatim(child, parent, name)
    } else if is_relative(name) {
        is_child_of(child, parent, name)
    } else if name[0] == '/' {
        replaces(child, parent, name)
    } else if name[0] == '\\' {
        is_child_of(child, parent, name) || replaces(child, parent, name)
    } else {
        is_child_of(child, parent, name) || child == name
    }
}

/// `Path::join` puts a path behind another, which an absolute one replaces; one with a root
/// but no prefix keeps the other's prefix. A path that is taken literally is written anew,
/// and references to `.` and `..` are removed. What becomes of references to `..` behind such
/// a path is left unsaid, but for `..` alone, and so is which separator is put between.
#[verifier::external_body]
fn join(parent: &str, name: &str) -> (r: String)
    ensures
        joins(r@, parent@, name@),
{
    Path::new(parent).join(name).to_string_lossy().into_owned()
}

/// The path of an entry of a directory.
pub fn child_path(parent: &str, name: &[u8]) -> (r: String)
    ensures
        joins(r@, parent@, lossy_utf8(name@)),
{
    let text = cstr_to_path(name);
    join(parent, text.as_str())
}

proof fn lemma_separator_behind(dir: Seq<char>, rest: Seq<char>)
    requires
        dir.len() > 0,
        is_separator(dir.last(), true),
    ensures
        last_separator(dir + rest, true) == if last_separator(rest, true) >= 0 {
            dir.len() + last_separator(rest, true)
        } else {
            dir.len() - 1
        },
    decreases rest.len(),
{
    let path = dir + rest;
    if rest.len() == 0 {
        assert(path =~= dir);
    } else {
        lemma_separator_behind(dir, rest.drop_last());
        assert(path.drop_last() =~= dir + rest.drop_last());
        assert(path.last() == rest.last());
    }
}

proof fn lemma_no_separator(name: Seq<char>)
    requires
        !name.contains('/'),
        !name.contains('\\'),
    ensures
        last_separator(name, true) == -1,
    decreases name.len(),
{
    if name.len() > 0 {
        assert(name.contains(name.last()));
        let init = name.drop_last();
        assert(forall|c: char| init.contains(c) ==> name.contains(c));
        lemma_no_separator(init);
    }
}

proof fn lemma_name_behind_separator(dir: Seq<char>, name: Seq<char>)
    requires
        dir.len() > 0,
        is_separator(dir.last(), true),
        is_plain_name(name),
    ensures
        pieces(dir) == pieces(dir.drop_last()),
        pieces(dir + name) == pieces(dir).push(name),
{
    let path = dir + name;
    let before = dir.drop_last();
    lemma_no_separator(name);
    lemma_separator_behind(dir, name);
    assert(path.take(dir.len() - 1) =~= before);
    assert(path.skip(dir.len() as int) =~= name);
    assert(dir.take(dir.len() - 1) =~= before);
    assert(dir.skip(dir.len() as int).len() == 0);
    assert(pieces(dir) =~= pieces(before));
    assert(pieces(path) =~= pieces(before).push(name));
}

/// The path of an entry leads through the names of its directory and then through its own.
pub proof fn law_child_is_one_name_deeper(child: Seq<char>, parent: Seq<char>, name: Seq<char>)
    requires
        joins(child, parent, name),
        is_plain_name(name),
        is_verbatim(utf16(parent)) ==> !pieces(parent).contains(dotdot()),
        parent.len() > 0 ==> parent.last() != ':',
    ensures
        pieces(child) == pieces(parent).push(name),
{
    assert(name.contains(name[0]));
    lemma_no_separator(name);
    assert(pieces(name) =~= seq![name]);
    assert(pieces(parent) + seq![name] =~= pieces(parent).push(name));
    if is_verbatim(utf16(parent)) {
        assert(!pieces(name).contains(dotdot()));
    } else if parent.len() == 0 {
        assert(child =~= name);
        assert(pieces(parent) =~= seq![]);
    } else {
        if child == parent + name && is_separator(parent.last(), true) {
            lemma_name_behind_separator(parent, name);
        }
        if child == parent + seq!['\\'] + name {
            let dir = parent + seq!['\\'];
            lemma_name_behind_separator(dir, name);
            assert(dir.drop_last() =~= parent);
        }
        if child == parent + seq!['/'] + name {
            let dir = parent + seq!['/'];
            lemma_name_behind_separator(dir, name);
            assert(dir.drop_last() =~= parent);
        }
    }
}

/// A letter in lower case; anything else as it is.
pub open spec fn lower(c: char) -> char {
    if 'A' <= c && c <= 'Z' {
        (c as int + 32) as char
    } else {
        c
    }
}

/// Whether two names start with the same drive and are the same behind it. The letter of a
/// drive counts in either case.
pub open spec fn same_but_for_drive(a: Seq<char>, b: Seq<char>) -> bool {
    &&& may_have_drive(a) && may_have_drive(b)
    &&& lower(a[0]) == lower(b[0])
    &&& a.skip(1) == b.skip(1)
}

/// Whether two paths lead through the same names. A drive is the first of them, or the
/// second where the path is taken literally.
pub open spec fn same_pieces(a: Seq<char>, b: Seq<char>) -> bool {
    &&& pieces(a).len() == pieces(b).len()
    &&& forall|i: int|
        0 <= i < pieces(a).len() ==> #[trigger] pieces(a)[i] == pieces(b)[i] || (i <= 1
            && same_but_for_drive(pieces(a)[i], pieces(b)[i]))
}

/// Whether a path starts with the directory that it is in.
pub open spec fn starts_with_dot(path: Seq<char>, backslash: bool) -> bool {
    &&& path.len() > 0
    &&& path[0] == '.'
    &&& path.len() == 1 || is_separator(path[1], backslash)
}

/// Whether a drive is followed by the directory that a path is in, which hosts with drives
/// ignore.
pub open spec fn has_drive_dot(path: Seq<char>) -> bool {
    may_have_drive(path) && starts_with_dot(path.skip(2), true)
}

/// Whether some host may take two paths for the same: they start alike, and they lead through
/// the same names.
pub open spec fn may_be_same(a: Seq<char>, b: Seq<char>) -> bool {
    &&& starts_with_separator(a) == starts_with_separator(b)
    &&& starts_with_dot(a, true) == starts_with_dot(b, true)
    &&& has_drive_dot(a) || has_drive_dot(b) || same_pieces(a, b)
}

/// Whether every host tells the start of a path in the same way: it has no prefix, does not
/// start with the directory that it is in, and is not a drive alone.
pub open spec fn starts_plainly(path: Seq<char>) -> bool {
    &&& !may_have_prefix(path)
    &&& !starts_with_dot(path, false)
    &&& may_have_drive(path) ==> pieces_at(path, false).len() > 1
}

/// Whether every host takes two paths for the same: they differ at most in slashes that
/// follow one another or stand at the end, and in names that stand for the directory that
/// they are in.
pub open spec fn is_same(a: Seq<char>, b: Seq<char>) -> bool {
    ||| a == b
    ||| {
        &&& starts_plainly(a) && starts_plainly(b)
        &&& (a.len() > 0 && a[0] == '/') == (b.len() > 0 && b[0] == '/')
        &&& pieces_at(a, false) == pieces_at(b, false)
    }
}

proof fn lemma_separator_found(path: Seq<char>, backslash: bool)
    ensures
        -1 <= last_separator(path, backslash) < path.len(),
        last_separator(path, backslash) >= 0 ==> is_separator(
            path[last_separator(path, backslash)],
            backslash,
        ),
    decreases path.len(),
{
    if path.len() > 0 && !is_separator(path.last(), backslash) {
        lemma_separator_found(path.drop_last(), backslash);
    }
}

/// The names that paths lead through, one path after the other.
spec fn all_pieces(paths: Seq<Seq<char>>) -> Seq<Seq<char>>
    decreases paths.len(),
{
    if paths.len() == 0 {
        seq![]
    } else {
        all_pieces(paths.drop_last()) + pieces(paths.last())
    }
}

proof fn lemma_pieces_of_both(dir: Seq<char>, rest: Seq<char>)
    requires
        dir.len() > 0,
        is_separator(dir.last(), true),
    ensures
        pieces(dir + rest) == pieces(dir.drop_last()) + pieces(rest),
    decreases rest.len(),
{
    let path = dir + rest;
    let k = last_separator(rest, true);
    lemma_separator_found(rest, true);
    lemma_separator_behind(dir, rest);
    if k >= 0 {
        lemma_pieces_of_both(dir, rest.take(k));
        assert(path.take(dir.len() + k) =~= dir + rest.take(k));
        assert(path.skip(dir.len() + k + 1) =~= rest.skip(k + 1));
    } else {
        assert(path.take(dir.len() - 1) =~= dir.drop_last());
        assert(path.skip(dir.len() as int) =~= rest);
    }
    assert(pieces(path) =~= pieces(dir.drop_last()) + pieces(rest));
}

proof fn lemma_stretch_adds_nothing(stretch: Seq<char>)
    requires
        piece(stretch).len() == 0,
    ensures
        pieces(stretch) == Seq::<Seq<char>>::empty(),
{
    reveal_with_fuel(last_separator, 2);
    if stretch.len() > 0 {
        assert(stretch.drop_last().len() == 0);
    }
    assert(last_separator(stretch, true) == -1);
}

proof fn lemma_all_pieces_of_one_more(before: Seq<Seq<char>>, stretch: Seq<char>)
    ensures
        all_pieces(before + piece(stretch)) == all_pieces(before) + pieces(stretch),
{
    if piece(stretch).len() == 0 {
        lemma_stretch_adds_nothing(stretch);
        assert(before + piece(stretch) =~= before);
        assert(all_pieces(before) + pieces(stretch) =~= all_pieces(before));
    } else {
        assert(before + piece(stretch) =~= before.push(stretch));
        assert(before.push(stretch).drop_last() =~= before);
    }
}

proof fn lemma_pieces_by_slashes(path: Seq<char>)
    ensures
        pieces(path) == all_pieces(pieces_at(path, false)),
    decreases path.len(),
{
    let k = last_separator(path, false);
    lemma_separator_found(path, false);
    if k >= 0 {
        let dir = path.take(k + 1);
        let rest = path.skip(k + 1);
        lemma_pieces_by_slashes(path.take(k));
        lemma_all_pieces_of_one_more(pieces_at(path.take(k), false), rest);
        lemma_pieces_of_both(dir, rest);
        assert(dir.drop_last() =~= path.take(k));
        assert(path =~= dir + rest);
    } else {
        let none = Seq::<Seq<char>>::empty();
        lemma_all_pieces_of_one_more(none, path);
        assert(none + piece(path) =~= piece(path));
        assert(all_pieces(none) + pieces(path) =~= pieces(path));
    }
}

proof fn lemma_first_name(path: Seq<char>)
    requires
        path.len() > 0,
        path[0] != '/',
        !starts_with_dot(path, false),
    ensures
        ({
            let names = pieces_at(path, false);
            &&& names.len() > 0
            &&& 0 < names[0].len() <= path.len()
            &&& names[0] == path.take(names[0].len() as int)
            &&& names[0].len() < path.len() ==> path[names[0].len() as int] == '/'
        }),
    decreases path.len(),
{
    let k = last_separator(path, false);
    lemma_separator_found(path, false);
    if k >= 0 {
        let init = path.take(k);
        lemma_first_name(init);
        let first = pieces_at(init, false)[0];
        assert(pieces_at(path, false)[0] == first);
        assert(first =~= path.take(first.len() as int));
    } else {
        assert(path =~= path.take(path.len() as int));
    }
}

/// Paths that every host takes for the same start alike and lead through the same names.
pub proof fn law_same_paths_lead_through_the_same_names(a: Seq<char>, b: Seq<char>)
    requires
        is_same(a, b),
    ensures
        may_be_same(a, b),
        pieces(a) == pieces(b),
{
    if a != b {
        lemma_pieces_by_slashes(a);
        lemma_pieces_by_slashes(b);
        if a.len() > 0 && a[0] != '/' {
            lemma_first_name(a);
        }
        if b.len() > 0 && b[0] != '/' {
            lemma_first_name(b);
        }
        if a.len() > 0 && a[0] != '/' && b.len() > 0 {
            let first = pieces_at(a, false)[0];
            assert(a[0] == first[0] && b[0] == first[0]);
            if first.len() > 1 {
                assert(a[1] == first[1] && b[1] == first[1]);
            }
        }
        assert(a.len() == 0 ==> pieces_at(a, false) =~= seq![]);
        assert(b.len() == 0 ==> pieces_at(b, false) =~= seq![]);
    }
}

/// `Path` equality goes by the components of the two paths: slashes that follow one another
/// or stand at the end are ignored, and so is `.` but at the start, and the case of a drive;
/// everything else counts. Which spellings are equal that differ in more, such as in the sort
/// of separator, follows the rules of the host and is left unsaid.
#[verifier::external_body]
pub(crate) fn same_path(a: &str, b: &str) -> (r: bool)
    ensures
        is_same(a@, b@) ==> r,
        r ==> may_be_same(a@, b@),
{
    Path::new(a) == Path::new(b)
}

/// Whether a path ends in a plain name.
pub open spec fn ends_in_name(path: Seq<char>) -> bool {
    exists|name: Seq<char>|
        is_plain_name(name) && (path == name || ends_in(path, seq!['/'] + name) || ends_in(
            path,
            seq!['\\'] + name,
        ))
}

/// Where the last dot of a name stands; -1 if there is none.
pub open spec fn last_dot(name: Seq<char>) -> int
    decreases name.len(),
{
    if name.len() == 0 {
        -1
    } else if name.last() == '.' {
        name.len() - 1
    } else {
        last_dot(name.drop_last())
    }
}

/// A name without its extension. A dot at the start of a name starts no extension.
pub open spec fn stem(name: Seq<char>) -> Seq<char> {
    if last_dot(name) > 0 {
        name.take(last_dot(name))
    } else {
        name
    }
}

/// Whether some host tells the directory and the name in a path so: it takes what is behind
/// the last slash for the name, or what is behind the last separator of either sort.
pub open spec fn splits(path: Seq<char>, dir: Seq<char>, name: Seq<char>, backslash: bool) -> bool {
    &&& path == dir + name
    &&& dir.len() > 0 ==> is_separator(dir.last(), backslash)
    &&& !name.contains('/')
    &&& backslash ==> !name.contains('\\')
}

/// The name in a path has another extension; the directory stays.
pub open spec fn has_extension(
    r: Seq<char>,
    path: Seq<char>,
    dir: Seq<char>,
    name: Seq<char>,
    extension: Seq<char>,
) -> bool {
    &&& splits(path, dir, name, true) || splits(path, dir, name, false)
    &&& r == dir + stem(name) + seq!['.'] + extension
}

/// Whether a path starts as a share does that is taken literally.
pub open spec fn starts_as_verbatim_share(path: Seq<char>) -> bool {
    &&& is_verbatim(utf16(path))
    &&& path.len() >= 8
    &&& lower(path[4]) == 'u'
    &&& lower(path[5]) == 'n'
    &&& lower(path[6]) == 'c'
    &&& is_separator(path[7], true)
}

/// How many names a prefix can have at most.
pub open spec fn longest_prefix(path: Seq<char>) -> int {
    if starts_as_verbatim_share(path) {
        4
    } else {
        2
    }
}

/// Whether the last name of a path is surely a name of a file: it is plain and no part of a
/// prefix, and its stem is not a dot alone. A path that is taken literally holds no slash,
/// because there a slash is part of a name.
pub open spec fn surely_names_file(path: Seq<char>) -> bool {
    &&& ends_in_name(path)
    &&& may_have_prefix(path) ==> pieces(path).len() > longest_prefix(path)
    &&& is_verbatim(utf16(path)) ==> !path.contains('/')
    &&& forall|dir: Seq<char>, name: Seq<char>, backslash: bool| #[trigger]
        splits(path, dir, name, backslash) ==> stem(name) != seq!['.']
}

/// What is known of a path with another extension: where the path surely names a file, only
/// the extension of the name differs.
pub open spec fn extends(r: Seq<char>, path: Seq<char>, extension: Seq<char>) -> bool {
    surely_names_file(path) ==> exists|dir: Seq<char>, name: Seq<char>| #[trigger]
        has_extension(r, path, dir, name, extension)
}

/// `Path::with_extension` replaces what is behind the last dot of the file name, or adds to
/// a name without one. Whether a backslash ends a directory, and what becomes of a path that
/// does not surely name a file, such as a share, follows the rules of the host and is left
/// unsaid, as is what becomes of a name like `..b`, whose stem is a dot. An extension with a
/// separator is refused by a panic.
#[verifier::external_body]
fn with_extension(path: &str, extension: &str) -> (r: String)
    requires
        extension@.len() > 0,
        !extension@.contains('/'),
        !extension@.contains('\\'),
    ensures
        extends(r@, path@, extension@),
{
    Path::new(path).with_extension(extension).to_string_lossy().into_owned()
}

/// The extension that marks a file that is being exchanged with another.
pub const EXCHANGE_EXTENSION: &'static str = ".__exchange_tmp__";

/// Where a file stands while it is being exchanged with another.
pub fn exchange_path(path: &str) -> (r: String)
    ensures
        extends(r@, path@, EXCHANGE_EXTENSION@),
{
    proof {
        reveal_strlit(".__exchange_tmp__");
    }
    with_extension(path, EXCHANGE_EXTENSION)
}

/// A file that is being exchanged stays in its directory, under a name with the mark at
/// its end.
pub proof fn law_exchange_path_is_marked(r: Seq<char>, path: Seq<char>, extension: Seq<char>)
    requires
        extends(r, path, extension),
        surely_names_file(path),
    ensures
        ends_in(r, seq!['.'] + extension),
        exists|dir: Seq<char>, name: Seq<char>|
            #![trigger has_extension(r, path, dir, name, extension)]
            path == dir + name && !name.contains('/') && dir.is_prefix_of(r),
{
    let (dir, name) = choose|dir: Seq<char>, name: Seq<char>| #[trigger]
        has_extension(r, path, dir, name, extension);
    let tail = seq!['.'] + extension;
    assert(r.skip(r.len() - tail.len()) =~= tail);
    assert(dir.is_prefix_of(r));
}

/// A link target with the separators of the guest.
pub open spec fn with_slashes(s: Seq<char>) -> Seq<char> {
    Seq::new(
        s.len(),
        |i: int|
            if s[i] == '\\' {
                '/'
            } else {
                s[i]
            },
    )
}

/// A link target as the guest reads it: slashes in place of backslashes, and no more
/// bytes than the longest path of the guest has.
pub open spec fn target_bytes(s: Seq<char>) -> Seq<u8> {
    let b = encode_utf8(with_slashes(s));
    if b.len() <= PATH_MAX {
        b
    } else {
        b.take(PATH_MAX as int)
    }
}

/// Turns a link target of the host into what the guest reads.
pub fn link_target(target: &str) -> (r: Vec<u8>)
    ensures
        r@ == target_bytes(target@),
{
    let mut text = String::new();
    for c in it: target.chars()
        invariant
            it.seq() == target@,
            text@ == with_slashes(target@.take(it.index())),
    {
        let ghost k = it.index();
        if c == '\\' {
            text.push('/');
        } else {
            text.push(c);
        }
        assert(text@ =~= with_slashes(target@.take(k + 1)));
    }
    assert(target@.take(target@.len() as int) =~= target@);
    let mut out = to_bytes(text.as_str());
    out.truncate(PATH_MAX);
    out
}

/// A link target holds no backslash when the guest reads it.
pub proof fn law_target_has_no_backslash(s: Seq<char>)
    ensures
        !with_slashes(s).contains('\\'),
{
}

} // verus!
