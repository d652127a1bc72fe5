//! Paths as text: the file name of a path, and the form in which a path of
//! this machine is used inside a container.

use vstd::prelude::*;
use crate::text::{chars_of, lemma_without_has_none, opt_view, remove_char, replace_all, replace_char, trim_start, trim_start_char, without};

verus! {

/// The character between the components of a path.
pub const SEPARATOR: char = '/';

/// The character of which the components `.` and `..` are made.
pub const DOT: char = '.';

/// Where the last component of `path` begins, for a path that does not end in
/// a separator: just behind its last separator, or at 0.
pub open spec fn component_start(path: Seq<char>) -> int
    decreases path.len(),
{
    if path.len() == 0 || path.last() == SEPARATOR {
        path.len() as int
    } else {
        component_start(path.drop_last())
    }
}

/// The file name of `path`: its last component, where empty components and
/// `.` are passed over. There is none where that component is `..`, or where
/// the path has no component at all.
pub open spec fn last_component(path: Seq<char>) -> Option<Seq<char>>
    decreases path.len(),
{
    if path.len() == 0 {
        None
    } else if path.last() == SEPARATOR {
        last_component(path.drop_last())
    } else {
        let start = component_start(path);
        let name = path.skip(start);
        if name == seq![DOT] {
            if 0 < start <= path.len() {
                last_component(path.take(start - 1))
            } else {
                None
            }
        } else if name == seq![DOT, DOT] {
            None
        } else {
            Some(name)
        }
    }
}

/// The last component begins inside the path, behind a separator or at 0, and
/// holds no separator.
pub proof fn lemma_component_start(path: Seq<char>)
    ensures
        0 <= component_start(path) <= path.len(),
        component_start(path) > 0 ==> path[component_start(path) - 1] == SEPARATOR,
        forall|k: int| component_start(path) <= k < path.len() ==> path[k] != SEPARATOR,
    decreases path.len(),
{
    if path.len() == 0 || path.last() == SEPARATOR {
    } else {
        let head = path.drop_last();
        lemma_component_start(head);
        assert forall|k: int| component_start(path) <= k < path.len() implies path[k]
            != SEPARATOR by {
            if k < head.len() {
                assert(path[k] == head[k]);
            }
        }
    }
}

/// A position that is at 0 or behind a separator, with no separator from it to
/// the end, is where the last component begins.
pub proof fn lemma_component_start_is(path: Seq<char>, start: int)
    requires
        0 <= start <= path.len(),
        start > 0 ==> path[start - 1] == SEPARATOR,
        forall|k: int| start <= k < path.len() ==> path[k] != SEPARATOR,
    ensures
        component_start(path) == start,
    decreases path.len(),
{
    if path.len() == 0 || path.last() == SEPARATOR {
    } else {
        lemma_component_start_is(path.drop_last(), start);
    }
}

/// A file name is one component of its path: it is not empty, holds no
/// separator, and is neither `.` nor `..`.
pub proof fn lemma_file_name_is_one_component(path: Seq<char>)
    ensures
        last_component(path) matches Some(name) ==> {
            &&& name.len() > 0
            &&& !name.contains(SEPARATOR)
            &&& name != seq![DOT]
            &&& name != seq![DOT, DOT]
        },
    decreases path.len(),
{
    if path.len() == 0 {
    } else if path.last() == SEPARATOR {
        lemma_file_name_is_one_component(path.drop_last());
    } else {
        let start = component_start(path);
        lemma_component_start(path);
        let name = path.skip(start);
        if name == seq![DOT] {
            if 0 < start <= path.len() {
                lemma_file_name_is_one_component(path.take(start - 1));
            }
        } else if name == seq![DOT, DOT] {
        } else {
            assert(name.len() > 0) by {
                assert(path.last() != SEPARATOR);
                if start == path.len() {
                    if start > 0 {
                        assert(path[start - 1] == SEPARATOR);
                    }
                }
            }
            assert forall|i: int| 0 <= i < name.len() implies name[i] != SEPARATOR by {
                assert(name[i] == path[start + i]);
            }
        }
    }
}

/// The file name of a path (see [`last_component`]).
pub fn file_name(text: &str) -> (out: Option<String>)
    ensures
        opt_view(out) == last_component(text@),
{
    let path = chars_of(text);
    let mut end = path.len();
    assert(path@.take(end as int) =~= path@);
    while end > 0
        invariant
            path@ == text@,
            end <= path.len(),
            last_component(path@) == last_component(path@.take(end as int)),
        decreases end,
    {
        let ghost head = path@.take(end as int);
        if path[end - 1] == SEPARATOR {
            assert(head.drop_last() =~= path@.take(end - 1));
            end -= 1;
        } else {
            let mut start = end;
            while start > 0 && path[start - 1] != SEPARATOR
                invariant
                    start <= end <= path.len(),
                    forall|k: int| start <= k < end ==> path@[k] != SEPARATOR,
                decreases start,
            {
                start -= 1;
            }
            proof {
                lemma_component_start_is(head, start as int);
            }
            let len = end - start;
            if len == 1 && path[start] == DOT {
                assert(head.skip(start as int) =~= seq![DOT]);
                if start == 0 {
                    return None;
                }
                assert(head.take(start - 1) =~= path@.take(start - 1));
                end = start - 1;
            } else if len == 2 && path[start] == DOT && path[start + 1] == DOT {
                assert(head.skip(start as int) =~= seq![DOT, DOT]);
                assert(seq![DOT, DOT] != seq![DOT]) by {
                    assert(seq![DOT, DOT].len() == 2);
                    assert(seq![DOT].len() == 1);
                }
                return None;
            } else {
                let mut name = String::new();
                let mut k = start;
                assert(name@ =~= path@.subrange(start as int, k as int));
                while k < end
                    invariant
                        start <= k <= end <= path.len(),
                        name@ == path@.subrange(start as int, k as int),
                    decreases end - k,
                {
                    name.push(path[k]);
                    assert(name@ =~= path@.subrange(start as int, k + 1));
                    k += 1;
                }
                proof {
                    assert(name@ =~= head.skip(start as int));
                    if name@ == seq![DOT] {
                        assert(name@.len() == 1);
                        assert(name@[0] == DOT);
                    }
                    if name@ == seq![DOT, DOT] {
                        assert(name@.len() == 2);
                        assert(name@[0] == DOT);
                        assert(name@[1] == DOT);
                    }
                }
                return Some(name);
            }
        }
    }
    assert(path@.take(0) =~= Seq::<char>::empty());
    None
}


/// Whether `c` is a letter of the Latin alphabet.
pub open spec fn is_letter(c: char) -> bool {
    ('A' <= c && c <= 'Z') || ('a' <= c && c <= 'z')
}

/// Whether `path` begins with a drive letter: a letter and a colon.
pub open spec fn has_drive(path: Seq<char>) -> bool {
    path.len() >= 2 && is_letter(path[0]) && path[1] == ':'
}

/// `path` without its drive letter, if it begins with one.
pub open spec fn without_drive(path: Seq<char>) -> Seq<char> {
    if has_drive(path) {
        path.skip(2)
    } else {
        path
    }
}

/// The form of a path of this machine inside a container: without a drive
/// letter and without any colon, with `/` for `\`, and with `_` for a space.
pub open spec fn sanitized(path: Seq<char>) -> Seq<char> {
    replace_all(replace_all(without(without_drive(path), ':'), '\\', '/'), ' ', '_')
}

/// The path under which a directory of this machine is stored in an archive:
/// its sanitized form without leading separators, so that the tree lands under
/// the root of the container.
pub open spec fn archive_root(path: Seq<char>) -> Seq<char> {
    trim_start(sanitized(path), '/')
}

/// The sanitized form of `path` (see [`sanitized`]).
pub fn sanitize(path: &str) -> (out: String)
    ensures
        out@ == sanitized(path@),
{
    let no_drive = strip_drive(path);
    let no_colon = remove_char(no_drive.as_str(), ':');
    let slashes = replace_char(no_colon.as_str(), '\\', '/');
    replace_char(slashes.as_str(), ' ', '_')
}

/// A copy of `path` without its drive letter (see [`without_drive`]).
pub fn strip_drive(path: &str) -> (out: String)
    ensures
        out@ == without_drive(path@),
{
    let chars = chars_of(path);
    let drive = chars.len() >= 2 && chars[1] == ':' && (('A' <= chars[0] && chars[0] <= 'Z') || (
    'a' <= chars[0] && chars[0] <= 'z'));
    let mut out = String::new();
    let start: usize = if drive {
        2
    } else {
        0
    };
    let mut i = start;
    assert(out@ =~= chars@.subrange(start as int, i as int));
    while i < chars.len()
        invariant
            start <= i <= chars.len(),
            out@ == chars@.subrange(start as int, i as int),
        decreases chars.len() - i,
    {
        out.push(chars[i]);
        assert(out@ =~= chars@.subrange(start as int, i + 1));
        i += 1;
    }
    assert(chars@.subrange(start as int, chars.len() as int) =~= chars@.skip(start as int));
    assert(chars@.skip(0) =~= chars@);
    out
}

/// The path of `path` inside an archive (see [`archive_root`]).
pub fn rooted(path: &str) -> (out: String)
    ensures
        out@ == archive_root(path@),
{
    let clean = sanitize(path);
    trim_start_char(clean.as_str(), '/')
}

/// A sanitized path holds no colon, no backslash and no space.
pub proof fn lemma_sanitized_is_clean(path: Seq<char>)
    ensures
        !sanitized(path).contains(':'),
        !sanitized(path).contains('\\'),
        !sanitized(path).contains(' '),
{
    let a = without(without_drive(path), ':');
    let b = replace_all(a, '\\', '/');
    let c = replace_all(b, ' ', '_');
    lemma_without_has_none(without_drive(path), ':');
    assert forall|i: int| 0 <= i < c.len() implies c[i] != ':' && c[i] != '\\' && c[i] != ' ' by {
        assert(b[i] == if a[i] == '\\' { '/' } else { a[i] });
    }
}

} // verus!
