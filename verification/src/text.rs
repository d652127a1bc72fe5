//! Small, total operations on text, each stated over the sequence of
//! characters that a string denotes.

use vstd::prelude::*;

verus! {

/// `String::push` appends exactly one character to the end of the string.
pub assume_specification[ String::push ](s: &mut String, c: char)
    ensures
        final(s)@ == old(s)@.push(c),
;

/// `s` with every occurrence of `from` replaced by `to`.
pub open spec fn replace_all(s: Seq<char>, from: char, to: char) -> Seq<char> {
    s.map_values(|c: char| if c == from { to } else { c })
}

/// `s` with every occurrence of `c` left out.
pub open spec fn without(s: Seq<char>, c: char) -> Seq<char> {
    s.filter(|x: char| x != c)
}

/// `s` without its longest prefix made of `c` alone.
pub open spec fn trim_start(s: Seq<char>, c: char) -> Seq<char>
    decreases s.len(),
{
    if s.len() > 0 && s[0] == c {
        trim_start(s.drop_first(), c)
    } else {
        s
    }
}

/// The number of leading characters of `s` that equal `c`.
pub open spec fn leading(s: Seq<char>, c: char) -> nat
    decreases s.len(),
{
    if s.len() > 0 && s[0] == c {
        1 + leading(s.drop_first(), c)
    } else {
        0
    }
}

/// Trimming removes exactly the leading run.
pub proof fn lemma_trim_start_skips_leading(s: Seq<char>, c: char)
    ensures
        leading(s, c) <= s.len(),
        trim_start(s, c) == s.skip(leading(s, c) as int),
        forall|i: int| 0 <= i < leading(s, c) ==> s[i] == c,
        leading(s, c) < s.len() ==> s[leading(s, c) as int] != c,
    decreases s.len(),
{
    if s.len() > 0 && s[0] == c {
        let rest = s.drop_first();
        lemma_trim_start_skips_leading(rest, c);
        assert(rest.skip(leading(rest, c) as int) =~= s.skip(leading(s, c) as int));
        assert forall|i: int| 0 <= i < leading(s, c) implies s[i] == c by {
            if i > 0 {
                assert(s[i] == rest[i - 1]);
            }
        }
        if leading(s, c) < s.len() {
            assert(s[leading(s, c) as int] == rest[leading(rest, c) as int]);
        }
    } else {
        assert(s.skip(0) =~= s);
    }
}

/// A copy of `s` with every `from` replaced by `to`.
pub fn replace_char(s: &str, from: char, to: char) -> (out: String)
    ensures
        out@ == replace_all(s@, from, to),
{
    let mut out = String::new();
    for c in it: s.chars()
        invariant
            it.seq() == s@,
            out@ == replace_all(s@.take(it.index() as int), from, to),
    {
        out.push(if c == from { to } else { c });
    }
    out
}

/// A copy of `s` with every `c` left out.
pub fn remove_char(s: &str, c: char) -> (out: String)
    ensures
        out@ == without(s@, c),
{
    let mut out = String::new();
    for x in it: s.chars()
        invariant
            it.seq() == s@,
            out@ == without(s@.take(it.index() as int), c),
    {
        proof {
            let n = it.index() as int;
            assert(s@.take(n + 1) =~= s@.take(n).push(s@[n]));
            lemma_without_push(s@.take(n), s@[n], c);
        }
        if x != c {
            out.push(x);
        }
    }
    proof {
        assert(s@.take(s@.len() as int) =~= s@);
    }
    out
}

/// How `without` treats one more character at the end.
pub proof fn lemma_without_push(s: Seq<char>, x: char, c: char)
    ensures
        without(s.push(x), c) == if x != c {
            without(s, c).push(x)
        } else {
            without(s, c)
        },
{
    reveal(Seq::filter);
    assert(s.push(x).drop_last() =~= s);
}

/// What is left when `c` is taken out holds no `c`.
pub proof fn lemma_without_has_none(s: Seq<char>, c: char)
    ensures
        forall|i: int| 0 <= i < without(s, c).len() ==> without(s, c)[i] != c,
    decreases s.len(),
{
    reveal(Seq::filter);
    if s.len() > 0 {
        lemma_without_has_none(s.drop_last(), c);
    }
}

/// A copy of `s` without its leading run of `c`.
pub fn trim_start_char(s: &str, c: char) -> (out: String)
    ensures
        out@ == trim_start(s@, c),
{
    let mut out = String::new();
    let mut trimming = true;
    proof {
        lemma_trim_start_skips_leading(s@, c);
    }
    for x in it: s.chars()
        invariant
            it.seq() == s@,
            leading(s@, c) <= s@.len(),
            trim_start(s@, c) == s@.skip(leading(s@, c) as int),
            forall|i: int| 0 <= i < leading(s@, c) ==> s@[i] == c,
            leading(s@, c) < s@.len() ==> s@[leading(s@, c) as int] != c,
            trimming ==> it.index() <= leading(s@, c) && out@.len() == 0,
            !trimming ==> it.index() >= leading(s@, c) && out@ == s@.subrange(
                leading(s@, c) as int,
                it.index() as int,
            ),
    {
        if trimming && x != c {
            trimming = false;
            assert(it.index() == leading(s@, c));
            assert(out@ =~= s@.subrange(leading(s@, c) as int, it.index() as int));
        }
        if !trimming {
            out.push(x);
            assert(out@ =~= s@.subrange(leading(s@, c) as int, it.index() + 1));
        }
    }
    proof {
        if trimming {
            assert(leading(s@, c) == s@.len());
            assert(out@ =~= s@.skip(leading(s@, c) as int));
        } else {
            assert(out@ =~= s@.skip(leading(s@, c) as int));
        }
    }
    out
}

/// The texts of `parts`, one after the other.
pub open spec fn concat_all(parts: Seq<Seq<char>>) -> Seq<char>
    decreases parts.len(),
{
    if parts.len() == 0 {
        Seq::empty()
    } else {
        concat_all(parts.drop_last()) + parts.last()
    }
}

/// The views of a sequence of strings.
pub open spec fn texts(v: Seq<String>) -> Seq<Seq<char>> {
    v.map_values(|s: String| s@)
}

/// All strings of `parts` joined without a separator.
pub fn join_all(parts: &Vec<String>) -> (out: String)
    ensures
        out@ == concat_all(texts(parts@)),
{
    let mut out = String::new();
    let mut i: usize = 0;
    while i < parts.len()
        invariant
            i <= parts.len(),
            out@ == concat_all(texts(parts@).take(i as int)),
        decreases parts.len() - i,
    {
        out.append(parts[i].as_str());
        proof {
            let all = texts(parts@);
            assert(all.take(i + 1).drop_last() =~= all.take(i as int));
            assert(all.take(i + 1).last() == parts@[i as int]@);
        }
        i += 1;
    }
    proof {
        assert(texts(parts@).take(parts.len() as int) =~= texts(parts@));
    }
    out
}

/// The text of an optional string.
pub open spec fn opt_view(s: Option<String>) -> Option<Seq<char>> {
    match s {
        Some(s) => Some(s@),
        None => None,
    }
}

/// The characters of `s`, in order.
pub fn chars_of(s: &str) -> (out: Vec<char>)
    ensures
        out@ == s@,
{
    let mut out: Vec<char> = Vec::new();
    for c in it: s.chars()
        invariant
            it.seq() == s@,
            out@ == s@.take(it.index() as int),
    {
        out.push(c);
        assert(out@ =~= s@.take(it.index() + 1));
    }
    assert(s@.take(s@.len() as int) =~= s@);
    out
}

/// Whether `a` and `b` are the same text.
pub fn same_text(a: &str, b: &str) -> (same: bool)
    ensures
        same == (a@ == b@),
{
    let x = a.to_owned();
    let y = b.to_owned();
    x == y
}

/// A copy of a list of strings.
pub fn clone_texts(list: &Vec<String>) -> (out: Vec<String>)
    ensures
        texts(out@) == texts(list@),
{
    let mut out: Vec<String> = Vec::new();
    let mut i: usize = 0;
    while i < list.len()
        invariant
            i <= list.len(),
            texts(out@) == texts(list@).take(i as int),
        decreases list.len() - i,
    {
        let ghost before = texts(out@);
        let item = list[i].clone();
        out.push(item);
        assert(texts(out@) =~= before.push(list@[i as int]@));
        assert(texts(out@) =~= texts(list@).take(i + 1));
        i += 1;
    }
    assert(texts(list@).take(list.len() as int) =~= texts(list@));
    out
}

/// Whether `list` holds the text of `s`.
pub fn contains_text(list: &Vec<String>, s: &str) -> (found: bool)
    ensures
        found == texts(list@).contains(s@),
{
    let mut i: usize = 0;
    while i < list.len()
        invariant
            i <= list.len(),
            forall|k: int| 0 <= k < i ==> texts(list@)[k] != s@,
        decreases list.len() - i,
    {
        if same_text(list[i].as_str(), s) {
            assert(texts(list@)[i as int] == s@);
            return true;
        }
        i += 1;
    }
    false
}

} // verus!
