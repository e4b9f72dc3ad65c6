//! Character-sequence model of the string operations used by the path
//! conversions, with executable counterparts.

use vstd::prelude::*;

verus! {

/// `c` is an ASCII letter.
pub open spec fn is_ascii_alpha(c: char) -> bool {
    ('A' <= c && c <= 'Z') || ('a' <= c && c <= 'z')
}

/// ASCII lowercase mapping of one character; every other character is kept.
pub open spec fn ascii_lower(c: char) -> char {
    if 'A' <= c && c <= 'Z' {
        ((c as u32) + 32) as char
    } else {
        c
    }
}

/// ASCII lowercase mapping of a whole sequence.
pub open spec fn lowercase(s: Seq<char>) -> Seq<char> {
    s.map_values(|c: char| ascii_lower(c))
}

/// `p` is a prefix of `s`.
pub open spec fn starts_with(s: Seq<char>, p: Seq<char>) -> bool {
    p.len() <= s.len() && s.subrange(0, p.len() as int) == p
}

/// The last character of `s` is `c`.
pub open spec fn ends_with_char(s: Seq<char>, c: char) -> bool {
    s.len() > 0 && s.last() == c
}

/// Every occurrence of `from` replaced by `to`.
pub open spec fn replace_char(s: Seq<char>, from: char, to: char) -> Seq<char> {
    s.map_values(|x: char| if x == from { to } else { x })
}

/// `s` with all leading occurrences of `c` removed.
pub open spec fn trim_start_char(s: Seq<char>, c: char) -> Seq<char>
    decreases s.len(),
{
    if s.len() > 0 && s[0] == c {
        trim_start_char(s.drop_first(), c)
    } else {
        s
    }
}

/// The pieces of `s` between occurrences of `sep`, in order: one more piece
/// than there are separators, empty pieces included.
pub open spec fn split_on(s: Seq<char>, sep: char) -> Seq<Seq<char>>
    decreases s.len(),
{
    if s.len() == 0 {
        seq![Seq::<char>::empty()]
    } else {
        let init = split_on(s.drop_last(), sep);
        if s.last() == sep {
            init.push(Seq::<char>::empty())
        } else {
            init.update(init.len() - 1, init.last().push(s.last()))
        }
    }
}

/// The pieces concatenated with `sep` between neighbours.
pub open spec fn join_with(parts: Seq<Seq<char>>, sep: char) -> Seq<char>
    decreases parts.len(),
{
    if parts.len() == 0 {
        Seq::<char>::empty()
    } else if parts.len() == 1 {
        parts[0]
    } else {
        join_with(parts.drop_last(), sep).push(sep) + parts.last()
    }
}

/// Splitting always yields at least one piece.
pub proof fn lemma_split_nonempty(s: Seq<char>, sep: char)
    ensures
        split_on(s, sep).len() >= 1,
    decreases s.len(),
{
    if s.len() > 0 {
        lemma_split_nonempty(s.drop_last(), sep);
    }
}

/// Splitting `s` extended by one character.
pub proof fn lemma_split_push(s: Seq<char>, c: char, sep: char)
    ensures
        split_on(s.push(c), sep) == (if c == sep {
            split_on(s, sep).push(Seq::<char>::empty())
        } else {
            split_on(s, sep).update(
                split_on(s, sep).len() - 1,
                split_on(s, sep).last().push(c),
            )
        }),
{
    assert(s.push(c).drop_last() =~= s);
}

/// No piece of a split contains the separator.
pub proof fn lemma_split_pieces_lack_sep(s: Seq<char>, sep: char)
    ensures
        forall|i: int| 0 <= i < split_on(s, sep).len() ==> !(#[trigger] split_on(s, sep)[i]).contains(sep),
    decreases s.len(),
{
    lemma_split_nonempty(s, sep);
    if s.len() > 0 {
        let init = split_on(s.drop_last(), sep);
        lemma_split_pieces_lack_sep(s.drop_last(), sep);
        lemma_split_nonempty(s.drop_last(), sep);
        if s.last() != sep {
            let last = init.last();
            assert(!last.contains(sep));
            assert forall|k: int| 0 <= k < last.push(s.last()).len() implies last.push(s.last())[k] != sep by {
                if k < last.len() {
                    assert(last[k] != sep);
                }
            }
        }
    }
}

/// Joining one more piece.
pub proof fn lemma_join_push(parts: Seq<Seq<char>>, p: Seq<char>, sep: char)
    ensures
        join_with(parts.push(p), sep) == (if parts.len() == 0 {
            p
        } else {
            join_with(parts, sep).push(sep) + p
        }),
{
    assert(parts.push(p).drop_last() =~= parts);
}

/// A character that is neither in any piece nor the separator is not in the join.
pub proof fn lemma_join_lacks(parts: Seq<Seq<char>>, sep: char, c: char)
    requires
        c != sep,
        forall|i: int| 0 <= i < parts.len() ==> !(#[trigger] parts[i]).contains(c),
    ensures
        !join_with(parts, sep).contains(c),
    decreases parts.len(),
{
    if parts.len() == 1 {
        assert(!parts[0].contains(c));
    } else if parts.len() > 1 {
        let init = parts.drop_last();
        assert forall|i: int| 0 <= i < init.len() implies !(#[trigger] init[i]).contains(c) by {
            assert(init[i] == parts[i]);
        }
        lemma_join_lacks(init, sep, c);
        let a = join_with(init, sep).push(sep);
        let b = parts.last();
        assert(!b.contains(c)) by {
            assert(b == parts[parts.len() - 1]);
        }
        assert forall|k: int| 0 <= k < (a + b).len() implies (a + b)[k] != c by {
            if k < a.len() {
                if k < a.len() - 1 {
                    assert(a[k] == join_with(init, sep)[k]);
                }
            } else {
                assert((a + b)[k] == b[k - a.len()]);
            }
        }
    }
}

/// The characters of `s`, in order.
pub(crate) fn chars_of(s: &str) -> (v: Vec<char>)
    ensures
        v@ == s@,
{
    let mut v: Vec<char> = Vec::new();
    for c in it: s.chars()
        invariant
            v@ == it.seq().take(it.index() as int),
            it.seq() == s@,
    {
        v.push(c);
    }
    v
}

/// Appends one character (`String::push`).
#[verifier::external_body]
pub(crate) fn push_char(s: &mut String, c: char)
    ensures
        final(s)@ == old(s)@.push(c),
{
    s.push(c);
}

/// ASCII lowercase of one character.
pub(crate) fn lower_char(c: char) -> (r: char)
    ensures
        r == ascii_lower(c),
{
    if 'A' <= c && c <= 'Z' {
        let u: u32 = (c as u32) + 32;
        let b: u8 = u as u8;
        b as char
    } else {
        c
    }
}

/// Whether `v` begins with the characters of `p`; with `fold`, `v` is
/// lowercased (ASCII) before the comparison.
pub(crate) fn has_prefix(v: &Vec<char>, p: &str, fold: bool) -> (r: bool)
    ensures
        r == starts_with(if fold { lowercase(v@) } else { v@ }, p@),
{
    let q = chars_of(p);
    if q.len() > v.len() {
        return false;
    }
    let ghost w = if fold { lowercase(v@) } else { v@ };
    let n = q.len();
    let mut i: usize = 0;
    while i < n
        invariant
            n == q@.len(),
            n <= v@.len(),
            q@ == p@,
            w == (if fold { lowercase(v@) } else { v@ }),
            w.len() == v@.len(),
            i <= n,
            forall|j: int| 0 <= j < i ==> w[j] == q@[j],
        decreases n - i,
    {
        let c = if fold { lower_char(v[i]) } else { v[i] };
        if c != q[i] {
            assert(w.subrange(0, n as int)[i as int] != q@[i as int]);
            return false;
        }
        i = i + 1;
    }
    assert(w.subrange(0, n as int) =~= q@);
    true
}

/// Whether `c` occurs in `v`.
pub(crate) fn contains_char(v: &Vec<char>, c: char) -> (r: bool)
    ensures
        r == v@.contains(c),
{
    let mut i: usize = 0;
    while i < v.len()
        invariant
            i <= v@.len(),
            forall|j: int| 0 <= j < i ==> v@[j] != c,
        decreases v@.len() - i,
    {
        if v[i] == c {
            assert(v@[i as int] == c);
            return true;
        }
        i = i + 1;
    }
    false
}

/// The number of leading occurrences of `c` in `v`.
pub(crate) fn count_leading(v: &Vec<char>, c: char) -> (n: usize)
    ensures
        n <= v@.len(),
        trim_start_char(v@, c) == v@.skip(n as int),
{
    let mut i: usize = 0;
    assert(v@.skip(0) =~= v@);
    while i < v.len() && v[i] == c
        invariant
            i <= v@.len(),
            trim_start_char(v@, c) == trim_start_char(v@.skip(i as int), c),
        decreases v@.len() - i,
    {
        assert(v@.skip(i as int).drop_first() =~= v@.skip(i + 1));
        i = i + 1;
    }
    i
}

/// Appends `v[start..]` with every `from` replaced by `to`.
pub(crate) fn append_replaced(out: &mut String, v: &Vec<char>, start: usize, from: char, to: char)
    requires
        start <= v@.len(),
    ensures
        final(out)@ == old(out)@ + replace_char(v@.skip(start as int), from, to),
{
    let mut i: usize = start;
    while i < v.len()
        invariant
            start <= i <= v@.len(),
            out@ == old(out)@ + replace_char(v@.subrange(start as int, i as int), from, to),
        decreases v@.len() - i,
    {
        let c = v[i];
        let d = if c == from { to } else { c };
        push_char(out, d);
        assert(replace_char(v@.subrange(start as int, i + 1), from, to) =~= replace_char(
            v@.subrange(start as int, i as int),
            from,
            to,
        ).push(d));
        i = i + 1;
    }
    assert(v@.subrange(start as int, v@.len() as int) =~= v@.skip(start as int));
}

/// Appends `v[start..]` unchanged.
pub(crate) fn append_chars(out: &mut String, v: &Vec<char>, start: usize)
    requires
        start <= v@.len(),
    ensures
        final(out)@ == old(out)@ + v@.skip(start as int),
{
    let mut i: usize = start;
    while i < v.len()
        invariant
            start <= i <= v@.len(),
            out@ == old(out)@ + v@.subrange(start as int, i as int),
        decreases v@.len() - i,
    {
        push_char(out, v[i]);
        assert(v@.subrange(start as int, i + 1) =~= v@.subrange(start as int, i as int).push(v@[i as int]));
        i = i + 1;
    }
    assert(v@.subrange(start as int, v@.len() as int) =~= v@.skip(start as int));
}

/// Joining the pieces of a split with the same separator gives back the
/// original sequence.
pub proof fn lemma_join_split_roundtrip(s: Seq<char>, sep: char)
    ensures
        join_with(split_on(s, sep), sep) == s,
    decreases s.len(),
{
    if s.len() > 0 {
        let t = s.drop_last();
        let x = s.last();
        assert(t.push(x) =~= s);
        lemma_join_split_roundtrip(t, sep);
        lemma_split_nonempty(t, sep);
        lemma_split_push(t, x, sep);
        let p = split_on(t, sep);
        if x == sep {
            lemma_join_push(p, Seq::<char>::empty(), sep);
            assert(join_with(p, sep).push(sep) + Seq::<char>::empty() =~= s);
        } else {
            let q = p.drop_last();
            let last = p.last();
            assert(p =~= q.push(last));
            let u = p.update(p.len() - 1, last.push(x));
            assert(u =~= q.push(last.push(x)));
            lemma_join_push(q, last.push(x), sep);
            lemma_join_push(q, last, sep);
            if q.len() == 0 {
                assert(join_with(u, sep) =~= last.push(x));
            } else {
                assert(join_with(q, sep).push(sep) + last.push(x) =~= (join_with(q, sep).push(sep)
                    + last).push(x));
            }
        }
    }
}

} // verus!
