//! Text and byte-sequence helpers: conversion between strings and character
//! vectors, trimming, splitting and prefix tests, each stated over `Seq`.

use vstd::prelude::*;
use crate::model::{lemma_models_bytes, lemma_models_chars, lemma_models_push, Model};

verus! {

/// Whether a character is whitespace: it has the Unicode property
/// White_Space. Those are the characters U+0009 to U+000D, U+0020, U+0085,
/// U+00A0, U+1680, U+2000 to U+200A, U+2028, U+2029, U+202F, U+205F and
/// U+3000.
pub open spec fn is_space(c: char) -> bool {
    let n = c as u32;
    (0x09 <= n <= 0x0d) || n == 0x20 || n == 0x85 || n == 0xa0 || n == 0x1680 || (0x2000 <= n
        <= 0x200a) || n == 0x2028 || n == 0x2029 || n == 0x202f || n == 0x205f || n == 0x3000
}

/// What `String::from_utf8_lossy` makes of a byte sequence.
pub uninterp spec fn lossy_text(bytes: Seq<u8>) -> Seq<char>;

/// Calls `char::is_whitespace`, which tells whether a character has the
/// Unicode property White_Space: the contract writes that set of characters
/// out.
#[verifier::external_body]
pub(crate) fn char_is_space(c: char) -> (r: bool)
    ensures
        r == is_space(c),
{
    c.is_whitespace()
}

/// Calls `String::from_utf8_lossy` and takes ownership of what it returns.
/// The result is named `lossy_text`.
#[verifier::external_body]
pub(crate) fn decode_lossy(bytes: &Vec<u8>) -> (r: String)
    ensures
        r@ == lossy_text(bytes@),
{
    String::from_utf8_lossy(bytes).into_owned()
}

/// Calls `String::push`: the character is appended.
#[verifier::external_body]
pub(crate) fn push_char(s: &mut String, c: char)
    ensures
        final(s)@ == old(s)@.push(c),
{
    s.push(c)
}

/// The characters of a string.
pub fn to_chars(s: &str) -> (r: Vec<char>)
    ensures
        r@ == s@,
{
    let mut out: Vec<char> = Vec::new();
    for c in it: s.chars()
        invariant
            it.seq() == s@,
            out@ == s@.take(it.index() as int),
    {
        assert(s@.take(it.index() as int).push(c) =~= s@.take(it.index() + 1));
        out.push(c);
    }
    assert(s@.take(s@.len() as int) =~= s@);
    out
}

/// The string made of the characters `v[from..to]`.
pub(crate) fn from_chars(v: &Vec<char>, from: usize, to: usize) -> (r: String)
    requires
        from <= to <= v.len(),
    ensures
        r@ == v@.subrange(from as int, to as int),
{
    let mut out = String::new();
    let mut i: usize = from;
    while i < to
        invariant
            from <= i <= to <= v.len(),
            out@ == v@.subrange(from as int, i as int),
        decreases to - i,
    {
        push_char(&mut out, v[i]);
        assert(v@.subrange(from as int, i as int).push(v@[i as int]) =~= v@.subrange(
            from as int,
            i + 1,
        ));
        i += 1;
    }
    out
}

/// The string with the characters of `v`.
pub fn text_of(v: &Vec<char>) -> (r: String)
    ensures
        r@ == v@,
{
    let r = from_chars(v, 0, v.len());
    assert(v@.subrange(0, v@.len() as int) =~= v@);
    r
}

/// Whether two character vectors hold the same text.
pub fn chars_eq(a: &Vec<char>, b: &Vec<char>) -> (r: bool)
    ensures
        r == (a@ == b@),
{
    if a.len() != b.len() {
        return false;
    }
    let mut i: usize = 0;
    while i < a.len()
        invariant
            a.len() == b.len(),
            i <= a.len(),
            a@.take(i as int) == b@.take(i as int),
        decreases a.len() - i,
    {
        if a[i] != b[i] {
            return false;
        }
        assert(a@.take(i + 1) =~= a@.take(i as int).push(a@[i as int]));
        assert(b@.take(i + 1) =~= b@.take(i as int).push(b@[i as int]));
        i += 1;
    }
    assert(a@.take(a@.len() as int) =~= a@);
    assert(b@.take(b@.len() as int) =~= b@);
    true
}

/// Whether two strings hold the same text.
pub fn same_text(a: &str, b: &str) -> (r: bool)
    ensures
        r == (a@ == b@),
{
    let x = to_chars(a);
    let y = to_chars(b);
    chars_eq(&x, &y)
}

/// `a` followed by `b`.
pub fn join2(a: &str, b: &str) -> (r: String)
    ensures
        r@ == a@ + b@,
{
    let mut out = String::new();
    let x = to_chars(a);
    let y = to_chars(b);
    let mut i: usize = 0;
    while i < x.len()
        invariant
            i <= x.len(),
            out@ == x@.take(i as int),
        decreases x.len() - i,
    {
        push_char(&mut out, x[i]);
        assert(x@.take(i + 1) =~= x@.take(i as int).push(x@[i as int]));
        i += 1;
    }
    assert(x@.take(x@.len() as int) =~= x@);
    let mut j: usize = 0;
    while j < y.len()
        invariant
            j <= y.len(),
            out@ == x@ + y@.take(j as int),
        decreases y.len() - j,
    {
        push_char(&mut out, y[j]);
        assert(x@ + y@.take(j + 1) =~= (x@ + y@.take(j as int)).push(y@[j as int]));
        j += 1;
    }
    assert(y@.take(y@.len() as int) =~= y@);
    out
}

/// `a`, `b` and `c` in a row.
pub fn join3(a: &str, b: &str, c: &str) -> (r: String)
    ensures
        r@ == a@ + b@ + c@,
{
    let ab = join2(a, b);
    join2(ab.as_str(), c)
}

/// `s` without its leading whitespace.
pub open spec fn skip_spaces(s: Seq<char>) -> Seq<char>
    decreases s.len(),
{
    if s.len() > 0 && is_space(s[0]) {
        skip_spaces(s.drop_first())
    } else {
        s
    }
}

/// `s` without its trailing whitespace.
pub open spec fn drop_trailing_spaces(s: Seq<char>) -> Seq<char>
    decreases s.len(),
{
    if s.len() > 0 && is_space(s.last()) {
        drop_trailing_spaces(s.drop_last())
    } else {
        s
    }
}

/// `s` without leading and trailing whitespace.
pub open spec fn trimmed(s: Seq<char>) -> Seq<char> {
    drop_trailing_spaces(skip_spaces(s))
}

/// The bounds of `v[from..to]` once whitespace is removed at both ends.
pub(crate) fn trim_bounds(v: &Vec<char>, from: usize, to: usize) -> (r: (usize, usize))
    requires
        from <= to <= v.len(),
    ensures
        from <= r.0 <= r.1 <= to,
        v@.subrange(r.0 as int, r.1 as int) == trimmed(v@.subrange(from as int, to as int)),
{
    let mut a: usize = from;
    while a < to && char_is_space(v[a])
        invariant
            from <= a <= to <= v.len(),
            skip_spaces(v@.subrange(from as int, to as int)) == skip_spaces(
                v@.subrange(a as int, to as int),
            ),
        decreases to - a,
    {
        assert(v@.subrange(a as int, to as int).drop_first() =~= v@.subrange(a + 1, to as int));
        a += 1;
    }
    let mut b: usize = to;
    while b > a && char_is_space(v[b - 1])
        invariant
            a <= b <= to <= v.len(),
            drop_trailing_spaces(v@.subrange(a as int, to as int)) == drop_trailing_spaces(
                v@.subrange(a as int, b as int),
            ),
        decreases b - a,
    {
        assert(v@.subrange(a as int, b as int).drop_last() =~= v@.subrange(a as int, b - 1));
        b -= 1;
    }
    (a, b)
}

/// `s` without leading and trailing whitespace, as `str::trim` gives it.
pub fn trim(s: &str) -> (r: String)
    ensures
        r@ == trimmed(s@),
{
    let v = to_chars(s);
    assert(v@.subrange(0, v@.len() as int) =~= v@);
    let (a, b) = trim_bounds(&v, 0, v.len());
    from_chars(&v, a, b)
}

/// Whether `s` begins with `prefix`.
pub open spec fn has_prefix<T>(s: Seq<T>, prefix: Seq<T>) -> bool {
    prefix.len() <= s.len() && s.take(prefix.len() as int) == prefix
}

/// Whether `s` ends with `suffix`.
pub open spec fn has_suffix<T>(s: Seq<T>, suffix: Seq<T>) -> bool {
    suffix.len() <= s.len() && s.skip(s.len() - suffix.len()) == suffix
}

/// Whether `needle` occurs in `s` as a run of consecutive items.
pub open spec fn has_infix<T>(s: Seq<T>, needle: Seq<T>) -> bool {
    exists|i: int| 0 <= i <= s.len() - needle.len() && #[trigger] s.subrange(i, i + needle.len()) == needle
}

/// Whether `v[at..]` begins with `pat`.
pub(crate) fn matches_at(v: &Vec<char>, at: usize, pat: &Vec<char>) -> (r: bool)
    requires
        at <= v.len(),
    ensures
        r == has_prefix(v@.skip(at as int), pat@),
{
    if pat.len() > v.len() - at {
        return false;
    }
    let mut i: usize = 0;
    while i < pat.len()
        invariant
            at <= v.len(),
            pat.len() <= v.len() - at,
            i <= pat.len(),
            v@.skip(at as int).take(i as int) == pat@.take(i as int),
        decreases pat.len() - i,
    {
        if v[at + i] != pat[i] {
            assert(v@.skip(at as int).take(pat@.len() as int)[i as int] != pat@[i as int]);
            return false;
        }
        assert(v@.skip(at as int).take(i + 1) =~= v@.skip(at as int).take(i as int).push(
            v@[at + i],
        ));
        assert(pat@.take(i + 1) =~= pat@.take(i as int).push(pat@[i as int]));
        i += 1;
    }
    assert(pat@.take(pat@.len() as int) =~= pat@);
    true
}

/// Whether `s` begins with `prefix`, as `str::starts_with` tells.
pub fn starts_with(s: &str, prefix: &str) -> (r: bool)
    ensures
        r == has_prefix(s@, prefix@),
{
    let v = to_chars(s);
    let p = to_chars(prefix);
    assert(v@.skip(0) =~= v@);
    matches_at(&v, 0, &p)
}

/// Whether `s` ends with `suffix`, as `str::ends_with` tells.
pub fn ends_with(s: &str, suffix: &str) -> (r: bool)
    ensures
        r == has_suffix(s@, suffix@),
{
    let v = to_chars(s);
    let p = to_chars(suffix);
    if p.len() > v.len() {
        return false;
    }
    let at: usize = v.len() - p.len();
    let r = matches_at(&v, at, &p);
    assert(v@.skip(at as int).take(p@.len() as int) =~= v@.skip(at as int));
    r
}

/// Whether `needle` occurs in `s`, as `str::contains` tells.
pub fn contains(s: &str, needle: &str) -> (r: bool)
    ensures
        r == has_infix(s@, needle@),
{
    let v = to_chars(s);
    let p = to_chars(needle);
    if p.len() > v.len() {
        return false;
    }
    let last: usize = v.len() - p.len();
    let mut i: usize = 0;
    loop
        invariant
            v@ == s@,
            p@ == needle@,
            last == v.len() - p.len(),
            i <= last,
            forall|k: int| 0 <= k < i ==> #[trigger] v@.subrange(k, k + p@.len()) != p@,
        decreases last - i,
    {
        let hit = matches_at(&v, i, &p);
        assert(v@.skip(i as int).take(p@.len() as int) =~= v@.subrange(i as int, i + p@.len()));
        if hit {
            return true;
        }
        if i == last {
            return false;
        }
        i += 1;
    }
}

/// The rest of `s` after `prefix`, or `None` where `s` does not begin with it.
pub open spec fn without_prefix<T>(s: Seq<T>, prefix: Seq<T>) -> Option<Seq<T>> {
    if has_prefix(s, prefix) {
        Some(s.skip(prefix.len() as int))
    } else {
        None
    }
}

/// What stands before `suffix` in `s`, or `None` where `s` does not end with it.
pub open spec fn without_suffix<T>(s: Seq<T>, suffix: Seq<T>) -> Option<Seq<T>> {
    if has_suffix(s, suffix) {
        Some(s.take(s.len() - suffix.len()))
    } else {
        None
    }
}

/// `str::strip_prefix`, with an owned result.
pub fn strip_prefix(s: &str, prefix: &str) -> (r: Option<String>)
    ensures
        r.model() == without_prefix(s@, prefix@),
{
    let v = to_chars(s);
    let p = to_chars(prefix);
    assert(v@.skip(0) =~= v@);
    if matches_at(&v, 0, &p) {
        let rest = from_chars(&v, p.len(), v.len());
        assert(v@.subrange(p@.len() as int, v@.len() as int) =~= v@.skip(p@.len() as int));
        Some(rest)
    } else {
        None
    }
}

/// `str::strip_suffix`, with an owned result.
pub fn strip_suffix(s: &str, suffix: &str) -> (r: Option<String>)
    ensures
        r.model() == without_suffix(s@, suffix@),
{
    let v = to_chars(s);
    let p = to_chars(suffix);
    if p.len() > v.len() {
        return None;
    }
    let at: usize = v.len() - p.len();
    let hit = matches_at(&v, at, &p);
    assert(v@.skip(at as int).take(p@.len() as int) =~= v@.skip(at as int));
    if hit {
        let rest = from_chars(&v, 0, at);
        assert(v@.subrange(0, at as int) =~= v@.take(at as int));
        Some(rest)
    } else {
        None
    }
}

/// The index of the first item of `s` equal to `sep`, or `s.len()` where there is none.
pub open spec fn find<T>(s: Seq<T>, sep: T) -> int
    decreases s.len(),
{
    if s.len() == 0 || s[0] == sep {
        0
    } else {
        1 + find(s.drop_first(), sep)
    }
}

/// The pieces of `s` between occurrences of `sep`: one more piece than there
/// are separators, empty pieces included.
pub open spec fn split<T>(s: Seq<T>, sep: T) -> Seq<Seq<T>>
    decreases s.len(),
{
    let k = find(s, sep);
    if 0 <= k < s.len() {
        seq![s.take(k)] + split(s.skip(k + 1), sep)
    } else {
        seq![s]
    }
}

/// `find` is the position `k` when no item before `k` is the separator and
/// the item at `k`, if any, is.
pub proof fn lemma_find_at<T>(s: Seq<T>, sep: T, k: int)
    requires
        0 <= k <= s.len(),
        forall|j: int| 0 <= j < k ==> s[j] != sep,
        k < s.len() ==> s[k] == sep,
    ensures
        find(s, sep) == k,
    decreases k,
{
    if k > 0 {
        let t = s.drop_first();
        assert forall|j: int| 0 <= j < k - 1 implies t[j] != sep by {
            assert(t[j] == s[j + 1]);
        }
        lemma_find_at(t, sep, k - 1);
    }
}

/// The pieces of `v` between occurrences of `sep`.
pub fn split_chars(v: &Vec<char>, sep: char) -> (r: Vec<Vec<char>>)
    ensures
        r.model() == split(v@, sep),
        r.len() >= 1,
{
    let mut pieces: Vec<Vec<char>> = Vec::new();
    let mut cur: Vec<char> = Vec::new();
    let mut start: usize = 0;
    let mut i: usize = 0;
    assert(v@.skip(0) =~= v@);
    assert(pieces.model() =~= Seq::<Seq<char>>::empty());
    assert(pieces.model() + split(v@.skip(0), sep) =~= split(v@, sep));
    while i < v.len()
        invariant
            start <= i <= v.len(),
            cur@ == v@.subrange(start as int, i as int),
            forall|j: int| start <= j < i ==> v@[j] != sep,
            split(v@, sep) == pieces.model() + split(v@.skip(start as int), sep),
        decreases v.len() - i,
    {
        if v[i] == sep {
            proof {
                let rest = v@.skip(start as int);
                lemma_find_at(rest, sep, i - start);
                assert(rest.take(i - start) =~= cur@);
                assert(rest.skip(i - start + 1) =~= v@.skip(i + 1));
                lemma_models_chars(cur@);
                lemma_models_push(pieces@, cur);
            }
            let ghost before = pieces.model();
            pieces.push(cur);
            assert(pieces.model() =~= before.push(v@.subrange(start as int, i as int)));
            assert(before.push(v@.subrange(start as int, i as int)) + split(v@.skip(i + 1), sep)
                =~= before + (seq![v@.subrange(start as int, i as int)] + split(
                v@.skip(i + 1),
                sep,
            )));
            cur = Vec::new();
            start = i + 1;
            assert(v@.subrange(start as int, start as int) =~= Seq::<char>::empty());
        } else {
            cur.push(v[i]);
            assert(v@.subrange(start as int, i + 1) =~= v@.subrange(start as int, i as int).push(
                v@[i as int],
            ));
        }
        i += 1;
    }
    proof {
        let rest = v@.skip(start as int);
        lemma_find_at(rest, sep, v@.len() - start);
        assert(rest =~= cur@);
        lemma_models_chars(cur@);
        lemma_models_push(pieces@, cur);
    }
    let ghost before = pieces.model();
    pieces.push(cur);
    assert(pieces.model() =~= before.push(v@.skip(start as int)));
    assert(before.push(v@.skip(start as int)) =~= before + seq![v@.skip(start as int)]);
    pieces
}

/// The pieces of `v` between occurrences of the byte `sep`.
pub fn split_bytes(v: &Vec<u8>, sep: u8) -> (r: Vec<Vec<u8>>)
    ensures
        r.model() == split(v@, sep),
        r.len() >= 1,
{
    let mut pieces: Vec<Vec<u8>> = Vec::new();
    let mut cur: Vec<u8> = Vec::new();
    let mut start: usize = 0;
    let mut i: usize = 0;
    assert(v@.skip(0) =~= v@);
    assert(pieces.model() =~= Seq::<Seq<u8>>::empty());
    assert(pieces.model() + split(v@.skip(0), sep) =~= split(v@, sep));
    while i < v.len()
        invariant
            start <= i <= v.len(),
            cur@ == v@.subrange(start as int, i as int),
            forall|j: int| start <= j < i ==> v@[j] != sep,
            split(v@, sep) == pieces.model() + split(v@.skip(start as int), sep),
        decreases v.len() - i,
    {
        if v[i] == sep {
            proof {
                let rest = v@.skip(start as int);
                lemma_find_at(rest, sep, i - start);
                assert(rest.take(i - start) =~= cur@);
                assert(rest.skip(i - start + 1) =~= v@.skip(i + 1));
                lemma_models_bytes(cur@);
                lemma_models_push(pieces@, cur);
            }
            let ghost before = pieces.model();
            pieces.push(cur);
            assert(pieces.model() =~= before.push(v@.subrange(start as int, i as int)));
            assert(before.push(v@.subrange(start as int, i as int)) + split(v@.skip(i + 1), sep)
                =~= before + (seq![v@.subrange(start as int, i as int)] + split(
                v@.skip(i + 1),
                sep,
            )));
            cur = Vec::new();
            start = i + 1;
            assert(v@.subrange(start as int, start as int) =~= Seq::<u8>::empty());
        } else {
            cur.push(v[i]);
            assert(v@.subrange(start as int, i + 1) =~= v@.subrange(start as int, i as int).push(
                v@[i as int],
            ));
        }
        i += 1;
    }
    proof {
        let rest = v@.skip(start as int);
        lemma_find_at(rest, sep, v@.len() - start);
        assert(rest =~= cur@);
        lemma_models_bytes(cur@);
        lemma_models_push(pieces@, cur);
    }
    let ghost before = pieces.model();
    pieces.push(cur);
    assert(pieces.model() =~= before.push(v@.skip(start as int)));
    assert(before.push(v@.skip(start as int)) =~= before + seq![v@.skip(start as int)]);
    pieces
}

/// A line without the carriage return that stood before its line feed.
pub open spec fn strip_cr(line: Seq<char>) -> Seq<char> {
    if line.len() > 0 && line.last() == '\r' {
        line.drop_last()
    } else {
        line
    }
}

/// The lines of a text as `str::lines` gives them: the text is cut at every
/// line feed, a carriage return just before a line feed goes with it, and
/// what follows the last line feed is a line only if it is not empty.
pub open spec fn lines_of(s: Seq<char>) -> Seq<Seq<char>> {
    let pieces = split(s, '\n');
    let ended = pieces.drop_last().map_values(|l: Seq<char>| strip_cr(l));
    if pieces.last().len() == 0 {
        ended
    } else {
        ended.push(pieces.last())
    }
}

/// The lines of `s`.
pub fn lines(s: &str) -> (r: Vec<Vec<char>>)
    ensures
        r.model() == lines_of(s@),
{
    let v = to_chars(s);
    let mut pieces = split_chars(&v, '\n');
    let ghost all = pieces.model();
    let n: usize = pieces.len();
    let mut out: Vec<Vec<char>> = Vec::new();
    let mut i: usize = 0;
    assert(out.model() =~= all.take(0).map_values(|l: Seq<char>| strip_cr(l)));
    while i < n
        invariant
            n == pieces.len(),
            n >= 1,
            i <= n,
            pieces.model() == all,
            all == split(s@, '\n'),
            i < n ==> out.model() == all.take(i as int).map_values(|l: Seq<char>| strip_cr(l)),
            i == n ==> out.model() == lines_of(s@),
        decreases n - i,
    {
        let piece = &pieces[i];
        proof {
            lemma_models_chars(piece@);
        }
        assert(all[i as int] == piece.model());
        let ghost before = out.model();
        if i + 1 < n {
            let m: usize = piece.len();
            let mut line: Vec<char> = Vec::new();
            let keep: usize = if m > 0 && piece[m - 1] == '\r' {
                m - 1
            } else {
                m
            };
            let mut j: usize = 0;
            while j < keep
                invariant
                    keep <= piece.len(),
                    j <= keep,
                    line@ == piece@.take(j as int),
                decreases keep - j,
            {
                line.push(piece[j]);
                assert(piece@.take(j + 1) =~= piece@.take(j as int).push(piece@[j as int]));
                j += 1;
            }
            assert(line@ =~= strip_cr(piece@));
            proof {
                lemma_models_chars(line@);
                lemma_models_push(out@, line);
            }
            out.push(line);
            assert(out.model() =~= before.push(strip_cr(all[i as int])));
            assert(all.take(i + 1).map_values(|l: Seq<char>| strip_cr(l)) =~= all.take(
                i as int,
            ).map_values(|l: Seq<char>| strip_cr(l)).push(strip_cr(all[i as int])));
            if i + 2 == n {
                assert(all.take(i + 1) =~= all.drop_last());
            }
        } else {
            assert(all.take(i as int) =~= all.drop_last());
            if piece.len() > 0 {
                let mut line: Vec<char> = Vec::new();
                let mut j: usize = 0;
                while j < piece.len()
                    invariant
                        j <= piece.len(),
                        line@ == piece@.take(j as int),
                    decreases piece.len() - j,
                {
                    line.push(piece[j]);
                    assert(piece@.take(j + 1) =~= piece@.take(j as int).push(piece@[j as int]));
                    j += 1;
                }
                assert(piece@.take(piece@.len() as int) =~= piece@);
                proof {
                lemma_models_chars(line@);
                lemma_models_push(out@, line);
            }
                out.push(line);
                assert(out.model() =~= before.push(all.last()));
            }
        }
        i += 1;
    }
    out
}

/// The decimal digit for `d`, `'0'` where `d` is no digit.
pub open spec fn digit(d: int) -> char {
    if d == 1 {
        '1'
    } else if d == 2 {
        '2'
    } else if d == 3 {
        '3'
    } else if d == 4 {
        '4'
    } else if d == 5 {
        '5'
    } else if d == 6 {
        '6'
    } else if d == 7 {
        '7'
    } else if d == 8 {
        '8'
    } else if d == 9 {
        '9'
    } else {
        '0'
    }
}

/// The decimal numeral of `n`, without leading zeros.
pub open spec fn decimal(n: nat) -> Seq<char>
    decreases n,
{
    if n < 10 {
        seq![digit(n as int)]
    } else {
        decimal(n / 10).push(digit((n % 10) as int))
    }
}

fn digit_char(d: usize) -> (r: char)
    requires
        d < 10,
    ensures
        r == digit(d as int),
{
    if d == 1 {
        '1'
    } else if d == 2 {
        '2'
    } else if d == 3 {
        '3'
    } else if d == 4 {
        '4'
    } else if d == 5 {
        '5'
    } else if d == 6 {
        '6'
    } else if d == 7 {
        '7'
    } else if d == 8 {
        '8'
    } else if d == 9 {
        '9'
    } else {
        '0'
    }
}

fn decimal_chars(n: usize) -> (r: Vec<char>)
    ensures
        r@ == decimal(n as nat),
    decreases n,
{
    if n < 10 {
        let mut v: Vec<char> = Vec::new();
        v.push(digit_char(n));
        assert(v@ =~= seq![digit(n as int)]);
        v
    } else {
        let mut v = decimal_chars(n / 10);
        v.push(digit_char(n % 10));
        v
    }
}

/// The decimal numeral of `n`, as formatting a `usize` gives it.
pub fn decimal_text(n: usize) -> (r: String)
    ensures
        r@ == decimal(n as nat),
{
    let v = decimal_chars(n);
    text_of(&v)
}

/// A copy of a byte vector.
pub fn copy_bytes(v: &Vec<u8>) -> (r: Vec<u8>)
    ensures
        r@ == v@,
{
    let mut out: Vec<u8> = Vec::new();
    let mut i: usize = 0;
    while i < v.len()
        invariant
            i <= v.len(),
            out@ == v@.take(i as int),
        decreases v.len() - i,
    {
        out.push(v[i]);
        assert(v@.take(i + 1) =~= v@.take(i as int).push(v@[i as int]));
        i += 1;
    }
    assert(v@.take(v@.len() as int) =~= v@);
    out
}

} // verus!
