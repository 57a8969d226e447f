//! Character-level text utilities shared by the whole crate: whitespace
//! classification, trimming, and conversions between `&str`/`String` and
//! `Vec<char>`, with exact sequence-level contracts.

use vstd::prelude::*;
use vstd::std_specs::iter::IteratorSpec;

verus! {

broadcast use vstd::string::group_string_axioms;

/// The Unicode whitespace characters, as `char::is_whitespace` classifies
/// them: the ASCII controls and space, NEL, NBSP, Ogham space, the general
/// punctuation spaces, the line and paragraph separators, and the
/// ideographic space.
pub open spec fn is_ws_char(c: char) -> bool {
    ||| c == '\u{0009}'
    ||| c == '\u{000A}'
    ||| c == '\u{000B}'
    ||| c == '\u{000C}'
    ||| c == '\u{000D}'
    ||| c == '\u{0020}'
    ||| c == '\u{0085}'
    ||| c == '\u{00A0}'
    ||| c == '\u{1680}'
    ||| c == '\u{2000}'
    ||| c == '\u{2001}'
    ||| c == '\u{2002}'
    ||| c == '\u{2003}'
    ||| c == '\u{2004}'
    ||| c == '\u{2005}'
    ||| c == '\u{2006}'
    ||| c == '\u{2007}'
    ||| c == '\u{2008}'
    ||| c == '\u{2009}'
    ||| c == '\u{200A}'
    ||| c == '\u{2028}'
    ||| c == '\u{2029}'
    ||| c == '\u{202F}'
    ||| c == '\u{205F}'
    ||| c == '\u{3000}'
}

/// Runtime test for [`is_ws_char`].
pub fn is_ws(c: char) -> (b: bool)
    ensures
        b == is_ws_char(c),
{
    match c {
        '\u{0009}' | '\u{000A}' | '\u{000B}' | '\u{000C}' | '\u{000D}' | '\u{0020}'
        | '\u{0085}' | '\u{00A0}' | '\u{1680}' | '\u{2000}' | '\u{2001}' | '\u{2002}'
        | '\u{2003}' | '\u{2004}' | '\u{2005}' | '\u{2006}' | '\u{2007}' | '\u{2008}'
        | '\u{2009}' | '\u{200A}' | '\u{2028}' | '\u{2029}' | '\u{202F}' | '\u{205F}'
        | '\u{3000}' => true,
        _ => false,
    }
}

/// The sequence with leading and trailing whitespace removed.
pub open spec fn trim_spec(s: Seq<char>) -> Seq<char>
    decreases s.len(),
{
    if s.len() == 0 {
        s
    } else if is_ws_char(s[0]) {
        trim_spec(s.subrange(1, s.len() as int))
    } else if is_ws_char(s[s.len() - 1]) {
        trim_spec(s.subrange(0, s.len() - 1))
    } else {
        s
    }
}

/// Trims leading and trailing whitespace from a character sequence.
pub fn trim_chars(s: &Vec<char>) -> (r: Vec<char>)
    ensures
        r@ == trim_spec(s@),
{
    let mut lo: usize = 0;
    let mut hi: usize = s.len();
    proof {
        assert(s@.subrange(0, s@.len() as int) =~= s@);
    }
    loop
        invariant
            lo <= hi <= s@.len(),
            trim_spec(s@) == trim_spec(s@.subrange(lo as int, hi as int)),
        ensures
            lo <= hi <= s@.len(),
            trim_spec(s@) == trim_spec(s@.subrange(lo as int, hi as int)),
            lo < hi ==> !is_ws_char(s@[lo as int]),
        decreases hi - lo,
    {
        if lo < hi && is_ws(s[lo]) {
            proof {
                let sub = s@.subrange(lo as int, hi as int);
                assert(sub.subrange(1, sub.len() as int) =~= s@.subrange(
                    lo as int + 1,
                    hi as int,
                ));
            }
            lo = lo + 1;
        } else {
            break;
        }
    }
    loop
        invariant
            lo <= hi <= s@.len(),
            trim_spec(s@) == trim_spec(s@.subrange(lo as int, hi as int)),
            lo < hi ==> !is_ws_char(s@[lo as int]),
        ensures
            lo <= hi <= s@.len(),
            trim_spec(s@) == trim_spec(s@.subrange(lo as int, hi as int)),
            lo < hi ==> !is_ws_char(s@[lo as int]),
            lo < hi ==> !is_ws_char(s@[hi as int - 1]),
        decreases hi - lo,
    {
        if lo < hi && is_ws(s[hi - 1]) {
            proof {
                let sub = s@.subrange(lo as int, hi as int);
                assert(sub.subrange(0, sub.len() - 1) =~= s@.subrange(lo as int, hi as int - 1));
            }
            hi = hi - 1;
        } else {
            break;
        }
    }
    let mut r: Vec<char> = Vec::new();
    let mut k: usize = lo;
    while k < hi
        invariant
            lo <= k <= hi <= s@.len(),
            r@ == s@.subrange(lo as int, k as int),
        decreases hi - k,
    {
        r.push(s[k]);
        proof {
            assert(s@.subrange(lo as int, k as int).push(s@[k as int]) =~= s@.subrange(
                lo as int,
                k as int + 1,
            ));
        }
        k = k + 1;
    }
    proof {
        let sub = s@.subrange(lo as int, hi as int);
        if lo == hi {
            assert(sub.len() == 0);
        }
        assert(r@ == trim_spec(s@));
    }
    r
}

/// Collects the characters of a string slice into a vector, preserving the
/// character sequence.
pub fn str_to_chars(s: &str) -> (v: Vec<char>)
    ensures
        v@ == s@,
{
    let mut it = s.chars();
    let mut v: Vec<char> = Vec::new();
    loop
        invariant
            v@ + it.remaining() == s@,
            it.obeys_prophetic_iter_laws(),
            it.decrease() is Some,
        ensures
            v@ == s@,
        decreases it.decrease()->0,
    {
        match it.next() {
            Some(c) => {
                v.push(c);
                proof {
                    assert(v@ + it.remaining() =~= s@);
                }
            },
            None => {
                proof {
                    assert(v@ + it.remaining() =~= v@);
                }
                break;
            },
        }
    }
    v
}

/// Relies on `String`'s `FromIterator` implementation (via `Iterator::collect`):
/// the collected string holds exactly the given characters, in order.
#[verifier::external_body]
pub fn chars_to_string(v: &Vec<char>) -> (s: String)
    ensures
        s@ == v@,
{
    v.iter().collect()
}

/// Index of the first occurrence of `c` in `s`, or `-1` if `s` does not
/// contain `c`.
pub open spec fn find_first(s: Seq<char>, c: char) -> int
    decreases s.len(),
{
    if s.len() == 0 {
        -1
    } else if s[0] == c {
        0
    } else {
        let r = find_first(s.subrange(1, s.len() as int), c);
        if r == -1 {
            -1
        } else {
            r + 1
        }
    }
}

pub proof fn lemma_find_first(s: Seq<char>, c: char)
    ensures
        find_first(s, c) == -1 ==> forall|i: int| 0 <= i < s.len() ==> s[i] != c,
        find_first(s, c) != -1 ==> 0 <= find_first(s, c) < s.len() && s[find_first(s, c)] == c
            && (forall|i: int| 0 <= i < find_first(s, c) ==> s[i] != c),
    decreases s.len(),
{
    if s.len() > 0 && s[0] != c {
        let tail = s.subrange(1, s.len() as int);
        lemma_find_first(tail, c);
        assert(forall|i: int| 1 <= i < s.len() ==> s[i] == tail[i - 1]);
    }
}

/// The comma-style split of `s` at separator `c`: always at least one part,
/// and the parts never contain `c` themselves.
pub open spec fn split_spec(s: Seq<char>, c: char) -> Seq<Seq<char>>
    decreases s.len(),
{
    let i = find_first(s, c);
    if 0 <= i < s.len() {
        seq![s.subrange(0, i)] + split_spec(s.subrange(i + 1, s.len() as int), c)
    } else {
        seq![s]
    }
}

pub proof fn lemma_split_basic(s: Seq<char>, c: char)
    ensures
        split_spec(s, c).len() >= 1,
        forall|k: int, j: int|
            0 <= k < split_spec(s, c).len() && 0 <= j < split_spec(s, c)[k].len()
                ==> split_spec(s, c)[k][j] != c,
    decreases s.len(),
{
    lemma_find_first(s, c);
    let i = find_first(s, c);
    if 0 <= i < s.len() {
        lemma_split_basic(s.subrange(i + 1, s.len() as int), c);
    }
}

/// If `s` does not contain `c`, the split is just `s` itself.
pub proof fn lemma_split_whole(s: Seq<char>, c: char)
    requires
        forall|i: int| 0 <= i < s.len() ==> s[i] != c,
    ensures
        split_spec(s, c) == seq![s],
{
    lemma_find_first(s, c);
}

/// Splitting `a + [c] + b` where `a` is free of `c` yields `a` followed by
/// the split of `b`.
pub proof fn lemma_split_app(a: Seq<char>, b: Seq<char>, c: char)
    requires
        forall|i: int| 0 <= i < a.len() ==> a[i] != c,
    ensures
        split_spec(a + seq![c] + b, c) == seq![a] + split_spec(b, c),
    decreases a.len(),
{
    let s = a + seq![c] + b;
    lemma_find_first(s, c);
    assert(s[a.len() as int] == c);
    let i = find_first(s, c);
    assert(forall|j: int| 0 <= j < a.len() ==> s[j] == a[j]);
    assert(i == a.len());
    assert(s.subrange(0, i) =~= a);
    assert(s.subrange(i + 1, s.len() as int) =~= b);
}

pub proof fn lemma_find_first_app(u: Seq<char>, v: Seq<char>, c: char)
    requires
        forall|i: int| 0 <= i < u.len() ==> u[i] != c,
    ensures
        find_first(u + v, c) == if find_first(v, c) == -1 {
            -1
        } else {
            u.len() + find_first(v, c)
        },
    decreases u.len(),
{
    if u.len() == 0 {
        assert(u + v =~= v);
    } else {
        let s = u + v;
        let tail = u.subrange(1, u.len() as int);
        assert(s.len() > 0);
        assert(s[0] == u[0]);
        assert(s[0] != c);
        assert(s.subrange(1, s.len() as int) =~= tail + v);
        assert(forall|i: int| 0 <= i < tail.len() ==> tail[i] != c);
        lemma_find_first_app(tail, v, c);
        assert(find_first(s, c) == (if find_first(tail + v, c) == -1 {
            -1
        } else {
            find_first(tail + v, c) + 1
        }));
        if find_first(v, c) == -1 {
            assert(find_first(tail + v, c) == -1);
            assert(find_first(s, c) == -1);
        } else {
            lemma_find_first(v, c);
            assert(find_first(tail + v, c) == tail.len() + find_first(v, c));
            assert(find_first(tail + v, c) != -1);
            assert(find_first(s, c) == tail.len() + find_first(v, c) + 1);
            assert(tail.len() + 1 == u.len());
            assert(find_first(s, c) == u.len() + find_first(v, c));
        }
    }
}

/// Prefixing a separator-free run onto `v` only lengthens the first part of
/// the split.
pub proof fn lemma_split_prepend(u: Seq<char>, v: Seq<char>, c: char)
    requires
        forall|i: int| 0 <= i < u.len() ==> u[i] != c,
    ensures
        split_spec(u + v, c) == seq![u + split_spec(v, c)[0]] + split_spec(v, c).subrange(
            1,
            split_spec(v, c).len() as int,
        ),
{
    lemma_find_first_app(u, v, c);
    lemma_find_first(v, c);
    lemma_find_first(u + v, c);
    lemma_split_basic(v, c);
    let s = u + v;
    let i = find_first(v, c);
    if i == -1 {
        assert(split_spec(s, c) == seq![s]);
        assert(split_spec(v, c) == seq![v]);
        assert(split_spec(v, c).subrange(1, 1) =~= Seq::<Seq<char>>::empty());
        assert(seq![u + v] + Seq::<Seq<char>>::empty() =~= seq![s]);
    } else {
        let k = u.len() + i;
        assert(find_first(s, c) == k);
        assert(s.subrange(0, k as int) =~= u + v.subrange(0, i));
        assert(s.subrange(k as int + 1, s.len() as int) =~= v.subrange(i + 1, v.len() as int));
        assert(split_spec(s, c) == seq![u + v.subrange(0, i)] + split_spec(
            v.subrange(i + 1, v.len() as int),
            c,
        ));
        assert(split_spec(v, c) == seq![v.subrange(0, i)] + split_spec(
            v.subrange(i + 1, v.len() as int),
            c,
        ));
        assert(split_spec(v, c)[0] == v.subrange(0, i));
        assert(split_spec(v, c).subrange(1, split_spec(v, c).len() as int) =~= split_spec(
            v.subrange(i + 1, v.len() as int),
            c,
        ));
    }
}

/// Leading whitespace does not change what trimming yields.
pub proof fn lemma_trim_prepend_ws(w: char, p: Seq<char>)
    requires
        is_ws_char(w),
    ensures
        trim_spec(seq![w] + p) == trim_spec(p),
{
    let s = seq![w] + p;
    assert(s[0] == w);
    assert(s.subrange(1, s.len() as int) =~= p);
}

/// Joins a sequence of parts with the separator sequence `sep` between
/// consecutive parts.
pub open spec fn join_spec(parts: Seq<Seq<char>>, sep: Seq<char>) -> Seq<char>
    decreases parts.len(),
{
    if parts.len() == 0 {
        Seq::empty()
    } else if parts.len() == 1 {
        parts[0]
    } else {
        parts[0] + sep + join_spec(parts.subrange(1, parts.len() as int), sep)
    }
}

pub proof fn lemma_join_push(parts: Seq<Seq<char>>, x: Seq<char>, sep: Seq<char>)
    ensures
        parts.len() == 0 ==> join_spec(parts.push(x), sep) == x,
        parts.len() > 0 ==> join_spec(parts.push(x), sep) == join_spec(parts, sep) + sep + x,
    decreases parts.len(),
{
    let p = parts.push(x);
    if parts.len() == 0 {
        assert(p.len() == 1);
    } else if parts.len() == 1 {
        assert(p.subrange(1, p.len() as int) =~= seq![x]);
        assert(join_spec(seq![x], sep) == x);
        assert(join_spec(p, sep) == p[0] + sep + x);
        assert(p[0] == parts[0]);
    } else {
        let tail = parts.subrange(1, parts.len() as int);
        lemma_join_push(tail, x, sep);
        assert(p.subrange(1, p.len() as int) =~= tail.push(x));
        assert(p[0] == parts[0]);
        assert(join_spec(p, sep) == parts[0] + sep + (join_spec(tail, sep) + sep + x));
        assert(parts[0] + sep + (join_spec(tail, sep) + sep + x) =~= (parts[0] + sep + join_spec(
            tail,
            sep,
        )) + sep + x);
    }
}

/// The views of a sequence of character vectors.
pub open spec fn views_of(parts: Seq<Vec<char>>) -> Seq<Seq<char>> {
    parts.map_values(|p: Vec<char>| p@)
}

/// Splits a character vector at every occurrence of `c`.
pub fn split_chars(s: &Vec<char>, c: char) -> (parts: Vec<Vec<char>>)
    ensures
        views_of(parts@) == split_spec(s@, c),
{
    let mut parts: Vec<Vec<char>> = Vec::new();
    let mut cur: Vec<char> = Vec::new();
    let mut i: usize = 0;
    proof {
        assert(cur@ + s@.subrange(0, s@.len() as int) =~= s@);
        assert(views_of(parts@) + split_spec(s@, c) =~= split_spec(s@, c));
    }
    while i < s.len()
        invariant
            i <= s@.len(),
            forall|j: int| 0 <= j < cur@.len() ==> cur@[j] != c,
            split_spec(s@, c) == views_of(parts@) + split_spec(
                cur@ + s@.subrange(i as int, s@.len() as int),
                c,
            ),
        decreases s@.len() - i,
    {
        let ch = s[i];
        if ch == c {
            proof {
                let rest = s@.subrange(i as int + 1, s@.len() as int);
                lemma_split_app(cur@, rest, c);
                assert(cur@ + s@.subrange(i as int, s@.len() as int) =~= cur@ + seq![c] + rest);
                assert(views_of(parts@.push(cur)) =~= views_of(parts@).push(cur@));
                assert(views_of(parts@) + (seq![cur@] + split_spec(rest, c)) =~= views_of(
                    parts@.push(cur),
                ) + split_spec(rest, c));
                assert(Seq::<char>::empty() + rest =~= rest);
            }
            parts.push(cur);
            cur = Vec::new();
        } else {
            proof {
                assert(cur@.push(ch) + s@.subrange(i as int + 1, s@.len() as int) =~= cur@
                    + s@.subrange(i as int, s@.len() as int));
            }
            cur.push(ch);
        }
        i = i + 1;
    }
    proof {
        assert(cur@ + s@.subrange(s@.len() as int, s@.len() as int) =~= cur@);
        lemma_split_whole(cur@, c);
        assert(views_of(parts@.push(cur)) =~= views_of(parts@).push(cur@));
        assert(views_of(parts@) + seq![cur@] =~= views_of(parts@.push(cur)));
    }
    parts.push(cur);
    parts
}

/// Appends every character of `piece` to `out`.
pub fn push_all(out: &mut Vec<char>, piece: &Vec<char>)
    ensures
        final(out)@ == old(out)@ + piece@,
{
    let mut j: usize = 0;
    while j < piece.len()
        invariant
            j <= piece@.len(),
            out@ == old(out)@ + piece@.subrange(0, j as int),
        decreases piece@.len() - j,
    {
        proof {
            assert((old(out)@ + piece@.subrange(0, j as int)).push(piece@[j as int]) =~= old(out)@
                + piece@.subrange(0, j as int + 1));
        }
        out.push(piece[j]);
        j = j + 1;
    }
    proof {
        assert(piece@.subrange(0, piece@.len() as int) =~= piece@);
    }
}

/// View of an optional owned string.
pub open spec fn opt_str_view(o: Option<String>) -> Option<Seq<char>> {
    match o {
        Some(s) => Some(s@),
        None => None,
    }
}

/// Copies a vector of plainly copyable values.
pub fn copy_vec<T: Copy>(v: &Vec<T>) -> (r: Vec<T>)
    ensures
        r@ == v@,
{
    let mut r: Vec<T> = Vec::new();
    let mut k: usize = 0;
    while k < v.len()
        invariant
            0 <= k <= v@.len(),
            r@ == v@.subrange(0, k as int),
        decreases v@.len() - k,
    {
        proof {
            assert(v@.subrange(0, k as int).push(v@[k as int]) =~= v@.subrange(0, k as int + 1));
        }
        r.push(v[k]);
        k = k + 1;
    }
    proof {
        assert(v@.subrange(0, v@.len() as int) =~= v@);
    }
    r
}

/// Appends every character of the string slice `s` to `out`.
pub fn push_str(out: &mut Vec<char>, s: &str)
    ensures
        final(out)@ == old(out)@ + s@,
{
    let v = str_to_chars(s);
    push_all(out, &v);
}

/// Copies `s[a..b]` into a fresh vector.
pub fn copy_range(s: &Vec<char>, a: usize, b: usize) -> (r: Vec<char>)
    requires
        a <= b <= s@.len(),
    ensures
        r@ == s@.subrange(a as int, b as int),
{
    let mut r: Vec<char> = Vec::new();
    let mut k: usize = a;
    while k < b
        invariant
            a <= k <= b <= s@.len(),
            r@ == s@.subrange(a as int, k as int),
        decreases b - k,
    {
        proof {
            assert(s@.subrange(a as int, k as int).push(s@[k as int]) =~= s@.subrange(
                a as int,
                k as int + 1,
            ));
        }
        r.push(s[k]);
        k = k + 1;
    }
    r
}

/// Joins `parts[from..]` with the single-character separator `sep`.
pub fn join_from(parts: &Vec<Vec<char>>, from: usize, sep: char) -> (r: Vec<char>)
    requires
        from <= parts@.len(),
    ensures
        r@ == join_spec(views_of(parts@).subrange(from as int, parts@.len() as int), seq![sep]),
{
    let mut r: Vec<char> = Vec::new();
    let mut k: usize = from;
    proof {
        assert(views_of(parts@).subrange(from as int, from as int) =~= Seq::<Seq<char>>::empty());
    }
    while k < parts.len()
        invariant
            from <= k <= parts@.len(),
            r@ == join_spec(views_of(parts@).subrange(from as int, k as int), seq![sep]),
        decreases parts@.len() - k,
    {
        proof {
            let vs = views_of(parts@);
            assert(vs.subrange(from as int, k as int + 1) =~= vs.subrange(
                from as int,
                k as int,
            ).push(vs[k as int]));
            lemma_join_push(vs.subrange(from as int, k as int), vs[k as int], seq![sep]);
        }
        if k > from {
            r.push(sep);
            proof {
                let vs = views_of(parts@);
                assert(join_spec(vs.subrange(from as int, k as int), seq![sep]) + seq![sep]
                    =~= join_spec(vs.subrange(from as int, k as int), seq![sep]).push(sep));
            }
        }
        push_all(&mut r, &parts[k]);
        k = k + 1;
    }
    r
}

/// Value of a decimal digit character, or `-1` for any other character.
pub open spec fn digit_val(c: char) -> int {
    if c == '0' {
        0
    } else if c == '1' {
        1
    } else if c == '2' {
        2
    } else if c == '3' {
        3
    } else if c == '4' {
        4
    } else if c == '5' {
        5
    } else if c == '6' {
        6
    } else if c == '7' {
        7
    } else if c == '8' {
        8
    } else if c == '9' {
        9
    } else {
        -1
    }
}

pub open spec fn is_digit_char(c: char) -> bool {
    digit_val(c) != -1
}

pub open spec fn all_digits(s: Seq<char>) -> bool {
    forall|i: int| 0 <= i < s.len() ==> is_digit_char(s[i])
}

/// Value of a digit string read most-significant-first; meaningful when all
/// characters are decimal digits.
pub open spec fn digits_val(s: Seq<char>) -> int
    decreases s.len(),
{
    if s.len() == 0 {
        0
    } else {
        digits_val(s.drop_last()) * 10 + digit_val(s.last())
    }
}

pub proof fn lemma_digits_val_nonneg(s: Seq<char>)
    requires
        all_digits(s),
    ensures
        digits_val(s) >= 0,
    decreases s.len(),
{
    if s.len() > 0 {
        lemma_digits_val_nonneg(s.drop_last());
    }
}

/// The value of a digit string is at least the value of any of its prefixes.
pub proof fn lemma_digits_val_prefix_le(s: Seq<char>, k: int)
    requires
        all_digits(s),
        0 <= k <= s.len(),
    ensures
        digits_val(s.subrange(0, k)) <= digits_val(s),
    decreases s.len(),
{
    if k == s.len() {
        assert(s.subrange(0, k) =~= s);
    } else {
        let t = s.drop_last();
        assert(all_digits(t));
        lemma_digits_val_prefix_le(t, k);
        assert(s.subrange(0, k) =~= t.subrange(0, k));
        lemma_digits_val_nonneg(t);
    }
}

/// Converts a digit character at runtime.
pub fn digit_of(c: char) -> (r: Option<u8>)
    ensures
        match r {
            Some(d) => digit_val(c) == d && d < 10,
            None => digit_val(c) == -1,
        },
{
    match c {
        '0' => Some(0),
        '1' => Some(1),
        '2' => Some(2),
        '3' => Some(3),
        '4' => Some(4),
        '5' => Some(5),
        '6' => Some(6),
        '7' => Some(7),
        '8' => Some(8),
        '9' => Some(9),
        _ => None,
    }
}

/// Reads the digit run `s[start..end]` as a number, refusing values above
/// `cap`, a non-digit character, or an empty run.
pub fn parse_digits_capped(s: &Vec<char>, start: usize, end: usize, cap: u64) -> (r: Option<u64>)
    requires
        start <= end <= s@.len(),
        cap <= 1000000000000000000,
    ensures
        ({
            let body = s@.subrange(start as int, end as int);
            match r {
                Some(v) => body.len() >= 1 && all_digits(body) && digits_val(body) == v && v
                    <= cap,
                None => !(body.len() >= 1 && all_digits(body) && digits_val(body) <= cap),
            }
        }),
{
    let ghost body = s@.subrange(start as int, end as int);
    if start == end {
        return None;
    }
    let mut acc: u64 = 0;
    let mut i: usize = start;
    while i < end
        invariant
            start <= i <= end <= s@.len(),
            start < end,
            body == s@.subrange(start as int, end as int),
            acc <= cap,
            cap <= 1000000000000000000,
            all_digits(s@.subrange(start as int, i as int)),
            digits_val(s@.subrange(start as int, i as int)) == acc,
        decreases end - i,
    {
        let d = match digit_of(s[i]) {
            Some(d) => d,
            None => {
                proof {
                    assert(body[i - start] == s@[i as int]);
                    assert(!is_digit_char(body[i - start]));
                }
                return None;
            },
        };
        proof {
            assert(s@.subrange(start as int, i as int + 1).drop_last() =~= s@.subrange(
                start as int,
                i as int,
            ));
            assert(s@.subrange(start as int, i as int + 1).last() == s@[i as int]);
        }
        let next: u64 = acc * 10 + (d as u64);
        if next > cap {
            proof {
                let pre = s@.subrange(start as int, i as int + 1);
                assert(digits_val(pre) == next);
                if body.len() >= 1 && all_digits(body) && digits_val(body) <= cap {
                    lemma_digits_val_prefix_le(body, i + 1 - start);
                    assert(body.subrange(0, i + 1 - start) =~= pre);
                }
            }
            return None;
        }
        acc = next;
        i = i + 1;
    }
    Some(acc)
}

/// Parses an unsigned decimal number the way `u32` reads one from text: an
/// optional leading `+`, then one or more digits, with no other characters.
pub open spec fn u32_parse_spec(s: Seq<char>) -> Option<u32> {
    let body = if s.len() >= 1 && s[0] == '+' {
        s.subrange(1, s.len() as int)
    } else {
        s
    };
    if body.len() >= 1 && all_digits(body) && digits_val(body) <= u32::MAX {
        Some(digits_val(body) as u32)
    } else {
        None
    }
}

pub fn parse_u32_chars(s: &Vec<char>) -> (r: Option<u32>)
    ensures
        r == u32_parse_spec(s@),
{
    let start: usize = if s.len() >= 1 && s[0] == '+' {
        1
    } else {
        0
    };
    proof {
        if start == 0 {
            assert(s@.subrange(0, s@.len() as int) =~= s@);
        }
    }
    match parse_digits_capped(s, start, s.len(), 4294967295) {
        Some(v) => Some(v as u32),
        None => None,
    }
}

/// Parses a signed decimal number the way `i32` reads one from text: an
/// optional leading `+` or `-`, then one or more digits.
pub open spec fn i32_parse_spec(s: Seq<char>) -> Option<i32> {
    if s.len() >= 1 && s[0] == '-' {
        let body = s.subrange(1, s.len() as int);
        if body.len() >= 1 && all_digits(body) && digits_val(body) <= 2147483648 {
            Some((-digits_val(body)) as i32)
        } else {
            None
        }
    } else {
        let body = if s.len() >= 1 && s[0] == '+' {
            s.subrange(1, s.len() as int)
        } else {
            s
        };
        if body.len() >= 1 && all_digits(body) && digits_val(body) <= i32::MAX {
            Some(digits_val(body) as i32)
        } else {
            None
        }
    }
}

pub fn parse_i32_chars(s: &Vec<char>) -> (r: Option<i32>)
    ensures
        r == i32_parse_spec(s@),
{
    if s.len() >= 1 && s[0] == '-' {
        match parse_digits_capped(s, 1, s.len(), 2147483648) {
            Some(v) => {
                let m: i64 = -(v as i64);
                Some(m as i32)
            },
            None => None,
        }
    } else {
        let start: usize = if s.len() >= 1 && s[0] == '+' {
            1
        } else {
            0
        };
        proof {
            if start == 0 {
                assert(s@.subrange(0, s@.len() as int) =~= s@);
            }
        }
        match parse_digits_capped(s, start, s.len(), 2147483647) {
            Some(v) => Some(v as i32),
            None => None,
        }
    }
}

/// Decimal digit character for a value in `0..10`.
pub open spec fn digit_char(d: int) -> char {
    if d == 0 {
        '0'
    } else if d == 1 {
        '1'
    } else if d == 2 {
        '2'
    } else if d == 3 {
        '3'
    } else if d == 4 {
        '4'
    } else if d == 5 {
        '5'
    } else if d == 6 {
        '6'
    } else if d == 7 {
        '7'
    } else if d == 8 {
        '8'
    } else {
        '9'
    }
}

/// Decimal rendering of a non-negative number, most significant digit first,
/// without leading zeros (except for the number zero itself).
pub open spec fn dec_str(n: int) -> Seq<char>
    decreases n,
{
    if n < 10 {
        seq![digit_char(n)]
    } else {
        dec_str(n / 10).push(digit_char(n % 10))
    }
}

fn digit_char_of(d: u8) -> (c: char)
    requires
        d < 10,
    ensures
        c == digit_char(d as int),
{
    match d {
        0 => '0',
        1 => '1',
        2 => '2',
        3 => '3',
        4 => '4',
        5 => '5',
        6 => '6',
        7 => '7',
        8 => '8',
        _ => '9',
    }
}

/// Appends the decimal rendering of `n` to `out`.
pub fn push_dec_u64(out: &mut Vec<char>, n: u64)
    ensures
        final(out)@ == old(out)@ + dec_str(n as int),
    decreases n,
{
    if n < 10 {
        out.push(digit_char_of(n as u8));
        proof {
            assert(old(out)@.push(digit_char(n as int)) =~= old(out)@ + dec_str(n as int));
        }
    } else {
        push_dec_u64(out, n / 10);
        out.push(digit_char_of((n % 10) as u8));
        proof {
            assert((old(out)@ + dec_str(n as int / 10)).push(digit_char(n as int % 10)) =~= old(
                out,
            )@ + dec_str(n as int));
        }
    }
}

/// The decimal rendering of a non-negative number reads back as that number.
pub proof fn lemma_dec_str_props(n: int)
    requires
        n >= 0,
    ensures
        dec_str(n).len() >= 1,
        all_digits(dec_str(n)),
        digits_val(dec_str(n)) == n,
    decreases n,
{
    if n < 10 {
        assert(digit_val(digit_char(n)) == n);
        assert(all_digits(seq![digit_char(n)]));
        assert(seq![digit_char(n)].drop_last() =~= Seq::<char>::empty());
        assert(seq![digit_char(n)].last() == digit_char(n));
        assert(digits_val(Seq::<char>::empty()) == 0);
        assert(digits_val(seq![digit_char(n)]) == n);
    } else {
        lemma_dec_str_props(n / 10);
        let x = dec_str(n / 10);
        let d = digit_char(n % 10);
        assert(x.push(d).drop_last() =~= x);
        assert(x.push(d).last() == d);
        assert(digit_val(d) == n % 10);
        assert forall|i: int| 0 <= i < x.push(d).len() implies is_digit_char(
            x.push(d)[i],
        ) by {
            if i < x.len() {
                assert(x.push(d)[i] == x[i]);
            }
        }
        assert(digits_val(x.push(d)) == (n / 10) * 10 + n % 10);
        vstd::arithmetic::div_mod::lemma_fundamental_div_mod(n, 10);
    }
}

/// Signed decimal rendering.
pub open spec fn int_str(n: int) -> Seq<char> {
    if n < 0 {
        seq!['-'] + dec_str(-n)
    } else {
        dec_str(n)
    }
}

/// Appends the decimal rendering of the signed number `n` to `out`.
pub fn push_dec_i32(out: &mut Vec<char>, n: i32)
    ensures
        final(out)@ == old(out)@ + int_str(n as int),
{
    if n < 0 {
        out.push('-');
        let m: u64 = (-(n as i64)) as u64;
        push_dec_u64(out, m);
        proof {
            assert(old(out)@.push('-') =~= old(out)@ + seq!['-']);
            assert((old(out)@ + seq!['-']) + dec_str(m as int) =~= old(out)@ + (seq!['-']
                + dec_str(-(n as int))));
        }
    } else {
        push_dec_u64(out, n as u64);
    }
}

/// Appends `n` as exactly two decimal digits (zero padded).
pub fn push_dec_2(out: &mut Vec<char>, n: u64)
    requires
        n < 100,
    ensures
        final(out)@ == old(out)@ + seq![digit_char(n as int / 10), digit_char(n as int % 10)],
{
    out.push(digit_char_of((n / 10) as u8));
    out.push(digit_char_of((n % 10) as u8));
    proof {
        assert(old(out)@.push(digit_char(n as int / 10)).push(digit_char(n as int % 10)) =~= old(
            out,
        )@ + seq![digit_char(n as int / 10), digit_char(n as int % 10)]);
    }
}

/// Value of a hexadecimal digit character (either case), or `-1`.
pub open spec fn hex_val(c: char) -> int {
    if digit_val(c) != -1 {
        digit_val(c)
    } else if c == 'a' || c == 'A' {
        10
    } else if c == 'b' || c == 'B' {
        11
    } else if c == 'c' || c == 'C' {
        12
    } else if c == 'd' || c == 'D' {
        13
    } else if c == 'e' || c == 'E' {
        14
    } else if c == 'f' || c == 'F' {
        15
    } else {
        -1
    }
}

/// Converts a hexadecimal digit character at runtime.
pub fn hex_of(c: char) -> (r: Option<u8>)
    ensures
        match r {
            Some(d) => hex_val(c) == d && d < 16,
            None => hex_val(c) == -1,
        },
{
    match c {
        '0' => Some(0),
        '1' => Some(1),
        '2' => Some(2),
        '3' => Some(3),
        '4' => Some(4),
        '5' => Some(5),
        '6' => Some(6),
        '7' => Some(7),
        '8' => Some(8),
        '9' => Some(9),
        'a' | 'A' => Some(10),
        'b' | 'B' => Some(11),
        'c' | 'C' => Some(12),
        'd' | 'D' => Some(13),
        'e' | 'E' => Some(14),
        'f' | 'F' => Some(15),
        _ => None,
    }
}

/// Uppercase hexadecimal digit character for a value in `0..16`.
pub open spec fn hex_char(d: int) -> char {
    if d < 10 {
        digit_char(d)
    } else if d == 10 {
        'A'
    } else if d == 11 {
        'B'
    } else if d == 12 {
        'C'
    } else if d == 13 {
        'D'
    } else if d == 14 {
        'E'
    } else {
        'F'
    }
}

/// The two-digit uppercase hexadecimal rendering of a byte.
pub open spec fn byte_hex(b: int) -> Seq<char> {
    seq![hex_char(b / 16), hex_char(b % 16)]
}

fn hex_char_of(d: u8) -> (c: char)
    requires
        d < 16,
    ensures
        c == hex_char(d as int),
{
    match d {
        0 => '0',
        1 => '1',
        2 => '2',
        3 => '3',
        4 => '4',
        5 => '5',
        6 => '6',
        7 => '7',
        8 => '8',
        9 => '9',
        10 => 'A',
        11 => 'B',
        12 => 'C',
        13 => 'D',
        14 => 'E',
        _ => 'F',
    }
}

/// Appends the two-digit uppercase hexadecimal rendering of `b` to `out`.
pub fn push_byte_hex(out: &mut Vec<char>, b: u8)
    ensures
        final(out)@ == old(out)@ + byte_hex(b as int),
{
    out.push(hex_char_of(b / 16));
    out.push(hex_char_of(b % 16));
    proof {
        assert(old(out)@.push(hex_char(b as int / 16)).push(hex_char(b as int % 16)) =~= old(out)@
            + byte_hex(b as int));
    }
}

/// Compares a character vector against a string slice.
pub fn chars_eq_str(v: &Vec<char>, s: &str) -> (b: bool)
    ensures
        b == (v@ == s@),
{
    let n = s.unicode_len();
    if v.len() != n {
        proof {
            assert(v@.len() != s@.len());
        }
        return false;
    }
    let mut i: usize = 0;
    while i < n
        invariant
            0 <= i <= n,
            n == s@.len(),
            v@.len() == n,
            forall|j: int| 0 <= j < i ==> v@[j] == s@[j],
        decreases n - i,
    {
        if v[i] != s.get_char(i) {
            return false;
        }
        i = i + 1;
    }
    proof {
        assert(v@ =~= s@);
    }
    true
}

/// ASCII lowercase folding of one character; anything but `A`..`Z` is left
/// unchanged.
pub open spec fn lower_char(c: char) -> char {
    if c == 'A' {
        'a'
    } else if c == 'B' {
        'b'
    } else if c == 'C' {
        'c'
    } else if c == 'D' {
        'd'
    } else if c == 'E' {
        'e'
    } else if c == 'F' {
        'f'
    } else if c == 'G' {
        'g'
    } else if c == 'H' {
        'h'
    } else if c == 'I' {
        'i'
    } else if c == 'J' {
        'j'
    } else if c == 'K' {
        'k'
    } else if c == 'L' {
        'l'
    } else if c == 'M' {
        'm'
    } else if c == 'N' {
        'n'
    } else if c == 'O' {
        'o'
    } else if c == 'P' {
        'p'
    } else if c == 'Q' {
        'q'
    } else if c == 'R' {
        'r'
    } else if c == 'S' {
        's'
    } else if c == 'T' {
        't'
    } else if c == 'U' {
        'u'
    } else if c == 'V' {
        'v'
    } else if c == 'W' {
        'w'
    } else if c == 'X' {
        'x'
    } else if c == 'Y' {
        'y'
    } else if c == 'Z' {
        'z'
    } else {
        c
    }
}

fn lower_of(c: char) -> (r: char)
    ensures
        r == lower_char(c),
{
    match c {
        'A' => 'a',
        'B' => 'b',
        'C' => 'c',
        'D' => 'd',
        'E' => 'e',
        'F' => 'f',
        'G' => 'g',
        'H' => 'h',
        'I' => 'i',
        'J' => 'j',
        'K' => 'k',
        'L' => 'l',
        'M' => 'm',
        'N' => 'n',
        'O' => 'o',
        'P' => 'p',
        'Q' => 'q',
        'R' => 'r',
        'S' => 's',
        'T' => 't',
        'U' => 'u',
        'V' => 'v',
        'W' => 'w',
        'X' => 'x',
        'Y' => 'y',
        'Z' => 'z',
        _ => c,
    }
}

/// Equality of two character sequences up to ASCII case.
pub open spec fn eq_ci_spec(a: Seq<char>, b: Seq<char>) -> bool {
    a.len() == b.len() && forall|i: int| 0 <= i < a.len() ==> lower_char(a[i]) == lower_char(b[i])
}

/// Compares a character vector against a string slice up to ASCII case.
pub fn chars_eq_str_ci(v: &Vec<char>, s: &str) -> (b: bool)
    ensures
        b == eq_ci_spec(v@, s@),
{
    let n = s.unicode_len();
    if v.len() != n {
        return false;
    }
    let mut i: usize = 0;
    while i < n
        invariant
            0 <= i <= n,
            n == s@.len(),
            v@.len() == n,
            forall|j: int| 0 <= j < i ==> lower_char(v@[j]) == lower_char(s@[j]),
        decreases n - i,
    {
        if lower_of(v[i]) != lower_of(s.get_char(i)) {
            return false;
        }
        i = i + 1;
    }
    true
}

/// Compares two string slices character by character.
pub fn str_eq(a: &str, b: &str) -> (r: bool)
    ensures
        r == (a@ == b@),
{
    let n = a.unicode_len();
    if b.unicode_len() != n {
        proof {
            assert(a@.len() != b@.len());
        }
        return false;
    }
    let mut i: usize = 0;
    while i < n
        invariant
            0 <= i <= n,
            n == a@.len(),
            b@.len() == n,
            forall|j: int| 0 <= j < i ==> a@[j] == b@[j],
        decreases n - i,
    {
        if a.get_char(i) != b.get_char(i) {
            return false;
        }
        i = i + 1;
    }
    proof {
        assert(a@ =~= b@);
    }
    true
}

} // verus!
