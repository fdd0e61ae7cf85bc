//! Lexicographic order on sequences of integers (a proper prefix comes
//! first), the order of strings by code points, and of version numbers.

use vstd::prelude::*;
use crate::text::{chars_of, is_digit};

verus! {

/// Whether `a` comes strictly before `b`.
pub open spec fn lex_less(a: Seq<int>, b: Seq<int>) -> bool
    decreases a.len(),
{
    if a.len() == 0 {
        b.len() > 0
    } else if b.len() == 0 {
        false
    } else if a[0] < b[0] {
        true
    } else if a[0] > b[0] {
        false
    } else {
        lex_less(a.drop_first(), b.drop_first())
    }
}

/// No sequence comes before itself.
pub proof fn lemma_lex_irreflexive(a: Seq<int>)
    ensures
        !lex_less(a, a),
    decreases a.len(),
{
    if a.len() > 0 {
        lemma_lex_irreflexive(a.drop_first());
    }
}

/// Of two different sequences, exactly one comes first.
pub proof fn lemma_lex_total(a: Seq<int>, b: Seq<int>)
    ensures
        a != b ==> lex_less(a, b) || lex_less(b, a),
        !(lex_less(a, b) && lex_less(b, a)),
    decreases a.len(),
{
    if a.len() > 0 && b.len() > 0 {
        lemma_lex_total(a.drop_first(), b.drop_first());
        if a[0] == b[0] && a.drop_first() == b.drop_first() {
            assert(a =~= seq![a[0]] + a.drop_first());
            assert(b =~= seq![b[0]] + b.drop_first());
        }
    } else if a.len() == 0 && b.len() == 0 {
        assert(a =~= b);
    }
}

/// The order is transitive.
pub proof fn lemma_lex_transitive(a: Seq<int>, b: Seq<int>, c: Seq<int>)
    requires
        lex_less(a, b),
        lex_less(b, c),
    ensures
        lex_less(a, c),
    decreases a.len(),
{
    if a.len() > 0 && b.len() > 0 && c.len() > 0 && a[0] == b[0] && b[0] == c[0] {
        lemma_lex_transitive(a.drop_first(), b.drop_first(), c.drop_first());
    }
}

/// "Not after" is transitive.
pub proof fn lemma_not_less_trans(a: Seq<int>, b: Seq<int>, c: Seq<int>)
    requires
        !lex_less(b, a),
        !lex_less(c, b),
    ensures
        !lex_less(c, a),
{
    if lex_less(c, a) {
        lemma_lex_total(a, b);
        lemma_lex_total(b, c);
        if a == b {
        } else if b == c {
        } else {
            lemma_lex_transitive(c, a, b);
        }
    }
}

/// Code points of a string.
pub open spec fn char_keys(s: Seq<char>) -> Seq<int> {
    s.map_values(|c: char| c as int)
}

/// Whether `a` sorts before `b` (`str` order: by code point, a proper
/// prefix first).
pub fn str_less(a: &str, b: &str) -> (r: bool)
    ensures
        r == lex_less(char_keys(a@), char_keys(b@)),
{
    let va = chars_of(a);
    let vb = chars_of(b);
    assert(char_keys(a@).skip(0) =~= char_keys(a@));
    assert(char_keys(b@).skip(0) =~= char_keys(b@));
    let mut i: usize = 0;
    while i < va.len() && i < vb.len()
        invariant
            i <= va.len(),
            i <= vb.len(),
            va@ == a@,
            vb@ == b@,
            lex_less(char_keys(a@), char_keys(b@)) == lex_less(
                char_keys(a@).skip(i as int),
                char_keys(b@).skip(i as int),
            ),
        decreases va.len() - i,
    {
        let ghost x = char_keys(a@).skip(i as int);
        let ghost y = char_keys(b@).skip(i as int);
        assert(x[0] == va@[i as int] as int);
        assert(y[0] == vb@[i as int] as int);
        if va[i] < vb[i] {
            return true;
        }
        if va[i] > vb[i] {
            return false;
        }
        assert(x.drop_first() =~= char_keys(a@).skip(i as int + 1));
        assert(y.drop_first() =~= char_keys(b@).skip(i as int + 1));
        i = i + 1;
    }
    i < vb.len()
}

/// Integer values of a sequence of `u32`.
pub open spec fn u32_keys(s: Seq<u32>) -> Seq<int> {
    s.map_values(|x: u32| x as int)
}

/// Whether `a` sorts before `b` lexicographically.
pub fn u32s_less(a: &Vec<u32>, b: &Vec<u32>) -> (r: bool)
    ensures
        r == lex_less(u32_keys(a@), u32_keys(b@)),
{
    assert(u32_keys(a@).skip(0) =~= u32_keys(a@));
    assert(u32_keys(b@).skip(0) =~= u32_keys(b@));
    let mut i: usize = 0;
    while i < a.len() && i < b.len()
        invariant
            i <= a.len(),
            i <= b.len(),
            lex_less(u32_keys(a@), u32_keys(b@)) == lex_less(
                u32_keys(a@).skip(i as int),
                u32_keys(b@).skip(i as int),
            ),
        decreases a.len() - i,
    {
        let ghost x = u32_keys(a@).skip(i as int);
        let ghost y = u32_keys(b@).skip(i as int);
        assert(x[0] == a@[i as int] as int);
        assert(y[0] == b@[i as int] as int);
        if a[i] < b[i] {
            return true;
        }
        if a[i] > b[i] {
            return false;
        }
        assert(x.drop_first() =~= u32_keys(a@).skip(i as int + 1));
        assert(y.drop_first() =~= u32_keys(b@).skip(i as int + 1));
        i = i + 1;
    }
    i < b.len()
}

/// Value of a sequence of decimal digits.
pub open spec fn digits_value(d: Seq<char>) -> nat
    decreases d.len(),
{
    if d.len() == 0 {
        0
    } else {
        digits_value(d.drop_last()) * 10 + ((d.last() as u32) - ('0' as u32)) as nat
    }
}

/// `u32::from_str`: an optional `+`, then at least one digit, of a value
/// that fits.
pub open spec fn parse_u32(s: Seq<char>) -> Option<u32> {
    let d = unsigned_digits(s);
    if d.len() > 0 && (forall|i: int| 0 <= i < d.len() ==> is_digit(#[trigger] d[i]))
        && digits_value(d) <= u32::MAX {
        Some(digits_value(d) as u32)
    } else {
        None
    }
}

/// The digits of an unsigned number: `s` without a leading `+`.
pub open spec fn unsigned_digits(s: Seq<char>) -> Seq<char> {
    if s.len() > 0 && s[0] == '+' {
        s.drop_first()
    } else {
        s
    }
}

/// `s` without its leading `v` characters.
pub open spec fn trim_vs(s: Seq<char>) -> Seq<char>
    decreases s.len(),
{
    if s.len() > 0 && s[0] == 'v' {
        trim_vs(s.drop_first())
    } else {
        s
    }
}

/// Reading `s` from the left: the numbers of the finished `.`-separated
/// pieces that parse, and the piece being read.
pub open spec fn piece_state(s: Seq<char>) -> (Seq<u32>, Seq<char>)
    decreases s.len(),
{
    if s.len() == 0 {
        (Seq::empty(), Seq::empty())
    } else {
        let (done, cur) = piece_state(s.drop_last());
        if s.last() == '.' {
            (
                match parse_u32(cur) {
                    Some(v) => done.push(v),
                    None => done,
                },
                Seq::empty(),
            )
        } else {
            (done, cur.push(s.last()))
        }
    }
}

/// The version numbers of a tag name: leading `v`s dropped, split at `.`,
/// keeping the pieces that parse as `u32`.
pub open spec fn version_parts(tag: Seq<char>) -> Seq<u32> {
    let (done, cur) = piece_state(trim_vs(tag));
    match parse_u32(cur) {
        Some(v) => done.push(v),
        None => done,
    }
}

/// A leading `v` is not part of a version: `v1.9.0` has the parts of
/// `1.9.0`.
pub proof fn law_version_ignores_v(s: Seq<char>)
    ensures
        version_parts(seq!['v'] + s) == version_parts(s),
{
    let t = seq!['v'] + s;
    assert(t.drop_first() =~= s);
    assert(trim_vs(t) == trim_vs(s));
}

/// A version with no `.` is the one number it reads as, if it reads as one
/// (after leading `v`s); it has no parts otherwise.
pub proof fn law_version_single_piece(s: Seq<char>)
    requires
        s.len() > 0,
        s[0] != 'v',
        !s.contains('.'),
    ensures
        version_parts(s) == match parse_u32(s) {
            Some(n) => seq![n],
            None => Seq::<u32>::empty(),
        },
{
    assert(trim_vs(s) == s);
    lemma_no_dot_state(s);
}

proof fn lemma_no_dot_state(s: Seq<char>)
    requires
        !s.contains('.'),
    ensures
        piece_state(s) == (Seq::<u32>::empty(), s),
    decreases s.len(),
{
    if s.len() > 0 {
        let p = s.drop_last();
        assert(!p.contains('.')) by {
            if p.contains('.') {
                let i = choose|i: int| 0 <= i < p.len() && p[i] == '.';
                assert(s[i] == '.');
            }
        }
        lemma_no_dot_state(p);
        assert(s.last() != '.') by {
            if s.last() == '.' {
                assert(s[s.len() - 1] == '.');
            }
        }
        assert(p.push(s.last()) =~= s);
    } else {
        assert(s =~= Seq::<char>::empty());
    }
}

/// Adding a piece after a `.` adds its number at the end, when the piece
/// reads as one: `1.9` and then `0` give `1.9.0` with parts `[1, 9, 0]`.
pub proof fn law_version_appends_piece(s: Seq<char>, piece: Seq<char>)
    requires
        s.len() > 0,
        s[0] != 'v',
        !piece.contains('.'),
        parse_u32(piece) is Some,
        parse_u32(piece_state(s).1) is Some,
    ensures
        version_parts(s + seq!['.'] + piece) == version_parts(s).push(parse_u32(piece)->0),
{
    let t = s + seq!['.'] + piece;
    assert(t[0] == s[0]);
    assert(trim_vs(t) == t);
    assert(trim_vs(s) == s);
    lemma_state_append(s + seq!['.'], piece);
    assert((s + seq!['.']).drop_last() =~= s);
    assert((s + seq!['.']).last() == '.');
}

proof fn lemma_state_append(s: Seq<char>, piece: Seq<char>)
    requires
        !piece.contains('.'),
    ensures
        piece_state(s + piece) == (piece_state(s).0, piece_state(s).1 + piece),
    decreases piece.len(),
{
    if piece.len() == 0 {
        assert(s + piece =~= s);
        assert(piece_state(s).1 + piece =~= piece_state(s).1);
    } else {
        let p = piece.drop_last();
        assert(!p.contains('.')) by {
            if p.contains('.') {
                let i = choose|i: int| 0 <= i < p.len() && p[i] == '.';
                assert(piece[i] == '.');
            }
        }
        lemma_state_append(s, p);
        assert((s + piece).drop_last() =~= s + p);
        assert((s + piece).last() == piece.last());
        assert(piece.last() != '.') by {
            if piece.last() == '.' {
                assert(piece[piece.len() - 1] == '.');
            }
        }
        assert((piece_state(s).1 + p).push(piece.last()) =~= piece_state(s).1 + piece);
    }
}

proof fn lemma_trim_vs_skip(s: Seq<char>, i: int)
    requires
        0 <= i <= s.len(),
        forall|j: int| 0 <= j < i ==> s[j] == 'v',
    ensures
        trim_vs(s) == trim_vs(s.skip(i)),
    decreases i,
{
    if i > 0 {
        lemma_trim_vs_skip(s.drop_first(), i - 1);
        assert(s.drop_first().skip(i - 1) =~= s.skip(i));
    } else {
        assert(s.skip(0) =~= s);
    }
}

/// Parses one piece of a version (`u32::from_str`).
pub fn parse_piece(p: &Vec<char>) -> (r: Option<u32>)
    ensures
        r == parse_u32(p@),
{
    let start: usize = if p.len() > 0 && p[0] == '+' {
        1
    } else {
        0
    };
    let ghost d = unsigned_digits(p@);
    assert(d =~= p@.skip(start as int));
    if start >= p.len() {
        return None;
    }
    let mut v: u64 = 0;
    let mut i: usize = start;
    while i < p.len()
        invariant
            start <= i <= p.len(),
            d == p@.skip(start as int),
            d == unsigned_digits(p@),
            v == digits_value(d.take(i - start)),
            v <= u32::MAX,
            forall|j: int| 0 <= j < i - start ==> is_digit(#[trigger] d[j]),
        decreases p.len() - i,
    {
        let c = p[i];
        assert(d[i - start] == c);
        assert(d.take(i - start + 1).drop_last() =~= d.take(i - start));
        if !('0' <= c && c <= '9') {
            assert(!is_digit(d[i - start]));
            return None;
        }
        let digit = (c as u32 - '0' as u32) as u64;
        let next = v * 10 + digit;
        if next > 0xFFFF_FFFF {
            proof {
                let k = (i - start + 1) as int;
                assert(digits_value(d.take(k)) == next);
                if forall|j: int| 0 <= j < d.len() ==> is_digit(#[trigger] d[j]) {
                    lemma_digits_grow(d, k);
                    assert(d.take(d.len() as int) =~= d);
                    assert(digits_value(d) >= next);
                }
            }
            return None;
        }
        v = next;
        i = i + 1;
    }
    assert(d.take(d.len() as int) =~= d);
    Some(v as u32)
}

/// Taking more digits never lowers the value.
proof fn lemma_digits_grow(d: Seq<char>, k: int)
    requires
        0 <= k <= d.len(),
        forall|j: int| 0 <= j < k ==> is_digit(#[trigger] d[j]),
    ensures
        forall|m: int| k <= m <= d.len() && (forall|j: int| 0 <= j < m ==> is_digit(#[trigger] d[j]))
            ==> digits_value(d.take(m)) >= digits_value(d.take(k)),
    decreases d.len() - k,
{
    if k < d.len() {
        assert forall|m: int| k <= m <= d.len() && (forall|j: int| 0 <= j < m ==> is_digit(#[trigger] d[j]))
            implies digits_value(d.take(m)) >= digits_value(d.take(k)) by {
            if m > k {
                lemma_digits_grow(d, k + 1);
                assert(d.take(k + 1).drop_last() =~= d.take(k));
            }
        }
    }
}

/// The version numbers of a tag name (see [`version_parts`]).
pub fn extract_version(tag: &str) -> (r: Vec<u32>)
    ensures
        r@ == version_parts(tag@),
{
    let v = chars_of(tag);
    let mut a: usize = 0;
    while a < v.len() && v[a] == 'v'
        invariant
            a <= v.len(),
            v@ == tag@,
            forall|j: int| 0 <= j < a ==> v@[j] == 'v',
        decreases v.len() - a,
    {
        a = a + 1;
    }
    proof {
        lemma_trim_vs_skip(v@, a as int);
        assert(v@.skip(a as int).len() > 0 ==> v@.skip(a as int)[0] != 'v');
    }
    let ghost t = v@.skip(a as int);
    assert(trim_vs(t) == t);
    let mut done: Vec<u32> = Vec::new();
    let mut cur: Vec<char> = Vec::new();
    let mut i: usize = a;
    while i < v.len()
        invariant
            a <= i <= v.len(),
            t == v@.skip(a as int),
            done@ == piece_state(t.take(i - a)).0,
            cur@ == piece_state(t.take(i - a)).1,
        decreases v.len() - i,
    {
        assert(t.take(i - a + 1).drop_last() =~= t.take(i - a));
        assert(t.take(i - a + 1).last() == v@[i as int]);
        if v[i] == '.' {
            match parse_piece(&cur) {
                Some(n) => done.push(n),
                None => {},
            }
            cur = Vec::new();
        } else {
            cur.push(v[i]);
        }
        i = i + 1;
    }
    assert(t.take(t.len() as int) =~= t);
    match parse_piece(&cur) {
        Some(n) => done.push(n),
        None => {},
    }
    done
}

} // verus!
