//! Character-level text handling shared by the protocol, the daemon, the
//! client and the splash: Unicode whitespace, trimming, line and word
//! splitting, and decimal numbers.
use vstd::prelude::*;

verus! {

// ---------------------------------------------------------------------------
// Conversions between `str`/`String` and character vectors
// ---------------------------------------------------------------------------

/// The characters of `s`, in order.
pub fn chars_of(s: &str) -> (res: Vec<char>)
    ensures
        res@ == s@,
{
    broadcast use vstd::string::group_string_axioms;

    let mut out: Vec<char> = Vec::new();
    for c in iter: s.chars()
        invariant
            out@ == iter.seq().take(iter.index() as int),
    {
        out.push(c);
    }
    out
}

/// Builds a `String` from characters (std's `FromIterator<&char>` for
/// `String`); the string holds exactly those characters, in order.
#[verifier::external_body]
pub(crate) fn string_of(cs: &[char]) -> (res: String)
    ensures
        res@ == cs@,
{
    cs.iter().collect()
}

/// Copies `cs[from..to]` into a new vector.
pub fn sub_chars(cs: &[char], from: usize, to: usize) -> (res: Vec<char>)
    requires
        from <= to <= cs@.len(),
    ensures
        res@ == cs@.subrange(from as int, to as int),
{
    let mut res: Vec<char> = Vec::new();
    let mut i = from;
    while i < to
        invariant
            from <= i <= to <= cs@.len(),
            res@ == cs@.subrange(from as int, i as int),
        decreases to - i,
    {
        res.push(cs[i]);
        i = i + 1;
    }
    res
}

/// Appends the characters of `s` to `out`.
pub fn push_str(out: &mut Vec<char>, s: &str)
    ensures
        final(out)@ == old(out)@ + s@,
{
    let cs = chars_of(s);
    push_chars(out, &cs);
}

/// Appends `cs` to `out`.
pub fn push_chars(out: &mut Vec<char>, cs: &[char])
    ensures
        final(out)@ == old(out)@ + cs@,
{
    let mut i: usize = 0;
    while i < cs.len()
        invariant
            i <= cs@.len(),
            out@ == old(out)@ + cs@.subrange(0, i as int),
        decreases cs.len() - i,
    {
        out.push(cs[i]);
        i = i + 1;
    }
    assert(cs@.subrange(0, cs@.len() as int) =~= cs@);
}

/// `a` followed by `b`, as a new string.
pub fn joined(a: &str, b: &str) -> (res: String)
    ensures
        res@ == a@ + b@,
{
    let mut out: Vec<char> = Vec::new();
    push_str(&mut out, a);
    push_str(&mut out, b);
    assert(out@ =~= a@ + b@);
    string_of(&out)
}

// ---------------------------------------------------------------------------
// Whitespace and trimming
// ---------------------------------------------------------------------------

/// Unicode `White_Space`, the property that std's `char::is_whitespace`
/// tests.
pub open spec fn is_ws(c: char) -> bool {
    let n = c as u32;
    ||| 0x09 <= n <= 0x0d
    ||| n == 0x20
    ||| n == 0x85
    ||| n == 0xa0
    ||| n == 0x1680
    ||| 0x2000 <= n <= 0x200a
    ||| n == 0x2028
    ||| n == 0x2029
    ||| n == 0x202f
    ||| n == 0x205f
    ||| n == 0x3000
}

/// Tests a character for Unicode whitespace.
pub fn is_whitespace(c: char) -> (res: bool)
    ensures
        res == is_ws(c),
{
    let n = c as u32;
    (0x09 <= n && n <= 0x0d) || n == 0x20 || n == 0x85 || n == 0xa0 || n == 0x1680 || (0x2000
        <= n && n <= 0x200a) || n == 0x2028 || n == 0x2029 || n == 0x202f || n == 0x205f || n
        == 0x3000
}

/// Whitespace as a predicate.
pub open spec fn ws_pred() -> spec_fn(char) -> bool {
    |c: char| is_ws(c)
}

/// The predicate that strips characters equal to `t`, or whitespace when no
/// character is given.
pub open spec fn strip_pred(t: Option<char>) -> spec_fn(char) -> bool {
    match t {
        Some(t) => |c: char| c == t,
        None => ws_pred(),
    }
}

/// `s` without its leading characters that satisfy `p`.
pub open spec fn strip_start(s: Seq<char>, p: spec_fn(char) -> bool) -> Seq<char>
    decreases s.len(),
{
    if s.len() > 0 && p(s[0]) {
        strip_start(s.drop_first(), p)
    } else {
        s
    }
}

/// `s` without its trailing characters that satisfy `p`.
pub open spec fn strip_end(s: Seq<char>, p: spec_fn(char) -> bool) -> Seq<char>
    decreases s.len(),
{
    if s.len() > 0 && p(s.last()) {
        strip_end(s.drop_last(), p)
    } else {
        s
    }
}

/// `s` without leading and trailing characters that satisfy `p`, as std's
/// `str::trim_matches` with a predicate.
pub open spec fn strip_both(s: Seq<char>, p: spec_fn(char) -> bool) -> Seq<char> {
    strip_end(strip_start(s, p), p)
}

/// `s` without leading and trailing whitespace, as std's `str::trim`.
pub open spec fn trim(s: Seq<char>) -> Seq<char> {
    strip_both(s, ws_pred())
}

pub proof fn lemma_strip_start_skip(s: Seq<char>, p: spec_fn(char) -> bool, a: int)
    requires
        0 <= a <= s.len(),
        forall|i: int| 0 <= i < a ==> p(#[trigger] s[i]),
        a == s.len() || !p(s[a]),
    ensures
        strip_start(s, p) == s.skip(a),
    decreases a,
{
    if a == 0 {
        assert(s.skip(0) =~= s);
    } else {
        let t = s.drop_first();
        assert forall|i: int| 0 <= i < a - 1 implies p(#[trigger] t[i]) by {
            assert(t[i] == s[i + 1]);
        }
        lemma_strip_start_skip(t, p, a - 1);
        assert(t.skip(a - 1) =~= s.skip(a));
    }
}

pub proof fn lemma_strip_end_take(s: Seq<char>, p: spec_fn(char) -> bool, b: int)
    requires
        0 <= b <= s.len(),
        forall|i: int| b <= i < s.len() ==> p(#[trigger] s[i]),
        b == 0 || !p(s[b - 1]),
    ensures
        strip_end(s, p) == s.take(b),
    decreases s.len() - b,
{
    if b == s.len() {
        assert(s.take(b) =~= s);
    } else {
        let t = s.drop_last();
        assert forall|i: int| b <= i < t.len() implies p(#[trigger] t[i]) by {
            assert(t[i] == s[i]);
        }
        if b > 0 {
            assert(t[b - 1] == s[b - 1]);
        }
        lemma_strip_end_take(t, p, b);
        assert(t.take(b) =~= s.take(b));
    }
}

/// Tests `c` against the predicate `strip_pred(target)`.
pub fn strip_matches(c: char, target: Option<char>) -> (res: bool)
    ensures
        res == strip_pred(target)(c),
{
    match target {
        Some(t) => c == t,
        None => is_whitespace(c),
    }
}

/// The bounds `(a, b)` such that `cs[a..b]` is `cs` stripped at both ends
/// of the characters that `strip_pred(target)` accepts.
pub fn strip_bounds(cs: &[char], target: Option<char>) -> (res: (usize, usize))
    ensures
        res.0 <= res.1 <= cs@.len(),
        cs@.subrange(res.0 as int, res.1 as int) == strip_both(cs@, strip_pred(target)),
        res.0 as int + (strip_start(cs@, strip_pred(target)).len() as int) == cs@.len(),
{
    let ghost p = strip_pred(target);
    let mut a: usize = 0;
    while a < cs.len() && strip_matches(cs[a], target)
        invariant
            a <= cs@.len(),
            p == strip_pred(target),
            forall|i: int| 0 <= i < a ==> p(#[trigger] cs@[i]),
        decreases cs.len() - a,
    {
        a = a + 1;
    }
    let mut b: usize = cs.len();
    while b > a && strip_matches(cs[b - 1], target)
        invariant
            a <= b <= cs@.len(),
            p == strip_pred(target),
            forall|i: int| b <= i < cs@.len() ==> p(#[trigger] cs@[i]),
        decreases b - a,
    {
        b = b - 1;
    }
    proof {
        lemma_strip_start_skip(cs@, p, a as int);
        let t = cs@.skip(a as int);
        assert forall|i: int| (b - a) <= i < t.len() implies p(#[trigger] t[i]) by {
            assert(t[i] == cs@[i + a]);
        }
        if b > a {
            assert(t[b - a - 1] == cs@[b - 1]);
        }
        lemma_strip_end_take(t, p, b - a);
        assert(t.take(b - a) =~= cs@.subrange(a as int, b as int));
    }
    (a, b)
}

/// The bounds `(a, b)` such that `cs[a..b]` is `cs` trimmed.
pub fn trim_bounds(cs: &[char]) -> (res: (usize, usize))
    ensures
        res.0 <= res.1 <= cs@.len(),
        cs@.subrange(res.0 as int, res.1 as int) == trim(cs@),
{
    strip_bounds(cs, None)
}

/// `cs` trimmed, as a new vector.
pub fn trim_chars(cs: &[char]) -> (res: Vec<char>)
    ensures
        res@ == trim(cs@),
{
    let (a, b) = trim_bounds(cs);
    sub_chars(cs, a, b)
}

/// `s.trim()` as an owned string.
pub fn trimmed(s: &str) -> (res: String)
    ensures
        res@ == trim(s@),
{
    let cs = chars_of(s);
    let t = trim_chars(&cs);
    string_of(&t)
}

// ---------------------------------------------------------------------------
// Searching and splitting
// ---------------------------------------------------------------------------

/// The position of the first `c` in `s`, or `s.len()` when there is none.
pub open spec fn find_char(s: Seq<char>, c: char) -> nat
    decreases s.len(),
{
    if s.len() == 0 || s[0] == c {
        0
    } else {
        1 + find_char(s.drop_first(), c)
    }
}

/// The position of the first whitespace character in `s`, or `s.len()`.
pub open spec fn find_ws(s: Seq<char>) -> nat
    decreases s.len(),
{
    if s.len() == 0 || is_ws(s[0]) {
        0
    } else {
        1 + find_ws(s.drop_first())
    }
}

pub proof fn lemma_find_char(s: Seq<char>, c: char, k: int)
    requires
        0 <= k <= s.len(),
        forall|i: int| 0 <= i < k ==> #[trigger] s[i] != c,
        k == s.len() || s[k] == c,
    ensures
        find_char(s, c) == k,
    decreases k,
{
    if k > 0 {
        let t = s.drop_first();
        assert forall|i: int| 0 <= i < k - 1 implies #[trigger] t[i] != c by {
            assert(t[i] == s[i + 1]);
        }
        lemma_find_char(t, c, k - 1);
    }
}

pub proof fn lemma_find_ws(s: Seq<char>, k: int)
    requires
        0 <= k <= s.len(),
        forall|i: int| 0 <= i < k ==> !is_ws(#[trigger] s[i]),
        k == s.len() || is_ws(s[k]),
    ensures
        find_ws(s) == k,
    decreases k,
{
    if k > 0 {
        let t = s.drop_first();
        assert forall|i: int| 0 <= i < k - 1 implies !is_ws(#[trigger] t[i]) by {
            assert(t[i] == s[i + 1]);
        }
        lemma_find_ws(t, k - 1);
    }
}

/// The first position at or after `from` that holds `c`, or `cs.len()`.
pub fn find_char_from(cs: &[char], from: usize, c: char) -> (k: usize)
    requires
        from <= cs@.len(),
    ensures
        from <= k <= cs@.len(),
        k - from == find_char(cs@.skip(from as int), c),
        forall|i: int| from <= i < k ==> #[trigger] cs@[i] != c,
        k < cs@.len() ==> cs@[k as int] == c,
{
    let mut k = from;
    while k < cs.len() && cs[k] != c
        invariant
            from <= k <= cs@.len(),
            forall|i: int| from <= i < k ==> #[trigger] cs@[i] != c,
        decreases cs.len() - k,
    {
        k = k + 1;
    }
    proof {
        let t = cs@.skip(from as int);
        assert forall|i: int| 0 <= i < k - from implies #[trigger] t[i] != c by {
            assert(t[i] == cs@[i + from]);
        }
        lemma_find_char(t, c, k - from);
    }
    k
}

/// The first position at or after `from` that holds whitespace, or
/// `cs.len()`.
pub fn find_ws_from(cs: &[char], from: usize) -> (k: usize)
    requires
        from <= cs@.len(),
    ensures
        from <= k <= cs@.len(),
        k - from == find_ws(cs@.skip(from as int)),
{
    let mut k = from;
    while k < cs.len() && !is_whitespace(cs[k])
        invariant
            from <= k <= cs@.len(),
            forall|i: int| from <= i < k ==> !is_ws(#[trigger] cs@[i]),
        decreases cs.len() - k,
    {
        k = k + 1;
    }
    proof {
        let t = cs@.skip(from as int);
        assert forall|i: int| 0 <= i < k - from implies !is_ws(#[trigger] t[i]) by {
            assert(t[i] == cs@[i + from]);
        }
        lemma_find_ws(t, k - from);
    }
    k
}

/// The views of a sequence of character vectors.
pub open spec fn views(v: Seq<Vec<char>>) -> Seq<Seq<char>> {
    v.map_values(|x: Vec<char>| x@)
}

/// A line without the `\r` of a `\r\n` ending.
pub open spec fn strip_cr(l: Seq<char>) -> Seq<char> {
    if l.len() > 0 && l.last() == '\r' {
        l.drop_last()
    } else {
        l
    }
}

/// The lines of `s`, as std's `str::lines`: split at `\n`, each line
/// without a `\r` just before its `\n`, and no empty line after a final
/// `\n`.
pub open spec fn lines(s: Seq<char>) -> Seq<Seq<char>>
    decreases s.len(),
{
    if s.len() == 0 {
        seq![]
    } else {
        let k = find_char(s, '\n');
        if k < s.len() {
            seq![strip_cr(s.take(k as int))] + lines(s.skip(k + 1 as int))
        } else {
            seq![s]
        }
    }
}

/// The words of `s`, as std's `str::split_whitespace`: the maximal runs of
/// characters that are not whitespace.
pub open spec fn words(s: Seq<char>) -> Seq<Seq<char>>
    decreases s.len(),
{
    if s.len() == 0 {
        seq![]
    } else if is_ws(s[0]) {
        words(s.drop_first())
    } else {
        let k = find_ws(s);
        if k < s.len() {
            seq![s.take(k as int)] + words(s.skip(k as int))
        } else {
            seq![s]
        }
    }
}

/// Splits `cs` into lines as std's `str::lines` does.
pub fn split_lines(cs: &[char]) -> (res: Vec<Vec<char>>)
    ensures
        views(res@) == lines(cs@),
{
    let mut out: Vec<Vec<char>> = Vec::new();
    let mut start: usize = 0;
    assert(cs@.skip(0) =~= cs@);
    while start < cs.len()
        invariant
            start <= cs@.len(),
            views(out@) + lines(cs@.skip(start as int)) == lines(cs@),
        decreases cs.len() - start,
    {
        let ghost t = cs@.skip(start as int);
        let k = find_char_from(cs, start, '\n');
        if k == cs.len() {
            let piece = sub_chars(cs, start, k);
            assert(piece@ =~= t);
            proof {
                assert(lines(t) == seq![t]);
                assert(views(out@.push(piece)) =~= views(out@).push(piece@));
                assert(cs@.skip(k as int) =~= Seq::<char>::empty());
                assert(views(out@).push(piece@) + lines(cs@.skip(k as int)) =~= views(out@)
                    + lines(t));
            }
            out.push(piece);
            start = k;
        } else {
            let mut e = k;
            if e > start && cs[e - 1] == '\r' {
                e = e - 1;
            }
            let piece = sub_chars(cs, start, e);
            proof {
                let line = t.take(k - start);
                assert(line =~= cs@.subrange(start as int, k as int));
                assert(piece@ =~= strip_cr(line));
                assert(t.skip(k - start + 1) =~= cs@.skip(k + 1));
                assert(lines(t) == seq![strip_cr(line)] + lines(t.skip(k - start + 1)));
                assert(views(out@.push(piece)) =~= views(out@).push(piece@));
                assert(views(out@).push(piece@) + lines(cs@.skip(k + 1)) =~= views(out@)
                    + lines(t));
            }
            out.push(piece);
            start = k + 1;
        }
    }
    assert(cs@.skip(start as int) =~= Seq::<char>::empty());
    assert(views(out@) + lines(cs@.skip(start as int)) =~= views(out@));
    out
}

/// Splits `cs` into words as std's `str::split_whitespace` does.
pub fn split_words(cs: &[char]) -> (res: Vec<Vec<char>>)
    ensures
        views(res@) == words(cs@),
{
    let mut out: Vec<Vec<char>> = Vec::new();
    let mut i: usize = 0;
    assert(cs@.skip(0) =~= cs@);
    while i < cs.len()
        invariant
            i <= cs@.len(),
            views(out@) + words(cs@.skip(i as int)) == words(cs@),
        decreases cs.len() - i,
    {
        let ghost t = cs@.skip(i as int);
        if is_whitespace(cs[i]) {
            assert(t.drop_first() =~= cs@.skip(i + 1));
            i = i + 1;
        } else {
            let k = find_ws_from(cs, i);
            let piece = sub_chars(cs, i, k);
            proof {
                assert(t[0] == cs@[i as int]);
                assert(views(out@.push(piece)) =~= views(out@).push(piece@));
                if k < cs.len() {
                    assert(piece@ =~= t.take(k - i));
                    assert(t.skip(k - i) =~= cs@.skip(k as int));
                    assert(words(t) == seq![t.take(k - i)] + words(t.skip(k - i)));
                } else {
                    assert(piece@ =~= t);
                    assert(words(t) == seq![t]);
                    assert(cs@.skip(k as int) =~= Seq::<char>::empty());
                }
                assert(views(out@).push(piece@) + words(cs@.skip(k as int)) =~= views(out@)
                    + words(t));
            }
            out.push(piece);
            i = k;
        }
    }
    assert(cs@.skip(i as int) =~= Seq::<char>::empty());
    assert(views(out@) + words(cs@.skip(i as int)) =~= views(out@));
    out
}

/// Whether `s` begins with `p`.
pub open spec fn has_prefix(s: Seq<char>, p: Seq<char>) -> bool {
    p.len() <= s.len() && s.take(p.len() as int) == p
}

/// Tests whether `cs` begins with `p`.
pub fn starts_with(cs: &[char], p: &[char]) -> (res: bool)
    ensures
        res == has_prefix(cs@, p@),
{
    if p.len() > cs.len() {
        return false;
    }
    let mut i: usize = 0;
    while i < p.len()
        invariant
            i <= p@.len() <= cs@.len(),
            forall|j: int| 0 <= j < i ==> cs@[j] == p@[j],
        decreases p.len() - i,
    {
        if cs[i] != p[i] {
            assert(cs@.take(p@.len() as int)[i as int] != p@[i as int]);
            return false;
        }
        i = i + 1;
    }
    assert(cs@.take(p@.len() as int) =~= p@);
    true
}

/// The rest of the first line among `ls` that begins with `key`, if any.
pub open spec fn first_value(ls: Seq<Seq<char>>, key: Seq<char>) -> Option<Seq<char>>
    decreases ls.len(),
{
    if ls.len() == 0 {
        None
    } else if has_prefix(ls[0], key) {
        Some(ls[0].skip(key.len() as int))
    } else {
        first_value(ls.drop_first(), key)
    }
}

/// The rest of the first of `ls` that begins with `key`, if any.
pub fn find_value(ls: &Vec<Vec<char>>, key: &[char]) -> (res: Option<Vec<char>>)
    ensures
        match first_value(views(ls@), key@) {
            Some(v) => res matches Some(r) && r@ == v,
            None => res is None,
        },
{
    let ghost all = views(ls@);
    let mut i: usize = 0;
    assert(all.skip(0) =~= all);
    while i < ls.len()
        invariant
            i <= ls@.len(),
            all == views(ls@),
            first_value(all.skip(i as int), key@) == first_value(all, key@),
        decreases ls.len() - i,
    {
        let ghost rest = all.skip(i as int);
        assert(rest[0] == ls@[i as int]@);
        if starts_with(&ls[i], key) {
            let v = sub_chars(&ls[i], key.len(), ls[i].len());
            assert(v@ =~= rest[0].skip(key@.len() as int));
            return Some(v);
        }
        assert(rest.drop_first() =~= all.skip(i + 1));
        i = i + 1;
    }
    assert(all.skip(i as int) =~= Seq::<Seq<char>>::empty());
    None
}

/// Tests whether `cs` holds exactly the characters of `s`.
pub fn chars_eq(cs: &[char], s: &str) -> (res: bool)
    ensures
        res == (cs@ == s@),
{
    let p = chars_of(s);
    if p.len() != cs.len() {
        return false;
    }
    let r = starts_with(cs, &p);
    proof {
        if r {
            assert(cs@ =~= cs@.take(p@.len() as int));
        } else {
            assert(cs@.take(p@.len() as int) =~= cs@);
        }
    }
    r
}

// ---------------------------------------------------------------------------
// Decimal numbers
// ---------------------------------------------------------------------------

pub open spec fn is_digit(c: char) -> bool {
    '0' <= c <= '9'
}

pub open spec fn digit_value(c: char) -> int {
    c as int - '0' as int
}

/// The digit character for `d` (`0 <= d < 10`).
pub open spec fn digit_char(d: int) -> char {
    (48 + d) as char
}

pub open spec fn all_digits(s: Seq<char>) -> bool {
    forall|i: int| 0 <= i < s.len() ==> is_digit(#[trigger] s[i])
}

/// The number that a string of decimal digits denotes.
pub open spec fn decimal_value(s: Seq<char>) -> nat
    decreases s.len(),
{
    if s.len() == 0 {
        0
    } else {
        (decimal_value(s.drop_last()) * 10 + digit_value(s.last())) as nat
    }
}

/// The decimal rendering of `n`, without sign or leading zeros.
pub open spec fn decimal_text(n: nat) -> Seq<char>
    decreases n,
{
    if n < 10 {
        seq![digit_char(n as int)]
    } else {
        decimal_text(n / 10).push(digit_char((n % 10) as int))
    }
}

/// The digits std's unsigned `FromStr` reads: one leading `+` is allowed.
pub open spec fn unsigned_digits(s: Seq<char>) -> Seq<char> {
    if s.len() > 0 && s[0] == '+' {
        s.drop_first()
    } else {
        s
    }
}

/// What std's `str::parse` gives for an unsigned type whose largest value
/// is `max`: `Some(value)` for an optional `+` followed by one or more
/// decimal digits denoting at most `max`, and `None` otherwise.
pub open spec fn parse_unsigned(s: Seq<char>, max: nat) -> Option<nat> {
    let d = unsigned_digits(s);
    if d.len() > 0 && all_digits(d) && decimal_value(d) <= max {
        Some(decimal_value(d))
    } else {
        None
    }
}

proof fn lemma_decimal_value_prefix(s: Seq<char>, j: int)
    requires
        0 <= j <= s.len(),
        all_digits(s),
    ensures
        decimal_value(s.take(j)) <= decimal_value(s),
    decreases s.len() - j,
{
    if j < s.len() {
        lemma_decimal_value_prefix(s, j + 1);
        let p = s.take(j + 1);
        assert(p.drop_last() =~= s.take(j));
        assert(is_digit(s[j]));
    }
    else {
        assert(s.take(j) =~= s);
    }
}

proof fn lemma_decimal_text_roundtrip(n: nat)
    ensures
        all_digits(decimal_text(n)),
        decimal_value(decimal_text(n)) == n,
        decimal_text(n).len() > 0,
        decimal_text(n)[0] != '+',
    decreases n,
{
    if n < 10 {
        let t = decimal_text(n);
        assert(t.drop_last() =~= Seq::<char>::empty());
        assert(digit_char(n as int) as int == 48 + n);
        assert(decimal_value(t.drop_last()) == 0);
    } else {
        lemma_decimal_text_roundtrip(n / 10);
        let t = decimal_text(n);
        assert(t.drop_last() =~= decimal_text(n / 10));
        assert(digit_char((n % 10) as int) as int == 48 + n % 10);
        assert(t.last() == digit_char((n % 10) as int));
        assert(n == (n / 10) * 10 + n % 10);
        assert(t[0] == decimal_text(n / 10)[0]);
    }
}

/// Printing and parsing agree: the decimal rendering of a number that fits
/// the parsed type reads back as that number.
pub proof fn lemma_decimal_roundtrip(n: nat, max: nat)
    requires
        n <= max,
    ensures
        parse_unsigned(decimal_text(n), max) == Some(n),
{
    lemma_decimal_text_roundtrip(n);
}

/// Appends the decimal rendering of `n` to `out`.
pub fn push_decimal(out: &mut Vec<char>, n: u64)
    ensures
        final(out)@ == old(out)@ + decimal_text(n as nat),
    decreases n,
{
    if n >= 10 {
        push_decimal(out, n / 10);
    }
    let d: u8 = (n % 10) as u8;
    let c: char = (48u8 + d) as char;
    assert(c == digit_char((n % 10) as int));
    out.push(c);
    proof {
        if n < 10 {
            assert(decimal_text(n as nat) =~= seq![digit_char(n as int)]);
        }
    }
    assert(out@ =~= old(out)@ + decimal_text(n as nat));
}

/// The decimal rendering of `n` as a string.
pub fn decimal(n: u64) -> (res: String)
    ensures
        res@ == decimal_text(n as nat),
{
    let mut out: Vec<char> = Vec::new();
    push_decimal(&mut out, n);
    assert(out@ =~= decimal_text(n as nat));
    string_of(&out)
}

/// Parses `cs` as std's `str::parse` does for an unsigned integer type
/// whose largest value is `max`.
pub fn parse_unsigned_chars(cs: &[char], max: u64) -> (res: Option<u64>)
    ensures
        match parse_unsigned(cs@, max as nat) {
            Some(v) => res == Some(v as u64),
            None => res is None,
        },
{
    let start: usize = if cs.len() > 0 && cs[0] == '+' { 1 } else { 0 };
    let ghost d = unsigned_digits(cs@);
    assert(d =~= cs@.skip(start as int));
    if start >= cs.len() {
        return None;
    }
    let mut acc: u64 = 0;
    let mut i: usize = start;
    while i < cs.len()
        invariant
            start <= i <= cs@.len(),
            d =~= cs@.skip(start as int),
            d == unsigned_digits(cs@),
            all_digits(d.take(i - start)),
            acc as nat == decimal_value(d.take(i - start)),
            acc <= max,
        decreases cs.len() - i,
    {
        let c = cs[i];
        if c < '0' || c > '9' {
            assert(!is_digit(d[i - start]));
            return None;
        }
        let digit: u64 = (c as u32 - 48) as u64;
        let ghost p = d.take(i - start + 1);
        assert(p.drop_last() =~= d.take(i - start));
        assert(p.last() == c);
        if digit > max || acc > (max - digit) / 10 {
            proof {
                assert(acc * 10 + digit > max) by (nonlinear_arith)
                    requires
                        digit > max || acc > (max - digit) / 10,
                        acc >= 0,
                ;
                assert(decimal_value(p) == acc * 10 + digit);
                if all_digits(d) {
                    lemma_decimal_value_prefix(d, i - start + 1);
                }
            }
            return None;
        }
        assert(acc * 10 + digit <= max) by (nonlinear_arith)
            requires
                acc <= (max - digit) / 10,
                digit <= max,
        ;
        acc = acc * 10 + digit;
        i = i + 1;
        assert forall|k: int| 0 <= k < p.len() implies is_digit(#[trigger] p[k]) by {
            if k < p.len() - 1 {
                assert(p[k] == d.take(i - 1 - start)[k]);
            }
        }
    }
    assert(d.take(i - start) =~= d);
    Some(acc)
}


/// Parses `s` as std's `str::parse::<u32>` does.
pub fn parse_u32(s: &str) -> (res: Option<u32>)
    ensures
        match parse_unsigned(s@, u32::MAX as nat) {
            Some(v) => res == Some(v as u32),
            None => res is None,
        },
{
    let cs = chars_of(s);
    match parse_unsigned_chars(&cs, u32::MAX as u64) {
        Some(v) => Some(v as u32),
        None => None,
    }
}

/// Parses `s` as std's `str::parse::<usize>` does.
pub fn parse_usize(s: &str) -> (res: Option<usize>)
    ensures
        match parse_unsigned(s@, usize::MAX as nat) {
            Some(v) => res == Some(v as usize),
            None => res is None,
        },
{
    let cs = chars_of(s);
    parse_usize_chars(&cs)
}

/// Parses `cs` as std's `str::parse::<usize>` does.
pub fn parse_usize_chars(cs: &[char]) -> (res: Option<usize>)
    ensures
        match parse_unsigned(cs@, usize::MAX as nat) {
            Some(v) => res == Some(v as usize),
            None => res is None,
        },
{
    match parse_unsigned_chars(cs, usize::MAX as u64) {
        Some(v) => Some(v as usize),
        None => None,
    }
}

} // verus!
