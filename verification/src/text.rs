//! Character-level string helpers with exact specifications.
//!
//! Every function here works on the `char` sequence that a string views as,
//! and states its result as a spec function over that sequence.

use vstd::prelude::*;

verus! {

// ---------------------------------------------------------------------------
// Specifications
// ---------------------------------------------------------------------------

/// A character with the Unicode `White_Space` property (what
/// `char::is_whitespace` tests).
pub open spec fn is_ws(c: char) -> bool {
    let u = c as u32;
    ||| 0x09 <= u <= 0x0d
    ||| u == 0x20
    ||| u == 0x85
    ||| u == 0xa0
    ||| u == 0x1680
    ||| 0x2000 <= u <= 0x200a
    ||| u == 0x2028
    ||| u == 0x2029
    ||| u == 0x202f
    ||| u == 0x205f
    ||| u == 0x3000
}

/// Every character of `s` is whitespace (so `s.trim()` is empty).
pub open spec fn all_ws(s: Seq<char>) -> bool {
    forall|i: int| 0 <= i < s.len() ==> is_ws(#[trigger] s[i])
}

/// `s` without its leading whitespace.
pub open spec fn trim_start(s: Seq<char>) -> Seq<char>
    decreases s.len(),
{
    if s.len() > 0 && is_ws(s[0]) {
        trim_start(s.drop_first())
    } else {
        s
    }
}

/// `s` without its trailing whitespace.
pub open spec fn trim_end(s: Seq<char>) -> Seq<char>
    decreases s.len(),
{
    if s.len() > 0 && is_ws(s.last()) {
        trim_end(s.drop_last())
    } else {
        s
    }
}

/// `s` without leading and trailing whitespace.
pub open spec fn trim(s: Seq<char>) -> Seq<char> {
    trim_end(trim_start(s))
}

/// The predicate "is the character `c`".
pub open spec fn eq_char(c: char) -> spec_fn(char) -> bool {
    |x: char| x == c
}

/// The pieces of `s` between separators (characters for which `sep` holds),
/// empty pieces included; never an empty sequence.
pub open spec fn split_by(s: Seq<char>, sep: spec_fn(char) -> bool) -> Seq<Seq<char>>
    decreases s.len(),
{
    if s.len() == 0 {
        seq![Seq::<char>::empty()]
    } else {
        let rest = split_by(s.drop_last(), sep);
        if sep(s.last()) {
            rest.push(Seq::<char>::empty())
        } else {
            rest.update(rest.len() - 1, rest.last().push(s.last()))
        }
    }
}

/// `p` without one trailing carriage return.
pub open spec fn strip_cr(p: Seq<char>) -> Seq<char> {
    if p.len() > 0 && p.last() == '\r' {
        p.drop_last()
    } else {
        p
    }
}

/// The lines of `s`: split at `\n`, a `\r` before a `\n` removed, and no
/// empty line after a final `\n`.
pub open spec fn lines_of(s: Seq<char>) -> Seq<Seq<char>> {
    let parts = split_by(s, eq_char('\n'));
    let n: int = if s.len() == 0 || s.last() == '\n' {
        parts.len() - 1
    } else {
        parts.len() as int
    };
    Seq::new(
        n as nat,
        |k: int|
            if k < parts.len() - 1 {
                strip_cr(parts[k])
            } else {
                parts[k]
            },
    )
}

/// The non-empty runs of non-whitespace characters of `s`.
pub open spec fn words_of(s: Seq<char>) -> Seq<Seq<char>> {
    split_by(s, |c: char| is_ws(c)).filter(|w: Seq<char>| w.len() > 0)
}

/// The character of a decimal digit.
pub open spec fn digit_char(d: nat) -> char {
    if d == 0 {
        '0'
    } else if d == 1 {
        '1'
    } else if d == 2 {
        '2'
    } else if d == 3 {
        '3'
    } else if d == 4 {
        '4'
    } else if d == 5 {
        '5'
    } else if d == 6 {
        '6'
    } else if d == 7 {
        '7'
    } else if d == 8 {
        '8'
    } else {
        '9'
    }
}

/// The decimal notation of `n`, without leading zeros.
pub open spec fn decimal(n: nat) -> Seq<char>
    decreases n,
{
    if n < 10 {
        seq![digit_char(n)]
    } else {
        decimal(n / 10).push(digit_char(n % 10))
    }
}

/// An ASCII decimal digit.
pub open spec fn is_digit(c: char) -> bool {
    '0' <= c <= '9'
}

/// The value of a digit character.
pub open spec fn digit_value(c: char) -> nat {
    ((c as u32) - ('0' as u32)) as nat
}

/// The value of a sequence of decimal digits.
pub open spec fn digits_value(s: Seq<char>) -> nat
    decreases s.len(),
{
    if s.len() == 0 {
        0
    } else {
        digits_value(s.drop_last()) * 10 + digit_value(s.last())
    }
}

/// The digits that `u64::from_str` reads: `s` without one leading `+`.
pub open spec fn unsigned_digits(s: Seq<char>) -> Seq<char> {
    if s.len() > 0 && s[0] == '+' {
        s.drop_first()
    } else {
        s
    }
}

/// What `s.parse::<u64>()` gives: an optional `+`, then at least one digit and
/// nothing else, with a value that fits in a `u64`.
pub open spec fn parse_u64_spec(s: Seq<char>) -> Option<u64> {
    let ds = unsigned_digits(s);
    if ds.len() > 0 && (forall|i: int| 0 <= i < ds.len() ==> is_digit(#[trigger] ds[i]))
        && digits_value(ds) <= u64::MAX {
        Some(digits_value(ds) as u64)
    } else {
        None
    }
}

/// `s` padded on the right with spaces to at least `width` characters (what
/// `format!("{:<width$}", s)` gives).
pub open spec fn pad_right(s: Seq<char>, width: nat) -> Seq<char> {
    if s.len() < width {
        s + Seq::new((width - s.len()) as nat, |i: int| ' ')
    } else {
        s
    }
}

/// `s` begins with `prefix`.
pub open spec fn starts_with(s: Seq<char>, prefix: Seq<char>) -> bool {
    prefix.len() <= s.len() && s.subrange(0, prefix.len() as int) == prefix
}

/// The views of a sequence of strings.
pub open spec fn views(v: Seq<String>) -> Seq<Seq<char>> {
    v.map_values(|x: String| x@)
}

// ---------------------------------------------------------------------------
// Lemmas
// ---------------------------------------------------------------------------

/// Splitting always gives at least one piece.
pub proof fn lemma_split_by_nonempty(s: Seq<char>, sep: spec_fn(char) -> bool)
    ensures
        split_by(s, sep).len() >= 1,
    decreases s.len(),
{
    if s.len() > 0 {
        lemma_split_by_nonempty(s.drop_last(), sep);
    }
}

/// The last piece is empty exactly when `s` is empty or ends with a separator.
pub proof fn lemma_split_by_last(s: Seq<char>, sep: spec_fn(char) -> bool)
    ensures
        split_by(s, sep).len() >= 1,
        (split_by(s, sep).last().len() == 0) <==> (s.len() == 0 || sep(s.last())),
{
    lemma_split_by_nonempty(s, sep);
    if s.len() > 0 {
        lemma_split_by_nonempty(s.drop_last(), sep);
    }
}

/// No piece holds a separator.
pub proof fn lemma_split_by_pieces(s: Seq<char>, sep: spec_fn(char) -> bool)
    ensures
        forall|k: int, j: int|
            0 <= k < split_by(s, sep).len() && 0 <= j < split_by(s, sep)[k].len() ==> !sep(
                #[trigger] split_by(s, sep)[k][j],
            ),
    decreases s.len(),
{
    lemma_split_by_nonempty(s, sep);
    if s.len() > 0 {
        lemma_split_by_nonempty(s.drop_last(), sep);
        lemma_split_by_pieces(s.drop_last(), sep);
        let rest = split_by(s.drop_last(), sep);
        assert forall|k: int, j: int|
            0 <= k < split_by(s, sep).len() && 0 <= j < split_by(s, sep)[k].len() implies !sep(
                #[trigger] split_by(s, sep)[k][j],
            ) by {
            if k < rest.len() - 1 {
                assert(split_by(s, sep)[k] == rest[k]);
            } else if k == rest.len() - 1 {
                if !sep(s.last()) {
                    assert(split_by(s, sep)[k] == rest.last().push(s.last()));
                    if j < rest.last().len() {
                        assert(split_by(s, sep)[k][j] == rest[k][j]);
                    }
                }
            }
        }
    }
}

/// Appending characters that are not separators extends the last piece.
pub proof fn lemma_split_by_append_plain(s: Seq<char>, t: Seq<char>, sep: spec_fn(char) -> bool)
    requires
        forall|i: int| 0 <= i < t.len() ==> !sep(#[trigger] t[i]),
    ensures
        split_by(s, sep).len() >= 1,
        split_by(s + t, sep) == split_by(s, sep).update(
            split_by(s, sep).len() - 1,
            split_by(s, sep).last() + t,
        ),
    decreases t.len(),
{
    lemma_split_by_nonempty(s, sep);
    let p = split_by(s, sep);
    if t.len() == 0 {
        assert(s + t =~= s);
        assert(p.last() + t =~= p.last());
        assert(p.update(p.len() - 1, p.last() + t) =~= p);
    } else {
        lemma_split_by_append_plain(s, t.drop_last(), sep);
        assert((s + t).drop_last() =~= s + t.drop_last());
        assert((s + t).last() == t.last());
        assert(!sep(t.last()));
        assert((p.last() + t.drop_last()).push(t.last()) =~= p.last() + t);
        let rest = split_by(s + t.drop_last(), sep);
        assert(rest.update(rest.len() - 1, rest.last().push(t.last())) =~= p.update(
            p.len() - 1,
            p.last() + t,
        ));
    }
}

/// Appending a separator starts a new, empty piece.
pub proof fn lemma_split_by_push_sep(s: Seq<char>, c: char, sep: spec_fn(char) -> bool)
    requires
        sep(c),
    ensures
        split_by(s.push(c), sep) == split_by(s, sep).push(Seq::<char>::empty()),
{
    assert(s.push(c).drop_last() =~= s);
    assert(s.push(c).last() == c);
}

/// A decimal numeral has at least one digit.
pub proof fn lemma_decimal_len(n: nat)
    ensures
        decimal(n).len() >= 1,
    decreases n,
{
    if n >= 10 {
        lemma_decimal_len(n / 10);
    }
}

/// A longer run of digits is worth at least as much as its prefix.
pub proof fn lemma_digits_value_prefix(s: Seq<char>, k: int)
    requires
        0 <= k <= s.len(),
    ensures
        digits_value(s.take(k)) <= digits_value(s),
    decreases s.len(),
{
    if k < s.len() {
        assert(s.drop_last().take(k) == s.take(k));
        lemma_digits_value_prefix(s.drop_last(), k);
    } else {
        assert(s.take(k) == s);
    }
}

// ---------------------------------------------------------------------------
// Executable helpers
// ---------------------------------------------------------------------------

/// Appends one character (`String::push`).
#[verifier::external_body]
pub(crate) fn push_char(s: &mut String, c: char)
    ensures
        final(s)@ == old(s)@.push(c),
{
    s.push(c);
}

/// The characters of `s`, in order.
pub fn chars_of(s: &str) -> (v: Vec<char>)
    ensures
        v@ == s@,
{
    let mut v: Vec<char> = Vec::new();
    for c in it: s.chars()
        invariant
            v@ == it.seq().take(it.index() as int),
    {
        v.push(c);
    }
    v
}

/// The string made of `v[lo..hi]`.
pub fn string_of_range(v: &Vec<char>, lo: usize, hi: usize) -> (r: String)
    requires
        lo <= hi <= v.len(),
    ensures
        r@ == v@.subrange(lo as int, hi as int),
{
    let mut r = String::new();
    let mut i = lo;
    while i < hi
        invariant
            lo <= i <= hi <= v.len(),
            r@ == v@.subrange(lo as int, i as int),
        decreases hi - i,
    {
        push_char(&mut r, v[i]);
        i += 1;
        assert(r@ =~= v@.subrange(lo as int, i as int));
    }
    r
}

/// Whether `c` is whitespace.
pub fn char_is_ws(c: char) -> (b: bool)
    ensures
        b == is_ws(c),
{
    let u = c as u32;
    (0x09 <= u && u <= 0x0d) || u == 0x20 || u == 0x85 || u == 0xa0 || u == 0x1680 || (0x2000
        <= u && u <= 0x200a) || u == 0x2028 || u == 0x2029 || u == 0x202f || u == 0x205f || u
        == 0x3000
}

/// The bounds of `v[lo..hi]` once its surrounding whitespace is cut off.
pub fn trim_bounds(v: &Vec<char>, lo: usize, hi: usize) -> (r: (usize, usize))
    requires
        lo <= hi <= v.len(),
    ensures
        lo <= r.0 <= r.1 <= hi,
        v@.subrange(r.0 as int, r.1 as int) == trim(v@.subrange(lo as int, hi as int)),
{
    let ghost s = v@.subrange(lo as int, hi as int);
    let mut a = lo;
    while a < hi && char_is_ws(v[a])
        invariant
            lo <= a <= hi <= v.len(),
            trim_start(s) == trim_start(v@.subrange(a as int, hi as int)),
        decreases hi - a,
    {
        assert(v@.subrange(a as int, hi as int).drop_first() =~= v@.subrange(
            a + 1,
            hi as int,
        ));
        a += 1;
    }
    assert(trim_start(s) == v@.subrange(a as int, hi as int));
    let mut b = hi;
    while b > a && char_is_ws(v[b - 1])
        invariant
            lo <= a <= b <= hi <= v.len(),
            trim(s) == trim_end(v@.subrange(a as int, b as int)),
        decreases b - a,
    {
        assert(v@.subrange(a as int, b as int).drop_last() =~= v@.subrange(
            a as int,
            b - 1,
        ));
        b -= 1;
    }
    (a, b)
}

/// `s.trim()`.
pub fn trim_str(s: &str) -> (r: String)
    ensures
        r@ == trim(s@),
{
    let v = chars_of(s);
    assert(v@.subrange(0, v.len() as int) =~= v@);
    let (a, b) = trim_bounds(&v, 0, v.len());
    string_of_range(&v, a, b)
}

/// `s.trim_end()`.
pub fn trim_end_str(s: &str) -> (r: String)
    ensures
        r@ == trim_end(s@),
{
    let v = chars_of(s);
    let mut b = v.len();
    assert(v@.subrange(0, b as int) =~= v@);
    while b > 0 && char_is_ws(v[b - 1])
        invariant
            b <= v.len(),
            v@ == s@,
            trim_end(s@) == trim_end(v@.subrange(0, b as int)),
        decreases b,
    {
        assert(v@.subrange(0, b as int).drop_last() =~= v@.subrange(0, b - 1));
        b -= 1;
    }
    string_of_range(&v, 0, b)
}

/// Whether `v[lo..hi]` holds only whitespace.
pub fn range_is_blank(v: &Vec<char>, lo: usize, hi: usize) -> (b: bool)
    requires
        lo <= hi <= v.len(),
    ensures
        b == all_ws(v@.subrange(lo as int, hi as int)),
{
    let mut i = lo;
    while i < hi
        invariant
            lo <= i <= hi <= v.len(),
            forall|k: int| lo <= k < i ==> is_ws(v@[k]),
        decreases hi - i,
    {
        if !char_is_ws(v[i]) {
            assert(v@.subrange(lo as int, hi as int)[i - lo] == v@[i as int]);
            return false;
        }
        i += 1;
    }
    assert forall|k: int| 0 <= k < hi - lo implies is_ws(
        #[trigger] v@.subrange(lo as int, hi as int)[k],
    ) by {
        assert(v@.subrange(lo as int, hi as int)[k] == v@[lo + k]);
    }
    true
}

/// Whether `s.trim().is_empty()`.
pub fn is_blank(s: &str) -> (b: bool)
    ensures
        b == all_ws(s@),
{
    let v = chars_of(s);
    assert(v@.subrange(0, v.len() as int) =~= v@);
    range_is_blank(&v, 0, v.len())
}

/// `s.split(c)`: the pieces between occurrences of `c`.
pub fn split_char(s: &str, c: char) -> (r: Vec<String>)
    ensures
        views(r@) == split_by(s@, eq_char(c)),
{
    let v = chars_of(s);
    let mut out: Vec<String> = Vec::new();
    let mut cur = String::new();
    let mut i: usize = 0;
    assert(v@.take(0) =~= Seq::<char>::empty());
    assert(views(out@).push(cur@) =~= split_by(v@.take(0), eq_char(c)));
    while i < v.len()
        invariant
            i <= v.len(),
            v@ == s@,
            views(out@).push(cur@) == split_by(v@.take(i as int), eq_char(c)),
        decreases v.len() - i,
    {
        let ghost pre = v@.take(i as int);
        assert(v@.take(i + 1).drop_last() =~= pre);
        assert(v@.take(i + 1).last() == v@[i as int]);
        if v[i] == c {
            out.push(cur);
            cur = String::new();
            assert(views(out@).push(cur@) =~= split_by(pre, eq_char(c)).push(Seq::empty()));
        } else {
            let ghost old_out = views(out@);
            push_char(&mut cur, v[i]);
            assert(views(out@).push(cur@) =~= split_by(pre, eq_char(c)).update(
                old_out.len() as int,
                split_by(pre, eq_char(c)).last().push(v@[i as int]),
            ));
        }
        i += 1;
    }
    assert(v@.take(v.len() as int) =~= v@);
    out.push(cur);
    assert(views(out@) =~= split_by(s@, eq_char(c)));
    out
}

/// `p` without one trailing `\r`.
pub fn strip_cr_string(p: String) -> (r: String)
    ensures
        r@ == strip_cr(p@),
{
    let v = chars_of(p.as_str());
    if v.len() > 0 && v[v.len() - 1] == '\r' {
        string_of_range(&v, 0, v.len() - 1)
    } else {
        p
    }
}

/// `s.lines()`.
pub fn lines(s: &str) -> (r: Vec<String>)
    ensures
        views(r@) == lines_of(s@),
{
    let parts = split_char(s, '\n');
    proof {
        lemma_split_by_last(s@, eq_char('\n'));
    }
    let n = parts.len();
    let last_empty = parts[n - 1].as_str().unicode_len() == 0;
    let mut out: Vec<String> = Vec::new();
    let mut k: usize = 0;
    while k < n - 1
        invariant
            n == parts.len() >= 1,
            k <= n - 1,
            views(parts@) == split_by(s@, eq_char('\n')),
            views(out@) == Seq::new(k as nat, |j: int| strip_cr(views(parts@)[j])),
        decreases n - 1 - k,
    {
        let p = strip_cr_string(parts[k].clone());
        assert(p@ == strip_cr(views(parts@)[k as int]));
        let ghost old_v = views(out@);
        out.push(p);
        assert(views(out@) =~= old_v.push(p@));
        k += 1;
        assert(views(out@) =~= Seq::new(k as nat, |j: int| strip_cr(views(parts@)[j])));
    }
    if !last_empty {
        let p = parts[n - 1].clone();
        assert(p@ == views(parts@)[n - 1]);
        let ghost old_v = views(out@);
        out.push(p);
        assert(views(out@) =~= old_v.push(p@));
    }
    assert(views(out@) =~= lines_of(s@));
    out
}

/// `s.split_whitespace()`.
pub fn words(s: &str) -> (r: Vec<String>)
    ensures
        views(r@) == words_of(s@),
{
    let v = chars_of(s);
    let ghost sep = |c: char| is_ws(c);
    let ghost keep = |w: Seq<char>| w.len() > 0;
    let mut out: Vec<String> = Vec::new();
    let mut cur = String::new();
    let mut i: usize = 0;
    assert(v@.take(0) =~= Seq::<char>::empty());
    assert(split_by(v@.take(0), sep) =~= seq![Seq::<char>::empty()]);
    reveal_with_fuel(Seq::filter, 2);
    assert(split_by(v@.take(0), sep).drop_last() =~= Seq::<Seq<char>>::empty());
    while i < v.len()
        invariant
            i <= v.len(),
            v@ == s@,
            sep == (|c: char| is_ws(c)),
            keep == (|w: Seq<char>| w.len() > 0),
            split_by(v@.take(i as int), sep).len() >= 1,
            split_by(v@.take(i as int), sep).last() == cur@,
            views(out@) == split_by(v@.take(i as int), sep).drop_last().filter(keep),
        decreases v.len() - i,
    {
        let ghost pre = v@.take(i as int);
        let ghost parts = split_by(pre, sep);
        assert(v@.take(i + 1).drop_last() =~= pre);
        assert(v@.take(i + 1).last() == v@[i as int]);
        if char_is_ws(v[i]) {
            let ghost old_out = views(out@);
            let ghost new_parts = parts.push(Seq::<char>::empty());
            assert(new_parts.drop_last() =~= parts);
            assert(parts =~= parts.drop_last().push(parts.last()));
            reveal_with_fuel(Seq::filter, 1);
            if cur.as_str().unicode_len() > 0 {
                out.push(cur);
                assert(views(out@) =~= old_out.push(parts.last()));
            } else {
                assert(views(out@) =~= old_out);
            }
            cur = String::new();
        } else {
            let ghost new_parts = parts.update(parts.len() - 1, parts.last().push(v@[i as int]));
            assert(new_parts.drop_last() =~= parts.drop_last());
            push_char(&mut cur, v[i]);
        }
        i += 1;
    }
    assert(v@.take(v.len() as int) =~= v@);
    let ghost parts = split_by(s@, sep);
    assert(parts =~= parts.drop_last().push(parts.last()));
    reveal_with_fuel(Seq::filter, 1);
    if cur.as_str().unicode_len() > 0 {
        out.push(cur);
    }
    assert(views(out@) =~= words_of(s@));
    out
}

/// The digit character of `d`.
pub fn digit_to_char(d: u64) -> (c: char)
    requires
        d < 10,
    ensures
        c == digit_char(d as nat),
{
    if d == 0 {
        '0'
    } else if d == 1 {
        '1'
    } else if d == 2 {
        '2'
    } else if d == 3 {
        '3'
    } else if d == 4 {
        '4'
    } else if d == 5 {
        '5'
    } else if d == 6 {
        '6'
    } else if d == 7 {
        '7'
    } else if d == 8 {
        '8'
    } else {
        '9'
    }
}

/// The decimal notation of `n` (what `n.to_string()` gives).
pub fn decimal_string(n: u128) -> (r: String)
    ensures
        r@ == decimal(n as nat),
    decreases n,
{
    if n < 10 {
        let mut r = String::new();
        push_char(&mut r, digit_to_char(n as u64));
        assert(r@ =~= decimal(n as nat));
        r
    } else {
        let mut r = decimal_string(n / 10);
        push_char(&mut r, digit_to_char((n % 10) as u64));
        r
    }
}

/// `s.parse::<u64>().ok()`.
pub fn parse_u64(s: &str) -> (r: Option<u64>)
    ensures
        r == parse_u64_spec(s@),
{
    let v = chars_of(s);
    let start: usize = if v.len() > 0 && v[0] == '+' {
        1
    } else {
        0
    };
    let ghost ds = unsigned_digits(s@);
    assert(ds =~= v@.subrange(start as int, v.len() as int));
    if start >= v.len() {
        return None;
    }
    let mut acc: u64 = 0;
    let mut i = start;
    assert(ds.take(0) =~= Seq::<char>::empty());
    while i < v.len()
        invariant
            start <= i <= v.len(),
            v@ == s@,
            ds == v@.subrange(start as int, v.len() as int),
            ds == unsigned_digits(s@),
            forall|k: int| 0 <= k < i - start ==> is_digit(#[trigger] ds[k]),
            acc == digits_value(ds.take(i - start)),
        decreases v.len() - i,
    {
        let c = v[i];
        let ghost k = i - start;
        assert(ds[k] == c);
        if !('0' <= c && c <= '9') {
            assert(!is_digit(ds[k]));
            return None;
        }
        let d = (c as u32 - '0' as u32) as u64;
        assert(ds.take(k + 1).drop_last() =~= ds.take(k));
        assert(ds.take(k + 1).last() == c);
        assert(digits_value(ds.take(k + 1)) == acc * 10 + d);
        match acc.checked_mul(10) {
            Some(m) => match m.checked_add(d) {
                Some(a) => {
                    acc = a;
                },
                None => {
                    proof {
                        lemma_digits_value_prefix(ds, k + 1);
                    }
                    return None;
                },
            },
            None => {
                proof {
                    lemma_digits_value_prefix(ds, k + 1);
                }
                return None;
            },
        }
        i += 1;
    }
    assert(ds.take(ds.len() as int) =~= ds);
    Some(acc)
}

/// `format!("{:<width$}", s)`.
pub fn pad_right_str(s: &str, width: usize) -> (r: String)
    ensures
        r@ == pad_right(s@, width as nat),
{
    let n = s.unicode_len();
    let mut r = String::from_str(s);
    if n < width {
        let mut k = n;
        while k < width
            invariant
                n <= k <= width,
                n == s@.len(),
                r@ == s@ + Seq::new((k - n) as nat, |i: int| ' '),
            decreases width - k,
        {
            push_char(&mut r, ' ');
            k += 1;
            assert(r@ =~= s@ + Seq::new((k - n) as nat, |i: int| ' '));
        }
    }
    r
}

/// Whether `s` begins with `prefix`.
pub fn str_starts_with(s: &str, prefix: &str) -> (b: bool)
    ensures
        b == starts_with(s@, prefix@),
{
    let v = chars_of(s);
    let p = chars_of(prefix);
    if p.len() > v.len() {
        return false;
    }
    let mut i: usize = 0;
    while i < p.len()
        invariant
            p.len() <= v.len(),
            i <= p.len(),
            v@ == s@,
            p@ == prefix@,
            forall|k: int| 0 <= k < i ==> v@[k] == p@[k],
        decreases p.len() - i,
    {
        if v[i] != p[i] {
            assert(s@.subrange(0, prefix@.len() as int)[i as int] != prefix@[i as int]);
            return false;
        }
        i += 1;
    }
    assert(s@.subrange(0, prefix@.len() as int) =~= prefix@);
    true
}

/// Whether two strings hold the same characters.
pub fn str_eq(a: &str, b: &str) -> (r: bool)
    ensures
        r == (a@ == b@),
{
    let x = chars_of(a);
    let y = chars_of(b);
    if x.len() != y.len() {
        return false;
    }
    let mut i: usize = 0;
    while i < x.len()
        invariant
            x.len() == y.len(),
            i <= x.len(),
            x@ == a@,
            y@ == b@,
            forall|k: int| 0 <= k < i ==> x@[k] == y@[k],
        decreases x.len() - i,
    {
        if x[i] != y[i] {
            return false;
        }
        i += 1;
    }
    assert(x@ =~= y@);
    true
}

/// What `str::to_uppercase` gives for `s` (Unicode upper-case mapping).
pub uninterp spec fn upper(s: Seq<char>) -> Seq<char>;

/// `s.to_uppercase()`: std's Unicode upper-case mapping. Its result is named
/// [`upper`] and depends on `s` alone; nothing more is stated of it.
#[verifier::external_body]
pub(crate) fn to_upper(s: &str) -> (r: String)
    ensures
        r@ == upper(s@),
{
    s.to_uppercase()
}

/// Lexicographic order of character sequences by code point, which is the
/// order of `str` (byte order of UTF-8).
pub open spec fn str_lt(a: Seq<char>, b: Seq<char>) -> bool
    decreases a.len(),
{
    if a.len() == 0 {
        b.len() > 0
    } else if b.len() == 0 {
        false
    } else if a[0] != b[0] {
        (a[0] as int) < (b[0] as int)
    } else {
        str_lt(a.drop_first(), b.drop_first())
    }
}

/// No string is below itself.
pub proof fn lemma_str_lt_irreflexive(a: Seq<char>)
    ensures
        !str_lt(a, a),
    decreases a.len(),
{
    if a.len() > 0 {
        lemma_str_lt_irreflexive(a.drop_first());
    }
}

/// The order of strings is transitive.
pub proof fn lemma_str_lt_transitive(a: Seq<char>, b: Seq<char>, c: Seq<char>)
    requires
        str_lt(a, b),
        str_lt(b, c),
    ensures
        str_lt(a, c),
    decreases a.len(),
{
    if a.len() > 0 && b.len() > 0 && c.len() > 0 && a[0] == b[0] && b[0] == c[0] {
        lemma_str_lt_transitive(a.drop_first(), b.drop_first(), c.drop_first());
    }
}

/// Of two different strings, one is below the other.
pub proof fn lemma_str_lt_total(a: Seq<char>, b: Seq<char>)
    requires
        a != b,
    ensures
        str_lt(a, b) || str_lt(b, a),
    decreases a.len(),
{
    if a.len() > 0 && b.len() > 0 {
        if a[0] == b[0] {
            if a.drop_first() == b.drop_first() {
                assert(a =~= seq![a[0]] + a.drop_first());
                assert(b =~= seq![b[0]] + b.drop_first());
            }
            lemma_str_lt_total(a.drop_first(), b.drop_first());
        } else {
            assert((a[0] as int) != (b[0] as int));
        }
    } else if a.len() == 0 && b.len() == 0 {
        assert(a =~= b);
    }
}

/// Whether `a < b` as strings.
pub fn string_lt(a: &str, b: &str) -> (r: bool)
    ensures
        r == str_lt(a@, b@),
{
    let x = chars_of(a);
    let y = chars_of(b);
    let mut i: usize = 0;
    assert(x@.skip(0) =~= x@);
    assert(y@.skip(0) =~= y@);
    while i < x.len() && i < y.len()
        invariant
            i <= x.len(),
            i <= y.len(),
            x@ == a@,
            y@ == b@,
            str_lt(a@, b@) == str_lt(x@.skip(i as int), y@.skip(i as int)),
        decreases x.len() - i,
    {
        if x[i] != y[i] {
            return x[i] < y[i];
        }
        assert(x@.skip(i as int).drop_first() =~= x@.skip(i + 1));
        assert(y@.skip(i as int).drop_first() =~= y@.skip(i + 1));
        i += 1;
    }
    i < y.len()
}

/// The strings of `list` separated by `sep` (what `join` gives).
pub open spec fn join_spec(list: Seq<Seq<char>>, sep: Seq<char>) -> Seq<char>
    decreases list.len(),
{
    if list.len() == 0 {
        Seq::empty()
    } else if list.len() == 1 {
        list[0]
    } else {
        join_spec(list.drop_last(), sep) + sep + list.last()
    }
}

/// `list.join(sep)`.
pub fn join_strings(list: &Vec<String>, sep: &str) -> (r: String)
    ensures
        r@ == join_spec(views(list@), sep@),
{
    let mut r = String::new();
    let mut i: usize = 0;
    assert(views(list@).take(0) =~= Seq::<Seq<char>>::empty());
    while i < list.len()
        invariant
            i <= list.len(),
            r@ == join_spec(views(list@).take(i as int), sep@),
        decreases list.len() - i,
    {
        let ghost pre = views(list@).take(i as int);
        assert(views(list@).take(i + 1).drop_last() =~= pre);
        assert(views(list@).take(i + 1).last() == list@[i as int]@);
        if i > 0 {
            r.append(sep);
        } else {
            assert(views(list@).take(1) =~= seq![list@[0]@]);
        }
        r.append(list[i].as_str());
        i += 1;
    }
    assert(views(list@).take(list.len() as int) =~= views(list@));
    r
}

} // verus!
