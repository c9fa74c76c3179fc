//! Text primitives on `char` sequences: lines, key/value splitting,
//! decimal integers and whitespace.
//!
//! Each executable function here is specified by a spec function that
//! states, in the plainest form, what std's corresponding operation does
//! (`str::lines`, `str::split_once`, `<u64 as FromStr>`, `<i64 as FromStr>`,
//! `i64`'s `Display`, `str::trim`).

use vstd::prelude::*;

verus! {

/// The kinds of failure of a decimal integer parse (std's `IntErrorKind`).
#[derive(Debug, Clone, Copy, PartialEq, Eq, Structural)]
pub enum IntErrorKind {
    /// The text is empty.
    Empty,
    /// A character other than a decimal digit where a digit is expected.
    InvalidDigit,
    /// The value is above the largest value of the type.
    PosOverflow,
    /// The value is below the smallest value of the type.
    NegOverflow,
}

// ---------------------------------------------------------------------------
// Specifications
// ---------------------------------------------------------------------------

/// Index of the first occurrence of `c` in `s`.
pub open spec fn find_char(s: Seq<char>, c: char) -> Option<nat>
    decreases s.len(),
{
    if s.len() == 0 {
        None
    } else if s[0] == c {
        Some(0)
    } else {
        match find_char(s.drop_first(), c) {
            Some(i) => Some(i + 1),
            None => None,
        }
    }
}

/// Removes one trailing carriage return.
pub open spec fn strip_cr(s: Seq<char>) -> Seq<char> {
    if s.len() > 0 && s.last() == '\r' {
        s.drop_last()
    } else {
        s
    }
}

/// The lines of `s` as `str::lines` yields them: split after each `'\n'`,
/// the `'\n'` and a `'\r'` just before it removed, no line after a final
/// `'\n'`.
pub open spec fn spec_lines(s: Seq<char>) -> Seq<Seq<char>>
    decreases s.len(),
{
    if s.len() == 0 {
        seq![]
    } else {
        match find_char(s, '\n') {
            Some(i) => {
                proof {
                    lemma_find_char_bound(s, '\n');
                }
                seq![strip_cr(s.take(i as int))] + spec_lines(s.skip(i as int + 1))
            },
            None => seq![s],
        }
    }
}

/// `s.split_once('=')`: the text before and after the first `'='`.
pub open spec fn split_at_eq(s: Seq<char>) -> Option<(Seq<char>, Seq<char>)> {
    match find_char(s, '=') {
        Some(i) => Some((s.take(i as int), s.skip(i as int + 1))),
        None => None,
    }
}

/// The value of a decimal digit.
pub open spec fn digit_value(c: char) -> Option<nat> {
    if c == '0' {
        Some(0)
    } else if c == '1' {
        Some(1)
    } else if c == '2' {
        Some(2)
    } else if c == '3' {
        Some(3)
    } else if c == '4' {
        Some(4)
    } else if c == '5' {
        Some(5)
    } else if c == '6' {
        Some(6)
    } else if c == '7' {
        Some(7)
    } else if c == '8' {
        Some(8)
    } else if c == '9' {
        Some(9)
    } else {
        None
    }
}

/// The digit character of a value below ten.
pub open spec fn digit_char(d: nat) -> char {
    if d == 0 {
        '0'
    } else if d == 1 {
        '1'
    } else if d == 2 {
        '2'
    } else if d == 3 {
        '3'
    } else if d == 4 {
        '4'
    } else if d == 5 {
        '5'
    } else if d == 6 {
        '6'
    } else if d == 7 {
        '7'
    } else if d == 8 {
        '8'
    } else {
        '9'
    }
}

/// Reads one more character after the value `acc` was read, as std's
/// `from_str_radix` does: a non-digit is `InvalidDigit`, leaving `[lo, hi]`
/// is `PosOverflow` (reading a positive number) or `NegOverflow` (reading a
/// negative one).
pub open spec fn parse_step(acc: int, c: char, positive: bool, lo: int, hi: int) -> Result<
    int,
    IntErrorKind,
> {
    match digit_value(c) {
        None => Err(IntErrorKind::InvalidDigit),
        Some(d) => {
            if positive {
                if acc * 10 + d > hi {
                    Err(IntErrorKind::PosOverflow)
                } else {
                    Ok(acc * 10 + d)
                }
            } else {
                if acc * 10 - d < lo {
                    Err(IntErrorKind::NegOverflow)
                } else {
                    Ok(acc * 10 - d)
                }
            }
        },
    }
}

/// Reads `digits`, left to right, after the value `acc` was read; the
/// first failing step ends the read.
pub open spec fn parse_digits(digits: Seq<char>, acc: int, positive: bool, lo: int, hi: int) -> Result<
    int,
    IntErrorKind,
>
    decreases digits.len(),
{
    if digits.len() == 0 {
        Ok(acc)
    } else {
        match parse_step(acc, digits[0], positive, lo, hi) {
            Ok(next) => parse_digits(digits.drop_first(), next, positive, lo, hi),
            Err(e) => Err(e),
        }
    }
}

/// `s.parse()` into an integer type with range `[lo, hi]`; `signed` when
/// the type is signed (only then may a `'-'` sign stand in front).
pub open spec fn parse_int(s: Seq<char>, lo: int, hi: int, signed: bool) -> Result<int, IntErrorKind> {
    if s.len() == 0 {
        Err(IntErrorKind::Empty)
    } else if s.len() == 1 && (s[0] == '+' || s[0] == '-') {
        Err(IntErrorKind::InvalidDigit)
    } else if s[0] == '+' {
        parse_digits(s.drop_first(), 0, true, lo, hi)
    } else if s[0] == '-' && signed {
        parse_digits(s.drop_first(), 0, false, lo, hi)
    } else {
        parse_digits(s, 0, true, lo, hi)
    }
}

/// `s.parse::<u64>()`.
pub open spec fn spec_parse_u64(s: Seq<char>) -> Result<u64, IntErrorKind> {
    match parse_int(s, 0, u64::MAX as int, false) {
        Ok(v) => Ok(v as u64),
        Err(e) => Err(e),
    }
}

/// `s.parse::<i64>()`.
pub open spec fn spec_parse_i64(s: Seq<char>) -> Result<i64, IntErrorKind> {
    match parse_int(s, i64::MIN as int, i64::MAX as int, true) {
        Ok(v) => Ok(v as i64),
        Err(e) => Err(e),
    }
}

/// The decimal digits of `n`, most significant first, without leading zeros.
pub open spec fn decimal_digits(n: nat) -> Seq<char>
    decreases n,
{
    if n < 10 {
        seq![digit_char(n)]
    } else {
        decimal_digits(n / 10).push(digit_char(n % 10))
    }
}

/// `format!("{}", n)` for an integer `n`.
pub open spec fn decimal(n: int) -> Seq<char> {
    if n < 0 {
        seq!['-'] + decimal_digits((-n) as nat)
    } else {
        decimal_digits(n as nat)
    }
}

/// `char::is_whitespace`: the Unicode `White_Space` property.
pub open spec fn is_whitespace(c: char) -> bool {
    let u = c as u32;
    ||| 0x9 <= u <= 0xD
    ||| u == 0x20
    ||| u == 0x85
    ||| u == 0xA0
    ||| u == 0x1680
    ||| 0x2000 <= u <= 0x200A
    ||| u == 0x2028
    ||| u == 0x2029
    ||| u == 0x202F
    ||| u == 0x205F
    ||| u == 0x3000
}

/// `s.trim().is_empty()`: every character is white space.
pub open spec fn is_blank_text(s: Seq<char>) -> bool {
    forall|i: int| 0 <= i < s.len() ==> is_whitespace(#[trigger] s[i])
}

// ---------------------------------------------------------------------------
// Lemmas
// ---------------------------------------------------------------------------

/// A found index lies inside the text and holds the character.
pub proof fn lemma_find_char_bound(s: Seq<char>, c: char)
    ensures
        find_char(s, c) matches Some(i) ==> i < s.len() && s[i as int] == c,
    decreases s.len(),
{
    if s.len() > 0 && s[0] != c {
        lemma_find_char_bound(s.drop_first(), c);
    }
}

/// No index before the found one holds `c`.
pub proof fn lemma_find_char_is_first(s: Seq<char>, c: char)
    ensures
        find_char(s, c) matches Some(i) ==> forall|j: int| 0 <= j < i ==> s[j] != c,
    decreases s.len(),
{
    lemma_find_char_bound(s, c);
    if s.len() > 0 && s[0] != c {
        lemma_find_char_is_first(s.drop_first(), c);
        if let Some(i) = find_char(s, c) {
            assert forall|j: int| 0 <= j < i implies s[j] != c by {
                if j > 0 {
                    assert(s[j] == s.drop_first()[j - 1]);
                }
            }
        }
    }
}

/// A split text is the key, `'='` and the value, and the key holds no
/// `'='`.
pub proof fn lemma_split_at_eq_parts(s: Seq<char>)
    ensures
        split_at_eq(s) matches Some((key, value)) ==> s == key + seq!['='] + value && forall|
            j: int,
        |
            0 <= j < key.len() ==> key[j] != '=',
{
    lemma_find_char_bound(s, '=');
    lemma_find_char_is_first(s, '=');
    if let Some(i) = find_char(s, '=') {
        assert(s =~= s.take(i as int) + seq!['='] + s.skip(i as int + 1));
    }
}

/// The first occurrence is found: no earlier index holds `c`.
proof fn lemma_find_char_first(s: Seq<char>, c: char, i: int)
    requires
        0 <= i < s.len(),
        s[i] == c,
        forall|j: int| 0 <= j < i ==> s[j] != c,
    ensures
        find_char(s, c) == Some(i as nat),
    decreases i,
{
    if i > 0 {
        lemma_find_char_first(s.drop_first(), c, i - 1);
    }
}

/// Without an occurrence nothing is found.
proof fn lemma_find_char_none(s: Seq<char>, c: char)
    requires
        forall|j: int| 0 <= j < s.len() ==> s[j] != c,
    ensures
        find_char(s, c) is None,
    decreases s.len(),
{
    if s.len() > 0 {
        lemma_find_char_none(s.drop_first(), c);
    }
}

/// Searching a concatenation finds the occurrence in the first part, or
/// else one in the second part, shifted.
proof fn lemma_find_char_append(s: Seq<char>, t: Seq<char>, c: char)
    ensures
        find_char(s + t, c) == (match find_char(s, c) {
            Some(i) => Some(i),
            None => match find_char(t, c) {
                Some(j) => Some(j + s.len()),
                None => None,
            },
        }),
    decreases s.len(),
{
    if s.len() == 0 {
        assert(s + t =~= t);
    } else {
        assert((s + t).drop_first() =~= s.drop_first() + t);
        assert((s + t)[0] == s[0]);
        lemma_find_char_append(s.drop_first(), t, c);
    }
}

/// A text that ends neither with `'\n'` nor with `'\r'`.
pub open spec fn ends_without_line_ending(s: Seq<char>) -> bool {
    s.len() > 0 && s.last() != '\n' && s.last() != '\r'
}

/// Texts joined by a line ending have the lines of the first followed by
/// the lines of the second, where the first ends without a line ending.
pub proof fn law_lines_concat(a: Seq<char>, b: Seq<char>)
    requires
        ends_without_line_ending(a),
    ensures
        spec_lines(a + seq!['\n'] + b) == spec_lines(a) + spec_lines(b),
    decreases a.len(),
{
    let t = a + seq!['\n'] + b;
    assert(t =~= a + (seq!['\n'] + b));
    lemma_find_char_append(a, seq!['\n'] + b, '\n');
    lemma_find_char_bound(a, '\n');
    assert((seq!['\n'] + b)[0] == '\n');
    match find_char(a, '\n') {
        Some(i) => {
            let rest = a.skip(i as int + 1);
            assert(i < a.len() - 1);
            assert(t.take(i as int) =~= a.take(i as int));
            assert(t.skip(i as int + 1) =~= rest + seq!['\n'] + b);
            assert(rest.last() == a.last());
            law_lines_concat(rest, b);
            assert(spec_lines(t) =~= seq![strip_cr(a.take(i as int))] + (spec_lines(rest)
                + spec_lines(b)));
            assert(spec_lines(a) == seq![strip_cr(a.take(i as int))] + spec_lines(rest));
            assert(spec_lines(t) =~= spec_lines(a) + spec_lines(b));
        },
        None => {
            assert(t.take(a.len() as int) =~= a);
            assert(t.skip(a.len() as int + 1) =~= b);
            assert(strip_cr(a) == a);
            assert(spec_lines(a) == seq![a]);
            assert(spec_lines(t) =~= spec_lines(a) + spec_lines(b));
        },
    }
}

/// A final line ending does not add a line: as `str::lines` documents, a
/// text ending with one has the same lines as the text without it.
pub proof fn law_lines_final_line_ending(a: Seq<char>)
    requires
        ends_without_line_ending(a),
    ensures
        spec_lines(a + seq!['\n']) == spec_lines(a),
        spec_lines(a + seq!['\r', '\n']) == spec_lines(a),
    decreases a.len(),
{
    law_lines_concat(a, seq![]);
    assert(a + seq!['\n'] + Seq::<char>::empty() =~= a + seq!['\n']);
    assert(spec_lines(Seq::<char>::empty()) =~= Seq::<Seq<char>>::empty());
    assert(spec_lines(a) + Seq::<Seq<char>>::empty() =~= spec_lines(a));
    let t = a + seq!['\r', '\n'];
    lemma_find_char_append(a, seq!['\r', '\n'], '\n');
    assert(find_char(seq!['\r', '\n'], '\n') == Some(1nat)) by {
        assert(seq!['\r', '\n'].drop_first() =~= seq!['\n']);
        assert(seq!['\r', '\n'][0] == '\r');
        assert(seq!['\n'][0] == '\n');
        assert(find_char(seq!['\n'], '\n') == Some(0nat));
    }
    match find_char(a, '\n') {
        Some(i) => {
            lemma_find_char_bound(a, '\n');
            let rest = a.skip(i as int + 1);
            assert(t.take(i as int) =~= a.take(i as int));
            assert(t.skip(i as int + 1) =~= rest + seq!['\r', '\n']);
            assert(rest.last() == a.last());
            law_lines_final_line_ending(rest);
        },
        None => {
            assert(t.take(a.len() as int + 1) =~= a.push('\r'));
            assert(strip_cr(a.push('\r')) =~= a);
            assert(t.skip(a.len() as int + 2) =~= Seq::<char>::empty());
            assert(spec_lines(t) =~= seq![a]);
        },
    }
}

/// Whether `s` ends with `t`.
pub open spec fn ends_with(s: Seq<char>, t: Seq<char>) -> bool {
    t.len() <= s.len() && s.skip(s.len() - t.len()) == t
}

/// A text that is empty or ends with `'\n'` followed by another text has
/// the lines of the first followed by the lines of the second.
pub proof fn law_lines_after_line_ending(a: Seq<char>, t: Seq<char>)
    requires
        a.len() == 0 || a.last() == '\n',
    ensures
        spec_lines(a + t) == spec_lines(a) + spec_lines(t),
    decreases a.len(),
{
    if a.len() == 0 {
        assert(a + t =~= t);
        assert(spec_lines(a) =~= Seq::<Seq<char>>::empty());
        assert(spec_lines(a) + spec_lines(t) =~= spec_lines(t));
    } else {
        lemma_find_char_append(a, t, '\n');
        lemma_find_char_bound(a, '\n');
        if find_char(a, '\n') is None {
            lemma_find_char_first_exists(a, '\n', a.len() - 1);
        }
        let i = find_char(a, '\n')->0;
        let rest = a.skip(i as int + 1);
        assert((a + t).take(i as int) =~= a.take(i as int));
        assert((a + t).skip(i as int + 1) =~= rest + t);
        if rest.len() > 0 {
            assert(rest.last() == a.last());
        }
        law_lines_after_line_ending(rest, t);
        assert(spec_lines(a + t) =~= seq![strip_cr(a.take(i as int))] + (spec_lines(rest)
            + spec_lines(t)));
        assert(spec_lines(a) == seq![strip_cr(a.take(i as int))] + spec_lines(rest));
        assert(spec_lines(a + t) =~= spec_lines(a) + spec_lines(t));
    }
}

/// A character present in a text is found somewhere.
proof fn lemma_find_char_first_exists(s: Seq<char>, c: char, k: int)
    requires
        0 <= k < s.len(),
        s[k] == c,
    ensures
        find_char(s, c) is Some,
    decreases s.len(),
{
    if s[0] != c {
        lemma_find_char_first_exists(s.drop_first(), c, k - 1);
    }
}

/// Dropping a final `'\r'` leaves the split at the first `'='` as it was,
/// up to that `'\r'` in the value.
pub proof fn lemma_strip_cr_keeps_split(s: Seq<char>)
    ensures
        match split_at_eq(s) {
            Some((key, _)) => split_at_eq(strip_cr(s)) matches Some((k2, _)) && k2 == key,
            None => split_at_eq(strip_cr(s)) is None,
        },
{
    if s.len() > 0 && s.last() == '\r' {
        let d = s.drop_last();
        assert(s =~= d + seq!['\r']);
        lemma_find_char_append(d, seq!['\r'], '=');
        assert(seq!['\r'].drop_first() =~= Seq::<char>::empty());
        assert(seq!['\r'][0] == '\r');
        assert(find_char(Seq::<char>::empty(), '=') is None);
        assert(find_char(seq!['\r'], '=') is None);
        lemma_find_char_bound(d, '=');
        if let Some(i) = find_char(d, '=') {
            assert(s.take(i as int) =~= d.take(i as int));
        }
    }
}

/// A line without `'\n'`, its `'\n'` and a further text: the line, its
/// final `'\r'` dropped, and then the further text's lines.
pub proof fn lemma_lines_leading_line(line: Seq<char>, after: Seq<char>)
    requires
        forall|i: int| 0 <= i < line.len() ==> line[i] != '\n',
    ensures
        spec_lines(line + seq!['\n'] + after) == seq![strip_cr(line)] + spec_lines(after),
{
    let t = line + seq!['\n'] + after;
    assert(t =~= line + (seq!['\n'] + after));
    lemma_find_char_none(line, '\n');
    lemma_find_char_append(line, seq!['\n'] + after, '\n');
    assert((seq!['\n'] + after)[0] == '\n');
    assert(t.take(line.len() as int) =~= line);
    assert(t.skip(line.len() as int + 1) =~= after);
}

/// A text without `'\n'` is no line if it is empty, else one line, kept
/// as it is (a final `'\r'` without `'\n'` stays).
pub proof fn lemma_lines_last_line(s: Seq<char>)
    requires
        forall|i: int| 0 <= i < s.len() ==> s[i] != '\n',
    ensures
        spec_lines(s) == (if s.len() == 0 {
            Seq::<Seq<char>>::empty()
        } else {
            seq![s]
        }),
{
    lemma_find_char_none(s, '\n');
}

/// Splitting `KEY=VALUE` at its first `'='` gives back the key and the
/// value, where the key holds no `'='`.
pub proof fn law_split_at_eq_round_trip(key: Seq<char>, value: Seq<char>)
    requires
        forall|i: int| 0 <= i < key.len() ==> key[i] != '=',
    ensures
        split_at_eq(key + seq!['='] + value) == Some((key, value)),
{
    let s = key + seq!['='] + value;
    lemma_find_char_first(s, '=', key.len() as int);
    assert(s.take(key.len() as int) =~= key);
    assert(s.skip(key.len() as int + 1) =~= value);
}

/// Reading one more character is one more step.
proof fn lemma_parse_digits_push(s: Seq<char>, c: char, acc: int, positive: bool, lo: int, hi: int)
    ensures
        parse_digits(s.push(c), acc, positive, lo, hi) == (match parse_digits(
            s,
            acc,
            positive,
            lo,
            hi,
        ) {
            Ok(v) => parse_step(v, c, positive, lo, hi),
            Err(e) => Err(e),
        }),
    decreases s.len(),
{
    reveal_with_fuel(parse_digits, 2);
    if s.len() == 0 {
        assert(s.push(c).drop_first() =~= Seq::<char>::empty());
        assert(s.push(c)[0] == c);
    } else {
        assert(s.push(c).drop_first() =~= s.drop_first().push(c));
        assert(s.push(c)[0] == s[0]);
        match parse_step(acc, s[0], positive, lo, hi) {
            Ok(next) => lemma_parse_digits_push(s.drop_first(), c, next, positive, lo, hi),
            Err(_) => {},
        }
    }
}

/// The digit character of a digit reads back as the digit.
proof fn lemma_digit_round_trip(d: nat)
    requires
        d < 10,
    ensures
        digit_value(digit_char(d)) == Some(d),
{
}

/// Decimal digits start with a digit.
proof fn lemma_decimal_digits_first(m: nat)
    ensures
        decimal_digits(m).len() > 0,
        digit_value(decimal_digits(m)[0]) is Some,
    decreases m,
{
    if m >= 10 {
        lemma_decimal_digits_first(m / 10);
    } else {
        lemma_digit_round_trip(m);
    }
}

/// The decimal digits of `m` read back as `m` (as `-m` when reading a
/// negative number), where that lies in range.
proof fn lemma_parse_decimal_digits(m: nat, positive: bool, lo: int, hi: int)
    requires
        lo <= 0 <= hi,
        positive ==> m <= hi,
        !positive ==> -m >= lo,
    ensures
        parse_digits(decimal_digits(m), 0, positive, lo, hi) == Ok::<int, IntErrorKind>(
            if positive {
                m as int
            } else {
                -m
            },
        ),
    decreases m,
{
    reveal_with_fuel(parse_digits, 2);
    if m < 10 {
        lemma_digit_round_trip(m);
        assert(decimal_digits(m).drop_first() =~= Seq::<char>::empty());
    } else {
        let q = m / 10;
        let r = m % 10;
        assert(m == q * 10 + r);
        assert(decimal_digits(m) == decimal_digits(q).push(digit_char(r)));
        lemma_parse_decimal_digits(q, positive, lo, hi);
        lemma_parse_digits_push(decimal_digits(q), digit_char(r), 0, positive, lo, hi);
        lemma_digit_round_trip(r);
    }
}

/// An integer printed in decimal reads back as itself: `n.to_string()`
/// parses to `n` as an `i64`.
pub proof fn law_i64_decimal_round_trip(n: i64)
    ensures
        spec_parse_i64(decimal(n as int)) == Ok::<i64, IntErrorKind>(n),
{
    if n < 0 {
        let m = (-n) as nat;
        lemma_parse_decimal_digits(m, false, i64::MIN as int, i64::MAX as int);
        lemma_decimal_digits_first(m);
        let s = decimal(n as int);
        assert(s.drop_first() =~= decimal_digits(m));
    } else {
        lemma_parse_decimal_digits(n as nat, true, i64::MIN as int, i64::MAX as int);
        lemma_decimal_digits_first(n as nat);
    }
}

/// A count printed in decimal reads back as itself: `n.to_string()`
/// parses to `n` as a `u64`.
pub proof fn law_u64_decimal_round_trip(n: u64)
    ensures
        spec_parse_u64(decimal(n as int)) == Ok::<u64, IntErrorKind>(n),
{
    lemma_parse_decimal_digits(n as nat, true, 0, u64::MAX as int);
    lemma_decimal_digits_first(n as nat);
}

// ---------------------------------------------------------------------------
// Executable functions
// ---------------------------------------------------------------------------

/// `String::push`: appends one character.
#[verifier::external_body]
pub(crate) fn push_char(s: &mut String, c: char)
    ensures
        final(s)@ == old(s)@.push(c),
{
    s.push(c);
}

/// The characters of `s`, in order.
pub fn chars_of(s: &str) -> (res: Vec<char>)
    ensures
        res@ == s@,
{
    let mut res: Vec<char> = Vec::new();
    for c in it: s.chars()
        invariant
            res@ == it.seq().take(it.index() as int),
    {
        res.push(c);
    }
    res
}

/// Appends `cs[lo..hi]` to `s`.
pub fn push_range(s: &mut String, cs: &Vec<char>, lo: usize, hi: usize)
    requires
        lo <= hi <= cs@.len(),
    ensures
        final(s)@ == old(s)@ + cs@.subrange(lo as int, hi as int),
{
    let mut i = lo;
    while i < hi
        invariant
            lo <= i <= hi <= cs@.len(),
            s@ == old(s)@ + cs@.subrange(lo as int, i as int),
        decreases hi - i,
    {
        push_char(s, cs[i]);
        i += 1;
        assert(cs@.subrange(lo as int, i as int) =~= cs@.subrange(lo as int, i - 1).push(
            cs@[i - 1],
        ));
    }
}

/// The text `cs[lo..hi]`.
pub fn string_of_range(cs: &Vec<char>, lo: usize, hi: usize) -> (res: String)
    requires
        lo <= hi <= cs@.len(),
    ensures
        res@ == cs@.subrange(lo as int, hi as int),
{
    let mut s = String::new();
    push_range(&mut s, cs, lo, hi);
    s
}

/// The characters `cs[lo..hi]`.
pub fn chars_of_range(cs: &Vec<char>, lo: usize, hi: usize) -> (res: Vec<char>)
    requires
        lo <= hi <= cs@.len(),
    ensures
        res@ == cs@.subrange(lo as int, hi as int),
{
    let mut res: Vec<char> = Vec::new();
    let mut i = lo;
    while i < hi
        invariant
            lo <= i <= hi <= cs@.len(),
            res@ == cs@.subrange(lo as int, i as int),
        decreases hi - i,
    {
        res.push(cs[i]);
        i += 1;
        assert(res@ =~= cs@.subrange(lo as int, i as int));
    }
    res
}

/// Appends `t` to `s`.
pub fn push_str_chars(s: &mut String, t: &str)
    ensures
        final(s)@ == old(s)@ + t@,
{
    let cs = chars_of(t);
    push_range(s, &cs, 0, cs.len());
    assert(cs@.subrange(0, cs@.len() as int) =~= cs@);
}

/// The lines of `cs`, as `str::lines` yields them.
pub fn lines_of(cs: &Vec<char>) -> (res: Vec<Vec<char>>)
    ensures
        res@.map_values(|l: Vec<char>| l@) == spec_lines(cs@),
{
    let mut res: Vec<Vec<char>> = Vec::new();
    let n = cs.len();
    let mut start: usize = 0;
    let mut i: usize = 0;
    assert(cs@.skip(0) =~= cs@);
    assert(res@.map_values(|l: Vec<char>| l@) + spec_lines(cs@) =~= spec_lines(cs@));
    while i < n
        invariant
            n == cs@.len(),
            start <= i <= n,
            forall|j: int| start <= j < i ==> cs@[j] != '\n',
            spec_lines(cs@) == res@.map_values(|l: Vec<char>| l@) + spec_lines(
                cs@.skip(start as int),
            ),
        decreases n - i,
    {
        if cs[i] == '\n' {
            let ghost rest = cs@.skip(start as int);
            proof {
                lemma_find_char_first(rest, '\n', i - start);
                assert(rest.skip(i - start + 1) =~= cs@.skip(i + 1));
                assert(rest.take(i - start) =~= cs@.subrange(start as int, i as int));
            }
            let end = if i > start && cs[i - 1] == '\r' {
                i - 1
            } else {
                i
            };
            let line = chars_of_range(cs, start, end);
            assert(line@ == strip_cr(cs@.subrange(start as int, i as int)));
            let ghost before = res@;
            res.push(line);
            assert(res@.map_values(|l: Vec<char>| l@) =~= before.map_values(|l: Vec<char>| l@).push(
                line@,
            ));
            start = i + 1;
        }
        i += 1;
    }
    if start < n {
        let ghost rest = cs@.skip(start as int);
        proof {
            lemma_find_char_none(rest, '\n');
        }
        let line = chars_of_range(cs, start, n);
        assert(line@ =~= rest);
        let ghost before = res@;
        res.push(line);
        assert(res@.map_values(|l: Vec<char>| l@) =~= before.map_values(|l: Vec<char>| l@).push(
            line@,
        ));
    } else {
        assert(cs@.skip(start as int) =~= Seq::<char>::empty());
        assert(res@.map_values(|l: Vec<char>| l@) + seq![] =~= res@.map_values(
            |l: Vec<char>| l@,
        ));
    }
    res
}

/// The lines of `s`, as `str::lines` yields them.
pub fn lines(s: &str) -> (res: Vec<String>)
    ensures
        res@.map_values(|l: String| l@) == spec_lines(s@),
{
    let cs = chars_of(s);
    let ls = lines_of(&cs);
    let mut res: Vec<String> = Vec::new();
    let mut k: usize = 0;
    while k < ls.len()
        invariant
            k <= ls@.len(),
            res@.map_values(|l: String| l@) =~= ls@.map_values(|l: Vec<char>| l@).take(k as int),
        decreases ls@.len() - k,
    {
        let line = string_of_range(&ls[k], 0, ls[k].len());
        assert(line@ =~= ls@[k as int]@);
        let ghost before = res@;
        res.push(line);
        k += 1;
        assert(res@.map_values(|l: String| l@) =~= before.map_values(|l: String| l@).push(line@));
        assert(res@.map_values(|l: String| l@) =~= ls@.map_values(|l: Vec<char>| l@).take(
            k as int,
        ));
    }
    assert(ls@.map_values(|l: Vec<char>| l@).take(ls@.len() as int) =~= ls@.map_values(
        |l: Vec<char>| l@,
    ));
    res
}

/// `line.split_once('=')`: the text before and after the first `'='`.
pub fn split_at_first_eq(line: &Vec<char>) -> (res: Option<(Vec<char>, Vec<char>)>)
    ensures
        match res {
            Some((k, v)) => split_at_eq(line@) == Some((k@, v@)),
            None => split_at_eq(line@) is None,
        },
{
    let n = line.len();
    let mut i: usize = 0;
    while i < n
        invariant
            n == line@.len(),
            i <= n,
            forall|j: int| 0 <= j < i ==> line@[j] != '=',
        decreases n - i,
    {
        if line[i] == '=' {
            proof {
                lemma_find_char_first(line@, '=', i as int);
            }
            let key = chars_of_range(line, 0, i);
            let value = chars_of_range(line, i + 1, n);
            assert(key@ =~= line@.take(i as int));
            assert(value@ =~= line@.skip(i + 1));
            return Some((key, value));
        }
        i += 1;
    }
    proof {
        lemma_find_char_none(line@, '=');
    }
    None
}

/// Whether `a` and `b` hold the same characters.
pub fn chars_eq_str(a: &Vec<char>, b: &str) -> (res: bool)
    ensures
        res == (a@ == b@),
{
    let bs = chars_of(b);
    if a.len() != bs.len() {
        return false;
    }
    let mut i: usize = 0;
    while i < a.len()
        invariant
            a@.len() == bs@.len(),
            bs@ == b@,
            i <= a@.len(),
            forall|j: int| 0 <= j < i ==> a@[j] == bs@[j],
        decreases a@.len() - i,
    {
        if a[i] != bs[i] {
            return false;
        }
        i += 1;
    }
    assert(a@ =~= bs@);
    true
}

/// Whether `a` and `b` are the same text.
pub fn str_eq(a: &str, b: &str) -> (res: bool)
    ensures
        res == (a@ == b@),
{
    chars_eq_str(&chars_of(a), b)
}

/// The value of a decimal digit character.
fn digit_of(c: char) -> (res: Option<u8>)
    ensures
        match res {
            Some(d) => digit_value(c) == Some(d as nat),
            None => digit_value(c) is None,
        },
{
    match c {
        '0' => Some(0),
        '1' => Some(1),
        '2' => Some(2),
        '3' => Some(3),
        '4' => Some(4),
        '5' => Some(5),
        '6' => Some(6),
        '7' => Some(7),
        '8' => Some(8),
        '9' => Some(9),
        _ => None,
    }
}

/// Reads an integer with range `[lo, hi]`, as `parse_int` specifies.
fn parse_int_chars(s: &Vec<char>, lo: i128, hi: i128, signed: bool) -> (res: Result<
    i128,
    IntErrorKind,
>)
    requires
        i64::MIN <= lo <= 0 <= hi <= u64::MAX,
    ensures
        parse_int(s@, lo as int, hi as int, signed) == (match res {
            Ok(v) => Ok(v as int),
            Err(e) => Err(e),
        }),
        res matches Ok(v) ==> lo <= v <= hi,
{
    let n = s.len();
    if n == 0 {
        return Err(IntErrorKind::Empty);
    }
    if n == 1 && (s[0] == '+' || s[0] == '-') {
        return Err(IntErrorKind::InvalidDigit);
    }
    let (start, positive): (usize, bool) = if s[0] == '+' {
        (1, true)
    } else if s[0] == '-' && signed {
        (1, false)
    } else {
        (0, true)
    };
    assert(start == 1 ==> s@.drop_first() =~= s@.skip(1));
    assert(s@.skip(0) =~= s@);
    let mut acc: i128 = 0;
    let mut i: usize = start;
    while i < n
        invariant
            n == s@.len(),
            start <= i <= n,
            i64::MIN <= lo <= 0 <= hi <= u64::MAX,
            lo <= acc <= hi,
            positive ==> acc >= 0,
            !positive ==> acc <= 0,
            parse_int(s@, lo as int, hi as int, signed) == parse_digits(
                s@.skip(i as int),
                acc as int,
                positive,
                lo as int,
                hi as int,
            ),
        decreases n - i,
    {
        assert(s@.skip(i as int).drop_first() =~= s@.skip(i + 1));
        assert(s@.skip(i as int)[0] == s@[i as int]);
        match digit_of(s[i]) {
            None => {
                return Err(IntErrorKind::InvalidDigit);
            },
            Some(d) => {
                if positive {
                    let next = acc * 10 + d as i128;
                    if next > hi {
                        return Err(IntErrorKind::PosOverflow);
                    }
                    acc = next;
                } else {
                    let next = acc * 10 - d as i128;
                    if next < lo {
                        return Err(IntErrorKind::NegOverflow);
                    }
                    acc = next;
                }
            },
        }
        i += 1;
    }
    assert(s@.skip(n as int) =~= Seq::<char>::empty());
    Ok(acc)
}

/// `s.parse::<u64>()`.
pub fn parse_u64(s: &Vec<char>) -> (res: Result<u64, IntErrorKind>)
    ensures
        res == spec_parse_u64(s@),
{
    match parse_int_chars(s, 0, 0xffff_ffff_ffff_ffff, false) {
        Ok(v) => Ok(v as u64),
        Err(e) => Err(e),
    }
}

/// `s.parse::<i64>()`.
pub fn parse_i64(s: &Vec<char>) -> (res: Result<i64, IntErrorKind>)
    ensures
        res == spec_parse_i64(s@),
{
    match parse_int_chars(s, -0x8000_0000_0000_0000, 0x7fff_ffff_ffff_ffff, true) {
        Ok(v) => Ok(v as i64),
        Err(e) => Err(e),
    }
}

/// The digit character of `d`.
fn digit_to_char(d: u64) -> (c: char)
    requires
        d < 10,
    ensures
        c == digit_char(d as nat),
{
    match d {
        0 => '0',
        1 => '1',
        2 => '2',
        3 => '3',
        4 => '4',
        5 => '5',
        6 => '6',
        7 => '7',
        8 => '8',
        _ => '9',
    }
}

/// Appends the decimal digits of `n`.
fn push_decimal_digits(s: &mut String, n: u64)
    ensures
        final(s)@ == old(s)@ + decimal_digits(n as nat),
    decreases n,
{
    if n >= 10 {
        push_decimal_digits(s, n / 10);
    }
    push_char(s, digit_to_char(n % 10));
    assert(final(s)@ =~= old(s)@ + decimal_digits(n as nat)) by {
        if n >= 10 {
            assert(decimal_digits(n as nat) == decimal_digits((n / 10) as nat).push(
                digit_char((n % 10) as nat),
            ));
        }
    }
}

/// `format!("{}", n)`.
pub fn format_i64(n: i64) -> (res: String)
    ensures
        res@ == decimal(n as int),
{
    let mut s = String::new();
    if n < 0 {
        push_char(&mut s, '-');
        let m: u64 = (0i128 - n as i128) as u64;
        push_decimal_digits(&mut s, m);
        assert(s@ =~= seq!['-'] + decimal_digits((-n) as nat));
    } else {
        push_decimal_digits(&mut s, n as u64);
        assert(s@ =~= decimal_digits(n as nat));
    }
    s
}

/// Whether `c` is white space (`char::is_whitespace`).
pub fn char_is_whitespace(c: char) -> (res: bool)
    ensures
        res == is_whitespace(c),
{
    let u = c as u32;
    (0x9 <= u && u <= 0xD) || u == 0x20 || u == 0x85 || u == 0xA0 || u == 0x1680 || (0x2000 <= u
        && u <= 0x200A) || u == 0x2028 || u == 0x2029 || u == 0x202F || u == 0x205F || u == 0x3000
}

/// `s.trim().is_empty()`: whether `s` holds only white space.
pub fn is_blank(s: &str) -> (res: bool)
    ensures
        res == is_blank_text(s@),
{
    let cs = chars_of(s);
    let mut i: usize = 0;
    while i < cs.len()
        invariant
            cs@ == s@,
            i <= cs@.len(),
            forall|j: int| 0 <= j < i ==> is_whitespace(#[trigger] cs@[j]),
        decreases cs@.len() - i,
    {
        if !char_is_whitespace(cs[i]) {
            return false;
        }
        i += 1;
    }
    true
}

} // verus!
