//! Writing numbers and lists as text.

use vstd::prelude::*;

verus! {

/// The sixteen digits, in order of their value.
pub open spec fn digits() -> Seq<char> {
    seq!['0', '1', '2', '3', '4', '5', '6', '7', '8', '9', 'a', 'b', 'c', 'd', 'e', 'f']
}

/// The digit that stands for `d`, for `d` below 16.
pub open spec fn digit(d: int) -> char {
    digits()[d]
}

/// The one-character text of the digit `d`.
fn digit_str(d: u8) -> (s: &'static str)
    requires
        d < 16,
    ensures
        s@ == seq![digit(d as int)],
{
    proof {
        reveal_strlit("0");
        reveal_strlit("1");
        reveal_strlit("2");
        reveal_strlit("3");
        reveal_strlit("4");
        reveal_strlit("5");
        reveal_strlit("6");
        reveal_strlit("7");
        reveal_strlit("8");
        reveal_strlit("9");
        reveal_strlit("a");
        reveal_strlit("b");
        reveal_strlit("c");
        reveal_strlit("d");
        reveal_strlit("e");
        reveal_strlit("f");
    }
    match d {
        0 => "0",
        1 => "1",
        2 => "2",
        3 => "3",
        4 => "4",
        5 => "5",
        6 => "6",
        7 => "7",
        8 => "8",
        9 => "9",
        10 => "a",
        11 => "b",
        12 => "c",
        13 => "d",
        14 => "e",
        _ => "f",
    }
}

/// The digits of `n` in base `base`, most significant first, without leading
/// zeros; zero is written as the single digit `0`.
pub open spec fn radix_text(n: nat, base: nat) -> Seq<char>
    recommends
        2 <= base <= 16,
    decreases n,
    via radix_text_decreases
{
    if n < base || base < 2 {
        seq![digit(n as int)]
    } else {
        radix_text(n / base, base).push(digit((n % base) as int))
    }
}

#[via_fn]
proof fn radix_text_decreases(n: nat, base: nat) {
    if !(n < base || base < 2) {
        lemma_quotient_smaller(n, base);
    }
}

/// Dividing a number by a base of at least two makes it smaller, and the
/// remainder is below the base.
proof fn lemma_quotient_smaller(n: nat, base: nat)
    requires
        2 <= base <= n,
    ensures
        n / base < n,
        0 <= n % base < base,
{
    assert(n / base < n && 0 <= n % base < base) by (nonlinear_arith)
        requires
            2 <= base <= n,
    ;
}

/// `n` in hexadecimal, lower case.
pub open spec fn hex_text(n: nat) -> Seq<char> {
    radix_text(n, 16)
}

/// `n` in decimal.
pub open spec fn decimal_text(n: nat) -> Seq<char> {
    radix_text(n, 10)
}

/// `v` in decimal, with a minus sign in front of a negative number.
pub open spec fn signed_decimal_text(v: int) -> Seq<char> {
    if v < 0 {
        seq!['-'] + decimal_text((-v) as nat)
    } else {
        decimal_text(v as nat)
    }
}

/// The byte `b` as exactly two hexadecimal digits.
pub open spec fn hex_pair(b: u8) -> Seq<char> {
    seq![digit(b as int / 16), digit(b as int % 16)]
}

/// Whether `c` is one of the digits below `base`.
pub open spec fn is_digit(c: char, base: nat) -> bool {
    exists|d: int| 0 <= d < base && d < 16 && c == #[trigger] digit(d)
}

/// Writes `n` in base `base`.
fn radix_string(n: u64, base: u64) -> (s: String)
    requires
        2 <= base <= 16,
    ensures
        s@ == radix_text(n as nat, base as nat),
    decreases n,
{
    if n < base {
        String::from_str(digit_str(n as u8))
    } else {
        proof {
            lemma_quotient_smaller(n as nat, base as nat);
        }
        let mut s = radix_string(n / base, base);
        s.append(digit_str((n % base) as u8));
        s
    }
}

/// Writes `n` in hexadecimal, lower case.
pub fn hex_string(n: u64) -> (s: String)
    ensures
        s@ == hex_text(n as nat),
{
    radix_string(n, 16)
}

/// Writes `n` in decimal.
pub fn decimal_string(n: u64) -> (s: String)
    ensures
        s@ == decimal_text(n as nat),
{
    radix_string(n, 10)
}

/// Writes `v` in decimal, with a minus sign in front of a negative number.
pub fn signed_decimal_string(v: i32) -> (s: String)
    ensures
        s@ == signed_decimal_text(v as int),
{
    if v < 0 {
        let magnitude: u64 = (-(v as i64)) as u64;
        proof {
            reveal_strlit("-");
            assert("-"@ =~= seq!['-']);
        }
        let mut s = String::from_str("-");
        let digits = decimal_string(magnitude);
        s.append(digits.as_str());
        s
    } else {
        decimal_string(v as u64)
    }
}

/// Writes the byte `b` as two hexadecimal digits.
pub fn hex_pair_string(b: u8) -> (s: String)
    ensures
        s@ == hex_pair(b),
{
    let mut s = String::from_str(digit_str(b / 16));
    s.append(digit_str(b % 16));
    s
}

/// The text of a number is never empty and holds digits of its base only.
pub proof fn lemma_radix_text_digits(n: nat, base: nat)
    requires
        2 <= base <= 16,
    ensures
        radix_text(n, base).len() >= 1,
        forall|i: int|
            0 <= i < radix_text(n, base).len() ==> is_digit(
                #[trigger] radix_text(n, base)[i],
                base,
            ),
    decreases n,
{
    if n >= base {
        lemma_quotient_smaller(n, base);
        lemma_radix_text_digits(n / base, base);
    }
}

/// The texts of `parts`, in order, with a single space between neighbours.
pub open spec fn spaced(parts: Seq<Seq<char>>) -> Seq<char>
    decreases parts.len(),
{
    if parts.len() == 0 {
        Seq::empty()
    } else if parts.len() == 1 {
        parts[0]
    } else {
        spaced(parts.drop_last()) + seq![' '] + parts.last()
    }
}

/// Where the text of `parts[i]` starts inside `spaced(parts)`.
pub open spec fn segment_start(parts: Seq<Seq<char>>, i: int) -> int
    decreases i,
{
    if i <= 0 {
        0
    } else {
        segment_start(parts, i - 1) + parts[i - 1].len() + 1
    }
}

/// The views of the strings of `parts`, in order.
pub open spec fn texts(parts: Seq<String>) -> Seq<Seq<char>> {
    Seq::new(parts.len(), |i: int| parts[i]@)
}

/// Joins `parts` with single spaces.
pub fn join_spaced(parts: &Vec<String>) -> (s: String)
    ensures
        s@ == spaced(texts(parts@)),
{
    let mut s = String::new();
    let mut i: usize = 0;
    while i < parts.len()
        invariant
            i <= parts.len(),
            s@ == spaced(texts(parts@.take(i as int))),
        decreases parts.len() - i,
    {
        proof {
            let before = texts(parts@.take(i as int));
            let after = texts(parts@.take(i + 1));
            assert(after.drop_last() =~= before);
            reveal_strlit(" ");
            assert(" "@ =~= seq![' ']);
        }
        if i > 0 {
            s.append(" ");
        }
        s.append(parts[i].as_str());
        i = i + 1;
    }
    assert(parts@.take(i as int) =~= parts@);
    s
}

/// Where a segment starts depends on the segments before it alone.
proof fn lemma_segment_start_prefix(parts: Seq<Seq<char>>, shorter: Seq<Seq<char>>, i: int)
    requires
        0 <= i <= shorter.len() <= parts.len(),
        forall|j: int| 0 <= j < shorter.len() ==> shorter[j] == parts[j],
    ensures
        segment_start(shorter, i) == segment_start(parts, i),
    decreases i,
{
    if i > 0 {
        lemma_segment_start_prefix(parts, shorter, i - 1);
    }
}

/// Joining nothing gives the empty text. Joining `n > 0` segments gives a text
/// in which every segment stands unchanged at its place, in the order of
/// `parts`, each but the first with exactly one space in front of it, and
/// which ends with the last segment: there are `n` segments and `n - 1`
/// spaces between them.
pub proof fn lemma_spaced_layout(parts: Seq<Seq<char>>)
    ensures
        parts.len() == 0 ==> spaced(parts) == Seq::<char>::empty(),
        parts.len() > 0 ==> spaced(parts).len() == segment_start(parts, parts.len() as int) - 1,
        forall|i: int|
            #![trigger parts[i]]
            0 <= i < parts.len() ==> {
                let start = segment_start(parts, i);
                &&& 0 <= start
                &&& start + parts[i].len() <= spaced(parts).len()
                &&& spaced(parts).subrange(start, start + parts[i].len()) == parts[i]
                &&& i > 0 ==> spaced(parts)[start - 1] == ' '
            },
    decreases parts.len(),
{
    if parts.len() == 1 {
        assert(segment_start(parts, 1) == segment_start(parts, 0) + parts[0].len() + 1);
    } else if parts.len() > 1 {
        let n = parts.len() as int;
        let shorter = parts.drop_last();
        lemma_spaced_layout(shorter);
        lemma_segment_start_prefix(parts, shorter, n - 1);
        let joined = spaced(parts);
        assert forall|i: int| #![trigger parts[i]] 0 <= i < parts.len() implies {
            let start = segment_start(parts, i);
            &&& 0 <= start
            &&& start + parts[i].len() <= joined.len()
            &&& joined.subrange(start, start + parts[i].len()) == parts[i]
            &&& i > 0 ==> joined[start - 1] == ' '
        } by {
            let start = segment_start(parts, i);
            if i < n - 1 {
                lemma_segment_start_prefix(parts, shorter, i);
                assert(shorter[i] == parts[i]);
                assert(joined.subrange(start, start + parts[i].len()) =~= spaced(
                    shorter,
                ).subrange(start, start + parts[i].len()));
            } else {
                assert(joined.subrange(start, start + parts[i].len()) =~= parts[i]);
            }
        }
    }
}

/// Whether `s` is one or more decimal digits.
pub open spec fn is_decimal_digits(s: Seq<char>) -> bool {
    s.len() >= 1 && forall|i: int| 0 <= i < s.len() ==> is_digit(#[trigger] s[i], 10)
}

/// Whether `s` is the text of a number without a sign: decimal digits, or
/// decimal digits on both sides of one point, or `inf` for what is beyond
/// every number.
pub open spec fn is_unsigned_number_text(s: Seq<char>) -> bool {
    ||| s == seq!['i', 'n', 'f']
    ||| is_decimal_digits(s)
    ||| exists|point: int|
        0 < point < s.len() - 1 && #[trigger] s[point] == '.' && is_decimal_digits(
            s.subrange(0, point),
        ) && is_decimal_digits(s.subrange(point + 1, s.len() as int))
}

/// Whether `s` is the text that a number is written with: a number without
/// a sign, or a minus sign and such a number, or `NaN` for what is no
/// number.
pub open spec fn is_number_text(s: Seq<char>) -> bool {
    ||| s == seq!['N', 'a', 'N']
    ||| is_unsigned_number_text(s)
    ||| s.len() >= 1 && s[0] == '-' && is_unsigned_number_text(s.subrange(1, s.len() as int))
}

/// Whether no character of `s` is a space.
pub open spec fn has_no_space(s: Seq<char>) -> bool {
    forall|i: int| 0 <= i < s.len() ==> #[trigger] s[i] != ' '
}

/// How many of the characters of `s` are spaces.
pub open spec fn count_spaces(s: Seq<char>) -> nat
    decreases s.len(),
{
    if s.len() == 0 {
        0
    } else {
        count_spaces(s.drop_last()) + if s.last() == ' ' {
            1nat
        } else {
            0nat
        }
    }
}

/// A digit is no space.
proof fn lemma_digit_is_no_space(c: char, base: nat)
    requires
        is_digit(c, base),
    ensures
        c != ' ',
{
    let d = choose|d: int| 0 <= d < base && d < 16 && c == #[trigger] digit(d);
    assert(c == digits()[d]);
}

/// Decimal digits hold no space.
proof fn lemma_decimal_digits_have_no_space(s: Seq<char>)
    requires
        is_decimal_digits(s),
    ensures
        has_no_space(s),
{
    assert forall|i: int| 0 <= i < s.len() implies #[trigger] s[i] != ' ' by {
        lemma_digit_is_no_space(s[i], 10);
    }
}

/// A number without a sign holds no space.
proof fn lemma_unsigned_number_text_has_no_space(s: Seq<char>)
    requires
        is_unsigned_number_text(s),
    ensures
        has_no_space(s),
{
    if s == seq!['i', 'n', 'f'] {
    } else if is_decimal_digits(s) {
        lemma_decimal_digits_have_no_space(s);
    } else {
        let point = choose|point: int|
            0 < point < s.len() - 1 && #[trigger] s[point] == '.' && is_decimal_digits(
                s.subrange(0, point),
            ) && is_decimal_digits(s.subrange(point + 1, s.len() as int));
        let whole = s.subrange(0, point);
        let fraction = s.subrange(point + 1, s.len() as int);
        lemma_decimal_digits_have_no_space(whole);
        lemma_decimal_digits_have_no_space(fraction);
        assert forall|i: int| 0 <= i < s.len() implies #[trigger] s[i] != ' ' by {
            if i < point {
                assert(s[i] == whole[i]);
            } else if i > point {
                assert(s[i] == fraction[i - point - 1]);
            }
        }
    }
}

/// The text of a number holds no space.
pub proof fn lemma_number_text_has_no_space(s: Seq<char>)
    requires
        is_number_text(s),
    ensures
        has_no_space(s),
{
    if s == seq!['N', 'a', 'N'] {
    } else if is_unsigned_number_text(s) {
        lemma_unsigned_number_text_has_no_space(s);
    } else {
        let rest = s.subrange(1, s.len() as int);
        lemma_unsigned_number_text_has_no_space(rest);
        assert forall|i: int| 0 <= i < s.len() implies #[trigger] s[i] != ' ' by {
            if i > 0 {
                assert(s[i] == rest[i - 1]);
            }
        }
    }
}

/// The decimal text of a number is decimal digits.
pub proof fn lemma_decimal_text_is_digits(n: nat)
    ensures
        is_decimal_digits(decimal_text(n)),
{
    lemma_radix_text_digits(n, 10);
}

/// The decimal text of a whole number, with its sign, is the text of a
/// number.
pub proof fn lemma_signed_decimal_text_is_number(v: int)
    ensures
        is_number_text(signed_decimal_text(v)),
{
    if v < 0 {
        let magnitude = decimal_text((-v) as nat);
        lemma_decimal_text_is_digits((-v) as nat);
        let s = signed_decimal_text(v);
        assert(s.subrange(1, s.len() as int) =~= magnitude);
    } else {
        lemma_decimal_text_is_digits(v as nat);
    }
}

/// The spaces of two texts, one after the other, are those of the first and
/// those of the second.
pub proof fn lemma_count_spaces_concat(a: Seq<char>, b: Seq<char>)
    ensures
        count_spaces(a + b) == count_spaces(a) + count_spaces(b),
    decreases b.len(),
{
    if b.len() == 0 {
        assert(a + b =~= a);
    } else {
        lemma_count_spaces_concat(a, b.drop_last());
        assert((a + b).drop_last() =~= a + b.drop_last());
    }
}

/// A text without a space counts no spaces.
pub proof fn lemma_count_spaces_none(s: Seq<char>)
    requires
        has_no_space(s),
    ensures
        count_spaces(s) == 0,
    decreases s.len(),
{
    if s.len() > 0 {
        lemma_count_spaces_none(s.drop_last());
    }
}

/// Where no segment holds a space, the spaces of the joined text are the
/// ones between the segments alone: none for no segment, and `n - 1` for
/// `n > 0` segments.
pub proof fn lemma_spaced_count(parts: Seq<Seq<char>>)
    requires
        forall|i: int| 0 <= i < parts.len() ==> has_no_space(#[trigger] parts[i]),
    ensures
        parts.len() == 0 ==> count_spaces(spaced(parts)) == 0,
        parts.len() > 0 ==> count_spaces(spaced(parts)) == parts.len() - 1,
    decreases parts.len(),
{
    if parts.len() == 1 {
        lemma_count_spaces_none(parts[0]);
    } else if parts.len() > 1 {
        let shorter = parts.drop_last();
        assert forall|i: int| 0 <= i < shorter.len() implies has_no_space(
            #[trigger] shorter[i],
        ) by {
            assert(shorter[i] == parts[i]);
        }
        lemma_spaced_count(shorter);
        lemma_count_spaces_concat(spaced(shorter), seq![' ']);
        lemma_count_spaces_concat(spaced(shorter) + seq![' '], parts.last());
        lemma_count_spaces_none(parts.last());
        assert(count_spaces(seq![' ']) == 1) by {
            let space = seq![' '];
            assert(space.drop_last() =~= Seq::<char>::empty());
            assert(count_spaces(space.drop_last()) == 0);
        }
    }
}

} // verus!
