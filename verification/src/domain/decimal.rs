//! Decimal text of integers, both ways: the reading that `str::parse::<i32>`
//! does and the writing that `to_string` does, with the law that ties them.
use vstd::prelude::*;

verus! {

/// Appends one character to a string (`String::push`).
#[verifier::external_body]
pub(crate) fn push_char(s: &mut String, c: char)
    ensures
        final(s)@ == old(s)@.push(c),
{
    s.push(c);
}

/// Why a text is not an `i32`, in the words of `std::num::IntErrorKind`.
#[derive(Debug, PartialEq, Eq, Structural, Clone, Copy)]
pub enum ParseIntErrorKind {
    Empty,
    InvalidDigit,
    PosOverflow,
    NegOverflow,
}

pub open spec fn is_ascii_digit(c: char) -> bool {
    '0' <= c <= '9'
}

pub open spec fn digit_value(c: char) -> int {
    c as int - '0' as int
}

pub open spec fn digit_char(d: int) -> char {
    if d == 0 {
        '0'
    } else if d == 1 {
        '1'
    } else if d == 2 {
        '2'
    } else if d == 3 {
        '3'
    } else if d == 4 {
        '4'
    } else if d == 5 {
        '5'
    } else if d == 6 {
        '6'
    } else if d == 7 {
        '7'
    } else if d == 8 {
        '8'
    } else {
        '9'
    }
}

/// Reads the digits `d` from left to right into an `i32` that grows
/// away from zero (downwards when `negative`), stopping at the first
/// character that is not an ASCII digit or at the first overflow.
pub open spec fn accumulate_digits(d: Seq<char>, negative: bool) -> Result<int, ParseIntErrorKind>
    decreases d.len(),
{
    if d.len() == 0 {
        Ok(0)
    } else {
        match accumulate_digits(d.drop_last(), negative) {
            Err(k) => Err(k),
            Ok(v) => if !is_ascii_digit(d.last()) {
                Err(ParseIntErrorKind::InvalidDigit)
            } else if negative {
                if v * 10 - digit_value(d.last()) < i32::MIN {
                    Err(ParseIntErrorKind::NegOverflow)
                } else {
                    Ok(v * 10 - digit_value(d.last()))
                }
            } else {
                if v * 10 + digit_value(d.last()) > i32::MAX {
                    Err(ParseIntErrorKind::PosOverflow)
                } else {
                    Ok(v * 10 + digit_value(d.last()))
                }
            },
        }
    }
}

/// What `s.parse::<i32>()` gives: an optional sign, then one or more
/// ASCII digits.
pub open spec fn parse_i32(s: Seq<char>) -> Result<int, ParseIntErrorKind> {
    if s.len() == 0 {
        Err(ParseIntErrorKind::Empty)
    } else if s.len() == 1 && (s[0] == '+' || s[0] == '-') {
        Err(ParseIntErrorKind::InvalidDigit)
    } else if s[0] == '+' {
        accumulate_digits(s.drop_first(), false)
    } else if s[0] == '-' {
        accumulate_digits(s.drop_first(), true)
    } else {
        accumulate_digits(s, false)
    }
}

/// The decimal digits of `n`, most significant first, without leading zeros.
pub open spec fn decimal_digits(n: nat) -> Seq<char>
    decreases n,
{
    if n < 10 {
        seq![digit_char(n as int)]
    } else {
        decimal_digits(n / 10).push(digit_char((n % 10) as int))
    }
}

/// The decimal text of `n`, with a leading `-` when it is negative.
pub open spec fn int_to_decimal(n: int) -> Seq<char> {
    if n < 0 {
        seq!['-'] + decimal_digits((-n) as nat)
    } else {
        decimal_digits(n as nat)
    }
}

/// The `Debug` text of a `ParseIntError` of this kind.
pub open spec fn parse_int_error_debug(k: ParseIntErrorKind) -> Seq<char> {
    match k {
        ParseIntErrorKind::Empty => "ParseIntError { kind: Empty }"@,
        ParseIntErrorKind::InvalidDigit => "ParseIntError { kind: InvalidDigit }"@,
        ParseIntErrorKind::PosOverflow => "ParseIntError { kind: PosOverflow }"@,
        ParseIntErrorKind::NegOverflow => "ParseIntError { kind: NegOverflow }"@,
    }
}

fn digit_of(c: char) -> (r: Option<u32>)
    ensures
        match r {
            Some(d) => is_ascii_digit(c) && d == digit_value(c),
            None => !is_ascii_digit(c),
        },
{
    if '0' <= c && c <= '9' {
        Some((c as u32) - ('0' as u32))
    } else {
        None
    }
}

fn char_of_digit(d: u64) -> (c: char)
    requires
        d < 10,
    ensures
        c == digit_char(d as int),
{
    if d == 0 {
        '0'
    } else if d == 1 {
        '1'
    } else if d == 2 {
        '2'
    } else if d == 3 {
        '3'
    } else if d == 4 {
        '4'
    } else if d == 5 {
        '5'
    } else if d == 6 {
        '6'
    } else if d == 7 {
        '7'
    } else if d == 8 {
        '8'
    } else {
        '9'
    }
}

/// Reads an `i32` the way `str::parse::<i32>` does.
pub fn parse_i32_text(s: &str) -> (r: Result<i32, ParseIntErrorKind>)
    ensures
        match r {
            Ok(n) => parse_i32(s@) == Ok::<int, ParseIntErrorKind>(n as int),
            Err(k) => parse_i32(s@) == Err::<int, ParseIntErrorKind>(k),
        },
{
    let len = s.unicode_len();
    if len == 0 {
        return Err(ParseIntErrorKind::Empty);
    }
    let first = s.get_char(0);
    if len == 1 && (first == '+' || first == '-') {
        return Err(ParseIntErrorKind::InvalidDigit);
    }
    let negative = first == '-';
    let start: usize = if first == '+' || first == '-' { 1 } else { 0 };
    let ghost d = s@.subrange(start as int, len as int);
    assert(first == '+' || first == '-' ==> d =~= s@.drop_first());
    assert(!(first == '+' || first == '-') ==> d =~= s@);
    assert(parse_i32(s@) == accumulate_digits(d, negative));
    assert(d.subrange(0, 0) =~= Seq::<char>::empty());
    let mut acc: i32 = 0;
    let mut i: usize = start;
    while i < len
        invariant
            start <= i <= len,
            len == s@.len(),
            d == s@.subrange(start as int, len as int),
            parse_i32(s@) == accumulate_digits(d, negative),
            negative ==> acc <= 0,
            !negative ==> acc >= 0,
            accumulate_digits(d.subrange(0, i - start), negative) == Ok::<int, ParseIntErrorKind>(
                acc as int,
            ),
        decreases len - i,
    {
        let c = s.get_char(i);
        assert(d.subrange(0, i + 1 - start).drop_last() =~= d.subrange(0, i - start));
        assert(d.subrange(0, i + 1 - start).last() == c);
        match digit_of(c) {
            None => {
                proof {
                    lemma_accumulate_error_persists(d, negative, i + 1 - start, len - start);
                    assert(d.subrange(0, len - start) =~= d);
                }
                return Err(ParseIntErrorKind::InvalidDigit);
            },
            Some(v) => {
                let wide: i64 = if negative {
                    (acc as i64) * 10 - (v as i64)
                } else {
                    (acc as i64) * 10 + (v as i64)
                };
                if wide < i32::MIN as i64 {
                    proof {
                        lemma_accumulate_error_persists(d, negative, i + 1 - start, len - start);
                        assert(d.subrange(0, len - start) =~= d);
                    }
                    return Err(ParseIntErrorKind::NegOverflow);
                }
                if wide > i32::MAX as i64 {
                    proof {
                        lemma_accumulate_error_persists(d, negative, i + 1 - start, len - start);
                        assert(d.subrange(0, len - start) =~= d);
                    }
                    return Err(ParseIntErrorKind::PosOverflow);
                }
                acc = wide as i32;
            },
        }
        i = i + 1;
    }
    assert(d.subrange(0, len - start) =~= d);
    Ok(acc)
}

/// Appends the decimal digits of `n` to `s`.
pub fn push_decimal_digits(s: &mut String, n: u64)
    ensures
        final(s)@ == old(s)@ + decimal_digits(n as nat),
    decreases n,
{
    if n >= 10 {
        push_decimal_digits(s, n / 10);
        push_char(s, char_of_digit(n % 10));
        assert(decimal_digits(n as nat) == decimal_digits((n / 10) as nat).push(
            digit_char((n % 10) as int),
        ));
        assert(old(s)@ + decimal_digits(n as nat) =~= old(s)@ + decimal_digits((n / 10) as nat)
            + seq![digit_char((n % 10) as int)]);
    } else {
        push_char(s, char_of_digit(n));
        assert(old(s)@ + decimal_digits(n as nat) =~= old(s)@.push(digit_char(n as int)));
    }
}

/// Appends the decimal text of `n` (`n.to_string()`) to `s`.
pub fn push_int_decimal(s: &mut String, n: i64)
    ensures
        final(s)@ == old(s)@ + int_to_decimal(n as int),
{
    if n < 0 {
        push_char(s, '-');
        let magnitude: u64 = (-(n as i128)) as u64;
        push_decimal_digits(s, magnitude);
        assert(old(s)@ + int_to_decimal(n as int) =~= old(s)@.push('-') + decimal_digits(
            (-n) as nat,
        ));
    } else {
        push_decimal_digits(s, n as u64);
    }
}

/// Appends the `Debug` text of a `ParseIntError` of kind `k` to `s`.
pub fn push_parse_int_error_debug(s: &mut String, k: ParseIntErrorKind)
    ensures
        final(s)@ == old(s)@ + parse_int_error_debug(k),
{
    match k {
        ParseIntErrorKind::Empty => s.append("ParseIntError { kind: Empty }"),
        ParseIntErrorKind::InvalidDigit => s.append("ParseIntError { kind: InvalidDigit }"),
        ParseIntErrorKind::PosOverflow => s.append("ParseIntError { kind: PosOverflow }"),
        ParseIntErrorKind::NegOverflow => s.append("ParseIntError { kind: NegOverflow }"),
    }
}

/// Once reading a prefix of the digits has failed, reading any longer
/// prefix fails the same way.
proof fn lemma_accumulate_error_persists(d: Seq<char>, negative: bool, j: int, k: int)
    requires
        0 <= j <= k <= d.len(),
        accumulate_digits(d.subrange(0, j), negative) is Err,
    ensures
        accumulate_digits(d.subrange(0, k), negative) == accumulate_digits(d.subrange(0, j), negative),
    decreases k - j,
{
    if j < k {
        lemma_accumulate_error_persists(d, negative, j, k - 1);
        assert(d.subrange(0, k).drop_last() =~= d.subrange(0, k - 1));
    }
}

proof fn lemma_digit_char_value(d: int)
    requires
        0 <= d < 10,
    ensures
        is_ascii_digit(digit_char(d)),
        digit_value(digit_char(d)) == d,
{
}

/// The decimal digits of a number that fits in an `i32` read back as
/// that number.
pub proof fn lemma_decimal_digits_read_back(n: nat)
    requires
        n <= i32::MAX,
    ensures
        accumulate_digits(decimal_digits(n), false) == Ok::<int, ParseIntErrorKind>(n as int),
    decreases n,
{
    if n < 10 {
        lemma_digit_char_value(n as int);
        let s = decimal_digits(n);
        assert(s.drop_last() =~= Seq::<char>::empty());
        assert(accumulate_digits(s.drop_last(), false) == Ok::<int, ParseIntErrorKind>(0));
    } else {
        lemma_decimal_digits_read_back(n / 10);
        lemma_digit_char_value((n % 10) as int);
        let s = decimal_digits(n);
        assert(s.drop_last() =~= decimal_digits(n / 10));
    }
}

/// Writing a non-negative `i32` in decimal and reading the text with
/// `parse::<i32>` gives back the number.
pub proof fn lemma_parse_decimal_round_trip(n: int)
    requires
        0 <= n <= i32::MAX,
    ensures
        parse_i32(int_to_decimal(n)) == Ok::<int, ParseIntErrorKind>(n),
{
    lemma_decimal_digits_read_back(n as nat);
    let s = decimal_digits(n as nat);
    lemma_decimal_digits_first(n as nat);
}

proof fn lemma_decimal_digits_first(n: nat)
    ensures
        decimal_digits(n).len() >= 1,
        is_ascii_digit(decimal_digits(n)[0]),
    decreases n,
{
    if n < 10 {
        lemma_digit_char_value(n as int);
    } else {
        lemma_decimal_digits_first(n / 10);
    }
}

/// The decimal digits of a number up to 2^31 read back, with a minus
/// sign, as its negation.
proof fn lemma_decimal_digits_read_back_negative(n: nat)
    requires
        n <= 0x8000_0000,
    ensures
        accumulate_digits(decimal_digits(n), true) == Ok::<int, ParseIntErrorKind>(-(n as int)),
    decreases n,
{
    if n < 10 {
        lemma_digit_char_value(n as int);
        let s = decimal_digits(n);
        assert(s.drop_last() =~= Seq::<char>::empty());
        assert(accumulate_digits(s.drop_last(), true) == Ok::<int, ParseIntErrorKind>(0));
    } else {
        lemma_decimal_digits_read_back_negative(n / 10);
        lemma_digit_char_value((n % 10) as int);
        let s = decimal_digits(n);
        assert(s.drop_last() =~= decimal_digits(n / 10));
    }
}

/// Writing any `i32` in decimal and reading the text with `parse::<i32>`
/// gives back the number; with a leading `+` a non-negative number reads
/// back too.
pub proof fn law_parse_reads_back_what_is_written(n: int)
    requires
        i32::MIN <= n <= i32::MAX,
    ensures
        parse_i32(int_to_decimal(n)) == Ok::<int, ParseIntErrorKind>(n),
        n >= 0 ==> parse_i32(seq!['+'] + int_to_decimal(n)) == Ok::<int, ParseIntErrorKind>(n),
{
    if n >= 0 {
        lemma_parse_decimal_round_trip(n);
        lemma_decimal_digits_read_back(n as nat);
        lemma_decimal_digits_first(n as nat);
        let t = seq!['+'] + int_to_decimal(n);
        assert(t.drop_first() =~= int_to_decimal(n));
    } else {
        lemma_decimal_digits_read_back_negative((-n) as nat);
        lemma_decimal_digits_first((-n) as nat);
        let t = int_to_decimal(n);
        assert(t.drop_first() =~= decimal_digits((-n) as nat));
    }
}

/// Reading digits succeeds only when every character is an ASCII digit.
proof fn lemma_accumulate_ok_only_digits(d: Seq<char>, negative: bool)
    requires
        accumulate_digits(d, negative) is Ok,
    ensures
        forall|i: int| 0 <= i < d.len() ==> is_ascii_digit(#[trigger] d[i]),
    decreases d.len(),
{
    if d.len() > 0 {
        lemma_accumulate_ok_only_digits(d.drop_last(), negative);
        assert forall|i: int| 0 <= i < d.len() implies is_ascii_digit(#[trigger] d[i]) by {
            if i < d.len() - 1 {
                assert(d.drop_last()[i] == d[i]);
            }
        }
    }
}

/// A text reads as an `i32` only when it is an optional sign followed by
/// at least one ASCII digit and nothing else; the empty text is `Empty`.
pub proof fn law_parse_accepts_only_digits(s: Seq<char>)
    ensures
        s.len() == 0 ==> parse_i32(s) == Err::<int, ParseIntErrorKind>(ParseIntErrorKind::Empty),
        parse_i32(s) is Ok ==> s.len() >= 1 && (forall|i: int|
            0 <= i < s.len() && !(i == 0 && (s[0] == '+' || s[0] == '-')) ==> is_ascii_digit(
                #[trigger] s[i],
            )) && !(s.len() == 1 && (s[0] == '+' || s[0] == '-')),
{
    if parse_i32(s) is Ok {
        if s[0] == '+' || s[0] == '-' {
            lemma_accumulate_ok_only_digits(s.drop_first(), s[0] == '-');
            assert forall|i: int|
                0 <= i < s.len() && !(i == 0 && (s[0] == '+' || s[0] == '-')) implies is_ascii_digit(
                #[trigger] s[i],
            ) by {
                assert(s.drop_first()[i - 1] == s[i]);
            }
        } else {
            lemma_accumulate_ok_only_digits(s, false);
        }
    }
}

} // verus!
