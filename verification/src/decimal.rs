//! Decimal text: whitespace trimming, unsigned decimal parsing and formatting.

use std::num::ParseIntError;
use vstd::prelude::*;
use vstd::string::StringExecFns;
use vstd::string::StrSliceExecFns;

verus! {

/// `std::num::ParseIntError`, the error that `str::parse::<u64>` reports.
#[verifier::external_type_specification]
#[verifier::external_body]
pub struct ExParseIntError(ParseIntError);

/// The characters with the Unicode `White_Space` property, which `char::is_whitespace`
/// and `str::trim` recognise.
pub open spec fn is_white_space(c: char) -> bool {
    let u: u32 = c as u32;
    ||| 0x9 <= u <= 0xd
    ||| u == 0x20
    ||| u == 0x85
    ||| u == 0xa0
    ||| u == 0x1680
    ||| 0x2000 <= u <= 0x200a
    ||| u == 0x2028
    ||| u == 0x2029
    ||| u == 0x202f
    ||| u == 0x205f
    ||| u == 0x3000
}

/// `s` without its leading white space.
pub open spec fn trim_start(s: Seq<char>) -> Seq<char>
    decreases s.len(),
{
    if s.len() > 0 && is_white_space(s[0]) {
        trim_start(s.drop_first())
    } else {
        s
    }
}

/// `s` without its trailing white space.
pub open spec fn trim_end(s: Seq<char>) -> Seq<char>
    decreases s.len(),
{
    if s.len() > 0 && is_white_space(s.last()) {
        trim_end(s.drop_last())
    } else {
        s
    }
}

/// `s` without leading and trailing white space.
pub open spec fn trim(s: Seq<char>) -> Seq<char> {
    trim_end(trim_start(s))
}

/// Whether `c` has the Unicode `White_Space` property.
pub fn is_white_space_char(c: char) -> (r: bool)
    ensures
        r == is_white_space(c),
{
    let u: u32 = c as u32;
    (0x9 <= u && u <= 0xd) || u == 0x20 || u == 0x85 || u == 0xa0 || u == 0x1680 || (0x2000
        <= u && u <= 0x200a) || u == 0x2028 || u == 0x2029 || u == 0x202f || u == 0x205f || u
        == 0x3000
}

/// The part of `s` that is left when leading and trailing white space is removed.
pub fn trim_str(s: &str) -> (r: &str)
    ensures
        r@ == trim(s@),
{
    let n: usize = s.unicode_len();
    let mut start: usize = 0;
    assert(s@.subrange(0, n as int) =~= s@);
    while start < n && is_white_space_char(s.get_char(start))
        invariant
            start <= n,
            n == s@.len(),
            trim_start(s@) == trim_start(s@.subrange(start as int, n as int)),
        decreases n - start,
    {
        assert(s@.subrange(start as int, n as int).drop_first() =~= s@.subrange(
            start as int + 1,
            n as int,
        ));
        start = start + 1;
    }
    let ghost front = s@.subrange(start as int, n as int);
    assert(trim_start(s@) == front);
    let mut end: usize = n;
    assert(s@.subrange(start as int, n as int) =~= front);
    while end > start && is_white_space_char(s.get_char(end - 1))
        invariant
            start <= end <= n,
            n == s@.len(),
            trim_end(front) == trim_end(s@.subrange(start as int, end as int)),
        decreases end,
    {
        assert(s@.subrange(start as int, end as int).drop_last() =~= s@.subrange(
            start as int,
            end as int - 1,
        ));
        end = end - 1;
    }
    s.substring_char(start, end)
}

/// Whether `c` is one of the ASCII digits `0` to `9`.
pub open spec fn is_ascii_digit(c: char) -> bool {
    48 <= c as u32 <= 57
}

/// The value of the ASCII digit `c`.
pub open spec fn digit_value(c: char) -> nat {
    (c as u32 - 48) as nat
}

/// Whether every character of `s` is an ASCII digit.
pub open spec fn all_ascii_digits(s: Seq<char>) -> bool {
    forall|i: int| 0 <= i < s.len() ==> is_ascii_digit(#[trigger] s[i])
}

/// The number that the digits `s` write in base ten, most significant first.
pub open spec fn digits_value(s: Seq<char>) -> nat
    decreases s.len(),
{
    if s.len() == 0 {
        0
    } else {
        digits_value(s.drop_last()) * 10 + digit_value(s.last())
    }
}

/// What `str::parse::<u64>` accepts: an optional `+` followed by at least one ASCII digit,
/// whose value fits in a `u64`.
pub open spec fn parsed_u64(s: Seq<char>) -> Option<u64> {
    let digits = if s.len() > 0 && s[0] == '+' {
        s.drop_first()
    } else {
        s
    };
    if digits.len() > 0 && all_ascii_digits(digits) && digits_value(digits) <= u64::MAX {
        Some(digits_value(digits) as u64)
    } else {
        None
    }
}

/// The variants of `std::num::IntErrorKind`, the kind of a `ParseIntError`.
pub enum ParseErrorKind {
    Empty,
    InvalidDigit,
    PosOverflow,
    NegOverflow,
    Zero,
}

/// The kind that `ParseIntError::kind` reports of `error`.
pub uninterp spec fn int_error_kind(error: ParseIntError) -> ParseErrorKind;

/// The error that `str::parse::<u64>` reports of the text `s`, where it reports one.
pub uninterp spec fn u64_parse_error(s: Seq<char>) -> ParseIntError;

/// `s` without one leading `+`.
pub open spec fn without_plus(s: Seq<char>) -> Seq<char> {
    if s.len() > 0 && s[0] == '+' {
        s.drop_first()
    } else {
        s
    }
}

/// Whether `kind` is what `IntErrorKind`'s documentation gives for a `u64` that `s` fails to
/// write: `Empty` for empty text; `InvalidDigit` for a sign on its own, and for a character that
/// is no digit in text too short to hold a number above `u64::MAX`; `PosOverflow` for digits
/// whose value is above `u64::MAX`. Where text has both a bad character and enough digits to
/// overflow, the documentation leaves open which of the two is reported.
pub open spec fn parse_error_kind_allowed(s: Seq<char>, kind: ParseErrorKind) -> bool {
    if s.len() == 0 {
        kind == ParseErrorKind::Empty
    } else if s.len() == 1 && (s[0] == '+' || s[0] == '-') {
        kind == ParseErrorKind::InvalidDigit
    } else if all_ascii_digits(without_plus(s)) {
        kind == ParseErrorKind::PosOverflow
    } else if without_plus(s).len() < 20 {
        kind == ParseErrorKind::InvalidDigit
    } else {
        kind == ParseErrorKind::InvalidDigit || kind == ParseErrorKind::PosOverflow
    }
}

/// `str::parse::<u64>`: its documentation accepts an optional `+` sign followed by digits, and
/// reports an error for an empty string, any other character (white space included), and a
/// value above `u64::MAX`; the error's kind is `Empty`, `InvalidDigit` or `PosOverflow` as
/// `IntErrorKind`'s documentation describes them. The error is a function of the text alone,
/// which the contract names. The contract claims exactly that.
#[verifier::external_body]
pub(crate) fn parse_u64(s: &str) -> (r: Result<u64, ParseIntError>)
    ensures
        match r {
            Ok(v) => parsed_u64(s@) == Some(v),
            Err(error) => parsed_u64(s@) is None && error == u64_parse_error(s@)
                && parse_error_kind_allowed(s@, int_error_kind(error)),
        },
{
    s.parse::<u64>()
}

/// The ASCII digit of value `d`.
pub open spec fn digit_char(d: nat) -> char {
    if d == 0 {
        '0'
    } else if d == 1 {
        '1'
    } else if d == 2 {
        '2'
    } else if d == 3 {
        '3'
    } else if d == 4 {
        '4'
    } else if d == 5 {
        '5'
    } else if d == 6 {
        '6'
    } else if d == 7 {
        '7'
    } else if d == 8 {
        '8'
    } else {
        '9'
    }
}

/// The shortest base-ten writing of `n`, most significant digit first.
pub open spec fn decimal(n: nat) -> Seq<char>
    decreases n,
{
    if n < 10 {
        seq![digit_char(n)]
    } else {
        decimal(n / 10).push(digit_char(n % 10))
    }
}

fn digit_str(d: u64) -> (r: &'static str)
    requires
        d < 10,
    ensures
        r@ == seq![digit_char(d as nat)],
{
    let digits: &'static str = "0123456789";
    proof {
        reveal_strlit("0123456789");
    }
    assert(digits@ =~= seq!['0', '1', '2', '3', '4', '5', '6', '7', '8', '9']);
    let r: &str = digits.substring_char(d as usize, d as usize + 1);
    assert(r@ =~= seq![digit_char(d as nat)]);
    r
}

/// `n` written in base ten, as `u64::to_string` writes it.
pub fn decimal_string(n: u64) -> (r: String)
    ensures
        r@ == decimal(n as nat),
    decreases n,
{
    if n < 10 {
        String::from_str(digit_str(n))
    } else {
        let mut s = decimal_string(n / 10);
        s.append(digit_str(n % 10));
        s
    }
}

proof fn lemma_digit_char(d: nat)
    requires
        d < 10,
    ensures
        is_ascii_digit(digit_char(d)),
        digit_value(digit_char(d)) == d,
{
}

/// The base-ten writing of `n` is a non-empty string of ASCII digits whose value is `n`.
pub proof fn lemma_decimal_digits(n: nat)
    ensures
        decimal(n).len() > 0,
        all_ascii_digits(decimal(n)),
        digits_value(decimal(n)) == n,
    decreases n,
{
    if n < 10 {
        lemma_digit_char(n);
        let s = decimal(n);
        assert(s.drop_last() =~= Seq::<char>::empty());
        assert(digits_value(s.drop_last()) == 0);
        assert(s.last() == digit_char(n));
        assert(digits_value(s) == digits_value(s.drop_last()) * 10 + digit_value(s.last()));
    } else {
        lemma_decimal_digits(n / 10);
        lemma_digit_char(n % 10);
        assert(decimal(n).drop_last() =~= decimal(n / 10));
        assert(n == (n / 10) * 10 + n % 10) by (nonlinear_arith);
        let s = decimal(n);
        assert(s.last() == digit_char(n % 10));
        assert(digits_value(s) == digits_value(s.drop_last()) * 10 + digit_value(s.last()));
    }
}

/// Text that starts and ends with a character that is not white space is its own trim.
pub proof fn lemma_trim_unchanged(s: Seq<char>)
    requires
        s.len() > 0,
        !is_white_space(s[0]),
        !is_white_space(s.last()),
    ensures
        trim(s) == s,
{
}

/// Parsing the base-ten writing of a `u64` gives the number back, and the writing holds no
/// white space that a trim would remove.
pub proof fn lemma_decimal_round_trip(n: u64)
    ensures
        trim(decimal(n as nat)) == decimal(n as nat),
        parsed_u64(decimal(n as nat)) == Some(n),
{
    let s = decimal(n as nat);
    lemma_decimal_digits(n as nat);
    assert(is_ascii_digit(s[0]));
    assert(is_ascii_digit(s[s.len() - 1]));
    lemma_trim_unchanged(s);
}

/// Whether every character of `s` is white space.
pub open spec fn all_white_space(s: Seq<char>) -> bool {
    forall|i: int| 0 <= i < s.len() ==> is_white_space(#[trigger] s[i])
}

proof fn lemma_trim_start_skips(w: Seq<char>, x: Seq<char>)
    requires
        all_white_space(w),
    ensures
        trim_start(w + x) == trim_start(x),
    decreases w.len(),
{
    if w.len() == 0 {
        assert(w + x =~= x);
    } else {
        assert((w + x)[0] == w[0]);
        assert((w + x).drop_first() =~= w.drop_first() + x);
        assert(all_white_space(w.drop_first())) by {
            assert forall|i: int| 0 <= i < w.drop_first().len() implies is_white_space(
                #[trigger] w.drop_first()[i],
            ) by {
                assert(w.drop_first()[i] == w[i + 1]);
            }
        }
        lemma_trim_start_skips(w.drop_first(), x);
    }
}

proof fn lemma_trim_end_skips(x: Seq<char>, w: Seq<char>)
    requires
        all_white_space(w),
    ensures
        trim_end(x + w) == trim_end(x),
    decreases w.len(),
{
    if w.len() == 0 {
        assert(x + w =~= x);
    } else {
        assert((x + w).last() == w[w.len() - 1]);
        assert((x + w).drop_last() =~= x + w.drop_last());
        assert(all_white_space(w.drop_last())) by {
            assert forall|i: int| 0 <= i < w.drop_last().len() implies is_white_space(
                #[trigger] w.drop_last()[i],
            ) by {
                assert(w.drop_last()[i] == w[i]);
            }
        }
        lemma_trim_end_skips(x, w.drop_last());
    }
}

proof fn lemma_trim_start_append(x: Seq<char>, y: Seq<char>)
    ensures
        trim_start(x).len() > 0 ==> trim_start(x + y) == trim_start(x) + y,
        trim_start(x).len() == 0 ==> all_white_space(x),
    decreases x.len(),
{
    if x.len() == 0 {
    } else if is_white_space(x[0]) {
        assert((x + y)[0] == x[0]);
        assert((x + y).drop_first() =~= x.drop_first() + y);
        lemma_trim_start_append(x.drop_first(), y);
        if trim_start(x).len() == 0 {
            assert forall|i: int| 0 <= i < x.len() implies is_white_space(#[trigger] x[i]) by {
                if i > 0 {
                    assert(x[i] == x.drop_first()[i - 1]);
                }
            }
        }
    } else {
        assert((x + y)[0] == x[0]);
    }
}

/// White space on either side of text changes nothing of its trim.
pub proof fn lemma_trim_ignores_padding(front: Seq<char>, s: Seq<char>, back: Seq<char>)
    requires
        all_white_space(front),
        all_white_space(back),
    ensures
        trim(front + s + back) == trim(s),
{
    assert(front + s + back =~= front + (s + back));
    lemma_trim_start_skips(front, s + back);
    lemma_trim_start_append(s, back);
    if trim_start(s).len() > 0 {
        lemma_trim_end_skips(trim_start(s), back);
    } else {
        lemma_trim_start_skips(s, back);
        assert(back + Seq::<char>::empty() =~= back);
        lemma_trim_start_skips(back, Seq::<char>::empty());
    }
}

/// The characters that `char::is_whitespace` accepts, one by one: tab, line feed, vertical tab,
/// form feed, carriage return, space, next line, no-break space, ogham space mark, the spaces
/// from en quad to hair space, line separator, paragraph separator, narrow no-break space,
/// medium mathematical space and ideographic space.
pub proof fn lemma_white_space_members()
    ensures
        is_white_space('\u{9}'),
        is_white_space('\u{a}'),
        is_white_space('\u{b}'),
        is_white_space('\u{c}'),
        is_white_space('\u{d}'),
        is_white_space('\u{20}'),
        is_white_space('\u{85}'),
        is_white_space('\u{a0}'),
        is_white_space('\u{1680}'),
        is_white_space('\u{2000}'),
        is_white_space('\u{2001}'),
        is_white_space('\u{2002}'),
        is_white_space('\u{2003}'),
        is_white_space('\u{2004}'),
        is_white_space('\u{2005}'),
        is_white_space('\u{2006}'),
        is_white_space('\u{2007}'),
        is_white_space('\u{2008}'),
        is_white_space('\u{2009}'),
        is_white_space('\u{200a}'),
        is_white_space('\u{2028}'),
        is_white_space('\u{2029}'),
        is_white_space('\u{202f}'),
        is_white_space('\u{205f}'),
        is_white_space('\u{3000}'),
        !is_white_space('0'),
        !is_white_space('+'),
        !is_white_space('\u{0}'),
        !is_white_space('\u{200b}'),
        !is_white_space('\u{feff}'),
{
}

/// A line ending, `\r\n` or `\n`, after text changes nothing of its trim.
pub proof fn lemma_trim_ignores_line_ending(s: Seq<char>)
    ensures
        trim(s + seq!['\u{d}', '\u{a}']) == trim(s),
        trim(s + seq!['\u{a}']) == trim(s),
{
    let crlf = seq!['\u{d}', '\u{a}'];
    let lf = seq!['\u{a}'];
    assert(all_white_space(crlf));
    assert(all_white_space(lf));
    assert(all_white_space(Seq::<char>::empty()));
    assert(Seq::<char>::empty() + s + crlf =~= s + crlf);
    assert(Seq::<char>::empty() + s + lf =~= s + lf);
    lemma_trim_ignores_padding(Seq::<char>::empty(), s, crlf);
    lemma_trim_ignores_padding(Seq::<char>::empty(), s, lf);
}

/// The base-ten writing of a positive number starts with a digit other than `0`, and the
/// writing of zero is the single digit `0`: no number is written with leading zeros.
pub proof fn lemma_decimal_no_leading_zero(n: nat)
    ensures
        n > 0 ==> decimal(n)[0] != '0',
        n == 0 ==> decimal(n) == seq!['0'],
        n < 10 ==> decimal(n).len() == 1,
        n >= 10 ==> decimal(n).len() == decimal(n / 10).len() + 1,
    decreases n,
{
    if n >= 10 {
        lemma_decimal_no_leading_zero(n / 10);
        lemma_decimal_digits(n / 10);
        assert(decimal(n)[0] == decimal(n / 10)[0]);
    }
}

} // verus!
