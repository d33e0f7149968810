//! The text `DD.MM.YYYY`, as a sequence of characters: how numbers are
//! written into it and read out of it.

use vstd::prelude::*;

verus! {

/// One of the ten ASCII digits.
pub open spec fn is_digit(c: char) -> bool {
    '0' <= c <= '9'
}

/// The number that a digit stands for.
pub open spec fn digit_value(c: char) -> int {
    c as int - '0' as int
}

/// The digit that stands for `d`, for `d` from 0 to 9.
pub open spec fn digit_char(d: int) -> char {
    ('0' as int + d) as char
}

/// `n` written with two digits, for `n` from 0 to 99.
pub open spec fn two_digits(n: int) -> Seq<char> {
    seq![digit_char(n / 10), digit_char(n % 10)]
}

/// `n` written with four digits, for `n` from 0 to 9999.
pub open spec fn four_digits(n: int) -> Seq<char> {
    seq![
        digit_char(n / 1000),
        digit_char(n / 100 % 10),
        digit_char(n / 10 % 10),
        digit_char(n % 10),
    ]
}

/// `n` written in decimal with as many digits as it takes.
pub open spec fn decimal(n: nat) -> Seq<char>
    decreases n,
{
    if n < 10 {
        seq![digit_char(n as int)]
    } else {
        decimal(n / 10).push(digit_char((n % 10) as int))
    }
}

/// A year as it is written: with four digits where four are enough and the
/// year is not negative, else with a sign before at least four digits.
pub open spec fn year_text(year: int) -> Seq<char> {
    if 0 <= year <= 9999 {
        four_digits(year)
    } else if year > 9999 {
        seq!['+'] + decimal(year as nat)
    } else if year >= -9999 {
        seq!['-'] + four_digits(-year)
    } else {
        seq!['-'] + decimal((-year) as nat)
    }
}

/// Day, month and year with a dot between them.
pub open spec fn dmy_text(year: int, month: int, day: int) -> Seq<char> {
    two_digits(day) + seq!['.'] + two_digits(month) + seq!['.'] + year_text(year)
}

/// What the strict form asks of the character at index `i`: a dot after the
/// day and after the month, a digit everywhere else.
pub open spec fn fits_at(s: Seq<char>, i: int) -> bool {
    if i == 2 || i == 5 {
        s[i] == '.'
    } else {
        is_digit(s[i])
    }
}

/// The strict form: ten characters, each of which fits its place.
pub open spec fn has_dmy_shape(s: Seq<char>) -> bool {
    &&& s.len() == 10
    &&& forall|i: int| 0 <= i < 10 ==> fits_at(s, i)
}

/// The number that the two digits from index `at` on stand for.
pub open spec fn two_digit_value(s: Seq<char>, at: int) -> int {
    digit_value(s[at]) * 10 + digit_value(s[at + 1])
}

/// The number that the four digits from index `at` on stand for.
pub open spec fn four_digit_value(s: Seq<char>, at: int) -> int {
    digit_value(s[at]) * 1000 + digit_value(s[at + 1]) * 100 + digit_value(s[at + 2]) * 10
        + digit_value(s[at + 3])
}

/// The day that a text of the strict form names.
pub open spec fn text_day(s: Seq<char>) -> int {
    two_digit_value(s, 0)
}

/// The month that a text of the strict form names.
pub open spec fn text_month(s: Seq<char>) -> int {
    two_digit_value(s, 3)
}

/// The year that a text of the strict form names.
pub open spec fn text_year(s: Seq<char>) -> int {
    four_digit_value(s, 6)
}

/// The year of a text of the strict form lies between 0 and 9999.
pub proof fn lemma_year_has_four_digits(s: Seq<char>)
    requires
        has_dmy_shape(s),
    ensures
        0 <= text_year(s) <= 9999,
{
    assert(fits_at(s, 6) && fits_at(s, 7) && fits_at(s, 8) && fits_at(s, 9));
}

/// The four decimal digits of a number below ten thousand, and their sum.
proof fn lemma_split_four(n: int)
    requires
        0 <= n <= 9999,
    ensures
        0 <= n / 1000 <= 9,
        0 <= n / 100 % 10 <= 9,
        0 <= n / 10 % 10 <= 9,
        0 <= n % 10 <= 9,
        (n / 1000) * 1000 + (n / 100 % 10) * 100 + (n / 10 % 10) * 10 + n % 10 == n,
{
    let tens = n / 10;
    let hundreds = n / 100;
    assert(n == tens * 10 + n % 10);
    assert(tens == (tens / 10) * 10 + tens % 10);
    assert(tens / 10 == hundreds);
    assert(hundreds == (hundreds / 10) * 10 + hundreds % 10);
    assert(hundreds / 10 == n / 1000);
}

/// Four decimal digits are the digits of their sum.
proof fn lemma_join_four(a: int, b: int, c: int, d: int)
    requires
        0 <= a <= 9,
        0 <= b <= 9,
        0 <= c <= 9,
        0 <= d <= 9,
    ensures
        ({
            let n = a * 1000 + b * 100 + c * 10 + d;
            &&& 0 <= n <= 9999
            &&& n / 1000 == a
            &&& n / 100 % 10 == b
            &&& n / 10 % 10 == c
            &&& n % 10 == d
        }),
{
    let n = a * 1000 + b * 100 + c * 10 + d;
    assert(n == (a * 100 + b * 10 + c) * 10 + d);
    assert(n / 10 == a * 100 + b * 10 + c);
    assert(n == (a * 10 + b) * 100 + (c * 10 + d));
    assert(n / 100 == a * 10 + b);
    assert(n == a * 1000 + (b * 100 + c * 10 + d));
    assert(n / 1000 == a);
}

/// Two digits are read back as the number that they were written for.
pub proof fn lemma_two_digits_read_back(n: int)
    requires
        0 <= n <= 99,
    ensures
        is_digit(digit_char(n / 10)),
        is_digit(digit_char(n % 10)),
        digit_value(digit_char(n / 10)) * 10 + digit_value(digit_char(n % 10)) == n,
{
}

/// Four digits are read back as the number that they were written for.
pub proof fn lemma_four_digits_read_back(n: int)
    requires
        0 <= n <= 9999,
    ensures
        is_digit(digit_char(n / 1000)),
        is_digit(digit_char(n / 100 % 10)),
        is_digit(digit_char(n / 10 % 10)),
        is_digit(digit_char(n % 10)),
        digit_value(digit_char(n / 1000)) * 1000 + digit_value(digit_char(n / 100 % 10)) * 100
            + digit_value(digit_char(n / 10 % 10)) * 10 + digit_value(digit_char(n % 10)) == n,
{
    lemma_split_four(n);
}

/// The number that two digits stand for is written with these two digits.
pub proof fn lemma_two_digits_written_back(a: char, b: char)
    requires
        is_digit(a),
        is_digit(b),
    ensures
        0 <= digit_value(a) * 10 + digit_value(b) <= 99,
        two_digits(digit_value(a) * 10 + digit_value(b)) =~= seq![a, b],
{
}

/// The number that four digits stand for is written with these four digits.
pub proof fn lemma_four_digits_written_back(a: char, b: char, c: char, d: char)
    requires
        is_digit(a),
        is_digit(b),
        is_digit(c),
        is_digit(d),
    ensures
        0 <= digit_value(a) * 1000 + digit_value(b) * 100 + digit_value(c) * 10 + digit_value(d)
            <= 9999,
        four_digits(
            digit_value(a) * 1000 + digit_value(b) * 100 + digit_value(c) * 10 + digit_value(d),
        ) =~= seq![a, b, c, d],
{
    lemma_join_four(digit_value(a), digit_value(b), digit_value(c), digit_value(d));
}

} // verus!
