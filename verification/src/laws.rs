//! What holds of the codec as a whole: the two directions undo each other
//! exactly where a year is written with four digits.

use crate::calendar::Ymd;
use crate::codec::{decode_text, encode_text, DecodeErrorKind};
use crate::text::{
    decimal, digit_char, fits_at, four_digits, has_dmy_shape, lemma_four_digits_read_back,
    lemma_four_digits_written_back, lemma_two_digits_read_back, lemma_two_digits_written_back,
    two_digits, year_text,
};
use vstd::prelude::*;

verus! {

/// The ten characters of the text of a date whose year has four digits.
proof fn lemma_text_of_four_digit_year(date: Ymd)
    requires
        0 <= date.year <= 9999,
    ensures
        encode_text(date) =~= seq![
            digit_char(date.day / 10),
            digit_char(date.day % 10),
            '.',
            digit_char(date.month / 10),
            digit_char(date.month % 10),
            '.',
            digit_char(date.year / 1000),
            digit_char(date.year / 100 % 10),
            digit_char(date.year / 10 % 10),
            digit_char(date.year % 10),
        ],
{
}

/// A number of at least five digits takes at least five characters.
proof fn lemma_decimal_is_long(n: nat)
    requires
        n >= 10000,
    ensures
        decimal(n).len() >= 5,
{
    reveal_with_fuel(decimal, 5);
}

/// The text of a date whose year lies between 0 and 9999 is of the strict
/// form: ten characters, digits but for the two dots.
pub proof fn lemma_encode_has_dmy_shape(date: Ymd)
    requires
        date.is_valid(),
        0 <= date.year <= 9999,
    ensures
        encode_text(date).len() == 10,
        has_dmy_shape(encode_text(date)),
{
    lemma_text_of_four_digit_year(date);
    lemma_two_digits_read_back(date.day);
    lemma_two_digits_read_back(date.month);
    lemma_four_digits_read_back(date.year);
}

/// Round trip from the date: decoding the text of a date gives that date
/// back, for every date whose year lies between 0 and 9999.
pub proof fn lemma_decode_inverts_encode(date: Ymd)
    requires
        date.is_valid(),
        0 <= date.year <= 9999,
    ensures
        decode_text(encode_text(date)) == Ok::<Ymd, DecodeErrorKind>(date),
{
    lemma_text_of_four_digit_year(date);
    lemma_encode_has_dmy_shape(date);
    lemma_two_digits_read_back(date.day);
    lemma_two_digits_read_back(date.month);
    lemma_four_digits_read_back(date.year);
}

/// Round trip from the text: a text that decodes is the text of the date it
/// decodes to, and that date is a real one with a year between 0 and 9999.
/// So no two texts decode to the same date.
pub proof fn lemma_encode_inverts_decode(s: Seq<char>)
    requires
        decode_text(s) is Ok,
    ensures
        decode_text(s)->Ok_0.is_valid(),
        0 <= decode_text(s)->Ok_0.year <= 9999,
        encode_text(decode_text(s)->Ok_0) == s,
{
    let date = decode_text(s)->Ok_0;
    assert(fits_at(s, 0) && fits_at(s, 1) && fits_at(s, 2) && fits_at(s, 3) && fits_at(s, 4));
    assert(fits_at(s, 5) && fits_at(s, 6) && fits_at(s, 7) && fits_at(s, 8) && fits_at(s, 9));
    lemma_two_digits_written_back(s[0], s[1]);
    lemma_two_digits_written_back(s[3], s[4]);
    lemma_four_digits_written_back(s[6], s[7], s[8], s[9]);
    assert(two_digits(date.day) == seq![s[0], s[1]]);
    assert(two_digits(date.month) == seq![s[3], s[4]]);
    assert(year_text(date.year) == seq![s[6], s[7], s[8], s[9]]);
    assert(encode_text(date) =~= s);
}

/// Outside the years from 0 to 9999 there is no round trip: the year is
/// written with a sign, the text is longer than ten characters, and
/// decoding refuses it as malformed.
pub proof fn lemma_signed_year_is_not_read_back(date: Ymd)
    requires
        date.is_valid(),
        date.year < 0 || date.year > 9999,
    ensures
        encode_text(date).len() >= 11,
        decode_text(encode_text(date)) == Err::<Ymd, DecodeErrorKind>(
            DecodeErrorKind::MalformedFormat,
        ),
{
    if date.year > 9999 {
        lemma_decimal_is_long(date.year as nat);
    } else if date.year < -9999 {
        lemma_decimal_is_long((-date.year) as nat);
    }
    assert(two_digits(date.day).len() == 2);
    assert(two_digits(date.month).len() == 2);
    assert(four_digits(-date.year).len() == 4);
    assert(year_text(date.year).len() >= 5);
}

} // verus!
