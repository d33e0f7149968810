//! The codec: a date to its text, and a text to its date or to the reason
//! why it is none.

use crate::calendar::{is_calendar_date, CalendarDate, Ymd};
use crate::chrono_date::{format_dmy, parse_dmy};
use crate::laws::lemma_encode_has_dmy_shape;
use crate::text::{
    dmy_text, fits_at, has_dmy_shape, lemma_year_has_four_digits, text_day, text_month, text_year,
};
use vstd::prelude::*;

verus! {

/// Why a text is no date.
#[derive(Clone, Copy, Debug, PartialEq, Eq, Hash)]
pub enum DecodeErrorKind {
    /// The text is not of the form `DD.MM.YYYY`: it has another length,
    /// another separator, or something else than a digit where a digit
    /// belongs.
    MalformedFormat,
    /// The text is of the form `DD.MM.YYYY`, but the calendar has no such
    /// day.
    InvalidCalendarDate,
}

/// A refused text, with the reason.
#[derive(Clone, Debug, PartialEq, Eq, Hash)]
pub struct DecodeError {
    /// Why the text was refused.
    pub kind: DecodeErrorKind,
    /// The text as it was given.
    pub text: String,
}

impl DecodeError {
    /// The words of [`DecodeError::message`]: the reason, then the text.
    pub open spec fn message_text(kind: DecodeErrorKind, text: Seq<char>) -> Seq<char> {
        match kind {
            DecodeErrorKind::MalformedFormat => "not a date of the form DD.MM.YYYY: "@ + text,
            DecodeErrorKind::InvalidCalendarDate => "no such day in the calendar: "@ + text,
        }
    }

    /// The error in words, for whoever has to find the text in a document:
    /// the reason, followed by the refused text itself.
    pub fn message(&self) -> (r: String)
        ensures
            r@ == Self::message_text(self.kind, self.text@),
    {
        let mut words = match self.kind {
            DecodeErrorKind::MalformedFormat => String::from_str(
                "not a date of the form DD.MM.YYYY: ",
            ),
            DecodeErrorKind::InvalidCalendarDate => String::from_str(
                "no such day in the calendar: ",
            ),
        };
        words.append(self.text.as_str());
        words
    }
}

/// The text of a date.
pub open spec fn encode_text(date: Ymd) -> Seq<char> {
    dmy_text(date.year, date.month, date.day)
}

/// The date of a text, or the reason why it has none.
pub open spec fn decode_text(s: Seq<char>) -> Result<Ymd, DecodeErrorKind> {
    if !has_dmy_shape(s) {
        Err(DecodeErrorKind::MalformedFormat)
    } else if !is_calendar_date(text_year(s), text_month(s), text_day(s)) {
        Err(DecodeErrorKind::InvalidCalendarDate)
    } else {
        Ok(Ymd { year: text_year(s), month: text_month(s), day: text_day(s) })
    }
}

/// Whether `text` is of the strict form: two digits, a dot, two digits, a
/// dot, four digits, and nothing else.
pub fn is_dmy_shaped(text: &str) -> (r: bool)
    ensures
        r == has_dmy_shape(text@),
{
    if !text.is_ascii() {
        proof {
            if has_dmy_shape(text@) {
                assert forall|i: int| 0 <= i < text@.len() implies '\0' <= #[trigger] text@[i]
                    <= '\u{7f}' by {
                    assert(fits_at(text@, i));
                }
            }
        }
        return false;
    }
    proof {
        vstd::string::is_ascii_spec_bytes(text);
    }
    let bytes = text.as_bytes();
    if bytes.len() != 10 {
        return false;
    }
    let mut i: usize = 0;
    while i < 10
        invariant
            i <= 10,
            text@.len() == 10,
            bytes@.len() == 10,
            forall|j: int| 0 <= j < 10 ==> bytes@[j] == text@[j] as u8,
            forall|j: int| 0 <= j < 10 ==> '\0' <= #[trigger] text@[j] <= '\u{7f}',
            forall|j: int| 0 <= j < i ==> fits_at(text@, j),
        decreases 10 - i,
    {
        let c = bytes[i] as char;
        assert(c == text@[i as int]);
        let fits = if i == 2 || i == 5 {
            c == '.'
        } else {
            '0' <= c && c <= '9'
        };
        if !fits {
            assert(!fits_at(text@, i as int));
            return false;
        }
        assert(fits_at(text@, i as int));
        i += 1;
    }
    true
}

/// Writes a date as `DD.MM.YYYY`: day and month with two digits each, the
/// year with four. A year before 0 or after 9999 does not fit into four
/// digits: it is written with its sign, and the text gets longer.
pub fn encode(date: &CalendarDate) -> (text: String)
    ensures
        text@ == encode_text(date@),
        0 <= date@.year <= 9999 ==> has_dmy_shape(text@),
{
    proof {
        use_type_invariant(date);
        if 0 <= date@.year <= 9999 {
            lemma_encode_has_dmy_shape(date@);
        }
    }
    match format_dmy(date.year(), date.month(), date.day()) {
        Some(text) => text,
        None => vstd::pervasive::unreached(),
    }
}

/// Reads a date from a text of the form `DD.MM.YYYY`. Any other text is
/// refused as malformed, and a text of that form whose numbers name no day
/// of the calendar as an invalid date.
pub fn decode(text: &str) -> (r: Result<CalendarDate, DecodeError>)
    ensures
        match r {
            Ok(date) => decode_text(text@) == Ok::<Ymd, DecodeErrorKind>(date@),
            Err(e) => decode_text(text@) == Err::<Ymd, DecodeErrorKind>(e.kind) && e.text@
                == text@,
        },
{
    if !is_dmy_shaped(text) {
        return Err(DecodeError { kind: DecodeErrorKind::MalformedFormat, text: text.to_owned() });
    }
    match parse_dmy(text) {
        Ok((year, month, day)) => {
            proof {
                lemma_year_has_four_digits(text@);
            }
            Ok(CalendarDate::from_parts(year, month, day))
        },
        Err(_) => Err(
            DecodeError { kind: DecodeErrorKind::InvalidCalendarDate, text: text.to_owned() },
        ),
    }
}

} // verus!
