//! A record with a date among its fields, as it is read from and written to
//! a document whose fields are texts.

use crate::calendar::{CalendarDate, Ymd};
use crate::codec::{decode, decode_text, encode, encode_text, DecodeError, DecodeErrorKind};
use vstd::prelude::*;

verus! {

/// Something that takes place on one day.
#[derive(Clone, Debug, PartialEq, Eq, Hash)]
pub struct EventRecord {
    /// What the event is called.
    pub name: String,
    /// The day it takes place on.
    pub date: CalendarDate,
}

/// A field of a document that could not be decoded: which field, what it
/// held, and why that was refused.
#[derive(Clone, Debug, PartialEq, Eq, Hash)]
pub struct FieldError {
    /// The name of the field.
    pub field: String,
    /// The refused text and the reason.
    pub error: DecodeError,
}

impl FieldError {
    /// The words of [`FieldError::message`]: the field, then the error.
    pub open spec fn message_text(field: Seq<char>, error: DecodeError) -> Seq<char> {
        field + ": "@ + DecodeError::message_text(error.kind, error.text@)
    }

    /// The error in words: the name of the field, followed by the message
    /// of the error itself.
    pub fn message(&self) -> (r: String)
        ensures
            r@ == Self::message_text(self.field@, self.error),
    {
        let mut words = self.field.clone();
        words.append(": ");
        words.append(self.error.message().as_str());
        words
    }
}

impl EventRecord {
    /// The name of the field that holds the date.
    pub fn date_field_name() -> (r: &'static str)
        ensures
            r@ == "date"@,
    {
        "date"
    }

    /// The record of two fields of a document. The name is taken as it is;
    /// the date is decoded from its text, and where that fails there is no
    /// record: the error names the date field and says what it held.
    pub fn from_fields(name: String, date: &str) -> (r: Result<EventRecord, FieldError>)
        ensures
            match r {
                Ok(record) => {
                    &&& record.name@ == name@
                    &&& decode_text(date@) == Ok::<Ymd, DecodeErrorKind>(record.date@)
                },
                Err(e) => {
                    &&& e.field@ == "date"@
                    &&& decode_text(date@) == Err::<Ymd, DecodeErrorKind>(e.error.kind)
                    &&& e.error.text@ == date@
                },
            },
    {
        match decode(date) {
            Ok(date) => Ok(EventRecord { name, date }),
            Err(error) => Err(
                FieldError { field: String::from_str(Self::date_field_name()), error },
            ),
        }
    }

    /// The text that stands in a document for the date of this record.
    pub fn date_field(&self) -> (text: String)
        ensures
            text@ == encode_text(self.date@),
    {
        encode(&self.date)
    }
}

} // verus!
