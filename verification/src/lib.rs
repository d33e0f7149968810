//! A codec between calendar dates and their `DD.MM.YYYY` text.
//!
//! [`encode`] writes a [`CalendarDate`] as two digits of day, two digits of
//! month and four digits of year, separated by dots; [`decode`] reads exactly
//! that form back and refuses everything else. The calendar itself is
//! chrono's: the few calls into it are gathered in one module, each with a
//! contract stated over the spec functions of this crate.

pub mod calendar;
pub mod chrono_date;
pub mod codec;
pub mod event;
pub mod laws;
pub mod text;

pub use calendar::CalendarDate;
pub use codec::{decode, encode, DecodeError, DecodeErrorKind};
pub use event::{EventRecord, FieldError};
