//! Conversions between Clarion's compact numeric encodings and plain calendar
//! dates, times of day and RGB colors.
//!
//! A Clarion date counts days from 28 December 1800 (proleptic Gregorian). A
//! Clarion time counts centiseconds from midnight. A Clarion color packs three
//! 8-bit channels into one integer with red in the least significant byte.
pub mod calendar_date;
mod clarion_color;
mod clarion_date;
mod clarion_err;
mod clarion_time;
pub mod codec;
mod csdate;
mod cserr;
mod cstime;
mod rgb_color;
pub mod time_of_day;

pub use crate::calendar_date::CalendarDate;
pub use crate::clarion_color::ClarionColor;
pub use crate::clarion_date::ClarionDate;
pub use crate::clarion_err::ClarionErr;
pub use crate::clarion_time::ClarionTime;
pub use crate::codec::{
    clarion_epoch, decode_color, decode_date, decode_time, encode_color, encode_date, encode_time,
};
pub use crate::csdate::CSDate;
pub use crate::cserr::CSErr;
pub use crate::cstime::CSTime;
pub use crate::rgb_color::RgbColor;
pub use crate::time_of_day::TimeOfDay;
