//! Nanosecond wall-clock and 90 kHz codec-clock instants and durations, with
//! overflow-checked arithmetic and overflow-free conversion between the two
//! clocks.

mod foreign;
pub mod rescale;
pub mod time;
pub mod units;

pub use rescale::nano_to_timescale;
pub use time::{Duration, DurationH264, UnixH264, UnixNano};
pub use units::{
    H264_MILLISECOND, H264_SECOND, H264_TIMESCALE, HOUR, MICROSECOND, MILLISECOND, MINUTE,
    NANOSECOND, SECOND,
};
