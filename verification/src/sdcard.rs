//! On-board SD-card slot: the pieces of its setup that are plain values.
//!
//! The card driver itself, the SPI bus and the chip-select pin live with
//! the hardware; what belongs here is the choice of bus frequency and the
//! fixed time source handed to the filesystem driver.

use vstd::prelude::*;

verus! {

/// A calendar timestamp as the filesystem driver consumes it, held as
/// plain values.
pub struct Timestamp {
    pub year_since_1970: u8,
    pub zero_indexed_month: u8,
    pub zero_indexed_day: u8,
    pub hours: u8,
    pub minutes: u8,
    pub seconds: u8,
}

/// The SPI frequency the SD card is driven at.
pub enum SdCardFreq {
    /// Should work for all cards
    Safe,
    /// May not work for some cards
    Fast,
    /// Specify SPI frequency, in hertz
    Custom(u32),
}

impl SdCardFreq {
    /// The chosen frequency in hertz: the safe choice stays within the
    /// range every card's initialization accepts, the fast choice is the
    /// bus maximum the board's datasheet gives.
    pub fn hertz(&self) -> (hz: u32)
        ensures
            hz == match *self {
                SdCardFreq::Safe => 200_000u32,
                SdCardFreq::Fast => 27_000_000u32,
                SdCardFreq::Custom(v) => v,
            },
    {
        match *self {
            SdCardFreq::Safe => 200_000,
            SdCardFreq::Fast => 27_000_000,
            SdCardFreq::Custom(v) => v,
        }
    }
}

/// A fake time source that always returns a date of zero.
pub struct FakeTimeSource {}

impl FakeTimeSource {
    /// The fixed timestamp: every field zero.
    pub fn get_timestamp(&self) -> (t: Timestamp)
        ensures
            t.year_since_1970 == 0,
            t.zero_indexed_month == 0,
            t.zero_indexed_day == 0,
            t.hours == 0,
            t.minutes == 0,
            t.seconds == 0,
    {
        Timestamp {
            year_since_1970: 0,
            zero_indexed_month: 0,
            zero_indexed_day: 0,
            hours: 0,
            minutes: 0,
            seconds: 0,
        }
    }
}

} // verus!
