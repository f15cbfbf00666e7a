//! PWM register map, field masks, limits and the small value types of the
//! PWM driver.
use vstd::prelude::*;

verus! {

/// `HLPERIODn`: high/low level period of channel n, at `8 * n`.
pub const HLPERIOD0: usize = 0x000;

/// `PERIODn`: period of channel n, at `8 * n + 4`.
pub const PERIOD0: usize = 0x004;

pub const POLARITY: usize = 0x040;

pub const PWMSTART: usize = 0x044;

pub const PWMDONE: usize = 0x048;

pub const PWMUPDATE: usize = 0x04c;

/// `PCOUNTn`: pulse count of channel n, at `0x50 + 4 * n`.
pub const PCOUNT0: usize = 0x050;

/// `PULSECOUNTn`: pulses emitted by channel n, at `0x60 + 4 * n`.
pub const PULSECOUNT0: usize = 0x060;

/// `SHIFTCOUNTn`: shift of channel n, at `0x80 + 4 * n`.
pub const SHIFTCOUNT0: usize = 0x080;

pub const SHIFTCOUNT1: usize = 0x084;

pub const SHIFTCOUNT2: usize = 0x088;

pub const SHIFTCOUNT3: usize = 0x08c;

pub const SHIFTSTART: usize = 0x090;

pub const PWM_OE: usize = 0x0d0;

/// 30-bit period fields.
pub const PERIOD_MASK: u32 = 0x3FFF_FFFF;

/// 24-bit count fields.
pub const COUNT_MASK: u32 = 0x00FF_FFFF;

/// Four one-bit-per-channel fields.
pub const CHANNELS_MASK: u32 = 0xF;

/// `POLARITY.PWMMODE` shift.
pub const PWMMODE_SHIFT: u32 = 8;

/// `POLARITY.SHIFTMODE` shift.
pub const SHIFTMODE_SHIFT: u32 = 16;

/// `POLARITY.PCLK_FORCE_EN` shift.
pub const PCLK_FORCE_EN_SHIFT: u32 = 20;

/// Largest period in clock cycles.
pub const PWM_MAX_PERIOD: u32 = 0x3FFF_FFFF;

/// Largest pulse count.
pub const PWM_MAX_PULSE_COUNT: u32 = 0x00FF_FFFF;

/// Largest shift count.
pub const PWM_MAX_SHIFT_COUNT: u32 = 0x00FF_FFFF;

/// Default PWM clock in Hz.
pub const PWM_DEFAULT_CLK_FREQ: u32 = 100_000_000;

#[derive(Debug, Clone, Copy, PartialEq, Eq, Structural)]
pub enum PwmError {
    InvalidChannel,
    InvalidPeriod,
    InvalidDutyCycle,
    InvalidPulseCount,
    Busy,
    ConfigError,
}

/// Continuous output, or a fixed number of pulses.
#[derive(Debug, Clone, Copy, PartialEq, Eq, Structural)]
pub enum PwmMode {
    Continuous,
    PulseCount,
}

impl PwmMode {
    pub fn from_u8(value: u8) -> (r: Option<Self>)
        ensures
            r == if value == 0 {
                Some(PwmMode::Continuous)
            } else if value == 1 {
                Some(PwmMode::PulseCount)
            } else {
                None::<PwmMode>
            },
    {
        match value {
            0 => Some(PwmMode::Continuous),
            1 => Some(PwmMode::PulseCount),
            _ => None,
        }
    }
}

/// Output level during the high/low period.
#[derive(Debug, Clone, Copy, PartialEq, Eq, Structural)]
pub enum PwmPolarity {
    ActiveHigh,
    ActiveLow,
}

impl PwmPolarity {
    pub fn from_u8(value: u8) -> (r: Option<Self>)
        ensures
            r == if value == 0 {
                Some(PwmPolarity::ActiveHigh)
            } else if value == 1 {
                Some(PwmPolarity::ActiveLow)
            } else {
                None::<PwmPolarity>
            },
    {
        match value {
            0 => Some(PwmPolarity::ActiveHigh),
            1 => Some(PwmPolarity::ActiveLow),
            _ => None,
        }
    }
}

/// The clock that drives the PWM counters.
#[derive(Debug, Clone, Copy, PartialEq, Eq, Structural)]
pub enum PwmClockSource {
    Clk100MHz,
    Clk148_5MHz,
}

pub open spec fn clock_hz(source: PwmClockSource) -> u32 {
    match source {
        PwmClockSource::Clk100MHz => 100_000_000,
        PwmClockSource::Clk148_5MHz => 148_500_000,
    }
}

impl PwmClockSource {
    /// Frequency in Hz.
    pub fn frequency(&self) -> (f: u32)
        ensures
            f == clock_hz(*self),
    {
        match self {
            PwmClockSource::Clk100MHz => 100_000_000,
            PwmClockSource::Clk148_5MHz => 148_500_000,
        }
    }
}

/// One of the four channels of a PWM controller.
#[derive(Debug, Clone, Copy, PartialEq, Eq, Structural)]
pub enum PwmChannel {
    Channel0,
    Channel1,
    Channel2,
    Channel3,
}

pub open spec fn channel_index(c: PwmChannel) -> u8 {
    match c {
        PwmChannel::Channel0 => 0,
        PwmChannel::Channel1 => 1,
        PwmChannel::Channel2 => 2,
        PwmChannel::Channel3 => 3,
    }
}

pub open spec fn channel_mask(c: PwmChannel) -> u32 {
    match c {
        PwmChannel::Channel0 => 1,
        PwmChannel::Channel1 => 2,
        PwmChannel::Channel2 => 4,
        PwmChannel::Channel3 => 8,
    }
}

impl PwmChannel {
    pub fn from_u8(value: u8) -> (r: Option<Self>)
        ensures
            value < 4 ==> (r matches Some(c) && channel_index(c) == value),
            value >= 4 ==> r is None,
    {
        match value {
            0 => Some(PwmChannel::Channel0),
            1 => Some(PwmChannel::Channel1),
            2 => Some(PwmChannel::Channel2),
            3 => Some(PwmChannel::Channel3),
            _ => None,
        }
    }

    /// Channel number, 0 to 3.
    pub fn index(&self) -> (i: u8)
        ensures
            i == channel_index(*self),
    {
        match self {
            PwmChannel::Channel0 => 0,
            PwmChannel::Channel1 => 1,
            PwmChannel::Channel2 => 2,
            PwmChannel::Channel3 => 3,
        }
    }

    /// The channel's bit in the one-bit-per-channel registers: `1 << index`.
    pub fn mask(&self) -> (m: u32)
        ensures
            m == channel_mask(*self),
            m == 1u32 << (channel_index(*self) as u32),
    {
        let i = self.index() as u32;
        assert(1u32 << 0u32 == 1 && 1u32 << 1u32 == 2 && 1u32 << 2u32 == 4 && 1u32 << 3u32 == 8) by (bit_vector);
        1u32 << i
    }
}

} // verus!
