//! The six I2C controllers of the SoC and their clock settings.
//!
//! I2C0 to I2C4 sit in the active power domain; RTCSYS_I2C sits in the
//! always-on (no-die) domain of the RTC subsystem.
use vstd::prelude::*;

verus! {

pub const I2C0_BASE: usize = 0x0400_0000;

pub const I2C1_BASE: usize = 0x0401_0000;

pub const I2C2_BASE: usize = 0x0402_0000;

pub const I2C3_BASE: usize = 0x0403_0000;

pub const I2C4_BASE: usize = 0x0404_0000;

/// The RTC subsystem's controller (no-die domain).
pub const RTCSYS_I2C_BASE: usize = 0x0502_B000;

/// One of the six I2C controllers.
#[derive(Debug, Clone, Copy, PartialEq, Eq, Structural)]
pub enum I2cInstance {
    I2c0,
    I2c1,
    I2c2,
    I2c3,
    I2c4,
    RtcsysI2c,
}

/// The controller's index: 0 to 4 for I2C0 to I2C4, 5 for RTCSYS_I2C.
pub open spec fn instance_index(i: I2cInstance) -> u8 {
    match i {
        I2cInstance::I2c0 => 0,
        I2cInstance::I2c1 => 1,
        I2cInstance::I2c2 => 2,
        I2cInstance::I2c3 => 3,
        I2cInstance::I2c4 => 4,
        I2cInstance::RtcsysI2c => 5,
    }
}

/// The controller's register base address.
pub open spec fn instance_base(i: I2cInstance) -> usize {
    match i {
        I2cInstance::I2c0 => I2C0_BASE,
        I2cInstance::I2c1 => I2C1_BASE,
        I2cInstance::I2c2 => I2C2_BASE,
        I2cInstance::I2c3 => I2C3_BASE,
        I2cInstance::I2c4 => I2C4_BASE,
        I2cInstance::RtcsysI2c => RTCSYS_I2C_BASE,
    }
}

impl I2cInstance {
    pub fn base_address(&self) -> (b: usize)
        ensures
            b == instance_base(*self),
    {
        match self {
            I2cInstance::I2c0 => I2C0_BASE,
            I2cInstance::I2c1 => I2C1_BASE,
            I2cInstance::I2c2 => I2C2_BASE,
            I2cInstance::I2c3 => I2C3_BASE,
            I2cInstance::I2c4 => I2C4_BASE,
            I2cInstance::RtcsysI2c => RTCSYS_I2C_BASE,
        }
    }

    /// The controller with index `index`, if there is one.
    pub fn from_index(index: u8) -> (r: Option<Self>)
        ensures
            r matches Some(i) ==> instance_index(i) == index,
            r is None <==> index > 5,
    {
        match index {
            0 => Some(I2cInstance::I2c0),
            1 => Some(I2cInstance::I2c1),
            2 => Some(I2cInstance::I2c2),
            3 => Some(I2cInstance::I2c3),
            4 => Some(I2cInstance::I2c4),
            5 => Some(I2cInstance::RtcsysI2c),
            _ => None,
        }
    }

    pub fn index(&self) -> (n: u8)
        ensures
            n == instance_index(*self),
    {
        match self {
            I2cInstance::I2c0 => 0,
            I2cInstance::I2c1 => 1,
            I2cInstance::I2c2 => 2,
            I2cInstance::I2c3 => 3,
            I2cInstance::I2c4 => 4,
            I2cInstance::RtcsysI2c => 5,
        }
    }

    /// Whether the controller is in the active domain (all but RTCSYS_I2C).
    pub fn is_active_domain(&self) -> (b: bool)
        ensures
            b <==> *self != I2cInstance::RtcsysI2c,
    {
        !matches!(self, I2cInstance::RtcsysI2c)
    }

    /// Whether the controller is the RTC subsystem's.
    pub fn is_rtc_domain(&self) -> (b: bool)
        ensures
            b <==> *self == I2cInstance::RtcsysI2c,
    {
        matches!(self, I2cInstance::RtcsysI2c)
    }
}

/// Every index names one controller and every controller has one index.
pub proof fn lemma_index_round_trip(i: I2cInstance)
    ensures
        instance_index(i) <= 5,
        forall|j: I2cInstance| instance_index(j) == instance_index(i) ==> j == i,
{
}

/// SCL timing for a given controller input clock (IIC_CLK).
#[derive(Debug, Clone, Copy, PartialEq, Eq, Structural)]
pub struct I2cClockConfig {
    /// Standard mode SCL high count.
    pub ss_scl_hcnt: u16,
    /// Standard mode SCL low count.
    pub ss_scl_lcnt: u16,
    /// Fast mode SCL high count.
    pub fs_scl_hcnt: u16,
    /// Fast mode SCL low count.
    pub fs_scl_lcnt: u16,
    /// SDA hold time.
    pub sda_hold: u16,
    /// SDA setup time.
    pub sda_setup: u8,
    /// Spike suppression length.
    pub fs_spklen: u8,
}

impl I2cClockConfig {
    pub open spec fn clk_25mhz_spec() -> Self {
        I2cClockConfig {
            ss_scl_hcnt: 115,
            ss_scl_lcnt: 135,
            fs_scl_hcnt: 21,
            fs_scl_lcnt: 42,
            sda_hold: 1,
            sda_setup: 6,
            fs_spklen: 2,
        }
    }

    /// Timing for a 25 MHz IIC_CLK.
    pub fn clk_25mhz() -> (c: Self)
        ensures
            c == Self::clk_25mhz_spec(),
    {
        I2cClockConfig {
            ss_scl_hcnt: 115,
            ss_scl_lcnt: 135,
            fs_scl_hcnt: 21,
            fs_scl_lcnt: 42,
            sda_hold: 1,
            sda_setup: 6,
            fs_spklen: 2,
        }
    }

    pub open spec fn clk_100mhz_spec() -> Self {
        I2cClockConfig {
            ss_scl_hcnt: 460,
            ss_scl_lcnt: 540,
            fs_scl_hcnt: 90,
            fs_scl_lcnt: 160,
            sda_hold: 1,
            sda_setup: 25,
            fs_spklen: 5,
        }
    }

    /// Timing for a 100 MHz IIC_CLK.
    pub fn clk_100mhz() -> (c: Self)
        ensures
            c == Self::clk_100mhz_spec(),
    {
        I2cClockConfig {
            ss_scl_hcnt: 460,
            ss_scl_lcnt: 540,
            fs_scl_hcnt: 90,
            fs_scl_lcnt: 160,
            sda_hold: 1,
            sda_setup: 25,
            fs_spklen: 5,
        }
    }
}

} // verus!
