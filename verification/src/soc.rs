//! MMIO base addresses of the SG2002 peripherals.
use vstd::prelude::*;

verus! {

pub const TOP_BASE: usize = 0x0300_0000;

pub const FMUX_BASE: usize = 0x0300_1000;

pub const RSTC_BASE: usize = 0x0300_3000;

pub const GPIO0_BASE: usize = 0x0302_0000;

pub const GPIO1_BASE: usize = 0x0302_1000;

pub const GPIO2_BASE: usize = 0x0302_2000;

pub const GPIO3_BASE: usize = 0x0302_3000;

pub const RTCSYS_GPIO_BASE: usize = 0x0502_1000;

pub const PWM0_BASE: usize = 0x0306_0000;

pub const PWM1_BASE: usize = 0x0306_1000;

pub const PWM2_BASE: usize = 0x0306_2000;

pub const PWM3_BASE: usize = 0x0306_3000;

pub const SEC_SYS_BASE: usize = 0x020B_0000;

} // verus!
