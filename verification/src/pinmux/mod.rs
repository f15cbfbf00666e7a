//! Pin multiplexing (FMUX function select) and pad configuration (IOBLK
//! pull, drive strength, Schmitt trigger, bus holder, slew rate).
pub mod ioblk;

pub use ioblk::{IoConfig, IoblkPad, IOBLK_PD, IOBLK_PU};
use crate::mmio::{field, field_bits, modify32_ops, read_at, read_next, BusOp, Mmio, RegisterBus};
use vstd::prelude::*;

verus! {

pub const FMUX_BASE: usize = 0x0300_1000;

pub const IOBLK_G1_BASE: usize = 0x0300_1800;

pub const IOBLK_G7_BASE: usize = 0x0300_1900;

pub const IOBLK_G10_BASE: usize = 0x0300_1A00;

pub const IOBLK_G12_BASE: usize = 0x0300_1C00;

pub const IOBLK_GRTC_BASE: usize = 0x0502_7000;

/// Width of every `FSEL` field.
pub const FSEL_MASK: u32 = 0x7;

pub const FMUX_SD0_CLK: usize = 0x1c;

pub const FMUX_SD0_CMD: usize = 0x20;

pub const FMUX_SD0_D0: usize = 0x24;

pub const FMUX_SD0_D1: usize = 0x28;

pub const FMUX_SD0_D2: usize = 0x2c;

pub const FMUX_SD0_D3: usize = 0x30;

pub const FMUX_UART0_TX: usize = 0x40;

pub const FMUX_UART0_RX: usize = 0x44;

pub const FMUX_IIC0_SCL: usize = 0x70;

pub const FMUX_IIC0_SDA: usize = 0x74;

pub const FMUX_PWR_GPIO0: usize = 0xa4;

pub const FMUX_PWR_GPIO1: usize = 0xa8;

pub const FMUX_PWR_GPIO2: usize = 0xac;

pub const FMUX_SD1_D3: usize = 0xd0;

pub const FMUX_SD1_D2: usize = 0xd4;

pub const FMUX_SD1_D1: usize = 0xd8;

pub const FMUX_SD1_D0: usize = 0xdc;

pub const FMUX_SD1_CMD: usize = 0xe0;

pub const FMUX_SD1_CLK: usize = 0xe4;

pub const FMUX_AUX0: usize = 0x78;

pub const FMUX_JTAG_CPU_TMS: usize = 0x64;

/// `IOBLK_G7` offset of the UART0 TX pad.
pub const IOBLK_G7_UART0_TX: usize = 0x00C;

/// `IOBLK_G7` offset of the UART0 RX pad.
pub const IOBLK_G7_UART0_RX: usize = 0x010;

/// `FSEL` of SD1_CMD that routes IIC3 SCL.
pub const SD1_CMD_FSEL_IIC3_SCL: u32 = 2;

/// `FSEL` of SD1_CLK that routes IIC3 SDA.
pub const SD1_CLK_FSEL_IIC3_SDA: u32 = 2;

/// `FSEL` of JTAG_CPU_TMS that routes PWM 7.
pub const JTAG_CPU_TMS_FSEL_PWM_7: u32 = 2;

/// Pull resistor of a pad.
#[derive(Debug, Clone, Copy, PartialEq, Eq, Structural)]
pub enum PullConfig {
    NoPull,
    PullUp,
    PullDown,
}

/// Pad output drive strength, weakest first.
#[derive(Debug, Clone, Copy, PartialEq, Eq, Structural)]
pub enum DriveStrength {
    Level0,
    Level1,
    Level2,
    Level3,
    Level4,
    Level5,
    Level6,
    Level7,
}

/// Pad input Schmitt trigger strength.
#[derive(Debug, Clone, Copy, PartialEq, Eq, Structural)]
pub enum SchmittTriggerLevel {
    Level0,
    Level1,
    Level2,
    Level3,
}

/// The pull-up and pull-down bits of `pull`.
pub open spec fn pull_bits(pull: PullConfig) -> u32 {
    match pull {
        PullConfig::NoPull => 0,
        PullConfig::PullUp => IOBLK_PU,
        PullConfig::PullDown => IOBLK_PD,
    }
}

/// The pin multiplexer and the pad configuration blocks.
#[derive(Debug, Clone, Copy)]
pub struct Pinmux {
    fmux: usize,
    ioblk_g1: usize,
    ioblk_g7: usize,
    ioblk_g10: usize,
    ioblk_g12: usize,
    ioblk_grtc: usize,
}

impl Pinmux {
    pub closed spec fn fmux_base(&self) -> usize {
        self.fmux
    }

    pub closed spec fn g7_base(&self) -> usize {
        self.ioblk_g7
    }

    pub closed spec fn g1_base(&self) -> usize {
        self.ioblk_g1
    }

    pub closed spec fn g10_base(&self) -> usize {
        self.ioblk_g10
    }

    pub closed spec fn g12_base(&self) -> usize {
        self.ioblk_g12
    }

    pub closed spec fn grtc_base(&self) -> usize {
        self.ioblk_grtc
    }

    /// The blocks at their SoC addresses.
    pub fn new() -> (p: Self)
        ensures
            p.fmux_base() == FMUX_BASE,
            p.g1_base() == IOBLK_G1_BASE,
            p.g7_base() == IOBLK_G7_BASE,
            p.g10_base() == IOBLK_G10_BASE,
            p.g12_base() == IOBLK_G12_BASE,
            p.grtc_base() == IOBLK_GRTC_BASE,
    {
        Pinmux {
            fmux: FMUX_BASE,
            ioblk_g1: IOBLK_G1_BASE,
            ioblk_g7: IOBLK_G7_BASE,
            ioblk_g10: IOBLK_G10_BASE,
            ioblk_g12: IOBLK_G12_BASE,
            ioblk_grtc: IOBLK_GRTC_BASE,
        }
    }

    /// The blocks at the given (mapped) addresses.
    pub fn from_base_addresses(
        fmux_base: usize,
        ioblk_g1_base: usize,
        ioblk_g7_base: usize,
        ioblk_g10_base: usize,
        ioblk_g12_base: usize,
        ioblk_grtc_base: usize,
    ) -> (p: Self)
        ensures
            p.fmux_base() == fmux_base,
            p.g1_base() == ioblk_g1_base,
            p.g7_base() == ioblk_g7_base,
            p.g10_base() == ioblk_g10_base,
            p.g12_base() == ioblk_g12_base,
            p.grtc_base() == ioblk_grtc_base,
    {
        Pinmux {
            fmux: fmux_base,
            ioblk_g1: ioblk_g1_base,
            ioblk_g7: ioblk_g7_base,
            ioblk_g10: ioblk_g10_base,
            ioblk_g12: ioblk_g12_base,
            ioblk_grtc: ioblk_grtc_base,
        }
    }

    /// Base address of the function-select block.
    pub fn fmux(&self) -> (b: usize)
        ensures
            b == self.fmux_base(),
    {
        self.fmux
    }

    /// Base address of pad group 1.
    pub fn ioblk_g1(&self) -> (b: usize)
        ensures
            b == self.g1_base(),
    {
        self.ioblk_g1
    }

    /// Base address of pad group 7.
    pub fn ioblk_g7(&self) -> (b: usize)
        ensures
            b == self.g7_base(),
    {
        self.ioblk_g7
    }

    /// Base address of pad group 10.
    pub fn ioblk_g10(&self) -> (b: usize)
        ensures
            b == self.g10_base(),
    {
        self.ioblk_g10
    }

    /// Base address of pad group 12.
    pub fn ioblk_g12(&self) -> (b: usize)
        ensures
            b == self.g12_base(),
    {
        self.ioblk_g12
    }

    /// Base address of the RTC pad group.
    pub fn ioblk_grtc(&self) -> (b: usize)
        ensures
            b == self.grtc_base(),
    {
        self.ioblk_grtc
    }

    fn set_fsel<B: RegisterBus>(&self, mmio: &mut Mmio<B>, offset: usize, func: u32)
        ensures
            final(mmio).trace() == old(mmio).trace().push(
                BusOp::Write32 { base: self.fmux_base(), offset, value: field_bits(func, FSEL_MASK, 0) },
            ),
    {
        mmio.write_field32(self.fmux, offset, FSEL_MASK, 0, func);
    }

    fn get_fsel<B: RegisterBus>(&self, mmio: &mut Mmio<B>, offset: usize) -> (v: u32)
        ensures
            read_next(old(mmio).trace(), final(mmio).trace(), self.fmux_base(), offset),
            v == field(read_at(final(mmio).trace(), old(mmio).trace().len() as int), FSEL_MASK, 0),
    {
        mmio.read_field32(self.fmux, offset, FSEL_MASK, 0)
    }

    /// Selects function `func` for the SD0_CLK pad.
    pub fn set_sd0_clk_func<B: RegisterBus>(&self, mmio: &mut Mmio<B>, func: u32)
        ensures
            final(mmio).trace() == old(mmio).trace().push(
                BusOp::Write32 { base: self.fmux_base(), offset: FMUX_SD0_CLK, value: field_bits(func, FSEL_MASK, 0) },
            ),
    {
        self.set_fsel(mmio, FMUX_SD0_CLK, func);
    }

    /// The function selected for the SD0_CLK pad.
    pub fn get_sd0_clk_func<B: RegisterBus>(&self, mmio: &mut Mmio<B>) -> (v: u32)
        ensures
            read_next(old(mmio).trace(), final(mmio).trace(), self.fmux_base(), FMUX_SD0_CLK),
            v == field(read_at(final(mmio).trace(), old(mmio).trace().len() as int), FSEL_MASK, 0),
    {
        self.get_fsel(mmio, FMUX_SD0_CLK)
    }

    /// Selects function `func` for the SD0_CMD pad.
    pub fn set_sd0_cmd_func<B: RegisterBus>(&self, mmio: &mut Mmio<B>, func: u32)
        ensures
            final(mmio).trace() == old(mmio).trace().push(
                BusOp::Write32 { base: self.fmux_base(), offset: FMUX_SD0_CMD, value: field_bits(func, FSEL_MASK, 0) },
            ),
    {
        self.set_fsel(mmio, FMUX_SD0_CMD, func);
    }

    /// The function selected for the SD0_CMD pad.
    pub fn get_sd0_cmd_func<B: RegisterBus>(&self, mmio: &mut Mmio<B>) -> (v: u32)
        ensures
            read_next(old(mmio).trace(), final(mmio).trace(), self.fmux_base(), FMUX_SD0_CMD),
            v == field(read_at(final(mmio).trace(), old(mmio).trace().len() as int), FSEL_MASK, 0),
    {
        self.get_fsel(mmio, FMUX_SD0_CMD)
    }

    /// Selects function `func` for the SD0_D0 pad.
    pub fn set_sd0_d0_func<B: RegisterBus>(&self, mmio: &mut Mmio<B>, func: u32)
        ensures
            final(mmio).trace() == old(mmio).trace().push(
                BusOp::Write32 { base: self.fmux_base(), offset: FMUX_SD0_D0, value: field_bits(func, FSEL_MASK, 0) },
            ),
    {
        self.set_fsel(mmio, FMUX_SD0_D0, func);
    }

    /// The function selected for the SD0_D0 pad.
    pub fn get_sd0_d0_func<B: RegisterBus>(&self, mmio: &mut Mmio<B>) -> (v: u32)
        ensures
            read_next(old(mmio).trace(), final(mmio).trace(), self.fmux_base(), FMUX_SD0_D0),
            v == field(read_at(final(mmio).trace(), old(mmio).trace().len() as int), FSEL_MASK, 0),
    {
        self.get_fsel(mmio, FMUX_SD0_D0)
    }

    /// Selects function `func` for the SD0_D1 pad.
    pub fn set_sd0_d1_func<B: RegisterBus>(&self, mmio: &mut Mmio<B>, func: u32)
        ensures
            final(mmio).trace() == old(mmio).trace().push(
                BusOp::Write32 { base: self.fmux_base(), offset: FMUX_SD0_D1, value: field_bits(func, FSEL_MASK, 0) },
            ),
    {
        self.set_fsel(mmio, FMUX_SD0_D1, func);
    }

    /// The function selected for the SD0_D1 pad.
    pub fn get_sd0_d1_func<B: RegisterBus>(&self, mmio: &mut Mmio<B>) -> (v: u32)
        ensures
            read_next(old(mmio).trace(), final(mmio).trace(), self.fmux_base(), FMUX_SD0_D1),
            v == field(read_at(final(mmio).trace(), old(mmio).trace().len() as int), FSEL_MASK, 0),
    {
        self.get_fsel(mmio, FMUX_SD0_D1)
    }

    /// Selects function `func` for the SD0_D2 pad.
    pub fn set_sd0_d2_func<B: RegisterBus>(&self, mmio: &mut Mmio<B>, func: u32)
        ensures
            final(mmio).trace() == old(mmio).trace().push(
                BusOp::Write32 { base: self.fmux_base(), offset: FMUX_SD0_D2, value: field_bits(func, FSEL_MASK, 0) },
            ),
    {
        self.set_fsel(mmio, FMUX_SD0_D2, func);
    }

    /// The function selected for the SD0_D2 pad.
    pub fn get_sd0_d2_func<B: RegisterBus>(&self, mmio: &mut Mmio<B>) -> (v: u32)
        ensures
            read_next(old(mmio).trace(), final(mmio).trace(), self.fmux_base(), FMUX_SD0_D2),
            v == field(read_at(final(mmio).trace(), old(mmio).trace().len() as int), FSEL_MASK, 0),
    {
        self.get_fsel(mmio, FMUX_SD0_D2)
    }

    /// Selects function `func` for the SD0_D3 pad.
    pub fn set_sd0_d3_func<B: RegisterBus>(&self, mmio: &mut Mmio<B>, func: u32)
        ensures
            final(mmio).trace() == old(mmio).trace().push(
                BusOp::Write32 { base: self.fmux_base(), offset: FMUX_SD0_D3, value: field_bits(func, FSEL_MASK, 0) },
            ),
    {
        self.set_fsel(mmio, FMUX_SD0_D3, func);
    }

    /// The function selected for the SD0_D3 pad.
    pub fn get_sd0_d3_func<B: RegisterBus>(&self, mmio: &mut Mmio<B>) -> (v: u32)
        ensures
            read_next(old(mmio).trace(), final(mmio).trace(), self.fmux_base(), FMUX_SD0_D3),
            v == field(read_at(final(mmio).trace(), old(mmio).trace().len() as int), FSEL_MASK, 0),
    {
        self.get_fsel(mmio, FMUX_SD0_D3)
    }

    /// Selects function `func` for the UART0_TX pad.
    pub fn set_uart0_tx_func<B: RegisterBus>(&self, mmio: &mut Mmio<B>, func: u32)
        ensures
            final(mmio).trace() == old(mmio).trace().push(
                BusOp::Write32 { base: self.fmux_base(), offset: FMUX_UART0_TX, value: field_bits(func, FSEL_MASK, 0) },
            ),
    {
        self.set_fsel(mmio, FMUX_UART0_TX, func);
    }

    /// The function selected for the UART0_TX pad.
    pub fn get_uart0_tx_func<B: RegisterBus>(&self, mmio: &mut Mmio<B>) -> (v: u32)
        ensures
            read_next(old(mmio).trace(), final(mmio).trace(), self.fmux_base(), FMUX_UART0_TX),
            v == field(read_at(final(mmio).trace(), old(mmio).trace().len() as int), FSEL_MASK, 0),
    {
        self.get_fsel(mmio, FMUX_UART0_TX)
    }

    /// Selects function `func` for the UART0_RX pad.
    pub fn set_uart0_rx_func<B: RegisterBus>(&self, mmio: &mut Mmio<B>, func: u32)
        ensures
            final(mmio).trace() == old(mmio).trace().push(
                BusOp::Write32 { base: self.fmux_base(), offset: FMUX_UART0_RX, value: field_bits(func, FSEL_MASK, 0) },
            ),
    {
        self.set_fsel(mmio, FMUX_UART0_RX, func);
    }

    /// The function selected for the UART0_RX pad.
    pub fn get_uart0_rx_func<B: RegisterBus>(&self, mmio: &mut Mmio<B>) -> (v: u32)
        ensures
            read_next(old(mmio).trace(), final(mmio).trace(), self.fmux_base(), FMUX_UART0_RX),
            v == field(read_at(final(mmio).trace(), old(mmio).trace().len() as int), FSEL_MASK, 0),
    {
        self.get_fsel(mmio, FMUX_UART0_RX)
    }

    /// Selects function `func` for the IIC0_SCL pad.
    pub fn set_iic0_scl_func<B: RegisterBus>(&self, mmio: &mut Mmio<B>, func: u32)
        ensures
            final(mmio).trace() == old(mmio).trace().push(
                BusOp::Write32 { base: self.fmux_base(), offset: FMUX_IIC0_SCL, value: field_bits(func, FSEL_MASK, 0) },
            ),
    {
        self.set_fsel(mmio, FMUX_IIC0_SCL, func);
    }

    /// The function selected for the IIC0_SCL pad.
    pub fn get_iic0_scl_func<B: RegisterBus>(&self, mmio: &mut Mmio<B>) -> (v: u32)
        ensures
            read_next(old(mmio).trace(), final(mmio).trace(), self.fmux_base(), FMUX_IIC0_SCL),
            v == field(read_at(final(mmio).trace(), old(mmio).trace().len() as int), FSEL_MASK, 0),
    {
        self.get_fsel(mmio, FMUX_IIC0_SCL)
    }

    /// Selects function `func` for the IIC0_SDA pad.
    pub fn set_iic0_sda_func<B: RegisterBus>(&self, mmio: &mut Mmio<B>, func: u32)
        ensures
            final(mmio).trace() == old(mmio).trace().push(
                BusOp::Write32 { base: self.fmux_base(), offset: FMUX_IIC0_SDA, value: field_bits(func, FSEL_MASK, 0) },
            ),
    {
        self.set_fsel(mmio, FMUX_IIC0_SDA, func);
    }

    /// The function selected for the IIC0_SDA pad.
    pub fn get_iic0_sda_func<B: RegisterBus>(&self, mmio: &mut Mmio<B>) -> (v: u32)
        ensures
            read_next(old(mmio).trace(), final(mmio).trace(), self.fmux_base(), FMUX_IIC0_SDA),
            v == field(read_at(final(mmio).trace(), old(mmio).trace().len() as int), FSEL_MASK, 0),
    {
        self.get_fsel(mmio, FMUX_IIC0_SDA)
    }

    /// Selects function `func` for the PWR_GPIO0 pad.
    pub fn set_pwr_gpio0_func<B: RegisterBus>(&self, mmio: &mut Mmio<B>, func: u32)
        ensures
            final(mmio).trace() == old(mmio).trace().push(
                BusOp::Write32 { base: self.fmux_base(), offset: FMUX_PWR_GPIO0, value: field_bits(func, FSEL_MASK, 0) },
            ),
    {
        self.set_fsel(mmio, FMUX_PWR_GPIO0, func);
    }

    /// The function selected for the PWR_GPIO0 pad.
    pub fn get_pwr_gpio0_func<B: RegisterBus>(&self, mmio: &mut Mmio<B>) -> (v: u32)
        ensures
            read_next(old(mmio).trace(), final(mmio).trace(), self.fmux_base(), FMUX_PWR_GPIO0),
            v == field(read_at(final(mmio).trace(), old(mmio).trace().len() as int), FSEL_MASK, 0),
    {
        self.get_fsel(mmio, FMUX_PWR_GPIO0)
    }

    /// Selects function `func` for the PWR_GPIO1 pad.
    pub fn set_pwr_gpio1_func<B: RegisterBus>(&self, mmio: &mut Mmio<B>, func: u32)
        ensures
            final(mmio).trace() == old(mmio).trace().push(
                BusOp::Write32 { base: self.fmux_base(), offset: FMUX_PWR_GPIO1, value: field_bits(func, FSEL_MASK, 0) },
            ),
    {
        self.set_fsel(mmio, FMUX_PWR_GPIO1, func);
    }

    /// The function selected for the PWR_GPIO1 pad.
    pub fn get_pwr_gpio1_func<B: RegisterBus>(&self, mmio: &mut Mmio<B>) -> (v: u32)
        ensures
            read_next(old(mmio).trace(), final(mmio).trace(), self.fmux_base(), FMUX_PWR_GPIO1),
            v == field(read_at(final(mmio).trace(), old(mmio).trace().len() as int), FSEL_MASK, 0),
    {
        self.get_fsel(mmio, FMUX_PWR_GPIO1)
    }

    /// Selects function `func` for the PWR_GPIO2 pad.
    pub fn set_pwr_gpio2_func<B: RegisterBus>(&self, mmio: &mut Mmio<B>, func: u32)
        ensures
            final(mmio).trace() == old(mmio).trace().push(
                BusOp::Write32 { base: self.fmux_base(), offset: FMUX_PWR_GPIO2, value: field_bits(func, FSEL_MASK, 0) },
            ),
    {
        self.set_fsel(mmio, FMUX_PWR_GPIO2, func);
    }

    /// The function selected for the PWR_GPIO2 pad.
    pub fn get_pwr_gpio2_func<B: RegisterBus>(&self, mmio: &mut Mmio<B>) -> (v: u32)
        ensures
            read_next(old(mmio).trace(), final(mmio).trace(), self.fmux_base(), FMUX_PWR_GPIO2),
            v == field(read_at(final(mmio).trace(), old(mmio).trace().len() as int), FSEL_MASK, 0),
    {
        self.get_fsel(mmio, FMUX_PWR_GPIO2)
    }

    /// Selects function `func` for the SD1_D3 pad.
    pub fn set_sd1_d3_func<B: RegisterBus>(&self, mmio: &mut Mmio<B>, func: u32)
        ensures
            final(mmio).trace() == old(mmio).trace().push(
                BusOp::Write32 { base: self.fmux_base(), offset: FMUX_SD1_D3, value: field_bits(func, FSEL_MASK, 0) },
            ),
    {
        self.set_fsel(mmio, FMUX_SD1_D3, func);
    }

    /// The function selected for the SD1_D3 pad.
    pub fn get_sd1_d3_func<B: RegisterBus>(&self, mmio: &mut Mmio<B>) -> (v: u32)
        ensures
            read_next(old(mmio).trace(), final(mmio).trace(), self.fmux_base(), FMUX_SD1_D3),
            v == field(read_at(final(mmio).trace(), old(mmio).trace().len() as int), FSEL_MASK, 0),
    {
        self.get_fsel(mmio, FMUX_SD1_D3)
    }

    /// Selects function `func` for the SD1_D2 pad.
    pub fn set_sd1_d2_func<B: RegisterBus>(&self, mmio: &mut Mmio<B>, func: u32)
        ensures
            final(mmio).trace() == old(mmio).trace().push(
                BusOp::Write32 { base: self.fmux_base(), offset: FMUX_SD1_D2, value: field_bits(func, FSEL_MASK, 0) },
            ),
    {
        self.set_fsel(mmio, FMUX_SD1_D2, func);
    }

    /// The function selected for the SD1_D2 pad.
    pub fn get_sd1_d2_func<B: RegisterBus>(&self, mmio: &mut Mmio<B>) -> (v: u32)
        ensures
            read_next(old(mmio).trace(), final(mmio).trace(), self.fmux_base(), FMUX_SD1_D2),
            v == field(read_at(final(mmio).trace(), old(mmio).trace().len() as int), FSEL_MASK, 0),
    {
        self.get_fsel(mmio, FMUX_SD1_D2)
    }

    /// Selects function `func` for the SD1_D1 pad.
    pub fn set_sd1_d1_func<B: RegisterBus>(&self, mmio: &mut Mmio<B>, func: u32)
        ensures
            final(mmio).trace() == old(mmio).trace().push(
                BusOp::Write32 { base: self.fmux_base(), offset: FMUX_SD1_D1, value: field_bits(func, FSEL_MASK, 0) },
            ),
    {
        self.set_fsel(mmio, FMUX_SD1_D1, func);
    }

    /// The function selected for the SD1_D1 pad.
    pub fn get_sd1_d1_func<B: RegisterBus>(&self, mmio: &mut Mmio<B>) -> (v: u32)
        ensures
            read_next(old(mmio).trace(), final(mmio).trace(), self.fmux_base(), FMUX_SD1_D1),
            v == field(read_at(final(mmio).trace(), old(mmio).trace().len() as int), FSEL_MASK, 0),
    {
        self.get_fsel(mmio, FMUX_SD1_D1)
    }

    /// Selects function `func` for the SD1_D0 pad.
    pub fn set_sd1_d0_func<B: RegisterBus>(&self, mmio: &mut Mmio<B>, func: u32)
        ensures
            final(mmio).trace() == old(mmio).trace().push(
                BusOp::Write32 { base: self.fmux_base(), offset: FMUX_SD1_D0, value: field_bits(func, FSEL_MASK, 0) },
            ),
    {
        self.set_fsel(mmio, FMUX_SD1_D0, func);
    }

    /// The function selected for the SD1_D0 pad.
    pub fn get_sd1_d0_func<B: RegisterBus>(&self, mmio: &mut Mmio<B>) -> (v: u32)
        ensures
            read_next(old(mmio).trace(), final(mmio).trace(), self.fmux_base(), FMUX_SD1_D0),
            v == field(read_at(final(mmio).trace(), old(mmio).trace().len() as int), FSEL_MASK, 0),
    {
        self.get_fsel(mmio, FMUX_SD1_D0)
    }

    /// Selects function `func` for the SD1_CMD pad.
    pub fn set_sd1_cmd_func<B: RegisterBus>(&self, mmio: &mut Mmio<B>, func: u32)
        ensures
            final(mmio).trace() == old(mmio).trace().push(
                BusOp::Write32 { base: self.fmux_base(), offset: FMUX_SD1_CMD, value: field_bits(func, FSEL_MASK, 0) },
            ),
    {
        self.set_fsel(mmio, FMUX_SD1_CMD, func);
    }

    /// The function selected for the SD1_CMD pad.
    pub fn get_sd1_cmd_func<B: RegisterBus>(&self, mmio: &mut Mmio<B>) -> (v: u32)
        ensures
            read_next(old(mmio).trace(), final(mmio).trace(), self.fmux_base(), FMUX_SD1_CMD),
            v == field(read_at(final(mmio).trace(), old(mmio).trace().len() as int), FSEL_MASK, 0),
    {
        self.get_fsel(mmio, FMUX_SD1_CMD)
    }

    /// Selects function `func` for the SD1_CLK pad.
    pub fn set_sd1_clk_func<B: RegisterBus>(&self, mmio: &mut Mmio<B>, func: u32)
        ensures
            final(mmio).trace() == old(mmio).trace().push(
                BusOp::Write32 { base: self.fmux_base(), offset: FMUX_SD1_CLK, value: field_bits(func, FSEL_MASK, 0) },
            ),
    {
        self.set_fsel(mmio, FMUX_SD1_CLK, func);
    }

    /// The function selected for the SD1_CLK pad.
    pub fn get_sd1_clk_func<B: RegisterBus>(&self, mmio: &mut Mmio<B>) -> (v: u32)
        ensures
            read_next(old(mmio).trace(), final(mmio).trace(), self.fmux_base(), FMUX_SD1_CLK),
            v == field(read_at(final(mmio).trace(), old(mmio).trace().len() as int), FSEL_MASK, 0),
    {
        self.get_fsel(mmio, FMUX_SD1_CLK)
    }

    /// The function selected for the AUX0 pad.
    pub fn get_aux0_input<B: RegisterBus>(&self, mmio: &mut Mmio<B>) -> (v: u32)
        ensures
            read_next(old(mmio).trace(), final(mmio).trace(), self.fmux_base(), FMUX_AUX0),
            v == field(read_at(final(mmio).trace(), old(mmio).trace().len() as int), FSEL_MASK, 0),
    {
        self.get_fsel(mmio, FMUX_AUX0)
    }

    fn set_g7_pull<B: RegisterBus>(&self, mmio: &mut Mmio<B>, offset: usize, pull: PullConfig)
        ensures
            final(mmio).trace() == old(mmio).trace() + modify32_ops(
                self.g7_base(),
                offset,
                read_at(final(mmio).trace(), old(mmio).trace().len() as int),
                IOBLK_PU | IOBLK_PD,
                pull_bits(pull),
            ),
    {
        let set = match pull {
            PullConfig::NoPull => 0,
            PullConfig::PullUp => IOBLK_PU,
            PullConfig::PullDown => IOBLK_PD,
        };
        let v = mmio.modify32(self.ioblk_g7, offset, IOBLK_PU | IOBLK_PD, set);
        assert(read_at(mmio.trace(), old(mmio).trace().len() as int) == v);
    }

    /// Sets the pull resistor of the UART0 TX pad.
    pub fn set_uart0_tx_pull<B: RegisterBus>(&self, mmio: &mut Mmio<B>, pull: PullConfig)
        ensures
            final(mmio).trace() == old(mmio).trace() + modify32_ops(
                self.g7_base(),
                IOBLK_G7_UART0_TX,
                read_at(final(mmio).trace(), old(mmio).trace().len() as int),
                IOBLK_PU | IOBLK_PD,
                pull_bits(pull),
            ),
    {
        self.set_g7_pull(mmio, IOBLK_G7_UART0_TX, pull);
    }

    /// Sets the pull resistor of the UART0 RX pad.
    pub fn set_uart0_rx_pull<B: RegisterBus>(&self, mmio: &mut Mmio<B>, pull: PullConfig)
        ensures
            final(mmio).trace() == old(mmio).trace() + modify32_ops(
                self.g7_base(),
                IOBLK_G7_UART0_RX,
                read_at(final(mmio).trace(), old(mmio).trace().len() as int),
                IOBLK_PU | IOBLK_PD,
                pull_bits(pull),
            ),
    {
        self.set_g7_pull(mmio, IOBLK_G7_UART0_RX, pull);
    }

    /// Routes IIC3 SCL to the SD1_CMD pad.
    pub fn set_iic3_scl_on_sd1_cmd<B: RegisterBus>(&self, mmio: &mut Mmio<B>)
        ensures
            final(mmio).trace() == old(mmio).trace().push(
                BusOp::Write32 { base: self.fmux_base(), offset: FMUX_SD1_CMD, value: field_bits(SD1_CMD_FSEL_IIC3_SCL, FSEL_MASK, 0) },
            ),
    {
        self.set_fsel(mmio, FMUX_SD1_CMD, SD1_CMD_FSEL_IIC3_SCL);
    }

    /// Routes IIC3 SDA to the SD1_CLK pad.
    pub fn set_iic3_sda_on_sd1_clk<B: RegisterBus>(&self, mmio: &mut Mmio<B>)
        ensures
            final(mmio).trace() == old(mmio).trace().push(
                BusOp::Write32 { base: self.fmux_base(), offset: FMUX_SD1_CLK, value: field_bits(SD1_CLK_FSEL_IIC3_SDA, FSEL_MASK, 0) },
            ),
    {
        self.set_fsel(mmio, FMUX_SD1_CLK, SD1_CLK_FSEL_IIC3_SDA);
    }

    /// Routes IIC3 to the SD1_CMD (SCL) and SD1_CLK (SDA) pads.
    pub fn setup_iic3_pins<B: RegisterBus>(&self, mmio: &mut Mmio<B>)
        ensures
            final(mmio).trace() == old(mmio).trace() + seq![
                BusOp::Write32 { base: self.fmux_base(), offset: FMUX_SD1_CMD, value: field_bits(SD1_CMD_FSEL_IIC3_SCL, FSEL_MASK, 0) },
                BusOp::Write32 { base: self.fmux_base(), offset: FMUX_SD1_CLK, value: field_bits(SD1_CLK_FSEL_IIC3_SDA, FSEL_MASK, 0) },
            ],
    {
        self.set_iic3_scl_on_sd1_cmd(mmio);
        self.set_iic3_sda_on_sd1_clk(mmio);
        assert(mmio.trace() =~= old(mmio).trace() + seq![
            BusOp::Write32 { base: self.fmux, offset: FMUX_SD1_CMD, value: field_bits(SD1_CMD_FSEL_IIC3_SCL, FSEL_MASK, 0) },
            BusOp::Write32 { base: self.fmux, offset: FMUX_SD1_CLK, value: field_bits(SD1_CLK_FSEL_IIC3_SDA, FSEL_MASK, 0) },
        ]);
    }

    /// Routes IIC3 to the SD1 pads.
    pub fn set_iic3<B: RegisterBus>(&self, mmio: &mut Mmio<B>)
        ensures
            final(mmio).trace() == old(mmio).trace() + seq![
                BusOp::Write32 { base: self.fmux_base(), offset: FMUX_SD1_CMD, value: field_bits(SD1_CMD_FSEL_IIC3_SCL, FSEL_MASK, 0) },
                BusOp::Write32 { base: self.fmux_base(), offset: FMUX_SD1_CLK, value: field_bits(SD1_CLK_FSEL_IIC3_SDA, FSEL_MASK, 0) },
            ],
    {
        self.setup_iic3_pins(mmio);
    }

    /// Routes PWM 7 to the JTAG_CPU_TMS pad.
    pub fn set_pwm_7<B: RegisterBus>(&self, mmio: &mut Mmio<B>)
        ensures
            final(mmio).trace() == old(mmio).trace().push(
                BusOp::Write32 { base: self.fmux_base(), offset: FMUX_JTAG_CPU_TMS, value: field_bits(JTAG_CPU_TMS_FSEL_PWM_7, FSEL_MASK, 0) },
            ),
    {
        self.set_fsel(mmio, FMUX_JTAG_CPU_TMS, JTAG_CPU_TMS_FSEL_PWM_7);
    }
}

} // verus!
