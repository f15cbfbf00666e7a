use std::collections::HashMap;

use sg200x_bsp::gpio::GPIO;
use sg200x_bsp::mmio::{Mmio, RegisterBus};
use sg200x_bsp::pinmux::{Pinmux, FMUX_SD1_CLK, FMUX_SD1_CMD};
use sg200x_bsp::pwm::consts::{PwmChannel, PwmError, PwmPolarity};
use sg200x_bsp::pwm::instances::PwmInstance;
use sg200x_bsp::pwm::Pwm;
use sg200x_bsp::rstc::{Rstc, RSTC_BASE, SOFT_CPU_RSTN};
use sg200x_bsp::soc::FMUX_BASE;

/// A register file: reads give what was last written (zero before).
struct FakeBus {
    regs: HashMap<(usize, usize), u64>,
}

impl RegisterBus for FakeBus {
    fn read32(&mut self, base: usize, offset: usize) -> u32 {
        *self.regs.get(&(base, offset)).unwrap_or(&0) as u32
    }
    fn write32(&mut self, base: usize, offset: usize, value: u32) {
        self.regs.insert((base, offset), value as u64);
    }
    fn read64(&mut self, base: usize, offset: usize) -> u64 {
        *self.regs.get(&(base, offset)).unwrap_or(&0)
    }
    fn write64(&mut self, base: usize, offset: usize, value: u64) {
        self.regs.insert((base, offset), value);
    }
    fn delay(&mut self, _units: u32) {}
    fn copy_to_phys(&mut self, _addr: usize, _data: &[u8], _len: usize) {}
    fn dcache_clean(&mut self, _addr: usize, _len: usize) {}
    fn dcache_invalidate(&mut self, _addr: usize, _len: usize) {}
    fn dma_address(&mut self, cpu_addr: usize) -> usize {
        cpu_addr
    }
    fn instruction_fence(&mut self) {}
    fn memory_fence(&mut self) {}
    fn copy_from_phys(&mut self, _addr: usize, len: usize) -> Vec<u8> {
        vec![0; len]
    }
}

fn mmio() -> Mmio<FakeBus> {
    Mmio::new(FakeBus { regs: HashMap::new() })
}

#[test]
fn pwm_one_kilohertz_half_duty() {
    let mut m = mmio();
    let mut pwm = Pwm::new(PwmInstance::Pwm0);
    assert_eq!(pwm.clock_frequency(), 100_000_000);
    assert_eq!(pwm.configure_channel(&mut m, PwmChannel::Channel0, 1_000, 50, PwmPolarity::ActiveHigh), Ok(()));
    assert_eq!(pwm.get_period_raw(&mut m, PwmChannel::Channel0), 100_000);
    assert_eq!(pwm.get_hlperiod_raw(&mut m, PwmChannel::Channel0), 50_000);
    assert_eq!(pwm.get_polarity(&mut m, PwmChannel::Channel0), PwmPolarity::ActiveHigh);
}

#[test]
fn pwm_rejects_bad_frequency_and_duty() {
    let mut m = mmio();
    let mut pwm = Pwm::new(PwmInstance::Pwm1);
    assert_eq!(
        pwm.configure_channel(&mut m, PwmChannel::Channel1, 0, 50, PwmPolarity::ActiveHigh),
        Err(PwmError::InvalidPeriod)
    );
    assert_eq!(
        pwm.configure_channel(&mut m, PwmChannel::Channel1, 1_000, 101, PwmPolarity::ActiveHigh),
        Err(PwmError::InvalidDutyCycle)
    );
    assert_eq!(
        pwm.configure_channel(&mut m, PwmChannel::Channel1, 100_000_000, 50, PwmPolarity::ActiveHigh),
        Err(PwmError::InvalidPeriod)
    );
}

#[test]
fn pinmux_routes_iic3_to_sd1_pads() {
    let mut m = mmio();
    let pinmux = Pinmux::new();
    pinmux.setup_iic3_pins(&mut m);
    assert_eq!(m.read32(FMUX_BASE, FMUX_SD1_CMD) & 0x7, 2);
    assert_eq!(m.read32(FMUX_BASE, FMUX_SD1_CLK) & 0x7, 2);
}

#[test]
fn gpio_pin_direction_and_level() {
    let mut m = mmio();
    let gpio = GPIO::new(0x0302_0000);
    let pin = gpio.pin(3);
    pin.into_output(&mut m);
    assert_eq!(m.read32(0x0302_0000, 0x004), 0x8);
    pin.set(&mut m, true);
    assert_eq!(m.read32(0x0302_0000, 0x000), 0x8);
    m.write32(0x0302_0000, 0x050, 0x8);
    assert!(pin.is_high(&mut m));
    m.write32(0x0302_0000, 0x050, 0x0);
    assert!(pin.is_low(&mut m));
}

#[test]
fn rstc_core_reset_bits() {
    let mut m = mmio();
    let rstc = Rstc::new();
    m.write32(RSTC_BASE, SOFT_CPU_RSTN, 0xffff_ffff);
    rstc.assert_cpu_core_reset(&mut m, 2);
    assert_eq!(m.read32(RSTC_BASE, SOFT_CPU_RSTN), 0xffff_fffb);
    rstc.release_cpu_core_reset(&mut m, 2);
    assert_eq!(m.read32(RSTC_BASE, SOFT_CPU_RSTN), 0xffff_ffff);
}
