//! GPIO controllers (DesignWare APB GPIO): port-wide and per-pin direction,
//! level, interrupt and debounce control.
pub use crate::soc::{GPIO0_BASE, GPIO1_BASE, GPIO2_BASE, GPIO3_BASE, RTCSYS_GPIO_BASE};
use crate::mmio::{bits_rw, read_at, read_next, BusOp, Mmio, RegisterBus};
use vstd::prelude::*;

verus! {

pub const GPIO_SWPORTA_DR: usize = 0x000;

pub const GPIO_SWPORTA_DDR: usize = 0x004;

pub const GPIO_INTEN: usize = 0x030;

pub const GPIO_INTMASK: usize = 0x034;

pub const GPIO_INTTYPE_LEVEL: usize = 0x038;

pub const GPIO_INT_POLARITY: usize = 0x03c;

pub const GPIO_INTSTATUS: usize = 0x040;

pub const GPIO_RAW_INTSTATUS: usize = 0x044;

pub const GPIO_DEBOUNCE: usize = 0x048;

pub const GPIO_PORTA_EOI: usize = 0x04c;

pub const GPIO_EXT_PORTA: usize = 0x050;

pub const GPIO_LS_SYNC: usize = 0x060;

#[derive(Debug, Clone, Copy, PartialEq, Eq, Structural)]
pub enum Direction {
    Input,
    Output,
}

#[derive(Debug, Clone, Copy, PartialEq, Eq, Structural)]
pub enum InterruptType {
    LowLevel,
    HighLevel,
    FallingEdge,
    RisingEdge,
}

/// Edge-triggered (rather than level-triggered).
pub open spec fn is_edge(t: InterruptType) -> bool {
    t == InterruptType::FallingEdge || t == InterruptType::RisingEdge
}

/// Triggered by a high level or a rising edge.
pub open spec fn is_high_or_rising(t: InterruptType) -> bool {
    t == InterruptType::HighLevel || t == InterruptType::RisingEdge
}

/// The value read by the first access `old` gained.
pub open spec fn first_read(old: Seq<BusOp>, new: Seq<BusOp>) -> u32 {
    read_at(new, old.len() as int)
}

/// A GPIO controller of 32 pins.
#[derive(Clone, Copy, Debug)]
pub struct GPIO {
    base: usize,
}

impl GPIO {
    pub closed spec fn base(&self) -> usize {
        self.base
    }

    /// The controller whose registers are at `base`.
    pub fn new(base: usize) -> (g: Self)
        ensures
            g.base() == base,
    {
        GPIO { base }
    }

    /// Base address of the controller's register block.
    pub fn registers(&self) -> (b: usize)
        ensures
            b == self.base(),
    {
        self.base
    }

    /// Pin `index` of the controller.
    pub fn pin(&self, index: u8) -> (p: GPIOPin)
        requires
            index < 32,
        ensures
            p.base() == self.base(),
            p.index_spec() == index,
    {
        GPIOPin { base: self.base, index }
    }

    /// Sets the direction of all pins (1 = output).
    pub fn set_direction<B: RegisterBus>(&self, mmio: &mut Mmio<B>, dirs: u32)
        ensures
            final(mmio).trace() == old(mmio).trace().push(
                BusOp::Write32 { base: self.base(), offset: GPIO_SWPORTA_DDR, value: dirs },
            ),
    {
        mmio.write32(self.base, GPIO_SWPORTA_DDR, dirs);
    }

    /// The direction of all pins (1 = output).
    pub fn get_direction<B: RegisterBus>(&self, mmio: &mut Mmio<B>) -> (v: u32)
        ensures
            read_next(old(mmio).trace(), final(mmio).trace(), self.base(), GPIO_SWPORTA_DDR),
            v == first_read(old(mmio).trace(), final(mmio).trace()),
    {
        let v = mmio.read32(self.base, GPIO_SWPORTA_DDR);
        assert(read_at(mmio.trace(), old(mmio).trace().len() as int) == v);
        v
    }

    /// Drives the output levels of all pins.
    pub fn write_port<B: RegisterBus>(&self, mmio: &mut Mmio<B>, value: u32)
        ensures
            final(mmio).trace() == old(mmio).trace().push(
                BusOp::Write32 { base: self.base(), offset: GPIO_SWPORTA_DR, value },
            ),
    {
        mmio.write32(self.base, GPIO_SWPORTA_DR, value);
    }

    /// The input levels of all pins.
    pub fn read_port<B: RegisterBus>(&self, mmio: &mut Mmio<B>) -> (v: u32)
        ensures
            read_next(old(mmio).trace(), final(mmio).trace(), self.base(), GPIO_EXT_PORTA),
            v == first_read(old(mmio).trace(), final(mmio).trace()),
    {
        let v = mmio.read32(self.base, GPIO_EXT_PORTA);
        assert(read_at(mmio.trace(), old(mmio).trace().len() as int) == v);
        v
    }

    /// Acknowledges every pending edge interrupt.
    pub fn clear_all_interrupts<B: RegisterBus>(&self, mmio: &mut Mmio<B>)
        ensures
            final(mmio).trace() == old(mmio).trace().push(
                BusOp::Write32 { base: self.base(), offset: GPIO_PORTA_EOI, value: 0xFFFF_FFFF },
            ),
    {
        mmio.write32(self.base, GPIO_PORTA_EOI, 0xFFFF_FFFF);
    }

    /// The masked interrupt status of all pins.
    pub fn get_interrupt_status<B: RegisterBus>(&self, mmio: &mut Mmio<B>) -> (v: u32)
        ensures
            read_next(old(mmio).trace(), final(mmio).trace(), self.base(), GPIO_INTSTATUS),
            v == first_read(old(mmio).trace(), final(mmio).trace()),
    {
        let v = mmio.read32(self.base, GPIO_INTSTATUS);
        assert(read_at(mmio.trace(), old(mmio).trace().len() as int) == v);
        v
    }

    /// The raw (unmasked) interrupt status of all pins.
    pub fn get_raw_interrupt_status<B: RegisterBus>(&self, mmio: &mut Mmio<B>) -> (v: u32)
        ensures
            read_next(old(mmio).trace(), final(mmio).trace(), self.base(), GPIO_RAW_INTSTATUS),
            v == first_read(old(mmio).trace(), final(mmio).trace()),
    {
        let v = mmio.read32(self.base, GPIO_RAW_INTSTATUS);
        assert(read_at(mmio.trace(), old(mmio).trace().len() as int) == v);
        v
    }

    /// Synchronises level-sensitive interrupts to the peripheral clock, or not.
    pub fn set_level_sync<B: RegisterBus>(&self, mmio: &mut Mmio<B>, enable: bool)
        ensures
            final(mmio).trace() == old(mmio).trace().push(
                BusOp::Write32 {
                    base: self.base(),
                    offset: GPIO_LS_SYNC,
                    value: if enable {
                        1u32
                    } else {
                        0u32
                    },
                },
            ),
    {
        mmio.write32(
            self.base,
            GPIO_LS_SYNC,
            if enable {
                1
            } else {
                0
            },
        );
    }
}

/// One pin of a GPIO controller.
#[derive(Clone, Copy, Debug)]
pub struct GPIOPin {
    base: usize,
    index: u8,
}

impl GPIOPin {
    pub closed spec fn base(&self) -> usize {
        self.base
    }

    pub closed spec fn index_spec(&self) -> u8 {
        self.index
    }

    /// The pin's bit in the port registers: `1 << index`.
    pub closed spec fn bit(&self) -> u32 {
        1u32 << self.index
    }

    pub closed spec fn wf(&self) -> bool {
        self.index < 32
    }

    fn mask(&self) -> (m: u32)
        requires
            self.wf(),
        ensures
            m == self.bit(),
    {
        1u32 << self.index
    }

    /// The pin number, 0 to 31.
    pub fn index(&self) -> (i: u8)
        ensures
            i == self.index_spec(),
    {
        self.index
    }

    /// Makes the pin an input or an output.
    pub fn set_direction<B: RegisterBus>(&self, mmio: &mut Mmio<B>, direction: Direction)
        requires
            self.wf(),
        ensures
            bits_rw(
                old(mmio).trace(),
                final(mmio).trace(),
                self.base(),
                GPIO_SWPORTA_DDR,
                self.bit(),
                direction == Direction::Output,
            ),
    {
        let on = match direction {
            Direction::Input => false,
            Direction::Output => true,
        };
        mmio.update_bits32(self.base, GPIO_SWPORTA_DDR, self.mask(), on);
    }

    /// The pin's direction.
    pub fn get_direction<B: RegisterBus>(&self, mmio: &mut Mmio<B>) -> (d: Direction)
        requires
            self.wf(),
        ensures
            read_next(old(mmio).trace(), final(mmio).trace(), self.base(), GPIO_SWPORTA_DDR),
            (d == Direction::Output) == (first_read(old(mmio).trace(), final(mmio).trace())
                & self.bit() != 0),
    {
        let v = mmio.read32(self.base, GPIO_SWPORTA_DDR);
        assert(read_at(mmio.trace(), old(mmio).trace().len() as int) == v);
        if v & self.mask() != 0 {
            Direction::Output
        } else {
            Direction::Input
        }
    }

    pub fn into_input<B: RegisterBus>(&self, mmio: &mut Mmio<B>)
        requires
            self.wf(),
        ensures
            bits_rw(old(mmio).trace(), final(mmio).trace(), self.base(), GPIO_SWPORTA_DDR, self.bit(), false),
    {
        self.set_direction(mmio, Direction::Input);
    }

    pub fn into_output<B: RegisterBus>(&self, mmio: &mut Mmio<B>)
        requires
            self.wf(),
        ensures
            bits_rw(old(mmio).trace(), final(mmio).trace(), self.base(), GPIO_SWPORTA_DDR, self.bit(), true),
    {
        self.set_direction(mmio, Direction::Output);
    }

    /// Drives the pin high or low.
    pub fn set<B: RegisterBus>(&self, mmio: &mut Mmio<B>, high: bool)
        requires
            self.wf(),
        ensures
            bits_rw(old(mmio).trace(), final(mmio).trace(), self.base(), GPIO_SWPORTA_DR, self.bit(), high),
    {
        mmio.update_bits32(self.base, GPIO_SWPORTA_DR, self.mask(), high);
    }

    /// Inverts the driven level of the pin.
    pub fn toggle<B: RegisterBus>(&self, mmio: &mut Mmio<B>)
        requires
            self.wf(),
        ensures
            ({
                let raw = first_read(old(mmio).trace(), final(mmio).trace());
                final(mmio).trace() == old(mmio).trace() + seq![
                    BusOp::Read32 { base: self.base(), offset: GPIO_SWPORTA_DR, value: raw },
                    BusOp::Write32 { base: self.base(), offset: GPIO_SWPORTA_DR, value: raw ^ self.bit() },
                ]
            }),
    {
        let mask = self.mask();
        let current = mmio.read32(self.base, GPIO_SWPORTA_DR);
        mmio.write32(self.base, GPIO_SWPORTA_DR, current ^ mask);
        assert(read_at(mmio.trace(), old(mmio).trace().len() as int) == current);
        assert(mmio.trace() =~= old(mmio).trace() + seq![
            BusOp::Read32 { base: self.base, offset: GPIO_SWPORTA_DR, value: current },
            BusOp::Write32 { base: self.base, offset: GPIO_SWPORTA_DR, value: current ^ mask },
        ]);
    }

    /// The input level of the pin.
    pub fn read<B: RegisterBus>(&self, mmio: &mut Mmio<B>) -> (b: bool)
        requires
            self.wf(),
        ensures
            read_next(old(mmio).trace(), final(mmio).trace(), self.base(), GPIO_EXT_PORTA),
            b == (first_read(old(mmio).trace(), final(mmio).trace()) & self.bit() != 0),
    {
        let v = mmio.read32(self.base, GPIO_EXT_PORTA);
        assert(read_at(mmio.trace(), old(mmio).trace().len() as int) == v);
        v & self.mask() != 0
    }

    pub fn is_high<B: RegisterBus>(&self, mmio: &mut Mmio<B>) -> (b: bool)
        requires
            self.wf(),
        ensures
            read_next(old(mmio).trace(), final(mmio).trace(), self.base(), GPIO_EXT_PORTA),
            b == (first_read(old(mmio).trace(), final(mmio).trace()) & self.bit() != 0),
    {
        self.read(mmio)
    }

    pub fn is_low<B: RegisterBus>(&self, mmio: &mut Mmio<B>) -> (b: bool)
        requires
            self.wf(),
        ensures
            read_next(old(mmio).trace(), final(mmio).trace(), self.base(), GPIO_EXT_PORTA),
            b == (first_read(old(mmio).trace(), final(mmio).trace()) & self.bit() == 0),
    {
        !self.read(mmio)
    }

    /// Selects level or edge triggering, and the active level or edge.
    pub fn configure_interrupt<B: RegisterBus>(&self, mmio: &mut Mmio<B>, int_type: InterruptType)
        requires
            self.wf(),
        ensures
            ({
                let mid = final(mmio).trace().take(old(mmio).trace().len() + 2int);
                &&& final(mmio).trace().len() == old(mmio).trace().len() + 4
                &&& bits_rw(old(mmio).trace(), mid, self.base(), GPIO_INTTYPE_LEVEL, self.bit(), is_edge(int_type))
                &&& bits_rw(mid, final(mmio).trace(), self.base(), GPIO_INT_POLARITY, self.bit(), is_high_or_rising(int_type))
            }),
    {
        let (edge, high) = match int_type {
            InterruptType::LowLevel => (false, false),
            InterruptType::HighLevel => (false, true),
            InterruptType::FallingEdge => (true, false),
            InterruptType::RisingEdge => (true, true),
        };
        let ghost t0 = mmio.trace();
        mmio.update_bits32(self.base, GPIO_INTTYPE_LEVEL, self.mask(), edge);
        let ghost t1 = mmio.trace();
        mmio.update_bits32(self.base, GPIO_INT_POLARITY, self.mask(), high);
        assert(mmio.trace().take(t0.len() + 2int) =~= t1);
    }

    /// Enables or disables the pin's interrupt.
    pub fn set_interrupt<B: RegisterBus>(&self, mmio: &mut Mmio<B>, enable: bool)
        requires
            self.wf(),
        ensures
            bits_rw(old(mmio).trace(), final(mmio).trace(), self.base(), GPIO_INTEN, self.bit(), enable),
    {
        mmio.update_bits32(self.base, GPIO_INTEN, self.mask(), enable);
    }

    /// Masks or unmasks the pin's interrupt.
    pub fn set_interrupt_mask<B: RegisterBus>(&self, mmio: &mut Mmio<B>, masked: bool)
        requires
            self.wf(),
        ensures
            bits_rw(old(mmio).trace(), final(mmio).trace(), self.base(), GPIO_INTMASK, self.bit(), masked),
    {
        mmio.update_bits32(self.base, GPIO_INTMASK, self.mask(), masked);
    }

    /// Acknowledges the pin's edge interrupt.
    pub fn clear_interrupt<B: RegisterBus>(&self, mmio: &mut Mmio<B>)
        requires
            self.wf(),
        ensures
            final(mmio).trace() == old(mmio).trace().push(
                BusOp::Write32 { base: self.base(), offset: GPIO_PORTA_EOI, value: self.bit() },
            ),
    {
        mmio.write32(self.base, GPIO_PORTA_EOI, self.mask());
    }

    /// Whether the pin's (masked) interrupt is pending.
    pub fn is_interrupt_pending<B: RegisterBus>(&self, mmio: &mut Mmio<B>) -> (b: bool)
        requires
            self.wf(),
        ensures
            read_next(old(mmio).trace(), final(mmio).trace(), self.base(), GPIO_INTSTATUS),
            b == (first_read(old(mmio).trace(), final(mmio).trace()) & self.bit() != 0),
    {
        let v = mmio.read32(self.base, GPIO_INTSTATUS);
        assert(read_at(mmio.trace(), old(mmio).trace().len() as int) == v);
        v & self.mask() != 0
    }

    /// Enables or disables debouncing of the pin.
    pub fn set_debounce<B: RegisterBus>(&self, mmio: &mut Mmio<B>, enable: bool)
        requires
            self.wf(),
        ensures
            bits_rw(old(mmio).trace(), final(mmio).trace(), self.base(), GPIO_DEBOUNCE, self.bit(), enable),
    {
        mmio.update_bits32(self.base, GPIO_DEBOUNCE, self.mask(), enable);
    }
}

} // verus!
