//! PWM driver: four controllers of four channels each, with continuous and
//! pulse-count modes, polarity, output enables and the synchronous shift mode.
pub mod consts;
pub mod instances;

pub use consts::{
    PwmChannel, PwmClockSource, PwmError, PwmMode, PwmPolarity, PWM_DEFAULT_CLK_FREQ,
    PWM_MAX_PERIOD, PWM_MAX_PULSE_COUNT, PWM_MAX_SHIFT_COUNT,
};
pub use instances::{GlobalPwmChannel, PwmInstance, PWM0_BASE, PWM1_BASE, PWM2_BASE, PWM3_BASE};

use consts::{
    channel_index, channel_mask, clock_hz, CHANNELS_MASK, COUNT_MASK, HLPERIOD0, PCLK_FORCE_EN_SHIFT,
    PCOUNT0, PERIOD0, PERIOD_MASK, POLARITY, PULSECOUNT0, PWMDONE, PWMMODE_SHIFT, PWMSTART,
    PWMUPDATE, PWM_OE, SHIFTCOUNT0, SHIFTCOUNT1, SHIFTCOUNT2, SHIFTCOUNT3, SHIFTMODE_SHIFT, SHIFTSTART,
};
use instances::instance_base;
use crate::mmio::{field, field_bits, modify_field_ops, read_at, read_next, BusOp, Mmio, RegisterBus};
use vstd::prelude::*;

verus! {

pub open spec fn active_low(p: PwmPolarity) -> bool {
    p == PwmPolarity::ActiveLow
}

pub open spec fn pulse_count_mode(m: PwmMode) -> bool {
    m == PwmMode::PulseCount
}

/// `v` with the bits of `m` set (`on`) or cleared.
pub open spec fn bit_update(v: u32, m: u32, on: bool) -> u32 {
    if on {
        v | m
    } else {
        v & !m
    }
}

pub open spec fn hlperiod_offset(c: PwmChannel) -> usize {
    (HLPERIOD0 + 8 * channel_index(c)) as usize
}

pub open spec fn period_offset(c: PwmChannel) -> usize {
    (PERIOD0 + 8 * channel_index(c)) as usize
}

pub open spec fn pcount_offset(c: PwmChannel) -> usize {
    (PCOUNT0 + 4 * channel_index(c)) as usize
}

pub open spec fn pulsecount_offset(c: PwmChannel) -> usize {
    (PULSECOUNT0 + 4 * channel_index(c)) as usize
}

pub open spec fn shiftcount_offset(c: PwmChannel) -> usize {
    (SHIFTCOUNT0 + 4 * channel_index(c)) as usize
}

/// `after` is `before` followed by a read of the one-bit-per-channel
/// register at `offset` and a write of its channel bits, as read, with `bit`
/// set (`on`) or cleared.
pub open spec fn channel_bit_rw(
    before: Seq<BusOp>,
    after: Seq<BusOp>,
    base: usize,
    offset: usize,
    bit: u32,
    on: bool,
) -> bool {
    let raw = read_at(after, before.len() as int);
    after == before.push(BusOp::Read32 { base, offset, value: raw }).push(
        BusOp::Write32 {
            base,
            offset,
            value: field_bits(bit_update(field(raw, CHANNELS_MASK, 0), bit, on), CHANNELS_MASK, 0),
        },
    )
}

/// `after` is `before` followed by a read of the four-bit field at `shift` of
/// `POLARITY`, and a read-modify-write that sets that field to the value read
/// with `bit` set (`on`) or cleared.
pub open spec fn polarity_field_update(
    before: Seq<BusOp>,
    after: Seq<BusOp>,
    base: usize,
    shift: u32,
    bit: u32,
    on: bool,
) -> bool {
    let raw = read_at(after, before.len() as int);
    let cur = read_at(after, before.len() + 1int);
    after == before.push(BusOp::Read32 { base, offset: POLARITY, value: raw }) + modify_field_ops(
        base,
        POLARITY,
        cur,
        CHANNELS_MASK,
        shift,
        bit_update(field(raw, CHANNELS_MASK, shift), bit, on),
    )
}

/// The period, in clock cycles, of `frequency_hz` from a `clock_hz` clock.
pub open spec fn period_for(clock: u32, frequency_hz: u32) -> int {
    clock as int / frequency_hz as int
}

/// The high/low period of `duty_percent` of `period` cycles.
pub open spec fn hlperiod_for(period: int, duty_percent: u8) -> u32 {
    (period * duty_percent / 100) as u32
}

/// Why `(frequency_hz, duty_percent)` cannot be programmed from a `clock`
/// clock, if it cannot.
pub open spec fn frequency_duty_error(clock: u32, frequency_hz: u32, duty_percent: u8) -> Option<PwmError> {
    if frequency_hz == 0 {
        Some(PwmError::InvalidPeriod)
    } else if duty_percent > 100 {
        Some(PwmError::InvalidDutyCycle)
    } else if period_for(clock, frequency_hz) < 2 || period_for(clock, frequency_hz) > PWM_MAX_PERIOD {
        Some(PwmError::InvalidPeriod)
    } else {
        None
    }
}

/// The writes of a period and a high/low period of channel `c`.
pub open spec fn period_writes(base: usize, c: PwmChannel, period: u32, hlperiod: u32) -> Seq<BusOp> {
    seq![
        BusOp::Write32 { base, offset: period_offset(c), value: field_bits(period, PERIOD_MASK, 0) },
        BusOp::Write32 {
            base,
            offset: hlperiod_offset(c),
            value: field_bits(hlperiod, PERIOD_MASK, 0),
        },
    ]
}

/// The update pulse of channel bit `bit` of a controller whose `PWMUPDATE`
/// read `raw`: set the bit, then clear it, keeping the other bits.
pub open spec fn update_ops(base: usize, raw: u32, bit: u32) -> Seq<BusOp> {
    seq![
        BusOp::Read32 { base, offset: PWMUPDATE, value: raw },
        BusOp::Write32 { base, offset: PWMUPDATE, value: raw | bit },
        BusOp::Write32 { base, offset: PWMUPDATE, value: raw & !bit },
    ]
}

/// A PWM controller.
#[derive(Clone, Copy, Debug)]
pub struct Pwm {
    base: usize,
    instance: PwmInstance,
    clock_source: PwmClockSource,
}

impl Pwm {
    pub closed spec fn base(&self) -> usize {
        self.base
    }

    pub closed spec fn instance_spec(&self) -> PwmInstance {
        self.instance
    }

    pub closed spec fn clock_spec(&self) -> PwmClockSource {
        self.clock_source
    }

    /// The driver of controller `instance`, clocked at 100 MHz.
    pub fn new(instance: PwmInstance) -> (p: Self)
        ensures
            p.base() == instance_base(instance),
            p.instance_spec() == instance,
            p.clock_spec() == PwmClockSource::Clk100MHz,
    {
        Pwm { base: instance.base_address(), instance, clock_source: PwmClockSource::Clk100MHz }
    }

    /// The driver of controller `instance` with its registers `offset` bytes
    /// past the controller's base, clocked at 100 MHz.
    pub fn new_with_offset(instance: PwmInstance, offset: usize) -> (p: Self)
        requires
            instance_base(instance) + offset <= usize::MAX,
        ensures
            p.base() == instance_base(instance) + offset,
            p.instance_spec() == instance,
            p.clock_spec() == PwmClockSource::Clk100MHz,
    {
        Pwm { base: instance.base_address() + offset, instance, clock_source: PwmClockSource::Clk100MHz }
    }

    /// The driver of controller `instance` with its registers at `base`,
    /// clocked at 100 MHz.
    pub fn from_base_address(base: usize, instance: PwmInstance) -> (p: Self)
        ensures
            p.base() == base,
            p.instance_spec() == instance,
            p.clock_spec() == PwmClockSource::Clk100MHz,
    {
        Pwm { base, instance, clock_source: PwmClockSource::Clk100MHz }
    }

    /// Records the clock that drives the counters (it is selected elsewhere).
    pub fn set_clock_source(&mut self, source: PwmClockSource)
        ensures
            final(self).clock_spec() == source,
            final(self).base() == old(self).base(),
            final(self).instance_spec() == old(self).instance_spec(),
    {
        self.clock_source = source;
    }

    pub fn clock_source(&self) -> (s: PwmClockSource)
        ensures
            s == self.clock_spec(),
    {
        self.clock_source
    }

    pub fn instance(&self) -> (i: PwmInstance)
        ensures
            i == self.instance_spec(),
    {
        self.instance
    }

    /// Frequency of the counter clock in Hz.
    pub fn clock_frequency(&self) -> (f: u32)
        ensures
            f == clock_hz(self.clock_spec()),
    {
        self.clock_source.frequency()
    }

    fn set_period_raw<B: RegisterBus>(&self, mmio: &mut Mmio<B>, channel: PwmChannel, period: u32)
        ensures
            final(mmio).trace() == old(mmio).trace().push(
                BusOp::Write32 {
                    base: self.base(),
                    offset: period_offset(channel),
                    value: field_bits(period, PERIOD_MASK, 0),
                },
            ),
    {
        mmio.write_field32(self.base, PERIOD0 + 8 * channel.index() as usize, PERIOD_MASK, 0, period);
    }

    fn set_hlperiod_raw<B: RegisterBus>(&self, mmio: &mut Mmio<B>, channel: PwmChannel, hlperiod: u32)
        ensures
            final(mmio).trace() == old(mmio).trace().push(
                BusOp::Write32 {
                    base: self.base(),
                    offset: hlperiod_offset(channel),
                    value: field_bits(hlperiod, PERIOD_MASK, 0),
                },
            ),
    {
        mmio.write_field32(self.base, HLPERIOD0 + 8 * channel.index() as usize, PERIOD_MASK, 0, hlperiod);
    }

    /// Programs `channel` for `frequency_hz` at `duty_percent` with `polarity`.
    pub fn configure_channel<B: RegisterBus>(
        &mut self,
        mmio: &mut Mmio<B>,
        channel: PwmChannel,
        frequency_hz: u32,
        duty_percent: u8,
        polarity: PwmPolarity,
    ) -> (r: Result<(), PwmError>)
        ensures
            *final(self) == *old(self),
            frequency_duty_error(clock_hz(old(self).clock_spec()), frequency_hz, duty_percent) matches Some(e)
                ==> r == Err::<(), PwmError>(e) && final(mmio).trace() == old(mmio).trace(),
            frequency_duty_error(clock_hz(old(self).clock_spec()), frequency_hz, duty_percent) is None
                ==> r is Ok && polarity_field_update(
                    old(mmio).trace() + period_writes(
                    old(self).base(),
                    channel,
                    period_for(clock_hz(old(self).clock_spec()), frequency_hz) as u32,
                    hlperiod_for(period_for(clock_hz(old(self).clock_spec()), frequency_hz), duty_percent),
                ),
                    final(mmio).trace(),
                    old(self).base(),
                    0,
                    channel_mask(channel),
                    active_low(polarity),
                ),
    {
        if frequency_hz == 0 {
            return Err(PwmError::InvalidPeriod);
        }
        if duty_percent > 100 {
            return Err(PwmError::InvalidDutyCycle);
        }
        let period = self.clock_frequency() / frequency_hz;
        if period < 2 || period > PWM_MAX_PERIOD {
            return Err(PwmError::InvalidPeriod);
        }
        assert(period as u64 * duty_percent as u64 <= 0x3FFF_FFFF * 100) by (nonlinear_arith)
            requires
                period <= 0x3FFF_FFFF,
                duty_percent <= 100,
        ;
        let hlperiod = (period as u64 * duty_percent as u64 / 100) as u32;
        let ghost t0 = mmio.trace();
        self.set_period_raw(mmio, channel, period);
        self.set_hlperiod_raw(mmio, channel, hlperiod);
        let ghost mid = mmio.trace();
        assert(mid =~= t0 + period_writes(self.base, channel, period, hlperiod));
        self.set_polarity(mmio, channel, polarity);
        Ok(())
    }

    /// Programs `channel` with a raw period and high/low period, in clock cycles.
    pub fn configure_channel_raw<B: RegisterBus>(
        &mut self,
        mmio: &mut Mmio<B>,
        channel: PwmChannel,
        period: u32,
        hlperiod: u32,
        polarity: PwmPolarity,
    ) -> (r: Result<(), PwmError>)
        ensures
            *final(self) == *old(self),
            period < 2 || period > PWM_MAX_PERIOD ==> r == Err::<(), PwmError>(PwmError::InvalidPeriod)
                && final(mmio).trace() == old(mmio).trace(),
            2 <= period <= PWM_MAX_PERIOD && hlperiod >= period ==> r == Err::<(), PwmError>(
                PwmError::InvalidDutyCycle,
            ) && final(mmio).trace() == old(mmio).trace(),
            2 <= period <= PWM_MAX_PERIOD && hlperiod < period ==> r is Ok && polarity_field_update(
                    old(mmio).trace() + period_writes(old(self).base(), channel, period, hlperiod),
                    final(mmio).trace(),
                    old(self).base(),
                    0,
                    channel_mask(channel),
                    active_low(polarity),
                ),
    {
        if period < 2 || period > PWM_MAX_PERIOD {
            return Err(PwmError::InvalidPeriod);
        }
        if hlperiod >= period {
            return Err(PwmError::InvalidDutyCycle);
        }
        let ghost t0 = mmio.trace();
        self.set_period_raw(mmio, channel, period);
        self.set_hlperiod_raw(mmio, channel, hlperiod);
        let ghost mid = mmio.trace();
        assert(mid =~= t0 + period_writes(self.base, channel, period, hlperiod));
        self.set_polarity(mmio, channel, polarity);
        Ok(())
    }

    /// The period of `channel`, in clock cycles.
    pub fn get_period_raw<B: RegisterBus>(&self, mmio: &mut Mmio<B>, channel: PwmChannel) -> (v: u32)
        ensures
            read_next(old(mmio).trace(), final(mmio).trace(), self.base(), period_offset(channel)),
            v == field(read_at(final(mmio).trace(), old(mmio).trace().len() as int), PERIOD_MASK, 0),
    {
        mmio.read_field32(self.base, PERIOD0 + 8 * channel.index() as usize, PERIOD_MASK, 0)
    }

    /// The high/low period of `channel`, in clock cycles.
    pub fn get_hlperiod_raw<B: RegisterBus>(&self, mmio: &mut Mmio<B>, channel: PwmChannel) -> (v: u32)
        ensures
            read_next(old(mmio).trace(), final(mmio).trace(), self.base(), hlperiod_offset(channel)),
            v == field(read_at(final(mmio).trace(), old(mmio).trace().len() as int), PERIOD_MASK, 0),
    {
        mmio.read_field32(self.base, HLPERIOD0 + 8 * channel.index() as usize, PERIOD_MASK, 0)
    }

    fn update_polarity_field<B: RegisterBus>(
        &self,
        mmio: &mut Mmio<B>,
        shift: u32,
        bit: u32,
        on: bool,
    )
        requires
            shift < 32,
        ensures
            polarity_field_update(old(mmio).trace(), final(mmio).trace(), self.base(), shift, bit, on),
    {
        let ghost t0 = mmio.trace();
        let current = mmio.read_field32(self.base, POLARITY, CHANNELS_MASK, shift);
        let ghost t1 = mmio.trace();
        let new_val = if on {
            current | bit
        } else {
            current & !bit
        };
        let cur = mmio.modify_field32(self.base, POLARITY, CHANNELS_MASK, shift, new_val);
        proof {
            assert(read_at(mmio.trace(), t0.len() as int) == read_at(t1, t0.len() as int));
            assert(read_at(mmio.trace(), t0.len() + 1int) == cur);
            assert(mmio.trace() =~= t0.push(BusOp::Read32 { base: self.base, offset: POLARITY, value: read_at(t1, t0.len() as int) }) + modify_field_ops(self.base, POLARITY, cur, CHANNELS_MASK, shift, new_val));
        }
    }

    /// Sets the output polarity of `channel`.
    pub fn set_polarity<B: RegisterBus>(&self, mmio: &mut Mmio<B>, channel: PwmChannel, polarity: PwmPolarity)
        ensures
            polarity_field_update(
                    old(mmio).trace(),
                    final(mmio).trace(),
                    self.base(),
                    0,
                    channel_mask(channel),
                    active_low(polarity),
                ),
    {
        let on = match polarity {
            PwmPolarity::ActiveHigh => false,
            PwmPolarity::ActiveLow => true,
        };
        self.update_polarity_field(mmio, 0, channel.mask(), on);
    }

    /// The output polarity of `channel`.
    pub fn get_polarity<B: RegisterBus>(&self, mmio: &mut Mmio<B>, channel: PwmChannel) -> (p: PwmPolarity)
        ensures
            read_next(old(mmio).trace(), final(mmio).trace(), self.base(), POLARITY),
            (p == PwmPolarity::ActiveLow) == (field(read_at(final(mmio).trace(), old(mmio).trace().len() as int), CHANNELS_MASK, 0) & channel_mask(
                    channel,
                ) != 0),
    {
        let current = mmio.read_field32(self.base, POLARITY, CHANNELS_MASK, 0);
        if current & channel.mask() != 0 {
            PwmPolarity::ActiveLow
        } else {
            PwmPolarity::ActiveHigh
        }
    }

    /// Selects continuous or pulse-count output for `channel`.
    pub fn set_mode<B: RegisterBus>(&self, mmio: &mut Mmio<B>, channel: PwmChannel, mode: PwmMode)
        ensures
            polarity_field_update(
                    old(mmio).trace(),
                    final(mmio).trace(),
                    self.base(),
                    PWMMODE_SHIFT,
                    channel_mask(channel),
                    pulse_count_mode(mode),
                ),
    {
        let on = match mode {
            PwmMode::Continuous => false,
            PwmMode::PulseCount => true,
        };
        self.update_polarity_field(mmio, PWMMODE_SHIFT, channel.mask(), on);
    }

    /// The output mode of `channel`.
    pub fn get_mode<B: RegisterBus>(&self, mmio: &mut Mmio<B>, channel: PwmChannel) -> (m: PwmMode)
        ensures
            read_next(old(mmio).trace(), final(mmio).trace(), self.base(), POLARITY),
            (m == PwmMode::PulseCount) == (field(read_at(final(mmio).trace(), old(mmio).trace().len() as int), CHANNELS_MASK, PWMMODE_SHIFT)
                    & channel_mask(channel) != 0),
    {
        let current = mmio.read_field32(self.base, POLARITY, CHANNELS_MASK, PWMMODE_SHIFT);
        if current & channel.mask() != 0 {
            PwmMode::PulseCount
        } else {
            PwmMode::Continuous
        }
    }

    /// Sets the number of pulses of `channel` in pulse-count mode.
    pub fn set_pulse_count<B: RegisterBus>(&self, mmio: &mut Mmio<B>, channel: PwmChannel, count: u32) -> (r:
        Result<(), PwmError>)
        ensures
            (count == 0 || count > PWM_MAX_PULSE_COUNT) ==> r == Err::<(), PwmError>(
                PwmError::InvalidPulseCount,
            ) && final(mmio).trace() == old(mmio).trace(),
            !(count == 0 || count > PWM_MAX_PULSE_COUNT) ==> r is Ok && final(mmio).trace()
                == old(mmio).trace().push(
                BusOp::Write32 {
                    base: self.base(),
                    offset: pcount_offset(channel),
                    value: field_bits(count, COUNT_MASK, 0),
                },
            ),
    {
        if count == 0 || count > PWM_MAX_PULSE_COUNT {
            return Err(PwmError::InvalidPulseCount);
        }
        mmio.write_field32(self.base, PCOUNT0 + 4 * channel.index() as usize, COUNT_MASK, 0, count);
        Ok(())
    }

    /// The number of pulses `channel` has emitted.
    pub fn get_pulse_count<B: RegisterBus>(&self, mmio: &mut Mmio<B>, channel: PwmChannel) -> (v: u32)
        ensures
            read_next(old(mmio).trace(), final(mmio).trace(), self.base(), pulsecount_offset(channel)),
            v == field(read_at(final(mmio).trace(), old(mmio).trace().len() as int), COUNT_MASK, 0),
    {
        mmio.read_field32(self.base, PULSECOUNT0 + 4 * channel.index() as usize, COUNT_MASK, 0)
    }

    fn rw_channel_bit<B: RegisterBus>(&self, mmio: &mut Mmio<B>, offset: usize, bit: u32, on: bool)
        ensures
            channel_bit_rw(old(mmio).trace(), final(mmio).trace(), self.base(), offset, bit, on),
    {
        let ghost t0 = mmio.trace();
        let current = mmio.read_field32(self.base, offset, CHANNELS_MASK, 0);
        let ghost t1 = mmio.trace();
        let v = if on {
            current | bit
        } else {
            current & !bit
        };
        mmio.write_field32(self.base, offset, CHANNELS_MASK, 0, v);
        proof {
            assert(read_at(mmio.trace(), t0.len() as int) == read_at(t1, t0.len() as int));
        }
    }

    /// Starts `channel`.
    pub fn start<B: RegisterBus>(&self, mmio: &mut Mmio<B>, channel: PwmChannel)
        ensures
            channel_bit_rw(old(mmio).trace(), final(mmio).trace(), self.base(), PWMSTART, channel_mask(channel), true),
    {
        self.rw_channel_bit(mmio, PWMSTART, channel.mask(), true);
    }

    /// Stops `channel`.
    pub fn stop<B: RegisterBus>(&self, mmio: &mut Mmio<B>, channel: PwmChannel)
        ensures
            channel_bit_rw(old(mmio).trace(), final(mmio).trace(), self.base(), PWMSTART, channel_mask(channel), false),
    {
        self.rw_channel_bit(mmio, PWMSTART, channel.mask(), false);
    }

    /// Pulses the update bit of `channel` and restores the value read.
    pub fn restart<B: RegisterBus>(&self, mmio: &mut Mmio<B>, channel: PwmChannel)
        ensures
            final(mmio).trace() == old(mmio).trace() + seq![
                BusOp::Read32 { base: self.base(), offset: PWMUPDATE, value: read_at(final(mmio).trace(), old(mmio).trace().len() as int) },
                BusOp::Write32 {
                    base: self.base(),
                    offset: PWMUPDATE,
                    value: field_bits(field(read_at(final(mmio).trace(), old(mmio).trace().len() as int), CHANNELS_MASK, 0) | channel_mask(channel), CHANNELS_MASK, 0),
                },
                BusOp::Write32 {
                    base: self.base(),
                    offset: PWMUPDATE,
                    value: field_bits(field(read_at(final(mmio).trace(), old(mmio).trace().len() as int), CHANNELS_MASK, 0), CHANNELS_MASK, 0),
                },
            ],
    {
        let ghost t0 = mmio.trace();
        let current = mmio.read_field32(self.base, PWMUPDATE, CHANNELS_MASK, 0);
        let ghost t1 = mmio.trace();
        mmio.write_field32(self.base, PWMUPDATE, CHANNELS_MASK, 0, current | channel.mask());
        mmio.write_field32(self.base, PWMUPDATE, CHANNELS_MASK, 0, current);
        proof {
            assert(read_at(mmio.trace(), t0.len() as int) == read_at(t1, t0.len() as int));
            assert(mmio.trace() =~= t0 + seq![
                BusOp::Read32 { base: self.base, offset: PWMUPDATE, value: read_at(t1, t0.len() as int) },
                BusOp::Write32 { base: self.base, offset: PWMUPDATE, value: field_bits(current | channel_mask(channel), CHANNELS_MASK, 0) },
                BusOp::Write32 { base: self.base, offset: PWMUPDATE, value: field_bits(current, CHANNELS_MASK, 0) },
            ]);
        }
    }

    /// Whether `channel` is started.
    pub fn is_running<B: RegisterBus>(&self, mmio: &mut Mmio<B>, channel: PwmChannel) -> (b: bool)
        ensures
            read_next(old(mmio).trace(), final(mmio).trace(), self.base(), PWMSTART),
            b == (field(read_at(final(mmio).trace(), old(mmio).trace().len() as int), CHANNELS_MASK, 0) & channel_mask(channel) != 0),
    {
        let current = mmio.read_field32(self.base, PWMSTART, CHANNELS_MASK, 0);
        current & channel.mask() != 0
    }

    /// Whether `channel` has emitted all its pulses.
    pub fn is_done<B: RegisterBus>(&self, mmio: &mut Mmio<B>, channel: PwmChannel) -> (b: bool)
        ensures
            read_next(old(mmio).trace(), final(mmio).trace(), self.base(), PWMDONE),
            b == (field(read_at(final(mmio).trace(), old(mmio).trace().len() as int), CHANNELS_MASK, 0) & channel_mask(channel) != 0),
    {
        let done = mmio.read_field32(self.base, PWMDONE, CHANNELS_MASK, 0);
        done & channel.mask() != 0
    }

    /// Enables the output pin driver of `channel`.
    pub fn enable_output<B: RegisterBus>(&self, mmio: &mut Mmio<B>, channel: PwmChannel)
        ensures
            channel_bit_rw(old(mmio).trace(), final(mmio).trace(), self.base(), PWM_OE, channel_mask(channel), true),
    {
        self.rw_channel_bit(mmio, PWM_OE, channel.mask(), true);
    }

    /// Disables the output pin driver of `channel`.
    pub fn disable_output<B: RegisterBus>(&self, mmio: &mut Mmio<B>, channel: PwmChannel)
        ensures
            channel_bit_rw(old(mmio).trace(), final(mmio).trace(), self.base(), PWM_OE, channel_mask(channel), false),
    {
        self.rw_channel_bit(mmio, PWM_OE, channel.mask(), false);
    }

    /// Whether the output pin driver of `channel` is enabled.
    pub fn is_output_enabled<B: RegisterBus>(&self, mmio: &mut Mmio<B>, channel: PwmChannel) -> (b: bool)
        ensures
            read_next(old(mmio).trace(), final(mmio).trace(), self.base(), PWM_OE),
            b == (field(read_at(final(mmio).trace(), old(mmio).trace().len() as int), CHANNELS_MASK, 0) & channel_mask(channel) != 0),
    {
        let current = mmio.read_field32(self.base, PWM_OE, CHANNELS_MASK, 0);
        current & channel.mask() != 0
    }

    /// Makes the hardware take the new period values of `channel`: sets then
    /// clears its update bit, keeping the other bits read.
    pub fn update<B: RegisterBus>(&self, mmio: &mut Mmio<B>, channel: PwmChannel)
        ensures
            final(mmio).trace() == old(mmio).trace() + update_ops(self.base(), read_at(final(mmio).trace(), old(mmio).trace().len() as int), channel_mask(channel)),
    {
        let ghost t0 = mmio.trace();
        let mask = channel.mask();
        let current = mmio.read32(self.base, PWMUPDATE);
        let ghost t1 = mmio.trace();
        mmio.write32(self.base, PWMUPDATE, current | mask);
        mmio.write32(self.base, PWMUPDATE, current & !mask);
        proof {
            assert(mmio.trace() =~= t0 + update_ops(self.base, current, mask));
        }
    }

    /// Changes the frequency and duty cycle of a running `channel`.
    pub fn update_frequency_duty<B: RegisterBus>(
        &mut self,
        mmio: &mut Mmio<B>,
        channel: PwmChannel,
        frequency_hz: u32,
        duty_percent: u8,
    ) -> (r: Result<(), PwmError>)
        ensures
            *final(self) == *old(self),
            frequency_duty_error(clock_hz(old(self).clock_spec()), frequency_hz, duty_percent) matches Some(e)
                ==> r == Err::<(), PwmError>(e) && final(mmio).trace() == old(mmio).trace(),
            frequency_duty_error(clock_hz(old(self).clock_spec()), frequency_hz, duty_percent) is None
                ==> r is Ok && final(mmio).trace() == old(mmio).trace() + period_writes(
                old(self).base(),
                channel,
                period_for(clock_hz(old(self).clock_spec()), frequency_hz) as u32,
                hlperiod_for(period_for(clock_hz(old(self).clock_spec()), frequency_hz), duty_percent),
            ) + update_ops(old(self).base(), read_at(final(mmio).trace(), old(mmio).trace().len() + 2int), channel_mask(channel)),
    {
        if frequency_hz == 0 {
            return Err(PwmError::InvalidPeriod);
        }
        if duty_percent > 100 {
            return Err(PwmError::InvalidDutyCycle);
        }
        let period = self.clock_frequency() / frequency_hz;
        if period < 2 || period > PWM_MAX_PERIOD {
            return Err(PwmError::InvalidPeriod);
        }
        assert(period as u64 * duty_percent as u64 <= 0x3FFF_FFFF * 100) by (nonlinear_arith)
            requires
                period <= 0x3FFF_FFFF,
                duty_percent <= 100,
        ;
        let hlperiod = (period as u64 * duty_percent as u64 / 100) as u32;
        let ghost t0 = mmio.trace();
        self.set_period_raw(mmio, channel, period);
        self.set_hlperiod_raw(mmio, channel, hlperiod);
        let ghost mid = mmio.trace();
        assert(mid =~= t0 + period_writes(self.base, channel, period, hlperiod));
        self.update(mmio, channel);
        proof {
            let t = mmio.trace();
            assert(read_at(t, t0.len() + 2int) == read_at(t, mid.len() as int));
        }
        Ok(())
    }

    /// Sets `POLARITY.SHIFTMODE`.
    pub fn enable_shift_mode<B: RegisterBus>(&self, mmio: &mut Mmio<B>)
        ensures
            final(mmio).trace() == old(mmio).trace() + modify_field_ops(self.base(), POLARITY, read_at(final(mmio).trace(), old(mmio).trace().len() as int), 1, SHIFTMODE_SHIFT, 1),
    {
        mmio.modify_field32(self.base, POLARITY, 1, SHIFTMODE_SHIFT, 1);
    }

    /// Clears `POLARITY.SHIFTMODE`.
    pub fn disable_shift_mode<B: RegisterBus>(&self, mmio: &mut Mmio<B>)
        ensures
            final(mmio).trace() == old(mmio).trace() + modify_field_ops(self.base(), POLARITY, read_at(final(mmio).trace(), old(mmio).trace().len() as int), 1, SHIFTMODE_SHIFT, 0),
    {
        mmio.modify_field32(self.base, POLARITY, 1, SHIFTMODE_SHIFT, 0);
    }

    /// Whether `POLARITY.SHIFTMODE` is set.
    pub fn is_shift_mode_enabled<B: RegisterBus>(&self, mmio: &mut Mmio<B>) -> (b: bool)
        ensures
            read_next(old(mmio).trace(), final(mmio).trace(), self.base(), POLARITY),
            b == (field(read_at(final(mmio).trace(), old(mmio).trace().len() as int), 1, SHIFTMODE_SHIFT) != 0),
    {
        mmio.read_field32(self.base, POLARITY, 1, SHIFTMODE_SHIFT) != 0
    }

    /// Sets the shift of every channel, then enables shift mode.
    pub fn configure_shift_mode<B: RegisterBus>(
        &self,
        mmio: &mut Mmio<B>,
        shift0: u32,
        shift1: u32,
        shift2: u32,
        shift3: u32,
    ) -> (r: Result<(), PwmError>)
        ensures
            (shift0 > PWM_MAX_SHIFT_COUNT || shift1 > PWM_MAX_SHIFT_COUNT || shift2 > PWM_MAX_SHIFT_COUNT
                || shift3 > PWM_MAX_SHIFT_COUNT) ==> r == Err::<(), PwmError>(PwmError::ConfigError)
                && final(mmio).trace() == old(mmio).trace(),
            !(shift0 > PWM_MAX_SHIFT_COUNT || shift1 > PWM_MAX_SHIFT_COUNT || shift2
                > PWM_MAX_SHIFT_COUNT || shift3 > PWM_MAX_SHIFT_COUNT) ==> r is Ok && final(mmio).trace() == old(mmio).trace() + seq![
                    BusOp::Write32 { base: self.base(), offset: SHIFTCOUNT0, value: field_bits(shift0, COUNT_MASK, 0) },
                    BusOp::Write32 { base: self.base(), offset: SHIFTCOUNT1, value: field_bits(shift1, COUNT_MASK, 0) },
                    BusOp::Write32 { base: self.base(), offset: SHIFTCOUNT2, value: field_bits(shift2, COUNT_MASK, 0) },
                    BusOp::Write32 { base: self.base(), offset: SHIFTCOUNT3, value: field_bits(shift3, COUNT_MASK, 0) },
                ] + modify_field_ops(self.base(), POLARITY, read_at(final(mmio).trace(), old(mmio).trace().len() + 4int), 1, SHIFTMODE_SHIFT, 1),
    {
        if shift0 > PWM_MAX_SHIFT_COUNT || shift1 > PWM_MAX_SHIFT_COUNT || shift2 > PWM_MAX_SHIFT_COUNT
            || shift3 > PWM_MAX_SHIFT_COUNT {
            return Err(PwmError::ConfigError);
        }
        let ghost t0 = mmio.trace();
        mmio.write_field32(self.base, SHIFTCOUNT0, COUNT_MASK, 0, shift0);
        mmio.write_field32(self.base, SHIFTCOUNT1, COUNT_MASK, 0, shift1);
        mmio.write_field32(self.base, SHIFTCOUNT2, COUNT_MASK, 0, shift2);
        mmio.write_field32(self.base, SHIFTCOUNT3, COUNT_MASK, 0, shift3);
        let ghost t1 = mmio.trace();
        let cur = mmio.modify_field32(self.base, POLARITY, 1, SHIFTMODE_SHIFT, 1);
        assert(read_at(mmio.trace(), t0.len() + 4int) == cur);
        assert(mmio.trace() =~= t0 + seq![
            BusOp::Write32 { base: self.base, offset: SHIFTCOUNT0, value: field_bits(shift0, COUNT_MASK, 0) },
            BusOp::Write32 { base: self.base, offset: SHIFTCOUNT1, value: field_bits(shift1, COUNT_MASK, 0) },
            BusOp::Write32 { base: self.base, offset: SHIFTCOUNT2, value: field_bits(shift2, COUNT_MASK, 0) },
            BusOp::Write32 { base: self.base, offset: SHIFTCOUNT3, value: field_bits(shift3, COUNT_MASK, 0) },
        ] + modify_field_ops(self.base, POLARITY, cur, 1, SHIFTMODE_SHIFT, 1));
        Ok(())
    }

    /// Sets the shift of `channel`.
    pub fn set_shift_count<B: RegisterBus>(&self, mmio: &mut Mmio<B>, channel: PwmChannel, shift: u32) -> (r:
        Result<(), PwmError>)
        ensures
            shift > PWM_MAX_SHIFT_COUNT ==> r == Err::<(), PwmError>(PwmError::ConfigError)
                && final(mmio).trace() == old(mmio).trace(),
            shift <= PWM_MAX_SHIFT_COUNT ==> r is Ok && final(mmio).trace() == old(mmio).trace().push(
                BusOp::Write32 {
                    base: self.base(),
                    offset: shiftcount_offset(channel),
                    value: field_bits(shift, COUNT_MASK, 0),
                },
            ),
    {
        if shift > PWM_MAX_SHIFT_COUNT {
            return Err(PwmError::ConfigError);
        }
        mmio.write_field32(self.base, SHIFTCOUNT0 + 4 * channel.index() as usize, COUNT_MASK, 0, shift);
        Ok(())
    }

    /// The shift of `channel`.
    pub fn get_shift_count<B: RegisterBus>(&self, mmio: &mut Mmio<B>, channel: PwmChannel) -> (v: u32)
        ensures
            read_next(old(mmio).trace(), final(mmio).trace(), self.base(), shiftcount_offset(channel)),
            v == field(read_at(final(mmio).trace(), old(mmio).trace().len() as int), COUNT_MASK, 0),
    {
        mmio.read_field32(self.base, SHIFTCOUNT0 + 4 * channel.index() as usize, COUNT_MASK, 0)
    }

    pub fn start_shift_mode<B: RegisterBus>(&self, mmio: &mut Mmio<B>)
        ensures
            final(mmio).trace() == old(mmio).trace().push(
                BusOp::Write32 { base: self.base(), offset: SHIFTSTART, value: field_bits(1, 1, 0) },
            ),
    {
        mmio.write_field32(self.base, SHIFTSTART, 1, 0, 1);
    }

    pub fn stop_shift_mode<B: RegisterBus>(&self, mmio: &mut Mmio<B>)
        ensures
            final(mmio).trace() == old(mmio).trace().push(
                BusOp::Write32 { base: self.base(), offset: SHIFTSTART, value: field_bits(0, 1, 0) },
            ),
    {
        mmio.write_field32(self.base, SHIFTSTART, 1, 0, 0);
    }

    pub fn start_all<B: RegisterBus>(&self, mmio: &mut Mmio<B>)
        ensures
            final(mmio).trace() == old(mmio).trace().push(
                BusOp::Write32 { base: self.base(), offset: PWMSTART, value: field_bits(0xF, CHANNELS_MASK, 0) },
            ),
    {
        mmio.write_field32(self.base, PWMSTART, CHANNELS_MASK, 0, 0xF);
    }

    pub fn stop_all<B: RegisterBus>(&self, mmio: &mut Mmio<B>)
        ensures
            final(mmio).trace() == old(mmio).trace().push(
                BusOp::Write32 { base: self.base(), offset: PWMSTART, value: field_bits(0, CHANNELS_MASK, 0) },
            ),
    {
        mmio.write_field32(self.base, PWMSTART, CHANNELS_MASK, 0, 0);
    }

    pub fn enable_all_outputs<B: RegisterBus>(&self, mmio: &mut Mmio<B>)
        ensures
            final(mmio).trace() == old(mmio).trace().push(
                BusOp::Write32 { base: self.base(), offset: PWM_OE, value: field_bits(0xF, CHANNELS_MASK, 0) },
            ),
    {
        mmio.write_field32(self.base, PWM_OE, CHANNELS_MASK, 0, 0xF);
    }

    pub fn disable_all_outputs<B: RegisterBus>(&self, mmio: &mut Mmio<B>)
        ensures
            final(mmio).trace() == old(mmio).trace().push(
                BusOp::Write32 { base: self.base(), offset: PWM_OE, value: field_bits(0, CHANNELS_MASK, 0) },
            ),
    {
        mmio.write_field32(self.base, PWM_OE, CHANNELS_MASK, 0, 0);
    }

    /// Keeps the peripheral clock running (`POLARITY.PCLK_FORCE_EN` set).
    pub fn force_pclk_on<B: RegisterBus>(&self, mmio: &mut Mmio<B>)
        ensures
            final(mmio).trace() == old(mmio).trace() + modify_field_ops(self.base(), POLARITY, read_at(final(mmio).trace(), old(mmio).trace().len() as int), 1, PCLK_FORCE_EN_SHIFT, 1),
    {
        mmio.modify_field32(self.base, POLARITY, 1, PCLK_FORCE_EN_SHIFT, 1);
    }

    /// Lets the peripheral clock be gated (`POLARITY.PCLK_FORCE_EN` clear).
    pub fn enable_pclk_gating<B: RegisterBus>(&self, mmio: &mut Mmio<B>)
        ensures
            final(mmio).trace() == old(mmio).trace() + modify_field_ops(self.base(), POLARITY, read_at(final(mmio).trace(), old(mmio).trace().len() as int), 1, PCLK_FORCE_EN_SHIFT, 0),
    {
        mmio.modify_field32(self.base, POLARITY, 1, PCLK_FORCE_EN_SHIFT, 0);
    }
}

} // verus!
