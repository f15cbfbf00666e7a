//! The four PWM controllers of the SoC and the global numbering of their
//! sixteen channels.
pub use crate::soc::{PWM0_BASE, PWM1_BASE, PWM2_BASE, PWM3_BASE};
use vstd::prelude::*;

verus! {

/// Base address of controller `controller_index`, if there is one.
pub fn pwm_controller_base(controller_index: u8) -> (r: Option<usize>)
    ensures
        r == if controller_index == 0 {
            Some(PWM0_BASE)
        } else if controller_index == 1 {
            Some(PWM1_BASE)
        } else if controller_index == 2 {
            Some(PWM2_BASE)
        } else if controller_index == 3 {
            Some(PWM3_BASE)
        } else {
            None::<usize>
        },
{
    match controller_index {
        0 => Some(PWM0_BASE),
        1 => Some(PWM1_BASE),
        2 => Some(PWM2_BASE),
        3 => Some(PWM3_BASE),
        _ => None,
    }
}

/// One of the four PWM controllers.
#[derive(Debug, Clone, Copy, PartialEq, Eq, Structural)]
pub enum PwmInstance {
    Pwm0,
    Pwm1,
    Pwm2,
    Pwm3,
}

pub open spec fn instance_base(i: PwmInstance) -> usize {
    match i {
        PwmInstance::Pwm0 => PWM0_BASE,
        PwmInstance::Pwm1 => PWM1_BASE,
        PwmInstance::Pwm2 => PWM2_BASE,
        PwmInstance::Pwm3 => PWM3_BASE,
    }
}

impl PwmInstance {
    /// Base address of the controller's registers.
    pub fn base_address(&self) -> (b: usize)
        ensures
            b == instance_base(*self),
    {
        match self {
            PwmInstance::Pwm0 => PWM0_BASE,
            PwmInstance::Pwm1 => PWM1_BASE,
            PwmInstance::Pwm2 => PWM2_BASE,
            PwmInstance::Pwm3 => PWM3_BASE,
        }
    }
}

/// A channel numbered over all controllers: `PWMn` is channel `n % 4` of
/// controller `n / 4`.
#[derive(Debug, Clone, Copy, PartialEq, Eq, Structural)]
pub enum GlobalPwmChannel {
    Pwm0,
    Pwm1,
    Pwm2,
    Pwm3,
    Pwm4,
    Pwm5,
    Pwm6,
    Pwm7,
    Pwm8,
    Pwm9,
    Pwm10,
    Pwm11,
    Pwm12,
    Pwm13,
    Pwm14,
    Pwm15,
}

pub open spec fn global_index(c: GlobalPwmChannel) -> u8 {
    match c {
        GlobalPwmChannel::Pwm0 => 0,
        GlobalPwmChannel::Pwm1 => 1,
        GlobalPwmChannel::Pwm2 => 2,
        GlobalPwmChannel::Pwm3 => 3,
        GlobalPwmChannel::Pwm4 => 4,
        GlobalPwmChannel::Pwm5 => 5,
        GlobalPwmChannel::Pwm6 => 6,
        GlobalPwmChannel::Pwm7 => 7,
        GlobalPwmChannel::Pwm8 => 8,
        GlobalPwmChannel::Pwm9 => 9,
        GlobalPwmChannel::Pwm10 => 10,
        GlobalPwmChannel::Pwm11 => 11,
        GlobalPwmChannel::Pwm12 => 12,
        GlobalPwmChannel::Pwm13 => 13,
        GlobalPwmChannel::Pwm14 => 14,
        GlobalPwmChannel::Pwm15 => 15,
    }
}

impl GlobalPwmChannel {
    pub fn from_u8(value: u8) -> (r: Option<Self>)
        ensures
            value < 16 ==> (r matches Some(c) && global_index(c) == value),
            value >= 16 ==> r is None,
    {
        match value {
            0 => Some(GlobalPwmChannel::Pwm0),
            1 => Some(GlobalPwmChannel::Pwm1),
            2 => Some(GlobalPwmChannel::Pwm2),
            3 => Some(GlobalPwmChannel::Pwm3),
            4 => Some(GlobalPwmChannel::Pwm4),
            5 => Some(GlobalPwmChannel::Pwm5),
            6 => Some(GlobalPwmChannel::Pwm6),
            7 => Some(GlobalPwmChannel::Pwm7),
            8 => Some(GlobalPwmChannel::Pwm8),
            9 => Some(GlobalPwmChannel::Pwm9),
            10 => Some(GlobalPwmChannel::Pwm10),
            11 => Some(GlobalPwmChannel::Pwm11),
            12 => Some(GlobalPwmChannel::Pwm12),
            13 => Some(GlobalPwmChannel::Pwm13),
            14 => Some(GlobalPwmChannel::Pwm14),
            15 => Some(GlobalPwmChannel::Pwm15),
            _ => None,
        }
    }

    /// Global channel number, 0 to 15.
    pub fn index(&self) -> (i: u8)
        ensures
            i == global_index(*self),
    {
        match self {
            GlobalPwmChannel::Pwm0 => 0,
            GlobalPwmChannel::Pwm1 => 1,
            GlobalPwmChannel::Pwm2 => 2,
            GlobalPwmChannel::Pwm3 => 3,
            GlobalPwmChannel::Pwm4 => 4,
            GlobalPwmChannel::Pwm5 => 5,
            GlobalPwmChannel::Pwm6 => 6,
            GlobalPwmChannel::Pwm7 => 7,
            GlobalPwmChannel::Pwm8 => 8,
            GlobalPwmChannel::Pwm9 => 9,
            GlobalPwmChannel::Pwm10 => 10,
            GlobalPwmChannel::Pwm11 => 11,
            GlobalPwmChannel::Pwm12 => 12,
            GlobalPwmChannel::Pwm13 => 13,
            GlobalPwmChannel::Pwm14 => 14,
            GlobalPwmChannel::Pwm15 => 15,
        }
    }

    /// The controller of the channel: `index / 4`.
    pub fn controller_index(&self) -> (c: u8)
        ensures
            c == global_index(*self) / 4,
    {
        self.index() / 4
    }

    /// Base address of the channel's controller.
    pub fn controller_base(&self) -> (b: usize)
        ensures
            b == if global_index(*self) / 4 == 0 {
                PWM0_BASE
            } else if global_index(*self) / 4 == 1 {
                PWM1_BASE
            } else if global_index(*self) / 4 == 2 {
                PWM2_BASE
            } else {
                PWM3_BASE
            },
    {
        match self.controller_index() {
            0 => PWM0_BASE,
            1 => PWM1_BASE,
            2 => PWM2_BASE,
            _ => PWM3_BASE,
        }
    }

    /// The channel's number within its controller: `index % 4`.
    pub fn local_channel(&self) -> (c: u8)
        ensures
            c == global_index(*self) % 4,
    {
        self.index() % 4
    }
}

} // verus!
