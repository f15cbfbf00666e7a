//! VIP system controller: camera interface MAC clocks, sensor master clocks
//! and resets.
use super::regs::{CLK_CAM0_SRC_DIV, CLK_CAM1_SRC_DIV};
use super::types::{CamPllFreq, RxMacClk};
use crate::mmio::{bits_rw, modify32_ops, read_at, BusOp, Mmio, RegisterBus};
use vstd::prelude::*;

verus! {

pub const VIP_SYS_BASE: usize = 0x0A0C_8000;

pub const CV181X_SYS_CLOCK_BASE: usize = 0x0300_2000;

pub const VIP_SYS_VIP_RESETS: usize = 0x0;

pub const VIP_SYS_VIP_CLK_CTRL1: usize = 0x1c;

pub const REG_DIV_CLK_SRC_VIP_SYS_2: usize = 0x110;

pub const VIP_SYS_REG_RST_CSI_MAC0_OFFSET: u32 = 12;

pub const VIP_SYS_REG_RST_CSI_MAC1_OFFSET: u32 = 13;

pub const VIP_SYS_REG_RST_CSI_MAC2_OFFSET: u32 = 16;

pub const MAC0_CLK_CTRL1_OFFSET: u32 = 4;

pub const MAC1_CLK_CTRL1_OFFSET: u32 = 8;

pub const MAC2_CLK_CTRL1_OFFSET: u32 = 30;

pub const MAC_CLK_CTRL1_MASK: u32 = 0x3;

/// Source 1188 MHz (display PLL).
pub const VIP_SYS_2_SRC_DISPPLL: u32 = 0x200;

/// Source 1500 MHz (FPLL).
pub const VIP_SYS_2_SRC_FPLL: u32 = 0x300;

pub const VIP_SYS_2_SRC_MASK: u32 = 0x300;

pub const REG_CAM_DIV_DIS: u32 = 4;

pub const REG_CAM_SRC: u32 = 8;

pub const REG_CAM_SRC_MASK: u32 = 0x300;

pub const REG_CAM_DIV: u32 = 16;

pub const REG_CAM_DIV_MASK: u32 = 0x3F_0000;

/// The top reset register holding the CSI PHY resets.
pub const TOP_SOFT_RST_CTRL1: usize = 0x0300_3008;

/// Busy-wait units of a reset pulse.
pub const RESET_PULSE_DELAY: u32 = 2000;

/// Source and divider of a sensor master clock.
#[derive(Debug, Clone, Copy, PartialEq, Eq, Structural)]
pub struct CamPllSetting {
    pub cam_src: u8,
    pub clk_div: u8,
}

/// The master clock setting of a frequency; 27 MHz for anything else.
pub open spec fn cam_pll_setting(freq: CamPllFreq) -> CamPllSetting {
    match freq {
        CamPllFreq::Freq37P125M => CamPllSetting { cam_src: 0, clk_div: 32 },
        CamPllFreq::Freq24M => CamPllSetting { cam_src: 2, clk_div: 33 },
        CamPllFreq::Freq26M => CamPllSetting { cam_src: 0, clk_div: 46 },
        CamPllFreq::Freq25M => CamPllSetting { cam_src: 3, clk_div: 12 },
        _ => CamPllSetting { cam_src: 0, clk_div: 44 },
    }
}

/// Replaces the bits of `mask` of the VIP system register at `offset` by `data`.
pub fn vip_sys_reg_write_mask<B: RegisterBus>(mmio: &mut Mmio<B>, offset: usize, mask: u32, data: u32)
    ensures
        final(mmio).trace() == old(mmio).trace() + modify32_ops(
            VIP_SYS_BASE,
            offset,
            read_at(final(mmio).trace(), old(mmio).trace().len() as int),
            mask,
            data,
        ),
{
    let v = mmio.modify32(VIP_SYS_BASE, offset, mask, data);
    assert(read_at(mmio.trace(), old(mmio).trace().len() as int) == v);
}

/// Pulses the VIP resets of `mask`: sets them, waits, clears them.
pub fn vip_toggle_reset<B: RegisterBus>(mmio: &mut Mmio<B>, mask: u32)
    ensures
        ({
            let t = final(mmio).trace();
            let n = old(mmio).trace().len() as int;
            &&& t.len() == n + 5
            &&& bits_rw(old(mmio).trace(), t.take(n + 2), VIP_SYS_BASE, VIP_SYS_VIP_RESETS, mask, true)
            &&& t[n + 2] == BusOp::Delay { units: RESET_PULSE_DELAY }
            &&& bits_rw(t.take(n + 3), t, VIP_SYS_BASE, VIP_SYS_VIP_RESETS, mask, false)
        }),
{
    let ghost t0 = mmio.trace();
    mmio.update_bits32(VIP_SYS_BASE, VIP_SYS_VIP_RESETS, mask, true);
    let ghost t1 = mmio.trace();
    mmio.delay(RESET_PULSE_DELAY);
    let ghost t2 = mmio.trace();
    mmio.update_bits32(VIP_SYS_BASE, VIP_SYS_VIP_RESETS, mask, false);
    assert(mmio.trace().take(t0.len() + 2int) =~= t1);
    assert(mmio.trace().take(t0.len() + 3int) =~= t2);
}

/// The `DIV_CLK_SRC_VIP_SYS_2` value of source `src` and divider `div`.
pub open spec fn vip_sys_2_value(src: u32, div: u32) -> u32 {
    if src == VIP_SYS_2_SRC_DISPPLL {
        (div << 16u32) | 0x209
    } else {
        (div << 16u32) | 0x309
    }
}

/// Selects the source and divider of the VIP system clock 2.
pub fn set_vip_sys_2_clk_div<B: RegisterBus>(mmio: &mut Mmio<B>, src: u32, div: u32)
    ensures
        final(mmio).trace() == old(mmio).trace().push(
            BusOp::Write32 {
                base: CV181X_SYS_CLOCK_BASE,
                offset: REG_DIV_CLK_SRC_VIP_SYS_2,
                value: vip_sys_2_value(src, div),
            },
        ),
{
    let value = if src == VIP_SYS_2_SRC_DISPPLL {
        (div << 16u32) | 0x209
    } else {
        (div << 16u32) | 0x309
    };
    mmio.write32(CV181X_SYS_CLOCK_BASE, REG_DIV_CLK_SRC_VIP_SYS_2, value);
}

/// The field shift of the MAC clock selection of `devno`.
pub open spec fn mac_clk_shift(devno: u32) -> u32 {
    if devno == 0 {
        MAC0_CLK_CTRL1_OFFSET
    } else if devno == 1 {
        MAC1_CLK_CTRL1_OFFSET
    } else {
        MAC2_CLK_CTRL1_OFFSET
    }
}

/// The source and divider of the VIP system clock 2 for a MAC clock.
pub open spec fn mac_clk_source(c: RxMacClk) -> (u32, u32) {
    match c {
        RxMacClk::Clk200M => (VIP_SYS_2_SRC_DISPPLL, 6),
        RxMacClk::Clk300M => (VIP_SYS_2_SRC_DISPPLL, 4),
        RxMacClk::Clk400M => (VIP_SYS_2_SRC_DISPPLL, 3),
        RxMacClk::Clk500M => (VIP_SYS_2_SRC_FPLL, 3),
        RxMacClk::Clk600M => (VIP_SYS_2_SRC_DISPPLL, 2),
    }
}

/// The accesses that select MAC clock `c` for `devno`, having read `old`.
pub open spec fn mac_clk_ops(devno: u32, c: RxMacClk, old: u32) -> Seq<BusOp> {
    modify32_ops(
        VIP_SYS_BASE,
        VIP_SYS_VIP_CLK_CTRL1,
        old,
        MAC_CLK_CTRL1_MASK << mac_clk_shift(devno),
        2u32 << mac_clk_shift(devno),
    ) + seq![
        BusOp::Write32 {
            base: CV181X_SYS_CLOCK_BASE,
            offset: REG_DIV_CLK_SRC_VIP_SYS_2,
            value: vip_sys_2_value(mac_clk_source(c).0, mac_clk_source(c).1),
        },
        BusOp::Delay { units: 500 },
    ]
}

/// Selects the VIP clock for the MAC of `devno` and the clock source and
/// divider that give `mac_clk`.  Fails, touching nothing, for a MAC that does
/// not exist.
pub fn set_mac_clk<B: RegisterBus>(mmio: &mut Mmio<B>, devno: u32, mac_clk: RxMacClk, max_mac_clk: u32) -> (r:
    Result<(), ()>)
    ensures
        devno > 2 ==> r is Err && final(mmio).trace() == old(mmio).trace(),
        devno <= 2 ==> r is Ok && final(mmio).trace() == old(mmio).trace() + mac_clk_ops(
            devno,
            mac_clk,
            read_at(final(mmio).trace(), old(mmio).trace().len() as int),
        ),
{
    let shift = match devno {
        0 => MAC0_CLK_CTRL1_OFFSET,
        1 => MAC1_CLK_CTRL1_OFFSET,
        2 => MAC2_CLK_CTRL1_OFFSET,
        _ => return Err(()),
    };
    let ghost t0 = mmio.trace();
    vip_sys_reg_write_mask(mmio, VIP_SYS_VIP_CLK_CTRL1, MAC_CLK_CTRL1_MASK << shift, 2u32 << shift);
    let ghost t1 = mmio.trace();
    match mac_clk {
        RxMacClk::Clk200M => set_vip_sys_2_clk_div(mmio, VIP_SYS_2_SRC_DISPPLL, 6),
        RxMacClk::Clk300M => set_vip_sys_2_clk_div(mmio, VIP_SYS_2_SRC_DISPPLL, 4),
        RxMacClk::Clk400M => set_vip_sys_2_clk_div(mmio, VIP_SYS_2_SRC_DISPPLL, 3),
        RxMacClk::Clk500M => set_vip_sys_2_clk_div(mmio, VIP_SYS_2_SRC_FPLL, 3),
        RxMacClk::Clk600M => set_vip_sys_2_clk_div(mmio, VIP_SYS_2_SRC_DISPPLL, 2),
    }
    mmio.delay(500);
    assert(read_at(mmio.trace(), t0.len() as int) == read_at(t1, t0.len() as int));
    assert(mmio.trace() =~= t0 + mac_clk_ops(devno, mac_clk, read_at(t1, t0.len() as int)));
    Ok(())
}

/// The accesses that program both sensor master clocks with `s`, given the
/// four values read.
pub open spec fn sensor_clock_ops(s: CamPllSetting, t: Seq<BusOp>, n: int) -> Seq<BusOp> {
    modify32_ops(0, CLK_CAM0_SRC_DIV, read_at(t, n), REG_CAM_SRC_MASK, (s.cam_src as u32) << REG_CAM_SRC)
        + modify32_ops(0, CLK_CAM0_SRC_DIV, read_at(t, n + 2), REG_CAM_DIV_MASK, (s.clk_div as u32) << REG_CAM_DIV)
        + modify32_ops(0, CLK_CAM1_SRC_DIV, read_at(t, n + 4), REG_CAM_SRC_MASK, (s.cam_src as u32) << REG_CAM_SRC)
        + modify32_ops(0, CLK_CAM1_SRC_DIV, read_at(t, n + 6), REG_CAM_DIV_MASK, (s.clk_div as u32) << REG_CAM_DIV)
        + seq![BusOp::Delay { units: 10000 }]
}

/// Programs the source and divider of both sensor master clocks for `freq`
/// when `enable`; a disabled frequency, or `!enable`, touches nothing.
pub fn enable_sensor_clock<B: RegisterBus>(mmio: &mut Mmio<B>, devno: u32, freq: CamPllFreq, enable: bool) -> (r:
    Result<(), ()>)
    ensures
        r is Ok,
        (freq == CamPllFreq::Disabled || !enable) ==> final(mmio).trace() == old(mmio).trace(),
        (freq != CamPllFreq::Disabled && enable) ==> final(mmio).trace() == old(mmio).trace()
            + sensor_clock_ops(cam_pll_setting(freq), final(mmio).trace(), old(mmio).trace().len() as int),
{
    if freq == CamPllFreq::Disabled {
        return Ok(());
    }
    let setting = match freq {
        CamPllFreq::Freq37P125M => CamPllSetting { cam_src: 0, clk_div: 32 },
        CamPllFreq::Freq24M => CamPllSetting { cam_src: 2, clk_div: 33 },
        CamPllFreq::Freq26M => CamPllSetting { cam_src: 0, clk_div: 46 },
        CamPllFreq::Freq25M => CamPllSetting { cam_src: 3, clk_div: 12 },
        _ => CamPllSetting { cam_src: 0, clk_div: 44 },
    };
    if enable {
        let ghost t0 = mmio.trace();
        let a = mmio.modify32(0, CLK_CAM0_SRC_DIV, REG_CAM_SRC_MASK, (setting.cam_src as u32) << REG_CAM_SRC);
        let b = mmio.modify32(0, CLK_CAM0_SRC_DIV, REG_CAM_DIV_MASK, (setting.clk_div as u32) << REG_CAM_DIV);
        let c = mmio.modify32(0, CLK_CAM1_SRC_DIV, REG_CAM_SRC_MASK, (setting.cam_src as u32) << REG_CAM_SRC);
        let d = mmio.modify32(0, CLK_CAM1_SRC_DIV, REG_CAM_DIV_MASK, (setting.clk_div as u32) << REG_CAM_DIV);
        mmio.delay(10000);
        let ghost t = mmio.trace();
        let ghost n = t0.len() as int;
        assert(read_at(t, n) == a && read_at(t, n + 2) == b && read_at(t, n + 4) == c && read_at(t, n + 6) == d);
        assert(t =~= t0 + sensor_clock_ops(setting, t, n));
    }
    Ok(())
}

/// The CSI PHY reset bits in the top reset register, for `devno`.
pub open spec fn mipi_phy_reset_bits(devno: u32) -> u32 {
    if devno == 0 {
        0xC0
    } else {
        0x300
    }
}

/// The VIP reset bit of the CSI MAC of `devno`.
pub open spec fn csi_mac_reset_bit(devno: u32) -> u32 {
    if devno == 0 {
        1u32 << VIP_SYS_REG_RST_CSI_MAC0_OFFSET
    } else if devno == 1 {
        1u32 << VIP_SYS_REG_RST_CSI_MAC1_OFFSET
    } else {
        1u32 << VIP_SYS_REG_RST_CSI_MAC2_OFFSET
    }
}

/// Resets the CSI PHY lanes and the CSI MAC of `devno` (nothing for a MAC
/// that does not exist).
pub fn reset_mipi<B: RegisterBus>(mmio: &mut Mmio<B>, devno: u32)
    ensures
        devno > 2 ==> final(mmio).trace() == old(mmio).trace(),
        devno <= 2 ==> {
            let t = final(mmio).trace();
            let n = old(mmio).trace().len() as int;
            &&& t.len() == n + 10
            &&& bits_rw(old(mmio).trace(), t.take(n + 2), 0, TOP_SOFT_RST_CTRL1, mipi_phy_reset_bits(devno), false)
            &&& t[n + 2] == BusOp::Delay { units: 500 }
            &&& bits_rw(t.take(n + 3), t.take(n + 5), 0, TOP_SOFT_RST_CTRL1, mipi_phy_reset_bits(devno), true)
            &&& bits_rw(t.take(n + 5), t.take(n + 7), VIP_SYS_BASE, VIP_SYS_VIP_RESETS, csi_mac_reset_bit(devno), true)
            &&& t[n + 7] == BusOp::Delay { units: RESET_PULSE_DELAY }
            &&& bits_rw(t.take(n + 8), t, VIP_SYS_BASE, VIP_SYS_VIP_RESETS, csi_mac_reset_bit(devno), false)
        },
{
    if devno > 2 {
        return;
    }
    let bits: u32 = if devno == 0 {
        0xC0
    } else {
        0x300
    };
    let mac_bit: u32 = if devno == 0 {
        1u32 << VIP_SYS_REG_RST_CSI_MAC0_OFFSET
    } else if devno == 1 {
        1u32 << VIP_SYS_REG_RST_CSI_MAC1_OFFSET
    } else {
        1u32 << VIP_SYS_REG_RST_CSI_MAC2_OFFSET
    };
    let ghost t0 = mmio.trace();
    mmio.update_bits32(0, TOP_SOFT_RST_CTRL1, bits, false);
    let ghost t1 = mmio.trace();
    mmio.delay(500);
    let ghost t2 = mmio.trace();
    mmio.update_bits32(0, TOP_SOFT_RST_CTRL1, bits, true);
    let ghost t3 = mmio.trace();
    vip_toggle_reset(mmio, mac_bit);
    proof {
        let t = mmio.trace();
        let n = t0.len() as int;
        let n3 = t3.len() as int;
        assert(t.take(n3 + 2).take(n3) =~= t3);
        assert(t.take(n3) =~= t.take(n3 + 2).take(n3));
        assert(t.take(n + 5) =~= t3);
        assert(t3.take(n + 3) =~= t2);
        assert(t2.take(n + 2) =~= t1);
        assert(t.take(n + 3) =~= t3.take(n + 3));
        assert(t.take(n + 2) =~= t3.take(n + 2));
        assert(t3.take(n + 2) =~= t2.take(n + 2));
        assert(t[n + 2] == t3[n + 2]);
        assert(t3[n + 2] == t2[n + 2]);
    }
}

} // verus!
