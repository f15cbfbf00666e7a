//! Register blocks of the MIPI receiver: the PHY top block, the two D-PHYs
//! (4-lane port 0, 2-lane port 1) and the two CSI-2 controllers, as byte
//! offsets from each block's base.
use vstd::prelude::*;

verus! {

pub const MIPIRX_PHY_TOP_BASE: usize = 0x0A0D_0000;

pub const MIPIRX_DPHY_4L_BASE: usize = 0x0A0D_0300;

pub const MIPIRX_DPHY_2L_BASE: usize = 0x0A0D_0600;

pub const MIPIRX_CSI0_BASE: usize = 0x0A0C_2400;

pub const MIPIRX_CSI1_BASE: usize = 0x0A0C_4400;

/// PHY top: power down of the bias (bit 14) and of the receivers (bits 16-21).
pub const PHY_REG_00: usize = 0x000;

/// PHY top: clock channel select (bits 16-21), MIPI PLL clock enable (bit 31).
pub const PHY_REG_04: usize = 0x004;

/// PHY top: sensor PHY mode (bits 0-2).
pub const PHY_REG_30: usize = 0x030;

/// PHY top: calibration result of lane 0; lanes 1 to 5 follow every 4 bytes.
pub const PHY_REG_CAL_RESULT0: usize = 0x034;

/// PHY top: clock inversion of lanes 0 to 5 (bits 0-5).
pub const PHY_REG_80: usize = 0x080;

/// PHY top: camera 0 VTT (bits 0-13) and VS start (bits 16-29).
pub const PHY_REG_A0: usize = 0x0a0;

/// PHY top: camera 0 VS stop (bits 0-13) and HTT (bits 16-29).
pub const PHY_REG_A4: usize = 0x0a4;

/// PHY top: camera 0 HS start (bits 0-13) and HS stop (bits 16-29).
pub const PHY_REG_A8: usize = 0x0a8;

/// PHY top: camera 0 VS polarity (bit 0), HS polarity (bit 1), timing
/// generator enable (bit 2).
pub const PHY_REG_AC: usize = 0x0ac;

/// D-PHY: sensor mode (bits 0-1).
pub const DPHY_REG_00: usize = 0x000;

/// D-PHY: CSI data lane selects, 3 bits every 4 bits.
pub const DPHY_REG_04: usize = 0x004;

/// D-PHY: clock lane select (bits 0-2), clock P/N swap (bit 4), data lane
/// P/N swaps (bits 8-11), clock phase (bits 16-23).
pub const DPHY_REG_08: usize = 0x008;

/// D-PHY: deskew lane enables (bits 0-3).
pub const DPHY_REG_0C: usize = 0x00c;

/// D-PHY: sub-LVDS inversion (bit 0), bit mode (bits 2-3), lane enables
/// (bits 4-7), first SAV code (bits 16-27).
pub const DPHY_REG_20: usize = 0x020;

/// D-PHY: second (bits 0-11) and third (bits 16-27) SAV codes.
pub const DPHY_REG_24: usize = 0x024;

/// D-PHY: calibration setup of data lane 0 (max steps, step, pattern);
/// lanes 1 to 3 follow every 0x40 bytes.
pub const DPHY_LANE_CALIB_0: usize = 0x100;

/// D-PHY: calibration enable of data lane 0 (bit 0).
pub const DPHY_LANE_CALIB_1: usize = 0x104;

/// D-PHY: first of the eight calibration results of data lane 0.
pub const DPHY_LANE_CALIB_RESULT: usize = 0x10c;

/// Bytes between the calibration blocks of two data lanes.
pub const DPHY_LANE_STRIDE: usize = 0x40;

/// CSI: lane mode (0-2), ignore ECC (3), VC check (4), VC set (8-11), line
/// start sent (12).
pub const CSI_REG_00: usize = 0x000;

/// CSI: interrupt mask (0-7), interrupt clear (8-15), HDR enable (16), HDR
/// ID mode (17), remove other IDs (18), remove OB IDs (19).
pub const CSI_REG_04: usize = 0x004;

/// CSI: N0 OB LEF (0-15) and SEF (16-31) IDs.
pub const CSI_REG_08: usize = 0x008;

/// CSI: N0 LEF (0-15) and N1 OB LEF (16-31) IDs.
pub const CSI_REG_0C: usize = 0x00c;

/// CSI: N1 OB SEF (0-15) and N1 LEF (16-31) IDs.
pub const CSI_REG_10: usize = 0x010;

/// CSI: black level data type (0-5), enable (8), format (12-14).
pub const CSI_REG_14: usize = 0x014;

/// CSI: virtual channel of output channels 00, 01, 10, 11 (4 bits each).
pub const CSI_REG_18: usize = 0x018;

/// CSI: N0 SEF (0-15) and N1 SEF (16-31) IDs.
pub const CSI_REG_1C: usize = 0x01c;

/// CSI: N0 SEF2 (0-15) and N1 SEF2 (16-31) IDs.
pub const CSI_REG_20: usize = 0x020;

/// CSI: N0 OB SEF2 (0-15) and N1 OB SEF2 (16-31) IDs.
pub const CSI_REG_24: usize = 0x024;

/// CSI: decoder status (ECC, CRC, word count, FIFO; decoded format in
/// bits 16-21).
pub const CSI_REG_40: usize = 0x040;

/// CSI: interrupt status (bits 0-7).
pub const CSI_REG_60: usize = 0x060;

/// CSI: VS generation mode (0-1), VS generated by VC set (4).
pub const CSI_REG_70: usize = 0x070;

/// CSI: HDR by data type: mode (0), format (4-9), LEF (12-17), SEF (20-25).
pub const CSI_REG_74: usize = 0x074;

/// The CSI controller `index`, if there is one.
pub fn csi_regs(index: usize) -> (b: Option<usize>)
    ensures
        b == if index == 0 {
            Some(MIPIRX_CSI0_BASE)
        } else if index == 1 {
            Some(MIPIRX_CSI1_BASE)
        } else {
            None::<usize>
        },
{
    match index {
        0 => Some(MIPIRX_CSI0_BASE),
        1 => Some(MIPIRX_CSI1_BASE),
        _ => None,
    }
}

/// The D-PHY of port `index`, if there is one.
pub fn dphy_regs(index: usize) -> (b: Option<usize>)
    ensures
        b == if index == 0 {
            Some(MIPIRX_DPHY_4L_BASE)
        } else if index == 1 {
            Some(MIPIRX_DPHY_2L_BASE)
        } else {
            None::<usize>
        },
{
    match index {
        0 => Some(MIPIRX_DPHY_4L_BASE),
        1 => Some(MIPIRX_DPHY_2L_BASE),
        _ => None,
    }
}

/// Base address of the PHY top block.
pub fn phy_top_regs() -> (b: usize)
    ensures
        b == MIPIRX_PHY_TOP_BASE,
{
    MIPIRX_PHY_TOP_BASE
}

/// Base address of the four-lane D-PHY.
pub fn dphy_4l_regs() -> (b: usize)
    ensures
        b == MIPIRX_DPHY_4L_BASE,
{
    MIPIRX_DPHY_4L_BASE
}

/// Base address of the two-lane D-PHY.
pub fn dphy_2l_regs() -> (b: usize)
    ensures
        b == MIPIRX_DPHY_2L_BASE,
{
    MIPIRX_DPHY_2L_BASE
}

/// Base address of CSI controller 0.
pub fn csi0_regs() -> (b: usize)
    ensures
        b == MIPIRX_CSI0_BASE,
{
    MIPIRX_CSI0_BASE
}

/// Base address of CSI controller 1.
pub fn csi1_regs() -> (b: usize)
    ensures
        b == MIPIRX_CSI1_BASE,
{
    MIPIRX_CSI1_BASE
}

} // verus!
