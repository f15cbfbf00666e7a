//! Base addresses of the camera interface blocks and their interrupt bits.
use vstd::prelude::*;

verus! {

pub const DPHY_TOP_BASE: usize = 0x0A0D_0000;

pub const DPHY_4L_BASE: usize = 0x0A0D_0300;

pub const DPHY_2L_BASE: usize = 0x0A0D_0600;

pub const SENSOR_MAC0_BASE: usize = 0x0A0C_2000;

pub const SENSOR_MAC1_BASE: usize = 0x0A0C_4000;

pub const SENSOR_MAC_VI_BASE: usize = 0x0A0C_6000;

pub const SENSOR_CSI0_BASE: usize = 0x0A0C_2400;

pub const SENSOR_CSI1_BASE: usize = 0x0A0C_4400;

pub const CLK_CAM0_SRC_DIV: usize = 0x0300_28C0;

pub const CLK_CAM1_SRC_DIV: usize = 0x0300_28C4;

pub const CSIMAC0_INTR_NUM: u32 = 22;

pub const CSIMAC1_INTR_NUM: u32 = 23;

pub const CIF_INT_STS_ECC_ERR_OFFSET: u32 = 0;

pub const CIF_INT_STS_CRC_ERR_OFFSET: u32 = 1;

pub const CIF_INT_STS_HDR_ERR_OFFSET: u32 = 2;

pub const CIF_INT_STS_WC_ERR_OFFSET: u32 = 3;

pub const CIF_INT_STS_FIFO_FULL_OFFSET: u32 = 4;

pub const CIF_INT_STS_ECC_ERR_MASK: u32 = 0x1;

pub const CIF_INT_STS_CRC_ERR_MASK: u32 = 0x2;

pub const CIF_INT_STS_HDR_ERR_MASK: u32 = 0x4;

pub const CIF_INT_STS_WC_ERR_MASK: u32 = 0x8;

pub const CIF_INT_STS_FIFO_FULL_MASK: u32 = 0x10;

/// Base address of the sensor MAC of `link`; 0 for a link that does not exist.
pub fn get_mac_phys_reg_bases(link: u32) -> (b: usize)
    ensures
        b == if link == 0 {
            SENSOR_MAC0_BASE
        } else if link == 1 {
            SENSOR_MAC1_BASE
        } else if link == 2 {
            SENSOR_MAC_VI_BASE
        } else {
            0
        },
{
    match link {
        0 => SENSOR_MAC0_BASE,
        1 => SENSOR_MAC1_BASE,
        2 => SENSOR_MAC_VI_BASE,
        _ => 0,
    }
}

/// Base address of the D-PHY wrapper, shared by every link.
pub fn get_wrap_phys_reg_bases(link: u32) -> (b: usize)
    ensures
        b == DPHY_TOP_BASE,
{
    DPHY_TOP_BASE
}

} // verus!
