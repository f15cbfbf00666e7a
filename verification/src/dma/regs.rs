//! Register offsets, bit fields and field builders of the AXI DMA controller.
use vstd::prelude::*;

verus! {

pub const DMA_ID_OFFSET: usize = 0x0;

pub const DMA_COMPVER_OFFSET: usize = 0x8;

pub const DMA_CFG_OFFSET: usize = 0x10;

pub const DMA_CH_EN_OFFSET: usize = 0x18;

pub const DMA_INT_STATUS_OFFSET: usize = 0x30;

pub const DMA_COMM_INT_CLEAR_OFFSET: usize = 0x38;

pub const DMA_COMM_INT_STATUS_OFFSET: usize = 0x40;

pub const DMA_RESET_OFFSET: usize = 0x58;

pub const CH_SAR_OFFSET: usize = 0x0;

pub const CH_DAR_OFFSET: usize = 0x8;

pub const CH_BLOCK_TS_OFFSET: usize = 0x10;

pub const CH_CTL_OFFSET: usize = 0x18;

pub const CH_CFG_OFFSET: usize = 0x20;

pub const CH_LLP_OFFSET: usize = 0x28;

pub const CH_STATUS_OFFSET: usize = 0x30;

pub const CH_SWHSSRC_OFFSET: usize = 0x38;

pub const CH_SWHSDST_OFFSET: usize = 0x40;

pub const CH_BLK_TFR_RESUME_OFFSET: usize = 0x48;

pub const CH_AXI_ID_OFFSET: usize = 0x50;

pub const CH_AXI_QOS_OFFSET: usize = 0x58;

pub const CH_SSTAT_OFFSET: usize = 0x60;

pub const CH_DSTAT_OFFSET: usize = 0x68;

pub const CH_SSTATAR_OFFSET: usize = 0x70;

pub const CH_DSTATAR_OFFSET: usize = 0x78;

pub const CH_INT_STATUS_EN_OFFSET: usize = 0x80;

pub const CH_INT_STATUS_OFFSET: usize = 0x88;

pub const CH_INT_SIGNAL_EN_OFFSET: usize = 0x90;

pub const CH_INT_CLEAR_OFFSET: usize = 0x98;

pub const CFG_DMA_EN: u64 = 0x1;

pub const CFG_INT_EN: u64 = 0x2;

pub const CH_EN_WE_OFFSET: u32 = 0x8;

pub const CH_PAUSE_OFFSET: u32 = 0x10;

pub const CH_PAUSE_EN_OFFSET: u32 = 0x18;

pub const CH_ABORT_OFFSET: u32 = 0x20;

pub const CH_ABORT_WE_OFFSET: u32 = 0x28;

pub const CTL_SMS_SHIFT: u32 = 0x0;

pub const CTL_DMS_SHIFT: u32 = 0x2;

pub const CTL_SINC_SHIFT: u32 = 0x4;

pub const CTL_DINC_SHIFT: u32 = 0x6;

pub const CTL_SRC_WIDTH_SHIFT: u32 = 0x8;

pub const CTL_DST_WIDTH_SHIFT: u32 = 0xb;

pub const CTL_SRC_MSIZE_SHIFT: u32 = 0xe;

pub const CTL_DST_MSIZE_SHIFT: u32 = 0x12;

pub const CTL_ARLEN_EN_SHIFT: u32 = 0x26;

pub const CTL_ARLEN_SHIFT: u32 = 0x27;

pub const CTL_AWLEN_EN_SHIFT: u32 = 0x2f;

pub const CTL_AWLEN_SHIFT: u32 = 0x30;

pub const CTL_SRC_STA_EN_SHIFT: u32 = 0x38;

pub const CTL_DST_STA_EN_SHIFT: u32 = 0x39;

pub const CTL_IOC_BLT_EN_SHIFT: u32 = 0x3a;

pub const CTL_LLI_LAST_SHIFT: u32 = 0x3e;

pub const CTL_LLI_VALID_SHIFT: u32 = 0x3f;

pub const CTL_SRC_INC: u64 = 0x0;

pub const CTL_SRC_FIX: u64 = 0x10;

pub const CTL_DST_INC: u64 = 0x0;

pub const CTL_DST_FIX: u64 = 0x40;

pub const CTL_SRC_STA_EN: u64 = 0x100000000000000;

pub const CTL_DST_STA_EN: u64 = 0x200000000000000;

pub const CTL_IOC_BLT_EN: u64 = 0x400000000000000;

pub const CTL_LLI_LAST: u64 = 0x4000000000000000;

pub const CTL_LLI_VALID: u64 = 0x8000000000000000;

pub const CTL_ARLEN_EN: u64 = 0x4000000000;

pub const CTL_AWLEN_EN: u64 = 0x800000000000;

pub const CFG_SRC_MULTBLK_TYPE_SHIFT: u32 = 0x0;

pub const CFG_DST_MULTBLK_TYPE_SHIFT: u32 = 0x2;

pub const CFG_TT_FC_SHIFT: u32 = 0x20;

pub const CFG_HS_SEL_SRC_SHIFT: u32 = 0x23;

pub const CFG_HS_SEL_DST_SHIFT: u32 = 0x24;

pub const CFG_SRC_HWHS_POL_SHIFT: u32 = 0x25;

pub const CFG_DST_HWHS_POL_SHIFT: u32 = 0x26;

pub const CFG_SRC_PER_SHIFT: u32 = 0x27;

pub const CFG_DST_PER_SHIFT: u32 = 0x2c;

pub const CFG_CH_PRIOR_SHIFT: u32 = 0x31;

pub const CFG_LOCK_CH_SHIFT: u32 = 0x34;

pub const CFG_LOCK_CH_L_SHIFT: u32 = 0x35;

pub const CFG_SRC_OSR_LMT_SHIFT: u32 = 0x37;

pub const CFG_DST_OSR_LMT_SHIFT: u32 = 0x3b;

pub const CFG_HS_SEL_SRC_SW: u64 = 0x800000000;

pub const CFG_HS_SEL_DST_SW: u64 = 0x1000000000;

pub const CFG_SRC_HWHS_POL_H: u64 = 0x2000000000;

pub const CFG_DST_HWHS_POL_H: u64 = 0x4000000000;

pub const INT_BLOCK_TFR_DONE: u64 = 0x1;

pub const INT_DMA_TFR_DONE: u64 = 0x2;

pub const INT_SRC_TRANS_COMP: u64 = 0x8;

pub const INT_DST_TRANS_COMP: u64 = 0x10;

pub const INT_SRC_DEC_ERR: u64 = 0x20;

pub const INT_DST_DEC_ERR: u64 = 0x40;

pub const INT_SRC_SLV_ERR: u64 = 0x80;

pub const INT_DST_SLV_ERR: u64 = 0x100;

pub const INT_LLI_RD_DEC_ERR: u64 = 0x200;

pub const INT_LLI_WR_DEC_ERR: u64 = 0x400;

pub const INT_LLI_RD_SLV_ERR: u64 = 0x800;

pub const INT_LLI_WR_SLV_ERR: u64 = 0x1000;

pub const INT_SHADOWREG_OR_LLI_INVALID: u64 = 0x2000;

pub const INT_SLVIF_MULTIBLKTYPE_ERR: u64 = 0x4000;

pub const INT_SLVIF_DEC_ERR: u64 = 0x10000;

pub const INT_SLVIF_WR2RO_ERR: u64 = 0x20000;

pub const INT_SLVIF_RD2WO_ERR: u64 = 0x40000;

pub const INT_SLVIF_WRONCHEN_ERR: u64 = 0x80000;

pub const INT_SLVIF_SHADOWREG_WRON_VALID_ERR: u64 = 0x100000;

pub const INT_SLVIF_WRONHOLD_ERR: u64 = 0x200000;

pub const INT_CH_LOCK_CLEARED: u64 = 0x8000000;

pub const INT_CH_SRC_SUSPENDED: u64 = 0x10000000;

pub const INT_CH_SUSPENDED: u64 = 0x20000000;

pub const INT_CH_DISABLED: u64 = 0x40000000;

pub const INT_CH_ABORTED: u64 = 0x80000000;

pub const BLOCK_TS_MASK: u64 = 0x3fffff;

pub const LLP_LOC_MASK: u64 = 0xffffffffffffffc0;

pub const INT_ALL_ERR: u64 = 0x1fe0;

/// `llp` with its low six (reserved) bits cleared.
pub fn llp_loc(llp: u64) -> (r: u64)
    ensures
        r == llp & LLP_LOC_MASK,
{
    llp & LLP_LOC_MASK
}

/// `msize` placed at `CTL_DST_MSIZE_SHIFT`.
pub fn ctl_dst_msize(msize: u8) -> (r: u64)
    ensures
        r == (msize as u64) << CTL_DST_MSIZE_SHIFT,
{
    (msize as u64) << CTL_DST_MSIZE_SHIFT
}

/// `msize` placed at `CTL_SRC_MSIZE_SHIFT`.
pub fn ctl_src_msize(msize: u8) -> (r: u64)
    ensures
        r == (msize as u64) << CTL_SRC_MSIZE_SHIFT,
{
    (msize as u64) << CTL_SRC_MSIZE_SHIFT
}

/// `width` placed at `CTL_DST_WIDTH_SHIFT`.
pub fn ctl_dst_width(width: u8) -> (r: u64)
    ensures
        r == (width as u64) << CTL_DST_WIDTH_SHIFT,
{
    (width as u64) << CTL_DST_WIDTH_SHIFT
}

/// `width` placed at `CTL_SRC_WIDTH_SHIFT`.
pub fn ctl_src_width(width: u8) -> (r: u64)
    ensures
        r == (width as u64) << CTL_SRC_WIDTH_SHIFT,
{
    (width as u64) << CTL_SRC_WIDTH_SHIFT
}

/// `master` placed at `CTL_DMS_SHIFT`.
pub fn ctl_dms(master: u8) -> (r: u64)
    ensures
        r == (master as u64) << CTL_DMS_SHIFT,
{
    (master as u64) << CTL_DMS_SHIFT
}

/// `master` placed at `CTL_SMS_SHIFT`.
pub fn ctl_sms(master: u8) -> (r: u64)
    ensures
        r == (master as u64) << CTL_SMS_SHIFT,
{
    (master as u64) << CTL_SMS_SHIFT
}

/// `len` placed at `CTL_ARLEN_SHIFT`.
pub fn ctl_arlen(len: u8) -> (r: u64)
    ensures
        r == (len as u64) << CTL_ARLEN_SHIFT,
{
    (len as u64) << CTL_ARLEN_SHIFT
}

/// `len` placed at `CTL_AWLEN_SHIFT`.
pub fn ctl_awlen(len: u8) -> (r: u64)
    ensures
        r == (len as u64) << CTL_AWLEN_SHIFT,
{
    (len as u64) << CTL_AWLEN_SHIFT
}

/// `id` placed at `CFG_SRC_PER_SHIFT`.
pub fn cfg_src_per(id: u8) -> (r: u64)
    ensures
        r == (id as u64) << CFG_SRC_PER_SHIFT,
{
    (id as u64) << CFG_SRC_PER_SHIFT
}

/// `id` placed at `CFG_DST_PER_SHIFT`.
pub fn cfg_dst_per(id: u8) -> (r: u64)
    ensures
        r == (id as u64) << CFG_DST_PER_SHIFT,
{
    (id as u64) << CFG_DST_PER_SHIFT
}

/// `priority` placed at `CFG_CH_PRIOR_SHIFT`.
pub fn cfg_ch_prior(priority: u8) -> (r: u64)
    ensures
        r == (priority as u64) << CFG_CH_PRIOR_SHIFT,
{
    (priority as u64) << CFG_CH_PRIOR_SHIFT
}

/// `limit` placed at `CFG_SRC_OSR_LMT_SHIFT`.
pub fn cfg_src_osr_lmt(limit: u8) -> (r: u64)
    ensures
        r == (limit as u64) << CFG_SRC_OSR_LMT_SHIFT,
{
    (limit as u64) << CFG_SRC_OSR_LMT_SHIFT
}

/// `limit` placed at `CFG_DST_OSR_LMT_SHIFT`.
pub fn cfg_dst_osr_lmt(limit: u8) -> (r: u64)
    ensures
        r == (limit as u64) << CFG_DST_OSR_LMT_SHIFT,
{
    (limit as u64) << CFG_DST_OSR_LMT_SHIFT
}

/// `fc` placed at `CFG_TT_FC_SHIFT`.
pub fn cfg_tt_fc(fc: u8) -> (r: u64)
    ensures
        r == (fc as u64) << CFG_TT_FC_SHIFT,
{
    (fc as u64) << CFG_TT_FC_SHIFT
}

/// `mbt` placed at `CFG_SRC_MULTBLK_TYPE_SHIFT`.
pub fn cfg_src_multblk_type(mbt: u8) -> (r: u64)
    ensures
        r == (mbt as u64) << CFG_SRC_MULTBLK_TYPE_SHIFT,
{
    (mbt as u64) << CFG_SRC_MULTBLK_TYPE_SHIFT
}

/// `mbt` placed at `CFG_DST_MULTBLK_TYPE_SHIFT`.
pub fn cfg_dst_multblk_type(mbt: u8) -> (r: u64)
    ensures
        r == (mbt as u64) << CFG_DST_MULTBLK_TYPE_SHIFT,
{
    (mbt as u64) << CFG_DST_MULTBLK_TYPE_SHIFT
}

} // verus!
