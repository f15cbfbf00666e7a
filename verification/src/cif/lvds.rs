//! Sub-LVDS and HiSPi configuration of a camera interface link.
use super::types::{
    default_sync_code, CifCfg, CifEndian, CifParam, CifType, HdrMode, HispiMode, HispiSyncCode,
    ImgSize, LvdsBitEndian, LvdsDevAttr, LvdsSyncMode, LvdsVsyncType, ParamHispi, ParamSublvds,
    RawDataType, SublvdsFmt, SublvdsHdr, SublvdsSyncCode, SyncCode,
};
use super::{count_lanes, lane_count, lanes_valid, CifCtx};
use vstd::prelude::*;

verus! {

#[derive(Debug, Clone, Copy, PartialEq, Eq, Structural)]
pub enum LvdsError {
    InvalidLaneId,
    UnsupportedSyncMode,
    UnsupportedHdrMode,
}

/// The sub-LVDS pixel format of a raw data type, if it has one.
pub open spec fn lvds_format(t: RawDataType) -> Option<SublvdsFmt> {
    match t {
        RawDataType::Raw8Bit => Some(SublvdsFmt::Bit8),
        RawDataType::Raw10Bit => Some(SublvdsFmt::Bit10),
        RawDataType::Raw12Bit => Some(SublvdsFmt::Bit12),
        _ => None,
    }
}

/// The MAC and wrapper endianness of a data and a sync-code bit order.
pub open spec fn lvds_endians(data: LvdsBitEndian, sync: LvdsBitEndian) -> (CifEndian, CifEndian) {
    match (data, sync) {
        (LvdsBitEndian::Big, LvdsBitEndian::Big) => (CifEndian::Msb, CifEndian::Msb),
        (LvdsBitEndian::Little, LvdsBitEndian::Big) => (CifEndian::Lsb, CifEndian::Msb),
        (LvdsBitEndian::Big, LvdsBitEndian::Little) => (CifEndian::Lsb, CifEndian::Lsb),
        (LvdsBitEndian::Little, LvdsBitEndian::Little) => (CifEndian::Msb, CifEndian::Lsb),
    }
}

fn endians(data: LvdsBitEndian, sync: LvdsBitEndian) -> (r: (CifEndian, CifEndian))
    ensures
        r == lvds_endians(data, sync),
{
    match (data, sync) {
        (LvdsBitEndian::Big, LvdsBitEndian::Big) => (CifEndian::Msb, CifEndian::Msb),
        (LvdsBitEndian::Little, LvdsBitEndian::Big) => (CifEndian::Lsb, CifEndian::Msb),
        (LvdsBitEndian::Big, LvdsBitEndian::Little) => (CifEndian::Lsb, CifEndian::Lsb),
        (LvdsBitEndian::Little, LvdsBitEndian::Little) => (CifEndian::Msb, CifEndian::Lsb),
    }
}

/// Sync code `k` of exposure `e` of the first lane group, as a 16-bit code.
pub open spec fn code(attr: LvdsDevAttr, e: int, k: int) -> u16 {
    attr.sync_code@[0]@[e]@[k] as u16
}

/// The sub-LVDS HDR pattern of an attribute set, and whether HDR is on.
pub open spec fn sublvds_hdr(attr: LvdsDevAttr) -> Option<(SublvdsHdr, bool)> {
    match attr.hdr_mode {
        HdrMode::Off => Some((SublvdsHdr::Pat1, false)),
        HdrMode::Dol2F | HdrMode::Dol3F => match attr.vsync_type.sync_type {
            LvdsVsyncType::Normal => Some((SublvdsHdr::Pat1, true)),
            LvdsVsyncType::Hconnect => Some((SublvdsHdr::Pat2, true)),
            _ => None,
        },
        _ => None,
    }
}

/// The parameters a sub-LVDS device with `attr` and `img` is configured with.
pub open spec fn sublvds_param(attr: LvdsDevAttr, img: ImgSize) -> Result<CifParam, LvdsError> {
    if lvds_format(attr.raw_data_type) is None {
        Err(LvdsError::UnsupportedSyncMode)
    } else if attr.sync_mode != LvdsSyncMode::Sav {
        Err(LvdsError::UnsupportedSyncMode)
    } else if !lanes_valid(attr.lane_id@) || lane_count(attr.lane_id@, 5) == 0 {
        Err(LvdsError::InvalidLaneId)
    } else if sublvds_hdr(attr) is None {
        Err(LvdsError::UnsupportedHdrMode)
    } else {
        let slvds = SublvdsSyncCode {
            n0_lef_sav: code(attr, 0, 0),
            n0_lef_eav: code(attr, 0, 1),
            n0_sef_sav: code(attr, 1, 0),
            n0_sef_eav: code(attr, 1, 1),
            n1_lef_sav: code(attr, 0, 2),
            n1_lef_eav: code(attr, 0, 3),
            n1_sef_sav: code(attr, 1, 2),
            n1_sef_eav: code(attr, 1, 3),
            n0_lsef_sav: code(attr, 2, 0),
            n0_lsef_eav: code(attr, 2, 1),
            n1_lsef_sav: code(attr, 2, 2),
            n1_lsef_eav: code(attr, 2, 3),
        };
        Ok(
            CifParam {
                cif_type: CifType::Sublvds,
                cfg: CifCfg::Sublvds(
                    ParamSublvds {
                        v_front_porch: 0,
                        lane_num: (lane_count(attr.lane_id@, 5) - 1) as u16,
                        hdr_hblank: [attr.vsync_type.hblank1, attr.vsync_type.hblank2],
                        h_size: img.width as u16,
                        hdr_mode: (sublvds_hdr(attr)->0).0,
                        endian: lvds_endians(attr.data_endian, attr.sync_code_endian).0,
                        wrap_endian: lvds_endians(attr.data_endian, attr.sync_code_endian).1,
                        fmt: lvds_format(attr.raw_data_type)->0,
                        hdr_v_fp: 0,
                        sync_code: SyncCode { slvds: Some(slvds), ..default_sync_code() },
                    },
                ),
                hdr_manual: false,
                hdr_shift: 0,
                hdr_vsize: 0,
                hdr_rm_padding: 0,
                info_line_num: 0,
                hdr_en: (sublvds_hdr(attr)->0).1,
            },
        )
    }
}

/// Configures `ctx` for the sub-LVDS device `attr` with image size `img_size`.
pub fn set_sublvds_attr(ctx: &mut CifCtx, attr: &LvdsDevAttr, img_size: &ImgSize) -> (r: Result<(), LvdsError>)
    ensures
        final(ctx).mac_phys_regs == old(ctx).mac_phys_regs,
        final(ctx).wrap_phys_regs == old(ctx).wrap_phys_regs,
        final(ctx).mac_num == old(ctx).mac_num,
        match sublvds_param(*attr, *img_size) {
            Ok(p) => r is Ok && final(ctx).cur_config == Some(p),
            Err(e) => r == Err::<(), LvdsError>(e) && final(ctx).cur_config == old(ctx).cur_config,
        },
{
    let fmt = match attr.raw_data_type {
        RawDataType::Raw8Bit => SublvdsFmt::Bit8,
        RawDataType::Raw10Bit => SublvdsFmt::Bit10,
        RawDataType::Raw12Bit => SublvdsFmt::Bit12,
        _ => return Err(LvdsError::UnsupportedSyncMode),
    };
    let (endian, wrap_endian) = endians(attr.data_endian, attr.sync_code_endian);
    if attr.sync_mode != LvdsSyncMode::Sav {
        return Err(LvdsError::UnsupportedSyncMode);
    }
    let lane_count = match count_lanes(&attr.lane_id) {
        Some(n) => n,
        None => return Err(LvdsError::InvalidLaneId),
    };
    let mut sync_code = SyncCode::default();
    let mut slvds_sync = SublvdsSyncCode::default();
    slvds_sync.n0_lef_sav = attr.sync_code[0][0][0] as u16;
    slvds_sync.n0_lef_eav = attr.sync_code[0][0][1] as u16;
    slvds_sync.n1_lef_sav = attr.sync_code[0][0][2] as u16;
    slvds_sync.n1_lef_eav = attr.sync_code[0][0][3] as u16;
    slvds_sync.n0_sef_sav = attr.sync_code[0][1][0] as u16;
    slvds_sync.n0_sef_eav = attr.sync_code[0][1][1] as u16;
    slvds_sync.n1_sef_sav = attr.sync_code[0][1][2] as u16;
    slvds_sync.n1_sef_eav = attr.sync_code[0][1][3] as u16;
    slvds_sync.n0_lsef_sav = attr.sync_code[0][2][0] as u16;
    slvds_sync.n0_lsef_eav = attr.sync_code[0][2][1] as u16;
    slvds_sync.n1_lsef_sav = attr.sync_code[0][2][2] as u16;
    slvds_sync.n1_lsef_eav = attr.sync_code[0][2][3] as u16;
    sync_code.slvds = Some(slvds_sync);
    let (hdr_mode, hdr_en) = match attr.hdr_mode {
        HdrMode::Off => (SublvdsHdr::Pat1, false),
        HdrMode::Dol2F | HdrMode::Dol3F => match attr.vsync_type.sync_type {
            LvdsVsyncType::Normal => (SublvdsHdr::Pat1, true),
            LvdsVsyncType::Hconnect => (SublvdsHdr::Pat2, true),
            _ => return Err(LvdsError::UnsupportedHdrMode),
        },
        _ => return Err(LvdsError::UnsupportedHdrMode),
    };
    let sublvds_param = ParamSublvds {
        v_front_porch: 0,
        lane_num: lane_count - 1,
        hdr_hblank: [attr.vsync_type.hblank1, attr.vsync_type.hblank2],
        h_size: img_size.width as u16,
        hdr_mode,
        endian,
        wrap_endian,
        fmt,
        hdr_v_fp: 0,
        sync_code,
    };
    let mut param = CifParam::default();
    param.cif_type = CifType::Sublvds;
    param.cfg = CifCfg::Sublvds(sublvds_param);
    param.hdr_en = hdr_en;
    ctx.set_config(param);
    Ok(())
}

/// The parameters a HiSPi device with `attr` and `img` is configured with.
pub open spec fn hispi_param(attr: LvdsDevAttr, img: ImgSize) -> Result<CifParam, LvdsError> {
    if lvds_format(attr.raw_data_type) is None {
        Err(LvdsError::UnsupportedSyncMode)
    } else if !lanes_valid(attr.lane_id@) || lane_count(attr.lane_id@, 5) == 0 {
        Err(LvdsError::InvalidLaneId)
    } else {
        let hispi = HispiSyncCode {
            t1_sol: code(attr, 0, 0),
            t1_eol: code(attr, 0, 1),
            t2_sol: code(attr, 1, 0),
            t2_eol: code(attr, 1, 1),
            t1_sof: code(attr, 0, 2),
            t1_eof: code(attr, 0, 3),
            t2_sof: code(attr, 1, 2),
            t2_eof: code(attr, 1, 3),
            vsync_gen: code(attr, 0, 2),
        };
        Ok(
            CifParam {
                cif_type: CifType::Hispi,
                cfg: CifCfg::Hispi(
                    ParamHispi {
                        lane_num: (lane_count(attr.lane_id@, 5) - 1) as u16,
                        h_size: img.width as u16,
                        mode: match attr.sync_mode {
                            LvdsSyncMode::Sof => HispiMode::PktSp,
                            LvdsSyncMode::Sav => HispiMode::StreamSp,
                        },
                        endian: lvds_endians(attr.data_endian, attr.sync_code_endian).0,
                        wrap_endian: lvds_endians(attr.data_endian, attr.sync_code_endian).1,
                        fmt: lvds_format(attr.raw_data_type)->0,
                        sync_code: SyncCode { hispi: Some(hispi), ..default_sync_code() },
                    },
                ),
                hdr_manual: false,
                hdr_shift: 0,
                hdr_vsize: 0,
                hdr_rm_padding: 0,
                info_line_num: 0,
                hdr_en: attr.hdr_mode != HdrMode::Off,
            },
        )
    }
}

/// Configures `ctx` for the HiSPi device `attr` with image size `img_size`.
pub fn set_hispi_attr(ctx: &mut CifCtx, attr: &LvdsDevAttr, img_size: &ImgSize) -> (r: Result<(), LvdsError>)
    ensures
        final(ctx).mac_phys_regs == old(ctx).mac_phys_regs,
        final(ctx).wrap_phys_regs == old(ctx).wrap_phys_regs,
        final(ctx).mac_num == old(ctx).mac_num,
        match hispi_param(*attr, *img_size) {
            Ok(p) => r is Ok && final(ctx).cur_config == Some(p),
            Err(e) => r == Err::<(), LvdsError>(e) && final(ctx).cur_config == old(ctx).cur_config,
        },
{
    let fmt = match attr.raw_data_type {
        RawDataType::Raw8Bit => SublvdsFmt::Bit8,
        RawDataType::Raw10Bit => SublvdsFmt::Bit10,
        RawDataType::Raw12Bit => SublvdsFmt::Bit12,
        _ => return Err(LvdsError::UnsupportedSyncMode),
    };
    let (endian, wrap_endian) = endians(attr.data_endian, attr.sync_code_endian);
    let mode = match attr.sync_mode {
        LvdsSyncMode::Sof => HispiMode::PktSp,
        LvdsSyncMode::Sav => HispiMode::StreamSp,
    };
    let lane_count = match count_lanes(&attr.lane_id) {
        Some(n) => n,
        None => return Err(LvdsError::InvalidLaneId),
    };
    let mut sync_code = SyncCode::default();
    let mut hispi_sync = HispiSyncCode::default();
    hispi_sync.t1_sol = attr.sync_code[0][0][0] as u16;
    hispi_sync.t1_eol = attr.sync_code[0][0][1] as u16;
    hispi_sync.t1_sof = attr.sync_code[0][0][2] as u16;
    hispi_sync.t1_eof = attr.sync_code[0][0][3] as u16;
    hispi_sync.t2_sol = attr.sync_code[0][1][0] as u16;
    hispi_sync.t2_eol = attr.sync_code[0][1][1] as u16;
    hispi_sync.t2_sof = attr.sync_code[0][1][2] as u16;
    hispi_sync.t2_eof = attr.sync_code[0][1][3] as u16;
    hispi_sync.vsync_gen = hispi_sync.t1_sof;
    sync_code.hispi = Some(hispi_sync);
    let hispi_param = ParamHispi {
        lane_num: lane_count - 1,
        h_size: img_size.width as u16,
        mode,
        endian,
        wrap_endian,
        fmt,
        sync_code,
    };
    let mut param = CifParam::default();
    param.cif_type = CifType::Hispi;
    param.cfg = CifCfg::Hispi(hispi_param);
    param.hdr_en = attr.hdr_mode != HdrMode::Off;
    ctx.set_config(param);
    Ok(())
}

/// Records the LVDS vertical-sync generation front porch (nothing is written).
pub fn set_lvds_vsync_gen(ctx: &CifCtx, fp: u32) {
}

/// Records the LVDS MAC and wrapper endianness (nothing is written).
pub fn set_lvds_endian(ctx: &CifCtx, mac: CifEndian, wrap: CifEndian) {
}

} // verus!
