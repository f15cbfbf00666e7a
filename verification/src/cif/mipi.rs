//! MIPI CSI-2 configuration of a camera interface link.
use super::types::{
    CifCfg, CifParam, CifType, CsiFmt, CsiHdrMode, CsiVsGenMode, ImgSize, MipiDevAttr, MipiHdrMode,
    ParamCsi, RawDataType,
};
use super::{count_lanes, lane_count, lanes_valid, CifCtx};
use vstd::prelude::*;

verus! {

#[derive(Debug, Clone, Copy, PartialEq, Eq, Structural)]
pub enum MipiError {
    InvalidLaneId,
    InvalidDataType,
    UnsupportedMode,
}

/// The CSI format and data type of a pixel format.
pub open spec fn csi_format(t: RawDataType) -> (CsiFmt, u16) {
    match t {
        RawDataType::Raw8Bit => (CsiFmt::Raw8, 0x2A),
        RawDataType::Raw10Bit => (CsiFmt::Raw10, 0x2B),
        RawDataType::Raw12Bit => (CsiFmt::Raw12, 0x2C),
        RawDataType::Yuv422_8Bit => (CsiFmt::Yuv422_8b, 0x1E),
        RawDataType::Yuv422_10Bit => (CsiFmt::Yuv422_10b, 0x1F),
    }
}

/// The CSI HDR mode of a MIPI HDR mode, and whether HDR is on.
pub open spec fn csi_hdr(m: MipiHdrMode) -> (CsiHdrMode, bool) {
    match m {
        MipiHdrMode::Off => (CsiHdrMode::Vc, false),
        MipiHdrMode::Dt => (CsiHdrMode::Dt, true),
        MipiHdrMode::Vc => (CsiHdrMode::Vc, true),
        MipiHdrMode::Dol => (CsiHdrMode::Dol, true),
        MipiHdrMode::Manual => (CsiHdrMode::Vc, true),
    }
}

/// The parameters a MIPI device with `attr` is configured with.
pub open spec fn mipi_param(attr: MipiDevAttr) -> Result<CifParam, MipiError> {
    if !lanes_valid(attr.lane_id@) || lane_count(attr.lane_id@, 5) == 0 {
        Err(MipiError::InvalidLaneId)
    } else {
        Ok(
            CifParam {
                cif_type: CifType::Csi,
                cfg: CifCfg::Csi(
                    ParamCsi {
                        lane_num: (lane_count(attr.lane_id@, 5) - 1) as u16,
                        fmt: csi_format(attr.raw_data_type).0,
                        vs_gen_mode: CsiVsGenMode::Fs,
                        hdr_mode: csi_hdr(attr.hdr_mode).0,
                        data_type: [attr.data_type@[0] as u16, attr.data_type@[1] as u16],
                        decode_type: csi_format(attr.raw_data_type).1,
                        vc_mapping: if attr.demux.demux_en {
                            attr.demux.vc_mapping
                        } else {
                            [0, 1, 2, 3]
                        },
                    },
                ),
                hdr_manual: false,
                hdr_shift: 0,
                hdr_vsize: 0,
                hdr_rm_padding: 0,
                info_line_num: 0,
                hdr_en: csi_hdr(attr.hdr_mode).1,
            },
        )
    }
}

/// Bits per sample of a sensor pixel format.
pub open spec fn pixel_bits(t: RawDataType) -> int {
    match t {
        RawDataType::Raw8Bit => 8,
        RawDataType::Raw10Bit => 10,
        RawDataType::Raw12Bit => 12,
        RawDataType::Yuv422_8Bit => 8,
        RawDataType::Yuv422_10Bit => 10,
    }
}

/// Whether a sensor pixel format is YUV 4:2:2 (else Bayer raw).
pub open spec fn pixel_is_yuv(t: RawDataType) -> bool {
    t == RawDataType::Yuv422_8Bit || t == RawDataType::Yuv422_10Bit
}

/// Bits per sample that the receiver unpacks in CSI format `f`.
pub open spec fn csi_fmt_bits(f: CsiFmt) -> int {
    match f {
        CsiFmt::Yuv422_8b => 8,
        CsiFmt::Yuv422_10b => 10,
        CsiFmt::Raw8 => 8,
        CsiFmt::Raw10 => 10,
        CsiFmt::Raw12 => 12,
    }
}

/// Whether CSI format `f` is YUV 4:2:2 (else Bayer raw).
pub open spec fn csi_fmt_is_yuv(f: CsiFmt) -> bool {
    f == CsiFmt::Yuv422_8b || f == CsiFmt::Yuv422_10b
}

/// A MIPI device is received as it sends: the CSI format unpacks samples of
/// the sensor's width and kind, and the CSI-2 data type is the one the
/// standard numbers for it (RAW8 0x2A, each 2 bits more one higher; YUV422
/// 8-bit 0x1E, 10-bit 0x1F).
pub proof fn lemma_mipi_format_matches_sensor(attr: MipiDevAttr)
    ensures
        mipi_param(attr) matches Ok(p) ==> p.cfg matches CifCfg::Csi(c) && csi_fmt_bits(c.fmt) == pixel_bits(
            attr.raw_data_type,
        ) && csi_fmt_is_yuv(c.fmt) == pixel_is_yuv(attr.raw_data_type) && c.decode_type == (if pixel_is_yuv(
            attr.raw_data_type,
        ) {
            0x1Eint
        } else {
            0x2Aint
        }) + (pixel_bits(attr.raw_data_type) - 8) / 2,
{
}

/// Configures `ctx` for the MIPI device `attr`.
pub fn set_mipi_attr(ctx: &mut CifCtx, attr: &MipiDevAttr, img_size: &ImgSize) -> (r: Result<(), MipiError>)
    ensures
        final(ctx).mac_phys_regs == old(ctx).mac_phys_regs,
        final(ctx).wrap_phys_regs == old(ctx).wrap_phys_regs,
        final(ctx).mac_num == old(ctx).mac_num,
        match mipi_param(*attr) {
            Ok(p) => r is Ok && final(ctx).cur_config == Some(p),
            Err(e) => r == Err::<(), MipiError>(e) && final(ctx).cur_config == old(ctx).cur_config,
        },
{
    let (fmt, decode_type): (CsiFmt, u16) = match attr.raw_data_type {
        RawDataType::Raw8Bit => (CsiFmt::Raw8, 0x2A),
        RawDataType::Raw10Bit => (CsiFmt::Raw10, 0x2B),
        RawDataType::Raw12Bit => (CsiFmt::Raw12, 0x2C),
        RawDataType::Yuv422_8Bit => (CsiFmt::Yuv422_8b, 0x1E),
        RawDataType::Yuv422_10Bit => (CsiFmt::Yuv422_10b, 0x1F),
    };
    let lane_count = match count_lanes(&attr.lane_id) {
        Some(n) => n,
        None => return Err(MipiError::InvalidLaneId),
    };
    let (hdr_mode, hdr_en) = match attr.hdr_mode {
        MipiHdrMode::Off => (CsiHdrMode::Vc, false),
        MipiHdrMode::Dt => (CsiHdrMode::Dt, true),
        MipiHdrMode::Vc => (CsiHdrMode::Vc, true),
        MipiHdrMode::Dol => (CsiHdrMode::Dol, true),
        MipiHdrMode::Manual => (CsiHdrMode::Vc, true),
    };
    let vc_mapping: [u8; 4] = if attr.demux.demux_en {
        attr.demux.vc_mapping
    } else {
        [0, 1, 2, 3]
    };
    let csi_param = ParamCsi {
        lane_num: lane_count - 1,
        fmt,
        vs_gen_mode: CsiVsGenMode::Fs,
        hdr_mode,
        data_type: [attr.data_type[0] as u16, attr.data_type[1] as u16],
        decode_type,
        vc_mapping,
    };
    let param = CifParam {
        cif_type: CifType::Csi,
        cfg: CifCfg::Csi(csi_param),
        hdr_manual: false,
        hdr_shift: 0,
        hdr_vsize: 0,
        hdr_rm_padding: 0,
        info_line_num: 0,
        hdr_en,
    };
    assert(csi_param.data_type == [attr.data_type@[0] as u16, attr.data_type@[1] as u16]);
    assert(csi_param.vc_mapping == if attr.demux.demux_en { attr.demux.vc_mapping } else { [0u8, 1, 2, 3] });
    ctx.set_config(param);
    Ok(())
}

/// Records the HS settle time (the setting is not applied to the PHY).
pub fn set_hs_settle(ctx: &CifCtx, hs_settle: u8) {
}

/// Whether a CSI interrupt of `mask` is pending; no status is read, so never.
pub fn check_csi_int_sts(ctx: &CifCtx, mask: u32) -> (b: bool)
    ensures
        !b,
{
    false
}

/// Masks the CSI interrupts of `mask` (nothing is written).
pub fn mask_csi_int_sts(ctx: &CifCtx, mask: u32) {
}

/// Unmasks the CSI interrupts of `mask` (nothing is written).
pub fn unmask_csi_int_sts(ctx: &CifCtx, mask: u32) {
}

/// Clears the CSI interrupt status (nothing is written).
pub fn clear_csi_int_sts(ctx: &CifCtx) {
}

} // verus!
