//! Parallel (TTL, BT.601/656/1120) and BT demux configuration of a camera
//! interface link.
use super::types::{
    clk_edge_code, clk_edge_value, ttl_vi_mode_value, BtDemuxAttr, CifCfg, CifParam, CifType,
    ClkEdge, ImgSize, ParamBtdemux, ParamTtl, TtlBtFmtOut, TtlDevAttr, TtlFmt, TtlSensorFmt,
    TtlViMode, TtlViSrc,
};
use super::CifCtx;
use vstd::prelude::*;

verus! {

#[derive(Debug, Clone, Copy, PartialEq, Eq, Structural)]
pub enum TtlError {
    InvalidPinFunc,
    UnsupportedMode,
}

/// Every assigned pin function (non-negative) names one of the 19 functions.
pub open spec fn pin_funcs_valid(func: Seq<i8>) -> bool {
    forall|i: int| 0 <= i < func.len() ==> func[i] < 19
}

/// The data pins 4 to 11 of a BT demux carry one of its eight data lines.
pub open spec fn demux_funcs_valid(func: Seq<i8>) -> bool {
    forall|i: int| 4 <= i < 12 ==> func[i] < 8
}

/// A TTL parameter set with everything but the format, size and porches fixed.
pub open spec fn ttl_param(fmt: TtlFmt, width: u16, height: u16, v_bp: u16, h_bp: u16, clk_inv: u32, vi_sel: u32, vi: TtlViSrc) -> CifParam {
    CifParam {
        cif_type: CifType::Ttl,
        cfg: CifCfg::Ttl(
            ParamTtl {
                fmt,
                sensor_fmt: TtlSensorFmt::Bit12,
                fmt_out: TtlBtFmtOut::Cbycry,
                width,
                height,
                v_bp,
                h_bp,
                clk_inv,
                vi_sel,
                vi_from: vi,
            },
        ),
        hdr_manual: false,
        hdr_shift: 0,
        hdr_vsize: 0,
        hdr_rm_padding: 0,
        info_line_num: 0,
        hdr_en: false,
    }
}

/// `v`, or `default` when `v` is 0.
pub open spec fn or_default(v: u16, default: u16) -> u16 {
    if v == 0 {
        default
    } else {
        v
    }
}

fn check_pin_funcs(func: &[i8; 19]) -> (ok: bool)
    ensures
        ok == pin_funcs_valid(func@),
{
    let mut i: usize = 0;
    while i < 19
        invariant
            i <= 19,
            forall|j: int| 0 <= j < i ==> func@[j] < 19,
        decreases 19 - i,
    {
        if func[i] >= 19 {
            return false;
        }
        i = i + 1;
    }
    true
}

fn write_config(ctx: &mut CifCtx, param: CifParam)
    ensures
        final(ctx).cur_config == Some(param),
        final(ctx).mac_phys_regs == old(ctx).mac_phys_regs,
        final(ctx).wrap_phys_regs == old(ctx).wrap_phys_regs,
        final(ctx).mac_num == old(ctx).mac_num,
{
    ctx.set_config(param);
}

/// Configures `ctx` for a CMOS sensor on the parallel port.
pub fn set_cmos_attr(ctx: &mut CifCtx, attr: &TtlDevAttr, img_size: &ImgSize) -> (r: Result<(), TtlError>)
    ensures
        final(ctx).mac_phys_regs == old(ctx).mac_phys_regs,
        final(ctx).wrap_phys_regs == old(ctx).wrap_phys_regs,
        final(ctx).mac_num == old(ctx).mac_num,
        attr.vi == TtlViSrc::Vi2 ==> r == Err::<(), TtlError>(TtlError::UnsupportedMode)
            && final(ctx).cur_config == old(ctx).cur_config,
        attr.vi != TtlViSrc::Vi2 && !pin_funcs_valid(attr.func@) ==> r == Err::<(), TtlError>(
            TtlError::InvalidPinFunc,
        ) && final(ctx).cur_config == old(ctx).cur_config,
        attr.vi != TtlViSrc::Vi2 && pin_funcs_valid(attr.func@) ==> r is Ok && final(ctx).cur_config
            == Some(ttl_param(TtlFmt::VdeSensor, 0, 0, attr.v_bp, attr.h_bp, 0, 0, attr.vi)),
{
    if attr.vi == TtlViSrc::Vi2 {
        return Err(TtlError::UnsupportedMode);
    }
    if !check_pin_funcs(&attr.func) {
        return Err(TtlError::InvalidPinFunc);
    }
    let ttl = ParamTtl {
        fmt: TtlFmt::VdeSensor,
        sensor_fmt: TtlSensorFmt::Bit12,
        fmt_out: TtlBtFmtOut::Cbycry,
        width: 0,
        height: 0,
        v_bp: attr.v_bp,
        h_bp: attr.h_bp,
        clk_inv: 0,
        vi_sel: 0,
        vi_from: attr.vi,
    };
    let mut param = CifParam::default();
    param.cif_type = CifType::Ttl;
    param.cfg = CifCfg::Ttl(ttl);
    param.hdr_en = false;
    write_config(ctx, param);
    Ok(())
}

/// Configures `ctx` for BT.1120 input.
pub fn set_bt1120_attr(ctx: &mut CifCtx, attr: &TtlDevAttr, img_size: &ImgSize, clk_edge: ClkEdge) -> (r:
    Result<(), TtlError>)
    requires
        img_size.width >= 1,
        img_size.height >= 1,
    ensures
        final(ctx).mac_phys_regs == old(ctx).mac_phys_regs,
        final(ctx).wrap_phys_regs == old(ctx).wrap_phys_regs,
        final(ctx).mac_num == old(ctx).mac_num,
        attr.vi == TtlViSrc::Vi2 ==> r == Err::<(), TtlError>(TtlError::UnsupportedMode)
            && final(ctx).cur_config == old(ctx).cur_config,
        attr.vi != TtlViSrc::Vi2 && !pin_funcs_valid(attr.func@) ==> r == Err::<(), TtlError>(
            TtlError::InvalidPinFunc,
        ) && final(ctx).cur_config == old(ctx).cur_config,
        attr.vi != TtlViSrc::Vi2 && pin_funcs_valid(attr.func@) ==> r is Ok && final(ctx).cur_config
            == Some(
            ttl_param(
                TtlFmt::SyncPat17bBt1120,
                (img_size.width - 1) as u16,
                (img_size.height - 1) as u16,
                or_default(attr.v_bp, 9),
                or_default(attr.h_bp, 8),
                clk_edge_value(clk_edge),
                ttl_vi_mode_value(TtlViMode::Bt1120),
                attr.vi,
            ),
        ),
{
    if attr.vi == TtlViSrc::Vi2 {
        return Err(TtlError::UnsupportedMode);
    }
    if !check_pin_funcs(&attr.func) {
        return Err(TtlError::InvalidPinFunc);
    }
    let ttl = ParamTtl {
        fmt: TtlFmt::SyncPat17bBt1120,
        sensor_fmt: TtlSensorFmt::Bit12,
        fmt_out: TtlBtFmtOut::Cbycry,
        width: (img_size.width - 1) as u16,
        height: (img_size.height - 1) as u16,
        v_bp: if attr.v_bp == 0 {
            9
        } else {
            attr.v_bp
        },
        h_bp: if attr.h_bp == 0 {
            8
        } else {
            attr.h_bp
        },
        clk_inv: clk_edge_code(clk_edge),
        vi_sel: 4,
        vi_from: attr.vi,
    };
    let mut param = CifParam::default();
    param.cif_type = CifType::Ttl;
    param.cfg = CifCfg::Ttl(ttl);
    param.hdr_en = false;
    write_config(ctx, param);
    Ok(())
}

/// Configures `ctx` for BT.601 input.
pub fn set_bt601_attr(ctx: &mut CifCtx, attr: &TtlDevAttr, img_size: &ImgSize, clk_edge: ClkEdge) -> (r:
    Result<(), TtlError>)
    requires
        img_size.width >= 1,
        img_size.height >= 1,
    ensures
        final(ctx).mac_phys_regs == old(ctx).mac_phys_regs,
        final(ctx).wrap_phys_regs == old(ctx).wrap_phys_regs,
        final(ctx).mac_num == old(ctx).mac_num,
        attr.vi == TtlViSrc::Vi2 ==> r == Err::<(), TtlError>(TtlError::UnsupportedMode)
            && final(ctx).cur_config == old(ctx).cur_config,
        attr.vi != TtlViSrc::Vi2 ==> r is Ok && final(ctx).cur_config == Some(
            ttl_param(
                TtlFmt::Vhs19bBt601,
                (img_size.width - 1) as u16,
                (img_size.height - 1) as u16,
                or_default(attr.v_bp, 0x23),
                or_default(attr.h_bp, 0xbf),
                clk_edge_value(clk_edge),
                ttl_vi_mode_value(TtlViMode::Bt601),
                attr.vi,
            ),
        ),
{
    if attr.vi == TtlViSrc::Vi2 {
        return Err(TtlError::UnsupportedMode);
    }
    let ttl = ParamTtl {
        fmt: TtlFmt::Vhs19bBt601,
        sensor_fmt: TtlSensorFmt::Bit12,
        fmt_out: TtlBtFmtOut::Cbycry,
        width: (img_size.width - 1) as u16,
        height: (img_size.height - 1) as u16,
        v_bp: if attr.v_bp == 0 {
            0x23
        } else {
            attr.v_bp
        },
        h_bp: if attr.h_bp == 0 {
            0xbf
        } else {
            attr.h_bp
        },
        clk_inv: clk_edge_code(clk_edge),
        vi_sel: 2,
        vi_from: attr.vi,
    };
    let mut param = CifParam::default();
    param.cif_type = CifType::Ttl;
    param.cfg = CifCfg::Ttl(ttl);
    param.hdr_en = false;
    write_config(ctx, param);
    Ok(())
}

/// Configures `ctx` for BT.656 input.
pub fn set_bt656_attr(ctx: &mut CifCtx, attr: &TtlDevAttr, img_size: &ImgSize, clk_edge: ClkEdge) -> (r:
    Result<(), TtlError>)
    requires
        img_size.width >= 1,
        img_size.height >= 1,
    ensures
        final(ctx).mac_phys_regs == old(ctx).mac_phys_regs,
        final(ctx).wrap_phys_regs == old(ctx).wrap_phys_regs,
        final(ctx).mac_num == old(ctx).mac_num,
        r is Ok,
        final(ctx).cur_config == Some(
            ttl_param(
                TtlFmt::SyncPat9bBt656,
                (img_size.width - 1) as u16,
                (img_size.height - 1) as u16,
                or_default(attr.v_bp, 0x0f),
                or_default(attr.h_bp, 0x0f),
                clk_edge_value(clk_edge),
                ttl_vi_mode_value(TtlViMode::Bt656),
                attr.vi,
            ),
        ),
{
    let ttl = ParamTtl {
        fmt: TtlFmt::SyncPat9bBt656,
        sensor_fmt: TtlSensorFmt::Bit12,
        fmt_out: TtlBtFmtOut::Cbycry,
        width: (img_size.width - 1) as u16,
        height: (img_size.height - 1) as u16,
        v_bp: if attr.v_bp == 0 {
            0x0f
        } else {
            attr.v_bp
        },
        h_bp: if attr.h_bp == 0 {
            0x0f
        } else {
            attr.h_bp
        },
        clk_inv: clk_edge_code(clk_edge),
        vi_sel: 3,
        vi_from: attr.vi,
    };
    let mut param = CifParam::default();
    param.cif_type = CifType::Ttl;
    param.cfg = CifCfg::Ttl(ttl);
    param.hdr_en = false;
    write_config(ctx, param);
    Ok(())
}

/// The parameters of a BT demux device with `attr`, `img` and `clk_edge`.
pub open spec fn bt_demux_param(attr: BtDemuxAttr, img: ImgSize, clk_edge: ClkEdge) -> CifParam {
    CifParam {
        cif_type: CifType::BtDmux,
        cfg: CifCfg::Btdemux(
            ParamBtdemux {
                fmt: TtlFmt::SyncPat9bBt656,
                demux: attr.mode,
                width: (img.width - 1) as u16,
                height: (img.height - 1) as u16,
                v_fp: or_default(attr.v_fp, 0x0f),
                h_fp: or_default(attr.h_fp, 0x0f),
                v_bp: 0,
                h_bp: 0,
                clk_inv: clk_edge_value(clk_edge),
                sync_code_part_a: attr.sync_code_part_a,
                sync_code_part_b: attr.sync_code_part_b,
                yc_exchg: attr.yc_exchg as u8,
            },
        ),
        hdr_manual: false,
        hdr_shift: 0,
        hdr_vsize: 0,
        hdr_rm_padding: 0,
        info_line_num: 0,
        hdr_en: false,
    }
}

/// Configures `ctx` for a BT demux device.
pub fn set_bt_demux_attr(ctx: &mut CifCtx, attr: &BtDemuxAttr, img_size: &ImgSize, clk_edge: ClkEdge) -> (r:
    Result<(), TtlError>)
    requires
        img_size.width >= 1,
        img_size.height >= 1,
    ensures
        final(ctx).mac_phys_regs == old(ctx).mac_phys_regs,
        final(ctx).wrap_phys_regs == old(ctx).wrap_phys_regs,
        final(ctx).mac_num == old(ctx).mac_num,
        !demux_funcs_valid(attr.func@) ==> r == Err::<(), TtlError>(TtlError::InvalidPinFunc)
            && final(ctx).cur_config == old(ctx).cur_config,
        demux_funcs_valid(attr.func@) ==> r is Ok && final(ctx).cur_config == Some(
            bt_demux_param(*attr, *img_size, clk_edge),
        ),
{
    let mut i: usize = 4;
    while i < 12
        invariant
            4 <= i <= 12,
            forall|j: int| 4 <= j < i ==> attr.func@[j] < 8,
        decreases 12 - i,
    {
        if attr.func[i] >= 8 {
            return Err(TtlError::InvalidPinFunc);
        }
        i = i + 1;
    }
    let demux = ParamBtdemux {
        fmt: TtlFmt::SyncPat9bBt656,
        demux: attr.mode,
        width: (img_size.width - 1) as u16,
        height: (img_size.height - 1) as u16,
        v_fp: if attr.v_fp == 0 {
            0x0f
        } else {
            attr.v_fp
        },
        h_fp: if attr.h_fp == 0 {
            0x0f
        } else {
            attr.h_fp
        },
        v_bp: 0,
        h_bp: 0,
        clk_inv: clk_edge_code(clk_edge),
        sync_code_part_a: attr.sync_code_part_a,
        sync_code_part_b: attr.sync_code_part_b,
        yc_exchg: attr.yc_exchg as u8,
    };
    let mut param = CifParam::default();
    param.cif_type = CifType::BtDmux;
    param.cfg = CifCfg::Btdemux(demux);
    param.hdr_en = false;
    write_config(ctx, param);
    Ok(())
}

/// Records the BT output component order (nothing is written).
pub fn set_bt_fmt_out(ctx: &CifCtx, fmt_out: TtlBtFmtOut) {
}

/// Records a TTL pin assignment (nothing is written).
pub fn set_ttl_pinmux(ctx: &CifCtx, vi: TtlViSrc, func: usize, pad: u32) {
}

} // verus!
