//! Ready-made device attributes, a bring-up sequence for a MIPI sensor, and
//! frame data helpers (RAW10 unpacking, histograms).
use super::types::{
    default_manual_hdr, CamPllFreq, ComboDevAttr, Dphy, HdrMode, ImgSize, InputMode, LvdsBitEndian,
    LvdsDevAttr, LvdsFidType, LvdsFidTypeS, LvdsSyncMode, LvdsVsyncType, LvdsVsyncTypeS, MclkPll,
    MipiDemuxInfo, MipiDevAttr, MipiHdrMode, RawDataType, RxMacClk,
};
use super::{attr_config, default_link, vip_sys, CifDev, CifError, CifLink};
use crate::mmio::{read_at, Mmio, RegisterBus};
use vstd::prelude::*;

verus! {

/// Whether `a` is the attribute set of a GC4653 on MIPI link 0: 2560x1440
/// RAW10 over two data lanes (clock on PHY lane 2, data on lanes 1 and 3),
/// 27 MHz master clock, 400 MHz MAC clock.
pub open spec fn is_gc4653_mipi_attr(a: ComboDevAttr) -> bool {
    &&& a.input_mode == InputMode::Mipi
    &&& a.devno == 0
    &&& a.mac_clk == RxMacClk::Clk400M
    &&& a.img_size == (ImgSize { x: 0, y: 0, width: 2560, height: 1440 })
    &&& a.mclk == (MclkPll { cam: 0, freq: CamPllFreq::Freq27M })
    &&& a.hdr_manu == default_manual_hdr()
    &&& a.lvds_attr is None
    &&& a.ttl_attr is None
    &&& a.bt_demux_attr is None
    &&& a.mipi_attr matches Some(m) && {
        &&& m.raw_data_type == RawDataType::Raw10Bit
        &&& m.lane_id@ == seq![2i16, 1, 3, -1i16, -1i16]
        &&& m.hdr_mode == MipiHdrMode::Off
        &&& m.data_type@ == seq![0x2Bi16, 0]
        &&& m.pn_swap@ == seq![1i8, 1, 1, 0, 0]
        &&& m.dphy == (Dphy { enable: false, hs_settle: 0 })
        &&& !m.demux.demux_en
        &&& m.demux.vc_mapping@ == seq![0u8, 1, 2, 3]
    }
}

/// Whether `a` is the attribute set of a 1920x1080 RAW10 Sub-LVDS sensor on
/// link 0: four lanes in order, SAV sync, big-endian data and sync codes,
/// all sync codes zero, no swaps.
pub open spec fn is_sublvds_example_attr(a: ComboDevAttr) -> bool {
    &&& a.input_mode == InputMode::Sublvds
    &&& a.devno == 0
    &&& a.mac_clk == RxMacClk::Clk400M
    &&& a.img_size == (ImgSize { x: 0, y: 0, width: 1920, height: 1080 })
    &&& a.mclk == (MclkPll { cam: 0, freq: CamPllFreq::Disabled })
    &&& a.hdr_manu == default_manual_hdr()
    &&& a.mipi_attr is None
    &&& a.ttl_attr is None
    &&& a.bt_demux_attr is None
    &&& a.lvds_attr matches Some(l) && {
        &&& l.hdr_mode == HdrMode::Off
        &&& l.sync_mode == LvdsSyncMode::Sav
        &&& l.raw_data_type == RawDataType::Raw10Bit
        &&& l.data_endian == LvdsBitEndian::Big
        &&& l.sync_code_endian == LvdsBitEndian::Big
        &&& l.lane_id@ == seq![0i16, 1, 2, 3, -1i16]
        &&& forall|i: int, j: int, k: int| 0 <= i < 4 && 0 <= j < 3 && 0 <= k < 4
            ==> #[trigger] l.sync_code@[i]@[j]@[k] == 0
        &&& l.vsync_type == (LvdsVsyncTypeS { sync_type: LvdsVsyncType::Normal, hblank1: 0, hblank2: 0 })
        &&& l.fid_type == (LvdsFidTypeS { fid: LvdsFidType::Off })
        &&& l.pn_swap@ == seq![0i8, 0, 0, 0, 0]
    }
}

/// The device attributes of a GC4653 on MIPI link 0.
pub fn create_mipi_attr_for_gc4653() -> (a: ComboDevAttr)
    ensures
        is_gc4653_mipi_attr(a),
{
    let mut attr = ComboDevAttr::default();
    attr.input_mode = InputMode::Mipi;
    attr.devno = 0;
    attr.mac_clk = RxMacClk::Clk400M;
    attr.img_size = ImgSize { x: 0, y: 0, width: 2560, height: 1440 };
    attr.mclk = MclkPll { cam: 0, freq: CamPllFreq::Freq27M };
    let lane_id: [i16; 5] = [2, 1, 3, -1, -1];
    let data_type: [i16; 2] = [0x2B, 0];
    let pn_swap: [i8; 5] = [1, 1, 1, 0, 0];
    let vc_mapping: [u8; 4] = [0, 1, 2, 3];
    attr.mipi_attr = Some(MipiDevAttr {
        raw_data_type: RawDataType::Raw10Bit,
        lane_id,
        hdr_mode: MipiHdrMode::Off,
        data_type,
        pn_swap,
        dphy: Dphy { enable: false, hs_settle: 0 },
        demux: MipiDemuxInfo { demux_en: false, vc_mapping },
    });
    assert(lane_id@ =~= seq![2i16, 1, 3, -1i16, -1i16]);
    assert(data_type@ =~= seq![0x2Bi16, 0]);
    assert(pn_swap@ =~= seq![1i8, 1, 1, 0, 0]);
    assert(vc_mapping@ =~= seq![0u8, 1, 2, 3]);
    attr
}

/// The device attributes of a 1920x1080 RAW10 Sub-LVDS sensor on link 0.
pub fn create_sublvds_attr() -> (a: ComboDevAttr)
    ensures
        is_sublvds_example_attr(a),
{
    let mut attr = ComboDevAttr::default();
    attr.input_mode = InputMode::Sublvds;
    attr.devno = 0;
    attr.mac_clk = RxMacClk::Clk400M;
    attr.img_size = ImgSize { x: 0, y: 0, width: 1920, height: 1080 };
    let lane_id: [i16; 5] = [0, 1, 2, 3, -1];
    let pn_swap: [i8; 5] = [0, 0, 0, 0, 0];
    let code: [i16; 4] = [0, 0, 0, 0];
    let codes: [[i16; 4]; 3] = [code, code, code];
    let sync_code: [[[i16; 4]; 3]; 4] = [codes, codes, codes, codes];
    attr.lvds_attr = Some(LvdsDevAttr {
        hdr_mode: HdrMode::Off,
        sync_mode: LvdsSyncMode::Sav,
        raw_data_type: RawDataType::Raw10Bit,
        data_endian: LvdsBitEndian::Big,
        sync_code_endian: LvdsBitEndian::Big,
        lane_id,
        sync_code,
        vsync_type: LvdsVsyncTypeS { sync_type: LvdsVsyncType::Normal, hblank1: 0, hblank2: 0 },
        fid_type: LvdsFidTypeS { fid: LvdsFidType::Off },
        pn_swap,
    });
    assert(lane_id@ =~= seq![0i16, 1, 2, 3, -1i16]);
    assert(pn_swap@ =~= seq![0i8, 0, 0, 0, 0]);
    assert forall|i: int, j: int, k: int| 0 <= i < 4 && 0 <= j < 3 && 0 <= k < 4
        implies #[trigger] sync_code@[i]@[j]@[k] == 0 by {
        assert(sync_code@[i] == codes);
        assert(codes@[j] == code);
    }
    attr
}

/// Brings up camera interface 0 for a GC4653: a new device, its links
/// pointed at their registers, link 0 configured with
/// [`create_mipi_attr_for_gc4653`], and its sensor clock enabled.
pub fn init_cif_for_mipi<B: RegisterBus>(mmio: &mut Mmio<B>) -> (r: Result<CifDev, CifError>)
    ensures
        ({
            let ctx0 = super::CifCtx {
                mac_phys_regs: super::regs::SENSOR_MAC0_BASE,
                wrap_phys_regs: super::regs::DPHY_TOP_BASE,
                mac_num: 0,
                ..default_link().cif_ctx
            };
            let n = old(mmio).trace().len() as int;
            let t = final(mmio).trace();
            let mac = vip_sys::mac_clk_ops(0, RxMacClk::Clk400M, read_at(t, n));
            exists|a: ComboDevAttr| is_gc4653_mipi_attr(a) && match attr_config(ctx0, a, default_link().clk_edge) {
                Err(e) => r == Err::<CifDev, CifError>(e) && t == old(mmio).trace() + mac,
                Ok(ctx) => r matches Ok(d) && d.devno == 0 && d.links@[0] == (CifLink {
                    cif_ctx: ctx,
                    attr: a,
                    is_on: true,
                    mac_clk: RxMacClk::Clk400M,
                    ..default_link()
                }) && t == old(mmio).trace() + mac
                    + vip_sys::sensor_clock_ops(vip_sys::cam_pll_setting(CamPllFreq::Freq27M), t, n + 4),
            }
        }),
{
    let mut cif_dev = CifDev::new(0);
    cif_dev.init();
    let attr = create_mipi_attr_for_gc4653();
    match cif_dev.set_dev_attr(mmio, &attr) {
        Err(e) => {
            return Err(e);
        },
        Ok(()) => {},
    }
    let ghost t1 = mmio.trace();
    assert(t1.len() == old(mmio).trace().len() + 4);
    match cif_dev.enable_sensor_clock(mmio, 0, true) {
        Err(e) => {
            return Err(e);
        },
        Ok(()) => {},
    }
    Ok(cif_dev)
}

/// Bytes per line of a RAW10 image `width` pixels wide (10 bits per pixel,
/// rounded up to whole bytes).
pub open spec fn raw10_stride(width: u32) -> int {
    (width * 10 + 7) / 8
}

/// Pixel `k` (0 to 3) of the packed group of five bytes at `o` in `src`:
/// its eight high bits are byte `k`, its two low bits sit at bit `2k` of the
/// fifth byte.
pub open spec fn raw10_pixel(src: Seq<u8>, o: int, k: int) -> u16 {
    let b4 = src[o + 4] as u16;
    ((src[o + k] as u16) << 2u16) | (if k == 0 {
        b4 & 0x03
    } else if k == 1 {
        (b4 >> 2u16) & 0x03
    } else if k == 2 {
        (b4 >> 4u16) & 0x03
    } else {
        (b4 >> 6u16) & 0x03
    })
}

/// Group `j` (pixels `4j` to `4j + 3`) of line `y`, unpacked into `dst`
/// when both the group's five source bytes and its four destination pixels
/// lie inside the line's remainder of `src` and `dst`; `dst` as it is
/// otherwise.
pub open spec fn raw10_group(dst: Seq<u16>, src: Seq<u8>, width: u32, y: int, j: int) -> Seq<u16> {
    let x = 4 * j;
    let so = y * raw10_stride(width);
    let d = y * width;
    let o = so + x * 10 / 8;
    if x * 10 / 8 + 4 < src.len() - so && x + 3 < dst.len() - d {
        dst.update(d + x, raw10_pixel(src, o, 0))
            .update(d + x + 1, raw10_pixel(src, o, 1))
            .update(d + x + 2, raw10_pixel(src, o, 2))
            .update(d + x + 3, raw10_pixel(src, o, 3))
    } else {
        dst
    }
}

/// `dst` after groups 0 to `j - 1` of line `y`, in that order.
pub open spec fn raw10_line(dst: Seq<u16>, src: Seq<u8>, width: u32, y: int, j: int) -> Seq<u16>
    decreases j,
{
    if j <= 0 {
        dst
    } else {
        raw10_group(raw10_line(dst, src, width, y, j - 1), src, width, y, j - 1)
    }
}

/// `dst` after lines 0 to `n - 1`, in that order, each unpacked group by
/// group.
pub open spec fn raw10_lines(dst: Seq<u16>, src: Seq<u8>, width: u32, n: int) -> Seq<u16>
    decreases n,
{
    if n <= 0 {
        dst
    } else {
        raw10_line(raw10_lines(dst, src, width, n - 1), src, width, n - 1, (width + 3) / 4)
    }
}

/// Unpacks a RAW10 image (every four pixels packed into five bytes, lines
/// of [`raw10_stride`] bytes) into one 16-bit value per pixel, line by line
/// and group by group; a group that would run past the end of `src` or
/// `dst` is skipped.
pub fn convert_raw10_to_raw16(src: &[u8], dst: &mut [u16], width: u32, height: u32)
    requires
        width * height <= u32::MAX,
        width * 10 + 7 <= usize::MAX,
        height > 0 ==> (height - 1) * raw10_stride(width) <= src@.len(),
        height > 0 ==> (height - 1) * width <= old(dst)@.len(),
    ensures
        final(dst)@ == raw10_lines(old(dst)@, src@, width, height as int),
{
    let _pixels = (width * height) as usize;
    let src_total = src.len();
    let dst_total = dst.len();
    let src_stride = (width as usize * 10 + 7) / 8;
    let groups = (width as usize + 3) / 4;
    let h = height as usize;
    let w = width as usize;
    let mut y: usize = 0;
    while y < h
        invariant
            h == height,
            w == width,
            src_stride == raw10_stride(width),
            groups == (width + 3) / 4,
            y <= h,
            width * 10 + 7 <= usize::MAX,
            h > 0 ==> (h - 1) * src_stride <= src@.len(),
            h > 0 ==> (h - 1) * w <= old(dst)@.len(),
            dst@.len() == old(dst)@.len(),
            src_total == src@.len(),
            dst_total == old(dst)@.len(),
            dst@ == raw10_lines(old(dst)@, src@, width, y as int),
        decreases h - y,
    {
        proof {
            lemma_mul_le(y as int, h - 1, src_stride as int);
            lemma_mul_le(y as int, h - 1, w as int);
        }
        let so = y * src_stride;
        let d = y * w;
        let src_len = src_total - so;
        let dst_len = dst_total - d;
        let ghost line_start = dst@;
        let mut j: usize = 0;
        while j < groups
            invariant
                h == height,
                w == width,
                y < h,
                src_stride == raw10_stride(width),
                groups == (width + 3) / 4,
                width * 10 + 7 <= usize::MAX,
                so == y * src_stride,
                d == y * w,
                so <= src@.len(),
                d <= old(dst)@.len(),
                src_len == src@.len() - so,
                src_total == src@.len(),
                dst_total == old(dst)@.len(),
                dst_len == dst@.len() - d,
                dst@.len() == old(dst)@.len(),
                j <= groups,
                line_start == raw10_lines(old(dst)@, src@, width, y as int),
                dst@ == raw10_line(line_start, src@, width, y as int, j as int),
            decreases groups - j,
        {
            let x = 4 * j;
            assert(x <= w + 3);
            let byte_offset = x * 10 / 8;
            if byte_offset + 4 < src_len && x + 3 < dst_len {
                assert(so + byte_offset + 4 < src@.len());
                assert(d + x + 3 < dst@.len());
                let o = so + byte_offset;
                let b0 = src[o] as u16;
                let b1 = src[o + 1] as u16;
                let b2 = src[o + 2] as u16;
                let b3 = src[o + 3] as u16;
                let b4 = src[o + 4] as u16;
                dst[d + x] = (b0 << 2) | (b4 & 0x03);
                dst[d + x + 1] = (b1 << 2) | ((b4 >> 2) & 0x03);
                dst[d + x + 2] = (b2 << 2) | ((b4 >> 4) & 0x03);
                dst[d + x + 3] = (b3 << 2) | ((b4 >> 6) & 0x03);
            }
            j = j + 1;
        }
        y = y + 1;
    }
}

proof fn lemma_mul_le(a: int, b: int, c: int)
    requires
        0 <= a <= b,
        0 <= c,
    ensures
        a * c <= b * c,
{
    assert(a * c <= b * c) by (nonlinear_arith)
        requires
            0 <= a <= b,
            0 <= c,
    ;
}

/// A group of line `y` whose source bytes and destination pixels lie inside
/// the buffers is unpacked in place: its four pixels take their values, the
/// rest of `dst` is kept.
proof fn lemma_raw10_group(dst: Seq<u16>, src: Seq<u8>, width: u32, y: int, j: int)
    requires
        width % 4 == 0,
        0 <= y,
        0 <= j < width / 4,
        (y + 1) * raw10_stride(width) <= src.len(),
        (y + 1) * width <= dst.len(),
    ensures
        raw10_group(dst, src, width, y, j).len() == dst.len(),
        forall|k: int| 0 <= k < 4 ==> #[trigger] raw10_group(dst, src, width, y, j)[y * width + 4 * j + k]
            == raw10_pixel(src, y * raw10_stride(width) + 5 * j, k),
        forall|i: int| 0 <= i < dst.len() && !(y * width + 4 * j <= i < y * width + 4 * j + 4)
            ==> #[trigger] raw10_group(dst, src, width, y, j)[i] == dst[i],
{
    let stride = raw10_stride(width);
    assert(stride == width / 4 * 5);
    assert((y + 1) * stride == y * stride + stride) by (nonlinear_arith);
    assert((y + 1) * width == y * width + width) by (nonlinear_arith);
    assert((4 * j) * 10 / 8 == 5 * j);
}

/// After groups `0` to `j - 1` of line `y`, the pixels they cover are
/// unpacked and the rest of `dst` is kept.
proof fn lemma_raw10_line(dst: Seq<u16>, src: Seq<u8>, width: u32, y: int, j: int)
    requires
        width % 4 == 0,
        0 <= y,
        0 <= j <= width / 4,
        (y + 1) * raw10_stride(width) <= src.len(),
        (y + 1) * width <= dst.len(),
    ensures
        raw10_line(dst, src, width, y, j).len() == dst.len(),
        forall|x: int| 0 <= x < 4 * j ==> #[trigger] raw10_line(dst, src, width, y, j)[y * width + x]
            == raw10_pixel(src, y * raw10_stride(width) + x / 4 * 5, x % 4),
        forall|i: int| 0 <= i < dst.len() && !(y * width <= i < y * width + 4 * j)
            ==> #[trigger] raw10_line(dst, src, width, y, j)[i] == dst[i],
    decreases j,
{
    if j > 0 {
        lemma_raw10_line(dst, src, width, y, j - 1);
        let prev = raw10_line(dst, src, width, y, j - 1);
        lemma_raw10_group(prev, src, width, y, j - 1);
        let cur = raw10_line(dst, src, width, y, j);
        assert(cur == raw10_group(prev, src, width, y, j - 1));
        assert forall|x: int| 0 <= x < 4 * j implies #[trigger] cur[y * width + x]
            == raw10_pixel(src, y * raw10_stride(width) + x / 4 * 5, x % 4) by {
            if x < 4 * (j - 1) {
                assert(prev[y * width + x] == raw10_pixel(src, y * raw10_stride(width) + x / 4 * 5, x % 4));
            } else {
                let k = x - 4 * (j - 1);
                assert(x / 4 == j - 1 && x % 4 == k);
                assert(cur[y * width + 4 * (j - 1) + k] == raw10_pixel(src, y * raw10_stride(width) + 5 * (j - 1), k));
            }
        }
    }
}

/// After lines `0` to `n - 1`, their pixels are unpacked and the rest of
/// `dst` is kept.
proof fn lemma_raw10_lines(dst: Seq<u16>, src: Seq<u8>, width: u32, n: int)
    requires
        width % 4 == 0,
        0 <= n,
        n * raw10_stride(width) <= src.len(),
        n * width <= dst.len(),
    ensures
        raw10_lines(dst, src, width, n).len() == dst.len(),
        forall|y: int, x: int| 0 <= y < n && 0 <= x < width ==> #[trigger] raw10_lines(dst, src, width, n)[y * width + x]
            == raw10_pixel(src, y * raw10_stride(width) + x / 4 * 5, x % 4),
        forall|i: int| n * width <= i < dst.len() ==> #[trigger] raw10_lines(dst, src, width, n)[i] == dst[i],
    decreases n,
{
    if n > 0 {
        let stride = raw10_stride(width);
        assert((n - 1) * stride <= n * stride) by (nonlinear_arith)
            requires
                stride >= 0,
        ;
        assert((n - 1) * width <= n * width) by (nonlinear_arith);
        lemma_raw10_lines(dst, src, width, n - 1);
        let prev = raw10_lines(dst, src, width, n - 1);
        assert((width + 3) / 4 == width / 4);
        lemma_raw10_line(prev, src, width, n - 1, (width / 4) as int);
        let cur = raw10_lines(dst, src, width, n);
        assert(4 * (width / 4) == width);
        assert forall|y: int, x: int| 0 <= y < n && 0 <= x < width implies #[trigger] cur[y * width + x]
            == raw10_pixel(src, y * stride + x / 4 * 5, x % 4) by {
            if y < n - 1 {
                assert(y * width + x < (n - 1) * width) by (nonlinear_arith)
                    requires
                        y <= n - 2,
                        x < width,
                        0 <= x,
                ;
                assert(0 <= y * width) by (nonlinear_arith)
                    requires
                        0 <= y,
                ;
                assert(prev[y * width + x] == raw10_pixel(src, y * stride + x / 4 * 5, x % 4));
            }
        }
        assert forall|i: int| n * width <= i < dst.len() implies #[trigger] cur[i] == dst[i] by {
            assert((n - 1) * width + width == n * width) by (nonlinear_arith);
            assert(prev[i] == dst[i]);
        }
    }
}

/// A RAW10 image whose lines hold whole groups of four pixels, with `src`
/// holding all its lines and `dst` room for all its pixels, is unpacked
/// completely: pixel `x` of line `y` takes its eight high bits from byte
/// `x % 4` of its group of five bytes and its two low bits from the fifth;
/// the rest of `dst` is kept.
pub proof fn lemma_raw10_unpacks_every_pixel(dst: Seq<u16>, src: Seq<u8>, width: u32, height: u32)
    requires
        width % 4 == 0,
        height * raw10_stride(width) <= src.len(),
        height * width <= dst.len(),
    ensures
        raw10_lines(dst, src, width, height as int).len() == dst.len(),
        forall|y: int, x: int| 0 <= y < height && 0 <= x < width
            ==> #[trigger] raw10_lines(dst, src, width, height as int)[y * width + x]
            == raw10_pixel(src, y * raw10_stride(width) + x / 4 * 5, x % 4),
        forall|i: int| height * width <= i < dst.len() ==> #[trigger] raw10_lines(dst, src, width, height as int)[i] == dst[i],
{
    lemma_raw10_lines(dst, src, width, height as int);
}

/// How many elements of `s` equal `v`.
pub open spec fn count_value(s: Seq<u16>, v: u16) -> nat
    decreases s.len(),
{
    if s.len() == 0 {
        0
    } else {
        count_value(s.drop_last(), v) + if s.last() == v {
            1nat
        } else {
            0nat
        }
    }
}

/// Counting over one more element adds one exactly when it is the value.
pub proof fn lemma_count_value_step(s: Seq<u16>, i: int, v: u16)
    requires
        0 <= i < s.len(),
    ensures
        count_value(s.take(i + 1), v) == count_value(s.take(i), v) + if s[i] == v {
            1nat
        } else {
            0nat
        },
{
    assert(s.take(i + 1).drop_last() =~= s.take(i));
}

/// A count over a prefix is at most the count over a longer prefix.
pub proof fn lemma_count_value_prefix(s: Seq<u16>, i: int, n: int, v: u16)
    requires
        0 <= i <= n <= s.len(),
    ensures
        count_value(s.take(i), v) <= count_value(s.take(n), v),
    decreases n - i,
{
    if i < n {
        lemma_count_value_prefix(s, i, n - 1, v);
        lemma_count_value_step(s, n - 1, v);
    }
}

/// The histogram of the first `width * height` pixels of `data` over the
/// 1024 values of 10-bit data: bin `b` counts the pixels equal to `b`;
/// larger values are not counted.
pub fn calculate_histogram(data: &[u16], width: u32, height: u32, histogram: &mut [u32; 1024])
    requires
        width * height <= data@.len(),
        forall|b: u16| b < 1024 ==> #[trigger] count_value(data@.take(width * height), b) <= u32::MAX,
    ensures
        forall|b: int| 0 <= b < 1024 ==> #[trigger] final(histogram)@[b] == count_value(data@.take(width * height), b as u16),
{
    let mut i: usize = 0;
    while i < 1024
        invariant
            i <= 1024,
            forall|b: int| 0 <= b < i ==> #[trigger] histogram@[b] == 0,
        decreases 1024 - i,
    {
        histogram[i] = 0;
        i = i + 1;
    }
    let h = height as usize;
    let w = width as usize;
    let total = data.len();
    let ghost n = width * height;
    assert(h * w == n) by (nonlinear_arith)
        requires
            h == height,
            w == width,
            n == width * height,
    ;
    let mut y: usize = 0;
    while y < h
        invariant
            h == height,
            w == width,
            y <= h,
            n == width * height,
            h * w == n,
            n <= data@.len(),
            total == data@.len(),
            forall|b: u16| b < 1024 ==> #[trigger] count_value(data@.take(n), b) <= u32::MAX,
            forall|b: int| 0 <= b < 1024 ==> #[trigger] histogram@[b] == count_value(data@.take(y * w), b as u16),
        decreases h - y,
    {
        let mut x: usize = 0;
        proof {
            lemma_mul_le(y + 1, h as int, w as int);
            assert((y + 1) * w == y * w + w) by (nonlinear_arith);
        }
        while x < w
            invariant
                h == height,
                w == width,
                y < h,
                x <= w,
                n == width * height,
                (y + 1) * w <= n,
                (y + 1) * w == y * w + w,
                n <= data@.len(),
                total == data@.len(),
                forall|b: u16| b < 1024 ==> #[trigger] count_value(data@.take(n), b) <= u32::MAX,
                forall|b: int| 0 <= b < 1024 ==> #[trigger] histogram@[b] == count_value(data@.take(y * w + x), b as u16),
            decreases w - x,
        {
            let idx = y * w + x;
            let pixel = data[idx] as usize;
            let ghost before = histogram@;
            if pixel < 1024 {
                proof {
                    lemma_count_value_step(data@, idx as int, pixel as u16);
                    assert(histogram@[pixel as int] == count_value(data@.take(idx as int), pixel as u16));
                    lemma_count_value_prefix(data@, idx + 1, n, pixel as u16);
                    assert(count_value(data@.take(n), pixel as u16) <= u32::MAX);
                }
                histogram[pixel] = histogram[pixel] + 1;
            }
            proof {
                assert forall|b: int| 0 <= b < 1024 implies #[trigger] histogram@[b]
                    == count_value(data@.take(idx + 1), b as u16) by {
                    lemma_count_value_step(data@, idx as int, b as u16);
                    assert(before[b] == count_value(data@.take(idx as int), b as u16));
                }
            }
            x = x + 1;
        }
        y = y + 1;
    }
}

} // verus!
