//! The JPU decoder: owns the bitstream and frame buffers and drives one
//! baseline decode, in polling mode, from JPEG bytes to a planar YUV frame.
use super::engine::{
    decode_poll_ops, gram_page_ops, gram_tail_ops, huff_index_bits, huff_tables_fit, huff_upload_ops,
    lemma_ecs_fields, lemma_parity, poll_decode_done, quant_upload_ops, stream_pages, upload_huff_tables, upload_quant_tables, PollError,
    BBC_STREAM_PAGE_SIZE,
};
use super::header::{
    header_error_message, header_spec, parse_jpeg_header, sampling_format, HeaderModel, HeaderOutcome,
    JpegHeaderInfo,
};
use super::mem::{
    first_fit, init_jpu_memory, jpu_alloc, jpu_free, mark_run, pages_for, pool_pages, run_free, JpuMemState,
    PhysBuffer,
};
use super::regs::{
    bbc_strm_ctrl_value, clear_pic_status_at, hardware_init_at, hardware_init_ops, pic_ctrl_value, wait_bbc_idle_at,
    BBC_BAS_ADDR, BBC_BUSY, BBC_COMMAND, BBC_CTRL, BBC_CUR_POS, BBC_DATA_CNT, BBC_END_ADDR,
    BBC_EXT_ADDR, BBC_INT_ADDR, BBC_RD_PTR, BBC_STRM_CTRL, BBC_WR_PTR, CLP_INFO, DPB_BASE_CB,
    DPB_BASE_CR, DPB_BASE_Y, DPB_CONFIG, DPB_CSTRIDE, DPB_YSTRIDE, DPCM_DIFF_CB, DPCM_DIFF_CR,
    DPCM_DIFF_Y, FORMAT_224, FORMAT_400, FORMAT_420, FORMAT_422, FORMAT_444, GBU_BBER, GBU_BBHR,
    GBU_BBIR, GBU_BBSR, GBU_CTRL, GBU_FF_RPTR, GBU_TT_CNT, GBU_TT_CNT_H, GBU_WD_PTR, JPU_REG_BASE,
    MCU_INFO, OP_INFO, PIC_CTRL, PIC_ERRMB, PIC_SIZE, PIC_START, PIC_START_PIC, PIC_STATUS,
    POLL_LIMIT, ROT_INFO, RST_COUNT, RST_INDEX, RST_INTVAL, SCL_INFO, STREAM_BUF_SIZE,
    TOP_RST_JPEG_OFF, TOP_RST_JPEG_RELEASE_BIT, VC_REG_BASE, VMEM_PAGE_SIZE,
};
use crate::mmio::{modify32_ops, polled_until_clear, BusOp, Mmio, RegisterBus};
use crate::soc::TOP_BASE;
use vstd::prelude::*;

verus! {

/// A decoded frame: planar YUV of `yuv_len` bytes at `yuv_phys_addr`, valid
/// until the next decode.
#[derive(Clone, Copy, Debug, PartialEq, Eq)]
pub struct DecodeResult {
    pub width: u32,
    pub height: u32,
    pub yuv_len: usize,
    pub yuv_phys_addr: usize,
}

/// Base addresses of the register blocks the decoder uses.
#[derive(Clone, Copy, Debug, PartialEq, Eq)]
pub struct JpuMmio {
    pub jpu_base: usize,
    pub top_base: usize,
    pub vc_base: usize,
}

impl JpuMmio {
    /// The physical base addresses of the SG2002.
    pub fn default_bases() -> (m: Self)
        ensures
            m == (JpuMmio { jpu_base: JPU_REG_BASE, top_base: TOP_BASE, vc_base: VC_REG_BASE }),
    {
        JpuMmio { jpu_base: JPU_REG_BASE, top_base: TOP_BASE, vc_base: VC_REG_BASE }
    }
}

/// The frame layout of a decode: MCU-aligned picture size, plane strides
/// and sizes, and the per-format MCU parameters of the JPU.
#[derive(Clone, Copy, Debug, PartialEq, Eq, Structural)]
pub struct DecodeLayout {
    pub aligned_width: u32,
    pub aligned_height: u32,
    pub stride_y: u32,
    pub stride_c: u32,
    pub luma_size: usize,
    pub chroma_size: usize,
    pub mcu_block_num: u32,
    pub comp_info: u32,
    pub bus_req_num: u32,
}

/// `x` rounded up to a multiple of `a`.
pub open spec fn align_up(x: u32, a: int) -> int {
    ((x + a - 1) / a) * a
}

/// The MCU-aligned width: 16 pixels for 4:2:0 and horizontal 4:2:2, else 8.
pub open spec fn layout_width(format: u32, width: u32) -> int {
    if format == FORMAT_420 || format == FORMAT_422 {
        align_up(width, 16)
    } else {
        align_up(width, 8)
    }
}

/// The MCU-aligned height: 16 lines for 4:2:0 and vertical 4:2:2, else 8.
pub open spec fn layout_height(format: u32, height: u32) -> int {
    if format == FORMAT_420 || format == FORMAT_224 {
        align_up(height, 16)
    } else {
        align_up(height, 8)
    }
}

/// The chroma stride for a luma stride `aw`.
pub open spec fn layout_stride_c(format: u32, aw: int) -> int {
    if format == FORMAT_420 || format == FORMAT_422 {
        aw / 2
    } else if format == FORMAT_400 {
        0
    } else {
        aw
    }
}

/// The size of one chroma plane.
pub open spec fn layout_chroma(format: u32, luma: int, stride_c: int, ah: int) -> int {
    if format == FORMAT_422 || format == FORMAT_224 {
        luma / 2
    } else if format == FORMAT_444 {
        luma
    } else if format == FORMAT_400 {
        0
    } else {
        stride_c * ah / 2
    }
}

/// MCU block count, component layout and bus request count of `format`
/// (an unknown format is treated as 4:2:0).
pub open spec fn layout_mcu(format: u32) -> (u32, u32, u32) {
    if format == FORMAT_422 {
        (4, (9u32 << 8u32) | (5u32 << 4u32) | 5, 3)
    } else if format == FORMAT_224 {
        (4, (6u32 << 8u32) | (5u32 << 4u32) | 5, 3)
    } else if format == FORMAT_444 {
        (3, (5u32 << 8u32) | (5u32 << 4u32) | 5, 4)
    } else if format == FORMAT_400 {
        (1, 5u32 << 8u32, 4)
    } else {
        (6, (10u32 << 8u32) | (5u32 << 4u32) | 5, 2)
    }
}

/// Whether the layout of a `width` by `height` picture in `format` fits the
/// integer types it is computed in.
pub open spec fn decode_layout_fits(format: u32, width: u32, height: u32) -> bool {
    let aw = layout_width(format, width);
    let ah = layout_height(format, height);
    let luma = aw * ah;
    &&& aw <= u32::MAX
    &&& ah <= u32::MAX
    &&& luma <= u32::MAX
    &&& luma + 2 * layout_chroma(format, luma, layout_stride_c(format, aw), ah) <= usize::MAX
}

/// Whether the layout of a `width` by `height` picture in `format` fits the
/// integer types it is computed in, as [`JpuDecoder::decode`] requires.
pub fn decode_layout_fits_check(format: u32, width: u32, height: u32) -> (b: bool)
    ensures
        b == decode_layout_fits(format, width, height),
{
    let wa: u64 = if format == FORMAT_420 || format == FORMAT_422 {
        16
    } else {
        8
    };
    let ha: u64 = if format == FORMAT_420 || format == FORMAT_224 {
        16
    } else {
        8
    };
    let aw: u64 = (width as u64 + wa - 1) / wa * wa;
    let ah: u64 = (height as u64 + ha - 1) / ha * ha;
    if aw > u32::MAX as u64 || ah > u32::MAX as u64 {
        return false;
    }
    assert(aw * ah <= u32::MAX * u32::MAX) by (nonlinear_arith)
        requires
            aw <= u32::MAX,
            ah <= u32::MAX,
    ;
    let luma: u64 = aw * ah;
    if luma > u32::MAX as u64 {
        return false;
    }
    let sc: u64 = if format == FORMAT_420 || format == FORMAT_422 {
        aw / 2
    } else if format == FORMAT_400 {
        0
    } else {
        aw
    };
    assert(sc * ah <= aw * ah) by (nonlinear_arith)
        requires
            sc <= aw,
    ;
    let chroma: u64 = if format == FORMAT_422 || format == FORMAT_224 {
        luma / 2
    } else if format == FORMAT_444 {
        luma
    } else if format == FORMAT_400 {
        0
    } else {
        sc * ah / 2
    };
    assert(aw == layout_width(format, width));
    assert(ah == layout_height(format, height));
    assert(sc == layout_stride_c(format, aw as int));
    assert(chroma == layout_chroma(format, luma as int, sc as int, ah as int));
    luma + 2 * chroma <= usize::MAX as u64
}

/// `x` rounded up to a multiple of 8 or 16 lies in `[x, x + a)` and is a
/// multiple of `a`.
proof fn lemma_align_up(x: u32, a: int)
    requires
        a == 8 || a == 16,
    ensures
        x <= align_up(x, a) < x + a,
        align_up(x, a) % a == 0,
{
    let q = (x + a - 1) / a;
    assert(x <= q * a < x + a && (q * a) % a == 0) by (nonlinear_arith)
        requires
            q == (x + a - 1) / a,
            a == 8 || a == 16,
            x >= 0,
    ;
}

/// The decode layout follows the sampling of the picture's first component
/// (`h1` by `v1`, chroma sampled once): its MCU is `8 * h1` by `8 * v1`
/// pixels, the luma plane covers the picture rounded up to whole MCUs, a
/// chroma row is `1 / h1` of a luma row, and each chroma plane holds one
/// sample per `h1 * v1` luma samples; so a frame holds `(h1 * v1 + 2) /
/// (h1 * v1)` bytes per aligned pixel (3/2 for 4:2:0, as an I420 frame).
pub proof fn lemma_layout_follows_sampling(h1: u8, v1: u8, width: u32, height: u32)
    requires
        1 <= h1 <= 2,
        1 <= v1 <= 2,
        decode_layout_fits(sampling_format(h1, v1, 1, 1), width, height),
    ensures
        ({
            let l = decode_layout_of(sampling_format(h1, v1, 1, 1), width, height);
            let n = (h1 * v1) as int;
            &&& (l.aligned_width as int) % (8 * h1) == 0 && width <= l.aligned_width < width + 8 * h1
            &&& (l.aligned_height as int) % (8 * v1) == 0 && height <= l.aligned_height < height + 8 * v1
            &&& l.stride_y == l.aligned_width
            &&& l.stride_c * h1 == l.stride_y
            &&& l.luma_size == l.aligned_width * l.aligned_height
            &&& l.chroma_size * n == l.luma_size
            &&& decode_frame_size(l) * n == l.luma_size * (n + 2)
        }),
{
    let f = sampling_format(h1, v1, 1, 1);
    let wa: int = if h1 == 2 { 16 } else { 8 };
    let ha: int = if v1 == 2 { 16 } else { 8 };
    lemma_align_up(width, wa);
    lemma_align_up(height, ha);
    let aw = layout_width(f, width);
    let ah = layout_height(f, height);
    assert(aw == align_up(width, wa));
    assert(ah == align_up(height, ha));
    let luma = aw * ah;
    let sc = layout_stride_c(f, aw);
    let chroma = layout_chroma(f, luma, sc, ah);
    assert(aw % wa == 0 && ah % ha == 0);
    let p = aw / wa;
    let q = ah / ha;
    assert(aw == wa * p && ah == ha * q);
    let x = p * q;
    assert(luma == wa * ha * x) by (nonlinear_arith)
        requires
            luma == aw * ah,
            aw == wa * p,
            ah == ha * q,
            x == p * q,
    ;
    if h1 == 2 && v1 == 2 {
        assert(sc == 8 * p);
        assert(sc * ah == 128 * x) by (nonlinear_arith)
            requires
                sc == 8 * p,
                ah == 16 * q,
                x == p * q,
        ;
        assert(chroma == 64 * x);
    } else if h1 == 2 {
        assert(sc == 8 * p);
        assert(chroma == 64 * x);
    } else if v1 == 2 {
        assert(chroma == 64 * x);
    }
    assert(chroma * (h1 * v1) == luma) by (nonlinear_arith)
        requires
            (h1 == 2 && v1 == 2) ==> chroma == 64 * x && luma == 256 * x,
            (h1 == 2 && v1 == 1) ==> chroma == 64 * x && luma == 128 * x,
            (h1 == 1 && v1 == 2) ==> chroma == 64 * x && luma == 128 * x,
            (h1 == 1 && v1 == 1) ==> chroma == luma,
            1 <= h1 <= 2,
            1 <= v1 <= 2,
    ;
    assert(0 <= chroma <= luma <= u32::MAX);
    let n = (h1 * v1) as int;
    assert((luma + 2 * chroma) * n == luma * (n + 2)) by (nonlinear_arith)
        requires
            chroma * n == luma,
    ;
}

/// The layout of a `width` by `height` picture in `format`.
pub open spec fn decode_layout_of(format: u32, width: u32, height: u32) -> DecodeLayout {
    let aw = layout_width(format, width);
    let ah = layout_height(format, height);
    let sc = layout_stride_c(format, aw);
    let luma = aw * ah;
    let m = layout_mcu(format);
    DecodeLayout {
        aligned_width: aw as u32,
        aligned_height: ah as u32,
        stride_y: aw as u32,
        stride_c: sc as u32,
        luma_size: luma as usize,
        chroma_size: layout_chroma(format, luma, sc, ah) as usize,
        mcu_block_num: m.0,
        comp_info: m.1,
        bus_req_num: m.2,
    }
}

/// Bytes of a decoded frame: the luma plane and two chroma planes.
pub open spec fn decode_frame_size(l: DecodeLayout) -> int {
    l.luma_size + 2 * l.chroma_size
}

fn align_up_exec(x: u32, a: u32) -> (r: u32)
    requires
        a == 8 || a == 16,
        align_up(x, a as int) <= u32::MAX,
    ensures
        r == align_up(x, a as int),
{
    let q = x / a + if x % a == 0 { 0 } else { 1 };
    proof {
        if a == 8 {
            assert(q == (x + 7) / 8);
        } else {
            assert(q == (x + 15) / 16);
        }
    }
    assert(q * a <= u32::MAX);
    q * a
}

/// The frame size and layout of a decode of `header` (never an error).
fn frame_layout(header: &JpegHeaderInfo) -> (r: Result<(usize, DecodeLayout), &'static str>)
    requires
        decode_layout_fits(header.format, header.width, header.height),
    ensures
        ({
            let l = decode_layout_of(header.format, header.width, header.height);
            r == Ok::<(usize, DecodeLayout), &'static str>((decode_frame_size(l) as usize, l))
        }),
{
    let f = header.format;
    let aligned_width = if f == FORMAT_420 || f == FORMAT_422 {
        align_up_exec(header.width, 16)
    } else {
        align_up_exec(header.width, 8)
    };
    let aligned_height = if f == FORMAT_420 || f == FORMAT_224 {
        align_up_exec(header.height, 16)
    } else {
        align_up_exec(header.height, 8)
    };
    let stride_y = aligned_width;
    let stride_c = if f == FORMAT_420 || f == FORMAT_422 {
        aligned_width / 2
    } else if f == FORMAT_400 {
        0
    } else {
        aligned_width
    };
    assert(stride_c * aligned_height <= stride_y * aligned_height) by (nonlinear_arith)
        requires
            stride_c <= stride_y,
    ;
    let luma_size = (stride_y * aligned_height) as usize;
    let chroma_size = if f == FORMAT_422 || f == FORMAT_224 {
        luma_size / 2
    } else if f == FORMAT_444 {
        luma_size
    } else if f == FORMAT_400 {
        0
    } else {
        (stride_c * aligned_height / 2) as usize
    };
    let (mcu_block_num, comp_info, bus_req_num): (u32, u32, u32) = if f == FORMAT_422 {
        (4, (9 << 8) | (5 << 4) | 5, 3)
    } else if f == FORMAT_224 {
        (4, (6 << 8) | (5 << 4) | 5, 3)
    } else if f == FORMAT_444 {
        (3, (5 << 8) | (5 << 4) | 5, 4)
    } else if f == FORMAT_400 {
        (1, 5 << 8, 4)
    } else {
        (6, (10 << 8) | (5 << 4) | 5, 2)
    };
    Ok(
        (
            luma_size + chroma_size * 2,
            DecodeLayout {
                aligned_width,
                aligned_height,
                stride_y,
                stride_c,
                luma_size,
                chroma_size,
                mcu_block_num,
                comp_info,
                bus_req_num,
            },
        ),
    )
}

/// `x + y` modulo 2^32.
pub open spec fn wadd32(x: u32, y: u32) -> u32 {
    if x + y > u32::MAX {
        (x + y - 0x1_0000_0000) as u32
    } else {
        (x + y) as u32
    }
}

/// The register writes that describe the bitstream window (at `stream`,
/// `copy_len` bytes long) and the picture of a decode.
pub open spec fn direct_stream_ops(base: usize, stream: usize, copy_len: usize, h: HeaderModel, l: DecodeLayout) -> Seq<BusOp> {
    let w = |offset: usize, value: u32| BusOp::Write32 { base, offset, value };
    let start = stream as u32;
    let end = wadd32(stream as u32, copy_len as u32);
    seq![
        w(BBC_BAS_ADDR, start),
        w(BBC_END_ADDR, end),
        w(BBC_RD_PTR, start),
        w(BBC_WR_PTR, end),
        w(BBC_STRM_CTRL, 0x8000_0000u32 | (stream_pages(copy_len) & 0x7FFF_FFFF)),
        w(GBU_TT_CNT, 0),
        w(GBU_TT_CNT_H, 0),
        w(PIC_ERRMB, 0),
        w(PIC_CTRL, ((huff_index_bits(h.ac) & 0x7) << 10u32) | ((huff_index_bits(h.dc) & 0x7) << 7u32) | 0x40),
        w(PIC_SIZE, ((l.aligned_width & 0xFFFF) << 16u32) | (l.aligned_height & 0xFFFF)),
        w(ROT_INFO, 0),
        w(MCU_INFO, (l.mcu_block_num << 16u32) | (h.num_components << 12u32) | l.comp_info),
        w(DPB_CONFIG, 0),
        w(RST_INTVAL, h.restart_interval),
        w(SCL_INFO, 0),
        w(OP_INFO, l.bus_req_num),
    ]
}

/// Programs the bitstream window, picture size, MCU layout, restart
/// interval and bus request count of a decode.
fn configure_stream_regs<B: RegisterBus>(
    mmio: &mut Mmio<B>,
    jpu_base: usize,
    stream_dma: usize,
    copy_len: usize,
    header: &JpegHeaderInfo,
    layout: DecodeLayout,
)
    ensures
        final(mmio).trace() == old(mmio).trace() + direct_stream_ops(jpu_base, stream_dma, copy_len, header@, layout),
{
    let ghost t0 = mmio.trace();
    let stream_phys = stream_dma as u32;
    let stream_end = stream_phys.wrapping_add(copy_len as u32);
    mmio.write32(jpu_base, BBC_BAS_ADDR, stream_phys);
    mmio.write32(jpu_base, BBC_END_ADDR, stream_end);
    mmio.write32(jpu_base, BBC_RD_PTR, stream_phys);
    mmio.write32(jpu_base, BBC_WR_PTR, stream_end);
    let strm_pages = (copy_len / BBC_STREAM_PAGE_SIZE + if copy_len % BBC_STREAM_PAGE_SIZE == 0 {
        0
    } else {
        1
    }) as u32;
    mmio.write32(jpu_base, BBC_STRM_CTRL, bbc_strm_ctrl_value(strm_pages));
    mmio.write32(jpu_base, GBU_TT_CNT, 0);
    mmio.write32(jpu_base, GBU_TT_CNT_H, 0);
    mmio.write32(jpu_base, PIC_ERRMB, 0);
    let dc = huff_index(&header.dc_huff_tbl);
    let ac = huff_index(&header.ac_huff_tbl);
    mmio.write32(jpu_base, PIC_CTRL, pic_ctrl_value(dc, ac));
    mmio.write32(jpu_base, PIC_SIZE, ((layout.aligned_width & 0xFFFF) << 16u32) | (layout.aligned_height & 0xFFFF));
    mmio.write32(jpu_base, ROT_INFO, 0);
    mmio.write32(jpu_base, MCU_INFO, (layout.mcu_block_num << 16u32) | (header.num_components << 12u32) | layout.comp_info);
    mmio.write32(jpu_base, DPB_CONFIG, 0);
    mmio.write32(jpu_base, RST_INTVAL, header.restart_interval);
    mmio.write32(jpu_base, SCL_INFO, 0);
    mmio.write32(jpu_base, OP_INFO, layout.bus_req_num);
    assert(mmio.trace() =~= t0 + direct_stream_ops(jpu_base, stream_dma, copy_len, header@, layout));
}

/// The three table selections of `t`, one bit each.
fn huff_index(t: &[usize; 3]) -> (r: u32)
    ensures
        r == huff_index_bits(t@),
{
    let mut idx: u32 = 0;
    let mut i: usize = 0;
    while i < 3
        invariant
            0 <= i <= 3,
            idx == if i == 0 {
                0u32
            } else if i == 1 {
                (0u32 << 1u32) | (t@[0] as u32)
            } else if i == 2 {
                (((0u32 << 1u32) | (t@[0] as u32)) << 1u32) | (t@[1] as u32)
            } else {
                huff_index_bits(t@)
            },
        decreases 3 - i,
    {
        idx = (idx << 1u32) | t[i] as u32;
        i = i + 1;
    }
    idx
}

/// The bus address of bitstream page `page` of the stream at `stream`.
pub open spec fn direct_page_address(stream: usize, page: int) -> u32 {
    wadd32(stream as u32, (page as u32) << 8u32)
}

fn gram_fetch_page<B: RegisterBus>(mmio: &mut Mmio<B>, jpu_base: usize, stream_dma: usize, page: usize)
    ensures
        exists|polls: Seq<BusOp>, idle: bool|
            #![trigger polled_until_clear(polls, jpu_base, BBC_BUSY, 1, POLL_LIMIT as int, idle)]
            polled_until_clear(polls, jpu_base, BBC_BUSY, 1, POLL_LIMIT as int, idle)
                && final(mmio).trace() == old(mmio).trace() + gram_page_ops(jpu_base, page as int,
                direct_page_address(stream_dma, page as int)) + polls,
{
    let ghost t0 = mmio.trace();
    let addr = (stream_dma as u32).wrapping_add((page as u32) << 8u32);
    proof {
        lemma_parity(page);
    }
    mmio.write32(jpu_base, BBC_CUR_POS, page as u32);
    mmio.write32(jpu_base, BBC_EXT_ADDR, addr);
    mmio.write32(jpu_base, BBC_INT_ADDR, ((page & 1) as u32) << 6u32);
    mmio.write32(jpu_base, BBC_DATA_CNT, (BBC_STREAM_PAGE_SIZE as u32) / 4);
    mmio.write32(jpu_base, BBC_COMMAND, 0);
    let ghost t1 = mmio.trace();
    assert(t1 =~= t0 + gram_page_ops(jpu_base, page as int, addr));
    let idle = wait_bbc_idle_at(mmio, jpu_base);
    proof {
        let t = mmio.trace();
        let polls = t.subrange(t1.len() as int, t.len() as int);
        assert(t =~= t.subrange(0, t1.len() as int) + polls);
        assert(polled_until_clear(polls, jpu_base, BBC_BUSY, 1, POLL_LIMIT as int, idle));
    }
}

/// Prefetches the two bitstream pages holding the start of the entropy-coded
/// segment into GRAM and positions the bitstream reader on its first bit.
fn gram_setup<B: RegisterBus>(mmio: &mut Mmio<B>, jpu_base: usize, stream_dma: usize, header: &JpegHeaderInfo) -> (r:
    Result<(), &'static str>)
    ensures
        r is Ok,
        ({
            let p = header.ecs_offset / 256;
            exists|p0: Seq<BusOp>, i0: bool, p1: Seq<BusOp>, i1: bool|
                #![trigger polled_until_clear(p0, jpu_base, BBC_BUSY, 1, POLL_LIMIT as int, i0), polled_until_clear(p1, jpu_base, BBC_BUSY, 1, POLL_LIMIT as int, i1)]
                polled_until_clear(p0, jpu_base, BBC_BUSY, 1, POLL_LIMIT as int, i0)
                    && polled_until_clear(p1, jpu_base, BBC_BUSY, 1, POLL_LIMIT as int, i1)
                    && final(mmio).trace() == old(mmio).trace()
                    + gram_page_ops(jpu_base, p as int, direct_page_address(stream_dma, p as int)) + p0
                    + gram_page_ops(jpu_base, p + 1, direct_page_address(stream_dma, p + 1)) + p1
                    + gram_tail_ops(jpu_base, header.ecs_offset)
        }),
{
    let ghost t0 = mmio.trace();
    let ecs_offset = header.ecs_offset;
    let page_ptr = ecs_offset >> 8usize;
    let mut word_ptr = (ecs_offset & 0xF0) >> 2usize;
    let bit_ptr = (ecs_offset & 0xF) << 3usize;
    proof {
        lemma_ecs_fields(ecs_offset);
        lemma_parity(page_ptr);
    }
    if page_ptr & 1 != 0 {
        word_ptr = word_ptr + 64;
    }
    assert(word_ptr % 2 == 0);
    if word_ptr & 1 != 0 {
        proof {
            lemma_parity(word_ptr);
        }
        word_ptr = word_ptr - 1;
    }
    gram_fetch_page(mmio, jpu_base, stream_dma, page_ptr);
    gram_fetch_page(mmio, jpu_base, stream_dma, page_ptr + 1);
    let ghost t2 = mmio.trace();
    mmio.write32(jpu_base, BBC_CUR_POS, (page_ptr + 2) as u32);
    mmio.write32(jpu_base, BBC_CTRL, 1);
    mmio.write32(jpu_base, GBU_WD_PTR, word_ptr as u32);
    mmio.write32(jpu_base, GBU_BBSR, 0);
    mmio.write32(jpu_base, GBU_BBER, ((256 / 4) * 2) - 1);
    if page_ptr & 1 != 0 {
        mmio.write32(jpu_base, GBU_BBIR, 0);
        mmio.write32(jpu_base, GBU_BBHR, 0);
    } else {
        mmio.write32(jpu_base, GBU_BBIR, 256 / 4);
        mmio.write32(jpu_base, GBU_BBHR, 256 / 4);
    }
    mmio.write32(jpu_base, GBU_CTRL, 4);
    mmio.write32(jpu_base, GBU_FF_RPTR, bit_ptr as u32);
    assert(mmio.trace() =~= t2 + gram_tail_ops(jpu_base, ecs_offset));
    Ok(())
}

/// The writes and the status acknowledgement that start a decode into the
/// frame at `frame` with layout `l`, given the status value read.
pub open spec fn direct_start_ops(base: usize, frame: usize, ecs_offset: usize, l: DecodeLayout, status: u32) -> Seq<BusOp> {
    let w = |offset: usize, value: u32| BusOp::Write32 { base, offset, value };
    seq![
        w(RST_INDEX, 0),
        w(RST_COUNT, 0),
        w(DPCM_DIFF_Y, 0),
        w(DPCM_DIFF_CB, 0),
        w(DPCM_DIFF_CR, 0),
        w(GBU_FF_RPTR, ((ecs_offset & 0xF) << 3usize) as u32),
        w(GBU_CTRL, 3),
        w(DPB_BASE_Y, frame as u32),
        w(DPB_BASE_CB, wadd32(frame as u32, l.luma_size as u32)),
        w(DPB_BASE_CR, wadd32(wadd32(frame as u32, l.luma_size as u32), l.chroma_size as u32)),
        w(DPB_YSTRIDE, l.stride_y),
        w(DPB_CSTRIDE, l.stride_c),
        w(CLP_INFO, 0),
        BusOp::Read32 { base, offset: PIC_STATUS, value: status },
        w(PIC_STATUS, status),
        w(PIC_START, PIC_START_PIC),
    ]
}

/// Resets the restart and DPCM state, sets the plane addresses (the chroma
/// planes follow the luma plane; addresses are the low 32 bits) and strides, acknowledges any pending
/// status and starts the picture.
fn start_decode<B: RegisterBus>(mmio: &mut Mmio<B>, jpu_base: usize, frame_dma: usize, header: &JpegHeaderInfo, layout: DecodeLayout) -> (r:
    Result<(), &'static str>)
    ensures
        r is Ok,
        exists|status: u32|
            #![trigger direct_start_ops(jpu_base, frame_dma, header.ecs_offset, layout, status)]
            final(mmio).trace() == old(mmio).trace() + direct_start_ops(jpu_base, frame_dma, header.ecs_offset, layout, status),
{
    let ghost t0 = mmio.trace();
    mmio.write32(jpu_base, RST_INDEX, 0);
    mmio.write32(jpu_base, RST_COUNT, 0);
    mmio.write32(jpu_base, DPCM_DIFF_Y, 0);
    mmio.write32(jpu_base, DPCM_DIFF_CB, 0);
    mmio.write32(jpu_base, DPCM_DIFF_CR, 0);
    let ecs = header.ecs_offset;
    let bit_ptr = (ecs & 0xF) << 3usize;
    proof {
        lemma_ecs_fields(ecs);
    }
    mmio.write32(jpu_base, GBU_FF_RPTR, bit_ptr as u32);
    mmio.write32(jpu_base, GBU_CTRL, 3);
    let y32 = frame_dma as u32;
    let cb32 = y32.wrapping_add(layout.luma_size as u32);
    let cr32 = cb32.wrapping_add(layout.chroma_size as u32);
    mmio.write32(jpu_base, DPB_BASE_Y, y32);
    mmio.write32(jpu_base, DPB_BASE_CB, cb32);
    mmio.write32(jpu_base, DPB_BASE_CR, cr32);
    mmio.write32(jpu_base, DPB_YSTRIDE, layout.stride_y);
    mmio.write32(jpu_base, DPB_CSTRIDE, layout.stride_c);
    mmio.write32(jpu_base, CLP_INFO, 0);
    let status = mmio.read32(jpu_base, PIC_STATUS);
    clear_pic_status_at(mmio, jpu_base, status);
    mmio.write32(jpu_base, PIC_START, PIC_START_PIC);
    assert(mmio.trace() =~= t0 + direct_start_ops(jpu_base, frame_dma, header.ecs_offset, layout, status));
    Ok(())
}

/// The message a decode gives for a poll that ended with `e`.
pub open spec fn poll_error_text(e: PollError) -> Seq<char> {
    match e {
        PollError::Decode => "JPU decode error"@,
        PollError::Timeout => "JPU decode timeout"@,
    }
}

/// The message for a poll that ended with `e`.
pub fn poll_error_message(e: PollError) -> (m: &'static str)
    ensures
        m@ == poll_error_text(e),
{
    match e {
        PollError::Decode => "JPU decode error",
        PollError::Timeout => "JPU decode timeout",
    }
}

/// The accesses of a decode once its frame buffer (at `frame_addr`, `size`
/// bytes used) is chosen: the frame's cache lines discarded (when the CPU
/// reads the output), the bitstream mapped (to `sd`) and its window, picture
/// and MCU registers programmed, the Huffman and quantisation tables
/// uploaded, the first two bitstream pages fetched into GRAM (each followed
/// by its wait, `p0` and `p1`) and the bit reader positioned, the frame
/// mapped (to `fd`), the decode started (acknowledging `status`), and the
/// poll for its end (`polls`).
pub open spec fn decode_run_ops(
    base: usize,
    stream_addr: usize,
    copy_len: usize,
    frame_addr: usize,
    size: usize,
    cpu_reads: bool,
    h: HeaderModel,
    l: DecodeLayout,
    sd: usize,
    fd: usize,
    p0: Seq<BusOp>,
    p1: Seq<BusOp>,
    status: u32,
    polls: Seq<BusOp>,
) -> Seq<BusOp> {
    let pg = h.ecs_offset / 256;
    (if cpu_reads {
        seq![BusOp::CacheInvalidate { addr: frame_addr, len: size }]
    } else {
        Seq::empty()
    }) + seq![BusOp::DmaMap { cpu: stream_addr, device: sd }] + direct_stream_ops(base, sd, copy_len, h, l)
        + huff_upload_ops(base, h) + quant_upload_ops(
        base,
        h,
        if h.num_components < 3 {
            h.num_components as nat
        } else {
            3
        },
    ) + gram_page_ops(base, pg as int, direct_page_address(sd, pg as int)) + p0 + gram_page_ops(
        base,
        pg + 1,
        direct_page_address(sd, pg + 1),
    ) + p1 + gram_tail_ops(base, h.ecs_offset) + seq![BusOp::DmaMap { cpu: frame_addr, device: fd }]
        + direct_start_ops(base, fd, h.ecs_offset, l, status) + polls
}

/// `ops` are the accesses of a decode run (see [`decode_run_ops`]) whose
/// poll ended with `outcome`.
pub open spec fn decode_run(
    ops: Seq<BusOp>,
    base: usize,
    stream_addr: usize,
    copy_len: usize,
    frame_addr: usize,
    size: usize,
    cpu_reads: bool,
    h: HeaderModel,
    l: DecodeLayout,
    outcome: Result<(), PollError>,
) -> bool {
    exists|sd: usize, fd: usize, p0: Seq<BusOp>, i0: bool, p1: Seq<BusOp>, i1: bool, status: u32, polls: Seq<BusOp>, k: int|
        #![trigger decode_run_ops(base, stream_addr, copy_len, frame_addr, size, cpu_reads, h, l, sd, fd, p0, p1, status, polls), polled_until_clear(p0, base, BBC_BUSY, 1, POLL_LIMIT as int, i0), polled_until_clear(p1, base, BBC_BUSY, 1, POLL_LIMIT as int, i1), decode_poll_ops(polls, base, k, outcome)]
        {
            &&& polled_until_clear(p0, base, BBC_BUSY, 1, POLL_LIMIT as int, i0)
            &&& polled_until_clear(p1, base, BBC_BUSY, 1, POLL_LIMIT as int, i1)
            &&& decode_poll_ops(polls, base, k, outcome)
            &&& ops == decode_run_ops(base, stream_addr, copy_len, frame_addr, size, cpu_reads, h, l, sd, fd, p0, p1, status, polls)
        }
}

/// Programs and runs one decode into the frame at `frame_addr`, polling for
/// its end; the result is how the poll ended.
fn run_decode<B: RegisterBus>(
    mmio: &mut Mmio<B>,
    jpu_base: usize,
    stream_addr: usize,
    copy_len: usize,
    frame_addr: usize,
    size: usize,
    cpu_reads: bool,
    header: &JpegHeaderInfo,
    layout: DecodeLayout,
) -> (r: Result<(), PollError>)
    requires
        huff_tables_fit(header@),
    ensures
        final(mmio).trace().len() >= old(mmio).trace().len(),
        final(mmio).trace().take(old(mmio).trace().len() as int) == old(mmio).trace(),
        decode_run(
            final(mmio).trace().skip(old(mmio).trace().len() as int),
            jpu_base,
            stream_addr,
            copy_len,
            frame_addr,
            size,
            cpu_reads,
            header@,
            layout,
            r,
        ),
{
    let ghost t0 = mmio.trace();
    let ghost x: Seq<BusOp> = if cpu_reads {
        seq![BusOp::CacheInvalidate { addr: frame_addr, len: size }]
    } else {
        Seq::empty()
    };
    if cpu_reads {
        mmio.dcache_invalidate(frame_addr, size);
    }
    proof {
        assert(mmio.trace() =~= t0 + x);
    }
    let ghost tb = mmio.trace();
    let stream_dma = mmio.dma_address(stream_addr);
    proof {
        assert(mmio.trace() =~= t0 + x + seq![BusOp::DmaMap { cpu: stream_addr, device: stream_dma }]);
        lemma_append(t0, x, seq![BusOp::DmaMap { cpu: stream_addr, device: stream_dma }], mmio.trace());
        x = x + seq![BusOp::DmaMap { cpu: stream_addr, device: stream_dma }];
    }
    configure_stream_regs(mmio, jpu_base, stream_dma, copy_len, header, layout);
    proof {
        lemma_append(t0, x, direct_stream_ops(jpu_base, stream_dma, copy_len, header@, layout), mmio.trace());
        x = x + direct_stream_ops(jpu_base, stream_dma, copy_len, header@, layout);
    }
    let _ = upload_huff_tables(mmio, jpu_base, header);
    proof {
        lemma_append(t0, x, huff_upload_ops(jpu_base, header@), mmio.trace());
        x = x + huff_upload_ops(jpu_base, header@);
    }
    let _ = upload_quant_tables(mmio, jpu_base, header);
    let ghost nq: nat = if header.num_components < 3 {
        header.num_components as nat
    } else {
        3
    };
    proof {
        lemma_append(t0, x, quant_upload_ops(jpu_base, header@, nq), mmio.trace());
        x = x + quant_upload_ops(jpu_base, header@, nq);
    }
    let ghost tg = mmio.trace();
    let _ = gram_setup(mmio, jpu_base, stream_dma, header);
    let ghost pg = header.ecs_offset / 256;
    let ghost gp0 = gram_page_ops(jpu_base, pg as int, direct_page_address(stream_dma, pg as int));
    let ghost gp1 = gram_page_ops(jpu_base, pg + 1, direct_page_address(stream_dma, pg + 1));
    let ghost gt = gram_tail_ops(jpu_base, header.ecs_offset);
    let ghost (p0, i0, p1, i1): (Seq<BusOp>, bool, Seq<BusOp>, bool) = choose|p0: Seq<BusOp>, i0: bool, p1: Seq<BusOp>, i1: bool|
        #![trigger polled_until_clear(p0, jpu_base, BBC_BUSY, 1, POLL_LIMIT as int, i0), polled_until_clear(p1, jpu_base, BBC_BUSY, 1, POLL_LIMIT as int, i1)]
        polled_until_clear(p0, jpu_base, BBC_BUSY, 1, POLL_LIMIT as int, i0)
            && polled_until_clear(p1, jpu_base, BBC_BUSY, 1, POLL_LIMIT as int, i1)
            && mmio.trace() == tg + gp0 + p0 + gp1 + p1 + gt;
    proof {
        lemma_append(t0, x, gp0, tg + gp0);
        lemma_append(t0, x + gp0, p0, tg + gp0 + p0);
        lemma_append(t0, x + gp0 + p0, gp1, tg + gp0 + p0 + gp1);
        lemma_append(t0, x + gp0 + p0 + gp1, p1, tg + gp0 + p0 + gp1 + p1);
        lemma_append(t0, x + gp0 + p0 + gp1 + p1, gt, mmio.trace());
        x = x + gp0 + p0 + gp1 + p1 + gt;
    }
    let ghost tf = mmio.trace();
    let frame_dma = mmio.dma_address(frame_addr);
    proof {
        assert(mmio.trace() =~= tf + seq![BusOp::DmaMap { cpu: frame_addr, device: frame_dma }]);
        lemma_append(t0, x, seq![BusOp::DmaMap { cpu: frame_addr, device: frame_dma }], mmio.trace());
        x = x + seq![BusOp::DmaMap { cpu: frame_addr, device: frame_dma }];
    }
    let ghost ts = mmio.trace();
    let _ = start_decode(mmio, jpu_base, frame_dma, header, layout);
    let ghost status: u32 = choose|status: u32|
        #![trigger direct_start_ops(jpu_base, frame_dma, header.ecs_offset, layout, status)]
        mmio.trace() == ts + direct_start_ops(jpu_base, frame_dma, header.ecs_offset, layout, status);
    proof {
        lemma_append(t0, x, direct_start_ops(jpu_base, frame_dma, header.ecs_offset, layout, status), mmio.trace());
        x = x + direct_start_ops(jpu_base, frame_dma, header.ecs_offset, layout, status);
    }
    let ghost tp = mmio.trace();
    let r = poll_decode_done(mmio, jpu_base);
    proof {
        let t = mmio.trace();
        let polls = t.subrange(tp.len() as int, t.len() as int);
        assert(exists|k: int| decode_poll_ops(polls, jpu_base, k, r));
        let k = choose|k: int| decode_poll_ops(polls, jpu_base, k, r);
        assert(t.subrange(0, tp.len() as int) == tp);
        assert(t =~= tp + polls);
        lemma_append(t0, x, polls, t);
        x = x + polls;
        assert(x == decode_run_ops(jpu_base, stream_addr, copy_len, frame_addr, size, cpu_reads, header@, layout,
            stream_dma, frame_dma, p0, p1, status, polls));
        assert(t.skip(t0.len() as int) =~= x);
        assert(t.take(t0.len() as int) =~= t0);
        assert(decode_run(t.skip(t0.len() as int), jpu_base, stream_addr, copy_len, frame_addr, size, cpu_reads,
            header@, layout, r));
    }
    r
}

/// A trace `t` that is `t0 + x` followed by `s` is `t0` followed by `x + s`.
proof fn lemma_append(t0: Seq<BusOp>, x: Seq<BusOp>, s: Seq<BusOp>, t: Seq<BusOp>)
    requires
        t == t0 + x + s,
    ensures
        t == t0 + (x + s),
{
    assert(t =~= t0 + (x + s));
}

/// The pool's pages once the frame buffer `fb` is handed back, as a decode
/// without an output buffer does before it allocates its frame.
pub open spec fn released_view(m: JpuMemState, fb: PhysBuffer) -> Seq<bool> {
    if !fb.empty_spec() && m.is_initialized() && m.pool_spec().frees(fb) {
        mark_run(
            m.pool_view(),
            (fb.addr - m.pool_spec().base_spec()) / (VMEM_PAGE_SIZE as int),
            (fb.size as int) / (VMEM_PAGE_SIZE as int),
            true,
        )
    } else {
        m.pool_view()
    }
}

/// A frame of `size` bytes can be allocated from pool `m` with pages `v`.
pub open spec fn frame_fits(m: JpuMemState, v: Seq<bool>, size: int) -> bool {
    &&& m.is_initialized()
    &&& size > 0
    &&& exists|s: int| run_free(v, s, pages_for(size))
}

/// A JPU decoder with its register handle, its buffer pool and its buffers.
pub struct JpuDecoder<B> {
    mmio: JpuMmio,
    regs: Mmio<B>,
    mem: JpuMemState,
    stream_buf: PhysBuffer,
    frame_buf: PhysBuffer,
    initialized: bool,
    output_buf: Option<PhysBuffer>,
    cpu_reads_output: bool,
}

impl<B: RegisterBus> JpuDecoder<B> {
    pub closed spec fn wf(&self) -> bool {
        self.mem.wf()
    }

    pub closed spec fn bases(&self) -> JpuMmio {
        self.mmio
    }

    pub closed spec fn trace(&self) -> Seq<BusOp> {
        self.regs.trace()
    }

    pub closed spec fn is_initialized(&self) -> bool {
        self.initialized
    }

    pub closed spec fn stream_buffer(&self) -> PhysBuffer {
        self.stream_buf
    }

    pub closed spec fn frame_buffer(&self) -> PhysBuffer {
        self.frame_buf
    }

    pub closed spec fn output_buffer(&self) -> Option<PhysBuffer> {
        self.output_buf
    }

    pub closed spec fn cpu_reads(&self) -> bool {
        self.cpu_reads_output
    }

    /// The decoder's buffer pool.
    pub closed spec fn memory(&self) -> JpuMemState {
        self.mem
    }

    /// Creates a decoder at the default base addresses over `bus`: initialises
    /// the buffer pool over `[pool_base, pool_base + pool_size)`, initialises
    /// the JPU and allocates the bitstream buffer.
    pub fn new(bus: B, pool_base: usize, pool_size: usize) -> (r: Result<Self, &'static str>)
        requires
            pool_base + pool_size <= usize::MAX,
        ensures
            r matches Err(m) ==> m@ == "Failed to allocate stream buffer"@,
            r matches Ok(d) ==> d.fresh(JpuMmio { jpu_base: JPU_REG_BASE, top_base: TOP_BASE, vc_base: VC_REG_BASE }),
            r is Ok <==> pool_pages(pool_base, pool_size) >= pages_for(STREAM_BUF_SIZE as int),
    {
        Self::new_with_bases(bus, JpuMmio::default_bases(), pool_base, pool_size, true)
    }

    /// Creates a decoder with its register blocks at the given bases; otherwise
    /// as [`new`](Self::new).
    pub fn new_at(bus: B, jpu_base: usize, top_base: usize, vc_base: usize, pool_base: usize, pool_size: usize) -> (r:
        Result<Self, &'static str>)
        requires
            pool_base + pool_size <= usize::MAX,
        ensures
            r matches Err(m) ==> m@ == "Failed to allocate stream buffer"@,
            r matches Ok(d) ==> d.fresh(JpuMmio { jpu_base, top_base, vc_base }),
            r is Ok <==> pool_pages(pool_base, pool_size) >= pages_for(STREAM_BUF_SIZE as int),
    {
        Self::new_with_bases(bus, JpuMmio { jpu_base, top_base, vc_base }, pool_base, pool_size, true)
    }

    /// Creates a decoder with its register blocks at the given bases and its
    /// pool over `[dma_pool_base, dma_pool_base + dma_pool_size)`, leaving the
    /// JPU as the boot loader set it up: no register is written.
    pub fn new_at_skip_hw_init_with_pool(
        bus: B,
        jpu_base: usize,
        top_base: usize,
        vc_base: usize,
        dma_pool_base: usize,
        dma_pool_size: usize,
    ) -> (r: Result<Self, &'static str>)
        requires
            dma_pool_base + dma_pool_size <= usize::MAX,
        ensures
            r matches Err(m) ==> m@ == "Failed to allocate stream buffer"@,
            r matches Ok(d) ==> d.fresh(JpuMmio { jpu_base, top_base, vc_base }) && d.trace() == Seq::<BusOp>::empty(),
            r is Ok <==> pool_pages(dma_pool_base, dma_pool_size) >= pages_for(STREAM_BUF_SIZE as int),
    {
        Self::new_with_bases(bus, JpuMmio { jpu_base, top_base, vc_base }, dma_pool_base, dma_pool_size, false)
    }

    /// A decoder just made at `bases`: initialised, with a bitstream buffer of
    /// at least [`STREAM_BUF_SIZE`] bytes, no frame or output buffer, and the
    /// CPU reading the output.
    pub open spec fn fresh(&self, bases: JpuMmio) -> bool {
        &&& self.wf()
        &&& self.is_initialized()
        &&& self.bases() == bases
        &&& self.stream_buffer().size >= STREAM_BUF_SIZE
        &&& self.frame_buffer() == (PhysBuffer { addr: 0, size: 0 })
        &&& self.output_buffer() is None
        &&& self.cpu_reads()
    }

    fn new_with_bases(bus: B, mmio: JpuMmio, pool_base: usize, pool_size: usize, hw_init: bool) -> (r: Result<
        Self,
        &'static str,
    >)
        requires
            pool_base + pool_size <= usize::MAX,
        ensures
            r matches Err(m) ==> m@ == "Failed to allocate stream buffer"@,
            r matches Ok(d) ==> d.fresh(mmio) && (!hw_init ==> d.trace() == Seq::<BusOp>::empty()),
            r is Ok <==> pool_pages(pool_base, pool_size) >= pages_for(STREAM_BUF_SIZE as int),
    {
        let mut mem = JpuMemState::new();
        init_jpu_memory(&mut mem, pool_base, pool_size);
        let mut regs = Mmio::new(bus);
        if hw_init {
            hardware_init_at(&mut regs, mmio.jpu_base, mmio.top_base, mmio.vc_base);
        }
        let ghost fresh = mem;
        let stream_buf = match jpu_alloc(&mut mem, STREAM_BUF_SIZE) {
            Some(b) => b,
            None => {
                proof {
                    if pool_pages(pool_base, pool_size) >= pages_for(STREAM_BUF_SIZE as int) {
                        assert(run_free(fresh.pool_view(), 0, pages_for(STREAM_BUF_SIZE as int)));
                    }
                }
                return Err("Failed to allocate stream buffer");
            },
        };
        proof {
            assert(stream_buf.size >= STREAM_BUF_SIZE) by (nonlinear_arith)
                requires
                    stream_buf.size == super::mem::pages_for(STREAM_BUF_SIZE as int) * 16384,
            ;
        }
        Ok(JpuDecoder {
            mmio,
            regs,
            mem,
            stream_buf,
            frame_buf: PhysBuffer::empty(),
            initialized: true,
            output_buf: None,
            cpu_reads_output: true,
        })
    }

    /// Makes decodes write their frame directly to `[pa, pa + size)` instead
    /// of a buffer of the pool.
    pub fn set_output_buffer(&mut self, pa: usize, size: usize)
        ensures
            final(self).output_buffer() == Some(PhysBuffer { addr: pa, size }),
            final(self).cpu_reads() == old(self).cpu_reads(),
            final(self).bases() == old(self).bases(),
            final(self).trace() == old(self).trace(),
            final(self).is_initialized() == old(self).is_initialized(),
            final(self).stream_buffer() == old(self).stream_buffer(),
            final(self).frame_buffer() == old(self).frame_buffer(),
            final(self).wf() == old(self).wf(),
    {
        self.output_buf = Some(PhysBuffer { addr: pa, size });
    }

    /// Recovers the JPEG block after a hang or a decode error: pulses its reset
    /// (clears, then sets again, the reset-release bit) and initialises it again.
    pub fn recover(&mut self)
        ensures
            final(self).bases() == old(self).bases(),
            final(self).is_initialized() == old(self).is_initialized(),
            final(self).stream_buffer() == old(self).stream_buffer(),
            final(self).frame_buffer() == old(self).frame_buffer(),
            final(self).output_buffer() == old(self).output_buffer(),
            final(self).cpu_reads() == old(self).cpu_reads(),
            final(self).wf() == old(self).wf(),
            final(self).memory() == old(self).memory(),
            final(self).trace().len() >= old(self).trace().len() + 2,
            hardware_init_ops(
                final(self).trace().skip(old(self).trace().len() + 2int),
                old(self).bases().jpu_base,
                old(self).bases().top_base,
                old(self).bases().vc_base,
            ),
            exists|v: u32|
                #![trigger modify32_ops(old(self).bases().top_base, TOP_RST_JPEG_OFF, v, TOP_RST_JPEG_RELEASE_BIT, 0)]
                final(self).trace().subrange(0, old(self).trace().len() + 2int) == old(self).trace()
                    + modify32_ops(
                    old(self).bases().top_base,
                    TOP_RST_JPEG_OFF,
                    v,
                    TOP_RST_JPEG_RELEASE_BIT,
                    0,
                ),
    {
        let ghost t0 = self.regs.trace();
        let v = self.regs.modify32(self.mmio.top_base, TOP_RST_JPEG_OFF, TOP_RST_JPEG_RELEASE_BIT, 0);
        let ghost t1 = self.regs.trace();
        hardware_init_at(&mut self.regs, self.mmio.jpu_base, self.mmio.top_base, self.mmio.vc_base);
        proof {
            let t = self.regs.trace();
            assert(t.subrange(0, t1.len() as int) =~= t1);
            assert(t0 == old(self).trace());
            assert(t.subrange(0, t0.len() + 2int) == t0 + modify32_ops(
                old(self).bases().top_base,
                TOP_RST_JPEG_OFF,
                v,
                TOP_RST_JPEG_RELEASE_BIT,
                0,
            ));
        }
    }

    /// Declares whether the CPU reads the decoded output through its cache;
    /// when not, the cache maintenance of the output buffer is skipped.
    pub fn set_cpu_reads_output(&mut self, v: bool)
        ensures
            final(self).cpu_reads() == v,
            final(self).bases() == old(self).bases(),
            final(self).trace() == old(self).trace(),
            final(self).is_initialized() == old(self).is_initialized(),
            final(self).stream_buffer() == old(self).stream_buffer(),
            final(self).frame_buffer() == old(self).frame_buffer(),
            final(self).output_buffer() == old(self).output_buffer(),
            final(self).wf() == old(self).wf(),
    {
        self.cpu_reads_output = v;
    }

    /// Chooses the frame buffer of a decode of `frame_size` bytes: the output
    /// buffer when one is set (refused when it is too small), else a buffer
    /// of the pool, after the previous frame buffer is handed back.
    fn obtain_frame(&mut self, frame_size: usize) -> (r: Result<(), &'static str>)
        requires
            old(self).wf(),
        ensures
            final(self).wf(),
            final(self).mmio == old(self).mmio,
            final(self).regs == old(self).regs,
            final(self).stream_buf == old(self).stream_buf,
            final(self).initialized == old(self).initialized,
            final(self).output_buf == old(self).output_buf,
            final(self).cpu_reads_output == old(self).cpu_reads_output,
            final(self).mem.is_initialized() == old(self).mem.is_initialized(),
            final(self).mem.pool_spec().base_spec() == old(self).mem.pool_spec().base_spec(),
            final(self).mem.pool_spec().pages() == old(self).mem.pool_spec().pages(),
            old(self).output_buf matches Some(out) ==> final(self).mem == old(self).mem && if frame_size > out.size {
                (r matches Err(m) && m@ == "output buffer too small"@) && final(self).frame_buf == old(self).frame_buf
            } else {
                r is Ok && final(self).frame_buf == out
            },
            old(self).output_buf is None ==> {
                let rel = released_view(old(self).mem, old(self).frame_buf);
                let n = pages_for(frame_size as int);
                let fb = final(self).frame_buf;
                let s = (fb.addr - old(self).mem.pool_spec().base_spec()) / (VMEM_PAGE_SIZE as int);
                &&& (r is Ok <==> frame_fits(old(self).mem, rel, frame_size as int))
                &&& (r matches Err(m) ==> m@ == "Failed to alloc frame buf"@ && fb == (if old(self).frame_buf.empty_spec() {
                    old(self).frame_buf
                } else {
                    PhysBuffer { addr: 0, size: 0 }
                }) && final(self).mem.pool_view() == rel)
                &&& (r is Ok ==> first_fit(rel, s, n) && fb.addr == old(self).mem.pool_spec().base_spec() + s
                    * VMEM_PAGE_SIZE && fb.size == n * VMEM_PAGE_SIZE && final(self).mem.pool_view() == mark_run(
                    rel,
                    s,
                    n,
                    false,
                ))
            },
    {
        proof {
            reveal_strlit("output buffer too small");
            reveal_strlit("Failed to alloc frame buf");
        }
        match self.output_buf {
            Some(out) => {
                if frame_size > out.size {
                    return Err("output buffer too small");
                }
                self.frame_buf = out;
                Ok(())
            },
            None => {
                let ghost m0 = self.mem;
                let ghost fb0 = self.frame_buf;
                if !self.frame_buf.is_empty() {
                    jpu_free(&mut self.mem, self.frame_buf);
                    self.frame_buf = PhysBuffer::empty();
                }
                assert(self.mem.pool_view() == released_view(m0, fb0));
                let ghost m1 = self.mem;
                match jpu_alloc(&mut self.mem, frame_size) {
                    Some(b) => {
                        self.frame_buf = b;
                        proof {
                            let s = (b.addr - m0.pool_spec().base_spec()) / (VMEM_PAGE_SIZE as int);
                            assert(run_free(m1.pool_view(), s, pages_for(frame_size as int)));
                        }
                        Ok(())
                    },
                    None => Err("Failed to alloc frame buf"),
                }
            },
        }
    }

    /// Decodes `jpeg_data`: parses its header, copies the bitstream to the
    /// stream buffer, lays out and obtains the frame buffer, programs the JPU,
    /// starts the decode and polls for its end.  A decode that fails in the
    /// hardware is followed by a [`recover`](Self::recover).
    #[verifier::rlimit(100)]
    pub fn decode(&mut self, jpeg_data: &[u8]) -> (r: Result<DecodeResult, &'static str>)
        requires
            old(self).wf(),
            old(self).is_initialized() ==> !(header_spec(jpeg_data@) is Panics),
            jpeg_data@.len() + 0x20000 <= usize::MAX,
            old(self).is_initialized() ==> (header_spec(jpeg_data@) matches HeaderOutcome::Parsed(h)
                ==> decode_layout_fits(h.format, h.width, h.height) && (decode_frame_available(*old(self), h)
                ==> huff_tables_fit(h))),
        ensures
            final(self).wf(),
            final(self).bases() == old(self).bases(),
            final(self).is_initialized() == old(self).is_initialized(),
            final(self).stream_buffer() == old(self).stream_buffer(),
            final(self).output_buffer() == old(self).output_buffer(),
            final(self).cpu_reads() == old(self).cpu_reads(),
            final(self).memory().is_initialized() == old(self).memory().is_initialized(),
            final(self).memory().pool_spec().base_spec() == old(self).memory().pool_spec().base_spec(),
            final(self).memory().pool_spec().pages() == old(self).memory().pool_spec().pages(),
            !old(self).is_initialized() ==> (r matches Err(m) && m@ == "JPU not initialized"@)
                && final(self).trace() == old(self).trace() && final(self).frame_buffer() == old(self).frame_buffer()
                && final(self).memory() == old(self).memory(),
            old(self).is_initialized() ==> match header_spec(jpeg_data@) {
                HeaderOutcome::Failed(e) => (r matches Err(m) && m@ == header_error_message(e)@)
                    && final(self).trace() == old(self).trace() && final(self).frame_buffer()
                    == old(self).frame_buffer() && final(self).memory() == old(self).memory(),
                HeaderOutcome::Parsed(h) => decode_outcome(*old(self), *final(self), jpeg_data@, h, r),
                HeaderOutcome::Panics => false,
            },
    {
        if !self.initialized {
            return Err("JPU not initialized");
        }
        let header = match parse_jpeg_header(jpeg_data) {
            Ok(h) => h,
            Err(e) => return Err(e),
        };
        let ghost h = header@;
        let ghost d0 = *self;
        let copy_len = if jpeg_data.len() < self.stream_buf.size {
            jpeg_data.len()
        } else {
            self.stream_buf.size
        };
        self.regs.copy_to_phys(self.stream_buf.addr, jpeg_data, copy_len);
        self.regs.dcache_clean(self.stream_buf.addr, copy_len);
        let ghost pre = self.regs.trace();
        let (frame_size, layout) = match frame_layout(&header) {
            Ok(v) => v,
            Err(e) => return Err(e),
        };
        match self.obtain_frame(frame_size) {
            Ok(()) => {},
            Err(e) => {
                proof {
                    assert(pre =~= decode_prefix(d0, jpeg_data@));
                }
                return Err(e);
            },
        }
        let ghost d1 = *self;
        proof {
            let l = decode_layout_of(h.format, h.width, h.height);
            assert(layout == l);
            assert(decode_frame_size(l) == frame_size as int);
            assert(decode_frame_available(d0, h));
        }
        let cpu = self.cpu_reads_output;
        let outcome = run_decode(
            &mut self.regs,
            self.mmio.jpu_base,
            self.stream_buf.addr,
            copy_len,
            self.frame_buf.addr,
            frame_size,
            cpu,
            &header,
            layout,
        );
        let ghost run = self.regs.trace().skip(pre.len() as int);
        proof {
            assert(pre =~= decode_prefix(d0, jpeg_data@));
            assert(self.regs.trace() =~= pre + run);
        }
        match outcome {
            Ok(()) => {},
            Err(e) => {
                let ghost tr = self.regs.trace();
                self.recover();
                proof {
                    let t = self.regs.trace();
                    let v = choose|v: u32|
                        #![trigger modify32_ops(d0.mmio.top_base, TOP_RST_JPEG_OFF, v, TOP_RST_JPEG_RELEASE_BIT, 0)]
                        t.subrange(0, tr.len() + 2int) == tr + modify32_ops(
                            d0.mmio.top_base,
                            TOP_RST_JPEG_OFF,
                            v,
                            TOP_RST_JPEG_RELEASE_BIT,
                            0,
                        );
                    assert(tr == pre + run);
                    assert(t.subrange(0, tr.len() as int) =~= t.subrange(0, tr.len() + 2int).subrange(0, tr.len() as int));
                    assert(t.subrange(0, tr.len() as int) =~= tr);
                }
                let msg = poll_error_message(e);
                proof {
                    let l = decode_layout_of(h.format, h.width, h.height);
                    let size = decode_frame_size(l);
                    assert(layout == l);
                    assert(size == frame_size as int);
                    assert(decode_frame_chosen(d0, d1, size));
                    assert(decode_frame_chosen(d0, *self, size));
                    assert(decode_run(run, d0.bases().jpu_base, d0.stream_buffer().addr, stream_copy_len(jpeg_data@.len(), d0.stream_buffer().size), self.frame_buffer().addr, size as usize, d0.cpu_reads(), h, l, outcome));
                    assert(decode_ran(d0, *self, jpeg_data@, h, Err::<DecodeResult, &'static str>(msg)));
                }
                return Err(msg);
            },
        }
        let ghost tr = self.regs.trace();
        if self.cpu_reads_output {
            self.regs.dcache_invalidate(self.frame_buf.addr, frame_size);
        }
        let res = DecodeResult {
            width: header.width,
            height: header.height,
            yuv_len: frame_size,
            yuv_phys_addr: self.frame_buf.addr,
        };
        proof {
            let l = decode_layout_of(h.format, h.width, h.height);
            let size = decode_frame_size(l);
            assert(layout == l);
            assert(size == frame_size as int);
            assert(self.regs.trace() =~= pre + run + decode_finish_ops(d1.cpu_reads_output, d1.frame_buf.addr, frame_size));
            assert(self.trace().subrange(0, (pre.len() + run.len()) as int) =~= pre + run);
            assert(decode_frame_chosen(d0, *self, size));
            assert(decode_run(run, d0.bases().jpu_base, d0.stream_buffer().addr, stream_copy_len(jpeg_data@.len(), d0.stream_buffer().size), self.frame_buffer().addr, size as usize, d0.cpu_reads(), h, l, outcome));
            assert(decode_ran(d0, *self, jpeg_data@, h, Ok::<DecodeResult, &'static str>(res)));
        }
        Ok(res)
    }
}

/// How much of a bitstream of `len` bytes a stream buffer of `size` bytes
/// takes.
pub open spec fn stream_copy_len(len: nat, size: usize) -> usize {
    if len < size {
        len as usize
    } else {
        size
    }
}

/// Whether a decode by `d` of a picture with header `h` gets a frame
/// buffer (and so goes on to program the JPU): the output buffer holds the
/// frame, or, with no output buffer, the pool has room for it once the
/// previous frame buffer is handed back.
pub open spec fn decode_frame_available<B: RegisterBus>(d: JpuDecoder<B>, h: HeaderModel) -> bool {
    let size = decode_frame_size(decode_layout_of(h.format, h.width, h.height));
    match d.output_buffer() {
        Some(out) => size <= out.size,
        None => frame_fits(d.memory(), released_view(d.memory(), d.frame_buffer()), size),
    }
}

/// The trace of decoder `d` after the bitstream of `jpeg` is copied to its
/// stream buffer (as much as fits) and written back from the cache.
pub open spec fn decode_prefix<B: RegisterBus>(d: JpuDecoder<B>, jpeg: Seq<u8>) -> Seq<BusOp> {
    let sb = d.stream_buffer();
    let copy_len = stream_copy_len(jpeg.len(), sb.size);
    d.trace() + seq![
        BusOp::CopyToPhys { addr: sb.addr, len: copy_len, data: jpeg.take(copy_len as int) },
        BusOp::CacheClean { addr: sb.addr, len: copy_len },
    ]
}

/// The frame's cache lines discarded after a successful decode, when the
/// CPU reads the output.
pub open spec fn decode_finish_ops(cpu_reads: bool, frame_addr: usize, size: usize) -> Seq<BusOp> {
    if cpu_reads {
        seq![BusOp::CacheInvalidate { addr: frame_addr, len: size }]
    } else {
        Seq::empty()
    }
}

/// What a decode by decoder `d` (ending as `f`) of `jpeg`, whose header `h`
/// parsed, does and returns.
///
/// The bitstream is copied first.  Then the frame buffer is chosen: the
/// output buffer (refused when smaller than the frame), or a first fit of
/// the pool once the previous frame buffer is handed back (refused when
/// none fits).  On a refusal nothing more is accessed.  Otherwise the decode
/// is programmed and run ([`decode_run`]); a poll that ended in an error or
/// a timeout gives its message and is followed by a reset of the JPEG block,
/// and a poll that saw the picture done gives the frame.
pub open spec fn decode_outcome<B: RegisterBus>(
    d: JpuDecoder<B>,
    f: JpuDecoder<B>,
    jpeg: Seq<u8>,
    h: HeaderModel,
    r: Result<DecodeResult, &'static str>,
) -> bool {
    let l = decode_layout_of(h.format, h.width, h.height);
    let size = decode_frame_size(l);
    let pre = decode_prefix(d, jpeg);
    let sb = d.stream_buffer();
    let copy_len = stream_copy_len(jpeg.len(), sb.size);
    let rel = released_view(d.memory(), d.frame_buffer());
    let too_small = d.output_buffer() matches Some(out) && size > out.size;
    let no_frame = d.output_buffer() is None && !frame_fits(d.memory(), rel, size);
    let fb = f.frame_buffer();
    &&& too_small ==> ((r matches Err(m) && m@ == "output buffer too small"@) && f.trace() == pre && fb
        == d.frame_buffer() && f.memory() == d.memory())
    &&& no_frame ==> ((r matches Err(m) && m@ == "Failed to alloc frame buf"@) && f.trace() == pre && fb == (
    if d.frame_buffer().empty_spec() {
        d.frame_buffer()
    } else {
        PhysBuffer { addr: 0, size: 0 }
    }) && f.memory().pool_view() == rel)
    &&& (!too_small && !no_frame) ==> (decode_frame_chosen(d, f, size) && decode_ran(d, f, jpeg, h, r))
}

/// The frame buffer a decode by `d` (ending as `f`) of a `size`-byte frame
/// ran into: the output buffer, else a first fit of the pool's pages once
/// the previous frame buffer was handed back.
pub open spec fn decode_frame_chosen<B: RegisterBus>(d: JpuDecoder<B>, f: JpuDecoder<B>, size: int) -> bool {
    let rel = released_view(d.memory(), d.frame_buffer());
    let fb = f.frame_buffer();
    let base = d.memory().pool_spec().base_spec();
    let n = pages_for(size);
    let s = (fb.addr - base) / (VMEM_PAGE_SIZE as int);
    match d.output_buffer() {
        Some(out) => fb == out && f.memory() == d.memory(),
        None => first_fit(rel, s, n) && fb.addr == base + s * VMEM_PAGE_SIZE && fb.size == n * VMEM_PAGE_SIZE
            && f.memory().pool_view() == mark_run(rel, s, n, false),
    }
}

/// The accesses and result of a decode by `d` (ending as `f`) of `jpeg`,
/// with header `h`, once its frame buffer is chosen: the run of
/// [`decode_run`] after the bitstream copy; on a poll that saw the picture
/// done, the frame (with the frame's cache lines discarded again when the
/// CPU reads the output); on an error or a timeout, its message, followed
/// by a reset of the JPEG block.
pub open spec fn decode_ran<B: RegisterBus>(
    d: JpuDecoder<B>,
    f: JpuDecoder<B>,
    jpeg: Seq<u8>,
    h: HeaderModel,
    r: Result<DecodeResult, &'static str>,
) -> bool {
    let l = decode_layout_of(h.format, h.width, h.height);
    let size = decode_frame_size(l) as usize;
    let pre = decode_prefix(d, jpeg);
    let sb = d.stream_buffer();
    let copy_len = stream_copy_len(jpeg.len(), sb.size);
    let fb = f.frame_buffer();
    exists|run: Seq<BusOp>, outcome: Result<(), PollError>|
        #![trigger decode_run(run, d.bases().jpu_base, sb.addr, copy_len, fb.addr, size, d.cpu_reads(), h, l, outcome)]
        {
            &&& decode_run(run, d.bases().jpu_base, sb.addr, copy_len, fb.addr, size, d.cpu_reads(), h, l, outcome)
            &&& f.trace().len() >= pre.len() + run.len()
            &&& f.trace().subrange(0, (pre.len() + run.len()) as int) == pre + run
            &&& (outcome is Ok ==> r == Ok::<DecodeResult, &'static str>(
                DecodeResult { width: h.width, height: h.height, yuv_len: size, yuv_phys_addr: fb.addr },
            ) && f.trace() == pre + run + decode_finish_ops(d.cpu_reads(), fb.addr, size))
            &&& (outcome matches Err(e) ==> (r matches Err(m) && m@ == poll_error_text(e)) && exists|v: u32|
                #![trigger modify32_ops(d.bases().top_base, TOP_RST_JPEG_OFF, v, TOP_RST_JPEG_RELEASE_BIT, 0)]
                f.trace().subrange(0, pre.len() + run.len() + 2int) == pre + run + modify32_ops(
                    d.bases().top_base,
                    TOP_RST_JPEG_OFF,
                    v,
                    TOP_RST_JPEG_RELEASE_BIT,
                    0,
                ) && f.trace().len() >= pre.len() + run.len() + 2 && hardware_init_ops(
                    f.trace().skip(pre.len() + run.len() + 2int),
                    d.bases().jpu_base,
                    d.bases().top_base,
                    d.bases().vc_base,
                ))
        }
}

} // verus!
