//! Register programming of one JPU decode: bitstream window, Huffman and
//! quantisation tables, GRAM prefetch, frame addresses and completion polling.
use super::header::{HeaderModel, HuffModel, HuffTable, JpegHeaderInfo};
use super::layout::{FrameLayout, JpuPixelFormat, JpuScale, scale_mode};
use super::mem::PhysBuffer;
use super::regs::{
    bbc_strm_ctrl_value, clear_pic_status_at, pic_ctrl_value, scl_info_value, wait_bbc_idle_at,
    BBC_BAS_ADDR, BBC_COMMAND, BBC_CTRL, BBC_CUR_POS, BBC_DATA_CNT, BBC_END_ADDR, BBC_EXT_ADDR,
    BBC_INT_ADDR, BBC_BUSY, BBC_RD_PTR, BBC_STRM_CTRL, BBC_WR_PTR, CLP_INFO, DPB_BASE_CB, DPB_BASE_CR,
    DPB_BASE_Y, DPB_CONFIG, DPB_CSTRIDE, DPB_YSTRIDE, DPCM_DIFF_CB, DPCM_DIFF_CR, DPCM_DIFF_Y,
    GBU_BBER, GBU_BBHR, GBU_BBIR, GBU_BBSR, GBU_CTRL, GBU_FF_RPTR, GBU_TT_CNT, GBU_TT_CNT_H,
    GBU_WD_PTR, HUFF_ADDR, HUFF_ADDR_MAX, HUFF_ADDR_PTR, HUFF_CTRL, HUFF_DATA, HUFF_PHASE_MAX,
    HUFF_PHASE_MIN, HUFF_PHASE_PTR, HUFF_PHASE_VAL, MCU_INFO, OP_INFO, PIC_CTRL, PIC_ERRMB,
    PIC_SIZE, PIC_START, PIC_START_PIC, PIC_STATUS, PIC_STATUS_DONE, PIC_STATUS_ERROR, POLL_LIMIT,
    QMAT_CTRL, QMAT_DATA, QMAT_PHASE_CB, QMAT_PHASE_CR, QMAT_PHASE_Y, ROT_INFO, RST_COUNT,
    RST_INDEX, RST_INTVAL, SCL_INFO,
};
use crate::mmio::{is_write, polled_until_clear, writes32, writes_of, lemma_writes_of_add, lemma_writes_of_reads, lemma_writes_of_writes, BusOp, Mmio, RegisterBus};
use vstd::prelude::*;

verus! {

/// Bytes per bitstream buffer page.
pub const BBC_STREAM_PAGE_SIZE: usize = 256;

/// Number of pages prefetched into GRAM before decoding.
pub const GRAM_PREFETCH_PAGES: usize = 2;

/// Per-format decode parameters of the JPU.
#[derive(Clone, Copy)]
pub struct HardwareDecodeInfo {
    pub mcu_block_num: u32,
    pub comp_info: u32,
    pub bus_req_num: u32,
}

impl HardwareDecodeInfo {
    /// The MCU block count, component layout and bus request count of `format`.
    pub fn for_format(format: JpuPixelFormat) -> (i: Self)
        ensures
            i == hw_info_spec(format),
    {
        match format {
            JpuPixelFormat::Yuv420 => HardwareDecodeInfo {
                mcu_block_num: 6,
                comp_info: 0xA55,
                bus_req_num: 2,
            },
            JpuPixelFormat::Yuv422Horizontal => HardwareDecodeInfo {
                mcu_block_num: 4,
                comp_info: 0x955,
                bus_req_num: 3,
            },
            JpuPixelFormat::Yuv422Vertical => HardwareDecodeInfo {
                mcu_block_num: 4,
                comp_info: 0x655,
                bus_req_num: 3,
            },
            JpuPixelFormat::Yuv444 => HardwareDecodeInfo {
                mcu_block_num: 3,
                comp_info: 0x555,
                bus_req_num: 4,
            },
            JpuPixelFormat::Grayscale => HardwareDecodeInfo {
                mcu_block_num: 1,
                comp_info: 0x500,
                bus_req_num: 4,
            },
        }
    }
}

/// Decode parameters per format: MCU blocks, `(c0 << 8) | (c1 << 4) | c2`
/// component layout and bus request count.
pub open spec fn hw_info_spec(format: JpuPixelFormat) -> HardwareDecodeInfo {
    match format {
        JpuPixelFormat::Yuv420 => HardwareDecodeInfo {
            mcu_block_num: 6,
            comp_info: 0xA55,
            bus_req_num: 2,
        },
        JpuPixelFormat::Yuv422Horizontal => HardwareDecodeInfo {
            mcu_block_num: 4,
            comp_info: 0x955,
            bus_req_num: 3,
        },
        JpuPixelFormat::Yuv422Vertical => HardwareDecodeInfo {
            mcu_block_num: 4,
            comp_info: 0x655,
            bus_req_num: 3,
        },
        JpuPixelFormat::Yuv444 => HardwareDecodeInfo {
            mcu_block_num: 3,
            comp_info: 0x555,
            bus_req_num: 4,
        },
        JpuPixelFormat::Grayscale => HardwareDecodeInfo {
            mcu_block_num: 1,
            comp_info: 0x500,
            bus_req_num: 4,
        },
    }
}

/// A DMA address window `[start, end)` as the JPU sees it.
#[derive(Clone, Copy, Debug, PartialEq, Eq)]
pub struct DmaRegion {
    pub start: u32,
    pub end: u32,
}

/// DMA addresses of the three planes of a frame.
#[derive(Clone, Copy, Debug, PartialEq, Eq)]
pub struct FrameDmaAddresses {
    pub y: u32,
    pub cb: u32,
    pub cr: u32,
}

/// Why polling for the end of a decode stopped.
#[derive(Clone, Copy, Debug, PartialEq, Eq, Structural)]
pub enum PollError {
    Decode,
    Timeout,
}

/// The DMA window of the first `used_len` bytes of `buffer`, whose CPU address
/// maps to `mapped_start` on the JPU's bus.
pub fn checked_dma_region(buffer: &PhysBuffer, used_len: usize, mapped_start: usize) -> (r: Result<
    DmaRegion,
    &'static str,
>)
    ensures
        used_len == 0 || used_len > buffer.size ==> r == Err::<DmaRegion, &'static str>(
            "invalid JPU DMA region length",
        ),
        !(used_len == 0 || used_len > buffer.size) && mapped_start + used_len > usize::MAX ==> r
            == Err::<DmaRegion, &'static str>("JPU DMA address range overflow"),
        !(used_len == 0 || used_len > buffer.size) && mapped_start + used_len <= usize::MAX
            && mapped_start > u32::MAX ==> r == Err::<DmaRegion, &'static str>(
            "JPU DMA start does not fit u32",
        ),
        !(used_len == 0 || used_len > buffer.size) && mapped_start <= u32::MAX && mapped_start
            + used_len > u32::MAX && mapped_start + used_len <= usize::MAX ==> r == Err::<
            DmaRegion,
            &'static str,
        >("JPU DMA end does not fit u32"),
        !(used_len == 0 || used_len > buffer.size) && mapped_start + used_len <= u32::MAX ==> r
            == Ok::<DmaRegion, &'static str>(
            DmaRegion { start: mapped_start as u32, end: (mapped_start + used_len) as u32 },
        ),
{
    if used_len == 0 || used_len > buffer.size {
        return Err("invalid JPU DMA region length");
    }
    let mapped_end = match mapped_start.checked_add(used_len) {
        Some(v) => v,
        None => return Err("JPU DMA address range overflow"),
    };
    if mapped_start > 0xFFFF_FFFF {
        return Err("JPU DMA start does not fit u32");
    }
    if mapped_end > 0xFFFF_FFFF {
        return Err("JPU DMA end does not fit u32");
    }
    Ok(DmaRegion { start: mapped_start as u32, end: mapped_end as u32 })
}

/// The address `offset` bytes into `region`; the end of the region itself is
/// accepted only when `allow_end`.
pub fn checked_dma_offset(region: DmaRegion, offset: usize, allow_end: bool) -> (r: Result<
    u32,
    &'static str,
>)
    ensures
        offset > u32::MAX ==> r == Err::<u32, &'static str>("JPU DMA offset does not fit u32"),
        offset <= u32::MAX && region.start + offset > u32::MAX ==> r == Err::<u32, &'static str>(
            "JPU DMA offset address overflow",
        ),
        offset <= u32::MAX && region.start + offset <= u32::MAX ==> {
            let a = region.start + offset;
            if a > region.end || (!allow_end && a == region.end) {
                r == Err::<u32, &'static str>("JPU DMA offset is outside its region")
            } else {
                r == Ok::<u32, &'static str>(a as u32)
            }
        },
{
    if offset > 0xFFFF_FFFF {
        return Err("JPU DMA offset does not fit u32");
    }
    let offset = offset as u32;
    let address = match region.start.checked_add(offset) {
        Some(v) => v,
        None => return Err("JPU DMA offset address overflow"),
    };
    if address > region.end || (!allow_end && address == region.end) {
        return Err("JPU DMA offset is outside its region");
    }
    Ok(address)
}

/// Whether a plane at `offset` starts inside `region`.
pub open spec fn plane_in_region(region: DmaRegion, offset: usize) -> bool {
    region.start + offset <= u32::MAX && region.start + offset < region.end
}

fn plane_address(region: DmaRegion, offset: usize) -> (r: Result<u32, &'static str>)
    ensures
        plane_in_region(region, offset) ==> r == Ok::<u32, &'static str>(
            (region.start + offset) as u32,
        ),
        !plane_in_region(region, offset) ==> r is Err,
{
    let address = match (region.start as usize).checked_add(offset) {
        Some(v) => v,
        None => return Err("JPU frame plane address overflow"),
    };
    if address > 0xFFFF_FFFF {
        return Err("JPU frame plane does not fit u32");
    }
    let address = address as u32;
    if address >= region.end {
        return Err("JPU frame plane starts outside DMA region");
    }
    Ok(address)
}

/// The DMA address of each plane of `layout` in `region`; a missing chroma plane
/// takes the luma address.
pub fn checked_frame_dma_addresses(region: DmaRegion, layout: &FrameLayout) -> (r: Result<
    FrameDmaAddresses,
    &'static str,
>)
    ensures
        r is Ok <==> plane_in_region(region, layout.y.offset) && (layout.cb matches Some(p)
            ==> plane_in_region(region, p.offset)) && (layout.cr matches Some(p) ==> plane_in_region(
            region,
            p.offset,
        )),
        r matches Ok(a) ==> {
            &&& a.y == region.start + layout.y.offset
            &&& a.cb == match layout.cb {
                Some(p) => (region.start + p.offset) as u32,
                None => a.y,
            }
            &&& a.cr == match layout.cr {
                Some(p) => (region.start + p.offset) as u32,
                None => a.y,
            }
        },
{
    let y = match plane_address(region, layout.y.offset) {
        Ok(v) => v,
        Err(e) => return Err(e),
    };
    let cb = match layout.cb {
        Some(plane) => match plane_address(region, plane.offset) {
            Ok(v) => v,
            Err(e) => return Err(e),
        },
        None => y,
    };
    let cr = match layout.cr {
        Some(plane) => match plane_address(region, plane.offset) {
            Ok(v) => v,
            Err(e) => return Err(e),
        },
        None => y,
    };
    Ok(FrameDmaAddresses { y, cb, cr })
}

/// The table selections of the three components packed one bit each.
pub open spec fn huff_index_bits(t: Seq<usize>) -> u32 {
    ((((((0u32 << 1u32) | (t[0] as u32)) << 1u32) | (t[1] as u32)) << 1u32) | (t[2] as u32))
}

/// Pages of 256 bytes covering `len` bytes.
pub open spec fn stream_pages(len: usize) -> u32 {
    ((len / 256) + if len % 256 == 0 {
        0usize
    } else {
        1usize
    }) as u32
}

/// The register writes that describe the bitstream window and the picture.
pub open spec fn stream_regs_ops(
    base: usize,
    stream: DmaRegion,
    data_end: u32,
    copy_len: usize,
    h: HeaderModel,
    layout: FrameLayout,
    hw: HardwareDecodeInfo,
) -> Seq<BusOp> {
    let w = |offset: usize, value: u32| BusOp::Write32 { base, offset, value };
    seq![
        w(BBC_BAS_ADDR, stream.start),
        w(BBC_END_ADDR, stream.end),
        w(BBC_RD_PTR, stream.start),
        w(BBC_WR_PTR, data_end),
        w(BBC_STRM_CTRL, 0x8000_0000u32 | (stream_pages(copy_len) & 0x7FFF_FFFF)),
        w(GBU_TT_CNT, 0),
        w(GBU_TT_CNT_H, 0),
        w(PIC_ERRMB, 0),
        w(
            PIC_CTRL,
            ((huff_index_bits(h.ac) & 0x7) << 10u32) | ((huff_index_bits(h.dc) & 0x7) << 7u32)
                | 0x40,
        ),
        w(
            PIC_SIZE,
            ((layout.source_aligned.width & 0xFFFF) << 16u32) | (layout.source_aligned.height
                & 0xFFFF),
        ),
        w(ROT_INFO, 0),
        w(
            MCU_INFO,
            (hw.mcu_block_num << 16u32) | (h.num_components << 12u32) | hw.comp_info,
        ),
        w(DPB_CONFIG, 0),
        w(RST_INTVAL, h.restart_interval),
        w(
            SCL_INFO,
            if layout.scale == JpuScale::Full {
                0u32
            } else {
                0x10u32 | (scale_mode(layout.scale) << 2u32) | scale_mode(layout.scale)
            },
        ),
        w(OP_INFO, hw.bus_req_num),
    ]
}

/// Programs the bitstream window, picture size, MCU layout, restart interval,
/// scale and bus request count.
pub fn configure_stream_regs<B: RegisterBus>(
    mmio: &mut Mmio<B>,
    jpu_base: usize,
    stream_dma: DmaRegion,
    stream_data_end: u32,
    copy_len: usize,
    header: &JpegHeaderInfo,
    layout: &FrameLayout,
    hardware: HardwareDecodeInfo,
)
    ensures
        final(mmio).trace() == old(mmio).trace() + stream_regs_ops(
            jpu_base,
            stream_dma,
            stream_data_end,
            copy_len,
            header@,
            *layout,
            hardware,
        ),
{
    let ghost t0 = mmio.trace();
    mmio.write32(jpu_base, BBC_BAS_ADDR, stream_dma.start);
    mmio.write32(jpu_base, BBC_END_ADDR, stream_dma.end);
    mmio.write32(jpu_base, BBC_RD_PTR, stream_dma.start);
    mmio.write32(jpu_base, BBC_WR_PTR, stream_data_end);
    let strm_pages = (copy_len / BBC_STREAM_PAGE_SIZE + if copy_len % BBC_STREAM_PAGE_SIZE == 0 {
        0
    } else {
        1
    }) as u32;
    mmio.write32(jpu_base, BBC_STRM_CTRL, bbc_strm_ctrl_value(strm_pages));
    mmio.write32(jpu_base, GBU_TT_CNT, 0);
    mmio.write32(jpu_base, GBU_TT_CNT_H, 0);
    mmio.write32(jpu_base, PIC_ERRMB, 0);
    let mut huff_dc_idx: u32 = 0;
    let mut huff_ac_idx: u32 = 0;
    let mut i: usize = 0;
    while i < 3
        invariant
            0 <= i <= 3,
            huff_dc_idx == if i == 0 {
                0u32
            } else if i == 1 {
                (0u32 << 1u32) | (header.dc_huff_tbl@[0] as u32)
            } else if i == 2 {
                (((0u32 << 1u32) | (header.dc_huff_tbl@[0] as u32)) << 1u32) | (
                header.dc_huff_tbl@[1] as u32)
            } else {
                huff_index_bits(header.dc_huff_tbl@)
            },
            huff_ac_idx == if i == 0 {
                0u32
            } else if i == 1 {
                (0u32 << 1u32) | (header.ac_huff_tbl@[0] as u32)
            } else if i == 2 {
                (((0u32 << 1u32) | (header.ac_huff_tbl@[0] as u32)) << 1u32) | (
                header.ac_huff_tbl@[1] as u32)
            } else {
                huff_index_bits(header.ac_huff_tbl@)
            },
        decreases 3 - i,
    {
        huff_dc_idx = (huff_dc_idx << 1u32) | header.dc_huff_tbl[i] as u32;
        huff_ac_idx = (huff_ac_idx << 1u32) | header.ac_huff_tbl[i] as u32;
        i = i + 1;
    }
    mmio.write32(jpu_base, PIC_CTRL, pic_ctrl_value(huff_dc_idx, huff_ac_idx));
    mmio.write32(
        jpu_base,
        PIC_SIZE,
        ((layout.source_aligned.width & 0xFFFF) << 16u32) | (layout.source_aligned.height & 0xFFFF),
    );
    mmio.write32(jpu_base, ROT_INFO, 0);
    mmio.write32(
        jpu_base,
        MCU_INFO,
        (hardware.mcu_block_num << 16u32) | (header.num_components << 12u32) | hardware.comp_info,
    );
    mmio.write32(jpu_base, DPB_CONFIG, 0);
    mmio.write32(jpu_base, RST_INTVAL, header.restart_interval);
    mmio.write32(jpu_base, SCL_INFO, scl_info_value(layout.scale));
    mmio.write32(jpu_base, OP_INFO, hardware.bus_req_num);
    assert(mmio.trace() =~= t0 + stream_regs_ops(
        jpu_base,
        stream_dma,
        stream_data_end,
        copy_len,
        header@,
        *layout,
        hardware,
    ));
}

/// The writes and the status acknowledgement that start a decode, given the
/// status value read.
pub open spec fn start_decode_ops(
    base: usize,
    frame: FrameDmaAddresses,
    ecs_offset: usize,
    layout: FrameLayout,
    status: u32,
) -> Seq<BusOp> {
    let w = |offset: usize, value: u32| BusOp::Write32 { base, offset, value };
    seq![
        w(RST_INDEX, 0),
        w(RST_COUNT, 0),
        w(DPCM_DIFF_Y, 0),
        w(DPCM_DIFF_CB, 0),
        w(DPCM_DIFF_CR, 0),
        w(GBU_FF_RPTR, ((ecs_offset & 0xF) << 3usize) as u32),
        w(GBU_CTRL, 3),
        w(DPB_BASE_Y, frame.y),
        w(DPB_BASE_CB, frame.cb),
        w(DPB_BASE_CR, frame.cr),
        w(DPB_YSTRIDE, layout.y.stride),
        w(
            DPB_CSTRIDE,
            match layout.cb {
                Some(p) => p.stride,
                None => 0,
            },
        ),
        w(CLP_INFO, 0),
        BusOp::Read32 { base, offset: PIC_STATUS, value: status },
        w(PIC_STATUS, status),
        w(PIC_START, PIC_START_PIC),
    ]
}

/// Resets the restart and DPCM state, sets the frame addresses and strides,
/// acknowledges any pending status and starts the picture.
pub fn start_decode<B: RegisterBus>(
    mmio: &mut Mmio<B>,
    jpu_base: usize,
    frame_dma: FrameDmaAddresses,
    header: &JpegHeaderInfo,
    layout: &FrameLayout,
)
    ensures
        exists|status: u32|
            #![trigger start_decode_ops(jpu_base, frame_dma, header.ecs_offset, *layout, status)]
            final(mmio).trace() == old(mmio).trace() + start_decode_ops(
                jpu_base,
                frame_dma,
                header.ecs_offset,
                *layout,
                status,
            ),
{
    let ghost t0 = mmio.trace();
    mmio.write32(jpu_base, RST_INDEX, 0);
    mmio.write32(jpu_base, RST_COUNT, 0);
    mmio.write32(jpu_base, DPCM_DIFF_Y, 0);
    mmio.write32(jpu_base, DPCM_DIFF_CB, 0);
    mmio.write32(jpu_base, DPCM_DIFF_CR, 0);
    let ecs = header.ecs_offset;
    let bit_ptr = (ecs & 0xF) << 3usize;
    proof {
        lemma_ecs_fields(ecs);
    }
    mmio.write32(jpu_base, GBU_FF_RPTR, bit_ptr as u32);
    mmio.write32(jpu_base, GBU_CTRL, 3);
    mmio.write32(jpu_base, DPB_BASE_Y, frame_dma.y);
    mmio.write32(jpu_base, DPB_BASE_CB, frame_dma.cb);
    mmio.write32(jpu_base, DPB_BASE_CR, frame_dma.cr);
    mmio.write32(jpu_base, DPB_YSTRIDE, layout.y.stride);
    let chroma_stride = match layout.cb {
        Some(plane) => plane.stride,
        None => 0,
    };
    mmio.write32(jpu_base, DPB_CSTRIDE, chroma_stride);
    mmio.write32(jpu_base, CLP_INFO, 0);
    let status = mmio.read32(jpu_base, PIC_STATUS);
    clear_pic_status_at(mmio, jpu_base, status);
    mmio.write32(jpu_base, PIC_START, PIC_START_PIC);
    assert(mmio.trace() =~= t0 + start_decode_ops(
        jpu_base,
        frame_dma,
        header.ecs_offset,
        *layout,
        status,
    ));
}

// ---------------------------------------------------------------------------
// Huffman tables
// ---------------------------------------------------------------------------
/// Upload order of the four Huffman tables: DC0, DC1, AC0, AC1.
pub open spec fn huff_order(k: int) -> int {
    if k == 0 {
        0
    } else if k == 1 {
        2
    } else if k == 2 {
        1
    } else {
        3
    }
}

/// A 16-bit code as written to `HUFF_DATA`: sign-extended into the upper half.
pub open spec fn code_word(d: u32) -> u32 {
    (((if d & 0x8000 != 0 {
        0xFFFFu32
    } else {
        0u32
    }) & 0xFFFF) << 16u32) | d
}

/// A byte as written to `HUFF_DATA`: sign-extended into the upper 24 bits.
pub open spec fn byte_word(d: u32) -> u32 {
    (((if d & 0x80 != 0 {
        0xFFFFFFu32
    } else {
        0u32
    }) & 0xFFFFFF) << 8u32) | d
}

pub open spec fn min_code_words(h: HeaderModel) -> Seq<u32> {
    Seq::new(64, |k: int| code_word(h.huff[huff_order(k / 16)].min_codes[k % 16]))
}

pub open spec fn max_code_words(h: HeaderModel) -> Seq<u32> {
    Seq::new(64, |k: int| code_word(h.huff[huff_order(k / 16)].max_codes[k % 16]))
}

pub open spec fn ptr_words(h: HeaderModel) -> Seq<u32> {
    Seq::new(64, |k: int| byte_word(h.huff[huff_order(k / 16)].ptrs[k % 16] as u32))
}

/// Sum of the first `n` code-length counts.
pub open spec fn bits_total(bits: Seq<u8>, n: nat) -> int
    decreases n,
{
    if n == 0 {
        0
    } else {
        bits_total(bits, (n - 1) as nat) + bits[n - 1]
    }
}

proof fn lemma_bits_total_bound(bits: Seq<u8>, n: nat)
    ensures
        0 <= bits_total(bits, n) <= 255 * n,
    decreases n,
{
    if n > 0 {
        lemma_bits_total_bound(bits, (n - 1) as nat);
    }
}

/// Number of values of table `t` that are uploaded.
pub open spec fn values_uploaded(t: HuffModel, dc: bool) -> int {
    let count = bits_total(t.bits, if dc {
        12
    } else {
        16
    });
    if count < t.num_values {
        count
    } else {
        t.num_values as int
    }
}

/// The value words of one table: its values, then `0xFFFFFFFF` up to 12 (DC)
/// or 162 (AC) entries.
pub open spec fn value_words(t: HuffModel, dc: bool) -> Seq<u32> {
    let count = bits_total(t.bits, if dc {
        12
    } else {
        16
    });
    let max_count: int = if dc {
        12
    } else {
        162
    };
    Seq::new(values_uploaded(t, dc) as nat, |j: int| byte_word(t.values[j] as u32)) + Seq::new(
        if max_count > count {
            (max_count - count) as nat
        } else {
            0
        },
        |j: int| 0xFFFF_FFFFu32,
    )
}

/// Every table uploads at most the 256 values it can hold.
pub open spec fn huff_tables_fit(h: HeaderModel) -> bool {
    &&& values_uploaded(h.huff[0], true) <= 256
    &&& values_uploaded(h.huff[2], true) <= 256
    &&& values_uploaded(h.huff[1], false) <= 256
    &&& values_uploaded(h.huff[3], false) <= 256
}

/// The number of values of `table` that an upload sends.
fn uploaded_count(table: &HuffTable, dc: bool) -> (n: usize)
    ensures
        n == values_uploaded(table@, dc),
{
    let bits_len: usize = if dc {
        12
    } else {
        16
    };
    let mut count: usize = 0;
    let mut i: usize = 0;
    while i < bits_len
        invariant
            0 <= i <= bits_len,
            bits_len <= 16,
            count == bits_total(table@.bits, i as nat),
            count <= 255 * i,
        decreases bits_len - i,
    {
        count = count + table.bits[i] as usize;
        i = i + 1;
    }
    if count < table.num_values {
        count
    } else {
        table.num_values
    }
}

/// Whether every Huffman table of `header` uploads at most the 256 values
/// it can hold, as [`upload_huff_tables`] requires.
pub fn huff_tables_fit_check(header: &JpegHeaderInfo) -> (b: bool)
    ensures
        b == huff_tables_fit(header@),
{
    let a = uploaded_count(&header.huff_tables[0], true);
    let b = uploaded_count(&header.huff_tables[2], true);
    let c = uploaded_count(&header.huff_tables[1], false);
    let d = uploaded_count(&header.huff_tables[3], false);
    a <= 256 && b <= 256 && c <= 256 && d <= 256
}

/// The accesses of the Huffman table upload.
pub open spec fn huff_upload_ops(base: usize, h: HeaderModel) -> Seq<BusOp> {
    let w = |offset: usize, value: u32| BusOp::Write32 { base, offset, value };
    seq![w(HUFF_CTRL, HUFF_PHASE_MIN)] + writes32(base, HUFF_DATA, min_code_words(h)) + seq![
        w(HUFF_CTRL, HUFF_PHASE_MAX),
        w(HUFF_ADDR, HUFF_ADDR_MAX),
    ] + writes32(base, HUFF_DATA, max_code_words(h)) + seq![
        w(HUFF_CTRL, HUFF_PHASE_PTR),
        w(HUFF_ADDR, HUFF_ADDR_PTR),
    ] + writes32(base, HUFF_DATA, ptr_words(h)) + seq![w(HUFF_CTRL, HUFF_PHASE_VAL)] + writes32(
        base,
        HUFF_DATA,
        value_words(h.huff[0], true) + value_words(h.huff[2], true) + value_words(h.huff[1], false)
            + value_words(h.huff[3], false),
    ) + seq![w(HUFF_CTRL, 0)]
}

proof fn lemma_writes32_push(base: usize, offset: usize, s: Seq<u32>, k: int)
    requires
        0 <= k < s.len(),
    ensures
        writes32(base, offset, s.take(k + 1)) == writes32(base, offset, s.take(k)).push(
            BusOp::Write32 { base, offset, value: s[k] },
        ),
{
    assert(writes32(base, offset, s.take(k + 1)) =~= writes32(base, offset, s.take(k)).push(
        BusOp::Write32 { base, offset, value: s[k] },
    ));
}

proof fn lemma_writes32_add(base: usize, offset: usize, a: Seq<u32>, b: Seq<u32>)
    ensures
        writes32(base, offset, a + b) == writes32(base, offset, a) + writes32(base, offset, b),
{
    assert(writes32(base, offset, a + b) =~= writes32(base, offset, a) + writes32(base, offset, b));
}

/// Which per-code word sequence a pass uploads.
enum CodePass {
    Min,
    Max,
    Ptr,
}

spec fn pass_words(h: HeaderModel, pass: CodePass) -> Seq<u32> {
    match pass {
        CodePass::Min => min_code_words(h),
        CodePass::Max => max_code_words(h),
        CodePass::Ptr => ptr_words(h),
    }
}

fn upload_code_pass<B: RegisterBus>(
    mmio: &mut Mmio<B>,
    jpu_base: usize,
    header: &JpegHeaderInfo,
    pass: CodePass,
)
    ensures
        final(mmio).trace() == old(mmio).trace() + writes32(
            jpu_base,
            HUFF_DATA,
            pass_words(header@, pass),
        ),
{
    let ghost t0 = mmio.trace();
    let ghost words = pass_words(header@, pass);
    let order: [usize; 4] = [0, 2, 1, 3];
    let mut t: usize = 0;
    while t < 4
        invariant
            0 <= t <= 4,
            order@ == seq![0usize, 2, 1, 3],
            words == pass_words(header@, pass),
            words.len() == 64,
            mmio.trace() == t0 + writes32(jpu_base, HUFF_DATA, words.take(16 * t as int)),
        decreases 4 - t,
    {
        let table_idx = order[t];
        let mut j: usize = 0;
        while j < 16
            invariant
                0 <= j <= 16,
                t < 4,
                table_idx == huff_order(t as int),
                words == pass_words(header@, pass),
                words.len() == 64,
                mmio.trace() == t0 + writes32(jpu_base, HUFF_DATA, words.take(16 * t + j)),
            decreases 16 - j,
        {
            let word = match pass {
                CodePass::Min => {
                    let d = header.huff_tables[table_idx].min_codes[j];
                    ((HuffTable::sign_extend_16(d) & 0xFFFF) << 16u32) | d
                },
                CodePass::Max => {
                    let d = header.huff_tables[table_idx].max_codes[j];
                    ((HuffTable::sign_extend_16(d) & 0xFFFF) << 16u32) | d
                },
                CodePass::Ptr => {
                    let d = header.huff_tables[table_idx].ptrs[j] as u32;
                    ((HuffTable::sign_extend_8(d) & 0xFFFFFF) << 8u32) | d
                },
            };
            proof {
                let k = 16 * t + j;
                assert(k / 16 == t && k % 16 == j) by (nonlinear_arith)
                    requires
                        k == 16 * t + j,
                        j < 16,
                ;
                assert(word == words[k]);
                lemma_writes32_push(jpu_base, HUFF_DATA, words, k);
            }
            mmio.write32(jpu_base, HUFF_DATA, word);
            j = j + 1;
        }
        t = t + 1;
    }
    assert(words.take(64) =~= words);
}

fn upload_values<B: RegisterBus>(mmio: &mut Mmio<B>, jpu_base: usize, table: &HuffTable, dc: bool)
    requires
        values_uploaded(table@, dc) <= 256,
    ensures
        final(mmio).trace() == old(mmio).trace() + writes32(
            jpu_base,
            HUFF_DATA,
            value_words(table@, dc),
        ),
{
    let ghost t0 = mmio.trace();
    let max_count: usize = if dc {
        12
    } else {
        162
    };
    let bits_len: usize = if dc {
        12
    } else {
        16
    };
    let mut count: usize = 0;
    let mut i: usize = 0;
    while i < bits_len
        invariant
            0 <= i <= bits_len,
            bits_len <= 16,
            count == bits_total(table@.bits, i as nat),
            count <= 255 * i,
        decreases bits_len - i,
    {
        count = count + table.bits[i] as usize;
        i = i + 1;
    }
    let n = if count < table.num_values {
        count
    } else {
        table.num_values
    };
    let ghost words = value_words(table@, dc);
    let ghost first = Seq::new(n as nat, |j: int| byte_word(table@.values[j] as u32));
    let mut j: usize = 0;
    while j < n
        invariant
            0 <= j <= n,
            n <= 256,
            n == values_uploaded(table@, dc),
            first == Seq::new(n as nat, |jj: int| byte_word(table@.values[jj] as u32)),
            mmio.trace() == t0 + writes32(jpu_base, HUFF_DATA, first.take(j as int)),
        decreases n - j,
    {
        let val = table.values[j] as u32;
        let word = ((HuffTable::sign_extend_8(val) & 0xFFFFFF) << 8u32) | val;
        proof {
            lemma_writes32_push(jpu_base, HUFF_DATA, first, j as int);
        }
        mmio.write32(jpu_base, HUFF_DATA, word);
        j = j + 1;
    }
    assert(first.take(n as int) =~= first);
    let ghost t1 = mmio.trace();
    let ghost pad = Seq::new(
        if max_count > count {
            (max_count - count) as nat
        } else {
            0
        },
        |jj: int| 0xFFFF_FFFFu32,
    );
    let mut k = count;
    while k < max_count
        invariant
            count <= k || max_count <= count,
            k >= count,
            k <= max_count || k == count,
            pad == Seq::new(
                if max_count > count {
                    (max_count - count) as nat
                } else {
                    0
                },
                |jj: int| 0xFFFF_FFFFu32,
            ),
            mmio.trace() == t1 + writes32(jpu_base, HUFF_DATA, pad.take(k - count)),
        decreases max_count - k,
    {
        proof {
            lemma_writes32_push(jpu_base, HUFF_DATA, pad, k - count);
        }
        mmio.write32(jpu_base, HUFF_DATA, 0xFFFF_FFFF);
        k = k + 1;
    }
    proof {
        assert(pad.take(k - count) =~= pad);
        lemma_writes32_add(jpu_base, HUFF_DATA, first, pad);
        assert(words =~= first + pad);
    }
}

/// Uploads the minimum codes, maximum codes, value pointers and values of the
/// four Huffman tables.
#[verifier::rlimit(60)]
pub fn upload_huff_tables<B: RegisterBus>(
    mmio: &mut Mmio<B>,
    jpu_base: usize,
    header: &JpegHeaderInfo,
) -> (r: Result<(), &'static str>)
    requires
        huff_tables_fit(header@),
    ensures
        r is Ok,
        final(mmio).trace() == old(mmio).trace() + huff_upload_ops(jpu_base, header@),
{
    let ghost t0 = mmio.trace();
    let ghost h = header@;
    mmio.write32(jpu_base, HUFF_CTRL, HUFF_PHASE_MIN);
    upload_code_pass(mmio, jpu_base, header, CodePass::Min);
    mmio.write32(jpu_base, HUFF_CTRL, HUFF_PHASE_MAX);
    mmio.write32(jpu_base, HUFF_ADDR, HUFF_ADDR_MAX);
    upload_code_pass(mmio, jpu_base, header, CodePass::Max);
    mmio.write32(jpu_base, HUFF_CTRL, HUFF_PHASE_PTR);
    mmio.write32(jpu_base, HUFF_ADDR, HUFF_ADDR_PTR);
    upload_code_pass(mmio, jpu_base, header, CodePass::Ptr);
    mmio.write32(jpu_base, HUFF_CTRL, HUFF_PHASE_VAL);
    assert(header.huff_tables@[0]@ == h.huff[0]);
    assert(header.huff_tables@[1]@ == h.huff[1]);
    assert(header.huff_tables@[2]@ == h.huff[2]);
    assert(header.huff_tables@[3]@ == h.huff[3]);
    upload_values(mmio, jpu_base, &header.huff_tables[0], true);
    upload_values(mmio, jpu_base, &header.huff_tables[2], true);
    upload_values(mmio, jpu_base, &header.huff_tables[1], false);
    upload_values(mmio, jpu_base, &header.huff_tables[3], false);
    mmio.write32(jpu_base, HUFF_CTRL, 0);
    proof {
        let a = value_words(h.huff[0], true);
        let b = value_words(h.huff[2], true);
        let c = value_words(h.huff[1], false);
        let d = value_words(h.huff[3], false);
        lemma_writes32_add(jpu_base, HUFF_DATA, a, b);
        lemma_writes32_add(jpu_base, HUFF_DATA, a + b, c);
        lemma_writes32_add(jpu_base, HUFF_DATA, a + b + c, d);
        assert(mmio.trace() =~= t0 + huff_upload_ops(jpu_base, h));
    }
    Ok(())
}

// ---------------------------------------------------------------------------
// Quantisation tables
// ---------------------------------------------------------------------------
pub open spec fn qmat_phase(c: int) -> u32 {
    if c == 0 {
        QMAT_PHASE_Y
    } else if c == 1 {
        QMAT_PHASE_CB
    } else {
        QMAT_PHASE_CR
    }
}

/// The accesses that upload the table of component `c`, if it names a table
/// that was defined.
pub open spec fn quant_comp_ops(base: usize, h: HeaderModel, c: int) -> Seq<BusOp> {
    let t = h.qt[c];
    if t >= 4 || t >= h.quant_count {
        Seq::empty()
    } else {
        seq![BusOp::Write32 { base, offset: QMAT_CTRL, value: qmat_phase(c) }] + writes32(
            base,
            QMAT_DATA,
            h.quant[t as int].map(|j: int, v: u16| v as u32),
        ) + seq![BusOp::Write32 { base, offset: QMAT_CTRL, value: 0 }]
    }
}

/// The accesses that upload the tables of the first `n` components.
pub open spec fn quant_upload_ops(base: usize, h: HeaderModel, n: nat) -> Seq<BusOp>
    decreases n,
{
    if n == 0 {
        Seq::empty()
    } else {
        quant_upload_ops(base, h, (n - 1) as nat) + quant_comp_ops(base, h, n - 1)
    }
}

/// Uploads the quantisation table of each of the (at most three) components.
pub fn upload_quant_tables<B: RegisterBus>(
    mmio: &mut Mmio<B>,
    jpu_base: usize,
    header: &JpegHeaderInfo,
) -> (r: Result<(), &'static str>)
    ensures
        r is Ok,
        final(mmio).trace() == old(mmio).trace() + quant_upload_ops(
            jpu_base,
            header@,
            if header.num_components < 3 {
                header.num_components as nat
            } else {
                3
            },
        ),
{
    let ghost t0 = mmio.trace();
    let ghost h = header@;
    let qmat_phases: [u32; 3] = [QMAT_PHASE_Y, QMAT_PHASE_CB, QMAT_PHASE_CR];
    let comp_count: usize = if (header.num_components as usize) < 3 {
        header.num_components as usize
    } else {
        3
    };
    let mut comp_idx: usize = 0;
    while comp_idx < comp_count
        invariant
            0 <= comp_idx <= comp_count,
            comp_count <= 3,
            h == header@,
            qmat_phases@ == seq![QMAT_PHASE_Y, QMAT_PHASE_CB, QMAT_PHASE_CR],
            mmio.trace() == t0 + quant_upload_ops(jpu_base, h, comp_idx as nat),
        decreases comp_count - comp_idx,
    {
        let ghost tc = mmio.trace();
        let table_idx = header.quant_tbl[comp_idx];
        if table_idx < 4 && table_idx < header.quant_table_count {
            mmio.write32(jpu_base, QMAT_CTRL, qmat_phases[comp_idx]);
            let ghost tw = mmio.trace();
            let ghost vals = h.quant[table_idx as int].map(|j: int, v: u16| v as u32);
            assert(header.quant_tables@[table_idx as int]@ == h.quant[table_idx as int]);
            let mut j: usize = 0;
            while j < 64
                invariant
                    0 <= j <= 64,
                    table_idx < 4,
                    h == header@,
                    vals == h.quant[table_idx as int].map(|jj: int, v: u16| v as u32),
                    header.quant_tables@[table_idx as int]@ == h.quant[table_idx as int],
                    mmio.trace() == tw + writes32(jpu_base, QMAT_DATA, vals.take(j as int)),
                decreases 64 - j,
            {
                proof {
                    lemma_writes32_push(jpu_base, QMAT_DATA, vals, j as int);
                }
                mmio.write32(jpu_base, QMAT_DATA, header.quant_tables[table_idx].values[j] as u32);
                j = j + 1;
            }
            mmio.write32(jpu_base, QMAT_CTRL, 0);
            proof {
                assert(vals.take(64) =~= vals);
                assert(mmio.trace() =~= tc + quant_comp_ops(jpu_base, h, comp_idx as int));
            }
        } else {
            assert(quant_comp_ops(jpu_base, h, comp_idx as int) =~= Seq::<BusOp>::empty());
        }
        proof {
            assert(mmio.trace() =~= t0 + quant_upload_ops(jpu_base, h, (comp_idx + 1) as nat));
        }
        comp_idx = comp_idx + 1;
    }
    Ok(())
}


// ---------------------------------------------------------------------------
// GRAM prefetch
// ---------------------------------------------------------------------------
/// The DMA address of bitstream page `page` in `region`, or why it cannot be
/// fetched.
pub open spec fn gram_page_address(region: DmaRegion, page: int) -> Result<u32, &'static str> {
    let off = page * 256;
    if off > usize::MAX {
        Err("JPU GRAM page offset overflow")
    } else if off > u32::MAX {
        Err("JPU DMA offset does not fit u32")
    } else if region.start + off > u32::MAX {
        Err("JPU DMA offset address overflow")
    } else if region.start + off >= region.end {
        Err("JPU DMA offset is outside its region")
    } else {
        Ok((region.start + off) as u32)
    }
}

/// The writes that fetch bitstream page `page`, found at `addr`, into GRAM.
pub open spec fn gram_page_ops(base: usize, page: int, addr: u32) -> Seq<BusOp> {
    let w = |offset: usize, value: u32| BusOp::Write32 { base, offset, value };
    seq![
        w(BBC_CUR_POS, page as u32),
        w(BBC_EXT_ADDR, addr),
        w(BBC_INT_ADDR, if page % 2 == 1 { 64u32 } else { 0u32 }),
        w(BBC_DATA_CNT, 64),
        w(BBC_COMMAND, 0),
    ]
}

/// The writes that point the bitstream reader at entropy-coded data starting
/// `ecs` bytes into the stream, once the two pages are in GRAM.
pub open spec fn gram_tail_ops(base: usize, ecs: usize) -> Seq<BusOp> {
    let w = |offset: usize, value: u32| BusOp::Write32 { base, offset, value };
    let page = ecs / 256;
    let odd = page % 2 == 1;
    seq![
        w(BBC_CUR_POS, (page + 2) as u32),
        w(BBC_CTRL, 1),
        w(GBU_WD_PTR, ((ecs % 256) / 16 * 4 + if odd { 64int } else { 0int }) as u32),
        w(GBU_BBSR, 0),
        w(GBU_BBER, 127),
        w(GBU_BBIR, if odd { 0u32 } else { 64u32 }),
        w(GBU_BBHR, if odd { 0u32 } else { 64u32 }),
        w(GBU_CTRL, 4),
        w(GBU_FF_RPTR, (ecs % 16 * 8) as u32),
    ]
}

/// The fields of an entropy-coded segment offset: its 256-byte page, the
/// word within the page and the bit within the word.
pub proof fn lemma_ecs_fields(ecs: usize)
    ensures
        ecs >> 8usize == ecs / 256,
        (ecs & 0xF0) >> 2usize == (ecs % 256) / 16 * 4,
        (ecs & 0xF) << 3usize == ecs % 16 * 8,
        (ecs & 0xF) << 3usize <= 120,
{
    assert(ecs >> 8usize == ecs / 256) by (bit_vector);
    assert((ecs & 0xF0) >> 2usize == (ecs % 256) / 16 * 4) by (bit_vector);
    assert((ecs & 0xF) << 3usize == ecs % 16 * 8) by (bit_vector);
    assert((ecs & 0xF) << 3usize <= 120) by (bit_vector);
}

/// The low bit of `x` is its parity.
pub proof fn lemma_parity(x: usize)
    ensures
        x & 1usize == x % 2,
        ((x & 1usize) as u32) << 6u32 == if x % 2 == 1 { 64u32 } else { 0u32 },
{
    assert(x & 1usize == x % 2) by (bit_vector);
    assert(((x & 1usize) as u32) << 6u32 == if x % 2 == 1 { 64u32 } else { 0u32 }) by (bit_vector);
}

fn gram_fetch_page<B: RegisterBus>(mmio: &mut Mmio<B>, jpu_base: usize, region: DmaRegion, page: usize) -> (r:
    Result<(), &'static str>)
    ensures
        gram_page_address(region, page as int) matches Err(e) ==> r == Err::<(), &'static str>(e)
            && final(mmio).trace() == old(mmio).trace(),
        gram_page_address(region, page as int) matches Ok(a) ==> r is Ok && exists|
            polls: Seq<BusOp>,
            idle: bool,
        |
            #![trigger polled_until_clear(polls, jpu_base, BBC_BUSY, 1, POLL_LIMIT as int, idle)]
            polled_until_clear(polls, jpu_base, BBC_BUSY, 1, POLL_LIMIT as int, idle)
                && final(mmio).trace() == old(mmio).trace() + gram_page_ops(jpu_base, page as int, a)
                + polls,
{
    let ghost t0 = mmio.trace();
    let page_offset = match page.checked_mul(BBC_STREAM_PAGE_SIZE) {
        Some(v) => v,
        None => return Err("JPU GRAM page offset overflow"),
    };
    let external_address = match checked_dma_offset(region, page_offset, false) {
        Ok(a) => a,
        Err(e) => return Err(e),
    };
    proof {
        lemma_parity(page);
    }
    mmio.write32(jpu_base, BBC_CUR_POS, page as u32);
    mmio.write32(jpu_base, BBC_EXT_ADDR, external_address);
    mmio.write32(jpu_base, BBC_INT_ADDR, ((page & 1) as u32) << 6u32);
    mmio.write32(jpu_base, BBC_DATA_CNT, (BBC_STREAM_PAGE_SIZE as u32) / 4);
    mmio.write32(jpu_base, BBC_COMMAND, 0);
    let ghost t1 = mmio.trace();
    assert(t1 =~= t0 + gram_page_ops(jpu_base, page as int, external_address));
    let idle = wait_bbc_idle_at(mmio, jpu_base);
    proof {
        let t = mmio.trace();
        let polls = t.subrange(t1.len() as int, t.len() as int);
        assert(t =~= t.subrange(0, t1.len() as int) + polls);
        assert(polled_until_clear(polls, jpu_base, BBC_BUSY, 1, POLL_LIMIT as int, idle));
    }
    Ok(())
}

/// Prefetches the two bitstream pages holding the start of the entropy-coded
/// segment into GRAM and positions the bitstream reader on its first bit.
pub fn gram_setup<B: RegisterBus>(
    mmio: &mut Mmio<B>,
    jpu_base: usize,
    stream_dma: DmaRegion,
    header: &JpegHeaderInfo,
) -> (r: Result<(), &'static str>)
    ensures
        ({
            let p = header.ecs_offset / 256;
            &&& gram_page_address(stream_dma, p as int) matches Err(e) ==> r == Err::<
                (),
                &'static str,
            >(e) && final(mmio).trace() == old(mmio).trace()
            &&& gram_page_address(stream_dma, p as int) matches Ok(a0) ==> (gram_page_address(
                stream_dma,
                p + 1,
            ) matches Err(e) ==> r == Err::<(), &'static str>(e) && exists|
                polls: Seq<BusOp>,
                idle: bool,
            |
                #![trigger polled_until_clear(polls, jpu_base, BBC_BUSY, 1, POLL_LIMIT as int, idle)]
                polled_until_clear(polls, jpu_base, BBC_BUSY, 1, POLL_LIMIT as int, idle)
                    && final(mmio).trace() == old(mmio).trace() + gram_page_ops(
                    jpu_base,
                    p as int,
                    a0,
                ) + polls)
            &&& gram_page_address(stream_dma, p as int) matches Ok(a0) ==> (gram_page_address(
                stream_dma,
                p + 1,
            ) matches Ok(a1) ==> r is Ok && exists|
                p0: Seq<BusOp>,
                i0: bool,
                p1: Seq<BusOp>,
                i1: bool,
            |
                #![trigger polled_until_clear(p0, jpu_base, BBC_BUSY, 1, POLL_LIMIT as int, i0), polled_until_clear(p1, jpu_base, BBC_BUSY, 1, POLL_LIMIT as int, i1)]
                polled_until_clear(p0, jpu_base, BBC_BUSY, 1, POLL_LIMIT as int, i0)
                    && polled_until_clear(p1, jpu_base, BBC_BUSY, 1, POLL_LIMIT as int, i1)
                    && final(mmio).trace() == old(mmio).trace() + gram_page_ops(
                    jpu_base,
                    p as int,
                    a0,
                ) + p0 + gram_page_ops(jpu_base, p + 1, a1) + p1 + gram_tail_ops(
                    jpu_base,
                    header.ecs_offset,
                ))
        }),
{
    let ghost t0 = mmio.trace();
    let ecs_offset = header.ecs_offset;
    let page_ptr = ecs_offset >> 8usize;
    let mut word_ptr = (ecs_offset & 0xF0) >> 2usize;
    let bit_ptr = (ecs_offset & 0xF) << 3usize;
    proof {
        lemma_ecs_fields(ecs_offset);
        lemma_parity(page_ptr);
    }
    if page_ptr & 1 != 0 {
        word_ptr = word_ptr + 64;
    }
    assert(word_ptr % 2 == 0);
    if word_ptr & 1 != 0 {
        proof {
            lemma_parity(word_ptr);
        }
        word_ptr = word_ptr - 1;
    }
    match gram_fetch_page(mmio, jpu_base, stream_dma, page_ptr) {
        Ok(()) => {},
        Err(e) => return Err(e),
    }
    let ghost t1 = mmio.trace();
    match gram_fetch_page(mmio, jpu_base, stream_dma, page_ptr + 1) {
        Ok(()) => {},
        Err(e) => return Err(e),
    }
    let ghost t2 = mmio.trace();
    let next_page = page_ptr + GRAM_PREFETCH_PAGES;
    mmio.write32(jpu_base, BBC_CUR_POS, next_page as u32);
    mmio.write32(jpu_base, BBC_CTRL, 1);
    mmio.write32(jpu_base, GBU_WD_PTR, word_ptr as u32);
    mmio.write32(jpu_base, GBU_BBSR, 0);
    mmio.write32(
        jpu_base,
        GBU_BBER,
        ((BBC_STREAM_PAGE_SIZE as u32 / 4) * GRAM_PREFETCH_PAGES as u32) - 1,
    );
    if page_ptr & 1 != 0 {
        mmio.write32(jpu_base, GBU_BBIR, 0);
        mmio.write32(jpu_base, GBU_BBHR, 0);
    } else {
        mmio.write32(jpu_base, GBU_BBIR, BBC_STREAM_PAGE_SIZE as u32 / 4);
        mmio.write32(jpu_base, GBU_BBHR, BBC_STREAM_PAGE_SIZE as u32 / 4);
    }
    mmio.write32(jpu_base, GBU_CTRL, 4);
    mmio.write32(jpu_base, GBU_FF_RPTR, bit_ptr as u32);
    assert(mmio.trace() =~= t2 + gram_tail_ops(jpu_base, ecs_offset));
    Ok(())
}

// ---------------------------------------------------------------------------
// Completion
// ---------------------------------------------------------------------------
/// Polls of the picture status before giving up.
pub const MAX_DECODE_POLLS: u32 = 500_000;

/// Busy-wait units between two polls.
pub const DECODE_POLL_DELAY: u32 = 1000;

/// Round `j` of `ops`, counted from `start`, is an idle poll: neither DONE nor
/// ERROR was set, and the driver waited.
pub open spec fn idle_poll_round(ops: Seq<BusOp>, base: usize, start: int, j: int) -> bool {
    let i = start + 3 * j;
    &&& ops[i] matches BusOp::Read32 { base: b, offset: o, value: v } && b == base && o
        == PIC_STATUS && v & PIC_STATUS_DONE == 0
    &&& ops[i + 1] matches BusOp::Read32 { base: b, offset: o, value: v } && b == base && o
        == PIC_STATUS && v & PIC_STATUS_ERROR == 0
    &&& ops[i + 2] == BusOp::Delay { units: DECODE_POLL_DELAY }
}

/// The accesses after `k` idle rounds that end a poll with outcome `r`.
pub open spec fn decode_poll_end(tail: Seq<BusOp>, base: usize, k: int, r: Result<(), PollError>) -> bool {
    match r {
        Ok(()) => {
            &&& k < MAX_DECODE_POLLS
            &&& tail.len() == 3
            &&& tail[0] matches BusOp::Read32 { base: b, offset: o, value: v } && b == base && o
                == PIC_STATUS && v & PIC_STATUS_DONE != 0
            &&& tail[1] matches BusOp::Read32 { base: b, offset: o, value: s } && b == base && o
                == PIC_STATUS && tail[2] == BusOp::Write32 { base, offset: PIC_STATUS, value: s }
        },
        Err(PollError::Decode) => {
            &&& k < MAX_DECODE_POLLS
            &&& tail.len() == 5
            &&& tail[0] matches BusOp::Read32 { base: b, offset: o, value: v } && b == base && o
                == PIC_STATUS && v & PIC_STATUS_DONE == 0
            &&& tail[1] matches BusOp::Read32 { base: b, offset: o, value: v } && b == base && o
                == PIC_STATUS && v & PIC_STATUS_ERROR != 0
            &&& tail[3] matches BusOp::Read32 { base: b, offset: o, .. } && b == base && o
                == PIC_ERRMB
            &&& tail[2] matches BusOp::Read32 { base: b, offset: o, value: s } && b == base && o
                == PIC_STATUS && tail[4] == BusOp::Write32 { base, offset: PIC_STATUS, value: s }
        },
        Err(PollError::Timeout) => k == MAX_DECODE_POLLS && tail.len() == 0,
    }
}

/// `ops` is a poll that made `k` idle rounds and then ended with `r`.
pub open spec fn decode_poll_ops(ops: Seq<BusOp>, base: usize, k: int, r: Result<(), PollError>) -> bool {
    &&& 0 <= k <= MAX_DECODE_POLLS
    &&& 3 * k <= ops.len()
    &&& forall|j: int| 0 <= j < k ==> #[trigger] idle_poll_round(ops, base, 0, j)
    &&& decode_poll_end(ops.skip(3 * k), base, k, r)
}

/// Waits, boundedly, for the picture to finish: acknowledges DONE, or reads the
/// error macroblock and acknowledges ERROR, or gives up after
/// [`MAX_DECODE_POLLS`] idle rounds.
pub fn poll_decode_done<B: RegisterBus>(mmio: &mut Mmio<B>, jpu_base: usize) -> (r: Result<(), PollError>)
    ensures
        final(mmio).trace().len() >= old(mmio).trace().len(),
        final(mmio).trace().subrange(0, old(mmio).trace().len() as int) == old(mmio).trace(),
        exists|k: int|
            decode_poll_ops(
                #[trigger] final(mmio).trace().subrange(
                    old(mmio).trace().len() as int,
                    final(mmio).trace().len() as int,
                ),
                jpu_base,
                k,
                r,
            ),
{
    let ghost t0 = mmio.trace();
    let mut count: u32 = 0;
    loop
        invariant
            count < MAX_DECODE_POLLS,
            t0 == old(mmio).trace(),
            mmio.trace().len() == t0.len() + 3 * count,
            mmio.trace().subrange(0, t0.len() as int) == t0,
            forall|j: int| 0 <= j < count ==> #[trigger] idle_poll_round(mmio.trace(), jpu_base, t0.len() as int, j),
        decreases MAX_DECODE_POLLS - count,
    {
        let ghost tr = mmio.trace();
        let s1 = mmio.read32(jpu_base, PIC_STATUS);
        if s1 & PIC_STATUS_DONE != 0 {
            let s = mmio.read32(jpu_base, PIC_STATUS);
            clear_pic_status_at(mmio, jpu_base, s);
            proof {
                let t = mmio.trace();
                let ops = t.subrange(t0.len() as int, t.len() as int);
                assert(t.subrange(0, t0.len() as int) =~= t0);
                assert forall|j: int| 0 <= j < count implies #[trigger] idle_poll_round(ops, jpu_base, 0, j) by {
                    assert(idle_poll_round(tr, jpu_base, t0.len() as int, j));
                    assert(ops[3 * j] == tr[t0.len() + 3 * j]);
                    assert(ops[3 * j + 1] == tr[t0.len() + 3 * j + 1]);
                    assert(ops[3 * j + 2] == tr[t0.len() + 3 * j + 2]);
                }
                let tail = ops.skip(3 * count);
                assert(tail[0] == t[tr.len() as int]);
                assert(tail[1] == t[tr.len() as int + 1]);
                assert(tail[2] == t[tr.len() as int + 2]);
                assert(decode_poll_ops(ops, jpu_base, count as int, Ok(())));
            }
            return Ok(());
        }
        let s2 = mmio.read32(jpu_base, PIC_STATUS);
        if s2 & PIC_STATUS_ERROR != 0 {
            let status = mmio.read32(jpu_base, PIC_STATUS);
            let _err_mb = mmio.read32(jpu_base, PIC_ERRMB);
            clear_pic_status_at(mmio, jpu_base, status);
            proof {
                let t = mmio.trace();
                let ops = t.subrange(t0.len() as int, t.len() as int);
                assert(t.subrange(0, t0.len() as int) =~= t0);
                assert forall|j: int| 0 <= j < count implies #[trigger] idle_poll_round(ops, jpu_base, 0, j) by {
                    assert(idle_poll_round(tr, jpu_base, t0.len() as int, j));
                    assert(ops[3 * j] == tr[t0.len() + 3 * j]);
                    assert(ops[3 * j + 1] == tr[t0.len() + 3 * j + 1]);
                    assert(ops[3 * j + 2] == tr[t0.len() + 3 * j + 2]);
                }
                let tail = ops.skip(3 * count);
                assert(tail[0] == t[tr.len() as int]);
                assert(tail[1] == t[tr.len() as int + 1]);
                assert(tail[2] == t[tr.len() as int + 2]);
                assert(tail[3] == t[tr.len() as int + 3]);
                assert(tail[4] == t[tr.len() as int + 4]);
                assert(decode_poll_ops(ops, jpu_base, count as int, Err(PollError::Decode)));
            }
            return Err(PollError::Decode);
        }
        mmio.delay(DECODE_POLL_DELAY);
        proof {
            let t = mmio.trace();
            assert(t.subrange(0, t0.len() as int) =~= t0);
            assert forall|j: int| 0 <= j < count + 1 implies #[trigger] idle_poll_round(t, jpu_base, t0.len() as int, j) by {
                if j < count {
                    assert(idle_poll_round(tr, jpu_base, t0.len() as int, j));
                    assert(t[t0.len() + 3 * j] == tr[t0.len() + 3 * j]);
                    assert(t[t0.len() + 3 * j + 1] == tr[t0.len() + 3 * j + 1]);
                    assert(t[t0.len() + 3 * j + 2] == tr[t0.len() + 3 * j + 2]);
                } else {
                    assert(t0.len() + 3 * j == tr.len());
                }
            }
        }
        count = count + 1;
        if count >= MAX_DECODE_POLLS {
            proof {
                let t = mmio.trace();
                let ops = t.subrange(t0.len() as int, t.len() as int);
                assert forall|j: int| 0 <= j < count implies #[trigger] idle_poll_round(ops, jpu_base, 0, j) by {
                    assert(idle_poll_round(t, jpu_base, t0.len() as int, j));
                    assert(ops[3 * j] == t[t0.len() + 3 * j]);
                    assert(ops[3 * j + 1] == t[t0.len() + 3 * j + 1]);
                    assert(ops[3 * j + 2] == t[t0.len() + 3 * j + 2]);
                }
                assert(ops.skip(3 * count).len() == 0);
                assert(decode_poll_ops(ops, jpu_base, count as int, Err(PollError::Timeout)));
            }
            return Err(PollError::Timeout);
        }
    }
}

} // verus!
