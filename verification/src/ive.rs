//! IVE (image video engine): YUV 4:2:0 planar to RGB888 planar colour space
//! conversion, in polling mode.
use crate::mmio::{BusOp, Mmio, RegisterBus};
use vstd::prelude::*;

verus! {

pub const IVE_BASE: usize = 0x0A0A_0000;

pub const IVE_TOP_REG_1: usize = 0x0004;

pub const IVE_TOP_REG_2: usize = 0x0008;

pub const IVE_TOP_REG_H10: usize = 0x0010;

pub const IVE_TOP_REG_90: usize = 0x0090;

pub const IVE_TOP_REG_94: usize = 0x0094;

pub const IVE_TOP_REG_98: usize = 0x0098;

pub const IMG_IN_REG_00: usize = 0x0400;

pub const IMG_IN_REG_02: usize = 0x0408;

pub const IMG_IN_REG_03: usize = 0x040C;

pub const IMG_IN_REG_04: usize = 0x0410;

pub const IMG_IN_REG_05: usize = 0x0414;

pub const IMG_IN_REG_Y_BASE_0: usize = 0x0424;

pub const IMG_IN_REG_Y_BASE_1: usize = 0x0428;

pub const IMG_IN_REG_U_BASE_0: usize = 0x042C;

pub const IMG_IN_REG_U_BASE_1: usize = 0x0430;

pub const IMG_IN_REG_V_BASE_0: usize = 0x0434;

pub const IMG_IN_REG_V_BASE_1: usize = 0x0438;

pub const IMG_IN_REG_068: usize = 0x0468;

pub const FOP_REG_H10: usize = 0x2010;

pub const FOP_REG_H14: usize = 0x2014;

pub const FOP_REG_H194: usize = 0x2194;

pub const FOP_REG_CSC_0: usize = 0x2198;

pub const FOP_REG_H1C8: usize = 0x21C8;

pub const FOP_ODMA_00: usize = 0x2120;

pub const FOP_ODMA_01: usize = 0x2124;

pub const FOP_ODMA_02: usize = 0x2128;

pub const FOP_ODMA_03: usize = 0x212C;

pub const FOP_ODMA_04: usize = 0x2130;

pub const FOP_ODMA_05: usize = 0x2134;

pub const FOP_ODMA_06: usize = 0x2138;

pub const FOP_ODMA_07: usize = 0x213C;

pub const FOP_ODMA_08: usize = 0x2140;

pub const FOP_ODMA_11: usize = 0x2148;

pub const FOP_ODMA_12: usize = 0x214C;

pub const FMT_YUV420P: u32 = 0x0;

pub const FMT_RGB888_PLANAR: u32 = 0x2;

/// Polls of the frame-done status before a conversion gives up.
pub const IVE_POLL_LIMIT: u32 = 1_000_000;

/// The BT.601 limited-range YUV to RGB coefficients.
pub open spec fn csc_coef(i: int) -> u32 {
    if i == 0 {
        1024
    } else if i == 1 {
        0
    } else if i == 2 {
        1404
    } else if i == 3 {
        179188
    } else if i == 4 {
        1024
    } else if i == 5 {
        344
    } else if i == 6 {
        715
    } else if i == 7 {
        136040
    } else if i == 8 {
        1024
    } else if i == 9 {
        1774
    } else if i == 10 {
        0
    } else {
        226505
    }
}

/// The input format override; `u32::MAX` means none.
#[derive(Debug, Clone, Copy, PartialEq, Eq, Structural)]
pub struct IveFormat {
    pub fmt_sel_override: u32,
}

impl IveFormat {
    /// No override: the input is YUV 4:2:0 planar.
    pub fn new() -> (f: Self)
        ensures
            f.fmt_sel_override == u32::MAX,
    {
        IveFormat { fmt_sel_override: u32::MAX }
    }
}

/// The input format in effect under `f`.
pub open spec fn input_fmt_spec(f: IveFormat) -> u32 {
    if f.fmt_sel_override == u32::MAX {
        FMT_YUV420P
    } else {
        f.fmt_sel_override & 0xF
    }
}

/// Overrides the input format selection with `fmt`.
pub fn set_input_fmt(state: &mut IveFormat, fmt: u32)
    ensures
        final(state).fmt_sel_override == fmt,
{
    state.fmt_sel_override = fmt;
}

/// The input format selection: the override's low four bits, or YUV 4:2:0
/// planar without one.
pub fn input_fmt(state: &IveFormat) -> (f: u32)
    ensures
        f == input_fmt_spec(*state),
{
    if state.fmt_sel_override == u32::MAX {
        FMT_YUV420P
    } else {
        state.fmt_sel_override & 0xF
    }
}

/// Source and destination planes of a conversion.
#[derive(Debug, Clone, Copy, PartialEq, Eq, Structural)]
pub struct CscPlanes {
    pub y_pa: usize,
    pub u_pa: usize,
    pub v_pa: usize,
    pub y_pitch: u32,
    pub c_pitch: u32,
    pub r_pa: usize,
    pub g_pa: usize,
    pub b_pa: usize,
    pub r_pitch: u32,
    pub width: u32,
    pub height: u32,
}

pub open spec fn ive_w(offset: usize, value: u32) -> BusOp {
    BusOp::Write32 { base: IVE_BASE, offset, value }
}

/// The two writes of a 64-bit address, low word first.
pub open spec fn addr_writes(lo: usize, hi: usize, pa: usize) -> Seq<BusOp> {
    seq![ive_w(lo, (pa as u64) as u32), ive_w(hi, ((pa as u64) >> 32u64) as u32)]
}

/// The accesses that set up a conversion and start it.
pub open spec fn csc_setup_ops(p: CscPlanes, fmt: u32) -> Seq<BusOp> {
    let wm1 = (p.width - 1) as u32;
    let hm1 = (p.height - 1) as u32;
    seq![
        ive_w(IVE_TOP_REG_1, 1),
        BusOp::Delay { units: 100 },
        ive_w(IVE_TOP_REG_1, 0),
        ive_w(IVE_TOP_REG_2, (hm1 << 16u32) | (wm1 & 0x1FFF)),
        ive_w(FOP_REG_H10, 1),
        ive_w(FOP_REG_H14, 0),
    ] + Seq::new(12, |i: int| ive_w((FOP_REG_CSC_0 + i * 4) as usize, csc_coef(i) & 0x7FFFF)) + seq![
        ive_w(FOP_REG_H194, 0x10000),
        ive_w(FOP_REG_H1C8, 0x10),
        ive_w(IMG_IN_REG_068, 0x40000),
        BusOp::Delay { units: 100 },
        ive_w(IMG_IN_REG_068, 0),
        ive_w(IMG_IN_REG_03, p.y_pitch),
        ive_w(IMG_IN_REG_04, p.c_pitch),
        ive_w(IMG_IN_REG_02, (hm1 << 16u32) | (wm1 & 0xFFFF)),
        ive_w(IMG_IN_REG_00, 2u32 | (fmt << 4u32) | 0x800u32 | 0x10000u32),
    ] + addr_writes(IMG_IN_REG_Y_BASE_0, IMG_IN_REG_Y_BASE_1, p.y_pa) + addr_writes(
        IMG_IN_REG_U_BASE_0,
        IMG_IN_REG_U_BASE_1,
        p.u_pa,
    ) + addr_writes(IMG_IN_REG_V_BASE_0, IMG_IN_REG_V_BASE_1, p.v_pa) + seq![
        ive_w(IMG_IN_REG_05, 0x4),
        ive_w(IVE_TOP_REG_H10, 0x8009),
        ive_w(FOP_ODMA_07, p.r_pitch),
        ive_w(FOP_ODMA_08, p.r_pitch),
        ive_w(FOP_ODMA_11, wm1 & 0xFFF),
        ive_w(FOP_ODMA_12, hm1 & 0xFFF),
    ] + addr_writes(FOP_ODMA_01, FOP_ODMA_02, p.r_pa) + addr_writes(FOP_ODMA_03, FOP_ODMA_04, p.g_pa)
        + addr_writes(FOP_ODMA_05, FOP_ODMA_06, p.b_pa) + seq![
        ive_w(FOP_ODMA_00, (FMT_RGB888_PLANAR << 8u32) | 0x1001u32),
        ive_w(FOP_REG_H14, 0),
        ive_w(IVE_TOP_REG_90, 0),
        ive_w(IVE_TOP_REG_98, 0),
        ive_w(IVE_TOP_REG_94, 0),
        ive_w(IVE_TOP_REG_1, 0x10),
    ]
}

/// Round `j` of the polls from index `start` of `ops` read a zero status and
/// waited.
pub open spec fn busy_round(ops: Seq<BusOp>, start: int, j: int) -> bool {
    let i = start + 2 * j;
    &&& ops[i] == BusOp::Read32 { base: IVE_BASE, offset: IVE_TOP_REG_90, value: 0 }
    &&& ops[i + 1] == BusOp::Delay { units: 10 }
}

/// The polls `ops`: `k` busy rounds, then a non-zero status (`done`) or
/// nothing more after all rounds.
pub open spec fn csc_poll_ops(ops: Seq<BusOp>, k: int, done: bool) -> bool {
    &&& 0 <= k <= IVE_POLL_LIMIT
    &&& forall|j: int| 0 <= j < k ==> #[trigger] busy_round(ops, 0, j)
    &&& if done {
        &&& k < IVE_POLL_LIMIT
        &&& ops.len() == 2 * k + 1
        &&& ops[2 * k] matches BusOp::Read32 { base: b, offset: o, value: v } && b == IVE_BASE && o == IVE_TOP_REG_90 && v != 0
    } else {
        k == IVE_POLL_LIMIT && ops.len() == 2 * k
    }
}

fn write_addr<B: RegisterBus>(mmio: &mut Mmio<B>, lo: usize, hi: usize, pa: usize)
    ensures
        final(mmio).trace() == old(mmio).trace() + addr_writes(lo, hi, pa),
{
    let a = pa as u64;
    mmio.write32(IVE_BASE, lo, a as u32);
    mmio.write32(IVE_BASE, hi, (a >> 32u64) as u32);
    assert(mmio.trace() =~= old(mmio).trace() + addr_writes(lo, hi, pa));
}

/// Polls the frame status register until it reads non-zero, at most
/// [`IVE_POLL_LIMIT`] times with a short delay after each zero; says whether
/// it did.
fn poll_frame_done<B: RegisterBus>(mmio: &mut Mmio<B>) -> (done: bool)
    ensures
        old(mmio).trace().len() <= final(mmio).trace().len(),
        final(mmio).trace().take(old(mmio).trace().len() as int) == old(mmio).trace(),
        exists|k: int| #[trigger] csc_poll_ops(final(mmio).trace().skip(old(mmio).trace().len() as int), k, done),
{
    let ghost ts = mmio.trace();
    let mut k: u32 = 0;
    while k < IVE_POLL_LIMIT
        invariant
            ts == old(mmio).trace(),
            k <= IVE_POLL_LIMIT,
            mmio.trace().len() == ts.len() + 2 * k,
            mmio.trace().take(ts.len() as int) == ts,
            forall|j: int| 0 <= j < k ==> #[trigger] busy_round(mmio.trace(), ts.len() as int, j),
        decreases IVE_POLL_LIMIT - k,
    {
        let ghost tk = mmio.trace();
        let status = mmio.read32(IVE_BASE, IVE_TOP_REG_90);
        if status != 0 {
            proof {
                let t = mmio.trace();
                assert(t.take(ts.len() as int) =~= ts);
                let ops = t.skip(ts.len() as int);
                assert forall|j: int| 0 <= j < k implies #[trigger] busy_round(ops, 0, j) by {
                    assert(busy_round(tk, ts.len() as int, j));
                    assert(ops[2 * j] == t[ts.len() + 2 * j]);
                    assert(ops[2 * j + 1] == t[ts.len() + 2 * j + 1]);
                }
                assert(ops[(2 * k) as int] == t[tk.len() as int]);
                assert(csc_poll_ops(ops, k as int, true));
            }
            return true;
        }
        mmio.delay(10);
        proof {
            let t = mmio.trace();
            assert(t.take(ts.len() as int) =~= ts);
            assert forall|j: int| 0 <= j < k + 1 implies #[trigger] busy_round(t, ts.len() as int, j) by {
                if j < k {
                    assert(busy_round(tk, ts.len() as int, j));
                }
            }
        }
        k = k + 1;
    }
    proof {
        let t = mmio.trace();
        let ops = t.skip(ts.len() as int);
        assert forall|j: int| 0 <= j < k implies #[trigger] busy_round(ops, 0, j) by {
            assert(busy_round(t, ts.len() as int, j));
            assert(ops[2 * j] == t[ts.len() + 2 * j]);
            assert(ops[2 * j + 1] == t[ts.len() + 2 * j + 1]);
        }
        assert(csc_poll_ops(ops, k as int, false));
    }
    false
}

/// Converts the YUV 4:2:0 planar frame `p.y/u/v` into RGB888 planar at
/// `p.r/g/b` with the BT.601 limited-range coefficients, then polls the frame
/// status until it is non-zero, at most [`IVE_POLL_LIMIT`] times.
pub fn csc_yuv420_to_rgb888<B: RegisterBus>(mmio: &mut Mmio<B>, state: &IveFormat, p: &CscPlanes) -> (r: Result<(), &'static str>)
    requires
        p.width >= 1,
        p.height >= 1,
    ensures
        ({
            let setup = csc_setup_ops(*p, input_fmt_spec(*state));
            let n = (old(mmio).trace().len() + setup.len()) as int;
            let t = final(mmio).trace();
            &&& n <= t.len()
            &&& t.take(n) == old(mmio).trace() + setup
            &&& exists|k: int| #[trigger] csc_poll_ops(t.skip(n), k, r is Ok)
            &&& r matches Err(m) ==> m@ == "IVE CSC timeout"@
        }),
{
    let ghost t0 = mmio.trace();
    let wm1 = p.width - 1;
    let hm1 = p.height - 1;
    mmio.write32(IVE_BASE, IVE_TOP_REG_1, 1);
    mmio.delay(100);
    mmio.write32(IVE_BASE, IVE_TOP_REG_1, 0);
    mmio.write32(IVE_BASE, IVE_TOP_REG_2, (hm1 << 16u32) | (wm1 & 0x1FFF));
    mmio.write32(IVE_BASE, FOP_REG_H10, 1);
    mmio.write32(IVE_BASE, FOP_REG_H14, 0);
    let coef: [u32; 12] = [1024, 0, 1404, 179188, 1024, 344, 715, 136040, 1024, 1774, 0, 226505];
    let ghost tc = mmio.trace();
    let mut i: usize = 0;
    while i < 12
        invariant
            i <= 12,
            coef@ == seq![1024u32, 0, 1404, 179188, 1024, 344, 715, 136040, 1024, 1774, 0, 226505],
            mmio.trace() == tc + Seq::new(i as nat, |j: int| ive_w((FOP_REG_CSC_0 + j * 4) as usize, csc_coef(j) & 0x7FFFF)),
        decreases 12 - i,
    {
        mmio.write32(IVE_BASE, FOP_REG_CSC_0 + i * 4, coef[i] & 0x7FFFF);
        assert(mmio.trace() =~= tc + Seq::new((i + 1) as nat, |j: int| ive_w((FOP_REG_CSC_0 + j * 4) as usize, csc_coef(j) & 0x7FFFF)));
        i = i + 1;
    }
    mmio.write32(IVE_BASE, FOP_REG_H194, 0x10000);
    mmio.write32(IVE_BASE, FOP_REG_H1C8, 0x10);
    mmio.write32(IVE_BASE, IMG_IN_REG_068, 0x40000);
    mmio.delay(100);
    mmio.write32(IVE_BASE, IMG_IN_REG_068, 0);
    mmio.write32(IVE_BASE, IMG_IN_REG_03, p.y_pitch);
    mmio.write32(IVE_BASE, IMG_IN_REG_04, p.c_pitch);
    mmio.write32(IVE_BASE, IMG_IN_REG_02, (hm1 << 16u32) | (wm1 & 0xFFFF));
    let fmt = input_fmt(state);
    mmio.write32(IVE_BASE, IMG_IN_REG_00, 2u32 | (fmt << 4u32) | 0x800u32 | 0x10000u32);
    write_addr(mmio, IMG_IN_REG_Y_BASE_0, IMG_IN_REG_Y_BASE_1, p.y_pa);
    write_addr(mmio, IMG_IN_REG_U_BASE_0, IMG_IN_REG_U_BASE_1, p.u_pa);
    write_addr(mmio, IMG_IN_REG_V_BASE_0, IMG_IN_REG_V_BASE_1, p.v_pa);
    mmio.write32(IVE_BASE, IMG_IN_REG_05, 0x4);
    mmio.write32(IVE_BASE, IVE_TOP_REG_H10, 0x8009);
    mmio.write32(IVE_BASE, FOP_ODMA_07, p.r_pitch);
    mmio.write32(IVE_BASE, FOP_ODMA_08, p.r_pitch);
    mmio.write32(IVE_BASE, FOP_ODMA_11, wm1 & 0xFFF);
    mmio.write32(IVE_BASE, FOP_ODMA_12, hm1 & 0xFFF);
    write_addr(mmio, FOP_ODMA_01, FOP_ODMA_02, p.r_pa);
    write_addr(mmio, FOP_ODMA_03, FOP_ODMA_04, p.g_pa);
    write_addr(mmio, FOP_ODMA_05, FOP_ODMA_06, p.b_pa);
    mmio.write32(IVE_BASE, FOP_ODMA_00, (FMT_RGB888_PLANAR << 8u32) | 0x1001u32);
    mmio.write32(IVE_BASE, FOP_REG_H14, 0);
    mmio.write32(IVE_BASE, IVE_TOP_REG_90, 0);
    mmio.write32(IVE_BASE, IVE_TOP_REG_98, 0);
    mmio.write32(IVE_BASE, IVE_TOP_REG_94, 0);
    mmio.write32(IVE_BASE, IVE_TOP_REG_1, 0x10);
    let ghost setup = csc_setup_ops(*p, input_fmt_spec(*state));
    assert(mmio.trace() =~= t0 + setup);
    let ghost ts = mmio.trace();
    let done = poll_frame_done(mmio);
    proof {
        let t = mmio.trace();
        assert(ts.len() == t0.len() + setup.len());
        assert(t.take(ts.len() as int) == ts);
        let k = choose|k: int| #[trigger] csc_poll_ops(t.skip(ts.len() as int), k, done);
        assert(csc_poll_ops(t.skip((t0.len() + setup.len()) as int), k, done));
    }
    if done {
        Ok(())
    } else {
        Err("IVE CSC timeout")
    }
}

} // verus!
