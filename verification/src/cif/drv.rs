//! Register-level driver of the sensor MAC and the D-PHY wrapper.
use super::regs::{DPHY_TOP_BASE, SENSOR_MAC0_BASE, SENSOR_MAC1_BASE, SENSOR_MAC_VI_BASE};
use super::types::{CifType, CsiDecodeFmt, CsiVsGenMode, LaneId, ParamCsi};
use crate::mmio::{modify32_ops, read_at, BusOp, Mmio, RegisterBus};
use vstd::prelude::*;

verus! {

/// The register blocks of a sensor MAC.
#[derive(Debug, Clone, Copy, PartialEq, Eq, Structural)]
pub enum CifMacBlkId {
    Top,
    Slvds,
    Csi,
    Max,
}

/// The register blocks of the D-PHY wrapper.
#[derive(Debug, Clone, Copy, PartialEq, Eq, Structural)]
pub enum CifWrapBlkId {
    Top,
    Lane4,
    Lane2,
    Max,
}

pub const CIF_MAC_BLK_BA_TOP: usize = 0x0000;

pub const CIF_MAC_BLK_BA_SLVDS: usize = 0x0200;

pub const CIF_MAC_BLK_BA_CSI: usize = 0x0400;

pub const CIF_WRAP_BLK_BA_TOP: usize = 0x0000;

pub const CIF_WRAP_BLK_BA_4L: usize = 0x0300;

pub const CIF_WRAP_BLK_BA_2L: usize = 0x0600;

pub const REG_SENSOR_MAC_MODE: usize = 0x00;

pub const REG_SENSOR_MAC_10: usize = 0x10;

pub const REG_SENSOR_MAC_BC: usize = 0xBC;

pub const REG_CSI_CTRL_00: usize = 0x00;

pub const REG_CSI_CTRL_04: usize = 0x04;

pub const REG_CSI_CTRL_18: usize = 0x18;

pub const REG_CSI_CTRL_40: usize = 0x40;

pub const REG_CSI_CTRL_60: usize = 0x60;

pub const REG_CSI_CTRL_70: usize = 0x70;

pub const REG_PHY_TOP_00: usize = 0x00;

pub const REG_PHY_TOP_04: usize = 0x04;

pub const REG_PHY_TOP_30: usize = 0x30;

pub const REG_PHY_4L_00: usize = 0x00;

pub const REG_PHY_4L_04: usize = 0x04;

pub const REG_PHY_4L_08: usize = 0x08;

pub const REG_PHY_4L_0C: usize = 0x0C;

pub const REG_PHY_4L_10: usize = 0x10;

/// Busy-wait before the deskew lanes are enabled.
pub const DESKEW_ENABLE_DELAY: u32 = 2000;

/// Register block addresses of one link.
#[derive(Debug, Clone, Copy)]
pub struct CifDrvCtx {
    pub mac_regs: [usize; 3],
    pub wrap_regs: [usize; 3],
    pub mac_num: u16,
}

/// The sensor MAC base of `mac_num`.
pub open spec fn mac_base(mac_num: u16) -> usize {
    if mac_num == 0 {
        SENSOR_MAC0_BASE
    } else if mac_num == 1 {
        SENSOR_MAC1_BASE
    } else {
        SENSOR_MAC_VI_BASE
    }
}

impl CifDrvCtx {
    /// The blocks of MAC `mac_num` (the VI MAC for any number above 1) and of
    /// the D-PHY wrapper.
    pub fn new(mac_num: u16) -> (c: Self)
        ensures
            c.mac_regs@ == seq![mac_base(mac_num), (mac_base(mac_num) + CIF_MAC_BLK_BA_SLVDS) as usize, (mac_base(mac_num) + CIF_MAC_BLK_BA_CSI) as usize],
            c.wrap_regs@ == seq![DPHY_TOP_BASE, (DPHY_TOP_BASE + CIF_WRAP_BLK_BA_4L) as usize, (DPHY_TOP_BASE + CIF_WRAP_BLK_BA_2L) as usize],
            c.mac_num == mac_num,
    {
        let base = match mac_num {
            0 => SENSOR_MAC0_BASE,
            1 => SENSOR_MAC1_BASE,
            _ => SENSOR_MAC_VI_BASE,
        };
        let c = CifDrvCtx {
            mac_regs: [base + CIF_MAC_BLK_BA_TOP, base + CIF_MAC_BLK_BA_SLVDS, base + CIF_MAC_BLK_BA_CSI],
            wrap_regs: [DPHY_TOP_BASE + CIF_WRAP_BLK_BA_TOP, DPHY_TOP_BASE + CIF_WRAP_BLK_BA_4L, DPHY_TOP_BASE + CIF_WRAP_BLK_BA_2L],
            mac_num,
        };
        assert(c.mac_regs@ =~= seq![base, (base + CIF_MAC_BLK_BA_SLVDS) as usize, (base + CIF_MAC_BLK_BA_CSI) as usize]);
        assert(c.wrap_regs@ =~= seq![DPHY_TOP_BASE, (DPHY_TOP_BASE + CIF_WRAP_BLK_BA_4L) as usize, (DPHY_TOP_BASE + CIF_WRAP_BLK_BA_2L) as usize]);
        c
    }

    pub open spec fn top(&self) -> usize {
        self.mac_regs@[0]
    }

    pub open spec fn csi(&self) -> usize {
        self.mac_regs@[2]
    }

    pub open spec fn wtop(&self) -> usize {
        self.wrap_regs@[0]
    }

    pub open spec fn w4l(&self) -> usize {
        self.wrap_regs@[1]
    }

    pub open spec fn w2l(&self) -> usize {
        self.wrap_regs@[2]
    }

    /// The lane block of the link's PHY: 4-lane for MAC 0, else 2-lane.
    pub open spec fn wlane(&self) -> usize {
        if self.mac_num == 0 {
            self.w4l()
        } else {
            self.w2l()
        }
    }

    pub fn mac_top(&self) -> (b: usize)
        ensures
            b == self.top(),
    {
        self.mac_regs[0]
    }

    pub fn mac_slvds(&self) -> (b: usize)
        ensures
            b == self.mac_regs@[1],
    {
        self.mac_regs[1]
    }

    pub fn mac_csi(&self) -> (b: usize)
        ensures
            b == self.csi(),
    {
        self.mac_regs[2]
    }

    pub fn wrap_top(&self) -> (b: usize)
        ensures
            b == self.wtop(),
    {
        self.wrap_regs[0]
    }

    pub fn wrap_4l(&self) -> (b: usize)
        ensures
            b == self.w4l(),
    {
        self.wrap_regs[1]
    }

    pub fn wrap_2l(&self) -> (b: usize)
        ensures
            b == self.w2l(),
    {
        self.wrap_regs[2]
    }
}

/// The read-modify-write at index `i` of `t`, which read what it read.
pub open spec fn rmw_at(t: Seq<BusOp>, i: int, base: usize, offset: usize, clear: u32, set: u32) -> Seq<BusOp> {
    modify32_ops(base, offset, read_at(t, i), clear, set)
}

pub open spec fn vs_gen_code(m: CsiVsGenMode) -> u32 {
    match m {
        CsiVsGenMode::Fs => 0,
        CsiVsGenMode::Fe => 1,
        CsiVsGenMode::FsFe => 2,
    }
}

/// The virtual channel map of `param`, four bits per channel.
pub open spec fn vc_map(param: ParamCsi) -> u32 {
    (param.vc_mapping@[0] as u32) | ((param.vc_mapping@[1] as u32) << 4u32) | ((param.vc_mapping@[2] as u32)
        << 8u32) | ((param.vc_mapping@[3] as u32) << 12u32)
}

/// The accesses of [`cif_config_csi`], given the final trace `t` whose
/// index `n` is where they start.
pub open spec fn config_csi_ops(ctx: CifDrvCtx, param: ParamCsi, t: Seq<BusOp>, n: int) -> Seq<BusOp> {
    rmw_at(t, n, ctx.top(), REG_SENSOR_MAC_MODE, 0x3, 1) + rmw_at(t, n + 2, ctx.top(), REG_SENSOR_MAC_MODE, 0, 0x30)
        + rmw_at(t, n + 4, ctx.top(), REG_SENSOR_MAC_MODE, 0, 0x100) + rmw_at(t, n + 6, ctx.csi(), REG_CSI_CTRL_00, 0x3, ((param.lane_num as u32 - 1) as u32) & 0x3)
        + rmw_at(t, n + 8, ctx.csi(), REG_CSI_CTRL_70, 0x3, vs_gen_code(param.vs_gen_mode) & 0x3)
        + rmw_at(t, n + 10, ctx.wlane(), REG_PHY_4L_10, 0x3, 0) + rmw_at(t, n + 12, ctx.wlane(), REG_PHY_4L_00, 0x1, 0)
        + seq![BusOp::Write32 { base: ctx.csi(), offset: REG_CSI_CTRL_18, value: vc_map(param) }]
}

/// Puts the MAC of `ctx` in CSI mode with inverted sync signals, sets the lane
/// count and the vertical sync generation, switches the PHY to CSI and maps
/// the virtual channels.
pub fn cif_config_csi<B: RegisterBus>(mmio: &mut Mmio<B>, ctx: &CifDrvCtx, param: &ParamCsi)
    requires
        param.lane_num >= 1,
    ensures
        final(mmio).trace() == old(mmio).trace() + config_csi_ops(*ctx, *param, final(mmio).trace(), old(mmio).trace().len() as int),
{
    let ghost t0 = mmio.trace();
    let ghost n = t0.len() as int;
    let top = ctx.mac_top();
    let csi = ctx.mac_csi();
    let a = mmio.modify32(top, REG_SENSOR_MAC_MODE, 0x3, 1);
    let b = mmio.modify32(top, REG_SENSOR_MAC_MODE, 0, 0x30);
    let c = mmio.modify32(top, REG_SENSOR_MAC_MODE, 0, 0x100);
    let d = mmio.modify32(csi, REG_CSI_CTRL_00, 0x3, (param.lane_num as u32 - 1) & 0x3);
    let vs: u32 = match param.vs_gen_mode {
        CsiVsGenMode::Fs => 0,
        CsiVsGenMode::Fe => 1,
        CsiVsGenMode::FsFe => 2,
    };
    let e = mmio.modify32(csi, REG_CSI_CTRL_70, 0x3, vs & 0x3);
    let lane_blk = if ctx.mac_num == 0 {
        ctx.wrap_4l()
    } else {
        ctx.wrap_2l()
    };
    let f = mmio.modify32(lane_blk, REG_PHY_4L_10, 0x3, 0);
    let g = mmio.modify32(lane_blk, REG_PHY_4L_00, 0x1, 0);
    let map = (param.vc_mapping[0] as u32) | ((param.vc_mapping[1] as u32) << 4u32) | ((param.vc_mapping[2] as u32)
        << 8u32) | ((param.vc_mapping[3] as u32) << 12u32);
    mmio.write32(csi, REG_CSI_CTRL_18, map);
    let ghost t = mmio.trace();
    assert(read_at(t, n) == a && read_at(t, n + 2) == b && read_at(t, n + 4) == c && read_at(t, n + 6) == d
        && read_at(t, n + 8) == e && read_at(t, n + 10) == f && read_at(t, n + 12) == g);
    assert(t =~= t0 + config_csi_ops(*ctx, *param, t, n));
}

/// A serial interface, whose PHY receivers are powered with the stream.
pub open spec fn is_serial(t: CifType) -> bool {
    t == CifType::Csi || t == CifType::Sublvds || t == CifType::Hispi
}

/// The accesses of [`cif_streaming`] from index `n` of the final trace `t`.
pub open spec fn streaming_ops(ctx: CifDrvCtx, on: bool, cif_type: CifType, lane_num: u16, t: Seq<BusOp>, n: int) -> Seq<BusOp> {
    let phy = if is_serial(cif_type) {
        rmw_at(t, n, ctx.wtop(), REG_PHY_TOP_00, 0x1, if on { 0u32 } else { 1u32 }) + rmw_at(
            t,
            n + 2,
            ctx.wtop(),
            REG_PHY_TOP_00,
            0x3F00,
            if on { 0u32 } else { 0x3F00u32 },
        )
    } else {
        Seq::empty()
    };
    let m = n + phy.len();
    let dbg = rmw_at(t, m, ctx.top(), REG_SENSOR_MAC_BC, 0, 1);
    let lanes: u32 = if ctx.mac_num == 0 {
        0xF
    } else {
        0x3
    };
    let tail = match cif_type {
        CifType::Csi => {
            let v = read_at(t, m + 2);
            if on {
                seq![
                    BusOp::Read32 { base: ctx.wlane(), offset: REG_PHY_4L_0C, value: v },
                    BusOp::Delay { units: DESKEW_ENABLE_DELAY },
                    BusOp::Write32 { base: ctx.wlane(), offset: REG_PHY_4L_0C, value: v | (((1u32 << (lane_num as u32)) - 1) as u32) },
                ]
            } else {
                seq![
                    BusOp::Read32 { base: ctx.wlane(), offset: REG_PHY_4L_0C, value: v },
                    BusOp::Write32 { base: ctx.wlane(), offset: REG_PHY_4L_0C, value: v & !lanes },
                ]
            }
        },
        CifType::Ttl => rmw_at(t, m + 2, ctx.top(), REG_SENSOR_MAC_10, 0x1, if on { 1u32 } else { 0u32 }),
        _ => Seq::empty(),
    };
    phy + dbg + tail
}

/// Turns the stream of a link on or off: powers the PHY receivers of a
/// serial interface, enables the MAC debug path, and enables the deskew
/// lanes (CSI) or the TTL input.
pub fn cif_streaming<B: RegisterBus>(mmio: &mut Mmio<B>, ctx: &CifDrvCtx, on: bool, cif_type: CifType, lane_num: u16)
    requires
        cif_type == CifType::Csi && on ==> lane_num < 32,
    ensures
        final(mmio).trace() == old(mmio).trace() + streaming_ops(*ctx, on, cif_type, lane_num, final(mmio).trace(), old(mmio).trace().len() as int),
{
    let ghost t0 = mmio.trace();
    let ghost n = t0.len() as int;
    let top = ctx.mac_top();
    let wtop = ctx.wrap_top();
    let ghost phy: Seq<BusOp> = Seq::empty();
    if cif_type == CifType::Csi || cif_type == CifType::Sublvds || cif_type == CifType::Hispi {
        let a = mmio.modify32(wtop, REG_PHY_TOP_00, 0x1, if on { 0 } else { 1 });
        let b = mmio.modify32(wtop, REG_PHY_TOP_00, 0x3F00, if on { 0 } else { 0x3F00 });
        proof {
            phy = modify32_ops(wtop, REG_PHY_TOP_00, a, 0x1, if on { 0u32 } else { 1u32 }) + modify32_ops(
                wtop,
                REG_PHY_TOP_00,
                b,
                0x3F00,
                if on { 0u32 } else { 0x3F00u32 },
            );
        }
    }
    let ghost t1 = mmio.trace();
    assert(t1 =~= t0 + phy);
    let dbg = mmio.modify32(top, REG_SENSOR_MAC_BC, 0, 1);
    let ghost t2 = mmio.trace();
    let lane_blk = if ctx.mac_num == 0 {
        ctx.wrap_4l()
    } else {
        ctx.wrap_2l()
    };
    let lanes: u32 = if ctx.mac_num == 0 {
        0xF
    } else {
        0x3
    };
    match cif_type {
        CifType::Csi => {
            let v = mmio.read32(lane_blk, REG_PHY_4L_0C);
            if on {
                mmio.delay(DESKEW_ENABLE_DELAY);
                let sh = lane_num as u32;
                assert(1u32 << sh >= 1u32) by (bit_vector)
                    requires
                        sh < 32,
                ;
                mmio.write32(lane_blk, REG_PHY_4L_0C, v | ((1u32 << sh) - 1));
            } else {
                mmio.write32(lane_blk, REG_PHY_4L_0C, v & !lanes);
            }
            assert(read_at(mmio.trace(), t2.len() as int) == v);
        },
        CifType::Ttl => {
            let v = mmio.modify32(top, REG_SENSOR_MAC_10, 0x1, if on { 1 } else { 0 });
            assert(read_at(mmio.trace(), t2.len() as int) == v);
        },
        _ => {},
    }
    proof {
        let t = mmio.trace();
        assert(t.take(t2.len() as int) =~= t2);
        assert(t2.take(t1.len() as int) =~= t1);
        assert(t.take(t1.len() as int) =~= t1);
        if is_serial(cif_type) {
            assert(read_at(t, n) == read_at(t1, n));
            assert(read_at(t, n + 2) == read_at(t1, n + 2));
            assert(phy =~= rmw_at(t, n, ctx.wtop(), REG_PHY_TOP_00, 0x1, if on { 0u32 } else { 1u32 }) + rmw_at(
                t,
                n + 2,
                ctx.wtop(),
                REG_PHY_TOP_00,
                0x3F00,
                if on { 0u32 } else { 0x3F00u32 },
            ));
        } else {
            assert(phy =~= Seq::<BusOp>::empty());
        }
        assert(read_at(t, t1.len() as int) == dbg);
        assert(t =~= t0 + streaming_ops(*ctx, on, cif_type, lane_num, t, n));
    }
}

/// The accesses of [`cif_set_lane_id`] from index `n` of the final trace `t`.
pub open spec fn lane_id_ops(ctx: CifDrvCtx, lane: LaneId, select: u32, pn_swap: bool, t: Seq<BusOp>, n: int) -> Seq<BusOp> {
    let pn = |bit: u32| if pn_swap { bit } else { 0u32 };
    let mac0 = ctx.mac_num == 0;
    match lane {
        LaneId::Clk => if mac0 {
            rmw_at(t, n, ctx.wtop(), REG_PHY_TOP_04, 0, 1u32 << select) + rmw_at(t, n + 2, ctx.w4l(), REG_PHY_4L_08, 0x17, (select & 0x7) | pn(0x10))
        } else {
            rmw_at(t, n, ctx.wtop(), REG_PHY_TOP_30, 0, 1) + rmw_at(t, n + 2, ctx.wtop(), REG_PHY_TOP_04, 0, 1u32 << select)
                + rmw_at(t, n + 4, ctx.w2l(), REG_PHY_4L_08, 0x17, (select & 0x7) | pn(0x10))
        },
        LaneId::Lane0 => if mac0 {
            rmw_at(t, n, ctx.w4l(), REG_PHY_4L_04, 0x7, select & 0x7) + rmw_at(t, n + 2, ctx.w4l(), REG_PHY_4L_08, 0x100, pn(0x100))
        } else {
            rmw_at(t, n, ctx.w2l(), REG_PHY_4L_04, 0x7, (select % 3) & 0x7) + rmw_at(t, n + 2, ctx.w2l(), REG_PHY_4L_08, 0x100, pn(0x100))
        },
        LaneId::Lane1 => if mac0 {
            rmw_at(t, n, ctx.w4l(), REG_PHY_4L_04, 0x70, (select & 0x7) << 4u32) + rmw_at(t, n + 2, ctx.w4l(), REG_PHY_4L_08, 0x1000, pn(0x1000))
        } else {
            rmw_at(t, n, ctx.w2l(), REG_PHY_4L_04, 0x70, ((select % 3) & 0x7) << 4u32) + rmw_at(t, n + 2, ctx.w2l(), REG_PHY_4L_08, 0x1000, pn(0x1000))
        },
        LaneId::Lane2 => if mac0 {
            rmw_at(t, n, ctx.w4l(), REG_PHY_4L_04, 0x700, (select & 0x7) << 8u32) + rmw_at(t, n + 2, ctx.w4l(), REG_PHY_4L_08, 0x10000, pn(0x10000))
        } else {
            Seq::empty()
        },
        LaneId::Lane3 => if mac0 {
            rmw_at(t, n, ctx.w4l(), REG_PHY_4L_04, 0x7000, (select & 0x7) << 12u32) + rmw_at(t, n + 2, ctx.w4l(), REG_PHY_4L_08, 0x100000, pn(0x100000))
        } else {
            Seq::empty()
        },
    }
}

fn select_and_swap<B: RegisterBus>(
    mmio: &mut Mmio<B>,
    blk: usize,
    sel_clear: u32,
    sel_set: u32,
    swap_bit: u32,
    pn_swap: bool,
)
    ensures
        final(mmio).trace() == old(mmio).trace() + rmw_at(final(mmio).trace(), old(mmio).trace().len() as int, blk, REG_PHY_4L_04, sel_clear, sel_set)
            + rmw_at(final(mmio).trace(), old(mmio).trace().len() + 2int, blk, REG_PHY_4L_08, swap_bit, if pn_swap { swap_bit } else { 0u32 }),
{
    let ghost n = old(mmio).trace().len() as int;
    let a = mmio.modify32(blk, REG_PHY_4L_04, sel_clear, sel_set);
    let b = mmio.modify32(blk, REG_PHY_4L_08, swap_bit, if pn_swap { swap_bit } else { 0 });
    assert(read_at(mmio.trace(), n) == a && read_at(mmio.trace(), n + 2) == b);
    assert(mmio.trace() =~= old(mmio).trace() + rmw_at(mmio.trace(), n, blk, REG_PHY_4L_04, sel_clear, sel_set)
        + rmw_at(mmio.trace(), n + 2, blk, REG_PHY_4L_08, swap_bit, if pn_swap { swap_bit } else { 0u32 }));
}

/// Routes PHY pin `select` to `lane` of the link and sets its P/N swap.
pub fn cif_set_lane_id<B: RegisterBus>(mmio: &mut Mmio<B>, ctx: &CifDrvCtx, lane: LaneId, select: u32, pn_swap: bool)
    requires
        lane is Clk ==> select < 32,
    ensures
        final(mmio).trace() == old(mmio).trace() + lane_id_ops(*ctx, lane, select, pn_swap, final(mmio).trace(), old(mmio).trace().len() as int),
{
    let ghost t0 = mmio.trace();
    let ghost n = t0.len() as int;
    let wtop = ctx.wrap_top();
    let w4l = ctx.wrap_4l();
    let w2l = ctx.wrap_2l();
    let mac0 = ctx.mac_num == 0;
    match lane {
        LaneId::Clk => {
            if mac0 {
                let a = mmio.modify32(wtop, REG_PHY_TOP_04, 0, 1u32 << select);
                let b = mmio.modify32(w4l, REG_PHY_4L_08, 0x17, (select & 0x7) | if pn_swap { 0x10 } else { 0 });
                assert(read_at(mmio.trace(), n) == a && read_at(mmio.trace(), n + 2) == b);
            } else {
                let a = mmio.modify32(wtop, REG_PHY_TOP_30, 0, 1);
                let b = mmio.modify32(wtop, REG_PHY_TOP_04, 0, 1u32 << select);
                let c = mmio.modify32(w2l, REG_PHY_4L_08, 0x17, (select & 0x7) | if pn_swap { 0x10 } else { 0 });
                assert(read_at(mmio.trace(), n) == a && read_at(mmio.trace(), n + 2) == b && read_at(mmio.trace(), n + 4) == c);
            }
        },
        LaneId::Lane0 => {
            if mac0 {
                select_and_swap(mmio, w4l, 0x7, select & 0x7, 0x100, pn_swap);
            } else {
                select_and_swap(mmio, w2l, 0x7, (select % 3) & 0x7, 0x100, pn_swap);
            }
        },
        LaneId::Lane1 => {
            if mac0 {
                select_and_swap(mmio, w4l, 0x70, (select & 0x7) << 4u32, 0x1000, pn_swap);
            } else {
                select_and_swap(mmio, w2l, 0x70, ((select % 3) & 0x7) << 4u32, 0x1000, pn_swap);
            }
        },
        LaneId::Lane2 => {
            if mac0 {
                select_and_swap(mmio, w4l, 0x700, (select & 0x7) << 8u32, 0x10000, pn_swap);
            }
        },
        LaneId::Lane3 => {
            if mac0 {
                select_and_swap(mmio, w4l, 0x7000, (select & 0x7) << 12u32, 0x100000, pn_swap);
            }
        },
    }
    assert(mmio.trace() =~= t0 + lane_id_ops(*ctx, lane, select, pn_swap, mmio.trace(), n));
}

/// Sets the HS settle time of the link's PHY lanes, with automatic ignore
/// and sync off.
pub fn cif_set_hs_settle<B: RegisterBus>(mmio: &mut Mmio<B>, ctx: &CifDrvCtx, hs_settle: u8)
    ensures
        final(mmio).trace() == old(mmio).trace() + rmw_at(final(mmio).trace(), old(mmio).trace().len() as int, ctx.wlane(), REG_PHY_4L_10, 0xFF03, (hs_settle as u32) << 8u32),
{
    let blk = if ctx.mac_num == 0 {
        ctx.wrap_4l()
    } else {
        ctx.wrap_2l()
    };
    let v = mmio.modify32(blk, REG_PHY_4L_10, 0xFF03, (hs_settle as u32) << 8u32);
    assert(read_at(mmio.trace(), old(mmio).trace().len() as int) == v);
}

/// Whether a CSI interrupt of `mask` is pending.
pub fn cif_check_csi_int_sts<B: RegisterBus>(mmio: &mut Mmio<B>, ctx: &CifDrvCtx, mask: u32) -> (b: bool)
    ensures
        final(mmio).trace() == old(mmio).trace().push(BusOp::Read32 { base: ctx.csi(), offset: REG_CSI_CTRL_60, value: read_at(final(mmio).trace(), old(mmio).trace().len() as int) }),
        b == (read_at(final(mmio).trace(), old(mmio).trace().len() as int) & mask != 0),
{
    let v = mmio.read32(ctx.mac_csi(), REG_CSI_CTRL_60);
    assert(read_at(mmio.trace(), old(mmio).trace().len() as int) == v);
    v & mask != 0
}

/// Clears every CSI interrupt status bit.
pub fn cif_clear_csi_int_sts<B: RegisterBus>(mmio: &mut Mmio<B>, ctx: &CifDrvCtx)
    ensures
        final(mmio).trace() == old(mmio).trace() + rmw_at(final(mmio).trace(), old(mmio).trace().len() as int, ctx.csi(), REG_CSI_CTRL_04, 0, 0xFF0000),
{
    let v = mmio.modify32(ctx.mac_csi(), REG_CSI_CTRL_04, 0, 0xFF0000);
    assert(read_at(mmio.trace(), old(mmio).trace().len() as int) == v);
}

/// Masks the CSI interrupts of `mask`.
pub fn cif_mask_csi_int_sts<B: RegisterBus>(mmio: &mut Mmio<B>, ctx: &CifDrvCtx, mask: u32)
    ensures
        final(mmio).trace() == old(mmio).trace() + rmw_at(final(mmio).trace(), old(mmio).trace().len() as int, ctx.csi(), REG_CSI_CTRL_04, 0, (mask & 0xFF) << 8u32),
{
    let v = mmio.modify32(ctx.mac_csi(), REG_CSI_CTRL_04, 0, (mask & 0xFF) << 8u32);
    assert(read_at(mmio.trace(), old(mmio).trace().len() as int) == v);
}

/// Unmasks every CSI interrupt.
pub fn cif_unmask_csi_int_sts<B: RegisterBus>(mmio: &mut Mmio<B>, ctx: &CifDrvCtx, mask: u32)
    ensures
        final(mmio).trace() == old(mmio).trace() + rmw_at(final(mmio).trace(), old(mmio).trace().len() as int, ctx.csi(), REG_CSI_CTRL_04, 0xFF00, 0),
{
    let v = mmio.modify32(ctx.mac_csi(), REG_CSI_CTRL_04, 0xFF00, 0);
    assert(read_at(mmio.trace(), old(mmio).trace().len() as int) == v);
}

/// Whether the CSI FIFO is full.
pub fn cif_check_csi_fifo_full<B: RegisterBus>(mmio: &mut Mmio<B>, ctx: &CifDrvCtx) -> (b: bool)
    ensures
        final(mmio).trace() == old(mmio).trace().push(BusOp::Read32 { base: ctx.csi(), offset: REG_CSI_CTRL_40, value: read_at(final(mmio).trace(), old(mmio).trace().len() as int) }),
        b == (read_at(final(mmio).trace(), old(mmio).trace().len() as int) & 1 != 0),
{
    let v = mmio.read32(ctx.mac_csi(), REG_CSI_CTRL_40);
    assert(read_at(mmio.trace(), old(mmio).trace().len() as int) == v);
    v & 1 != 0
}

/// The decode format selected by the lowest set bit of the five-bit field.
pub open spec fn decode_fmt_of(fmt: u32) -> CsiDecodeFmt {
    if fmt & 1 != 0 {
        CsiDecodeFmt::Yuv422_8
    } else if fmt & 2 != 0 {
        CsiDecodeFmt::Yuv422_10
    } else if fmt & 4 != 0 {
        CsiDecodeFmt::Raw8
    } else if fmt & 8 != 0 {
        CsiDecodeFmt::Raw10
    } else if fmt & 16 != 0 {
        CsiDecodeFmt::Raw12
    } else {
        CsiDecodeFmt::Raw10
    }
}

/// The CSI decode format reported by the MAC.
pub fn cif_get_csi_decode_fmt<B: RegisterBus>(mmio: &mut Mmio<B>, ctx: &CifDrvCtx) -> (f: CsiDecodeFmt)
    ensures
        final(mmio).trace() == old(mmio).trace().push(BusOp::Read32 { base: ctx.csi(), offset: REG_CSI_CTRL_40, value: read_at(final(mmio).trace(), old(mmio).trace().len() as int) }),
        f == decode_fmt_of((read_at(final(mmio).trace(), old(mmio).trace().len() as int) >> 8u32) & 0x1F),
{
    let v = mmio.read32(ctx.mac_csi(), REG_CSI_CTRL_40);
    assert(read_at(mmio.trace(), old(mmio).trace().len() as int) == v);
    let fmt = (v >> 8u32) & 0x1F;
    if fmt & 1 != 0 {
        CsiDecodeFmt::Yuv422_8
    } else if fmt & 2 != 0 {
        CsiDecodeFmt::Yuv422_10
    } else if fmt & 4 != 0 {
        CsiDecodeFmt::Raw8
    } else if fmt & 8 != 0 {
        CsiDecodeFmt::Raw10
    } else if fmt & 16 != 0 {
        CsiDecodeFmt::Raw12
    } else {
        CsiDecodeFmt::Raw10
    }
}

} // verus!
