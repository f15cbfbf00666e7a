//! The MIPI receiver PHY: the shared top block (mode, power, clocks,
//! timing generator) and the two D-PHY ports (lane routing, Sub-LVDS,
//! lane calibration).
//!
//! Every setter is a read-modify-write of one or more register fields; its
//! contract lists the updates (see [`rmws`]).
use super::regs::{
    DPHY_LANE_CALIB_0, DPHY_LANE_CALIB_1, DPHY_LANE_CALIB_RESULT, DPHY_LANE_STRIDE, DPHY_REG_00,
    DPHY_REG_04, DPHY_REG_08, DPHY_REG_0C, DPHY_REG_20, DPHY_REG_24, MIPIRX_DPHY_2L_BASE,
    MIPIRX_DPHY_4L_BASE, MIPIRX_PHY_TOP_BASE, PHY_REG_00, PHY_REG_04, PHY_REG_30,
    PHY_REG_80, PHY_REG_A0, PHY_REG_A4, PHY_REG_A8, PHY_REG_AC, PHY_REG_CAL_RESULT0,
};
use super::types::{
    deskew_lane_enable_value, lane_id_value, phy_mode_value, sensor_mode_value,
    sub_lvds_bit_mode_value, DeskewLaneEnable, LaneId, PhyMode, SensorMode, SubLvdsBitMode,
};
use crate::mmio::{
    bit, bit_of, field_bits, field_value, lemma_rmws_append, read_at, read_next, rmws, Mmio, RegisterBus,
};
use vstd::prelude::*;

verus! {

/// The field updates of [`set_phy_mode`].
pub open spec fn set_phy_mode_steps(base: usize, mode: PhyMode) -> Seq<(usize, usize, u32, u32)> {
    seq![
        (base, PHY_REG_30, 0x7, field_bits(phy_mode_value(mode) as u32, 0x7, 0)),
    ]
}

/// The field updates of [`power_on`].
pub open spec fn power_on_steps(base: usize) -> Seq<(usize, usize, u32, u32)> {
    seq![
        (base, PHY_REG_00, 0x4000, field_bits(0, 0x1, 14)),
        (base, PHY_REG_00, 0x3f0000, field_bits(0, 0x3f, 16)),
    ]
}

/// The field updates of [`power_off`].
pub open spec fn power_off_steps(base: usize) -> Seq<(usize, usize, u32, u32)> {
    seq![
        (base, PHY_REG_00, 0x4000, field_bits(1, 0x1, 14)),
        (base, PHY_REG_00, 0x3f0000, field_bits(0x3f, 0x3f, 16)),
    ]
}

/// The field updates of [`set_clk_channel`].
pub open spec fn set_clk_channel_steps(base: usize, channel: u8) -> Seq<(usize, usize, u32, u32)> {
    seq![
        (base, PHY_REG_04, 0x3f0000, field_bits(channel as u32, 0x3f, 16)),
    ]
}

/// The field updates of [`enable_mipimpll_clk`].
pub open spec fn enable_mipimpll_clk_steps(base: usize) -> Seq<(usize, usize, u32, u32)> {
    seq![
        (base, PHY_REG_04, 0x80000000, field_bits(1, 0x1, 31)),
    ]
}

/// The field updates of [`disable_mipimpll_clk`].
pub open spec fn disable_mipimpll_clk_steps(base: usize) -> Seq<(usize, usize, u32, u32)> {
    seq![
        (base, PHY_REG_04, 0x80000000, field_bits(0, 0x1, 31)),
    ]
}

/// The field updates of [`configure_cam0_vtiming`].
pub open spec fn configure_cam0_vtiming_steps(base: usize, vtt: u16, vs_start: u16, vs_stop: u16) -> Seq<(usize, usize, u32, u32)> {
    seq![
        (base, PHY_REG_A0, 0x3fff3fff, field_bits(vtt as u32, 0x3fff, 0) | field_bits(vs_start as u32, 0x3fff, 16)),
        (base, PHY_REG_A4, 0x3fff, field_bits(vs_stop as u32, 0x3fff, 0)),
    ]
}

/// The field updates of [`configure_cam0_htiming`].
pub open spec fn configure_cam0_htiming_steps(base: usize, htt: u16, hs_start: u16, hs_stop: u16) -> Seq<(usize, usize, u32, u32)> {
    seq![
        (base, PHY_REG_A4, 0x3fff0000, field_bits(htt as u32, 0x3fff, 16)),
        (base, PHY_REG_A8, 0x3fff3fff, field_bits(hs_start as u32, 0x3fff, 0) | field_bits(hs_stop as u32, 0x3fff, 16)),
    ]
}

/// The field updates of [`configure_cam0_polarity`].
pub open spec fn configure_cam0_polarity_steps(base: usize, vs_pol: bool, hs_pol: bool) -> Seq<(usize, usize, u32, u32)> {
    seq![
        (base, PHY_REG_AC, 0x3, field_bits(bit(vs_pol), 0x1, 0) | field_bits(bit(hs_pol), 0x1, 1)),
    ]
}

/// The field updates of [`enable_cam0_tgen`].
pub open spec fn enable_cam0_tgen_steps(base: usize) -> Seq<(usize, usize, u32, u32)> {
    seq![
        (base, PHY_REG_AC, 0x4, field_bits(1, 0x1, 2)),
    ]
}

/// The field updates of [`disable_cam0_tgen`].
pub open spec fn disable_cam0_tgen_steps(base: usize) -> Seq<(usize, usize, u32, u32)> {
    seq![
        (base, PHY_REG_AC, 0x4, field_bits(0, 0x1, 2)),
    ]
}

/// The field updates of [`set_sensor_mode`].
pub open spec fn set_sensor_mode_steps(base: usize, port: u8, mode: SensorMode) -> Seq<(usize, usize, u32, u32)> {
    seq![
        (base, DPHY_REG_00, 0x3, field_bits(sensor_mode_value(mode) as u32, 0x3, 0)),
    ]
}

/// The field updates of [`configure_csi_lane_select`].
pub open spec fn configure_csi_lane_select_steps(base: usize, port: u8, lane_sel: [u8; 4]) -> Seq<(usize, usize, u32, u32)> {
    seq![
        (base, DPHY_REG_04, 0x7777, field_bits(lane_sel@[0] as u32, 0x7, 0) | field_bits(lane_sel@[1] as u32, 0x7, 4) | field_bits(lane_sel@[2] as u32, 0x7, 8) | field_bits(lane_sel@[3] as u32, 0x7, 12)),
    ]
}

/// The field updates of [`configure_csi_clk_lane`].
pub open spec fn configure_csi_clk_lane_steps(base: usize, port: u8, clk_sel: u8, pn_swap: bool, phase: u8) -> Seq<(usize, usize, u32, u32)> {
    seq![
        (base, DPHY_REG_08, 0xff0017, field_bits(clk_sel as u32, 0x7, 0) | field_bits(bit(pn_swap), 0x1, 4) | field_bits(phase as u32, 0xff, 16)),
    ]
}

/// The field updates of [`configure_csi_data_pn_swap`].
pub open spec fn configure_csi_data_pn_swap_steps(base: usize, port: u8, pn_swap: [bool; 4]) -> Seq<(usize, usize, u32, u32)> {
    seq![
        (base, DPHY_REG_08, 0xf00, field_bits(bit(pn_swap@[0]), 0x1, 8) | field_bits(bit(pn_swap@[1]), 0x1, 9) | field_bits(bit(pn_swap@[2]), 0x1, 10) | field_bits(bit(pn_swap@[3]), 0x1, 11)),
    ]
}

/// The field updates of [`set_deskew_lane_enable`].
pub open spec fn set_deskew_lane_enable_steps(base: usize, port: u8, enable: DeskewLaneEnable) -> Seq<(usize, usize, u32, u32)> {
    seq![
        (base, DPHY_REG_0C, 0xf, field_bits(deskew_lane_enable_value(enable) as u32, 0xf, 0)),
    ]
}

/// The field updates of [`configure_sublvds`].
pub open spec fn configure_sublvds_steps(base: usize, port: u8, bit_mode: SubLvdsBitMode, msb_first: bool, lane_enable: u8) -> Seq<(usize, usize, u32, u32)> {
    seq![
        (base, DPHY_REG_20, 0xfd, field_bits(sub_lvds_bit_mode_value(bit_mode) as u32, 0x3, 2) | field_bits(bit(msb_first), 0x1, 0) | field_bits(lane_enable as u32, 0xf, 4)),
    ]
}

/// The field updates of [`configure_sublvds_sync_code`].
pub open spec fn configure_sublvds_sync_code_steps(base: usize, port: u8, sav_1st: u16, sav_2nd: u16, sav_3rd: u16) -> Seq<(usize, usize, u32, u32)> {
    seq![
        (base, DPHY_REG_20, 0xfff0000, field_bits(sav_1st as u32, 0xfff, 16)),
        (base, DPHY_REG_24, 0xfff0fff, field_bits(sav_2nd as u32, 0xfff, 0) | field_bits(sav_3rd as u32, 0xfff, 16)),
    ]
}

/// The field update of [`MipiRxPhy::set_lane_clk_invert`].
pub open spec fn set_lane_clk_invert_steps(base: usize, lane: LaneId, invert: bool) -> Seq<(usize, usize, u32, u32)> {
    seq![
        (base, PHY_REG_80, field_bits(1, 0x1, lane_id_value(lane) as u32), field_bits(bit(invert), 0x1, lane_id_value(lane) as u32)),
    ]
}

/// The offset of register `offset` of the calibration block of D-PHY lane `lane`.
pub open spec fn lane_calib_offset(offset: usize, lane: u8) -> usize {
    (offset + DPHY_LANE_STRIDE * lane) as usize
}

/// The field update of [`MipiRxPhy::enable_lane_calibration`] (`on`) or
/// [`MipiRxPhy::disable_lane_calibration`]: none for a lane above 3.
pub open spec fn lane_calibration_enable_steps(base: usize, lane: u8, on: bool) -> Seq<(usize, usize, u32, u32)> {
    if lane < 4 {
        seq![(base, lane_calib_offset(DPHY_LANE_CALIB_1, lane), 0x1, field_bits(bit(on), 0x1, 0))]
    } else {
        Seq::empty()
    }
}

/// The field update of [`MipiRxPhy::configure_lane_calibration`]: none for a
/// lane above 3.
pub open spec fn configure_lane_calibration_steps(base: usize, lane: u8, max_step: u8, step_value: u8, pattern: u8) -> Seq<(usize, usize, u32, u32)> {
    if lane < 4 {
        seq![(base, lane_calib_offset(DPHY_LANE_CALIB_0, lane), 0xffffff00,
            field_bits(max_step as u32, 0xff, 8) | field_bits(step_value as u32, 0xff, 16) | field_bits(pattern as u32, 0xff, 24))]
    } else {
        Seq::empty()
    }
}

/// The MIPI receiver PHY: the top block and the D-PHYs of port 0 (four
/// lanes) and port 1 (two lanes).
pub struct MipiRxPhy {
    phy_top: usize,
    dphy_4l: usize,
    dphy_2l: usize,
}

impl MipiRxPhy {
    /// The base address of the top block.
    pub closed spec fn top(&self) -> usize {
        self.phy_top
    }

    /// The base address of the D-PHY of port 0.
    pub closed spec fn dphy_4l_base(&self) -> usize {
        self.dphy_4l
    }

    /// The base address of the D-PHY of port 1.
    pub closed spec fn dphy_2l_base(&self) -> usize {
        self.dphy_2l
    }

    /// The D-PHY that port `port` selects: port 0 the four-lane one, any
    /// other the two-lane one.
    pub open spec fn dphy(&self, port: u8) -> usize {
        if port == 0 {
            self.dphy_4l_base()
        } else {
            self.dphy_2l_base()
        }
    }

    /// The PHY at its SoC addresses.
    pub fn new() -> (p: Self)
        ensures
            p.top() == MIPIRX_PHY_TOP_BASE,
            p.dphy_4l_base() == MIPIRX_DPHY_4L_BASE,
            p.dphy_2l_base() == MIPIRX_DPHY_2L_BASE,
    {
        MipiRxPhy { phy_top: MIPIRX_PHY_TOP_BASE, dphy_4l: MIPIRX_DPHY_4L_BASE, dphy_2l: MIPIRX_DPHY_2L_BASE }
    }

    /// The PHY with its blocks at the given base addresses.
    pub fn from_base_addresses(phy_top_base: usize, dphy_4l_base: usize, dphy_2l_base: usize) -> (p: Self)
        ensures
            p.top() == phy_top_base,
            p.dphy_4l_base() == dphy_4l_base,
            p.dphy_2l_base() == dphy_2l_base,
    {
        MipiRxPhy { phy_top: phy_top_base, dphy_4l: dphy_4l_base, dphy_2l: dphy_2l_base }
    }

    fn dphy_base(&self, port: u8) -> (b: usize)
        ensures
            b == self.dphy(port),
    {
        if port == 0 {
            self.dphy_4l
        } else {
            self.dphy_2l
        }
    }

    /// The PHY mode field (one clock and four data lanes when it holds no
    /// mode).
    pub fn get_phy_mode<B: RegisterBus>(&self, mmio: &mut Mmio<B>) -> (m: PhyMode)
        ensures
            read_next(old(mmio).trace(), final(mmio).trace(), self.top(), PHY_REG_30),
            ({
                let f = read_at(final(mmio).trace(), old(mmio).trace().len() as int) & 0x7;
                &&& f == 1 ==> m == PhyMode::Mode1C2D_1C2D
                &&& f != 1 ==> m == PhyMode::Mode1C4D
            }),
    {
        let v = mmio.read32(self.phy_top, PHY_REG_30);
        assert(read_at(mmio.trace(), old(mmio).trace().len() as int) == v);
        let f = v & 0x7;
        assert(f < 8) by (bit_vector)
            requires
                f == v & 0x7,
        ;
        match PhyMode::from_u8(f as u8) {
            Some(m) => m,
            None => PhyMode::Mode1C4D,
        }
    }

    /// Inverts the clock of PHY lane `lane`, or stops inverting it.
    pub fn set_lane_clk_invert<B: RegisterBus>(&self, mmio: &mut Mmio<B>, lane: LaneId, invert: bool)
        ensures
            rmws(old(mmio).trace(), final(mmio).trace(), set_lane_clk_invert_steps(self.top(), lane, invert)),
    {
        let n = lane.value() as u32;
        let v: u32 = if invert { 1 } else { 0 };
        mmio.rmw(self.phy_top, PHY_REG_80, field_value(1, 0x1, n), field_value(v, 0x1, n));
    }

    /// The analog calibration result of PHY lane `lane`.
    pub fn get_lane_cal_result<B: RegisterBus>(&self, mmio: &mut Mmio<B>, lane: LaneId) -> (r: u32)
        ensures
            read_next(old(mmio).trace(), final(mmio).trace(), self.top(), (PHY_REG_CAL_RESULT0 + 4 * lane_id_value(lane)) as usize),
            r == read_at(final(mmio).trace(), old(mmio).trace().len() as int),
    {
        let off = PHY_REG_CAL_RESULT0 + 4 * (lane.value() as usize);
        let v = mmio.read32(self.phy_top, off);
        assert(read_at(mmio.trace(), old(mmio).trace().len() as int) == v);
        v
    }

    /// The protocol of port `port` (CSI when the field holds none).
    pub fn get_sensor_mode<B: RegisterBus>(&self, mmio: &mut Mmio<B>, port: u8) -> (m: SensorMode)
        ensures
            read_next(old(mmio).trace(), final(mmio).trace(), self.dphy(port), DPHY_REG_00),
            ({
                let f = (read_at(final(mmio).trace(), old(mmio).trace().len() as int) & 0x3) as u8;
                &&& f < 3 ==> sensor_mode_value(m) == f
                &&& f >= 3 ==> m == SensorMode::Csi
            }),
    {
        let d = self.dphy_base(port);
        let v = mmio.read32(d, DPHY_REG_00);
        assert(read_at(mmio.trace(), old(mmio).trace().len() as int) == v);
        match SensorMode::from_u8((v & 0x3) as u8) {
            Some(m) => m,
            None => SensorMode::Csi,
        }
    }

    /// Starts software calibration of data lane `lane` (0 to 3) of port
    /// `port`; a larger lane is ignored.
    pub fn enable_lane_calibration<B: RegisterBus>(&self, mmio: &mut Mmio<B>, port: u8, lane: u8)
        ensures
            rmws(old(mmio).trace(), final(mmio).trace(), lane_calibration_enable_steps(self.dphy(port), lane, true)),
    {
        self.set_lane_calibration(mmio, port, lane, true);
    }

    /// Stops software calibration of data lane `lane` (0 to 3) of port
    /// `port`; a larger lane is ignored.
    pub fn disable_lane_calibration<B: RegisterBus>(&self, mmio: &mut Mmio<B>, port: u8, lane: u8)
        ensures
            rmws(old(mmio).trace(), final(mmio).trace(), lane_calibration_enable_steps(self.dphy(port), lane, false)),
    {
        self.set_lane_calibration(mmio, port, lane, false);
    }

    fn set_lane_calibration<B: RegisterBus>(&self, mmio: &mut Mmio<B>, port: u8, lane: u8, on: bool)
        ensures
            rmws(old(mmio).trace(), final(mmio).trace(), lane_calibration_enable_steps(self.dphy(port), lane, on)),
    {
        let d = self.dphy_base(port);
        if lane < 4 {
            let v: u32 = if on { 1 } else { 0 };
            mmio.rmw(d, DPHY_LANE_CALIB_1 + DPHY_LANE_STRIDE * (lane as usize), 0x1, field_value(v, 0x1, 0));
        } else {
            assert(mmio.trace().take(mmio.trace().len() as int) =~= mmio.trace());
        }
    }

    /// Sets the calibration parameters of data lane `lane` (0 to 3) of port
    /// `port`: maximum step count, step size, golden pattern; a larger lane
    /// is ignored.
    pub fn configure_lane_calibration<B: RegisterBus>(&self, mmio: &mut Mmio<B>, port: u8, lane: u8, max_step: u8, step_value: u8, pattern: u8)
        ensures
            rmws(old(mmio).trace(), final(mmio).trace(), configure_lane_calibration_steps(self.dphy(port), lane, max_step, step_value, pattern)),
    {
        let d = self.dphy_base(port);
        if lane < 4 {
            let set = field_value(max_step as u32, 0xff, 8) | field_value(step_value as u32, 0xff, 16) | field_value(pattern as u32, 0xff, 24);
            mmio.rmw(d, DPHY_LANE_CALIB_0 + DPHY_LANE_STRIDE * (lane as usize), 0xffffff00, set);
        } else {
            assert(mmio.trace().take(mmio.trace().len() as int) =~= mmio.trace());
        }
    }

    /// Calibration result `phase_group` (0 to 7) of data lane `lane` (0 to
    /// 3) of port `port`; 0, with nothing read, for any other group or lane.
    pub fn get_lane_calib_result<B: RegisterBus>(&self, mmio: &mut Mmio<B>, port: u8, lane: u8, phase_group: usize) -> (r: u32)
        ensures
            (phase_group >= 8 || lane >= 4) ==> r == 0 && final(mmio).trace() == old(mmio).trace(),
            (phase_group < 8 && lane < 4) ==> {
                &&& read_next(old(mmio).trace(), final(mmio).trace(), self.dphy(port),
                    (lane_calib_offset(DPHY_LANE_CALIB_RESULT, lane) + 4 * phase_group) as usize)
                &&& r == read_at(final(mmio).trace(), old(mmio).trace().len() as int)
            },
    {
        if phase_group >= 8 || lane >= 4 {
            return 0;
        }
        let d = self.dphy_base(port);
        let off = DPHY_LANE_CALIB_RESULT + DPHY_LANE_STRIDE * (lane as usize) + 4 * phase_group;
        let v = mmio.read32(d, off);
        assert(read_at(mmio.trace(), old(mmio).trace().len() as int) == v);
        v
    }

    /// Sets the sensor PHY mode.
    pub fn set_phy_mode<B: RegisterBus>(&self, mmio: &mut Mmio<B>, mode: PhyMode)
        ensures
            rmws(old(mmio).trace(), final(mmio).trace(), set_phy_mode_steps(self.top(), mode)),
    {
        let ghost t0 = mmio.trace();
        let ghost mut acc: Seq<(usize, usize, u32, u32)> = Seq::empty();
        proof {
            assert(mmio.trace().take(t0.len() as int) =~= t0);
        }
        let ghost tp = mmio.trace();
        mmio.rmw(self.phy_top, PHY_REG_30, 0x7, field_value(mode.value() as u32, 0x7, 0));
        proof {
            lemma_rmws_append(t0, tp, mmio.trace(), acc, seq![(self.top(), PHY_REG_30, 0x7, field_bits(phy_mode_value(mode) as u32, 0x7, 0))]);
            acc = acc + seq![(self.top(), PHY_REG_30, 0x7, field_bits(phy_mode_value(mode) as u32, 0x7, 0))];
        }
        proof {
            assert(acc =~= set_phy_mode_steps(self.top(), mode));
        }
    }

    /// Powers the PHY up: bias on, then every receiver on.
    pub fn power_on<B: RegisterBus>(&self, mmio: &mut Mmio<B>)
        ensures
            rmws(old(mmio).trace(), final(mmio).trace(), power_on_steps(self.top())),
    {
        let ghost t0 = mmio.trace();
        let ghost mut acc: Seq<(usize, usize, u32, u32)> = Seq::empty();
        proof {
            assert(mmio.trace().take(t0.len() as int) =~= t0);
        }
        let ghost tp = mmio.trace();
        mmio.rmw(self.phy_top, PHY_REG_00, 0x4000, field_value(0, 0x1, 14));
        proof {
            lemma_rmws_append(t0, tp, mmio.trace(), acc, seq![(self.top(), PHY_REG_00, 0x4000, field_bits(0, 0x1, 14))]);
            acc = acc + seq![(self.top(), PHY_REG_00, 0x4000, field_bits(0, 0x1, 14))];
        }
        let ghost tp = mmio.trace();
        mmio.rmw(self.phy_top, PHY_REG_00, 0x3f0000, field_value(0, 0x3f, 16));
        proof {
            lemma_rmws_append(t0, tp, mmio.trace(), acc, seq![(self.top(), PHY_REG_00, 0x3f0000, field_bits(0, 0x3f, 16))]);
            acc = acc + seq![(self.top(), PHY_REG_00, 0x3f0000, field_bits(0, 0x3f, 16))];
        }
        proof {
            assert(acc =~= power_on_steps(self.top()));
        }
    }

    /// Powers the PHY down: bias off, then every receiver off.
    pub fn power_off<B: RegisterBus>(&self, mmio: &mut Mmio<B>)
        ensures
            rmws(old(mmio).trace(), final(mmio).trace(), power_off_steps(self.top())),
    {
        let ghost t0 = mmio.trace();
        let ghost mut acc: Seq<(usize, usize, u32, u32)> = Seq::empty();
        proof {
            assert(mmio.trace().take(t0.len() as int) =~= t0);
        }
        let ghost tp = mmio.trace();
        mmio.rmw(self.phy_top, PHY_REG_00, 0x4000, field_value(1, 0x1, 14));
        proof {
            lemma_rmws_append(t0, tp, mmio.trace(), acc, seq![(self.top(), PHY_REG_00, 0x4000, field_bits(1, 0x1, 14))]);
            acc = acc + seq![(self.top(), PHY_REG_00, 0x4000, field_bits(1, 0x1, 14))];
        }
        let ghost tp = mmio.trace();
        mmio.rmw(self.phy_top, PHY_REG_00, 0x3f0000, field_value(0x3f, 0x3f, 16));
        proof {
            lemma_rmws_append(t0, tp, mmio.trace(), acc, seq![(self.top(), PHY_REG_00, 0x3f0000, field_bits(0x3f, 0x3f, 16))]);
            acc = acc + seq![(self.top(), PHY_REG_00, 0x3f0000, field_bits(0x3f, 0x3f, 16))];
        }
        proof {
            assert(acc =~= power_off_steps(self.top()));
        }
    }

    /// Selects the clock channel.
    pub fn set_clk_channel<B: RegisterBus>(&self, mmio: &mut Mmio<B>, channel: u8)
        ensures
            rmws(old(mmio).trace(), final(mmio).trace(), set_clk_channel_steps(self.top(), channel)),
    {
        let ghost t0 = mmio.trace();
        let ghost mut acc: Seq<(usize, usize, u32, u32)> = Seq::empty();
        proof {
            assert(mmio.trace().take(t0.len() as int) =~= t0);
        }
        let ghost tp = mmio.trace();
        mmio.rmw(self.phy_top, PHY_REG_04, 0x3f0000, field_value(channel as u32, 0x3f, 16));
        proof {
            lemma_rmws_append(t0, tp, mmio.trace(), acc, seq![(self.top(), PHY_REG_04, 0x3f0000, field_bits(channel as u32, 0x3f, 16))]);
            acc = acc + seq![(self.top(), PHY_REG_04, 0x3f0000, field_bits(channel as u32, 0x3f, 16))];
        }
        proof {
            assert(acc =~= set_clk_channel_steps(self.top(), channel));
        }
    }

    /// Enables the MIPI PLL clock to the CSI controllers.
    pub fn enable_mipimpll_clk<B: RegisterBus>(&self, mmio: &mut Mmio<B>)
        ensures
            rmws(old(mmio).trace(), final(mmio).trace(), enable_mipimpll_clk_steps(self.top())),
    {
        let ghost t0 = mmio.trace();
        let ghost mut acc: Seq<(usize, usize, u32, u32)> = Seq::empty();
        proof {
            assert(mmio.trace().take(t0.len() as int) =~= t0);
        }
        let ghost tp = mmio.trace();
        mmio.rmw(self.phy_top, PHY_REG_04, 0x80000000, field_value(1, 0x1, 31));
        proof {
            lemma_rmws_append(t0, tp, mmio.trace(), acc, seq![(self.top(), PHY_REG_04, 0x80000000, field_bits(1, 0x1, 31))]);
            acc = acc + seq![(self.top(), PHY_REG_04, 0x80000000, field_bits(1, 0x1, 31))];
        }
        proof {
            assert(acc =~= enable_mipimpll_clk_steps(self.top()));
        }
    }

    /// Disables the MIPI PLL clock to the CSI controllers.
    pub fn disable_mipimpll_clk<B: RegisterBus>(&self, mmio: &mut Mmio<B>)
        ensures
            rmws(old(mmio).trace(), final(mmio).trace(), disable_mipimpll_clk_steps(self.top())),
    {
        let ghost t0 = mmio.trace();
        let ghost mut acc: Seq<(usize, usize, u32, u32)> = Seq::empty();
        proof {
            assert(mmio.trace().take(t0.len() as int) =~= t0);
        }
        let ghost tp = mmio.trace();
        mmio.rmw(self.phy_top, PHY_REG_04, 0x80000000, field_value(0, 0x1, 31));
        proof {
            lemma_rmws_append(t0, tp, mmio.trace(), acc, seq![(self.top(), PHY_REG_04, 0x80000000, field_bits(0, 0x1, 31))]);
            acc = acc + seq![(self.top(), PHY_REG_04, 0x80000000, field_bits(0, 0x1, 31))];
        }
        proof {
            assert(acc =~= disable_mipimpll_clk_steps(self.top()));
        }
    }

    /// Sets camera 0 vertical timing: total, sync start and stop.
    pub fn configure_cam0_vtiming<B: RegisterBus>(&self, mmio: &mut Mmio<B>, vtt: u16, vs_start: u16, vs_stop: u16)
        ensures
            rmws(old(mmio).trace(), final(mmio).trace(), configure_cam0_vtiming_steps(self.top(), vtt, vs_start, vs_stop)),
    {
        let ghost t0 = mmio.trace();
        let ghost mut acc: Seq<(usize, usize, u32, u32)> = Seq::empty();
        proof {
            assert(mmio.trace().take(t0.len() as int) =~= t0);
        }
        let ghost tp = mmio.trace();
        mmio.rmw(self.phy_top, PHY_REG_A0, 0x3fff3fff, field_value(vtt as u32, 0x3fff, 0) | field_value(vs_start as u32, 0x3fff, 16));
        proof {
            lemma_rmws_append(t0, tp, mmio.trace(), acc, seq![(self.top(), PHY_REG_A0, 0x3fff3fff, field_bits(vtt as u32, 0x3fff, 0) | field_bits(vs_start as u32, 0x3fff, 16))]);
            acc = acc + seq![(self.top(), PHY_REG_A0, 0x3fff3fff, field_bits(vtt as u32, 0x3fff, 0) | field_bits(vs_start as u32, 0x3fff, 16))];
        }
        let ghost tp = mmio.trace();
        mmio.rmw(self.phy_top, PHY_REG_A4, 0x3fff, field_value(vs_stop as u32, 0x3fff, 0));
        proof {
            lemma_rmws_append(t0, tp, mmio.trace(), acc, seq![(self.top(), PHY_REG_A4, 0x3fff, field_bits(vs_stop as u32, 0x3fff, 0))]);
            acc = acc + seq![(self.top(), PHY_REG_A4, 0x3fff, field_bits(vs_stop as u32, 0x3fff, 0))];
        }
        proof {
            assert(acc =~= configure_cam0_vtiming_steps(self.top(), vtt, vs_start, vs_stop));
        }
    }

    /// Sets camera 0 horizontal timing: total, sync start and stop.
    pub fn configure_cam0_htiming<B: RegisterBus>(&self, mmio: &mut Mmio<B>, htt: u16, hs_start: u16, hs_stop: u16)
        ensures
            rmws(old(mmio).trace(), final(mmio).trace(), configure_cam0_htiming_steps(self.top(), htt, hs_start, hs_stop)),
    {
        let ghost t0 = mmio.trace();
        let ghost mut acc: Seq<(usize, usize, u32, u32)> = Seq::empty();
        proof {
            assert(mmio.trace().take(t0.len() as int) =~= t0);
        }
        let ghost tp = mmio.trace();
        mmio.rmw(self.phy_top, PHY_REG_A4, 0x3fff0000, field_value(htt as u32, 0x3fff, 16));
        proof {
            lemma_rmws_append(t0, tp, mmio.trace(), acc, seq![(self.top(), PHY_REG_A4, 0x3fff0000, field_bits(htt as u32, 0x3fff, 16))]);
            acc = acc + seq![(self.top(), PHY_REG_A4, 0x3fff0000, field_bits(htt as u32, 0x3fff, 16))];
        }
        let ghost tp = mmio.trace();
        mmio.rmw(self.phy_top, PHY_REG_A8, 0x3fff3fff, field_value(hs_start as u32, 0x3fff, 0) | field_value(hs_stop as u32, 0x3fff, 16));
        proof {
            lemma_rmws_append(t0, tp, mmio.trace(), acc, seq![(self.top(), PHY_REG_A8, 0x3fff3fff, field_bits(hs_start as u32, 0x3fff, 0) | field_bits(hs_stop as u32, 0x3fff, 16))]);
            acc = acc + seq![(self.top(), PHY_REG_A8, 0x3fff3fff, field_bits(hs_start as u32, 0x3fff, 0) | field_bits(hs_stop as u32, 0x3fff, 16))];
        }
        proof {
            assert(acc =~= configure_cam0_htiming_steps(self.top(), htt, hs_start, hs_stop));
        }
    }

    /// Sets camera 0 sync polarities.
    pub fn configure_cam0_polarity<B: RegisterBus>(&self, mmio: &mut Mmio<B>, vs_pol: bool, hs_pol: bool)
        ensures
            rmws(old(mmio).trace(), final(mmio).trace(), configure_cam0_polarity_steps(self.top(), vs_pol, hs_pol)),
    {
        let ghost t0 = mmio.trace();
        let ghost mut acc: Seq<(usize, usize, u32, u32)> = Seq::empty();
        proof {
            assert(mmio.trace().take(t0.len() as int) =~= t0);
        }
        let ghost tp = mmio.trace();
        mmio.rmw(self.phy_top, PHY_REG_AC, 0x3, field_value(bit_of(vs_pol), 0x1, 0) | field_value(bit_of(hs_pol), 0x1, 1));
        proof {
            lemma_rmws_append(t0, tp, mmio.trace(), acc, seq![(self.top(), PHY_REG_AC, 0x3, field_bits(bit(vs_pol), 0x1, 0) | field_bits(bit(hs_pol), 0x1, 1))]);
            acc = acc + seq![(self.top(), PHY_REG_AC, 0x3, field_bits(bit(vs_pol), 0x1, 0) | field_bits(bit(hs_pol), 0x1, 1))];
        }
        proof {
            assert(acc =~= configure_cam0_polarity_steps(self.top(), vs_pol, hs_pol));
        }
    }

    /// Enables the camera 0 timing generator.
    pub fn enable_cam0_tgen<B: RegisterBus>(&self, mmio: &mut Mmio<B>)
        ensures
            rmws(old(mmio).trace(), final(mmio).trace(), enable_cam0_tgen_steps(self.top())),
    {
        let ghost t0 = mmio.trace();
        let ghost mut acc: Seq<(usize, usize, u32, u32)> = Seq::empty();
        proof {
            assert(mmio.trace().take(t0.len() as int) =~= t0);
        }
        let ghost tp = mmio.trace();
        mmio.rmw(self.phy_top, PHY_REG_AC, 0x4, field_value(1, 0x1, 2));
        proof {
            lemma_rmws_append(t0, tp, mmio.trace(), acc, seq![(self.top(), PHY_REG_AC, 0x4, field_bits(1, 0x1, 2))]);
            acc = acc + seq![(self.top(), PHY_REG_AC, 0x4, field_bits(1, 0x1, 2))];
        }
        proof {
            assert(acc =~= enable_cam0_tgen_steps(self.top()));
        }
    }

    /// Disables the camera 0 timing generator.
    pub fn disable_cam0_tgen<B: RegisterBus>(&self, mmio: &mut Mmio<B>)
        ensures
            rmws(old(mmio).trace(), final(mmio).trace(), disable_cam0_tgen_steps(self.top())),
    {
        let ghost t0 = mmio.trace();
        let ghost mut acc: Seq<(usize, usize, u32, u32)> = Seq::empty();
        proof {
            assert(mmio.trace().take(t0.len() as int) =~= t0);
        }
        let ghost tp = mmio.trace();
        mmio.rmw(self.phy_top, PHY_REG_AC, 0x4, field_value(0, 0x1, 2));
        proof {
            lemma_rmws_append(t0, tp, mmio.trace(), acc, seq![(self.top(), PHY_REG_AC, 0x4, field_bits(0, 0x1, 2))]);
            acc = acc + seq![(self.top(), PHY_REG_AC, 0x4, field_bits(0, 0x1, 2))];
        }
        proof {
            assert(acc =~= disable_cam0_tgen_steps(self.top()));
        }
    }

    /// Sets the protocol of port `port`.
    pub fn set_sensor_mode<B: RegisterBus>(&self, mmio: &mut Mmio<B>, port: u8, mode: SensorMode)
        ensures
            rmws(old(mmio).trace(), final(mmio).trace(), set_sensor_mode_steps(self.dphy(port), port, mode)),
    {
        let d = self.dphy_base(port);
        let ghost t0 = mmio.trace();
        let ghost mut acc: Seq<(usize, usize, u32, u32)> = Seq::empty();
        proof {
            assert(mmio.trace().take(t0.len() as int) =~= t0);
        }
        let ghost tp = mmio.trace();
        mmio.rmw(d, DPHY_REG_00, 0x3, field_value(mode.value() as u32, 0x3, 0));
        proof {
            lemma_rmws_append(t0, tp, mmio.trace(), acc, seq![(self.dphy(port), DPHY_REG_00, 0x3, field_bits(sensor_mode_value(mode) as u32, 0x3, 0))]);
            acc = acc + seq![(self.dphy(port), DPHY_REG_00, 0x3, field_bits(sensor_mode_value(mode) as u32, 0x3, 0))];
        }
        proof {
            assert(acc =~= set_sensor_mode_steps(self.dphy(port), port, mode));
        }
    }

    /// Sets the PHY lane of each CSI data lane of port `port`.
    pub fn configure_csi_lane_select<B: RegisterBus>(&self, mmio: &mut Mmio<B>, port: u8, lane_sel: [u8; 4])
        ensures
            rmws(old(mmio).trace(), final(mmio).trace(), configure_csi_lane_select_steps(self.dphy(port), port, lane_sel)),
    {
        let d = self.dphy_base(port);
        let ghost t0 = mmio.trace();
        let ghost mut acc: Seq<(usize, usize, u32, u32)> = Seq::empty();
        proof {
            assert(mmio.trace().take(t0.len() as int) =~= t0);
        }
        let ghost tp = mmio.trace();
        mmio.rmw(d, DPHY_REG_04, 0x7777, field_value(lane_sel[0] as u32, 0x7, 0) | field_value(lane_sel[1] as u32, 0x7, 4) | field_value(lane_sel[2] as u32, 0x7, 8) | field_value(lane_sel[3] as u32, 0x7, 12));
        proof {
            lemma_rmws_append(t0, tp, mmio.trace(), acc, seq![(self.dphy(port), DPHY_REG_04, 0x7777, field_bits(lane_sel@[0] as u32, 0x7, 0) | field_bits(lane_sel@[1] as u32, 0x7, 4) | field_bits(lane_sel@[2] as u32, 0x7, 8) | field_bits(lane_sel@[3] as u32, 0x7, 12))]);
            acc = acc + seq![(self.dphy(port), DPHY_REG_04, 0x7777, field_bits(lane_sel@[0] as u32, 0x7, 0) | field_bits(lane_sel@[1] as u32, 0x7, 4) | field_bits(lane_sel@[2] as u32, 0x7, 8) | field_bits(lane_sel@[3] as u32, 0x7, 12))];
        }
        proof {
            assert(acc =~= configure_csi_lane_select_steps(self.dphy(port), port, lane_sel));
        }
    }

    /// Sets the clock lane of port `port`: lane, P/N swap, phase.
    pub fn configure_csi_clk_lane<B: RegisterBus>(&self, mmio: &mut Mmio<B>, port: u8, clk_sel: u8, pn_swap: bool, phase: u8)
        ensures
            rmws(old(mmio).trace(), final(mmio).trace(), configure_csi_clk_lane_steps(self.dphy(port), port, clk_sel, pn_swap, phase)),
    {
        let d = self.dphy_base(port);
        let ghost t0 = mmio.trace();
        let ghost mut acc: Seq<(usize, usize, u32, u32)> = Seq::empty();
        proof {
            assert(mmio.trace().take(t0.len() as int) =~= t0);
        }
        let ghost tp = mmio.trace();
        mmio.rmw(d, DPHY_REG_08, 0xff0017, field_value(clk_sel as u32, 0x7, 0) | field_value(bit_of(pn_swap), 0x1, 4) | field_value(phase as u32, 0xff, 16));
        proof {
            lemma_rmws_append(t0, tp, mmio.trace(), acc, seq![(self.dphy(port), DPHY_REG_08, 0xff0017, field_bits(clk_sel as u32, 0x7, 0) | field_bits(bit(pn_swap), 0x1, 4) | field_bits(phase as u32, 0xff, 16))]);
            acc = acc + seq![(self.dphy(port), DPHY_REG_08, 0xff0017, field_bits(clk_sel as u32, 0x7, 0) | field_bits(bit(pn_swap), 0x1, 4) | field_bits(phase as u32, 0xff, 16))];
        }
        proof {
            assert(acc =~= configure_csi_clk_lane_steps(self.dphy(port), port, clk_sel, pn_swap, phase));
        }
    }

    /// Sets the P/N swap of each data lane of port `port`.
    pub fn configure_csi_data_pn_swap<B: RegisterBus>(&self, mmio: &mut Mmio<B>, port: u8, pn_swap: [bool; 4])
        ensures
            rmws(old(mmio).trace(), final(mmio).trace(), configure_csi_data_pn_swap_steps(self.dphy(port), port, pn_swap)),
    {
        let d = self.dphy_base(port);
        let ghost t0 = mmio.trace();
        let ghost mut acc: Seq<(usize, usize, u32, u32)> = Seq::empty();
        proof {
            assert(mmio.trace().take(t0.len() as int) =~= t0);
        }
        let ghost tp = mmio.trace();
        mmio.rmw(d, DPHY_REG_08, 0xf00, field_value(bit_of(pn_swap[0]), 0x1, 8) | field_value(bit_of(pn_swap[1]), 0x1, 9) | field_value(bit_of(pn_swap[2]), 0x1, 10) | field_value(bit_of(pn_swap[3]), 0x1, 11));
        proof {
            lemma_rmws_append(t0, tp, mmio.trace(), acc, seq![(self.dphy(port), DPHY_REG_08, 0xf00, field_bits(bit(pn_swap@[0]), 0x1, 8) | field_bits(bit(pn_swap@[1]), 0x1, 9) | field_bits(bit(pn_swap@[2]), 0x1, 10) | field_bits(bit(pn_swap@[3]), 0x1, 11))]);
            acc = acc + seq![(self.dphy(port), DPHY_REG_08, 0xf00, field_bits(bit(pn_swap@[0]), 0x1, 8) | field_bits(bit(pn_swap@[1]), 0x1, 9) | field_bits(bit(pn_swap@[2]), 0x1, 10) | field_bits(bit(pn_swap@[3]), 0x1, 11))];
        }
        proof {
            assert(acc =~= configure_csi_data_pn_swap_steps(self.dphy(port), port, pn_swap));
        }
    }

    /// Sets the deskew lanes of port `port`.
    pub fn set_deskew_lane_enable<B: RegisterBus>(&self, mmio: &mut Mmio<B>, port: u8, enable: DeskewLaneEnable)
        ensures
            rmws(old(mmio).trace(), final(mmio).trace(), set_deskew_lane_enable_steps(self.dphy(port), port, enable)),
    {
        let d = self.dphy_base(port);
        let ghost t0 = mmio.trace();
        let ghost mut acc: Seq<(usize, usize, u32, u32)> = Seq::empty();
        proof {
            assert(mmio.trace().take(t0.len() as int) =~= t0);
        }
        let ghost tp = mmio.trace();
        mmio.rmw(d, DPHY_REG_0C, 0xf, field_value(enable.value() as u32, 0xf, 0));
        proof {
            lemma_rmws_append(t0, tp, mmio.trace(), acc, seq![(self.dphy(port), DPHY_REG_0C, 0xf, field_bits(deskew_lane_enable_value(enable) as u32, 0xf, 0))]);
            acc = acc + seq![(self.dphy(port), DPHY_REG_0C, 0xf, field_bits(deskew_lane_enable_value(enable) as u32, 0xf, 0))];
        }
        proof {
            assert(acc =~= set_deskew_lane_enable_steps(self.dphy(port), port, enable));
        }
    }

    /// Sets sub-LVDS on port `port`: bit mode, MSB first (inversion), lane enables.
    pub fn configure_sublvds<B: RegisterBus>(&self, mmio: &mut Mmio<B>, port: u8, bit_mode: SubLvdsBitMode, msb_first: bool, lane_enable: u8)
        ensures
            rmws(old(mmio).trace(), final(mmio).trace(), configure_sublvds_steps(self.dphy(port), port, bit_mode, msb_first, lane_enable)),
    {
        let d = self.dphy_base(port);
        let ghost t0 = mmio.trace();
        let ghost mut acc: Seq<(usize, usize, u32, u32)> = Seq::empty();
        proof {
            assert(mmio.trace().take(t0.len() as int) =~= t0);
        }
        let ghost tp = mmio.trace();
        mmio.rmw(d, DPHY_REG_20, 0xfd, field_value(bit_mode.value() as u32, 0x3, 2) | field_value(bit_of(msb_first), 0x1, 0) | field_value(lane_enable as u32, 0xf, 4));
        proof {
            lemma_rmws_append(t0, tp, mmio.trace(), acc, seq![(self.dphy(port), DPHY_REG_20, 0xfd, field_bits(sub_lvds_bit_mode_value(bit_mode) as u32, 0x3, 2) | field_bits(bit(msb_first), 0x1, 0) | field_bits(lane_enable as u32, 0xf, 4))]);
            acc = acc + seq![(self.dphy(port), DPHY_REG_20, 0xfd, field_bits(sub_lvds_bit_mode_value(bit_mode) as u32, 0x3, 2) | field_bits(bit(msb_first), 0x1, 0) | field_bits(lane_enable as u32, 0xf, 4))];
        }
        proof {
            assert(acc =~= configure_sublvds_steps(self.dphy(port), port, bit_mode, msb_first, lane_enable));
        }
    }

    /// Sets the three sub-LVDS SAV codes of port `port`.
    pub fn configure_sublvds_sync_code<B: RegisterBus>(&self, mmio: &mut Mmio<B>, port: u8, sav_1st: u16, sav_2nd: u16, sav_3rd: u16)
        ensures
            rmws(old(mmio).trace(), final(mmio).trace(), configure_sublvds_sync_code_steps(self.dphy(port), port, sav_1st, sav_2nd, sav_3rd)),
    {
        let d = self.dphy_base(port);
        let ghost t0 = mmio.trace();
        let ghost mut acc: Seq<(usize, usize, u32, u32)> = Seq::empty();
        proof {
            assert(mmio.trace().take(t0.len() as int) =~= t0);
        }
        let ghost tp = mmio.trace();
        mmio.rmw(d, DPHY_REG_20, 0xfff0000, field_value(sav_1st as u32, 0xfff, 16));
        proof {
            lemma_rmws_append(t0, tp, mmio.trace(), acc, seq![(self.dphy(port), DPHY_REG_20, 0xfff0000, field_bits(sav_1st as u32, 0xfff, 16))]);
            acc = acc + seq![(self.dphy(port), DPHY_REG_20, 0xfff0000, field_bits(sav_1st as u32, 0xfff, 16))];
        }
        let ghost tp = mmio.trace();
        mmio.rmw(d, DPHY_REG_24, 0xfff0fff, field_value(sav_2nd as u32, 0xfff, 0) | field_value(sav_3rd as u32, 0xfff, 16));
        proof {
            lemma_rmws_append(t0, tp, mmio.trace(), acc, seq![(self.dphy(port), DPHY_REG_24, 0xfff0fff, field_bits(sav_2nd as u32, 0xfff, 0) | field_bits(sav_3rd as u32, 0xfff, 16))]);
            acc = acc + seq![(self.dphy(port), DPHY_REG_24, 0xfff0fff, field_bits(sav_2nd as u32, 0xfff, 0) | field_bits(sav_3rd as u32, 0xfff, 16))];
        }
        proof {
            assert(acc =~= configure_sublvds_sync_code_steps(self.dphy(port), port, sav_1st, sav_2nd, sav_3rd));
        }
    }
}

} // verus!
