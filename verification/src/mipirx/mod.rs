//! The MIPI receiver: PHY and D-PHYs, two CSI-2 controllers.
pub mod csi;
pub mod phy;
pub mod regs;
pub mod types;

use self::csi::{
    apply_dev_attr_steps, clear_all_interrupts_steps, clear_interrupt_steps, csi_init_steps,
    MipiRxCsi,
};
use self::phy::{
    configure_csi_clk_lane_steps, configure_csi_data_pn_swap_steps,
    configure_csi_lane_select_steps, configure_sublvds_steps, configure_sublvds_sync_code_steps,
    power_off_steps, power_on_steps, set_deskew_lane_enable_steps, set_phy_mode_steps,
    set_sensor_mode_steps, MipiRxPhy,
};
use self::regs::{DPHY_REG_04, DPHY_REG_08, MIPIRX_CSI0_BASE, MIPIRX_CSI1_BASE, CSI_REG_40, CSI_REG_60};
use self::types::{
    csi_status_of, interrupt_status_of, CsiInterruptStatus, CsiStatus, DeskewLaneEnable, LaneMode,
    MipiRxDevAttr, MipiRxError, PhyMode, SensorMode, SubLvdsDevAttr, DEFAULT_CLK_PHASE,
};
use crate::mmio::{bit, field_bits, lemma_rmws_append, read_at, read_next, rmws, Mmio, RegisterBus};
use vstd::prelude::*;

verus! {

/// The D-PHY port of CSI controller `devno`: port 0 for controller 0, port 1
/// for any other.
pub open spec fn port_of(devno: u8) -> u8 {
    if devno == 0 {
        0
    } else {
        1
    }
}

/// The PHY lane of data lane `own`, given its configured lane `id`: a
/// negative one selects the lane's own index.
pub open spec fn lane_sel_entry(id: i8, own: u8) -> u8 {
    if id >= 0 {
        id as u8
    } else {
        own
    }
}

/// The deskew lanes that a lane mode uses.
pub open spec fn deskew_for(mode: LaneMode) -> DeskewLaneEnable {
    match mode {
        LaneMode::Lane1 => DeskewLaneEnable::Lane1,
        LaneMode::Lane2 => DeskewLaneEnable::Lane2,
        LaneMode::Lane4 | LaneMode::Lane8 => DeskewLaneEnable::Lane4,
    }
}

/// The D-PHY updates with which a CSI device is set up on the port whose
/// D-PHY is at `base`: protocol, data lane routing, clock lane, P/N swaps,
/// deskew lanes.
pub open spec fn configure_phy_steps(base: usize, attr: MipiRxDevAttr) -> Seq<(usize, usize, u32, u32)> {
    let port = port_of(attr.devno);
    set_sensor_mode_steps(base, port, attr.sensor_mode)
        + seq![(base, DPHY_REG_04, 0x7777,
            field_bits(lane_sel_entry(attr.lane_id@[0], 0) as u32, 0x7, 0)
            | field_bits(lane_sel_entry(attr.lane_id@[1], 1) as u32, 0x7, 4)
            | field_bits(lane_sel_entry(attr.lane_id@[2], 2) as u32, 0x7, 8)
            | field_bits(lane_sel_entry(attr.lane_id@[3], 3) as u32, 0x7, 12))]
        + configure_csi_clk_lane_steps(base, port, attr.clk_lane_sel, attr.pn_swap@[4], DEFAULT_CLK_PHASE)
        + seq![(base, DPHY_REG_08, 0xf00,
            field_bits(bit(attr.pn_swap@[0]), 0x1, 8)
            | field_bits(bit(attr.pn_swap@[1]), 0x1, 9)
            | field_bits(bit(attr.pn_swap@[2]), 0x1, 10)
            | field_bits(bit(attr.pn_swap@[3]), 0x1, 11))]
        + set_deskew_lane_enable_steps(base, port, deskew_for(attr.lane_mode))
}

/// The D-PHY updates with which a Sub-LVDS device is set up on the port
/// whose D-PHY is at `base`.
pub open spec fn configure_sublvds_phy_steps(base: usize, attr: SubLvdsDevAttr) -> Seq<(usize, usize, u32, u32)> {
    let port = port_of(attr.devno);
    set_sensor_mode_steps(base, port, SensorMode::SubLvds)
        + configure_sublvds_steps(base, port, attr.bit_mode, attr.msb_first, attr.lane_enable)
        + configure_sublvds_sync_code_steps(base, port, attr.sav_1st, attr.sav_2nd, attr.sav_3rd)
}

/// The MIPI receiver: its PHY, its two CSI-2 controllers, and whether each
/// controller is enabled.
pub struct MipiRx {
    phy: MipiRxPhy,
    csi0: MipiRxCsi,
    csi1: MipiRxCsi,
    enabled0: bool,
    enabled1: bool,
}

impl MipiRx {
    /// The PHY.
    pub closed spec fn phy_block(&self) -> MipiRxPhy {
        self.phy
    }

    /// CSI controller `devno` (controller 1 for any `devno` but 0).
    pub closed spec fn csi_block(&self, devno: u8) -> MipiRxCsi {
        if devno == 0 {
            self.csi0
        } else {
            self.csi1
        }
    }

    /// Whether controller `devno` is enabled (never for `devno` above 1).
    pub closed spec fn is_on(&self, devno: u8) -> bool {
        if devno == 0 {
            self.enabled0
        } else if devno == 1 {
            self.enabled1
        } else {
            false
        }
    }

    /// The receiver at its SoC addresses, both controllers disabled.
    pub fn new() -> (r: Self)
        ensures
            r.phy_block().top() == self::regs::MIPIRX_PHY_TOP_BASE,
            r.phy_block().dphy_4l_base() == self::regs::MIPIRX_DPHY_4L_BASE,
            r.phy_block().dphy_2l_base() == self::regs::MIPIRX_DPHY_2L_BASE,
            r.csi_block(0).base() == MIPIRX_CSI0_BASE,
            r.csi_block(0).dev() == 0,
            r.csi_block(1).base() == MIPIRX_CSI1_BASE,
            r.csi_block(1).dev() == 1,
            forall|d: u8| !r.is_on(d),
    {
        let c0 = MipiRxCsi::from_base_address(MIPIRX_CSI0_BASE, 0);
        let c1 = MipiRxCsi::from_base_address(MIPIRX_CSI1_BASE, 1);
        MipiRx { phy: MipiRxPhy::new(), csi0: c0, csi1: c1, enabled0: false, enabled1: false }
    }

    /// Powers the PHY up, selects one clock and four data lanes, brings both
    /// controllers to their initial state and disables them.
    pub fn init<B: RegisterBus>(&mut self, mmio: &mut Mmio<B>)
        ensures
            rmws(old(mmio).trace(), final(mmio).trace(),
                power_on_steps(old(self).phy_block().top())
                + set_phy_mode_steps(old(self).phy_block().top(), PhyMode::Mode1C4D)
                + csi_init_steps(old(self).csi_block(0).base())
                + csi_init_steps(old(self).csi_block(1).base())),
            final(self).phy_block() == old(self).phy_block(),
            forall|d: u8| final(self).csi_block(d) == old(self).csi_block(d),
            forall|d: u8| !final(self).is_on(d),
    {
        let ghost t0 = mmio.trace();
        let ghost top = self.phy.top();
        self.phy.power_on(mmio);
        let ghost t1 = mmio.trace();
        self.phy.set_phy_mode(mmio, PhyMode::Mode1C4D);
        let ghost t2 = mmio.trace();
        proof {
            lemma_rmws_append(t0, t1, t2, power_on_steps(top), set_phy_mode_steps(top, PhyMode::Mode1C4D));
        }
        self.csi0.init(mmio);
        let ghost t3 = mmio.trace();
        proof {
            lemma_rmws_append(t0, t2, t3, power_on_steps(top) + set_phy_mode_steps(top, PhyMode::Mode1C4D),
                csi_init_steps(self.csi0.base()));
        }
        self.csi1.init(mmio);
        proof {
            lemma_rmws_append(t0, t3, mmio.trace(),
                power_on_steps(top) + set_phy_mode_steps(top, PhyMode::Mode1C4D) + csi_init_steps(self.csi0.base()),
                csi_init_steps(self.csi1.base()));
        }
        self.enabled0 = false;
        self.enabled1 = false;
    }

    /// The PHY.
    pub fn phy(&self) -> (p: &MipiRxPhy)
        ensures
            *p == self.phy_block(),
    {
        &self.phy
    }

    /// The PHY, to change.
    pub fn phy_mut(&mut self) -> (p: &mut MipiRxPhy)
        ensures
            *p == old(self).phy_block(),
            final(self).phy_block() == *final(p),
            forall|d: u8| final(self).csi_block(d) == old(self).csi_block(d),
            forall|d: u8| final(self).is_on(d) == old(self).is_on(d),
    {
        &mut self.phy
    }

    /// CSI controller `devno`, if there is one.
    pub fn csi(&self, devno: u8) -> (c: Option<&MipiRxCsi>)
        ensures
            devno >= 2 ==> c is None,
            devno < 2 ==> (c matches Some(x) && *x == self.csi_block(devno)),
    {
        if devno == 0 {
            Some(&self.csi0)
        } else if devno == 1 {
            Some(&self.csi1)
        } else {
            None
        }
    }

    /// CSI controller `devno`, to change, if there is one.
    pub fn csi_mut(&mut self, devno: u8) -> (c: Option<&mut MipiRxCsi>)
        ensures
            devno >= 2 ==> c is None && *final(self) == *old(self),
            devno < 2 ==> c is Some && *c->0 == old(self).csi_block(devno)
                && final(self).csi_block(devno) == *final(c->0)
                && final(self).phy_block() == old(self).phy_block()
                && final(self).csi_block((1 - devno) as u8) == old(self).csi_block((1 - devno) as u8)
                && forall|d: u8| final(self).is_on(d) == old(self).is_on(d),
    {
        if devno == 0 {
            Some(&mut self.csi0)
        } else if devno == 1 {
            Some(&mut self.csi1)
        } else {
            None
        }
    }

    /// Sets the PHY mode.
    pub fn set_phy_mode<B: RegisterBus>(&mut self, mmio: &mut Mmio<B>, mode: PhyMode)
        ensures
            rmws(old(mmio).trace(), final(mmio).trace(), set_phy_mode_steps(old(self).phy_block().top(), mode)),
            *final(self) == *old(self),
    {
        self.phy.set_phy_mode(mmio, mode);
    }

    fn csi_ref(&self, devno: u8) -> (c: &MipiRxCsi)
        requires
            devno < 2,
        ensures
            *c == self.csi_block(devno),
    {
        if devno == 0 {
            &self.csi0
        } else {
            &self.csi1
        }
    }

    /// Sets up a CSI device: its port's D-PHY (see [`configure_phy_steps`]),
    /// then its controller (see [`apply_dev_attr_steps`]). A controller
    /// number above 1 is refused, with nothing written.
    pub fn configure<B: RegisterBus>(&mut self, mmio: &mut Mmio<B>, attr: &MipiRxDevAttr) -> (r: Result<(), MipiRxError>)
        ensures
            *final(self) == *old(self),
            attr.devno >= 2 ==> r == Err::<(), MipiRxError>(MipiRxError::InvalidDevno)
                && final(mmio).trace() == old(mmio).trace(),
            attr.devno < 2 ==> r is Ok && rmws(old(mmio).trace(), final(mmio).trace(),
                configure_phy_steps(old(self).phy_block().dphy(port_of(attr.devno)), *attr)
                + apply_dev_attr_steps(old(self).csi_block(attr.devno).base(), *attr)),
    {
        if attr.devno >= 2 {
            return Err(MipiRxError::InvalidDevno);
        }
        let port: u8 = if attr.devno == 0 { 0 } else { 1 };
        let ghost t0 = mmio.trace();
        self.configure_phy(mmio, port, attr);
        let ghost t1 = mmio.trace();
        let csi = self.csi_ref(attr.devno);
        let _ = csi.apply_dev_attr(mmio, attr);
        proof {
            lemma_rmws_append(t0, t1, mmio.trace(),
                configure_phy_steps(self.phy.dphy(port), *attr), apply_dev_attr_steps(csi.base(), *attr));
        }
        Ok(())
    }

    fn configure_phy<B: RegisterBus>(&self, mmio: &mut Mmio<B>, port: u8, attr: &MipiRxDevAttr)
        requires
            port == port_of(attr.devno),
        ensures
            rmws(old(mmio).trace(), final(mmio).trace(), configure_phy_steps(self.phy_block().dphy(port), *attr)),
    {
        let ghost d = self.phy.dphy(port);
        let ghost t0 = mmio.trace();
        self.phy.set_sensor_mode(mmio, port, attr.sensor_mode);
        let ghost t1 = mmio.trace();
        let s0: u8 = if attr.lane_id[0] >= 0 { attr.lane_id[0] as u8 } else { 0 };
        let s1: u8 = if attr.lane_id[1] >= 0 { attr.lane_id[1] as u8 } else { 1 };
        let s2: u8 = if attr.lane_id[2] >= 0 { attr.lane_id[2] as u8 } else { 2 };
        let s3: u8 = if attr.lane_id[3] >= 0 { attr.lane_id[3] as u8 } else { 3 };
        let lane_sel: [u8; 4] = [s0, s1, s2, s3];
        self.phy.configure_csi_lane_select(mmio, port, lane_sel);
        let ghost t2 = mmio.trace();
        let ghost a = set_sensor_mode_steps(d, port, attr.sensor_mode);
        let ghost b = configure_csi_lane_select_steps(d, port, lane_sel);
        proof {
            lemma_rmws_append(t0, t1, t2, a, b);
        }
        self.phy.configure_csi_clk_lane(mmio, port, attr.clk_lane_sel, attr.pn_swap[4], DEFAULT_CLK_PHASE);
        let ghost t3 = mmio.trace();
        let ghost c = configure_csi_clk_lane_steps(d, port, attr.clk_lane_sel, attr.pn_swap@[4], DEFAULT_CLK_PHASE);
        proof {
            lemma_rmws_append(t0, t2, t3, a + b, c);
        }
        let pn: [bool; 4] = [attr.pn_swap[0], attr.pn_swap[1], attr.pn_swap[2], attr.pn_swap[3]];
        self.phy.configure_csi_data_pn_swap(mmio, port, pn);
        let ghost t4 = mmio.trace();
        let ghost e = configure_csi_data_pn_swap_steps(d, port, pn);
        proof {
            lemma_rmws_append(t0, t3, t4, a + b + c, e);
        }
        let deskew = match attr.lane_mode {
            LaneMode::Lane1 => DeskewLaneEnable::Lane1,
            LaneMode::Lane2 => DeskewLaneEnable::Lane2,
            LaneMode::Lane4 | LaneMode::Lane8 => DeskewLaneEnable::Lane4,
        };
        self.phy.set_deskew_lane_enable(mmio, port, deskew);
        let ghost f = set_deskew_lane_enable_steps(d, port, deskew);
        proof {
            lemma_rmws_append(t0, t4, mmio.trace(), a + b + c + e, f);
            assert(a + b + c + e + f =~= configure_phy_steps(d, *attr));
        }
    }

    /// Sets up a Sub-LVDS device on its port's D-PHY (see
    /// [`configure_sublvds_phy_steps`]). A controller number above 1 is
    /// refused, with nothing written.
    pub fn configure_sublvds<B: RegisterBus>(&mut self, mmio: &mut Mmio<B>, attr: &SubLvdsDevAttr) -> (r: Result<(), MipiRxError>)
        ensures
            *final(self) == *old(self),
            attr.devno >= 2 ==> r == Err::<(), MipiRxError>(MipiRxError::InvalidDevno)
                && final(mmio).trace() == old(mmio).trace(),
            attr.devno < 2 ==> r is Ok && rmws(old(mmio).trace(), final(mmio).trace(),
                configure_sublvds_phy_steps(old(self).phy_block().dphy(port_of(attr.devno)), *attr)),
    {
        if attr.devno >= 2 {
            return Err(MipiRxError::InvalidDevno);
        }
        let port: u8 = if attr.devno == 0 { 0 } else { 1 };
        let ghost d = self.phy.dphy(port);
        let ghost t0 = mmio.trace();
        self.phy.set_sensor_mode(mmio, port, SensorMode::SubLvds);
        let ghost t1 = mmio.trace();
        self.phy.configure_sublvds(mmio, port, attr.bit_mode, attr.msb_first, attr.lane_enable);
        let ghost t2 = mmio.trace();
        let ghost a = set_sensor_mode_steps(d, port, SensorMode::SubLvds);
        let ghost b = configure_sublvds_steps(d, port, attr.bit_mode, attr.msb_first, attr.lane_enable);
        proof {
            lemma_rmws_append(t0, t1, t2, a, b);
        }
        self.phy.configure_sublvds_sync_code(mmio, port, attr.sav_1st, attr.sav_2nd, attr.sav_3rd);
        proof {
            lemma_rmws_append(t0, t2, mmio.trace(), a + b,
                configure_sublvds_sync_code_steps(d, port, attr.sav_1st, attr.sav_2nd, attr.sav_3rd));
        }
        Ok(())
    }

    /// Enables controller `devno`, clearing its interrupts first. A
    /// controller number above 1 is refused, with nothing changed.
    pub fn enable<B: RegisterBus>(&mut self, mmio: &mut Mmio<B>, devno: u8) -> (r: Result<(), MipiRxError>)
        ensures
            final(self).phy_block() == old(self).phy_block(),
            forall|d: u8| final(self).csi_block(d) == old(self).csi_block(d),
            devno >= 2 ==> r == Err::<(), MipiRxError>(MipiRxError::InvalidDevno)
                && final(mmio).trace() == old(mmio).trace() && *final(self) == *old(self),
            devno < 2 ==> r is Ok
                && rmws(old(mmio).trace(), final(mmio).trace(), clear_all_interrupts_steps(old(self).csi_block(devno).base()))
                && forall|d: u8| final(self).is_on(d) == (d == devno || old(self).is_on(d)),
    {
        if devno >= 2 {
            return Err(MipiRxError::InvalidDevno);
        }
        self.csi_ref(devno).clear_all_interrupts(mmio);
        if devno == 0 {
            self.enabled0 = true;
        } else {
            self.enabled1 = true;
        }
        Ok(())
    }

    /// Marks controller `devno` disabled; nothing is written. A controller
    /// number above 1 is refused.
    pub fn disable(&mut self, devno: u8) -> (r: Result<(), MipiRxError>)
        ensures
            final(self).phy_block() == old(self).phy_block(),
            forall|d: u8| final(self).csi_block(d) == old(self).csi_block(d),
            devno >= 2 ==> r == Err::<(), MipiRxError>(MipiRxError::InvalidDevno) && *final(self) == *old(self),
            devno < 2 ==> r is Ok && forall|d: u8| final(self).is_on(d) == (d != devno && old(self).is_on(d)),
    {
        if devno >= 2 {
            return Err(MipiRxError::InvalidDevno);
        }
        if devno == 0 {
            self.enabled0 = false;
        } else {
            self.enabled1 = false;
        }
        Ok(())
    }

    /// Whether controller `devno` is enabled (false for a number above 1).
    pub fn is_enabled(&self, devno: u8) -> (b: bool)
        ensures
            b == self.is_on(devno),
    {
        if devno == 0 {
            self.enabled0
        } else if devno == 1 {
            self.enabled1
        } else {
            false
        }
    }

    /// The decoder status of controller `devno`, if there is one.
    pub fn get_status<B: RegisterBus>(&self, mmio: &mut Mmio<B>, devno: u8) -> (s: Option<CsiStatus>)
        ensures
            devno >= 2 ==> s is None && final(mmio).trace() == old(mmio).trace(),
            devno < 2 ==> read_next(old(mmio).trace(), final(mmio).trace(), self.csi_block(devno).base(), CSI_REG_40)
                && s == Some(csi_status_of(read_at(final(mmio).trace(), old(mmio).trace().len() as int))),
    {
        if devno >= 2 {
            return None;
        }
        Some(self.csi_ref(devno).get_status(mmio))
    }

    /// The interrupt status of controller `devno`, if there is one.
    pub fn get_interrupt_status<B: RegisterBus>(&self, mmio: &mut Mmio<B>, devno: u8) -> (s: Option<CsiInterruptStatus>)
        ensures
            devno >= 2 ==> s is None && final(mmio).trace() == old(mmio).trace(),
            devno < 2 ==> read_next(old(mmio).trace(), final(mmio).trace(), self.csi_block(devno).base(), CSI_REG_60)
                && s == Some(interrupt_status_of((read_at(final(mmio).trace(), old(mmio).trace().len() as int) & 0xff) as u8)),
    {
        if devno >= 2 {
            return None;
        }
        Some(self.csi_ref(devno).get_interrupt_status(mmio))
    }

    /// Clears the interrupts of `mask` on controller `devno`; nothing for a
    /// number above 1.
    pub fn clear_interrupt<B: RegisterBus>(&self, mmio: &mut Mmio<B>, devno: u8, mask: u8)
        ensures
            devno >= 2 ==> final(mmio).trace() == old(mmio).trace(),
            devno < 2 ==> rmws(old(mmio).trace(), final(mmio).trace(), clear_interrupt_steps(self.csi_block(devno).base(), mask)),
    {
        if devno < 2 {
            self.csi_ref(devno).clear_interrupt(mmio, mask);
        }
    }

    /// Whether controller `devno` reports an error (false, with nothing
    /// read, for a number above 1).
    pub fn has_error<B: RegisterBus>(&self, mmio: &mut Mmio<B>, devno: u8) -> (b: bool)
        ensures
            devno >= 2 ==> !b && final(mmio).trace() == old(mmio).trace(),
            devno < 2 ==> read_next(old(mmio).trace(), final(mmio).trace(), self.csi_block(devno).base(), CSI_REG_40)
                && ({
                    let s = csi_status_of(read_at(final(mmio).trace(), old(mmio).trace().len() as int));
                    b == (s.ecc_error || s.crc_error || s.wc_error || s.fifo_full)
                }),
    {
        if devno >= 2 {
            return false;
        }
        self.csi_ref(devno).has_error(mmio)
    }

    /// Resets controller `devno` (interrupts cleared, initial state) and
    /// marks it disabled. A controller number above 1 is refused, with
    /// nothing changed.
    pub fn reset<B: RegisterBus>(&mut self, mmio: &mut Mmio<B>, devno: u8) -> (r: Result<(), MipiRxError>)
        ensures
            final(self).phy_block() == old(self).phy_block(),
            forall|d: u8| final(self).csi_block(d) == old(self).csi_block(d),
            devno >= 2 ==> r == Err::<(), MipiRxError>(MipiRxError::InvalidDevno)
                && final(mmio).trace() == old(mmio).trace() && *final(self) == *old(self),
            devno < 2 ==> r is Ok
                && rmws(old(mmio).trace(), final(mmio).trace(),
                    clear_all_interrupts_steps(old(self).csi_block(devno).base()) + csi_init_steps(old(self).csi_block(devno).base()))
                && forall|d: u8| final(self).is_on(d) == (d != devno && old(self).is_on(d)),
    {
        if devno >= 2 {
            return Err(MipiRxError::InvalidDevno);
        }
        self.csi_ref(devno).reset(mmio);
        if devno == 0 {
            self.enabled0 = false;
        } else {
            self.enabled1 = false;
        }
        Ok(())
    }

    /// Disables both controllers and powers the PHY down.
    pub fn shutdown<B: RegisterBus>(&mut self, mmio: &mut Mmio<B>)
        ensures
            rmws(old(mmio).trace(), final(mmio).trace(), power_off_steps(old(self).phy_block().top())),
            final(self).phy_block() == old(self).phy_block(),
            forall|d: u8| final(self).csi_block(d) == old(self).csi_block(d),
            forall|d: u8| !final(self).is_on(d),
    {
        let _ = self.disable(0);
        let _ = self.disable(1);
        self.phy.power_off(mmio);
    }
}

} // verus!
