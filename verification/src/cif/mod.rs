//! Camera interface (CIF): per-link configuration of the sensor MAC for
//! MIPI CSI-2, sub-LVDS, HiSPi, parallel TTL/BT and BT demux inputs, and the
//! register-level driver of the MAC and D-PHY.
pub mod types;
pub mod regs;
pub mod mipi;
pub mod lvds;
pub mod ttl;
pub mod phy;
pub mod vip_sys;
pub mod drv;
pub mod frame;
pub mod examples;

use types::{
    clk_edge_value, default_cif_param, default_combo_dev_attr, ttl_vi_mode_value, CamPllFreq, CifParam,
    ClkEdge, CifClkEdge, ComboDevAttr, GpioFlags, InputMode, ManualHdrAttr, OutputMsb, PhyLaneId,
    RxMacClk, TtlBtFmtOut, TtlFmt, TtlViMode, TtlViSrc,
};

use lvds::{hispi_param, sublvds_param, LvdsError};
use mipi::{mipi_param, MipiError};
use ttl::{bt_demux_param, demux_funcs_valid, or_default, pin_funcs_valid, ttl_param, TtlError};
use crate::mmio::{read_at, BusOp, Mmio, RegisterBus};
use vstd::prelude::*;

verus! {

#[derive(Debug, Clone, Copy, PartialEq, Eq, Structural)]
pub enum CifError {
    InvalidDevno,
    InvalidConfig,
    Mipi(MipiError),
    Lvds(LvdsError),
    Ttl(TtlError),
}

pub const CIF_MAX_CSI_NUM: usize = 2;

pub const CIF_MAX_MAC_NUM: usize = 3;

pub const MAX_LINK_NUM: usize = 3;

pub const CIF_PHY_LANE_NUM: usize = 6;

pub const CIF_LANE_NUM: usize = 5;

pub const MIPI_LANE_NUM: usize = 4;

/// Lane numbers below 6 only (a negative number marks an unused lane).
pub open spec fn lanes_valid(ids: Seq<i16>) -> bool {
    forall|i: int| 0 <= i < ids.len() ==> ids[i] < 6
}

/// How many of the first `n` lanes are used.
pub open spec fn lane_count(ids: Seq<i16>, n: int) -> int
    decreases n,
{
    if n <= 0 {
        0
    } else {
        lane_count(ids, n - 1) + if ids[n - 1] >= 0 {
            1int
        } else {
            0int
        }
    }
}

/// The number of used lanes, when every lane number is valid and at least
/// one lane is used.
pub fn count_lanes(ids: &[i16; 5]) -> (r: Option<u16>)
    ensures
        r is None <==> !lanes_valid(ids@) || lane_count(ids@, 5) == 0,
        r matches Some(n) ==> n == lane_count(ids@, 5),
{
    let mut count: u16 = 0;
    let mut i: usize = 0;
    while i < 5
        invariant
            i <= 5,
            count == lane_count(ids@, i as int),
            count <= i,
            forall|j: int| 0 <= j < i ==> ids@[j] < 6,
        decreases 5 - i,
    {
        if ids[i] >= 0 {
            if ids[i] >= 6 {
                return None;
            }
            count = count + 1;
        }
        i = i + 1;
    }
    if count == 0 {
        return None;
    }
    Some(count)
}

/// The configuration state of one link.
#[derive(Clone, Copy)]
pub struct CifCtx {
    pub mac_phys_regs: usize,
    pub wrap_phys_regs: usize,
    pub cur_config: Option<CifParam>,
    pub mac_num: u16,
}

impl CifCtx {
    /// A link with the given register bases and no configuration.
    pub fn new(mac_base: usize, wrap_base: usize, mac_num: u16) -> (c: Self)
        ensures
            c.mac_phys_regs == mac_base,
            c.wrap_phys_regs == wrap_base,
            c.cur_config is None,
            c.mac_num == mac_num,
    {
        CifCtx { mac_phys_regs: mac_base, wrap_phys_regs: wrap_base, cur_config: None, mac_num }
    }

    /// Replaces the configuration.
    pub fn set_config(&mut self, config: CifParam)
        ensures
            final(self).cur_config == Some(config),
            final(self).mac_phys_regs == old(self).mac_phys_regs,
            final(self).wrap_phys_regs == old(self).wrap_phys_regs,
            final(self).mac_num == old(self).mac_num,
    {
        self.cur_config = Some(config);
    }

    /// The configuration, if there is one, to change in place.
    pub fn config_mut(&mut self) -> (c: Option<&mut CifParam>)
        ensures
            old(self).cur_config is None ==> c is None && *final(self) == *old(self),
            old(self).cur_config is Some ==> c is Some && *c->0 == old(self).cur_config->0
                && final(self).cur_config == Some(*final(c->0)),
            final(self).mac_phys_regs == old(self).mac_phys_regs,
            final(self).wrap_phys_regs == old(self).wrap_phys_regs,
            final(self).mac_num == old(self).mac_num,
    {
        match &mut self.cur_config {
            Some(p) => Some(p),
            None => None,
        }
    }

    /// The configuration, if there is one.
    pub fn config(&self) -> (c: Option<&CifParam>)
        ensures
            c == match self.cur_config {
                Some(p) => Some(&p),
                None => None::<&CifParam>,
            },
    {
        match &self.cur_config {
            Some(p) => Some(p),
            None => None,
        }
    }
}

/// CSI error counters of a link.
#[derive(Debug, Clone, Copy, PartialEq, Eq, Structural)]
pub struct CsiStatus {
    pub errcnt_ecc: u32,
    pub errcnt_crc: u32,
    pub errcnt_hdr: u32,
    pub errcnt_wc: u32,
    pub fifo_full: u32,
}

impl Default for CsiStatus {
    fn default() -> (s: Self)
        ensures
            s == (CsiStatus { errcnt_ecc: 0, errcnt_crc: 0, errcnt_hdr: 0, errcnt_wc: 0, fifo_full: 0 }),
    {
        CsiStatus { errcnt_ecc: 0, errcnt_crc: 0, errcnt_hdr: 0, errcnt_wc: 0, fifo_full: 0 }
    }
}

/// LVDS error counters of a link.
#[derive(Debug, Clone, Copy, PartialEq, Eq, Structural)]
pub struct LvdsStatus {
    pub fifo_full: u32,
}

impl Default for LvdsStatus {
    fn default() -> (s: Self)
        ensures
            s == (LvdsStatus { fifo_full: 0 }),
    {
        LvdsStatus { fifo_full: 0 }
    }
}

/// One link of the camera interface: its configuration and its state.
#[derive(Clone, Copy)]
pub struct CifLink {
    pub cif_ctx: CifCtx,
    pub irq_num: u32,
    pub is_on: bool,
    pub param: CifParam,
    pub attr: ComboDevAttr,
    pub clk_edge: ClkEdge,
    pub msb: OutputMsb,
    pub crop_top: u32,
    pub distance_fp: u32,
    pub snsr_rst_pin: i32,
    pub snsr_rst_pol: GpioFlags,
    pub mac_clk: RxMacClk,
    pub bt_fmt_out: TtlBtFmtOut,
    pub sts_csi: CsiStatus,
}

pub open spec fn default_link() -> CifLink {
    CifLink {
        cif_ctx: CifCtx { mac_phys_regs: 0, wrap_phys_regs: 0, cur_config: None, mac_num: 0 },
        irq_num: 0,
        is_on: false,
        param: default_cif_param(),
        attr: default_combo_dev_attr(),
        clk_edge: ClkEdge::Up,
        msb: OutputMsb::Normal,
        crop_top: 0,
        distance_fp: 0,
        snsr_rst_pin: -1i32,
        snsr_rst_pol: GpioFlags::ActiveLow,
        mac_clk: RxMacClk::Clk400M,
        bt_fmt_out: TtlBtFmtOut::Cbycry,
        sts_csi: CsiStatus { errcnt_ecc: 0, errcnt_crc: 0, errcnt_hdr: 0, errcnt_wc: 0, fifo_full: 0 },
    }
}

impl Default for CifLink {
    fn default() -> (l: Self)
        ensures
            l == default_link(),
    {
        CifLink {
            cif_ctx: CifCtx::new(0, 0, 0),
            irq_num: 0,
            is_on: false,
            param: CifParam::default(),
            attr: ComboDevAttr::default(),
            clk_edge: ClkEdge::Up,
            msb: OutputMsb::Normal,
            crop_top: 0,
            distance_fp: 0,
            snsr_rst_pin: -1,
            snsr_rst_pol: GpioFlags::ActiveLow,
            mac_clk: RxMacClk::Clk400M,
            bt_fmt_out: TtlBtFmtOut::Cbycry,
            sts_csi: CsiStatus::default(),
        }
    }
}

/// The camera interface device: three links.
pub struct CifDev {
    pub devno: u32,
    pub links: [CifLink; 3],
    pub max_mac_clk: u32,
}

/// `ctx` with configuration `p`.
pub open spec fn with_config(ctx: CifCtx, p: CifParam) -> CifCtx {
    CifCtx { cur_config: Some(p), ..ctx }
}

/// What configuring a link in state `ctx` for `attr` gives: the new state, or
/// the error.
pub open spec fn attr_config(ctx: CifCtx, attr: ComboDevAttr, edge: ClkEdge) -> Result<CifCtx, CifError> {
    let img = attr.img_size;
    match attr.input_mode {
        InputMode::Mipi => match attr.mipi_attr {
            Some(m) => match mipi_param(m) {
                Ok(p) => Ok(with_config(ctx, p)),
                Err(e) => Err(CifError::Mipi(e)),
            },
            None => Ok(ctx),
        },
        InputMode::Sublvds => match attr.lvds_attr {
            Some(l) => match sublvds_param(l, img) {
                Ok(p) => Ok(with_config(ctx, p)),
                Err(e) => Err(CifError::Lvds(e)),
            },
            None => Ok(ctx),
        },
        InputMode::Hispi => match attr.lvds_attr {
            Some(l) => match hispi_param(l, img) {
                Ok(p) => Ok(with_config(ctx, p)),
                Err(e) => Err(CifError::Lvds(e)),
            },
            None => Ok(ctx),
        },
        InputMode::Cmos => match attr.ttl_attr {
            Some(t) => if t.vi == TtlViSrc::Vi2 {
                Err(CifError::Ttl(TtlError::UnsupportedMode))
            } else if !pin_funcs_valid(t.func@) {
                Err(CifError::Ttl(TtlError::InvalidPinFunc))
            } else {
                Ok(with_config(ctx, ttl_param(TtlFmt::VdeSensor, 0, 0, t.v_bp, t.h_bp, 0, 0, t.vi)))
            },
            None => Ok(ctx),
        },
        InputMode::Bt1120 => match attr.ttl_attr {
            Some(t) => if t.vi == TtlViSrc::Vi2 {
                Err(CifError::Ttl(TtlError::UnsupportedMode))
            } else if !pin_funcs_valid(t.func@) {
                Err(CifError::Ttl(TtlError::InvalidPinFunc))
            } else {
                Ok(
                    with_config(
                        ctx,
                        ttl_param(
                            TtlFmt::SyncPat17bBt1120,
                            (img.width - 1) as u16,
                            (img.height - 1) as u16,
                            or_default(t.v_bp, 9),
                            or_default(t.h_bp, 8),
                            clk_edge_value(edge),
                            ttl_vi_mode_value(TtlViMode::Bt1120),
                            t.vi,
                        ),
                    ),
                )
            },
            None => Ok(ctx),
        },
        InputMode::Bt601_19bVhs => match attr.ttl_attr {
            Some(t) => if t.vi == TtlViSrc::Vi2 {
                Err(CifError::Ttl(TtlError::UnsupportedMode))
            } else {
                Ok(
                    with_config(
                        ctx,
                        ttl_param(
                            TtlFmt::Vhs19bBt601,
                            (img.width - 1) as u16,
                            (img.height - 1) as u16,
                            or_default(t.v_bp, 0x23),
                            or_default(t.h_bp, 0xbf),
                            clk_edge_value(edge),
                            ttl_vi_mode_value(TtlViMode::Bt601),
                            t.vi,
                        ),
                    ),
                )
            },
            None => Ok(ctx),
        },
        InputMode::Bt656_9b => match attr.ttl_attr {
            Some(t) => Ok(
                with_config(
                    ctx,
                    ttl_param(
                        TtlFmt::SyncPat9bBt656,
                        (img.width - 1) as u16,
                        (img.height - 1) as u16,
                        or_default(t.v_bp, 0x0f),
                        or_default(t.h_bp, 0x0f),
                        clk_edge_value(edge),
                        ttl_vi_mode_value(TtlViMode::Bt656),
                        t.vi,
                    ),
                ),
            ),
            None => Ok(ctx),
        },
        InputMode::BtDemux => match attr.bt_demux_attr {
            Some(b) => if !demux_funcs_valid(b.func@) {
                Err(CifError::Ttl(TtlError::InvalidPinFunc))
            } else {
                Ok(with_config(ctx, bt_demux_param(b, img, edge)))
            },
            None => Ok(ctx),
        },
        _ => Err(CifError::InvalidConfig),
    }
}

/// The parallel modes subtract one from the image size: it must be non-zero.
pub open spec fn attr_size_ok(attr: ComboDevAttr) -> bool {
    let parallel = (attr.input_mode == InputMode::Bt1120 || attr.input_mode == InputMode::Bt601_19bVhs
        || attr.input_mode == InputMode::Bt656_9b) && attr.ttl_attr is Some;
    let demux = attr.input_mode == InputMode::BtDemux && attr.bt_demux_attr is Some;
    (parallel || demux) ==> attr.img_size.width >= 1 && attr.img_size.height >= 1
}

/// Configures `ctx` for the input mode of `attr`.
#[verifier::rlimit(100)]
fn apply_input_mode(ctx: &mut CifCtx, attr: &ComboDevAttr, clk_edge: ClkEdge) -> (r: Result<(), CifError>)
    requires
        attr_size_ok(*attr),
    ensures
        match attr_config(*old(ctx), *attr, clk_edge) {
            Ok(c) => r is Ok && *final(ctx) == c,
            Err(e) => r == Err::<(), CifError>(e),
        },
{
    match attr.input_mode {
            InputMode::Mipi => match &attr.mipi_attr {
                Some(m) => match mipi::set_mipi_attr(ctx, m, &attr.img_size) {
                    Ok(()) => Ok(()),
                    Err(e) => Err(CifError::Mipi(e)),
                },
                None => Ok(()),
            },
            InputMode::Sublvds => match &attr.lvds_attr {
                Some(l) => match lvds::set_sublvds_attr(ctx, l, &attr.img_size) {
                    Ok(()) => Ok(()),
                    Err(e) => Err(CifError::Lvds(e)),
                },
                None => Ok(()),
            },
            InputMode::Hispi => match &attr.lvds_attr {
                Some(l) => match lvds::set_hispi_attr(ctx, l, &attr.img_size) {
                    Ok(()) => Ok(()),
                    Err(e) => Err(CifError::Lvds(e)),
                },
                None => Ok(()),
            },
            InputMode::Cmos => match &attr.ttl_attr {
                Some(t) => match ttl::set_cmos_attr(ctx, t, &attr.img_size) {
                    Ok(()) => Ok(()),
                    Err(e) => Err(CifError::Ttl(e)),
                },
                None => Ok(()),
            },
            InputMode::Bt1120 => match &attr.ttl_attr {
                Some(t) => match ttl::set_bt1120_attr(ctx, t, &attr.img_size, clk_edge) {
                    Ok(()) => Ok(()),
                    Err(e) => Err(CifError::Ttl(e)),
                },
                None => Ok(()),
            },
            InputMode::Bt601_19bVhs => match &attr.ttl_attr {
                Some(t) => match ttl::set_bt601_attr(ctx, t, &attr.img_size, clk_edge) {
                    Ok(()) => Ok(()),
                    Err(e) => Err(CifError::Ttl(e)),
                },
                None => Ok(()),
            },
            InputMode::Bt656_9b => match &attr.ttl_attr {
                Some(t) => match ttl::set_bt656_attr(ctx, t, &attr.img_size, clk_edge) {
                    Ok(()) => Ok(()),
                    Err(e) => Err(CifError::Ttl(e)),
                },
                None => Ok(()),
            },
            InputMode::BtDemux => match &attr.bt_demux_attr {
                Some(b) => match ttl::set_bt_demux_attr(ctx, b, &attr.img_size, clk_edge) {
                    Ok(()) => Ok(()),
                    Err(e) => Err(CifError::Ttl(e)),
                },
                None => Ok(()),
            },
            _ => Err(CifError::InvalidConfig),
        }
}

impl CifDev {
    /// Device `devno` with three unconfigured links and a 600 MHz MAC clock limit.
    pub fn new(devno: u32) -> (d: Self)
        ensures
            d.devno == devno,
            d.max_mac_clk == 600,
            forall|i: int| 0 <= i < 3 ==> #[trigger] d.links@[i] == default_link(),
    {
        CifDev { devno, links: [CifLink::default(), CifLink::default(), CifLink::default()], max_mac_clk: 600 }
    }

    /// Link `index`, if there is one.
    pub fn link(&self, index: usize) -> (l: Option<&CifLink>)
        ensures
            index < 3 ==> l == Some(&self.links@[index as int]),
            index >= 3 ==> l is None,
    {
        if index < 3 {
            Some(&self.links[index])
        } else {
            None
        }
    }

    /// Link `index`, to change in place, if there is one.
    pub fn link_mut(&mut self, index: usize) -> (l: Option<&mut CifLink>)
        ensures
            index >= 3 ==> l is None && *final(self) == *old(self),
            index < 3 ==> l is Some && *l->0 == old(self).links@[index as int]
                && final(self).links@ == old(self).links@.update(index as int, *final(l->0)),
            final(self).devno == old(self).devno,
            final(self).max_mac_clk == old(self).max_mac_clk,
    {
        if index < 3 {
            Some(&mut self.links[index])
        } else {
            None
        }
    }

    /// Points each link at the register bases of its MAC and of the D-PHY.
    pub fn init(&mut self)
        ensures
            final(self).devno == old(self).devno,
            final(self).max_mac_clk == old(self).max_mac_clk,
            forall|i: int|
                0 <= i < 3 ==> (#[trigger] final(self).links@[i]) == (CifLink {
                    cif_ctx: CifCtx {
                        mac_phys_regs: if i == 0 {
                            regs::SENSOR_MAC0_BASE
                        } else if i == 1 {
                            regs::SENSOR_MAC1_BASE
                        } else {
                            regs::SENSOR_MAC_VI_BASE
                        },
                        wrap_phys_regs: regs::DPHY_TOP_BASE,
                        mac_num: i as u16,
                        ..old(self).links@[i].cif_ctx
                    },
                    ..old(self).links@[i]
                }),
    {
        let mut i: usize = 0;
        while i < MAX_LINK_NUM
            invariant
                i <= 3,
                self.devno == old(self).devno,
                self.max_mac_clk == old(self).max_mac_clk,
                forall|j: int|
                    0 <= j < i ==> (#[trigger] self.links@[j]) == (CifLink {
                        cif_ctx: CifCtx {
                            mac_phys_regs: if j == 0 {
                                regs::SENSOR_MAC0_BASE
                            } else if j == 1 {
                                regs::SENSOR_MAC1_BASE
                            } else {
                                regs::SENSOR_MAC_VI_BASE
                            },
                            wrap_phys_regs: regs::DPHY_TOP_BASE,
                            mac_num: j as u16,
                            ..old(self).links@[j].cif_ctx
                        },
                        ..old(self).links@[j]
                    }),
                forall|j: int| i <= j < 3 ==> #[trigger] self.links@[j] == old(self).links@[j],
            decreases 3 - i,
        {
            let mac_base = regs::get_mac_phys_reg_bases(i as u32);
            let wrap_base = regs::get_wrap_phys_reg_bases(i as u32);
            self.links[i].cif_ctx.mac_phys_regs = mac_base;
            self.links[i].cif_ctx.wrap_phys_regs = wrap_base;
            self.links[i].cif_ctx.mac_num = i as u16;
            i = i + 1;
        }
    }

    /// Configures link `attr.devno` for the device attributes `attr`: records
    /// them, selects the MAC clock and derives the interface parameters of
    /// the input mode.
    pub fn set_dev_attr<B: RegisterBus>(&mut self, mmio: &mut Mmio<B>, attr: &ComboDevAttr) -> (r: Result<(), CifError>)
        requires
            attr.devno < 3 ==> attr_size_ok(*attr),
        ensures
            final(self).devno == old(self).devno,
            final(self).max_mac_clk == old(self).max_mac_clk,
            attr.devno >= 3 ==> r == Err::<(), CifError>(CifError::InvalidDevno) && *final(self) == *old(self)
                && final(mmio).trace() == old(mmio).trace(),
            attr.devno < 3 ==> {
                let d = attr.devno as int;
                let link = final(self).links@[d];
                let before = old(self).links@[d];
                &&& forall|i: int| 0 <= i < 3 && i != d ==> #[trigger] final(self).links@[i] == old(self).links@[i]
                &&& final(mmio).trace() == old(mmio).trace() + vip_sys::mac_clk_ops(
                    attr.devno,
                    attr.mac_clk,
                    read_at(final(mmio).trace(), old(mmio).trace().len() as int),
                )
                &&& link.attr == *attr
                &&& match attr_config(before.cif_ctx, *attr, before.clk_edge) {
                    Ok(ctx) => r is Ok && link == CifLink { cif_ctx: ctx, attr: *attr, is_on: true, mac_clk: attr.mac_clk, ..before },
                    Err(e) => r == Err::<(), CifError>(e) && link == CifLink { attr: *attr, ..before },
                }
            },
    {
        if attr.devno >= 3 {
            return Err(CifError::InvalidDevno);
        }
        let d = attr.devno as usize;
        self.links[d].attr = *attr;
        match vip_sys::set_mac_clk(mmio, attr.devno, attr.mac_clk, self.max_mac_clk) {
            Ok(()) => {},
            Err(()) => return Err(CifError::InvalidConfig),
        }
        let mut ctx = self.links[d].cif_ctx;
        let clk_edge = self.links[d].clk_edge;
        let outcome = apply_input_mode(&mut ctx, attr, clk_edge);
        match outcome {
            Ok(()) => {
                self.links[d].cif_ctx = ctx;
                self.links[d].is_on = true;
                self.links[d].mac_clk = attr.mac_clk;
                Ok(())
            },
            Err(e) => Err(e),
        }
    }

    /// Stops link `devno` and resets its CSI PHY and MAC.
    pub fn reset_mipi<B: RegisterBus>(&mut self, mmio: &mut Mmio<B>, devno: u32) -> (r: Result<(), CifError>)
        ensures
            final(self).devno == old(self).devno,
            final(self).max_mac_clk == old(self).max_mac_clk,
            devno >= 3 ==> r == Err::<(), CifError>(CifError::InvalidDevno) && *final(self) == *old(self)
                && final(mmio).trace() == old(mmio).trace(),
            devno < 3 ==> r is Ok && final(self).links@[devno as int] == (CifLink {
                is_on: false,
                crop_top: 0,
                distance_fp: 0,
                sts_csi: CsiStatus { errcnt_ecc: 0, errcnt_crc: 0, errcnt_hdr: 0, errcnt_wc: 0, fifo_full: 0 },
                ..old(self).links@[devno as int]
            }) && forall|i: int| 0 <= i < 3 && i != devno ==> #[trigger] final(self).links@[i] == old(self).links@[i],
    {
        if devno >= 3 {
            return Err(CifError::InvalidDevno);
        }
        let d = devno as usize;
        if self.links[d].is_on {
            mipi::mask_csi_int_sts(&self.links[d].cif_ctx, 0x1F);
        }
        vip_sys::reset_mipi(mmio, devno);
        self.links[d].is_on = false;
        self.links[d].crop_top = 0;
        self.links[d].distance_fp = 0;
        self.links[d].sts_csi = CsiStatus::default();
        Ok(())
    }

    /// Records the output clock edge of link `devno` and applies it to the six
    /// PHY lanes.
    pub fn set_output_clk_edge(&mut self, devno: u32, edge: ClkEdge) -> (r: Result<(), CifError>)
        ensures
            final(self).devno == old(self).devno,
            final(self).max_mac_clk == old(self).max_mac_clk,
            devno >= 3 ==> r == Err::<(), CifError>(CifError::InvalidDevno) && *final(self) == *old(self),
            devno < 3 ==> r is Ok && final(self).links@[devno as int] == (CifLink { clk_edge: edge, ..old(self).links@[devno as int] })
                && forall|i: int| 0 <= i < 3 && i != devno ==> #[trigger] final(self).links@[i] == old(self).links@[i],
    {
        if devno >= 3 {
            return Err(CifError::InvalidDevno);
        }
        let d = devno as usize;
        self.links[d].clk_edge = edge;
        let cif_edge = match edge {
            ClkEdge::Up => CifClkEdge::Rising,
            ClkEdge::Down => CifClkEdge::Falling,
        };
        phy::set_clk_edge(&self.links[d].cif_ctx, PhyLaneId::Lane0, cif_edge);
        phy::set_clk_edge(&self.links[d].cif_ctx, PhyLaneId::Lane1, cif_edge);
        phy::set_clk_edge(&self.links[d].cif_ctx, PhyLaneId::Lane2, cif_edge);
        phy::set_clk_edge(&self.links[d].cif_ctx, PhyLaneId::Lane3, cif_edge);
        phy::set_clk_edge(&self.links[d].cif_ctx, PhyLaneId::Lane4, cif_edge);
        phy::set_clk_edge(&self.links[d].cif_ctx, PhyLaneId::Lane5, cif_edge);
        Ok(())
    }

    /// Enables (or leaves alone) the sensor master clock of link `devno`.
    pub fn enable_sensor_clock<B: RegisterBus>(&mut self, mmio: &mut Mmio<B>, devno: u32, enable: bool) -> (r:
        Result<(), CifError>)
        ensures
            *final(self) == *old(self),
            devno >= 3 ==> r == Err::<(), CifError>(CifError::InvalidDevno) && final(mmio).trace() == old(mmio).trace(),
            devno < 3 ==> {
                let freq = old(self).links@[devno as int].attr.mclk.freq;
                &&& r is Ok
                &&& (freq == CamPllFreq::Disabled || !enable) ==> final(mmio).trace() == old(mmio).trace()
                &&& (freq != CamPllFreq::Disabled && enable) ==> final(mmio).trace() == old(mmio).trace()
                    + vip_sys::sensor_clock_ops(vip_sys::cam_pll_setting(freq), final(mmio).trace(), old(mmio).trace().len() as int)
            },
    {
        if devno >= 3 {
            return Err(CifError::InvalidDevno);
        }
        let freq = self.links[devno as usize].attr.mclk.freq;
        match vip_sys::enable_sensor_clock(mmio, devno, freq, enable) {
            Ok(()) => Ok(()),
            Err(()) => Err(CifError::InvalidConfig),
        }
    }

    /// Records the number of lines to crop at the top of link `devno`.
    pub fn set_crop_top(&mut self, devno: u32, crop_top: u32, update: bool) -> (r: Result<(), CifError>)
        ensures
            final(self).devno == old(self).devno,
            final(self).max_mac_clk == old(self).max_mac_clk,
            devno >= 3 ==> r == Err::<(), CifError>(CifError::InvalidDevno) && *final(self) == *old(self),
            devno < 3 ==> r is Ok && final(self).links@[devno as int] == (CifLink { crop_top, ..old(self).links@[devno as int] })
                && forall|i: int| 0 <= i < 3 && i != devno ==> #[trigger] final(self).links@[i] == old(self).links@[i],
    {
        if devno >= 3 {
            return Err(CifError::InvalidDevno);
        }
        self.links[devno as usize].crop_top = crop_top;
        Ok(())
    }

    /// Records the manual HDR settings of link `devno`.
    pub fn set_hdr_manual(&mut self, devno: u32, hdr_attr: &ManualHdrAttr) -> (r: Result<(), CifError>)
        ensures
            final(self).devno == old(self).devno,
            final(self).max_mac_clk == old(self).max_mac_clk,
            devno >= 3 ==> r == Err::<(), CifError>(CifError::InvalidDevno) && *final(self) == *old(self),
            devno < 3 ==> r is Ok && final(self).links@[devno as int] == (CifLink {
                param: CifParam {
                    hdr_manual: hdr_attr.manual_en,
                    hdr_shift: hdr_attr.l2s_distance,
                    hdr_vsize: hdr_attr.lsef_length,
                    hdr_rm_padding: if hdr_attr.discard_padding_lines { 1u16 } else { 0u16 },
                    ..old(self).links@[devno as int].param
                },
                ..old(self).links@[devno as int]
            }) && forall|i: int| 0 <= i < 3 && i != devno ==> #[trigger] final(self).links@[i] == old(self).links@[i],
    {
        if devno >= 3 {
            return Err(CifError::InvalidDevno);
        }
        let d = devno as usize;
        self.links[d].param.hdr_manual = hdr_attr.manual_en;
        self.links[d].param.hdr_shift = hdr_attr.l2s_distance;
        self.links[d].param.hdr_vsize = hdr_attr.lsef_length;
        self.links[d].param.hdr_rm_padding = if hdr_attr.discard_padding_lines {
            1
        } else {
            0
        };
        Ok(())
    }
}

} // verus!
