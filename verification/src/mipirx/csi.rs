//! A CSI-2 controller of the MIPI receiver: lane mode, virtual channel
//! checks and mapping, HDR modes, black level calibration, interrupts and
//! status.
//!
//! Every setter is a read-modify-write of one or more register fields; its
//! contract lists the updates (see [`rmws`]).
use super::regs::{
    csi_regs, CSI_REG_00, CSI_REG_04, CSI_REG_08, CSI_REG_0C, CSI_REG_10, CSI_REG_14, CSI_REG_18,
    CSI_REG_1C, CSI_REG_20, CSI_REG_24, CSI_REG_40, CSI_REG_60, CSI_REG_70, CSI_REG_74,
};
use super::types::{
    blc_format_of, csi_data_type_of, csi_status_of, interrupt_status_of, lane_mode_value,
    vs_gen_mode_value, CsiInterruptStatus, CsiStatus, HdrMode, LaneMode, MipiRxDevAttr, MipiRxError,
    RawDataType, VcMapping, VsGenMode,
};
use crate::mmio::{
    bit, bit_of, field_bits, field_value, lemma_rmws_append, read_at, read_next, rmws, BusOp, Mmio,
    RegisterBus,
};
use vstd::prelude::*;

verus! {

/// The field updates of [`set_lane_mode`].
pub open spec fn set_lane_mode_steps(base: usize, mode: LaneMode) -> Seq<(usize, usize, u32, u32)> {
    seq![
        (base, CSI_REG_00, 0x7, field_bits(lane_mode_value(mode) as u32, 0x7, 0)),
    ]
}

/// The field updates of [`set_ignore_ecc`].
pub open spec fn set_ignore_ecc_steps(base: usize, ignore: bool) -> Seq<(usize, usize, u32, u32)> {
    seq![
        (base, CSI_REG_00, 0x8, field_bits(bit(ignore), 0x1, 3)),
    ]
}

/// The field updates of [`set_vc_check`].
pub open spec fn set_vc_check_steps(base: usize, enable: bool, vc_set: u8) -> Seq<(usize, usize, u32, u32)> {
    seq![
        (base, CSI_REG_00, 0xf10, field_bits(bit(enable), 0x1, 4) | field_bits(vc_set as u32, 0xf, 8)),
    ]
}

/// The field updates of [`set_line_start_sent`].
pub open spec fn set_line_start_sent_steps(base: usize, use_ls_le: bool) -> Seq<(usize, usize, u32, u32)> {
    seq![
        (base, CSI_REG_00, 0x1000, field_bits(bit(use_ls_le), 0x1, 12)),
    ]
}

/// The field updates of [`set_interrupt_mask`].
pub open spec fn set_interrupt_mask_steps(base: usize, mask: u8) -> Seq<(usize, usize, u32, u32)> {
    seq![
        (base, CSI_REG_04, 0xff, field_bits(mask as u32, 0xff, 0)),
    ]
}

/// The field updates of [`clear_interrupt`].
pub open spec fn clear_interrupt_steps(base: usize, mask: u8) -> Seq<(usize, usize, u32, u32)> {
    seq![
        (base, CSI_REG_04, 0xff00, field_bits(mask as u32, 0xff, 8)),
    ]
}

/// The field updates of [`clear_all_interrupts`].
pub open spec fn clear_all_interrupts_steps(base: usize) -> Seq<(usize, usize, u32, u32)> {
    seq![
        (base, CSI_REG_04, 0xff00, field_bits(0xff, 0xff, 8)),
    ]
}

/// The field updates of [`set_hdr_mode`].
pub open spec fn set_hdr_mode_steps(base: usize, enable: bool, id_mode: bool) -> Seq<(usize, usize, u32, u32)> {
    seq![
        (base, CSI_REG_04, 0x30000, field_bits(bit(enable), 0x1, 16) | field_bits(bit(id_mode), 0x1, 17)),
    ]
}

/// The field updates of [`set_hdr_id_remove`].
pub open spec fn set_hdr_id_remove_steps(base: usize, remove_else: bool, remove_ob: bool) -> Seq<(usize, usize, u32, u32)> {
    seq![
        (base, CSI_REG_04, 0xc0000, field_bits(bit(remove_else), 0x1, 18) | field_bits(bit(remove_ob), 0x1, 19)),
    ]
}

/// The field updates of [`configure_hdr_dt`].
pub open spec fn configure_hdr_dt_steps(base: usize, enable: bool, format: u8, lef_dt: u8, sef_dt: u8) -> Seq<(usize, usize, u32, u32)> {
    seq![
        (base, CSI_REG_74, 0x3f3f3f1, field_bits(bit(enable), 0x1, 0) | field_bits(format as u32, 0x3f, 4) | field_bits(lef_dt as u32, 0x3f, 12) | field_bits(sef_dt as u32, 0x3f, 20)),
    ]
}

/// The field updates of [`configure_hdr_ob_id_n0`].
pub open spec fn configure_hdr_ob_id_n0_steps(base: usize, lef_id: u16, sef_id: u16) -> Seq<(usize, usize, u32, u32)> {
    seq![
        (base, CSI_REG_08, 0xffffffff, field_bits(lef_id as u32, 0xffff, 0) | field_bits(sef_id as u32, 0xffff, 16)),
    ]
}

/// The field updates of [`configure_hdr_active_id_n0`].
pub open spec fn configure_hdr_active_id_n0_steps(base: usize, lef_id: u16, sef_id: u16) -> Seq<(usize, usize, u32, u32)> {
    seq![
        (base, CSI_REG_0C, 0xffff, field_bits(lef_id as u32, 0xffff, 0)),
        (base, CSI_REG_1C, 0xffff, field_bits(sef_id as u32, 0xffff, 0)),
    ]
}

/// The field updates of [`configure_hdr_ob_id_n1`].
pub open spec fn configure_hdr_ob_id_n1_steps(base: usize, lef_id: u16, sef_id: u16) -> Seq<(usize, usize, u32, u32)> {
    seq![
        (base, CSI_REG_0C, 0xffff0000, field_bits(lef_id as u32, 0xffff, 16)),
        (base, CSI_REG_10, 0xffff, field_bits(sef_id as u32, 0xffff, 0)),
    ]
}

/// The field updates of [`configure_hdr_active_id_n1`].
pub open spec fn configure_hdr_active_id_n1_steps(base: usize, lef_id: u16, sef_id: u16) -> Seq<(usize, usize, u32, u32)> {
    seq![
        (base, CSI_REG_10, 0xffff0000, field_bits(lef_id as u32, 0xffff, 16)),
        (base, CSI_REG_1C, 0xffff0000, field_bits(sef_id as u32, 0xffff, 16)),
    ]
}

/// The field updates of [`configure_hdr_sef2_id`].
pub open spec fn configure_hdr_sef2_id_steps(base: usize, n0_active: u16, n1_active: u16, n0_ob: u16, n1_ob: u16) -> Seq<(usize, usize, u32, u32)> {
    seq![
        (base, CSI_REG_20, 0xffffffff, field_bits(n0_active as u32, 0xffff, 0) | field_bits(n1_active as u32, 0xffff, 16)),
        (base, CSI_REG_24, 0xffffffff, field_bits(n0_ob as u32, 0xffff, 0) | field_bits(n1_ob as u32, 0xffff, 16)),
    ]
}

/// The field updates of [`configure_blc`].
pub open spec fn configure_blc_steps(base: usize, enable: bool, data_type: u8, format: RawDataType) -> Seq<(usize, usize, u32, u32)> {
    seq![
        (base, CSI_REG_14, 0x713f, field_bits(bit(enable), 0x1, 8) | field_bits(data_type as u32, 0x3f, 0) | field_bits(blc_format_of(format) as u32, 0x7, 12)),
    ]
}

/// The field updates of [`configure_vc_mapping`].
pub open spec fn configure_vc_mapping_steps(base: usize, mapping: &VcMapping) -> Seq<(usize, usize, u32, u32)> {
    seq![
        (base, CSI_REG_18, 0xffff, field_bits(mapping.ch00 as u32, 0xf, 0) | field_bits(mapping.ch01 as u32, 0xf, 4) | field_bits(mapping.ch10 as u32, 0xf, 8) | field_bits(mapping.ch11 as u32, 0xf, 12)),
    ]
}

/// The field updates of [`set_vs_gen_mode`].
pub open spec fn set_vs_gen_mode_steps(base: usize, mode: VsGenMode) -> Seq<(usize, usize, u32, u32)> {
    seq![
        (base, CSI_REG_70, 0x3, field_bits(vs_gen_mode_value(mode) as u32, 0x3, 0)),
    ]
}

/// The field updates of [`set_vs_gen_by_vcset`].
pub open spec fn set_vs_gen_by_vcset_steps(base: usize, by_vcset: bool) -> Seq<(usize, usize, u32, u32)> {
    seq![
        (base, CSI_REG_70, 0x10, field_bits(bit(by_vcset), 0x1, 4)),
    ]
}

/// The field updates of [`MipiRxCsi::set_default_vc_mapping`].
pub open spec fn set_default_vc_mapping_steps(base: usize) -> Seq<(usize, usize, u32, u32)> {
    configure_vc_mapping_steps(base, &VcMapping { ch00: 0, ch01: 1, ch10: 2, ch11: 3 })
}

/// The HDR updates of [`MipiRxCsi::apply_dev_attr`] for `attr`.
pub open spec fn hdr_steps(base: usize, attr: MipiRxDevAttr) -> Seq<(usize, usize, u32, u32)> {
    match attr.hdr_mode {
        HdrMode::Off => set_hdr_mode_steps(base, false, false),
        HdrMode::Vc => set_hdr_mode_steps(base, true, false),
        HdrMode::Id => set_hdr_mode_steps(base, true, true),
        HdrMode::Dt => set_hdr_mode_steps(base, true, false) + configure_hdr_dt_steps(
            base,
            true,
            blc_format_of(attr.data_type),
            csi_data_type_of(attr.data_type),
            csi_data_type_of(attr.data_type),
        ),
        _ => Seq::empty(),
    }
}

/// The field updates of [`MipiRxCsi::apply_dev_attr`].
pub open spec fn apply_dev_attr_steps(base: usize, attr: MipiRxDevAttr) -> Seq<(usize, usize, u32, u32)> {
    set_lane_mode_steps(base, attr.lane_mode) + set_default_vc_mapping_steps(base) + hdr_steps(base, attr)
        + set_vs_gen_mode_steps(base, VsGenMode::ByFsFe) + clear_all_interrupts_steps(base)
}

/// The field updates of [`MipiRxCsi::init`].
pub open spec fn csi_init_steps(base: usize) -> Seq<(usize, usize, u32, u32)> {
    set_lane_mode_steps(base, LaneMode::Lane2) + set_ignore_ecc_steps(base, false) + set_vc_check_steps(base, false, 0)
        + set_line_start_sent_steps(base, false) + set_hdr_mode_steps(base, false, false)
        + set_hdr_id_remove_steps(base, true, true) + set_default_vc_mapping_steps(base)
        + set_vs_gen_mode_steps(base, VsGenMode::ByFsFe) + clear_all_interrupts_steps(base)
        + set_interrupt_mask_steps(base, 0x1F)
}

/// A CSI-2 controller.
pub struct MipiRxCsi {
    base: usize,
    devno: u8,
}

impl MipiRxCsi {
    pub closed spec fn base(&self) -> usize {
        self.base
    }

    pub closed spec fn dev(&self) -> u8 {
        self.devno
    }

    /// Controller `devno` (0 or 1), if there is one.
    pub fn new(devno: u8) -> (c: Option<Self>)
        ensures
            devno >= 2 ==> c is None,
            devno < 2 ==> (c matches Some(x) && x.dev() == devno && x.base() == if devno == 0 {
                super::regs::MIPIRX_CSI0_BASE
            } else {
                super::regs::MIPIRX_CSI1_BASE
            }),
    {
        match csi_regs(devno as usize) {
            Some(base) => Some(MipiRxCsi { base, devno }),
            None => None,
        }
    }

    /// Controller `devno` at `base`.
    pub fn from_base_address(base: usize, devno: u8) -> (c: Self)
        ensures
            c.base() == base,
            c.dev() == devno,
    {
        MipiRxCsi { base, devno }
    }

    pub fn devno(&self) -> (d: u8)
        ensures
            d == self.dev(),
    {
        self.devno
    }

    /// Sets the lane mode field.
    pub fn set_lane_mode<B: RegisterBus>(&self, mmio: &mut Mmio<B>, mode: LaneMode)
        ensures
            rmws(old(mmio).trace(), final(mmio).trace(), set_lane_mode_steps(self.base(), mode)),
    {
        let ghost t0 = mmio.trace();
        let ghost mut acc: Seq<(usize, usize, u32, u32)> = Seq::empty();
        proof {
            assert(mmio.trace().take(t0.len() as int) =~= t0);
        }
        let ghost tp = mmio.trace();
        mmio.rmw(self.base, CSI_REG_00, 0x7, field_value(mode.value() as u32, 0x7, 0));
        proof {
            lemma_rmws_append(t0, tp, mmio.trace(), acc, seq![(self.base(), CSI_REG_00, 0x7, field_bits(lane_mode_value(mode) as u32, 0x7, 0))]);
            acc = acc + seq![(self.base(), CSI_REG_00, 0x7, field_bits(lane_mode_value(mode) as u32, 0x7, 0))];
        }
        proof {
            assert(acc =~= set_lane_mode_steps(self.base(), mode));
        }
    }

    /// Sets whether ECC errors are ignored.
    pub fn set_ignore_ecc<B: RegisterBus>(&self, mmio: &mut Mmio<B>, ignore: bool)
        ensures
            rmws(old(mmio).trace(), final(mmio).trace(), set_ignore_ecc_steps(self.base(), ignore)),
    {
        let ghost t0 = mmio.trace();
        let ghost mut acc: Seq<(usize, usize, u32, u32)> = Seq::empty();
        proof {
            assert(mmio.trace().take(t0.len() as int) =~= t0);
        }
        let ghost tp = mmio.trace();
        mmio.rmw(self.base, CSI_REG_00, 0x8, field_value(bit_of(ignore), 0x1, 3));
        proof {
            lemma_rmws_append(t0, tp, mmio.trace(), acc, seq![(self.base(), CSI_REG_00, 0x8, field_bits(bit(ignore), 0x1, 3))]);
            acc = acc + seq![(self.base(), CSI_REG_00, 0x8, field_bits(bit(ignore), 0x1, 3))];
        }
        proof {
            assert(acc =~= set_ignore_ecc_steps(self.base(), ignore));
        }
    }

    /// Sets the virtual channel check and the channel checked.
    pub fn set_vc_check<B: RegisterBus>(&self, mmio: &mut Mmio<B>, enable: bool, vc_set: u8)
        ensures
            rmws(old(mmio).trace(), final(mmio).trace(), set_vc_check_steps(self.base(), enable, vc_set)),
    {
        let ghost t0 = mmio.trace();
        let ghost mut acc: Seq<(usize, usize, u32, u32)> = Seq::empty();
        proof {
            assert(mmio.trace().take(t0.len() as int) =~= t0);
        }
        let ghost tp = mmio.trace();
        mmio.rmw(self.base, CSI_REG_00, 0xf10, field_value(bit_of(enable), 0x1, 4) | field_value(vc_set as u32, 0xf, 8));
        proof {
            lemma_rmws_append(t0, tp, mmio.trace(), acc, seq![(self.base(), CSI_REG_00, 0xf10, field_bits(bit(enable), 0x1, 4) | field_bits(vc_set as u32, 0xf, 8))]);
            acc = acc + seq![(self.base(), CSI_REG_00, 0xf10, field_bits(bit(enable), 0x1, 4) | field_bits(vc_set as u32, 0xf, 8))];
        }
        proof {
            assert(acc =~= set_vc_check_steps(self.base(), enable, vc_set));
        }
    }

    /// Sets whether line start/end packets are sent.
    pub fn set_line_start_sent<B: RegisterBus>(&self, mmio: &mut Mmio<B>, use_ls_le: bool)
        ensures
            rmws(old(mmio).trace(), final(mmio).trace(), set_line_start_sent_steps(self.base(), use_ls_le)),
    {
        let ghost t0 = mmio.trace();
        let ghost mut acc: Seq<(usize, usize, u32, u32)> = Seq::empty();
        proof {
            assert(mmio.trace().take(t0.len() as int) =~= t0);
        }
        let ghost tp = mmio.trace();
        mmio.rmw(self.base, CSI_REG_00, 0x1000, field_value(bit_of(use_ls_le), 0x1, 12));
        proof {
            lemma_rmws_append(t0, tp, mmio.trace(), acc, seq![(self.base(), CSI_REG_00, 0x1000, field_bits(bit(use_ls_le), 0x1, 12))]);
            acc = acc + seq![(self.base(), CSI_REG_00, 0x1000, field_bits(bit(use_ls_le), 0x1, 12))];
        }
        proof {
            assert(acc =~= set_line_start_sent_steps(self.base(), use_ls_le));
        }
    }

    /// Sets the interrupt mask.
    pub fn set_interrupt_mask<B: RegisterBus>(&self, mmio: &mut Mmio<B>, mask: u8)
        ensures
            rmws(old(mmio).trace(), final(mmio).trace(), set_interrupt_mask_steps(self.base(), mask)),
    {
        let ghost t0 = mmio.trace();
        let ghost mut acc: Seq<(usize, usize, u32, u32)> = Seq::empty();
        proof {
            assert(mmio.trace().take(t0.len() as int) =~= t0);
        }
        let ghost tp = mmio.trace();
        mmio.rmw(self.base, CSI_REG_04, 0xff, field_value(mask as u32, 0xff, 0));
        proof {
            lemma_rmws_append(t0, tp, mmio.trace(), acc, seq![(self.base(), CSI_REG_04, 0xff, field_bits(mask as u32, 0xff, 0))]);
            acc = acc + seq![(self.base(), CSI_REG_04, 0xff, field_bits(mask as u32, 0xff, 0))];
        }
        proof {
            assert(acc =~= set_interrupt_mask_steps(self.base(), mask));
        }
    }

    /// Clears the interrupts of `mask`.
    pub fn clear_interrupt<B: RegisterBus>(&self, mmio: &mut Mmio<B>, mask: u8)
        ensures
            rmws(old(mmio).trace(), final(mmio).trace(), clear_interrupt_steps(self.base(), mask)),
    {
        let ghost t0 = mmio.trace();
        let ghost mut acc: Seq<(usize, usize, u32, u32)> = Seq::empty();
        proof {
            assert(mmio.trace().take(t0.len() as int) =~= t0);
        }
        let ghost tp = mmio.trace();
        mmio.rmw(self.base, CSI_REG_04, 0xff00, field_value(mask as u32, 0xff, 8));
        proof {
            lemma_rmws_append(t0, tp, mmio.trace(), acc, seq![(self.base(), CSI_REG_04, 0xff00, field_bits(mask as u32, 0xff, 8))]);
            acc = acc + seq![(self.base(), CSI_REG_04, 0xff00, field_bits(mask as u32, 0xff, 8))];
        }
        proof {
            assert(acc =~= clear_interrupt_steps(self.base(), mask));
        }
    }

    /// Clears every interrupt.
    pub fn clear_all_interrupts<B: RegisterBus>(&self, mmio: &mut Mmio<B>)
        ensures
            rmws(old(mmio).trace(), final(mmio).trace(), clear_all_interrupts_steps(self.base())),
    {
        let ghost t0 = mmio.trace();
        let ghost mut acc: Seq<(usize, usize, u32, u32)> = Seq::empty();
        proof {
            assert(mmio.trace().take(t0.len() as int) =~= t0);
        }
        let ghost tp = mmio.trace();
        mmio.rmw(self.base, CSI_REG_04, 0xff00, field_value(0xff, 0xff, 8));
        proof {
            lemma_rmws_append(t0, tp, mmio.trace(), acc, seq![(self.base(), CSI_REG_04, 0xff00, field_bits(0xff, 0xff, 8))]);
            acc = acc + seq![(self.base(), CSI_REG_04, 0xff00, field_bits(0xff, 0xff, 8))];
        }
        proof {
            assert(acc =~= clear_all_interrupts_steps(self.base()));
        }
    }

    /// Sets HDR on or off and ID mode.
    pub fn set_hdr_mode<B: RegisterBus>(&self, mmio: &mut Mmio<B>, enable: bool, id_mode: bool)
        ensures
            rmws(old(mmio).trace(), final(mmio).trace(), set_hdr_mode_steps(self.base(), enable, id_mode)),
    {
        let ghost t0 = mmio.trace();
        let ghost mut acc: Seq<(usize, usize, u32, u32)> = Seq::empty();
        proof {
            assert(mmio.trace().take(t0.len() as int) =~= t0);
        }
        let ghost tp = mmio.trace();
        mmio.rmw(self.base, CSI_REG_04, 0x30000, field_value(bit_of(enable), 0x1, 16) | field_value(bit_of(id_mode), 0x1, 17));
        proof {
            lemma_rmws_append(t0, tp, mmio.trace(), acc, seq![(self.base(), CSI_REG_04, 0x30000, field_bits(bit(enable), 0x1, 16) | field_bits(bit(id_mode), 0x1, 17))]);
            acc = acc + seq![(self.base(), CSI_REG_04, 0x30000, field_bits(bit(enable), 0x1, 16) | field_bits(bit(id_mode), 0x1, 17))];
        }
        proof {
            assert(acc =~= set_hdr_mode_steps(self.base(), enable, id_mode));
        }
    }

    /// Sets the removal of other and OB IDs in HDR mode.
    pub fn set_hdr_id_remove<B: RegisterBus>(&self, mmio: &mut Mmio<B>, remove_else: bool, remove_ob: bool)
        ensures
            rmws(old(mmio).trace(), final(mmio).trace(), set_hdr_id_remove_steps(self.base(), remove_else, remove_ob)),
    {
        let ghost t0 = mmio.trace();
        let ghost mut acc: Seq<(usize, usize, u32, u32)> = Seq::empty();
        proof {
            assert(mmio.trace().take(t0.len() as int) =~= t0);
        }
        let ghost tp = mmio.trace();
        mmio.rmw(self.base, CSI_REG_04, 0xc0000, field_value(bit_of(remove_else), 0x1, 18) | field_value(bit_of(remove_ob), 0x1, 19));
        proof {
            lemma_rmws_append(t0, tp, mmio.trace(), acc, seq![(self.base(), CSI_REG_04, 0xc0000, field_bits(bit(remove_else), 0x1, 18) | field_bits(bit(remove_ob), 0x1, 19))]);
            acc = acc + seq![(self.base(), CSI_REG_04, 0xc0000, field_bits(bit(remove_else), 0x1, 18) | field_bits(bit(remove_ob), 0x1, 19))];
        }
        proof {
            assert(acc =~= set_hdr_id_remove_steps(self.base(), remove_else, remove_ob));
        }
    }

    /// Sets HDR by data type: mode, format, LEF and SEF data types.
    pub fn configure_hdr_dt<B: RegisterBus>(&self, mmio: &mut Mmio<B>, enable: bool, format: u8, lef_dt: u8, sef_dt: u8)
        ensures
            rmws(old(mmio).trace(), final(mmio).trace(), configure_hdr_dt_steps(self.base(), enable, format, lef_dt, sef_dt)),
    {
        let ghost t0 = mmio.trace();
        let ghost mut acc: Seq<(usize, usize, u32, u32)> = Seq::empty();
        proof {
            assert(mmio.trace().take(t0.len() as int) =~= t0);
        }
        let ghost tp = mmio.trace();
        mmio.rmw(self.base, CSI_REG_74, 0x3f3f3f1, field_value(bit_of(enable), 0x1, 0) | field_value(format as u32, 0x3f, 4) | field_value(lef_dt as u32, 0x3f, 12) | field_value(sef_dt as u32, 0x3f, 20));
        proof {
            lemma_rmws_append(t0, tp, mmio.trace(), acc, seq![(self.base(), CSI_REG_74, 0x3f3f3f1, field_bits(bit(enable), 0x1, 0) | field_bits(format as u32, 0x3f, 4) | field_bits(lef_dt as u32, 0x3f, 12) | field_bits(sef_dt as u32, 0x3f, 20))]);
            acc = acc + seq![(self.base(), CSI_REG_74, 0x3f3f3f1, field_bits(bit(enable), 0x1, 0) | field_bits(format as u32, 0x3f, 4) | field_bits(lef_dt as u32, 0x3f, 12) | field_bits(sef_dt as u32, 0x3f, 20))];
        }
        proof {
            assert(acc =~= configure_hdr_dt_steps(self.base(), enable, format, lef_dt, sef_dt));
        }
    }

    /// Sets the N0 OB LEF and SEF IDs.
    pub fn configure_hdr_ob_id_n0<B: RegisterBus>(&self, mmio: &mut Mmio<B>, lef_id: u16, sef_id: u16)
        ensures
            rmws(old(mmio).trace(), final(mmio).trace(), configure_hdr_ob_id_n0_steps(self.base(), lef_id, sef_id)),
    {
        let ghost t0 = mmio.trace();
        let ghost mut acc: Seq<(usize, usize, u32, u32)> = Seq::empty();
        proof {
            assert(mmio.trace().take(t0.len() as int) =~= t0);
        }
        let ghost tp = mmio.trace();
        mmio.rmw(self.base, CSI_REG_08, 0xffffffff, field_value(lef_id as u32, 0xffff, 0) | field_value(sef_id as u32, 0xffff, 16));
        proof {
            lemma_rmws_append(t0, tp, mmio.trace(), acc, seq![(self.base(), CSI_REG_08, 0xffffffff, field_bits(lef_id as u32, 0xffff, 0) | field_bits(sef_id as u32, 0xffff, 16))]);
            acc = acc + seq![(self.base(), CSI_REG_08, 0xffffffff, field_bits(lef_id as u32, 0xffff, 0) | field_bits(sef_id as u32, 0xffff, 16))];
        }
        proof {
            assert(acc =~= configure_hdr_ob_id_n0_steps(self.base(), lef_id, sef_id));
        }
    }

    /// Sets the N0 active LEF and SEF IDs.
    pub fn configure_hdr_active_id_n0<B: RegisterBus>(&self, mmio: &mut Mmio<B>, lef_id: u16, sef_id: u16)
        ensures
            rmws(old(mmio).trace(), final(mmio).trace(), configure_hdr_active_id_n0_steps(self.base(), lef_id, sef_id)),
    {
        let ghost t0 = mmio.trace();
        let ghost mut acc: Seq<(usize, usize, u32, u32)> = Seq::empty();
        proof {
            assert(mmio.trace().take(t0.len() as int) =~= t0);
        }
        let ghost tp = mmio.trace();
        mmio.rmw(self.base, CSI_REG_0C, 0xffff, field_value(lef_id as u32, 0xffff, 0));
        proof {
            lemma_rmws_append(t0, tp, mmio.trace(), acc, seq![(self.base(), CSI_REG_0C, 0xffff, field_bits(lef_id as u32, 0xffff, 0))]);
            acc = acc + seq![(self.base(), CSI_REG_0C, 0xffff, field_bits(lef_id as u32, 0xffff, 0))];
        }
        let ghost tp = mmio.trace();
        mmio.rmw(self.base, CSI_REG_1C, 0xffff, field_value(sef_id as u32, 0xffff, 0));
        proof {
            lemma_rmws_append(t0, tp, mmio.trace(), acc, seq![(self.base(), CSI_REG_1C, 0xffff, field_bits(sef_id as u32, 0xffff, 0))]);
            acc = acc + seq![(self.base(), CSI_REG_1C, 0xffff, field_bits(sef_id as u32, 0xffff, 0))];
        }
        proof {
            assert(acc =~= configure_hdr_active_id_n0_steps(self.base(), lef_id, sef_id));
        }
    }

    /// Sets the N1 OB LEF and SEF IDs.
    pub fn configure_hdr_ob_id_n1<B: RegisterBus>(&self, mmio: &mut Mmio<B>, lef_id: u16, sef_id: u16)
        ensures
            rmws(old(mmio).trace(), final(mmio).trace(), configure_hdr_ob_id_n1_steps(self.base(), lef_id, sef_id)),
    {
        let ghost t0 = mmio.trace();
        let ghost mut acc: Seq<(usize, usize, u32, u32)> = Seq::empty();
        proof {
            assert(mmio.trace().take(t0.len() as int) =~= t0);
        }
        let ghost tp = mmio.trace();
        mmio.rmw(self.base, CSI_REG_0C, 0xffff0000, field_value(lef_id as u32, 0xffff, 16));
        proof {
            lemma_rmws_append(t0, tp, mmio.trace(), acc, seq![(self.base(), CSI_REG_0C, 0xffff0000, field_bits(lef_id as u32, 0xffff, 16))]);
            acc = acc + seq![(self.base(), CSI_REG_0C, 0xffff0000, field_bits(lef_id as u32, 0xffff, 16))];
        }
        let ghost tp = mmio.trace();
        mmio.rmw(self.base, CSI_REG_10, 0xffff, field_value(sef_id as u32, 0xffff, 0));
        proof {
            lemma_rmws_append(t0, tp, mmio.trace(), acc, seq![(self.base(), CSI_REG_10, 0xffff, field_bits(sef_id as u32, 0xffff, 0))]);
            acc = acc + seq![(self.base(), CSI_REG_10, 0xffff, field_bits(sef_id as u32, 0xffff, 0))];
        }
        proof {
            assert(acc =~= configure_hdr_ob_id_n1_steps(self.base(), lef_id, sef_id));
        }
    }

    /// Sets the N1 active LEF and SEF IDs.
    pub fn configure_hdr_active_id_n1<B: RegisterBus>(&self, mmio: &mut Mmio<B>, lef_id: u16, sef_id: u16)
        ensures
            rmws(old(mmio).trace(), final(mmio).trace(), configure_hdr_active_id_n1_steps(self.base(), lef_id, sef_id)),
    {
        let ghost t0 = mmio.trace();
        let ghost mut acc: Seq<(usize, usize, u32, u32)> = Seq::empty();
        proof {
            assert(mmio.trace().take(t0.len() as int) =~= t0);
        }
        let ghost tp = mmio.trace();
        mmio.rmw(self.base, CSI_REG_10, 0xffff0000, field_value(lef_id as u32, 0xffff, 16));
        proof {
            lemma_rmws_append(t0, tp, mmio.trace(), acc, seq![(self.base(), CSI_REG_10, 0xffff0000, field_bits(lef_id as u32, 0xffff, 16))]);
            acc = acc + seq![(self.base(), CSI_REG_10, 0xffff0000, field_bits(lef_id as u32, 0xffff, 16))];
        }
        let ghost tp = mmio.trace();
        mmio.rmw(self.base, CSI_REG_1C, 0xffff0000, field_value(sef_id as u32, 0xffff, 16));
        proof {
            lemma_rmws_append(t0, tp, mmio.trace(), acc, seq![(self.base(), CSI_REG_1C, 0xffff0000, field_bits(sef_id as u32, 0xffff, 16))]);
            acc = acc + seq![(self.base(), CSI_REG_1C, 0xffff0000, field_bits(sef_id as u32, 0xffff, 16))];
        }
        proof {
            assert(acc =~= configure_hdr_active_id_n1_steps(self.base(), lef_id, sef_id));
        }
    }

    /// Sets the SEF2 active and OB IDs of N0 and N1.
    pub fn configure_hdr_sef2_id<B: RegisterBus>(&self, mmio: &mut Mmio<B>, n0_active: u16, n1_active: u16, n0_ob: u16, n1_ob: u16)
        ensures
            rmws(old(mmio).trace(), final(mmio).trace(), configure_hdr_sef2_id_steps(self.base(), n0_active, n1_active, n0_ob, n1_ob)),
    {
        let ghost t0 = mmio.trace();
        let ghost mut acc: Seq<(usize, usize, u32, u32)> = Seq::empty();
        proof {
            assert(mmio.trace().take(t0.len() as int) =~= t0);
        }
        let ghost tp = mmio.trace();
        mmio.rmw(self.base, CSI_REG_20, 0xffffffff, field_value(n0_active as u32, 0xffff, 0) | field_value(n1_active as u32, 0xffff, 16));
        proof {
            lemma_rmws_append(t0, tp, mmio.trace(), acc, seq![(self.base(), CSI_REG_20, 0xffffffff, field_bits(n0_active as u32, 0xffff, 0) | field_bits(n1_active as u32, 0xffff, 16))]);
            acc = acc + seq![(self.base(), CSI_REG_20, 0xffffffff, field_bits(n0_active as u32, 0xffff, 0) | field_bits(n1_active as u32, 0xffff, 16))];
        }
        let ghost tp = mmio.trace();
        mmio.rmw(self.base, CSI_REG_24, 0xffffffff, field_value(n0_ob as u32, 0xffff, 0) | field_value(n1_ob as u32, 0xffff, 16));
        proof {
            lemma_rmws_append(t0, tp, mmio.trace(), acc, seq![(self.base(), CSI_REG_24, 0xffffffff, field_bits(n0_ob as u32, 0xffff, 0) | field_bits(n1_ob as u32, 0xffff, 16))]);
            acc = acc + seq![(self.base(), CSI_REG_24, 0xffffffff, field_bits(n0_ob as u32, 0xffff, 0) | field_bits(n1_ob as u32, 0xffff, 16))];
        }
        proof {
            assert(acc =~= configure_hdr_sef2_id_steps(self.base(), n0_active, n1_active, n0_ob, n1_ob));
        }
    }

    /// Sets black level calibration: enable, data type and format.
    pub fn configure_blc<B: RegisterBus>(&self, mmio: &mut Mmio<B>, enable: bool, data_type: u8, format: RawDataType)
        ensures
            rmws(old(mmio).trace(), final(mmio).trace(), configure_blc_steps(self.base(), enable, data_type, format)),
    {
        let ghost t0 = mmio.trace();
        let ghost mut acc: Seq<(usize, usize, u32, u32)> = Seq::empty();
        proof {
            assert(mmio.trace().take(t0.len() as int) =~= t0);
        }
        let ghost tp = mmio.trace();
        mmio.rmw(self.base, CSI_REG_14, 0x713f, field_value(bit_of(enable), 0x1, 8) | field_value(data_type as u32, 0x3f, 0) | field_value(format.blc_format() as u32, 0x7, 12));
        proof {
            lemma_rmws_append(t0, tp, mmio.trace(), acc, seq![(self.base(), CSI_REG_14, 0x713f, field_bits(bit(enable), 0x1, 8) | field_bits(data_type as u32, 0x3f, 0) | field_bits(blc_format_of(format) as u32, 0x7, 12))]);
            acc = acc + seq![(self.base(), CSI_REG_14, 0x713f, field_bits(bit(enable), 0x1, 8) | field_bits(data_type as u32, 0x3f, 0) | field_bits(blc_format_of(format) as u32, 0x7, 12))];
        }
        proof {
            assert(acc =~= configure_blc_steps(self.base(), enable, data_type, format));
        }
    }

    /// Sets the virtual channel of each output channel.
    pub fn configure_vc_mapping<B: RegisterBus>(&self, mmio: &mut Mmio<B>, mapping: &VcMapping)
        ensures
            rmws(old(mmio).trace(), final(mmio).trace(), configure_vc_mapping_steps(self.base(), mapping)),
    {
        let ghost t0 = mmio.trace();
        let ghost mut acc: Seq<(usize, usize, u32, u32)> = Seq::empty();
        proof {
            assert(mmio.trace().take(t0.len() as int) =~= t0);
        }
        let ghost tp = mmio.trace();
        mmio.rmw(self.base, CSI_REG_18, 0xffff, field_value(mapping.ch00 as u32, 0xf, 0) | field_value(mapping.ch01 as u32, 0xf, 4) | field_value(mapping.ch10 as u32, 0xf, 8) | field_value(mapping.ch11 as u32, 0xf, 12));
        proof {
            lemma_rmws_append(t0, tp, mmio.trace(), acc, seq![(self.base(), CSI_REG_18, 0xffff, field_bits(mapping.ch00 as u32, 0xf, 0) | field_bits(mapping.ch01 as u32, 0xf, 4) | field_bits(mapping.ch10 as u32, 0xf, 8) | field_bits(mapping.ch11 as u32, 0xf, 12))]);
            acc = acc + seq![(self.base(), CSI_REG_18, 0xffff, field_bits(mapping.ch00 as u32, 0xf, 0) | field_bits(mapping.ch01 as u32, 0xf, 4) | field_bits(mapping.ch10 as u32, 0xf, 8) | field_bits(mapping.ch11 as u32, 0xf, 12))];
        }
        proof {
            assert(acc =~= configure_vc_mapping_steps(self.base(), mapping));
        }
    }

    /// Sets what generates vertical sync.
    pub fn set_vs_gen_mode<B: RegisterBus>(&self, mmio: &mut Mmio<B>, mode: VsGenMode)
        ensures
            rmws(old(mmio).trace(), final(mmio).trace(), set_vs_gen_mode_steps(self.base(), mode)),
    {
        let ghost t0 = mmio.trace();
        let ghost mut acc: Seq<(usize, usize, u32, u32)> = Seq::empty();
        proof {
            assert(mmio.trace().take(t0.len() as int) =~= t0);
        }
        let ghost tp = mmio.trace();
        mmio.rmw(self.base, CSI_REG_70, 0x3, field_value(mode.value() as u32, 0x3, 0));
        proof {
            lemma_rmws_append(t0, tp, mmio.trace(), acc, seq![(self.base(), CSI_REG_70, 0x3, field_bits(vs_gen_mode_value(mode) as u32, 0x3, 0))]);
            acc = acc + seq![(self.base(), CSI_REG_70, 0x3, field_bits(vs_gen_mode_value(mode) as u32, 0x3, 0))];
        }
        proof {
            assert(acc =~= set_vs_gen_mode_steps(self.base(), mode));
        }
    }

    /// Sets whether vertical sync follows the VC set.
    pub fn set_vs_gen_by_vcset<B: RegisterBus>(&self, mmio: &mut Mmio<B>, by_vcset: bool)
        ensures
            rmws(old(mmio).trace(), final(mmio).trace(), set_vs_gen_by_vcset_steps(self.base(), by_vcset)),
    {
        let ghost t0 = mmio.trace();
        let ghost mut acc: Seq<(usize, usize, u32, u32)> = Seq::empty();
        proof {
            assert(mmio.trace().take(t0.len() as int) =~= t0);
        }
        let ghost tp = mmio.trace();
        mmio.rmw(self.base, CSI_REG_70, 0x10, field_value(bit_of(by_vcset), 0x1, 4));
        proof {
            lemma_rmws_append(t0, tp, mmio.trace(), acc, seq![(self.base(), CSI_REG_70, 0x10, field_bits(bit(by_vcset), 0x1, 4))]);
            acc = acc + seq![(self.base(), CSI_REG_70, 0x10, field_bits(bit(by_vcset), 0x1, 4))];
        }
        proof {
            assert(acc =~= set_vs_gen_by_vcset_steps(self.base(), by_vcset));
        }
    }

    /// The lane mode field (2 lanes when it holds no lane mode).
    pub fn get_lane_mode<B: RegisterBus>(&self, mmio: &mut Mmio<B>) -> (m: LaneMode)
        ensures
            read_next(old(mmio).trace(), final(mmio).trace(), self.base(), CSI_REG_00),
            ({
                let f = (read_at(final(mmio).trace(), old(mmio).trace().len() as int) & 0x7) as u8;
                &&& (f == 0 || f == 1 || f == 3 || f == 7) ==> lane_mode_value(m) == f
                &&& !(f == 0 || f == 1 || f == 3 || f == 7) ==> m == LaneMode::Lane2
            }),
    {
        let v = mmio.read32(self.base, CSI_REG_00);
        assert(read_at(mmio.trace(), old(mmio).trace().len() as int) == v);
        match LaneMode::from_u8((v & 0x7) as u8) {
            Some(m) => m,
            None => LaneMode::Lane2,
        }
    }

    /// The interrupt status.
    pub fn get_interrupt_status<B: RegisterBus>(&self, mmio: &mut Mmio<B>) -> (s: CsiInterruptStatus)
        ensures
            read_next(old(mmio).trace(), final(mmio).trace(), self.base(), CSI_REG_60),
            s == interrupt_status_of((read_at(final(mmio).trace(), old(mmio).trace().len() as int) & 0xff) as u8),
    {
        let v = mmio.read32(self.base, CSI_REG_60);
        assert(read_at(mmio.trace(), old(mmio).trace().len() as int) == v);
        CsiInterruptStatus::from((v & 0xff) as u8)
    }

    /// The decoder status.
    pub fn get_status<B: RegisterBus>(&self, mmio: &mut Mmio<B>) -> (s: CsiStatus)
        ensures
            read_next(old(mmio).trace(), final(mmio).trace(), self.base(), CSI_REG_40),
            s == csi_status_of(read_at(final(mmio).trace(), old(mmio).trace().len() as int)),
    {
        let reg = mmio.read32(self.base, CSI_REG_40);
        assert(read_at(mmio.trace(), old(mmio).trace().len() as int) == reg);
        CsiStatus {
            ecc_no_error: (reg & 0x01) != 0,
            ecc_corrected: (reg & 0x02) != 0,
            ecc_error: (reg & 0x04) != 0,
            crc_error: (reg & 0x10) != 0,
            wc_error: (reg & 0x20) != 0,
            fifo_full: (reg & 0x100) != 0,
            decode_format: ((reg >> 16) & 0x3F) as u8,
        }
    }

    /// Whether the decoder status shows an error.
    pub fn has_error<B: RegisterBus>(&self, mmio: &mut Mmio<B>) -> (b: bool)
        ensures
            read_next(old(mmio).trace(), final(mmio).trace(), self.base(), CSI_REG_40),
            ({
                let s = csi_status_of(read_at(final(mmio).trace(), old(mmio).trace().len() as int));
                b == (s.ecc_error || s.crc_error || s.wc_error || s.fifo_full)
            }),
    {
        self.get_status(mmio).has_error()
    }

    /// The data format the decoder saw.
    pub fn get_decode_format<B: RegisterBus>(&self, mmio: &mut Mmio<B>) -> (f: u8)
        ensures
            read_next(old(mmio).trace(), final(mmio).trace(), self.base(), CSI_REG_40),
            f == ((read_at(final(mmio).trace(), old(mmio).trace().len() as int) >> 16u32) & 0x3F) as u8,
    {
        let v = mmio.read32(self.base, CSI_REG_40);
        assert(read_at(mmio.trace(), old(mmio).trace().len() as int) == v);
        ((v >> 16) & 0x3F) as u8
    }

    /// Maps output channel `n` to virtual channel `n`.
    pub fn set_default_vc_mapping<B: RegisterBus>(&self, mmio: &mut Mmio<B>)
        ensures
            rmws(old(mmio).trace(), final(mmio).trace(), set_default_vc_mapping_steps(self.base())),
    {
        let m = VcMapping::default_passthrough();
        self.configure_vc_mapping(mmio, &m);
    }

    /// Applies a device's attributes: lane mode, default channel mapping,
    /// the HDR mode (by data type also its formats), VS from frame start and
    /// end, interrupts cleared.
    pub fn apply_dev_attr<B: RegisterBus>(&self, mmio: &mut Mmio<B>, attr: &MipiRxDevAttr) -> (r: Result<(), MipiRxError>)
        ensures
            r is Ok,
            rmws(old(mmio).trace(), final(mmio).trace(), apply_dev_attr_steps(self.base(), *attr)),
    {
        let ghost t0 = mmio.trace();
        let ghost b = self.base();
        proof {
            assert(mmio.trace().take(t0.len() as int) =~= t0);
        }
        let ghost mut acc: Seq<(usize, usize, u32, u32)> = Seq::empty();
        let ghost tp = mmio.trace();
        self.set_lane_mode(mmio, attr.lane_mode);
        proof { lemma_rmws_append(t0, tp, mmio.trace(), acc, set_lane_mode_steps(b, attr.lane_mode)); acc = acc + set_lane_mode_steps(b, attr.lane_mode); }
        let ghost tp = mmio.trace();
        self.set_default_vc_mapping(mmio);
        proof { lemma_rmws_append(t0, tp, mmio.trace(), acc, set_default_vc_mapping_steps(b)); acc = acc + set_default_vc_mapping_steps(b); }
        let ghost ta = acc;
        match attr.hdr_mode {
            HdrMode::Off => {
                let ghost tp = mmio.trace();
                self.set_hdr_mode(mmio, false, false);
                proof { lemma_rmws_append(t0, tp, mmio.trace(), acc, set_hdr_mode_steps(b, false, false)); acc = acc + set_hdr_mode_steps(b, false, false); }
            },
            HdrMode::Vc => {
                let ghost tp = mmio.trace();
                self.set_hdr_mode(mmio, true, false);
                proof { lemma_rmws_append(t0, tp, mmio.trace(), acc, set_hdr_mode_steps(b, true, false)); acc = acc + set_hdr_mode_steps(b, true, false); }
            },
            HdrMode::Id => {
                let ghost tp = mmio.trace();
                self.set_hdr_mode(mmio, true, true);
                proof { lemma_rmws_append(t0, tp, mmio.trace(), acc, set_hdr_mode_steps(b, true, true)); acc = acc + set_hdr_mode_steps(b, true, true); }
            },
            HdrMode::Dt => {
                let ghost tp = mmio.trace();
                self.set_hdr_mode(mmio, true, false);
                proof { lemma_rmws_append(t0, tp, mmio.trace(), acc, set_hdr_mode_steps(b, true, false)); acc = acc + set_hdr_mode_steps(b, true, false); }
                let fmt = attr.data_type.blc_format();
                let dt = attr.data_type.csi_data_type();
                let ghost tp = mmio.trace();
                self.configure_hdr_dt(mmio, true, fmt, dt, dt);
                proof {
                    lemma_rmws_append(t0, tp, mmio.trace(), acc, configure_hdr_dt_steps(b, true, fmt, dt, dt));
                    acc = acc + configure_hdr_dt_steps(b, true, fmt, dt, dt);
                    assert(acc =~= ta + hdr_steps(b, *attr));
                }
            },
            _ => {
                proof {
                    assert(acc =~= ta + hdr_steps(b, *attr));
                }
            },
        }
        proof {
            assert(acc =~= ta + hdr_steps(b, *attr));
        }
        let ghost tp = mmio.trace();
        self.set_vs_gen_mode(mmio, VsGenMode::ByFsFe);
        proof { lemma_rmws_append(t0, tp, mmio.trace(), acc, set_vs_gen_mode_steps(b, VsGenMode::ByFsFe)); acc = acc + set_vs_gen_mode_steps(b, VsGenMode::ByFsFe); }
        let ghost tp = mmio.trace();
        self.clear_all_interrupts(mmio);
        proof {
            lemma_rmws_append(t0, tp, mmio.trace(), acc, clear_all_interrupts_steps(b));
            acc = acc + clear_all_interrupts_steps(b);
            assert(acc =~= apply_dev_attr_steps(b, *attr));
        }
        Ok(())
    }

    /// Puts the controller in its default state: 2 lanes, ECC honoured, no
    /// VC check, no line start packets, no HDR (other and OB IDs removed),
    /// default channel mapping, VS from frame start and end, interrupts
    /// cleared and masked.
    pub fn init<B: RegisterBus>(&self, mmio: &mut Mmio<B>)
        ensures
            rmws(old(mmio).trace(), final(mmio).trace(), csi_init_steps(self.base())),
    {
        let ghost t0 = mmio.trace();
        let ghost b = self.base();
        proof {
            assert(mmio.trace().take(t0.len() as int) =~= t0);
        }
        let ghost mut acc: Seq<(usize, usize, u32, u32)> = Seq::empty();
        let ghost tp = mmio.trace();
        self.set_lane_mode(mmio, LaneMode::Lane2);
        proof { lemma_rmws_append(t0, tp, mmio.trace(), acc, set_lane_mode_steps(b, LaneMode::Lane2)); acc = acc + set_lane_mode_steps(b, LaneMode::Lane2); }
        let ghost tp = mmio.trace();
        self.set_ignore_ecc(mmio, false);
        proof { lemma_rmws_append(t0, tp, mmio.trace(), acc, set_ignore_ecc_steps(b, false)); acc = acc + set_ignore_ecc_steps(b, false); }
        let ghost tp = mmio.trace();
        self.set_vc_check(mmio, false, 0);
        proof { lemma_rmws_append(t0, tp, mmio.trace(), acc, set_vc_check_steps(b, false, 0)); acc = acc + set_vc_check_steps(b, false, 0); }
        let ghost tp = mmio.trace();
        self.set_line_start_sent(mmio, false);
        proof { lemma_rmws_append(t0, tp, mmio.trace(), acc, set_line_start_sent_steps(b, false)); acc = acc + set_line_start_sent_steps(b, false); }
        let ghost tp = mmio.trace();
        self.set_hdr_mode(mmio, false, false);
        proof { lemma_rmws_append(t0, tp, mmio.trace(), acc, set_hdr_mode_steps(b, false, false)); acc = acc + set_hdr_mode_steps(b, false, false); }
        let ghost tp = mmio.trace();
        self.set_hdr_id_remove(mmio, true, true);
        proof { lemma_rmws_append(t0, tp, mmio.trace(), acc, set_hdr_id_remove_steps(b, true, true)); acc = acc + set_hdr_id_remove_steps(b, true, true); }
        let ghost tp = mmio.trace();
        self.set_default_vc_mapping(mmio);
        proof { lemma_rmws_append(t0, tp, mmio.trace(), acc, set_default_vc_mapping_steps(b)); acc = acc + set_default_vc_mapping_steps(b); }
        let ghost tp = mmio.trace();
        self.set_vs_gen_mode(mmio, VsGenMode::ByFsFe);
        proof { lemma_rmws_append(t0, tp, mmio.trace(), acc, set_vs_gen_mode_steps(b, VsGenMode::ByFsFe)); acc = acc + set_vs_gen_mode_steps(b, VsGenMode::ByFsFe); }
        let ghost tp = mmio.trace();
        self.clear_all_interrupts(mmio);
        proof { lemma_rmws_append(t0, tp, mmio.trace(), acc, clear_all_interrupts_steps(b)); acc = acc + clear_all_interrupts_steps(b); }
        let ghost tp = mmio.trace();
        self.set_interrupt_mask(mmio, 0x1F);
        proof { lemma_rmws_append(t0, tp, mmio.trace(), acc, set_interrupt_mask_steps(b, 0x1F)); acc = acc + set_interrupt_mask_steps(b, 0x1F); }
    }

    /// Clears every interrupt, then [`Self::init`].
    pub fn reset<B: RegisterBus>(&self, mmio: &mut Mmio<B>)
        ensures
            rmws(old(mmio).trace(), final(mmio).trace(), clear_all_interrupts_steps(self.base()) + csi_init_steps(self.base())),
    {
        let ghost t0 = mmio.trace();
        self.clear_all_interrupts(mmio);
        let ghost t1 = mmio.trace();
        self.init(mmio);
        proof {
            lemma_rmws_append(t0, t1, mmio.trace(), clear_all_interrupts_steps(self.base()), csi_init_steps(self.base()));
        }
    }
}

} // verus!
