//! Types of the MIPI receiver: modes, lane settings, stream formats, device
//! attributes and status words.
use vstd::prelude::*;

verus! {

/// Errors of the MIPI receiver.
#[derive(Debug, Clone, Copy, PartialEq, Eq, Structural)]
pub enum MipiRxError {
    InvalidDevno,
    InvalidLaneConfig,
    InvalidDataType,
    InvalidPhyMode,
    ConfigError,
    EccError,
    CrcError,
    FifoFull,
    Timeout,
    Busy,
}

/// PHY lane arrangement: one clock and four data lanes, or two ports of one clock and two data lanes.
#[derive(Debug, Clone, Copy, PartialEq, Eq, Structural)]
#[allow(non_camel_case_types)]
pub enum PhyMode {
    Mode1C4D,
    Mode1C2D_1C2D,
}

/// The register encoding of a PhyMode.
pub open spec fn phy_mode_value(x: PhyMode) -> u8 {
    match x {
        PhyMode::Mode1C4D => 0,
        PhyMode::Mode1C2D_1C2D => 1,
    }
}

impl PhyMode {
    /// The register encoding.
    pub fn value(self) -> (v: u8)
        ensures
            v == phy_mode_value(self),
    {
        match self {
            PhyMode::Mode1C4D => 0,
            PhyMode::Mode1C2D_1C2D => 1,
        }
    }

    /// The value whose encoding is `value`, if any.
    pub fn from_u8(value: u8) -> (r: Option<Self>)
        ensures
            r matches Some(m) ==> phy_mode_value(m) == value,
            r is None <==> (value != 0 && value != 1),
    {
        match value {
            0 => Some(PhyMode::Mode1C4D),
            1 => Some(PhyMode::Mode1C2D_1C2D),
            _ => None,
        }
    }
}

impl Default for PhyMode {
    fn default() -> (d: Self)
        ensures
            d == PhyMode::Mode1C4D,
    {
        PhyMode::Mode1C4D
    }
}

/// Physical protocol of a port.
#[derive(Debug, Clone, Copy, PartialEq, Eq, Structural)]
pub enum SensorMode {
    Csi,
    SubLvds,
    Slvsec,
}

/// The register encoding of a SensorMode.
pub open spec fn sensor_mode_value(x: SensorMode) -> u8 {
    match x {
        SensorMode::Csi => 0,
        SensorMode::SubLvds => 1,
        SensorMode::Slvsec => 2,
    }
}

impl SensorMode {
    /// The register encoding.
    pub fn value(self) -> (v: u8)
        ensures
            v == sensor_mode_value(self),
    {
        match self {
            SensorMode::Csi => 0,
            SensorMode::SubLvds => 1,
            SensorMode::Slvsec => 2,
        }
    }

    /// The value whose encoding is `value`, if any.
    pub fn from_u8(value: u8) -> (r: Option<Self>)
        ensures
            r matches Some(m) ==> sensor_mode_value(m) == value,
            r is None <==> (value != 0 && value != 1 && value != 2),
    {
        match value {
            0 => Some(SensorMode::Csi),
            1 => Some(SensorMode::SubLvds),
            2 => Some(SensorMode::Slvsec),
            _ => None,
        }
    }
}

impl Default for SensorMode {
    fn default() -> (d: Self)
        ensures
            d == SensorMode::Csi,
    {
        SensorMode::Csi
    }
}

/// CSI data lane count, as the lane mode field encodes it.
#[derive(Debug, Clone, Copy, PartialEq, Eq, Structural)]
pub enum LaneMode {
    Lane1,
    Lane2,
    Lane4,
    Lane8,
}

/// The register encoding of a LaneMode.
pub open spec fn lane_mode_value(x: LaneMode) -> u8 {
    match x {
        LaneMode::Lane1 => 0,
        LaneMode::Lane2 => 1,
        LaneMode::Lane4 => 3,
        LaneMode::Lane8 => 7,
    }
}

impl LaneMode {
    /// The register encoding.
    pub fn value(self) -> (v: u8)
        ensures
            v == lane_mode_value(self),
    {
        match self {
            LaneMode::Lane1 => 0,
            LaneMode::Lane2 => 1,
            LaneMode::Lane4 => 3,
            LaneMode::Lane8 => 7,
        }
    }

    /// The value whose encoding is `value`, if any.
    pub fn from_u8(value: u8) -> (r: Option<Self>)
        ensures
            r matches Some(m) ==> lane_mode_value(m) == value,
            r is None <==> (value != 0 && value != 1 && value != 3 && value != 7),
    {
        match value {
            0 => Some(LaneMode::Lane1),
            1 => Some(LaneMode::Lane2),
            3 => Some(LaneMode::Lane4),
            7 => Some(LaneMode::Lane8),
            _ => None,
        }
    }

    /// Number of data lanes.
    pub fn lane_count(&self) -> (n: u8)
        ensures
            n == match *self {
                LaneMode::Lane1 => 1u8,
                LaneMode::Lane2 => 2,
                LaneMode::Lane4 => 4,
                LaneMode::Lane8 => 8,
            },
    {
        match self {
            LaneMode::Lane1 => 1,
            LaneMode::Lane2 => 2,
            LaneMode::Lane4 => 4,
            LaneMode::Lane8 => 8,
        }
    }
}

impl Default for LaneMode {
    fn default() -> (d: Self)
        ensures
            d == LaneMode::Lane2,
    {
        LaneMode::Lane2
    }
}

/// A PHY lane.
#[derive(Debug, Clone, Copy, PartialEq, Eq, Structural)]
pub enum LaneId {
    Lane0,
    Lane1,
    Lane2,
    Lane3,
    Lane4,
    Lane5,
}

/// The register encoding of a LaneId.
pub open spec fn lane_id_value(x: LaneId) -> u8 {
    match x {
        LaneId::Lane0 => 0,
        LaneId::Lane1 => 1,
        LaneId::Lane2 => 2,
        LaneId::Lane3 => 3,
        LaneId::Lane4 => 4,
        LaneId::Lane5 => 5,
    }
}

impl LaneId {
    /// The register encoding.
    pub fn value(self) -> (v: u8)
        ensures
            v == lane_id_value(self),
    {
        match self {
            LaneId::Lane0 => 0,
            LaneId::Lane1 => 1,
            LaneId::Lane2 => 2,
            LaneId::Lane3 => 3,
            LaneId::Lane4 => 4,
            LaneId::Lane5 => 5,
        }
    }

    /// The value whose encoding is `value`, if any.
    pub fn from_u8(value: u8) -> (r: Option<Self>)
        ensures
            r matches Some(m) ==> lane_id_value(m) == value,
            r is None <==> (value != 0 && value != 1 && value != 2 && value != 3 && value != 4 && value != 5),
    {
        match value {
            0 => Some(LaneId::Lane0),
            1 => Some(LaneId::Lane1),
            2 => Some(LaneId::Lane2),
            3 => Some(LaneId::Lane3),
            4 => Some(LaneId::Lane4),
            5 => Some(LaneId::Lane5),
            _ => None,
        }
    }
}

/// Data lanes with deskew enabled, as a lane bit mask.
#[derive(Debug, Clone, Copy, PartialEq, Eq, Structural)]
pub enum DeskewLaneEnable {
    NoLanes,
    Lane1,
    Lane2,
    Lane4,
}

/// The register encoding of a DeskewLaneEnable.
pub open spec fn deskew_lane_enable_value(x: DeskewLaneEnable) -> u8 {
    match x {
        DeskewLaneEnable::NoLanes => 0,
        DeskewLaneEnable::Lane1 => 1,
        DeskewLaneEnable::Lane2 => 3,
        DeskewLaneEnable::Lane4 => 15,
    }
}

impl DeskewLaneEnable {
    /// The register encoding.
    pub fn value(self) -> (v: u8)
        ensures
            v == deskew_lane_enable_value(self),
    {
        match self {
            DeskewLaneEnable::NoLanes => 0,
            DeskewLaneEnable::Lane1 => 1,
            DeskewLaneEnable::Lane2 => 3,
            DeskewLaneEnable::Lane4 => 15,
        }
    }

    /// The value whose encoding is `value`, if any.
    pub fn from_u8(value: u8) -> (r: Option<Self>)
        ensures
            r matches Some(m) ==> deskew_lane_enable_value(m) == value,
            r is None <==> (value != 0 && value != 1 && value != 3 && value != 15),
    {
        match value {
            0 => Some(DeskewLaneEnable::NoLanes),
            1 => Some(DeskewLaneEnable::Lane1),
            3 => Some(DeskewLaneEnable::Lane2),
            15 => Some(DeskewLaneEnable::Lane4),
            _ => None,
        }
    }
}

impl Default for DeskewLaneEnable {
    fn default() -> (d: Self)
        ensures
            d == DeskewLaneEnable::NoLanes,
    {
        DeskewLaneEnable::NoLanes
    }
}

/// Pixel format of the stream.
#[derive(Debug, Clone, Copy, PartialEq, Eq, Structural)]
#[allow(non_camel_case_types)]
pub enum RawDataType {
    Raw8,
    Raw10,
    Raw12,
    Raw16,
    Yuv422_8bit,
    Yuv422_10bit,
}

/// The register encoding of a RawDataType.
pub open spec fn raw_data_type_value(x: RawDataType) -> u8 {
    match x {
        RawDataType::Raw8 => 0,
        RawDataType::Raw10 => 1,
        RawDataType::Raw12 => 2,
        RawDataType::Raw16 => 3,
        RawDataType::Yuv422_8bit => 4,
        RawDataType::Yuv422_10bit => 5,
    }
}

impl RawDataType {
    /// The register encoding.
    pub fn value(self) -> (v: u8)
        ensures
            v == raw_data_type_value(self),
    {
        match self {
            RawDataType::Raw8 => 0,
            RawDataType::Raw10 => 1,
            RawDataType::Raw12 => 2,
            RawDataType::Raw16 => 3,
            RawDataType::Yuv422_8bit => 4,
            RawDataType::Yuv422_10bit => 5,
        }
    }

    /// The value whose encoding is `value`, if any.
    pub fn from_u8(value: u8) -> (r: Option<Self>)
        ensures
            r matches Some(m) ==> raw_data_type_value(m) == value,
            r is None <==> (value != 0 && value != 1 && value != 2 && value != 3 && value != 4 && value != 5),
    {
        match value {
            0 => Some(RawDataType::Raw8),
            1 => Some(RawDataType::Raw10),
            2 => Some(RawDataType::Raw12),
            3 => Some(RawDataType::Raw16),
            4 => Some(RawDataType::Yuv422_8bit),
            5 => Some(RawDataType::Yuv422_10bit),
            _ => None,
        }
    }

    /// The CSI-2 data type code of the format.
    pub fn csi_data_type(&self) -> (dt: u8)
        ensures
            dt == csi_data_type_of(*self),
    {
        match self {
            RawDataType::Raw8 => 0x2A,
            RawDataType::Raw10 => 0x2B,
            RawDataType::Raw12 => 0x2C,
            RawDataType::Raw16 => 0x2E,
            RawDataType::Yuv422_8bit => 0x1E,
            RawDataType::Yuv422_10bit => 0x1F,
        }
    }

    /// The black level calibration format code of the format.
    pub fn blc_format(&self) -> (f: u8)
        ensures
            f == blc_format_of(*self),
    {
        match self {
            RawDataType::Yuv422_8bit => 0,
            RawDataType::Yuv422_10bit => 1,
            RawDataType::Raw8 => 2,
            RawDataType::Raw10 => 3,
            RawDataType::Raw12 => 4,
            RawDataType::Raw16 => 5,
        }
    }
}

impl Default for RawDataType {
    fn default() -> (d: Self)
        ensures
            d == RawDataType::Raw10,
    {
        RawDataType::Raw10
    }
}

/// Sub-LVDS pixel width.
#[derive(Debug, Clone, Copy, PartialEq, Eq, Structural)]
pub enum SubLvdsBitMode {
    Bit8,
    Bit10,
    Bit12,
}

/// The register encoding of a SubLvdsBitMode.
pub open spec fn sub_lvds_bit_mode_value(x: SubLvdsBitMode) -> u8 {
    match x {
        SubLvdsBitMode::Bit8 => 0,
        SubLvdsBitMode::Bit10 => 1,
        SubLvdsBitMode::Bit12 => 2,
    }
}

impl SubLvdsBitMode {
    /// The register encoding.
    pub fn value(self) -> (v: u8)
        ensures
            v == sub_lvds_bit_mode_value(self),
    {
        match self {
            SubLvdsBitMode::Bit8 => 0,
            SubLvdsBitMode::Bit10 => 1,
            SubLvdsBitMode::Bit12 => 2,
        }
    }

    /// The value whose encoding is `value`, if any.
    pub fn from_u8(value: u8) -> (r: Option<Self>)
        ensures
            r matches Some(m) ==> sub_lvds_bit_mode_value(m) == value,
            r is None <==> (value != 0 && value != 1 && value != 2),
    {
        match value {
            0 => Some(SubLvdsBitMode::Bit8),
            1 => Some(SubLvdsBitMode::Bit10),
            2 => Some(SubLvdsBitMode::Bit12),
            _ => None,
        }
    }
}

impl Default for SubLvdsBitMode {
    fn default() -> (d: Self)
        ensures
            d == SubLvdsBitMode::Bit10,
    {
        SubLvdsBitMode::Bit10
    }
}

/// How HDR exposures are told apart.
#[derive(Debug, Clone, Copy, PartialEq, Eq, Structural)]
pub enum HdrMode {
    Off,
    Vc,
    Id,
    Dt,
    Dol,
    Manual,
}

/// The register encoding of a HdrMode.
pub open spec fn hdr_mode_value(x: HdrMode) -> u8 {
    match x {
        HdrMode::Off => 0,
        HdrMode::Vc => 1,
        HdrMode::Id => 2,
        HdrMode::Dt => 3,
        HdrMode::Dol => 4,
        HdrMode::Manual => 5,
    }
}

impl HdrMode {
    /// The register encoding.
    pub fn value(self) -> (v: u8)
        ensures
            v == hdr_mode_value(self),
    {
        match self {
            HdrMode::Off => 0,
            HdrMode::Vc => 1,
            HdrMode::Id => 2,
            HdrMode::Dt => 3,
            HdrMode::Dol => 4,
            HdrMode::Manual => 5,
        }
    }

    /// The value whose encoding is `value`, if any.
    pub fn from_u8(value: u8) -> (r: Option<Self>)
        ensures
            r matches Some(m) ==> hdr_mode_value(m) == value,
            r is None <==> (value != 0 && value != 1 && value != 2 && value != 3 && value != 4 && value != 5),
    {
        match value {
            0 => Some(HdrMode::Off),
            1 => Some(HdrMode::Vc),
            2 => Some(HdrMode::Id),
            3 => Some(HdrMode::Dt),
            4 => Some(HdrMode::Dol),
            5 => Some(HdrMode::Manual),
            _ => None,
        }
    }
}

impl Default for HdrMode {
    fn default() -> (d: Self)
        ensures
            d == HdrMode::Off,
    {
        HdrMode::Off
    }
}

/// What generates vertical sync: frame start, frame end, or both.
#[derive(Debug, Clone, Copy, PartialEq, Eq, Structural)]
pub enum VsGenMode {
    ByFs,
    ByFe,
    ByFsFe,
}

/// The register encoding of a VsGenMode.
pub open spec fn vs_gen_mode_value(x: VsGenMode) -> u8 {
    match x {
        VsGenMode::ByFs => 0,
        VsGenMode::ByFe => 1,
        VsGenMode::ByFsFe => 2,
    }
}

impl VsGenMode {
    /// The register encoding.
    pub fn value(self) -> (v: u8)
        ensures
            v == vs_gen_mode_value(self),
    {
        match self {
            VsGenMode::ByFs => 0,
            VsGenMode::ByFe => 1,
            VsGenMode::ByFsFe => 2,
        }
    }

    /// The mode a field value encodes (3 means both, as 2 does).
    pub fn from_u8(value: u8) -> (r: Option<Self>)
        ensures
            r matches Some(m) ==> vs_gen_mode_value(m) == if value == 3 { 2u8 } else { value },
            r is None <==> value > 3,
    {
        match value {
            0 => Some(VsGenMode::ByFs),
            1 => Some(VsGenMode::ByFe),
            2 | 3 => Some(VsGenMode::ByFsFe),
            _ => None,
        }
    }
}

impl Default for VsGenMode {
    fn default() -> (d: Self)
        ensures
            d == VsGenMode::ByFsFe,
    {
        VsGenMode::ByFsFe
    }
}

pub open spec fn csi_data_type_of(t: RawDataType) -> u8 {
    match t {
        RawDataType::Raw8 => 0x2A,
        RawDataType::Raw10 => 0x2B,
        RawDataType::Raw12 => 0x2C,
        RawDataType::Raw16 => 0x2E,
        RawDataType::Yuv422_8bit => 0x1E,
        RawDataType::Yuv422_10bit => 0x1F,
    }
}

pub open spec fn blc_format_of(t: RawDataType) -> u8 {
    match t {
        RawDataType::Yuv422_8bit => 0,
        RawDataType::Yuv422_10bit => 1,
        RawDataType::Raw8 => 2,
        RawDataType::Raw10 => 3,
        RawDataType::Raw12 => 4,
        RawDataType::Raw16 => 5,
    }
}

/// A CSI interrupt source.
#[derive(Debug, Clone, Copy, PartialEq, Eq, Structural)]
pub enum CsiInterrupt {
    EccError,
    CrcError,
    HdrIdError,
    WcError,
    FifoFull,
}

impl CsiInterrupt {
    /// The source's bit in the interrupt mask and status.
    pub fn mask(&self) -> (m: u8)
        ensures
            m == match *self {
                CsiInterrupt::EccError => 0x01u8,
                CsiInterrupt::CrcError => 0x02,
                CsiInterrupt::HdrIdError => 0x04,
                CsiInterrupt::WcError => 0x08,
                CsiInterrupt::FifoFull => 0x10,
            },
    {
        match self {
            CsiInterrupt::EccError => 0x01,
            CsiInterrupt::CrcError => 0x02,
            CsiInterrupt::HdrIdError => 0x04,
            CsiInterrupt::WcError => 0x08,
            CsiInterrupt::FifoFull => 0x10,
        }
    }
}

/// The interrupt status bits, one flag each.
#[derive(Debug, Clone, Copy, PartialEq, Eq, Structural)]
pub struct CsiInterruptStatus {
    pub ecc_error: bool,
    pub crc_error: bool,
    pub hdr_id_error: bool,
    pub wc_error: bool,
    pub fifo_full: bool,
}

pub open spec fn interrupt_status_of(value: u8) -> CsiInterruptStatus {
    CsiInterruptStatus {
        ecc_error: value & 0x01 != 0,
        crc_error: value & 0x02 != 0,
        hdr_id_error: value & 0x04 != 0,
        wc_error: value & 0x08 != 0,
        fifo_full: value & 0x10 != 0,
    }
}

impl Default for CsiInterruptStatus {
    fn default() -> (s: Self)
        ensures
            s == interrupt_status_of(0),
    {
        let s = CsiInterruptStatus { ecc_error: false, crc_error: false, hdr_id_error: false, wc_error: false, fifo_full: false };
        assert(s == interrupt_status_of(0)) by {
            assert(0u8 & 0x01 == 0 && 0u8 & 0x02 == 0 && 0u8 & 0x04 == 0 && 0u8 & 0x08 == 0 && 0u8 & 0x10 == 0) by (bit_vector);
        }
        s
    }
}

impl From<u8> for CsiInterruptStatus {
    fn from(value: u8) -> (s: Self) {
        CsiInterruptStatus {
            ecc_error: (value & 0x01) != 0,
            crc_error: (value & 0x02) != 0,
            hdr_id_error: (value & 0x04) != 0,
            wc_error: (value & 0x08) != 0,
            fifo_full: (value & 0x10) != 0,
        }
    }
}

impl vstd::std_specs::convert::FromSpecImpl<u8> for CsiInterruptStatus {
    open spec fn obeys_from_spec() -> bool {
        true
    }

    open spec fn from_spec(value: u8) -> Self {
        interrupt_status_of(value)
    }
}

impl CsiInterruptStatus {
    /// Whether any error flag is set.
    pub fn has_error(&self) -> (b: bool)
        ensures
            b == (self.ecc_error || self.crc_error || self.hdr_id_error || self.wc_error || self.fifo_full),
    {
        self.ecc_error || self.crc_error || self.hdr_id_error || self.wc_error || self.fifo_full
    }
}

/// Attributes of a CSI device.
#[derive(Debug, Clone, Copy)]
pub struct MipiRxDevAttr {
    pub devno: u8,
    pub sensor_mode: SensorMode,
    pub lane_mode: LaneMode,
    pub data_type: RawDataType,
    pub hdr_mode: HdrMode,
    /// PHY lane of data lanes 0 to 3 (negative: the lane's own index).
    pub lane_id: [i8; 4],
    pub clk_lane_sel: u8,
    /// P/N swap of data lanes 0 to 3 and of the clock lane.
    pub pn_swap: [bool; 5],
    pub img_width: u16,
    pub img_height: u16,
}

impl Default for MipiRxDevAttr {
    fn default() -> (a: Self)
        ensures
            a.devno == 0,
            a.sensor_mode == SensorMode::Csi,
            a.lane_mode == LaneMode::Lane2,
            a.data_type == RawDataType::Raw10,
            a.hdr_mode == HdrMode::Off,
            a.lane_id@ == seq![0i8, 0, 0, 0],
            a.clk_lane_sel == 0,
            a.pn_swap@ == seq![false, false, false, false, false],
            a.img_width == 0,
            a.img_height == 0,
    {
        let a = MipiRxDevAttr {
            devno: 0,
            sensor_mode: SensorMode::Csi,
            lane_mode: LaneMode::Lane2,
            data_type: RawDataType::Raw10,
            hdr_mode: HdrMode::Off,
            lane_id: [0; 4],
            clk_lane_sel: 0,
            pn_swap: [false; 5],
            img_width: 0,
            img_height: 0,
        };
        assert(a.lane_id@ =~= seq![0i8, 0, 0, 0]);
        assert(a.pn_swap@ =~= seq![false, false, false, false, false]);
        a
    }
}

/// Attributes of a sub-LVDS device.
#[derive(Debug, Clone, Copy, PartialEq, Eq, Structural)]
pub struct SubLvdsDevAttr {
    pub devno: u8,
    pub bit_mode: SubLvdsBitMode,
    pub lane_enable: u8,
    pub msb_first: bool,
    pub sav_1st: u16,
    pub sav_2nd: u16,
    pub sav_3rd: u16,
    pub img_width: u16,
    pub img_height: u16,
}

impl Default for SubLvdsDevAttr {
    fn default() -> (a: Self)
        ensures
            a == (SubLvdsDevAttr {
                devno: 0,
                bit_mode: SubLvdsBitMode::Bit10,
                lane_enable: 0,
                msb_first: false,
                sav_1st: 0,
                sav_2nd: 0,
                sav_3rd: 0,
                img_width: 0,
                img_height: 0,
            }),
    {
        SubLvdsDevAttr {
            devno: 0,
            bit_mode: SubLvdsBitMode::Bit10,
            lane_enable: 0,
            msb_first: false,
            sav_1st: 0,
            sav_2nd: 0,
            sav_3rd: 0,
            img_width: 0,
            img_height: 0,
        }
    }
}

/// Virtual channel of each output channel.
#[derive(Debug, Clone, Copy, PartialEq, Eq, Structural)]
pub struct VcMapping {
    pub ch00: u8,
    pub ch01: u8,
    pub ch10: u8,
    pub ch11: u8,
}

impl VcMapping {
    /// Channel `n` carries virtual channel `n`.
    pub fn default_passthrough() -> (m: Self)
        ensures
            m == (VcMapping { ch00: 0, ch01: 1, ch10: 2, ch11: 3 }),
    {
        VcMapping { ch00: 0, ch01: 1, ch10: 2, ch11: 3 }
    }
}

impl Default for VcMapping {
    fn default() -> (m: Self)
        ensures
            m == (VcMapping { ch00: 0, ch01: 0, ch10: 0, ch11: 0 }),
    {
        VcMapping { ch00: 0, ch01: 0, ch10: 0, ch11: 0 }
    }
}

/// The CSI decoder status word, one flag each, and the decoded format.
#[derive(Debug, Clone, Copy, PartialEq, Eq, Structural)]
pub struct CsiStatus {
    pub ecc_no_error: bool,
    pub ecc_corrected: bool,
    pub ecc_error: bool,
    pub crc_error: bool,
    pub wc_error: bool,
    pub fifo_full: bool,
    pub decode_format: u8,
}

/// The status in register word `reg`.
pub open spec fn csi_status_of(reg: u32) -> CsiStatus {
    CsiStatus {
        ecc_no_error: reg & 0x01 != 0,
        ecc_corrected: reg & 0x02 != 0,
        ecc_error: reg & 0x04 != 0,
        crc_error: reg & 0x10 != 0,
        wc_error: reg & 0x20 != 0,
        fifo_full: reg & 0x100 != 0,
        decode_format: ((reg >> 16u32) & 0x3F) as u8,
    }
}

impl Default for CsiStatus {
    fn default() -> (s: Self)
        ensures
            s == (CsiStatus {
                ecc_no_error: false,
                ecc_corrected: false,
                ecc_error: false,
                crc_error: false,
                wc_error: false,
                fifo_full: false,
                decode_format: 0,
            }),
    {
        CsiStatus {
            ecc_no_error: false,
            ecc_corrected: false,
            ecc_error: false,
            crc_error: false,
            wc_error: false,
            fifo_full: false,
            decode_format: 0,
        }
    }
}

impl CsiStatus {
    /// Whether an ECC, CRC, word count or FIFO error is flagged.
    pub fn has_error(&self) -> (b: bool)
        ensures
            b == (self.ecc_error || self.crc_error || self.wc_error || self.fifo_full),
    {
        self.ecc_error || self.crc_error || self.wc_error || self.fifo_full
    }
}

pub const MAX_CSI_NUM: usize = 2;

pub const MAX_LANE_NUM: usize = 4;

pub const MAX_PHY_LANE_NUM: usize = 6;

pub const DEFAULT_HS_SETTLE: u8 = 0x08;

pub const DEFAULT_CLK_PHASE: u8 = 0x00;

} // verus!
