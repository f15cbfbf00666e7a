//! Driver for the GalaxyCore GC4653 4-megapixel CMOS sensor (2560x1440 at
//! 30 fps, RAW10 over two MIPI CSI-2 lanes), controlled over I2C: probing
//! by chip ID, the linear 1440p30 register sequence, exposure, analog and
//! digital gain, frame length (VTS), mirror and flip, standby.
//!
//! Every register write is one I2C write of the register's high and low
//! address bytes and the value; a sequence of them stops at the first
//! failed transfer.
use crate::i2c::instances::instance_base;
use crate::i2c::protocol::{read_cmds, write_cmds};
use crate::i2c::{init_trace, write_read_split, write_split, I2c, I2cAddressMode, I2cClockConfig, I2cError, I2cInstance, I2cSpeed};
use crate::mmio::{lemma_extend, lemma_ok_unit, BusOp, Mmio, RegisterBus};
use vstd::prelude::*;

verus! {

pub const GC4653_I2C_ADDR_DEFAULT: u8 = 0x10;

pub const GC4653_I2C_ADDR_ALT: u8 = 0x29;

pub const GC4653_CHIP_ID: u16 = 0x4653;

pub const GC4653_CHIP_ID_ADDR_H: u16 = 0x03f0;

pub const GC4653_CHIP_ID_ADDR_L: u16 = 0x03f1;

/// Largest exposure or frame length in lines (14 bits).
pub const GC4653_FULL_LINES_MAX: u16 = 0x3fff;

pub const REG_EXP_H: u16 = 0x0202;

pub const REG_EXP_L: u16 = 0x0203;

pub const REG_AGAIN_L: u16 = 0x02b3;

pub const REG_AGAIN_H: u16 = 0x02b4;

pub const REG_COL_AGAIN_H: u16 = 0x02b8;

pub const REG_COL_AGAIN_L: u16 = 0x02b9;

pub const REG_DGAIN_H: u16 = 0x020e;

pub const REG_DGAIN_L: u16 = 0x020f;

pub const REG_AGAIN_MAG1: u16 = 0x0515;

pub const REG_AGAIN_MAG2: u16 = 0x0519;

pub const REG_AGAIN_MAG3: u16 = 0x02d9;

pub const REG_VTS_H: u16 = 0x0340;

pub const REG_VTS_L: u16 = 0x0341;

pub const REG_MIRROR_FLIP: u16 = 0x0101;

pub const REG_FRAME_BUF: u16 = 0x031d;

pub const GC4653_SENSOR_ID: u16 = 4653;

pub const GC4653_VTS_DEFAULT: u16 = 1500;

pub const GC4653_HTS_DEFAULT: u16 = 2200;

pub const GC4653_WIDTH: u16 = 2560;

pub const GC4653_HEIGHT: u16 = 1440;

pub const GC4653_EXP_MIN: u16 = 1;

pub const GC4653_EXP_MAX: u16 = 0x3fff;

pub const GC4653_EXP_DEFAULT: u16 = 0x2000;

pub const GC4653_AGAIN_MIN: u32 = 1024;

pub const GC4653_AGAIN_MAX: u32 = 77648;

pub const GC4653_DGAIN_MIN: u32 = 1024;

pub const GC4653_DGAIN_MAX: u32 = 10240;

/// RAW10.
pub const GC4653_MIPI_DATA_TYPE: u8 = 0x2B;

pub const GC4653_MIPI_LANES: u8 = 2;

pub const GC4653_RX_MAC_CLK: u32 = 200_000_000;

pub const GC4653_MCLK_FREQ: u32 = 27_000_000;

/// Entries of the analog gain table.
pub const GAIN_TABLE_LEN: usize = 26;

pub const LINEAR_REGS_NUM: usize = 16;

/// The sensor's usual bus.
pub fn gc4653_default_i2c_instance() -> (i: I2cInstance)
    ensures
        i == I2cInstance::I2c3,
{
    I2cInstance::I2c3
}

#[derive(Debug, Clone, Copy, PartialEq, Eq, Structural)]
pub enum MipiInputMode {
    Mipi,
    SubLvds,
    HiSpi,
}

#[derive(Debug, Clone, Copy, PartialEq, Eq, Structural)]
pub enum MipiHdrMode {
    Off,
    Vc,
    Dt,
    Dol,
}

#[derive(Debug, Clone, Copy, PartialEq, Eq, Structural)]
pub enum RawDataType {
    Raw8,
    Raw10,
    Raw12,
}

impl RawDataType {
    /// The CSI-2 data type of the format.
    pub fn to_mipi_dt(self) -> (dt: u8)
        ensures
            dt == match self {
                RawDataType::Raw8 => 0x2Au8,
                RawDataType::Raw10 => 0x2B,
                RawDataType::Raw12 => 0x2C,
            },
    {
        match self {
            RawDataType::Raw8 => 0x2A,
            RawDataType::Raw10 => 0x2B,
            RawDataType::Raw12 => 0x2C,
        }
    }
}

/// MIPI receiver settings for the sensor.
#[derive(Debug, Clone, Copy)]
pub struct MipiRxAttr {
    pub input_mode: MipiInputMode,
    pub raw_data_type: RawDataType,
    /// Receiver lane of the clock and the data lanes (-1: unused).
    pub lane_id: [i8; 5],
    pub pn_swap: [bool; 5],
    pub hdr_mode: MipiHdrMode,
    pub devno: u8,
}

/// The settings of the board: MIPI, RAW10, clock on lane 2, data on lanes
/// 1 and 3, the three used lanes P/N swapped, no HDR, device 0.
pub open spec fn default_mipi_rx_attr(a: MipiRxAttr) -> bool {
    &&& a.input_mode == MipiInputMode::Mipi
    &&& a.raw_data_type == RawDataType::Raw10
    &&& a.lane_id@ == seq![2i8, 1, 3, -1i8, -1i8]
    &&& a.pn_swap@ == seq![true, true, true, false, false]
    &&& a.hdr_mode == MipiHdrMode::Off
    &&& a.devno == 0
}

impl Default for MipiRxAttr {
    fn default() -> (a: Self)
        ensures
            default_mipi_rx_attr(a),
    {
        let a = MipiRxAttr {
            input_mode: MipiInputMode::Mipi,
            raw_data_type: RawDataType::Raw10,
            lane_id: [2, 1, 3, -1, -1],
            pn_swap: [true, true, true, false, false],
            hdr_mode: MipiHdrMode::Off,
            devno: 0,
        };
        assert(a.lane_id@ =~= seq![2i8, 1, 3, -1i8, -1i8]);
        assert(a.pn_swap@ =~= seq![true, true, true, false, false]);
        a
    }
}

/// The registers the linear mode updates per frame.
#[derive(Debug, Clone, Copy, PartialEq, Eq, Structural)]
pub enum LinearRegs {
    ExpH,
    ExpL,
    AgainL,
    AgainH,
    ColAgainH,
    ColAgainL,
    AgainMag1,
    AgainMag2,
    AgainMag3,
    DgainH,
    DgainL,
    VtsH,
    VtsL,
    FrameBufOn,
    FlipMirror,
    FrameBufOff,
}

pub open spec fn linear_reg_addr(r: LinearRegs) -> u16 {
    match r {
        LinearRegs::ExpH => 0x0202,
        LinearRegs::ExpL => 0x0203,
        LinearRegs::AgainL => 0x02b3,
        LinearRegs::AgainH => 0x02b4,
        LinearRegs::ColAgainH => 0x02b8,
        LinearRegs::ColAgainL => 0x02b9,
        LinearRegs::AgainMag1 => 0x0515,
        LinearRegs::AgainMag2 => 0x0519,
        LinearRegs::AgainMag3 => 0x02d9,
        LinearRegs::DgainH => 0x020e,
        LinearRegs::DgainL => 0x020f,
        LinearRegs::VtsH => 0x0340,
        LinearRegs::VtsL => 0x0341,
        LinearRegs::FrameBufOn => 0x031d,
        LinearRegs::FrameBufOff => 0x031d,
        LinearRegs::FlipMirror => 0x0101,
    }
}

impl LinearRegs {
    /// The register's address.
    pub fn addr(self) -> (a: u16)
        ensures
            a == linear_reg_addr(self),
    {
        match self {
            LinearRegs::ExpH => 0x0202,
            LinearRegs::ExpL => 0x0203,
            LinearRegs::AgainL => 0x02b3,
            LinearRegs::AgainH => 0x02b4,
            LinearRegs::ColAgainH => 0x02b8,
            LinearRegs::ColAgainL => 0x02b9,
            LinearRegs::AgainMag1 => 0x0515,
            LinearRegs::AgainMag2 => 0x0519,
            LinearRegs::AgainMag3 => 0x02d9,
            LinearRegs::DgainH => 0x020e,
            LinearRegs::DgainL => 0x020f,
            LinearRegs::VtsH => 0x0340,
            LinearRegs::VtsL => 0x0341,
            LinearRegs::FrameBufOn => 0x031d,
            LinearRegs::FrameBufOff => 0x031d,
            LinearRegs::FlipMirror => 0x0101,
        }
    }
}

/// Image orientation (register 0x0101, bit 0 mirror, bit 1 flip).
#[derive(Debug, Clone, Copy, PartialEq, Eq, Structural)]
pub enum MirrorFlip {
    Normal,
    Mirror,
    Flip,
    MirrorFlip,
}

pub open spec fn mirror_flip_value(m: MirrorFlip) -> u8 {
    match m {
        MirrorFlip::Normal => 0,
        MirrorFlip::Mirror => 1,
        MirrorFlip::Flip => 2,
        MirrorFlip::MirrorFlip => 3,
    }
}

impl MirrorFlip {
    pub fn to_reg_value(self) -> (v: u8)
        ensures
            v == mirror_flip_value(self),
    {
        match self {
            MirrorFlip::Normal => 0,
            MirrorFlip::Mirror => 1,
            MirrorFlip::Flip => 2,
            MirrorFlip::MirrorFlip => 3,
        }
    }

    /// The orientation in the low two bits of `val`.
    pub fn from_reg_value(val: u8) -> (m: Self)
        ensures
            mirror_flip_value(m) == val & 0x03,
    {
        let v = val & 0x03;
        assert(v < 4) by (bit_vector)
            requires
                v == val & 0x03,
        ;
        match v {
            0 => MirrorFlip::Normal,
            1 => MirrorFlip::Mirror,
            2 => MirrorFlip::Flip,
            _ => MirrorFlip::MirrorFlip,
        }
    }
}

/// Reading back a written orientation gives it back: its register value
/// keeps its low two bits.
pub proof fn lemma_mirror_flip_round_trip(m: MirrorFlip)
    ensures
        mirror_flip_value(m) & 0x03 == mirror_flip_value(m),
{
    let v = mirror_flip_value(m);
    assert(v < 4 ==> v & 0x03 == v) by (bit_vector);
}

/// Errors of the driver.
#[derive(Debug, Clone, Copy, PartialEq, Eq, Structural)]
pub enum Gc4653Error {
    I2c(I2cError),
    InvalidChipId { expected: u16, found: u16 },
    OutOfRange,
    UnsupportedMode,
}

impl From<I2cError> for Gc4653Error {
    fn from(err: I2cError) -> (r: Self) {
        Gc4653Error::I2c(err)
    }
}

impl vstd::std_specs::convert::FromSpecImpl<I2cError> for Gc4653Error {
    open spec fn obeys_from_spec() -> bool {
        true
    }

    open spec fn from_spec(err: I2cError) -> Self {
        Gc4653Error::I2c(err)
    }
}

#[derive(Debug, Clone, Copy, PartialEq, Eq, Structural)]
pub enum SensorState {
    Uninitialized,
    Standby,
    Streaming,
}

impl Default for SensorState {
    fn default() -> (s: Self)
        ensures
            s == SensorState::Uninitialized,
    {
        SensorState::Uninitialized
    }
}

/// The three address-and-value bytes that write `data` to register `reg`.
pub open spec fn reg_bytes(reg: u16, data: u8) -> Seq<u8> {
    seq![(reg >> 8u16) as u8, (reg & 0xff) as u8, data]
}

/// `ops` is one I2C write of `bytes` to 7-bit address `addr` that ended
/// with `r`.
pub open spec fn i2c_tx(ops: Seq<BusOp>, base: usize, addr: u8, bytes: Seq<u8>, r: Result<(), I2cError>) -> bool {
    exists|a: int, b: int, c: int|
        #[trigger] write_split(ops, base, addr as u16, I2cAddressMode::SevenBit, write_cmds(bytes, true), r, a, b, c)
}

/// `ops` writes `regs` in order, one I2C write each, and stops at the first
/// failed one, whose error is `r`.
pub open spec fn reg_writes(ops: Seq<BusOp>, base: usize, addr: u8, regs: Seq<(u16, u8)>, r: Result<(), I2cError>) -> bool
    decreases regs.len(),
{
    if regs.len() == 0 {
        ops.len() == 0 && r is Ok
    } else {
        ||| exists|n: int|
            0 <= n <= ops.len() && reg_writes(ops.take(n), base, addr, regs.drop_last(), Ok(()))
                && #[trigger] i2c_tx(ops.skip(n), base, addr, reg_bytes(regs.last().0, regs.last().1), r)
        ||| (r is Err && reg_writes(ops, base, addr, regs.drop_last(), r))
    }
}

/// The I2C outcome behind a driver result.
pub open spec fn bus_result(r: Result<(), Gc4653Error>) -> Result<(), I2cError> {
    match r {
        Ok(_) => Ok(()),
        Err(Gc4653Error::I2c(e)) => Err(e),
        Err(_) => Err(I2cError::Nack),
    }
}

/// A failed write sequence stays failed however many registers follow.
proof fn lemma_reg_writes_stop(ops: Seq<BusOp>, base: usize, addr: u8, regs: Seq<(u16, u8)>, i: int, r: Result<(), I2cError>)
    requires
        0 <= i <= regs.len(),
        r is Err,
        reg_writes(ops, base, addr, regs.take(i), r),
    ensures
        reg_writes(ops, base, addr, regs, r),
    decreases regs.len() - i,
{
    if i < regs.len() {
        assert(regs.take(i + 1).drop_last() =~= regs.take(i));
        assert(reg_writes(ops, base, addr, regs.take(i + 1), r));
        lemma_reg_writes_stop(ops, base, addr, regs, i + 1, r);
    } else {
        assert(regs.take(i) =~= regs);
    }
}

/// Analog gain (1024 = 1x) of table entry `i`.
pub open spec fn gain_at(i: int) -> u32 {
    if i == 0 {
        1024
    } else if i == 1 {
        1200
    } else if i == 2 {
        1424
    } else if i == 3 {
        1696
    } else if i == 4 {
        2048
    } else if i == 5 {
        2416
    } else if i == 6 {
        2864
    } else if i == 7 {
        3392
    } else if i == 8 {
        4096
    } else if i == 9 {
        4848
    } else if i == 10 {
        5728
    } else if i == 11 {
        6784
    } else if i == 12 {
        8192
    } else if i == 13 {
        9696
    } else if i == 14 {
        11456
    } else if i == 15 {
        13584
    } else if i == 16 {
        16384
    } else if i == 17 {
        19408
    } else if i == 18 {
        22928
    } else if i == 19 {
        27168
    } else if i == 20 {
        32768
    } else if i == 21 {
        38816
    } else if i == 22 {
        45872
    } else if i == 23 {
        54352
    } else if i == 24 {
        65536
    } else {
        77648
    }
}

fn gain_table_entry(i: usize) -> (g: u32)
    requires
        i < GAIN_TABLE_LEN,
    ensures
        g == gain_at(i as int),
{
    match i {
        0 => 1024,
        1 => 1200,
        2 => 1424,
        3 => 1696,
        4 => 2048,
        5 => 2416,
        6 => 2864,
        7 => 3392,
        8 => 4096,
        9 => 4848,
        10 => 5728,
        11 => 6784,
        12 => 8192,
        13 => 9696,
        14 => 11456,
        15 => 13584,
        16 => 16384,
        17 => 19408,
        18 => 22928,
        19 => 27168,
        20 => 32768,
        21 => 38816,
        22 => 45872,
        23 => 54352,
        24 => 65536,
        _ => 77648,
    }
}

/// The seven register values (AGAIN_L, AGAIN_H, COL_AGAIN_H, COL_AGAIN_L,
/// MAG1, MAG2, MAG3) of gain table entry `i`.
pub open spec fn gain_regs_at(i: int) -> Seq<u8> {
    if i == 0 {
        seq![0x00u8, 0x00, 0x01, 0x00, 0x30, 0x1e, 0x5c]
    } else if i == 1 {
        seq![0x20u8, 0x00, 0x01, 0x0b, 0x30, 0x1e, 0x5c]
    } else if i == 2 {
        seq![0x01u8, 0x00, 0x01, 0x19, 0x30, 0x1d, 0x5b]
    } else if i == 3 {
        seq![0x21u8, 0x00, 0x01, 0x2a, 0x30, 0x1e, 0x5c]
    } else if i == 4 {
        seq![0x02u8, 0x00, 0x02, 0x00, 0x30, 0x1e, 0x5c]
    } else if i == 5 {
        seq![0x22u8, 0x00, 0x02, 0x17, 0x30, 0x1d, 0x5b]
    } else if i == 6 {
        seq![0x03u8, 0x00, 0x02, 0x33, 0x20, 0x16, 0x54]
    } else if i == 7 {
        seq![0x23u8, 0x00, 0x03, 0x14, 0x20, 0x17, 0x55]
    } else if i == 8 {
        seq![0x04u8, 0x00, 0x04, 0x00, 0x20, 0x17, 0x55]
    } else if i == 9 {
        seq![0x24u8, 0x00, 0x04, 0x2f, 0x20, 0x19, 0x57]
    } else if i == 10 {
        seq![0x05u8, 0x00, 0x05, 0x26, 0x20, 0x19, 0x57]
    } else if i == 11 {
        seq![0x25u8, 0x00, 0x06, 0x28, 0x20, 0x1b, 0x59]
    } else if i == 12 {
        seq![0x0cu8, 0x00, 0x08, 0x00, 0x20, 0x1d, 0x5b]
    } else if i == 13 {
        seq![0x2cu8, 0x00, 0x09, 0x1e, 0x20, 0x1f, 0x5d]
    } else if i == 14 {
        seq![0x0du8, 0x00, 0x0b, 0x0c, 0x20, 0x21, 0x5f]
    } else if i == 15 {
        seq![0x2du8, 0x00, 0x0d, 0x11, 0x20, 0x24, 0x62]
    } else if i == 16 {
        seq![0x1cu8, 0x00, 0x10, 0x00, 0x20, 0x26, 0x64]
    } else if i == 17 {
        seq![0x3cu8, 0x00, 0x12, 0x3d, 0x18, 0x2a, 0x68]
    } else if i == 18 {
        seq![0x5cu8, 0x00, 0x16, 0x19, 0x18, 0x2c, 0x6a]
    } else if i == 19 {
        seq![0x7cu8, 0x00, 0x1a, 0x22, 0x18, 0x2e, 0x6c]
    } else if i == 20 {
        seq![0x9cu8, 0x00, 0x20, 0x00, 0x18, 0x32, 0x70]
    } else if i == 21 {
        seq![0xbcu8, 0x00, 0x25, 0x3a, 0x18, 0x35, 0x73]
    } else if i == 22 {
        seq![0xdcu8, 0x00, 0x2c, 0x33, 0x10, 0x36, 0x74]
    } else if i == 23 {
        seq![0xfcu8, 0x00, 0x35, 0x05, 0x10, 0x38, 0x76]
    } else if i == 24 {
        seq![0x1cu8, 0x01, 0x40, 0x00, 0x10, 0x3c, 0x7a]
    } else {
        seq![0x3cu8, 0x01, 0x4b, 0x35, 0x10, 0x42, 0x80]
    }
}

fn gain_regs_entry(i: usize) -> (v: [u8; 7])
    requires
        i < GAIN_TABLE_LEN,
    ensures
        v@ == gain_regs_at(i as int),
{
    let v: [u8; 7] = match i {
        0 => [0x00, 0x00, 0x01, 0x00, 0x30, 0x1e, 0x5c],
        1 => [0x20, 0x00, 0x01, 0x0b, 0x30, 0x1e, 0x5c],
        2 => [0x01, 0x00, 0x01, 0x19, 0x30, 0x1d, 0x5b],
        3 => [0x21, 0x00, 0x01, 0x2a, 0x30, 0x1e, 0x5c],
        4 => [0x02, 0x00, 0x02, 0x00, 0x30, 0x1e, 0x5c],
        5 => [0x22, 0x00, 0x02, 0x17, 0x30, 0x1d, 0x5b],
        6 => [0x03, 0x00, 0x02, 0x33, 0x20, 0x16, 0x54],
        7 => [0x23, 0x00, 0x03, 0x14, 0x20, 0x17, 0x55],
        8 => [0x04, 0x00, 0x04, 0x00, 0x20, 0x17, 0x55],
        9 => [0x24, 0x00, 0x04, 0x2f, 0x20, 0x19, 0x57],
        10 => [0x05, 0x00, 0x05, 0x26, 0x20, 0x19, 0x57],
        11 => [0x25, 0x00, 0x06, 0x28, 0x20, 0x1b, 0x59],
        12 => [0x0c, 0x00, 0x08, 0x00, 0x20, 0x1d, 0x5b],
        13 => [0x2c, 0x00, 0x09, 0x1e, 0x20, 0x1f, 0x5d],
        14 => [0x0d, 0x00, 0x0b, 0x0c, 0x20, 0x21, 0x5f],
        15 => [0x2d, 0x00, 0x0d, 0x11, 0x20, 0x24, 0x62],
        16 => [0x1c, 0x00, 0x10, 0x00, 0x20, 0x26, 0x64],
        17 => [0x3c, 0x00, 0x12, 0x3d, 0x18, 0x2a, 0x68],
        18 => [0x5c, 0x00, 0x16, 0x19, 0x18, 0x2c, 0x6a],
        19 => [0x7c, 0x00, 0x1a, 0x22, 0x18, 0x2e, 0x6c],
        20 => [0x9c, 0x00, 0x20, 0x00, 0x18, 0x32, 0x70],
        21 => [0xbc, 0x00, 0x25, 0x3a, 0x18, 0x35, 0x73],
        22 => [0xdc, 0x00, 0x2c, 0x33, 0x10, 0x36, 0x74],
        23 => [0xfc, 0x00, 0x35, 0x05, 0x10, 0x38, 0x76],
        24 => [0x1c, 0x01, 0x40, 0x00, 0x10, 0x3c, 0x7a],
        _ => [0x3c, 0x01, 0x4b, 0x35, 0x10, 0x42, 0x80],
    };
    assert(v@ =~= gain_regs_at(i as int));
    v
}

/// The linear 1440p30 register sequence.
pub open spec fn linear_1440p30_init() -> Seq<(u16, u8)> {
    seq![
        (0x03feu16, 0xf0u8),
        (0x03feu16, 0x00u8),
        (0x0317u16, 0x00u8),
        (0x0320u16, 0x77u8),
        (0x0324u16, 0xc8u8),
        (0x0325u16, 0x06u8),
        (0x0326u16, 0x60u8),
        (0x0327u16, 0x03u8),
        (0x0334u16, 0x40u8),
        (0x0336u16, 0x60u8),
        (0x0337u16, 0x82u8),
        (0x0315u16, 0x25u8),
        (0x031cu16, 0xc6u8),
        (0x0287u16, 0x18u8),
        (0x0084u16, 0x00u8),
        (0x0087u16, 0x50u8),
        (0x029du16, 0x08u8),
        (0x0290u16, 0x00u8),
        (0x0340u16, 0x05u8),
        (0x0341u16, 0xdcu8),
        (0x0345u16, 0x06u8),
        (0x034bu16, 0xb0u8),
        (0x0352u16, 0x08u8),
        (0x0354u16, 0x08u8),
        (0x02d1u16, 0xe0u8),
        (0x0223u16, 0xf2u8),
        (0x0238u16, 0xa4u8),
        (0x02ceu16, 0x7fu8),
        (0x0232u16, 0xc4u8),
        (0x02d3u16, 0x05u8),
        (0x0243u16, 0x06u8),
        (0x02eeu16, 0x30u8),
        (0x026fu16, 0x70u8),
        (0x0257u16, 0x09u8),
        (0x0211u16, 0x02u8),
        (0x0219u16, 0x09u8),
        (0x023fu16, 0x2du8),
        (0x0518u16, 0x00u8),
        (0x0519u16, 0x01u8),
        (0x0515u16, 0x08u8),
        (0x02d9u16, 0x3fu8),
        (0x02dau16, 0x02u8),
        (0x02dbu16, 0xe8u8),
        (0x02e6u16, 0x20u8),
        (0x021bu16, 0x10u8),
        (0x0252u16, 0x22u8),
        (0x024eu16, 0x22u8),
        (0x02c4u16, 0x01u8),
        (0x021du16, 0x17u8),
        (0x024au16, 0x01u8),
        (0x02cau16, 0x02u8),
        (0x0262u16, 0x10u8),
        (0x029au16, 0x20u8),
        (0x021cu16, 0x0eu8),
        (0x0298u16, 0x03u8),
        (0x029cu16, 0x00u8),
        (0x027eu16, 0x14u8),
        (0x02c2u16, 0x10u8),
        (0x0540u16, 0x20u8),
        (0x0546u16, 0x01u8),
        (0x0548u16, 0x01u8),
        (0x0544u16, 0x01u8),
        (0x0242u16, 0x1bu8),
        (0x02c0u16, 0x1bu8),
        (0x02c3u16, 0x20u8),
        (0x02e4u16, 0x10u8),
        (0x022eu16, 0x00u8),
        (0x027bu16, 0x3fu8),
        (0x0269u16, 0x0fu8),
        (0x02d2u16, 0x40u8),
        (0x027cu16, 0x08u8),
        (0x023au16, 0x2eu8),
        (0x0245u16, 0xceu8),
        (0x0530u16, 0x20u8),
        (0x0531u16, 0x02u8),
        (0x0228u16, 0x50u8),
        (0x02abu16, 0x00u8),
        (0x0250u16, 0x00u8),
        (0x0221u16, 0x50u8),
        (0x02acu16, 0x00u8),
        (0x02a5u16, 0x02u8),
        (0x0260u16, 0x0bu8),
        (0x0216u16, 0x04u8),
        (0x0299u16, 0x1cu8),
        (0x02bbu16, 0x0du8),
        (0x02a3u16, 0x02u8),
        (0x02a4u16, 0x02u8),
        (0x021eu16, 0x02u8),
        (0x024fu16, 0x08u8),
        (0x028cu16, 0x08u8),
        (0x0532u16, 0x3fu8),
        (0x0533u16, 0x02u8),
        (0x0277u16, 0xc0u8),
        (0x0276u16, 0xc0u8),
        (0x0239u16, 0xc0u8),
        (0x0202u16, 0x05u8),
        (0x0203u16, 0x46u8),
        (0x0205u16, 0xc0u8),
        (0x02b0u16, 0x68u8),
        (0x0002u16, 0xa9u8),
        (0x0004u16, 0x01u8),
        (0x021au16, 0x98u8),
        (0x0266u16, 0xa0u8),
        (0x0020u16, 0x01u8),
        (0x0021u16, 0x03u8),
        (0x0022u16, 0x00u8),
        (0x0023u16, 0x04u8),
        (0x0342u16, 0x06u8),
        (0x0343u16, 0x40u8),
        (0x03feu16, 0x10u8),
        (0x03feu16, 0x00u8),
        (0x0106u16, 0x78u8),
        (0x0108u16, 0x0cu8),
        (0x0114u16, 0x01u8),
        (0x0115u16, 0x12u8),
        (0x0180u16, 0x46u8),
        (0x0181u16, 0x30u8),
        (0x0182u16, 0x05u8),
        (0x0185u16, 0x01u8),
        (0x03feu16, 0x10u8),
        (0x03feu16, 0x00u8),
        (0x0100u16, 0x09u8),
        (0x0277u16, 0x38u8),
        (0x0276u16, 0xc0u8),
        (0x000fu16, 0x10u8),
        (0x0059u16, 0x00u8),
        (0x0080u16, 0x02u8),
        (0x0097u16, 0x0au8),
        (0x0098u16, 0x10u8),
        (0x0099u16, 0x05u8),
        (0x009au16, 0xb0u8),
        (0x0317u16, 0x08u8),
        (0x0a67u16, 0x80u8),
        (0x0a70u16, 0x03u8),
        (0x0a82u16, 0x00u8),
        (0x0a83u16, 0x10u8),
        (0x0a80u16, 0x2bu8),
        (0x05beu16, 0x00u8),
        (0x05a9u16, 0x01u8),
        (0x0313u16, 0x80u8),
        (0x05beu16, 0x01u8),
        (0x0317u16, 0x00u8),
        (0x0a67u16, 0x00u8),
    ]
}

fn linear_1440p30_table() -> (v: Vec<(u16, u8)>)
    ensures
        v@ == linear_1440p30_init(),
{
    let v: Vec<(u16, u8)> = vec![
        (0x03feu16, 0xf0u8),
        (0x03feu16, 0x00u8),
        (0x0317u16, 0x00u8),
        (0x0320u16, 0x77u8),
        (0x0324u16, 0xc8u8),
        (0x0325u16, 0x06u8),
        (0x0326u16, 0x60u8),
        (0x0327u16, 0x03u8),
        (0x0334u16, 0x40u8),
        (0x0336u16, 0x60u8),
        (0x0337u16, 0x82u8),
        (0x0315u16, 0x25u8),
        (0x031cu16, 0xc6u8),
        (0x0287u16, 0x18u8),
        (0x0084u16, 0x00u8),
        (0x0087u16, 0x50u8),
        (0x029du16, 0x08u8),
        (0x0290u16, 0x00u8),
        (0x0340u16, 0x05u8),
        (0x0341u16, 0xdcu8),
        (0x0345u16, 0x06u8),
        (0x034bu16, 0xb0u8),
        (0x0352u16, 0x08u8),
        (0x0354u16, 0x08u8),
        (0x02d1u16, 0xe0u8),
        (0x0223u16, 0xf2u8),
        (0x0238u16, 0xa4u8),
        (0x02ceu16, 0x7fu8),
        (0x0232u16, 0xc4u8),
        (0x02d3u16, 0x05u8),
        (0x0243u16, 0x06u8),
        (0x02eeu16, 0x30u8),
        (0x026fu16, 0x70u8),
        (0x0257u16, 0x09u8),
        (0x0211u16, 0x02u8),
        (0x0219u16, 0x09u8),
        (0x023fu16, 0x2du8),
        (0x0518u16, 0x00u8),
        (0x0519u16, 0x01u8),
        (0x0515u16, 0x08u8),
        (0x02d9u16, 0x3fu8),
        (0x02dau16, 0x02u8),
        (0x02dbu16, 0xe8u8),
        (0x02e6u16, 0x20u8),
        (0x021bu16, 0x10u8),
        (0x0252u16, 0x22u8),
        (0x024eu16, 0x22u8),
        (0x02c4u16, 0x01u8),
        (0x021du16, 0x17u8),
        (0x024au16, 0x01u8),
        (0x02cau16, 0x02u8),
        (0x0262u16, 0x10u8),
        (0x029au16, 0x20u8),
        (0x021cu16, 0x0eu8),
        (0x0298u16, 0x03u8),
        (0x029cu16, 0x00u8),
        (0x027eu16, 0x14u8),
        (0x02c2u16, 0x10u8),
        (0x0540u16, 0x20u8),
        (0x0546u16, 0x01u8),
        (0x0548u16, 0x01u8),
        (0x0544u16, 0x01u8),
        (0x0242u16, 0x1bu8),
        (0x02c0u16, 0x1bu8),
        (0x02c3u16, 0x20u8),
        (0x02e4u16, 0x10u8),
        (0x022eu16, 0x00u8),
        (0x027bu16, 0x3fu8),
        (0x0269u16, 0x0fu8),
        (0x02d2u16, 0x40u8),
        (0x027cu16, 0x08u8),
        (0x023au16, 0x2eu8),
        (0x0245u16, 0xceu8),
        (0x0530u16, 0x20u8),
        (0x0531u16, 0x02u8),
        (0x0228u16, 0x50u8),
        (0x02abu16, 0x00u8),
        (0x0250u16, 0x00u8),
        (0x0221u16, 0x50u8),
        (0x02acu16, 0x00u8),
        (0x02a5u16, 0x02u8),
        (0x0260u16, 0x0bu8),
        (0x0216u16, 0x04u8),
        (0x0299u16, 0x1cu8),
        (0x02bbu16, 0x0du8),
        (0x02a3u16, 0x02u8),
        (0x02a4u16, 0x02u8),
        (0x021eu16, 0x02u8),
        (0x024fu16, 0x08u8),
        (0x028cu16, 0x08u8),
        (0x0532u16, 0x3fu8),
        (0x0533u16, 0x02u8),
        (0x0277u16, 0xc0u8),
        (0x0276u16, 0xc0u8),
        (0x0239u16, 0xc0u8),
        (0x0202u16, 0x05u8),
        (0x0203u16, 0x46u8),
        (0x0205u16, 0xc0u8),
        (0x02b0u16, 0x68u8),
        (0x0002u16, 0xa9u8),
        (0x0004u16, 0x01u8),
        (0x021au16, 0x98u8),
        (0x0266u16, 0xa0u8),
        (0x0020u16, 0x01u8),
        (0x0021u16, 0x03u8),
        (0x0022u16, 0x00u8),
        (0x0023u16, 0x04u8),
        (0x0342u16, 0x06u8),
        (0x0343u16, 0x40u8),
        (0x03feu16, 0x10u8),
        (0x03feu16, 0x00u8),
        (0x0106u16, 0x78u8),
        (0x0108u16, 0x0cu8),
        (0x0114u16, 0x01u8),
        (0x0115u16, 0x12u8),
        (0x0180u16, 0x46u8),
        (0x0181u16, 0x30u8),
        (0x0182u16, 0x05u8),
        (0x0185u16, 0x01u8),
        (0x03feu16, 0x10u8),
        (0x03feu16, 0x00u8),
        (0x0100u16, 0x09u8),
        (0x0277u16, 0x38u8),
        (0x0276u16, 0xc0u8),
        (0x000fu16, 0x10u8),
        (0x0059u16, 0x00u8),
        (0x0080u16, 0x02u8),
        (0x0097u16, 0x0au8),
        (0x0098u16, 0x10u8),
        (0x0099u16, 0x05u8),
        (0x009au16, 0xb0u8),
        (0x0317u16, 0x08u8),
        (0x0a67u16, 0x80u8),
        (0x0a70u16, 0x03u8),
        (0x0a82u16, 0x00u8),
        (0x0a83u16, 0x10u8),
        (0x0a80u16, 0x2bu8),
        (0x05beu16, 0x00u8),
        (0x05a9u16, 0x01u8),
        (0x0313u16, 0x80u8),
        (0x05beu16, 0x01u8),
        (0x0317u16, 0x00u8),
        (0x0a67u16, 0x00u8),
    ];
    assert(v@ =~= linear_1440p30_init());
    v
}

/// Black level per ISO step (100 to 3276800, doubling).
pub open spec fn black_level_at(i: int) -> Seq<u16> {
    if i == 0 {
        seq![255u16, 255, 255, 255]
    } else if i == 1 {
        seq![256u16, 256, 256, 256]
    } else if i == 2 {
        seq![256u16, 256, 256, 256]
    } else if i == 3 {
        seq![257u16, 257, 257, 257]
    } else if i == 4 {
        seq![260u16, 260, 260, 260]
    } else if i == 5 {
        seq![264u16, 264, 264, 264]
    } else if i == 6 {
        seq![272u16, 272, 272, 272]
    } else if i == 7 {
        seq![289u16, 289, 289, 290]
    } else if i == 8 {
        seq![324u16, 325, 325, 325]
    } else if i == 9 {
        seq![400u16, 404, 401, 404]
    } else if i == 10 {
        seq![468u16, 469, 468, 471]
    } else if i == 11 {
        seq![474u16, 476, 477, 477]
    } else if i == 12 {
        seq![475u16, 477, 476, 478]
    } else if i == 13 {
        seq![476u16, 477, 477, 478]
    } else if i == 14 {
        seq![466u16, 467, 467, 468]
    } else {
        seq![496u16, 493, 495, 493]
    }
}

fn black_level_entry(i: usize) -> (v: [u16; 4])
    requires
        i < 16,
    ensures
        v@ == black_level_at(i as int),
{
    let v: [u16; 4] = match i {
        0 => [255, 255, 255, 255],
        1 => [256, 256, 256, 256],
        2 => [256, 256, 256, 256],
        3 => [257, 257, 257, 257],
        4 => [260, 260, 260, 260],
        5 => [264, 264, 264, 264],
        6 => [272, 272, 272, 272],
        7 => [289, 289, 289, 290],
        8 => [324, 325, 325, 325],
        9 => [400, 404, 401, 404],
        10 => [468, 469, 468, 471],
        11 => [474, 476, 477, 477],
        12 => [475, 477, 476, 478],
        13 => [476, 477, 477, 478],
        14 => [466, 467, 467, 468],
        _ => [496, 493, 495, 493],
    };
    assert(v@ =~= black_level_at(i as int));
    v
}

/// Table entry `i` or the one after: the entry whose gain interval
/// `[gain_at(i - 1), gain_at(i))` first holds `again`, searching from `i`.
pub open spec fn gain_index_from(again: u32, i: int) -> int
    decreases GAIN_TABLE_LEN - i,
{
    if i >= GAIN_TABLE_LEN {
        GAIN_TABLE_LEN - 1
    } else if again < gain_at(i) {
        i - 1
    } else {
        gain_index_from(again, i + 1)
    }
}

/// The gain table entry used for `again`: the last entry at or below it
/// (the first entry below the table, the last above it).
pub open spec fn again_index(again: u32) -> int {
    if again >= gain_at(GAIN_TABLE_LEN - 1) {
        GAIN_TABLE_LEN - 1
    } else {
        gain_index_from(again, 1)
    }
}

/// The digital gain code (64 = 1x) that `set_gain` writes: the remainder of
/// `again` over its table entry, or `dgain` (1024 = 1x) above the table.
pub open spec fn dgain_code(again: u32, dgain: u32) -> u32 {
    if again >= gain_at(GAIN_TABLE_LEN - 1) {
        (dgain * 64 / 1024) as u32
    } else {
        (again * 64 / (gain_at(again_index(again)) as int)) as u32
    }
}

/// The register writes of `set_gain(again, dgain)`.
pub open spec fn gain_writes(again: u32, dgain: u32) -> Seq<(u16, u8)> {
    let v = gain_regs_at(again_index(again));
    let d = dgain_code(again, dgain);
    seq![
        (REG_AGAIN_L, v[0]),
        (REG_AGAIN_H, v[1]),
        (REG_COL_AGAIN_H, v[2]),
        (REG_COL_AGAIN_L, v[3]),
        (REG_AGAIN_MAG1, v[4]),
        (REG_AGAIN_MAG2, v[5]),
        (REG_AGAIN_MAG3, v[6]),
        (REG_DGAIN_H, (d >> 6u32) as u8),
        (REG_DGAIN_L, ((d & 0x3f) << 2u32) as u8),
    ]
}

/// The digital gain code (64 = 1x) the sensor reads from its register pair:
/// the high register holds bits 13..6, the low one bits 5..0 in its upper
/// six bits.
pub open spec fn dgain_from_pair(h: u8, l: u8) -> int {
    (h as int) * 64 + (l as int) / 4
}

/// Within the gain table, `set_gain(again, _)` splits `again` into the
/// largest table gain `g` not above it (written as the analog gain) and a
/// digital gain `d` (64 = 1x) read back from the DGAIN pair, with `g * d / 64`
/// the largest such product not above `again`.
pub proof fn lemma_gain_split_within_table(again: u32, dgain: u32)
    requires
        gain_at(0) <= again < gain_at(GAIN_TABLE_LEN - 1),
    ensures
        ({
            let ws = gain_writes(again, dgain);
            let g = gain_at(again_index(again)) as int;
            let d = dgain_from_pair(ws[7].1, ws[8].1);
            &&& ws.len() == 9
            &&& ws[7].0 == REG_DGAIN_H && ws[8].0 == REG_DGAIN_L
            &&& g <= again
            &&& d * g <= again * 64 < (d + 1) * g
        }),
{
    lemma_gain_index_bounds(again);
    let g = gain_at(again_index(again));
    assert(g >= 1024);
    let q = again * 64 / (g as int);
    assert(0 <= q < 0x4000) by (nonlinear_arith)
        requires
            q == again * 64 / (g as int),
            g >= 1024,
            again < 77648,
    ;
    let d = q as u32;
    lemma_dgain_pair(d);
    assert(d * g <= again * 64 < (d + 1) * g) by (nonlinear_arith)
        requires
            d == again * 64 / (g as int),
            g >= 1024,
    ;
}

/// Beyond the gain table, `set_gain(_, dgain)` writes the digital gain
/// `dgain` (1024 = 1x) as a code `d` (64 = 1x) read back from the DGAIN pair:
/// the largest with `d * 16` not above `dgain`, while it fits the pair.
pub proof fn lemma_gain_digital_beyond_table(again: u32, dgain: u32)
    requires
        again >= gain_at(GAIN_TABLE_LEN - 1),
        dgain < 0x4_0000,
    ensures
        ({
            let ws = gain_writes(again, dgain);
            let d = dgain_from_pair(ws[7].1, ws[8].1);
            &&& ws.len() == 9
            &&& ws[7].0 == REG_DGAIN_H && ws[8].0 == REG_DGAIN_L
            &&& d * 16 <= dgain < (d + 1) * 16
        }),
{
    let d = (dgain * 64 / 1024) as u32;
    assert(d < 0x4000 && d * 16 <= dgain < (d + 1) * 16) by (nonlinear_arith)
        requires
            d == dgain * 64 / 1024,
            dgain < 0x4_0000,
    ;
    lemma_dgain_pair(d);
}

/// The DGAIN pair written for a code below 2^14 reads back as that code.
proof fn lemma_dgain_pair(d: u32)
    requires
        d < 0x4000,
    ensures
        dgain_from_pair((d >> 6u32) as u8, ((d & 0x3f) << 2u32) as u8) == d,
{
    let h = (d >> 6u32) as u8;
    let l = ((d & 0x3f) << 2u32) as u8;
    assert((h as u32) * 64 + (l as u32) / 4 == d) by (bit_vector)
        requires
            d < 0x4000,
            h == (d >> 6u32) as u8,
            l == ((d & 0x3f) << 2u32) as u8,
    ;
}

/// The two writes that set a 14-bit line count in a high/low pair.
pub open spec fn lines_writes(reg_h: u16, reg_l: u16, lines: u16) -> Seq<(u16, u8)> {
    let l = if lines < GC4653_FULL_LINES_MAX { lines } else { GC4653_FULL_LINES_MAX };
    seq![(reg_h, ((l >> 8u16) & 0x3f) as u8), (reg_l, (l & 0xff) as u8)]
}

/// The gain table is increasing, and the entry chosen for `again` is at or
/// below it unless `again` is below the table.
pub proof fn lemma_gain_index_bounds(again: u32)
    ensures
        0 <= again_index(again) < GAIN_TABLE_LEN,
        again >= gain_at(0) ==> gain_at(again_index(again)) <= again,
        again_index(again) + 1 < GAIN_TABLE_LEN ==> again < gain_at(again_index(again) + 1),
{
    reveal_with_fuel(gain_index_from, 27);
}

fn gain_index(again: u32) -> (i: usize)
    ensures
        i == again_index(again),
        i < GAIN_TABLE_LEN,
{
    proof {
        lemma_gain_index_bounds(again);
    }
    if again >= gain_table_entry(GAIN_TABLE_LEN - 1) {
        return GAIN_TABLE_LEN - 1;
    }
    let mut i: usize = 1;
    while i < GAIN_TABLE_LEN
        invariant
            1 <= i <= GAIN_TABLE_LEN,
            again < gain_at(GAIN_TABLE_LEN - 1),
            gain_index_from(again, 1) == gain_index_from(again, i as int),
        decreases GAIN_TABLE_LEN - i,
    {
        if again < gain_table_entry(i) {
            return i - 1;
        }
        i = i + 1;
    }
    GAIN_TABLE_LEN - 1
}

/// ISO of noise calibration step `i` (100, doubling).
pub open spec fn iso_level(i: int) -> u32 {
    if i == 0 {
        100
    } else if i == 1 {
        200
    } else if i == 2 {
        400
    } else if i == 3 {
        800
    } else if i == 4 {
        1600
    } else if i == 5 {
        3200
    } else if i == 6 {
        6400
    } else if i == 7 {
        12800
    } else if i == 8 {
        25600
    } else if i == 9 {
        51200
    } else if i == 10 {
        102400
    } else if i == 11 {
        204800
    } else if i == 12 {
        409600
    } else if i == 13 {
        819200
    } else if i == 14 {
        1638400
    } else {
        3276800
    }
}

/// How far `iso` lies from the ISO of calibration step `i`.
pub open spec fn iso_distance(iso: u32, i: int) -> int {
    if iso >= iso_level(i) {
        iso - iso_level(i)
    } else {
        iso_level(i) - iso
    }
}

/// `i` is the calibration step nearest to `iso`: none is nearer, and every
/// earlier step is farther (so a tie goes to the lower step).
pub open spec fn nearest_iso_index(iso: u32, i: int) -> bool {
    &&& 0 <= i < 16
    &&& forall|j: int| 0 <= j < 16 ==> iso_distance(iso, i) <= #[trigger] iso_distance(iso, j)
    &&& forall|j: int| 0 <= j < i ==> iso_distance(iso, i) < #[trigger] iso_distance(iso, j)
}

/// The calibration step nearest to `iso`.
pub open spec fn nearest_iso_step(iso: u32) -> int {
    choose|i: int| nearest_iso_index(iso, i)
}

/// Only one step is the nearest, so [`nearest_iso_step`] names it.
pub proof fn lemma_nearest_iso_unique(iso: u32, i: int)
    requires
        nearest_iso_index(iso, i),
    ensures
        nearest_iso_step(iso) == i,
{
    let k = nearest_iso_step(iso);
    assert(nearest_iso_index(iso, k));
    if k < i {
        assert(iso_distance(iso, i) < iso_distance(iso, k));
        assert(iso_distance(iso, k) <= iso_distance(iso, i));
    } else if i < k {
        assert(iso_distance(iso, k) < iso_distance(iso, i));
        assert(iso_distance(iso, i) <= iso_distance(iso, k));
    }
}

/// The calibration step whose ISO is nearest to `iso` (the lower one on a
/// tie).
pub fn get_noise_calibration_index(iso: u32) -> (i: usize)
    ensures
        nearest_iso_index(iso, i as int),
        i < 16,
{
    let mut best: usize = 0;
    let mut best_dist: u32 = if iso >= 100 { iso - 100 } else { 100 - iso };
    let mut level: u32 = 100;
    let mut i: usize = 0;
    while i < 16
        invariant
            i <= 16,
            i < 16 ==> level == iso_level(i as int),
            i == 0 ==> best == 0,
            best < 16,
            i > 0 ==> best < i,
            best_dist == iso_distance(iso, best as int),
            forall|j: int| 0 <= j < i ==> iso_distance(iso, best as int) <= #[trigger] iso_distance(iso, j),
            forall|j: int| 0 <= j < best ==> iso_distance(iso, best as int) < #[trigger] iso_distance(iso, j),
        decreases 16 - i,
    {
        let d: u32 = if iso >= level { iso - level } else { level - iso };
        if d < best_dist {
            best = i;
            best_dist = d;
        }
        i = i + 1;
        if i < 16 {
            level = level * 2;
        }
    }
    best
}

/// The black level of each Bayer channel at `iso`.
pub fn get_black_level(iso: u32) -> (b: [u16; 4])
    ensures
        b@ == black_level_at(nearest_iso_step(iso)),
{
    let i = get_noise_calibration_index(iso);
    proof {
        lemma_nearest_iso_unique(iso, i as int);
    }
    black_level_entry(i)
}

/// The black level for manual control: 256 on every channel.
pub fn black_level_manual() -> (b: [u16; 4])
    ensures
        b@ == seq![256u16, 256, 256, 256],
{
    let b: [u16; 4] = [256, 256, 256, 256];
    assert(b@ =~= seq![256u16, 256, 256, 256]);
    b
}

/// Whether `addr` is one of the sensor's two I2C addresses.
pub fn is_valid_i2c_addr(addr: u8) -> (b: bool)
    ensures
        b == (addr == GC4653_I2C_ADDR_DEFAULT || addr == GC4653_I2C_ADDR_ALT),
{
    addr == GC4653_I2C_ADDR_DEFAULT || addr == GC4653_I2C_ADDR_ALT
}

/// The board's MIPI receiver settings for the sensor.
pub fn get_default_mipi_rx_attr() -> (a: MipiRxAttr)
    ensures
        default_mipi_rx_attr(a),
{
    MipiRxAttr::default()
}

/// The two address bytes of register `reg`, high first.
pub open spec fn reg_addr_bytes(reg: u16) -> Seq<u8> {
    seq![(reg >> 8u16) as u8, (reg & 0xff) as u8]
}

/// The receive buffer of a register read before the transfer.
pub open spec fn empty_byte() -> Seq<u8> {
    seq![0u8]
}

/// How a register read's outcome shows in the I2C transfer: the byte
/// received, or the transfer's error.
pub open spec fn reg_read_result(got: Seq<u8>, res: Result<(), I2cError>, r: Result<u8, Gc4653Error>) -> bool {
    match r {
        Ok(v) => res is Ok && got == seq![v],
        Err(Gc4653Error::I2c(e)) => res == Err::<(), I2cError>(e),
        Err(_) => false,
    }
}

/// `ops` reads register `reg` (its address written, one byte read back with
/// a RESTART) and ended with `r`; the byte read is the value returned.
pub open spec fn read_reg_ops(ops: Seq<BusOp>, base: usize, addr: u8, reg: u16, r: Result<u8, Gc4653Error>) -> bool {
    exists|got: Seq<u8>, res: Result<(), I2cError>, p: int, q: int, s: int|
        #[trigger] write_read_split(
            ops,
            base,
            addr as u16,
            I2cAddressMode::SevenBit,
            reg_addr_bytes(reg),
            empty_byte(),
            got,
            res,
            p,
            q,
            s,
        ) && reg_read_result(got, res, r)
}

/// Two register reads split at `n`: the second made only when the first
/// succeeded.
pub open spec fn pair_read(
    ops: Seq<BusOp>,
    base: usize,
    addr: u8,
    reg_h: u16,
    reg_l: u16,
    n: int,
    rh: Result<u8, Gc4653Error>,
    rl: Result<u8, Gc4653Error>,
) -> bool {
    &&& 0 <= n <= ops.len()
    &&& read_reg_ops(ops.take(n), base, addr, reg_h, rh)
    &&& rh is Err ==> n == ops.len()
    &&& rh is Ok ==> read_reg_ops(ops.skip(n), base, addr, reg_l, rl)
}

/// The result of the chip ID check on the two ID bytes.
pub open spec fn chip_check(h: u8, l: u8) -> Result<(), Gc4653Error> {
    let found = ((h as u16) << 8u16) | (l as u16);
    if found == GC4653_CHIP_ID {
        Ok(())
    } else {
        Err(Gc4653Error::InvalidChipId { expected: GC4653_CHIP_ID, found })
    }
}

/// What a two-register read returns: the first error, or `f` of the two
/// bytes.
pub open spec fn pair_result<T>(rh: Result<u8, Gc4653Error>, rl: Result<u8, Gc4653Error>, v: T) -> Result<T, Gc4653Error> {
    match rh {
        Err(e) => Err(e),
        Ok(_) => match rl {
            Err(e) => Err(e),
            Ok(_) => Ok(v),
        },
    }
}

/// A 14-bit line count from its high and low register bytes.
pub open spec fn lines_of(h: u8, l: u8) -> u16 {
    (((h as u16) & 0x3f) << 8u16) | (l as u16)
}

/// The chip ID check split at `n` with read results `rh` and `rl`.
pub open spec fn probe_split(
    ops: Seq<BusOp>,
    base: usize,
    addr: u8,
    n: int,
    rh: Result<u8, Gc4653Error>,
    rl: Result<u8, Gc4653Error>,
    r: Result<(), Gc4653Error>,
) -> bool {
    &&& pair_read(ops, base, addr, GC4653_CHIP_ID_ADDR_H, GC4653_CHIP_ID_ADDR_L, n, rh, rl)
    &&& match rh {
        Err(e) => r == Err::<(), Gc4653Error>(e),
        Ok(h) => match rl {
            Err(e) => r == Err::<(), Gc4653Error>(e),
            Ok(l) => r == chip_check(h, l),
        },
    }
}

/// `ops` reads the two chip ID registers and ended with `r`: a failed read,
/// or the ID check.
pub open spec fn probe_ops(ops: Seq<BusOp>, base: usize, addr: u8, r: Result<(), Gc4653Error>) -> bool {
    exists|n: int, rh: Result<u8, Gc4653Error>, rl: Result<u8, Gc4653Error>| #[trigger] probe_split(ops, base, addr, n, rh, rl, r)
}

/// Initialisation split at `m`: the probe ended with `rp`; only after a
/// good probe the linear sequence follows, whose outcome is `r`.
pub open spec fn init_split(ops: Seq<BusOp>, base: usize, addr: u8, m: int, rp: Result<(), Gc4653Error>, r: Result<(), Gc4653Error>) -> bool {
    &&& 0 <= m <= ops.len()
    &&& probe_ops(ops.take(m), base, addr, rp)
    &&& rp is Err ==> m == ops.len() && r == rp
    &&& rp is Ok ==> reg_writes(ops.skip(m), base, addr, linear_1440p30_init(), bus_result(r)) && (r is Err ==> r matches Err(Gc4653Error::I2c(_)))
}

/// The sensor driver: its I2C controller and address, and what it knows
/// of the sensor's state.
pub struct Gc4653 {
    i2c: I2c,
    i2c_addr: u8,
    state: SensorState,
    current_vts: u16,
    mirror_flip: MirrorFlip,
}

impl Gc4653 {
    pub closed spec fn bus(&self) -> usize {
        self.i2c.base()
    }

    pub closed spec fn addr(&self) -> u8 {
        self.i2c_addr
    }

    pub closed spec fn state_spec(&self) -> SensorState {
        self.state
    }

    pub closed spec fn vts(&self) -> u16 {
        self.current_vts
    }

    pub closed spec fn orientation(&self) -> MirrorFlip {
        self.mirror_flip
    }

    /// The sensor at the default address on controller `instance`, which is
    /// set up for fast mode.
    pub fn new<B: RegisterBus>(mmio: &mut Mmio<B>, instance: I2cInstance) -> (s: Self)
        ensures
            s.bus() == instance_base(instance),
            s.addr() == GC4653_I2C_ADDR_DEFAULT,
            s.state_spec() == SensorState::Uninitialized,
            s.vts() == GC4653_VTS_DEFAULT,
            s.orientation() == MirrorFlip::Normal,
            init_trace(old(mmio).trace(), final(mmio).trace(), instance_base(instance), I2cSpeed::Fast, I2cClockConfig::clk_100mhz_spec()),
    {
        Self::new_with_addr(mmio, instance, GC4653_I2C_ADDR_DEFAULT)
    }

    /// The sensor at `i2c_addr` on controller `instance`, which is set up
    /// for fast mode.
    pub fn new_with_addr<B: RegisterBus>(mmio: &mut Mmio<B>, instance: I2cInstance, i2c_addr: u8) -> (s: Self)
        ensures
            s.bus() == instance_base(instance),
            s.addr() == i2c_addr,
            s.state_spec() == SensorState::Uninitialized,
            s.vts() == GC4653_VTS_DEFAULT,
            s.orientation() == MirrorFlip::Normal,
            init_trace(old(mmio).trace(), final(mmio).trace(), instance_base(instance), I2cSpeed::Fast, I2cClockConfig::clk_100mhz_spec()),
    {
        let mut i2c = I2c::new(instance);
        i2c.init(mmio, I2cSpeed::Fast);
        Gc4653 {
            i2c,
            i2c_addr,
            state: SensorState::Uninitialized,
            current_vts: GC4653_VTS_DEFAULT,
            mirror_flip: MirrorFlip::Normal,
        }
    }

    /// The sensor at `i2c_addr` on an already set up controller.
    pub fn from_i2c(i2c: I2c, i2c_addr: u8) -> (s: Self)
        ensures
            s.bus() == i2c.base(),
            s.addr() == i2c_addr,
            s.state_spec() == SensorState::Uninitialized,
            s.vts() == GC4653_VTS_DEFAULT,
            s.orientation() == MirrorFlip::Normal,
    {
        Gc4653 {
            i2c,
            i2c_addr,
            state: SensorState::Uninitialized,
            current_vts: GC4653_VTS_DEFAULT,
            mirror_flip: MirrorFlip::Normal,
        }
    }

    pub fn i2c_addr(&self) -> (a: u8)
        ensures
            a == self.addr(),
    {
        self.i2c_addr
    }

    pub fn set_i2c_addr(&mut self, addr: u8)
        ensures
            final(self).addr() == addr,
            final(self).bus() == old(self).bus(),
            final(self).state_spec() == old(self).state_spec(),
            final(self).vts() == old(self).vts(),
            final(self).orientation() == old(self).orientation(),
    {
        self.i2c_addr = addr;
    }

    pub fn state(&self) -> (s: SensorState)
        ensures
            s == self.state_spec(),
    {
        self.state
    }

    pub fn current_vts(&self) -> (v: u16)
        ensures
            v == self.vts(),
    {
        self.current_vts
    }

    pub fn current_mirror_flip(&self) -> (m: MirrorFlip)
        ensures
            m == self.orientation(),
    {
        self.mirror_flip
    }

    /// Longest exposure at the current frame length: VTS less 8 lines
    /// (at least 0).
    pub fn get_max_exposure(&self) -> (e: u16)
        ensures
            e == if self.vts() >= 8 { (self.vts() - 8) as u16 } else { 0 },
    {
        if self.current_vts >= 8 {
            self.current_vts - 8
        } else {
            0
        }
    }

    /// Writes `data` to register `reg`.
    pub fn write_reg<B: RegisterBus>(&self, mmio: &mut Mmio<B>, reg: u16, data: u8) -> (r: Result<(), Gc4653Error>)
        ensures
            old(mmio).trace().len() <= final(mmio).trace().len(),
            final(mmio).trace().take(old(mmio).trace().len() as int) == old(mmio).trace(),
            i2c_tx(final(mmio).trace().skip(old(mmio).trace().len() as int), self.bus(), self.addr(), reg_bytes(reg, data), bus_result(r)),
            r is Err ==> r matches Err(Gc4653Error::I2c(_)),
    {
        let buf: [u8; 3] = [(reg >> 8) as u8, (reg & 0xff) as u8, data];
        assert(buf@ =~= reg_bytes(reg, data));
        let res = self.i2c.write(mmio, self.i2c_addr, &buf);
        proof {
            lemma_ok_unit(res);
        }
        match res {
            Ok(()) => Ok(()),
            Err(e) => Err(Gc4653Error::I2c(e)),
        }
    }

    /// Writes `regs` in order; stops at the first failed write.
    pub fn write_regs<B: RegisterBus>(&self, mmio: &mut Mmio<B>, regs: &[(u16, u8)]) -> (r: Result<(), Gc4653Error>)
        ensures
            old(mmio).trace().len() <= final(mmio).trace().len(),
            final(mmio).trace().take(old(mmio).trace().len() as int) == old(mmio).trace(),
            reg_writes(final(mmio).trace().skip(old(mmio).trace().len() as int), self.bus(), self.addr(), regs@, bus_result(r)),
            r is Err ==> r matches Err(Gc4653Error::I2c(_)),
    {
        let ghost t0 = mmio.trace();
        let mut i: usize = 0;
        proof {
            assert(mmio.trace().take(t0.len() as int) =~= t0);
            assert(mmio.trace().skip(t0.len() as int) =~= Seq::<BusOp>::empty());
            assert(regs@.take(0) =~= Seq::<(u16, u8)>::empty());
        }
        while i < regs.len()
            invariant
                t0 == old(mmio).trace(),
                i <= regs@.len(),
                t0.len() <= mmio.trace().len(),
                mmio.trace().take(t0.len() as int) == t0,
                reg_writes(mmio.trace().skip(t0.len() as int), self.bus(), self.addr(), regs@.take(i as int), Ok(())),
            decreases regs@.len() - i,
        {
            let (reg, val) = regs[i];
            let ghost t1 = mmio.trace();
            let w = self.write_reg(mmio, reg, val);
            proof {
                let t = mmio.trace();
                lemma_extend(t0, t1, t);
                let seg = t.skip(t0.len() as int);
                let n = t1.len() - t0.len();
                assert(seg.take(n) =~= t1.skip(t0.len() as int));
                assert(seg.skip(n) =~= t.skip(t1.len() as int));
                assert(regs@.take(i + 1).drop_last() =~= regs@.take(i as int));
                assert(regs@.take(i + 1).last() == (reg, val));
                assert(i2c_tx(seg.skip(n), self.bus(), self.addr(), reg_bytes(reg, val), bus_result(w)));
                assert(reg_writes(seg, self.bus(), self.addr(), regs@.take(i + 1), bus_result(w)));
            }
            if w.is_err() {
                proof {
                    lemma_reg_writes_stop(mmio.trace().skip(t0.len() as int), self.bus(), self.addr(), regs@, i + 1, bus_result(w));
                }
                return w;
            }
            proof {
                lemma_ok_unit(bus_result(w));
            }
            i = i + 1;
        }
        proof {
            assert(regs@.take(i as int) =~= regs@);
        }
        Ok(())
    }

    /// Reads register `reg`: its address written, one byte read back.
    pub fn read_reg<B: RegisterBus>(&self, mmio: &mut Mmio<B>, reg: u16) -> (r: Result<u8, Gc4653Error>)
        ensures
            old(mmio).trace().len() <= final(mmio).trace().len(),
            final(mmio).trace().take(old(mmio).trace().len() as int) == old(mmio).trace(),
            read_reg_ops(final(mmio).trace().skip(old(mmio).trace().len() as int), self.bus(), self.addr(), reg, r),
    {
        let a: [u8; 2] = [(reg >> 8) as u8, (reg & 0xff) as u8];
        let mut out: [u8; 1] = [0u8];
        assert(a@ =~= reg_addr_bytes(reg));
        assert(out@ =~= empty_byte());
        let res = self.i2c.write_read(mmio, self.i2c_addr, &a, &mut out);
        proof {
            lemma_ok_unit(res);
        }
        let ghost seg = mmio.trace().skip(old(mmio).trace().len() as int);
        let ghost aseq = reg_addr_bytes(reg);
        let ghost got = out@;
        proof {
            let (p, q, w) = choose|p: int, q: int, w: int|
                #[trigger] write_read_split(seg, self.bus(), self.addr() as u16, I2cAddressMode::SevenBit, aseq, empty_byte(), got, res, p, q, w);
            assert(write_read_split(seg, self.bus(), self.addr() as u16, I2cAddressMode::SevenBit, aseq, empty_byte(), got, res, p, q, w));
        }
        match res {
            Ok(()) => {
                let v = out[0];
                proof {
                    assert(out@ =~= seq![v]);
                    assert(reg_read_result(got, res, Ok(v)));
                }
                Ok(v)
            },
            Err(e) => {
                proof {
                    assert(reg_read_result(got, res, Err(Gc4653Error::I2c(e))));
                }
                Err(Gc4653Error::I2c(e))
            },
        }
    }

    /// Reads the high and low registers of a pair.
    fn read_pair<B: RegisterBus>(&self, mmio: &mut Mmio<B>, reg_h: u16, reg_l: u16) -> (r: (Result<u8, Gc4653Error>, Result<u8, Gc4653Error>))
        ensures
            old(mmio).trace().len() <= final(mmio).trace().len(),
            final(mmio).trace().take(old(mmio).trace().len() as int) == old(mmio).trace(),
            exists|n: int| #[trigger] pair_read(final(mmio).trace().skip(old(mmio).trace().len() as int), self.bus(), self.addr(), reg_h, reg_l, n, r.0, r.1),
    {
        let ghost t0 = mmio.trace();
        let rh = self.read_reg(mmio, reg_h);
        let ghost t1 = mmio.trace();
        let ghost n = t1.len() - t0.len();
        if rh.is_err() {
            proof {
                let seg = t1.skip(t0.len() as int);
                assert(seg.take(n) =~= seg);
                assert(pair_read(seg, self.bus(), self.addr(), reg_h, reg_l, n, rh, rh));
                assert(seg == mmio.trace().skip(old(mmio).trace().len() as int));
                assert(exists|n: int| #[trigger] pair_read(mmio.trace().skip(old(mmio).trace().len() as int), self.bus(), self.addr(), reg_h, reg_l, n, rh, rh));
            }
            let res = (rh, rh);
            assert(res.0 == rh && res.1 == rh);
            return res;
        }
        let rl = self.read_reg(mmio, reg_l);
        proof {
            let t = mmio.trace();
            lemma_extend(t0, t1, t);
            let seg = t.skip(t0.len() as int);
            assert(seg.take(n) =~= t1.skip(t0.len() as int));
            assert(seg.skip(n) =~= t.skip(t1.len() as int));
            assert(pair_read(seg, self.bus(), self.addr(), reg_h, reg_l, n, rh, rl));
            assert(exists|n: int| #[trigger] pair_read(mmio.trace().skip(old(mmio).trace().len() as int), self.bus(), self.addr(), reg_h, reg_l, n, rh, rl));
        }
        let res = (rh, rl);
        assert(res.0 == rh && res.1 == rl);
        res
    }

    /// Checks the chip ID (registers 0x03f0 and 0x03f1) against 0x4653.
    pub fn probe<B: RegisterBus>(&self, mmio: &mut Mmio<B>) -> (r: Result<(), Gc4653Error>)
        ensures
            old(mmio).trace().len() <= final(mmio).trace().len(),
            final(mmio).trace().take(old(mmio).trace().len() as int) == old(mmio).trace(),
            probe_ops(final(mmio).trace().skip(old(mmio).trace().len() as int), self.bus(), self.addr(), r),
    {
        let (rh, rl) = self.read_pair(mmio, GC4653_CHIP_ID_ADDR_H, GC4653_CHIP_ID_ADDR_L);
        let r = match rh {
            Err(e) => Err(e),
            Ok(h) => match rl {
                Err(e) => Err(e),
                Ok(l) => {
                    let found = ((h as u16) << 8) | (l as u16);
                    if found != GC4653_CHIP_ID {
                        Err(Gc4653Error::InvalidChipId { expected: GC4653_CHIP_ID, found })
                    } else {
                        Ok(())
                    }
                },
            },
        };
        proof {
            lemma_ok_unit(r);
            let seg = mmio.trace().skip(old(mmio).trace().len() as int);
            let n = choose|n: int| #[trigger] pair_read(seg, self.bus(), self.addr(), GC4653_CHIP_ID_ADDR_H, GC4653_CHIP_ID_ADDR_L, n, rh, rl);
            assert(probe_split(seg, self.bus(), self.addr(), n, rh, rl, r));
        }
        r
    }

    /// Writes a register list and, when all writes succeeded, records
    /// `state`.
    fn write_regs_then<B: RegisterBus>(&mut self, mmio: &mut Mmio<B>, regs: &[(u16, u8)], state: SensorState) -> (r: Result<(), Gc4653Error>)
        ensures
            old(mmio).trace().len() <= final(mmio).trace().len(),
            final(mmio).trace().take(old(mmio).trace().len() as int) == old(mmio).trace(),
            reg_writes(final(mmio).trace().skip(old(mmio).trace().len() as int), old(self).bus(), old(self).addr(), regs@, bus_result(r)),
            r is Err ==> r matches Err(Gc4653Error::I2c(_)),
            final(self).state_spec() == if r is Ok { state } else { old(self).state_spec() },
            final(self).bus() == old(self).bus(),
            final(self).addr() == old(self).addr(),
            final(self).vts() == old(self).vts(),
            final(self).orientation() == old(self).orientation(),
    {
        let r = self.write_regs(mmio, regs);
        if r.is_ok() {
            self.state = state;
        }
        r
    }

    /// Enters standby: streaming stopped, then 0x031c = 0xc7 and 0x0317 = 1.
    pub fn standby<B: RegisterBus>(&mut self, mmio: &mut Mmio<B>) -> (r: Result<(), Gc4653Error>)
        ensures
            old(mmio).trace().len() <= final(mmio).trace().len(),
            final(mmio).trace().take(old(mmio).trace().len() as int) == old(mmio).trace(),
            reg_writes(final(mmio).trace().skip(old(mmio).trace().len() as int), old(self).bus(), old(self).addr(), seq![(0x0100u16, 0x00u8), (0x031c, 0xc7), (0x0317, 0x01)], bus_result(r)),
            r is Err ==> r matches Err(Gc4653Error::I2c(_)),
            final(self).state_spec() == if r is Ok { SensorState::Standby } else { old(self).state_spec() },
            final(self).bus() == old(self).bus(),
            final(self).addr() == old(self).addr(),
            final(self).vts() == old(self).vts(),
            final(self).orientation() == old(self).orientation(),
    {
        let regs: [(u16, u8); 3] = [(0x0100, 0x00), (0x031c, 0xc7), (0x0317, 0x01)];
        assert(regs@ =~= seq![(0x0100u16, 0x00u8), (0x031c, 0xc7), (0x0317, 0x01)]);
        self.write_regs_then(mmio, &regs, SensorState::Standby)
    }

    /// Leaves standby: 0x0317 = 0, 0x031c = 0xc6, streaming started.
    pub fn restart<B: RegisterBus>(&mut self, mmio: &mut Mmio<B>) -> (r: Result<(), Gc4653Error>)
        ensures
            old(mmio).trace().len() <= final(mmio).trace().len(),
            final(mmio).trace().take(old(mmio).trace().len() as int) == old(mmio).trace(),
            reg_writes(final(mmio).trace().skip(old(mmio).trace().len() as int), old(self).bus(), old(self).addr(), seq![(0x0317u16, 0x00u8), (0x031c, 0xc6), (0x0100, 0x09)], bus_result(r)),
            r is Err ==> r matches Err(Gc4653Error::I2c(_)),
            final(self).state_spec() == if r is Ok { SensorState::Streaming } else { old(self).state_spec() },
            final(self).bus() == old(self).bus(),
            final(self).addr() == old(self).addr(),
            final(self).vts() == old(self).vts(),
            final(self).orientation() == old(self).orientation(),
    {
        let regs: [(u16, u8); 3] = [(0x0317, 0x00), (0x031c, 0xc6), (0x0100, 0x09)];
        assert(regs@ =~= seq![(0x0317u16, 0x00u8), (0x031c, 0xc6), (0x0100, 0x09)]);
        self.write_regs_then(mmio, &regs, SensorState::Streaming)
    }

    /// Starts streaming (0x0100 = 0x09).
    pub fn stream_on<B: RegisterBus>(&mut self, mmio: &mut Mmio<B>) -> (r: Result<(), Gc4653Error>)
        ensures
            old(mmio).trace().len() <= final(mmio).trace().len(),
            final(mmio).trace().take(old(mmio).trace().len() as int) == old(mmio).trace(),
            reg_writes(final(mmio).trace().skip(old(mmio).trace().len() as int), old(self).bus(), old(self).addr(), seq![(0x0100u16, 0x09u8)], bus_result(r)),
            r is Err ==> r matches Err(Gc4653Error::I2c(_)),
            final(self).state_spec() == if r is Ok { SensorState::Streaming } else { old(self).state_spec() },
            final(self).bus() == old(self).bus(),
            final(self).addr() == old(self).addr(),
            final(self).vts() == old(self).vts(),
            final(self).orientation() == old(self).orientation(),
    {
        let regs: [(u16, u8); 1] = [(0x0100, 0x09)];
        assert(regs@ =~= seq![(0x0100u16, 0x09u8)]);
        self.write_regs_then(mmio, &regs, SensorState::Streaming)
    }

    /// Stops streaming (0x0100 = 0).
    pub fn stream_off<B: RegisterBus>(&mut self, mmio: &mut Mmio<B>) -> (r: Result<(), Gc4653Error>)
        ensures
            old(mmio).trace().len() <= final(mmio).trace().len(),
            final(mmio).trace().take(old(mmio).trace().len() as int) == old(mmio).trace(),
            reg_writes(final(mmio).trace().skip(old(mmio).trace().len() as int), old(self).bus(), old(self).addr(), seq![(0x0100u16, 0x00u8)], bus_result(r)),
            r is Err ==> r matches Err(Gc4653Error::I2c(_)),
            final(self).state_spec() == if r is Ok { SensorState::Standby } else { old(self).state_spec() },
            final(self).bus() == old(self).bus(),
            final(self).addr() == old(self).addr(),
            final(self).vts() == old(self).vts(),
            final(self).orientation() == old(self).orientation(),
    {
        let regs: [(u16, u8); 1] = [(0x0100, 0x00)];
        assert(regs@ =~= seq![(0x0100u16, 0x00u8)]);
        self.write_regs_then(mmio, &regs, SensorState::Standby)
    }

    /// Writes the linear 1440p30 sequence; streaming at the default frame
    /// length afterwards.
    pub fn init_linear_1440p30<B: RegisterBus>(&mut self, mmio: &mut Mmio<B>) -> (r: Result<(), Gc4653Error>)
        ensures
            old(mmio).trace().len() <= final(mmio).trace().len(),
            final(mmio).trace().take(old(mmio).trace().len() as int) == old(mmio).trace(),
            reg_writes(final(mmio).trace().skip(old(mmio).trace().len() as int), old(self).bus(), old(self).addr(), linear_1440p30_init(), bus_result(r)),
            r is Err ==> r matches Err(Gc4653Error::I2c(_)),
            final(self).state_spec() == if r is Ok { SensorState::Streaming } else { old(self).state_spec() },
            final(self).vts() == if r is Ok { GC4653_VTS_DEFAULT } else { old(self).vts() },
            final(self).bus() == old(self).bus(),
            final(self).addr() == old(self).addr(),
            final(self).orientation() == old(self).orientation(),
    {
        let table = linear_1440p30_table();
        let r = self.write_regs_then(mmio, table.as_slice(), SensorState::Streaming);
        if r.is_ok() {
            self.current_vts = GC4653_VTS_DEFAULT;
        }
        r
    }

    /// Probes the chip ID, then writes the linear 1440p30 sequence.
    pub fn init<B: RegisterBus>(&mut self, mmio: &mut Mmio<B>) -> (r: Result<(), Gc4653Error>)
        ensures
            old(mmio).trace().len() <= final(mmio).trace().len(),
            final(mmio).trace().take(old(mmio).trace().len() as int) == old(mmio).trace(),
            exists|m: int, rp: Result<(), Gc4653Error>|
                #[trigger] init_split(final(mmio).trace().skip(old(mmio).trace().len() as int), old(self).bus(), old(self).addr(), m, rp, r),
            final(self).state_spec() == if r is Ok { SensorState::Streaming } else { old(self).state_spec() },
            final(self).vts() == if r is Ok { GC4653_VTS_DEFAULT } else { old(self).vts() },
            final(self).bus() == old(self).bus(),
            final(self).addr() == old(self).addr(),
            final(self).orientation() == old(self).orientation(),
    {
        let ghost t0 = mmio.trace();
        let p = self.probe(mmio);
        let ghost t1 = mmio.trace();
        let ghost m = t1.len() - t0.len();
        if p.is_err() {
            proof {
                let seg = t1.skip(t0.len() as int);
                assert(seg.take(m) =~= seg);
                assert(init_split(seg, self.bus(), self.addr(), m, p, p));
            }
            return p;
        }
        let r = self.init_linear_1440p30(mmio);
        proof {
            let t = mmio.trace();
            lemma_extend(t0, t1, t);
            let seg = t.skip(t0.len() as int);
            assert(seg.take(m) =~= t1.skip(t0.len() as int));
            assert(seg.skip(m) =~= t.skip(t1.len() as int));
            assert(init_split(seg, old(self).bus(), old(self).addr(), m, p, r));
        }
        r
    }

    /// Sets the exposure to `lines` (at most 0x3fff).
    pub fn set_exposure_lines<B: RegisterBus>(&self, mmio: &mut Mmio<B>, lines: u16) -> (r: Result<(), Gc4653Error>)
        ensures
            old(mmio).trace().len() <= final(mmio).trace().len(),
            final(mmio).trace().take(old(mmio).trace().len() as int) == old(mmio).trace(),
            reg_writes(final(mmio).trace().skip(old(mmio).trace().len() as int), self.bus(), self.addr(), lines_writes(REG_EXP_H, REG_EXP_L, lines), bus_result(r)),
            r is Err ==> r matches Err(Gc4653Error::I2c(_)),
    {
        let l = if lines < GC4653_FULL_LINES_MAX { lines } else { GC4653_FULL_LINES_MAX };
        let regs: [(u16, u8); 2] = [(REG_EXP_H, ((l >> 8) & 0x3f) as u8), (REG_EXP_L, (l & 0xff) as u8)];
        assert(regs@ =~= lines_writes(REG_EXP_H, REG_EXP_L, lines));
        self.write_regs(mmio, &regs)
    }

    /// Sets the frame length to `vts` lines (at most 0x3fff) and records it.
    pub fn set_vts<B: RegisterBus>(&mut self, mmio: &mut Mmio<B>, vts: u16) -> (r: Result<(), Gc4653Error>)
        ensures
            old(mmio).trace().len() <= final(mmio).trace().len(),
            final(mmio).trace().take(old(mmio).trace().len() as int) == old(mmio).trace(),
            reg_writes(final(mmio).trace().skip(old(mmio).trace().len() as int), old(self).bus(), old(self).addr(), lines_writes(REG_VTS_H, REG_VTS_L, vts), bus_result(r)),
            r is Err ==> r matches Err(Gc4653Error::I2c(_)),
            final(self).vts() == if r is Ok { if vts < GC4653_FULL_LINES_MAX { vts } else { GC4653_FULL_LINES_MAX } } else { old(self).vts() },
            final(self).bus() == old(self).bus(),
            final(self).addr() == old(self).addr(),
            final(self).state_spec() == old(self).state_spec(),
            final(self).orientation() == old(self).orientation(),
    {
        let v = if vts < GC4653_FULL_LINES_MAX { vts } else { GC4653_FULL_LINES_MAX };
        let regs: [(u16, u8); 2] = [(REG_VTS_H, ((v >> 8) & 0x3f) as u8), (REG_VTS_L, (v & 0xff) as u8)];
        assert(regs@ =~= lines_writes(REG_VTS_H, REG_VTS_L, vts));
        let r = self.write_regs(mmio, &regs);
        if r.is_ok() {
            self.current_vts = v;
        }
        r
    }

    /// The gain register writes for `again` and `dgain`.
    fn gain_list(again: u32, dgain: u32) -> (v: [(u16, u8); 9])
        requires
            again >= gain_at(GAIN_TABLE_LEN - 1) ==> dgain * 64 <= u32::MAX,
        ensures
            v@ == gain_writes(again, dgain),
    {
        let index = gain_index(again);
        proof {
            lemma_gain_index_bounds(again);
        }
        let d: u32 = if again < gain_table_entry(GAIN_TABLE_LEN - 1) {
            again * 64 / gain_table_entry(index)
        } else {
            dgain * 64 / 1024
        };
        let rv = gain_regs_entry(index);
        let v: [(u16, u8); 9] = [
            (REG_AGAIN_L, rv[0]),
            (REG_AGAIN_H, rv[1]),
            (REG_COL_AGAIN_H, rv[2]),
            (REG_COL_AGAIN_L, rv[3]),
            (REG_AGAIN_MAG1, rv[4]),
            (REG_AGAIN_MAG2, rv[5]),
            (REG_AGAIN_MAG3, rv[6]),
            (REG_DGAIN_H, (d >> 6) as u8),
            (REG_DGAIN_L, ((d & 0x3f) << 2) as u8),
        ];
        assert(v@ =~= gain_writes(again, dgain));
        v
    }

    /// Sets the analog gain `again` (1024 = 1x) through the gain table, and
    /// the digital gain: the remainder of `again` over its table entry, or
    /// `dgain` (1024 = 1x) when `again` is beyond the table.
    pub fn set_gain<B: RegisterBus>(&self, mmio: &mut Mmio<B>, again: u32, dgain: u32) -> (r: Result<(), Gc4653Error>)
        requires
            again >= GC4653_AGAIN_MAX ==> dgain * 64 <= u32::MAX,
        ensures
            old(mmio).trace().len() <= final(mmio).trace().len(),
            final(mmio).trace().take(old(mmio).trace().len() as int) == old(mmio).trace(),
            reg_writes(final(mmio).trace().skip(old(mmio).trace().len() as int), self.bus(), self.addr(), gain_writes(again, dgain), bus_result(r)),
            r is Err ==> r matches Err(Gc4653Error::I2c(_)),
    {
        let v = Self::gain_list(again, dgain);
        self.write_regs(mmio, &v)
    }

    /// Sets the orientation (with the frame buffer held around the write)
    /// and records it.
    pub fn set_mirror_flip<B: RegisterBus>(&mut self, mmio: &mut Mmio<B>, mode: MirrorFlip) -> (r: Result<(), Gc4653Error>)
        ensures
            old(mmio).trace().len() <= final(mmio).trace().len(),
            final(mmio).trace().take(old(mmio).trace().len() as int) == old(mmio).trace(),
            reg_writes(final(mmio).trace().skip(old(mmio).trace().len() as int), old(self).bus(), old(self).addr(), seq![(REG_FRAME_BUF, 0x2du8), (REG_MIRROR_FLIP, mirror_flip_value(mode)), (REG_FRAME_BUF, 0x28u8)], bus_result(r)),
            r is Err ==> r matches Err(Gc4653Error::I2c(_)),
            final(self).orientation() == if r is Ok { mode } else { old(self).orientation() },
            final(self).bus() == old(self).bus(),
            final(self).addr() == old(self).addr(),
            final(self).state_spec() == old(self).state_spec(),
            final(self).vts() == old(self).vts(),
    {
        let value = mode.to_reg_value();
        let regs: [(u16, u8); 3] = [(REG_FRAME_BUF, 0x2d), (REG_MIRROR_FLIP, value), (REG_FRAME_BUF, 0x28)];
        assert(regs@ =~= seq![(REG_FRAME_BUF, 0x2du8), (REG_MIRROR_FLIP, mirror_flip_value(mode)), (REG_FRAME_BUF, 0x28u8)]);
        let r = self.write_regs(mmio, &regs);
        if r.is_ok() {
            self.mirror_flip = mode;
        }
        r
    }

    /// Reads the orientation register.
    pub fn read_mirror_flip<B: RegisterBus>(&self, mmio: &mut Mmio<B>) -> (r: Result<MirrorFlip, Gc4653Error>)
        ensures
            old(mmio).trace().len() <= final(mmio).trace().len(),
            final(mmio).trace().take(old(mmio).trace().len() as int) == old(mmio).trace(),
            exists|rv: Result<u8, Gc4653Error>|
                #[trigger] read_reg_ops(final(mmio).trace().skip(old(mmio).trace().len() as int), self.bus(), self.addr(), REG_MIRROR_FLIP, rv)
                && match rv {
                    Err(e) => r == Err::<MirrorFlip, Gc4653Error>(e),
                    Ok(v) => r matches Ok(m) && mirror_flip_value(m) == v & 0x03,
                },
    {
        let rv = self.read_reg(mmio, REG_MIRROR_FLIP);
        match rv {
            Err(e) => Err(e),
            Ok(v) => Ok(MirrorFlip::from_reg_value(v)),
        }
    }

    /// The gain table entry for `again` and the pre-gain (64 = 1x) that
    /// remains: `(25, 64)` at or beyond the last entry.
    pub fn calc_again_index(again: u32) -> (r: (usize, u32))
        ensures
            r.0 == again_index(again),
            r.1 == if again >= gain_at(GAIN_TABLE_LEN - 1) { 64 } else { (again * 64 / (gain_at(again_index(again)) as int)) as u32 },
    {
        proof {
            lemma_gain_index_bounds(again);
        }
        let i = gain_index(again);
        if again >= gain_table_entry(GAIN_TABLE_LEN - 1) {
            return (GAIN_TABLE_LEN - 1, 64);
        }
        (i, again * 64 / gain_table_entry(i))
    }

    /// Gain table entry `index`, if there is one.
    pub fn get_gain_from_table(index: usize) -> (g: Option<u32>)
        ensures
            index < GAIN_TABLE_LEN ==> g == Some(gain_at(index as int)),
            index >= GAIN_TABLE_LEN ==> g is None,
    {
        if index < GAIN_TABLE_LEN {
            Some(gain_table_entry(index))
        } else {
            None
        }
    }

    pub fn gain_table_len() -> (n: usize)
        ensures
            n == GAIN_TABLE_LEN,
    {
        GAIN_TABLE_LEN
    }

    /// Sets the exposure, then the gains.
    pub fn set_exposure_gain<B: RegisterBus>(&self, mmio: &mut Mmio<B>, exposure: u16, again: u32, dgain: u32) -> (r: Result<(), Gc4653Error>)
        requires
            again >= GC4653_AGAIN_MAX ==> dgain * 64 <= u32::MAX,
        ensures
            old(mmio).trace().len() <= final(mmio).trace().len(),
            final(mmio).trace().take(old(mmio).trace().len() as int) == old(mmio).trace(),
            reg_writes(final(mmio).trace().skip(old(mmio).trace().len() as int), self.bus(), self.addr(), lines_writes(REG_EXP_H, REG_EXP_L, exposure) + gain_writes(again, dgain), bus_result(r)),
            r is Err ==> r matches Err(Gc4653Error::I2c(_)),
    {
        let l = if exposure < GC4653_FULL_LINES_MAX { exposure } else { GC4653_FULL_LINES_MAX };
        let g = Self::gain_list(again, dgain);
        let regs: [(u16, u8); 11] = [
            (REG_EXP_H, ((l >> 8) & 0x3f) as u8),
            (REG_EXP_L, (l & 0xff) as u8),
            g[0],
            g[1],
            g[2],
            g[3],
            g[4],
            g[5],
            g[6],
            g[7],
            g[8],
        ];
        assert(regs@ =~= lines_writes(REG_EXP_H, REG_EXP_L, exposure) + gain_writes(again, dgain));
        self.write_regs(mmio, &regs)
    }

    /// Soft reset: 0x03fe = 0xf0, then 0.
    pub fn soft_reset<B: RegisterBus>(&self, mmio: &mut Mmio<B>) -> (r: Result<(), Gc4653Error>)
        ensures
            old(mmio).trace().len() <= final(mmio).trace().len(),
            final(mmio).trace().take(old(mmio).trace().len() as int) == old(mmio).trace(),
            reg_writes(final(mmio).trace().skip(old(mmio).trace().len() as int), self.bus(), self.addr(), seq![(0x03feu16, 0xf0u8), (0x03fe, 0x00)], bus_result(r)),
            r is Err ==> r matches Err(Gc4653Error::I2c(_)),
    {
        let regs: [(u16, u8); 2] = [(0x03fe, 0xf0), (0x03fe, 0x00)];
        assert(regs@ =~= seq![(0x03feu16, 0xf0u8), (0x03fe, 0x00)]);
        self.write_regs(mmio, &regs)
    }

    /// Reads the exposure (14 bits from the high and low registers).
    pub fn read_exposure<B: RegisterBus>(&self, mmio: &mut Mmio<B>) -> (r: Result<u16, Gc4653Error>)
        ensures
            old(mmio).trace().len() <= final(mmio).trace().len(),
            final(mmio).trace().take(old(mmio).trace().len() as int) == old(mmio).trace(),
            exists|n: int, rh: Result<u8, Gc4653Error>, rl: Result<u8, Gc4653Error>|
                #[trigger] pair_read(final(mmio).trace().skip(old(mmio).trace().len() as int), self.bus(), self.addr(), REG_EXP_H, REG_EXP_L, n, rh, rl)
                && r == pair_result(rh, rl, match (rh, rl) {
                    (Ok(h), Ok(l)) => lines_of(h, l),
                    _ => 0u16,
                }),
    {
        let (rh, rl) = self.read_pair(mmio, REG_EXP_H, REG_EXP_L);
        match rh {
            Err(e) => Err(e),
            Ok(h) => match rl {
                Err(e) => Err(e),
                Ok(l) => Ok((((h as u16) & 0x3f) << 8) | (l as u16)),
            },
        }
    }

    /// Reads the frame length (14 bits from the high and low registers).
    pub fn read_vts<B: RegisterBus>(&self, mmio: &mut Mmio<B>) -> (r: Result<u16, Gc4653Error>)
        ensures
            old(mmio).trace().len() <= final(mmio).trace().len(),
            final(mmio).trace().take(old(mmio).trace().len() as int) == old(mmio).trace(),
            exists|n: int, rh: Result<u8, Gc4653Error>, rl: Result<u8, Gc4653Error>|
                #[trigger] pair_read(final(mmio).trace().skip(old(mmio).trace().len() as int), self.bus(), self.addr(), REG_VTS_H, REG_VTS_L, n, rh, rl)
                && r == pair_result(rh, rl, match (rh, rl) {
                    (Ok(h), Ok(l)) => lines_of(h, l),
                    _ => 0u16,
                }),
    {
        let (rh, rl) = self.read_pair(mmio, REG_VTS_H, REG_VTS_L);
        match rh {
            Err(e) => Err(e),
            Ok(h) => match rl {
                Err(e) => Err(e),
                Ok(l) => Ok((((h as u16) & 0x3f) << 8) | (l as u16)),
            },
        }
    }
}

} // verus!
