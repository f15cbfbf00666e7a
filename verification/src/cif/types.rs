//! Value types of the camera interface: input modes, lane and sync-code
//! descriptions, device attributes and the per-interface parameters.
use vstd::prelude::*;

verus! {

#[derive(Debug, Clone, Copy, PartialEq, Eq, Structural)]
pub enum CifType {
    Csi,
    Sublvds,
    Hispi,
    Ttl,
    BtDmux,
}

#[derive(Debug, Clone, Copy, PartialEq, Eq, Structural)]
pub enum InputMode {
    Mipi,
    Sublvds,
    Hispi,
    Cmos,
    Bt1120,
    Bt601_19bVhs,
    Bt656_9b,
    Custom0,
    BtDemux,
}

#[derive(Debug, Clone, Copy, PartialEq, Eq, Structural)]
pub enum RxMacClk {
    Clk200M,
    Clk300M,
    Clk400M,
    Clk500M,
    Clk600M,
}

#[derive(Debug, Clone, Copy, PartialEq, Eq, Structural)]
pub enum CamPllFreq {
    Disabled,
    Freq37P125M,
    Freq25M,
    Freq27M,
    Freq24M,
    Freq26M,
}

#[derive(Debug, Clone, Copy, PartialEq, Eq, Structural)]
pub enum RawDataType {
    Raw8Bit,
    Raw10Bit,
    Raw12Bit,
    Yuv422_8Bit,
    Yuv422_10Bit,
}

#[derive(Debug, Clone, Copy, PartialEq, Eq, Structural)]
pub enum MipiHdrMode {
    Off,
    Vc,
    Dt,
    Dol,
    Manual,
}

#[derive(Debug, Clone, Copy, PartialEq, Eq, Structural)]
pub enum HdrMode {
    Off,
    Mode2F,
    Mode3F,
    Dol2F,
    Dol3F,
}

#[derive(Debug, Clone, Copy, PartialEq, Eq, Structural)]
pub enum LvdsSyncMode {
    Sof,
    Sav,
}

#[derive(Debug, Clone, Copy, PartialEq, Eq, Structural)]
pub enum LvdsBitEndian {
    Little,
    Big,
}

#[derive(Debug, Clone, Copy, PartialEq, Eq, Structural)]
pub enum LvdsVsyncType {
    Normal,
    Share,
    Hconnect,
}

#[derive(Debug, Clone, Copy, PartialEq, Eq, Structural)]
pub enum LvdsFidType {
    Off,
    InSav,
}

#[derive(Debug, Clone, Copy, PartialEq, Eq, Structural)]
pub enum TtlPinFunc {
    Vs,
    Hs,
    Vde,
    Hde,
    D0,
    D1,
    D2,
    D3,
    D4,
    D5,
    D6,
    D7,
    D8,
    D9,
    D10,
    D11,
    D12,
    D13,
    D14,
    D15,
}

#[derive(Debug, Clone, Copy, PartialEq, Eq, Structural)]
pub enum TtlViSrc {
    Vi0,
    Vi1,
    Vi2,
}

#[derive(Debug, Clone, Copy, PartialEq, Eq, Structural)]
pub enum BtDemuxMode {
    Disable,
    Demux2,
    Demux3,
    Demux4,
}

#[derive(Debug, Clone, Copy, PartialEq, Eq, Structural)]
pub enum ClkEdge {
    Up,
    Down,
}

#[derive(Debug, Clone, Copy, PartialEq, Eq, Structural)]
pub enum OutputMsb {
    Normal,
    Reverse,
}

#[derive(Debug, Clone, Copy, PartialEq, Eq, Structural)]
pub enum GpioFlags {
    ActiveLow,
    ActiveHigh,
}

#[derive(Debug, Clone, Copy, PartialEq, Eq, Structural)]
pub enum SublvdsFmt {
    Bit8,
    Bit10,
    Bit12,
}

#[derive(Debug, Clone, Copy, PartialEq, Eq, Structural)]
pub enum SublvdsHdr {
    Pat1,
    Pat2,
}

#[derive(Debug, Clone, Copy, PartialEq, Eq, Structural)]
pub enum HispiMode {
    PktSp,
    StreamSp,
}

#[derive(Debug, Clone, Copy, PartialEq, Eq, Structural)]
pub enum TtlSensorFmt {
    Bit8,
    Bit10,
    Bit12,
    Bit16,
}

#[derive(Debug, Clone, Copy, PartialEq, Eq, Structural)]
pub enum TtlBtFmtOut {
    Cbycry,
    Crycby,
    Ycbycr,
    Ycrycb,
}

#[derive(Debug, Clone, Copy, PartialEq, Eq, Structural)]
pub enum TtlFmt {
    SyncPat9bBt656,
    SyncPat17bBt1120,
    Vhs11bBt601,
    Vhs19bBt601,
    Vde11bBt601,
    Vde19bBt601,
    Vsde11bBt601,
    Vsde19bBt601,
    SyncPatSensor,
    VhsSensor,
    VdeSensor,
    VsdeSensor,
    Custom0,
}

#[derive(Debug, Clone, Copy, PartialEq, Eq, Structural)]
pub enum CsiFmt {
    Yuv422_8b,
    Yuv422_10b,
    Raw8,
    Raw10,
    Raw12,
}

#[derive(Debug, Clone, Copy, PartialEq, Eq, Structural)]
pub enum CsiVsGenMode {
    Fs,
    Fe,
    FsFe,
}

#[derive(Debug, Clone, Copy, PartialEq, Eq, Structural)]
pub enum CsiHdrMode {
    Vc,
    Id,
    Dt,
    Dol,
}

#[derive(Debug, Clone, Copy, PartialEq, Eq, Structural)]
pub enum CifEndian {
    Msb,
    Lsb,
}

#[derive(Debug, Clone, Copy, PartialEq, Eq, Structural)]
pub enum PhyLaneId {
    Lane0,
    Lane1,
    Lane2,
    Lane3,
    Lane4,
    Lane5,
}

#[derive(Debug, Clone, Copy, PartialEq, Eq, Structural)]
pub enum LaneId {
    Clk,
    Lane0,
    Lane1,
    Lane2,
    Lane3,
}

#[derive(Debug, Clone, Copy, PartialEq, Eq, Structural)]
pub enum CsiDecodeFmt {
    Yuv422_8,
    Yuv422_10,
    Raw8,
    Raw10,
    Raw12,
}

#[derive(Debug, Clone, Copy, PartialEq, Eq, Structural)]
pub enum CifClkEdge {
    Rising,
    Falling,
}

#[derive(Debug, Clone, Copy, PartialEq, Eq, Structural)]
pub enum CifClkDir {
    P0ToP1,
    P1ToP0,
    Freerun,
}

#[derive(Debug, Clone, Copy, PartialEq, Eq, Structural)]
pub enum TtlViMode {
    Raw,
    Bt601,
    Bt656,
    Bt1120,
}

#[derive(Debug, Clone, Copy)]
pub struct ImgSize {
    pub x: u32,
    pub y: u32,
    pub width: u32,
    pub height: u32,
}

#[derive(Debug, Clone, Copy)]
pub struct MclkPll {
    pub cam: u32,
    pub freq: CamPllFreq,
}

#[derive(Debug, Clone, Copy)]
pub struct Dphy {
    pub enable: bool,
    pub hs_settle: u8,
}

#[derive(Debug, Clone, Copy)]
pub struct MipiDemuxInfo {
    pub demux_en: bool,
    pub vc_mapping: [u8; 4],
}

#[derive(Debug, Clone, Copy)]
pub struct MipiDevAttr {
    pub raw_data_type: RawDataType,
    pub lane_id: [i16; 5],
    pub hdr_mode: MipiHdrMode,
    pub data_type: [i16; 2],
    pub pn_swap: [i8; 5],
    pub dphy: Dphy,
    pub demux: MipiDemuxInfo,
}

#[derive(Debug, Clone, Copy)]
pub struct LvdsVsyncTypeS {
    pub sync_type: LvdsVsyncType,
    pub hblank1: u16,
    pub hblank2: u16,
}

#[derive(Debug, Clone, Copy)]
pub struct LvdsFidTypeS {
    pub fid: LvdsFidType,
}

#[derive(Debug, Clone, Copy)]
pub struct LvdsDevAttr {
    pub hdr_mode: HdrMode,
    pub sync_mode: LvdsSyncMode,
    pub raw_data_type: RawDataType,
    pub data_endian: LvdsBitEndian,
    pub sync_code_endian: LvdsBitEndian,
    pub lane_id: [i16; 5],
    pub sync_code: [[[i16; 4]; 3]; 4],
    pub vsync_type: LvdsVsyncTypeS,
    pub fid_type: LvdsFidTypeS,
    pub pn_swap: [i8; 5],
}

#[derive(Debug, Clone, Copy)]
pub struct ManualHdrAttr {
    pub manual_en: bool,
    pub l2s_distance: u16,
    pub lsef_length: u16,
    pub discard_padding_lines: bool,
    pub update: bool,
}

#[derive(Debug, Clone, Copy)]
pub struct TtlDevAttr {
    pub vi: TtlViSrc,
    pub func: [i8; 19],
    pub v_bp: u16,
    pub h_bp: u16,
}

#[derive(Debug, Clone, Copy)]
pub struct BtDemuxSync {
    pub sav_vld: u8,
    pub sav_blk: u8,
    pub eav_vld: u8,
    pub eav_blk: u8,
}

#[derive(Debug, Clone, Copy)]
pub struct BtDemuxAttr {
    pub func: [i8; 19],
    pub v_fp: u16,
    pub h_fp: u16,
    pub v_bp: u16,
    pub h_bp: u16,
    pub mode: BtDemuxMode,
    pub sync_code_part_a: [u8; 3],
    pub sync_code_part_b: [BtDemuxSync; 4],
    pub yc_exchg: i8,
}

#[derive(Clone, Copy)]
pub struct ComboDevAttr {
    pub input_mode: InputMode,
    pub mac_clk: RxMacClk,
    pub mclk: MclkPll,
    pub devno: u32,
    pub img_size: ImgSize,
    pub hdr_manu: ManualHdrAttr,
    pub mipi_attr: Option<MipiDevAttr>,
    pub lvds_attr: Option<LvdsDevAttr>,
    pub ttl_attr: Option<TtlDevAttr>,
    pub bt_demux_attr: Option<BtDemuxAttr>,
}

#[derive(Debug, Clone, Copy)]
pub struct SublvdsSyncCode {
    pub n0_lef_sav: u16,
    pub n0_lef_eav: u16,
    pub n0_sef_sav: u16,
    pub n0_sef_eav: u16,
    pub n1_lef_sav: u16,
    pub n1_lef_eav: u16,
    pub n1_sef_sav: u16,
    pub n1_sef_eav: u16,
    pub n0_lsef_sav: u16,
    pub n0_lsef_eav: u16,
    pub n1_lsef_sav: u16,
    pub n1_lsef_eav: u16,
}

#[derive(Debug, Clone, Copy)]
pub struct HispiSyncCode {
    pub t1_sol: u16,
    pub t1_eol: u16,
    pub t2_sol: u16,
    pub t2_eol: u16,
    pub t1_sof: u16,
    pub t1_eof: u16,
    pub t2_sof: u16,
    pub t2_eof: u16,
    pub vsync_gen: u16,
}

#[derive(Debug, Clone, Copy)]
pub struct SyncCode {
    pub norm_bk_sav: u16,
    pub norm_bk_eav: u16,
    pub norm_sav: u16,
    pub norm_eav: u16,
    pub n0_bk_sav: u16,
    pub n0_bk_eav: u16,
    pub n1_bk_sav: u16,
    pub n1_bk_eav: u16,
    pub slvds: Option<SublvdsSyncCode>,
    pub hispi: Option<HispiSyncCode>,
}

#[derive(Debug, Clone, Copy)]
pub struct ParamSublvds {
    pub v_front_porch: u16,
    pub lane_num: u16,
    pub hdr_hblank: [u16; 2],
    pub h_size: u16,
    pub hdr_mode: SublvdsHdr,
    pub endian: CifEndian,
    pub wrap_endian: CifEndian,
    pub fmt: SublvdsFmt,
    pub hdr_v_fp: u16,
    pub sync_code: SyncCode,
}

#[derive(Debug, Clone, Copy)]
pub struct ParamHispi {
    pub lane_num: u16,
    pub h_size: u16,
    pub mode: HispiMode,
    pub endian: CifEndian,
    pub wrap_endian: CifEndian,
    pub fmt: SublvdsFmt,
    pub sync_code: SyncCode,
}

#[derive(Debug, Clone, Copy)]
pub struct ParamTtl {
    pub fmt: TtlFmt,
    pub sensor_fmt: TtlSensorFmt,
    pub fmt_out: TtlBtFmtOut,
    pub width: u16,
    pub height: u16,
    pub v_bp: u16,
    pub h_bp: u16,
    pub clk_inv: u32,
    pub vi_sel: u32,
    pub vi_from: TtlViSrc,
}

#[derive(Debug, Clone, Copy)]
pub struct ParamCsi {
    pub lane_num: u16,
    pub fmt: CsiFmt,
    pub vs_gen_mode: CsiVsGenMode,
    pub hdr_mode: CsiHdrMode,
    pub data_type: [u16; 2],
    pub decode_type: u16,
    pub vc_mapping: [u8; 4],
}

#[derive(Debug, Clone, Copy)]
pub struct ParamBtdemux {
    pub fmt: TtlFmt,
    pub demux: BtDemuxMode,
    pub width: u16,
    pub height: u16,
    pub v_fp: u16,
    pub h_fp: u16,
    pub v_bp: u16,
    pub h_bp: u16,
    pub clk_inv: u32,
    pub sync_code_part_a: [u8; 3],
    pub sync_code_part_b: [BtDemuxSync; 4],
    pub yc_exchg: u8,
}

#[derive(Clone, Copy)]
pub struct CifParam {
    pub cif_type: CifType,
    pub cfg: CifCfg,
    pub hdr_manual: bool,
    pub hdr_shift: u16,
    pub hdr_vsize: u16,
    pub hdr_rm_padding: u16,
    pub info_line_num: u16,
    pub hdr_en: bool,
}

/// The parameters of one interface type.
#[derive(Clone, Copy)]
pub enum CifCfg {
    Sublvds(ParamSublvds),
    Hispi(ParamHispi),
    Ttl(ParamTtl),
    Csi(ParamCsi),
    Btdemux(ParamBtdemux),
}

/// The register value of a clock edge: rising 0, falling 1.
pub open spec fn clk_edge_value(e: ClkEdge) -> u32 {
    match e {
        ClkEdge::Up => 0,
        ClkEdge::Down => 1,
    }
}

pub fn clk_edge_code(e: ClkEdge) -> (v: u32)
    ensures
        v == clk_edge_value(e),
{
    match e {
        ClkEdge::Up => 0,
        ClkEdge::Down => 1,
    }
}

/// The register value of a TTL input mode: raw 1, BT.601 2, BT.656 3, BT.1120 4.
pub open spec fn ttl_vi_mode_value(m: TtlViMode) -> u32 {
    match m {
        TtlViMode::Raw => 1,
        TtlViMode::Bt601 => 2,
        TtlViMode::Bt656 => 3,
        TtlViMode::Bt1120 => 4,
    }
}

pub open spec fn zero_img_size() -> ImgSize {
    ImgSize { x: 0, y: 0, width: 0, height: 0 }
}

impl Default for ImgSize {
    fn default() -> (s: Self)
        ensures
            s == zero_img_size(),
    {
        ImgSize { x: 0, y: 0, width: 0, height: 0 }
    }
}

pub open spec fn default_manual_hdr() -> ManualHdrAttr {
    ManualHdrAttr { manual_en: false, l2s_distance: 0, lsef_length: 0, discard_padding_lines: false, update: false }
}

impl Default for ManualHdrAttr {
    fn default() -> (a: Self)
        ensures
            a == default_manual_hdr(),
    {
        ManualHdrAttr { manual_en: false, l2s_distance: 0, lsef_length: 0, discard_padding_lines: false, update: false }
    }
}

pub open spec fn default_combo_dev_attr() -> ComboDevAttr {
    ComboDevAttr {
        input_mode: InputMode::Mipi,
        mac_clk: RxMacClk::Clk400M,
        mclk: MclkPll { cam: 0, freq: CamPllFreq::Disabled },
        devno: 0,
        img_size: zero_img_size(),
        hdr_manu: default_manual_hdr(),
        mipi_attr: None,
        lvds_attr: None,
        ttl_attr: None,
        bt_demux_attr: None,
    }
}

impl Default for ComboDevAttr {
    fn default() -> (a: Self)
        ensures
            a == default_combo_dev_attr(),
    {
        ComboDevAttr {
            input_mode: InputMode::Mipi,
            mac_clk: RxMacClk::Clk400M,
            mclk: MclkPll { cam: 0, freq: CamPllFreq::Disabled },
            devno: 0,
            img_size: ImgSize::default(),
            hdr_manu: ManualHdrAttr::default(),
            mipi_attr: None,
            lvds_attr: None,
            ttl_attr: None,
            bt_demux_attr: None,
        }
    }
}

pub open spec fn zero_sublvds_sync() -> SublvdsSyncCode {
    SublvdsSyncCode {
        n0_lef_sav: 0,
        n0_lef_eav: 0,
        n0_sef_sav: 0,
        n0_sef_eav: 0,
        n1_lef_sav: 0,
        n1_lef_eav: 0,
        n1_sef_sav: 0,
        n1_sef_eav: 0,
        n0_lsef_sav: 0,
        n0_lsef_eav: 0,
        n1_lsef_sav: 0,
        n1_lsef_eav: 0,
    }
}

impl Default for SublvdsSyncCode {
    fn default() -> (c: Self)
        ensures
            c == zero_sublvds_sync(),
    {
        SublvdsSyncCode {
            n0_lef_sav: 0,
            n0_lef_eav: 0,
            n0_sef_sav: 0,
            n0_sef_eav: 0,
            n1_lef_sav: 0,
            n1_lef_eav: 0,
            n1_sef_sav: 0,
            n1_sef_eav: 0,
            n0_lsef_sav: 0,
            n0_lsef_eav: 0,
            n1_lsef_sav: 0,
            n1_lsef_eav: 0,
        }
    }
}

pub open spec fn zero_hispi_sync() -> HispiSyncCode {
    HispiSyncCode { t1_sol: 0, t1_eol: 0, t2_sol: 0, t2_eol: 0, t1_sof: 0, t1_eof: 0, t2_sof: 0, t2_eof: 0, vsync_gen: 0 }
}

impl Default for HispiSyncCode {
    fn default() -> (c: Self)
        ensures
            c == zero_hispi_sync(),
    {
        HispiSyncCode { t1_sol: 0, t1_eol: 0, t2_sol: 0, t2_eol: 0, t1_sof: 0, t1_eof: 0, t2_sof: 0, t2_eof: 0, vsync_gen: 0 }
    }
}

/// The standard sync codes, without the sub-LVDS and HiSPi extensions.
pub open spec fn default_sync_code() -> SyncCode {
    SyncCode {
        norm_bk_sav: 0xAB0,
        norm_bk_eav: 0xB60,
        norm_sav: 0x800,
        norm_eav: 0x9D0,
        n0_bk_sav: 0x2B0,
        n0_bk_eav: 0x360,
        n1_bk_sav: 0x6B0,
        n1_bk_eav: 0x760,
        slvds: None,
        hispi: None,
    }
}

impl Default for SyncCode {
    fn default() -> (c: Self)
        ensures
            c == default_sync_code(),
    {
        SyncCode {
            norm_bk_sav: 0xAB0,
            norm_bk_eav: 0xB60,
            norm_sav: 0x800,
            norm_eav: 0x9D0,
            n0_bk_sav: 0x2B0,
            n0_bk_eav: 0x360,
            n1_bk_sav: 0x6B0,
            n1_bk_eav: 0x760,
            slvds: None,
            hispi: None,
        }
    }
}

/// CSI with one lane of RAW10, virtual channels in order, no HDR.
pub open spec fn default_cif_param() -> CifParam {
    CifParam {
        cif_type: CifType::Csi,
        cfg: CifCfg::Csi(
            ParamCsi {
                lane_num: 0,
                fmt: CsiFmt::Raw10,
                vs_gen_mode: CsiVsGenMode::Fs,
                hdr_mode: CsiHdrMode::Vc,
                data_type: [0, 0],
                decode_type: 0,
                vc_mapping: [0, 1, 2, 3],
            },
        ),
        hdr_manual: false,
        hdr_shift: 0,
        hdr_vsize: 0,
        hdr_rm_padding: 0,
        info_line_num: 0,
        hdr_en: false,
    }
}

impl Default for CifParam {
    fn default() -> (p: Self)
        ensures
            p == default_cif_param(),
    {
        CifParam {
            cif_type: CifType::Csi,
            cfg: CifCfg::Csi(
                ParamCsi {
                    lane_num: 0,
                    fmt: CsiFmt::Raw10,
                    vs_gen_mode: CsiVsGenMode::Fs,
                    hdr_mode: CsiHdrMode::Vc,
                    data_type: [0, 0],
                    decode_type: 0,
                    vc_mapping: [0, 1, 2, 3],
                },
            ),
            hdr_manual: false,
            hdr_shift: 0,
            hdr_vsize: 0,
            hdr_rm_padding: 0,
            info_line_num: 0,
            hdr_en: false,
        }
    }
}

} // verus!
