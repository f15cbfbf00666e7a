//! D-PHY lane state and lane settings of the camera interface.
use super::types::{CifClkDir, CifClkEdge, LaneId, PhyLaneId};
use super::CifCtx;
use vstd::prelude::*;

verus! {

/// The decoded D-PHY state register.
#[derive(Debug, Clone, Copy, PartialEq, Eq, Structural)]
pub struct MipiPhyState {
    pub clk_hs_state: bool,
    pub clk_ulps_state: bool,
    pub clk_stop_state: bool,
    pub clk_err_state: bool,
    pub p1_clk_hs_state: bool,
    pub p1_clk_ulps_state: bool,
    pub p1_clk_stop_state: bool,
    pub p1_clk_err_state: bool,
    pub d0_datahs_state: u8,
    pub d1_datahs_state: u8,
    pub d2_datahs_state: u8,
    pub d3_datahs_state: u8,
    pub deskew_state: u8,
    pub p1_deskew_state: u8,
}

/// The fields of the D-PHY state register value `raw`.
pub open spec fn phy_state_of(raw: u32) -> MipiPhyState {
    MipiPhyState {
        clk_hs_state: raw & 0x1 != 0,
        clk_ulps_state: raw & 0x2 != 0,
        clk_stop_state: raw & 0x4 != 0,
        clk_err_state: raw & 0x8 != 0,
        p1_clk_hs_state: raw & 0x10 != 0,
        p1_clk_ulps_state: raw & 0x20 != 0,
        p1_clk_stop_state: raw & 0x40 != 0,
        p1_clk_err_state: raw & 0x80 != 0,
        d0_datahs_state: ((raw >> 8u32) & 0x7) as u8,
        d1_datahs_state: ((raw >> 12u32) & 0x7) as u8,
        d2_datahs_state: ((raw >> 16u32) & 0x7) as u8,
        d3_datahs_state: ((raw >> 20u32) & 0x7) as u8,
        deskew_state: ((raw >> 24u32) & 0x3) as u8,
        p1_deskew_state: ((raw >> 26u32) & 0x3) as u8,
    }
}

impl MipiPhyState {
    /// Decodes the D-PHY state register value `raw`.
    pub fn from_raw(raw: u32) -> (s: Self)
        ensures
            s == phy_state_of(raw),
    {
        MipiPhyState {
            clk_hs_state: raw & 0x1 != 0,
            clk_ulps_state: raw & 0x2 != 0,
            clk_stop_state: raw & 0x4 != 0,
            clk_err_state: raw & 0x8 != 0,
            p1_clk_hs_state: raw & 0x10 != 0,
            p1_clk_ulps_state: raw & 0x20 != 0,
            p1_clk_stop_state: raw & 0x40 != 0,
            p1_clk_err_state: raw & 0x80 != 0,
            d0_datahs_state: ((raw >> 8u32) & 0x7) as u8,
            d1_datahs_state: ((raw >> 12u32) & 0x7) as u8,
            d2_datahs_state: ((raw >> 16u32) & 0x7) as u8,
            d3_datahs_state: ((raw >> 20u32) & 0x7) as u8,
            deskew_state: ((raw >> 24u32) & 0x3) as u8,
            p1_deskew_state: ((raw >> 26u32) & 0x3) as u8,
        }
    }
}

impl From<u32> for MipiPhyState {
    fn from(raw: u32) -> (s: Self) {
        MipiPhyState::from_raw(raw)
    }
}

impl vstd::std_specs::convert::FromSpecImpl<u32> for MipiPhyState {
    open spec fn obeys_from_spec() -> bool {
        true
    }

    open spec fn from_spec(raw: u32) -> Self {
        phy_state_of(raw)
    }
}

/// Records a lane's pin selection and polarity (nothing is written).
pub fn set_lane_id(ctx: &CifCtx, lane: LaneId, select: u32, pn_swap: bool) {
}

/// Records a lane's deskew phase (nothing is written).
pub fn set_lane_deskew(ctx: &CifCtx, lane: PhyLaneId, phase: u8) {
}

/// A lane's data; no register is read, so 0.
pub fn get_lane_data(ctx: &CifCtx, lane: PhyLaneId) -> (d: u8)
    ensures
        d == 0,
{
    0
}

/// Records a lane's sampling clock edge (nothing is written).
pub fn set_clk_edge(ctx: &CifCtx, lane: PhyLaneId, edge: CifClkEdge) {
}

/// Records the clock direction between the two ports (nothing is written).
pub fn set_clk_dir(ctx: &CifCtx, dir: CifClkDir) {
}

/// The CSI D-PHY state; no register is read, so the state of an all-zero value.
pub fn get_csi_phy_state(ctx: &CifCtx) -> (s: MipiPhyState)
    ensures
        s == phy_state_of(0),
{
    MipiPhyState::from_raw(0)
}

/// Lanes above 2 belong to port 1.
pub fn lane_is_port1(lane: i16) -> (b: bool)
    ensures
        b == (lane > 2),
{
    lane > 2
}

/// Whether two lanes belong to the same port.
pub fn is_same_port(lane1: i16, lane2: i16) -> (b: bool)
    ensures
        b == ((lane1 > 2) == (lane2 > 2)),
{
    lane_is_port1(lane1) == lane_is_port1(lane2)
}

/// How a lane is skewed against the clock.
#[derive(Debug, Clone, Copy, PartialEq, Eq, Structural)]
pub enum LaneSkewType {
    CrossClk,
    CrossDataNear,
    CrossDataFar,
    Clk,
    Data,
}

impl LaneSkewType {
    /// The deskew phase of the skew type; -1 for none.
    pub fn phase(&self) -> (p: i32)
        ensures
            p == match *self {
                LaneSkewType::CrossClk => -1i32,
                LaneSkewType::Clk => -1i32,
                _ => 0x10i32,
            },
    {
        match self {
            LaneSkewType::CrossClk => -1,
            LaneSkewType::CrossDataNear => 0x10,
            LaneSkewType::CrossDataFar => 0x10,
            LaneSkewType::Clk => -1,
            LaneSkewType::Data => 0x10,
        }
    }
}

} // verus!
