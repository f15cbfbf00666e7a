//! The on-chip Ethernet controller (DesignWare MAC 3.70a with an internal
//! PHY): register map, DMA descriptors, MDIO access and the polled driver.
pub mod desc;
pub mod mdio;
pub mod nic;
pub mod regs;

pub use nic::{CvitekEthNic, EthDmaRegion, EthError, EthResult, RxToken, ETH_BASE};
