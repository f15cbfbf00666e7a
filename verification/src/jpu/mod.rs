//! SG2002 JPU (JPEG Processing Unit) driver: header parsing, frame layout,
//! DMA buffer pool and the register programming of a baseline decode.
pub mod header;
pub mod layout;
pub mod mem;
pub mod engine;
pub mod decoder;
pub mod regs;

pub use decoder::{DecodeResult, JpuDecoder, JpuMmio};
pub use layout::{
    Extent, FrameLayout, FrameLayoutError, JpuPixelFormat, JpuScale, PlaneLayout,
};
