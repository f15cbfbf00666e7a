//! Board support for the SG2002 / SG200x SoC family: pin multiplexing, GPIO,
//! I2C, PWM, reset control, DMA, camera input and the JPEG decoder.
pub mod mmio;
pub mod soc;
pub mod jpu;
pub mod camera;
pub mod pwm;
pub mod gpio;
pub mod i2c;
pub mod dma;
pub mod ethernet;
pub mod cif;
pub mod mipirx;
pub mod pinmux;
pub mod rstc;
pub mod mp;
pub mod ive;
