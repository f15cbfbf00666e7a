//! CMOS image sensor drivers.  The GC4653 (2560x1440 at 30 fps, RAW10 over
//! two MIPI lanes, 27 MHz master clock) is controlled over I2C: probing,
//! initialisation, exposure, gain, frame rate, mirror and flip.
pub mod gc4653;

pub use gc4653::{
    Gc4653, Gc4653Error, LinearRegs, MipiHdrMode, MipiInputMode, MipiRxAttr, MirrorFlip,
    RawDataType, SensorState, GC4653_HEIGHT, GC4653_I2C_ADDR_ALT, GC4653_I2C_ADDR_DEFAULT,
    GC4653_WIDTH,
};
