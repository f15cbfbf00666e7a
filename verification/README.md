# sg200x-bsp

Board support library for the Sophgo SG2002 / SG200x SoCs, written in Verus:
drivers for pinmux, GPIO, I2C, PWM, the reset controller, the secondary
core, the AXI DMA controller, the GMAC Ethernet controller, the camera
interface (CIF) and MIPI receiver, the GC4653 image sensor, the image video
engine and the JPEG decoder.

Every driver reaches the hardware through `mmio::Mmio`, a handle over a
platform `RegisterBus` that records each access in a ghost trace (register
reads and writes with their values, memory copies with their bytes, cache
maintenance and fences); the driver contracts state the accesses an
operation performs, in order, and what it returns for the values it reads.

Layout:

- `src/` — the verified library, one module per peripheral.
- `tests/` — tests of the library against register-file and memory models of
  the bus.
- `app/` — the platform side: the memory-mapped bus of the chip, the
  floating-point parts of the sensor driver, the JPEG decoder's progress
  marker, and walk-throughs of the camera interface.
