use std::collections::HashMap;

use sg200x_bsp::camera::gc4653::{get_black_level, get_noise_calibration_index};
use sg200x_bsp::cif::drv::{cif_set_lane_id, cif_streaming, CifDrvCtx, REG_PHY_4L_0C};
use sg200x_bsp::cif::types::{CifType, ComboDevAttr, InputMode, LaneId, TtlDevAttr, TtlViSrc};
use sg200x_bsp::cif::{CifDev, CifError};
use sg200x_bsp::jpu::decoder::{decode_layout_fits_check, JpuDecoder};
use sg200x_bsp::jpu::engine::huff_tables_fit_check;
use sg200x_bsp::jpu::header::{header_faults, parse_jpeg_header};
use sg200x_bsp::jpu::mem::{phys_slice, PhysBuffer};
use sg200x_bsp::mmio::{Mmio, RegisterBus};
use sg200x_bsp::pwm::Pwm;

/// A register file whose memory reads hand back fewer bytes than asked.
struct ShortBus {
    regs: HashMap<(usize, usize), u64>,
    writes: usize,
}

impl ShortBus {
    fn new() -> Self {
        ShortBus { regs: HashMap::new(), writes: 0 }
    }
}

impl RegisterBus for ShortBus {
    fn read32(&mut self, base: usize, offset: usize) -> u32 {
        *self.regs.get(&(base, offset)).unwrap_or(&0) as u32
    }
    fn write32(&mut self, base: usize, offset: usize, value: u32) {
        self.writes += 1;
        self.regs.insert((base, offset), value as u64);
    }
    fn read64(&mut self, base: usize, offset: usize) -> u64 {
        *self.regs.get(&(base, offset)).unwrap_or(&0)
    }
    fn write64(&mut self, base: usize, offset: usize, value: u64) {
        self.writes += 1;
        self.regs.insert((base, offset), value);
    }
    fn delay(&mut self, _units: u32) {}
    fn copy_to_phys(&mut self, _addr: usize, _data: &[u8], _len: usize) {}
    fn dcache_clean(&mut self, _addr: usize, _len: usize) {}
    fn dcache_invalidate(&mut self, _addr: usize, _len: usize) {}
    fn dma_address(&mut self, cpu_addr: usize) -> usize {
        cpu_addr
    }
    fn instruction_fence(&mut self) {}
    fn memory_fence(&mut self) {}
    fn copy_from_phys(&mut self, _addr: usize, len: usize) -> Vec<u8> {
        vec![7; len / 2]
    }
}

#[test]
fn noise_calibration_index_is_the_nearest_iso_step() {
    assert_eq!(get_noise_calibration_index(0), 0);
    assert_eq!(get_noise_calibration_index(100), 0);
    assert_eq!(get_noise_calibration_index(120), 0);
    assert_eq!(get_noise_calibration_index(150), 0);
    assert_eq!(get_noise_calibration_index(151), 1);
    assert_eq!(get_noise_calibration_index(700), 3);
    assert_eq!(get_noise_calibration_index(3_276_800), 15);
    assert_eq!(get_noise_calibration_index(u32::MAX), 15);
    assert_eq!(get_black_level(120), get_black_level(100));
}

#[test]
fn streaming_a_csi_link_with_no_lane_sets_no_deskew_bit() {
    let mut m = Mmio::new(ShortBus::new());
    let ctx = CifDrvCtx::new(0);
    let lanes = ctx.wrap_4l();
    m.write32(lanes, REG_PHY_4L_0C, 0x30);
    cif_streaming(&mut m, &ctx, true, CifType::Csi, 0);
    assert_eq!(m.read32(lanes, REG_PHY_4L_0C), 0x30);
    cif_streaming(&mut m, &ctx, true, CifType::Csi, 2);
    assert_eq!(m.read32(lanes, REG_PHY_4L_0C), 0x33);
}

#[test]
fn data_lane_accepts_any_pin_select() {
    let mut m = Mmio::new(ShortBus::new());
    let ctx = CifDrvCtx::new(0);
    let lanes = ctx.wrap_4l();
    cif_set_lane_id(&mut m, &ctx, LaneId::Lane1, 40, true);
    assert_eq!(m.read32(lanes, 0x04), (40 & 0x7) << 4);
    assert_eq!(m.read32(lanes, 0x08), 0x1000);
}

#[test]
fn parallel_attribute_with_an_invalid_devno_is_refused_first() {
    let mut m = Mmio::new(ShortBus::new());
    let mut dev = CifDev::new(0);
    let mut attr = ComboDevAttr::default();
    attr.devno = 3;
    attr.input_mode = InputMode::Bt1120;
    attr.img_size.width = 0;
    attr.img_size.height = 0;
    attr.ttl_attr = Some(TtlDevAttr { vi: TtlViSrc::Vi0, func: [-1; 19], v_bp: 0, h_bp: 0 });
    assert_eq!(dev.set_dev_attr(&mut m, &attr), Err(CifError::InvalidDevno));
    assert_eq!(m.into_bus().writes, 0);
}

#[test]
fn pwm_from_base_address_uses_the_given_base() {
    let p = Pwm::from_base_address(0x1234_0000, sg200x_bsp::pwm::instances::PwmInstance::Pwm1);
    assert_eq!(p.instance(), sg200x_bsp::pwm::instances::PwmInstance::Pwm1);
}

#[test]
fn phys_slice_gives_exactly_the_requested_length() {
    let mut m = Mmio::new(ShortBus::new());
    let buf = PhysBuffer { addr: 0x8000, size: 64 };
    let v = phys_slice(&mut m, &buf, 10).unwrap();
    assert_eq!(v, vec![7, 7, 7, 7, 7, 0, 0, 0, 0, 0]);
    assert!(phys_slice(&mut m, &buf, 65).is_err());
}

/// A baseline JPEG header whose first Huffman table claims 300 values, more
/// than the upload can hold, but whose segment ends before they are present.
fn oversized_dht_jpeg() -> Vec<u8> {
    let mut j = vec![0xFF, 0xD8];
    j.extend_from_slice(&[0xFF, 0xC0, 0x00, 0x11, 0x08, 0x00, 0x10, 0x00, 0x10, 0x03]);
    j.extend_from_slice(&[0x01, 0x22, 0x00, 0x02, 0x11, 0x01, 0x03, 0x11, 0x01]);
    j.extend_from_slice(&[0xFF, 0xC4, 0x00, 0x13, 0x00]);
    let mut counts = [0u8; 16];
    counts[0] = 255;
    counts[1] = 45;
    j.extend_from_slice(&counts);
    j.extend_from_slice(&[0xFF, 0xDA, 0x00, 0x0C, 0x03, 0x01, 0x00, 0x02, 0x11, 0x03, 0x11, 0x00, 0x3F, 0x00]);
    j
}

#[test]
fn header_checks_tell_what_the_decoder_needs() {
    let jpeg = oversized_dht_jpeg();
    assert!(!header_faults(&jpeg));
    let h = parse_jpeg_header(&jpeg).unwrap();
    assert_eq!((h.width, h.height), (16, 16));
    assert!(!huff_tables_fit_check(&h));
    assert!(decode_layout_fits_check(h.format, h.width, h.height));
    assert!(!decode_layout_fits_check(h.format, u32::MAX, u32::MAX));
    let mut bad_dqt = vec![0xFF, 0xD8, 0xFF, 0xDB, 0x00, 0x43, 0x05];
    bad_dqt.extend_from_slice(&[1u8; 64]);
    assert!(header_faults(&bad_dqt));
}

#[test]
fn decode_refuses_a_small_output_buffer_before_uploading_tables() {
    let bus = ShortBus::new();
    let mut d = JpuDecoder::new_at_skip_hw_init_with_pool(bus, 0x0B00_0000, 0x0300_0000, 0x0B03_0000, 0x8000_0000, 0x40_0000)
        .ok()
        .unwrap();
    d.set_output_buffer(0x9000_0000, 16);
    assert_eq!(d.decode(&oversized_dht_jpeg()).err(), Some("output buffer too small"));
}
