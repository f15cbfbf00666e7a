use std::collections::HashMap;

use sg200x_bsp::camera::gc4653::{get_black_level, is_valid_i2c_addr, Gc4653};
use sg200x_bsp::cif::examples::{
    calculate_histogram, convert_raw10_to_raw16, create_mipi_attr_for_gc4653, create_sublvds_attr,
    init_cif_for_mipi,
};
use sg200x_bsp::cif::frame::{
    calc_raw_buffer_size, calc_yuv_buffer_size, CaptureConfig, CaptureError, CaptureState, FrameCapture,
    PixelFormat,
};
use sg200x_bsp::cif::types::{InputMode, RawDataType as CifRawDataType};
use sg200x_bsp::cif::CifDev;
use sg200x_bsp::dma::regs::{CTL_LLI_LAST, CTL_LLI_VALID};
use sg200x_bsp::dma::regs::{
    CH_EN_WE_OFFSET, CH_INT_CLEAR_OFFSET, CH_PAUSE_EN_OFFSET, DMA_CFG_OFFSET, DMA_CH_EN_OFFSET,
    DMA_RESET_OFFSET,
};
use sg200x_bsp::dma::{prepare_memcpy_lli, DmaController, DmaLli};
use sg200x_bsp::ethernet::nic::{choose_mac, select_link_mode};
use sg200x_bsp::mipirx::phy::MipiRxPhy;
use sg200x_bsp::mipirx::regs::{
    DPHY_REG_04, MIPIRX_DPHY_2L_BASE, MIPIRX_DPHY_4L_BASE, MIPIRX_PHY_TOP_BASE, PHY_REG_00, PHY_REG_30,
    PHY_REG_80,
};
use sg200x_bsp::mipirx::types::{LaneId, MipiRxDevAttr, MipiRxError, PhyMode, SensorMode};
use sg200x_bsp::mipirx::MipiRx;
use sg200x_bsp::i2c::{I2c, I2cError, I2cInstance, I2C0_BASE};
use sg200x_bsp::mmio::{Mmio, RegisterBus};

/// A register file: reads give what was last written (zero before).
struct FakeBus {
    regs: HashMap<(usize, usize), u64>,
}

impl FakeBus {
    fn new() -> Self {
        FakeBus { regs: HashMap::new() }
    }
}

impl RegisterBus for FakeBus {
    fn read32(&mut self, base: usize, offset: usize) -> u32 {
        *self.regs.get(&(base, offset)).unwrap_or(&0) as u32
    }
    fn write32(&mut self, base: usize, offset: usize, value: u32) {
        self.regs.insert((base, offset), value as u64);
    }
    fn read64(&mut self, base: usize, offset: usize) -> u64 {
        *self.regs.get(&(base, offset)).unwrap_or(&0)
    }
    fn write64(&mut self, base: usize, offset: usize, value: u64) {
        self.regs.insert((base, offset), value);
    }
    fn delay(&mut self, _units: u32) {}
    fn copy_to_phys(&mut self, _addr: usize, _data: &[u8], _len: usize) {}
    fn dcache_clean(&mut self, _addr: usize, _len: usize) {}
    fn dcache_invalidate(&mut self, _addr: usize, _len: usize) {}
    fn dma_address(&mut self, cpu_addr: usize) -> usize {
        cpu_addr
    }
    fn instruction_fence(&mut self) {}
    fn memory_fence(&mut self) {}
    fn copy_from_phys(&mut self, _addr: usize, len: usize) -> Vec<u8> {
        vec![0; len]
    }
}

#[test]
fn phy_lane_clock_inversion_sets_and_clears_one_bit() {
    let mut m = Mmio::new(FakeBus::new());
    let phy = MipiRxPhy::new();
    m.write32(MIPIRX_PHY_TOP_BASE, PHY_REG_80, 0x21);
    phy.set_lane_clk_invert(&mut m, LaneId::Lane3, true);
    assert_eq!(m.read32(MIPIRX_PHY_TOP_BASE, PHY_REG_80), 0x29);
    phy.set_lane_clk_invert(&mut m, LaneId::Lane0, false);
    assert_eq!(m.read32(MIPIRX_PHY_TOP_BASE, PHY_REG_80), 0x28);
}

#[test]
fn phy_mode_reads_back_and_defaults() {
    let mut m = Mmio::new(FakeBus::new());
    let phy = MipiRxPhy::new();
    phy.set_phy_mode(&mut m, PhyMode::Mode1C2D_1C2D);
    assert_eq!(m.read32(MIPIRX_PHY_TOP_BASE, PHY_REG_30), 1);
    assert_eq!(phy.get_phy_mode(&mut m), PhyMode::Mode1C2D_1C2D);
    m.write32(MIPIRX_PHY_TOP_BASE, PHY_REG_30, 0x7);
    assert_eq!(phy.get_phy_mode(&mut m), PhyMode::Mode1C4D);
}

#[test]
fn phy_power_off_sets_bias_and_receiver_bits() {
    let mut m = Mmio::new(FakeBus::new());
    let phy = MipiRxPhy::new();
    phy.power_off(&mut m);
    assert_eq!(m.read32(MIPIRX_PHY_TOP_BASE, PHY_REG_00), 0x4000 | 0x3f_0000);
    phy.power_on(&mut m);
    assert_eq!(m.read32(MIPIRX_PHY_TOP_BASE, PHY_REG_00), 0);
}

#[test]
fn phy_calibration_result_out_of_range_is_zero() {
    let mut m = Mmio::new(FakeBus::new());
    let phy = MipiRxPhy::new();
    m.write32(MIPIRX_DPHY_2L_BASE, 0x10c + 0x40 + 8, 0xabcd);
    assert_eq!(phy.get_lane_calib_result(&mut m, 1, 1, 2), 0xabcd);
    assert_eq!(phy.get_lane_calib_result(&mut m, 1, 4, 2), 0);
    assert_eq!(phy.get_lane_calib_result(&mut m, 1, 1, 8), 0);
    phy.enable_lane_calibration(&mut m, 0, 2);
    assert_eq!(m.read32(MIPIRX_DPHY_4L_BASE, 0x104 + 0x80), 1);
    phy.configure_lane_calibration(&mut m, 0, 1, 0x10, 0x20, 0x30);
    assert_eq!(m.read32(MIPIRX_DPHY_4L_BASE, 0x100 + 0x40), 0x3020_1000);
}

#[test]
fn phy_sensor_mode_round_trip() {
    let mut m = Mmio::new(FakeBus::new());
    let phy = MipiRxPhy::new();
    phy.set_sensor_mode(&mut m, 1, SensorMode::SubLvds);
    assert_eq!(phy.get_sensor_mode(&mut m, 1), SensorMode::SubLvds);
    assert_eq!(phy.get_sensor_mode(&mut m, 0), SensorMode::Csi);
}

#[test]
fn mipirx_configure_refuses_third_controller() {
    let mut m = Mmio::new(FakeBus::new());
    let mut rx = MipiRx::new();
    let mut attr = MipiRxDevAttr::default();
    attr.devno = 2;
    assert_eq!(rx.configure(&mut m, &attr), Err(MipiRxError::InvalidDevno));
    assert_eq!(rx.enable(&mut m, 2), Err(MipiRxError::InvalidDevno));
}

#[test]
fn mipirx_configure_routes_lanes_of_port_one() {
    let mut m = Mmio::new(FakeBus::new());
    let mut rx = MipiRx::new();
    let mut attr = MipiRxDevAttr::default();
    attr.devno = 1;
    attr.lane_id = [-1, 2, 0, 1];
    assert_eq!(rx.configure(&mut m, &attr), Ok(()));
    assert_eq!(m.read32(MIPIRX_DPHY_2L_BASE, DPHY_REG_04), 0x1020);
}

#[test]
fn mipirx_enable_disable_reset() {
    let mut m = Mmio::new(FakeBus::new());
    let mut rx = MipiRx::new();
    rx.init(&mut m);
    assert!(!rx.is_enabled(0));
    assert_eq!(rx.enable(&mut m, 1), Ok(()));
    assert!(rx.is_enabled(1));
    assert!(!rx.is_enabled(0));
    assert_eq!(rx.reset(&mut m, 1), Ok(()));
    assert!(!rx.is_enabled(1));
    assert_eq!(rx.enable(&mut m, 0), Ok(()));
    rx.shutdown(&mut m);
    assert!(!rx.is_enabled(0));
    assert!(rx.get_status(&mut m, 3).is_none());
    assert!(!rx.has_error(&mut m, 0));
}

#[test]
fn frame_capture_refuses_configuration_before_init() {
    let mut cap = FrameCapture::new(0);
    let config = CaptureConfig { width: 64, height: 2, format: PixelFormat::Raw8, buffer_count: 2 };
    assert_eq!(cap.configure(&config), Err(CaptureError::NotInitialized));
    assert_eq!(cap.start(), Err(CaptureError::NotInitialized));
    cap.init(CifDev::new(0));
    let bad = CaptureConfig { buffer_count: 5, ..config };
    assert_eq!(cap.configure(&bad), Err(CaptureError::InvalidConfig));
    let none = CaptureConfig { buffer_count: 0, ..config };
    assert_eq!(cap.configure(&none), Err(CaptureError::InvalidConfig));
}

#[test]
fn frame_capture_rotates_through_buffers() {
    let mut cap = FrameCapture::new(0);
    cap.init(CifDev::new(0));
    let config = CaptureConfig { width: 64, height: 2, format: PixelFormat::Raw10, buffer_count: 2 };
    assert_eq!(cap.configure(&config), Ok(()));
    assert_eq!(cap.get_frame(10), Err(CaptureError::NotInitialized));
    let addrs = [0x1000usize, 0x2000];
    assert_eq!(cap.allocate_buffers(&addrs, &[256, 100]), Err(CaptureError::BufferTooSmall));
    assert_eq!(cap.allocate_buffers(&addrs[..1], &[256]), Err(CaptureError::BufferTooSmall));
    assert_eq!(cap.allocate_buffers(&addrs, &[256, 300]), Ok(()));
    assert_eq!(cap.start(), Ok(()));
    assert_eq!(cap.state(), CaptureState::Capturing);
    let f0 = cap.get_frame(10).unwrap();
    assert_eq!(f0.phy_addr, 0x1000);
    assert_eq!(f0.stride, 128);
    assert_eq!(f0.size, 256);
    let f1 = cap.get_frame(10).unwrap();
    assert_eq!(f1.phy_addr, 0x2000);
    assert_eq!(f1.size, 300);
    let f2 = cap.get_frame(10).unwrap();
    assert_eq!(f2.phy_addr, 0x1000);
    assert_eq!(cap.release_frame(&f2), Ok(()));
    assert!(!cap.is_frame_ready());
    assert_eq!(cap.get_error_stats().map(|s| s.errcnt_crc), Some(0));
    assert_eq!(cap.stop(), Ok(()));
    assert_eq!(cap.state(), CaptureState::Idle);
}

#[test]
fn frame_buffer_sizes() {
    assert_eq!(calc_raw_buffer_size(2560, 1440, PixelFormat::Raw10), 7_372_800);
    assert_eq!(calc_raw_buffer_size(2560, 1440, PixelFormat::Raw8), 3_686_400);
    assert_eq!(calc_yuv_buffer_size(640, 480, PixelFormat::Nv12), 460_800);
    assert_eq!(calc_yuv_buffer_size(640, 480, PixelFormat::Yuv422_10), 1_228_800);
    assert_eq!(calc_yuv_buffer_size(640, 480, PixelFormat::Yuv422_8), 614_400);
}

#[test]
fn raw10_unpacks_groups_of_five_bytes() {
    let src = [0x10u8, 0x20, 0x30, 0x40, 0xE4, 0xFF, 0x00, 0x80, 0x01, 0x1B];
    let mut dst = [0u16; 8];
    convert_raw10_to_raw16(&src, &mut dst, 4, 2);
    assert_eq!(dst, [0x40, 0x81, 0xC2, 0x103, 0x3FF, 0x2, 0x201, 0x4]);
}

#[test]
fn raw10_skips_a_group_past_the_source() {
    let src = [1u8, 2, 3, 4];
    let mut dst = [7u16; 4];
    convert_raw10_to_raw16(&src, &mut dst, 4, 1);
    assert_eq!(dst, [7, 7, 7, 7]);
}

#[test]
fn histogram_counts_ten_bit_values() {
    let data = [1u16, 2, 2, 1023, 1024, 5, 9];
    let mut hist = [9u32; 1024];
    calculate_histogram(&data, 3, 2, &mut hist);
    assert_eq!(hist[1], 1);
    assert_eq!(hist[2], 2);
    assert_eq!(hist[1023], 1);
    assert_eq!(hist[5], 1);
    assert_eq!(hist[9], 0);
    assert_eq!(hist.iter().map(|&c| c as u64).sum::<u64>(), 5);
}

#[test]
fn example_attributes() {
    let a = create_mipi_attr_for_gc4653();
    assert_eq!(a.input_mode, InputMode::Mipi);
    assert_eq!(a.img_size.width, 2560);
    assert_eq!(a.img_size.height, 1440);
    let m = a.mipi_attr.unwrap();
    assert_eq!(m.lane_id, [2, 1, 3, -1, -1]);
    assert_eq!(m.raw_data_type, CifRawDataType::Raw10Bit);
    assert_eq!(m.data_type, [0x2B, 0]);
    let s = create_sublvds_attr();
    assert_eq!(s.input_mode, InputMode::Sublvds);
    assert_eq!(s.img_size.width, 1920);
    assert_eq!(s.lvds_attr.unwrap().lane_id, [0, 1, 2, 3, -1]);
}

#[test]
fn cif_bring_up_for_gc4653() {
    let mut m = Mmio::new(FakeBus::new());
    let dev = init_cif_for_mipi(&mut m).unwrap();
    assert_eq!(dev.devno, 0);
    assert!(dev.links[0].is_on);
}

fn lli_array(n: usize) -> Vec<DmaLli> {
    (0..n).map(|_| DmaLli::new()).collect()
}

#[test]
fn memcpy_chain_of_full_blocks() {
    let mut items = lli_array(8);
    let n = prepare_memcpy_lli(&mut items, 0x8000_0000, 0x1000, 0x2000, 4096, 1024, 4);
    assert_eq!(n, 4);
    for k in 0..4usize {
        assert_eq!(items[k].sar, 0x1000 + 1024 * k as u64);
        assert_eq!(items[k].dar, 0x2000 + 1024 * k as u64);
        assert_eq!(items[k].block_ts, 255);
        assert_ne!(items[k].ctl & CTL_LLI_VALID, 0);
    }
    assert_eq!(items[0].llp, 0x8000_0040);
    assert_eq!(items[2].llp, 0x8000_00C0);
    assert_eq!(items[3].llp, 0);
    assert_ne!(items[3].ctl & CTL_LLI_LAST, 0);
    assert_eq!(items[2].ctl & CTL_LLI_LAST, 0);
    assert_eq!(items[4], DmaLli::new());
}

#[test]
fn memcpy_chain_with_short_last_block_and_truncation() {
    let mut items = lli_array(8);
    let n = prepare_memcpy_lli(&mut items, 0, 0x1000, 0x2000, 4096, 1000, 4);
    assert_eq!(n, 5);
    assert_eq!(items[3].block_ts, 249);
    assert_eq!(items[4].sar, 0x1000 + 4000);
    assert_eq!(items[4].block_ts, 23);
    let mut two = lli_array(2);
    assert_eq!(prepare_memcpy_lli(&mut two, 0, 0x1000, 0x2000, 4096, 1024, 4), 2);
    assert_ne!(two[1].ctl & CTL_LLI_LAST, 0);
    let mut none = lli_array(0);
    assert_eq!(prepare_memcpy_lli(&mut none, 0, 0, 0, 64, 64, 4), 0);
    let mut one = lli_array(1);
    assert_eq!(prepare_memcpy_lli(&mut one, 0, 0, 0, 0, 64, 4), 0);
}

#[test]
fn memcpy_width_follows_alignment() {
    let mut items = lli_array(1);
    let n = prepare_memcpy_lli(&mut items, 0, 0x1001, 0x2000, 8, 64, 8);
    assert_eq!(n, 1);
    assert_eq!(items[0].block_ts, 7);
}

#[test]
fn ethernet_link_mode_and_mac() {
    assert_eq!(select_link_mode(0x1E1, 0x1E1), (true, true));
    assert_eq!(select_link_mode(0x0A1, 0x0A1), (true, false));
    assert_eq!(select_link_mode(0x061, 0x041), (false, true));
    assert_eq!(select_link_mode(0x021, 0x021), (false, false));
    assert_eq!(choose_mac([0; 6]), [0x00, 0x50, 0x43, 0x02, 0x02, 0x02]);
    assert_eq!(choose_mac([0xff; 6]), [0x00, 0x50, 0x43, 0x02, 0x02, 0x02]);
    assert_eq!(choose_mac([1, 2, 3, 4, 5, 6]), [1, 2, 3, 4, 5, 6]);
}

#[test]
fn gc4653_gain_table_and_tables() {
    assert_eq!(Gc4653::calc_again_index(1024), (0, 64));
    assert_eq!(Gc4653::calc_again_index(u32::MAX), (25, 64));
    assert_eq!(Gc4653::get_gain_from_table(1), Some(1200));
    assert_eq!(Gc4653::get_gain_from_table(26), None);
    assert_eq!(Gc4653::gain_table_len(), 26);
    assert_eq!(get_black_level(100), [255, 255, 255, 255]);
    assert!(is_valid_i2c_addr(0x10));
    assert!(is_valid_i2c_addr(0x29));
    assert!(!is_valid_i2c_addr(0x30));
}

#[test]
fn cif_link_mut_changes_one_link() {
    let mut dev = CifDev::new(0);
    dev.link_mut(1).unwrap().crop_top = 7;
    assert_eq!(dev.links[1].crop_top, 7);
    assert_eq!(dev.links[0].crop_top, 0);
    assert!(dev.link_mut(3).is_none());
}

#[test]
fn i2c_write_sends_bytes_with_stop_on_the_last() {
    let mut m = Mmio::new(FakeBus::new());
    let i2c = I2c::new(I2cInstance::I2c0);
    let base = I2C0_BASE;
    m.write32(base, 0x070, 0x2 | 0x4);
    assert_eq!(i2c.write(&mut m, 0x50, &[0x00, 0x01, 0x02]), Ok(()));
    assert_eq!(m.read32(base, 0x010), 0x02 | (1 << 9));
    m.write32(base, 0x070, 0x1 | 0x2);
    assert_eq!(i2c.write(&mut m, 0x50, &[0x07]), Err(I2cError::Timeout));
}

#[test]
fn dma_controller_init_sets_priorities_and_clears_interrupts() {
    let base = 0x0410_0000usize;
    let mut mmio = Mmio::new(FakeBus::new());
    let mut dma = DmaController::new(base);
    dma.block_size = 0x40;
    dma.init(&mut mmio);
    for i in 0..8usize {
        assert_eq!(dma.channels[i].priority, (7 - i) as u8);
        assert_eq!(dma.channels[i].block_size, 0x40);
        let ch_base = base + 0x100 + i * 0x100;
        assert_eq!(mmio.read64(ch_base, CH_INT_CLEAR_OFFSET), 0xFFFF_FFFF);
    }
    assert_eq!(mmio.read64(base, DMA_RESET_OFFSET), 1);
    assert_eq!(mmio.read64(base, DMA_CFG_OFFSET), 0);
    assert_eq!(
        mmio.read64(base, DMA_CH_EN_OFFSET),
        (0xFFu64 << CH_EN_WE_OFFSET) | (0xFFu64 << CH_PAUSE_EN_OFFSET)
    );
}
