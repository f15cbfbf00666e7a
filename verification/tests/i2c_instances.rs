use sg200x_bsp::i2c::{I2cClockConfig, I2cInstance, I2cSpeed};

#[test]
fn test_i2c_base_addresses() {
    assert_eq!(I2cInstance::I2c0.base_address(), 0x0400_0000);
    assert_eq!(I2cInstance::I2c1.base_address(), 0x0401_0000);
    assert_eq!(I2cInstance::I2c2.base_address(), 0x0402_0000);
    assert_eq!(I2cInstance::I2c3.base_address(), 0x0403_0000);
    assert_eq!(I2cInstance::I2c4.base_address(), 0x0404_0000);
    assert_eq!(I2cInstance::RtcsysI2c.base_address(), 0x0502_B000);
}

#[test]
fn test_i2c_domain() {
    assert!(I2cInstance::I2c0.is_active_domain());
    assert!(I2cInstance::I2c4.is_active_domain());
    assert!(!I2cInstance::RtcsysI2c.is_active_domain());
    assert!(I2cInstance::RtcsysI2c.is_rtc_domain());
}

#[test]
fn i2c_index_round_trips_through_from_index() {
    for n in 0u8..6 {
        let instance = I2cInstance::from_index(n).unwrap();
        assert_eq!(instance.index(), n);
    }
    assert_eq!(I2cInstance::from_index(6), None);
    assert_eq!(I2cInstance::from_index(255), None);
}

#[test]
fn i2c_speed_codes() {
    assert_eq!(I2cSpeed::from_u32(1), Some(I2cSpeed::Standard));
    assert_eq!(I2cSpeed::from_u32(2), Some(I2cSpeed::Fast));
    assert_eq!(I2cSpeed::from_u32(0), None);
    assert_eq!(I2cSpeed::from_u32(3), None);
    assert_eq!(I2cSpeed::Fast.code(), 2);
}

#[test]
fn i2c_clock_configs() {
    let c = I2cClockConfig::clk_25mhz();
    assert_eq!((c.ss_scl_hcnt, c.ss_scl_lcnt, c.fs_scl_hcnt, c.fs_scl_lcnt), (115, 135, 21, 42));
    assert_eq!((c.sda_hold, c.sda_setup, c.fs_spklen), (1, 6, 2));
    let c = I2cClockConfig::clk_100mhz();
    assert_eq!((c.ss_scl_hcnt, c.ss_scl_lcnt, c.fs_scl_hcnt, c.fs_scl_lcnt), (460, 540, 90, 160));
    assert_eq!((c.sda_hold, c.sda_setup, c.fs_spklen), (1, 25, 5));
}
