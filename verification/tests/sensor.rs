use battery_tester::ina260::{
    amps_from_raw, config_frame, decode_die_id, measuring_config, shutdown_frame,
    u16_from_be_bytes, u16_to_be_bytes, volts_from_raw, Averaging, BVConvTime, INA260Config,
    MaskEnable, OperMode, Register, SCConvTime, INA260_VIN_ADDRESS,
};
use battery_tester::protocol::TiwmError;
use battery_tester::twim::twim_err_to_common;
use battery_tester::units::{MilliAmp, MilliVolt};
use embassy_nrf::twim::Error;

#[test]
fn register_addresses() {
    assert_eq!(Register::CONFIG.addr(), 0x00);
    assert_eq!(Register::CURRENT.addr(), 0x01);
    assert_eq!(Register::VOLTAGE.addr(), 0x02);
    assert_eq!(Register::POWER.addr(), 0x03);
    assert_eq!(Register::MASK_ENABLE.addr(), 0x06);
    assert_eq!(Register::ALERT_LIMIT.addr(), 0x07);
    assert_eq!(Register::MANUFACTURER_ID.addr(), 0xFE);
    assert_eq!(Register::DIE_ID.addr(), 0xFF);
    assert_eq!(u8::from(Register::DIE_ID), 0xFF);
    assert_eq!(INA260_VIN_ADDRESS, 0x40);
}

#[test]
fn field_bits() {
    assert_eq!(Averaging::AVG1.bits(), 0);
    assert_eq!(Averaging::AVG4.bits(), 0b0000_0010_0000_0000);
    assert_eq!(Averaging::AVG1024.bits(), 0b0000_1110_0000_0000);
    assert_eq!(BVConvTime::US140.bits(), 0);
    assert_eq!(BVConvTime::MS1_1.bits(), 0b0000_0001_0000_0000);
    assert_eq!(BVConvTime::MS4_156.bits(), 0b0000_0001_1000_0000);
    assert_eq!(BVConvTime::MS8_244.bits(), 0b0000_0001_1100_0000);
    assert_eq!(SCConvTime::US204.bits(), 0b0000_0000_0000_1000);
    assert_eq!(SCConvTime::MS1_1.bits(), 0b0000_0000_0010_0000);
    assert_eq!(SCConvTime::MS4_156.bits(), 0b0000_0000_0011_0000);
    assert_eq!(OperMode::SHUTDOWN.bits(), 0);
    assert_eq!(OperMode::SCBVT.bits(), 3);
    assert_eq!(OperMode::SCC.bits(), 5);
    assert_eq!(OperMode::SCBVC.bits(), 7);
    assert_eq!(MaskEnable::OCL.bits(), 0x8000);
    assert_eq!(MaskEnable::CNVR.bits(), 0x0400);
    assert_eq!(MaskEnable::AFF.bits(), 0x0010);
    assert_eq!(MaskEnable::LEN.bits(), 0x0001);
}

#[test]
fn configuration_words() {
    // continuous, four-fold averaging, 1.1 ms each
    assert_eq!(INA260Config::new().as_be_bytes(), [0x03, 0x27]);
    assert_eq!(INA260Config::default().as_be_bytes(), [0x03, 0x27]);
    assert_eq!(measuring_config().as_be_bytes(), [0x03, 0xB7]);
    let mut conf = INA260Config::new();
    conf.set_operating_mode(OperMode::SHUTDOWN)
        .set_averaging_mode(Averaging::AVG1024)
        .set_sccov_time(SCConvTime::US140)
        .set_bvcov_time(BVConvTime::MS8_244);
    assert_eq!(conf.as_be_bytes(), [0x0F, 0xC0]);
    assert_eq!(config_frame(measuring_config()), [0x00, 0x03, 0xB7]);
    assert_eq!(shutdown_frame(), [0, 0, 0]);
}

#[test]
fn words_and_bytes() {
    assert_eq!(u16_to_be_bytes(0x1234), 0x1234u16.to_be_bytes());
    assert_eq!(u16_from_be_bytes([0xAB, 0xCD]), 0xABCD);
    for w in [0u16, 1, 255, 256, 0x8000, u16::MAX] {
        assert_eq!(u16_to_be_bytes(w), w.to_be_bytes());
        assert_eq!(u16_from_be_bytes(w.to_be_bytes()), w);
    }
}

#[test]
fn current_scaling() {
    assert_eq!(amps_from_raw([0, 0]), MilliAmp::new(0));
    assert_eq!(amps_from_raw([0, 1]), MilliAmp::new(1));
    assert_eq!(amps_from_raw([0, 4]), MilliAmp::new(5));
    assert_eq!(amps_from_raw(8_000u16.to_be_bytes()), MilliAmp::new(10_000));
    assert_eq!(amps_from_raw(0x7FFFu16.to_be_bytes()), MilliAmp::new(40_958));
    // a negative reading counts by its magnitude
    assert_eq!(amps_from_raw((-4i16).to_be_bytes()), MilliAmp::new(5));
    assert_eq!(amps_from_raw((-1i16).to_be_bytes()), MilliAmp::new(1));
    assert_eq!(amps_from_raw(i16::MIN.to_be_bytes()), MilliAmp::new(40_960));
    for raw in [-32_768i32, -12_345, -3, -1, 0, 1, 3, 799, 12_345, 32_767] {
        let expected = (raw * 1250 / 1000).unsigned_abs() as u16;
        assert_eq!(amps_from_raw((raw as i16).to_be_bytes()), MilliAmp::new(expected));
    }
}

#[test]
fn voltage_scaling() {
    assert_eq!(volts_from_raw([0, 0]), MilliVolt::new(0));
    assert_eq!(volts_from_raw(9_600u16.to_be_bytes()), MilliVolt::new(12_000));
    assert_eq!(volts_from_raw(9_601u16.to_be_bytes()), MilliVolt::new(12_001));
    assert_eq!(volts_from_raw(52_428u16.to_be_bytes()), MilliVolt::new(65_535));
    // beyond sixteen bits only the low bits remain
    assert_eq!(volts_from_raw(u16::MAX.to_be_bytes()), MilliVolt::new(16_382));
    for raw in [0u32, 1, 3, 4, 28_800, 52_428, 52_429, 65_535] {
        let expected = (raw * 1250 / 1000) as u16;
        assert_eq!(volts_from_raw((raw as u16).to_be_bytes()), MilliVolt::new(expected));
    }
}

#[test]
fn die_identification() {
    assert_eq!(decode_die_id([0x22, 0x70]), (0x227, 0));
    assert_eq!(decode_die_id([0xFF, 0xFF]), (0xFFF, 0xF));
    assert_eq!(decode_die_id([0x00, 0x1A]), (1, 0xA));
}

#[test]
fn bus_errors_keep_their_names() {
    assert_eq!(twim_err_to_common(Error::TxBufferTooLong), TiwmError::TxBufferTooLong);
    assert_eq!(twim_err_to_common(Error::RxBufferTooLong), TiwmError::RxBufferTooLong);
    assert_eq!(twim_err_to_common(Error::Transmit), TiwmError::Transmit);
    assert_eq!(twim_err_to_common(Error::Receive), TiwmError::Receive);
    assert_eq!(twim_err_to_common(Error::RAMBufferTooSmall), TiwmError::RAMBufferTooSmall);
    assert_eq!(twim_err_to_common(Error::AddressNack), TiwmError::AddressNack);
    assert_eq!(twim_err_to_common(Error::DataNack), TiwmError::DataNack);
    assert_eq!(twim_err_to_common(Error::Overrun), TiwmError::Overrun);
    assert_eq!(twim_err_to_common(Error::Timeout), TiwmError::Timeout);
}
