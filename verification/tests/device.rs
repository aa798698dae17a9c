use mpu6050::device::{AccelRange, GyroRange, ACCEL_HPF, CLKSEL};
use mpu6050::registers::Registers;
use mpu6050::transport::{Delay, I2cTransport, RegisterFile};
use mpu6050::{Mpu6050, Mpu6050Error, RawTriple};

/// An in-memory register file behind the transport contract: a write
/// transaction stores bytes at consecutive addresses, a write-then-read
/// transaction copies consecutive registers out, and a transaction fails
/// exactly when `fail_all` is set.
struct MockBus {
    regs: [u8; 256],
    fail_all: bool,
}

#[derive(Debug, PartialEq)]
struct MockBusError;

impl MockBus {
    fn new() -> MockBus {
        MockBus { regs: [0; 256], fail_all: false }
    }

    fn with_chip_id() -> MockBus {
        let mut bus = MockBus::new();
        bus.regs[0x75] = 0x68;
        bus
    }
}

impl I2cTransport for MockBus {
    type Error = MockBusError;

    fn reg_val(&self, reg: u8) -> u8 {
        self.regs[reg as usize]
    }

    fn write(&mut self, _dev_addr: u8, data: &Vec<u8>) -> Result<(), MockBusError> {
        if self.fail_all {
            return Err(MockBusError);
        }
        let reg = data[0] as usize;
        for (k, b) in data[1..].iter().enumerate() {
            self.regs[reg + k] = *b;
        }
        Ok(())
    }

    fn write_read(
        &mut self,
        _dev_addr: u8,
        data: &Vec<u8>,
        buffer: &mut Vec<u8>,
    ) -> Result<(), MockBusError> {
        if self.fail_all {
            return Err(MockBusError);
        }
        let reg = data[0] as usize;
        for k in 0..buffer.len() {
            buffer[k] = self.regs[reg + k];
        }
        Ok(())
    }
}

struct NoDelay;

impl Delay for NoDelay {
    fn delay_ms(&mut self, _ms: u32) {}
}

#[test]
fn init_programs_device() {
    let mut bus = MockBus::with_chip_id();
    // power-on state: sleep set, as after a device reset
    bus.regs[0x6b] = 0x40;
    let mut mpu = Mpu6050::new(bus);
    let mut delay = NoDelay;
    assert!(mpu.init(&mut delay).is_ok());
    // woken: sleep cleared, internal oscillator selected as clock source
    assert_eq!(mpu.read_byte(0x6b).unwrap(), 0x00);
    // both full-scale fields and the high-pass filter at their defaults
    assert_eq!(mpu.get_accel_range().unwrap(), AccelRange::G2);
    assert_eq!(mpu.get_gyro_range().unwrap(), GyroRange::D250);
    assert_eq!(mpu.get_accel_hpf().unwrap(), ACCEL_HPF::_RESET);
}

// An identity register that answers 0x00 makes init fail with
// InvalidChipId(0x00) without touching the configuration registers.
#[test]
fn init_invalid_chip_id() {
    let mut bus = MockBus::new();
    bus.regs[0x75] = 0x00;
    bus.regs[0x1c] = 0xaa;
    bus.regs[0x1b] = 0xbb;
    // power-on state: sleep set, as after a device reset
    bus.regs[0x6b] = 0x40;
    let mut mpu = Mpu6050::new(bus);
    let mut delay = NoDelay;
    let r = mpu.init(&mut delay);
    assert!(matches!(r, Err(Mpu6050Error::InvalidChipId(0x00))));
    // only the wake write happened; the range registers were not programmed
    assert_eq!(mpu.read_byte(0x1c).unwrap(), 0xaa);
    assert_eq!(mpu.read_byte(0x1b).unwrap(), 0xbb);
    assert_eq!(mpu.read_byte(0x6b).unwrap(), 0x00);
}

// Writing each range variant and reading it back yields the same variant.
#[test]
fn accel_range_roundtrip() {
    let mut mpu = Mpu6050::new(MockBus::with_chip_id());
    for range in [AccelRange::G2, AccelRange::G4, AccelRange::G8, AccelRange::G16] {
        assert!(mpu.set_accel_range(range).is_ok());
        assert_eq!(mpu.get_accel_range().unwrap(), range);
        assert_eq!(mpu.acc_range(), range);
    }
}

#[test]
fn gyro_range_roundtrip() {
    let mut mpu = Mpu6050::new(MockBus::with_chip_id());
    for range in [GyroRange::D250, GyroRange::D500, GyroRange::D1000, GyroRange::D2000] {
        assert!(mpu.set_gyro_range(range).is_ok());
        assert_eq!(mpu.get_gyro_range().unwrap(), range);
        assert_eq!(mpu.gyro_range(), range);
    }
}

// A range write that only touches the two-bit field leaves the rest of the
// configuration byte alone.
#[test]
fn range_write_preserves_other_bits() {
    let mut bus = MockBus::with_chip_id();
    bus.regs[0x1c] = 0b1110_0111;
    let mut mpu = Mpu6050::new(bus);
    assert!(mpu.set_accel_range(AccelRange::G16).is_ok());
    assert_eq!(mpu.read_byte(0x1c).unwrap(), 0b1111_1111);
    assert!(mpu.set_accel_range(AccelRange::G2).is_ok());
    assert_eq!(mpu.read_byte(0x1c).unwrap(), 0b1110_0111);
}

// Two's-complement decode of the documented corner values.
#[test]
fn word_2c_decode() {
    let mpu = Mpu6050::new(MockBus::new());
    assert_eq!(mpu.read_word_2c(&[0x00, 0x00]), 0);
    assert_eq!(mpu.read_word_2c(&[0xff, 0xff]), -1);
    assert_eq!(mpu.read_word_2c(&[0x7f, 0xff]), 32767);
    assert_eq!(mpu.read_word_2c(&[0x80, 0x00]), -32768);
}

#[test]
fn acc_raw_reads_data_registers() {
    let mut bus = MockBus::with_chip_id();
    // x = 258, y = -1, z = 16384 (1g at the 2G range)
    bus.regs[0x3b] = 0x01;
    bus.regs[0x3c] = 0x02;
    bus.regs[0x3d] = 0xff;
    bus.regs[0x3e] = 0xff;
    bus.regs[0x3f] = 0x40;
    bus.regs[0x40] = 0x00;
    let mut mpu = Mpu6050::new(bus);
    assert_eq!(mpu.get_acc_raw().unwrap(), RawTriple { x: 258, y: -1, z: 16384 });
}

#[test]
fn gyro_raw_reads_data_registers() {
    let mut bus = MockBus::with_chip_id();
    bus.regs[0x43] = 0x00;
    bus.regs[0x44] = 0x83;
    bus.regs[0x45] = 0x80;
    bus.regs[0x46] = 0x00;
    bus.regs[0x47] = 0x00;
    bus.regs[0x48] = 0x00;
    let mut mpu = Mpu6050::new(bus);
    assert_eq!(mpu.get_gyro_raw().unwrap(), RawTriple { x: 131, y: -32768, z: 0 });
}

#[test]
fn temp_raw_reads_temperature_registers() {
    let bus = MockBus::with_chip_id();
    let mut mpu = Mpu6050::new(bus);
    assert_eq!(mpu.get_temp_raw().unwrap(), 0);
    // raw word 340: one degree above the datasheet offset after scaling
    assert!(mpu.write_byte(0x41, 0x01).is_ok());
    assert!(mpu.write_byte(0x42, 0x54).is_ok());
    assert_eq!(mpu.get_temp_raw().unwrap(), 340);
}

// Averaging a constant signal is a no-op: the sum over four samples of a
// constant raw triple is exactly four times that triple.
#[test]
fn acc_raw_sum_constant_signal() {
    let mut bus = MockBus::with_chip_id();
    bus.regs[0x3f] = 0x40;
    bus.regs[0x40] = 0x00;
    let mut mpu = Mpu6050::new(bus);
    assert_eq!(mpu.get_acc_raw_sum(4).unwrap(), (0, 0, 4 * 16384));
    assert_eq!(mpu.get_acc_raw_sum(0).unwrap(), (0, 0, 0));
}

#[test]
fn gyro_raw_sum_constant_signal() {
    let mut bus = MockBus::with_chip_id();
    bus.regs[0x43] = 0xff;
    bus.regs[0x44] = 0xff;
    let mut mpu = Mpu6050::new(bus);
    assert_eq!(mpu.get_gyro_raw_sum(5).unwrap(), (-5, 0, 0));
}

#[test]
fn temp_raw_sum_constant_signal() {
    let mut bus = MockBus::with_chip_id();
    bus.regs[0x41] = 0x01;
    bus.regs[0x42] = 0x54;
    let mut mpu = Mpu6050::new(bus);
    assert_eq!(mpu.get_temp_raw_sum(3).unwrap(), 3 * 340);
}

// Every operation surfaces a failed bus transaction as the I2c error kind.
#[test]
fn bus_error_is_surfaced() {
    let mut bus = MockBus::with_chip_id();
    bus.fail_all = true;
    let mut mpu = Mpu6050::new(bus);
    let mut delay = NoDelay;
    assert!(matches!(mpu.write_byte(0x6b, 0x01), Err(Mpu6050Error::I2c(MockBusError))));
    assert!(matches!(mpu.read_byte(0x75), Err(Mpu6050Error::I2c(MockBusError))));
    assert!(matches!(mpu.get_acc_raw(), Err(Mpu6050Error::I2c(MockBusError))));
    assert!(matches!(mpu.init(&mut delay), Err(Mpu6050Error::I2c(MockBusError))));
    // a failed range write leaves the in-memory range unchanged
    assert!(mpu.set_accel_range(AccelRange::G8).is_err());
    assert_eq!(mpu.acc_range(), AccelRange::G2);
}

#[test]
fn motion_detection_setup_and_status() {
    let mut mpu = Mpu6050::new(MockBus::with_chip_id());
    assert!(mpu.setup_motion_detection().is_ok());
    assert_eq!(mpu.read_byte(0x6b).unwrap(), 0x00);
    assert_eq!(mpu.read_byte(0x37).unwrap(), 0x20);
    assert_eq!(mpu.read_byte(0x1c).unwrap(), 0x01);
    assert_eq!(mpu.read_byte(0x1f).unwrap(), 10);
    assert_eq!(mpu.read_byte(0x20).unwrap(), 40);
    assert_eq!(mpu.read_byte(0x69).unwrap(), 0x15);
    assert_eq!(mpu.read_byte(0x38).unwrap(), 0x40);

    assert_eq!(mpu.get_motion_detected().unwrap(), false);
    assert!(mpu.write_byte(0x3a, 0x40).is_ok());
    assert_eq!(mpu.get_motion_detected().unwrap(), true);
}

// The library's own in-memory register file drives the device just as the
// test mock does.
#[test]
fn register_file_backed_device() {
    let mut rf = RegisterFile::new();
    assert_eq!(rf.get(0x75), 0x00);
    rf.set(0x75, 0x68);
    assert_eq!(rf.get(0x75), 0x68);
    rf.set(0x6b, 0x40);
    let mut mpu = Mpu6050::new(rf);
    let mut delay = NoDelay;
    assert!(mpu.init(&mut delay).is_ok());
    assert_eq!(mpu.read_byte(0x6b).unwrap(), 0x00);
    assert!(mpu.set_accel_range(AccelRange::G4).is_ok());
    assert_eq!(mpu.get_accel_range().unwrap(), AccelRange::G4);
    assert!(mpu.write_byte(0x3f, 0x40).is_ok());
    assert_eq!(mpu.get_acc_raw().unwrap(), RawTriple { x: 0, y: 0, z: 16384 });
}

#[test]
fn sleep_and_temp_bits() {
    let mut mpu = Mpu6050::new(MockBus::with_chip_id());
    assert!(mpu.set_sleep_enabled(true).is_ok());
    assert_eq!(mpu.get_sleep_enabled().unwrap(), true);
    assert!(mpu.set_sleep_enabled(false).is_ok());
    assert_eq!(mpu.get_sleep_enabled().unwrap(), false);

    // the TEMP_DIS bit stores the disabled state: enabling clears it
    assert!(mpu.set_temp_enabled(true).is_ok());
    assert_eq!(mpu.get_temp_enabled().unwrap(), true);
    assert_eq!(mpu.read_byte(0x6b).unwrap() & 0x08, 0);
    assert!(mpu.set_temp_enabled(false).is_ok());
    assert_eq!(mpu.get_temp_enabled().unwrap(), false);
    assert_eq!(mpu.read_byte(0x6b).unwrap() & 0x08, 0x08);
}

#[test]
fn bypass_and_master_interrupt_bits() {
    let mut mpu = Mpu6050::new(MockBus::with_chip_id());
    assert!(mpu.set_bypass_enabled(true).is_ok());
    assert_eq!(mpu.get_bypass_enabled().unwrap(), true);
    assert!(mpu.set_master_interrupt_enabled(true).is_ok());
    assert_eq!(mpu.get_master_interrupt_enabled().unwrap(), true);
    assert!(mpu.set_master_interrupt_enabled(false).is_ok());
    assert_eq!(mpu.get_master_interrupt_enabled().unwrap(), false);
}

#[test]
fn accel_self_test_bits() {
    let mut mpu = Mpu6050::new(MockBus::with_chip_id());
    assert!(mpu.set_accel_x_self_test(true).is_ok());
    assert!(mpu.set_accel_y_self_test(true).is_ok());
    assert!(mpu.set_accel_z_self_test(true).is_ok());
    assert_eq!(mpu.get_accel_x_self_test().unwrap(), true);
    assert_eq!(mpu.get_accel_y_self_test().unwrap(), true);
    assert_eq!(mpu.get_accel_z_self_test().unwrap(), true);
    // bits 7..5 of the accel configuration register
    assert_eq!(mpu.read_byte(0x1c).unwrap(), 0b1110_0000);
    assert!(mpu.set_accel_y_self_test(false).is_ok());
    assert_eq!(mpu.get_accel_y_self_test().unwrap(), false);
}

#[test]
fn clock_source_roundtrip() {
    let mut mpu = Mpu6050::new(MockBus::with_chip_id());
    for source in [
        CLKSEL::OSCILL,
        CLKSEL::GXAXIS,
        CLKSEL::GYAXIS,
        CLKSEL::GZAXIS,
        CLKSEL::EXT_32p7,
        CLKSEL::EXT_19P2,
        CLKSEL::RESERV,
        CLKSEL::STOP,
    ] {
        assert!(mpu.set_clock_source(source).is_ok());
        assert_eq!(mpu.get_clock_source().unwrap(), source);
    }
}

#[test]
fn accel_hpf_roundtrip() {
    let mut mpu = Mpu6050::new(MockBus::with_chip_id());
    for mode in [
        ACCEL_HPF::_RESET,
        ACCEL_HPF::_5,
        ACCEL_HPF::_2P5,
        ACCEL_HPF::_1P25,
        ACCEL_HPF::_0P63,
        ACCEL_HPF::_HOLD,
    ] {
        assert!(mpu.set_accel_hpf(mode).is_ok());
        assert_eq!(mpu.get_accel_hpf().unwrap(), mode);
    }
}

#[test]
fn reset_device_sets_reset_bit() {
    let mut mpu = Mpu6050::new(MockBus::with_chip_id());
    let mut delay = NoDelay;
    assert!(mpu.reset_device(&mut delay).is_ok());
    assert_eq!(mpu.read_byte(0x6b).unwrap(), 0x80);
}

// Out-of-domain field values decode to the documented fallbacks.
#[test]
fn from_bits_fallbacks() {
    assert_eq!(AccelRange::from(0), AccelRange::G2);
    assert_eq!(AccelRange::from(3), AccelRange::G16);
    assert_eq!(AccelRange::from(250), AccelRange::G2);
    assert_eq!(GyroRange::from(1), GyroRange::D500);
    assert_eq!(GyroRange::from(99), GyroRange::D250);
    assert_eq!(ACCEL_HPF::from(7), ACCEL_HPF::_HOLD);
    assert_eq!(ACCEL_HPF::from(5), ACCEL_HPF::_RESET);
    assert_eq!(CLKSEL::from(6), CLKSEL::RESERV);
    assert_eq!(CLKSEL::from(42), CLKSEL::GXAXIS);
}

// The four discrete scale factors of each sensor, in tenths of an LSB per
// physical unit.
#[test]
fn sensitivity_values() {
    assert_eq!(AccelRange::G2.sensitivity_tenths(), 163840);
    assert_eq!(AccelRange::G4.sensitivity_tenths(), 81920);
    assert_eq!(AccelRange::G8.sensitivity_tenths(), 40960);
    assert_eq!(AccelRange::G16.sensitivity_tenths(), 20480);
    assert_eq!(GyroRange::D250.sensitivity_tenths(), 1310);
    assert_eq!(GyroRange::D500.sensitivity_tenths(), 655);
    assert_eq!(GyroRange::D1000.sensitivity_tenths(), 328);
    assert_eq!(GyroRange::D2000.sensitivity_tenths(), 164);
}

#[test]
fn register_names_map_to_addresses() {
    assert_eq!(Registers::SLAVE_ADDR.addr(), 0x68);
    assert_eq!(Registers::WHOAMI.addr(), 0x75);
    assert_eq!(Registers::GYRO_REGX_H.addr(), 0x43);
    assert_eq!(Registers::ACC_REGX_H.addr(), 0x3b);
    assert_eq!(Registers::TEMP_OUT_H.addr(), 0x41);
    assert_eq!(Registers::POWER_MGMT_1.addr(), 0x6b);
    assert_eq!(Registers::POWER_MGMT_2.addr(), 0x6c);
    assert_eq!(Registers::ACCEL_CONFIG.addr(), 0x1c);
    assert_eq!(Registers::GYRO_CONFIG.addr(), 0x1b);
}

#[test]
fn constructors_set_handle_state() {
    let mpu = Mpu6050::new_with_sens(MockBus::new(), AccelRange::G8, GyroRange::D1000);
    assert_eq!(mpu.acc_range(), AccelRange::G8);
    assert_eq!(mpu.gyro_range(), GyroRange::D1000);

    let mpu = Mpu6050::new_with_addr(MockBus::new(), 0x69);
    assert_eq!(mpu.acc_range(), AccelRange::G2);
    assert_eq!(mpu.gyro_range(), GyroRange::D250);

    let mpu = Mpu6050::new_with_addr_and_sens(MockBus::new(), 0x69, AccelRange::G4, GyroRange::D2000);
    assert_eq!(mpu.acc_range(), AccelRange::G4);
    assert_eq!(mpu.gyro_range(), GyroRange::D2000);
}

#[test]
fn read_and_write_bits_on_registers() {
    let mut mpu = Mpu6050::new(MockBus::with_chip_id());
    assert!(mpu.write_byte(0x1a, 0b1010_1111).is_ok());
    assert_eq!(mpu.read_bits(0x1a, 4, 3).unwrap(), 0b011);
    assert!(mpu.write_bits(0x1a, 4, 3, 0b111).is_ok());
    assert_eq!(mpu.read_byte(0x1a).unwrap(), 0b1011_1111);

    let mut buf = vec![0u8; 2];
    assert!(mpu.read_bytes(0x1a, &mut buf).is_ok());
    assert_eq!(buf, vec![0b1011_1111, 0]);

    assert!(mpu.write_bit(0x1a, 6, false).is_ok());
    assert_eq!(mpu.read_byte(0x1a).unwrap(), 0b1011_1111 & !(1 << 6));
}
