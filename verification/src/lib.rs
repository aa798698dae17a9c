//! Register-level driver core for the MPU6050 six-axis motion sensor
//! (three-axis gyroscope and three-axis accelerometer with an integrated
//! temperature sensor), reached over a two-wire bus.
//!
//! The driver owns a transport handle (see [`transport::I2cTransport`]),
//! exposes register-level primitives built on the bit-field codec in
//! [`bits`], and device-level operations (wake, identity check, range
//! configuration, motion detection setup) built on those primitives.
//! Raw sensor words are decoded here; scaling raw words into physical
//! units is left to the caller, which can query the active range of each
//! sensor for its scale factor.

pub mod bits;
pub mod device;
pub mod registers;
pub mod transport;

use vstd::prelude::*;

use crate::bits::{spec_get_bit, spec_get_bits, spec_set_bit, spec_set_bits};
use crate::device::{
    AccelRange, GyroRange, ACCEL_CONFIG, ACCEL_HPF, ACC_REGX_H, CLKSEL, DEFAULT_SLAVE_ADDR,
    GYRO_CONFIG, GYRO_REGX_H, INT_ENABLE, INT_PIN_CFG, INT_STATUS, MOT_DETECT_CONTROL, MOT_DUR,
    MOT_THR, PWR_MGMT_1, TEMP_OUT_H, WHOAMI,
};
use crate::transport::{Delay, I2cTransport};

verus! {

/// All possible errors in this crate
#[derive(Debug)]
pub enum Mpu6050Error<E> {
    /// I2C bus error
    I2c(E),
    /// Invalid chip ID was read
    InvalidChipId(u8),
}

/// Three raw two's-complement 16-bit readings, one per axis, decoded from
/// six consecutive data registers (high byte first per axis).
#[derive(Copy, Clone, Debug, PartialEq, Eq, Structural)]
pub struct RawTriple {
    pub x: i32,
    pub y: i32,
    pub z: i32,
}

/// The signed value stored as the big-endian two's-complement pair
/// `(hi, lo)`: the unsigned 16-bit value, less 65536 once it reaches 0x8000.
pub open spec fn spec_word_2c(hi: u8, lo: u8) -> i32 {
    if hi >= 0x80 {
        (hi * 256 + lo - 0x10000) as i32
    } else {
        (hi * 256 + lo) as i32
    }
}

/// Stepping a running sum of equal 16-bit samples: with one more addend
/// the sum is one more multiple of the sample, and it stays far inside the
/// 64-bit range.
proof fn lemma_sum_step(i: int, steps: int, v: int, s: int)
    by (nonlinear_arith)
    requires
        0 <= i < steps,
        steps <= 0xffff,
        -0x8000 <= v < 0x8000,
        s == i * v,
    ensures
        s + v == (i + 1) * v,
        -0x1_0000_0000 <= s + v <= 0x1_0000_0000,
{
}

/// Handles all operations on/with Mpu6050
pub struct Mpu6050<I> where I: I2cTransport {
    i2c: I,
    slave_addr: u8,
    acc_range: AccelRange,
    gyro_range: GyroRange,
}

impl<I> Mpu6050<I> where I: I2cTransport {
    /// The byte the addressed device holds at register `reg`, as the
    /// transport models it.
    pub closed spec fn spec_reg(&self, reg: u8) -> u8 {
        self.i2c.reg_val(reg)
    }

    /// The bus address this handle talks to.
    pub closed spec fn spec_slave_addr(&self) -> u8 {
        self.slave_addr
    }

    /// The accelerometer range whose scale factor readings are decoded with.
    pub closed spec fn spec_acc_range(&self) -> AccelRange {
        self.acc_range
    }

    /// The gyroscope range whose scale factor readings are decoded with.
    pub closed spec fn spec_gyro_range(&self) -> GyroRange {
        self.gyro_range
    }

    /// The in-memory state (bus address, active ranges) of `post` is that
    /// of `pre`.
    pub open spec fn spec_same_handle(pre: Self, post: Self) -> bool {
        &&& post.spec_slave_addr() == pre.spec_slave_addr()
        &&& post.spec_acc_range() == pre.spec_acc_range()
        &&& post.spec_gyro_range() == pre.spec_gyro_range()
    }

    /// Every modeled register of `post` holds what it holds in `pre`.
    pub open spec fn spec_same_regs(pre: Self, post: Self) -> bool {
        forall|x: u8| #[trigger] post.spec_reg(x) == pre.spec_reg(x)
    }

    /// The modeled registers of `post` are those of `pre`, with `val`
    /// stored at `reg`.
    pub open spec fn spec_regs_updated(pre: Self, post: Self, reg: u8, val: u8) -> bool {
        forall|x: u8|
            #[trigger] post.spec_reg(x) == if x == reg {
                val
            } else {
                pre.spec_reg(x)
            }
    }

    /// Side effect free constructor with default sensitivities, no calibration
    pub fn new(i2c: I) -> (r: Self)
        ensures
            r.spec_slave_addr() == DEFAULT_SLAVE_ADDR,
            r.spec_acc_range() == AccelRange::G2,
            r.spec_gyro_range() == GyroRange::D250,
            forall|x: u8| #[trigger] r.spec_reg(x) == i2c.reg_val(x),
    {
        Mpu6050 {
            i2c,
            slave_addr: DEFAULT_SLAVE_ADDR,
            acc_range: AccelRange::G2,
            gyro_range: GyroRange::D250,
        }
    }

    /// custom sensitivity
    pub fn new_with_sens(i2c: I, arange: AccelRange, grange: GyroRange) -> (r: Self)
        ensures
            r.spec_slave_addr() == DEFAULT_SLAVE_ADDR,
            r.spec_acc_range() == arange,
            r.spec_gyro_range() == grange,
            forall|x: u8| #[trigger] r.spec_reg(x) == i2c.reg_val(x),
    {
        Mpu6050 { i2c, slave_addr: DEFAULT_SLAVE_ADDR, acc_range: arange, gyro_range: grange }
    }

    /// Same as `new`, but the chip address can be specified (e.g. 0x69, if the A0 pin is pulled up)
    pub fn new_with_addr(i2c: I, slave_addr: u8) -> (r: Self)
        ensures
            r.spec_slave_addr() == slave_addr,
            r.spec_acc_range() == AccelRange::G2,
            r.spec_gyro_range() == GyroRange::D250,
            forall|x: u8| #[trigger] r.spec_reg(x) == i2c.reg_val(x),
    {
        Mpu6050 { i2c, slave_addr, acc_range: AccelRange::G2, gyro_range: GyroRange::D250 }
    }

    /// Combination of `new_with_sens` and `new_with_addr`
    pub fn new_with_addr_and_sens(
        i2c: I,
        slave_addr: u8,
        arange: AccelRange,
        grange: GyroRange,
    ) -> (r: Self)
        ensures
            r.spec_slave_addr() == slave_addr,
            r.spec_acc_range() == arange,
            r.spec_gyro_range() == grange,
            forall|x: u8| #[trigger] r.spec_reg(x) == i2c.reg_val(x),
    {
        Mpu6050 { i2c, slave_addr, acc_range: arange, gyro_range: grange }
    }

    /// The accelerometer range the handle currently decodes with.
    pub fn acc_range(&self) -> (r: AccelRange)
        ensures
            r == self.spec_acc_range(),
    {
        self.acc_range
    }

    /// The gyroscope range the handle currently decodes with.
    pub fn gyro_range(&self) -> (r: GyroRange)
        ensures
            r == self.spec_gyro_range(),
    {
        self.gyro_range
    }

    /// Writes byte to register
    pub fn write_byte(&mut self, reg: u8, byte: u8) -> (r: Result<(), Mpu6050Error<I::Error>>)
        ensures
            Self::spec_same_handle(*old(self), *final(self)),
            r is Ok ==> Self::spec_regs_updated(*old(self), *final(self), reg, byte),
            !(r is Ok) ==> r matches Err(Mpu6050Error::I2c(_)),
    {
        let mut data: Vec<u8> = Vec::new();
        data.push(reg);
        data.push(byte);
        match self.i2c.write(self.slave_addr, &data) {
            Ok(()) => Ok(()),
            Err(e) => Err(Mpu6050Error::I2c(e)),
        }
    }

    /// Reads series of bytes into buf from specified reg
    pub fn read_bytes(&mut self, reg: u8, buf: &mut Vec<u8>) -> (r: Result<
        (),
        Mpu6050Error<I::Error>,
    >)
        requires
            reg + old(buf)@.len() <= 256,
        ensures
            Self::spec_same_handle(*old(self), *final(self)),
            final(buf)@.len() == old(buf)@.len(),
            r is Ok ==> Self::spec_same_regs(*old(self), *final(self)) && forall|i: int|
                0 <= i < final(buf)@.len() ==> final(buf)@[i] == old(self).spec_reg(
                    (reg + i) as u8,
                ),
            !(r is Ok) ==> r matches Err(Mpu6050Error::I2c(_)),
    {
        let mut data: Vec<u8> = Vec::new();
        data.push(reg);
        match self.i2c.write_read(self.slave_addr, &data, buf) {
            Ok(()) => Ok(()),
            Err(e) => Err(Mpu6050Error::I2c(e)),
        }
    }

    /// Reads byte from register
    pub fn read_byte(&mut self, reg: u8) -> (r: Result<u8, Mpu6050Error<I::Error>>)
        ensures
            Self::spec_same_handle(*old(self), *final(self)),
            r matches Ok(b) ==> Self::spec_same_regs(*old(self), *final(self)) && b == old(
                self,
            ).spec_reg(reg),
            !(r is Ok) ==> r matches Err(Mpu6050Error::I2c(_)),
    {
        let mut byte: Vec<u8> = Vec::new();
        byte.push(0);
        match self.read_bytes(reg, &mut byte) {
            Ok(()) => Ok(byte[0]),
            Err(e) => Err(e),
        }
    }

    /// Read bit n from register
    fn read_bit(&mut self, reg: u8, bit_n: u8) -> (r: Result<u8, Mpu6050Error<I::Error>>)
        requires
            bit_n < 8,
        ensures
            Self::spec_same_handle(*old(self), *final(self)),
            r matches Ok(b) ==> Self::spec_same_regs(*old(self), *final(self)) && b
                == spec_get_bit(old(self).spec_reg(reg), bit_n) && b <= 1,
            !(r is Ok) ==> r matches Err(Mpu6050Error::I2c(_)),
    {
        match self.read_byte(reg) {
            Ok(byte) => Ok(bits::get_bit(byte, bit_n)),
            Err(e) => Err(e),
        }
    }

    /// Read bits at register reg, starting with bit bit_start down to
    /// bit_start - length + 1, right-aligned
    pub fn read_bits(&mut self, reg: u8, bit_start: u8, length: u8) -> (r: Result<
        u8,
        Mpu6050Error<I::Error>,
    >)
        requires
            bit_start < 8,
            1 <= length <= 8,
        ensures
            Self::spec_same_handle(*old(self), *final(self)),
            r matches Ok(b) ==> Self::spec_same_regs(*old(self), *final(self)) && b
                == spec_get_bits(old(self).spec_reg(reg), bit_start, length),
            !(r is Ok) ==> r matches Err(Mpu6050Error::I2c(_)),
    {
        match self.read_byte(reg) {
            Ok(byte) => Ok(bits::get_bits(byte, bit_start, length)),
            Err(e) => Err(e),
        }
    }

    /// Enables bit n at register address reg by a read-modify-write sequence
    pub fn write_bit(&mut self, reg: u8, bit_n: u8, enable: bool) -> (r: Result<
        (),
        Mpu6050Error<I::Error>,
    >)
        requires
            bit_n < 8,
        ensures
            Self::spec_same_handle(*old(self), *final(self)),
            r is Ok ==> Self::spec_regs_updated(
                *old(self),
                *final(self),
                reg,
                spec_set_bit(old(self).spec_reg(reg), bit_n, enable),
            ),
            !(r is Ok) ==> r matches Err(Mpu6050Error::I2c(_)),
    {
        match self.read_byte(reg) {
            Ok(b) => {
                let mut byte = b;
                bits::set_bit(&mut byte, bit_n, enable);
                self.write_byte(reg, byte)
            },
            Err(e) => Err(e),
        }
    }

    /// Write bits data at reg from bit_start down to bit_start - length + 1,
    /// by a read-modify-write sequence; bits outside the field keep the
    /// value the read observed
    pub fn write_bits(&mut self, reg: u8, bit_start: u8, length: u8, data: u8) -> (r: Result<
        (),
        Mpu6050Error<I::Error>,
    >)
        requires
            bit_start < 8,
            1 <= length <= 8,
        ensures
            Self::spec_same_handle(*old(self), *final(self)),
            r is Ok ==> Self::spec_regs_updated(
                *old(self),
                *final(self),
                reg,
                spec_set_bits(old(self).spec_reg(reg), bit_start, length, data),
            ),
            !(r is Ok) ==> r matches Err(Mpu6050Error::I2c(_)),
    {
        match self.read_byte(reg) {
            Ok(b) => {
                let mut byte = b;
                bits::set_bits(&mut byte, bit_start, length, data);
                self.write_byte(reg, byte)
            },
            Err(e) => Err(e),
        }
    }

    /// Wakes MPU6050 with all sensors enabled (default): writes zero to
    /// the power management register, clearing the reset and sleep bits
    /// and selecting the internal oscillator as clock reference, then
    /// waits ~100ms for the oscillator to stabilize
    fn wake<D: Delay>(&mut self, delay: &mut D) -> (r: Result<(), Mpu6050Error<I::Error>>)
        ensures
            Self::spec_same_handle(*old(self), *final(self)),
            r is Ok ==> Self::spec_regs_updated(*old(self), *final(self), PWR_MGMT_1::ADDR, 0x00),
            !(r is Ok) ==> r matches Err(Mpu6050Error::I2c(_)),
    {
        match self.write_byte(PWR_MGMT_1::ADDR, 0x00) {
            Ok(()) => {
                delay.delay_ms(100);
                Ok(())
            },
            Err(e) => Err(e),
        }
    }

    /// Verifies device to address 0x68 with WHOAMI Register
    fn verify(&mut self) -> (r: Result<(), Mpu6050Error<I::Error>>)
        ensures
            Self::spec_same_handle(*old(self), *final(self)),
            r is Ok ==> Self::spec_same_regs(*old(self), *final(self)) && old(self).spec_reg(WHOAMI)
                == DEFAULT_SLAVE_ADDR,
            r matches Err(Mpu6050Error::InvalidChipId(id)) ==> Self::spec_same_regs(
                *old(self),
                *final(self),
            ) && id == old(self).spec_reg(WHOAMI) && id != DEFAULT_SLAVE_ADDR,
    {
        match self.read_byte(WHOAMI) {
            Ok(address) => {
                if address != DEFAULT_SLAVE_ADDR {
                    return Err(Mpu6050Error::InvalidChipId(address));
                }
                Ok(())
            },
            Err(e) => Err(e),
        }
    }

    /// Init wakes MPU6050 and verifies register addr, e.g. in i2c.
    ///
    /// On success the device was woken (zero written to the power
    /// management register, clearing sleep and selecting the internal
    /// clock), its identity register held the expected fixed address,
    /// both full-scale-select fields were programmed, and the
    /// accelerometer high-pass filter was reset. The programmed ranges
    /// are the fixed defaults (2g, 250 deg/s), whatever ranges the handle
    /// was constructed with; the in-memory ranges follow them.
    /// On an identity mismatch the observed byte is returned and no
    /// configuration register is touched: only the wake write has happened.
    /// On a bus error each in-memory range is either unchanged or the
    /// default it was about to be programmed to.
    pub fn init<D: Delay>(&mut self, delay: &mut D) -> (r: Result<(), Mpu6050Error<I::Error>>)
        ensures
            final(self).spec_slave_addr() == old(self).spec_slave_addr(),
            r is Ok ==> {
                &&& old(self).spec_reg(WHOAMI) == DEFAULT_SLAVE_ADDR
                &&& final(self).spec_acc_range() == AccelRange::G2
                &&& final(self).spec_gyro_range() == GyroRange::D250
                &&& forall|x: u8|
                    #[trigger] final(self).spec_reg(x) == if x == PWR_MGMT_1::ADDR {
                        0x00u8
                    } else if x == ACCEL_CONFIG::ADDR {
                        spec_set_bits(
                            spec_set_bits(old(self).spec_reg(ACCEL_CONFIG::ADDR), 4, 2, 0),
                            2,
                            3,
                            0,
                        )
                    } else if x == GYRO_CONFIG::ADDR {
                        spec_set_bits(old(self).spec_reg(GYRO_CONFIG::ADDR), 4, 2, 0)
                    } else {
                        old(self).spec_reg(x)
                    }
            },
            r matches Err(Mpu6050Error::InvalidChipId(id)) ==> {
                &&& id == old(self).spec_reg(WHOAMI)
                &&& id != DEFAULT_SLAVE_ADDR
                &&& Self::spec_regs_updated(*old(self), *final(self), PWR_MGMT_1::ADDR, 0x00)
                &&& final(self).spec_acc_range() == old(self).spec_acc_range()
                &&& final(self).spec_gyro_range() == old(self).spec_gyro_range()
            },
            r matches Err(Mpu6050Error::I2c(_)) ==> {
                &&& (final(self).spec_acc_range() == old(self).spec_acc_range()
                    || final(self).spec_acc_range() == AccelRange::G2)
                &&& (final(self).spec_gyro_range() == old(self).spec_gyro_range()
                    || final(self).spec_gyro_range() == GyroRange::D250)
            },
    {
        match self.wake(delay) {
            Ok(()) => {},
            Err(e) => {
                return Err(e);
            },
        }
        match self.verify() {
            Ok(()) => {},
            Err(e) => {
                return Err(e);
            },
        }
        match self.set_accel_range(AccelRange::G2) {
            Ok(()) => {},
            Err(e) => {
                return Err(e);
            },
        }
        match self.set_gyro_range(GyroRange::D250) {
            Ok(()) => {},
            Err(e) => {
                return Err(e);
            },
        }
        match self.set_accel_hpf(ACCEL_HPF::_RESET) {
            Ok(()) => {},
            Err(e) => {
                return Err(e);
            },
        }
        Ok(())
    }

    /// set the clock source field of the power management register
    pub fn set_clock_source(&mut self, source: CLKSEL) -> (r: Result<(), Mpu6050Error<I::Error>>)
        ensures
            Self::spec_same_handle(*old(self), *final(self)),
            r is Ok ==> Self::spec_regs_updated(
                *old(self),
                *final(self),
                PWR_MGMT_1::ADDR,
                spec_set_bits(old(self).spec_reg(PWR_MGMT_1::ADDR), 2, 3, source.spec_bits()),
            ),
            !(r is Ok) ==> r matches Err(Mpu6050Error::I2c(_)),
    {
        let block = PWR_MGMT_1::clksel();
        self.write_bits(PWR_MGMT_1::ADDR, block.bit, block.length, source.bits())
    }

    /// get current clock source
    pub fn get_clock_source(&mut self) -> (r: Result<CLKSEL, Mpu6050Error<I::Error>>)
        ensures
            Self::spec_same_handle(*old(self), *final(self)),
            r matches Ok(c) ==> Self::spec_same_regs(*old(self), *final(self)) && c
                == CLKSEL::spec_from_bits(
                spec_get_bits(old(self).spec_reg(PWR_MGMT_1::ADDR), 2, 3),
            ),
            !(r is Ok) ==> r matches Err(Mpu6050Error::I2c(_)),
    {
        let block = PWR_MGMT_1::clksel();
        match self.read_bits(PWR_MGMT_1::ADDR, block.bit, block.length) {
            Ok(source) => Ok(CLKSEL::from(source)),
            Err(e) => Err(e),
        }
    }

    /// setup motion detection: a fixed register recipe (wake, interrupt pin
    /// config, digital high-pass filter, motion threshold and duration,
    /// detection control, interrupt enable)
    pub fn setup_motion_detection(&mut self) -> (r: Result<(), Mpu6050Error<I::Error>>)
        ensures
            Self::spec_same_handle(*old(self), *final(self)),
            r is Ok ==> forall|x: u8|
                #[trigger] final(self).spec_reg(x) == if x == PWR_MGMT_1::ADDR {
                    0x00u8
                } else if x == INT_PIN_CFG::ADDR {
                    0x20u8
                } else if x == ACCEL_CONFIG::ADDR {
                    0x01u8
                } else if x == MOT_THR {
                    10u8
                } else if x == MOT_DUR {
                    40u8
                } else if x == MOT_DETECT_CONTROL::ADDR {
                    0x15u8
                } else if x == INT_ENABLE::ADDR {
                    0x40u8
                } else {
                    old(self).spec_reg(x)
                },
            !(r is Ok) ==> r matches Err(Mpu6050Error::I2c(_)),
    {
        match self.write_byte(PWR_MGMT_1::ADDR, 0x00) {
            Ok(()) => {},
            Err(e) => {
                return Err(e);
            },
        }
        // active high, push-pull interrupt signal held until the status
        // register is read
        match self.write_byte(INT_PIN_CFG::ADDR, 0x20) {
            Ok(()) => {},
            Err(e) => {
                return Err(e);
            },
        }
        // digital high pass filter at 5Hz
        match self.write_byte(ACCEL_CONFIG::ADDR, 0x01) {
            Ok(()) => {},
            Err(e) => {
                return Err(e);
            },
        }
        match self.write_byte(MOT_THR, 10) {
            Ok(()) => {},
            Err(e) => {
                return Err(e);
            },
        }
        // motion detect duration; LSB is 1 ms @ 1 kHz rate
        match self.write_byte(MOT_DUR, 40) {
            Ok(()) => {},
            Err(e) => {
                return Err(e);
            },
        }
        // free-fall and motion decrements 1, accelerometer start-up delay 5ms
        match self.write_byte(MOT_DETECT_CONTROL::ADDR, 0x15) {
            Ok(()) => {},
            Err(e) => {
                return Err(e);
            },
        }
        // enable the motion detection interrupt
        match self.write_byte(INT_ENABLE::ADDR, 0x40) {
            Ok(()) => {},
            Err(e) => {
                return Err(e);
            },
        }
        Ok(())
    }

    /// get whether or not motion has been detected (INT_STATUS, MOT_INT)
    pub fn get_motion_detected(&mut self) -> (r: Result<bool, Mpu6050Error<I::Error>>)
        ensures
            Self::spec_same_handle(*old(self), *final(self)),
            r matches Ok(b) ==> Self::spec_same_regs(*old(self), *final(self)) && (b <==> spec_get_bit(
                old(self).spec_reg(INT_STATUS::ADDR),
                INT_STATUS::MOT_INT,
            ) == 1),
            !(r is Ok) ==> r matches Err(Mpu6050Error::I2c(_)),
    {
        match self.read_bit(INT_STATUS::ADDR, INT_STATUS::MOT_INT) {
            Ok(bit) => Ok(bit != 0),
            Err(e) => Err(e),
        }
    }

    /// set accel high pass filter mode
    pub fn set_accel_hpf(&mut self, mode: ACCEL_HPF) -> (r: Result<(), Mpu6050Error<I::Error>>)
        ensures
            Self::spec_same_handle(*old(self), *final(self)),
            r is Ok ==> Self::spec_regs_updated(
                *old(self),
                *final(self),
                ACCEL_CONFIG::ADDR,
                spec_set_bits(old(self).spec_reg(ACCEL_CONFIG::ADDR), 2, 3, mode.spec_bits()),
            ),
            !(r is Ok) ==> r matches Err(Mpu6050Error::I2c(_)),
    {
        let block = ACCEL_CONFIG::accel_hpf();
        self.write_bits(ACCEL_CONFIG::ADDR, block.bit, block.length, mode.bits())
    }

    /// get accel high pass filter mode
    pub fn get_accel_hpf(&mut self) -> (r: Result<ACCEL_HPF, Mpu6050Error<I::Error>>)
        ensures
            Self::spec_same_handle(*old(self), *final(self)),
            r matches Ok(mode) ==> Self::spec_same_regs(*old(self), *final(self)) && mode
                == ACCEL_HPF::spec_from_bits(
                spec_get_bits(old(self).spec_reg(ACCEL_CONFIG::ADDR), 2, 3),
            ),
            !(r is Ok) ==> r matches Err(Mpu6050Error::I2c(_)),
    {
        let block = ACCEL_CONFIG::accel_hpf();
        match self.read_bits(ACCEL_CONFIG::ADDR, block.bit, block.length) {
            Ok(mode) => Ok(ACCEL_HPF::from(mode)),
            Err(e) => Err(e),
        }
    }

    /// Set gyro range, and update sensitivity accordingly. The register
    /// write and the in-memory range either both happen or, on a bus
    /// error, neither does.
    pub fn set_gyro_range(&mut self, range: GyroRange) -> (r: Result<(), Mpu6050Error<I::Error>>)
        ensures
            final(self).spec_slave_addr() == old(self).spec_slave_addr(),
            final(self).spec_acc_range() == old(self).spec_acc_range(),
            r is Ok ==> final(self).spec_gyro_range() == range && Self::spec_regs_updated(
                *old(self),
                *final(self),
                GYRO_CONFIG::ADDR,
                spec_set_bits(old(self).spec_reg(GYRO_CONFIG::ADDR), 4, 2, range.spec_bits()),
            ),
            !(r is Ok) ==> (r matches Err(Mpu6050Error::I2c(_))) && final(self).spec_gyro_range()
                == old(self).spec_gyro_range(),
    {
        let block = GYRO_CONFIG::fs_sel();
        match self.write_bits(GYRO_CONFIG::ADDR, block.bit, block.length, range.bits()) {
            Ok(()) => {
                let ghost mid = *self;
                self.gyro_range = range;
                proof {
                    assert(Self::spec_same_regs(mid, *self));
                }
                Ok(())
            },
            Err(e) => Err(e),
        }
    }

    /// get current gyro range
    pub fn get_gyro_range(&mut self) -> (r: Result<GyroRange, Mpu6050Error<I::Error>>)
        ensures
            Self::spec_same_handle(*old(self), *final(self)),
            r matches Ok(range) ==> Self::spec_same_regs(*old(self), *final(self)) && range
                == GyroRange::spec_from_bits(
                spec_get_bits(old(self).spec_reg(GYRO_CONFIG::ADDR), 4, 2),
            ),
            !(r is Ok) ==> r matches Err(Mpu6050Error::I2c(_)),
    {
        let block = GYRO_CONFIG::fs_sel();
        match self.read_bits(GYRO_CONFIG::ADDR, block.bit, block.length) {
            Ok(byte) => Ok(GyroRange::from(byte)),
            Err(e) => Err(e),
        }
    }

    /// set accel range, and update sensitivity accordingly. The register
    /// write and the in-memory range either both happen or, on a bus
    /// error, neither does.
    pub fn set_accel_range(&mut self, range: AccelRange) -> (r: Result<(), Mpu6050Error<I::Error>>)
        ensures
            final(self).spec_slave_addr() == old(self).spec_slave_addr(),
            final(self).spec_gyro_range() == old(self).spec_gyro_range(),
            r is Ok ==> final(self).spec_acc_range() == range && Self::spec_regs_updated(
                *old(self),
                *final(self),
                ACCEL_CONFIG::ADDR,
                spec_set_bits(old(self).spec_reg(ACCEL_CONFIG::ADDR), 4, 2, range.spec_bits()),
            ),
            !(r is Ok) ==> (r matches Err(Mpu6050Error::I2c(_))) && final(self).spec_acc_range()
                == old(self).spec_acc_range(),
    {
        let block = ACCEL_CONFIG::fs_sel();
        match self.write_bits(ACCEL_CONFIG::ADDR, block.bit, block.length, range.bits()) {
            Ok(()) => {
                let ghost mid = *self;
                self.acc_range = range;
                proof {
                    assert(Self::spec_same_regs(mid, *self));
                }
                Ok(())
            },
            Err(e) => Err(e),
        }
    }

    /// get current accel_range
    pub fn get_accel_range(&mut self) -> (r: Result<AccelRange, Mpu6050Error<I::Error>>)
        ensures
            Self::spec_same_handle(*old(self), *final(self)),
            r matches Ok(range) ==> Self::spec_same_regs(*old(self), *final(self)) && range
                == AccelRange::spec_from_bits(
                spec_get_bits(old(self).spec_reg(ACCEL_CONFIG::ADDR), 4, 2),
            ),
            !(r is Ok) ==> r matches Err(Mpu6050Error::I2c(_)),
    {
        let block = ACCEL_CONFIG::fs_sel();
        match self.read_bits(ACCEL_CONFIG::ADDR, block.bit, block.length) {
            Ok(byte) => Ok(AccelRange::from(byte)),
            Err(e) => Err(e),
        }
    }

    /// reset device by setting the device-reset bit, then waiting ~100ms.
    /// Note: reset leaves the device asleep (register map: PWR_MGMT_1
    /// resets to 0x40); that is not auto-corrected here.
    pub fn reset_device<D: Delay>(&mut self, delay: &mut D) -> (r: Result<
        (),
        Mpu6050Error<I::Error>,
    >)
        ensures
            Self::spec_same_handle(*old(self), *final(self)),
            r is Ok ==> Self::spec_regs_updated(
                *old(self),
                *final(self),
                PWR_MGMT_1::ADDR,
                spec_set_bit(old(self).spec_reg(PWR_MGMT_1::ADDR), PWR_MGMT_1::DEVICE_RESET, true),
            ),
            !(r is Ok) ==> r matches Err(Mpu6050Error::I2c(_)),
    {
        match self.write_bit(PWR_MGMT_1::ADDR, PWR_MGMT_1::DEVICE_RESET, true) {
            Ok(()) => {
                delay.delay_ms(100);
                Ok(())
            },
            Err(e) => Err(e),
        }
    }

    /// enable, disable i2c master interrupt
    pub fn set_master_interrupt_enabled(&mut self, enable: bool) -> (r: Result<
        (),
        Mpu6050Error<I::Error>,
    >)
        ensures
            Self::spec_same_handle(*old(self), *final(self)),
            r is Ok ==> Self::spec_regs_updated(
                *old(self),
                *final(self),
                INT_ENABLE::ADDR,
                spec_set_bit(
                    old(self).spec_reg(INT_ENABLE::ADDR),
                    INT_ENABLE::I2C_MST_INT_EN,
                    enable,
                ),
            ),
            !(r is Ok) ==> r matches Err(Mpu6050Error::I2c(_)),
    {
        self.write_bit(INT_ENABLE::ADDR, INT_ENABLE::I2C_MST_INT_EN, enable)
    }

    /// get i2c master interrupt status
    pub fn get_master_interrupt_enabled(&mut self) -> (r: Result<bool, Mpu6050Error<I::Error>>)
        ensures
            Self::spec_same_handle(*old(self), *final(self)),
            r matches Ok(b) ==> Self::spec_same_regs(*old(self), *final(self)) && (b <==> spec_get_bit(
                old(self).spec_reg(INT_ENABLE::ADDR),
                INT_ENABLE::I2C_MST_INT_EN,
            ) == 1),
            !(r is Ok) ==> r matches Err(Mpu6050Error::I2c(_)),
    {
        match self.read_bit(INT_ENABLE::ADDR, INT_ENABLE::I2C_MST_INT_EN) {
            Ok(bit) => Ok(bit != 0),
            Err(e) => Err(e),
        }
    }

    /// enable, disable bypass of sensor
    pub fn set_bypass_enabled(&mut self, enable: bool) -> (r: Result<(), Mpu6050Error<I::Error>>)
        ensures
            Self::spec_same_handle(*old(self), *final(self)),
            r is Ok ==> Self::spec_regs_updated(
                *old(self),
                *final(self),
                INT_PIN_CFG::ADDR,
                spec_set_bit(
                    old(self).spec_reg(INT_PIN_CFG::ADDR),
                    INT_PIN_CFG::I2C_BYPASS_EN,
                    enable,
                ),
            ),
            !(r is Ok) ==> r matches Err(Mpu6050Error::I2c(_)),
    {
        self.write_bit(INT_PIN_CFG::ADDR, INT_PIN_CFG::I2C_BYPASS_EN, enable)
    }

    /// get bypass status
    pub fn get_bypass_enabled(&mut self) -> (r: Result<bool, Mpu6050Error<I::Error>>)
        ensures
            Self::spec_same_handle(*old(self), *final(self)),
            r matches Ok(b) ==> Self::spec_same_regs(*old(self), *final(self)) && (b <==> spec_get_bit(
                old(self).spec_reg(INT_PIN_CFG::ADDR),
                INT_PIN_CFG::I2C_BYPASS_EN,
            ) == 1),
            !(r is Ok) ==> r matches Err(Mpu6050Error::I2c(_)),
    {
        match self.read_bit(INT_PIN_CFG::ADDR, INT_PIN_CFG::I2C_BYPASS_EN) {
            Ok(bit) => Ok(bit != 0),
            Err(e) => Err(e),
        }
    }

    /// enable, disable sleep of sensor
    pub fn set_sleep_enabled(&mut self, enable: bool) -> (r: Result<(), Mpu6050Error<I::Error>>)
        ensures
            Self::spec_same_handle(*old(self), *final(self)),
            r is Ok ==> Self::spec_regs_updated(
                *old(self),
                *final(self),
                PWR_MGMT_1::ADDR,
                spec_set_bit(old(self).spec_reg(PWR_MGMT_1::ADDR), PWR_MGMT_1::SLEEP, enable),
            ),
            !(r is Ok) ==> r matches Err(Mpu6050Error::I2c(_)),
    {
        self.write_bit(PWR_MGMT_1::ADDR, PWR_MGMT_1::SLEEP, enable)
    }

    /// get sleep status
    pub fn get_sleep_enabled(&mut self) -> (r: Result<bool, Mpu6050Error<I::Error>>)
        ensures
            Self::spec_same_handle(*old(self), *final(self)),
            r matches Ok(b) ==> Self::spec_same_regs(*old(self), *final(self)) && (b <==> spec_get_bit(
                old(self).spec_reg(PWR_MGMT_1::ADDR),
                PWR_MGMT_1::SLEEP,
            ) == 1),
            !(r is Ok) ==> r matches Err(Mpu6050Error::I2c(_)),
    {
        match self.read_bit(PWR_MGMT_1::ADDR, PWR_MGMT_1::SLEEP) {
            Ok(bit) => Ok(bit != 0),
            Err(e) => Err(e),
        }
    }

    /// enable, disable temperature measurement of sensor.
    /// The TEMP_DIS bit stores the "disabled" state, so the written bit is
    /// the negation of `enable`.
    pub fn set_temp_enabled(&mut self, enable: bool) -> (r: Result<(), Mpu6050Error<I::Error>>)
        ensures
            Self::spec_same_handle(*old(self), *final(self)),
            r is Ok ==> Self::spec_regs_updated(
                *old(self),
                *final(self),
                PWR_MGMT_1::ADDR,
                spec_set_bit(old(self).spec_reg(PWR_MGMT_1::ADDR), PWR_MGMT_1::TEMP_DIS, !enable),
            ),
            !(r is Ok) ==> r matches Err(Mpu6050Error::I2c(_)),
    {
        self.write_bit(PWR_MGMT_1::ADDR, PWR_MGMT_1::TEMP_DIS, !enable)
    }

    /// get temperature sensor status.
    /// The TEMP_DIS bit stores the "disabled" state, so a zero bit means
    /// enabled.
    pub fn get_temp_enabled(&mut self) -> (r: Result<bool, Mpu6050Error<I::Error>>)
        ensures
            Self::spec_same_handle(*old(self), *final(self)),
            r matches Ok(b) ==> Self::spec_same_regs(*old(self), *final(self)) && (b <==> spec_get_bit(
                old(self).spec_reg(PWR_MGMT_1::ADDR),
                PWR_MGMT_1::TEMP_DIS,
            ) == 0),
            !(r is Ok) ==> r matches Err(Mpu6050Error::I2c(_)),
    {
        match self.read_bit(PWR_MGMT_1::ADDR, PWR_MGMT_1::TEMP_DIS) {
            Ok(bit) => Ok(bit == 0),
            Err(e) => Err(e),
        }
    }

    /// set accel x self test
    pub fn set_accel_x_self_test(&mut self, enable: bool) -> (r: Result<
        (),
        Mpu6050Error<I::Error>,
    >)
        ensures
            Self::spec_same_handle(*old(self), *final(self)),
            r is Ok ==> Self::spec_regs_updated(
                *old(self),
                *final(self),
                ACCEL_CONFIG::ADDR,
                spec_set_bit(old(self).spec_reg(ACCEL_CONFIG::ADDR), ACCEL_CONFIG::XA_ST, enable),
            ),
            !(r is Ok) ==> r matches Err(Mpu6050Error::I2c(_)),
    {
        self.write_bit(ACCEL_CONFIG::ADDR, ACCEL_CONFIG::XA_ST, enable)
    }

    /// get accel x self test
    pub fn get_accel_x_self_test(&mut self) -> (r: Result<bool, Mpu6050Error<I::Error>>)
        ensures
            Self::spec_same_handle(*old(self), *final(self)),
            r matches Ok(b) ==> Self::spec_same_regs(*old(self), *final(self)) && (b <==> spec_get_bit(
                old(self).spec_reg(ACCEL_CONFIG::ADDR),
                ACCEL_CONFIG::XA_ST,
            ) == 1),
            !(r is Ok) ==> r matches Err(Mpu6050Error::I2c(_)),
    {
        match self.read_bit(ACCEL_CONFIG::ADDR, ACCEL_CONFIG::XA_ST) {
            Ok(bit) => Ok(bit != 0),
            Err(e) => Err(e),
        }
    }

    /// set accel y self test
    pub fn set_accel_y_self_test(&mut self, enable: bool) -> (r: Result<
        (),
        Mpu6050Error<I::Error>,
    >)
        ensures
            Self::spec_same_handle(*old(self), *final(self)),
            r is Ok ==> Self::spec_regs_updated(
                *old(self),
                *final(self),
                ACCEL_CONFIG::ADDR,
                spec_set_bit(old(self).spec_reg(ACCEL_CONFIG::ADDR), ACCEL_CONFIG::YA_ST, enable),
            ),
            !(r is Ok) ==> r matches Err(Mpu6050Error::I2c(_)),
    {
        self.write_bit(ACCEL_CONFIG::ADDR, ACCEL_CONFIG::YA_ST, enable)
    }

    /// get accel y self test
    pub fn get_accel_y_self_test(&mut self) -> (r: Result<bool, Mpu6050Error<I::Error>>)
        ensures
            Self::spec_same_handle(*old(self), *final(self)),
            r matches Ok(b) ==> Self::spec_same_regs(*old(self), *final(self)) && (b <==> spec_get_bit(
                old(self).spec_reg(ACCEL_CONFIG::ADDR),
                ACCEL_CONFIG::YA_ST,
            ) == 1),
            !(r is Ok) ==> r matches Err(Mpu6050Error::I2c(_)),
    {
        match self.read_bit(ACCEL_CONFIG::ADDR, ACCEL_CONFIG::YA_ST) {
            Ok(bit) => Ok(bit != 0),
            Err(e) => Err(e),
        }
    }

    /// set accel z self test
    pub fn set_accel_z_self_test(&mut self, enable: bool) -> (r: Result<
        (),
        Mpu6050Error<I::Error>,
    >)
        ensures
            Self::spec_same_handle(*old(self), *final(self)),
            r is Ok ==> Self::spec_regs_updated(
                *old(self),
                *final(self),
                ACCEL_CONFIG::ADDR,
                spec_set_bit(old(self).spec_reg(ACCEL_CONFIG::ADDR), ACCEL_CONFIG::ZA_ST, enable),
            ),
            !(r is Ok) ==> r matches Err(Mpu6050Error::I2c(_)),
    {
        self.write_bit(ACCEL_CONFIG::ADDR, ACCEL_CONFIG::ZA_ST, enable)
    }

    /// The raw triple decoded from the six consecutive data registers that
    /// start at `reg`: one big-endian two's-complement word per axis.
    pub open spec fn spec_raw_triple(pre: Self, reg: u8) -> RawTriple {
        RawTriple {
            x: spec_word_2c(pre.spec_reg(reg), pre.spec_reg((reg + 1) as u8)),
            y: spec_word_2c(pre.spec_reg((reg + 2) as u8), pre.spec_reg((reg + 3) as u8)),
            z: spec_word_2c(pre.spec_reg((reg + 4) as u8), pre.spec_reg((reg + 5) as u8)),
        }
    }

    /// Converts 2 bytes to a signed two's-complement word: bytes holding
    /// 0x8000 and above decode to the value less 65536
    pub fn read_word_2c(&self, byte: &[u8]) -> (r: i32)
        requires
            byte@.len() >= 2,
        ensures
            r == spec_word_2c(byte@[0], byte@[1]),
            -0x8000 <= r < 0x8000,
    {
        let high: i32 = byte[0] as i32;
        let low: i32 = byte[1] as i32;
        let mut word: i32 = high * 256 + low;
        if word >= 0x8000 {
            word = -((65535 - word) + 1);
        }
        word
    }

    /// Reads rotation (gyro/acc) from the six data registers at reg
    fn read_rot(&mut self, reg: u8) -> (r: Result<RawTriple, Mpu6050Error<I::Error>>)
        requires
            reg + 6 <= 256,
        ensures
            Self::spec_same_handle(*old(self), *final(self)),
            r matches Ok(t) ==> Self::spec_same_regs(*old(self), *final(self)) && t
                == Self::spec_raw_triple(*old(self), reg),
            !(r is Ok) ==> r matches Err(Mpu6050Error::I2c(_)),
    {
        let mut buf: Vec<u8> = Vec::new();
        buf.push(0);
        buf.push(0);
        buf.push(0);
        buf.push(0);
        buf.push(0);
        buf.push(0);
        match self.read_bytes(reg, &mut buf) {
            Ok(()) => {},
            Err(e) => {
                return Err(e);
            },
        }
        let s = buf.as_slice();
        let x = self.read_word_2c(&s[0..2]);
        let y = self.read_word_2c(&s[2..4]);
        let z = self.read_word_2c(&s[4..6]);
        Ok(RawTriple { x, y, z })
    }

    /// Raw accelerometer readings: one two's-complement word per axis,
    /// not yet scaled by the active sensitivity
    pub fn get_acc_raw(&mut self) -> (r: Result<RawTriple, Mpu6050Error<I::Error>>)
        ensures
            Self::spec_same_handle(*old(self), *final(self)),
            r matches Ok(t) ==> Self::spec_same_regs(*old(self), *final(self)) && t
                == Self::spec_raw_triple(*old(self), ACC_REGX_H),
            !(r is Ok) ==> r matches Err(Mpu6050Error::I2c(_)),
    {
        self.read_rot(ACC_REGX_H)
    }

    /// Raw gyroscope readings: one two's-complement word per axis,
    /// not yet scaled by the active sensitivity
    pub fn get_gyro_raw(&mut self) -> (r: Result<RawTriple, Mpu6050Error<I::Error>>)
        ensures
            Self::spec_same_handle(*old(self), *final(self)),
            r matches Ok(t) ==> Self::spec_same_regs(*old(self), *final(self)) && t
                == Self::spec_raw_triple(*old(self), GYRO_REGX_H),
            !(r is Ok) ==> r matches Err(Mpu6050Error::I2c(_)),
    {
        self.read_rot(GYRO_REGX_H)
    }

    /// Raw sensor temperature: the two's-complement word held by the two
    /// temperature registers, before the datasheet degree conversion
    pub fn get_temp_raw(&mut self) -> (r: Result<i32, Mpu6050Error<I::Error>>)
        ensures
            Self::spec_same_handle(*old(self), *final(self)),
            r matches Ok(w) ==> Self::spec_same_regs(*old(self), *final(self)) && w
                == spec_word_2c(
                old(self).spec_reg(TEMP_OUT_H),
                old(self).spec_reg((TEMP_OUT_H + 1) as u8),
            ),
            !(r is Ok) ==> r matches Err(Mpu6050Error::I2c(_)),
    {
        let mut buf: Vec<u8> = Vec::new();
        buf.push(0);
        buf.push(0);
        match self.read_bytes(TEMP_OUT_H, &mut buf) {
            Ok(()) => {},
            Err(e) => {
                return Err(e);
            },
        }
        Ok(self.read_word_2c(buf.as_slice()))
    }

    /// Sum of `steps` consecutive raw readings of the six data registers at
    /// reg, one summed word per axis
    fn read_rot_sum(&mut self, reg: u8, steps: u16) -> (r: Result<
        (i64, i64, i64),
        Mpu6050Error<I::Error>,
    >)
        requires
            reg + 6 <= 256,
        ensures
            Self::spec_same_handle(*old(self), *final(self)),
            r matches Ok(s) ==> Self::spec_same_regs(*old(self), *final(self)) && s.0 == steps
                * Self::spec_raw_triple(*old(self), reg).x && s.1 == steps * Self::spec_raw_triple(
                *old(self),
                reg,
            ).y && s.2 == steps * Self::spec_raw_triple(*old(self), reg).z,
            !(r is Ok) ==> r matches Err(Mpu6050Error::I2c(_)),
    {
        let ghost t = Self::spec_raw_triple(*self, reg);
        let mut sx: i64 = 0;
        let mut sy: i64 = 0;
        let mut sz: i64 = 0;
        let mut i: u16 = 0;
        while i < steps
            invariant
                i <= steps,
                reg + 6 <= 256,
                Self::spec_same_handle(*old(self), *self),
                Self::spec_same_regs(*old(self), *self),
                t == Self::spec_raw_triple(*old(self), reg),
                -0x8000 <= t.x < 0x8000,
                -0x8000 <= t.y < 0x8000,
                -0x8000 <= t.z < 0x8000,
                sx == i * t.x,
                sy == i * t.y,
                sz == i * t.z,
            decreases steps - i,
        {
            let sample = match self.read_rot(reg) {
                Ok(sample) => sample,
                Err(e) => {
                    return Err(e);
                },
            };
            proof {
                assert(Self::spec_raw_triple(*self, reg) == t);
                lemma_sum_step(i as int, steps as int, t.x as int, sx as int);
                lemma_sum_step(i as int, steps as int, t.y as int, sy as int);
                lemma_sum_step(i as int, steps as int, t.z as int, sz as int);
            }
            sx = sx + sample.x as i64;
            sy = sy + sample.y as i64;
            sz = sz + sample.z as i64;
            i = i + 1;
        }
        Ok((sx, sy, sz))
    }

    /// Sum of `steps` consecutive raw accelerometer samples, one summed
    /// word per axis; with zero steps the sums are zero. Dividing each sum
    /// by `steps` averages the samples, and over a device whose data
    /// registers do not change between the reads that average is exactly
    /// the single-sample reading.
    pub fn get_acc_raw_sum(&mut self, steps: u16) -> (r: Result<
        (i64, i64, i64),
        Mpu6050Error<I::Error>,
    >)
        ensures
            Self::spec_same_handle(*old(self), *final(self)),
            r matches Ok(s) ==> Self::spec_same_regs(*old(self), *final(self)) && s.0 == steps
                * Self::spec_raw_triple(*old(self), ACC_REGX_H).x && s.1 == steps
                * Self::spec_raw_triple(*old(self), ACC_REGX_H).y && s.2 == steps
                * Self::spec_raw_triple(*old(self), ACC_REGX_H).z,
            !(r is Ok) ==> r matches Err(Mpu6050Error::I2c(_)),
    {
        self.read_rot_sum(ACC_REGX_H, steps)
    }

    /// Sum of `steps` consecutive raw gyroscope samples, one summed word
    /// per axis; with zero steps the sums are zero
    pub fn get_gyro_raw_sum(&mut self, steps: u16) -> (r: Result<
        (i64, i64, i64),
        Mpu6050Error<I::Error>,
    >)
        ensures
            Self::spec_same_handle(*old(self), *final(self)),
            r matches Ok(s) ==> Self::spec_same_regs(*old(self), *final(self)) && s.0 == steps
                * Self::spec_raw_triple(*old(self), GYRO_REGX_H).x && s.1 == steps
                * Self::spec_raw_triple(*old(self), GYRO_REGX_H).y && s.2 == steps
                * Self::spec_raw_triple(*old(self), GYRO_REGX_H).z,
            !(r is Ok) ==> r matches Err(Mpu6050Error::I2c(_)),
    {
        self.read_rot_sum(GYRO_REGX_H, steps)
    }

    /// Sum of `steps` consecutive raw temperature words; with zero steps
    /// the sum is zero
    pub fn get_temp_raw_sum(&mut self, steps: u16) -> (r: Result<i64, Mpu6050Error<I::Error>>)
        ensures
            Self::spec_same_handle(*old(self), *final(self)),
            r matches Ok(s) ==> Self::spec_same_regs(*old(self), *final(self)) && s == steps
                * spec_word_2c(
                old(self).spec_reg(TEMP_OUT_H),
                old(self).spec_reg((TEMP_OUT_H + 1) as u8),
            ),
            !(r is Ok) ==> r matches Err(Mpu6050Error::I2c(_)),
    {
        let ghost w = spec_word_2c(
            self.spec_reg(TEMP_OUT_H),
            self.spec_reg((TEMP_OUT_H + 1) as u8),
        );
        let mut s: i64 = 0;
        let mut i: u16 = 0;
        while i < steps
            invariant
                i <= steps,
                Self::spec_same_handle(*old(self), *self),
                Self::spec_same_regs(*old(self), *self),
                w == spec_word_2c(
                    old(self).spec_reg(TEMP_OUT_H),
                    old(self).spec_reg((TEMP_OUT_H + 1) as u8),
                ),
                -0x8000 <= w < 0x8000,
                s == i * w,
            decreases steps - i,
        {
            let sample = match self.get_temp_raw() {
                Ok(sample) => sample,
                Err(e) => {
                    return Err(e);
                },
            };
            proof {
                lemma_sum_step(i as int, steps as int, w as int, s as int);
            }
            s = s + sample as i64;
            i = i + 1;
        }
        Ok(s)
    }

    /// get accel z self test
    pub fn get_accel_z_self_test(&mut self) -> (r: Result<bool, Mpu6050Error<I::Error>>)
        ensures
            Self::spec_same_handle(*old(self), *final(self)),
            r matches Ok(b) ==> Self::spec_same_regs(*old(self), *final(self)) && (b <==> spec_get_bit(
                old(self).spec_reg(ACCEL_CONFIG::ADDR),
                ACCEL_CONFIG::ZA_ST,
            ) == 1),
            !(r is Ok) ==> r matches Err(Mpu6050Error::I2c(_)),
    {
        match self.read_bit(ACCEL_CONFIG::ADDR, ACCEL_CONFIG::ZA_ST) {
            Ok(bit) => Ok(bit != 0),
            Err(e) => Err(e),
        }
    }
}

} // verus!

