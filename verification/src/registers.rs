//! Register name enumeration: a named alternative to the raw register
//! address constants, mapping each name to its device address.

use vstd::prelude::*;
use crate::device;

verus! {

#[allow(non_camel_case_types)]
#[derive(Copy, Clone, Debug)]
pub enum Registers {
    /// Slave address of Mpu6050
    SLAVE_ADDR,
    /// Internal register to check slave addr
    WHOAMI,
    /// High Byte Register Gyro x orientation
    GYRO_REGX_H,
    /// High Byte Register Gyro y orientation
    GYRO_REGY_H,
    /// High Byte Register Gyro z orientation
    GYRO_REGZ_H,
    /// High Byte Register Calc roll
    ACC_REGX_H,
    /// High Byte Register Calc pitch
    ACC_REGY_H,
    /// High Byte Register Calc yaw
    ACC_REGZ_H,
    /// High Byte Register Temperature
    TEMP_OUT_H,
    /// Register to control chip waking from sleep, enabling sensors, default: sleep
    POWER_MGMT_1,
    /// Internal clock
    POWER_MGMT_2,
    /// Accelerometer config register
    ACCEL_CONFIG,
    /// gyro config register
    GYRO_CONFIG,
}

impl Registers {
    /// The device address this register name stands for.
    pub open spec fn spec_addr(self) -> u8 {
        match self {
            Registers::SLAVE_ADDR => 0x68,
            Registers::WHOAMI => 0x75,
            Registers::GYRO_REGX_H => 0x43,
            Registers::GYRO_REGY_H => 0x45,
            Registers::GYRO_REGZ_H => 0x47,
            Registers::ACC_REGX_H => 0x3b,
            Registers::ACC_REGY_H => 0x3d,
            Registers::ACC_REGZ_H => 0x3f,
            Registers::TEMP_OUT_H => 0x41,
            Registers::POWER_MGMT_1 => 0x6b,
            Registers::POWER_MGMT_2 => 0x6c,
            Registers::ACCEL_CONFIG => 0x1c,
            Registers::GYRO_CONFIG => 0x1b,
        }
    }

    pub fn addr(&self) -> (r: u8)
        ensures
            r == self.spec_addr(),
    {
        match self {
            Registers::SLAVE_ADDR => device::DEFAULT_SLAVE_ADDR,
            Registers::WHOAMI => device::WHOAMI,
            Registers::GYRO_REGX_H => device::GYRO_REGX_H,
            Registers::GYRO_REGY_H => device::GYRO_REGY_H,
            Registers::GYRO_REGZ_H => device::GYRO_REGZ_H,
            Registers::ACC_REGX_H => device::ACC_REGX_H,
            Registers::ACC_REGY_H => device::ACC_REGY_H,
            Registers::ACC_REGZ_H => device::ACC_REGZ_H,
            Registers::TEMP_OUT_H => device::TEMP_OUT_H,
            Registers::POWER_MGMT_1 => device::PWR_MGMT_1::ADDR,
            Registers::POWER_MGMT_2 => device::PWR_MGMT_2::ADDR,
            Registers::ACCEL_CONFIG => device::ACCEL_CONFIG::ADDR,
            Registers::GYRO_CONFIG => device::GYRO_CONFIG::ADDR,
        }
    }
}

} // verus!
