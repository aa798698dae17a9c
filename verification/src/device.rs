//! Device constants used by the driver: register addresses, named bit
//! fields, and the closed enumerations that configuration fields decode to.

use vstd::prelude::*;
use crate::bits::{spec_get_bits, spec_set_bits};

verus! {

/// Motion Threshold Register
pub const MOT_THR: u8 = 0x1f;

/// Motion Duration Detection Register
pub const MOT_DUR: u8 = 0x20;

/// High Byte Register Gyro x orientation
pub const GYRO_REGX_H: u8 = 0x43;

/// High Byte Register Gyro y orientation
pub const GYRO_REGY_H: u8 = 0x45;

/// High Byte Register Gyro z orientation
pub const GYRO_REGZ_H: u8 = 0x47;

/// High Byte Register Calc roll
pub const ACC_REGX_H: u8 = 0x3b;

/// High Byte Register Calc pitch
pub const ACC_REGY_H: u8 = 0x3d;

/// High Byte Register Calc yaw
pub const ACC_REGZ_H: u8 = 0x3f;

/// High Byte Register Temperature
pub const TEMP_OUT_H: u8 = 0x41;

/// Slave address of Mpu6050
pub const DEFAULT_SLAVE_ADDR: u8 = 0x68;

/// Internal register to check slave addr
pub const WHOAMI: u8 = 0x75;

/// Describes a bit block from bit number `bit - length + 1` to `bit`
pub struct BitBlock {
    pub bit: u8,
    pub length: u8,
}

#[allow(non_camel_case_types)]
#[derive(Copy, Clone, Debug)]
/// Register 26: Configuration (DLPF, External signal)
pub struct CONFIG;

impl CONFIG {
    /// Base Address
    pub const ADDR: u8 = 0x1a;

    /// external Frame Synchronisation (FSYNC)
    pub fn ext_sync_set() -> (b: BitBlock)
        ensures
            b.bit == 5 && b.length == 3,
    {
        BitBlock { bit: 5, length: 3 }
    }

    /// Digital Low Pass Filter (DLPF) config
    pub fn dlpf_cfg() -> (b: BitBlock)
        ensures
            b.bit == 2 && b.length == 3,
    {
        BitBlock { bit: 2, length: 3 }
    }
}

#[allow(non_camel_case_types)]
#[derive(Copy, Clone, Debug)]
/// Register 27: Gyro Config
pub struct GYRO_CONFIG;

impl GYRO_CONFIG {
    /// Base Address
    pub const ADDR: u8 = 0x1b;

    /// Gyro x axis self test bit
    pub const XG_ST: u8 = 7;

    /// Gyro y axis self test bit
    pub const YG_ST: u8 = 6;

    /// Gyro z axis self test bit
    pub const ZG_ST: u8 = 5;

    /// Gyro Config FS_SEL
    pub fn fs_sel() -> (b: BitBlock)
        ensures
            b.bit == 4 && b.length == 2,
    {
        BitBlock { bit: 4, length: 2 }
    }
}

#[allow(non_camel_case_types)]
#[derive(Copy, Clone, Debug)]
/// Register 28: Accel Config
pub struct ACCEL_CONFIG;

impl ACCEL_CONFIG {
    /// Base Address
    pub const ADDR: u8 = 0x1c;

    /// Accel x axis self test bit
    pub const XA_ST: u8 = 7;

    /// Accel y axis self test bit
    pub const YA_ST: u8 = 6;

    /// Accel z axis self test bit
    pub const ZA_ST: u8 = 5;

    /// Accel Config FS_SEL
    pub fn fs_sel() -> (b: BitBlock)
        ensures
            b.bit == 4 && b.length == 2,
    {
        BitBlock { bit: 4, length: 2 }
    }

    /// Accel Config ACCEL_HPF
    pub fn accel_hpf() -> (b: BitBlock)
        ensures
            b.bit == 2 && b.length == 3,
    {
        BitBlock { bit: 2, length: 3 }
    }
}

#[allow(non_camel_case_types)]
#[derive(Copy, Clone, Debug)]
/// Register 55: INT Pin / Bypass Enable Configuration
pub struct INT_PIN_CFG;

impl INT_PIN_CFG {
    /// Base Address
    pub const ADDR: u8 = 0x37;

    /// INT pin logic level
    pub const INT_LEVEL: u8 = 7;

    /// INT pin config
    pub const INT_OPEN: u8 = 6;

    /// Pulse (length)
    pub const LATCH_INT_EN: u8 = 5;

    /// INT clear conditions
    pub const INT_RD_CLEAR: u8 = 4;

    /// FSYNC PIN logic level
    pub const FSYNC_INT_LEVEL: u8 = 3;

    /// FSYNC PIN config
    pub const FSYNC_INT_EN: u8 = 2;

    /// i2c access/bypass
    pub const I2C_BYPASS_EN: u8 = 1;

    /// enable/disable reference clock output
    pub const CLKOUT_EN: u8 = 0;
}

#[allow(non_camel_case_types)]
#[derive(Copy, Clone, Debug)]
/// Register 56: Interrupt Enable
pub struct INT_ENABLE;

impl INT_ENABLE {
    /// Base Address
    pub const ADDR: u8 = 0x38;

    /// Generate interrupt Free Fall Detection
    pub const FF_EN: u8 = 7;

    /// Generate interrupt with Motion Detected
    pub const MOT_EN: u8 = 6;

    /// Generate interrupt when Zero Motion Detection
    pub const ZMOT_EN: u8 = 5;

    /// Generate interrupt when FIFO buffer overflow
    pub const FIFO_OFLOW_END: u8 = 4;

    /// enables any of the I2C Master interrupt sources to generate an interrupt
    pub const I2C_MST_INT_EN: u8 = 3;

    /// enables Data Ready interrupt, each time a write operation to all sensor registers completed
    pub const DATA_RDY_EN: u8 = 0;
}

#[allow(non_camel_case_types)]
#[derive(Copy, Clone, Debug)]
/// Register 58: Interrupt Status
pub struct INT_STATUS;

impl INT_STATUS {
    /// Base Address
    pub const ADDR: u8 = 0x3a;

    /// Free Fall Interrupt
    pub const FF_INT: u8 = 7;

    /// Motion Detection Interrupt
    pub const MOT_INT: u8 = 6;

    /// Zero Motion Detection Interrupt
    pub const ZMOT_INT: u8 = 5;

    /// FIFO buffer overflow
    pub const FIFO_OFLOW_INT: u8 = 4;

    /// i2c master interrupt has been generated
    pub const I2C_MSF_INT: u8 = 3;

    /// Data is ready
    pub const DATA_RDY_INT: u8 = 0;
}

#[allow(non_camel_case_types)]
#[derive(Copy, Clone, Debug)]
/// Register 97: Motion Detection Status
pub struct MOT_DETECT_STATUS;

impl MOT_DETECT_STATUS {
    /// Base Address
    pub const ADDR: u8 = 0x61;

    /// motion in the negative X axis has generated a Motion detection interrupt
    pub const MOT_XNEG: u8 = 7;

    /// motion in the positive X axis has generated a Motion detection interrupt
    pub const MOT_XPOS: u8 = 6;

    /// motion in the negative Y axis has generated a Motion detection interrupt
    pub const MOT_YNEG: u8 = 5;

    /// motion in the positive Y axis has generated a Motion detection interrupt
    pub const MOT_YPOS: u8 = 4;

    /// motion in the negative Z axis has generated a Motion detection interrupt
    pub const MOT_ZNEG: u8 = 3;

    /// motion in the positive Z axis has generated a Motion detection interrupt
    pub const MOT_ZPOS: u8 = 2;

    /// Zero Motion detection interrupt is generated
    pub const MOT_ZRMOT: u8 = 0;
}

#[allow(non_camel_case_types)]
#[derive(Copy, Clone, Debug)]
/// Register 105: Motion Detection Control
pub struct MOT_DETECT_CONTROL;

impl MOT_DETECT_CONTROL {
    /// Base Address
    pub const ADDR: u8 = 0x69;

    /// Additional delay
    pub fn accel_on_delay() -> (b: BitBlock)
        ensures
            b.bit == 5 && b.length == 2,
    {
        BitBlock { bit: 5, length: 2 }
    }

    /// Free Fall count
    pub fn ff_count() -> (b: BitBlock)
        ensures
            b.bit == 3 && b.length == 2,
    {
        BitBlock { bit: 3, length: 2 }
    }

    /// Motion Detection count
    pub fn mot_count() -> (b: BitBlock)
        ensures
            b.bit == 1 && b.length == 2,
    {
        BitBlock { bit: 1, length: 2 }
    }
}

#[allow(non_camel_case_types)]
#[derive(Copy, Clone, Debug)]
/// Register 107: Power Management 1
pub struct PWR_MGMT_1;

impl PWR_MGMT_1 {
    /// Base Address
    pub const ADDR: u8 = 0x6b;

    /// Device Reset bit
    pub const DEVICE_RESET: u8 = 7;

    /// Sleep mode bit (Should be called "Low Power", doesn't actually sleep)
    pub const SLEEP: u8 = 6;

    /// Cycle bit for wake operations
    pub const CYCLE: u8 = 5;

    /// Temperature sensor enable/disable bit
    pub const TEMP_DIS: u8 = 3;

    /// Clock Control
    pub fn clksel() -> (b: BitBlock)
        ensures
            b.bit == 2 && b.length == 3,
    {
        BitBlock { bit: 2, length: 3 }
    }
}

#[allow(non_camel_case_types)]
#[derive(Copy, Clone, Debug)]
/// Register 108: Power Management 2
pub struct PWR_MGMT_2;

impl PWR_MGMT_2 {
    /// Base Address
    pub const ADDR: u8 = 0x6c;

    /// disable accel axis x
    pub const STBY_XA: u8 = 5;

    /// disable accel axis y
    pub const STBY_YA: u8 = 4;

    /// disable accel axis z
    pub const STBY_ZA: u8 = 3;

    /// disable gyro axis x
    pub const STBY_XG: u8 = 2;

    /// disable gyro axis y
    pub const STBY_YG: u8 = 1;

    /// disable gyro axis z
    pub const STBY_ZG: u8 = 0;

    /// Wake up frequency
    pub fn lp_wake_ctrl() -> (b: BitBlock)
        ensures
            b.bit == 7 && b.length == 2,
    {
        BitBlock { bit: 7, length: 2 }
    }
}

#[allow(non_camel_case_types)]
#[derive(Copy, Clone, Debug, Eq, PartialEq, Structural)]
/// Wake values
pub enum LP_WAKE_CTRL {
    /// 1.25 Hz
    _1P25,
    /// 2.5 Hz
    _2P5,
    /// 5 Hz
    _5,
    /// 10 Hz
    _10,
}

#[allow(non_camel_case_types)]
#[derive(Copy, Clone, Debug, Eq, PartialEq, Structural)]
/// Accelerometer High Pass Filter Values
pub enum ACCEL_HPF {
    /// Cut off frequency: None
    _RESET,
    /// Cut off frequency: 5 Hz
    _5,
    /// Cut off frequency: 2.5 Hz
    _2P5,
    /// Cut off frequency: 1.25 Hz
    _1P25,
    /// Cut off frequency: 0.63 Hz
    _0P63,
    /// When triggered, the filter holds the present sample. The filter output
    /// will be the difference between the input sample and the held sample
    _HOLD,
}

impl ACCEL_HPF {
    /// The three-bit field value that selects this filter mode.
    pub open spec fn spec_bits(self) -> u8 {
        match self {
            ACCEL_HPF::_RESET => 0,
            ACCEL_HPF::_5 => 1,
            ACCEL_HPF::_2P5 => 2,
            ACCEL_HPF::_1P25 => 3,
            ACCEL_HPF::_0P63 => 4,
            ACCEL_HPF::_HOLD => 7,
        }
    }

    /// The filter mode a three-bit field value decodes to; out-of-domain
    /// values fall back to the reset mode rather than failing.
    pub open spec fn spec_from_bits(v: u8) -> Self {
        if v == 0 {
            ACCEL_HPF::_RESET
        } else if v == 1 {
            ACCEL_HPF::_5
        } else if v == 2 {
            ACCEL_HPF::_2P5
        } else if v == 3 {
            ACCEL_HPF::_1P25
        } else if v == 4 {
            ACCEL_HPF::_0P63
        } else if v == 7 {
            ACCEL_HPF::_HOLD
        } else {
            ACCEL_HPF::_RESET
        }
    }

    /// The three-bit field value that selects this filter mode.
    pub fn bits(self) -> (r: u8)
        ensures
            r == self.spec_bits(),
    {
        match self {
            ACCEL_HPF::_RESET => 0,
            ACCEL_HPF::_5 => 1,
            ACCEL_HPF::_2P5 => 2,
            ACCEL_HPF::_1P25 => 3,
            ACCEL_HPF::_0P63 => 4,
            ACCEL_HPF::_HOLD => 7,
        }
    }
}

impl From<u8> for ACCEL_HPF {
    fn from(range: u8) -> (r: Self) {
        if range == 0 {
            ACCEL_HPF::_RESET
        } else if range == 1 {
            ACCEL_HPF::_5
        } else if range == 2 {
            ACCEL_HPF::_2P5
        } else if range == 3 {
            ACCEL_HPF::_1P25
        } else if range == 4 {
            ACCEL_HPF::_0P63
        } else if range == 7 {
            ACCEL_HPF::_HOLD
        } else {
            ACCEL_HPF::_RESET
        }
    }
}

impl vstd::std_specs::convert::FromSpecImpl<u8> for ACCEL_HPF {
    open spec fn obeys_from_spec() -> bool {
        true
    }

    open spec fn from_spec(v: u8) -> Self {
        ACCEL_HPF::spec_from_bits(v)
    }
}

#[allow(non_camel_case_types)]
#[derive(Copy, Clone, Debug, Eq, PartialEq, Structural)]
/// Clock Source Select Values
pub enum CLKSEL {
    /// Internal 8MHz oscillator
    OSCILL,
    /// PLL with X axis gyroscope reference
    GXAXIS,
    /// PLL with Y axis gyroscope reference
    GYAXIS,
    /// PLL with Z axis gyroscope reference
    GZAXIS,
    /// PLL with external 32.768kHz reference
    EXT_32p7,
    /// PLL with external 19.2MHz reference
    EXT_19P2,
    /// Reserved
    RESERV,
    /// Stops the clock and keeps the timing generator in reset
    STOP,
}

impl CLKSEL {
    /// The three-bit field value that selects this clock source.
    pub open spec fn spec_bits(self) -> u8 {
        match self {
            CLKSEL::OSCILL => 0,
            CLKSEL::GXAXIS => 1,
            CLKSEL::GYAXIS => 2,
            CLKSEL::GZAXIS => 3,
            CLKSEL::EXT_32p7 => 4,
            CLKSEL::EXT_19P2 => 5,
            CLKSEL::RESERV => 6,
            CLKSEL::STOP => 7,
        }
    }

    /// The clock source a three-bit field value decodes to; out-of-domain
    /// values fall back to the x-axis gyroscope reference.
    pub open spec fn spec_from_bits(v: u8) -> Self {
        if v == 0 {
            CLKSEL::OSCILL
        } else if v == 1 {
            CLKSEL::GXAXIS
        } else if v == 2 {
            CLKSEL::GYAXIS
        } else if v == 3 {
            CLKSEL::GZAXIS
        } else if v == 4 {
            CLKSEL::EXT_32p7
        } else if v == 5 {
            CLKSEL::EXT_19P2
        } else if v == 6 {
            CLKSEL::RESERV
        } else if v == 7 {
            CLKSEL::STOP
        } else {
            CLKSEL::GXAXIS
        }
    }

    /// The three-bit field value that selects this clock source.
    pub fn bits(self) -> (r: u8)
        ensures
            r == self.spec_bits(),
    {
        match self {
            CLKSEL::OSCILL => 0,
            CLKSEL::GXAXIS => 1,
            CLKSEL::GYAXIS => 2,
            CLKSEL::GZAXIS => 3,
            CLKSEL::EXT_32p7 => 4,
            CLKSEL::EXT_19P2 => 5,
            CLKSEL::RESERV => 6,
            CLKSEL::STOP => 7,
        }
    }
}

impl From<u8> for CLKSEL {
    fn from(clk: u8) -> (r: Self) {
        if clk == 0 {
            CLKSEL::OSCILL
        } else if clk == 1 {
            CLKSEL::GXAXIS
        } else if clk == 2 {
            CLKSEL::GYAXIS
        } else if clk == 3 {
            CLKSEL::GZAXIS
        } else if clk == 4 {
            CLKSEL::EXT_32p7
        } else if clk == 5 {
            CLKSEL::EXT_19P2
        } else if clk == 6 {
            CLKSEL::RESERV
        } else if clk == 7 {
            CLKSEL::STOP
        } else {
            CLKSEL::GXAXIS
        }
    }
}

impl vstd::std_specs::convert::FromSpecImpl<u8> for CLKSEL {
    open spec fn obeys_from_spec() -> bool {
        true
    }

    open spec fn from_spec(v: u8) -> Self {
        CLKSEL::spec_from_bits(v)
    }
}

/// Defines accelerometer range/sensitivity
#[derive(Debug, Eq, PartialEq, Copy, Clone, Structural)]
pub enum AccelRange {
    /// 2G
    G2,
    /// 4G
    G4,
    /// 8G
    G8,
    /// 16G
    G16,
}

/// Defines gyro range/sensitivity
#[derive(Debug, Eq, PartialEq, Copy, Clone, Structural)]
pub enum GyroRange {
    /// 250 degrees
    D250,
    /// 500 degrees
    D500,
    /// 1000 degrees
    D1000,
    /// 2000 degrees
    D2000,
}

impl AccelRange {
    /// The two-bit full-scale-select value for this range.
    pub open spec fn spec_bits(self) -> u8 {
        match self {
            AccelRange::G2 => 0,
            AccelRange::G4 => 1,
            AccelRange::G8 => 2,
            AccelRange::G16 => 3,
        }
    }

    /// The range a two-bit full-scale-select value decodes to; out-of-domain
    /// values fall back to the most sensitive range.
    pub open spec fn spec_from_bits(v: u8) -> Self {
        if v == 0 {
            AccelRange::G2
        } else if v == 1 {
            AccelRange::G4
        } else if v == 2 {
            AccelRange::G8
        } else if v == 3 {
            AccelRange::G16
        } else {
            AccelRange::G2
        }
    }

    /// Scale factor for this range, in tenths of an LSB per g. The datasheet
    /// values are 16384, 8192, 4096 and 2048 LSB/g.
    pub open spec fn spec_sensitivity_tenths(self) -> u32 {
        match self {
            AccelRange::G2 => 163840,
            AccelRange::G4 => 81920,
            AccelRange::G8 => 40960,
            AccelRange::G16 => 20480,
        }
    }

    /// The two-bit full-scale-select value for this range.
    pub fn bits(self) -> (r: u8)
        ensures
            r == self.spec_bits(),
    {
        match self {
            AccelRange::G2 => 0,
            AccelRange::G4 => 1,
            AccelRange::G8 => 2,
            AccelRange::G16 => 3,
        }
    }

    /// Scale factor for this range, in tenths of an LSB per g.
    pub fn sensitivity_tenths(self) -> (r: u32)
        ensures
            r == self.spec_sensitivity_tenths(),
    {
        match self {
            AccelRange::G2 => 163840,
            AccelRange::G4 => 81920,
            AccelRange::G8 => 40960,
            AccelRange::G16 => 20480,
        }
    }
}

impl From<u8> for AccelRange {
    fn from(range: u8) -> (r: Self) {
        if range == 0 {
            AccelRange::G2
        } else if range == 1 {
            AccelRange::G4
        } else if range == 2 {
            AccelRange::G8
        } else if range == 3 {
            AccelRange::G16
        } else {
            AccelRange::G2
        }
    }
}

impl vstd::std_specs::convert::FromSpecImpl<u8> for AccelRange {
    open spec fn obeys_from_spec() -> bool {
        true
    }

    open spec fn from_spec(v: u8) -> Self {
        AccelRange::spec_from_bits(v)
    }
}

impl GyroRange {
    /// The two-bit full-scale-select value for this range.
    pub open spec fn spec_bits(self) -> u8 {
        match self {
            GyroRange::D250 => 0,
            GyroRange::D500 => 1,
            GyroRange::D1000 => 2,
            GyroRange::D2000 => 3,
        }
    }

    /// The range a two-bit full-scale-select value decodes to; out-of-domain
    /// values fall back to the most sensitive range.
    pub open spec fn spec_from_bits(v: u8) -> Self {
        if v == 0 {
            GyroRange::D250
        } else if v == 1 {
            GyroRange::D500
        } else if v == 2 {
            GyroRange::D1000
        } else if v == 3 {
            GyroRange::D2000
        } else {
            GyroRange::D250
        }
    }

    /// Scale factor for this range, in tenths of an LSB per degree/second.
    /// The datasheet values are 131, 65.5, 32.8 and 16.4 LSB/(deg/s).
    pub open spec fn spec_sensitivity_tenths(self) -> u32 {
        match self {
            GyroRange::D250 => 1310,
            GyroRange::D500 => 655,
            GyroRange::D1000 => 328,
            GyroRange::D2000 => 164,
        }
    }

    /// The two-bit full-scale-select value for this range.
    pub fn bits(self) -> (r: u8)
        ensures
            r == self.spec_bits(),
    {
        match self {
            GyroRange::D250 => 0,
            GyroRange::D500 => 1,
            GyroRange::D1000 => 2,
            GyroRange::D2000 => 3,
        }
    }

    /// Scale factor for this range, in tenths of an LSB per degree/second.
    pub fn sensitivity_tenths(self) -> (r: u32)
        ensures
            r == self.spec_sensitivity_tenths(),
    {
        match self {
            GyroRange::D250 => 1310,
            GyroRange::D500 => 655,
            GyroRange::D1000 => 328,
            GyroRange::D2000 => 164,
        }
    }
}

impl From<u8> for GyroRange {
    fn from(range: u8) -> (r: Self) {
        if range == 0 {
            GyroRange::D250
        } else if range == 1 {
            GyroRange::D500
        } else if range == 2 {
            GyroRange::D1000
        } else if range == 3 {
            GyroRange::D2000
        } else {
            GyroRange::D250
        }
    }
}

impl vstd::std_specs::convert::FromSpecImpl<u8> for GyroRange {
    open spec fn obeys_from_spec() -> bool {
        true
    }

    open spec fn from_spec(v: u8) -> Self {
        GyroRange::spec_from_bits(v)
    }
}

/// Law: writing an accelerometer range into the two-bit full-scale-select
/// field of any configuration byte and reading the field back decodes to the
/// same range, for every byte and every range variant.
pub proof fn lemma_accel_range_roundtrip(byte: u8, range: AccelRange)
    ensures
        AccelRange::spec_from_bits(
            spec_get_bits(spec_set_bits(byte, 4, 2, range.spec_bits()), 4, 2),
        ) == range,
{
    let v = range.spec_bits();
    assert(v < 4);
    assert(spec_get_bits(spec_set_bits(byte, 4, 2, v), 4, 2) == v) by (bit_vector)
        requires
            v < 4,
    ;
}

/// Law: writing a gyroscope range into the two-bit full-scale-select field
/// of any configuration byte and reading the field back decodes to the same
/// range, for every byte and every range variant.
pub proof fn lemma_gyro_range_roundtrip(byte: u8, range: GyroRange)
    ensures
        GyroRange::spec_from_bits(
            spec_get_bits(spec_set_bits(byte, 4, 2, range.spec_bits()), 4, 2),
        ) == range,
{
    let v = range.spec_bits();
    assert(v < 4);
    assert(spec_get_bits(spec_set_bits(byte, 4, 2, v), 4, 2) == v) by (bit_vector)
        requires
            v < 4,
    ;
}

} // verus!
