//! Register map of the sensors and the descriptor of each sensor kind.
use vstd::prelude::*;

verus! {

/// I2C slave address of the LSM6DSL accelerometer/gyroscope package.
pub const LSM6DSL_ADDRESS: u16 = 0x6A;
pub const LSM6DSL_WHO_AM_I: u8 = 0x0F;
pub const LSM6DSL_CTRL1_XL: u8 = 0x10;
pub const LSM6DSL_CTRL8_XL: u8 = 0x17;
pub const LSM6DSL_CTRL2_G: u8 = 0x11;
pub const LSM6DSL_CTRL3_C: u8 = 0x12;
pub const LSM6DSL_OUTX_L_XL: u8 = 0x28;
pub const LSM6DSL_OUTX_H_XL: u8 = 0x29;
pub const LSM6DSL_OUTY_L_XL: u8 = 0x2A;
pub const LSM6DSL_OUTY_H_XL: u8 = 0x2B;
pub const LSM6DSL_OUTZ_L_XL: u8 = 0x2C;
pub const LSM6DSL_OUTZ_H_XL: u8 = 0x2D;
pub const LSM6DSL_OUTX_L_G: u8 = 0x22;
pub const LSM6DSL_OUTX_H_G: u8 = 0x23;
pub const LSM6DSL_OUTY_L_G: u8 = 0x24;
pub const LSM6DSL_OUTY_H_G: u8 = 0x25;
pub const LSM6DSL_OUTZ_L_G: u8 = 0x26;
pub const LSM6DSL_OUTZ_H_G: u8 = 0x27;
/// Identity value of the LSM6DSL.
pub const LSM6DSL_IDENTITY: u8 = 0x6A;

/// I2C slave address of the LIS3MDL magnetometer.
pub const LIS3MDL_ADDRESS: u16 = 0x1C;
pub const LIS3MDL_WHO_AM_I: u8 = 0x0F;
pub const LIS3MDL_CTRL_REG1: u8 = 0x20;
pub const LIS3MDL_CTRL_REG2: u8 = 0x21;
pub const LIS3MDL_CTRL_REG3: u8 = 0x22;
pub const LIS3MDL_OUT_X_L: u8 = 0x28;
pub const LIS3MDL_OUT_X_H: u8 = 0x29;
pub const LIS3MDL_OUT_Y_L: u8 = 0x2A;
pub const LIS3MDL_OUT_Y_H: u8 = 0x2B;
pub const LIS3MDL_OUT_Z_L: u8 = 0x2C;
pub const LIS3MDL_OUT_Z_H: u8 = 0x2D;
/// Identity value of the LIS3MDL.
pub const LIS3MDL_IDENTITY: u8 = 0x3D;

/// ODR 3.33 kHz, +/- 8 g, bandwidth 400 Hz.
pub const ACCEL_CTRL1: u8 = 0b10011111;
/// Low pass filter enabled, BW9, composite filter.
pub const ACCEL_CTRL8: u8 = 0b11001000;
/// Block data update enabled, address increment during multi-byte reads.
pub const ACCEL_CTRL3: u8 = 0b01000100;
/// ODR 3.33 kHz, 2000 dps.
pub const GYRO_CTRL2: u8 = 0b10011100;
/// Temperature sensor on, high performance, ODR 80 Hz, no fast ODR, no self test.
pub const MAG_CTRL1: u8 = 0b11011100;
/// +/- 8 gauss.
pub const MAG_CTRL2: u8 = 0b00100000;
/// Continuous-conversion mode.
pub const MAG_CTRL3: u8 = 0b00000000;

/// The logical sensors that the drivers know how to bring up and read.
///
/// The accelerometer and the gyroscope are two views of one LSM6DSL package:
/// they share its identity and differ in configuration and output registers.
#[derive(Clone, Copy, Debug, PartialEq, Eq, Structural)]
pub enum SensorKind {
    Accelerometer,
    Gyroscope,
    Magnetometer,
}

impl SensorKind {
    /// Register that holds the device identity.
    pub open spec fn spec_identity_register(self) -> u8 {
        match self {
            SensorKind::Magnetometer => LIS3MDL_WHO_AM_I,
            _ => LSM6DSL_WHO_AM_I,
        }
    }

    /// Value the identity register must hold for the sensor to be accepted.
    pub open spec fn spec_expected_identity(self) -> u8 {
        match self {
            SensorKind::Magnetometer => LIS3MDL_IDENTITY,
            _ => LSM6DSL_IDENTITY,
        }
    }

    /// The (register, value) writes that bring the sensor into its operating
    /// mode, in the order in which they must be issued.
    pub open spec fn spec_configuration(self) -> Seq<(u8, u8)> {
        match self {
            SensorKind::Accelerometer => seq![
                (LSM6DSL_CTRL1_XL, ACCEL_CTRL1),
                (LSM6DSL_CTRL8_XL, ACCEL_CTRL8),
                (LSM6DSL_CTRL3_C, ACCEL_CTRL3),
            ],
            SensorKind::Gyroscope => seq![(LSM6DSL_CTRL2_G, GYRO_CTRL2)],
            SensorKind::Magnetometer => seq![
                (LIS3MDL_CTRL_REG1, MAG_CTRL1),
                (LIS3MDL_CTRL_REG2, MAG_CTRL2),
                (LIS3MDL_CTRL_REG3, MAG_CTRL3),
            ],
        }
    }

    /// The six output registers, low then high byte of x, y and z.
    pub open spec fn spec_output_registers(self) -> Seq<u8> {
        match self {
            SensorKind::Accelerometer => seq![
                LSM6DSL_OUTX_L_XL, LSM6DSL_OUTX_H_XL,
                LSM6DSL_OUTY_L_XL, LSM6DSL_OUTY_H_XL,
                LSM6DSL_OUTZ_L_XL, LSM6DSL_OUTZ_H_XL,
            ],
            SensorKind::Gyroscope => seq![
                LSM6DSL_OUTX_L_G, LSM6DSL_OUTX_H_G,
                LSM6DSL_OUTY_L_G, LSM6DSL_OUTY_H_G,
                LSM6DSL_OUTZ_L_G, LSM6DSL_OUTZ_H_G,
            ],
            SensorKind::Magnetometer => seq![
                LIS3MDL_OUT_X_L, LIS3MDL_OUT_X_H,
                LIS3MDL_OUT_Y_L, LIS3MDL_OUT_Y_H,
                LIS3MDL_OUT_Z_L, LIS3MDL_OUT_Z_H,
            ],
        }
    }

    /// First output register: where a six-byte block read starts.
    pub open spec fn spec_first_output(self) -> u8 {
        self.spec_output_registers()[0]
    }

    pub fn identity_register(&self) -> (r: u8)
        ensures
            r == self.spec_identity_register(),
    {
        match self {
            SensorKind::Magnetometer => LIS3MDL_WHO_AM_I,
            _ => LSM6DSL_WHO_AM_I,
        }
    }

    pub fn expected_identity(&self) -> (r: u8)
        ensures
            r == self.spec_expected_identity(),
    {
        match self {
            SensorKind::Magnetometer => LIS3MDL_IDENTITY,
            _ => LSM6DSL_IDENTITY,
        }
    }

    pub fn configuration(&self) -> (r: Vec<(u8, u8)>)
        ensures
            r@ == self.spec_configuration(),
    {
        let r = match self {
            SensorKind::Accelerometer => vec![
                (LSM6DSL_CTRL1_XL, ACCEL_CTRL1),
                (LSM6DSL_CTRL8_XL, ACCEL_CTRL8),
                (LSM6DSL_CTRL3_C, ACCEL_CTRL3),
            ],
            SensorKind::Gyroscope => vec![(LSM6DSL_CTRL2_G, GYRO_CTRL2)],
            SensorKind::Magnetometer => vec![
                (LIS3MDL_CTRL_REG1, MAG_CTRL1),
                (LIS3MDL_CTRL_REG2, MAG_CTRL2),
                (LIS3MDL_CTRL_REG3, MAG_CTRL3),
            ],
        };
        proof {
            assert(r@ =~= self.spec_configuration());
        }
        r
    }

    pub fn output_registers(&self) -> (r: Vec<u8>)
        ensures
            r@ == self.spec_output_registers(),
    {
        let r = match self {
            SensorKind::Accelerometer => vec![
                LSM6DSL_OUTX_L_XL, LSM6DSL_OUTX_H_XL,
                LSM6DSL_OUTY_L_XL, LSM6DSL_OUTY_H_XL,
                LSM6DSL_OUTZ_L_XL, LSM6DSL_OUTZ_H_XL,
            ],
            SensorKind::Gyroscope => vec![
                LSM6DSL_OUTX_L_G, LSM6DSL_OUTX_H_G,
                LSM6DSL_OUTY_L_G, LSM6DSL_OUTY_H_G,
                LSM6DSL_OUTZ_L_G, LSM6DSL_OUTZ_H_G,
            ],
            SensorKind::Magnetometer => vec![
                LIS3MDL_OUT_X_L, LIS3MDL_OUT_X_H,
                LIS3MDL_OUT_Y_L, LIS3MDL_OUT_Y_H,
                LIS3MDL_OUT_Z_L, LIS3MDL_OUT_Z_H,
            ],
        };
        proof {
            assert(r@ =~= self.spec_output_registers());
        }
        r
    }

    pub fn first_output(&self) -> (r: u8)
        ensures
            r == self.spec_first_output(),
    {
        match self {
            SensorKind::Accelerometer => LSM6DSL_OUTX_L_XL,
            SensorKind::Gyroscope => LSM6DSL_OUTX_L_G,
            SensorKind::Magnetometer => LIS3MDL_OUT_X_L,
        }
    }

    /// I2C slave address of the package that holds this sensor.
    pub fn bus_address(&self) -> (r: u16)
        ensures
            r == (match *self {
                SensorKind::Magnetometer => LIS3MDL_ADDRESS,
                _ => LSM6DSL_ADDRESS,
            }),
    {
        match self {
            SensorKind::Magnetometer => LIS3MDL_ADDRESS,
            _ => LSM6DSL_ADDRESS,
        }
    }
}

} // verus!
