//! Register-level drivers for the BerryIMU motion sensors: an LSM6DSL
//! accelerometer/gyroscope package and an LIS3MDL magnetometer.
//!
//! The drivers are generic over the bus traits of [`bus`]: identity check,
//! configuration program, output decoding and SPI framing are all verified
//! here, while the transport itself is supplied by the caller.
use vstd::prelude::*;

pub mod axes;
pub mod bus;
pub mod handshake;
pub mod i2c;
pub mod registers;
pub mod spi;

verus! {

/// An error that occurred while interfacing with a sensor.
#[derive(Debug)]
pub enum Error<E> {
    /// The identity register did not hold the value expected for the sensor.
    IdentityMismatch,
    /// A block read returned a different number of bytes than requested.
    ShortRead,
    /// The bus transport reported a failure.
    Transport(E),
}

impl<E> From<E> for Error<E> {
    fn from(err: E) -> (r: Self)
        ensures
            r == Error::<E>::Transport(err),
    {
        Error::Transport(err)
    }
}

impl<E> vstd::std_specs::convert::FromSpecImpl<E> for Error<E> {
    open spec fn obeys_from_spec() -> bool {
        true
    }

    open spec fn from_spec(v: E) -> Self {
        Error::Transport(v)
    }
}

} // verus!
