//! The bus capabilities the drivers are generic over, and the SPI register
//! protocol built on a two-byte full-duplex transfer.
use vstd::prelude::*;

verus! {

/// One bus transaction as a driver saw it: what was asked and what came back.
pub enum Exchange {
    /// A single-register read of the register; the byte read, or `None` on a
    /// transport failure.
    Read(u8, Option<u8>),
    /// A single-register write of the value to the register; whether it
    /// succeeded.
    Write(u8, u8, bool),
    /// A block read of the given length from the register; the bytes
    /// returned, or `None` on a transport failure.
    Block(u8, u8, Option<Seq<u8>>),
}

/// A bus on which single registers of one device can be read and written.
pub trait RegisterBus {
    type Error;

    fn read_register(&mut self, register: u8) -> Result<u8, Self::Error>;

    fn write_register(&mut self, register: u8, value: u8) -> Result<(), Self::Error>;
}

/// A register bus that can also read consecutive registers in one transaction.
pub trait BlockBus: RegisterBus {
    fn read_block(&mut self, register: u8, len: u8) -> Result<Vec<u8>, Self::Error>;
}

/// A full-duplex link that clocks out two bytes while clocking in two.
pub trait FullDuplex {
    type Error;

    fn transfer(&mut self, tx: [u8; 2]) -> Result<[u8; 2], Self::Error>;
}

/// Set in the address byte of an SPI transaction that reads a register.
pub const SPI_READ_FLAG: u8 = 0x80;

/// The two bytes sent to read `register`: the address with the read flag set,
/// then a dummy byte while the device answers.
pub fn read_frame(register: u8) -> (r: [u8; 2])
    ensures
        r@ == seq![register | SPI_READ_FLAG, 0u8],
{
    let r = [register | SPI_READ_FLAG, 0u8];
    assert(r@ =~= seq![register | SPI_READ_FLAG, 0u8]);
    r
}

/// The two bytes sent to write `value` to `register`.
pub fn write_frame(register: u8, value: u8) -> (r: [u8; 2])
    ensures
        r@ == seq![register, value],
{
    let r = [register, value];
    assert(r@ =~= seq![register, value]);
    r
}

/// The register value in the bytes received during a read frame: the device
/// answers in the second byte.
pub fn read_response(rx: [u8; 2]) -> (r: u8)
    ensures
        r == rx@[1],
{
    rx[1]
}

/// The register protocol of the sensors over an SPI link.
pub struct SpiRegisters<T> {
    pub link: T,
}

impl<T> SpiRegisters<T> {
    pub fn new(link: T) -> (r: Self)
        ensures
            r.link == link,
    {
        SpiRegisters { link }
    }
}

impl<T: FullDuplex> RegisterBus for SpiRegisters<T> {
    type Error = T::Error;

    fn read_register(&mut self, register: u8) -> Result<u8, T::Error> {
        match self.link.transfer(read_frame(register)) {
            Ok(rx) => Ok(read_response(rx)),
            Err(e) => Err(e),
        }
    }

    fn write_register(&mut self, register: u8, value: u8) -> Result<(), T::Error> {
        match self.link.transfer(write_frame(register, value)) {
            Ok(_) => Ok(()),
            Err(e) => Err(e),
        }
    }
}

} // verus!
