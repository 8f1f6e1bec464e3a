//! Sensors on a bus with block reads, such as I2C/SMBus: the six output
//! bytes are fetched in one transaction.
use vstd::prelude::*;

use crate::axes::{axes_from_block, axes_of, triple_of};
use crate::bus::{BlockBus, Exchange};
use crate::handshake::{accepted_log, connect};
use crate::registers::SensorKind;
use crate::Error;

verus! {

/// What one read of `kind` did: it added a single six-byte block read at the
/// first output register to the exchanges `before`, and its result follows
/// from what that read returned.
pub open spec fn block_read_result<E>(
    kind: SensorKind,
    before: Seq<Exchange>,
    after: Seq<Exchange>,
    r: Result<(i32, i32, i32), Error<E>>,
) -> bool {
    &&& after.len() == before.len() + 1
    &&& after.drop_last() == before
    &&& after.last() matches Exchange::Block(register, len, reply)
    &&& register == kind.spec_first_output()
    &&& len == 6
    &&& match reply {
        None => r is Err && r->Err_0 is Transport,
        Some(b) => if b.len() == 6 {
            r is Ok && triple_of(r->Ok_0) == axes_of(b)
        } else {
            r is Err && r->Err_0 is ShortRead
        },
    }
}

/// Reads the six output bytes of `kind` in one block and decodes them.
fn read_block_axes<B: BlockBus>(
    dev: &mut B,
    kind: SensorKind,
    log: &mut Ghost<Seq<Exchange>>,
) -> (r: Result<(i32, i32, i32), Error<B::Error>>)
    ensures
        block_read_result(kind, old(log)@, final(log)@, r),
{
    let first = kind.first_output();
    let block = dev.read_block(first, 6);
    let ghost reply: Option<Seq<u8>> = if block is Ok {
        Some(block->Ok_0@)
    } else {
        None
    };
    let r = axes_from_block(block);
    let ghost before = log@;
    *log = Ghost(log@.push(Exchange::Block(first, 6, reply)));
    assert(log@.drop_last() =~= before);
    r
}

/// An accelerometer reader.
pub struct Accelerometer<B> {
    dev: B,
    log: Ghost<Seq<Exchange>>,
}

impl<B: BlockBus> Accelerometer<B> {
    /// The exchanges made on the bus since the reader was created, bring-up
    /// included.
    pub closed spec fn exchanges(&self) -> Seq<Exchange> {
        self.log@
    }

    /// Creates an accelerometer reader: checks the device identity, then
    /// writes the accelerometer configuration. Exactly which exchanges lead
    /// to which error is stated by [`connect`].
    pub fn new(dev: B) -> (r: Result<Self, Error<B::Error>>)
        ensures
            r is Ok ==> r->Ok_0.exchanges() == accepted_log(SensorKind::Accelerometer),
            r is Err ==> (r->Err_0 is IdentityMismatch || r->Err_0 is Transport),
    {
        let (r, log) = connect(dev, SensorKind::Accelerometer);
        match r {
            Ok(dev) => Ok(Accelerometer { dev, log }),
            Err(e) => Err(e),
        }
    }

    /// Reads the raw accelerometer values.
    pub fn read(&mut self) -> (r: Result<(i32, i32, i32), Error<B::Error>>)
        ensures
            block_read_result(
                SensorKind::Accelerometer,
                old(self).exchanges(),
                final(self).exchanges(),
                r,
            ),
    {
        read_block_axes(&mut self.dev, SensorKind::Accelerometer, &mut self.log)
    }
}

/// A magnetometer reader.
pub struct Magnetometer<B> {
    dev: B,
    log: Ghost<Seq<Exchange>>,
}

impl<B: BlockBus> Magnetometer<B> {
    /// The exchanges made on the bus since the reader was created, bring-up
    /// included.
    pub closed spec fn exchanges(&self) -> Seq<Exchange> {
        self.log@
    }

    /// Creates a magnetometer reader: checks the device identity, then
    /// writes the magnetometer configuration. Exactly which exchanges lead
    /// to which error is stated by [`connect`].
    pub fn new(dev: B) -> (r: Result<Self, Error<B::Error>>)
        ensures
            r is Ok ==> r->Ok_0.exchanges() == accepted_log(SensorKind::Magnetometer),
            r is Err ==> (r->Err_0 is IdentityMismatch || r->Err_0 is Transport),
    {
        let (r, log) = connect(dev, SensorKind::Magnetometer);
        match r {
            Ok(dev) => Ok(Magnetometer { dev, log }),
            Err(e) => Err(e),
        }
    }

    /// Reads the raw magnetometer values.
    pub fn read(&mut self) -> (r: Result<(i32, i32, i32), Error<B::Error>>)
        ensures
            block_read_result(
                SensorKind::Magnetometer,
                old(self).exchanges(),
                final(self).exchanges(),
                r,
            ),
    {
        read_block_axes(&mut self.dev, SensorKind::Magnetometer, &mut self.log)
    }
}

} // verus!
