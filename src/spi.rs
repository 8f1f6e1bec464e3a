//! Sensors on a bus without block reads, such as SPI through
//! [`SpiRegisters`](crate::bus::SpiRegisters): each output byte is fetched by
//! its own register read.
use vstd::prelude::*;

use crate::axes::{
    axes_from_registers, axes_of, block_at, lemma_block_equals_single_reads, single_reads, triple_of,
};
use crate::bus::{Exchange, RegisterBus};
use crate::handshake::{accepted_log, connect};
use crate::i2c::block_read_result;
use crate::registers::SensorKind;
use crate::Error;

verus! {

/// The byte a single-register read returned, if it returned one.
pub open spec fn reply_byte(e: Exchange) -> u8 {
    match e {
        Exchange::Read(_, Some(b)) => b,
        _ => 0,
    }
}

/// The bytes returned by a run of single-register reads.
pub open spec fn replies(reads: Seq<Exchange>) -> Seq<u8> {
    reads.map_values(|e: Exchange| reply_byte(e))
}

/// What one read of `kind` did: it added single reads of the output registers
/// to the exchanges `before`, in order, stopping after the first that failed;
/// it succeeds exactly when all six did, with the axes the replies hold.
pub open spec fn register_read_result<E>(
    kind: SensorKind,
    before: Seq<Exchange>,
    after: Seq<Exchange>,
    r: Result<(i32, i32, i32), Error<E>>,
) -> bool {
    let tail = after.skip(before.len() as int);
    &&& before.len() < after.len() <= before.len() + 6
    &&& after.take(before.len() as int) == before
    &&& forall|j: int|
        0 <= j < tail.len() ==> #[trigger] tail[j] is Read && tail[j]->Read_0
            == kind.spec_output_registers()[j]
    &&& forall|j: int| 0 <= j < tail.len() - 1 ==> (#[trigger] tail[j])->Read_1 is Some
    &&& r is Ok <==> (tail.len() == 6 && tail[5]->Read_1 is Some)
    &&& r is Ok ==> triple_of(r->Ok_0) == axes_of(replies(tail))
    &&& r is Err ==> r->Err_0 is Transport
}

/// Reads the six output registers of `kind` one by one, low then high byte
/// per axis, and decodes them. The first failed read fails the whole read.
fn read_register_axes<B: RegisterBus>(
    dev: &mut B,
    kind: SensorKind,
    log: &mut Ghost<Seq<Exchange>>,
) -> (r: Result<(i32, i32, i32), Error<B::Error>>)
    ensures
        register_read_result(kind, old(log)@, final(log)@, r),
{
    let ghost before = log@;
    let registers = kind.output_registers();
    let mut bytes: Vec<u8> = Vec::new();
    let mut i: usize = 0;
    while i < 6
        invariant
            registers@ == kind.spec_output_registers(),
            bytes@.len() == i,
            i <= 6,
            before == old(log)@,
            log@.len() == before.len() + i,
            log@.take(before.len() as int) == before,
            forall|j: int|
                0 <= j < i ==> #[trigger] log@[before.len() + j] == Exchange::Read(
                    registers@[j],
                    Some(bytes@[j]),
                ),
        decreases 6 - i,
    {
        let register = registers[i];
        match dev.read_register(register) {
            Ok(b) => {
                bytes.push(b);
                *log = Ghost(log@.push(Exchange::Read(register, Some(b))));
                assert(log@.take(before.len() as int) =~= before);
            },
            Err(e) => {
                *log = Ghost(log@.push(Exchange::Read(register, None)));
                proof {
                    let tail = log@.skip(before.len() as int);
                    assert(log@.take(before.len() as int) =~= before);
                    assert(tail.len() == i + 1);
                    assert(tail[i as int] == Exchange::Read(register, None));
                    assert forall|j: int| 0 <= j < tail.len() implies #[trigger] tail[j] is Read
                        && tail[j]->Read_0 == kind.spec_output_registers()[j] by {
                        if j < i {
                            assert(tail[j] == log@[before.len() + j]);
                        }
                    }
                    assert forall|j: int| 0 <= j < tail.len() - 1 implies (
                    #[trigger] tail[j])->Read_1 is Some by {
                        assert(tail[j] == log@[before.len() + j]);
                    }
                }
                return Err(Error::Transport(e));
            },
        }
        i = i + 1;
    }
    let t = axes_from_registers(&bytes);
    proof {
        let tail = log@.skip(before.len() as int);
        assert forall|j: int| 0 <= j < 6 implies #[trigger] tail[j] == Exchange::Read(
            registers@[j],
            Some(bytes@[j]),
        ) by {
            assert(tail[j] == log@[before.len() + j]);
        }
        assert(replies(tail) =~= bytes@);
        assert(tail[5]->Read_1 is Some);
    }
    Ok(t)
}

/// On a device whose registers hold `regs`, a read of a sensor as one block
/// and a read of it as six single reads that both got the register contents
/// back give the same axes.
pub proof fn lemma_block_and_single_reads_agree<E>(
    kind: SensorKind,
    regs: spec_fn(u8) -> u8,
    block_before: Seq<Exchange>,
    block_after: Seq<Exchange>,
    by_block: Result<(i32, i32, i32), Error<E>>,
    singles_before: Seq<Exchange>,
    singles_after: Seq<Exchange>,
    by_singles: Result<(i32, i32, i32), Error<E>>,
)
    requires
        block_read_result(kind, block_before, block_after, by_block),
        block_after.last() == Exchange::Block(
            kind.spec_first_output(),
            6,
            Some(block_at(regs, kind.spec_first_output())),
        ),
        register_read_result(kind, singles_before, singles_after, by_singles),
        by_singles is Ok,
        replies(singles_after.skip(singles_before.len() as int)) == single_reads(
            regs,
            kind.spec_output_registers(),
        ),
    ensures
        by_block is Ok,
        triple_of(by_block->Ok_0) == triple_of(by_singles->Ok_0),
{
    lemma_block_equals_single_reads(kind, regs);
}

/// An accelerometer reader.
pub struct Accelerometer<B> {
    dev: B,
    log: Ghost<Seq<Exchange>>,
}

impl<B: RegisterBus> Accelerometer<B> {
    /// The exchanges made on the bus since the reader was created, bring-up
    /// included.
    pub closed spec fn exchanges(&self) -> Seq<Exchange> {
        self.log@
    }

    /// Creates an accelerometer reader: checks the device identity, then
    /// writes the accelerometer configuration. Exactly which exchanges lead
    /// to which error is stated by [`connect`].
    pub fn new(dev: B) -> (r: Result<Self, Error<B::Error>>)
        ensures
            r is Ok ==> r->Ok_0.exchanges() == accepted_log(SensorKind::Accelerometer),
            r is Err ==> (r->Err_0 is IdentityMismatch || r->Err_0 is Transport),
    {
        let (r, log) = connect(dev, SensorKind::Accelerometer);
        match r {
            Ok(dev) => Ok(Accelerometer { dev, log }),
            Err(e) => Err(e),
        }
    }

    /// Reads the raw accelerometer values.
    pub fn read(&mut self) -> (r: Result<(i32, i32, i32), Error<B::Error>>)
        ensures
            register_read_result(
                SensorKind::Accelerometer,
                old(self).exchanges(),
                final(self).exchanges(),
                r,
            ),
    {
        read_register_axes(&mut self.dev, SensorKind::Accelerometer, &mut self.log)
    }
}

/// A gyroscope reader.
pub struct Gyroscope<B> {
    dev: B,
    log: Ghost<Seq<Exchange>>,
}

impl<B: RegisterBus> Gyroscope<B> {
    /// The exchanges made on the bus since the reader was created, bring-up
    /// included.
    pub closed spec fn exchanges(&self) -> Seq<Exchange> {
        self.log@
    }

    /// Creates a gyroscope reader: checks the identity of the package it
    /// shares with the accelerometer, then writes the gyroscope
    /// configuration. Exactly which exchanges lead to which error is stated
    /// by [`connect`].
    pub fn new(dev: B) -> (r: Result<Self, Error<B::Error>>)
        ensures
            r is Ok ==> r->Ok_0.exchanges() == accepted_log(SensorKind::Gyroscope),
            r is Err ==> (r->Err_0 is IdentityMismatch || r->Err_0 is Transport),
    {
        let (r, log) = connect(dev, SensorKind::Gyroscope);
        match r {
            Ok(dev) => Ok(Gyroscope { dev, log }),
            Err(e) => Err(e),
        }
    }

    /// Reads the raw gyroscope values.
    pub fn read(&mut self) -> (r: Result<(i32, i32, i32), Error<B::Error>>)
        ensures
            register_read_result(
                SensorKind::Gyroscope,
                old(self).exchanges(),
                final(self).exchanges(),
                r,
            ),
    {
        read_register_axes(&mut self.dev, SensorKind::Gyroscope, &mut self.log)
    }
}

} // verus!
