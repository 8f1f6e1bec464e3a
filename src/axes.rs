//! Reconstruction of signed axis values from the sensors' output bytes.
use vstd::prelude::*;

use crate::registers::SensorKind;
use crate::Error;

verus! {

/// The 16-bit two's-complement value whose low byte is `low` and high byte is
/// `high`.
pub open spec fn signed16(low: u8, high: u8) -> int {
    let combined = low as int + 256 * high as int;
    if combined < 32768 {
        combined
    } else {
        combined - 65536
    }
}

/// The (x, y, z) axes held by six output bytes, low then high byte per axis.
pub open spec fn axes_of(bytes: Seq<u8>) -> (int, int, int) {
    (signed16(bytes[0], bytes[1]), signed16(bytes[2], bytes[3]), signed16(bytes[4], bytes[5]))
}

/// A triple of machine integers seen as mathematical integers.
pub open spec fn triple_of(t: (i32, i32, i32)) -> (int, int, int) {
    (t.0 as int, t.1 as int, t.2 as int)
}

/// The bytes a six-byte block read starting at `first` returns from a device
/// whose registers hold `regs`.
pub open spec fn block_at(regs: spec_fn(u8) -> u8, first: u8) -> Seq<u8> {
    Seq::new(6, |i: int| regs((first as int + i) as u8))
}

/// The bytes six single reads of `addresses` return from a device whose
/// registers hold `regs`.
pub open spec fn single_reads(regs: spec_fn(u8) -> u8, addresses: Seq<u8>) -> Seq<u8> {
    addresses.map_values(|a: u8| regs(a))
}

/// Combines a low and a high byte through an unsigned 16-bit value, mapping
/// values of 32768 and above to their negative two's-complement reading.
pub fn combine(low: u8, high: u8) -> (r: i32)
    ensures
        r as int == signed16(low, high),
{
    let combined: u16 = (low as u16) | ((high as u16) << 8u16);
    assert(combined == low as u16 + 256 * (high as u16)) by (bit_vector)
        requires
            combined == (low as u16) | ((high as u16) << 8u16),
    ;
    if combined < 32768 {
        combined as i32
    } else {
        combined as i32 - 65536
    }
}

/// Combines a low and a high byte as a little-endian `i16`, widened.
pub fn combine_le(low: u8, high: u8) -> (r: i32)
    ensures
        r as int == signed16(low, high),
{
    let v: i16 = (low as i16) | ((high as i16) << 8u16);
    assert(v as int == signed16(low, high)) by (bit_vector)
        requires
            v == (low as i16) | ((high as i16) << 8u16),
    ;
    v as i32
}

/// Interprets the outcome of a six-byte block read: a transport failure stays
/// one, a block of any other length is a short read, and six bytes are
/// decoded as x, y and z.
pub fn axes_from_block<E>(block: Result<Vec<u8>, E>) -> (r: Result<(i32, i32, i32), Error<E>>)
    ensures
        block is Err ==> r == Err::<(i32, i32, i32), Error<E>>(Error::Transport(block->Err_0)),
        block is Ok && block->Ok_0@.len() != 6 ==> r == Err::<(i32, i32, i32), Error<E>>(
            Error::ShortRead,
        ),
        block is Ok && block->Ok_0@.len() == 6 ==> r is Ok && triple_of(r->Ok_0) == axes_of(
            block->Ok_0@,
        ),
{
    match block {
        Err(e) => Err(Error::Transport(e)),
        Ok(b) => {
            if b.len() != 6 {
                Err(Error::ShortRead)
            } else {
                let x = combine_le(b[0], b[1]);
                let y = combine_le(b[2], b[3]);
                let z = combine_le(b[4], b[5]);
                Ok((x, y, z))
            }
        },
    }
}

/// Decodes the six bytes gathered by single register reads, low then high
/// byte per axis.
pub fn axes_from_registers(bytes: &Vec<u8>) -> (r: (i32, i32, i32))
    requires
        bytes@.len() == 6,
    ensures
        triple_of(r) == axes_of(bytes@),
{
    let x = combine(bytes[0], bytes[1]);
    let y = combine(bytes[2], bytes[3]);
    let z = combine(bytes[4], bytes[5]);
    (x, y, z)
}

/// A sensor's axes read as one block starting at its first output register
/// equal its axes read as six single reads of its output registers, whatever
/// the registers hold.
pub proof fn lemma_block_equals_single_reads(kind: SensorKind, regs: spec_fn(u8) -> u8)
    ensures
        block_at(regs, kind.spec_first_output()) == single_reads(
            regs,
            kind.spec_output_registers(),
        ),
        axes_of(block_at(regs, kind.spec_first_output())) == axes_of(
            single_reads(regs, kind.spec_output_registers()),
        ),
{
    let block = block_at(regs, kind.spec_first_output());
    let singles = single_reads(regs, kind.spec_output_registers());
    assert(block =~= singles);
}

} // verus!
