//! The instruction record and the decoder that produces it.

use vstd::prelude::*;
use crate::bits::{combine_u8s, word_of};
use crate::opcode::Opcode;
use crate::operands::{
    displacement_index, encoded_len, has_displacement, immediate_bytes, immediate_index,
    immediate_width, takes_displacement,
};
use crate::prefix::PrefixKind;

verus! {

/// A literal operand held in the instruction stream.
#[derive(Clone, Copy, Debug, PartialEq, Eq)]
pub enum Immediate {
    /// One byte.
    Byte(u8),
    /// Two bytes, the low one first in the stream.
    Word(u16),
}

/// Why a stream could not be decoded.
#[derive(Clone, Copy, Debug, PartialEq, Eq)]
pub enum DecodeError {
    /// The stream ends before the instruction does.
    Truncated,
}

/// One decoded instruction.
#[derive(Clone, Copy, Debug, PartialEq, Eq)]
pub struct Instruction {
    /// The prefix bytes in force.
    pub prefix: PrefixKind,
    /// The opcode byte that the operand rules were applied to.
    pub opcode: Opcode,
    /// The signed offset, where the form has one.
    pub displacement: Option<i8>,
    /// The literal operand, where the form has one.
    pub immediate: Option<Immediate>,
    /// The number of bytes that the instruction takes up in the stream.
    pub length: u8,
}

/// The value of a byte read as a two's-complement number.
pub open spec fn signed_of(byte: u8) -> int {
    if byte < 128 {
        byte as int
    } else {
        byte as int - 256
    }
}

/// The displacement of the instruction that `bytes` opens with, given its
/// prefix and opcode.
pub open spec fn displacement_of(bytes: Seq<u8>, prefix: PrefixKind, opcode: Opcode) -> Option<i8>
    recommends
        bytes.len() >= encoded_len(prefix, opcode),
{
    if has_displacement(prefix, opcode) {
        Some(signed_of(bytes[displacement_index(prefix) as int]) as i8)
    } else {
        None
    }
}

/// The immediate operand of the instruction that `bytes` opens with, given
/// its prefix and opcode. A word is read low byte first.
pub open spec fn immediate_of(bytes: Seq<u8>, prefix: PrefixKind, opcode: Opcode) -> Option<
    Immediate,
>
    recommends
        bytes.len() >= encoded_len(prefix, opcode),
{
    let at = immediate_index(prefix, opcode) as int;
    if immediate_width(prefix, opcode) == 0 {
        None
    } else if immediate_width(prefix, opcode) == 1 {
        Some(Immediate::Byte(bytes[at]))
    } else {
        Some(Immediate::Word(word_of(bytes[at + 1], bytes[at]) as u16))
    }
}

/// What decoding the start of `bytes` gives. The stream is truncated where
/// it is empty, where it ends before the opcode byte, or where it ends
/// before the last operand byte that prefix and opcode call for. Every
/// other stream decodes.
pub open spec fn decode_spec(bytes: Seq<u8>) -> Result<Instruction, DecodeError> {
    let prefix = PrefixKind::of(bytes);
    if bytes.len() <= prefix.opcode_index() {
        Err(DecodeError::Truncated)
    } else {
        let opcode = Opcode::classify(bytes[prefix.opcode_index() as int]);
        if bytes.len() < encoded_len(prefix, opcode) {
            Err(DecodeError::Truncated)
        } else {
            Ok(
                Instruction {
                    prefix,
                    opcode,
                    displacement: displacement_of(bytes, prefix, opcode),
                    immediate: immediate_of(bytes, prefix, opcode),
                    length: encoded_len(prefix, opcode) as u8,
                },
            )
        }
    }
}

/// Reads a byte as a two's-complement number.
pub fn to_signed(byte: u8) -> (value: i8)
    ensures
        value as int == signed_of(byte),
{
    if byte < 128 {
        byte as i8
    } else {
        (byte as i16 - 256) as i8
    }
}

impl Instruction {
    /// The record agrees with the operand rules: the opcode is a
    /// classification, displacement and immediate are present exactly where
    /// prefix and opcode call for them, and the length is that of the
    /// encoding.
    pub open spec fn wf(self) -> bool {
        &&& self.opcode.wf()
        &&& self.displacement is Some <==> has_displacement(self.prefix, self.opcode)
        &&& match self.immediate {
            None => immediate_width(self.prefix, self.opcode) == 0,
            Some(Immediate::Byte(_)) => immediate_width(self.prefix, self.opcode) == 1,
            Some(Immediate::Word(_)) => immediate_width(self.prefix, self.opcode) == 2,
        }
        &&& self.length as nat == encoded_len(self.prefix, self.opcode)
    }

    /// Decodes the instruction that `bytes` opens with. Bytes behind the
    /// instruction are not looked at.
    pub fn new(bytes: &[u8]) -> (decoded: Result<Instruction, DecodeError>)
        ensures
            decoded == decode_spec(bytes@),
            decoded matches Ok(instruction) ==> instruction.wf() && 1 <= instruction.length <= 4
                && instruction.length <= bytes@.len(),
    {
        let prefix = PrefixKind::resolve(bytes);
        let at: usize = prefix.opcode_offset();
        if bytes.len() <= at {
            return Err(DecodeError::Truncated);
        }
        let opcode = Opcode::new(bytes[at]);
        let with_displacement: bool = takes_displacement(&prefix, &opcode);
        let width: u8 = immediate_bytes(&prefix, &opcode);
        let operands: usize = if with_displacement && !prefix.is_composite() {
            at + 2
        } else {
            at + 1
        };
        let length: usize = operands + width as usize;
        if bytes.len() < length {
            return Err(DecodeError::Truncated);
        }
        let displacement: Option<i8> = if !with_displacement {
            None
        } else if prefix.is_composite() {
            Some(to_signed(bytes[2]))
        } else {
            Some(to_signed(bytes[at + 1]))
        };
        let immediate: Option<Immediate> = if width == 0 {
            None
        } else if width == 1 {
            Some(Immediate::Byte(bytes[operands]))
        } else {
            Some(Immediate::Word(combine_u8s(bytes[operands + 1], bytes[operands])))
        };
        Ok(Instruction { prefix, opcode, displacement, immediate, length: length as u8 })
    }
}

/// Decoding is a function of the bytes alone: whatever two calls on one
/// stream return, they return the same record or the same error.
pub proof fn lemma_decode_repeats(
    bytes: Seq<u8>,
    first: Result<Instruction, DecodeError>,
    second: Result<Instruction, DecodeError>,
)
    requires
        first == decode_spec(bytes),
        second == decode_spec(bytes),
    ensures
        first == second,
{
}

/// A decoded record is well formed, is one to four bytes long, and is no
/// longer than the stream it came from.
pub proof fn lemma_decoded_is_well_formed(bytes: Seq<u8>)
    ensures
        decode_spec(bytes) matches Ok(instruction) ==> instruction.wf() && 1 <= instruction.length
            <= 4 && instruction.length <= bytes.len(),
{
    let prefix = PrefixKind::of(bytes);
    if bytes.len() > prefix.opcode_index() {
        let opcode = Opcode::classify(bytes[prefix.opcode_index() as int]);
        lemma_encoded_len_bounds(prefix, opcode);
    }
}

/// An encoding is longer than the place of its opcode byte and at most
/// four bytes long.
pub proof fn lemma_encoded_len_bounds(prefix: PrefixKind, opcode: Opcode)
    ensures
        prefix.opcode_index() < encoded_len(prefix, opcode) <= 4,
{
}

/// Truncation is the only failure, and four bytes are always enough: a
/// stream fails to decode only if it is shorter than four bytes.
pub proof fn lemma_four_bytes_decode(bytes: Seq<u8>)
    requires
        bytes.len() >= 4,
    ensures
        decode_spec(bytes) is Ok,
{
    let prefix = PrefixKind::of(bytes);
    let opcode = Opcode::classify(bytes[prefix.opcode_index() as int]);
    lemma_encoded_len_bounds(prefix, opcode);
}

/// Decoding looks at the bytes of the instruction and at no others: two
/// streams that agree on the first `length` bytes decode to the same
/// record.
pub proof fn lemma_decode_reads_own_bytes(bytes: Seq<u8>, other: Seq<u8>)
    requires
        decode_spec(bytes) is Ok,
        other.len() >= decode_spec(bytes)->Ok_0.length,
        forall|i: int| 0 <= i < decode_spec(bytes)->Ok_0.length ==> other[i] == bytes[i],
    ensures
        decode_spec(other) == decode_spec(bytes),
{
    let prefix = PrefixKind::of(bytes);
    let opcode = Opcode::classify(bytes[prefix.opcode_index() as int]);
    lemma_encoded_len_bounds(prefix, opcode);
    assert(PrefixKind::of(other) == prefix);
}

/// A stream cut off inside an instruction is truncated: where `bytes`
/// decodes, none of its beginnings shorter than the instruction does.
pub proof fn lemma_cut_short_is_truncated(bytes: Seq<u8>, kept: int)
    requires
        decode_spec(bytes) is Ok,
        0 <= kept < decode_spec(bytes)->Ok_0.length,
    ensures
        decode_spec(bytes.take(kept)) == Err::<Instruction, DecodeError>(DecodeError::Truncated),
{
    let prefix = PrefixKind::of(bytes);
    let opcode = Opcode::classify(bytes[prefix.opcode_index() as int]);
    lemma_encoded_len_bounds(prefix, opcode);
    let short = bytes.take(kept);
    let short_prefix = PrefixKind::of(short);
    if short.len() > short_prefix.opcode_index() {
        assert(short_prefix == prefix);
        assert(short[prefix.opcode_index() as int] == bytes[prefix.opcode_index() as int]);
    }
}

} // verus!
