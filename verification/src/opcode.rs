//! Classification of one opcode byte into its `x`/`y`/`z`/`p`/`q` fields.
//!
//! ```text
//!   [7] [6] [5] [4] [3] [2] [1] [0]
//!   ^-----^ ^---------^ ^---------^
//!      x         y           z
//!           ^-----^ ^-^
//!              p     q
//! ```

use vstd::prelude::*;
use vstd::std_specs::convert::FromSpecImpl;
use crate::bits::{bit_field, get_bits_inclusive};

verus! {

/// One opcode byte together with the five bit fields that drive decoding.
#[derive(Clone, Copy, Debug, PartialEq, Eq, Structural)]
pub struct Opcode {
    /// The byte as it stood in the stream.
    pub raw: u8,
    /// Bits 6-7.
    pub x: u8,
    /// Bits 3-5.
    pub y: u8,
    /// Bits 0-2.
    pub z: u8,
    /// Bits 4-5: the upper two bits of `y`.
    pub p: u8,
    /// Bit 3: the lowest bit of `y`.
    pub q: u8,
}

impl Opcode {
    /// The classification of `byte`. Each field is the number written in
    /// the bit range it is named after, as quotients and remainders by
    /// powers of two.
    pub open spec fn classify(byte: u8) -> Opcode {
        Opcode {
            raw: byte,
            x: byte / 64,
            y: (byte / 8) % 8,
            z: byte % 8,
            p: (byte / 16) % 4,
            q: (byte / 8) % 2,
        }
    }

    /// The fields are those that `raw` classifies to.
    pub open spec fn wf(self) -> bool {
        self == Self::classify(self.raw)
    }

    /// Classifies `op`.
    pub fn new(op: u8) -> (opcode: Opcode)
        ensures
            opcode == Self::classify(op),
            opcode.wf(),
            opcode.x <= 3 && opcode.y <= 7 && opcode.z <= 7 && opcode.p <= 3 && opcode.q <= 1,
            opcode.y == opcode.p * 2 + opcode.q,
    {
        proof {
            lemma_classify_reads_bit_fields(op);
            lemma_y_is_p_then_q(op);
        }
        Opcode {
            raw: op,
            x: get_bits_inclusive(op, 6, 7),
            y: get_bits_inclusive(op, 3, 5),
            z: get_bits_inclusive(op, 0, 2),
            p: get_bits_inclusive(op, 4, 5),
            q: get_bits_inclusive(op, 3, 3),
        }
    }
}

impl From<u8> for Opcode {
    fn from(byte: u8) -> (opcode: Opcode) {
        Opcode::new(byte)
    }
}

impl FromSpecImpl<u8> for Opcode {
    open spec fn obeys_from_spec() -> bool {
        true
    }

    open spec fn from_spec(byte: u8) -> Opcode {
        Opcode::classify(byte)
    }
}

/// The fields of a classification are the bit ranges 6-7, 3-5, 0-2, 4-5
/// and 3-3 of the byte.
pub proof fn lemma_classify_reads_bit_fields(byte: u8)
    ensures
        Opcode::classify(byte).x == bit_field(byte, 6, 7),
        Opcode::classify(byte).y == bit_field(byte, 3, 5),
        Opcode::classify(byte).z == bit_field(byte, 0, 2),
        Opcode::classify(byte).p == bit_field(byte, 4, 5),
        Opcode::classify(byte).q == bit_field(byte, 3, 3),
{
    let b = byte as int;
    assert(bit_field(byte, 6, 7) == (b / 64) % 4);
    assert(bit_field(byte, 3, 5) == (b / 8) % 8);
    assert(bit_field(byte, 0, 2) == (b / 1) % 8);
    assert(bit_field(byte, 4, 5) == (b / 16) % 4);
    assert(bit_field(byte, 3, 3) == (b / 8) % 2);
}

/// The range of each field of a classification.
pub proof fn lemma_classify_ranges(byte: u8)
    ensures
        Opcode::classify(byte).x <= 3,
        Opcode::classify(byte).y <= 7,
        Opcode::classify(byte).z <= 7,
        Opcode::classify(byte).p <= 3,
        Opcode::classify(byte).q <= 1,
{
}

/// In every classification `y` is `p` and `q` written side by side:
/// `y == 2 * p + q`.
pub proof fn lemma_y_is_p_then_q(byte: u8)
    ensures
        Opcode::classify(byte).y == Opcode::classify(byte).p * 2 + Opcode::classify(byte).q,
{
    assert((byte / 8) % 8 == ((byte / 16) % 4) * 2 + (byte / 8) % 2) by (bit_vector);
}

/// The fields `x`, `y` and `z` cover the eight bits of the byte, each bit
/// once: put back at their places they give the byte again.
pub proof fn lemma_fields_partition_byte(byte: u8)
    ensures
        (Opcode::classify(byte).x << 6) | (Opcode::classify(byte).y << 3) | Opcode::classify(
            byte,
        ).z == byte,
        Opcode::classify(byte).x * 64 + Opcode::classify(byte).y * 8 + Opcode::classify(byte).z
            == byte,
{
    let x = Opcode::classify(byte).x;
    let y = Opcode::classify(byte).y;
    let z = Opcode::classify(byte).z;
    assert((x << 6) | (y << 3) | z == byte) by (bit_vector)
        requires
            x == byte / 64,
            y == (byte / 8) % 8,
            z == byte % 8,
    ;
}

} // verus!
