//! The operand rules: which bytes follow an opcode byte.
//!
//! After no prefix, and after `DD` or `FD` alone, the opcode byte decides
//! whether a displacement byte and an immediate operand of one or two bytes
//! follow it. After `CB` and `ED` nothing follows. In the composite forms
//! `DD CB` and `FD CB` the displacement byte always stands before the
//! opcode byte and nothing follows.

use vstd::prelude::*;
use crate::opcode::Opcode;
use crate::prefix::PrefixKind;

verus! {

/// The relative jumps: `x == 0`, `z == 0` and `y` in `4..=7`. Their opcode
/// byte is followed by the jump's offset.
pub open spec fn is_relative_jump(opcode: Opcode) -> bool {
    opcode.x == 0 && opcode.z == 0 && 4 <= opcode.y <= 7
}

/// The forms that address memory through `HL`, which `DD` and `FD` turn
/// into indexed addressing with a displacement byte. Register slot 6 is
/// the memory operand. It is named by `y` in the increment, decrement and
/// load-immediate columns (`x == 0`, `z` in `4..=6`), by exactly one of
/// `y` and `z` in the register loads (`x == 1`; with both it is `HALT`,
/// which addresses nothing), and by `z` in the arithmetic block (`x == 2`).
pub open spec fn is_memory_form(opcode: Opcode) -> bool {
    ||| opcode.x == 0 && opcode.y == 6 && 4 <= opcode.z <= 6
    ||| opcode.x == 1 && ((opcode.y == 6) != (opcode.z == 6))
    ||| opcode.x == 2 && opcode.z == 6
}

/// Whether the instruction holds a displacement byte.
pub open spec fn has_displacement(prefix: PrefixKind, opcode: Opcode) -> bool {
    ||| prefix.composite()
    ||| prefix.admits_operands() && is_relative_jump(opcode)
    ||| prefix.indexed() && is_memory_form(opcode)
}

/// The number of immediate bytes that the opcode byte calls for where
/// operands are admitted: 0, 1 or 2.
pub open spec fn opcode_immediate_width(opcode: Opcode) -> nat {
    if opcode.x == 0 {
        if opcode.z == 1 && opcode.q == 0 {
            2
        } else if opcode.z == 2 && (opcode.p == 2 || opcode.p == 3) {
            2
        } else if opcode.z == 6 {
            1
        } else {
            0
        }
    } else if opcode.x == 3 {
        if opcode.z == 2 {
            2
        } else if opcode.z == 3 && opcode.y == 0 {
            2
        } else if opcode.z == 3 && (opcode.y == 2 || opcode.y == 3) {
            1
        } else if opcode.z == 5 && opcode.p == 0 {
            2
        } else if opcode.z == 6 {
            1
        } else {
            0
        }
    } else {
        0
    }
}

/// The number of immediate bytes of the instruction: 0, 1 or 2.
pub open spec fn immediate_width(prefix: PrefixKind, opcode: Opcode) -> nat {
    if prefix.admits_operands() {
        opcode_immediate_width(opcode)
    } else {
        0
    }
}

/// The place of the displacement byte, where there is one, counted from
/// the start of the instruction.
pub open spec fn displacement_index(prefix: PrefixKind) -> nat {
    if prefix.composite() {
        2
    } else {
        prefix.opcode_index() + 1
    }
}

/// The place of the first immediate byte, where there is one, counted from
/// the start of the instruction.
pub open spec fn immediate_index(prefix: PrefixKind, opcode: Opcode) -> nat {
    if has_displacement(prefix, opcode) && !prefix.composite() {
        prefix.opcode_index() + 2
    } else {
        prefix.opcode_index() + 1
    }
}

/// The number of bytes of the whole instruction: prefix bytes, opcode
/// byte, displacement and immediate.
pub open spec fn encoded_len(prefix: PrefixKind, opcode: Opcode) -> nat {
    immediate_index(prefix, opcode) + immediate_width(prefix, opcode)
}

/// Decides whether the instruction holds a displacement byte.
pub fn takes_displacement(prefix: &PrefixKind, opcode: &Opcode) -> (yes: bool)
    ensures
        yes == has_displacement(*prefix, *opcode),
{
    if prefix.is_composite() {
        return true;
    }
    let indexed: bool = prefix.is_indexed();
    if !indexed && !matches!(prefix, PrefixKind::Unprefixed) {
        return false;
    }
    match opcode.x {
        0 => match opcode.z {
            0 => 4 <= opcode.y && opcode.y <= 7,
            4 | 5 | 6 => indexed && opcode.y == 6,
            _ => false,
        },
        1 => indexed && ((opcode.y == 6) != (opcode.z == 6)),
        2 => indexed && opcode.z == 6,
        _ => false,
    }
}

/// Looks up how many immediate bytes the instruction holds.
pub fn immediate_bytes(prefix: &PrefixKind, opcode: &Opcode) -> (width: u8)
    ensures
        width == immediate_width(*prefix, *opcode),
        width <= 2,
{
    match prefix {
        PrefixKind::Unprefixed | PrefixKind::Dd | PrefixKind::Fd => {},
        _ => {
            return 0;
        },
    }
    match opcode.x {
        0 => match opcode.z {
            1 => if opcode.q == 0 {
                2
            } else {
                0
            },
            2 => if opcode.p == 2 || opcode.p == 3 {
                2
            } else {
                0
            },
            6 => 1,
            _ => 0,
        },
        3 => match opcode.z {
            2 => 2,
            3 => match opcode.y {
                0 => 2,
                2 | 3 => 1,
                _ => 0,
            },
            4 => 0,
            5 => if opcode.p == 0 {
                2
            } else {
                0
            },
            6 => 1,
            _ => 0,
        },
        _ => 0,
    }
}

} // verus!
