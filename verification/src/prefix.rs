//! Prefix bytes and the instruction forms they select.

use vstd::prelude::*;

verus! {

/// The byte that opens the bit-operation forms.
pub const PREFIX_CB: u8 = 0xCB;

/// The byte that opens the forms indexed by `IX`.
pub const PREFIX_DD: u8 = 0xDD;

/// The byte that opens the extended forms.
pub const PREFIX_ED: u8 = 0xED;

/// The byte that opens the forms indexed by `IY`.
pub const PREFIX_FD: u8 = 0xFD;

/// Which prefix bytes stand before the opcode byte of an instruction.
#[derive(Clone, Copy, Debug, PartialEq, Eq, Structural)]
pub enum PrefixKind {
    /// No prefix byte: the opcode byte comes first.
    Unprefixed,
    /// `CB`, then the opcode byte.
    Cb,
    /// `DD`, then the opcode byte.
    Dd,
    /// `ED`, then the opcode byte.
    Ed,
    /// `FD`, then the opcode byte.
    Fd,
    /// `DD CB`, then a displacement byte, then the opcode byte.
    DdCb,
    /// `FD CB`, then a displacement byte, then the opcode byte.
    FdCb,
}

impl PrefixKind {
    /// The prefix that a stream opens with. Only the first two bytes count,
    /// and the second only after `DD` or `FD`.
    pub open spec fn of(bytes: Seq<u8>) -> PrefixKind {
        if bytes.len() == 0 {
            PrefixKind::Unprefixed
        } else if bytes[0] == PREFIX_CB {
            PrefixKind::Cb
        } else if bytes[0] == PREFIX_ED {
            PrefixKind::Ed
        } else if bytes[0] == PREFIX_DD {
            if bytes.len() >= 2 && bytes[1] == PREFIX_CB {
                PrefixKind::DdCb
            } else {
                PrefixKind::Dd
            }
        } else if bytes[0] == PREFIX_FD {
            if bytes.len() >= 2 && bytes[1] == PREFIX_CB {
                PrefixKind::FdCb
            } else {
                PrefixKind::Fd
            }
        } else {
            PrefixKind::Unprefixed
        }
    }

    /// Whether this is one of the two composite forms, in which the
    /// displacement byte stands before the opcode byte.
    pub open spec fn composite(self) -> bool {
        self == PrefixKind::DdCb || self == PrefixKind::FdCb
    }

    /// Whether this is `DD` or `FD` alone.
    pub open spec fn indexed(self) -> bool {
        self == PrefixKind::Dd || self == PrefixKind::Fd
    }

    /// Whether the opcode byte may be followed by operand bytes: so after
    /// no prefix and after `DD` or `FD` alone.
    pub open spec fn admits_operands(self) -> bool {
        self == PrefixKind::Unprefixed || self.indexed()
    }

    /// The place of the opcode byte, counted from the start of the
    /// instruction.
    pub open spec fn opcode_index(self) -> nat {
        match self {
            PrefixKind::Unprefixed => 0,
            PrefixKind::Cb | PrefixKind::Dd | PrefixKind::Ed | PrefixKind::Fd => 1,
            PrefixKind::DdCb | PrefixKind::FdCb => 3,
        }
    }

    /// Reads the prefix that `bytes` opens with. A stream that ends after
    /// `DD` or `FD` has that byte alone as its prefix; an empty one has
    /// none.
    pub fn resolve(bytes: &[u8]) -> (prefix: PrefixKind)
        ensures
            prefix == Self::of(bytes@),
    {
        if bytes.len() == 0 {
            return PrefixKind::Unprefixed;
        }
        let first: u8 = bytes[0];
        let then_cb: bool = bytes.len() >= 2 && bytes[1] == PREFIX_CB;
        match first {
            0xCB => PrefixKind::Cb,
            0xED => PrefixKind::Ed,
            0xDD => if then_cb {
                PrefixKind::DdCb
            } else {
                PrefixKind::Dd
            },
            0xFD => if then_cb {
                PrefixKind::FdCb
            } else {
                PrefixKind::Fd
            },
            _ => PrefixKind::Unprefixed,
        }
    }

    /// The place of the opcode byte, counted from the start of the
    /// instruction.
    pub fn opcode_offset(&self) -> (index: usize)
        ensures
            index == self.opcode_index(),
    {
        match self {
            PrefixKind::Unprefixed => 0,
            PrefixKind::Cb | PrefixKind::Dd | PrefixKind::Ed | PrefixKind::Fd => 1,
            PrefixKind::DdCb | PrefixKind::FdCb => 3,
        }
    }

    /// Whether this is one of the two composite forms.
    pub fn is_composite(&self) -> (yes: bool)
        ensures
            yes == self.composite(),
    {
        match self {
            PrefixKind::DdCb | PrefixKind::FdCb => true,
            _ => false,
        }
    }

    /// Whether this is `DD` or `FD` alone.
    pub fn is_indexed(&self) -> (yes: bool)
        ensures
            yes == self.indexed(),
    {
        match self {
            PrefixKind::Dd | PrefixKind::Fd => true,
            _ => false,
        }
    }
}

} // verus!
