//! The fields of an instruction word.

use vstd::prelude::*;

verus! {

/// The fields that an instruction word is read as.
///
/// The leading nibble selects the instruction family. The other three
/// nibbles are read, depending on the family, as two register indices and a
/// count, as a register index and an 8-bit immediate, or as a 12-bit address.
#[derive(Copy, Clone, Debug, PartialEq, Eq, Structural)]
pub struct Opcode {
    /// The whole 16-bit word.
    pub raw: u16,
    /// The leading nibble.
    pub family: u8,
    /// The second nibble: a register index.
    pub x: u8,
    /// The third nibble: a register index.
    pub y: u8,
    /// The last nibble: a count or a sub-code.
    pub n: u8,
    /// The low byte: an immediate or a sub-code.
    pub nn: u8,
    /// The low twelve bits: an address.
    pub nnn: u16,
}

impl Opcode {
    /// The fields of the word `op`.
    pub open spec fn of(op: u16) -> Opcode {
        Opcode {
            raw: op,
            family: (op / 4096) as u8,
            x: ((op / 256) % 16) as u8,
            y: ((op / 16) % 16) as u8,
            n: (op % 16) as u8,
            nn: (op % 256) as u8,
            nnn: op % 4096,
        }
    }

    /// The word made of the byte `high` followed by the byte `low`.
    pub open spec fn word(high: u8, low: u8) -> u16 {
        (high * 256 + low) as u16
    }

    /// The fields agree with each other: each nibble is below 16, and the
    /// nibbles make up the low byte, the address and the whole word.
    pub open spec fn wf(self) -> bool {
        &&& self.family < 16
        &&& self.x < 16
        &&& self.y < 16
        &&& self.n < 16
        &&& self.nn == self.y * 16 + self.n
        &&& self.nnn == self.x * 256 + self.nn
        &&& self.raw == self.family * 4096 + self.nnn
    }

    /// The fields of a word agree with each other.
    pub proof fn lemma_fields(op: u16)
        ensures
            Opcode::of(op).wf(),
    {
        assert(op / 4096 < 16) by (bit_vector);
        assert(op == (op / 4096) * 4096 + ((op / 256) % 16) * 256 + ((op / 16) % 16) * 16 + op
            % 16) by (bit_vector);
        assert(op % 256 == ((op / 16) % 16) * 16 + op % 16) by (bit_vector);
        assert(op % 4096 == ((op / 256) % 16) * 256 + op % 256) by (bit_vector);
    }

    /// Splits the word `op` into its fields.
    pub fn decode(op: u16) -> (fields: Opcode)
        ensures
            fields == Opcode::of(op),
            fields.wf(),
    {
        proof {
            Opcode::lemma_fields(op);
        }
        let family: u16 = (op & 0xF000) >> 12;
        let x: u16 = (op & 0x0F00) >> 8;
        let y: u16 = (op & 0x00F0) >> 4;
        let n: u16 = op & 0x000F;
        let nn: u16 = op & 0x00FF;
        let nnn: u16 = op & 0x0FFF;
        assert((op & 0xF000) >> 12 == op / 4096 && op / 4096 < 16) by (bit_vector);
        assert((op & 0x0F00) >> 8 == (op / 256) % 16) by (bit_vector);
        assert((op & 0x00F0) >> 4 == (op / 16) % 16) by (bit_vector);
        assert(op & 0x000F == op % 16) by (bit_vector);
        assert(op & 0x00FF == op % 256) by (bit_vector);
        assert(op & 0x0FFF == op % 4096) by (bit_vector);
        Opcode {
            raw: op,
            family: family as u8,
            x: x as u8,
            y: y as u8,
            n: n as u8,
            nn: nn as u8,
            nnn,
        }
    }

    /// Joins two consecutive bytes, most significant first, into a word.
    pub fn join(high: u8, low: u8) -> (op: u16)
        ensures
            op == Opcode::word(high, low),
    {
        let op: u16 = ((high as u16) << 8) | (low as u16);
        assert(((high as u16) << 8) | (low as u16) == high * 256 + low) by (bit_vector);
        op
    }
}

} // verus!
