//! The raw 16-bit instruction word and its addressing fields.

use vstd::prelude::*;

verus! {

/// A 16-bit instruction word, assembled big-endian from two consecutive
/// memory bytes and decomposed on demand into its addressing fields.
#[derive(Clone, Copy, PartialEq, Eq, Structural, Debug)]
pub struct Opcode(pub u16);

/// The instruction class: bits 15 through 12, kept in place.
pub open spec fn op_class(op: u16) -> u16 {
    op & 0xF000
}

/// The `x` register selector: bits 11 through 8.
pub open spec fn op_x(op: u16) -> u16 {
    (op & 0x0F00) >> 8
}

/// The `y` register selector: bits 7 through 4.
pub open spec fn op_y(op: u16) -> u16 {
    (op & 0x00F0) >> 4
}

/// The 4-bit immediate: bits 3 through 0.
pub open spec fn op_n(op: u16) -> u16 {
    op & 0x000F
}

/// The 8-bit immediate: bits 7 through 0.
pub open spec fn op_nn(op: u16) -> u16 {
    op & 0x00FF
}

/// The 12-bit address immediate: bits 11 through 0.
pub open spec fn op_nnn(op: u16) -> u16 {
    op & 0x0FFF
}

/// The word assembled big-endian from two bytes.
pub open spec fn word_of(upper: u8, lower: u8) -> u16 {
    (upper * 256 + lower) as u16
}

/// Every decoded field fits its declared width.
pub proof fn lemma_op_field_bounds(op: u16)
    by (bit_vector)
    ensures
        op_x(op) < 16,
        op_y(op) < 16,
        op_n(op) < 16,
        op_nn(op) < 256,
        op_nnn(op) < 4096,
{
}

impl Opcode {
    pub fn new(value: u16) -> (r: Opcode)
        ensures
            r.0 == value,
    {
        Opcode(value)
    }

    pub fn from(upper_byte: u8, lower_byte: u8) -> (r: Opcode)
        ensures
            r.0 == word_of(upper_byte, lower_byte),
    {
        Opcode((upper_byte as u16) * 256 + (lower_byte as u16))
    }

    pub fn get_x(&self) -> (r: u8)
        ensures
            r == op_x(self.0),
            r < 16,
    {
        proof {
            lemma_op_field_bounds(self.0);
        }
        ((self.0 & 0x0F00) >> 8) as u8
    }

    pub fn get_y(&self) -> (r: u8)
        ensures
            r == op_y(self.0),
            r < 16,
    {
        proof {
            lemma_op_field_bounds(self.0);
        }
        ((self.0 & 0x00F0) >> 4) as u8
    }

    pub fn get_z(&self) -> (r: u8)
        ensures
            r == op_n(self.0),
            r < 16,
    {
        proof {
            lemma_op_field_bounds(self.0);
        }
        (self.0 & 0x000F) as u8
    }

    pub fn get_nnn(&self) -> (r: u16)
        ensures
            r == op_nnn(self.0),
            r < 4096,
    {
        proof {
            lemma_op_field_bounds(self.0);
        }
        self.0 & 0x0FFF
    }

    pub fn get_nn(&self) -> (r: u8)
        ensures
            r == op_nn(self.0),
    {
        proof {
            lemma_op_field_bounds(self.0);
        }
        (self.0 & 0x00FF) as u8
    }

    pub fn value(&self) -> (r: u16)
        ensures
            r == self.0,
    {
        self.0
    }
}

} // verus!
