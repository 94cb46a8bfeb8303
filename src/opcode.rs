use vstd::prelude::*;

verus! {

/// One fetched 16-bit instruction word together with its structural fields.
#[derive(Clone, Copy, Debug, PartialEq, Eq, Structural)]
pub struct Opcode {
    /// The whole word.
    pub code: u16,
    /// The low 12 bits: an address.
    pub nnn: u16,
    /// The low 8 bits: an immediate byte.
    pub nn: u8,
    /// The low 4 bits.
    pub n: usize,
    /// Bits 8 to 11: the first register operand.
    pub x: usize,
    /// Bits 4 to 7: the second register operand.
    pub y: usize,
}

/// The fields of `code`, read off by its nibbles.
pub open spec fn decode(code: u16) -> Opcode {
    Opcode {
        code,
        nnn: (code % 0x1000) as u16,
        nn: (code % 0x100) as u8,
        n: (code % 0x10) as usize,
        x: ((code / 0x100) % 0x10) as usize,
        y: ((code / 0x10) % 0x10) as usize,
    }
}

impl Opcode {
    /// Whether every field is the one that `code` decodes to.
    pub open spec fn wf(self) -> bool {
        self == decode(self.code)
    }

    /// Decodes `code` by masking out its fields.
    pub fn new(code: u16) -> (r: Opcode)
        ensures
            r == decode(code),
            r.wf(),
    {
        let nnn = code & 0x0FFF;
        let nn = code & 0x00FF;
        let n = code & 0x000F;
        let x = (code & 0x0F00) >> 8;
        let y = (code & 0x00F0) >> 4;
        assert(nnn == code % 0x1000) by (bit_vector)
            requires nnn == code & 0x0FFF;
        assert(nn == code % 0x100) by (bit_vector)
            requires nn == code & 0x00FF;
        assert(n == code % 0x10) by (bit_vector)
            requires n == code & 0x000F;
        assert(x == (code / 0x100) % 0x10) by (bit_vector)
            requires x == (code & 0x0F00) >> 8;
        assert(y == (code / 0x10) % 0x10) by (bit_vector)
            requires y == (code & 0x00F0) >> 4;
        Opcode { code, nnn, nn: nn as u8, n: n as usize, x: x as usize, y: y as usize }
    }
}

} // verus!
