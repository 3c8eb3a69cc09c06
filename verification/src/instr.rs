//! Instruction words: their nibble fields and the operation each one names.

use vstd::prelude::*;

verus! {

/// One 16-bit instruction word taken apart. `n1` is the most significant
/// nibble; `nn` is the low byte and `nnn` the low twelve bits.
#[derive(Debug, Clone, Copy, PartialEq, Eq, Structural)]
pub struct InstructionWord {
    pub n1: u8,
    pub n2: u8,
    pub n3: u8,
    pub n4: u8,
    pub nn: u8,
    pub nnn: u16,
}

/// What an instruction asks of the machine. `x` and `y` number registers,
/// `nn` is a byte, `nnn` an address and `n` a row count.
#[derive(Debug, Clone, Copy, PartialEq, Eq, Structural)]
pub enum Operation {
    /// 00E0
    ClearScreen,
    /// 00EE
    Return,
    /// 1NNN
    Jump { nnn: u16 },
    /// 2NNN
    Call { nnn: u16 },
    /// 3XNN
    SkipEqualByte { x: u8, nn: u8 },
    /// 4XNN
    SkipNotEqualByte { x: u8, nn: u8 },
    /// 5XY0
    SkipEqual { x: u8, y: u8 },
    /// 6XNN
    SetByte { x: u8, nn: u8 },
    /// 7XNN
    AddByte { x: u8, nn: u8 },
    /// 8XY0
    Copy { x: u8, y: u8 },
    /// 8XY1
    Or { x: u8, y: u8 },
    /// 8XY2
    And { x: u8, y: u8 },
    /// 8XY3
    Xor { x: u8, y: u8 },
    /// 8XY4
    AddCarry { x: u8, y: u8 },
    /// 8XY5
    SubtractVx { x: u8, y: u8 },
    /// 8XY6
    ShiftRight { x: u8, y: u8 },
    /// 8XY7
    SubtractVy { x: u8, y: u8 },
    /// 8XYE
    ShiftLeft { x: u8, y: u8 },
    /// 9XY0
    SkipNotEqual { x: u8, y: u8 },
    /// ANNN
    SetIndex { nnn: u16 },
    /// BNNN; `x` is the second nibble of the word.
    JumpOffset { x: u8, nnn: u16 },
    /// CXNN
    Random { x: u8, nn: u8 },
    /// DXYN
    Draw { x: u8, y: u8, n: u8 },
    /// EX9E
    SkipKey { x: u8 },
    /// EXA1
    SkipNotKey { x: u8 },
    /// FX07
    ReadDelay { x: u8 },
    /// FX0A
    WaitKey { x: u8 },
    /// FX15
    SetDelay { x: u8 },
    /// FX18
    SetSound { x: u8 },
    /// FX1E
    AddIndex { x: u8 },
    /// FX29
    FontCharacter { x: u8 },
    /// FX33
    Decimal { x: u8 },
    /// FX55
    Store { x: u8 },
    /// FX65
    Load { x: u8 },
}

impl Operation {
    /// Every register number is below sixteen. Addresses and row counts
    /// need no bound: the machine takes addresses to twelve bits itself, and
    /// draws as many rows as it is asked for.
    pub open spec fn wf(self) -> bool {
        match self {
            Operation::ClearScreen
            | Operation::Return
            | Operation::Jump { .. }
            | Operation::Call { .. }
            | Operation::SetIndex { .. } => true,
            Operation::JumpOffset { x, .. }
            | Operation::SkipEqualByte { x, .. }
            | Operation::SkipNotEqualByte { x, .. }
            | Operation::SetByte { x, .. }
            | Operation::AddByte { x, .. }
            | Operation::Random { x, .. }
            | Operation::SkipKey { x }
            | Operation::SkipNotKey { x }
            | Operation::ReadDelay { x }
            | Operation::WaitKey { x }
            | Operation::SetDelay { x }
            | Operation::SetSound { x }
            | Operation::AddIndex { x }
            | Operation::FontCharacter { x }
            | Operation::Decimal { x }
            | Operation::Store { x }
            | Operation::Load { x } => x < 16,
            Operation::SkipEqual { x, y }
            | Operation::Copy { x, y }
            | Operation::Or { x, y }
            | Operation::And { x, y }
            | Operation::Xor { x, y }
            | Operation::AddCarry { x, y }
            | Operation::SubtractVx { x, y }
            | Operation::ShiftRight { x, y }
            | Operation::SubtractVy { x, y }
            | Operation::ShiftLeft { x, y }
            | Operation::SkipNotEqual { x, y }
            | Operation::Draw { x, y, .. } => x < 16 && y < 16,
        }
    }
}

/// Shifting and masking a word give its hexadecimal digits.
proof fn lemma_nibbles(word: u16)
    ensures
        word >> 12 == word / 4096,
        (word >> 8) & 0x000F == word / 256 % 16,
        (word >> 4) & 0x000F == word / 16 % 16,
        word & 0x000F == word % 16,
        word & 0x00FF == word % 256,
        word & 0x0FFF == word % 4096,
        word / 4096 < 16,
        word == (word / 4096) * 4096 + (word / 256 % 16) * 256 + (word / 16 % 16) * 16 + word % 16,
        word % 256 == (word / 16 % 16) * 16 + word % 16,
        word % 4096 == (word / 256 % 16) * 256 + (word / 16 % 16) * 16 + word % 16,
{
    assert(word >> 12 == word / 4096 && (word >> 8) & 0x000F == word / 256 % 16 && (word >> 4)
        & 0x000F == word / 16 % 16) by (bit_vector);
    assert(word & 0x000F == word % 16 && word & 0x00FF == word % 256 && word & 0x0FFF == word
        % 4096) by (bit_vector);
    assert(word / 4096 < 16 && word == (word / 4096) * 4096 + (word / 256 % 16) * 256 + (word / 16
        % 16) * 16 + word % 16) by (bit_vector);
    assert(word % 256 == (word / 16 % 16) * 16 + word % 16 && word % 4096 == (word / 256 % 16)
        * 256 + (word / 16 % 16) * 16 + word % 16) by (bit_vector);
}

/// The decoding of a word encodes that word.
pub proof fn lemma_decode_encodes(word: u16)
    ensures
        InstructionWord::spec_decode(word).encodes(word),
        InstructionWord::spec_decode(word).wf(),
        InstructionWord::spec_decode(word).spec_operation() matches Some(op) ==> op.wf(),
{
    lemma_nibbles(word);
}

impl InstructionWord {
    /// The fields are the hexadecimal digits of `word`, and `nn` and `nnn`
    /// its low byte and low twelve bits. Exactly one value of this type
    /// encodes a given word.
    pub open spec fn encodes(self, word: u16) -> bool {
        &&& self.n1 < 16
        &&& self.n2 < 16
        &&& self.n3 < 16
        &&& self.n4 < 16
        &&& word == self.n1 * 4096 + self.n2 * 256 + self.n3 * 16 + self.n4
        &&& self.nn == self.n3 * 16 + self.n4
        &&& self.nnn == self.n2 * 256 + self.n3 * 16 + self.n4
    }

    /// The fields agree with one another: they encode some word.
    pub open spec fn wf(self) -> bool {
        self.encodes(self.word())
    }

    /// The word that the nibbles spell.
    pub open spec fn word(self) -> u16 {
        (self.n1 * 4096 + self.n2 * 256 + self.n3 * 16 + self.n4) as u16
    }

    /// The decoding of `word` as a value of the model.
    pub open spec fn spec_decode(word: u16) -> InstructionWord {
        InstructionWord {
            n1: (word / 4096) as u8,
            n2: (word / 256 % 16) as u8,
            n3: (word / 16 % 16) as u8,
            n4: (word % 16) as u8,
            nn: (word % 256) as u8,
            nnn: word % 4096,
        }
    }

    /// The dispatch table. The families 0, 8, E and F are told apart by
    /// their low nibbles; in every other family the first nibble decides.
    /// `None` stands for a word that names no instruction.
    pub open spec fn spec_operation(self) -> Option<Operation> {
        let (x, y, n, nn, nnn) = (self.n2, self.n3, self.n4, self.nn, self.nnn);
        if self.n1 == 0x0 {
            if nnn == 0x0E0 {
                Some(Operation::ClearScreen)
            } else if nnn == 0x0EE {
                Some(Operation::Return)
            } else {
                None
            }
        } else if self.n1 == 0x1 {
            Some(Operation::Jump { nnn })
        } else if self.n1 == 0x2 {
            Some(Operation::Call { nnn })
        } else if self.n1 == 0x3 {
            Some(Operation::SkipEqualByte { x, nn })
        } else if self.n1 == 0x4 {
            Some(Operation::SkipNotEqualByte { x, nn })
        } else if self.n1 == 0x5 {
            Some(Operation::SkipEqual { x, y })
        } else if self.n1 == 0x6 {
            Some(Operation::SetByte { x, nn })
        } else if self.n1 == 0x7 {
            Some(Operation::AddByte { x, nn })
        } else if self.n1 == 0x8 {
            if n == 0x0 {
                Some(Operation::Copy { x, y })
            } else if n == 0x1 {
                Some(Operation::Or { x, y })
            } else if n == 0x2 {
                Some(Operation::And { x, y })
            } else if n == 0x3 {
                Some(Operation::Xor { x, y })
            } else if n == 0x4 {
                Some(Operation::AddCarry { x, y })
            } else if n == 0x5 {
                Some(Operation::SubtractVx { x, y })
            } else if n == 0x6 {
                Some(Operation::ShiftRight { x, y })
            } else if n == 0x7 {
                Some(Operation::SubtractVy { x, y })
            } else if n == 0xE {
                Some(Operation::ShiftLeft { x, y })
            } else {
                None
            }
        } else if self.n1 == 0x9 {
            Some(Operation::SkipNotEqual { x, y })
        } else if self.n1 == 0xA {
            Some(Operation::SetIndex { nnn })
        } else if self.n1 == 0xB {
            Some(Operation::JumpOffset { x, nnn })
        } else if self.n1 == 0xC {
            Some(Operation::Random { x, nn })
        } else if self.n1 == 0xD {
            Some(Operation::Draw { x, y, n })
        } else if self.n1 == 0xE {
            if nn == 0x9E {
                Some(Operation::SkipKey { x })
            } else if nn == 0xA1 {
                Some(Operation::SkipNotKey { x })
            } else {
                None
            }
        } else if self.n1 == 0xF {
            if nn == 0x07 {
                Some(Operation::ReadDelay { x })
            } else if nn == 0x0A {
                Some(Operation::WaitKey { x })
            } else if nn == 0x15 {
                Some(Operation::SetDelay { x })
            } else if nn == 0x18 {
                Some(Operation::SetSound { x })
            } else if nn == 0x1E {
                Some(Operation::AddIndex { x })
            } else if nn == 0x29 {
                Some(Operation::FontCharacter { x })
            } else if nn == 0x33 {
                Some(Operation::Decimal { x })
            } else if nn == 0x55 {
                Some(Operation::Store { x })
            } else if nn == 0x65 {
                Some(Operation::Load { x })
            } else {
                None
            }
        } else {
            None
        }
    }

    /// Takes `word` apart. Every word decodes.
    pub fn decode(word: u16) -> (w: InstructionWord)
        ensures
            w.encodes(word),
            w == Self::spec_decode(word),
    {
        let n1: u8 = (word >> 12) as u8;
        let n2: u8 = ((word >> 8) & 0x000F) as u8;
        let n3: u8 = ((word >> 4) & 0x000F) as u8;
        let n4: u8 = (word & 0x000F) as u8;
        let nn: u8 = (word & 0x00FF) as u8;
        let nnn: u16 = word & 0x0FFF;
        proof {
            lemma_nibbles(word);
        }
        InstructionWord { n1, n2, n3, n4, nn, nnn }
    }

    /// The operation that this word names, or `None` if it names none.
    pub fn operation(&self) -> (op: Option<Operation>)
        requires
            self.wf(),
        ensures
            op == self.spec_operation(),
            op matches Some(o) ==> o.wf(),
    {
        let x: u8 = self.n2;
        let y: u8 = self.n3;
        let n: u8 = self.n4;
        let nn: u8 = self.nn;
        let nnn: u16 = self.nnn;
        match self.n1 {
            0x0 => match (self.n2, self.n3, self.n4) {
                (0x0, 0xE, 0x0) => Some(Operation::ClearScreen),
                (0x0, 0xE, 0xE) => Some(Operation::Return),
                _ => None,
            },
            0x1 => Some(Operation::Jump { nnn }),
            0x2 => Some(Operation::Call { nnn }),
            0x3 => Some(Operation::SkipEqualByte { x, nn }),
            0x4 => Some(Operation::SkipNotEqualByte { x, nn }),
            0x5 => Some(Operation::SkipEqual { x, y }),
            0x6 => Some(Operation::SetByte { x, nn }),
            0x7 => Some(Operation::AddByte { x, nn }),
            0x8 => match self.n4 {
                0x0 => Some(Operation::Copy { x, y }),
                0x1 => Some(Operation::Or { x, y }),
                0x2 => Some(Operation::And { x, y }),
                0x3 => Some(Operation::Xor { x, y }),
                0x4 => Some(Operation::AddCarry { x, y }),
                0x5 => Some(Operation::SubtractVx { x, y }),
                0x6 => Some(Operation::ShiftRight { x, y }),
                0x7 => Some(Operation::SubtractVy { x, y }),
                0xE => Some(Operation::ShiftLeft { x, y }),
                _ => None,
            },
            0x9 => Some(Operation::SkipNotEqual { x, y }),
            0xA => Some(Operation::SetIndex { nnn }),
            0xB => Some(Operation::JumpOffset { x, nnn }),
            0xC => Some(Operation::Random { x, nn }),
            0xD => Some(Operation::Draw { x, y, n }),
            0xE => match (self.n3, self.n4) {
                (0x9, 0xE) => Some(Operation::SkipKey { x }),
                (0xA, 0x1) => Some(Operation::SkipNotKey { x }),
                _ => None,
            },
            0xF => match (self.n3, self.n4) {
                (0x0, 0x7) => Some(Operation::ReadDelay { x }),
                (0x0, 0xA) => Some(Operation::WaitKey { x }),
                (0x1, 0x5) => Some(Operation::SetDelay { x }),
                (0x1, 0x8) => Some(Operation::SetSound { x }),
                (0x1, 0xE) => Some(Operation::AddIndex { x }),
                (0x2, 0x9) => Some(Operation::FontCharacter { x }),
                (0x3, 0x3) => Some(Operation::Decimal { x }),
                (0x5, 0x5) => Some(Operation::Store { x }),
                (0x6, 0x5) => Some(Operation::Load { x }),
                _ => None,
            },
            _ => None,
        }
    }
}

} // verus!
