//! The instruction set: what each 16-bit word means.
//!
//! A word is read as four hexadecimal digits `o x y n`. Depending on the
//! instruction, the low two digits form the byte `kk` and the low three the
//! address `nnn`.

use vstd::prelude::*;

verus! {

/// One decoded instruction. `x` and `y` name registers, `kk` is an immediate
/// byte, `nnn` an address.
#[derive(Clone, Copy, Debug, PartialEq, Eq)]
pub enum Instruction {
    /// `00E0`: clear the display.
    Cls,
    /// `00EE`: return from a subroutine.
    Ret,
    /// `1nnn`: jump to `nnn`.
    Jp { nnn: u16 },
    /// `2nnn`: call the subroutine at `nnn`.
    Call { nnn: u16 },
    /// `3xkk`: skip the next instruction if `Vx == kk`.
    SeByte { x: u16, kk: u16 },
    /// `4xkk`: skip the next instruction if `Vx != kk`.
    SneByte { x: u16, kk: u16 },
    /// `5xy0`: skip the next instruction if `Vx == Vy`.
    SeReg { x: u16, y: u16 },
    /// `6xkk`: `Vx = kk`.
    LdByte { x: u16, kk: u16 },
    /// `7xkk`: `Vx = Vx + kk`, wrapping, flag untouched.
    AddByte { x: u16, kk: u16 },
    /// `8xy0`: `Vx = Vy`.
    LdReg { x: u16, y: u16 },
    /// `8xy1`: `Vx = Vx | Vy`.
    Or { x: u16, y: u16 },
    /// `8xy2`: `Vx = Vx & Vy`.
    And { x: u16, y: u16 },
    /// `8xy3`: `Vx = Vx ^ Vy`.
    Xor { x: u16, y: u16 },
    /// `8xy4`: `Vx = Vx + Vy`, carry in `VF`.
    AddReg { x: u16, y: u16 },
    /// `8xy5`: `Vx = Vx - Vy`, `VF` set when `Vx > Vy`.
    Sub { x: u16, y: u16 },
    /// `8x06`: `Vx = Vx >> 1`, the bit shifted out in `VF`.
    Shr { x: u16 },
    /// `8xy7`: `Vx = Vy - Vx`, `VF` set when `Vy > Vx`.
    Subn { x: u16, y: u16 },
    /// `8x0E`: `Vx = Vx << 1`, the bit shifted out in `VF`.
    Shl { x: u16 },
    /// `9xy0`: skip the next instruction if `Vx != Vy`.
    SneReg { x: u16, y: u16 },
    /// `Annn`: `I = nnn`.
    LdI { nnn: u16 },
    /// `Bnnn`: jump to `V0 + nnn`.
    JpV0 { nnn: u16 },
    /// Any other word: does nothing.
    Unknown,
}

impl Instruction {
    /// Every operand lies in the range of its field: a register below 16,
    /// a byte below 256, an address below 4096.
    pub open spec fn wf(self) -> bool {
        match self {
            Instruction::Cls | Instruction::Ret | Instruction::Unknown => true,
            Instruction::Jp { nnn }
            | Instruction::Call { nnn }
            | Instruction::LdI { nnn }
            | Instruction::JpV0 { nnn } => nnn < 0x1000,
            Instruction::SeByte { x, kk }
            | Instruction::SneByte { x, kk }
            | Instruction::LdByte { x, kk }
            | Instruction::AddByte { x, kk } => x < 16 && kk < 0x100,
            Instruction::SeReg { x, y }
            | Instruction::LdReg { x, y }
            | Instruction::Or { x, y }
            | Instruction::And { x, y }
            | Instruction::Xor { x, y }
            | Instruction::AddReg { x, y }
            | Instruction::Sub { x, y }
            | Instruction::Subn { x, y }
            | Instruction::SneReg { x, y } => x < 16 && y < 16,
            Instruction::Shr { x } | Instruction::Shl { x } => x < 16,
        }
    }
}

/// The instruction that `word` encodes.
pub open spec fn decoded(word: u16) -> Instruction {
    let o: u16 = word / 0x1000;
    let x: u16 = word / 0x100 % 0x10;
    let y: u16 = word / 0x10 % 0x10;
    let n: u16 = word % 0x10;
    let kk: u16 = word % 0x100;
    let nnn: u16 = word % 0x1000;
    if word == 0x00E0 {
        Instruction::Cls
    } else if word == 0x00EE {
        Instruction::Ret
    } else if o == 0x1 {
        Instruction::Jp { nnn }
    } else if o == 0x2 {
        Instruction::Call { nnn }
    } else if o == 0x3 {
        Instruction::SeByte { x, kk }
    } else if o == 0x4 {
        Instruction::SneByte { x, kk }
    } else if o == 0x5 && n == 0x0 {
        Instruction::SeReg { x, y }
    } else if o == 0x6 {
        Instruction::LdByte { x, kk }
    } else if o == 0x7 {
        Instruction::AddByte { x, kk }
    } else if o == 0x8 && n == 0x0 {
        Instruction::LdReg { x, y }
    } else if o == 0x8 && n == 0x1 {
        Instruction::Or { x, y }
    } else if o == 0x8 && n == 0x2 {
        Instruction::And { x, y }
    } else if o == 0x8 && n == 0x3 {
        Instruction::Xor { x, y }
    } else if o == 0x8 && n == 0x4 {
        Instruction::AddReg { x, y }
    } else if o == 0x8 && n == 0x5 {
        Instruction::Sub { x, y }
    } else if o == 0x8 && y == 0x0 && n == 0x6 {
        Instruction::Shr { x }
    } else if o == 0x8 && n == 0x7 {
        Instruction::Subn { x, y }
    } else if o == 0x8 && y == 0x0 && n == 0xE {
        Instruction::Shl { x }
    } else if o == 0x9 && n == 0x0 {
        Instruction::SneReg { x, y }
    } else if o == 0xA {
        Instruction::LdI { nnn }
    } else if o == 0xB {
        Instruction::JpV0 { nnn }
    } else {
        Instruction::Unknown
    }
}

/// Whatever the word, the operands it decodes to are in range.
pub proof fn lemma_decoded_wf(word: u16)
    ensures
        decoded(word).wf(),
{
}

/// Splits `opcode` into its fields and picks the instruction they spell.
pub fn decode(opcode: u16) -> (instruction: Instruction)
    ensures
        instruction == decoded(opcode),
{
    let o: u16 = (opcode & 0xF000) >> 12;
    let x: u16 = (opcode & 0x0F00) >> 8;
    let y: u16 = (opcode & 0x00F0) >> 4;
    let n: u16 = opcode & 0x000F;
    let kk: u16 = opcode & 0x00FF;
    let nnn: u16 = opcode & 0x0FFF;
    assert(o == opcode / 0x1000 && x == opcode / 0x100 % 0x10 && y == opcode / 0x10 % 0x10 && n
        == opcode % 0x10 && kk == opcode % 0x100 && nnn == opcode % 0x1000) by (bit_vector)
        requires
            o == (opcode & 0xF000) >> 12,
            x == (opcode & 0x0F00) >> 8,
            y == (opcode & 0x00F0) >> 4,
            n == opcode & 0x000F,
            kk == opcode & 0x00FF,
            nnn == opcode & 0x0FFF,
    ;
    match (o, x, y, n) {
        (0x0, 0x0, 0xE, 0x0) => Instruction::Cls,
        (0x0, 0x0, 0xE, 0xE) => Instruction::Ret,
        (0x1, _, _, _) => Instruction::Jp { nnn },
        (0x2, _, _, _) => Instruction::Call { nnn },
        (0x3, _, _, _) => Instruction::SeByte { x, kk },
        (0x4, _, _, _) => Instruction::SneByte { x, kk },
        (0x5, _, _, 0x0) => Instruction::SeReg { x, y },
        (0x6, _, _, _) => Instruction::LdByte { x, kk },
        (0x7, _, _, _) => Instruction::AddByte { x, kk },
        (0x8, _, _, 0x0) => Instruction::LdReg { x, y },
        (0x8, _, _, 0x1) => Instruction::Or { x, y },
        (0x8, _, _, 0x2) => Instruction::And { x, y },
        (0x8, _, _, 0x3) => Instruction::Xor { x, y },
        (0x8, _, _, 0x4) => Instruction::AddReg { x, y },
        (0x8, _, _, 0x5) => Instruction::Sub { x, y },
        (0x8, _, 0x0, 0x6) => Instruction::Shr { x },
        (0x8, _, _, 0x7) => Instruction::Subn { x, y },
        (0x8, _, 0x0, 0xE) => Instruction::Shl { x },
        (0x9, _, _, 0x0) => Instruction::SneReg { x, y },
        (0xA, _, _, _) => Instruction::LdI { nnn },
        (0xB, _, _, _) => Instruction::JpV0 { nnn },
        _ => Instruction::Unknown,
    }
}

} // verus!
