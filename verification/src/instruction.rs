//! The instruction set: what each sixteen-bit word asks for.

use vstd::prelude::*;

verus! {

/// One operation with its operands. `x` and `y` name registers, `nn` is a
/// byte, `addr` an address of twelve bits and `d` a number of sprite rows;
/// all of them are fields of the instruction word.
#[derive(Clone, Copy, Debug, PartialEq, Eq, Structural)]
pub enum Instruction {
    /// `0000`: stop.
    Halt,
    /// `00EE`: return from a subroutine.
    Return,
    /// `1nnn`: jump to `addr`.
    Jump { addr: u16 },
    /// `2nnn`: call the subroutine at `addr`.
    Call { addr: u16 },
    /// `3xnn`: skip the next instruction if register `x` equals `nn`.
    SkipEqual { x: u8, nn: u16 },
    /// `4xnn`: skip the next instruction if register `x` differs from `nn`.
    SkipNotEqual { x: u8, nn: u16 },
    /// `5xy0`: skip the next instruction if registers `x` and `y` are equal.
    SkipEqualReg { x: u8, y: u8 },
    /// `6xnn`: set register `x` to `nn`.
    SetRegister { x: u8, nn: u16 },
    /// `7xnn`: add `nn` to register `x`.
    Add { x: u8, nn: u16 },
    /// `8xy0`: copy register `y` to register `x`.
    Assign { x: u8, y: u8 },
    /// `8xy1`: bitwise or.
    Or { x: u8, y: u8 },
    /// `8xy2`: bitwise and.
    And { x: u8, y: u8 },
    /// `8xy3`: bitwise exclusive or.
    Xor { x: u8, y: u8 },
    /// `8xy4`: add register `y` to register `x`, with carry.
    AddXY { x: u8, y: u8 },
    /// `8xy5`: subtract register `y` from register `x`, with borrow.
    SubXY { x: u8, y: u8 },
    /// `8xy6`: shift register `x` right by one. `y` is not looked at.
    ShiftRight { x: u8 },
    /// `8xy7`: set register `x` to register `y` less register `x`.
    SubN { x: u8, y: u8 },
    /// `8xyE`: shift register `x` left by one. `y` is not looked at.
    ShiftLeft { x: u8 },
    /// `9xy0`: skip the next instruction if registers `x` and `y` differ.
    SkipNotEqualReg { x: u8, y: u8 },
    /// `Annn`: set the address register to `addr`.
    SetI { addr: u16 },
    /// `Bnnn`: jump to `addr` plus register 0.
    JumpReg { addr: u16 },
    /// `Cxnn`: set register 0 to a random byte masked by `nn`. `x` is not
    /// looked at: the destination is always register 0.
    Rand { nn: u16 },
    /// `Dxyd`: draw a sprite of `d` rows at column `registers[x]`, row
    /// `registers[y]`.
    Draw { x: u8, y: u8, d: u8 },
    /// `Fx1E`: add register `x` to the address register.
    SetIReg { x: u8 },
    /// `Fx33`: store the decimal digits of register `x`.
    Bcd { x: u8 },
    /// `Fx55`: store registers 0 to `x`.
    RegDump { x: u8 },
    /// `Fx65`: load registers 0 to `x`.
    RegLoad { x: u8 },
}

/// The instruction that a word stands for, if it stands for one. The word
/// is read as four digits of four bits, `c`, `x`, `y` and `d` from the most
/// significant down; `addr` is its lower twelve bits and `nn` its lower
/// eight.
pub open spec fn decoded(opcode: u16) -> Option<Instruction> {
    let c = opcode / 0x1000;
    let x = ((opcode / 0x100) % 0x10) as u8;
    let y = ((opcode / 0x10) % 0x10) as u8;
    let d = (opcode % 0x10) as u8;
    let addr = opcode % 0x1000;
    let nn = opcode % 0x100;
    if opcode == 0x0000 {
        Some(Instruction::Halt)
    } else if opcode == 0x00EE {
        Some(Instruction::Return)
    } else if c == 0x1 {
        Some(Instruction::Jump { addr })
    } else if c == 0x2 {
        Some(Instruction::Call { addr })
    } else if c == 0x3 {
        Some(Instruction::SkipEqual { x, nn })
    } else if c == 0x4 {
        Some(Instruction::SkipNotEqual { x, nn })
    } else if c == 0x5 && d == 0 {
        Some(Instruction::SkipEqualReg { x, y })
    } else if c == 0x6 {
        Some(Instruction::SetRegister { x, nn })
    } else if c == 0x7 {
        Some(Instruction::Add { x, nn })
    } else if c == 0x8 && d == 0x0 {
        Some(Instruction::Assign { x, y })
    } else if c == 0x8 && d == 0x1 {
        Some(Instruction::Or { x, y })
    } else if c == 0x8 && d == 0x2 {
        Some(Instruction::And { x, y })
    } else if c == 0x8 && d == 0x3 {
        Some(Instruction::Xor { x, y })
    } else if c == 0x8 && d == 0x4 {
        Some(Instruction::AddXY { x, y })
    } else if c == 0x8 && d == 0x5 {
        Some(Instruction::SubXY { x, y })
    } else if c == 0x8 && d == 0x6 {
        Some(Instruction::ShiftRight { x })
    } else if c == 0x8 && d == 0x7 {
        Some(Instruction::SubN { x, y })
    } else if c == 0x8 && d == 0xE {
        Some(Instruction::ShiftLeft { x })
    } else if c == 0x9 && d == 0 {
        Some(Instruction::SkipNotEqualReg { x, y })
    } else if c == 0xA {
        Some(Instruction::SetI { addr })
    } else if c == 0xB {
        Some(Instruction::JumpReg { addr })
    } else if c == 0xC {
        Some(Instruction::Rand { nn })
    } else if c == 0xD {
        Some(Instruction::Draw { x, y, d })
    } else if c == 0xF && nn == 0x1E {
        Some(Instruction::SetIReg { x })
    } else if c == 0xF && nn == 0x33 {
        Some(Instruction::Bcd { x })
    } else if c == 0xF && nn == 0x55 {
        Some(Instruction::RegDump { x })
    } else if c == 0xF && nn == 0x65 {
        Some(Instruction::RegLoad { x })
    } else {
        None
    }
}

impl Instruction {
    /// Whether the operands are in the ranges that an instruction word can
    /// give them.
    pub open spec fn wf(self) -> bool {
        match self {
            Instruction::Halt | Instruction::Return => true,
            Instruction::Jump { addr }
            | Instruction::Call { addr }
            | Instruction::SetI { addr }
            | Instruction::JumpReg { addr } => addr < 0x1000,
            Instruction::SkipEqual { x, nn }
            | Instruction::SkipNotEqual { x, nn }
            | Instruction::SetRegister { x, nn }
            | Instruction::Add { x, nn } => x < 16 && nn < 0x100,
            Instruction::SkipEqualReg { x, y }
            | Instruction::Assign { x, y }
            | Instruction::Or { x, y }
            | Instruction::And { x, y }
            | Instruction::Xor { x, y }
            | Instruction::AddXY { x, y }
            | Instruction::SubXY { x, y }
            | Instruction::SubN { x, y }
            | Instruction::SkipNotEqualReg { x, y } => x < 16 && y < 16,
            Instruction::ShiftRight { x }
            | Instruction::ShiftLeft { x }
            | Instruction::SetIReg { x }
            | Instruction::Bcd { x }
            | Instruction::RegDump { x }
            | Instruction::RegLoad { x } => x < 16,
            Instruction::Rand { nn } => nn < 0x100,
            Instruction::Draw { x, y, d } => x < 16 && y < 16 && d < 16,
        }
    }
}

/// Decodes an instruction word. A word that the instruction set does not
/// define gives `None`.
pub fn decode(opcode: u16) -> (instruction: Option<Instruction>)
    ensures
        instruction == decoded(opcode),
        instruction matches Some(found) ==> found.wf(),
{
    let c = ((opcode & 0xF000) >> 12) as u8;
    let x = ((opcode & 0x0F00) >> 8) as u8;
    let y = ((opcode & 0x00F0) >> 4) as u8;
    let d = (opcode & 0x000F) as u8;
    let nnn = opcode & 0x0FFF;
    let nn = opcode & 0x00FF;
    assert((opcode & 0xF000) >> 12 == opcode / 0x1000) by (bit_vector);
    assert((opcode & 0x0F00) >> 8 == (opcode / 0x100) % 0x10) by (bit_vector);
    assert((opcode & 0x00F0) >> 4 == (opcode / 0x10) % 0x10) by (bit_vector);
    assert(opcode & 0x000F == opcode % 0x10) by (bit_vector);
    assert(opcode & 0x0FFF == opcode % 0x1000) by (bit_vector);
    assert(opcode & 0x00FF == opcode % 0x100) by (bit_vector);

    match (c, x, y, d) {
        (0, 0, 0, 0) => Some(Instruction::Halt),
        (0, 0, 0xE, 0xE) => Some(Instruction::Return),
        (0x1, _, _, _) => Some(Instruction::Jump { addr: nnn }),
        (0x2, _, _, _) => Some(Instruction::Call { addr: nnn }),
        (0x3, _, _, _) => Some(Instruction::SkipEqual { x, nn }),
        (0x4, _, _, _) => Some(Instruction::SkipNotEqual { x, nn }),
        (0x5, _, _, 0) => Some(Instruction::SkipEqualReg { x, y }),
        (0x6, _, _, _) => Some(Instruction::SetRegister { x, nn }),
        (0x7, _, _, _) => Some(Instruction::Add { x, nn }),
        (0x8, _, _, 0) => Some(Instruction::Assign { x, y }),
        (0x8, _, _, 0x1) => Some(Instruction::Or { x, y }),
        (0x8, _, _, 0x2) => Some(Instruction::And { x, y }),
        (0x8, _, _, 0x3) => Some(Instruction::Xor { x, y }),
        (0x8, _, _, 0x4) => Some(Instruction::AddXY { x, y }),
        (0x8, _, _, 0x5) => Some(Instruction::SubXY { x, y }),
        (0x8, _, _, 0x6) => Some(Instruction::ShiftRight { x }),
        (0x8, _, _, 0x7) => Some(Instruction::SubN { x, y }),
        (0x8, _, _, 0xE) => Some(Instruction::ShiftLeft { x }),
        (0x9, _, _, 0) => Some(Instruction::SkipNotEqualReg { x, y }),
        (0xA, _, _, _) => Some(Instruction::SetI { addr: nnn }),
        (0xB, _, _, _) => Some(Instruction::JumpReg { addr: nnn }),
        (0xC, _, _, _) => Some(Instruction::Rand { nn }),
        (0xF, _, 0x1, 0xE) => Some(Instruction::SetIReg { x }),
        (0xF, _, 0x3, 0x3) => Some(Instruction::Bcd { x }),
        (0xF, _, 0x5, 0x5) => Some(Instruction::RegDump { x }),
        (0xF, _, 0x6, 0x5) => Some(Instruction::RegLoad { x }),
        (0xD, _, _, _) => Some(Instruction::Draw { x, y, d }),
        _ => None,
    }
}

} // verus!
