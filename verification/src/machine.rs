//! The mathematical model of the processor: its state as sequences and
//! integers, and every operation of the instruction set as a function on it.

use crate::instruction::{decoded, Instruction};
use vstd::prelude::*;

verus! {

/// The sprites of the hexadecimal digits 0 to F, five bytes each: the digit
/// `n` begins at `5 * n`. Each byte is one row of the sprite, and only its
/// four high bits are used.
pub const GLYPHS: [u8; 80] = [
    0xF0, 0x90, 0x90, 0x90, 0xF0,
    0x20, 0x60, 0x20, 0x20, 0x70,
    0xF0, 0x10, 0xF0, 0x80, 0xF0,
    0xF0, 0x10, 0xF0, 0x10, 0xF0,
    0x90, 0x90, 0xF0, 0x10, 0x10,
    0xF0, 0x80, 0xF0, 0x10, 0xF0,
    0xF0, 0x80, 0xF0, 0x90, 0xF0,
    0xF0, 0x10, 0x20, 0x40, 0x40,
    0xF0, 0x90, 0xF0, 0x90, 0xF0,
    0xF0, 0x90, 0xF0, 0x10, 0xF0,
    0xF0, 0x90, 0xF0, 0x90, 0x90,
    0xE0, 0x90, 0xE0, 0x90, 0xE0,
    0xF0, 0x80, 0x80, 0x80, 0xF0,
    0xE0, 0x90, 0x90, 0x90, 0xE0,
    0xF0, 0x80, 0xF0, 0x80, 0xF0,
    0xF0, 0x80, 0xF0, 0x80, 0x80,
];

/// The display: 32 rows of 64 pixels, `true` for lit.
pub type Screen = [[bool; 64]; 32];

/// Why a cycle could not be carried out.
#[derive(Clone, Copy, Debug, PartialEq, Eq, Structural)]
pub enum Fault {
    /// A call found all sixteen stack slots taken.
    StackOverflow,
    /// A return found the stack empty.
    StackUnderflow,
    /// The instruction word, which is carried along, names no operation.
    UnknownOpcode(u16),
    /// The instruction lies, or reads or writes, beyond the end of memory.
    AddressOutOfRange,
}

/// A display as a sequence of rows.
pub open spec fn pixels(screen: Screen) -> Seq<Seq<bool>> {
    Seq::new(32, |r: int| Seq::new(64, |c: int| screen[r][c]))
}

/// Whether bit `k` of `byte` is set, bit 0 being the least significant.
pub open spec fn bit_at(byte: u8, k: u8) -> bool {
    (byte >> k) & 1 == 1
}

/// A byte written out in binary: eight characters, `'0'` or `'1'`, the most
/// significant bit first.
pub open spec fn bit_string(byte: u8) -> Seq<char> {
    Seq::new(
        8,
        |j: int|
            if bit_at(byte, (7 - j) as u8) {
                '1'
            } else {
                '0'
            },
    )
}

/// Memory as a processor finds it when it starts: the glyphs at the bottom,
/// then zeros up to the program's start, then the image as far as memory
/// reaches, or zeros where there is no image.
pub open spec fn boot_memory(image: Option<Seq<u8>>) -> Seq<u8> {
    Seq::new(
        4096,
        |a: int|
            if a < 80 {
                GLYPHS[a]
            } else if a < 200 {
                0
            } else {
                match image {
                    Some(bytes) => bytes[a - 200],
                    None => 0,
                }
            },
    )
}

/// The state of a processor that has not run yet.
pub open spec fn boot(registers: Option<Seq<u8>>, image: Option<Seq<u8>>) -> Machine {
    Machine {
        program_counter: 200,
        registers: match registers {
            Some(values) => values,
            None => Seq::new(16, |k: int| 0u8),
        },
        memory: boot_memory(image),
        stack: Seq::new(16, |k: int| 0u16),
        stack_pointer: 0,
        i: 0,
    }
}

/// The state of the processor.
#[verifier::ext_equal]
pub struct Machine {
    pub program_counter: int,
    pub registers: Seq<u8>,
    pub memory: Seq<u8>,
    pub stack: Seq<u16>,
    pub stack_pointer: int,
    pub i: u16,
}

impl Machine {
    /// The shape of a state: sixteen registers, 4096 bytes, sixteen stack
    /// slots of which `stack_pointer` are taken.
    pub open spec fn wf(self) -> bool {
        &&& self.registers.len() == 16
        &&& self.memory.len() == 4096
        &&& self.stack.len() == 16
        &&& 0 <= self.stack_pointer <= 16
        &&& 0 <= self.program_counter
    }

    /// The state with register `x` set to `value`.
    pub open spec fn with_register(self, x: int, value: u8) -> Machine {
        Machine { registers: self.registers.update(x, value), ..self }
    }

    /// The state with the flag register, register 15, set to `value`.
    pub open spec fn with_flag(self, value: u8) -> Machine {
        self.with_register(15, value)
    }

    /// The instruction word at the program counter: two bytes, the first
    /// one being the more significant.
    pub open spec fn opcode(self) -> u16 {
        (256 * self.memory[self.program_counter] + self.memory[self.program_counter + 1]) as u16
    }

    /// The state once the instruction at the program counter has been read.
    pub open spec fn fetched(self) -> Machine {
        Machine { program_counter: self.program_counter + 2, ..self }
    }

    /// The program counter moves to `addr`.
    pub open spec fn jump(self, addr: u16) -> Machine {
        Machine { program_counter: addr as int, ..self }
    }

    /// The program counter moves to `addr` plus register 0.
    pub open spec fn jump_reg(self, addr: u16) -> Machine {
        Machine { program_counter: self.registers[0] + addr, ..self }
    }

    /// Pushes the program counter, as far as it fits a stack slot, and jumps.
    pub open spec fn call(self, addr: u16) -> Machine {
        Machine {
            program_counter: addr as int,
            stack: self.stack.update(
                self.stack_pointer,
                (self.program_counter % 0x1_0000) as u16,
            ),
            stack_pointer: self.stack_pointer + 1,
            ..self
        }
    }

    /// Pops the program counter off the stack.
    pub open spec fn ret(self) -> Machine {
        Machine {
            program_counter: self.stack[self.stack_pointer - 1] as int,
            stack_pointer: self.stack_pointer - 1,
            ..self
        }
    }

    /// The program counter moves past one instruction if `condition` holds.
    pub open spec fn skip_when(self, condition: bool) -> Machine {
        if condition {
            Machine { program_counter: self.program_counter + 2, ..self }
        } else {
            self
        }
    }

    /// Skips one instruction if register `x` equals the low byte of `nn`.
    pub open spec fn skip_equal(self, x: u8, nn: u16) -> Machine {
        self.skip_when(self.registers[x as int] == nn % 256)
    }

    /// Skips one instruction if register `x` differs from the low byte of
    /// `nn`.
    pub open spec fn skip_not_equal(self, x: u8, nn: u16) -> Machine {
        self.skip_when(self.registers[x as int] != nn % 256)
    }

    /// Skips one instruction if registers `x` and `y` are equal.
    pub open spec fn skip_equal_reg(self, x: u8, y: u8) -> Machine {
        self.skip_when(self.registers[x as int] == self.registers[y as int])
    }

    /// Skips one instruction if registers `x` and `y` differ.
    pub open spec fn skip_not_equal_reg(self, x: u8, y: u8) -> Machine {
        self.skip_when(self.registers[x as int] != self.registers[y as int])
    }

    /// Register `x` receives the low byte of `nn`.
    pub open spec fn set_register(self, x: u8, nn: u16) -> Machine {
        self.with_register(x as int, (nn % 256) as u8)
    }

    /// The low byte of `nn` is added to register `x`, modulo 256; the flag
    /// stays.
    pub open spec fn add(self, x: u8, nn: u16) -> Machine {
        self.with_register(x as int, ((self.registers[x as int] + nn) % 256) as u8)
    }

    /// Register `x` receives register `y`.
    pub open spec fn assign(self, x: u8, y: u8) -> Machine {
        self.with_register(x as int, self.registers[y as int])
    }

    /// Register `x` receives the bitwise or of registers `x` and `y`.
    pub open spec fn or(self, x: u8, y: u8) -> Machine {
        self.with_register(x as int, self.registers[x as int] | self.registers[y as int])
    }

    /// Register `x` receives the bitwise and of registers `x` and `y`.
    pub open spec fn and(self, x: u8, y: u8) -> Machine {
        self.with_register(x as int, self.registers[x as int] & self.registers[y as int])
    }

    /// Register `x` receives the bitwise exclusive or of registers `x` and
    /// `y`.
    pub open spec fn xor(self, x: u8, y: u8) -> Machine {
        self.with_register(x as int, self.registers[x as int] ^ self.registers[y as int])
    }

    /// The sum modulo 256 goes to register `x`, then the carry to the flag.
    pub open spec fn add_xy(self, x: u8, y: u8) -> Machine {
        let sum = self.registers[x as int] + self.registers[y as int];
        self.with_register(x as int, (sum % 256) as u8).with_flag(
            if sum > 255 {
                1
            } else {
                0
            },
        )
    }

    /// The difference modulo 256 goes to register `x`; then the flag is
    /// cleared if the subtraction borrowed and set if it did not.
    pub open spec fn sub_xy(self, x: u8, y: u8) -> Machine {
        let difference = self.registers[x as int] - self.registers[y as int];
        self.with_register(x as int, (difference % 256) as u8).with_flag(
            if difference < 0 {
                0
            } else {
                1
            },
        )
    }

    /// As `sub_xy`, with register `x` taken from register `y`.
    pub open spec fn sub_n(self, x: u8, y: u8) -> Machine {
        let difference = self.registers[y as int] - self.registers[x as int];
        self.with_register(x as int, (difference % 256) as u8).with_flag(
            if difference < 0 {
                0
            } else {
                1
            },
        )
    }

    /// The lowest bit goes to the flag, then register `x` is halved.
    pub open spec fn shift_right(self, x: u8) -> Machine {
        let flagged = self.with_flag(self.registers[x as int] % 2);
        flagged.with_register(x as int, flagged.registers[x as int] / 2)
    }

    /// The highest bit goes to the flag, then register `x` is doubled
    /// modulo 256.
    pub open spec fn shift_left(self, x: u8) -> Machine {
        let flagged = self.with_flag(self.registers[x as int] / 128);
        flagged.with_register(x as int, ((flagged.registers[x as int] * 2) % 256) as u8)
    }

    /// The address register receives `addr`.
    pub open spec fn set_i(self, addr: u16) -> Machine {
        Machine { i: addr, ..self }
    }

    /// Register `x` is added to the address register, modulo 65536.
    pub open spec fn set_i_reg(self, x: u8) -> Machine {
        Machine { i: ((self.i + self.registers[x as int]) % 0x1_0000) as u16, ..self }
    }

    /// Register 0, whatever the instruction's `x` field, receives the
    /// random byte masked by `nn`.
    pub open spec fn rand(self, nn: u16, random: u8) -> Machine {
        self.with_register(0, ((nn % 256) as u8) & random)
    }

    /// Registers 0 to `x` are copied to memory from address `i` on.
    pub open spec fn reg_dump(self, x: u8) -> Machine {
        Machine {
            memory: Seq::new(
                4096,
                |a: int|
                    if self.i <= a <= self.i + x {
                        self.registers[a - self.i]
                    } else {
                        self.memory[a]
                    },
            ),
            ..self
        }
    }

    /// Registers 0 to `x` are filled from memory from address `i` on.
    pub open spec fn reg_load(self, x: u8) -> Machine {
        Machine {
            registers: Seq::new(
                16,
                |k: int|
                    if k <= x {
                        self.memory[self.i + k]
                    } else {
                        self.registers[k]
                    },
            ),
            ..self
        }
    }

    /// The hundreds, tens and ones of register `x` go to memory at `i`,
    /// `i + 1` and `i + 2`.
    pub open spec fn bcd(self, x: u8) -> Machine {
        let value = self.registers[x as int];
        Machine {
            memory: self.memory.update(self.i as int, value / 100).update(
                self.i + 1,
                (value / 10) % 10,
            ).update(self.i + 2, value % 10),
            ..self
        }
    }

    /// Whether the sprite at address `i` has its pixel in row `k`, column
    /// `j` set. Column 0 is the most significant bit of the row's byte.
    pub open spec fn sprite_bit(self, k: int, j: int) -> bool {
        bit_at(self.memory[self.i + k], (7 - j) as u8)
    }

    /// Whether a sprite of `d` rows, placed with its top left corner at
    /// column `registers[x]` and row `registers[y]`, has a set pixel on the
    /// display's row `r` and column `c`. Placement wraps around both edges
    /// of the display.
    pub open spec fn sprite_covers(self, x: u8, y: u8, d: u8, r: int, c: int) -> bool {
        let k = (r - self.registers[y as int]) % 32;
        let j = (c - self.registers[x as int]) % 64;
        k < d && j < 8 && self.sprite_bit(k, j)
    }

    /// The display after the sprite has been drawn: every pixel under a
    /// set sprite pixel is toggled.
    pub open spec fn drawn(self, screen: Seq<Seq<bool>>, x: u8, y: u8, d: u8) -> Seq<Seq<bool>> {
        Seq::new(
            32,
            |r: int| Seq::new(64, |c: int| screen[r][c] != self.sprite_covers(x, y, d, r, c)),
        )
    }

    /// Whether the sprite's pixel in row `k`, column `j` is set and comes to
    /// lie on a lit pixel.
    pub open spec fn sprite_hits(self, screen: Seq<Seq<bool>>, x: u8, y: u8, k: int, j: int) -> bool {
        self.sprite_bit(k, j) && screen[(self.registers[y as int] + k) % 32][(
        self.registers[x as int] + j) % 64]
    }

    /// Whether drawing the sprite turns a lit pixel off.
    pub open spec fn collides(self, screen: Seq<Seq<bool>>, x: u8, y: u8, d: u8) -> bool {
        exists|k: int, j: int|
            0 <= k < d && 0 <= j < 8 && #[trigger] self.sprite_hits(screen, x, y, k, j)
    }

    /// Whether `instruction` can be carried out in this state: a call needs
    /// a free stack slot, a return a taken one, and an instruction that
    /// reads or writes memory must stay within it. A sprite of no rows
    /// reads no memory, so it can be drawn wherever `i` points.
    pub open spec fn admits(self, instruction: Instruction) -> bool {
        match instruction {
            Instruction::Return => self.stack_pointer > 0,
            Instruction::Call { addr } => self.stack_pointer < 16,
            Instruction::Draw { x, y, d } => d == 0 || self.i + d <= 4096,
            Instruction::Bcd { x } => self.i + 2 < 4096,
            Instruction::RegDump { x } => self.i + x < 4096,
            Instruction::RegLoad { x } => self.i + x < 4096,
            _ => true,
        }
    }

    /// The state after drawing: the flag tells whether a pixel was turned
    /// off.
    pub open spec fn draw(self, screen: Seq<Seq<bool>>, x: u8, y: u8, d: u8) -> Machine {
        self.with_flag(
            if self.collides(screen, x, y, d) {
                1
            } else {
                0
            },
        )
    }
}

/// What one cycle leaves behind: the processor, the display, and whether the
/// program goes on (`Ok(Some(()))`), has halted (`Ok(None)`) or has faulted.
pub type Outcome = (Machine, Seq<Seq<bool>>, Result<Option<()>, Fault>);

/// The outcome of an instruction that was carried out.
pub open spec fn carried_out(machine: Machine, screen: Seq<Seq<bool>>) -> Outcome {
    (machine, screen, Ok(Some(())))
}

/// The outcome of an instruction that could not be carried out; it leaves
/// the processor and the display as it found them.
pub open spec fn faulted(machine: Machine, screen: Seq<Seq<bool>>, fault: Fault) -> Outcome {
    (machine, screen, Err(fault))
}

/// Carries out one instruction that has been fetched. `random` is the byte
/// that a `Rand` instruction uses.
pub open spec fn execute(
    machine: Machine,
    screen: Seq<Seq<bool>>,
    instruction: Instruction,
    random: u8,
) -> Outcome {
    match instruction {
        Instruction::Halt => (machine, screen, Ok(None)),
        Instruction::Return => if machine.stack_pointer == 0 {
            faulted(machine, screen, Fault::StackUnderflow)
        } else {
            carried_out(machine.ret(), screen)
        },
        Instruction::Jump { addr } => carried_out(machine.jump(addr), screen),
        Instruction::Call { addr } => if machine.stack_pointer >= 16 {
            faulted(machine, screen, Fault::StackOverflow)
        } else {
            carried_out(machine.call(addr), screen)
        },
        Instruction::SkipEqual { x, nn } => carried_out(machine.skip_equal(x, nn), screen),
        Instruction::SkipNotEqual { x, nn } => carried_out(machine.skip_not_equal(x, nn), screen),
        Instruction::SkipEqualReg { x, y } => carried_out(machine.skip_equal_reg(x, y), screen),
        Instruction::SetRegister { x, nn } => carried_out(machine.set_register(x, nn), screen),
        Instruction::Add { x, nn } => carried_out(machine.add(x, nn), screen),
        Instruction::Assign { x, y } => carried_out(machine.assign(x, y), screen),
        Instruction::Or { x, y } => carried_out(machine.or(x, y), screen),
        Instruction::And { x, y } => carried_out(machine.and(x, y), screen),
        Instruction::Xor { x, y } => carried_out(machine.xor(x, y), screen),
        Instruction::AddXY { x, y } => carried_out(machine.add_xy(x, y), screen),
        Instruction::SubXY { x, y } => carried_out(machine.sub_xy(x, y), screen),
        Instruction::ShiftRight { x } => carried_out(machine.shift_right(x), screen),
        Instruction::SubN { x, y } => carried_out(machine.sub_n(x, y), screen),
        Instruction::ShiftLeft { x } => carried_out(machine.shift_left(x), screen),
        Instruction::SkipNotEqualReg { x, y } => carried_out(
            machine.skip_not_equal_reg(x, y),
            screen,
        ),
        Instruction::SetI { addr } => carried_out(machine.set_i(addr), screen),
        Instruction::JumpReg { addr } => carried_out(machine.jump_reg(addr), screen),
        Instruction::Rand { nn } => carried_out(machine.rand(nn, random), screen),
        Instruction::Draw { x, y, d } => if d > 0 && machine.i + d > 4096 {
            faulted(machine, screen, Fault::AddressOutOfRange)
        } else {
            carried_out(machine.draw(screen, x, y, d), machine.drawn(screen, x, y, d))
        },
        Instruction::SetIReg { x } => carried_out(machine.set_i_reg(x), screen),
        Instruction::Bcd { x } => if machine.i + 2 >= 4096 {
            faulted(machine, screen, Fault::AddressOutOfRange)
        } else {
            carried_out(machine.bcd(x), screen)
        },
        Instruction::RegDump { x } => if machine.i + x >= 4096 {
            faulted(machine, screen, Fault::AddressOutOfRange)
        } else {
            carried_out(machine.reg_dump(x), screen)
        },
        Instruction::RegLoad { x } => if machine.i + x >= 4096 {
            faulted(machine, screen, Fault::AddressOutOfRange)
        } else {
            carried_out(machine.reg_load(x), screen)
        },
    }
}

/// One cycle: fetch the word at the program counter, move the program
/// counter past it, decode the word and carry the instruction out.
///
/// A word that does not lie within memory is a fault that leaves the
/// processor untouched. Every other fault leaves it with the program
/// counter past the word and nothing else changed.
pub open spec fn step(machine: Machine, screen: Seq<Seq<bool>>, random: u8) -> Outcome {
    if machine.program_counter + 1 >= 4096 {
        faulted(machine, screen, Fault::AddressOutOfRange)
    } else {
        match decoded(machine.opcode()) {
            Some(instruction) => execute(machine.fetched(), screen, instruction, random),
            None => faulted(machine.fetched(), screen, Fault::UnknownOpcode(machine.opcode())),
        }
    }
}

} // verus!
