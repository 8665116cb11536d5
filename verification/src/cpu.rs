//! The processor: its state, its construction and its instruction set.

use crate::instruction::{decode, decoded, Instruction};
use crate::machine::{boot, boot_memory, pixels, step, Fault, Machine, Screen, GLYPHS};
use vstd::prelude::*;

verus! {

/// A CHIP-8 processor.
pub struct CPU {
    pub program_counter: usize,
    pub registers: [u8; 16],
    pub memory: [u8; 4096],
    pub stack: [u16; 16],
    pub stack_pointer: usize,
    pub i: u16,
}

impl View for CPU {
    type V = Machine;

    open spec fn view(&self) -> Machine {
        Machine {
            program_counter: self.program_counter as int,
            registers: self.registers@,
            memory: self.memory@,
            stack: self.stack@,
            stack_pointer: self.stack_pointer as int,
            i: self.i,
        }
    }
}

/// Collects what a processor starts with: registers and a program image,
/// each optional.
pub struct CPUBuilder {
    pub registers: Option<[u8; 16]>,
    pub memory: Option<[u8; 4096]>,
}

/// The contents of an optional array.
pub open spec fn contents<T, const N: usize>(array: Option<[T; N]>) -> Option<Seq<T>> {
    match array {
        Some(values) => Some(values@),
        None => None,
    }
}

impl CPUBuilder {
    /// A builder with neither registers nor image.
    pub fn new() -> (builder: CPUBuilder)
        ensures
            builder.registers is None,
            builder.memory is None,
    {
        CPUBuilder { registers: None, memory: None }
    }

    /// Sets the registers that the processor starts with.
    pub fn registers(&mut self, registers: [u8; 16]) -> (builder: &mut CPUBuilder)
        ensures
            builder.registers == Some(registers),
            builder.memory == old(self).memory,
            *final(self) == *final(builder),
    {
        self.registers = Some(registers);
        self
    }

    /// Sets the program image. Its first byte will lie at address 200, and
    /// what would lie beyond the end of memory is left out.
    pub fn memory(&mut self, memory: [u8; 4096]) -> (builder: &mut CPUBuilder)
        ensures
            builder.registers == old(self).registers,
            builder.memory == Some(memory),
            *final(self) == *final(builder),
    {
        self.memory = Some(memory);
        self
    }

    /// A processor about to execute the first instruction of the image.
    /// Its lowest eighty bytes hold the glyphs whatever the builder was
    /// given.
    pub fn build(&self) -> (cpu: CPU)
        ensures
            cpu.wf(),
            cpu@ == boot(contents(self.registers), contents(self.memory)),
            cpu.program_counter == 200,
            cpu.memory@.subrange(0, 80) == GLYPHS@,
    {
        let memory = self.get_memory();
        let registers = match self.registers {
            Some(values) => values,
            None => [0; 16],
        };
        CPU { program_counter: 200, registers, memory, stack: [0; 16], stack_pointer: 0, i: 0 }
    }

    /// The memory that the processor starts with.
    pub fn get_memory(&self) -> (memory: [u8; 4096])
        ensures
            memory@ == boot_memory(contents(self.memory)),
    {
        let mut memory = [0; 0x1000];
        for a in 0..80usize
            invariant
                forall|b: int| 0 <= b < a ==> memory[b] == GLYPHS[b],
                forall|b: int| 80 <= b < 4096 ==> memory[b] == 0,
        {
            memory[a] = GLYPHS[a];
        }
        match self.memory {
            Some(image) => {
                for a in 200..4096usize
                    invariant
                        forall|b: int| 0 <= b < 80 ==> memory[b] == GLYPHS[b],
                        forall|b: int| 80 <= b < 200 ==> memory[b] == 0,
                        forall|b: int| 200 <= b < a ==> memory[b] == image[b - 200],
                {
                    memory[a] = image[a - 200];
                }
            },
            None => {},
        }
        memory
    }
}

impl CPU {
    /// A processor is well formed when its state is: at most sixteen stack
    /// slots are taken.
    pub open spec fn wf(&self) -> bool {
        self@.wf()
    }

    /// The value of register `ind`.
    pub fn registers(&self, ind: usize) -> (value: u8)
        requires
            ind < 16,
        ensures
            value == self.registers[ind as int],
    {
        self.registers[ind]
    }

    /// Performs one cycle: reads the instruction at the program counter,
    /// moves the program counter past it and carries it out, drawing a
    /// random byte from 1 to 255 where the instruction asks for one.
    /// `Ok(Some(()))` says that the program goes on, `Ok(None)` that it has
    /// halted; a fault is an `Err`.
    pub fn run(&mut self, screen: &mut Screen) -> (signal: Result<Option<()>, Fault>)
        requires
            old(self).wf(),
        ensures
            final(self).wf(),
            exists|random: u8|
                random >= 1 && (final(self)@, pixels(*final(screen)), signal) == #[trigger] step(
                    old(self)@,
                    pixels(*old(screen)),
                    random,
                ),
    {
        // The byte matters to `Rand` alone: for every other instruction, 1
        // stands for whichever byte might have been drawn.
        let ghost mut random: u8 = 1;
        let ghost expected = step(self@, pixels(*screen), random);

        if self.program_counter >= 4095 {
            return Err(Fault::AddressOutOfRange);
        }
        let opcode = self.read_opcode();
        self.program_counter += 2;

        let instruction = match decode(opcode) {
            Some(instruction) => instruction,
            None => {
                return Err(Fault::UnknownOpcode(opcode));
            },
        };
        match instruction {
            Instruction::Halt => {
                return Ok(None);
            },
            Instruction::Return => {
                if let Err(fault) = self.ret() {
                    return Err(fault);
                }
            },
            Instruction::Jump { addr } => self.jump(addr),
            Instruction::Call { addr } => {
                if let Err(fault) = self.call(addr) {
                    return Err(fault);
                }
            },
            Instruction::SkipEqual { x, nn } => self.skip_equal(x, nn),
            Instruction::SkipNotEqual { x, nn } => self.skip_not_equal(x, nn),
            Instruction::SkipEqualReg { x, y } => self.skip_equal_reg(x, y),
            Instruction::SetRegister { x, nn } => self.set_register(x, nn),
            Instruction::Add { x, nn } => self.add(x, nn),
            Instruction::Assign { x, y } => self.assign(x, y),
            Instruction::Or { x, y } => self.or(x, y),
            Instruction::And { x, y } => self.and(x, y),
            Instruction::Xor { x, y } => self.xor(x, y),
            Instruction::AddXY { x, y } => self.add_xy(x, y),
            Instruction::SubXY { x, y } => self.sub_xy(x, y),
            Instruction::ShiftRight { x } => self.shift_right(x),
            Instruction::SubN { x, y } => self.sub_n(x, y),
            Instruction::ShiftLeft { x } => self.shift_left(x),
            Instruction::SkipNotEqualReg { x, y } => self.skip_not_equal_reg(x, y),
            Instruction::SetI { addr } => self.set_i(addr),
            Instruction::JumpReg { addr } => self.jump_reg(addr),
            Instruction::Rand { nn } => {
                let ghost fetched = self@;
                self.rand(nn);
                proof {
                    random = choose|random: u8|
                        random >= 1 && self@ == #[trigger] fetched.rand(nn, random);
                }
            },
            Instruction::SetIReg { x } => self.set_i_reg(x),
            Instruction::Bcd { x } => {
                if self.i as usize + 2 >= 4096 {
                    return Err(Fault::AddressOutOfRange);
                }
                self.bcd(x)
            },
            Instruction::RegDump { x } => {
                if self.i as usize + x as usize >= 4096 {
                    return Err(Fault::AddressOutOfRange);
                }
                self.reg_dump(x)
            },
            Instruction::RegLoad { x } => {
                if self.i as usize + x as usize >= 4096 {
                    return Err(Fault::AddressOutOfRange);
                }
                self.reg_load(x)
            },
            Instruction::Draw { x, y, d } => {
                if d > 0 && self.i as usize + d as usize > 4096 {
                    return Err(Fault::AddressOutOfRange);
                }
                self.draw(x, y, d, screen)
            },
        };
        assert((self@, pixels(*screen), Ok::<Option<()>, Fault>(Some(()))) == step(
            old(self)@,
            pixels(*old(screen)),
            random,
        ));
        Ok(Some(()))
    }

    /// The operand of the next instruction if that is a `Rand`.
    fn pending_rand(&self) -> (operand: Option<u16>)
        ensures
            match operand {
                Some(nn) => self.program_counter + 1 < 4096 && decoded(self@.opcode()) == Some(
                    Instruction::Rand { nn },
                ),
                None => self.program_counter + 1 >= 4096 || !(decoded(
                    self@.opcode(),
                ) matches Some(Instruction::Rand { .. })),
            },
    {
        if self.program_counter >= 4095 {
            return None;
        }
        match decode(self.read_opcode()) {
            Some(Instruction::Rand { nn }) => Some(nn),
            _ => None,
        }
    }

    /// Performs one cycle in which `random` is the byte that a `Rand`
    /// instruction uses, so that the outcome is a function of the state.
    pub fn run_with(&mut self, screen: &mut Screen, random: u8) -> (signal: Result<
        Option<()>,
        Fault,
    >)
        requires
            old(self).wf(),
        ensures
            final(self).wf(),
            (final(self)@, pixels(*final(screen)), signal) == step(
                old(self)@,
                pixels(*old(screen)),
                random,
            ),
    {
        match self.pending_rand() {
            Some(nn) => {
                self.program_counter += 2;
                self.rand_from(nn, random);
                Ok(Some(()))
            },
            None => self.run(screen),
        }
    }
}

} // verus!
