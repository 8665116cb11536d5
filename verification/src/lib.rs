//! A CHIP-8 processor core.
//!
//! [`CPU`] holds the registers, the memory, the call stack and the two
//! pointers of the machine. [`CPU::run`] performs one fetch, decode and
//! execute cycle on it and on a display buffer that the caller owns, and
//! reports whether the program goes on, has halted or has faulted.
//!
//! Every contract is stated over [`machine::Machine`], the mathematical
//! view of a [`CPU`]; [`machine::step`] is the whole cycle as one function.
//!
//! # Example
//!
//! ```
//! use chip_8::CPUBuilder;
//!
//! let mut registers = [0; 16];
//! registers[0] = 5;
//! registers[1] = 10;
//!
//! // The image is placed at address 200, where execution begins.
//! let mut image = [0; 4096];
//! // Call the subroutine at address 0x100 (opcode 0x2100), then halt.
//! image[0] = 0x21;
//! image[1] = 0x00;
//! // The subroutine adds register 1 to register 0 (opcode 0x8014)
//! // and returns (opcode 0x00EE).
//! image[0x100 - 200] = 0x80;
//! image[0x101 - 200] = 0x14;
//! image[0x102 - 200] = 0x00;
//! image[0x103 - 200] = 0xEE;
//!
//! let mut cpu = CPUBuilder::new().registers(registers).memory(image).build();
//! let mut screen = [[false; 64]; 32];
//! while cpu.run(&mut screen) == Ok(Some(())) {}
//!
//! assert_eq!(15, cpu.registers(0));
//! ```

pub mod alu;
pub mod cpu;
pub mod display;
pub mod flow;
pub mod index;
pub mod instruction;
pub mod laws;
pub mod machine;
pub mod sprite;

pub use cpu::{CPUBuilder, CPU};
pub use display::Game;
pub use machine::{Fault, Screen};
