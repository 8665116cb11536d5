//! Laws of the instruction set that hold of every state.

use crate::instruction::{decoded, Instruction};
use crate::machine::{execute, step, Fault, Machine};
use vstd::prelude::*;

verus! {

/// A call that is followed at once by a return restores the program counter,
/// as long as it fits a stack slot, and the stack pointer. Registers,
/// memory and the address register are as they were; of the stack, only
/// the slot that the call took may differ.
pub proof fn lemma_call_then_ret(machine: Machine, addr: u16)
    requires
        machine.wf(),
        machine.stack_pointer < 16,
        machine.program_counter < 0x1_0000,
    ensures
        machine.call(addr).stack_pointer > 0,
        machine.call(addr).ret().program_counter == machine.program_counter,
        machine.call(addr).ret().stack_pointer == machine.stack_pointer,
        machine.call(addr).ret().registers == machine.registers,
        machine.call(addr).ret().memory == machine.memory,
        machine.call(addr).ret().i == machine.i,
        machine.call(addr).ret().stack == machine.stack.update(
            machine.stack_pointer,
            machine.program_counter as u16,
        ),
{
}

/// A cycle whose instruction is a call on a full stack, or a return on an
/// empty one, is a fault, and changes nothing but the program counter.
pub proof fn lemma_stack_faults(machine: Machine, screen: Seq<Seq<bool>>, addr: u16, random: u8)
    requires
        machine.wf(),
    ensures
        machine.stack_pointer == 16 ==> execute(
            machine,
            screen,
            Instruction::Call { addr },
            random,
        ) == (machine, screen, Err::<Option<()>, Fault>(Fault::StackOverflow)),
        machine.stack_pointer == 0 ==> execute(machine, screen, Instruction::Return, random) == (
            machine,
            screen,
            Err::<Option<()>, Fault>(Fault::StackUnderflow),
        ),
{
}

/// A cycle leaves a well-formed state well formed: no instruction takes
/// the stack pointer out of its range or changes the size of the registers,
/// the memory, the stack or the display.
pub proof fn lemma_step_keeps_shape(machine: Machine, screen: Seq<Seq<bool>>, random: u8)
    requires
        machine.wf(),
        screen.len() == 32,
        forall|r: int| 0 <= r < 32 ==> (#[trigger] screen[r]).len() == 64,
    ensures
        step(machine, screen, random).0.wf(),
        step(machine, screen, random).1.len() == 32,
        forall|r: int| 0 <= r < 32 ==> (#[trigger] step(machine, screen, random).1[r]).len() == 64,
{
}

/// A cycle ends without a fault exactly when the word at the program counter
/// lies within memory, stands for an instruction, and the state admits that
/// instruction. It then halts on the word 0 and goes on after every other
/// word.
pub proof fn lemma_step_signal(machine: Machine, screen: Seq<Seq<bool>>, random: u8)
    requires
        machine.wf(),
    ensures
        step(machine, screen, random).2 is Ok <==> machine.program_counter + 1 < 4096 && (decoded(
            machine.opcode(),
        ) matches Some(instruction) && machine.fetched().admits(instruction)),
        step(machine, screen, random).2 == Ok::<Option<()>, Fault>(None)
            <==> machine.program_counter + 1 < 4096 && machine.opcode() == 0,
        step(machine, screen, random).2 is Ok && machine.opcode() != 0 ==> step(
            machine,
            screen,
            random,
        ).2 == Ok::<Option<()>, Fault>(Some(())),
{
}

/// A sprite of no rows can be drawn wherever the address register points:
/// the display stays as it was and the flag is cleared.
pub proof fn lemma_draw_no_rows(machine: Machine, screen: Seq<Seq<bool>>, x: u8, y: u8, random: u8)
    requires
        machine.wf(),
        screen.len() == 32,
        forall|r: int| 0 <= r < 32 ==> (#[trigger] screen[r]).len() == 64,
    ensures
        execute(machine, screen, Instruction::Draw { x, y, d: 0 }, random) == (
            machine.with_flag(0),
            screen,
            Ok::<Option<()>, Fault>(Some(())),
        ),
{
    assert(machine.drawn(screen, x, y, 0) =~~= screen);
}

/// The random byte matters to no instruction but `Rand`.
pub proof fn lemma_random_matters_to_rand_only(
    machine: Machine,
    screen: Seq<Seq<bool>>,
    first: u8,
    second: u8,
)
    requires
        !(decoded(machine.opcode()) matches Some(Instruction::Rand { .. })),
    ensures
        step(machine, screen, first) == step(machine, screen, second),
{
}

/// Drawing the same sprite twice at the same place restores the display.
pub proof fn lemma_draw_twice(machine: Machine, screen: Seq<Seq<bool>>, x: u8, y: u8, d: u8)
    requires
        machine.wf(),
        x < 15,
        y < 15,
        screen.len() == 32,
        forall|r: int| 0 <= r < 32 ==> (#[trigger] screen[r]).len() == 64,
    ensures
        ({
            let once = machine.draw(screen, x, y, d);
            once.drawn(machine.drawn(screen, x, y, d), x, y, d) == screen
        }),
{
    let once = machine.draw(screen, x, y, d);
    let twice = once.drawn(machine.drawn(screen, x, y, d), x, y, d);
    assert forall|r: int, c: int| 0 <= r < 32 && 0 <= c < 64 implies twice[r][c] == screen[r][c] by {
        assert(once.sprite_covers(x, y, d, r, c) == machine.sprite_covers(x, y, d, r, c));
    }
    assert(twice =~~= screen);
}

} // verus!
