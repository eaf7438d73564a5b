//! The machine as mathematics: what one instruction does to the processor
//! state, stated over sequences and integers.

use vstd::prelude::*;
use crate::instruction::{decoded, Instruction};
use crate::system_bus::BusState;

verus! {

/// What an instruction does to the program counter once it has run.
#[derive(Clone, Copy, Debug, PartialEq, Eq)]
pub enum ExecutionFlow {
    /// Continue at the given address.
    Jump(u16),
    /// Continue with the instruction that follows.
    Next,
    /// Pass over the instruction that follows.
    SkipNext,
}

/// Why the processor cannot run its next instruction.
#[derive(Clone, Copy, Debug, PartialEq, Eq)]
pub enum ExecutionFault {
    /// The two bytes at the program counter do not both lie in memory.
    AddressOutOfBounds,
    /// A return with no call outstanding.
    StackUnderflow,
    /// A call with the call stack already full.
    StackOverflow,
}

/// The processor's registers.
pub struct CpuState {
    /// `V0` to `VF`.
    pub regs: Seq<u8>,
    /// Address of the next instruction.
    pub pc: u16,
    /// The index register `I`.
    pub index: u16,
    /// Return addresses, the most recent call last.
    pub stack: Seq<u16>,
}

impl CpuState {
    /// Sixteen registers, and no more than sixteen calls outstanding.
    pub open spec fn wf(self) -> bool {
        self.regs.len() == 16 && self.stack.len() <= 16
    }

    /// This state with other register contents.
    pub open spec fn with_regs(self, regs: Seq<u8>) -> CpuState {
        CpuState { regs, ..self }
    }

    /// This state with another call stack.
    pub open spec fn with_stack(self, stack: Seq<u16>) -> CpuState {
        CpuState { stack, ..self }
    }

    /// This state with another index register.
    pub open spec fn with_index(self, index: u16) -> CpuState {
        CpuState { index, ..self }
    }

    /// This state with another program counter.
    pub open spec fn with_pc(self, pc: u16) -> CpuState {
        CpuState { pc, ..self }
    }
}

/// The processor at power-on: registers cleared, no call outstanding,
/// program counter at the start of program space.
pub open spec fn initial_cpu() -> CpuState {
    CpuState { regs: Seq::new(16, |i: int| 0u8), pc: 0x200, index: 0, stack: Seq::empty() }
}

/// A condition as a flag value.
pub open spec fn flag(condition: bool) -> u8 {
    if condition {
        1
    } else {
        0
    }
}

/// `7xkk`: `Vx` plus `kk` modulo 256. No flag is written.
pub open spec fn add_byte(regs: Seq<u8>, x: int, kk: int) -> Seq<u8> {
    regs.update(x, ((regs[x] + kk) % 256) as u8)
}

/// `8xy4`: the low byte of `Vx + Vy` goes to `Vx`, then the carry to `VF`.
pub open spec fn add_with_carry(regs: Seq<u8>, x: int, y: int) -> Seq<u8> {
    let sum: int = regs[x] + regs[y];
    regs.update(x, (sum % 256) as u8).update(15, flag(sum > 255))
}

/// `8xy5`: `VF` tells whether `Vx > Vy`, then `Vx - Vy` modulo 256 goes
/// to `Vx`.
pub open spec fn sub_with_borrow(regs: Seq<u8>, x: int, y: int) -> Seq<u8> {
    let difference: int = regs[x] - regs[y];
    regs.update(15, flag(regs[x] > regs[y])).update(x, (difference % 256) as u8)
}

/// `8xy7`: `VF` tells whether `Vy > Vx`, then `Vy - Vx` modulo 256 goes
/// to `Vx`.
pub open spec fn sub_reversed(regs: Seq<u8>, x: int, y: int) -> Seq<u8> {
    let difference: int = regs[y] - regs[x];
    regs.update(15, flag(regs[y] > regs[x])).update(x, (difference % 256) as u8)
}

/// `8x06`: the low bit of `Vx` goes to `VF`, then `Vx` is halved.
pub open spec fn shift_right(regs: Seq<u8>, x: int) -> Seq<u8> {
    let flagged: Seq<u8> = regs.update(15, (regs[x] % 2) as u8);
    flagged.update(x, (flagged[x] / 2) as u8)
}

/// `8x0E`: the high bit of `Vx` goes to `VF`, then `Vx` is doubled
/// modulo 256.
pub open spec fn shift_left(regs: Seq<u8>, x: int) -> Seq<u8> {
    let flagged: Seq<u8> = regs.update(15, (regs[x] / 128) as u8);
    flagged.update(x, ((flagged[x] * 2) % 256) as u8)
}

/// The state after `instruction` has done its work, the program counter
/// still where it was.
pub open spec fn executed(cpu: CpuState, instruction: Instruction) -> CpuState {
    match instruction {
        Instruction::Ret => cpu.with_stack(cpu.stack.drop_last()),
        Instruction::Call { nnn } => cpu.with_stack(cpu.stack.push((cpu.pc + 2) as u16)),
        Instruction::LdByte { x, kk } => cpu.with_regs(cpu.regs.update(x as int, (kk % 256) as u8)),
        Instruction::AddByte { x, kk } => cpu.with_regs(
            add_byte(cpu.regs, x as int, (kk % 256) as int),
        ),
        Instruction::LdReg { x, y } => cpu.with_regs(cpu.regs.update(x as int, cpu.regs[y as int])),
        Instruction::Or { x, y } => cpu.with_regs(
            cpu.regs.update(x as int, cpu.regs[x as int] | cpu.regs[y as int]),
        ),
        Instruction::And { x, y } => cpu.with_regs(
            cpu.regs.update(x as int, cpu.regs[x as int] & cpu.regs[y as int]),
        ),
        Instruction::Xor { x, y } => cpu.with_regs(
            cpu.regs.update(x as int, cpu.regs[x as int] ^ cpu.regs[y as int]),
        ),
        Instruction::AddReg { x, y } => cpu.with_regs(
            add_with_carry(cpu.regs, x as int, y as int),
        ),
        Instruction::Sub { x, y } => cpu.with_regs(sub_with_borrow(cpu.regs, x as int, y as int)),
        Instruction::Shr { x } => cpu.with_regs(shift_right(cpu.regs, x as int)),
        Instruction::Subn { x, y } => cpu.with_regs(sub_reversed(cpu.regs, x as int, y as int)),
        Instruction::Shl { x } => cpu.with_regs(shift_left(cpu.regs, x as int)),
        Instruction::LdI { nnn } => cpu.with_index(nnn),
        Instruction::Cls
        | Instruction::Jp { .. }
        | Instruction::SeByte { .. }
        | Instruction::SneByte { .. }
        | Instruction::SeReg { .. }
        | Instruction::SneReg { .. }
        | Instruction::JpV0 { .. }
        | Instruction::Unknown => cpu,
    }
}

/// The conditional skips: `3xkk`, `4xkk`, `5xy0` and `9xy0`.
pub open spec fn is_skip(instruction: Instruction) -> bool {
    instruction is SeByte || instruction is SneByte || instruction is SeReg
        || instruction is SneReg
}

/// The instructions that replace the program counter: `00EE`, `1nnn`,
/// `2nnn` and `Bnnn`.
pub open spec fn is_jump(instruction: Instruction) -> bool {
    instruction is Ret || instruction is Jp || instruction is Call || instruction is JpV0
}

/// Whether a conditional skip finds its condition met in `cpu`. False for
/// every instruction that is no conditional skip.
pub open spec fn skips(cpu: CpuState, instruction: Instruction) -> bool {
    match instruction {
        Instruction::SeByte { x, kk } => cpu.regs[x as int] == kk % 256,
        Instruction::SneByte { x, kk } => cpu.regs[x as int] != kk % 256,
        Instruction::SeReg { x, y } => cpu.regs[x as int] == cpu.regs[y as int],
        Instruction::SneReg { x, y } => cpu.regs[x as int] != cpu.regs[y as int],
        _ => false,
    }
}

/// Where control goes once `instruction` has run in `cpu`.
pub open spec fn flow_of(cpu: CpuState, instruction: Instruction) -> ExecutionFlow {
    match instruction {
        Instruction::Ret => ExecutionFlow::Jump(cpu.stack.last()),
        Instruction::Jp { nnn } => ExecutionFlow::Jump(nnn),
        Instruction::Call { nnn } => ExecutionFlow::Jump(nnn),
        Instruction::JpV0 { nnn } => ExecutionFlow::Jump((cpu.regs[0] + nnn) as u16),
        _ => if skips(cpu, instruction) {
            ExecutionFlow::SkipNext
        } else {
            ExecutionFlow::Next
        },
    }
}

/// The program counter that `flow` leads to from `pc`.
pub open spec fn target(pc: u16, flow: ExecutionFlow) -> u16 {
    match flow {
        ExecutionFlow::Jump(addr) => addr,
        ExecutionFlow::Next => (pc + 2) as u16,
        ExecutionFlow::SkipNext => (pc + 4) as u16,
    }
}

/// The processor after `instruction` has run and the program counter has
/// moved.
pub open spec fn ran(cpu: CpuState, instruction: Instruction) -> CpuState {
    executed(cpu, instruction).with_pc(target(cpu.pc, flow_of(cpu, instruction)))
}

/// The instruction word at `pc`: two bytes, the high one first.
pub open spec fn fetched(memory: Seq<u8>, pc: u16) -> u16 {
    (memory[pc as int] * 256 + memory[pc + 1]) as u16
}

/// The fault, if any, that keeps `cpu` from running its next instruction:
/// the word at the program counter must lie in memory, a return needs a call
/// to return from, and a call needs room on the stack.
pub open spec fn pending_fault(cpu: CpuState, memory: Seq<u8>) -> Option<ExecutionFault> {
    if cpu.pc + 1 >= memory.len() {
        Some(ExecutionFault::AddressOutOfBounds)
    } else {
        match decoded(fetched(memory, cpu.pc)) {
            Instruction::Ret => if cpu.stack.len() == 0 {
                Some(ExecutionFault::StackUnderflow)
            } else {
                None
            },
            Instruction::Call { .. } => if cpu.stack.len() >= 16 {
                Some(ExecutionFault::StackOverflow)
            } else {
                None
            },
            _ => None,
        }
    }
}

/// The processor after one whole step: fetch at the program counter,
/// decode, execute, then move the program counter.
pub open spec fn stepped(cpu: CpuState, memory: Seq<u8>) -> CpuState {
    ran(cpu, decoded(fetched(memory, cpu.pc)))
}

/// The devices after that same step. Only clearing the display reaches
/// them; memory and timers are left as they were.
pub open spec fn stepped_bus(cpu: CpuState, bus: BusState) -> BusState {
    if decoded(fetched(bus.memory, cpu.pc)) is Cls {
        BusState { display: crate::gpu::blank_screen(), ..bus }
    } else {
        bus
    }
}

/// The whole machine: the processor and what it is wired to.
pub struct MachineState {
    pub cpu: CpuState,
    pub bus: BusState,
}

/// The machine at power-on.
pub open spec fn initial_machine() -> MachineState {
    MachineState { cpu: initial_cpu(), bus: crate::system_bus::initial_bus() }
}

/// The fault, if any, that keeps the machine from taking its next step.
pub open spec fn machine_fault(machine: MachineState) -> Option<ExecutionFault> {
    pending_fault(machine.cpu, machine.bus.memory)
}

/// The machine one instruction later.
pub open spec fn machine_stepped(machine: MachineState) -> MachineState {
    MachineState {
        cpu: stepped(machine.cpu, machine.bus.memory),
        bus: stepped_bus(machine.cpu, machine.bus),
    }
}

/// The machine with `image` copied into memory from `start` on.
pub open spec fn machine_loaded(machine: MachineState, image: Seq<u8>, start: int) -> MachineState {
    MachineState {
        bus: BusState {
            memory: crate::ram::overlaid(machine.bus.memory, image, start),
            ..machine.bus
        },
        ..machine
    }
}

/// `8xy4` leaves 1 in `VF` exactly when the sum of the two registers exceeds
/// 255, and 0 otherwise. The target register holds the sum modulo 256,
/// unless the target is `VF` itself, which then holds the carry. No other
/// register changes.
pub proof fn lemma_add_with_carry(regs: Seq<u8>, x: int, y: int)
    requires
        regs.len() == 16,
        0 <= x < 16,
        0 <= y < 16,
    ensures
        add_with_carry(regs, x, y).len() == 16,
        add_with_carry(regs, x, y)[15] == 1 <==> regs[x] + regs[y] > 255,
        add_with_carry(regs, x, y)[15] == 0 <==> regs[x] + regs[y] <= 255,
        x != 15 ==> add_with_carry(regs, x, y)[x] == (regs[x] + regs[y]) % 256,
        forall|r: int|
            0 <= r < 16 && r != x && r != 15 ==> add_with_carry(regs, x, y)[r] == regs[r],
{
}

/// `8xy5` leaves `Vx - Vy` modulo 256 in the target register, whatever the
/// operands. `VF` holds 1 exactly when `Vx > Vy`, and 0 otherwise, unless
/// the target is `VF` itself, which then holds the difference. No other
/// register changes.
pub proof fn lemma_sub_with_borrow(regs: Seq<u8>, x: int, y: int)
    requires
        regs.len() == 16,
        0 <= x < 16,
        0 <= y < 16,
    ensures
        sub_with_borrow(regs, x, y).len() == 16,
        sub_with_borrow(regs, x, y)[x] == (regs[x] - regs[y]) % 256,
        x != 15 ==> (sub_with_borrow(regs, x, y)[15] == 1 <==> regs[x] > regs[y]),
        x != 15 ==> (sub_with_borrow(regs, x, y)[15] == 0 <==> regs[x] <= regs[y]),
        forall|r: int|
            0 <= r < 16 && r != x && r != 15 ==> sub_with_borrow(regs, x, y)[r] == regs[r],
{
}

/// `8xy7` is `8xy5` with the operands exchanged: the target register holds
/// `Vy - Vx` modulo 256, and `VF`, unless it is the target, holds 1 exactly
/// when `Vy > Vx`.
pub proof fn lemma_sub_reversed(regs: Seq<u8>, x: int, y: int)
    requires
        regs.len() == 16,
        0 <= x < 16,
        0 <= y < 16,
    ensures
        sub_reversed(regs, x, y).len() == 16,
        sub_reversed(regs, x, y)[x] == (regs[y] - regs[x]) % 256,
        x != 15 ==> (sub_reversed(regs, x, y)[15] == 1 <==> regs[y] > regs[x]),
        x != 15 ==> (sub_reversed(regs, x, y)[15] == 0 <==> regs[y] <= regs[x]),
        forall|r: int|
            0 <= r < 16 && r != x && r != 15 ==> sub_reversed(regs, x, y)[r] == regs[r],
{
}

/// `8x06` on any register but `VF`: the flag is the low bit the register
/// had before, and the register holds half of what it held, rounded down.
/// Shifting `VF` itself leaves 0 in it. No other register changes.
pub proof fn lemma_shift_right(regs: Seq<u8>, x: int)
    requires
        regs.len() == 16,
        0 <= x < 16,
    ensures
        shift_right(regs, x).len() == 16,
        x != 15 ==> shift_right(regs, x)[15] == regs[x] % 2,
        x != 15 ==> shift_right(regs, x)[x] == regs[x] / 2,
        x == 15 ==> shift_right(regs, x)[15] == 0,
        forall|r: int| 0 <= r < 16 && r != x && r != 15 ==> shift_right(regs, x)[r] == regs[r],
{
}

/// `8x0E` on any register but `VF`: the flag is the high bit the register
/// had before, and the register holds twice what it held, modulo 256.
/// No other register changes.
pub proof fn lemma_shift_left(regs: Seq<u8>, x: int)
    requires
        regs.len() == 16,
        0 <= x < 16,
    ensures
        shift_left(regs, x).len() == 16,
        x != 15 ==> shift_left(regs, x)[15] == regs[x] / 128,
        x != 15 ==> (shift_left(regs, x)[15] == 1 <==> regs[x] >= 128),
        x != 15 ==> shift_left(regs, x)[x] == (regs[x] * 2) % 256,
        x == 15 ==> shift_left(regs, x)[15] == 2 * (regs[15] / 128),
        forall|r: int| 0 <= r < 16 && r != x && r != 15 ==> shift_left(regs, x)[r] == regs[r],
{
}

/// `7xkk` wraps around at 256 and writes no flag: only the target register
/// changes.
pub proof fn lemma_add_byte(regs: Seq<u8>, x: int, kk: int)
    requires
        regs.len() == 16,
        0 <= x < 16,
        0 <= kk < 256,
    ensures
        add_byte(regs, x, kk).len() == 16,
        add_byte(regs, x, kk)[x] == (regs[x] + kk) % 256,
        forall|r: int| 0 <= r < 16 && r != x ==> add_byte(regs, x, kk)[r] == regs[r],
{
}

/// A call followed by a return comes back to the instruction after the
/// call, with the stack, the registers and the index register as they were
/// before the call.
pub proof fn lemma_call_then_return(cpu: CpuState, nnn: u16)
    requires
        cpu.wf(),
        cpu.stack.len() < 16,
        cpu.pc + 2 <= u16::MAX,
    ensures
        ran(cpu, Instruction::Call { nnn }).pc == nnn,
        ran(cpu, Instruction::Call { nnn }).stack == cpu.stack.push((cpu.pc + 2) as u16),
        ran(ran(cpu, Instruction::Call { nnn }), Instruction::Ret) == cpu.with_pc(
            (cpu.pc + 2) as u16,
        ),
{
    let called = ran(cpu, Instruction::Call { nnn });
    assert(called.stack.drop_last() =~= cpu.stack);
}

/// A step moves the program counter by exactly four when the instruction is
/// a conditional skip whose condition holds, and by exactly two when it is
/// one whose condition fails or when it is neither a skip nor a jump,
/// words that spell no instruction included.
pub proof fn lemma_step_advances_pc(cpu: CpuState, memory: Seq<u8>)
    requires
        cpu.wf(),
        memory.len() == 4096,
        pending_fault(cpu, memory) is None,
    ensures
        ({
            let instruction = decoded(fetched(memory, cpu.pc));
            let next = stepped(cpu, memory);
            &&& is_skip(instruction) && skips(cpu, instruction) ==> next.pc == cpu.pc + 4
            &&& is_skip(instruction) && !skips(cpu, instruction) ==> next.pc == cpu.pc + 2
            &&& !is_skip(instruction) && !is_jump(instruction) ==> next.pc == cpu.pc + 2
        }),
{
}

/// A jump lands where the instruction says: a return at the address on top
/// of the stack, `1nnn` and `2nnn` at `nnn`, `Bnnn` at `V0 + nnn`.
pub proof fn lemma_step_jumps(cpu: CpuState, memory: Seq<u8>)
    requires
        cpu.wf(),
        memory.len() == 4096,
        pending_fault(cpu, memory) is None,
    ensures
        ({
            let next = stepped(cpu, memory);
            match decoded(fetched(memory, cpu.pc)) {
                Instruction::Ret => next.pc == cpu.stack.last(),
                Instruction::Jp { nnn } => next.pc == nnn,
                Instruction::Call { nnn } => next.pc == nnn,
                Instruction::JpV0 { nnn } => next.pc == cpu.regs[0] + nnn,
                _ => true,
            }
        }),
{
    crate::instruction::lemma_decoded_wf(fetched(memory, cpu.pc));
}

/// A step that can be taken keeps the state well formed: sixteen registers,
/// at most sixteen calls outstanding.
pub proof fn lemma_step_preserves_wf(cpu: CpuState, memory: Seq<u8>)
    requires
        cpu.wf(),
        pending_fault(cpu, memory) is None,
    ensures
        stepped(cpu, memory).wf(),
{
}

/// An even program counter stays even over a step, as long as a jump, if
/// the instruction is one, goes to an even address.
pub proof fn lemma_step_keeps_pc_even(cpu: CpuState, memory: Seq<u8>)
    requires
        cpu.wf(),
        memory.len() == 4096,
        pending_fault(cpu, memory) is None,
        cpu.pc % 2 == 0,
        flow_of(cpu, decoded(fetched(memory, cpu.pc))) matches ExecutionFlow::Jump(addr) ==> addr
            % 2 == 0,
    ensures
        stepped(cpu, memory).pc % 2 == 0,
{
}

} // verus!
