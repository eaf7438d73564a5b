//! The instruction engine: registers, program counter, index register and
//! call stack, and the handler of every instruction.

use vstd::prelude::*;
use crate::instruction::{decode, decoded, Instruction};
use crate::ram::RAM_SIZE;
use crate::semantics::{
    add_byte, add_with_carry, fetched, flag, initial_cpu, is_jump, is_skip, pending_fault,
    shift_left, shift_right, skips, stepped, stepped_bus, sub_reversed, sub_with_borrow, CpuState,
    ExecutionFault, ExecutionFlow,
};
use crate::system_bus::{BusState, SystemBus};

verus! {

/// Number of general registers.
pub const NUM_REGISTERS: usize = 16;

/// Where programs are loaded and execution starts.
pub const START_ADDR: u16 = 0x200;

/// Most calls that can be outstanding at once.
pub const STACK_SIZE: usize = 16;

/// The register that arithmetic and shifts leave their flag in.
pub const VF_REGISTER: usize = 0x0F;

/// The processor.
pub struct Cpu {
    /// Registers `V0` to `VF`.
    vx: [u8; NUM_REGISTERS],
    /// Address of the next instruction.
    pc: u16,
    /// The index register.
    i: u16,
    /// Return addresses; the slots below `sp` are in use.
    stack: [u16; STACK_SIZE],
    /// Number of calls outstanding.
    sp: usize,
}

impl View for Cpu {
    type V = CpuState;

    closed spec fn view(&self) -> CpuState {
        CpuState {
            regs: self.vx@,
            pc: self.pc,
            index: self.i,
            stack: self.stack@.subrange(0, self.sp as int),
        }
    }
}

impl Cpu {
    /// The stack pointer stays within the stack.
    pub closed spec fn wf(&self) -> bool {
        self.sp <= STACK_SIZE
    }

    /// A well-formed processor has a well-formed state.
    pub proof fn lemma_view_wf(&self)
        requires
            self.wf(),
        ensures
            self@.wf(),
    {
    }

    /// A processor at power-on.
    pub fn new() -> (cpu: Self)
        ensures
            cpu.wf(),
            cpu@ == initial_cpu(),
    {
        let cpu = Self {
            vx: [0; NUM_REGISTERS],
            pc: START_ADDR,
            i: 0,
            stack: [0; STACK_SIZE],
            sp: 0,
        };
        assert(cpu@.regs =~= initial_cpu().regs);
        assert(cpu@.stack =~= initial_cpu().stack);
        cpu
    }

    /// The content of register `x`.
    pub fn register(&self, x: usize) -> (value: u8)
        requires
            x < NUM_REGISTERS,
        ensures
            value == self@.regs[x as int],
    {
        self.vx[x]
    }

    /// The program counter.
    pub fn pc(&self) -> (pc: u16)
        ensures
            pc == self@.pc,
    {
        self.pc
    }

    /// The index register.
    pub fn index(&self) -> (index: u16)
        ensures
            index == self@.index,
    {
        self.i
    }

    /// The outstanding return addresses, the most recent call last.
    pub fn stack(&self) -> (stack: Vec<u16>)
        requires
            self.wf(),
        ensures
            stack@ == self@.stack,
    {
        let mut stack: Vec<u16> = Vec::new();
        let mut k: usize = 0;
        while k < self.sp
            invariant
                self.wf(),
                k <= self.sp,
                stack@ == self.stack@.subrange(0, k as int),
            decreases self.sp - k,
        {
            stack.push(self.stack[k]);
            k += 1;
        }
        stack
    }

    /// The instruction word at the program counter.
    pub fn fetch(&self, system_bus: &SystemBus) -> (opcode: u16)
        requires
            self@.pc + 1 < RAM_SIZE,
        ensures
            opcode == fetched(system_bus@.memory, self@.pc),
    {
        let high: u8 = system_bus.ram.read(self.pc);
        let low: u8 = system_bus.ram.read(self.pc + 1);
        let first: u16 = (high as u16) << 8;
        let second: u16 = low as u16;
        assert(first | second == high * 256 + low) by (bit_vector)
            requires
                first == (high as u16) << 8,
                second == low as u16,
        ;
        first | second
    }

    /// The fault, if any, that stands in the way of the next instruction.
    /// Nothing is changed; `execute_operation` may be called exactly when
    /// this returns `None`.
    pub fn fault(&self, system_bus: &SystemBus) -> (fault: Option<ExecutionFault>)
        requires
            self.wf(),
        ensures
            fault == pending_fault(self@, system_bus@.memory),
    {
        if self.pc as usize + 1 >= RAM_SIZE {
            return Some(ExecutionFault::AddressOutOfBounds);
        }
        match decode(self.fetch(system_bus)) {
            Instruction::Ret => if self.sp == 0 {
                Some(ExecutionFault::StackUnderflow)
            } else {
                None
            },
            Instruction::Call { .. } => if self.sp >= STACK_SIZE {
                Some(ExecutionFault::StackOverflow)
            } else {
                None
            },
            _ => None,
        }
    }

    /// Runs one instruction: fetches the word at the program counter,
    /// decodes it, lets the instruction do its work, then moves the program
    /// counter on by two, by four, or to where the instruction sends it.
    pub fn execute_operation(&mut self, system_bus: &mut SystemBus)
        requires
            old(self).wf(),
            pending_fault(old(self)@, old(system_bus)@.memory) is None,
        ensures
            final(self).wf(),
            final(self)@ == stepped(old(self)@, old(system_bus)@.memory),
            final(system_bus)@ == stepped_bus(old(self)@, old(system_bus)@),
            ({
                let instruction = decoded(fetched(old(system_bus)@.memory, old(self)@.pc));
                let taken = skips(old(self)@, instruction);
                &&& is_skip(instruction) && taken ==> final(self)@.pc == old(self)@.pc + 4
                &&& is_skip(instruction) && !taken ==> final(self)@.pc == old(self)@.pc + 2
                &&& !is_skip(instruction) && !is_jump(instruction) ==> final(self)@.pc == old(
                    self,
                )@.pc + 2
            }),
    {
        let opcode: u16 = self.fetch(system_bus);
        proof {
            crate::instruction::lemma_decoded_wf(opcode);
        }
        let pc_update = match decode(opcode) {
            Instruction::Cls => self.op_00e0(system_bus),
            Instruction::Ret => self.op_00ee(),
            Instruction::Jp { nnn } => self.op_1nnn(nnn),
            Instruction::Call { nnn } => self.op_2nnn(nnn),
            Instruction::SeByte { x, kk } => self.op_3xkk(x, kk),
            Instruction::SneByte { x, kk } => self.op_4xkk(x, kk),
            Instruction::LdByte { x, kk } => self.op_6xkk(x, kk),
            Instruction::AddByte { x, kk } => self.op_7xkk(x, kk),
            Instruction::SeReg { x, y } => self.op_5xy0(x, y),
            Instruction::LdReg { x, y } => self.op_8xy0(x, y),
            Instruction::Or { x, y } => self.op_8xy1(x, y),
            Instruction::And { x, y } => self.op_8xy2(x, y),
            Instruction::Xor { x, y } => self.op_8xy3(x, y),
            Instruction::AddReg { x, y } => self.op_8xy4(x, y),
            Instruction::Sub { x, y } => self.op_8xy5(x, y),
            Instruction::Shr { x } => self.op_8x06(x),
            Instruction::Subn { x, y } => self.op_8xy7(x, y),
            Instruction::Shl { x } => self.op_8x0e(x),
            Instruction::SneReg { x, y } => self.op_9xy0(x, y),
            Instruction::LdI { nnn } => self.op_annn(nnn),
            Instruction::JpV0 { nnn } => self.op_bnnn(nnn),
            Instruction::Unknown => ExecutionFlow::Next,
        };
        match pc_update {
            ExecutionFlow::Jump(addr) => self.pc = addr,
            ExecutionFlow::Next => self.pc += 2,
            ExecutionFlow::SkipNext => self.pc += 4,
        }
    }

    /// `00E0`, CLS: clears the display.
    pub fn op_00e0(&self, system_bus: &mut SystemBus) -> (flow: ExecutionFlow)
        ensures
            flow == ExecutionFlow::Next,
            final(system_bus)@ == (BusState {
                display: crate::gpu::blank_screen(),
                ..old(system_bus)@
            }),
    {
        system_bus.gpu.clear();
        ExecutionFlow::Next
    }

    /// `00EE`, RET: takes the latest return address off the stack and
    /// continues there.
    pub fn op_00ee(&mut self) -> (flow: ExecutionFlow)
        requires
            old(self).wf(),
            old(self)@.stack.len() > 0,
        ensures
            final(self).wf(),
            final(self)@ == old(self)@.with_stack(old(self)@.stack.drop_last()),
            flow == ExecutionFlow::Jump(old(self)@.stack.last()),
    {
        self.sp = self.sp - 1;
        let addr: u16 = self.stack[self.sp];
        assert(self@.stack =~= old(self)@.stack.drop_last());
        ExecutionFlow::Jump(addr)
    }

    /// `1nnn`, JP: continues at `nnn`.
    pub fn op_1nnn(&mut self, nnn: u16) -> (flow: ExecutionFlow)
        ensures
            *final(self) == *old(self),
            flow == ExecutionFlow::Jump(nnn),
    {
        ExecutionFlow::Jump(nnn)
    }

    /// `2nnn`, CALL: remembers the address after this instruction and
    /// continues at `nnn`.
    pub fn op_2nnn(&mut self, nnn: u16) -> (flow: ExecutionFlow)
        requires
            old(self).wf(),
            old(self)@.stack.len() < STACK_SIZE,
            old(self)@.pc + 2 <= u16::MAX,
        ensures
            final(self).wf(),
            final(self)@ == old(self)@.with_stack(
                old(self)@.stack.push((old(self)@.pc + 2) as u16),
            ),
            flow == ExecutionFlow::Jump(nnn),
    {
        self.stack[self.sp] = self.pc + 2;
        self.sp = self.sp + 1;
        assert(self@.stack =~= old(self)@.stack.push((old(self)@.pc + 2) as u16));
        ExecutionFlow::Jump(nnn)
    }

    /// `3xkk`, SE Vx, kk: skips the next instruction if `Vx` equals the low
    /// byte of `kk`.
    pub fn op_3xkk(&self, x: u16, kk: u16) -> (flow: ExecutionFlow)
        requires
            x < NUM_REGISTERS,
        ensures
            flow == if self@.regs[x as int] == kk % 256 {
                ExecutionFlow::SkipNext
            } else {
                ExecutionFlow::Next
            },
    {
        let byte: u8 = low_byte(kk);
        if self.vx[x as usize] == byte {
            return ExecutionFlow::SkipNext;
        }
        ExecutionFlow::Next
    }

    /// `4xkk`, SNE Vx, kk: skips the next instruction if `Vx` differs from
    /// the low byte of `kk`.
    pub fn op_4xkk(&self, x: u16, kk: u16) -> (flow: ExecutionFlow)
        requires
            x < NUM_REGISTERS,
        ensures
            flow == if self@.regs[x as int] != kk % 256 {
                ExecutionFlow::SkipNext
            } else {
                ExecutionFlow::Next
            },
    {
        let byte: u8 = low_byte(kk);
        if self.vx[x as usize] != byte {
            return ExecutionFlow::SkipNext;
        }
        ExecutionFlow::Next
    }

    /// `6xkk`, LD Vx, kk: puts the low byte of `kk` into `Vx`.
    pub fn op_6xkk(&mut self, x: u16, kk: u16) -> (flow: ExecutionFlow)
        requires
            old(self).wf(),
            x < NUM_REGISTERS,
        ensures
            final(self).wf(),
            final(self)@ == old(self)@.with_regs(
                old(self)@.regs.update(x as int, (kk % 256) as u8),
            ),
            flow == ExecutionFlow::Next,
    {
        self.vx[x as usize] = low_byte(kk);
        ExecutionFlow::Next
    }

    /// `7xkk`, ADD Vx, kk: adds the low byte of `kk` to `Vx`, wrapping
    /// around at 256. The flag register is left alone.
    pub fn op_7xkk(&mut self, x: u16, kk: u16) -> (flow: ExecutionFlow)
        requires
            old(self).wf(),
            x < NUM_REGISTERS,
        ensures
            final(self).wf(),
            final(self)@ == old(self)@.with_regs(
                add_byte(old(self)@.regs, x as int, (kk % 256) as int),
            ),
            flow == ExecutionFlow::Next,
    {
        let byte: u8 = low_byte(kk);
        self.vx[x as usize] = self.vx[x as usize].wrapping_add(byte);
        ExecutionFlow::Next
    }

    /// `5xy0`, SE Vx, Vy: skips the next instruction if the two registers
    /// are equal.
    pub fn op_5xy0(&self, x: u16, y: u16) -> (flow: ExecutionFlow)
        requires
            x < NUM_REGISTERS,
            y < NUM_REGISTERS,
        ensures
            flow == if self@.regs[x as int] == self@.regs[y as int] {
                ExecutionFlow::SkipNext
            } else {
                ExecutionFlow::Next
            },
    {
        if self.vx[x as usize] == self.vx[y as usize] {
            return ExecutionFlow::SkipNext;
        }
        ExecutionFlow::Next
    }

    /// `8xy0`, LD Vx, Vy: copies `Vy` into `Vx`.
    pub fn op_8xy0(&mut self, x: u16, y: u16) -> (flow: ExecutionFlow)
        requires
            old(self).wf(),
            x < NUM_REGISTERS,
            y < NUM_REGISTERS,
        ensures
            final(self).wf(),
            final(self)@ == old(self)@.with_regs(
                old(self)@.regs.update(x as int, old(self)@.regs[y as int]),
            ),
            flow == ExecutionFlow::Next,
    {
        self.vx[x as usize] = self.vx[y as usize];
        ExecutionFlow::Next
    }

    /// `8xy1`, OR Vx, Vy: bitwise or into `Vx`.
    pub fn op_8xy1(&mut self, x: u16, y: u16) -> (flow: ExecutionFlow)
        requires
            old(self).wf(),
            x < NUM_REGISTERS,
            y < NUM_REGISTERS,
        ensures
            final(self).wf(),
            final(self)@ == old(self)@.with_regs(
                old(self)@.regs.update(
                    x as int,
                    old(self)@.regs[x as int] | old(self)@.regs[y as int],
                ),
            ),
            flow == ExecutionFlow::Next,
    {
        self.vx[x as usize] = self.vx[x as usize] | self.vx[y as usize];
        ExecutionFlow::Next
    }

    /// `8xy2`, AND Vx, Vy: bitwise and into `Vx`.
    pub fn op_8xy2(&mut self, x: u16, y: u16) -> (flow: ExecutionFlow)
        requires
            old(self).wf(),
            x < NUM_REGISTERS,
            y < NUM_REGISTERS,
        ensures
            final(self).wf(),
            final(self)@ == old(self)@.with_regs(
                old(self)@.regs.update(
                    x as int,
                    old(self)@.regs[x as int] & old(self)@.regs[y as int],
                ),
            ),
            flow == ExecutionFlow::Next,
    {
        self.vx[x as usize] = self.vx[x as usize] & self.vx[y as usize];
        ExecutionFlow::Next
    }

    /// `8xy3`, XOR Vx, Vy: bitwise exclusive or into `Vx`.
    pub fn op_8xy3(&mut self, x: u16, y: u16) -> (flow: ExecutionFlow)
        requires
            old(self).wf(),
            x < NUM_REGISTERS,
            y < NUM_REGISTERS,
        ensures
            final(self).wf(),
            final(self)@ == old(self)@.with_regs(
                old(self)@.regs.update(
                    x as int,
                    old(self)@.regs[x as int] ^ old(self)@.regs[y as int],
                ),
            ),
            flow == ExecutionFlow::Next,
    {
        self.vx[x as usize] = self.vx[x as usize] ^ self.vx[y as usize];
        ExecutionFlow::Next
    }

    /// `8xy4`, ADD Vx, Vy: adds `Vy` to `Vx`, keeping the low byte of the
    /// sum, and leaves the carry in `VF`.
    pub fn op_8xy4(&mut self, x: u16, y: u16) -> (flow: ExecutionFlow)
        requires
            old(self).wf(),
            x < NUM_REGISTERS,
            y < NUM_REGISTERS,
        ensures
            final(self).wf(),
            final(self)@ == old(self)@.with_regs(
                add_with_carry(old(self)@.regs, x as int, y as int),
            ),
            final(self)@.regs[15] == flag(
                old(self)@.regs[x as int] + old(self)@.regs[y as int] > 255,
            ),
            x != 15 ==> final(self)@.regs[x as int] == (old(self)@.regs[x as int] + old(
                self,
            )@.regs[y as int]) % 256,
            flow == ExecutionFlow::Next,
    {
        let result: u16 = self.vx[x as usize] as u16 + self.vx[y as usize] as u16;
        self.vx[x as usize] = low_byte(result);
        self.vx[VF_REGISTER] = if result > 0xFF {
            1
        } else {
            0
        };
        ExecutionFlow::Next
    }

    /// `8xy5`, SUB Vx, Vy: notes in `VF` whether `Vx > Vy`, then subtracts
    /// `Vy` from `Vx`, wrapping around below zero.
    pub fn op_8xy5(&mut self, x: u16, y: u16) -> (flow: ExecutionFlow)
        requires
            old(self).wf(),
            x < NUM_REGISTERS,
            y < NUM_REGISTERS,
        ensures
            final(self).wf(),
            final(self)@ == old(self)@.with_regs(
                sub_with_borrow(old(self)@.regs, x as int, y as int),
            ),
            x != 15 ==> final(self)@.regs[15] == flag(
                old(self)@.regs[x as int] > old(self)@.regs[y as int],
            ),
            final(self)@.regs[x as int] == (old(self)@.regs[x as int] - old(self)@.regs[y as int])
                % 256,
            flow == ExecutionFlow::Next,
    {
        let vx: u8 = self.vx[x as usize];
        let vy: u8 = self.vx[y as usize];
        self.vx[VF_REGISTER] = if vx > vy {
            1
        } else {
            0
        };
        self.vx[x as usize] = vx.wrapping_sub(vy);
        ExecutionFlow::Next
    }

    /// `8x06`, SHR Vx: moves the low bit of `Vx` into `VF`, then shifts `Vx`
    /// right by one.
    pub fn op_8x06(&mut self, x: u16) -> (flow: ExecutionFlow)
        requires
            old(self).wf(),
            x < NUM_REGISTERS,
        ensures
            final(self).wf(),
            final(self)@ == old(self)@.with_regs(shift_right(old(self)@.regs, x as int)),
            x != 15 ==> final(self)@.regs[15] == old(self)@.regs[x as int] % 2,
            x != 15 ==> final(self)@.regs[x as int] == old(self)@.regs[x as int] / 2,
            flow == ExecutionFlow::Next,
    {
        let before: u8 = self.vx[x as usize];
        assert(before & 1 == before % 2) by (bit_vector);
        self.vx[VF_REGISTER] = before & 1;
        let flagged: u8 = self.vx[x as usize];
        assert(flagged >> 1 == flagged / 2) by (bit_vector);
        self.vx[x as usize] = flagged >> 1;
        ExecutionFlow::Next
    }

    /// `8xy7`, SUBN Vx, Vy: notes in `VF` whether `Vy > Vx`, then puts
    /// `Vy - Vx` into `Vx`, wrapping around below zero.
    pub fn op_8xy7(&mut self, x: u16, y: u16) -> (flow: ExecutionFlow)
        requires
            old(self).wf(),
            x < NUM_REGISTERS,
            y < NUM_REGISTERS,
        ensures
            final(self).wf(),
            final(self)@ == old(self)@.with_regs(
                sub_reversed(old(self)@.regs, x as int, y as int),
            ),
            x != 15 ==> final(self)@.regs[15] == flag(
                old(self)@.regs[y as int] > old(self)@.regs[x as int],
            ),
            final(self)@.regs[x as int] == (old(self)@.regs[y as int] - old(self)@.regs[x as int])
                % 256,
            flow == ExecutionFlow::Next,
    {
        let vx: u8 = self.vx[x as usize];
        let vy: u8 = self.vx[y as usize];
        self.vx[VF_REGISTER] = if vy > vx {
            1
        } else {
            0
        };
        self.vx[x as usize] = vy.wrapping_sub(vx);
        ExecutionFlow::Next
    }

    /// `8x0E`, SHL Vx: moves the high bit of `Vx` into `VF`, then shifts
    /// `Vx` left by one.
    pub fn op_8x0e(&mut self, x: u16) -> (flow: ExecutionFlow)
        requires
            old(self).wf(),
            x < NUM_REGISTERS,
        ensures
            final(self).wf(),
            final(self)@ == old(self)@.with_regs(shift_left(old(self)@.regs, x as int)),
            x != 15 ==> final(self)@.regs[15] == old(self)@.regs[x as int] / 128,
            x != 15 ==> final(self)@.regs[x as int] == (old(self)@.regs[x as int] * 2) % 256,
            flow == ExecutionFlow::Next,
    {
        let before: u8 = self.vx[x as usize];
        assert((before & 0x80) >> 7 == before / 128) by (bit_vector);
        self.vx[VF_REGISTER] = (before & 0x80) >> 7;
        let flagged: u8 = self.vx[x as usize];
        assert(flagged << 1 == (flagged * 2) % 256) by (bit_vector);
        self.vx[x as usize] = flagged << 1;
        ExecutionFlow::Next
    }

    /// `9xy0`, SNE Vx, Vy: skips the next instruction if the two registers
    /// differ.
    pub fn op_9xy0(&self, x: u16, y: u16) -> (flow: ExecutionFlow)
        requires
            x < NUM_REGISTERS,
            y < NUM_REGISTERS,
        ensures
            flow == if self@.regs[x as int] != self@.regs[y as int] {
                ExecutionFlow::SkipNext
            } else {
                ExecutionFlow::Next
            },
    {
        if self.vx[x as usize] != self.vx[y as usize] {
            return ExecutionFlow::SkipNext;
        }
        ExecutionFlow::Next
    }

    /// `Annn`, LD I, nnn: puts `nnn` into the index register.
    pub fn op_annn(&mut self, nnn: u16) -> (flow: ExecutionFlow)
        requires
            old(self).wf(),
        ensures
            final(self).wf(),
            final(self)@ == old(self)@.with_index(nnn),
            flow == ExecutionFlow::Next,
    {
        self.i = nnn;
        ExecutionFlow::Next
    }

    /// `Bnnn`, JP V0, nnn: continues at `V0 + nnn`.
    pub fn op_bnnn(&self, nnn: u16) -> (flow: ExecutionFlow)
        requires
            self@.regs[0] + nnn <= u16::MAX,
        ensures
            flow == ExecutionFlow::Jump((self@.regs[0] + nnn) as u16),
    {
        ExecutionFlow::Jump(self.vx[0] as u16 + nnn)
    }
}

/// The low eight bits of `value`.
fn low_byte(value: u16) -> (byte: u8)
    ensures
        byte == value % 256,
{
    let byte: u8 = #[verifier::truncate] (value as u8);
    assert(byte == value % 256) by (bit_vector)
        requires
            byte == value as u8,
    ;
    byte
}

} // verus!
