//! The run loop: paces instructions against timer ticks.
//!
//! Two rates are configured, one for instructions and one for the timers.
//! The timers are not driven by a clock of their own: they tick once every
//! so many instructions, so that the two cadences cannot drift apart.

use vstd::prelude::*;
use crate::cpu::START_ADDR;
use crate::emulator::{Chip8Emulator, PROGRAM_CAPACITY};
use crate::semantics::{
    machine_fault, machine_loaded, machine_stepped, ExecutionFault, MachineState,
};
use crate::system_bus::BusState;
use crate::timer::{ticked, ticked_n};

verus! {

/// Instructions between two timer ticks: `cpu_hz / timer_hz`, rounded up.
///
/// With a timer rate of zero the quotient has no bound: the period is then
/// the largest count there is, or zero when the instruction rate is zero
/// as well.
pub open spec fn spec_cycles_per_tick(cpu_hz: int, timer_hz: int) -> int {
    if timer_hz == 0 {
        if cpu_hz == 0 {
            0
        } else {
            usize::MAX as int
        }
    } else if cpu_hz % timer_hz == 0 {
        cpu_hz / timer_hz
    } else {
        cpu_hz / timer_hz + 1
    }
}

/// Where the timer rate is not zero, the period is the ceiling of the
/// quotient of the rates: the least count of instructions that takes at
/// least as long as one timer tick.
pub proof fn lemma_cycles_per_tick_is_ceiling(cpu_hz: int, timer_hz: int)
    requires
        0 <= cpu_hz,
        0 < timer_hz,
    ensures
        spec_cycles_per_tick(cpu_hz, timer_hz) * timer_hz >= cpu_hz,
        (spec_cycles_per_tick(cpu_hz, timer_hz) - 1) * timer_hz < cpu_hz,
        0 <= spec_cycles_per_tick(cpu_hz, timer_hz) <= cpu_hz,
        cpu_hz > 0 ==> spec_cycles_per_tick(cpu_hz, timer_hz) >= 1,
{
    let q: int = cpu_hz / timer_hz;
    let r: int = cpu_hz % timer_hz;
    vstd::arithmetic::div_mod::lemma_fundamental_div_mod(cpu_hz, timer_hz);
    vstd::arithmetic::div_mod::lemma_div_pos_is_pos(cpu_hz, timer_hz);
    assert(cpu_hz == timer_hz * q + r);
    assert(timer_hz * q == q * timer_hz) by (nonlinear_arith);
    assert((q + 1) * timer_hz == q * timer_hz + timer_hz) by (nonlinear_arith);
    assert((q - 1) * timer_hz == q * timer_hz - timer_hz) by (nonlinear_arith);
    assert(q <= cpu_hz) by (nonlinear_arith)
        requires
            cpu_hz == q * timer_hz + r,
            0 <= r,
            0 <= q,
            timer_hz >= 1,
    ;
    if r != 0 {
        assert(q + 1 <= cpu_hz) by (nonlinear_arith)
            requires
                cpu_hz == q * timer_hz + r,
                0 < r < timer_hz,
                0 <= q,
        ;
    }
}

/// Computes the number of instructions between two timer ticks.
pub fn cycles_per_tick(cpu_hz: usize, timer_hz: usize) -> (cycles: usize)
    ensures
        cycles == spec_cycles_per_tick(cpu_hz as int, timer_hz as int),
{
    if timer_hz == 0 {
        if cpu_hz == 0 {
            0
        } else {
            usize::MAX
        }
    } else if cpu_hz % timer_hz == 0 {
        cpu_hz / timer_hz
    } else {
        proof {
            lemma_cycles_per_tick_is_ceiling(cpu_hz as int, timer_hz as int);
        }
        cpu_hz / timer_hz + 1
    }
}

/// What the run loop holds between two iterations.
pub struct RunLoopState {
    /// The machine being driven.
    pub machine: MachineState,
    /// Timer ticks per second.
    pub timer_hz: usize,
    /// Instructions per second.
    pub cpu_hz: usize,
    /// Instructions run since the last timer tick.
    pub cpu_cycles: usize,
}

impl RunLoopState {
    /// Instructions between two timer ticks at the configured rates.
    pub open spec fn period(self) -> int {
        spec_cycles_per_tick(self.cpu_hz as int, self.timer_hz as int)
    }

    /// Whether the next iteration starts with a timer tick.
    pub open spec fn tick_due(self) -> bool {
        self.cpu_cycles == self.period()
    }

    /// The counter has not run past the period.
    pub open spec fn wf(self) -> bool {
        self.machine.cpu.wf() && self.cpu_cycles <= self.period()
    }
}

/// `machine` with both timers counted down once.
pub open spec fn timers_ticked(machine: MachineState) -> MachineState {
    MachineState {
        bus: BusState {
            delay: ticked(machine.bus.delay),
            sound: ticked(machine.bus.sound),
            ..machine.bus
        },
        ..machine
    }
}

/// The state one iteration later. If a tick is due, both timers count down
/// and the cycle counter starts over; then one instruction runs and is
/// counted.
pub open spec fn advanced(state: RunLoopState) -> RunLoopState {
    if state.tick_due() {
        RunLoopState {
            machine: machine_stepped(timers_ticked(state.machine)),
            cpu_cycles: 1,
            ..state
        }
    } else {
        RunLoopState {
            machine: machine_stepped(state.machine),
            cpu_cycles: (state.cpu_cycles + 1) as usize,
            ..state
        }
    }
}

/// The state `n` iterations later.
pub open spec fn advanced_n(state: RunLoopState, n: nat) -> RunLoopState
    decreases n,
{
    if n == 0 {
        state
    } else {
        advanced_n(advanced(state), (n - 1) as nat)
    }
}

/// The cadence of the timers. Let the period be `p`, at least one, and let
/// `c` instructions have run since the last tick. Over the next `n`
/// iterations the timers tick `(c + n - 1) / p` times, no more and no less,
/// and the counter ends at `(c + n - 1) % p + 1`. From a fresh loop that is
/// no tick during the first `p` iterations and one with every `p`-th after
/// them; instructions never move a timer.
pub proof fn lemma_cadence(state: RunLoopState, n: nat)
    requires
        state.period() >= 1,
        state.cpu_cycles <= state.period(),
        n >= 1,
    ensures
        ({
            let later = advanced_n(state, n);
            let ticks = (state.cpu_cycles + n - 1) / state.period();
            &&& ticks >= 0
            &&& later.timer_hz == state.timer_hz
            &&& later.cpu_hz == state.cpu_hz
            &&& later.cpu_cycles == (state.cpu_cycles + n - 1) % state.period() + 1
            &&& later.machine.bus.delay == ticked_n(state.machine.bus.delay, ticks as nat)
            &&& later.machine.bus.sound == ticked_n(state.machine.bus.sound, ticks as nat)
        }),
    decreases n,
{
    let p: int = state.period();
    let c: int = state.cpu_cycles as int;
    let delay: u8 = state.machine.bus.delay;
    let sound: u8 = state.machine.bus.sound;
    let next = advanced(state);
    if state.timer_hz > 0 {
        lemma_cycles_per_tick_is_ceiling(state.cpu_hz as int, state.timer_hz as int);
    }
    assert(p <= usize::MAX);
    if state.tick_due() {
        vstd::arithmetic::div_mod::lemma_div_plus_one(n - 1, p);
        vstd::arithmetic::div_mod::lemma_mod_add_multiples_vanish(n - 1, p);
        vstd::arithmetic::div_mod::lemma_div_pos_is_pos(n - 1, p);
        assert(c + n - 1 == p + (n - 1));
        let rest: nat = ((n - 1) / p) as nat;
        assert(ticked_n(delay, rest + 1) == ticked_n(ticked(delay), rest));
        assert(ticked_n(sound, rest + 1) == ticked_n(ticked(sound), rest));
        if n == 1 {
            assert(advanced_n(next, 0) == next);
            vstd::arithmetic::div_mod::lemma_basic_div(0, p);
            vstd::arithmetic::div_mod::lemma_small_mod(0, p as nat);
        } else {
            lemma_cadence(next, (n - 1) as nat);
        }
    } else {
        assert(next.cpu_cycles == c + 1);
        if n == 1 {
            assert(advanced_n(next, 0) == next);
            vstd::arithmetic::div_mod::lemma_basic_div(c, p);
            vstd::arithmetic::div_mod::lemma_small_mod(c as nat, p as nat);
        } else {
            lemma_cadence(next, (n - 1) as nat);
        }
    }
}

/// A machine together with the rates it is run at.
pub struct RunLoop {
    emulator: Chip8Emulator,
    timer_hz: usize,
    cpu_hz: usize,
    cycles_per_tick: usize,
    cpu_cycles: usize,
}

impl View for RunLoop {
    type V = RunLoopState;

    closed spec fn view(&self) -> RunLoopState {
        RunLoopState {
            machine: self.emulator@,
            timer_hz: self.timer_hz,
            cpu_hz: self.cpu_hz,
            cpu_cycles: self.cpu_cycles,
        }
    }
}

impl RunLoop {
    /// The machine is well formed, the stored period is the one the rates
    /// give, and the cycle counter has not run past it.
    pub closed spec fn wf(&self) -> bool {
        &&& self.emulator.wf()
        &&& self.cycles_per_tick == spec_cycles_per_tick(self.cpu_hz as int, self.timer_hz as int)
        &&& self.cpu_cycles <= self.cycles_per_tick
    }

    /// A well-formed run loop has a well-formed state.
    pub proof fn lemma_view_wf(&self)
        requires
            self.wf(),
        ensures
            self@.wf(),
    {
        self.emulator.cpu.lemma_view_wf();
    }

    /// A run loop around a machine at power-on.
    pub fn new(timer_hz: usize, cpu_hz: usize) -> (run_loop: Self)
        ensures
            run_loop.wf(),
            run_loop@ == (RunLoopState {
                machine: crate::semantics::initial_machine(),
                timer_hz,
                cpu_hz,
                cpu_cycles: 0,
            }),
    {
        Self::with_emulator(Chip8Emulator::new(), timer_hz, cpu_hz)
    }

    /// A run loop around a machine that was prepared beforehand.
    pub fn with_emulator(emulator: Chip8Emulator, timer_hz: usize, cpu_hz: usize) -> (run_loop:
        Self)
        requires
            emulator.wf(),
        ensures
            run_loop.wf(),
            run_loop@ == (RunLoopState { machine: emulator@, timer_hz, cpu_hz, cpu_cycles: 0 }),
    {
        Self {
            emulator,
            timer_hz,
            cpu_hz,
            cycles_per_tick: cycles_per_tick(cpu_hz, timer_hz),
            cpu_cycles: 0,
        }
    }

    /// The machine being driven.
    pub fn emulator(&self) -> (emulator: &Chip8Emulator)
        requires
            self.wf(),
        ensures
            emulator.wf(),
            emulator@ == self@.machine,
    {
        &self.emulator
    }

    /// Timer ticks per second.
    pub fn timer_hz(&self) -> (timer_hz: usize)
        ensures
            timer_hz == self@.timer_hz,
    {
        self.timer_hz
    }

    /// Instructions per second.
    pub fn cpu_hz(&self) -> (cpu_hz: usize)
        ensures
            cpu_hz == self@.cpu_hz,
    {
        self.cpu_hz
    }

    /// Instructions between two timer ticks.
    pub fn cycles_per_tick(&self) -> (cycles: usize)
        requires
            self.wf(),
        ensures
            cycles == self@.period(),
    {
        self.cycles_per_tick
    }

    /// Instructions run since the last timer tick.
    pub fn cpu_cycles(&self) -> (cycles: usize)
        ensures
            cycles == self@.cpu_cycles,
    {
        self.cpu_cycles
    }

    /// Copies a program image into memory, from the start of program space
    /// on. Nothing else changes.
    pub fn load_rom(&mut self, image: &[u8])
        requires
            old(self).wf(),
            image@.len() <= PROGRAM_CAPACITY,
        ensures
            final(self).wf(),
            final(self)@ == (RunLoopState {
                machine: machine_loaded(old(self)@.machine, image@, START_ADDR as int),
                ..old(self)@
            }),
    {
        self.emulator.load_rom(image);
    }

    /// The fault, if any, that stands in the way of the next iteration.
    pub fn fault(&self) -> (fault: Option<ExecutionFault>)
        requires
            self.wf(),
        ensures
            fault == machine_fault(self@.machine),
    {
        self.emulator.fault()
    }

    /// One iteration of the loop, without the pause that follows it: ticks
    /// the timers if a tick is due, then runs one instruction and counts it.
    pub fn advance(&mut self)
        requires
            old(self).wf(),
            old(self)@.cpu_hz > 0,
            machine_fault(old(self)@.machine) is None,
        ensures
            final(self).wf(),
            final(self)@ == advanced(old(self)@),
    {
        proof {
            if self.timer_hz > 0 {
                lemma_cycles_per_tick_is_ceiling(self.cpu_hz as int, self.timer_hz as int);
            }
        }
        if self.cpu_cycles == self.cycles_per_tick {
            self.emulator.system_bus.delay_timer.decrement();
            self.emulator.system_bus.sound_timer.decrement();
            self.cpu_cycles = 0;
        }
        self.emulator.run_cycle();
        self.cpu_cycles += 1;
    }

    /// One iteration if none of the faults stands in its way; otherwise
    /// reports the fault and leaves everything untouched.
    pub fn try_advance(&mut self) -> (result: Result<(), ExecutionFault>)
        requires
            old(self).wf(),
            old(self)@.cpu_hz > 0,
        ensures
            final(self).wf(),
            match result {
                Ok(_) => machine_fault(old(self)@.machine) is None && final(self)@ == advanced(
                    old(self)@,
                ),
                Err(fault) => machine_fault(old(self)@.machine) == Some(fault) && final(self)@
                    == old(self)@,
            },
    {
        match self.fault() {
            Some(fault) => Err(fault),
            None => {
                self.advance();
                Ok(())
            },
        }
    }
}

} // verus!
