//! The bus: everything the processor can reach, behind one handle.

use vstd::prelude::*;
use crate::gpu::Gpu;
use crate::ram::Ram;
use crate::timer::Timer;

verus! {

/// What the devices on the bus hold.
pub struct BusState {
    pub memory: Seq<u8>,
    pub delay: u8,
    pub sound: u8,
    pub display: Seq<bool>,
}

/// Memory, the two timers and the display.
pub struct SystemBus {
    pub ram: Ram,
    pub delay_timer: Timer,
    pub sound_timer: Timer,
    pub gpu: Gpu,
}

impl View for SystemBus {
    type V = BusState;

    open spec fn view(&self) -> BusState {
        BusState {
            memory: self.ram@,
            delay: self.delay_timer@,
            sound: self.sound_timer@,
            display: self.gpu@,
        }
    }
}

/// The devices at power-on: font in memory, timers at rest, display blank.
pub open spec fn initial_bus() -> BusState {
    BusState {
        memory: crate::ram::initial_memory(),
        delay: 0,
        sound: 0,
        display: crate::gpu::blank_screen(),
    }
}

impl SystemBus {
    /// A bus with every device in its power-on state.
    pub fn new() -> (bus: Self)
        ensures
            bus@ == initial_bus(),
    {
        Self {
            ram: Ram::preload(),
            delay_timer: Timer::new(),
            sound_timer: Timer::new(),
            gpu: Gpu::new(),
        }
    }
}

} // verus!
