//! The monochrome display buffer.

use vstd::prelude::*;

verus! {

/// Rows of the display.
pub const SCREEN_HEIGHT: usize = 32;

/// Cells per row.
pub const SCREEN_WIDTH: usize = 64;

/// Cells of the whole display.
pub const SCREEN_CELLS: usize = SCREEN_HEIGHT * SCREEN_WIDTH;

/// A display with every cell unlit.
pub open spec fn blank_screen() -> Seq<bool> {
    Seq::new(SCREEN_CELLS as nat, |i: int| false)
}

/// The display buffer, one flag per cell, row after row; `true` is lit.
pub struct Gpu {
    pub vram: [bool; SCREEN_CELLS],
}

impl View for Gpu {
    type V = Seq<bool>;

    open spec fn view(&self) -> Seq<bool> {
        self.vram@
    }
}

impl Gpu {
    /// A blank display.
    pub fn new() -> (gpu: Self)
        ensures
            gpu@ == blank_screen(),
    {
        Self { vram: [false; SCREEN_CELLS] }
    }

    /// Turns every cell off.
    pub fn clear(&mut self)
        ensures
            final(self)@ == blank_screen(),
    {
        let mut i: usize = 0;
        while i < SCREEN_CELLS
            invariant
                i <= SCREEN_CELLS,
                forall|j: int| 0 <= j < i ==> !self.vram@[j],
            decreases SCREEN_CELLS - i,
        {
            self.vram[i] = false;
            i += 1;
        }
    }
}

} // verus!
