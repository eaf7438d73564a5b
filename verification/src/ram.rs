//! The 4 KiB of byte-addressable memory, with the built-in font at its base.

use vstd::prelude::*;

verus! {

/// Number of addressable bytes.
pub const RAM_SIZE: usize = 4096;

/// Size of the built-in font: sixteen glyphs of five bytes each.
pub const FONTS_SIZE: usize = 80;

/// The hexadecimal glyphs `0` to `F`, five rows of pixels each.
pub const FONTS: [u8; FONTS_SIZE] = [
    0xF0, 0x90, 0x90, 0x90, 0xF0,
    0x20, 0x60, 0x20, 0x20, 0x70,
    0xF0, 0x10, 0xF0, 0x80, 0xF0,
    0xF0, 0x10, 0xF0, 0x10, 0xF0,
    0x90, 0x90, 0xF0, 0x10, 0x10,
    0xF0, 0x80, 0xF0, 0x10, 0xF0,
    0xF0, 0x80, 0xF0, 0x90, 0xF0,
    0xF0, 0x10, 0x20, 0x40, 0x40,
    0xF0, 0x90, 0xF0, 0x90, 0xF0,
    0xF0, 0x90, 0xF0, 0x10, 0xF0,
    0xF0, 0x90, 0xF0, 0x90, 0x90,
    0xE0, 0x90, 0xE0, 0x90, 0xE0,
    0xF0, 0x80, 0x80, 0x80, 0xF0,
    0xE0, 0x90, 0x90, 0x90, 0xE0,
    0xF0, 0x80, 0xF0, 0x80, 0xF0,
    0xF0, 0x80, 0xF0, 0x80, 0x80,
];

/// Memory as it is before any program is loaded: the font at offset 0,
/// zeroes everywhere else.
pub open spec fn initial_memory() -> Seq<u8> {
    Seq::new(
        RAM_SIZE as nat,
        |i: int|
            if i < FONTS_SIZE {
                FONTS@[i]
            } else {
                0u8
            },
    )
}

/// `memory` with `data` laid over it from `start` on; every byte outside
/// that window keeps its value.
pub open spec fn overlaid(memory: Seq<u8>, data: Seq<u8>, start: int) -> Seq<u8> {
    Seq::new(
        memory.len(),
        |i: int|
            if start <= i < start + data.len() {
                data[i - start]
            } else {
                memory[i]
            },
    )
}

/// The machine's memory.
///
/// - `0x000..0x200` is reserved; the font lives at its base.
/// - `0x200..0x1000` holds the program and its data.
pub struct Ram {
    pub memory: [u8; RAM_SIZE],
}

impl View for Ram {
    type V = Seq<u8>;

    open spec fn view(&self) -> Seq<u8> {
        self.memory@
    }
}

impl Ram {
    /// Fresh memory, holding the font and nothing else.
    pub fn preload() -> (ram: Self)
        ensures
            ram@ == initial_memory(),
    {
        let mut ram = Self { memory: [0; RAM_SIZE] };
        let mut i: usize = 0;
        while i < FONTS_SIZE
            invariant
                i <= FONTS_SIZE,
                forall|j: int| 0 <= j < i ==> ram.memory@[j] == FONTS@[j],
                forall|j: int| i <= j < RAM_SIZE ==> ram.memory@[j] == 0,
            decreases FONTS_SIZE - i,
        {
            ram.memory[i] = FONTS[i];
            i += 1;
        }
        ram
    }

    /// The byte at `addr`.
    pub fn read(&self, addr: u16) -> (byte: u8)
        requires
            addr < RAM_SIZE,
        ensures
            byte == self@[addr as int],
    {
        self.memory[addr as usize]
    }

    /// Copies `data` into memory from `start` on.
    pub fn write_bulk(&mut self, data: &[u8], start: usize)
        requires
            start + data@.len() <= RAM_SIZE,
        ensures
            final(self)@ == overlaid(old(self)@, data@, start as int),
    {
        let len: usize = data.len();
        let mut i: usize = 0;
        while i < len
            invariant
                len == data@.len(),
                start + len <= RAM_SIZE,
                i <= len,
                forall|j: int| start <= j < start + i ==> self.memory@[j] == data@[j - start],
                forall|j: int|
                    0 <= j < RAM_SIZE && !(start <= j < start + i) ==> self.memory@[j] == old(
                        self,
                    ).memory@[j],
            decreases len - i,
        {
            self.memory[start + i] = data[i];
            i += 1;
        }
    }
}

} // verus!
