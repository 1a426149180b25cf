//! The flat byte store of the machine.

use vstd::prelude::*;
use crate::error::BoundsError;

verus! {

/// Number of addressable bytes.
pub const MEMORY_SIZE: usize = 4096;

/// Number of bytes in the font table: 16 glyphs of 5 bytes.
pub const FONT_SIZE: usize = 80;

#[derive(Debug)]
pub struct Ram {
    pub memory: [u8; MEMORY_SIZE],
}

impl View for Ram {
    type V = Seq<u8>;

    /// The memory as a sequence of `MEMORY_SIZE` bytes, indexed by address.
    open spec fn view(&self) -> Seq<u8> {
        self.memory@
    }
}

/// A memory of `MEMORY_SIZE` zero bytes.
pub open spec fn zeroed_memory() -> Seq<u8> {
    Seq::new(MEMORY_SIZE as nat, |a: int| 0u8)
}

/// `memory` with `bytes` copied in from address `start` on.
pub open spec fn with_bytes(memory: Seq<u8>, start: int, bytes: Seq<u8>) -> Seq<u8> {
    Seq::new(
        memory.len(),
        |a: int| if start <= a < start + bytes.len() { bytes[a - start] } else { memory[a] },
    )
}

impl Ram {
    pub fn new() -> (ram: Ram)
        ensures
            ram@ == zeroed_memory(),
    {
        Ram { memory: [0u8; MEMORY_SIZE] }
    }

    /// Copies the font table to addresses `[0, FONT_SIZE)`.
    pub fn load_fontset(&mut self, font_set: [u8; FONT_SIZE])
        ensures
            final(self)@ == with_bytes(old(self)@, 0, font_set@),
    {
        let mut i: usize = 0;
        while i < FONT_SIZE
            invariant
                i <= FONT_SIZE,
                self@.len() == MEMORY_SIZE,
                forall|a: int| 0 <= a < i ==> self@[a] == font_set@[a],
                forall|a: int| i <= a < MEMORY_SIZE ==> self@[a] == old(self)@[a],
            decreases FONT_SIZE - i,
        {
            self.memory[i] = font_set[i];
            i += 1;
        }
    }

    /// Copies `bytes` to the addresses from `start` on, or fails without
    /// writing when they do not all lie in memory.
    pub fn write_block(&mut self, start: u16, bytes: &[u8]) -> (r: Result<(), BoundsError>)
        ensures
            start + bytes@.len() <= MEMORY_SIZE ==> r is Ok && final(self)@ == with_bytes(
                old(self)@,
                start as int,
                bytes@,
            ),
            start + bytes@.len() > MEMORY_SIZE ==> r == Err::<(), BoundsError>(BoundsError::Memory)
                && final(self)@ == old(self)@,
    {
        if start as usize > MEMORY_SIZE || bytes.len() > MEMORY_SIZE - start as usize {
            return Err(BoundsError::Memory);
        }
        let mut i: usize = 0;
        while i < bytes.len()
            invariant
                i <= bytes.len(),
                start + bytes@.len() <= MEMORY_SIZE,
                self@ == with_bytes(old(self)@, start as int, bytes@.subrange(0, i as int)),
            decreases bytes.len() - i,
        {
            self.memory[start as usize + i] = bytes[i];
            i += 1;
        }
        assert(bytes@.subrange(0, bytes@.len() as int) == bytes@);
        Ok(())
    }

    /// Stores `value` at `addr`, or fails without writing when `addr` is out of range.
    pub fn write(&mut self, addr: u16, value: u8) -> (r: Result<(), BoundsError>)
        ensures
            addr < MEMORY_SIZE ==> r is Ok && final(self)@ == old(self)@.update(addr as int, value),
            addr >= MEMORY_SIZE ==> r == Err::<(), BoundsError>(BoundsError::Memory) && final(self)@
                == old(self)@,
    {
        if (addr as usize) < MEMORY_SIZE {
            self.memory[addr as usize] = value;
            Ok(())
        } else {
            Err(BoundsError::Memory)
        }
    }

    /// The byte at `addr`, or a failure when `addr` is out of range.
    pub fn read(&self, addr: u16) -> (r: Result<u8, BoundsError>)
        ensures
            addr < MEMORY_SIZE ==> r == Ok::<u8, BoundsError>(self@[addr as int]),
            addr >= MEMORY_SIZE ==> r == Err::<u8, BoundsError>(BoundsError::Memory),
    {
        if (addr as usize) < MEMORY_SIZE {
            Ok(self.memory[addr as usize])
        } else {
            Err(BoundsError::Memory)
        }
    }
}

impl Default for Ram {
    fn default() -> (ram: Ram)
        ensures
            ram@ == zeroed_memory(),
    {
        Ram::new()
    }
}

} // verus!
