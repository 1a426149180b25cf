//! The failures that the interpreter reports to its host.

use vstd::prelude::*;

verus! {

/// A fetched word that matches no instruction form. It carries the word's four
/// nibbles, most significant first.
#[derive(Clone, Copy, Debug, PartialEq, Eq)]
pub struct DecodeError {
    pub nibbles: (u8, u8, u8, u8),
}

/// An access outside the valid range of one of the machine's components.
#[derive(Clone, Copy, Debug, PartialEq, Eq)]
pub enum BoundsError {
    /// A memory address at or beyond the capacity.
    Memory,
    /// A push onto a full call stack, or a pop from an empty one.
    Stack,
    /// A register index above 15.
    Register,
    /// A key code above 15.
    Keyboard,
    /// A framebuffer index at or beyond the number of cells.
    Display,
}

/// A program that does not fit between the load address and the end of memory.
#[derive(Clone, Copy, Debug, PartialEq, Eq)]
pub struct LoadError {
    /// The length of the rejected program, in bytes.
    pub length: usize,
}

/// What can end a cycle early.
#[derive(Clone, Copy, Debug, PartialEq, Eq)]
pub enum StepError {
    Decode(DecodeError),
    Bounds(BoundsError),
}

} // verus!
