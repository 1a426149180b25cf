//! The monochrome framebuffer and the sprite blit.

use vstd::prelude::*;
use crate::error::BoundsError;

verus! {

pub const SCREEN_WIDTH: usize = 64;

pub const SCREEN_HEIGHT: usize = 32;

/// Number of cells of the framebuffer.
pub const SCREEN_CELLS: usize = 2048;

/// Number of pixels in one sprite row.
pub const SPRITE_WIDTH: u8 = 8;

#[derive(Debug)]
pub struct Display {
    /// The cells in row-major order: the cell of column `x`, row `y` is at
    /// index `SCREEN_WIDTH * y + x`.
    pub screen: [bool; SCREEN_CELLS],
}

impl View for Display {
    type V = Seq<bool>;

    /// The framebuffer as a sequence of `SCREEN_CELLS` flags.
    open spec fn view(&self) -> Seq<bool> {
        self.screen@
    }
}

/// A framebuffer with every cell off.
pub open spec fn blank() -> Seq<bool> {
    Seq::new(SCREEN_CELLS as nat, |c: int| false)
}

/// The index of the cell in column `x`, row `y`, each coordinate wrapped at
/// its screen edge.
pub open spec fn cell(x: int, y: int) -> int {
    64 * (y % 32) + x % 64
}

/// Whether the pixel in `column` of a sprite row is set; column 0 is the
/// leftmost pixel, held in the most significant bit.
pub open spec fn sprite_bit(bits: u8, column: u8) -> bool {
    bits & (0x80u8 >> column) != 0
}

/// How many columns to the right of column `x`, wrapping, the cell `index` lies.
pub open spec fn column_offset(x: int, index: int) -> int {
    (index % 64 - x) % 64
}

/// Whether the sprite row `bits`, drawn on row `y` from column `x` on, has a
/// set pixel on the cell `index`.
pub open spec fn row_covers(bits: u8, x: int, y: int, index: int) -> bool {
    &&& index / 64 == y % 32
    &&& column_offset(x, index) < 8
    &&& sprite_bit(bits, column_offset(x, index) as u8)
}

/// The framebuffer after the sprite row `bits` is XORed onto row `y` from
/// column `x` on: exactly the cells under a set pixel change.
pub open spec fn blit_row(screen: Seq<bool>, bits: u8, x: int, y: int) -> Seq<bool> {
    Seq::new(screen.len(), |index: int| screen[index] != row_covers(bits, x, y, index))
}

/// Whether a set pixel of the sprite row lands on a cell that is on.
pub open spec fn row_collides(screen: Seq<bool>, bits: u8, x: int, y: int) -> bool {
    exists|column: u8| column < 8 && sprite_bit(bits, column) && screen[cell(x + column, y)]
}

/// The framebuffer after the rows of `sprite` are XORed onto it, the first
/// on row `y` and each next one a row further down, all from column `x` on.
pub open spec fn blit(screen: Seq<bool>, sprite: Seq<u8>, x: int, y: int) -> Seq<bool>
    decreases sprite.len(),
{
    if sprite.len() == 0 {
        screen
    } else {
        blit_row(blit(screen, sprite.drop_last(), x, y), sprite.last(), x, y + sprite.len() - 1)
    }
}

/// Whether, while the rows of `sprite` are drawn in turn, a set pixel lands
/// on a cell that is on at that moment.
pub open spec fn blit_collides(screen: Seq<bool>, sprite: Seq<u8>, x: int, y: int) -> bool
    decreases sprite.len(),
{
    if sprite.len() == 0 {
        false
    } else {
        blit_collides(screen, sprite.drop_last(), x, y) || row_collides(
            blit(screen, sprite.drop_last(), x, y),
            sprite.last(),
            x,
            y + sprite.len() - 1,
        )
    }
}

impl Display {
    pub fn new() -> (display: Display)
        ensures
            display@ == blank(),
    {
        Display { screen: [false; SCREEN_CELLS] }
    }

    /// Turns every cell off.
    pub fn clear(&mut self)
        ensures
            final(self)@ == blank(),
    {
        self.screen = [false; SCREEN_CELLS];
    }

    /// The column and the row of the cell at `idx`.
    pub fn to_xy(&self, idx: usize) -> (xy: (usize, usize))
        ensures
            xy.0 == idx % SCREEN_WIDTH,
            xy.1 == idx / SCREEN_WIDTH,
            idx < SCREEN_CELLS ==> xy.0 < SCREEN_WIDTH && xy.1 < SCREEN_HEIGHT && cell(
                xy.0 as int,
                xy.1 as int,
            ) == idx,
    {
        (idx % SCREEN_WIDTH, idx / SCREEN_WIDTH)
    }

    /// Toggles the cell at `index` and returns what it held before, or fails
    /// without a change when there is no such cell.
    pub fn flip(&mut self, index: usize) -> (r: Result<bool, BoundsError>)
        ensures
            index < SCREEN_CELLS ==> r == Ok::<bool, BoundsError>(old(self)@[index as int])
                && final(self)@ == old(self)@.update(index as int, !old(self)@[index as int]),
            index >= SCREEN_CELLS ==> r == Err::<bool, BoundsError>(BoundsError::Display)
                && final(self)@ == old(self)@,
    {
        if index < SCREEN_CELLS {
            let was_on = self.screen[index];
            self.screen[index] = !was_on;
            Ok(was_on)
        } else {
            Err(BoundsError::Display)
        }
    }

    /// XORs the sprite row `bits` onto row `y` from column `x` on, wrapping
    /// each pixel at the screen edges, and returns whether a set pixel landed
    /// on a cell that was on.
    pub fn draw_row(&mut self, bits: u8, x: u8, y: u16) -> (r: Result<bool, BoundsError>)
        ensures
            r == Ok::<bool, BoundsError>(row_collides(old(self)@, bits, x as int, y as int)),
            final(self)@ == blit_row(old(self)@, bits, x as int, y as int),
    {
        let row_start = SCREEN_WIDTH * (y as usize % SCREEN_HEIGHT);
        let mut collision = false;
        let mut column: u8 = 0;
        while column < SPRITE_WIDTH
            invariant
                column <= SPRITE_WIDTH,
                row_start == 64 * (y as int % 32),
                forall|index: int|
                    0 <= index < SCREEN_CELLS ==> self@[index] == (old(self)@[index] != (
                    row_covers(bits, x as int, y as int, index) && column_offset(x as int, index)
                        < column)),
                collision == (exists|c: u8|
                    c < column && sprite_bit(bits, c) && old(self)@[cell(x + c, y as int)]),
            decreases SPRITE_WIDTH - column,
        {
            if bits & (0x80u8 >> column) != 0 {
                let index = row_start + (x as usize + column as usize) % SCREEN_WIDTH;
                assert(index == cell(x + column, y as int));
                assert(column_offset(x as int, index as int) == column);
                assert(sprite_bit(bits, column));
                let was_on = self.flip(index)?;
                collision = collision || was_on;
            }
            column += 1;
        }
        Ok(collision)
    }
}

impl Default for Display {
    fn default() -> (display: Display)
        ensures
            display@ == blank(),
    {
        Display::new()
    }
}

} // verus!
