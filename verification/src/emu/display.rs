//! A plain pixel grid. Sprites that reach beyond its right or bottom edge are cut off there;
//! the grid of the machine, `Gpu`, wraps around instead.

use crate::emu::gpu::{blank_screen, sprite_bit};
use vstd::prelude::*;

verus! {

/// Width of the grid in pixels.
pub const SCREEN_WIDTH: usize = 64;

/// Height of the grid in pixels.
pub const SCREEN_HEIGHT: usize = 32;

/// The pixels of a grid, row by row.
pub type Pixels = [bool; 2048];

/// The pixel grid.
#[derive(Debug)]
pub struct Display {
    pub pixels: Pixels,
}

/// Whether the sprite drawn at `(x, y)` flips the pixel at place `p`, counting only what
/// comes before column `columns` of sprite row `rows`. Nothing wraps: a sprite bit that
/// falls beyond an edge hits no pixel.
pub open spec fn clipped_hits_before(
    x: int,
    y: int,
    sprite: Seq<u8>,
    rows: int,
    columns: int,
    p: int,
) -> bool {
    let row = p / 64 - y;
    let column = p % 64 - x;
    &&& row < rows || (row == rows && column < columns)
    &&& 0 <= row < sprite.len()
    &&& 0 <= column < 8
    &&& sprite_bit(sprite[row], column as u8)
}

/// Whether the sprite drawn at `(x, y)` flips the pixel at place `p`.
pub open spec fn clipped_hits(x: int, y: int, sprite: Seq<u8>, p: int) -> bool {
    clipped_hits_before(x, y, sprite, sprite.len() as int, 0, p)
}

/// The grid after the sprite was drawn at `(x, y)`.
pub open spec fn clipped_blit(pixels: Seq<bool>, x: int, y: int, sprite: Seq<u8>) -> Seq<bool> {
    Seq::new(2048, |p: int| pixels[p] != clipped_hits(x, y, sprite, p))
}

/// Whether drawing the sprite at `(x, y)` turns off a pixel that is on.
pub open spec fn clipped_erases(pixels: Seq<bool>, x: int, y: int, sprite: Seq<u8>) -> bool {
    exists|p: int| 0 <= p < 2048 && pixels[p] && #[trigger] clipped_hits(x, y, sprite, p)
}

impl Display {
    /// A blank grid.
    pub fn new() -> (display: Display)
        ensures
            display.pixels@ == blank_screen(),
    {
        let display = Display { pixels: [false; 2048] };
        assert(display.pixels@ =~= blank_screen());
        display
    }

    /// Turns every pixel off.
    pub fn clear(&mut self)
        ensures
            final(self).pixels@ == blank_screen(),
    {
        self.pixels = [false; 2048];
        assert(self.pixels@ =~= blank_screen());
    }

    fn set_pixel(&mut self, x: usize, y: usize, value: bool)
        requires
            x < 64,
            y < 32,
        ensures
            final(self).pixels@ == old(self).pixels@.update(y * 64 + x, value),
    {
        self.pixels[(y * SCREEN_WIDTH) + x] = value;
    }

    fn get_pixel(&self, x: usize, y: usize) -> (pixel: bool)
        requires
            x < 64,
            y < 32,
        ensures
            pixel == self.pixels@[y * 64 + x],
    {
        self.pixels[(y * SCREEN_WIDTH) + x]
    }

    /// Flips the pixel at `(x, y)` if `new_value` is set. Returns whether the pixel went off.
    fn xor_pixel(&mut self, x: usize, y: usize, new_value: bool) -> (erased: bool)
        requires
            x < 64,
            y < 32,
        ensures
            erased == (old(self).pixels@[y * 64 + x] && new_value),
            final(self).pixels@ == old(self).pixels@.update(
                y * 64 + x,
                old(self).pixels@[y * 64 + x] != new_value,
            ),
    {
        let current = self.get_pixel(x, y);
        let new_pixel = current ^ new_value;
        self.set_pixel(x, y, new_pixel);
        current && !new_pixel
    }

    /// Draws a sprite with its top left corner at `(x, y)`: each set bit of each row flips
    /// one pixel, the most significant bit leftmost; what falls beyond the right or the
    /// bottom edge is left out. Returns 1 if any pixel that was on went off, else 0.
    pub fn draw(&mut self, x: usize, y: usize, sprite: &[u8]) -> (collision: u8)
        ensures
            final(self).pixels@ == clipped_blit(old(self).pixels@, x as int, y as int, sprite@),
            collision == if clipped_erases(old(self).pixels@, x as int, y as int, sprite@) {
                1u8
            } else {
                0u8
            },
    {
        let mut collision: u8 = 0;
        let mut row: usize = 0;
        while row < sprite.len()
            invariant
                row <= sprite@.len(),
                collision == 0 || collision == 1,
                forall|p: int|
                    0 <= p < 2048 ==> self.pixels@[p] == (old(self).pixels@[p]
                        != #[trigger] clipped_hits_before(
                        x as int,
                        y as int,
                        sprite@,
                        row as int,
                        0,
                        p,
                    )),
                collision == 1 <==> (exists|p: int|
                    0 <= p < 2048 && old(self).pixels@[p] && #[trigger] clipped_hits_before(
                        x as int,
                        y as int,
                        sprite@,
                        row as int,
                        0,
                        p,
                    )),
            decreases sprite@.len() - row,
        {
            let line = sprite[row];
            let mut column: u8 = 0;
            while column < 8
                invariant
                    row < sprite@.len(),
                    column <= 8,
                    line == sprite@[row as int],
                    collision == 0 || collision == 1,
                    forall|p: int|
                        0 <= p < 2048 ==> self.pixels@[p] == (old(self).pixels@[p]
                            != #[trigger] clipped_hits_before(
                            x as int,
                            y as int,
                            sprite@,
                            row as int,
                            column as int,
                            p,
                        )),
                    collision == 1 <==> (exists|p: int|
                        0 <= p < 2048 && old(self).pixels@[p] && #[trigger] clipped_hits_before(
                            x as int,
                            y as int,
                            sprite@,
                            row as int,
                            column as int,
                            p,
                        )),
                decreases 8 - column,
            {
                let bit = (line >> (7 - column)) & 1 == 1;
                proof {
                    lemma_next_column(x as int, y as int, sprite@, row as int, column as int);
                }
                if y < SCREEN_HEIGHT && row < SCREEN_HEIGHT - y && x < SCREEN_WIDTH
                    && (column as usize) < SCREEN_WIDTH - x {
                    if self.xor_pixel(x + column as usize, y + row, bit) {
                        collision = 1;
                    }
                }
                column += 1;
            }
            proof {
                lemma_next_row(x as int, y as int, sprite@, row as int);
            }
            row += 1;
        }
        assert(self.pixels@ =~= clipped_blit(old(self).pixels@, x as int, y as int, sprite@));
        collision
    }
}

/// Drawing one more bit of a sprite row hits at most one more pixel, and no pixel twice.
proof fn lemma_next_column(x: int, y: int, sprite: Seq<u8>, row: int, column: int)
    requires
        0 <= x,
        0 <= y,
        0 <= row < sprite.len(),
        0 <= column < 8,
    ensures
        y + row < 32 && x + column < 64 ==> {
            &&& !clipped_hits_before(x, y, sprite, row, column, (y + row) * 64 + x + column)
            &&& clipped_hits_before(x, y, sprite, row, column + 1, (y + row) * 64 + x + column)
                == sprite_bit(sprite[row], column as u8)
        },
        forall|p: int|
            #![trigger clipped_hits_before(x, y, sprite, row, column + 1, p)]
            #![trigger clipped_hits_before(x, y, sprite, row, column, p)]
            0 <= p < 2048 && !(y + row < 32 && x + column < 64 && p == (y + row) * 64 + x + column)
                ==> clipped_hits_before(x, y, sprite, row, column + 1, p) == clipped_hits_before(
                x,
                y,
                sprite,
                row,
                column,
                p,
            ),
{
}

/// What comes before the end of a sprite row is what comes before the start of the next.
proof fn lemma_next_row(x: int, y: int, sprite: Seq<u8>, row: int)
    ensures
        forall|p: int|
            #![trigger clipped_hits_before(x, y, sprite, row + 1, 0, p)]
            #![trigger clipped_hits_before(x, y, sprite, row, 8, p)]
            clipped_hits_before(x, y, sprite, row + 1, 0, p) == clipped_hits_before(
                x,
                y,
                sprite,
                row,
                8,
                p,
            ),
{
}

} // verus!
