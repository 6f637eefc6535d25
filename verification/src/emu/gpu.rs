//! The frame buffer: a monochrome pixel grid that wraps around at its edges.

use vstd::prelude::*;

verus! {

/// Width of the screen in pixels.
pub const SCREEN_WIDTH: usize = 64;

/// Height of the screen in pixels.
pub const SCREEN_HEIGHT: usize = 32;

/// Number of pixels of the screen.
pub const SCREEN_PIXELS: usize = 2048;

/// The pixel grid, row by row, and a flag that is raised when a pixel changes.
pub struct Gpu {
    pub memory: [bool; 2048],
    pub pending_draw: bool,
}

/// The place in the grid of the pixel at column `x` and row `y`; both wrap around.
pub open spec fn pixel_index(x: int, y: int) -> int {
    (y % 32) * 64 + (x % 64)
}

/// The screen with every pixel off.
pub open spec fn blank_screen() -> Seq<bool> {
    Seq::new(2048, |p: int| false)
}

/// Whether the sprite row `row` sets the pixel of its column `column`; column 0 is the
/// leftmost pixel and the most significant bit.
pub open spec fn sprite_bit(row: u8, column: u8) -> bool {
    (row >> ((7 - column) as u8)) & 1 == 1
}

/// Whether the sprite drawn at `(x, y)` flips the pixel at place `p`, counting only what
/// comes before column `columns` of sprite row `rows`.
pub open spec fn sprite_hits_before(
    x: int,
    y: int,
    sprite: Seq<u8>,
    rows: int,
    columns: int,
    p: int,
) -> bool {
    let row = (p / 64 - y) % 32;
    let column = (p % 64 - x) % 64;
    &&& row < rows || (row == rows && column < columns)
    &&& row < sprite.len()
    &&& column < 8
    &&& sprite_bit(sprite[row], column as u8)
}

/// Whether the sprite drawn at `(x, y)` flips the pixel at place `p`.
pub open spec fn sprite_hits(x: int, y: int, sprite: Seq<u8>, p: int) -> bool {
    sprite_hits_before(x, y, sprite, sprite.len() as int, 0, p)
}

/// The screen after the sprite was drawn at `(x, y)`: each pixel that the sprite hits is
/// flipped.
pub open spec fn blit(screen: Seq<bool>, x: int, y: int, sprite: Seq<u8>) -> Seq<bool> {
    Seq::new(2048, |p: int| screen[p] != sprite_hits(x, y, sprite, p))
}

/// Whether drawing the sprite at `(x, y)` turns off a pixel that is on.
pub open spec fn erases(screen: Seq<bool>, x: int, y: int, sprite: Seq<u8>) -> bool {
    exists|p: int| 0 <= p < 2048 && screen[p] && #[trigger] sprite_hits(x, y, sprite, p)
}

/// Whether drawing the sprite at `(x, y)` changes any pixel.
pub open spec fn marks(x: int, y: int, sprite: Seq<u8>) -> bool {
    exists|p: int| 0 <= p < 2048 && #[trigger] sprite_hits(x, y, sprite, p)
}

/// The place in the grid of the pixel at `(x, y)`.
pub fn index(x: usize, y: usize) -> (place: usize)
    ensures
        place == pixel_index(x as int, y as int),
        place < 2048,
{
    (y % SCREEN_HEIGHT) * SCREEN_WIDTH + (x % SCREEN_WIDTH)
}

impl Gpu {
    /// A blank screen.
    pub fn new() -> (gpu: Gpu)
        ensures
            gpu.memory@ == blank_screen(),
            !gpu.pending_draw,
    {
        let gpu = Gpu { memory: [false; 2048], pending_draw: false };
        assert(gpu.memory@ =~= blank_screen());
        gpu
    }

    /// Turns every pixel off and lowers the flag.
    pub fn clear(&mut self)
        ensures
            final(self).memory@ == blank_screen(),
            !final(self).pending_draw,
    {
        self.memory = [false; 2048];
        self.pending_draw = false;
        assert(self.memory@ =~= blank_screen());
    }

    /// The pixel at `(x, y)`.
    pub fn get(&self, x: usize, y: usize) -> (pixel: bool)
        ensures
            pixel == self.memory@[pixel_index(x as int, y as int)],
    {
        self.memory[index(x, y)]
    }

    /// Sets the pixel at `(x, y)`; the flag is raised if the pixel changes.
    pub fn set(&mut self, x: usize, y: usize, value: bool)
        ensures
            final(self).memory@ == old(self).memory@.update(
                pixel_index(x as int, y as int),
                value,
            ),
            final(self).pending_draw == (old(self).pending_draw || old(self).memory@[pixel_index(
                x as int,
                y as int,
            )] != value),
    {
        let place = index(x, y);
        self.pending_draw = self.pending_draw || self.memory[place] != value;
        self.memory[place] = value;
    }

    /// Flips the pixel at `(x, y)` if `value` is set. Returns whether the pixel was on before.
    pub fn toggle(&mut self, x: usize, y: usize, value: bool) -> (was_set: bool)
        ensures
            was_set == old(self).memory@[pixel_index(x as int, y as int)],
            final(self).memory@ == old(self).memory@.update(
                pixel_index(x as int, y as int),
                was_set != value,
            ),
            final(self).pending_draw == (old(self).pending_draw || value),
    {
        let current = self.get(x, y);
        self.set(x, y, current ^ value);
        current
    }

    /// Draws a sprite of up to 32 rows with its top left corner at `(x, y)`: each set bit of
    /// each row flips one pixel, the most significant bit leftmost, wrapping around at the
    /// edges. Returns whether any pixel that was on went off. The flag is raised if any
    /// pixel changes.
    pub fn draw(&mut self, x: usize, y: usize, bytes: &[u8]) -> (collision: bool)
        requires
            bytes@.len() <= SCREEN_HEIGHT,
        ensures
            final(self).memory@ == blit(old(self).memory@, x as int, y as int, bytes@),
            collision == erases(old(self).memory@, x as int, y as int, bytes@),
            collision <==> exists|p: int|
                0 <= p < 2048 && old(self).memory@[p] && !#[trigger] final(self).memory@[p],
            final(self).pending_draw == (old(self).pending_draw || marks(
                x as int,
                y as int,
                bytes@,
            )),
    {
        let left = x % SCREEN_WIDTH;
        let top = y % SCREEN_HEIGHT;
        let mut collision = false;
        let mut row: usize = 0;
        while row < bytes.len()
            invariant
                row <= bytes@.len() <= 32,
                left == x % 64,
                top == y % 32,
                forall|p: int|
                    0 <= p < 2048 ==> self.memory@[p] == (old(self).memory@[p]
                        != #[trigger] sprite_hits_before(
                        x as int,
                        y as int,
                        bytes@,
                        row as int,
                        0,
                        p,
                    )),
                collision == (exists|p: int|
                    0 <= p < 2048 && old(self).memory@[p] && #[trigger] sprite_hits_before(
                        x as int,
                        y as int,
                        bytes@,
                        row as int,
                        0,
                        p,
                    )),
                self.pending_draw == (old(self).pending_draw || exists|p: int|
                    0 <= p < 2048 && #[trigger] sprite_hits_before(
                        x as int,
                        y as int,
                        bytes@,
                        row as int,
                        0,
                        p,
                    )),
            decreases bytes@.len() - row,
        {
            let line = bytes[row];
            let mut column: u8 = 0;
            while column < 8
                invariant
                    row < bytes@.len() <= 32,
                    column <= 8,
                    line == bytes@[row as int],
                    left == x % 64,
                    top == y % 32,
                    forall|p: int|
                        0 <= p < 2048 ==> self.memory@[p] == (old(self).memory@[p]
                            != #[trigger] sprite_hits_before(
                            x as int,
                            y as int,
                            bytes@,
                            row as int,
                            column as int,
                            p,
                        )),
                    collision == (exists|p: int|
                        0 <= p < 2048 && old(self).memory@[p] && #[trigger] sprite_hits_before(
                            x as int,
                            y as int,
                            bytes@,
                            row as int,
                            column as int,
                            p,
                        )),
                    self.pending_draw == (old(self).pending_draw || exists|p: int|
                        0 <= p < 2048 && #[trigger] sprite_hits_before(
                            x as int,
                            y as int,
                            bytes@,
                            row as int,
                            column as int,
                            p,
                        )),
                decreases 8 - column,
            {
                let bit = (line >> (7 - column)) & 1 == 1;
                proof {
                    lemma_next_column(x as int, y as int, bytes@, row as int, column as int);
                }
                let was_set = self.toggle(left + column as usize, top + row, bit);
                collision = collision || (was_set && bit);
                column += 1;
            }
            proof {
                lemma_next_row(x as int, y as int, bytes@, row as int);
            }
            row += 1;
        }
        assert(self.memory@ =~= blit(old(self).memory@, x as int, y as int, bytes@));
        collision
    }
}

/// Drawing one more bit of a sprite row hits one more pixel, and no pixel twice.
proof fn lemma_next_column(x: int, y: int, sprite: Seq<u8>, row: int, column: int)
    requires
        0 <= x,
        0 <= y,
        0 <= row < sprite.len() <= 32,
        0 <= column < 8,
    ensures
        0 <= pixel_index(x % 64 + column, y % 32 + row) < 2048,
        !sprite_hits_before(
            x,
            y,
            sprite,
            row,
            column,
            pixel_index(x % 64 + column, y % 32 + row),
        ),
        sprite_hits_before(
            x,
            y,
            sprite,
            row,
            column + 1,
            pixel_index(x % 64 + column, y % 32 + row),
        ) == sprite_bit(sprite[row], column as u8),
        forall|p: int|
            #![trigger sprite_hits_before(x, y, sprite, row, column + 1, p)]
            #![trigger sprite_hits_before(x, y, sprite, row, column, p)]
            0 <= p < 2048 && p != pixel_index(x % 64 + column, y % 32 + row)
                ==> sprite_hits_before(x, y, sprite, row, column + 1, p) == sprite_hits_before(
                x,
                y,
                sprite,
                row,
                column,
                p,
            ),
{
}

/// What comes before the end of a sprite row is what comes before the start of the next.
proof fn lemma_next_row(x: int, y: int, sprite: Seq<u8>, row: int)
    ensures
        forall|p: int|
            #![trigger sprite_hits_before(x, y, sprite, row + 1, 0, p)]
            #![trigger sprite_hits_before(x, y, sprite, row, 8, p)]
            sprite_hits_before(x, y, sprite, row + 1, 0, p) == sprite_hits_before(
                x,
                y,
                sprite,
                row,
                8,
                p,
            ),
{
}

/// Drawing turns a pixel off exactly where the pixel is on and the sprite hits it: the
/// collision is that some pixel goes from on to off.
pub proof fn lemma_collision_is_erasure(screen: Seq<bool>, x: int, y: int, sprite: Seq<u8>)
    requires
        screen.len() == 2048,
    ensures
        erases(screen, x, y, sprite) <==> exists|p: int|
            0 <= p < 2048 && screen[p] && !#[trigger] blit(screen, x, y, sprite)[p],
{
    if erases(screen, x, y, sprite) {
        let p = choose|p: int| 0 <= p < 2048 && screen[p] && sprite_hits(x, y, sprite, p);
        assert(!blit(screen, x, y, sprite)[p]);
    }
}

/// Drawing a sprite twice at the same place gives back the screen as it was.
pub proof fn lemma_blit_twice(screen: Seq<bool>, x: int, y: int, sprite: Seq<u8>)
    requires
        screen.len() == 2048,
    ensures
        blit(blit(screen, x, y, sprite), x, y, sprite) == screen,
{
    assert(blit(blit(screen, x, y, sprite), x, y, sprite) =~= screen);
}

/// On a blank screen no sprite collides.
pub proof fn lemma_blank_screen_never_collides(x: int, y: int, sprite: Seq<u8>)
    ensures
        !erases(blank_screen(), x, y, sprite),
{
}

} // verus!
