//! The monochrome 64x32 display and the sprite blitter.
//!
//! The display is kept in the form a host can hand to its renderer as it is:
//! one RGBA8 colour per cell, row by row. Logically it is a grid of bits; a
//! cell counts as set when it holds [`SET_COLOUR`], and a well-formed display
//! holds nothing but the two canonical colours. Contracts speak of the
//! logical grid, the view: a sequence of [`PIXEL_COUNT`] booleans in which
//! cell `(x, y)` stands at index `x + 64 * y`.
//!
//! Sprites are drawn with exclusive-or and wrap around both edges
//! independently, pixel by pixel: the pixel at sprite column `c` and row `r`
//! of a sprite placed at `(x, y)` lands on cell `((x + c) mod 64,
//! (y + r) mod 32)`.

use vstd::prelude::*;

verus! {

/// Cells per row.
pub const DISPLAY_WIDTH: usize = 64;

/// Rows.
pub const DISPLAY_HEIGHT: usize = 32;

/// Cells on the whole display.
pub const PIXEL_COUNT: usize = 2048;

/// Bytes in the frame: four per cell.
pub const FRAME_LEN: usize = 8192;

/// Pixels in one sprite row.
pub const SPRITE_WIDTH: u8 = 8;

/// The colour of a set cell.
pub const SET_COLOUR: [u8; 4] = [0xF3, 0xF3, 0xF4, 0xFF];

/// The colour of an unset cell.
pub const UNSET_COLOUR: [u8; 4] = [0x14, 0x11, 0x0F, 0xFF];

/// Whether the four bytes of `cell` in `frame` spell `colour`.
pub open spec fn cell_has_colour(frame: Seq<u8>, cell: int, colour: Seq<u8>) -> bool {
    &&& frame[4 * cell] == colour[0]
    &&& frame[4 * cell + 1] == colour[1]
    &&& frame[4 * cell + 2] == colour[2]
    &&& frame[4 * cell + 3] == colour[3]
}

/// The index of the cell on which a pixel at `(x, y)` lands, both
/// coordinates wrapped onto the display.
pub open spec fn cell_index(x: int, y: int) -> int {
    (x % 64) + (y % 32) * 64
}

/// Whether the pixel in `column` of a sprite row is on. Column 0, the
/// leftmost, is the most significant bit of the row's byte.
pub open spec fn sprite_bit(row_byte: u8, column: u8) -> bool {
    row_byte & (0x80u8 >> column) != 0
}

/// The sprite column that lands on `cell` when the sprite stands at
/// horizontal origin `x`; 8 or more when none does.
pub open spec fn column_on(x: u8, cell: int) -> int {
    ((cell % 64) - x) % 64
}

/// The sprite row that lands on `cell` when the sprite stands at vertical
/// origin `y`; the sprite's height or more when none does.
pub open spec fn row_on(y: u8, cell: int) -> int {
    ((cell / 64) - y) % 32
}

/// Whether `sprite`, placed at `(x, y)`, has a pixel that is on and lands on
/// `cell`.
pub open spec fn sprite_covers(sprite: Seq<u8>, x: u8, y: u8, cell: int) -> bool {
    let column = column_on(x, cell);
    let row = row_on(y, cell);
    column < 8 && row < sprite.len() && sprite_bit(sprite[row], column as u8)
}

/// The grid after `sprite` was drawn at `(x, y)`: every covered cell is
/// flipped, every other one is as before.
pub open spec fn drawn(pixels: Seq<bool>, sprite: Seq<u8>, x: u8, y: u8) -> Seq<bool> {
    Seq::new(pixels.len(), |cell: int| pixels[cell] != sprite_covers(sprite, x, y, cell))
}

/// Whether drawing `sprite` at `(x, y)` turns some set cell off.
pub open spec fn collides(pixels: Seq<bool>, sprite: Seq<u8>, x: u8, y: u8) -> bool {
    exists|cell: int|
        0 <= cell < pixels.len() && pixels[cell] && #[trigger] sprite_covers(sprite, x, y, cell)
}

/// The grid with every cell unset.
pub open spec fn blank() -> Seq<bool> {
    Seq::new(PIXEL_COUNT as nat, |cell: int| false)
}

/// Whether `cell` is covered by a sprite pixel that the blitter has already
/// visited when it stands before `column` of `row`.
spec fn covered_before(
    sprite: Seq<u8>,
    x: u8,
    y: u8,
    cell: int,
    row: int,
    column: int,
) -> bool {
    &&& sprite_covers(sprite, x, y, cell)
    &&& row_on(y, cell) < row || (row_on(y, cell) == row && column_on(x, cell) < column)
}

/// A cell is hit by at most one pixel of a sprite: the offsets that land on
/// it are determined by it, and it by them.
proof fn lemma_cell_of_offsets(x: u8, y: u8, row: int, column: int, cell: int)
    requires
        0 <= row < 32,
        0 <= column < 64,
        0 <= cell < PIXEL_COUNT,
    ensures
        0 <= cell_index(x + column, y + row) < PIXEL_COUNT,
        (column_on(x, cell) == column && row_on(y, cell) == row) <==> cell == cell_index(
            x + column,
            y + row,
        ),
{
}

/// The frame of a well-formed display is determined by its grid: a cell
/// holds the set colour where the grid is set, and the unset colour where
/// it is not.
pub proof fn law_frame_follows_grid(display: Display, cell: int)
    requires
        display.wf(),
        0 <= cell < PIXEL_COUNT,
    ensures
        display@[cell] ==> cell_has_colour(display.frame@, cell, SET_COLOUR@),
        !display@[cell] ==> cell_has_colour(display.frame@, cell, UNSET_COLOUR@),
{
    assert(display.cell_is_set(cell) || display.cell_is_unset(cell));
}

/// The display: [`FRAME_LEN`] bytes of RGBA8, cell `(x, y)` at byte offset
/// `(x + 64 * y) * 4`.
pub struct Display {
    pub frame: [u8; FRAME_LEN],
}

impl View for Display {
    type V = Seq<bool>;

    open spec fn view(&self) -> Seq<bool> {
        Seq::new(PIXEL_COUNT as nat, |cell: int| self.cell_is_set(cell))
    }
}

impl Display {
    /// Whether `cell` holds the colour of a set cell.
    pub open spec fn cell_is_set(self, cell: int) -> bool {
        cell_has_colour(self.frame@, cell, SET_COLOUR@)
    }

    /// Whether `cell` holds the colour of an unset cell.
    pub open spec fn cell_is_unset(self, cell: int) -> bool {
        cell_has_colour(self.frame@, cell, UNSET_COLOUR@)
    }

    /// Every cell holds one of the two canonical colours.
    pub open spec fn wf(self) -> bool {
        forall|cell: int|
            0 <= cell < PIXEL_COUNT ==> #[trigger] self.cell_is_set(cell) || self.cell_is_unset(
                cell,
            )
    }

    /// A display with every cell unset.
    pub fn new() -> (display: Display)
        ensures
            display.wf(),
            display@ == blank(),
    {
        let mut display = Display { frame: [0u8; FRAME_LEN] };
        display.clear();
        display
    }

    /// Unsets every cell, whatever the frame held.
    pub fn clear(&mut self)
        ensures
            final(self).wf(),
            final(self)@ == blank(),
    {
        let mut cell: usize = 0;
        while cell < PIXEL_COUNT
            invariant
                cell <= PIXEL_COUNT,
                forall|done: int| 0 <= done < cell ==> #[trigger] self.cell_is_unset(done),
            decreases PIXEL_COUNT - cell,
        {
            self.paint(cell, false);
            cell += 1;
        }
        assert forall|done: int| 0 <= done < PIXEL_COUNT implies !self.cell_is_set(done) by {
            assert(self.cell_is_unset(done));
        }
        assert(self@ =~= blank());
    }

    /// Writes the colour for `set` into `cell` and leaves the other cells
    /// alone.
    fn paint(&mut self, cell: usize, set: bool)
        requires
            cell < PIXEL_COUNT,
        ensures
            set ==> final(self).cell_is_set(cell as int),
            !set ==> final(self).cell_is_unset(cell as int),
            forall|other: int|
                0 <= other < PIXEL_COUNT && other != cell ==> #[trigger] final(self).cell_is_set(
                    other,
                ) == old(self).cell_is_set(other),
            forall|other: int|
                0 <= other < PIXEL_COUNT && other != cell ==> #[trigger] final(self).cell_is_unset(
                    other,
                ) == old(self).cell_is_unset(other),
    {
        let base = cell * 4;
        if set {
            self.frame[base] = SET_COLOUR[0];
            self.frame[base + 1] = SET_COLOUR[1];
            self.frame[base + 2] = SET_COLOUR[2];
            self.frame[base + 3] = SET_COLOUR[3];
        } else {
            self.frame[base] = UNSET_COLOUR[0];
            self.frame[base + 1] = UNSET_COLOUR[1];
            self.frame[base + 2] = UNSET_COLOUR[2];
            self.frame[base + 3] = UNSET_COLOUR[3];
        }
    }

    /// Whether `cell` is set.
    pub fn is_set(&self, cell: usize) -> (set: bool)
        requires
            cell < PIXEL_COUNT,
        ensures
            set == self@[cell as int],
    {
        let base = cell * 4;
        self.frame[base] == SET_COLOUR[0] && self.frame[base + 1] == SET_COLOUR[1]
            && self.frame[base + 2] == SET_COLOUR[2] && self.frame[base + 3] == SET_COLOUR[3]
    }

    /// Whether the cell at `(x, y)` is set, both coordinates wrapped onto
    /// the display.
    pub fn pixel(&self, x: usize, y: usize) -> (set: bool)
        ensures
            set == self@[cell_index(x as int, y as int)],
    {
        self.is_set((x % DISPLAY_WIDTH) + (y % DISPLAY_HEIGHT) * DISPLAY_WIDTH)
    }

    /// Flips `cell` and tells whether it was set before.
    pub fn toggle(&mut self, cell: usize) -> (was_set: bool)
        requires
            old(self).wf(),
            cell < PIXEL_COUNT,
        ensures
            final(self).wf(),
            was_set == old(self)@[cell as int],
            final(self)@ == old(self)@.update(cell as int, !was_set),
    {
        let was_set = self.is_set(cell);
        self.paint(cell, !was_set);
        assert(self.wf()) by {
            assert forall|other: int| 0 <= other < PIXEL_COUNT implies #[trigger] self.cell_is_set(
                other,
            ) || self.cell_is_unset(other) by {
                if other != cell {
                    assert(old(self).cell_is_set(other) || old(self).cell_is_unset(other));
                }
            }
        }
        assert(self@ =~= old(self)@.update(cell as int, !was_set));
        was_set
    }

    /// Draws `sprite`, one byte per row, at `(x, y)` with exclusive-or:
    /// a pixel that is on flips the cell it lands on, a pixel that is off
    /// leaves it alone. Tells whether some set cell was turned off.
    pub fn draw_sprite(&mut self, sprite: &[u8], x: u8, y: u8) -> (collision: bool)
        requires
            old(self).wf(),
            sprite@.len() <= DISPLAY_HEIGHT,
        ensures
            final(self).wf(),
            final(self)@ == drawn(old(self)@, sprite@, x, y),
            collision == collides(old(self)@, sprite@, x, y),
    {
        let mut collision = false;
        let ghost mut witness: int = 0;
        let mut row: usize = 0;
        while row < sprite.len()
            invariant
                row <= sprite@.len() <= DISPLAY_HEIGHT,
                self.wf(),
                forall|cell: int|
                    0 <= cell < PIXEL_COUNT ==> self@[cell] == (old(self)@[cell] != covered_before(
                        sprite@,
                        x,
                        y,
                        cell,
                        row as int,
                        0,
                    )),
                collision ==> 0 <= witness < PIXEL_COUNT && old(self)@[witness] && sprite_covers(
                    sprite@,
                    x,
                    y,
                    witness,
                ),
                !collision ==> forall|cell: int|
                    0 <= cell < PIXEL_COUNT && old(self)@[cell] ==> !covered_before(
                        sprite@,
                        x,
                        y,
                        cell,
                        row as int,
                        0,
                    ),
            decreases sprite@.len() - row,
        {
            let row_byte = sprite[row];
            let mut column: u8 = 0;
            while column < SPRITE_WIDTH
                invariant
                    row < sprite@.len() <= DISPLAY_HEIGHT,
                    row_byte == sprite@[row as int],
                    column <= SPRITE_WIDTH,
                    self.wf(),
                    forall|cell: int|
                        0 <= cell < PIXEL_COUNT ==> self@[cell] == (old(self)@[cell]
                            != covered_before(sprite@, x, y, cell, row as int, column as int)),
                    collision ==> 0 <= witness < PIXEL_COUNT && old(self)@[witness]
                        && sprite_covers(sprite@, x, y, witness),
                    !collision ==> forall|cell: int|
                        0 <= cell < PIXEL_COUNT && old(self)@[cell] ==> !covered_before(
                            sprite@,
                            x,
                            y,
                            cell,
                            row as int,
                            column as int,
                        ),
                decreases SPRITE_WIDTH - column,
            {
                let target = ((x as usize + column as usize) % DISPLAY_WIDTH) + ((y as usize + row)
                    % DISPLAY_HEIGHT) * DISPLAY_WIDTH;
                proof {
                    assert forall|cell: int| 0 <= cell < PIXEL_COUNT implies (column_on(x, cell)
                        == column && row_on(y, cell) == row) == (cell == target) by {
                        lemma_cell_of_offsets(x, y, row as int, column as int, cell);
                    }
                    lemma_cell_of_offsets(x, y, row as int, column as int, target as int);
                }
                if row_byte & (0x80u8 >> column) != 0 {
                    let was_set = self.toggle(target);
                    if was_set {
                        collision = true;
                        proof {
                            witness = target as int;
                        }
                    }
                }
                column += 1;
            }
            row += 1;
        }
        assert(self@ =~= drawn(old(self)@, sprite@, x, y));
        collision
    }
}

} // verus!
