//! The monochrome framebuffer and the sprite-drawing algorithm.

use crate::config::DisplayMode;
use vstd::prelude::*;

verus! {

/// Columns of the low-resolution framebuffer.
pub const SCREEN_WIDTH: usize = 64;

/// Rows of the low-resolution framebuffer.
pub const SCREEN_HEIGHT: usize = 32;

/// A sprite together with the place it is drawn at.
///
/// Each row is one word whose most significant used bit is the leftmost
/// pixel: a narrow sprite uses the low 8 bits of a row word, a wide one all 16.
pub struct Sprite {
    /// Column of the sprite's left edge.
    pub x: int,
    /// Row of the sprite's top edge.
    pub y: int,
    /// Whether a row holds 16 pixels instead of 8.
    pub wide: bool,
    /// The row words, top to bottom.
    pub rows: Seq<u16>,
}

impl Sprite {
    /// The number of pixels in one row.
    pub open spec fn columns(self) -> int {
        if self.wide {
            16
        } else {
            8
        }
    }

    /// Whether the sprite's own pixel at (`row`, `col`) is set.
    pub open spec fn bit(self, row: int, col: int) -> bool {
        (self.rows[row] >> ((self.columns() - 1 - col) as usize)) & 1u16 != 0
    }

    /// Whether the sprite has a set pixel over screen position (`x`, `y`).
    pub open spec fn lit(self, x: int, y: int) -> bool {
        &&& self.x <= x < self.x + self.columns()
        &&& self.y <= y < self.y + self.rows.len()
        &&& self.bit(y - self.y, x - self.x)
    }
}

/// The contents of a framebuffer: its mode and its cells in row-major order.
#[verifier::ext_equal]
pub struct Screen {
    /// The resolution.
    pub mode: DisplayMode,
    /// One boolean per cell, row after row; `true` is a set pixel.
    pub cells: Seq<bool>,
}

impl Screen {
    /// The cells number exactly as many as the mode has positions.
    pub open spec fn valid(self) -> bool {
        self.cells.len() == self.mode.columns() * self.mode.rows()
    }

    /// The screen of `mode` with every cell unset.
    pub open spec fn blank(mode: DisplayMode) -> Screen {
        Screen { mode, cells: Seq::new((mode.columns() * mode.rows()) as nat, |i: int| false) }
    }

    /// The cell at column `x` of row `y`.
    pub open spec fn pixel(self, x: int, y: int) -> bool {
        self.cells[y * self.mode.columns() + x]
    }

    /// Whether `sprite` has a set pixel over cell `i`.
    pub open spec fn covered(self, sprite: Sprite, i: int) -> bool {
        sprite.lit(i % self.mode.columns(), i / self.mode.columns())
    }

    /// The screen after `sprite` is drawn: every cell under a set sprite pixel
    /// is toggled and every other cell is kept. Sprite pixels that fall beyond
    /// the right or bottom edge touch no cell.
    pub open spec fn draw(self, sprite: Sprite) -> Screen {
        Screen {
            mode: self.mode,
            cells: Seq::new(
                self.cells.len(),
                |i: int| self.cells[i] != self.covered(sprite, i),
            ),
        }
    }

    /// Drawing `sprite` turns cell `i` off.
    pub open spec fn erased_at(self, sprite: Sprite, i: int) -> bool {
        0 <= i < self.cells.len() && self.cells[i] && self.covered(sprite, i)
    }

    /// Drawing `sprite` turns cell `i` on.
    pub open spec fn set_at(self, sprite: Sprite, i: int) -> bool {
        0 <= i < self.cells.len() && !self.cells[i] && self.covered(sprite, i)
    }

    /// Whether drawing `sprite` turns at least one set cell off.
    pub open spec fn collides(self, sprite: Sprite) -> bool {
        exists|i: int| self.erased_at(sprite, i)
    }

    /// Whether drawing `sprite` turns at least one unset cell on.
    pub open spec fn sets_any(self, sprite: Sprite) -> bool {
        exists|i: int| self.set_at(sprite, i)
    }
}

/// Splits a cell index into its column and row.
proof fn lemma_cell_coordinates(mode: DisplayMode, i: int)
    requires
        0 <= i < mode.columns() * mode.rows(),
    ensures
        0 <= i % mode.columns() < mode.columns(),
        0 <= i / mode.columns() < mode.rows(),
        i == (i / mode.columns()) * mode.columns() + i % mode.columns(),
{
    match mode {
        DisplayMode::LoRes => {},
        DisplayMode::HiRes => {},
    }
}

/// Joins a column and a row into the index of their cell.
proof fn lemma_cell_index(mode: DisplayMode, x: int, y: int)
    requires
        0 <= x < mode.columns(),
        0 <= y < mode.rows(),
    ensures
        0 <= y * mode.columns() + x < mode.columns() * mode.rows(),
        (y * mode.columns() + x) / mode.columns() == y,
        (y * mode.columns() + x) % mode.columns() == x,
{
    match mode {
        DisplayMode::LoRes => {},
        DisplayMode::HiRes => {},
    }
}

/// Cell `i` lies above row `row`, or in that row left of column `col`.
spec fn passed(mode: DisplayMode, i: int, row: int, col: int) -> bool {
    i / mode.columns() < row || (i / mode.columns() == row && i % mode.columns() < col)
}

/// The framebuffer: a grid of cells sized by its display mode.
pub struct FrameBuffer {
    mode: DisplayMode,
    cells: Vec<bool>,
}

impl View for FrameBuffer {
    type V = Screen;

    closed spec fn view(&self) -> Screen {
        Screen { mode: self.mode, cells: self.cells@ }
    }
}

impl FrameBuffer {
    /// The buffer holds exactly one cell per position of its mode.
    pub open spec fn wf(&self) -> bool {
        self@.valid()
    }

    /// A framebuffer of `mode` with every cell unset.
    pub fn new(mode: DisplayMode) -> (fb: Self)
        ensures
            fb.wf(),
            fb@ == Screen::blank(mode),
    {
        let cells = vec![false; mode.width() * mode.height()];
        let fb = FrameBuffer { mode, cells };
        assert(fb@.cells =~= Screen::blank(mode).cells);
        fb
    }

    /// Unsets every cell, keeping the mode.
    pub fn clear(&mut self)
        ensures
            final(self).wf(),
            final(self)@ == Screen::blank(old(self)@.mode),
    {
        self.cells = vec![false; self.mode.width() * self.mode.height()];
        assert(self@.cells =~= Screen::blank(self.mode).cells);
    }

    /// Switches to `mode` and unsets every cell.
    pub fn set_mode(&mut self, mode: DisplayMode)
        ensures
            final(self).wf(),
            final(self)@ == Screen::blank(mode),
    {
        let cells = vec![false; mode.width() * mode.height()];
        *self = FrameBuffer { mode, cells };
        assert(self@.cells =~= Screen::blank(mode).cells);
    }

    /// The display mode.
    pub fn mode(&self) -> (mode: DisplayMode)
        ensures
            mode == self@.mode,
    {
        self.mode
    }

    /// The number of columns.
    pub fn width(&self) -> (w: usize)
        ensures
            w == self@.mode.columns(),
    {
        self.mode.width()
    }

    /// The number of rows.
    pub fn height(&self) -> (h: usize)
        ensures
            h == self@.mode.rows(),
    {
        self.mode.height()
    }

    /// The cells in row-major order.
    pub fn cells(&self) -> (cells: &[bool])
        ensures
            cells@ == self@.cells,
    {
        self.cells.as_slice()
    }

    /// The cell at column `x` of row `y`.
    pub fn pixel(&self, x: usize, y: usize) -> (lit: bool)
        requires
            self.wf(),
            x < self@.mode.columns(),
            y < self@.mode.rows(),
        ensures
            lit == self@.pixel(x as int, y as int),
    {
        let w = self.mode.width();
        assert(y * w + x < w * self.mode.rows()) by (nonlinear_arith)
            requires
                x < w,
                y < self.mode.rows(),
        ;
        self.cells[y * w + x]
    }
    /// Draws a sprite with its top-left corner at column `x` of row `y` and
    /// reports whether any set cell was turned off.
    ///
    /// Every cell under a set sprite pixel is toggled. Rows and columns of the
    /// sprite that fall beyond the bottom or right edge are dropped, never
    /// wrapped around.
    pub fn draw(&mut self, x: usize, y: usize, rows: &[u16], wide: bool) -> (collision: bool)
        requires
            old(self).wf(),
        ensures
            final(self).wf(),
            final(self)@ == old(self)@.draw(
                (Sprite { x: x as int, y: y as int, wide, rows: rows@ }),
            ),
            collision == old(self)@.collides(
                (Sprite { x: x as int, y: y as int, wide, rows: rows@ }),
            ),
    {
        let w = self.mode.width();
        let h = self.mode.height();
        let cols: usize = if wide {
            16
        } else {
            8
        };
        let ghost mode = self.mode;
        let ghost before = self@;
        let ghost sprite = Sprite { x: x as int, y: y as int, wide, rows: rows@ };
        if x >= w || y >= h {
            proof {
                assert forall|i: int| 0 <= i < before.cells.len() implies !before.covered(
                    sprite,
                    i,
                ) by {
                    lemma_cell_coordinates(mode, i);
                }
                assert(self@.cells =~= before.draw(sprite).cells);
            }
            return false;
        }
        let mut collision = false;
        let mut r: usize = 0;
        while r < rows.len() && y + r < h
            invariant
                self.mode == mode,
                before.mode == mode,
                before.valid(),
                self.cells@.len() == before.cells.len(),
                w == mode.columns(),
                h == mode.rows(),
                cols == sprite.columns(),
                sprite == (Sprite { x: x as int, y: y as int, wide, rows: rows@ }),
                x < w,
                y < h,
                r <= rows.len(),
                y + r <= h,
                forall|i: int|
                    0 <= i < before.cells.len() ==> #[trigger] self.cells@[i] == (if passed(
                        mode,
                        i,
                        y + r,
                        0,
                    ) {
                        before.cells[i] != before.covered(sprite, i)
                    } else {
                        before.cells[i]
                    }),
                collision ==> before.collides(sprite),
                !collision ==> forall|i: int|
                    passed(mode, i, y + r, 0) ==> !#[trigger] before.erased_at(sprite, i),
            decreases rows.len() - r,
        {
            let word = rows[r];
            let row = y + r;
            let mut c: usize = 0;
            while c < cols && x + c < w
                invariant
                    self.mode == mode,
                    before.mode == mode,
                    before.valid(),
                    self.cells@.len() == before.cells.len(),
                    w == mode.columns(),
                    h == mode.rows(),
                    cols == sprite.columns(),
                    sprite == (Sprite { x: x as int, y: y as int, wide, rows: rows@ }),
                    x < w,
                    row == y + r,
                    row < h,
                    r < rows.len(),
                    word == rows@[r as int],
                    c <= cols,
                    x + c <= w,
                    forall|i: int|
                        0 <= i < before.cells.len() ==> #[trigger] self.cells@[i] == (if passed(
                            mode,
                            i,
                            row as int,
                            x + c,
                        ) {
                            before.cells[i] != before.covered(sprite, i)
                        } else {
                            before.cells[i]
                        }),
                    collision ==> before.collides(sprite),
                    !collision ==> forall|i: int|
                        passed(mode, i, row as int, x + c) ==> !#[trigger] before.erased_at(
                            sprite,
                            i,
                        ),
                decreases cols - c,
            {
                let bit = (word >> (cols - 1 - c)) & 1 != 0;
                proof {
                    lemma_cell_index(mode, x + c, row as int);
                }
                let idx = row * w + (x + c);
                let ghost cells_before = self.cells@;
                assert(bit == before.covered(sprite, idx as int));
                assert(!passed(mode, idx as int, row as int, x + c));
                if bit {
                    let was = self.cells[idx];
                    if was {
                        collision = true;
                        assert(before.erased_at(sprite, idx as int));
                    }
                    self.cells.set(idx, !was);
                }
                proof {
                    assert forall|i: int| 0 <= i < before.cells.len() implies #[trigger] self.cells@[i]
                        == (if passed(mode, i, row as int, x + c + 1) {
                        before.cells[i] != before.covered(sprite, i)
                    } else {
                        before.cells[i]
                    }) by {
                        lemma_cell_coordinates(mode, i);
                        assert(self.cells@[i] == if i == idx {
                            cells_before[i] != bit
                        } else {
                            cells_before[i]
                        });
                    }
                    if !collision {
                        assert forall|i: int| passed(mode, i, row as int, x + c + 1) implies !#[trigger] before.erased_at(
                            sprite,
                            i,
                        ) by {
                            if 0 <= i < before.cells.len() {
                                lemma_cell_coordinates(mode, i);
                                if i != idx {
                                    assert(passed(mode, i, row as int, x + c));
                                }
                            }
                        }
                    }
                }
                c += 1;
            }
            proof {
                assert forall|i: int| 0 <= i < before.cells.len() implies #[trigger] self.cells@[i]
                    == (if passed(mode, i, row + 1, 0) {
                    before.cells[i] != before.covered(sprite, i)
                } else {
                    before.cells[i]
                }) by {
                    lemma_cell_coordinates(mode, i);
                }
                if !collision {
                    assert forall|i: int| passed(mode, i, row + 1, 0) implies !#[trigger] before.erased_at(
                        sprite,
                        i,
                    ) by {
                        if 0 <= i < before.cells.len() {
                            lemma_cell_coordinates(mode, i);
                            if !passed(mode, i, row as int, x + c) {
                                assert(!before.covered(sprite, i));
                            }
                        }
                    }
                }
            }
            r += 1;
        }
        proof {
            assert forall|i: int| 0 <= i < before.cells.len() implies self.cells@[i] == (
            before.cells[i] != before.covered(sprite, i)) by {
                lemma_cell_coordinates(mode, i);
            }
            assert(self@.cells =~= before.draw(sprite).cells);
            if !collision {
                assert forall|i: int| !before.erased_at(sprite, i) by {
                    if 0 <= i < before.cells.len() {
                        lemma_cell_coordinates(mode, i);
                        if !passed(mode, i, y + r, 0) {
                            assert(!before.covered(sprite, i));
                        }
                    }
                }
            }
        }
        collision
    }
}

} // verus!
