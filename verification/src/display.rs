//! The frame buffer: a grid of 64 by 32 monochrome cells, stored row by row,
//! onto which sprites are drawn by exclusive or.

use vstd::prelude::*;

verus! {

/// Cells in a row.
pub const WIDTH: usize = 64;

/// Rows in the grid.
pub const HEIGHT: usize = 32;

/// Side of the square, in screen pixels, that stands for one cell.
pub const PIX_SIZE: usize = 20;

/// Cells in the grid.
pub const PIXELS: usize = 2048;

/// The grid and the flag that tells the host to present it again.
pub struct Display {
    /// The cells, row after row; a set cell is lit.
    pub data: [bool; 2048],
    /// Set by whatever changes the picture, cleared by `acknowledge`.
    pub redraw: bool,
}

/// A filled rectangle on the host's surface, in screen pixels.
#[derive(Debug, Clone, Copy, PartialEq, Eq, Structural)]
pub struct CellRect {
    pub x: i32,
    pub y: i32,
    pub width: u32,
    pub height: u32,
}

/// Whether bit `k` of a sprite row is set, bit 0 being the leftmost.
pub open spec fn sprite_bit(byte: u8, k: int) -> bool {
    0 <= k < 8 && byte & (0x80u8 >> (k as u8)) != 0
}

/// How many columns to the right of column `x % 64` the cell lies, going
/// round the right edge.
pub open spec fn column_offset(x: int, cell: int) -> int {
    (cell % 64 - x % 64 + 64) % 64
}

/// Whether a sprite row `byte`, placed with its left end at column `x % 64`
/// of row `y % 32`, has a set bit on `cell`.
pub open spec fn row_hits(x: int, y: int, byte: u8, cell: int) -> bool {
    cell / 64 == y % 32 && sprite_bit(byte, column_offset(x, cell))
}

/// The grid after one sprite row was drawn: each cell under a set bit flips.
pub open spec fn spec_draw_row(p: Seq<bool>, x: int, y: int, byte: u8) -> Seq<bool> {
    Seq::new(p.len(), |i: int| p[i] != row_hits(x, y, byte, i))
}

/// Whether drawing one sprite row puts out a lit cell.
pub open spec fn row_collides(p: Seq<bool>, x: int, y: int, byte: u8) -> bool {
    exists|i: int| 0 <= i < p.len() && p[i] && #[trigger] row_hits(x, y, byte, i)
}

/// The grid after a sprite was drawn at `(x, y)`: its rows are drawn one
/// after the other, row `j` on grid row `(y + j) % 32`.
pub open spec fn spec_draw(p: Seq<bool>, x: int, y: int, rows: Seq<u8>) -> Seq<bool>
    decreases rows.len(),
{
    if rows.len() == 0 {
        p
    } else {
        spec_draw_row(spec_draw(p, x, y, rows.drop_last()), x, y + rows.len() - 1, rows.last())
    }
}

/// Whether drawing a sprite at `(x, y)` puts out a cell that was lit when its
/// row came to be drawn.
pub open spec fn spec_collides(p: Seq<bool>, x: int, y: int, rows: Seq<u8>) -> bool
    decreases rows.len(),
{
    if rows.len() == 0 {
        false
    } else {
        spec_collides(p, x, y, rows.drop_last()) || row_collides(
            spec_draw(p, x, y, rows.drop_last()),
            x,
            y + rows.len() - 1,
            rows.last(),
        )
    }
}

/// Drawing keeps the number of cells.
pub proof fn lemma_draw_len(p: Seq<bool>, x: int, y: int, rows: Seq<u8>)
    ensures
        spec_draw(p, x, y, rows).len() == p.len(),
    decreases rows.len(),
{
    if rows.len() > 0 {
        lemma_draw_len(p, x, y, rows.drop_last());
    }
}

/// Whether row `j` of a sprite drawn at `(x, y)` has a set bit on `cell`.
pub open spec fn sprite_row_hits(x: int, y: int, rows: Seq<u8>, j: int, cell: int) -> bool {
    row_hits(x, y + j, rows[j], cell)
}

/// Whether a sprite drawn at `(x, y)` has a set bit on `cell`.
pub open spec fn sprite_hits(x: int, y: int, rows: Seq<u8>, cell: int) -> bool {
    exists|j: int| 0 <= j < rows.len() && #[trigger] sprite_row_hits(x, y, rows, j, cell)
}

/// The grid with every cell under a set bit of the sprite flipped.
pub open spec fn spec_flip_hit_cells(p: Seq<bool>, x: int, y: int, rows: Seq<u8>) -> Seq<bool> {
    Seq::new(p.len(), |i: int| p[i] != sprite_hits(x, y, rows, i))
}

/// Whether some lit cell lies under a set bit of the sprite.
pub open spec fn spec_hits_lit_cell(p: Seq<bool>, x: int, y: int, rows: Seq<u8>) -> bool {
    exists|i: int| 0 <= i < p.len() && p[i] && #[trigger] sprite_hits(x, y, rows, i)
}

/// Two rows of a sprite no taller than the grid never meet on a cell.
proof fn lemma_rows_apart(x: int, y: int, rows: Seq<u8>, j: int, k: int, cell: int)
    requires
        0 <= y,
        0 <= j < k < rows.len() <= 32,
        sprite_row_hits(x, y, rows, j, cell),
    ensures
        !sprite_row_hits(x, y, rows, k, cell),
{
}

/// A sprite no taller than the grid flips each cell at most once. Drawing it
/// therefore flips exactly the cells under its set bits, and collides exactly
/// if one of those cells was lit before.
pub proof fn lemma_draw_by_cells(p: Seq<bool>, x: int, y: int, rows: Seq<u8>)
    requires
        0 <= x,
        0 <= y,
        rows.len() <= 32,
    ensures
        spec_draw(p, x, y, rows) == spec_flip_hit_cells(p, x, y, rows),
        spec_collides(p, x, y, rows) == spec_hits_lit_cell(p, x, y, rows),
    decreases rows.len(),
{
    if rows.len() > 0 {
        let init = rows.drop_last();
        let n = init.len() as int;
        let last = rows.last();
        lemma_draw_by_cells(p, x, y, init);
        assert forall|i: int| 0 <= i < p.len() implies (sprite_hits(x, y, rows, i) == (sprite_hits(
            x,
            y,
            init,
            i,
        ) || row_hits(x, y + n, last, i))) && !(sprite_hits(x, y, init, i) && row_hits(
            x,
            y + n,
            last,
            i,
        )) by {
            if sprite_hits(x, y, rows, i) {
                let j = choose|j: int|
                    0 <= j < rows.len() && #[trigger] sprite_row_hits(x, y, rows, j, i);
                if j < n {
                    assert(sprite_row_hits(x, y, init, j, i));
                }
            }
            if sprite_hits(x, y, init, i) {
                let j = choose|j: int|
                    0 <= j < init.len() && #[trigger] sprite_row_hits(x, y, init, j, i);
                assert(sprite_row_hits(x, y, rows, j, i));
                lemma_rows_apart(x, y, rows, j, n, i);
            }
            if row_hits(x, y + n, last, i) {
                assert(sprite_row_hits(x, y, rows, n, i));
            }
        }
    }
}

/// Drawing a sprite no taller than the grid a second time at the same place
/// undoes the first drawing, and the second drawing collides exactly if the
/// first one lit a cell that was dark.
pub proof fn lemma_draw_twice(p: Seq<bool>, x: int, y: int, rows: Seq<u8>)
    requires
        0 <= x,
        0 <= y,
        rows.len() <= 32,
    ensures
        spec_draw(spec_draw(p, x, y, rows), x, y, rows) == p,
        spec_collides(spec_draw(p, x, y, rows), x, y, rows) == (exists|i: int|
            0 <= i < p.len() && !p[i] && #[trigger] sprite_hits(x, y, rows, i)),
{
    let once = spec_draw(p, x, y, rows);
    lemma_draw_by_cells(p, x, y, rows);
    lemma_draw_by_cells(once, x, y, rows);
}

/// On a dark grid a sprite no taller than the grid lights exactly the cells
/// under its set bits and collides with nothing; drawn again at once, it
/// leaves the grid dark, and collides unless it has no set bit on the grid.
pub proof fn lemma_draw_on_dark(p: Seq<bool>, x: int, y: int, rows: Seq<u8>)
    requires
        0 <= x,
        0 <= y,
        rows.len() <= 32,
        p == Seq::new(p.len(), |i: int| false),
    ensures
        forall|i: int|
            0 <= i < p.len() ==> spec_draw(p, x, y, rows)[i] == #[trigger] sprite_hits(
                x,
                y,
                rows,
                i,
            ),
        !spec_collides(p, x, y, rows),
        spec_draw(spec_draw(p, x, y, rows), x, y, rows) == p,
        spec_collides(spec_draw(p, x, y, rows), x, y, rows) == (exists|i: int|
            0 <= i < p.len() && #[trigger] sprite_hits(x, y, rows, i)),
{
    lemma_draw_by_cells(p, x, y, rows);
    lemma_draw_twice(p, x, y, rows);
}

/// Of the row at which a sprite row is drawn, only the remainder modulo 32
/// matters.
proof fn lemma_row_wraps(p: Seq<bool>, x: int, y: int, z: int, byte: u8)
    requires
        y % 32 == z % 32,
    ensures
        spec_draw_row(p, x, y, byte) == spec_draw_row(p, x, z, byte),
        row_collides(p, x, y, byte) == row_collides(p, x, z, byte),
{
    assert forall|i: int| row_hits(x, y, byte, i) == row_hits(x, z, byte, i) by {}
    assert(spec_draw_row(p, x, y, byte) =~= spec_draw_row(p, x, z, byte));
}

/// As `row_hits`, for the leftmost `k` bits of the row only.
spec fn row_hits_below(x: int, y: int, byte: u8, k: int, cell: int) -> bool {
    row_hits(x, y, byte, cell) && column_offset(x, cell) < k
}

/// Bit `k` of a row placed at `(x, y)` lies on exactly one cell.
proof fn lemma_cell_of_bit(x: int, y: int, k: int, cell: int)
    requires
        0 <= x,
        0 <= y,
        0 <= k < 64,
        0 <= cell < 2048,
    ensures
        (cell / 64 == y % 32 && column_offset(x, cell) == k) <==> cell == (x % 64 + k) % 64 + 64
            * (y % 32),
{
}

/// The rectangle for cell number `k`, counting down the columns from the
/// left, if that cell is lit.
pub open spec fn white_rect_at(data: Seq<bool>, k: int) -> Option<CellRect> {
    let col = k / 32;
    let row = k % 32;
    if data[row * 64 + col] {
        Some(CellRect { x: (col * 20) as i32, y: (row * 20) as i32, width: 20, height: 20 })
    } else {
        None
    }
}

/// `white_rect_at` as a function of the cell number.
pub open spec fn white_rect_fn(data: Seq<bool>) -> spec_fn(int) -> Option<CellRect> {
    |k: int| white_rect_at(data, k)
}

/// The rectangles of the lit cells, column by column from the left and from
/// the top down within a column.
pub open spec fn spec_white_rects(data: Seq<bool>) -> Seq<CellRect> {
    Seq::new(2048, |k: int| k).filter_map(white_rect_fn(data))
}

/// The grid as text: a line of 64 characters for each row, `o` for a lit cell
/// and a blank for a dark one, each line closed by a line feed.
pub open spec fn spec_terminal(data: Seq<bool>) -> Seq<u8> {
    Seq::new(
        2080,
        |k: int|
            if k % 65 == 64 {
                0x0Au8
            } else if data[(k / 65) * 64 + k % 65] {
                0x6Fu8
            } else {
                0x20u8
            },
    )
}

impl Display {
    /// A dark grid, due to be presented.
    pub fn new() -> (d: Display)
        ensures
            d.data@ == Seq::new(2048, |i: int| false),
            d.redraw,
    {
        let d = Display { data: [false; 2048], redraw: true };
        d
    }

    /// Darkens every cell and asks for the grid to be presented.
    pub fn clear_screen(&mut self)
        ensures
            final(self).data@ == Seq::new(2048, |i: int| false),
            final(self).redraw,
    {
        self.data = [false; 2048];
        self.redraw = true;
    }

    /// Sets the cell in row `row` and column `col`.
    pub fn set_pixel(&mut self, row: usize, col: usize, val: bool)
        requires
            row * WIDTH + col < PIXELS,
        ensures
            final(self).data@ == old(self).data@.update(row * WIDTH + col, val),
            final(self).redraw == old(self).redraw,
    {
        self.data[row * WIDTH + col] = val;
    }

    /// Whether the cell in row `row` and column `col` is lit.
    pub fn get_pixel(&self, row: usize, col: usize) -> (val: bool)
        requires
            row * WIDTH + col < PIXELS,
        ensures
            val == self.data@[row * WIDTH + col],
    {
        self.data[row * WIDTH + col]
    }

    /// A copy of the grid. The redraw flag stays as it is.
    pub fn snapshot(&self) -> (grid: [bool; 2048])
        ensures
            grid@ == self.data@,
    {
        self.data
    }

    /// Records that the host has presented the grid.
    pub fn acknowledge(&mut self)
        ensures
            final(self).data@ == old(self).data@,
            !final(self).redraw,
    {
        self.redraw = false;
    }

    /// Draws one sprite row with its left end at column `x % 64` of row `y`.
    fn draw_row(&mut self, x: u8, y: usize, byte: u8) -> (hit: bool)
        requires
            y < 32,
        ensures
            final(self).data@ == spec_draw_row(old(self).data@, x as int, y as int, byte),
            hit == row_collides(old(self).data@, x as int, y as int, byte),
            final(self).redraw == old(self).redraw,
    {
        let ghost before = self.data@;
        let x0: usize = (x % 64) as usize;
        let mut hit = false;
        let mut k: u8 = 0;
        while k < 8
            invariant
                k <= 8,
                y < 32,
                x0 == x % 64,
                before.len() == 2048,
                self.redraw == old(self).redraw,
                self.data@ == Seq::new(
                    2048,
                    |i: int| before[i] != row_hits_below(x as int, y as int, byte, k as int, i),
                ),
                hit == (exists|i: int|
                    0 <= i < 2048 && before[i] && #[trigger] row_hits_below(
                        x as int,
                        y as int,
                        byte,
                        k as int,
                        i,
                    )),
            decreases 8 - k,
        {
            let ghost shown = self.data@;
            let ghost hit_before = hit;
            let ghost k0 = k as int;
            let idx: usize = (x0 + k as usize) % 64 + 64 * y;
            proof {
                // Bit k0 lies on cell idx and on no other.
                assert forall|i: int| 0 <= i < 2048 implies (#[trigger] row_hits_below(
                    x as int,
                    y as int,
                    byte,
                    k0 + 1,
                    i,
                ) <==> row_hits_below(x as int, y as int, byte, k0, i) || (i == idx && sprite_bit(
                    byte,
                    k0,
                ))) by {
                    lemma_cell_of_bit(x as int, y as int, k0, i);
                }
                // No earlier bit has touched that cell.
                assert(shown[idx as int] == before[idx as int]);
            }
            if byte & (0x80u8 >> k) != 0 {
                hit = hit || self.data[idx];
                self.data[idx] = !self.data[idx];
            }
            k += 1;
            proof {
                if hit_before {
                    let w = choose|i: int|
                        0 <= i < 2048 && before[i] && #[trigger] row_hits_below(
                            x as int,
                            y as int,
                            byte,
                            k0,
                            i,
                        );
                    assert(row_hits_below(x as int, y as int, byte, k0 + 1, w));
                }
                if sprite_bit(byte, k0) && before[idx as int] {
                    assert(row_hits_below(x as int, y as int, byte, k0 + 1, idx as int));
                }
                if exists|i: int|
                    0 <= i < 2048 && before[i] && #[trigger] row_hits_below(
                        x as int,
                        y as int,
                        byte,
                        k0 + 1,
                        i,
                    ) {
                    let w = choose|i: int|
                        0 <= i < 2048 && before[i] && #[trigger] row_hits_below(
                            x as int,
                            y as int,
                            byte,
                            k0 + 1,
                            i,
                        );
                    if !(w == idx && sprite_bit(byte, k0)) {
                        assert(row_hits_below(x as int, y as int, byte, k0, w));
                    }
                }
            }
        }
        proof {
            // With all eight bits drawn, the leftmost eight are the whole row.
            assert forall|i: int| 0 <= i < 2048 implies row_hits_below(
                x as int,
                y as int,
                byte,
                8,
                i,
            ) == row_hits(x as int, y as int, byte, i) by {}
            assert(self.data@ =~= spec_draw_row(before, x as int, y as int, byte));
        }
        hit
    }

    /// Draws a sprite with its top left corner at column `x % 64` of row
    /// `y % 32`. Each set bit of each row flips the cell beneath it; what
    /// leaves the grid on the right or at the bottom comes back on the other
    /// side. Returns whether any lit cell was put out, and asks for the grid
    /// to be presented.
    pub fn draw_sprite(&mut self, x: u8, y: u8, rows: &[u8]) -> (collision: bool)
        ensures
            final(self).data@ == spec_draw(old(self).data@, x as int, y as int, rows@),
            collision == spec_collides(old(self).data@, x as int, y as int, rows@),
            final(self).redraw,
    {
        let ghost before = self.data@;
        let mut flipped = false;
        let mut j: usize = 0;
        while j < rows.len()
            invariant
                j <= rows.len(),
                self.data@ == spec_draw(before, x as int, y as int, rows@.take(j as int)),
                flipped == spec_collides(before, x as int, y as int, rows@.take(j as int)),
            decreases rows.len() - j,
        {
            let ghost shown = self.data@;
            let r: usize = ((y % 32) as usize + j % 32) % 32;
            let hit = self.draw_row(x, r, rows[j]);
            flipped = flipped || hit;
            proof {
                assert(rows@.take(j + 1).drop_last() =~= rows@.take(j as int));
                lemma_row_wraps(shown, x as int, r as int, y + j, rows@[j as int]);
            }
            j += 1;
        }
        self.redraw = true;
        assert(rows@.take(rows@.len() as int) =~= rows@);
        flipped
    }

    /// The rectangles that paint the lit cells, each `PIX_SIZE` pixels wide
    /// and high, in the order of `spec_white_rects`.
    pub fn create_white_rects(&self) -> (rects: Vec<CellRect>)
        ensures
            rects@ == spec_white_rects(self.data@),
    {
        let ghost cells = Seq::new(2048, |k: int| k);
        let ghost f = white_rect_fn(self.data@);
        let mut rects: Vec<CellRect> = Vec::new();
        let mut i: usize = 0;
        while i < WIDTH
            invariant
                i <= WIDTH,
                cells == Seq::new(2048, |k: int| k),
                f == white_rect_fn(self.data@),
                rects@ == cells.take(i * 32).filter_map(f),
            decreases WIDTH - i,
        {
            let mut j: usize = 0;
            while j < HEIGHT
                invariant
                    i < WIDTH,
                    j <= HEIGHT,
                    cells == Seq::new(2048, |k: int| k),
                    f == white_rect_fn(self.data@),
                    rects@ == cells.take(i * 32 + j).filter_map(f),
                decreases HEIGHT - j,
            {
                proof {
                    cells.lemma_filter_map_take_succ(f, i * 32 + j);
                }
                if self.get_pixel(j, i) {
                    rects.push(
                        CellRect {
                            x: (i * PIX_SIZE) as i32,
                            y: (j * PIX_SIZE) as i32,
                            width: PIX_SIZE as u32,
                            height: PIX_SIZE as u32,
                        },
                    );
                }
                j += 1;
            }
            i += 1;
        }
        assert(cells.take(2048) =~= cells);
        rects
    }

    /// The grid as text, as `spec_terminal` lays it out.
    pub fn display_terminal(&self) -> (text: Vec<u8>)
        ensures
            text@ == spec_terminal(self.data@),
    {
        let mut text: Vec<u8> = Vec::new();
        let mut row: usize = 0;
        while row < HEIGHT
            invariant
                row <= HEIGHT,
                text@ == spec_terminal(self.data@).take(row * 65),
            decreases HEIGHT - row,
        {
            let mut col: usize = 0;
            while col < WIDTH
                invariant
                    row < HEIGHT,
                    col <= WIDTH,
                    text@ == spec_terminal(self.data@).take(row * 65 + col),
                decreases WIDTH - col,
            {
                if self.get_pixel(row, col) {
                    text.push(0x6Fu8);
                } else {
                    text.push(0x20u8);
                }
                col += 1;
            }
            text.push(0x0Au8);
            row += 1;
        }
        text
    }
}

impl Default for Display {
    fn default() -> (d: Display)
        ensures
            d.data@ == Seq::new(2048, |i: int| false),
            d.redraw,
    {
        Display::new()
    }
}

} // verus!
