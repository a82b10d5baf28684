//! The weather scene's pixel canvas: each terminal cell shows two pixels stacked, the
//! upper one in the foreground colour of `▀` and the lower one in its background.

use vstd::prelude::*;

use crate::text::chars_of;

verus! {

/// A terminal colour, as the renderer names them; `Reset` is "no colour".
#[derive(Debug, Clone, Copy, PartialEq, Eq, Structural)]
pub enum Ink {
    Reset,
    Black,
    Red,
    Green,
    Yellow,
    Blue,
    Magenta,
    Cyan,
    Gray,
    DarkGray,
    LightRed,
    LightGreen,
    LightYellow,
    LightBlue,
    LightMagenta,
    LightCyan,
    White,
    Rgb(u8, u8, u8),
    Indexed(u8),
}

/// A text character drawn over a cell, and its colour.
#[derive(Debug, Clone, Copy, PartialEq, Eq, Structural)]
pub struct Overlay {
    pub ch: char,
    pub ink: Ink,
}

/// The two pixels of a cell, and the text character drawn over them, if any.
#[derive(Debug, Clone, Copy, PartialEq, Eq, Structural)]
pub struct HalfCell {
    pub top: Ink,
    pub bottom: Ink,
    pub overlay: Option<Overlay>,
}

/// What a cell shows on the terminal.
#[derive(Debug, Clone, Copy, PartialEq, Eq, Structural)]
pub enum CellGlyph {
    /// Nothing: the terminal cell is reset.
    Blank,
    /// A text character.
    Text(char, Ink),
    /// `█` in one colour: both pixels alike.
    Full(Ink),
    /// `▀`: the upper pixel in `fg`, the lower in `bg` (none when unset).
    Upper { fg: Ink, bg: Option<Ink> },
    /// `▄`: only the lower pixel is set.
    Lower(Ink),
}

pub open spec fn empty_cell() -> HalfCell {
    HalfCell { top: Ink::Reset, bottom: Ink::Reset, overlay: None }
}

/// The glyph of a cell: text wins over pixels; two equal pixels make a full block.
pub open spec fn spec_glyph(c: HalfCell) -> CellGlyph {
    match c.overlay {
        Some(o) => CellGlyph::Text(o.ch, o.ink),
        None => {
            let top_set = c.top != Ink::Reset;
            let bot_set = c.bottom != Ink::Reset;
            if !top_set && !bot_set {
                CellGlyph::Blank
            } else if top_set && bot_set && c.top == c.bottom {
                CellGlyph::Full(c.top)
            } else if top_set && bot_set {
                CellGlyph::Upper { fg: c.top, bg: Some(c.bottom) }
            } else if top_set {
                CellGlyph::Upper { fg: c.top, bg: None }
            } else {
                CellGlyph::Lower(c.bottom)
            }
        },
    }
}

pub fn cell_glyph(c: HalfCell) -> (g: CellGlyph)
    ensures
        g == spec_glyph(c),
{
    match c.overlay {
        Some(o) => CellGlyph::Text(o.ch, o.ink),
        None => {
            let top_set = c.top != Ink::Reset;
            let bot_set = c.bottom != Ink::Reset;
            if !top_set && !bot_set {
                CellGlyph::Blank
            } else if top_set && bot_set && c.top == c.bottom {
                CellGlyph::Full(c.top)
            } else if top_set && bot_set {
                CellGlyph::Upper { fg: c.top, bg: Some(c.bottom) }
            } else if top_set {
                CellGlyph::Upper { fg: c.top, bg: None }
            } else {
                CellGlyph::Lower(c.bottom)
            }
        },
    }
}

/// The row and column of cell index `k` in a grid `w` cells wide and `h` high.
pub(crate) proof fn lemma_cell_coords(k: int, w: int, h: int)
    requires
        0 <= k < w * h,
        0 <= w,
        0 <= h,
    ensures
        w > 0,
        0 <= k / w < h,
        0 <= k % w < w,
        k == w * (k / w) + k % w,
{
    if w == 0 {
        assert(w * h == 0);
    }
    vstd::arithmetic::div_mod::lemma_fundamental_div_mod(k, w);
    vstd::arithmetic::div_mod::lemma_mod_pos_bound(k, w);
    assert(k / w >= 0) by {
        vstd::arithmetic::div_mod::lemma_div_pos_is_pos(k, w);
    }
    assert(k / w < h) by {
        vstd::arithmetic::div_mod::lemma_multiply_divide_lt(k, w, h);
    }
}

/// Cell index `row * w + col` lies in row `row`, column `col`.
pub(crate) proof fn lemma_cell_of(k: int, w: int, row: int, col: int)
    requires
        k == row * w + col,
        0 <= col < w,
        0 <= row,
    ensures
        k / w == row,
        k % w == col,
{
    vstd::arithmetic::div_mod::lemma_fundamental_div_mod_converse(k, w, row, col);
}

/// Two ways of naming the same cell give the same index.
pub(crate) proof fn lemma_same_cell(k: int, w: int, row: int, col: int, r2: int, c2: int)
    by (nonlinear_arith)
    requires
        k == w * row + col,
        row == r2,
        col == c2,
    ensures
        k == r2 * w + c2,
{
}

/// `start` with the characters of `text` (the first `n` of them) written from cell
/// `(x, y)` rightwards in a grid `w` cells wide, as far as the row reaches.
/// Cell `c` with the character `ch` written over it in `ink`.
pub open spec fn written_cell(c: HalfCell, ch: char, ink: Ink) -> HalfCell {
    HalfCell { overlay: Some(Overlay { ch, ink }), ..c }
}

pub open spec fn text_cells(
    start: Seq<HalfCell>,
    w: int,
    x: int,
    y: int,
    text: Seq<char>,
    ink: Ink,
    n: int,
) -> Seq<HalfCell> {
    Seq::new(
        start.len(),
        |k: int|
            if k / w == y && x <= k % w < x + n {
                written_cell(start[k], text[k % w - x], ink)
            } else {
                start[k]
            },
    )
}

/// Writing one more character changes only its own cell, and only where it fits.
proof fn lemma_text_cells_step(
    start: Seq<HalfCell>,
    w: int,
    h: int,
    x: int,
    y: int,
    text: Seq<char>,
    ink: Ink,
    i: int,
)
    requires
        0 <= w,
        0 <= h,
        0 <= x,
        0 <= y,
        0 <= i < text.len(),
        start.len() == w * h,
    ensures
        ({
            let before = text_cells(start, w, x, y, text, ink, i);
            let after = text_cells(start, w, x, y, text, ink, i + 1);
            if x < w && i < w - x && y < h {
                let target = y * w + (x + i);
                &&& 0 <= target < start.len()
                &&& after == before.update(target, written_cell(before[target], text[i], ink))
            } else {
                after == before
            }
        }),
{
    let before = text_cells(start, w, x, y, text, ink, i);
    let after = text_cells(start, w, x, y, text, ink, i + 1);
    if x < w && i < w - x && y < h {
        let target = y * w + (x + i);
        assert(0 <= target < start.len()) by (nonlinear_arith)
            requires
                target == y * w + (x + i),
                0 <= x + i < w,
                0 <= y < h,
                start.len() == w * h,
        ;
        lemma_cell_of(target, w, y, x + i);
        assert forall|k: int| 0 <= k < start.len() implies #[trigger] after[k] == before.update(
            target,
            written_cell(before[target], text[i], ink),
        )[k] by {
            lemma_cell_coords(k, w, h);
            if k / w == y && k % w == x + i {
                lemma_same_cell(k, w, k / w, k % w, y, x + i);
            }
        }
        assert(after =~= before.update(target, written_cell(before[target], text[i], ink)));
    } else {
        assert forall|k: int| 0 <= k < start.len() implies #[trigger] after[k] == before[k] by {
            lemma_cell_coords(k, w, h);
        }
        assert(after =~= before);
    }
}

pub struct HalfBlockGrid {
    width_cells: usize,
    height_cells: usize,
    cells: Vec<HalfCell>,
}

impl HalfBlockGrid {
    pub closed spec fn spec_width(&self) -> nat {
        self.width_cells as nat
    }

    pub closed spec fn spec_height(&self) -> nat {
        self.height_cells as nat
    }

    /// The cells, row by row.
    pub closed spec fn spec_cells(&self) -> Seq<HalfCell> {
        self.cells@
    }

    pub closed spec fn wf(&self) -> bool {
        &&& self.width_cells <= u16::MAX
        &&& self.height_cells <= u16::MAX
        &&& self.cells@.len() == self.width_cells * self.height_cells
    }

    /// The empty cells of a `width` x `height` grid.
    pub open spec fn blank(width: nat, height: nat) -> Seq<HalfCell> {
        Seq::new(width * height, |i: int| empty_cell())
    }

    fn blank_cells(width: usize, height: usize) -> (v: Vec<HalfCell>)
        requires
            width <= u16::MAX,
            height <= u16::MAX,
        ensures
            v@ == Self::blank(width as nat, height as nat),
    {
        assert(width * height <= 65535 * 65535) by (nonlinear_arith)
            requires
                width <= 65535,
                height <= 65535,
        ;
        let n = width * height;
        let mut v: Vec<HalfCell> = Vec::new();
        let mut i: usize = 0;
        while i < n
            invariant
                i <= n,
                v@ == Seq::new(i as nat, |k: int| empty_cell()),
            decreases n - i,
        {
            v.push(HalfCell { top: Ink::Reset, bottom: Ink::Reset, overlay: None });
            i += 1;
            assert(v@ =~= Seq::new(i as nat, |k: int| empty_cell()));
        }
        v
    }

    /// A blank grid of `width` x `height` cells (`width` x `2 height` pixels).
    pub fn new(width: u16, height: u16) -> (g: Self)
        ensures
            g.wf(),
            g.spec_width() == width,
            g.spec_height() == height,
            g.spec_cells() == Self::blank(width as nat, height as nat),
    {
        let cells = Self::blank_cells(width as usize, height as usize);
        HalfBlockGrid { width_cells: width as usize, height_cells: height as usize, cells }
    }

    /// Blanks every cell.
    pub fn clear(&mut self)
        requires
            old(self).wf(),
        ensures
            final(self).wf(),
            final(self).spec_width() == old(self).spec_width(),
            final(self).spec_height() == old(self).spec_height(),
            final(self).spec_cells() == Self::blank(old(self).spec_width(), old(self).spec_height()),
    {
        self.cells = Self::blank_cells(self.width_cells, self.height_cells);
    }

    /// Takes the size `width` x `height`; a new size blanks the grid, the same size keeps it.
    pub fn resize(&mut self, width: u16, height: u16)
        requires
            old(self).wf(),
        ensures
            final(self).wf(),
            final(self).spec_width() == width,
            final(self).spec_height() == height,
            (width == old(self).spec_width() && height == old(self).spec_height())
                ==> final(self).spec_cells() == old(self).spec_cells(),
            !(width == old(self).spec_width() && height == old(self).spec_height())
                ==> final(self).spec_cells() == Self::blank(width as nat, height as nat),
    {
        if width as usize != self.width_cells || height as usize != self.height_cells {
            self.width_cells = width as usize;
            self.height_cells = height as usize;
            self.cells = Self::blank_cells(width as usize, height as usize);
        }
    }

    pub fn cell_width(&self) -> (r: u16)
        requires
            self.wf(),
        ensures
            r == self.spec_width(),
    {
        self.width_cells as u16
    }

    pub fn cell_height(&self) -> (r: u16)
        requires
            self.wf(),
        ensures
            r == self.spec_height(),
    {
        self.height_cells as u16
    }

    /// Sets pixel `(x_sub, y_sub)`: the upper pixel of cell row `y_sub / 2` for an even
    /// `y_sub`, the lower one for an odd; a pixel outside the grid is ignored.
    pub fn plot(&mut self, x_sub: i32, y_sub: i32, ink: Ink)
        requires
            old(self).wf(),
        ensures
            final(self).wf(),
            final(self).spec_width() == old(self).spec_width(),
            final(self).spec_height() == old(self).spec_height(),
            ({
                let w = old(self).spec_width() as int;
                let h = old(self).spec_height() as int;
                let idx = (y_sub / 2) * w + x_sub;
                let c = old(self).spec_cells()[idx];
                if 0 <= x_sub < w && 0 <= y_sub < 2 * h {
                    final(self).spec_cells() == old(self).spec_cells().update(
                        idx,
                        if y_sub % 2 == 0 {
                            HalfCell { top: ink, ..c }
                        } else {
                            HalfCell { bottom: ink, ..c }
                        },
                    )
                } else {
                    final(self).spec_cells() == old(self).spec_cells()
                }
            }),
    {
        let w = self.width_cells;
        let h = self.height_cells;
        if x_sub < 0 || y_sub < 0 || x_sub as i64 >= w as i64 || y_sub as i64 >= 2 * h as i64 {
            return;
        }
        let cell_x = x_sub as usize;
        let cell_y = (y_sub / 2) as usize;
        assert(cell_y * w + cell_x < w * h && w * h <= 65535 * 65535) by (nonlinear_arith)
            requires
                cell_y < h,
                cell_x < w,
                w <= 65535,
                h <= 65535,
        ;
        let idx = cell_y * w + cell_x;
        let c = self.cells[idx];
        let updated = if y_sub % 2 == 0 {
            HalfCell { top: ink, ..c }
        } else {
            HalfCell { bottom: ink, ..c }
        };
        self.cells.set(idx, updated);
    }

    fn set_overlay(&mut self, idx: usize, ch: char, ink: Ink)
        requires
            old(self).wf(),
            idx < old(self).spec_cells().len(),
        ensures
            final(self).wf(),
            final(self).spec_width() == old(self).spec_width(),
            final(self).spec_height() == old(self).spec_height(),
            final(self).spec_cells() == old(self).spec_cells().update(
                idx as int,
                written_cell(old(self).spec_cells()[idx as int], ch, ink),
            ),
    {
        let c = self.cells[idx];
        self.cells.set(idx, HalfCell { overlay: Some(Overlay { ch, ink }), ..c });
    }

    /// Writes `text` from cell `(x_cell, y_cell)` rightwards, one character per cell,
    /// over the pixels; characters past the grid's edge are dropped.
    pub fn put_text(&mut self, x_cell: u16, y_cell: u16, text: &str, ink: Ink)
        requires
            old(self).wf(),
        ensures
            final(self).wf(),
            final(self).spec_width() == old(self).spec_width(),
            final(self).spec_height() == old(self).spec_height(),
            final(self).spec_cells() == text_cells(
                old(self).spec_cells(),
                old(self).spec_width() as int,
                x_cell as int,
                y_cell as int,
                text@,
                ink,
                text@.len() as int,
            ),
    {
        let chars = chars_of(text);
        let w = self.width_cells;
        let h = self.height_cells;
        let ghost start = self.cells@;
        let mut i: usize = 0;
        proof {
            assert(start =~= text_cells(start, w as int, x_cell as int, y_cell as int, text@, ink, 0));
        }
        while i < chars.len()
            invariant
                self.wf(),
                w == self.width_cells,
                h == self.height_cells,
                chars@ == text@,
                start.len() == w * h,
                i <= chars.len(),
                self.cells@ == text_cells(start, w as int, x_cell as int, y_cell as int, text@, ink, i as int),
            decreases chars.len() - i,
        {
            let x0 = x_cell as usize;
            let cy = y_cell as usize;
            let fits = x0 < w && i < w - x0 && cy < h;
            proof {
                lemma_text_cells_step(start, w as int, h as int, x_cell as int, y_cell as int, text@, ink, i as int);
            }
            if fits {
                let cx = x0 + i;
                assert(cy * w + cx < w * h && w * h <= 65535 * 65535) by (nonlinear_arith)
                    requires
                        cy < h,
                        cx < w,
                        w <= 65535,
                        h <= 65535,
                ;
                let idx = cy * w + cx;
                self.set_overlay(idx, chars[i], ink);
            }
            i += 1;
        }
    }

    /// The glyph of cell `(x, y)`.
    pub fn glyph_at(&self, x: usize, y: usize) -> (g: CellGlyph)
        requires
            self.wf(),
            x < self.spec_width(),
            y < self.spec_height(),
        ensures
            g == spec_glyph(self.spec_cells()[y * self.spec_width() + x]),
    {
        let w = self.width_cells;
        assert(y * w + x < w * self.height_cells && w * self.height_cells <= 65535 * 65535)
            by (nonlinear_arith)
            requires
                y < self.height_cells,
                x < w,
                w <= 65535,
                self.height_cells <= 65535,
        ;
        cell_glyph(self.cells[y * w + x])
    }

    /// The cell `(x, y)` itself.
    pub fn cell_at(&self, x: usize, y: usize) -> (c: HalfCell)
        requires
            self.wf(),
            x < self.spec_width(),
            y < self.spec_height(),
        ensures
            c == self.spec_cells()[y * self.spec_width() + x],
    {
        let w = self.width_cells;
        assert(y * w + x < w * self.height_cells && w * self.height_cells <= 65535 * 65535)
            by (nonlinear_arith)
            requires
                y < self.height_cells,
                x < w,
                w <= 65535,
                self.height_cells <= 65535,
        ;
        self.cells[y * w + x]
    }
}

/// Text drawn over a cell always shows, whatever its pixels.
pub proof fn law_text_overlay_wins(c: HalfCell, ch: char, ink: Ink)
    ensures
        spec_glyph(written_cell(c, ch, ink)) == CellGlyph::Text(ch, ink),
{
}

} // verus!
