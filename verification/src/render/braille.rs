//! Braille sub-pixel drawing: each terminal cell holds a 2 x 4 grid of dots, one bit each.

use vstd::prelude::*;

use crate::render::weathr::halfblock::{lemma_cell_coords, lemma_cell_of, lemma_same_cell};
use crate::text::chars_of;

verus! {

/// The bit of the Braille pattern (U+2800 + bits) for the dot in column `sub_x` (0 or 1)
/// and row `sub_y` (0 to 3) of a cell; 0 outside the grid.
pub open spec fn spec_braille_mask(sub_x: int, sub_y: int) -> u8 {
    if sub_x == 0 && sub_y == 0 {
        0x01
    } else if sub_x == 0 && sub_y == 1 {
        0x02
    } else if sub_x == 0 && sub_y == 2 {
        0x04
    } else if sub_x == 0 && sub_y == 3 {
        0x40
    } else if sub_x == 1 && sub_y == 0 {
        0x08
    } else if sub_x == 1 && sub_y == 1 {
        0x10
    } else if sub_x == 1 && sub_y == 2 {
        0x20
    } else if sub_x == 1 && sub_y == 3 {
        0x80
    } else {
        0
    }
}

pub fn braille_mask(sub_x: usize, sub_y: usize) -> (r: u8)
    ensures
        r == spec_braille_mask(sub_x as int, sub_y as int),
{
    match (sub_x, sub_y) {
        (0, 0) => 0x01,
        (0, 1) => 0x02,
        (0, 2) => 0x04,
        (0, 3) => 0x40,
        (1, 0) => 0x08,
        (1, 1) => 0x10,
        (1, 2) => 0x20,
        (1, 3) => 0x80,
        _ => 0,
    }
}

/// Whether `code` is a Unicode scalar value.
pub open spec fn is_scalar_value(code: u32) -> bool {
    code < 0xD800 || (0xE000 <= code && code <= 0x10FFFF)
}

/// `char::from_u32`: the character with the code `code`, if `code` is a Unicode scalar value.
#[verifier::external_body]
pub fn char_from_u32(code: u32) -> (r: Option<char>)
    ensures
        r == (if is_scalar_value(code) {
            Some(code as char)
        } else {
            None
        }),
{
    char::from_u32(code)
}

/// The Braille pattern character whose dots are `bits`.
pub fn braille_char(bits: u8) -> (c: char)
    ensures
        c == (0x2800 + bits) as char,
{
    let code: u32 = 0x2800 + bits as u32;
    match char_from_u32(code) {
        Some(c) => c,
        None => ' ',
    }
}

proof fn lemma_or_zero(x: u8)
    ensures
        x | 0 == x,
{
    assert(x | 0 == x) by (bit_vector);
}

proof fn lemma_or_assoc(a: u8, b: u8, c: u8)
    ensures
        (a | b) | c == a | (b | c),
{
    assert((a | b) | c == a | (b | c)) by (bit_vector);
}

/// The dots of column `sub_col` that the sub-rows `top..end` set in cell row `row`.
pub open spec fn span_bits(sub_col: int, top: int, end: int, row: int) -> u8
    decreases end - top,
{
    if end <= top {
        0
    } else {
        let before = span_bits(sub_col, top, end - 1, row);
        if (end - 1) / 4 == row {
            before | spec_braille_mask(sub_col, (end - 1) % 4)
        } else {
            before
        }
    }
}

/// Sets, in a column of cells, the dots of sub-column `sub_col` for every sub-row in
/// `top..bottom`; sub-rows below the last cell are ignored.
pub fn mark_column_span(cell_bits: &mut Vec<u8>, sub_col: usize, top: usize, bottom: usize)
    ensures
        final(cell_bits)@.len() == old(cell_bits)@.len(),
        forall|r: int|
            0 <= r < old(cell_bits)@.len() ==> #[trigger] final(cell_bits)@[r] == old(
                cell_bits,
            )@[r] | span_bits(sub_col as int, top as int, bottom as int, r),
{
    let ghost start = cell_bits@;
    let mut sub_row = top;
    proof {
        assert forall|r: int| 0 <= r < start.len() implies #[trigger] cell_bits@[r] == start[r]
            | span_bits(sub_col as int, top as int, sub_row as int, r) by {
            lemma_or_zero(start[r]);
        }
    }
    while sub_row < bottom
        invariant
            top <= sub_row,
            top <= bottom ==> sub_row <= bottom,
            top > bottom ==> sub_row == top,
            cell_bits@.len() == start.len(),
            forall|r: int|
                0 <= r < start.len() ==> #[trigger] cell_bits@[r] == start[r] | span_bits(
                    sub_col as int,
                    top as int,
                    sub_row as int,
                    r,
                ),
        decreases bottom - sub_row,
    {
        let cell_row = sub_row / 4;
        let dot_row = sub_row % 4;
        let ghost before = cell_bits@;
        if cell_row < cell_bits.len() {
            let m = braille_mask(sub_col, dot_row);
            let old_bits = cell_bits[cell_row];
            cell_bits.set(cell_row, old_bits | m);
        }
        proof {
            assert forall|r: int| 0 <= r < start.len() implies #[trigger] cell_bits@[r]
                == start[r] | span_bits(sub_col as int, top as int, sub_row + 1, r) by {
                let prev = span_bits(sub_col as int, top as int, sub_row as int, r);
                if r == cell_row as int {
                    lemma_or_assoc(start[r], prev, spec_braille_mask(sub_col as int, dot_row as int));
                }
            }
        }
        sub_row += 1;
    }
    proof {
        if top > bottom {
            assert(sub_row == top);
        }
        assert forall|r: int| 0 <= r < start.len() implies #[trigger] cell_bits@[r] == start[r]
            | span_bits(sub_col as int, top as int, bottom as int, r) by {
            if top > bottom {
                lemma_or_zero(start[r]);
            }
        }
    }
}

/// The character of the centre line of a seek bar `rows` cells high, in row `r`: a
/// Braille stroke along the boundary between the two middle rows, or a plain rule when
/// the bar is one row high.
pub open spec fn spec_seek_center_char(rows: int, r: int) -> char {
    if rows < 2 {
        '─'
    } else if r + 1 == rows / 2 {
        '\u{28C0}'
    } else if r == rows / 2 {
        '\u{2809}'
    } else {
        ' '
    }
}

pub fn seek_center_char(rows: usize, r: usize) -> (c: char)
    ensures
        c == spec_seek_center_char(rows as int, r as int),
{
    if rows < 2 {
        return '─';
    }
    let mid = rows / 2;
    if r == mid - 1 {
        '\u{28C0}'
    } else if r == mid {
        '\u{2809}'
    } else {
        ' '
    }
}

/// The characters of `text` (its first `n`) written from cell `(x, y)` rightwards over
/// the text layer `start` of a grid `w` cells wide, as far as the row reaches.
pub open spec fn text_layer<C>(
    start: Seq<Option<(char, C)>>,
    w: int,
    x: int,
    y: int,
    text: Seq<char>,
    ink: C,
    n: int,
) -> Seq<Option<(char, C)>> {
    Seq::new(start.len(), |k: int| text_slot(start[k], k, w, x, y, text, ink, n))
}

/// Cell `k` of the text layer after the write of `text_layer`.
pub open spec fn text_slot<C>(
    before: Option<(char, C)>,
    k: int,
    w: int,
    x: int,
    y: int,
    text: Seq<char>,
    ink: C,
    n: int,
) -> Option<(char, C)> {
    if k / w == y && x <= k % w < x + n {
        Some((text[k % w - x], ink))
    } else {
        before
    }
}

/// `s` cut or padded with `pad` to `n` entries, as `Vec::resize` leaves it.
pub open spec fn resized<T>(s: Seq<T>, n: nat, pad: T) -> Seq<T> {
    Seq::new(n, |i: int| if i < s.len() { s[i] } else { pad })
}

/// What a cell of a Braille grid puts on the terminal.
#[derive(Debug, Clone, Copy, PartialEq, Eq)]
pub enum BrailleGlyph<C> {
    /// Nothing is drawn: the terminal cell keeps what it had.
    Untouched,
    /// A text character in its ink.
    Text(char, C),
    /// A Braille pattern character in the cell's ink.
    Dots(char, C),
}

/// Text wins over dots; a cell without dots draws nothing.
pub open spec fn spec_braille_glyph<C>(text: Option<(char, C)>, bits: u8, ink: C) -> BrailleGlyph<C> {
    match text {
        Some((ch, t)) => BrailleGlyph::Text(ch, t),
        None => if bits == 0 {
            BrailleGlyph::Untouched
        } else {
            BrailleGlyph::Dots((0x2800 + bits) as char, ink)
        },
    }
}

/// Writing one more character changes only its own cell of the text layer, and only
/// where it fits in the row.
proof fn lemma_text_layer_step<C>(
    start: Seq<Option<(char, C)>>,
    w: int,
    h: int,
    x: int,
    y: int,
    text: Seq<char>,
    ink: C,
    i: int,
)
    requires
        0 <= w,
        0 <= h,
        0 <= x,
        0 <= y,
        0 <= i < text.len(),
        start.len() == w * h,
    ensures
        ({
            let before = text_layer(start, w, x, y, text, ink, i);
            let after = text_layer(start, w, x, y, text, ink, i + 1);
            if x < w && i < w - x && y < h {
                let target = y * w + (x + i);
                &&& 0 <= target < start.len()
                &&& after == before.update(target, Some((text[i], ink)))
            } else {
                after == before
            }
        }),
{
    let before = text_layer(start, w, x, y, text, ink, i);
    let after = text_layer(start, w, x, y, text, ink, i + 1);
    if x < w && i < w - x && y < h {
        let target = y * w + (x + i);
        assert(0 <= target < start.len()) by (nonlinear_arith)
            requires
                target == y * w + (x + i),
                0 <= x + i < w,
                0 <= y < h,
                start.len() == w * h,
        ;
        lemma_cell_of(target, w, y, x + i);
        assert forall|k: int| 0 <= k < start.len() implies #[trigger] after[k] == before.update(
            target,
            Some((text[i], ink)),
        )[k] by {
            lemma_cell_coords(k, w, h);
            if k / w == y && k % w == x + i {
                lemma_same_cell(k, w, k / w, k % w, y, x + i);
            }
        }
        assert(after =~= before.update(target, Some((text[i], ink))));
    } else {
        assert forall|k: int| 0 <= k < start.len() implies #[trigger] after[k] == before[k] by {
            lemma_cell_coords(k, w, h);
        }
        assert(after =~= before);
    }
}

/// A grid of Braille cells addressed by sub-pixel, each cell with one ink, and a layer
/// of text drawn over the dots.
pub struct BrailleGrid<C> {
    width_cells: usize,
    height_cells: usize,
    bits: Vec<u8>,
    inks: Vec<C>,
    text: Vec<Option<(char, C)>>,
    blank: C,
}

impl<C: Copy> BrailleGrid<C> {
    pub closed spec fn spec_width_cells(&self) -> nat {
        self.width_cells as nat
    }

    pub closed spec fn spec_height_cells(&self) -> nat {
        self.height_cells as nat
    }

    pub closed spec fn spec_bits(&self) -> Seq<u8> {
        self.bits@
    }

    pub closed spec fn spec_inks(&self) -> Seq<C> {
        self.inks@
    }

    /// The text layer, row by row.
    pub closed spec fn spec_text(&self) -> Seq<Option<(char, C)>> {
        self.text@
    }

    /// The ink of a cell that nothing was drawn in.
    pub closed spec fn spec_blank(&self) -> C {
        self.blank
    }

    /// The grid holds one entry per cell, row by row.
    pub closed spec fn wf(&self) -> bool {
        &&& self.width_cells <= u16::MAX
        &&& self.height_cells <= u16::MAX
        &&& self.bits@.len() == self.width_cells * self.height_cells
        &&& self.inks@.len() == self.width_cells * self.height_cells
        &&& self.text@.len() == self.width_cells * self.height_cells
    }

    /// The cell index of sub-pixel `(x, y)`.
    pub open spec fn cell_index(&self, x: int, y: int) -> int {
        (y / 4) * self.spec_width_cells() + x / 2
    }

    /// `bits`, `inks` and `text` brought to `size` entries, each kept where it is.
    fn resize_layers(
        bits: &mut Vec<u8>,
        inks: &mut Vec<C>,
        text: &mut Vec<Option<(char, C)>>,
        size: usize,
        fill: C,
    )
        ensures
            final(bits)@ == resized(old(bits)@, size as nat, 0u8),
            final(inks)@ == resized(old(inks)@, size as nat, fill),
            final(text)@ == resized(old(text)@, size as nat, None::<(char, C)>),
    {
        let ghost b0 = bits@;
        let ghost i0 = inks@;
        let ghost t0 = text@;
        bits.truncate(size);
        inks.truncate(size);
        text.truncate(size);
        assert(bits@ =~= resized(b0, bits@.len(), 0u8));
        assert(inks@ =~= resized(i0, inks@.len(), fill));
        assert(text@ =~= resized(t0, text@.len(), None::<(char, C)>));
        while bits.len() < size
            invariant
                bits@.len() <= size,
                bits@.len() >= b0.len() || bits@.len() == size,
                bits@ == resized(b0, bits@.len(), 0u8),
            decreases size - bits.len(),
        {
            bits.push(0);
            assert(bits@ =~= resized(b0, bits@.len(), 0u8));
        }
        while inks.len() < size
            invariant
                inks@.len() <= size,
                inks@.len() >= i0.len() || inks@.len() == size,
                inks@ == resized(i0, inks@.len(), fill),
            decreases size - inks.len(),
        {
            inks.push(fill);
            assert(inks@ =~= resized(i0, inks@.len(), fill));
        }
        while text.len() < size
            invariant
                text@.len() <= size,
                text@.len() >= t0.len() || text@.len() == size,
                text@ == resized(t0, text@.len(), None::<(char, C)>),
            decreases size - text.len(),
        {
            text.push(None);
            assert(text@ =~= resized(t0, text@.len(), None::<(char, C)>));
        }
        assert(bits@ =~= resized(b0, size as nat, 0u8));
        assert(inks@ =~= resized(i0, size as nat, fill));
        assert(text@ =~= resized(t0, size as nat, None::<(char, C)>));
    }

    /// An empty grid of `width` x `height` cells, each cell with ink `fill`.
    pub fn new(width: u16, height: u16, fill: C) -> (g: Self)
        ensures
            g.wf(),
            g.spec_width_cells() == width,
            g.spec_height_cells() == height,
            g.spec_blank() == fill,
            g.spec_bits() == Seq::new((width * height) as nat, |i: int| 0u8),
            g.spec_inks() == Seq::new((width * height) as nat, |i: int| fill),
            g.spec_text() == Seq::new((width * height) as nat, |i: int| None::<(char, C)>),
    {
        let width_cells = width as usize;
        let height_cells = height as usize;
        assert(width_cells * height_cells <= 65535 * 65535) by (nonlinear_arith)
            requires
                width_cells <= 65535,
                height_cells <= 65535,
        ;
        let size = width_cells * height_cells;
        let mut bits: Vec<u8> = Vec::new();
        let mut inks: Vec<C> = Vec::new();
        let mut text: Vec<Option<(char, C)>> = Vec::new();
        Self::resize_layers(&mut bits, &mut inks, &mut text, size, fill);
        assert(bits@ =~= Seq::new(size as nat, |i: int| 0u8));
        assert(inks@ =~= Seq::new(size as nat, |i: int| fill));
        assert(text@ =~= Seq::new(size as nat, |i: int| None::<(char, C)>));
        BrailleGrid { width_cells, height_cells, bits, inks, text, blank: fill }
    }

    /// Empties every cell: no dots, the blank ink, no text.
    pub fn clear(&mut self)
        requires
            old(self).wf(),
        ensures
            final(self).wf(),
            final(self).spec_width_cells() == old(self).spec_width_cells(),
            final(self).spec_height_cells() == old(self).spec_height_cells(),
            final(self).spec_blank() == old(self).spec_blank(),
            final(self).spec_bits() == Seq::new(old(self).spec_bits().len(), |i: int| 0u8),
            final(self).spec_inks() == Seq::new(old(self).spec_inks().len(), |i: int| old(self).spec_blank()),
            final(self).spec_text() == Seq::new(old(self).spec_text().len(), |i: int| None::<(char, C)>),
    {
        let size = self.bits.len();
        let fill = self.blank;
        let mut bits: Vec<u8> = Vec::new();
        let mut inks: Vec<C> = Vec::new();
        let mut text: Vec<Option<(char, C)>> = Vec::new();
        Self::resize_layers(&mut bits, &mut inks, &mut text, size, fill);
        assert(bits@ =~= Seq::new(size as nat, |i: int| 0u8));
        assert(inks@ =~= Seq::new(size as nat, |i: int| fill));
        assert(text@ =~= Seq::new(size as nat, |i: int| None::<(char, C)>));
        self.bits = bits;
        self.inks = inks;
        self.text = text;
    }

    /// Takes the size `width` x `height`. A new size keeps each layer's entries at their
    /// index and pads the rest empty; the same size keeps the grid.
    pub fn resize(&mut self, width: u16, height: u16)
        requires
            old(self).wf(),
        ensures
            final(self).wf(),
            final(self).spec_width_cells() == width,
            final(self).spec_height_cells() == height,
            final(self).spec_blank() == old(self).spec_blank(),
            final(self).spec_bits() == resized(old(self).spec_bits(), (width * height) as nat, 0u8),
            final(self).spec_inks() == resized(old(self).spec_inks(), (width * height) as nat, old(self).spec_blank()),
            final(self).spec_text() == resized(old(self).spec_text(), (width * height) as nat, None::<(char, C)>),
    {
        let w = width as usize;
        let h = height as usize;
        if w != self.width_cells || h != self.height_cells {
            assert(w * h <= 65535 * 65535) by (nonlinear_arith)
                requires
                    w <= 65535,
                    h <= 65535,
            ;
            let size = w * h;
            let fill = self.blank;
            let mut bits: Vec<u8> = Vec::new();
            let mut inks: Vec<C> = Vec::new();
            let mut text: Vec<Option<(char, C)>> = Vec::new();
            std::mem::swap(&mut bits, &mut self.bits);
            std::mem::swap(&mut inks, &mut self.inks);
            std::mem::swap(&mut text, &mut self.text);
            Self::resize_layers(&mut bits, &mut inks, &mut text, size, fill);
            self.width_cells = w;
            self.height_cells = h;
            self.bits = bits;
            self.inks = inks;
            self.text = text;
        } else {
            assert(self.bits@ =~= resized(self.bits@, (width * height) as nat, 0u8));
            assert(self.inks@ =~= resized(self.inks@, (width * height) as nat, self.blank));
            assert(self.text@ =~= resized(self.text@, (width * height) as nat, None::<(char, C)>));
        }
    }

    pub fn width_cells(&self) -> (r: usize)
        ensures
            r == self.spec_width_cells(),
    {
        self.width_cells
    }

    pub fn height_cells(&self) -> (r: usize)
        ensures
            r == self.spec_height_cells(),
    {
        self.height_cells
    }

    /// The number of sub-pixel columns: two per cell.
    pub fn width_sub(&self) -> (r: usize)
        requires
            self.wf(),
        ensures
            r == 2 * self.spec_width_cells(),
    {
        self.width_cells * 2
    }

    /// The number of sub-pixel rows: four per cell.
    pub fn height_sub(&self) -> (r: usize)
        requires
            self.wf(),
        ensures
            r == 4 * self.spec_height_cells(),
    {
        self.height_cells * 4
    }

    /// Sets the dot at sub-pixel `(x_sub, y_sub)` and gives its cell the ink `ink`; a dot
    /// outside the grid is ignored.
    pub fn plot(&mut self, x_sub: i32, y_sub: i32, ink: C)
        requires
            old(self).wf(),
        ensures
            final(self).wf(),
            final(self).spec_width_cells() == old(self).spec_width_cells(),
            final(self).spec_height_cells() == old(self).spec_height_cells(),
            final(self).spec_text() == old(self).spec_text(),
            final(self).spec_blank() == old(self).spec_blank(),
            ({
                let w = old(self).spec_width_cells() as int;
                let h = old(self).spec_height_cells() as int;
                let idx = old(self).cell_index(x_sub as int, y_sub as int);
                if 0 <= x_sub < 2 * w && 0 <= y_sub < 4 * h {
                    &&& final(self).spec_bits() == old(self).spec_bits().update(
                        idx,
                        old(self).spec_bits()[idx] | spec_braille_mask(
                            x_sub as int % 2,
                            y_sub as int % 4,
                        ),
                    )
                    &&& final(self).spec_inks() == old(self).spec_inks().update(idx, ink)
                } else {
                    &&& final(self).spec_bits() == old(self).spec_bits()
                    &&& final(self).spec_inks() == old(self).spec_inks()
                }
            }),
    {
        let w = self.width_cells;
        let h = self.height_cells;
        if x_sub < 0 || y_sub < 0 || x_sub as i64 >= 2 * w as i64 || y_sub as i64 >= 4
            * h as i64 {
            return;
        }
        let cell_x = (x_sub / 2) as usize;
        let cell_y = (y_sub / 4) as usize;
        let sub_x = (x_sub % 2) as usize;
        let sub_y = (y_sub % 4) as usize;
        assert(cell_y * w + cell_x < w * h && w * h <= 65535 * 65535) by (nonlinear_arith)
            requires
                cell_y < h,
                cell_x < w,
                w <= 65535,
                h <= 65535,
        ;
        let idx = cell_y * w + cell_x;
        let m = braille_mask(sub_x, sub_y);
        let old_bits = self.bits[idx];
        self.bits.set(idx, old_bits | m);
        self.inks.set(idx, ink);
    }

    /// Writes `text` from cell `(x_cell, y_cell)` rightwards, one character per cell, in
    /// the text layer; characters past the grid's edge are dropped.
    pub fn put_text(&mut self, x_cell: u16, y_cell: u16, text: &str, ink: C)
        requires
            old(self).wf(),
        ensures
            final(self).wf(),
            final(self).spec_width_cells() == old(self).spec_width_cells(),
            final(self).spec_height_cells() == old(self).spec_height_cells(),
            final(self).spec_blank() == old(self).spec_blank(),
            final(self).spec_bits() == old(self).spec_bits(),
            final(self).spec_inks() == old(self).spec_inks(),
            final(self).spec_text() == text_layer(
                old(self).spec_text(),
                old(self).spec_width_cells() as int,
                x_cell as int,
                y_cell as int,
                text@,
                ink,
                text@.len() as int,
            ),
    {
        let chars = chars_of(text);
        let w = self.width_cells;
        let h = self.height_cells;
        let ghost start = self.text@;
        let mut i: usize = 0;
        proof {
            assert(start =~= text_layer(start, w as int, x_cell as int, y_cell as int, text@, ink, 0));
        }
        while i < chars.len()
            invariant
                self.wf(),
                w == self.width_cells,
                h == self.height_cells,
                self.bits@ == old(self).spec_bits(),
                self.inks@ == old(self).spec_inks(),
                self.blank == old(self).spec_blank(),
                w == old(self).spec_width_cells(),
                h == old(self).spec_height_cells(),
                start == old(self).spec_text(),
                chars@ == text@,
                start.len() == w * h,
                i <= chars.len(),
                self.text@ == text_layer(start, w as int, x_cell as int, y_cell as int, text@, ink, i as int),
            decreases chars.len() - i,
        {
            let x0 = x_cell as usize;
            let cy = y_cell as usize;
            proof {
                lemma_text_layer_step(start, w as int, h as int, x_cell as int, y_cell as int, text@, ink, i as int);
            }
            if x0 < w && i < w - x0 && cy < h {
                let cx = x0 + i;
                assert(cy * w + cx < w * h && w * h <= 65535 * 65535) by (nonlinear_arith)
                    requires
                        cy < h,
                        cx < w,
                        w <= 65535,
                        h <= 65535,
                ;
                let idx = cy * w + cx;
                self.text.set(idx, Some((chars[i], ink)));
            }
            i += 1;
        }
    }

    /// The text written over cell `(x, y)`, if any.
    pub fn text_at(&self, x: usize, y: usize) -> (r: Option<(char, C)>)
        requires
            self.wf(),
            x < self.spec_width_cells(),
            y < self.spec_height_cells(),
        ensures
            r == self.spec_text()[y * self.spec_width_cells() + x],
    {
        let w = self.width_cells;
        assert(y * w + x < w * self.height_cells && w * self.height_cells <= 65535 * 65535)
            by (nonlinear_arith)
            requires
                y < self.height_cells,
                x < w,
                w <= 65535,
                self.height_cells <= 65535,
        ;
        self.text[y * w + x]
    }

    /// What cell `(x, y)` puts on the terminal: its text, else its dots in its ink, else
    /// nothing.
    pub fn glyph_at(&self, x: usize, y: usize) -> (g: BrailleGlyph<C>)
        requires
            self.wf(),
            x < self.spec_width_cells(),
            y < self.spec_height_cells(),
        ensures
            ({
                let k = y * self.spec_width_cells() + x;
                g == spec_braille_glyph(self.spec_text()[k], self.spec_bits()[k], self.spec_inks()[k])
            }),
    {
        let (bits, ink) = self.cell(x, y);
        match self.text_at(x, y) {
            Some((ch, t)) => BrailleGlyph::Text(ch, t),
            None => if bits == 0 {
                BrailleGlyph::Untouched
            } else {
                BrailleGlyph::Dots(braille_char(bits), ink)
            },
        }
    }

    /// The dots and ink of cell `(x, y)`.
    pub fn cell(&self, x: usize, y: usize) -> (r: (u8, C))
        requires
            self.wf(),
            x < self.spec_width_cells(),
            y < self.spec_height_cells(),
        ensures
            r.0 == self.spec_bits()[y * self.spec_width_cells() + x],
            r.1 == self.spec_inks()[y * self.spec_width_cells() + x],
    {
        let w = self.width_cells;
        assert(y * w + x < w * self.height_cells && w * self.height_cells <= 65535 * 65535)
            by (nonlinear_arith)
            requires
                y < self.height_cells,
                x < w,
                w <= 65535,
                self.height_cells <= 65535,
        ;
        let idx = y * w + x;
        (self.bits[idx], self.inks[idx])
    }
}

/// Text written over a Braille cell always shows, whatever dots and ink the cell has;
/// the cells it was not written to keep their text.
pub proof fn law_braille_text_wins<C>(
    start: Seq<Option<(char, C)>>,
    bits: u8,
    cell_ink: C,
    w: int,
    x: int,
    y: int,
    text: Seq<char>,
    ink: C,
    k: int,
)
    requires
        0 < w,
        0 <= k < start.len(),
    ensures
        ({
            let after = text_layer(start, w, x, y, text, ink, text.len() as int);
            &&& after.len() == start.len()
            &&& (k / w == y && x <= k % w < x + text.len()) ==> spec_braille_glyph(after[k], bits, cell_ink)
                == BrailleGlyph::Text(text[k % w - x], ink)
            &&& !(k / w == y && x <= k % w < x + text.len()) ==> after[k] == start[k]
        }),
{
}

} // verus!
