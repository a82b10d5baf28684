use timer::render::weathr::halfblock::{cell_glyph, CellGlyph, HalfBlockGrid, HalfCell, Ink, Overlay};

fn all_cells(g: &HalfBlockGrid) -> Vec<HalfCell> {
    let mut out = Vec::new();
    for y in 0..g.cell_height() as usize {
        for x in 0..g.cell_width() as usize {
            out.push(g.cell_at(x, y));
        }
    }
    out
}

#[test]
fn halfblock_canvas_plot_within_bounds() {
    let mut canvas = HalfBlockGrid::new(10, 5);
    canvas.plot(5, 8, Ink::White);
    assert_eq!(canvas.cell_at(5, 4).top, Ink::White);
}

#[test]
fn halfblock_canvas_plot_out_of_bounds_is_noop() {
    let mut canvas = HalfBlockGrid::new(10, 5);
    canvas.plot(-1, 0, Ink::White);
    canvas.plot(10, 0, Ink::White);
    canvas.plot(0, 10, Ink::White);
    assert!(all_cells(&canvas)
        .iter()
        .all(|cell| cell.top == Ink::Reset && cell.bottom == Ink::Reset && cell.overlay.is_none()));
}

#[test]
fn halfblock_canvas_text_overlay_takes_priority() {
    let mut canvas = HalfBlockGrid::new(10, 5);
    canvas.plot(0, 0, Ink::White);
    canvas.put_text(0, 0, "A", Ink::Red);
    assert!(canvas.cell_at(0, 0).overlay.is_some());
    assert_eq!(canvas.glyph_at(0, 0), CellGlyph::Text('A', Ink::Red));
}

#[test]
fn flush_produces_half_blocks() {
    let mut canvas = HalfBlockGrid::new(4, 2);
    canvas.plot(0, 0, Ink::Red);
    canvas.plot(0, 1, Ink::Blue);
    assert_eq!(canvas.glyph_at(0, 0), CellGlyph::Upper { fg: Ink::Red, bg: Some(Ink::Blue) });
}

#[test]
fn flush_clears_cells_after_canvas_clear() {
    let mut canvas = HalfBlockGrid::new(2, 1);
    canvas.plot(0, 0, Ink::Green);
    assert_eq!(canvas.glyph_at(0, 0), CellGlyph::Upper { fg: Ink::Green, bg: None });
    canvas.clear();
    assert_eq!(canvas.glyph_at(0, 0), CellGlyph::Blank);
}

#[test]
fn glyphs_for_each_pixel_pair() {
    let full = HalfCell { top: Ink::Rgb(1, 2, 3), bottom: Ink::Rgb(1, 2, 3), overlay: None };
    assert_eq!(cell_glyph(full), CellGlyph::Full(Ink::Rgb(1, 2, 3)));
    let lower = HalfCell { top: Ink::Reset, bottom: Ink::Cyan, overlay: None };
    assert_eq!(cell_glyph(lower), CellGlyph::Lower(Ink::Cyan));
    let text = HalfCell { top: Ink::Cyan, bottom: Ink::Cyan, overlay: Some(Overlay { ch: 'x', ink: Ink::White }) };
    assert_eq!(cell_glyph(text), CellGlyph::Text('x', Ink::White));
}

#[test]
fn text_is_cut_at_the_edge_and_resize_blanks() {
    let mut canvas = HalfBlockGrid::new(4, 2);
    canvas.put_text(2, 1, "héllo", Ink::Yellow);
    assert_eq!(canvas.glyph_at(2, 1), CellGlyph::Text('h', Ink::Yellow));
    assert_eq!(canvas.glyph_at(3, 1), CellGlyph::Text('é', Ink::Yellow));
    assert_eq!(canvas.glyph_at(0, 1), CellGlyph::Blank);
    canvas.resize(4, 2);
    assert_eq!(canvas.glyph_at(3, 1), CellGlyph::Text('é', Ink::Yellow));
    canvas.resize(5, 3);
    assert_eq!((canvas.cell_width(), canvas.cell_height()), (5, 3));
    assert_eq!(canvas.glyph_at(3, 1), CellGlyph::Blank);
}

#[test]
fn halfblock_canvas_basic() {
    let mut canvas = HalfBlockGrid::new(10, 5);
    canvas.plot(0, 0, Ink::White);
    assert_eq!(canvas.cell_width(), 10);
    assert_eq!(canvas.cell_height(), 5);
}
