use std::time::Duration;

use timer::music::ui::{duration_text, queue_lines, repeat_label};
use timer::music::{ProviderKind, RepeatMode, TrackMeta};
use timer::render::braille::{braille_char, braille_mask, mark_column_span, seek_center_char, BrailleGlyph, BrailleGrid};
use timer::render::draw::{art_lines, figlet_lines, solidify_figlet_line};
use timer::render::noise::{noise_bits, pseudo_hash, scatter_hash};
use timer::render::progress::{format_duration, progress_bar_cells};
use timer::render::visualizer::{truncate_to_char_count, vis_band_width};

#[test]
fn truncate_handles_multibyte_chars() {
    let mut s = "ｱｲｳｴｵ".to_string();
    truncate_to_char_count(&mut s, 3);
    assert_eq!(s, "ｱｲｳ");
}

#[test]
fn truncate_keeps_short_strings() {
    let mut s = "abc".to_string();
    truncate_to_char_count(&mut s, 3);
    assert_eq!(s, "abc");
    truncate_to_char_count(&mut s, 0);
    assert_eq!(s, "");
}

#[test]
fn band_widths_fill_the_width() {
    let widths: Vec<usize> = (0..4).map(|b| vis_band_width(b, 23, 4)).collect();
    assert_eq!(widths, vec![5, 5, 5, 5]);
    assert_eq!(widths.iter().sum::<usize>() + 3, 23);
    let widths: Vec<usize> = (0..3).map(|b| vis_band_width(b, 12, 3)).collect();
    assert_eq!(widths, vec![4, 3, 3]);
    assert_eq!(vis_band_width(0, 9, 0), 9);
    assert_eq!(vis_band_width(1, 2, 4), 0);
}

#[test]
fn braille_dots_and_characters() {
    assert_eq!(braille_mask(0, 0), 0x01);
    assert_eq!(braille_mask(0, 3), 0x40);
    assert_eq!(braille_mask(1, 3), 0x80);
    assert_eq!(braille_mask(2, 0), 0);
    assert_eq!(braille_char(0), '\u{2800}');
    assert_eq!(braille_char(0xFF), '\u{28FF}');
}

#[test]
fn column_span_sets_dots_in_each_cell() {
    let mut bits = vec![0u8; 2];
    mark_column_span(&mut bits, 0, 2, 6);
    assert_eq!(bits, vec![0x04 | 0x40, 0x01 | 0x02]);
    mark_column_span(&mut bits, 1, 7, 20);
    assert_eq!(bits[1], 0x01 | 0x02 | 0x80);
    mark_column_span(&mut bits, 1, 5, 5);
    assert_eq!(bits[1], 0x01 | 0x02 | 0x80);
}

#[test]
fn seek_center_line() {
    assert_eq!(seek_center_char(1, 0), '─');
    assert_eq!(seek_center_char(2, 0), '\u{28C0}');
    assert_eq!(seek_center_char(2, 1), '\u{2809}');
    assert_eq!(seek_center_char(4, 0), ' ');
    assert_eq!(seek_center_char(4, 1), '\u{28C0}');
}

#[test]
fn braille_grid_plots_inside_only() {
    let mut grid: BrailleGrid<u32> = BrailleGrid::new(10, 2, 0);
    assert_eq!(grid.width_sub(), 20);
    assert_eq!(grid.height_sub(), 8);
    grid.plot(3, 5, 7);
    assert_eq!(grid.cell(1, 1), (0x10, 7));
    grid.plot(-1, 0, 9);
    grid.plot(20, 0, 9);
    grid.plot(0, 8, 9);
    assert_eq!(grid.cell(0, 0), (0, 0));
    assert_eq!(grid.cell(9, 1), (0, 0));
}

#[test]
fn progress_text() {
    assert_eq!(format_duration(Duration::from_secs(0)), "00:00");
    assert_eq!(format_duration(Duration::from_secs(3_725)), "62:05");
    assert_eq!(progress_bar_cells(2, 5), "●●···");
    assert_eq!(progress_bar_cells(9, 3), "●●●");
    assert_eq!(duration_text(Duration::from_secs(65), None), "01:05 / LIVE");
    assert_eq!(duration_text(Duration::from_secs(5), Some(Duration::from_millis(125_900))), "00:05 / 02:05");
    assert_eq!(repeat_label(RepeatMode::All), "ALL");
}

#[test]
fn figlet_rows_are_fitted() {
    let lines = figlet_lines("12", 80);
    assert!(!lines.is_empty());
    assert!(lines.iter().all(|l| !l.trim().is_empty()));
    let narrow = figlet_lines("12:34", 4);
    assert!(narrow.iter().all(|l| l.chars().count() <= 4));
    assert_eq!(figlet_lines("", 10), vec!["".to_string()]);
}

#[test]
fn art_lines_drop_blank_rows_and_cut_wide_ones() {
    let art = Some(" ab \n    \nabcdef\r\n".to_string());
    assert_eq!(art_lines("x", art, 4), vec![" ab ".to_string(), "abcd".to_string()]);
    assert_eq!(art_lines("x", None, 4), vec!["x".to_string()]);
    assert_eq!(solidify_figlet_line(" /_/ "), " /_/ ");
}

#[test]
fn queue_window_marks_current_and_selected() {
    let tracks: Vec<TrackMeta> = (0..3)
        .map(|i| TrackMeta {
            id: i,
            title: format!("t{i}"),
            artist: "a".into(),
            duration: None,
            provider: ProviderKind::Local,
            path_or_url: format!("/{i}"),
        })
        .collect();
    let lines = queue_lines(&tracks, Some(1), 2, 10);
    assert_eq!(lines.len(), 3);
    assert_eq!(lines[1], " ▶ ♪ t1");
    assert_eq!(lines[2], ">  ♪ t2");
    assert_eq!(queue_lines(&[], None, 0, 10), vec!["(empty queue)".to_string()]);
}

#[test]
fn braille_canvas_plot_within_bounds() {
    let mut canvas: BrailleGrid<u8> = BrailleGrid::new(10, 5, 0);
    canvas.plot(5, 8, 1);
    assert_ne!(canvas.cell(5 / 2, 8 / 4).0, 0);
}

#[test]
fn braille_canvas_plot_out_of_bounds_is_noop() {
    let mut canvas: BrailleGrid<u8> = BrailleGrid::new(10, 5, 0);
    canvas.plot(-1, 0, 1);
    canvas.plot(20, 0, 1);
    canvas.plot(0, 20, 1);
    for y in 0..5 {
        for x in 0..10 {
            assert_eq!(canvas.cell(x, y).0, 0);
        }
    }
}

#[test]
fn braille_canvas_text_overlay_takes_priority() {
    let mut canvas: BrailleGrid<u8> = BrailleGrid::new(10, 5, 0);
    canvas.plot(0, 0, 1);
    canvas.put_text(0, 0, "A", 2);
    assert!(canvas.text_at(0, 0).is_some());
    assert_eq!(canvas.glyph_at(0, 0), BrailleGlyph::Text('A', 2));
}

#[test]
fn braille_glyph_shows_dots_only_where_plotted() {
    let mut canvas: BrailleGrid<u8> = BrailleGrid::new(3, 2, 0);
    canvas.plot(1, 3, 7);
    assert_eq!(canvas.glyph_at(0, 0), BrailleGlyph::Dots('\u{2880}', 7));
    assert_eq!(canvas.glyph_at(1, 0), BrailleGlyph::Untouched);
}

#[test]
fn braille_text_is_clipped_at_the_right_edge() {
    let mut canvas: BrailleGrid<u8> = BrailleGrid::new(3, 1, 0);
    canvas.put_text(1, 0, "xyz", 4);
    assert_eq!(canvas.text_at(0, 0), None);
    assert_eq!(canvas.text_at(1, 0), Some(('x', 4)));
    assert_eq!(canvas.text_at(2, 0), Some(('y', 4)));
}

#[test]
fn braille_clear_empties_dots_inks_and_text() {
    let mut canvas: BrailleGrid<u8> = BrailleGrid::new(2, 2, 9);
    canvas.plot(0, 0, 1);
    canvas.put_text(1, 1, "q", 3);
    canvas.clear();
    assert_eq!(canvas.cell(0, 0), (0, 9));
    assert_eq!(canvas.text_at(1, 1), None);
    assert_eq!(canvas.glyph_at(0, 0), BrailleGlyph::Untouched);
}

#[test]
fn braille_resize_keeps_entries_by_index() {
    let mut canvas: BrailleGrid<u8> = BrailleGrid::new(2, 2, 0);
    canvas.plot(2, 0, 5);
    canvas.resize(3, 2);
    assert_eq!(canvas.width_cells(), 3);
    assert_eq!(canvas.cell(1, 0), (0x01, 5));
    assert_eq!(canvas.cell(2, 1), (0, 0));
    canvas.resize(1, 1);
    assert_eq!(canvas.cell(0, 0), (0, 0));
}

#[test]
fn texture_hash_is_fixed_by_its_inputs() {
    assert_eq!(pseudo_hash(1, 2, 3), 3357398997);
    assert_eq!(pseudo_hash(0, 0, 0), 0);
    assert_eq!(pseudo_hash(100, 50, 7), 821611900);
    assert_eq!(pseudo_hash(100, 50, 7), pseudo_hash(100, 50, 7));
}

#[test]
fn shimmer_noise_values() {
    assert_eq!(noise_bits(5, 7), 13888062912393216254);
    assert_eq!(noise_bits(0, 0), 0);
}

#[test]
fn scatter_hash_values() {
    assert_eq!(scatter_hash(1, 2, 3, 10), 492);
    assert_eq!(scatter_hash(0, 0, 0, 0), 0);
    assert_eq!(scatter_hash(7, 1, 4, 1000), 3472);
}
