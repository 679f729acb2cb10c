//! The compositor pipeline: frames, row reconstruction, encoding.

use plerustax::cell::{Area, Pixel};
use plerustax::color::Color;
use plerustax::encode::encode;
use plerustax::frame::{Drawable, Frame};
use plerustax::rows::{reconstruct, Row};

fn px(c: char, x: u16, y: u16) -> Pixel {
    Pixel::new(c).set_coords(x, y)
}

fn row_text(row: &Row) -> String {
    row.cells.iter().map(|p| p.char).collect()
}

fn flat_text(runs: &[plerustax::encode::Run]) -> String {
    runs.iter().flat_map(|r| r.text.iter().copied()).collect()
}

#[test]
fn scenario_hi_bang() {
    // Cells {(0,0,'H'), (1,0,'i'), (0,1,'!')}, default style: row 0 is
    // "Hi", row 1 is "!", and the payload joins them with one separator.
    let cells = vec![px('H', 0, 0), px('i', 1, 0), px('!', 0, 1)];
    let rows = reconstruct(&cells);
    assert_eq!(rows.len(), 2);
    assert_eq!(rows[0].y, 0);
    assert_eq!(row_text(&rows[0]), "Hi");
    assert_eq!(rows[0].cells.len(), 2);
    assert_eq!(rows[1].y, 1);
    assert_eq!(row_text(&rows[1]), "!");
    assert_eq!(rows[1].cells.len(), 1);

    let runs = encode(&rows);
    assert_eq!(flat_text(&runs), "Hi\n!");
    for r in &runs {
        assert_eq!(r.fg, Color::Reset);
        assert_eq!(r.bg, Color::Reset);
    }
    // All-default styling merges into a single run.
    assert_eq!(runs.len(), 1);
}

#[test]
fn scenario_sparse_row() {
    // A single cell at column 5 yields a six-column row: five blanks,
    // then 'X'.
    let cells = vec![px('X', 5, 0)];
    let rows = reconstruct(&cells);
    assert_eq!(rows.len(), 1);
    assert_eq!(rows[0].cells.len(), 6);
    assert_eq!(row_text(&rows[0]), "     X");
    for c in 0..5 {
        let p = rows[0].cells[c];
        assert_eq!(p.char, ' ');
        assert_eq!(p.fg, Color::Reset);
        assert_eq!(p.bg, Color::Reset);
        assert_eq!(p.x, c as u16);
        assert_eq!(p.y, 0);
    }
}

#[test]
fn gap_fill_completeness() {
    // Columns {2, 7} in one row: the row has length 8 and every column
    // in between is a defined blank.
    let cells = vec![px('a', 7, 3), px('b', 2, 3)];
    let rows = reconstruct(&cells);
    assert_eq!(rows.len(), 1);
    assert_eq!(rows[0].y, 3);
    assert_eq!(rows[0].cells.len(), 8);
    assert_eq!(row_text(&rows[0]), "  b    a");
    for (c, p) in rows[0].cells.iter().enumerate() {
        assert_eq!(p.x, c as u16);
        assert_eq!(p.y, 3);
    }
}

#[test]
fn order_independence() {
    // Shuffling distinct-position submissions reconstructs identically.
    let a = vec![px('q', 0, 0), px('w', 3, 0), px('e', 1, 2), px('r', 0, 2)];
    let b = vec![px('r', 0, 2), px('q', 0, 0), px('e', 1, 2), px('w', 3, 0)];
    let ra = reconstruct(&a);
    let rb = reconstruct(&b);
    assert_eq!(ra.len(), rb.len());
    for (x, y) in ra.iter().zip(rb.iter()) {
        assert_eq!(x.y, y.y);
        assert_eq!(x.cells, y.cells);
    }
}

#[test]
fn collision_last_wins() {
    // Two cells at one position: the later submission shows, character
    // and style both.
    let first = px('A', 1, 1).fg(Color::Red);
    let second = px('B', 1, 1).fg(Color::Blue).bg(Color::White);
    let cells = vec![first, second];
    let rows = reconstruct(&cells);
    assert_eq!(rows.len(), 1);
    let shown = rows[0].cells[1];
    assert_eq!(shown.char, 'B');
    assert_eq!(shown.fg, Color::Blue);
    assert_eq!(shown.bg, Color::White);
}

#[test]
fn empty_frame() {
    // No submissions: no rows, and the encoder emits nothing at all.
    let cells: Vec<Pixel> = Vec::new();
    let rows = reconstruct(&cells);
    assert_eq!(rows.len(), 0);
    let runs = encode(&rows);
    assert_eq!(runs.len(), 0);
}

#[test]
fn unwritten_rows_not_materialized() {
    // Rows 0 and 2 are written, row 1 is not: only two rows come out.
    let cells = vec![px('a', 0, 0), px('b', 0, 2)];
    let rows = reconstruct(&cells);
    assert_eq!(rows.len(), 2);
    assert_eq!(rows[0].y, 0);
    assert_eq!(rows[1].y, 2);
}

#[test]
fn run_merging_by_style() {
    // Adjacent equal styles merge into one run; a style change opens a
    // new one. Rendering is identical either way.
    let cells = vec![
        px('r', 0, 0).fg(Color::Red),
        px('r', 1, 0).fg(Color::Red),
        px('g', 2, 0).fg(Color::Green),
    ];
    let rows = reconstruct(&cells);
    let runs = encode(&rows);
    assert_eq!(runs.len(), 2);
    assert_eq!(runs[0].text, vec!['r', 'r']);
    assert_eq!(runs[0].fg, Color::Red);
    assert_eq!(runs[1].text, vec!['g']);
    assert_eq!(runs[1].fg, Color::Green);
    assert_eq!(flat_text(&runs), "rrg");
}

#[test]
fn frame_write_clips_silently() {
    // The frame keeps what lies inside its rectangle and drops the
    // rest, without failing.
    let mut f = Frame::new(4, 2);
    f.write(px('a', 0, 0));
    f.write(px('b', 3, 1));
    f.write(px('c', 4, 0)); // past the right edge
    f.write(px('d', 0, 2)); // below the bottom edge
    let cells = f.cells();
    assert_eq!(cells.len(), 2);
    assert_eq!(cells[0].char, 'a');
    assert_eq!(cells[1].char, 'b');
}

#[test]
fn frame_write_str_expands_and_clips() {
    // write_str lays a string out cell by cell from its start column
    // and clips what runs past the frame's right edge.
    let mut f = Frame::new(4, 2);
    f.write_str("hello", 2, 0, Color::Cyan, Color::Reset);
    let cells = f.cells();
    assert_eq!(cells.len(), 2);
    assert_eq!(cells[0].char, 'h');
    assert_eq!(cells[0].x, 2);
    assert_eq!(cells[1].char, 'e');
    assert_eq!(cells[1].x, 3);
    assert_eq!(cells[0].fg, Color::Cyan);
}

struct Banner;

impl Drawable for Banner {
    fn render(&self, frame: &mut Frame, area: Area) {
        frame.write_str("hi", area.x, area.y, Color::Reset, Color::Reset);
    }
}

#[test]
fn render_widget_hands_over_the_whole_frame() {
    let mut f = Frame::new(10, 2);
    f.render_widget(&Banner);
    let rows = reconstruct(f.cells());
    assert_eq!(rows.len(), 1);
    assert_eq!(row_text(&rows[0]), "hi");
}

#[test]
fn pixel_builders() {
    let p = Pixel::new('z');
    assert_eq!(p.char, 'z');
    assert_eq!((p.x, p.y), (0, 0));
    assert_eq!(p.fg, Color::Reset);
    assert_eq!(p.bg, Color::Reset);
    let q = p.fg(Color::Magenta).bg(Color::Grey).set_coords(7, 9);
    assert_eq!(q.char, 'z');
    assert_eq!((q.x, q.y), (7, 9));
    assert_eq!(q.fg, Color::Magenta);
    assert_eq!(q.bg, Color::Grey);
}

#[test]
fn ansi_palette() {
    assert_eq!(Color::Black.ansi_index(), Some(0));
    assert_eq!(Color::Red.ansi_index(), Some(1));
    assert_eq!(Color::Green.ansi_index(), Some(2));
    assert_eq!(Color::Yellow.ansi_index(), Some(3));
    assert_eq!(Color::Blue.ansi_index(), Some(4));
    assert_eq!(Color::Magenta.ansi_index(), Some(5));
    assert_eq!(Color::Cyan.ansi_index(), Some(6));
    assert_eq!(Color::White.ansi_index(), Some(7));
    assert_eq!(Color::Grey.ansi_index(), Some(8));
    assert_eq!(Color::Reset.ansi_index(), None);
}
