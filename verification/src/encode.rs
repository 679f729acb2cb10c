//! Output encoding: folds reconstructed rows into a styled text payload.
//!
//! The payload is modelled as a sequence of styled characters: each cell
//! contributes one character carrying its colors, and rows are joined by a
//! single default-styled line separator, with none after the final row.
//! The encoder emits the payload as *runs*: maximal stretches of
//! consecutive characters sharing one style, so that the device write
//! needs one style change per run instead of one per character.

use vstd::prelude::*;

use crate::cell::Pixel;
use crate::color::Color;
use crate::rows::{rows_of, Row};

verus! {

/// One character of the encoded payload, with the style it is shown in.
#[derive(Clone, Copy, Debug, PartialEq, Eq, Structural)]
pub struct StyledChar {
    pub char: char,
    pub fg: Color,
    pub bg: Color,
}

/// A maximal stretch of payload characters sharing one style.
pub struct Run {
    pub text: Vec<char>,
    pub fg: Color,
    pub bg: Color,
}

/// The styled character a cell contributes to the payload.
pub open spec fn styled(p: Pixel) -> StyledChar {
    StyledChar { char: p.char, fg: p.fg, bg: p.bg }
}

/// The default-styled line separator between two rows.
pub open spec fn line_break() -> StyledChar {
    StyledChar { char: '\n', fg: Color::Reset, bg: Color::Reset }
}

/// The payload characters of one dense row.
pub open spec fn row_styled(row: Seq<Pixel>) -> Seq<StyledChar> {
    Seq::new(row.len(), |i: int| styled(row[i]))
}

/// The whole payload of a reconstructed frame: the rows in order, joined
/// by a single line separator, with no separator after the last row.
pub open spec fn payload_of_rows(rows: Seq<(int, Seq<Pixel>)>) -> Seq<StyledChar>
    decreases rows.len(),
{
    if rows.len() == 0 {
        Seq::empty()
    } else if rows.len() == 1 {
        row_styled(rows[0].1)
    } else {
        payload_of_rows(rows.drop_last()) + seq![line_break()] + row_styled(rows.last().1)
    }
}

/// The payload a frame's raw submissions commit: reconstruction followed
/// by encoding.
pub open spec fn payload_of_cells(cells: Seq<Pixel>) -> Seq<StyledChar> {
    payload_of_rows(rows_of(cells))
}

/// A stretch of text in one style, as payload characters.
pub open spec fn text_styled(text: Seq<char>, fg: Color, bg: Color) -> Seq<StyledChar>
    decreases text.len(),
{
    if text.len() == 0 {
        Seq::empty()
    } else {
        text_styled(text.drop_last(), fg, bg).push(StyledChar { char: text.last(), fg, bg })
    }
}

/// The characters a run stands for.
pub open spec fn run_styled(r: Run) -> Seq<StyledChar> {
    text_styled(r.text@, r.fg, r.bg)
}

/// The payload a sequence of runs stands for.
pub open spec fn runs_flat(runs: Seq<Run>) -> Seq<StyledChar>
    decreases runs.len(),
{
    if runs.len() == 0 {
        Seq::empty()
    } else {
        runs_flat(runs.drop_last()) + run_styled(runs.last())
    }
}

/// Whether two runs carry the same style.
pub open spec fn same_style(a: Run, b: Run) -> bool {
    a.fg == b.fg && a.bg == b.bg
}

/// Well-formed run sequence: no empty run, and no two adjacent runs that
/// could have been merged.
pub open spec fn runs_wf(runs: Seq<Run>) -> bool
    decreases runs.len(),
{
    if runs.len() == 0 {
        true
    } else {
        &&& runs_wf(runs.drop_last())
        &&& runs.last().text@.len() > 0
        &&& (runs.len() >= 2 ==> !same_style(runs[runs.len() - 2], runs.last()))
    }
}

/// Appends one payload character, merging it into the last run when the
/// style matches and opening a new run otherwise.
fn push_styled(runs: &mut Vec<Run>, c: char, fg: Color, bg: Color)
    requires
        runs_wf(old(runs)@),
    ensures
        runs_wf(final(runs)@),
        runs_flat(final(runs)@) == runs_flat(old(runs)@).push(StyledChar { char: c, fg, bg }),
{
    let ghost before = runs@;
    let n = runs.len();
    if n > 0 && runs[n - 1].fg == fg && runs[n - 1].bg == bg {
        let mut last = runs.pop().unwrap();
        last.text.push(c);
        runs.push(last);
        proof {
            assert(runs@.drop_last() =~= before.drop_last());
            let r = runs@.last();
            assert(r.text@.drop_last() =~= before.last().text@);
            assert(run_styled(runs@.last()) =~= run_styled(before.last()).push(
                StyledChar { char: c, fg, bg },
            ));
            assert(runs_flat(runs@) =~= runs_flat(before).push(StyledChar { char: c, fg, bg }));
        }
    } else {
        let mut text: Vec<char> = Vec::new();
        text.push(c);
        runs.push(Run { text, fg, bg });
        proof {
            assert(runs@.drop_last() =~= before);
            let r = runs@.last();
            assert(r.text@ =~= seq![c]);
            assert(r.text@.drop_last() =~= Seq::<char>::empty());
            assert(text_styled(Seq::<char>::empty(), fg, bg) =~= Seq::<StyledChar>::empty());
            assert(run_styled(runs@.last()) =~= seq![StyledChar { char: c, fg, bg }]);
            assert(runs_flat(runs@) =~= runs_flat(before).push(StyledChar { char: c, fg, bg }));
        }
    }
}

/// Encodes reconstructed rows into styled runs whose flattening is
/// exactly the payload: each cell one styled character, rows joined by a
/// single default-styled line separator, adjacent equal-style characters
/// merged into one run.
pub fn encode(rows: &Vec<Row>) -> (runs: Vec<Run>)
    ensures
        runs_flat(runs@) == payload_of_rows(rows@.map_values(|r: Row| r@)),
        runs_wf(runs@),
        rows@.len() == 0 ==> runs@.len() == 0,
{
    let ghost rowsv = rows@.map_values(|r: Row| r@);
    let mut runs: Vec<Run> = Vec::new();
    let mut r: usize = 0;
    while r < rows.len()
        invariant
            r <= rows@.len(),
            rowsv == rows@.map_values(|x: Row| x@),
            runs_wf(runs@),
            runs_flat(runs@) == payload_of_rows(rowsv.take(r as int)),
            r == 0 ==> runs@.len() == 0,
        decreases rows@.len() - r,
    {
        proof {
            assert(rowsv.take(r + 1).drop_last() =~= rowsv.take(r as int));
            assert(rowsv.take(r + 1).last() == rowsv[r as int]);
        }
        if r > 0 {
            push_styled(&mut runs, '\n', Color::Reset, Color::Reset);
        }
        let ghost mid = runs_flat(runs@);
        let row = &rows[r];
        let mut c: usize = 0;
        while c < row.cells.len()
            invariant
                c <= row.cells@.len(),
                runs_wf(runs@),
                runs_flat(runs@) == mid + row_styled(row.cells@.take(c as int)),
            decreases row.cells@.len() - c,
        {
            let p = row.cells[c];
            push_styled(&mut runs, p.char, p.fg, p.bg);
            proof {
                assert(row_styled(row.cells@.take(c + 1)) =~= row_styled(
                    row.cells@.take(c as int),
                ).push(styled(p)));
                assert(runs_flat(runs@) =~= mid + row_styled(row.cells@.take(c + 1)));
            }
            c += 1;
        }
        proof {
            assert(row.cells@.take(row.cells@.len() as int) =~= row.cells@);
            assert(rowsv[r as int].1 == row.cells@);
            assert(runs_flat(runs@) =~= payload_of_rows(rowsv.take(r + 1)));
        }
        r += 1;
    }
    proof {
        assert(rowsv.take(rows@.len() as int) =~= rowsv);
    }
    runs
}

/// Order independence reaches the device: as long as no two cells share
/// a position, any reordering of the submissions commits the identical
/// styled payload.
pub proof fn lemma_payload_order_independence(a: Seq<Pixel>, b: Seq<Pixel>)
    requires
        a.to_multiset() == b.to_multiset(),
        crate::rows::distinct_positions(a),
    ensures
        payload_of_cells(a) == payload_of_cells(b),
{
    crate::rows::lemma_order_independence(a, b);
}

/// An empty frame produces an empty payload: no rows, no separator, no
/// visible characters.
pub proof fn lemma_empty_frame_payload()
    ensures
        payload_of_cells(Seq::empty()) == Seq::<StyledChar>::empty(),
{
    let s = Seq::<Pixel>::empty();
    assert(rows_of(s) =~= Seq::<(int, Seq<Pixel>)>::empty());
}

} // verus!
