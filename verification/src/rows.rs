//! Row reconstruction: from an unordered collection of submitted cells to
//! one dense, gap-filled row per distinct row index.
//!
//! The specification-level model is built from four functions over the raw
//! submission sequence: which positions are addressed ([`has_cell`]), which
//! cell wins at an addressed position ([`last_cell`]: the one submitted
//! last), the greatest column submitted in a row ([`row_max_x`]) and the
//! greatest used row index ([`max_row`]). A reconstructed row covers every
//! column up to the row's maximum, taking the winning cell where one was
//! submitted and a blank otherwise, and [`rows_of`] lists the used rows in
//! ascending order.

use vstd::prelude::*;
use vstd::seq_lib::{group_to_multiset_ensures, to_multiset_contains};

use crate::cell::{blank_at, Pixel};

verus! {

/// Whether some submitted cell addresses column `x` of row `y`.
pub open spec fn has_cell(s: Seq<Pixel>, x: int, y: int) -> bool {
    exists|i: int| 0 <= i < s.len() && s[i].x == x && s[i].y == y
}

/// The cell that wins at `(x, y)`: of all cells submitted there, the last.
pub open spec fn last_cell(s: Seq<Pixel>, x: int, y: int) -> Pixel
    decreases s.len(),
{
    if s.len() == 0 {
        arbitrary()
    } else if s.last().x == x && s.last().y == y {
        s.last()
    } else {
        last_cell(s.drop_last(), x, y)
    }
}

/// The greatest column submitted in row `y`, or -1 if the row is unused.
pub open spec fn row_max_x(s: Seq<Pixel>, y: int) -> int
    decreases s.len(),
{
    if s.len() == 0 {
        -1
    } else if s.last().y == y && s.last().x > row_max_x(s.drop_last(), y) {
        s.last().x as int
    } else {
        row_max_x(s.drop_last(), y)
    }
}

/// Whether any submitted cell lies in row `y`.
pub open spec fn row_used(s: Seq<Pixel>, y: int) -> bool {
    row_max_x(s, y) >= 0
}

/// The greatest used row index, or -1 if no cell was submitted at all.
pub open spec fn max_row(s: Seq<Pixel>) -> int
    decreases s.len(),
{
    if s.len() == 0 {
        -1
    } else if s.last().y as int > max_row(s.drop_last()) {
        s.last().y as int
    } else {
        max_row(s.drop_last())
    }
}

/// The cell the reconstructed row shows at `(x, y)`: the last submitted
/// cell there, or a synthesized blank where none was submitted.
pub open spec fn cell_at(s: Seq<Pixel>, x: int, y: int) -> Pixel {
    if has_cell(s, x, y) {
        last_cell(s, x, y)
    } else {
        blank_at(x as u16, y as u16)
    }
}

/// The dense, gap-filled row `y`: every column from 0 through the row's
/// greatest submitted column, with no gaps.
pub open spec fn row_of(s: Seq<Pixel>, y: int) -> Seq<Pixel> {
    Seq::new((row_max_x(s, y) + 1) as nat, |x: int| cell_at(s, x, y))
}

/// The used rows with index below `y`, in ascending order, each paired
/// with its reconstructed content.
pub open spec fn rows_upto(s: Seq<Pixel>, y: int) -> Seq<(int, Seq<Pixel>)>
    decreases y,
{
    if y <= 0 {
        Seq::empty()
    } else if row_used(s, y - 1) {
        rows_upto(s, y - 1).push((y - 1, row_of(s, y - 1)))
    } else {
        rows_upto(s, y - 1)
    }
}

/// The full reconstruction: every used row, ascending, dense and
/// gap-filled. Rows no cell was submitted to are not materialized.
pub open spec fn rows_of(s: Seq<Pixel>) -> Seq<(int, Seq<Pixel>)> {
    rows_upto(s, max_row(s) + 1)
}

/// `row_max_x` is what its name says: when the row is used it is the
/// column of some submitted cell of that row, and no cell of the row lies
/// beyond it.
pub proof fn lemma_row_max_x(s: Seq<Pixel>, y: int)
    ensures
        row_used(s, y) <==> exists|i: int| 0 <= i < s.len() && s[i].y == y,
        row_used(s, y) ==> has_cell(s, row_max_x(s, y), y),
        forall|i: int| 0 <= i < s.len() && s[i].y == y ==> s[i].x <= row_max_x(s, y),
        row_max_x(s, y) >= -1,
    decreases s.len(),
{
    if s.len() > 0 {
        lemma_row_max_x(s.drop_last(), y);
        assert forall|i: int| 0 <= i < s.len() && s[i].y == y implies s[i].x <= row_max_x(
            s,
            y,
        ) by {
            if i < s.len() - 1 {
                assert(s.drop_last()[i] == s[i]);
            }
        }
        if row_used(s, y) {
            if s.last().y == y && s.last().x > row_max_x(s.drop_last(), y) {
                assert(s[s.len() - 1].x == row_max_x(s, y) && s[s.len() - 1].y == y);
            } else {
                let i = choose|i: int|
                    0 <= i < s.drop_last().len() && s.drop_last()[i].x == row_max_x(s, y)
                        && s.drop_last()[i].y == y;
                assert(s[i] == s.drop_last()[i]);
            }
        }
        if exists|i: int| 0 <= i < s.len() && s[i].y == y {
            let i = choose|i: int| 0 <= i < s.len() && s[i].y == y;
            if i < s.len() - 1 {
                assert(s.drop_last()[i] == s[i]);
            }
        }
    }
}

/// `max_row` is the greatest used row index: some cell lies in it, and no
/// cell lies below it.
pub proof fn lemma_max_row(s: Seq<Pixel>)
    ensures
        s.len() > 0 ==> exists|i: int| 0 <= i < s.len() && s[i].y as int == max_row(s),
        forall|i: int| 0 <= i < s.len() ==> s[i].y <= max_row(s),
        s.len() == 0 ==> max_row(s) == -1,
    decreases s.len(),
{
    if s.len() > 0 {
        lemma_max_row(s.drop_last());
        assert forall|i: int| 0 <= i < s.len() implies s[i].y <= max_row(s) by {
            if i < s.len() - 1 {
                assert(s.drop_last()[i] == s[i]);
            }
        }
        if s.last().y as int > max_row(s.drop_last()) {
            assert(s[s.len() - 1].y as int == max_row(s));
        } else {
            let i = choose|i: int|
                0 <= i < s.drop_last().len() && s.drop_last()[i].y as int == max_row(
                    s.drop_last(),
                );
            assert(s[i] == s.drop_last()[i]);
        }
    }
}

/// One reconstructed row: its index and its dense cell sequence.
pub struct Row {
    pub y: u16,
    pub cells: Vec<Pixel>,
}

impl View for Row {
    type V = (int, Seq<Pixel>);

    open spec fn view(&self) -> (int, Seq<Pixel>) {
        (self.y as int, self.cells@)
    }
}

/// The greatest used row index, or `None` when no cell was submitted.
fn max_row_exec(cells: &Vec<Pixel>) -> (r: Option<u16>)
    ensures
        match r {
            Some(m) => m as int == max_row(cells@),
            None => cells@.len() == 0,
        },
{
    let mut best: Option<u16> = None;
    let mut i: usize = 0;
    while i < cells.len()
        invariant
            i <= cells@.len(),
            match best {
                Some(m) => m as int == max_row(cells@.take(i as int)),
                None => i == 0,
            },
        decreases cells@.len() - i,
    {
        proof {
            assert(cells@.take(i + 1).drop_last() =~= cells@.take(i as int));
            assert(cells@.take(i + 1).last() == cells@[i as int]);
            assert(max_row(cells@.take(i + 1)) == if cells@[i as int].y as int > max_row(
                cells@.take(i as int),
            ) {
                cells@[i as int].y as int
            } else {
                max_row(cells@.take(i as int))
            });
        }
        let y = cells[i].y;
        best = match best {
            None => Some(y),
            Some(m) => if y > m {
                Some(y)
            } else {
                Some(m)
            },
        };
        i += 1;
    }
    proof {
        assert(cells@.take(cells@.len() as int) =~= cells@);
    }
    best
}

/// The greatest column submitted in row `y`, or `None` when the row is
/// unused.
fn row_probe(cells: &Vec<Pixel>, y: u16) -> (r: Option<u16>)
    ensures
        match r {
            Some(m) => row_used(cells@, y as int) && m as int == row_max_x(cells@, y as int),
            None => !row_used(cells@, y as int),
        },
{
    let mut best: Option<u16> = None;
    let mut i: usize = 0;
    while i < cells.len()
        invariant
            i <= cells@.len(),
            match best {
                Some(m) => m as int == row_max_x(cells@.take(i as int), y as int),
                None => row_max_x(cells@.take(i as int), y as int) == -1,
            },
        decreases cells@.len() - i,
    {
        proof {
            assert(cells@.take(i + 1).drop_last() =~= cells@.take(i as int));
            assert(cells@.take(i + 1).last() == cells@[i as int]);
        }
        let p = cells[i];
        if p.y == y {
            best = match best {
                None => Some(p.x),
                Some(m) => if p.x > m {
                    Some(p.x)
                } else {
                    Some(m)
                },
            };
        }
        i += 1;
    }
    proof {
        assert(cells@.take(cells@.len() as int) =~= cells@);
    }
    best
}

/// The winning cell at `(x, y)`: the last one submitted there, or `None`
/// where the position was never addressed.
fn find_cell(cells: &Vec<Pixel>, x: u16, y: u16) -> (r: Option<Pixel>)
    ensures
        match r {
            Some(p) => has_cell(cells@, x as int, y as int) && p == last_cell(
                cells@,
                x as int,
                y as int,
            ),
            None => !has_cell(cells@, x as int, y as int),
        },
{
    let mut cur: Option<Pixel> = None;
    let mut i: usize = 0;
    while i < cells.len()
        invariant
            i <= cells@.len(),
            match cur {
                Some(p) => has_cell(cells@.take(i as int), x as int, y as int) && p == last_cell(
                    cells@.take(i as int),
                    x as int,
                    y as int,
                ),
                None => !has_cell(cells@.take(i as int), x as int, y as int),
            },
        decreases cells@.len() - i,
    {
        proof {
            assert(cells@.take(i + 1).drop_last() =~= cells@.take(i as int));
            assert(cells@.take(i + 1).last() == cells@[i as int]);
            if has_cell(cells@.take(i as int), x as int, y as int) {
                let j = choose|j: int|
                    0 <= j < i && cells@.take(i as int)[j].x == x as int && cells@.take(
                        i as int,
                    )[j].y == y as int;
                assert(cells@.take(i + 1)[j] == cells@.take(i as int)[j]);
            }
            if cells@[i as int].x == x && cells@[i as int].y == y {
                assert(cells@.take(i + 1)[i as int] == cells@[i as int]);
            }
        }
        let p = cells[i];
        if p.x == x && p.y == y {
            cur = Some(p);
        }
        i += 1;
    }
    proof {
        assert(cells@.take(cells@.len() as int) =~= cells@);
    }
    cur
}

/// The dense row `y`, given its greatest submitted column `mx`.
fn build_row(cells: &Vec<Pixel>, y: u16, mx: u16) -> (row: Vec<Pixel>)
    requires
        row_used(cells@, y as int),
        mx as int == row_max_x(cells@, y as int),
    ensures
        row@ == row_of(cells@, y as int),
{
    let mut row: Vec<Pixel> = Vec::new();
    let mut x: u32 = 0;
    while x <= mx as u32
        invariant
            x <= mx as u32 + 1,
            mx as int == row_max_x(cells@, y as int),
            row@ =~= row_of(cells@, y as int).take(x as int),
        decreases mx as int + 1 - x as int,
    {
        let c = match find_cell(cells, x as u16, y) {
            Some(p) => p,
            None => Pixel::new(' ').set_coords(x as u16, y),
        };
        row.push(c);
        proof {
            assert(row_of(cells@, y as int)[x as int] == cell_at(cells@, x as int, y as int));
            assert(row@ =~= row_of(cells@, y as int).take(x as int + 1));
        }
        x += 1;
    }
    proof {
        assert(row_of(cells@, y as int).take(mx as int + 1) =~= row_of(cells@, y as int));
    }
    row
}

/// Reconstructs the dense, gap-filled rows from the raw submissions:
/// every row some cell addressed, in ascending row order, each covering
/// columns 0 through the row's greatest submitted column, showing at each
/// column the cell submitted there last or a synthesized blank.
pub fn reconstruct(cells: &Vec<Pixel>) -> (rows: Vec<Row>)
    ensures
        rows@.map_values(|r: Row| r@) == rows_of(cells@),
{
    let mut rows: Vec<Row> = Vec::new();
    let last_row = match max_row_exec(cells) {
        Some(m) => m,
        None => {
            proof {
                assert(rows_upto(cells@, max_row(cells@) + 1) =~= Seq::<(
                    int,
                    Seq<Pixel>,
                )>::empty());
                assert(rows@.map_values(|r: Row| r@) =~= rows_of(cells@));
            }
            return rows;
        },
    };
    let mut y: u32 = 0;
    while y <= last_row as u32
        invariant
            y <= last_row as u32 + 1,
            last_row as int == max_row(cells@),
            rows@.map_values(|r: Row| r@) =~= rows_upto(cells@, y as int),
        decreases last_row as int + 1 - y as int,
    {
        if let Some(mx) = row_probe(cells, y as u16) {
            let content = build_row(cells, y as u16, mx);
            let row = Row { y: y as u16, cells: content };
            proof {
                assert(row@ == (y as int, row_of(cells@, y as int)));
            }
            rows.push(row);
            proof {
                assert(rows@.map_values(|r: Row| r@) =~= rows_upto(cells@, y as int + 1));
            }
        }
        y += 1;
    }
    proof {
        assert(rows@.map_values(|r: Row| r@) =~= rows_of(cells@));
    }
    rows
}

/// The winning cell at an addressed position is a submitted cell and sits
/// at that position.
pub proof fn lemma_last_cell_in(s: Seq<Pixel>, x: int, y: int)
    requires
        has_cell(s, x, y),
    ensures
        s.contains(last_cell(s, x, y)),
        last_cell(s, x, y).x == x,
        last_cell(s, x, y).y == y,
    decreases s.len(),
{
    if s.last().x == x && s.last().y == y {
        assert(s[s.len() - 1] == last_cell(s, x, y));
    } else {
        let i = choose|i: int| 0 <= i < s.len() && s[i].x == x && s[i].y == y;
        assert(s.drop_last()[i] == s[i]);
        lemma_last_cell_in(s.drop_last(), x, y);
        let j = choose|j: int|
            0 <= j < s.drop_last().len() && s.drop_last()[j] == last_cell(s.drop_last(), x, y);
        assert(s[j] == last_cell(s, x, y));
    }
}

/// Gap-fill completeness: a used row's reconstruction has exactly
/// `row_max_x + 1` columns, and every column in that range is defined:
/// it shows the last cell submitted there, or a synthesized blank where
/// none was.
pub proof fn lemma_gap_fill_complete(s: Seq<Pixel>, y: int)
    requires
        row_used(s, y),
    ensures
        row_of(s, y).len() == row_max_x(s, y) + 1,
        forall|x: int|
            0 <= x <= row_max_x(s, y) && has_cell(s, x, y) ==> #[trigger] row_of(s, y)[x]
                == last_cell(s, x, y),
        forall|x: int|
            0 <= x <= row_max_x(s, y) && !has_cell(s, x, y) ==> #[trigger] row_of(s, y)[x]
                == blank_at(x as u16, y as u16),
{
    lemma_row_max_x(s, y);
}

/// Collision determinism: when two cells share a position, the one
/// submitted later silently wins. `j` is the last submission at its
/// position, and `i` an earlier one: the reconstruction shows `s[j]`.
pub proof fn lemma_collision_last_wins(s: Seq<Pixel>, i: int, j: int)
    requires
        0 <= i < j < s.len(),
        s[i].x == s[j].x,
        s[i].y == s[j].y,
        forall|k: int| j < k < s.len() ==> !(s[k].x == s[j].x && s[k].y == s[j].y),
    ensures
        cell_at(s, s[j].x as int, s[j].y as int) == s[j],
    decreases s.len(),
{
    let x = s[j].x as int;
    let y = s[j].y as int;
    assert(has_cell(s, x, y));
    if j == s.len() - 1 {
        assert(last_cell(s, x, y) == s[j]);
    } else {
        assert(!(s.last().x == x && s.last().y == y));
        assert(s.drop_last()[i] == s[i] && s.drop_last()[j] == s[j]);
        assert(forall|k: int|
            j < k < s.drop_last().len() ==> !((#[trigger] s.drop_last()[k]).x == s[j].x
                && s.drop_last()[k].y == s[j].y));
        lemma_collision_last_wins(s.drop_last(), i, j);
    }
}

/// Whether no two submitted cells share a grid position.
pub open spec fn distinct_positions(s: Seq<Pixel>) -> bool {
    forall|i: int, j: int|
        0 <= i < j < s.len() ==> !((#[trigger] s[i]).x == (#[trigger] s[j]).x && s[i].y == s[j].y)
}

proof fn lemma_has_cell_contains(s: Seq<Pixel>, x: int, y: int)
    ensures
        has_cell(s, x, y) <==> exists|p: Pixel| s.contains(p) && p.x == x && p.y == y,
{
    if has_cell(s, x, y) {
        let i = choose|i: int| 0 <= i < s.len() && s[i].x == x && s[i].y == y;
        assert(s.contains(s[i]));
    }
    if exists|p: Pixel| s.contains(p) && p.x == x && p.y == y {
        let p = choose|p: Pixel| s.contains(p) && p.x == x && p.y == y;
        let i = choose|i: int| 0 <= i < s.len() && s[i] == p;
    }
}

proof fn lemma_row_used_contains(s: Seq<Pixel>, y: int)
    ensures
        row_used(s, y) <==> exists|p: Pixel| s.contains(p) && p.y == y,
{
    lemma_row_max_x(s, y);
    if row_used(s, y) {
        let i = choose|i: int| 0 <= i < s.len() && s[i].y == y;
        assert(s.contains(s[i]));
    }
    if exists|p: Pixel| s.contains(p) && p.y == y {
        let p = choose|p: Pixel| s.contains(p) && p.y == y;
        let i = choose|i: int| 0 <= i < s.len() && s[i] == p;
    }
}

/// With distinct positions, a position determines its cell.
proof fn lemma_unique_at_position(s: Seq<Pixel>, p: Pixel, q: Pixel)
    requires
        distinct_positions(s),
        s.contains(p),
        s.contains(q),
        p.x == q.x,
        p.y == q.y,
    ensures
        p == q,
{
    let i = choose|i: int| 0 <= i < s.len() && s[i] == p;
    let j = choose|j: int| 0 <= j < s.len() && s[j] == q;
    if i < j {
        assert(!(s[i].x == s[j].x && s[i].y == s[j].y));
    } else if j < i {
        assert(!(s[j].x == s[i].x && s[j].y == s[i].y));
    }
}

/// A reordering of distinct-position cells keeps positions distinct and
/// holds exactly the same cells.
proof fn lemma_reorder_same_cells(a: Seq<Pixel>, b: Seq<Pixel>)
    requires
        a.to_multiset() == b.to_multiset(),
        distinct_positions(a),
    ensures
        distinct_positions(b),
        forall|p: Pixel| a.contains(p) <==> b.contains(p),
        a.len() == b.len(),
{
    broadcast use group_to_multiset_ensures;
    broadcast use vstd::multiset::group_multiset_axioms;

    assert forall|p: Pixel| a.contains(p) <==> b.contains(p) by {
        to_multiset_contains(a, p);
        to_multiset_contains(b, p);
        assert(a.to_multiset().count(p) == b.to_multiset().count(p));
    }
    assert(a.len() == a.to_multiset().len());
    assert(b.len() == b.to_multiset().len());
    assert(a.no_duplicates()) by {
        assert forall|i: int, j: int| 0 <= i < j < a.len() implies a[i] != a[j] by {
            assert(!(a[i].x == a[j].x && a[i].y == a[j].y));
        }
    }
    a.lemma_multiset_has_no_duplicates();
    assert forall|p: Pixel| b.to_multiset().contains(p) implies b.to_multiset().count(p) == 1 by {
        assert(a.to_multiset().count(p) == b.to_multiset().count(p));
    }
    b.lemma_multiset_has_no_duplicates_conv();
    assert forall|i: int, j: int| 0 <= i < j < b.len() implies !((#[trigger] b[i]).x
        == (#[trigger] b[j]).x && b[i].y == b[j].y) by {
        if b[i].x == b[j].x && b[i].y == b[j].y {
            assert(b[i] != b[j]);
            assert(b.contains(b[i]) && b.contains(b[j]));
            assert(a.contains(b[i]) && a.contains(b[j]));
            lemma_unique_at_position(a, b[i], b[j]);
        }
    }
}

/// The reconstruction model is the same for any reordering: which
/// positions are addressed, which cell wins at each, each row's greatest
/// column and the greatest used row.
proof fn lemma_model_reorder(a: Seq<Pixel>, b: Seq<Pixel>)
    requires
        a.to_multiset() == b.to_multiset(),
        distinct_positions(a),
    ensures
        forall|x: int, y: int| has_cell(a, x, y) <==> has_cell(b, x, y),
        forall|y: int| #[trigger] row_max_x(a, y) == row_max_x(b, y),
        max_row(a) == max_row(b),
        forall|x: int, y: int|
            has_cell(a, x, y) ==> #[trigger] last_cell(a, x, y) == last_cell(b, x, y),
{
    lemma_reorder_same_cells(a, b);
    assert forall|x: int, y: int| has_cell(a, x, y) <==> has_cell(b, x, y) by {
        lemma_has_cell_contains(a, x, y);
        lemma_has_cell_contains(b, x, y);
    }
    assert forall|y: int| #[trigger] row_max_x(a, y) == row_max_x(b, y) by {
        lemma_row_max_x(a, y);
        lemma_row_max_x(b, y);
        lemma_row_used_contains(a, y);
        lemma_row_used_contains(b, y);
        if row_used(a, y) {
            assert(row_used(b, y));
            lemma_has_cell_contains(a, row_max_x(a, y), y);
            lemma_has_cell_contains(b, row_max_x(b, y), y);
            let p = choose|p: Pixel| a.contains(p) && p.x == row_max_x(a, y) && p.y == y;
            let q = choose|q: Pixel| b.contains(q) && q.x == row_max_x(b, y) && q.y == y;
            assert(b.contains(p) && a.contains(q));
            let ip = choose|i: int| 0 <= i < b.len() && b[i] == p;
            let iq = choose|i: int| 0 <= i < a.len() && a[i] == q;
            assert(b[ip].y == y && b[ip].x == row_max_x(a, y));
            assert(row_max_x(a, y) <= row_max_x(b, y));
            assert(a[iq].y == y && a[iq].x == row_max_x(b, y));
            assert(row_max_x(b, y) <= row_max_x(a, y));
        } else {
            assert(!row_used(b, y));
            assert(row_max_x(a, y) == -1 && row_max_x(b, y) == -1);
        }
    }
    assert(max_row(a) == max_row(b)) by {
        lemma_max_row(a);
        lemma_max_row(b);
        if a.len() > 0 {
            let i = choose|i: int| 0 <= i < a.len() && a[i].y as int == max_row(a);
            let j = choose|j: int| 0 <= j < b.len() && b[j].y as int == max_row(b);
            assert(b.contains(a[i]) && a.contains(b[j]));
            let ib = choose|k: int| 0 <= k < b.len() && b[k] == a[i];
            let ja = choose|k: int| 0 <= k < a.len() && a[k] == b[j];
        }
    }
    assert forall|x: int, y: int| has_cell(a, x, y) implies #[trigger] last_cell(a, x, y)
        == last_cell(b, x, y) by {
        lemma_last_cell_in(a, x, y);
        lemma_has_cell_contains(a, x, y);
        lemma_has_cell_contains(b, x, y);
        lemma_last_cell_in(b, x, y);
        assert(a.contains(last_cell(b, x, y)));
        lemma_unique_at_position(a, last_cell(a, x, y), last_cell(b, x, y));
    }
}

proof fn lemma_rows_upto_reorder(a: Seq<Pixel>, b: Seq<Pixel>, y: int)
    requires
        a.to_multiset() == b.to_multiset(),
        distinct_positions(a),
    ensures
        rows_upto(a, y) == rows_upto(b, y),
    decreases y,
{
    if y > 0 {
        lemma_rows_upto_reorder(a, b, y - 1);
        lemma_model_reorder(a, b);
        if row_used(a, y - 1) {
            assert(row_of(a, y - 1) =~= row_of(b, y - 1));
        }
    }
}

/// Order independence: as long as no two cells share a position, any
/// reordering of the submissions reconstructs to the identical rows.
pub proof fn lemma_order_independence(a: Seq<Pixel>, b: Seq<Pixel>)
    requires
        a.to_multiset() == b.to_multiset(),
        distinct_positions(a),
    ensures
        rows_of(a) == rows_of(b),
{
    lemma_model_reorder(a, b);
    lemma_rows_upto_reorder(a, b, max_row(a) + 1);
}

} // verus!
