//! Rendering of the aligned output rows as text lines: every cell is
//! framed by a fixed pad, and the five lines are the labels, the emojis,
//! the highs, a dashed separator, and the lows.

use vstd::prelude::*;
use crate::icons::emoji_spec;
use crate::periods::ForecastPeriod;
use crate::periods::build_rows;
use crate::periods::label_spec;
use crate::text::decimal_spec;
use crate::text::decimal_string;

verus! {

/// The concatenation of a row's cells, each framed by the `pre` and `post`
/// padding.
pub open spec fn cells_concat(cells: Seq<Seq<char>>, pre: Seq<char>, post: Seq<char>) -> Seq<char>
    decreases cells.len(),
{
    if cells.len() == 0 {
        Seq::empty()
    } else {
        cells_concat(cells.drop_last(), pre, post) + pre + cells.last() + post
    }
}

/// The views of a vector of cell strings.
pub open spec fn cell_views(cells: Seq<String>) -> Seq<Seq<char>> {
    Seq::new(cells.len(), |i: int| cells[i]@)
}

/// The label cells of a period sequence, one per day period.
pub open spec fn labels_cells(ps: Seq<ForecastPeriod>) -> Seq<Seq<char>> {
    Seq::new(((ps.len() + 1) / 2) as nat, |i: int| label_spec(ps[2 * i].name@))
}

/// The emoji cells of a period sequence, one per day period.
pub open spec fn emojis_cells(ps: Seq<ForecastPeriod>) -> Seq<Seq<char>> {
    Seq::new(((ps.len() + 1) / 2) as nat, |i: int| emoji_spec(ps[2 * i].short_forecast@))
}

/// The high-temperature cells of a period sequence, in decimal.
pub open spec fn highs_cells(ps: Seq<ForecastPeriod>) -> Seq<Seq<char>> {
    Seq::new(((ps.len() + 1) / 2) as nat, |i: int| decimal_spec(ps[2 * i].temperature))
}

/// The low-temperature cells of a period sequence, in decimal.
pub open spec fn lows_cells(ps: Seq<ForecastPeriod>) -> Seq<Seq<char>> {
    Seq::new((ps.len() / 2) as nat, |i: int| decimal_spec(ps[2 * i + 1].temperature))
}

/// The separator cells: one dash pair per day period.
pub open spec fn dashes_cells(n: nat) -> Seq<Seq<char>> {
    Seq::new(n, |i: int| "--"@)
}

/// Joins a row of cells into one line, framing each cell with the given
/// padding.
fn join_cells(cells: &Vec<String>, pre: &str, post: &str) -> (r: String)
    ensures
        r@ == cells_concat(cell_views(cells@), pre@, post@),
{
    let mut s = String::new();
    let mut i: usize = 0;
    proof {
        assert(cell_views(cells@.take(0)) =~= Seq::<Seq<char>>::empty());
    }
    while i < cells.len()
        invariant
            i <= cells@.len(),
            s@ == cells_concat(cell_views(cells@.take(i as int)), pre@, post@),
        decreases cells@.len() - i,
    {
        s.append(pre);
        s.append(cells[i].as_str());
        s.append(post);
        proof {
            let prev = cell_views(cells@.take(i as int));
            let cur = cell_views(cells@.take(i as int + 1));
            assert(cur.drop_last() =~= prev);
            assert(cur.last() == cells@[i as int]@);
        }
        i += 1;
    }
    proof {
        assert(cells@.take(cells@.len() as int) =~= cells@);
    }
    s
}

/// Renders each temperature of a row in decimal.
fn decimal_cells(v: &Vec<u8>) -> (r: Vec<String>)
    ensures
        r@.len() == v@.len(),
        forall|i: int| 0 <= i < v@.len() ==> r@[i]@ == decimal_spec(v@[i]),
{
    let mut out: Vec<String> = Vec::new();
    let mut i: usize = 0;
    while i < v.len()
        invariant
            i <= v@.len(),
            out@.len() == i,
            forall|j: int| 0 <= j < i ==> out@[j]@ == decimal_spec(v@[j]),
        decreases v@.len() - i,
    {
        out.push(decimal_string(v[i]));
        i += 1;
    }
    out
}

/// One dash-pair cell per column of the separator row.
fn dash_cells(n: usize) -> (r: Vec<String>)
    ensures
        r@.len() == n,
        forall|i: int| 0 <= i < n ==> r@[i]@ == "--"@,
{
    let mut out: Vec<String> = Vec::new();
    let mut i: usize = 0;
    while i < n
        invariant
            i <= n,
            out@.len() == i,
            forall|j: int| 0 <= j < i ==> out@[j]@ == "--"@,
        decreases n - i,
    {
        out.push(String::from_str("--"));
        i += 1;
    }
    out
}

/// Renders a period sequence as the five aligned output lines: labels,
/// emojis, highs, a dashed separator, and lows. Columns keep a consistent
/// pad per row, and an odd period count leaves the lows line one column
/// short.
pub fn render_lines(periods: &Vec<ForecastPeriod>) -> (r: Vec<String>)
    ensures
        r@.len() == 5,
        r@[0]@ == cells_concat(labels_cells(periods@), "  "@, "  "@),
        r@[1]@ == cells_concat(emojis_cells(periods@), "  "@, "   "@),
        r@[2]@ == cells_concat(highs_cells(periods@), "  "@, "  "@),
        r@[3]@ == cells_concat(dashes_cells(((periods@.len() + 1) / 2) as nat), "  "@, "  "@),
        r@[4]@ == cells_concat(lows_cells(periods@), "  "@, "  "@),
{
    let rows = build_rows(periods);
    let highs_text = decimal_cells(&rows.highs);
    let lows_text = decimal_cells(&rows.lows);
    let dashes = dash_cells(rows.highs.len());
    let labels_line = join_cells(&rows.labels, "  ", "  ");
    let emojis_line = join_cells(&rows.emojis, "  ", "   ");
    let highs_line = join_cells(&highs_text, "  ", "  ");
    let dashes_line = join_cells(&dashes, "  ", "  ");
    let lows_line = join_cells(&lows_text, "  ", "  ");
    proof {
        assert(cell_views(rows.labels@) =~= labels_cells(periods@));
        assert(cell_views(rows.emojis@) =~= emojis_cells(periods@));
        assert(cell_views(highs_text@) =~= highs_cells(periods@));
        assert(cell_views(dashes@) =~= dashes_cells(((periods@.len() + 1) / 2) as nat));
        assert(cell_views(lows_text@) =~= lows_cells(periods@));
    }
    let mut out: Vec<String> = Vec::new();
    out.push(labels_line);
    out.push(emojis_line);
    out.push(highs_line);
    out.push(dashes_line);
    out.push(lows_line);
    out
}

} // verus!
