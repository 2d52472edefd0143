//! The text of a terminal screen, put together from the characters of its
//! cells: one line per row, without trailing white space.
use vstd::prelude::*;

use crate::text::{join_strings, join_texts, string_of_range, string_views};

verus! {

/// Whether `c` is white space as `char::is_whitespace` decides it: the
/// characters of the Unicode `White_Space` property.
pub open spec fn is_white_space(c: char) -> bool {
    let n = c as u32;
    ||| 0x09 <= n <= 0x0D
    ||| n == 0x20
    ||| n == 0x85
    ||| n == 0xA0
    ||| n == 0x1680
    ||| 0x2000 <= n <= 0x200A
    ||| n == 0x2028
    ||| n == 0x2029
    ||| n == 0x202F
    ||| n == 0x205F
    ||| n == 0x3000
}

/// Whether `c` is white space.
pub fn white_space(c: char) -> (r: bool)
    ensures
        r == is_white_space(c),
{
    let n = c as u32;
    (0x09 <= n && n <= 0x0D) || n == 0x20 || n == 0x85 || n == 0xA0 || n == 0x1680 || (0x2000 <= n && n
        <= 0x200A) || n == 0x2028 || n == 0x2029 || n == 0x202F || n == 0x205F || n == 0x3000
}

/// `s` without the white space at its end, as `str::trim_end` gives it.
pub open spec fn trim_end(s: Seq<char>) -> Seq<char>
    decreases s.len(),
{
    if s.len() > 0 && is_white_space(s.last()) {
        trim_end(s.drop_last())
    } else {
        s
    }
}

/// The characters a row of cells shows: the characters of each cell in turn,
/// and a space for a cell that has none.
pub open spec fn cell_chars(cells: Seq<Vec<char>>) -> Seq<char>
    decreases cells.len(),
{
    if cells.len() == 0 {
        Seq::empty()
    } else {
        cell_chars(cells.drop_last()) + if cells.last()@.len() == 0 {
            seq![' ']
        } else {
            cells.last()@
        }
    }
}

/// The line of one row of a screen `cols` cells wide: its characters without
/// the trailing white space; a row whose cells could not be read counts as
/// `cols` spaces.
pub open spec fn row_line(row: Option<Vec<Vec<char>>>, cols: nat) -> Seq<char> {
    match row {
        Some(cells) => trim_end(cell_chars(cells@)),
        None => trim_end(Seq::new(cols, |i: int| ' ')),
    }
}

/// The lines of the rows of a screen.
pub open spec fn screen_lines(rows: Seq<Option<Vec<Vec<char>>>>, cols: nat) -> Seq<Seq<char>> {
    rows.map_values(|row: Option<Vec<Vec<char>>>| row_line(row, cols))
}

proof fn lemma_blank_trims_away(n: nat)
    ensures
        trim_end(Seq::new(n, |i: int| ' ')) =~= Seq::<char>::empty(),
    decreases n,
{
    if n > 0 {
        assert(Seq::new(n, |i: int| ' ').drop_last() =~= Seq::new((n - 1) as nat, |i: int| ' '));
        lemma_blank_trims_away((n - 1) as nat);
    }
}

/// The characters `cs` without their trailing white space.
pub fn trimmed(cs: &Vec<char>) -> (r: String)
    ensures
        r@ == trim_end(cs@),
{
    let mut end = cs.len();
    assert(cs@.take(end as int) =~= cs@);
    while end > 0 && white_space(cs[end - 1])
        invariant
            end <= cs@.len(),
            trim_end(cs@) == trim_end(cs@.take(end as int)),
        decreases end,
    {
        assert(cs@.take(end as int).drop_last() =~= cs@.take(end - 1));
        end = end - 1;
    }
    let r = string_of_range(cs, 0, end);
    assert(cs@.subrange(0, end as int) =~= cs@.take(end as int));
    r
}

/// The line of one row of a screen `cols` cells wide (see `row_line`).
pub fn row_text(row: &Option<Vec<Vec<char>>>, cols: usize) -> (r: String)
    ensures
        r@ == row_line(*row, cols as nat),
{
    match row {
        None => {
            proof {
                lemma_blank_trims_away(cols as nat);
            }
            String::new()
        },
        Some(cells) => {
            let mut line: Vec<char> = Vec::new();
            let mut i: usize = 0;
            while i < cells.len()
                invariant
                    i <= cells@.len(),
                    line@ == cell_chars(cells@.take(i as int)),
                decreases cells.len() - i,
            {
                assert(cells@.take(i + 1).drop_last() =~= cells@.take(i as int));
                let cell = &cells[i];
                if cell.len() == 0 {
                    line.push(' ');
                } else {
                    let ghost start = line@;
                    let mut j: usize = 0;
                    while j < cell.len()
                        invariant
                            j <= cell@.len(),
                            line@ == start + cell@.take(j as int),
                        decreases cell.len() - j,
                    {
                        line.push(cell[j]);
                        assert(cell@.take(j + 1) =~= cell@.take(j as int).push(cell@[j as int]));
                        j = j + 1;
                    }
                    assert(cell@.take(j as int) =~= cell@);
                }
                i = i + 1;
            }
            assert(cells@.take(i as int) =~= cells@);
            trimmed(&line)
        },
    }
}

/// The text of a screen `cols` cells wide: the lines of its rows, one after
/// another, with a newline between each two.
pub fn screen_text(rows: &Vec<Option<Vec<Vec<char>>>>, cols: usize) -> (r: String)
    ensures
        r@ == join_texts(screen_lines(rows@, cols as nat), "\n"@),
{
    let mut lines: Vec<String> = Vec::new();
    let mut i: usize = 0;
    while i < rows.len()
        invariant
            i <= rows@.len(),
            lines@.len() == i,
            string_views(lines@) =~= screen_lines(rows@.take(i as int), cols as nat),
        decreases rows.len() - i,
    {
        let line = row_text(&rows[i], cols);
        let ghost before = lines@;
        lines.push(line);
        proof {
            let sl = screen_lines(rows@.take(i + 1), cols as nat);
            assert forall|k: int| 0 <= k < i + 1 implies #[trigger] string_views(lines@)[k] == sl[k] by {
                if k < i {
                    assert(lines@[k] == before[k]);
                    assert(string_views(before)[k] == screen_lines(rows@.take(i as int), cols as nat)[k]);
                    assert(rows@.take(i + 1)[k] == rows@.take(i as int)[k]);
                } else {
                    assert(rows@.take(i + 1)[k] == rows@[i as int]);
                }
            }
            assert(string_views(lines@) =~= sl);
        }
        i = i + 1;
    }
    assert(rows@.take(i as int) =~= rows@);
    join_strings(&lines, "\n")
}

} // verus!
