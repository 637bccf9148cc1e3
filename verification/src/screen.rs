//! Glyph grids and the text that puts one on the terminal.
use vstd::prelude::*;

verus! {

/// The rows of a grid as sequences of glyphs.
pub open spec fn rows(grid: Seq<Vec<char>>) -> Seq<Seq<char>> {
    grid.map_values(|row: Vec<char>| row@)
}

/// Every row is as long as the first.
pub open spec fn rectangular(grid: Seq<Seq<char>>) -> bool {
    forall|i: int| 0 <= i < grid.len() ==> (#[trigger] grid[i]).len() == grid[0].len()
}

/// The control sequence that clears the terminal and moves the cursor to
/// its top left corner: `ESC [ 2 J ESC [ H`.
pub open spec fn clear() -> Seq<char> {
    seq!['\x1b', '[', '2', 'J', '\x1b', '[', 'H']
}

/// The rows one after the other, each followed by a line break.
pub open spec fn lines(grid: Seq<Seq<char>>) -> Seq<char>
    decreases grid.len(),
{
    if grid.len() == 0 {
        Seq::empty()
    } else {
        lines(grid.drop_last()) + grid.last() + seq!['\n']
    }
}

/// What is written to show a grid: the clear sequence, then the rows.
pub open spec fn screen(grid: Seq<Seq<char>>) -> Seq<char> {
    clear() + lines(grid)
}

/// Whether every row of `grid` is as long as its first row.
pub fn is_rectangular(grid: &Vec<Vec<char>>) -> (even: bool)
    ensures
        even == rectangular(rows(grid@)),
{
    let mut i: usize = 0;
    while i < grid.len()
        invariant
            i <= grid.len(),
            forall|k: int| 0 <= k < i ==> (#[trigger] rows(grid@)[k]).len() == rows(grid@)[0].len(),
        decreases grid.len() - i,
    {
        if grid[i].len() != grid[0].len() {
            assert(rows(grid@)[i as int].len() != rows(grid@)[0].len());
            return false;
        }
        i += 1;
    }
    true
}

/// The text that shows `grid` on a terminal: the clear sequence, then each
/// row followed by a line break.
pub fn screen_text(grid: &Vec<Vec<char>>) -> (text: Vec<char>)
    ensures
        text@ == screen(rows(grid@)),
{
    let mut text: Vec<char> = Vec::new();
    text.push('\x1b');
    text.push('[');
    text.push('2');
    text.push('J');
    text.push('\x1b');
    text.push('[');
    text.push('H');
    assert(text@ =~= clear());
    let mut i: usize = 0;
    assert(rows(grid@).take(0) =~= Seq::<Seq<char>>::empty());
    while i < grid.len()
        invariant
            i <= grid.len(),
            text@ == clear() + lines(rows(grid@).take(i as int)),
        decreases grid.len() - i,
    {
        let row = &grid[i];
        let ghost before = text@;
        let mut j: usize = 0;
        while j < row.len()
            invariant
                j <= row.len(),
                text@ == before + row@.take(j as int),
            decreases row.len() - j,
        {
            text.push(row[j]);
            assert(row@.take(j + 1) =~= row@.take(j as int).push(row@[j as int]));
            j += 1;
        }
        text.push('\n');
        proof {
            let done = rows(grid@).take(i as int);
            let more = rows(grid@).take(i + 1);
            assert(more.drop_last() =~= done);
            assert(more.last() == row@);
            assert(row@.take(row@.len() as int) =~= row@);
            assert(text@ =~= clear() + lines(more));
        }
        i += 1;
    }
    assert(rows(grid@).take(grid@.len() as int) =~= rows(grid@));
    text
}

} // verus!
