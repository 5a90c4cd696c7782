//! Text in a grid of terminal cells.

use vstd::prelude::*;

use crate::text::to_chars;

verus! {

/// The cells of a terminal, row after row.
#[derive(Debug)]
pub struct CellGrid {
    /// What each cell shows.
    pub symbols: Vec<String>,
    pub width: u16,
}

/// The length of a row; a grid without columns counts as one column wide.
pub open spec fn row_length(width: u16) -> int {
    if width == 0 {
        1
    } else {
        width as int
    }
}

/// Whether a cell shows a character.
pub open spec fn shows(symbol: Seq<char>, character: char) -> bool {
    symbol == seq![character]
}

/// Whether a text starts at a cell and stays in its row.
pub open spec fn starts_at(
    symbols: Seq<String>,
    width: int,
    needle: Seq<char>,
    index: int,
) -> bool {
    &&& index + needle.len() <= symbols.len()
    &&& index % width + needle.len() <= width
    &&& forall|k: int| 0 <= k < needle.len() ==> shows(#[trigger] symbols[index + k]@, needle[k])
}

/// The cells among the first `count` at which a text starts.
pub open spec fn starts(symbols: Seq<String>, width: int, needle: Seq<char>, count: int) -> Seq<
    usize,
>
    decreases count,
{
    if count <= 0 {
        Seq::empty()
    } else {
        let earlier = starts(symbols, width, needle, count - 1);
        if starts_at(symbols, width, needle, count - 1) {
            earlier.push((count - 1) as usize)
        } else {
            earlier
        }
    }
}

/// Reports whether a text starts at a cell and stays in its row.
fn text_starts_at(grid: &CellGrid, width: usize, needle: &Vec<char>, index: usize) -> (result: bool)
    requires
        index < grid.symbols@.len(),
        width > 0,
        needle@.len() > 0,
    ensures
        result == starts_at(grid.symbols@, width as int, needle@, index as int),
{
    if needle.len() > grid.symbols.len() - index {
        return false;
    }
    if needle.len() > width - index % width {
        return false;
    }
    let mut offset: usize = 0;
    assert(grid.symbols@.len() == grid.symbols.len());
    while offset < needle.len()
        invariant
            offset <= needle@.len(),
            index + needle@.len() <= grid.symbols@.len() <= usize::MAX,
            forall|k: int|
                0 <= k < offset ==> shows(#[trigger] grid.symbols@[index + k]@, needle@[k]),
        decreases needle@.len() - offset,
    {
        let symbol: Vec<char> = to_chars(grid.symbols[index + offset].as_str());
        if symbol.len() != 1 || symbol[0] != needle[offset] {
            assert(!shows(grid.symbols@[index + offset as int]@, needle@[offset as int]));
            return false;
        }
        assert(grid.symbols@[index + offset as int]@ =~= seq![needle@[offset as int]]);
        offset = offset + 1;
    }
    true
}

/// Finds every cell at which a text starts.
pub fn rendered_text_start_cells(grid: &CellGrid, needle: &str) -> (cells: Vec<usize>)
    requires
        needle@.len() > 0,
    ensures
        cells@ == starts(
            grid.symbols@,
            row_length(grid.width),
            needle@,
            grid.symbols@.len() as int,
        ),
{
    let width: usize = if grid.width == 0 {
        1
    } else {
        grid.width as usize
    };
    let wanted: Vec<char> = to_chars(needle);
    let mut cells: Vec<usize> = Vec::new();
    let mut index: usize = 0;
    while index < grid.symbols.len()
        invariant
            index <= grid.symbols@.len(),
            width == row_length(grid.width),
            wanted@ == needle@,
            needle@.len() > 0,
            cells@ == starts(grid.symbols@, width as int, needle@, index as int),
        decreases grid.symbols@.len() - index,
    {
        if text_starts_at(grid, width, &wanted, index) {
            cells.push(index);
        }
        index = index + 1;
    }
    cells
}

/// Finds the first cell at which a text starts.
pub fn rendered_text_start_cell(grid: &CellGrid, needle: &str) -> (cell: Option<usize>)
    requires
        needle@.len() > 0,
    ensures
        cell == (if starts(
            grid.symbols@,
            row_length(grid.width),
            needle@,
            grid.symbols@.len() as int,
        ).len() > 0 {
            Some(
                starts(
                    grid.symbols@,
                    row_length(grid.width),
                    needle@,
                    grid.symbols@.len() as int,
                )[0],
            )
        } else {
            None
        }),
{
    let cells: Vec<usize> = rendered_text_start_cells(grid, needle);
    if cells.len() == 0 {
        None
    } else {
        Some(cells[0])
    }
}

/// A cell is found exactly when the text starts there.
pub proof fn lemma_starts_are_complete(
    symbols: Seq<String>,
    width: int,
    needle: Seq<char>,
    count: int,
    index: int,
)
    requires
        0 <= index < count <= symbols.len() <= usize::MAX,
    ensures
        starts(symbols, width, needle, count).contains(index as usize) == starts_at(
            symbols,
            width,
            needle,
            index,
        ),
    decreases count,
{
    let earlier = starts(symbols, width, needle, count - 1);
    let all = starts(symbols, width, needle, count);
    lemma_starts_below(symbols, width, needle, count - 1);
    if index < count - 1 {
        lemma_starts_are_complete(symbols, width, needle, count - 1, index);
        if earlier.contains(index as usize) {
            let i = earlier.index_of(index as usize);
            assert(all[i] == index as usize);
        }
        if all.contains(index as usize) {
            let i = all.index_of(index as usize);
            assert(earlier[i] == index as usize);
        }
    } else {
        if starts_at(symbols, width, needle, index) {
            assert(all.last() == index as usize);
        } else if all.contains(index as usize) {
            let i = all.index_of(index as usize);
            assert(earlier[i] == index as usize);
        }
    }
}

proof fn lemma_starts_below(symbols: Seq<String>, width: int, needle: Seq<char>, count: int)
    requires
        count <= usize::MAX,
    ensures
        forall|i: int|
            0 <= i < starts(symbols, width, needle, count).len() ==> #[trigger] starts(
                symbols,
                width,
                needle,
                count,
            )[i] < count,
    decreases count,
{
    if count > 0 {
        lemma_starts_below(symbols, width, needle, count - 1);
        let earlier = starts(symbols, width, needle, count - 1);
        let all = starts(symbols, width, needle, count);
        assert forall|i: int| 0 <= i < all.len() implies #[trigger] all[i] < count by {
            if i < earlier.len() {
                assert(all[i] == earlier[i]);
            }
        }
    }
}

} // verus!
