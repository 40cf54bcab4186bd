//! Board snapshots: the typed grid a `Plateau` record decodes to, and the
//! cell counting that feeds the on-screen overlay.

use vstd::prelude::*;
use crate::scan::{DecodeError, dims_of};

verus! {

/// One cell of a decoded board. The `Active` variants mark cells claimed in
/// the most recent move; the distinction drives the "just moved" highlight.
#[derive(Clone, Copy, Debug, PartialEq, Eq, Structural)]
pub enum CellState {
    Empty,
    OwnedFirst,
    OwnedSecond,
    ActiveFirst,
    ActiveSecond,
}

/// The cell a grid character decodes to: lowercase marks a fresh claim,
/// uppercase earlier territory; every other character carries no cell.
pub open spec fn cell_of(c: char) -> Option<CellState> {
    if c == '.' {
        Some(CellState::Empty)
    } else if c == 'X' {
        Some(CellState::OwnedFirst)
    } else if c == 'x' {
        Some(CellState::ActiveFirst)
    } else if c == 'O' {
        Some(CellState::OwnedSecond)
    } else if c == 'o' {
        Some(CellState::ActiveSecond)
    } else {
        None
    }
}

/// The cells of one grid line: characters outside `. x X o O` are dropped.
pub open spec fn cells_of(s: Seq<char>) -> Seq<CellState>
    decreases s.len(),
{
    if s.len() == 0 {
        Seq::empty()
    } else {
        match cell_of(s.last()) {
            Some(cs) => cells_of(s.drop_last()).push(cs),
            None => cells_of(s.drop_last()),
        }
    }
}

/// The cells of one grid line, filtered as `cells_of` states.
pub fn row_cells(line: &str) -> (row: Vec<CellState>)
    ensures
        row@ == cells_of(line@),
{
    let n: usize = line.unicode_len();
    let mut row: Vec<CellState> = Vec::new();
    let mut i: usize = 0;
    while i < n
        invariant
            i <= n,
            n == line@.len(),
            row@ == cells_of(line@.subrange(0, i as int)),
        decreases n - i,
    {
        let c = line.get_char(i);
        proof {
            assert(line@.subrange(0, i + 1).drop_last() =~= line@.subrange(0, i as int));
            assert(line@.subrange(0, i + 1).last() == line@[i as int]);
        }
        if c == '.' {
            row.push(CellState::Empty);
        } else if c == 'X' {
            row.push(CellState::OwnedFirst);
        } else if c == 'x' {
            row.push(CellState::ActiveFirst);
        } else if c == 'O' {
            row.push(CellState::OwnedSecond);
        } else if c == 'o' {
            row.push(CellState::ActiveSecond);
        }
        i = i + 1;
    }
    proof {
        assert(line@.subrange(0, n as int) =~= line@);
    }
    row
}

/// One decoded snapshot of the game grid. Immutable once decoded.
#[derive(Debug)]
pub struct Board {
    pub width: u32,
    pub height: u32,
    pub maps: Vec<Vec<CellState>>,
}

/// The grid views of the raw lines a board was decoded from.
pub open spec fn lines_view(rows: Seq<String>) -> Seq<Seq<char>> {
    rows.map_values(|s: String| s@)
}

/// The cell grid the raw grid lines decode to, row by row.
pub open spec fn grid_of(lines: Seq<Seq<char>>) -> Seq<Seq<CellState>> {
    lines.map_values(|l: Seq<char>| cells_of(l))
}

/// Whether a decoded grid honours the declared dimensions: exactly `height`
/// rows of exactly `width` cells each.
pub open spec fn grid_fits(grid: Seq<Seq<CellState>>, height: u32, width: u32) -> bool {
    &&& grid.len() == height
    &&& forall|i: int| 0 <= i < grid.len() ==> (#[trigger] grid[i]).len() == width
}

/// Whether a cell belongs to the first player (`first`) or the second.
pub open spec fn cell_belongs(c: CellState, first: bool) -> bool {
    if first {
        c == CellState::OwnedFirst || c == CellState::ActiveFirst
    } else {
        c == CellState::OwnedSecond || c == CellState::ActiveSecond
    }
}

/// Number of cells of one row that the chosen player holds.
pub open spec fn row_count(row: Seq<CellState>, first: bool) -> int
    decreases row.len(),
{
    if row.len() == 0 {
        0
    } else {
        row_count(row.drop_last(), first) + if cell_belongs(row.last(), first) {
            1int
        } else {
            0int
        }
    }
}

/// Number of cells of the whole grid that the chosen player holds.
pub open spec fn grid_count(grid: Seq<Seq<CellState>>, first: bool) -> int
    decreases grid.len(),
{
    if grid.len() == 0 {
        0
    } else {
        grid_count(grid.drop_last(), first) + row_count(grid.last(), first)
    }
}

impl Board {
    /// The shape invariant every decoded board carries.
    pub open spec fn well_formed(self) -> bool {
        grid_fits(self.maps@.map_values(|r: Vec<CellState>| r@), self.height, self.width)
    }

    /// The cell grid of this board as a mathematical sequence of rows.
    pub open spec fn grid(self) -> Seq<Seq<CellState>> {
        self.maps@.map_values(|r: Vec<CellState>| r@)
    }

    /// Build a board from already-decoded cell rows, refusing any grid that
    /// disagrees with the declared dimensions.
    pub fn from_cells(height: u32, width: u32, maps: Vec<Vec<CellState>>) -> (r: Result<
        Board,
        DecodeError,
    >)
        ensures
            grid_fits(maps@.map_values(|r: Vec<CellState>| r@), height, width) ==> (
            r matches Ok(b) && b.height == height && b.width == width && b.grid()
                == maps@.map_values(|r: Vec<CellState>| r@)),
            !grid_fits(maps@.map_values(|r: Vec<CellState>| r@), height, width) ==> r == Err::<
                Board,
                DecodeError,
            >(DecodeError::DimensionMismatch),
            r matches Ok(b) ==> b.well_formed(),
    {
        if maps.len() != height as usize {
            return Err(DecodeError::DimensionMismatch);
        }
        let mut i: usize = 0;
        while i < maps.len()
            invariant
                i <= maps@.len(),
                forall|j: int| 0 <= j < i ==> (#[trigger] maps@[j])@.len() == width,
            decreases maps@.len() - i,
        {
            if maps[i].len() != width as usize {
                proof {
                    assert(maps@.map_values(|r: Vec<CellState>| r@)[i as int] == maps@[i as int]@);
                }
                return Err(DecodeError::DimensionMismatch);
            }
            i = i + 1;
        }
        Ok(Board { width, height, maps })
    }

    /// Decode a board from its header line and its raw grid lines (the
    /// column-ruler line that follows the header is not among them). The
    /// header's second and third numeric tokens declare height and width;
    /// the grid must match them exactly.
    pub fn read(header: &str, lines: &Vec<String>) -> (r: Result<Board, DecodeError>)
        ensures
            dims_of(header@) is None ==> r == Err::<Board, DecodeError>(
                DecodeError::MalformedHeader,
            ),
            dims_of(header@) matches Some(d) ==> (if grid_fits(
                grid_of(lines_view(lines@)),
                d.0,
                d.1,
            ) {
                r matches Ok(b) && b.height == d.0 && b.width == d.1 && b.grid() == grid_of(
                    lines_view(lines@),
                )
            } else {
                r == Err::<Board, DecodeError>(DecodeError::DimensionMismatch)
            }),
            r matches Ok(b) ==> b.well_formed(),
    {
        let (height, width) = match crate::scan::decode_dims(header) {
            Ok(d) => d,
            Err(e) => {
                return Err(e);
            },
        };
        let mut maps: Vec<Vec<CellState>> = Vec::new();
        let mut i: usize = 0;
        while i < lines.len()
            invariant
                i <= lines@.len(),
                maps@.map_values(|r: Vec<CellState>| r@) =~= grid_of(
                    lines_view(lines@.subrange(0, i as int)),
                ),
            decreases lines@.len() - i,
        {
            let ghost old_grid = maps@.map_values(|r: Vec<CellState>| r@);
            let row = row_cells(lines[i].as_str());
            maps.push(row);
            proof {
                assert(maps@.map_values(|r: Vec<CellState>| r@) =~= old_grid.push(
                    cells_of(lines@[i as int]@),
                ));
                assert(lines_view(lines@.subrange(0, i + 1)) =~= lines_view(
                    lines@.subrange(0, i as int),
                ).push(lines@[i as int]@));
                assert(grid_of(lines_view(lines@.subrange(0, i + 1))) =~= grid_of(
                    lines_view(lines@.subrange(0, i as int)),
                ).push(cells_of(lines@[i as int]@)));
            }
            i = i + 1;
        }
        proof {
            assert(lines@.subrange(0, lines@.len() as int) =~= lines@);
            assert(maps@.map_values(|r: Vec<CellState>| r@) =~= grid_of(lines_view(lines@)));
        }
        Board::from_cells(height, width, maps)
    }

    /// Captured-cell counts of the two players on this board, first player
    /// then second; owned and freshly-claimed cells both count.
    pub fn counts(&self) -> (r: (u64, u64))
        requires
            self.well_formed(),
        ensures
            r.0 == grid_count(self.grid(), true),
            r.1 == grid_count(self.grid(), false),
    {
        let ghost grid = self.grid();
        let mut acc1: u64 = 0;
        let mut acc2: u64 = 0;
        let mut j: usize = 0;
        while j < self.maps.len()
            invariant
                self.well_formed(),
                grid == self.grid(),
                j <= grid.len(),
                grid.len() == self.height,
                acc1 == grid_count(grid.subrange(0, j as int), true),
                acc2 == grid_count(grid.subrange(0, j as int), false),
                acc1 <= j * self.width,
                acc2 <= j * self.width,
            decreases grid.len() - j,
        {
            let row = &self.maps[j];
            proof {
                assert(grid[j as int] == self.maps@[j as int]@);
            }
            let mut c1: u64 = 0;
            let mut c2: u64 = 0;
            let mut k: usize = 0;
            while k < row.len()
                invariant
                    k <= row@.len(),
                    row@.len() <= u32::MAX,
                    c1 == row_count(row@.subrange(0, k as int), true),
                    c2 == row_count(row@.subrange(0, k as int), false),
                    c1 <= k,
                    c2 <= k,
                decreases row@.len() - k,
            {
                proof {
                    assert(row@.subrange(0, k + 1).drop_last() =~= row@.subrange(0, k as int));
                    assert(row@.subrange(0, k + 1).last() == row@[k as int]);
                }
                match row[k] {
                    CellState::OwnedFirst | CellState::ActiveFirst => {
                        c1 = c1 + 1;
                    },
                    CellState::OwnedSecond | CellState::ActiveSecond => {
                        c2 = c2 + 1;
                    },
                    CellState::Empty => {},
                }
                k = k + 1;
            }
            proof {
                assert(row@.subrange(0, row@.len() as int) =~= row@);
                assert(grid.subrange(0, j + 1).drop_last() =~= grid.subrange(0, j as int));
                assert(grid.subrange(0, j + 1).last() == grid[j as int]);
                assert((j + 1) * self.width == j * self.width + self.width) by (nonlinear_arith);
                assert((j + 1) * self.width <= self.height * self.width) by (nonlinear_arith)
                    requires
                        j + 1 <= self.height,
                        self.width >= 0,
                ;
                assert(self.height * self.width < u64::MAX) by (nonlinear_arith)
                    requires
                        self.height <= u32::MAX,
                        self.width <= u32::MAX,
                ;
            }
            acc1 = acc1 + c1;
            acc2 = acc2 + c2;
            j = j + 1;
        }
        proof {
            assert(grid.subrange(0, grid.len() as int) =~= grid);
        }
        (acc1, acc2)
    }

    /// The decoded cell grid.
    pub fn maps(&self) -> (r: &Vec<Vec<CellState>>)
        ensures
            r == self.maps,
    {
        &self.maps
    }

    /// The declared board width in cells.
    pub fn width(&self) -> (r: u32)
        ensures
            r == self.width,
    {
        self.width
    }

    /// The declared board height in cells.
    pub fn height(&self) -> (r: u32)
        ensures
            r == self.height,
    {
        self.height
    }
}

} // verus!
