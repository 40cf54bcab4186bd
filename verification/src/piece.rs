//! Move-candidate shapes: a `Piece` record is decoded only so the stream
//! cursor stays aligned; nothing downstream renders it.

use vstd::prelude::*;
use crate::board::{lines_view};
use crate::scan::{DecodeError, dims_of};

verus! {

/// One cell of a piece shape.
#[derive(Clone, Copy, Debug, PartialEq, Eq, Structural)]
pub enum PieceCell {
    Empty,
    Filled,
}

/// The piece cell a grid character decodes to: `.` is empty, the four claim
/// marks are filled, every other character carries no cell.
pub open spec fn piece_cell_of(c: char) -> Option<PieceCell> {
    if c == '.' {
        Some(PieceCell::Empty)
    } else if c == 'x' || c == 'X' || c == 'o' || c == 'O' {
        Some(PieceCell::Filled)
    } else {
        None
    }
}

/// The piece cells of one grid line, under the same character filter as a
/// board line.
pub open spec fn piece_cells_of(s: Seq<char>) -> Seq<PieceCell>
    decreases s.len(),
{
    if s.len() == 0 {
        Seq::empty()
    } else {
        match piece_cell_of(s.last()) {
            Some(pc) => piece_cells_of(s.drop_last()).push(pc),
            None => piece_cells_of(s.drop_last()),
        }
    }
}

/// The piece grid the raw lines decode to, row by row.
pub open spec fn piece_grid_of(lines: Seq<Seq<char>>) -> Seq<Seq<PieceCell>> {
    lines.map_values(|l: Seq<char>| piece_cells_of(l))
}

/// The piece cells of one grid line, filtered as `piece_cells_of` states.
pub(crate) fn piece_row_cells(line: &str) -> (row: Vec<PieceCell>)
    ensures
        row@ == piece_cells_of(line@),
{
    let n: usize = line.unicode_len();
    let mut row: Vec<PieceCell> = Vec::new();
    let mut i: usize = 0;
    while i < n
        invariant
            i <= n,
            n == line@.len(),
            row@ == piece_cells_of(line@.subrange(0, i as int)),
        decreases n - i,
    {
        let c = line.get_char(i);
        proof {
            assert(line@.subrange(0, i + 1).drop_last() =~= line@.subrange(0, i as int));
            assert(line@.subrange(0, i + 1).last() == line@[i as int]);
        }
        if c == '.' {
            row.push(PieceCell::Empty);
        } else if c == 'x' || c == 'X' || c == 'o' || c == 'O' {
            row.push(PieceCell::Filled);
        }
        i = i + 1;
    }
    proof {
        assert(line@.subrange(0, n as int) =~= line@);
    }
    row
}

/// A decoded move-candidate shape. Consumed for stream alignment and
/// diagnostics only; the row count must match the declared height, and the
/// rows are kept as the character filter leaves them.
#[derive(Debug)]
pub struct Piece {
    pub width: u32,
    pub height: u32,
    pub piece: Vec<Vec<PieceCell>>,
}

impl Piece {
    /// The piece grid as a mathematical sequence of rows.
    pub open spec fn grid(self) -> Seq<Seq<PieceCell>> {
        self.piece@.map_values(|r: Vec<PieceCell>| r@)
    }

    /// Decode a piece from its header line and its raw grid lines. The
    /// caller stays responsible for consuming the one separator line that
    /// follows the piece on the wire.
    pub fn read(header: &str, lines: &Vec<String>) -> (r: Result<Piece, DecodeError>)
        ensures
            dims_of(header@) is None ==> r == Err::<Piece, DecodeError>(
                DecodeError::MalformedHeader,
            ),
            dims_of(header@) matches Some(d) ==> (if lines@.len() == d.0 {
                r matches Ok(p) && p.height == d.0 && p.width == d.1 && p.grid()
                    == piece_grid_of(lines_view(lines@))
            } else {
                r == Err::<Piece, DecodeError>(DecodeError::DimensionMismatch)
            }),
    {
        let (height, width) = match crate::scan::decode_dims(header) {
            Ok(d) => d,
            Err(e) => {
                return Err(e);
            },
        };
        if lines.len() != height as usize {
            return Err(DecodeError::DimensionMismatch);
        }
        let mut piece: Vec<Vec<PieceCell>> = Vec::new();
        let mut i: usize = 0;
        while i < lines.len()
            invariant
                i <= lines@.len(),
                piece@.map_values(|r: Vec<PieceCell>| r@) =~= piece_grid_of(
                    lines_view(lines@.subrange(0, i as int)),
                ),
            decreases lines@.len() - i,
        {
            let ghost old_grid = piece@.map_values(|r: Vec<PieceCell>| r@);
            let row = piece_row_cells(lines[i].as_str());
            piece.push(row);
            proof {
                assert(piece@.map_values(|r: Vec<PieceCell>| r@) =~= old_grid.push(
                    piece_cells_of(lines@[i as int]@),
                ));
                assert(lines_view(lines@.subrange(0, i + 1)) =~= lines_view(
                    lines@.subrange(0, i as int),
                ).push(lines@[i as int]@));
                assert(piece_grid_of(lines_view(lines@.subrange(0, i + 1))) =~= piece_grid_of(
                    lines_view(lines@.subrange(0, i as int)),
                ).push(piece_cells_of(lines@[i as int]@)));
            }
            i = i + 1;
        }
        proof {
            assert(lines@.subrange(0, lines@.len() as int) =~= lines@);
            assert(piece@.map_values(|r: Vec<PieceCell>| r@) =~= piece_grid_of(lines_view(lines@)));
        }
        Ok(Piece { width, height, piece })
    }
}

} // verus!
