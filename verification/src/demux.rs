//! The stream demultiplexer: classifies each incoming line by its header
//! token and drives the matching decoder, one line at a time, so the
//! producer loop outside only reads lines and forwards them here. Exactly
//! one `StreamEnded` event is ever produced, and it is always the last.

use vstd::prelude::*;
use crate::board::{Board, CellState, cells_of, grid_fits, row_cells};
use crate::piece::{Piece, PieceCell, piece_cells_of};
use crate::scan::{DecodeError, count_of, dims_of};

verus! {

/// What the header token at the start of a line announces.
#[derive(Clone, Copy, Debug, PartialEq, Eq, Structural)]
pub enum LineClass {
    /// `Plateau`: a board snapshot follows.
    BoardHeader,
    /// `Piece`: a move-candidate shape follows.
    PieceHeader,
    /// `==`: the end-of-game score banner.
    ScoreBanner,
    /// Anything else, the empty line of a closed stream included.
    Other,
}

/// Whether `s` starts with `p`.
pub open spec fn starts_with_spec(s: Seq<char>, p: Seq<char>) -> bool {
    p.len() <= s.len() && s.subrange(0, p.len() as int) == p
}

/// The classification of one line by its leading token.
pub open spec fn classify_of(s: Seq<char>) -> LineClass {
    if starts_with_spec(s, "Plateau"@) {
        LineClass::BoardHeader
    } else if starts_with_spec(s, "Piece"@) {
        LineClass::PieceHeader
    } else if starts_with_spec(s, "=="@) {
        LineClass::ScoreBanner
    } else {
        LineClass::Other
    }
}

fn has_prefix(s: &str, p: &str) -> (b: bool)
    ensures
        b == starts_with_spec(s@, p@),
{
    let pn: usize = p.unicode_len();
    let sn: usize = s.unicode_len();
    if pn > sn {
        return false;
    }
    let mut i: usize = 0;
    while i < pn
        invariant
            i <= pn,
            pn == p@.len(),
            sn == s@.len(),
            pn <= sn,
            forall|j: int| 0 <= j < i ==> s@[j] == p@[j],
        decreases pn - i,
    {
        if s.get_char(i) != p.get_char(i) {
            proof {
                assert(s@.subrange(0, pn as int)[i as int] == s@[i as int]);
            }
            return false;
        }
        i = i + 1;
    }
    proof {
        assert(s@.subrange(0, pn as int) =~= p@);
    }
    true
}

/// Classify one line by its leading token, as the demultiplexer does.
pub fn classify_line(line: &str) -> (r: LineClass)
    ensures
        r == classify_of(line@),
{
    if has_prefix(line, "Plateau") {
        LineClass::BoardHeader
    } else if has_prefix(line, "Piece") {
        LineClass::PieceHeader
    } else if has_prefix(line, "==") {
        LineClass::ScoreBanner
    } else {
        LineClass::Other
    }
}

/// Why the stream reached its terminal state. A score banner and a genuine
/// closure both stop the reading loop, but they are distinct conditions and
/// are surfaced as such.
#[derive(Clone, Copy, Debug, PartialEq, Eq, Structural)]
pub enum EndReason {
    /// The authoritative end-of-game marker: both scores were read.
    ScoreBanner,
    /// A line with an unrecognized header token was met.
    UnrecognizedHeader,
    /// The line source itself was closed.
    StreamClosed,
    /// A record failed to decode mid-stream; ending here keeps the
    /// consumer from hanging on a producer that stopped.
    DecodeFailure,
}

/// Where the demultiplexer stands between two lines.
#[derive(Debug)]
pub enum DemuxState {
    /// Expecting a record header.
    Header,
    /// A board header was read; the next line is the column ruler.
    BoardRuler { height: u32, width: u32 },
    /// Collecting the grid lines of a board.
    BoardRows { height: u32, width: u32, rows: Vec<Vec<CellState>> },
    /// Collecting the grid lines of a piece.
    PieceRows { height: u32, width: u32, rows: Vec<Vec<PieceCell>> },
    /// A piece is complete; the next line is its trailing separator.
    PieceTrailer,
    /// A score banner was read; the next line carries the second score.
    ScoreSecond { first: u32 },
    /// An unrecognized header was met; one more line is consumed
    /// defensively, then the stream ends.
    Drain,
    /// Terminal: no further event will ever be produced.
    Ended { reason: EndReason },
}

/// One typed event of the demultiplexed stream.
#[derive(Debug)]
pub enum StreamEvent {
    /// A board snapshot was decoded; the caller appends it to the frame
    /// buffer before reading the next line.
    BoardDecoded(Board),
    /// A piece was decoded; kept for diagnostics only.
    PieceDecoded(Piece),
    /// The terminal event; exactly one is produced, always last.
    StreamEnded,
}

/// The cell rows collected so far, as a mathematical grid.
pub open spec fn cell_grid(rows: Seq<Vec<CellState>>) -> Seq<Seq<CellState>> {
    rows.map_values(|r: Vec<CellState>| r@)
}

/// The piece rows collected so far, as a mathematical grid.
pub open spec fn piece_grid(rows: Seq<Vec<PieceCell>>) -> Seq<Seq<PieceCell>> {
    rows.map_values(|r: Vec<PieceCell>| r@)
}

/// The producer-side state machine over the line stream.
#[derive(Debug)]
pub struct Demuxer {
    /// Where the machine stands between two lines.
    pub state: DemuxState,
    /// The final scores, once the banner has been fully read: first the
    /// banner line's own score, then the following line's.
    pub scores: Option<(u32, u32)>,
    /// Whether the one `StreamEnded` event has already been handed out.
    pub terminal_emitted: bool,
}

impl Demuxer {
    /// The invariant between two lines: a grid under collection never has
    /// all its rows yet, collected board rows honour the width, and the
    /// terminal event goes out only once the terminal state is reached.
    pub open spec fn wf(self) -> bool {
        &&& match self.state {
            DemuxState::BoardRows { height, width, rows } => {
                &&& rows@.len() < height
                &&& forall|i: int| 0 <= i < rows@.len() ==> (#[trigger] rows@[i])@.len() == width
            },
            DemuxState::PieceRows { height, width, rows } => rows@.len() < height,
            _ => true,
        }
        &&& self.terminal_emitted ==> self.state is Ended
    }

    /// A fresh demultiplexer, expecting the first record header.
    pub fn new() -> (r: Demuxer)
        ensures
            r.state is Header,
            r.scores is None,
            !r.terminal_emitted,
            r.wf(),
    {
        Demuxer { state: DemuxState::Header, scores: None, terminal_emitted: false }
    }

    /// Whether the terminal state has been reached.
    pub fn is_ended(&self) -> (b: bool)
        ensures
            b == self.state is Ended,
    {
        match self.state {
            DemuxState::Ended { .. } => true,
            _ => false,
        }
    }

    /// Feed the next line of the stream. At most one event comes back; a
    /// decode failure is reported once and parks the machine in the
    /// terminal state, so the consumer cannot hang. The one `StreamEnded`
    /// event of the stream is still owed after such a failure: the next
    /// call, or `close`, delivers it.
    pub fn push_line(&mut self, line: &str) -> (r: Result<Option<StreamEvent>, DecodeError>)
        requires
            old(self).wf(),
        ensures
            final (self).wf(),
            !(old(self).state is ScoreSecond) ==> final (self).scores == old(self).scores,
            // the terminal event is produced exactly once over the whole stream
            final (self).terminal_emitted == (old(self).terminal_emitted || (r matches Ok(Some(
                StreamEvent::StreamEnded,
            )))),
            // a record header
            old(self).state is Header && classify_of(line@) is BoardHeader ==> match dims_of(
                line@,
            ) {
                Some(d) => r == Ok::<Option<StreamEvent>, DecodeError>(None) && final (
                self).state == (DemuxState::BoardRuler { height: d.0, width: d.1 }),
                None => r == Err::<Option<StreamEvent>, DecodeError>(DecodeError::MalformedHeader)
                    && final (self).state == (DemuxState::Ended {
                    reason: EndReason::DecodeFailure,
                }),
            },
            old(self).state is Header && classify_of(line@) is PieceHeader ==> match dims_of(
                line@,
            ) {
                Some(d) => if d.0 == 0 {
                    final (self).state is PieceTrailer && (r matches Ok(Some(
                        StreamEvent::PieceDecoded(p),
                    )) && p.height == 0 && p.width == d.1 && p.grid() == Seq::<
                        Seq<PieceCell>,
                    >::empty())
                } else {
                    r == Ok::<Option<StreamEvent>, DecodeError>(None) && (final (
                    self).state matches DemuxState::PieceRows { height, width, rows } && height
                        == d.0 && width == d.1 && rows@.len() == 0)
                },
                None => r == Err::<Option<StreamEvent>, DecodeError>(DecodeError::MalformedHeader)
                    && final (self).state == (DemuxState::Ended {
                    reason: EndReason::DecodeFailure,
                }),
            },
            old(self).state is Header && classify_of(line@) is ScoreBanner ==> match count_of(
                line@,
            ) {
                Some(v) => r == Ok::<Option<StreamEvent>, DecodeError>(None) && final (
                self).state == (DemuxState::ScoreSecond { first: v }),
                None => r == Err::<Option<StreamEvent>, DecodeError>(DecodeError::MalformedScore)
                    && final (self).state == (DemuxState::Ended {
                    reason: EndReason::DecodeFailure,
                }),
            },
            old(self).state is Header && classify_of(line@) is Other ==> r == Ok::<
                Option<StreamEvent>,
                DecodeError,
            >(None) && final (self).state is Drain,
            // the ruler line after a board header is discarded
            old(self).state matches DemuxState::BoardRuler { height, width } ==> if height == 0 {
                final (self).state is Header && (r matches Ok(Some(StreamEvent::BoardDecoded(b)))
                    && b.height == 0 && b.width == width && b.grid() == Seq::<
                    Seq<CellState>,
                >::empty() && b.well_formed())
            } else {
                r == Ok::<Option<StreamEvent>, DecodeError>(None) && (final (
                self).state matches DemuxState::BoardRows { height: h2, width: w2, rows } && h2
                    == height && w2 == width && rows@.len() == 0)
            },
            // a board grid line
            old(self).state matches DemuxState::BoardRows { height, width, rows } ==> {
                let cs = cells_of(line@);
                if cs.len() != width {
                    r == Err::<Option<StreamEvent>, DecodeError>(DecodeError::DimensionMismatch)
                        && final (self).state == (DemuxState::Ended {
                        reason: EndReason::DecodeFailure,
                    })
                } else if rows@.len() + 1 == height {
                    final (self).state is Header && (r matches Ok(Some(StreamEvent::BoardDecoded(b)))
                        && b.height == height && b.width == width && b.grid() == cell_grid(
                        rows@,
                    ).push(cs) && b.well_formed())
                } else {
                    r == Ok::<Option<StreamEvent>, DecodeError>(None) && (final (
                    self).state matches DemuxState::BoardRows { height: h2, width: w2, rows: rows2 }
                        && h2 == height && w2 == width && cell_grid(rows2@) == cell_grid(
                        rows@,
                    ).push(cs))
                }
            },
            // a piece grid line
            old(self).state matches DemuxState::PieceRows { height, width, rows } ==> {
                let cs = piece_cells_of(line@);
                if rows@.len() + 1 == height {
                    final (self).state is PieceTrailer && (r matches Ok(Some(
                        StreamEvent::PieceDecoded(p),
                    )) && p.height == height && p.width == width && p.grid() == piece_grid(
                        rows@,
                    ).push(cs))
                } else {
                    r == Ok::<Option<StreamEvent>, DecodeError>(None) && (final (
                    self).state matches DemuxState::PieceRows { height: h2, width: w2, rows: rows2 }
                        && h2 == height && w2 == width && piece_grid(rows2@) == piece_grid(
                        rows@,
                    ).push(cs))
                }
            },
            // the separator after a piece is discarded
            old(self).state is PieceTrailer ==> r == Ok::<Option<StreamEvent>, DecodeError>(None)
                && final (self).state is Header,
            // the second score line
            old(self).state matches DemuxState::ScoreSecond { first } ==> match count_of(line@) {
                Some(v) => (r matches Ok(Some(StreamEvent::StreamEnded))) && final (self).state
                    == (DemuxState::Ended { reason: EndReason::ScoreBanner }) && final (
                self).scores == Some((first, v)),
                None => r == Err::<Option<StreamEvent>, DecodeError>(DecodeError::MalformedScore)
                    && final (self).state == (DemuxState::Ended {
                    reason: EndReason::DecodeFailure,
                }) && final (self).scores == old(self).scores,
            },
            // the defensive read after an unrecognized header
            old(self).state is Drain ==> (r matches Ok(Some(StreamEvent::StreamEnded))) && final (
            self).state == (DemuxState::Ended { reason: EndReason::UnrecognizedHeader }),
            // terminal: the state never changes again, and the one terminal
            // event is delivered here if a failure left it owed
            old(self).state is Ended ==> final (self).state == old(self).state && (if old(
                self,
            ).terminal_emitted {
                r == Ok::<Option<StreamEvent>, DecodeError>(None)
            } else {
                r matches Ok(Some(StreamEvent::StreamEnded))
            }),
    {
        let mut st = DemuxState::Header;
        core::mem::swap(&mut st, &mut self.state);
        match st {
            DemuxState::Header => {
                match classify_line(line) {
                    LineClass::BoardHeader => {
                        match crate::scan::decode_dims(line) {
                            Ok((h, w)) => {
                                self.state = DemuxState::BoardRuler { height: h, width: w };
                                Ok(None)
                            },
                            Err(e) => {
                                self.state = DemuxState::Ended {
                                    reason: EndReason::DecodeFailure,
                                };
                                Err(e)
                            },
                        }
                    },
                    LineClass::PieceHeader => {
                        match crate::scan::decode_dims(line) {
                            Ok((h, w)) => {
                                if h == 0 {
                                    self.state = DemuxState::PieceTrailer;
                                    let p = Piece { width: w, height: 0, piece: Vec::new() };
                                    proof {
                                        assert(p.grid() =~= Seq::<Seq<PieceCell>>::empty());
                                    }
                                    Ok(Some(StreamEvent::PieceDecoded(p)))
                                } else {
                                    self.state = DemuxState::PieceRows {
                                        height: h,
                                        width: w,
                                        rows: Vec::new(),
                                    };
                                    Ok(None)
                                }
                            },
                            Err(e) => {
                                self.state = DemuxState::Ended {
                                    reason: EndReason::DecodeFailure,
                                };
                                Err(e)
                            },
                        }
                    },
                    LineClass::ScoreBanner => {
                        match crate::scan::decode_count(line) {
                            Some(v) => {
                                self.state = DemuxState::ScoreSecond { first: v };
                                Ok(None)
                            },
                            None => {
                                self.state = DemuxState::Ended {
                                    reason: EndReason::DecodeFailure,
                                };
                                Err(DecodeError::MalformedScore)
                            },
                        }
                    },
                    LineClass::Other => {
                        self.state = DemuxState::Drain;
                        Ok(None)
                    },
                }
            },
            DemuxState::BoardRuler { height, width } => {
                if height == 0 {
                    self.state = DemuxState::Header;
                    let b = Board { width, height: 0, maps: Vec::new() };
                    proof {
                        assert(b.grid() =~= Seq::<Seq<CellState>>::empty());
                    }
                    Ok(Some(StreamEvent::BoardDecoded(b)))
                } else {
                    self.state = DemuxState::BoardRows { height, width, rows: Vec::new() };
                    Ok(None)
                }
            },
            DemuxState::BoardRows { height, width, mut rows } => {
                let row = row_cells(line);
                if row.len() != width as usize {
                    self.state = DemuxState::Ended { reason: EndReason::DecodeFailure };
                    return Err(DecodeError::DimensionMismatch);
                }
                let ghost old_grid = cell_grid(rows@);
                let ghost new_row = row@;
                rows.push(row);
                proof {
                    assert(cell_grid(rows@) =~= old_grid.push(new_row));
                }
                if rows.len() == height as usize {
                    let b = Board { width, height, maps: rows };
                    proof {
                        assert(grid_fits(b.grid(), height, width));
                    }
                    self.state = DemuxState::Header;
                    Ok(Some(StreamEvent::BoardDecoded(b)))
                } else {
                    self.state = DemuxState::BoardRows { height, width, rows };
                    Ok(None)
                }
            },
            DemuxState::PieceRows { height, width, mut rows } => {
                let row = crate::piece::piece_row_cells(line);
                let ghost old_grid = piece_grid(rows@);
                let ghost new_row = row@;
                rows.push(row);
                proof {
                    assert(piece_grid(rows@) =~= old_grid.push(new_row));
                }
                if rows.len() == height as usize {
                    let p = Piece { width, height, piece: rows };
                    self.state = DemuxState::PieceTrailer;
                    Ok(Some(StreamEvent::PieceDecoded(p)))
                } else {
                    self.state = DemuxState::PieceRows { height, width, rows };
                    Ok(None)
                }
            },
            DemuxState::PieceTrailer => {
                self.state = DemuxState::Header;
                Ok(None)
            },
            DemuxState::ScoreSecond { first } => {
                match crate::scan::decode_count(line) {
                    Some(v) => {
                        self.scores = Some((first, v));
                        self.state = DemuxState::Ended { reason: EndReason::ScoreBanner };
                        self.terminal_emitted = true;
                        Ok(Some(StreamEvent::StreamEnded))
                    },
                    None => {
                        self.state = DemuxState::Ended { reason: EndReason::DecodeFailure };
                        Err(DecodeError::MalformedScore)
                    },
                }
            },
            DemuxState::Drain => {
                self.state = DemuxState::Ended { reason: EndReason::UnrecognizedHeader };
                self.terminal_emitted = true;
                Ok(Some(StreamEvent::StreamEnded))
            },
            DemuxState::Ended { reason } => {
                self.state = DemuxState::Ended { reason };
                if self.terminal_emitted {
                    Ok(None)
                } else {
                    self.terminal_emitted = true;
                    Ok(Some(StreamEvent::StreamEnded))
                }
            },
        }
    }

    /// The line source itself closed: reach the terminal state, and
    /// deliver the one `StreamEnded` event unless it already went out.
    pub fn close(&mut self) -> (r: Option<StreamEvent>)
        requires
            old(self).wf(),
        ensures
            final (self).wf(),
            final (self).scores == old(self).scores,
            final (self).terminal_emitted,
            old(self).state is Ended ==> final (self).state == old(self).state,
            !(old(self).state is Ended) ==> final (self).state == (DemuxState::Ended {
                reason: EndReason::StreamClosed,
            }),
            if old(self).terminal_emitted {
                r is None
            } else {
                r matches Some(StreamEvent::StreamEnded)
            },
    {
        match self.state {
            DemuxState::Ended { .. } => {},
            _ => {
                self.state = DemuxState::Ended { reason: EndReason::StreamClosed };
            },
        }
        if self.terminal_emitted {
            None
        } else {
            self.terminal_emitted = true;
            Some(StreamEvent::StreamEnded)
        }
    }
}

} // verus!
