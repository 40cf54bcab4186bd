//! The overlay data the core hands the host once per display refresh:
//! player names, captured-cell counts of the displayed board, playback
//! speed, cursor position and how many frames have been decoded so far.

use vstd::prelude::*;
use crate::board::{Board, grid_count};
use crate::playback::PlaybackEngine;
use crate::player::{Player, PlayerSymbol};

verus! {

/// One refresh worth of overlay data.
#[derive(Debug)]
pub struct Hud {
    pub player1_name: String,
    /// Cells owned by the symbol the first-listed player draws with.
    pub player1_count: u64,
    pub player2_name: String,
    /// Cells owned by the symbol the second-listed player draws with.
    pub player2_count: u64,
    /// Playback speed percent, as the engine keeps it.
    pub speed_percent: u32,
    /// Index of the displayed frame.
    pub cursor: usize,
    /// How many frames have been decoded so far.
    pub loaded_count: usize,
}

/// Assemble the overlay for the board currently displayed. Each name is
/// paired with the count of the cells that player's decoded symbol owns.
/// The counts come from one scan of the board; the host may cache them per
/// frame index.
pub fn make_hud(players: &Vec<Player>, board: &Board, engine: &PlaybackEngine, loaded_count: usize) -> (h: Hud)
    requires
        players@.len() >= 2,
        board.well_formed(),
    ensures
        h.player1_name@ == players@[0].name@,
        h.player2_name@ == players@[1].name@,
        h.player1_count == grid_count(board.grid(), players@[0].sym is First),
        h.player2_count == grid_count(board.grid(), players@[1].sym is First),
        h.speed_percent == engine.speed,
        h.cursor == engine.cursor,
        h.loaded_count == loaded_count,
{
    let (first_count, second_count) = board.counts();
    let player1_count = match players[0].sym {
        PlayerSymbol::First => first_count,
        PlayerSymbol::Second => second_count,
    };
    let player2_count = match players[1].sym {
        PlayerSymbol::First => first_count,
        PlayerSymbol::Second => second_count,
    };
    Hud {
        player1_name: players[0].name.clone(),
        player1_count,
        player2_name: players[1].name.clone(),
        player2_count,
        speed_percent: engine.speed,
        cursor: engine.cursor,
        loaded_count,
    }
}

} // verus!
