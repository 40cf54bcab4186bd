//! Core of a spectator for the Filler territory-capture game: decoders for the
//! line-oriented wire format, a demultiplexer that turns the raw stream into
//! typed records, an append-only frame buffer, and the playback state machine
//! that scrubs through buffered board snapshots.

pub mod board;
pub mod demux;
pub mod frames;
pub mod hud;
pub mod piece;
pub mod playback;
pub mod player;
pub mod scan;
