//! Romanized, time-synchronised lyrics for the track that a desktop media
//! session is playing: the LRC parser, the playback bookkeeping and the
//! decisions of the terminal front end, each with its contract.

pub mod text;
pub mod models;
pub mod lrc;
pub mod lyrics;
pub mod widgets;
pub mod media;
pub mod app;
pub mod laws;
