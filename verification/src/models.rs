//! The data the rest of the library works on.

pub mod lyrics;
pub mod playback_status;
pub mod track;
