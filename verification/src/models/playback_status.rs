//! Where the media session's playback stands.

use vstd::prelude::*;

verus! {

/// The playback states a media session reports.
#[derive(Debug, Clone, Copy, PartialEq, Eq, Structural)]
pub enum PlaybackStatus {
    Closed,
    Opened,
    Changing,
    Stopped,
    Playing,
    Paused,
}

/// The state that the session's numeric playback code stands for: the codes
/// 0 to 5 in the order of the variants, and `Closed` for any other code.
pub open spec fn status_of_code(code: i32) -> PlaybackStatus {
    if code == 1 {
        PlaybackStatus::Opened
    } else if code == 2 {
        PlaybackStatus::Changing
    } else if code == 3 {
        PlaybackStatus::Stopped
    } else if code == 4 {
        PlaybackStatus::Playing
    } else if code == 5 {
        PlaybackStatus::Paused
    } else {
        PlaybackStatus::Closed
    }
}

/// The name a status is shown by.
pub open spec fn status_name(s: PlaybackStatus) -> Seq<char> {
    match s {
        PlaybackStatus::Closed => "Closed"@,
        PlaybackStatus::Opened => "Opened"@,
        PlaybackStatus::Changing => "Changing"@,
        PlaybackStatus::Stopped => "Stopped"@,
        PlaybackStatus::Playing => "Playing"@,
        PlaybackStatus::Paused => "Paused"@,
    }
}

impl PlaybackStatus {
    /// The status for the numeric playback code a media session reports.
    pub fn from_code(code: i32) -> (r: PlaybackStatus)
        ensures
            r == status_of_code(code),
    {
        match code {
            1 => PlaybackStatus::Opened,
            2 => PlaybackStatus::Changing,
            3 => PlaybackStatus::Stopped,
            4 => PlaybackStatus::Playing,
            5 => PlaybackStatus::Paused,
            _ => PlaybackStatus::Closed,
        }
    }

    /// The status's name, as it is shown in messages.
    pub fn name(&self) -> (r: &'static str)
        ensures
            r@ == status_name(*self),
    {
        match self {
            PlaybackStatus::Closed => "Closed",
            PlaybackStatus::Opened => "Opened",
            PlaybackStatus::Changing => "Changing",
            PlaybackStatus::Stopped => "Stopped",
            PlaybackStatus::Playing => "Playing",
            PlaybackStatus::Paused => "Paused",
        }
    }
}

impl Default for PlaybackStatus {
    fn default() -> (r: PlaybackStatus)
        ensures
            r == PlaybackStatus::Closed,
    {
        PlaybackStatus::Closed
    }
}

} // verus!
