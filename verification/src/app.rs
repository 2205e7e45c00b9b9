//! The front end's state and how each event changes it.

use vstd::prelude::*;
use crate::models::lyrics::Lyrics;
use crate::models::playback_status::PlaybackStatus;
use crate::models::track::Track;
use crate::text::{clock, clock_label};

verus! {

/// A message to the front end.
#[derive(Debug)]
pub enum Action {
    TrackChanged(Track),
    PlaybackStatusChanged(PlaybackStatus),
    FetchLyrics(Track),
    /// In milliseconds.
    UpdatePlaybackPosition(u64),
    LyricsFetched(Lyrics),
    LyricsFetchError(String),
    Quit,
}


/// Where fetching lyrics for the current track stands.
#[derive(Debug)]
pub enum LyricsState {
    Idle,
    Loading,
    Loaded(Lyrics),
    Error(String),
}

/// What the front end's loop is to do after an event.
#[derive(Debug)]
pub enum Effect {
    Nothing,
    /// Send this message to the front end's own queue; a failed send is
    /// ignored.
    Send(Action),
    /// Fetch the lyrics of this track in the background; their arrival comes
    /// back as `LyricsFetched` or `LyricsFetchError`.
    Fetch(Track),
    /// Leave the loop.
    Exit,
}

/// The front end's state.
#[derive(Debug)]
pub struct App {
    /// Ticks since the start, wrapping around.
    pub tick: usize,
    /// The track the session last reported.
    pub current_track: Option<Track>,
    /// The playback status the front end knows of.
    pub playback_status: PlaybackStatus,
    /// The playback position, in milliseconds.
    pub track_position: u64,
    /// Where fetching lyrics stands.
    pub lyrics_state: LyricsState,
    /// Whether lyrics are fetched whenever the track changes.
    pub auto_refresh: bool,
}

/// The frames of the spinner shown while lyrics load.
pub open spec fn spinner_frame(i: int) -> char {
    if i == 0 {
        '\u{280b}'
    } else if i == 1 {
        '\u{2819}'
    } else if i == 2 {
        '\u{2839}'
    } else if i == 3 {
        '\u{2838}'
    } else if i == 4 {
        '\u{283c}'
    } else if i == 5 {
        '\u{2834}'
    } else if i == 6 {
        '\u{2826}'
    } else if i == 7 {
        '\u{2827}'
    } else if i == 8 {
        '\u{2807}'
    } else {
        '\u{280f}'
    }
}

/// How many frames the spinner has.
pub const SPINNER_FRAMES: usize = 10;

impl App {
    /// `app` with automatic lyrics fetching switched over.
    pub open spec fn toggled(self) -> App {
        App { auto_refresh: !self.auto_refresh, ..self }
    }

    /// The state at start-up: no track, a closed session, position zero, no
    /// lyrics, automatic fetching off.
    pub fn new() -> (r: App)
        ensures
            r.tick == 0,
            r.current_track is None,
            r.playback_status == PlaybackStatus::Closed,
            r.track_position == 0,
            r.lyrics_state is Idle,
            !r.auto_refresh,
    {
        App {
            tick: 0,
            current_track: None,
            playback_status: PlaybackStatus::Closed,
            track_position: 0,
            lyrics_state: LyricsState::Idle,
            auto_refresh: false,
        }
    }

    /// A tick of `tick_millis` milliseconds: the tick count goes up by one,
    /// wrapping around, and while the track plays the position moves on by
    /// the tick.
    pub fn on_tick(&mut self, tick_millis: u64)
        requires
            old(self).playback_status == PlaybackStatus::Playing ==> old(self).track_position
                + tick_millis <= u64::MAX,
        ensures
            final(self).tick == (if old(self).tick == usize::MAX {
                0
            } else {
                old(self).tick + 1
            }),
            final(self).track_position == (if old(self).playback_status
                == PlaybackStatus::Playing {
                old(self).track_position + tick_millis
            } else {
                old(self).track_position as int
            }),
            final(self).current_track == old(self).current_track,
            final(self).playback_status == old(self).playback_status,
            final(self).lyrics_state == old(self).lyrics_state,
            final(self).auto_refresh == old(self).auto_refresh,
    {
        self.tick = if self.tick == usize::MAX {
            0
        } else {
            self.tick + 1
        };
        if self.playback_status == PlaybackStatus::Playing {
            self.track_position = self.track_position + tick_millis;
        }
    }

    /// A key press or release: `q` asks to quit; a press of `t` switches
    /// automatic fetching over and, where it is now on and a track is known,
    /// asks for that track's lyrics. The message returned is for the front
    /// end's own queue.
    pub fn on_key(&mut self, code: char, pressed: bool) -> (r: Option<Action>)
        ensures
            code == 'q' ==> r == Some(Action::Quit) && *final(self) == *old(self),
            code == 't' && pressed ==> *final(self) == old(self).toggled() && r == (if !old(
                self,
            ).auto_refresh && old(self).current_track is Some {
                Some(Action::FetchLyrics(old(self).current_track->0))
            } else {
                None
            }),
            code != 'q' && !(code == 't' && pressed) ==> r is None && *final(self) == *old(self),
    {
        if code == 'q' {
            Some(Action::Quit)
        } else if code == 't' && pressed {
            self.auto_refresh = !self.auto_refresh;
            if self.auto_refresh {
                match &self.current_track {
                    Some(track) => Some(Action::FetchLyrics(track.clone())),
                    None => None,
                }
            } else {
                None
            }
        } else {
            None
        }
    }

    /// A message from the queue: what it changes, and what the loop does next.
    pub fn on_action(&mut self, action: Action) -> (r: Effect)
        ensures
            match action {
                Action::TrackChanged(t) => {
                    &&& *final(self) == App { current_track: Some(t), ..*old(self) }
                    &&& r == (if old(self).auto_refresh {
                        Effect::Send(Action::FetchLyrics(t))
                    } else {
                        Effect::Nothing
                    })
                },
                Action::PlaybackStatusChanged(s) => {
                    &&& *final(self) == App { playback_status: s, ..*old(self) }
                    &&& r == Effect::Nothing
                },
                Action::FetchLyrics(t) => {
                    &&& *final(self) == App { lyrics_state: LyricsState::Loading, ..*old(self) }
                    &&& r == Effect::Fetch(t)
                },
                Action::UpdatePlaybackPosition(p) => {
                    &&& *final(self) == App { track_position: p, ..*old(self) }
                    &&& r == Effect::Nothing
                },
                Action::LyricsFetched(l) => {
                    &&& *final(self) == App { lyrics_state: LyricsState::Loaded(l), ..*old(self) }
                    &&& r == Effect::Nothing
                },
                Action::LyricsFetchError(e) => {
                    &&& *final(self) == App { lyrics_state: LyricsState::Error(e), ..*old(self) }
                    &&& r == Effect::Nothing
                },
                Action::Quit => {
                    &&& *final(self) == *old(self)
                    &&& r == Effect::Exit
                },
            },
    {
        match action {
            Action::TrackChanged(track) => {
                self.current_track = Some(track.clone());
                if self.auto_refresh {
                    Effect::Send(Action::FetchLyrics(track))
                } else {
                    Effect::Nothing
                }
            },
            Action::PlaybackStatusChanged(status) => {
                self.playback_status = status;
                Effect::Nothing
            },
            Action::FetchLyrics(track) => {
                self.lyrics_state = LyricsState::Loading;
                Effect::Fetch(track)
            },
            Action::UpdatePlaybackPosition(position) => {
                self.track_position = position;
                Effect::Nothing
            },
            Action::LyricsFetched(lyrics) => {
                self.lyrics_state = LyricsState::Loaded(lyrics);
                Effect::Nothing
            },
            Action::LyricsFetchError(error) => {
                self.lyrics_state = LyricsState::Error(error);
                Effect::Nothing
            },
            Action::Quit => Effect::Exit,
        }
    }

    /// The playback position as `mm:ss`, in whole seconds.
    pub fn position_label(&self) -> (r: String)
        ensures
            r@ == clock((self.track_position / 1000) as nat),
    {
        clock_label(self.track_position / 1000)
    }

    /// The spinner frame for the current tick.
    pub fn spinner(&self) -> (r: char)
        ensures
            r == spinner_frame((self.tick % SPINNER_FRAMES) as int),
    {
        match self.tick % SPINNER_FRAMES {
            0 => '\u{280b}',
            1 => '\u{2819}',
            2 => '\u{2839}',
            3 => '\u{2838}',
            4 => '\u{283c}',
            5 => '\u{2834}',
            6 => '\u{2826}',
            7 => '\u{2827}',
            8 => '\u{2807}',
            _ => '\u{280f}',
        }
    }
}

impl Default for App {
    fn default() -> (r: App)
        ensures
            r.tick == 0,
            r.current_track is None,
            r.playback_status == PlaybackStatus::Closed,
            r.track_position == 0,
            r.lyrics_state is Idle,
            !r.auto_refresh,
    {
        App::new()
    }
}

} // verus!
