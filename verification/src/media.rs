//! The decisions of the media watcher: which desktop media session belongs
//! to Spotify, how its timeline reads, and which changes are news.

use vstd::prelude::*;
use crate::app::Action;
use crate::models::playback_status::PlaybackStatus;
use crate::models::track::Track;
use crate::text::{chars_of, contains, contains_chars};

verus! {

/// The name that identifies the Spotify session among the sessions'
/// application ids.
pub open spec fn spotify_name() -> Seq<char> {
    seq!['S', 'p', 'o', 't', 'i', 'f', 'y']
}

/// A session whose application id could be read and contains `Spotify`.
pub open spec fn is_spotify(id: Option<String>) -> bool {
    id matches Some(s) && contains(s@, spotify_name())
}

/// The first session that belongs to Spotify, by the sessions' application
/// ids (`None` for a session whose id could not be read).
pub fn select_session(app_ids: &Vec<Option<String>>) -> (r: Option<usize>)
    ensures
        r matches Some(i) ==> i < app_ids@.len() && is_spotify(app_ids@[i as int]) && forall|k: int|
            0 <= k < i ==> !is_spotify(#[trigger] app_ids@[k]),
        r is None ==> forall|k: int| 0 <= k < app_ids@.len() ==> !is_spotify(#[trigger] app_ids@[k]),
{
    let needle: Vec<char> = vec!['S', 'p', 'o', 't', 'i', 'f', 'y'];
    assert(needle@ =~= spotify_name());
    let mut i: usize = 0;
    while i < app_ids.len()
        invariant
            i <= app_ids@.len(),
            needle@ == spotify_name(),
            forall|k: int| 0 <= k < i ==> !is_spotify(#[trigger] app_ids@[k]),
        decreases app_ids@.len() - i,
    {
        match &app_ids[i] {
            Some(id) => {
                let chars = chars_of(id.as_str());
                if contains_chars(&chars, &needle) {
                    return Some(i);
                }
            },
            None => {},
        }
        i = i + 1;
    }
    None
}

/// `a / b` rounded toward zero, as integer division does in Rust.
pub open spec fn div_toward_zero(a: int, b: int) -> int {
    if a >= 0 {
        a / b
    } else {
        -((-a) / b)
    }
}

/// `q` read as a `u64`, as `as` converts it: a negative number wraps around
/// by 2^64.
pub open spec fn wrap_u64(q: int) -> int {
    if q >= 0 {
        q
    } else {
        q + 0x1_0000_0000_0000_0000
    }
}

/// The playback position in milliseconds for a timeline position in ticks of
/// 100 ns: the ticks divided by 10 000, rounded toward zero, converted to
/// `u64` as `as` converts (a negative count wraps around).
pub fn position_millis(ticks: i64) -> (r: u64)
    ensures
        r == wrap_u64(div_toward_zero(ticks as int, 10_000)),
{
    let q: i64 = ticks / 10_000;
    assert(q < 0 ==> (q as u64) as int == q as int + 0x1_0000_0000_0000_0000) by (bit_vector);
    assert(q >= 0 ==> (q as u64) as int == q as int) by (bit_vector);
    q as u64
}

/// The playback position in whole seconds for a timeline position in ticks
/// of 100 ns, rounded toward zero.
pub fn position_seconds(ticks: i64) -> (r: i64)
    ensures
        r == div_toward_zero(ticks as int, 10_000_000),
{
    ticks / 10_000_000
}

/// What the media watcher last reported.
pub struct MediaTracker {
    pub last_track: Track,
    pub last_status: PlaybackStatus,
    /// In milliseconds.
    pub last_position: u64,
}

impl MediaTracker {
    /// Nothing reported yet: an empty track, a closed session, position zero.
    pub fn new() -> (r: MediaTracker)
        ensures
            r.last_track@ == (Seq::<char>::empty(), Seq::<char>::empty()),
            r.last_status == PlaybackStatus::Closed,
            r.last_position == 0,
    {
        MediaTracker { last_track: Track::default(), last_status: PlaybackStatus::Closed, last_position: 0 }
    }

    /// Records the session's playback status; tells whether it changed.
    /// A change is recorded and reported for the log only: the watcher sends
    /// the front end no message for it.
    pub fn observe_status(&mut self, status: PlaybackStatus) -> (changed: bool)
        ensures
            changed == (status != old(self).last_status),
            final(self).last_status == status,
            final(self).last_track == old(self).last_track,
            final(self).last_position == old(self).last_position,
    {
        if status != self.last_status {
            self.last_status = status;
            true
        } else {
            false
        }
    }

    /// Records the session's track; the message for the front end where it
    /// differs from the last one.
    pub fn observe_track(&mut self, track: Track) -> (r: Option<Action>)
        ensures
            track@ != old(self).last_track@ ==> r == Some(Action::TrackChanged(track)),
            track@ == old(self).last_track@ ==> r is None,
            final(self).last_track@ == track@,
            final(self).last_status == old(self).last_status,
            final(self).last_position == old(self).last_position,
    {
        if track != self.last_track {
            self.last_track = track.clone();
            Some(Action::TrackChanged(track))
        } else {
            None
        }
    }

    /// Records the playback position (milliseconds); the message for the
    /// front end where it differs from the last one.
    pub fn observe_position(&mut self, position: u64) -> (r: Option<Action>)
        ensures
            position != old(self).last_position ==> r == Some(Action::UpdatePlaybackPosition(position)),
            position == old(self).last_position ==> r is None,
            final(self).last_position == position,
            final(self).last_track == old(self).last_track,
            final(self).last_status == old(self).last_status,
    {
        if position != self.last_position {
            self.last_position = position;
            Some(Action::UpdatePlaybackPosition(position))
        } else {
            None
        }
    }
}

} // verus!
