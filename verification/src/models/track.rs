//! A track: who performs it and what it is called.

use vstd::prelude::*;
use crate::text::push_char;

verus! {

/// The track a media session reports.
#[derive(Debug)]
pub struct Track {
    pub artist: String,
    pub title: String,
}

impl View for Track {
    type V = (Seq<char>, Seq<char>);

    open spec fn view(&self) -> (Seq<char>, Seq<char>) {
        (self.artist@, self.title@)
    }
}

/// How a track is written in messages: `artist - title`.
pub open spec fn track_label(t: (Seq<char>, Seq<char>)) -> Seq<char> {
    t.0 + seq![' ', '-', ' '] + t.1
}

impl Track {
    /// A track by `artist` called `title`.
    pub fn new(artist: String, title: String) -> (r: Track)
        ensures
            r.artist == artist,
            r.title == title,
    {
        Track { artist, title }
    }

    /// The track as `artist - title`.
    pub fn label(&self) -> (r: String)
        ensures
            r@ == track_label(self@),
    {
        let mut r = self.artist.clone();
        push_char(&mut r, ' ');
        push_char(&mut r, '-');
        push_char(&mut r, ' ');
        r.append(self.title.as_str());
        assert(r@ =~= track_label(self@));
        r
    }
}

impl Clone for Track {
    fn clone(&self) -> (r: Track)
        ensures
            r == *self,
    {
        Track { artist: self.artist.clone(), title: self.title.clone() }
    }
}

impl Default for Track {
    fn default() -> (r: Track)
        ensures
            r@ == (Seq::<char>::empty(), Seq::<char>::empty()),
    {
        Track { artist: String::new(), title: String::new() }
    }
}

impl PartialEq for Track {
    fn eq(&self, other: &Track) -> (r: bool) {
        self.artist == other.artist && self.title == other.title
    }
}

impl Eq for Track {
}

impl vstd::std_specs::cmp::PartialEqSpecImpl for Track {
    open spec fn obeys_eq_spec() -> bool {
        true
    }

    open spec fn eq_spec(&self, other: &Track) -> bool {
        self@ == other@
    }
}

} // verus!
