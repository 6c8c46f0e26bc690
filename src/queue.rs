//! The playback queue: an ordered list of tracks and a cursor on the current
//! one.

use crate::entity::Track;
use vstd::prelude::*;

verus! {

/// The cursor is an unsigned index. It stays at 0 while the queue is empty
/// (no current track) and otherwise points into the list.
pub struct Queue {
    tracks: Vec<Track>,
    current: usize,
}

impl Queue {
    /// The queued tracks, in order.
    pub closed spec fn view(&self) -> Seq<Track> {
        self.tracks@
    }

    /// Position of the cursor.
    pub closed spec fn cursor(&self) -> int {
        self.current as int
    }

    /// The track under the cursor, if the cursor points into the queue.
    pub open spec fn current_track(&self) -> Option<Track> {
        if 0 <= self.cursor() < self@.len() {
            Some(self@[self.cursor()])
        } else {
            None
        }
    }

    /// The cursor is 0 or points into the queue.
    pub open spec fn cursor_ok(&self) -> bool {
        self.cursor() == 0 || 0 <= self.cursor() < self@.len()
    }

    pub fn new() -> (r: Queue)
        ensures
            r@ == Seq::<Track>::empty(),
            r.cursor() == 0,
            r.cursor_ok(),
    {
        Queue { tracks: Vec::new(), current: 0 }
    }

    /// Appends one track; the cursor does not move.
    pub fn add_track(&mut self, track: Track)
        requires
            old(self).cursor_ok(),
        ensures
            final(self).cursor_ok(),
            final(self)@ == old(self)@.push(track),
            final(self).cursor() == old(self).cursor(),
    {
        self.tracks.push(track);
    }

    /// Appends the tracks in order; the cursor does not move.
    pub fn add_multiple(&mut self, tracks: Vec<Track>)
        requires
            old(self).cursor_ok(),
        ensures
            final(self).cursor_ok(),
            final(self)@ == old(self)@ + tracks@,
            final(self).cursor() == old(self).cursor(),
    {
        let mut tracks = tracks;
        self.tracks.append(&mut tracks);
    }

    /// Empties the queue and puts the cursor back at its start.
    pub fn clear(&mut self)
        ensures
            final(self).cursor_ok(),
            final(self)@ == Seq::<Track>::empty(),
            final(self).cursor() == 0,
    {
        self.tracks.clear();
        self.current = 0;
    }

    /// Moves the cursor back by one and returns the newly current track.
    /// At the first position it returns nothing and leaves the cursor.
    pub fn prev(&mut self) -> (r: Option<&Track>)
        requires
            old(self).cursor_ok(),
        ensures
            final(self).cursor_ok(),
            final(self)@ == old(self)@,
            old(self).cursor() >= 1 ==> {
                &&& final(self).cursor() == old(self).cursor() - 1
                &&& r == Some(&old(self)@[old(self).cursor() - 1])
            },
            old(self).cursor() == 0 ==> final(self).cursor() == 0 && r is None,
    {
        if self.current >= 1 {
            self.current = self.current - 1;
            Some(&self.tracks[self.current])
        } else {
            None
        }
    }

    /// Moves the cursor forward by one and returns the newly current track.
    /// At the last position, or on an empty queue, it returns nothing and
    /// leaves the cursor.
    pub fn next(&mut self) -> (r: Option<&Track>)
        requires
            old(self).cursor_ok(),
        ensures
            final(self).cursor_ok(),
            final(self)@ == old(self)@,
            old(self).cursor() + 1 < old(self)@.len() ==> {
                &&& final(self).cursor() == old(self).cursor() + 1
                &&& r == Some(&old(self)@[old(self).cursor() + 1])
            },
            old(self).cursor() + 1 >= old(self)@.len() ==> final(self).cursor() == old(self).cursor()
                && r is None,
    {
        if self.current < self.tracks.len() && self.current + 1 < self.tracks.len() {
            self.current = self.current + 1;
            Some(&self.tracks[self.current])
        } else {
            None
        }
    }

    /// The track under the cursor, or nothing on an empty queue.
    pub fn current(&self) -> (r: Option<&Track>)
        ensures
            r == match self.current_track() {
                Some(t) => Some(&t),
                None => None::<&Track>,
            },
    {
        if self.current < self.tracks.len() {
            Some(&self.tracks[self.current])
        } else {
            None
        }
    }

    pub fn size(&self) -> (r: usize)
        ensures
            r == self@.len(),
    {
        self.tracks.len()
    }

    /// The queued tracks, in order.
    pub fn tracks(&self) -> (r: &Vec<Track>)
        ensures
            r@ == self@,
    {
        &self.tracks
    }
}

} // verus!
