use std::collections::VecDeque;
use vstd::prelude::*;

verus! {

/// Unity gain, in thousandths: the unit in which volumes are held.
pub const FULL_VOLUME: i64 = 1000;

/// One playable library entry.
pub struct Track {
    pub id: String,
    pub name: String,
    pub image_path: String,
}

impl Track {
    pub fn new(id: String, name: String, image_path: String) -> (r: Track)
        ensures
            r.id == id,
            r.name == name,
            r.image_path == image_path,
    {
        Track { id, name, image_path }
    }

    /// An equal copy of the track.
    pub fn duplicate(&self) -> (r: Track)
        ensures
            r == *self,
    {
        Track { id: self.id.clone(), name: self.name.clone(), image_path: self.image_path.clone() }
    }
}

/// What the daemon publishes about playback.
///
/// `volume` is in thousandths of unity gain and is whatever was last set.
pub struct Status {
    pub playing: bool,
    pub current_song: Option<Track>,
    pub queue: VecDeque<Track>,
    pub volume: i64,
}

/// The status a fresh daemon starts with: idle, nothing queued, full volume.
pub fn initial_status() -> (r: Status)
    ensures
        !r.playing,
        r.current_song.is_none(),
        r.queue@ == Seq::<Track>::empty(),
        r.volume == FULL_VOLUME,
{
    Status { playing: false, current_song: None, queue: VecDeque::new(), volume: FULL_VOLUME }
}

} // verus!
