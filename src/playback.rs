use crate::status::{initial_status, Status, Track, FULL_VOLUME};
use vstd::prelude::*;

verus! {

/// A side effect that the caller performs on the audio sink or the runtime
/// after a transport operation has updated the status.
pub enum Action {
    SinkPlay,
    SinkPause,
    SinkStop,
    SinkSkipOne,
    SinkSetVolume(i64),
    /// Start the consumption loop, which then calls `next_track` until it
    /// answers `Finished`.
    SpawnLoop,
}

/// What the consumption loop does next.
pub enum LoopStep {
    /// Open this track, hand it to the sink and wait until it has played.
    Feed(Track),
    /// Stop the sink and end the loop.
    Finished,
}

/// `queue_remove` was given an index past the end of the queue.
pub enum QueueError {
    IndexOutOfRange,
}

/// The mathematical state of the engine.
pub struct EngineState {
    pub playing: bool,
    pub current_song: Option<Track>,
    pub queue: Seq<Track>,
    pub volume: int,
    pub running: bool,
}

/// `v` brought into the range of `i64`.
pub open spec fn clamp_volume(v: int) -> int {
    if v < i64::MIN {
        i64::MIN as int
    } else if v > i64::MAX {
        i64::MAX as int
    } else {
        v
    }
}

/// The position at which `queue_insert` places a track.
pub open spec fn insert_position(index: int, len: int) -> int {
    if index < 0 {
        0
    } else if index > len {
        len
    } else {
        index
    }
}

pub open spec fn after_queue_insert(s: EngineState, t: Track, index: int) -> EngineState {
    EngineState { queue: s.queue.insert(insert_position(index, s.queue.len() as int), t), ..s }
}

pub open spec fn after_play(s: EngineState) -> EngineState {
    EngineState { playing: true, running: true, ..s }
}

pub open spec fn play_actions(s: EngineState) -> Seq<Action> {
    (if s.playing { seq![] } else { seq![Action::SinkPlay] }) + (if s.running {
        seq![]
    } else {
        seq![Action::SpawnLoop]
    })
}

pub open spec fn after_pause(s: EngineState) -> EngineState {
    EngineState { playing: false, ..s }
}

pub open spec fn after_stop(s: EngineState) -> EngineState {
    EngineState { playing: false, current_song: None, queue: seq![], ..s }
}

pub open spec fn after_volume_set(s: EngineState, v: int) -> EngineState {
    EngineState { volume: v, ..s }
}

pub open spec fn after_restart(s: EngineState) -> EngineState {
    match s.current_song {
        Some(x) => after_play(after_queue_insert(s, x, 0)),
        None => s,
    }
}

pub open spec fn restart_actions(s: EngineState) -> Seq<Action> {
    match s.current_song {
        Some(x) => play_actions(s).push(Action::SinkSkipOne),
        None => seq![],
    }
}

/// Whether the loop has a track to play now.
pub open spec fn has_next(s: EngineState) -> bool {
    s.playing && s.queue.len() > 0
}

pub open spec fn after_next_track(s: EngineState) -> EngineState {
    if has_next(s) {
        EngineState { current_song: Some(s.queue[0]), queue: s.queue.drop_first(), ..s }
    } else {
        EngineState { current_song: None, playing: false, running: false, ..s }
    }
}

pub open spec fn next_step(s: EngineState) -> LoopStep {
    if has_next(s) {
        LoopStep::Feed(s.queue[0])
    } else {
        LoopStep::Finished
    }
}

pub open spec fn after_track_failed(s: EngineState) -> EngineState {
    EngineState { current_song: None, ..s }
}

/// The state after the loop has taken `n` steps, each track playing to its end.
pub open spec fn run_loop(s: EngineState, n: nat) -> EngineState
    decreases n,
{
    if n == 0 {
        s
    } else {
        run_loop(after_next_track(s), (n - 1) as nat)
    }
}

/// Idle: nothing queued, nothing playing, the loop ended.
pub open spec fn is_idle(s: EngineState) -> bool {
    &&& s.queue.len() == 0
    &&& s.current_song.is_none()
    &&& !s.playing
    &&& !s.running
}

/// A track inserted at `index` lands at `index` clamped to the queue's
/// length, and the entries around it keep their order.
pub proof fn lemma_insert_lands_at_clamped_index(s: EngineState, t: Track, index: int)
    ensures
        ({
            let p = insert_position(index, s.queue.len() as int);
            let q = after_queue_insert(s, t, index).queue;
            &&& 0 <= p <= s.queue.len()
            &&& q.len() == s.queue.len() + 1
            &&& q[p] == t
            &&& q.subrange(0, p) == s.queue.subrange(0, p)
            &&& q.subrange(p + 1, q.len() as int) == s.queue.subrange(p, s.queue.len() as int)
        }),
{
    let p = insert_position(index, s.queue.len() as int);
    let q = after_queue_insert(s, t, index).queue;
    assert(q.subrange(0, p) =~= s.queue.subrange(0, p));
    assert(q.subrange(p + 1, q.len() as int) =~= s.queue.subrange(p, s.queue.len() as int));
}

/// Once idle, the loop stays idle.
proof fn lemma_idle_stays(s: EngineState, n: nat)
    requires
        is_idle(s),
    ensures
        run_loop(s, n) == s,
    decreases n,
{
    if n > 0 {
        assert(after_next_track(s) == s);
        lemma_idle_stays(s, (n - 1) as nat);
    }
}

/// While playing, the loop reaches idle within one step per queued track
/// and one more.
proof fn lemma_playing_drains(s: EngineState, n: nat)
    requires
        s.playing,
        n >= s.queue.len() + 1,
    ensures
        is_idle(run_loop(s, n)),
    decreases n,
{
    let s1 = after_next_track(s);
    if has_next(s) {
        lemma_playing_drains(s1, (n - 1) as nat);
    } else {
        lemma_idle_stays(s1, (n - 1) as nat);
    }
}

/// Whatever the state, after `play` and with every track playing to its
/// end, the loop empties the queue, clears the current track, stops
/// playing and ends.
pub proof fn lemma_loop_drains(s: EngineState)
    ensures
        is_idle(run_loop(after_play(s), (s.queue.len() + 1) as nat)),
{
    lemma_playing_drains(after_play(s), (s.queue.len() + 1) as nat);
}

/// `stop` leaves nothing queued, nothing current and playback off,
/// whatever came before.
pub proof fn lemma_stop_clears(s: EngineState)
    ensures
        after_stop(s).queue.len() == 0,
        after_stop(s).current_song.is_none(),
        !after_stop(s).playing,
{
}

/// With a current track, `restart` queues it first and turns playback on,
/// so that the loop's next step plays it again; without one, `restart`
/// changes nothing and asks for nothing.
pub proof fn lemma_restart_resumes(s: EngineState)
    ensures
        s.current_song.is_none() ==> after_restart(s) == s && restart_actions(s) == Seq::<
            Action,
        >::empty(),
        s.current_song.is_some() ==> {
            let r = after_restart(s);
            &&& r.queue == seq![s.current_song.unwrap()] + s.queue
            &&& r.playing
            &&& r.running
            &&& next_step(r) == LoopStep::Feed(s.current_song.unwrap())
        },
{
    if s.current_song.is_some() {
        assert(after_restart(s).queue =~= seq![s.current_song.unwrap()] + s.queue);
    }
}

/// A track that fails to open does not end the loop: while playing with
/// entries left, the next step plays the next entry.
pub proof fn lemma_failure_continues(s: EngineState)
    requires
        has_next(s),
    ensures
        next_step(after_track_failed(s)) == LoopStep::Feed(s.queue[0]),
        after_next_track(after_track_failed(s)).queue == s.queue.drop_first(),
        after_next_track(after_track_failed(s)).playing,
        after_next_track(after_track_failed(s)).running == s.running,
{
}

/// The playback engine: the status it publishes and whether its
/// consumption loop is running.
pub struct Playback {
    pub status: Status,
    pub playback_running: bool,
}

impl View for Playback {
    type V = EngineState;

    open spec fn view(&self) -> EngineState {
        EngineState {
            playing: self.status.playing,
            current_song: self.status.current_song,
            queue: self.status.queue@,
            volume: self.status.volume as int,
            running: self.playback_running,
        }
    }
}

impl Playback {
    /// An idle engine at full volume.
    pub fn new() -> (r: Playback)
        ensures
            is_idle(r@),
            r@.volume == FULL_VOLUME,
    {
        Playback { status: initial_status(), playback_running: false }
    }

    /// Inserts `song` at `index`, or at the end when `index` is past it.
    pub fn queue_insert(&mut self, song: Track, index: usize)
        ensures
            final(self)@ == after_queue_insert(old(self)@, song, index as int),
    {
        let len = self.status.queue.len();
        let at = if index > len {
            len
        } else {
            index
        };
        self.status.queue.insert(at, song);
    }

    /// Pauses output; the queue and the current track are kept.
    pub fn pause(&mut self) -> (r: Vec<Action>)
        ensures
            final(self)@ == after_pause(old(self)@),
            r@ == seq![Action::SinkPause],
    {
        self.status.playing = false;
        vec![Action::SinkPause]
    }

    /// Resumes output and starts the consumption loop unless it runs.
    pub fn play(&mut self) -> (r: Vec<Action>)
        ensures
            final(self)@ == after_play(old(self)@),
            r@ == play_actions(old(self)@),
    {
        let mut actions: Vec<Action> = Vec::new();
        if !self.status.playing {
            self.status.playing = true;
            actions.push(Action::SinkPlay);
        }
        if !self.playback_running {
            self.playback_running = true;
            actions.push(Action::SpawnLoop);
        }
        proof {
            assert(actions@ =~= play_actions(old(self)@));
        }
        actions
    }

    /// Stops output and forgets the queue and the current track.
    pub fn stop(&mut self) -> (r: Vec<Action>)
        ensures
            final(self)@ == after_stop(old(self)@),
            r@ == seq![Action::SinkStop, Action::SinkPause],
    {
        self.status.playing = false;
        self.status.queue.clear();
        self.status.current_song = None;
        vec![Action::SinkStop, Action::SinkPause]
    }

    /// Plays, and drops what is left of the current track.
    pub fn skip(&mut self) -> (r: Vec<Action>)
        ensures
            final(self)@ == after_play(old(self)@),
            r@ == play_actions(old(self)@).push(Action::SinkSkipOne),
    {
        let mut actions = self.play();
        actions.push(Action::SinkSkipOne);
        actions
    }

    /// Sets the volume, in thousandths of unity gain.
    pub fn volume_set(&mut self, amount: i64) -> (r: Vec<Action>)
        ensures
            final(self)@ == after_volume_set(old(self)@, amount as int),
            r@ == seq![Action::SinkSetVolume(amount)],
    {
        self.status.volume = amount;
        vec![Action::SinkSetVolume(amount)]
    }

    /// Changes the volume by `amount` thousandths, saturating at the
    /// bounds of `i64`.
    pub fn volume_adjust(&mut self, amount: i64) -> (r: Vec<Action>)
        ensures
            final(self)@ == after_volume_set(
                old(self)@,
                clamp_volume(old(self)@.volume + amount),
            ),
            r@ == seq![Action::SinkSetVolume(clamp_volume(old(self)@.volume + amount) as i64)],
    {
        let v = self.status.volume;
        let target: i64 = if amount > 0 && v > i64::MAX - amount {
            i64::MAX
        } else if amount < 0 && v < i64::MIN - amount {
            i64::MIN
        } else {
            v + amount
        };
        self.volume_set(target)
    }

    /// Puts the current track back at the front of the queue and skips to
    /// it; does nothing when no track is current.
    pub fn restart(&mut self) -> (r: Vec<Action>)
        ensures
            final(self)@ == after_restart(old(self)@),
            r@ == restart_actions(old(self)@),
    {
        match &self.status.current_song {
            Some(s) => {
                let song = s.duplicate();
                self.queue_insert(song, 0);
                self.skip()
            },
            None => Vec::new(),
        }
    }

    /// Removes and returns the entry at `index`; an index past the end is
    /// an error and leaves the queue as it was.
    pub fn queue_remove(&mut self, index: u8) -> (r: Result<Track, QueueError>)
        ensures
            index < old(self)@.queue.len() ==> r == Ok::<Track, QueueError>(
                old(self)@.queue[index as int],
            ) && final(self)@ == (EngineState {
                queue: old(self)@.queue.remove(index as int),
                ..old(self)@
            }),
            index >= old(self)@.queue.len() ==> r == Err::<Track, QueueError>(
                QueueError::IndexOutOfRange,
            ) && final(self)@ == old(self)@,
    {
        match self.status.queue.remove(index as usize) {
            Some(t) => Ok(t),
            None => Err(QueueError::IndexOutOfRange),
        }
    }

    /// One turn of the consumption loop: takes the front of the queue as
    /// the current track while playing, else tears playback down.
    pub fn next_track(&mut self) -> (r: LoopStep)
        ensures
            final(self)@ == after_next_track(old(self)@),
            r == next_step(old(self)@),
    {
        if self.status.playing && self.status.queue.len() > 0 {
            let t = self.status.queue.pop_front().unwrap();
            self.status.current_song = Some(t.duplicate());
            LoopStep::Feed(t)
        } else {
            self.status.current_song = None;
            self.status.playing = false;
            self.playback_running = false;
            LoopStep::Finished
        }
    }

    /// Called once the current track has been opened: whether it should
    /// still be played.  When playback was turned off meanwhile the track
    /// is dropped and stops being current.
    pub fn track_opened(&mut self) -> (r: bool)
        ensures
            r == old(self)@.playing,
            r ==> final(self)@ == old(self)@,
            !r ==> final(self)@ == after_track_failed(old(self)@),
    {
        if !self.status.playing {
            self.status.current_song = None;
        }
        self.status.playing
    }

    /// The current track could not be opened or decoded: it stops being
    /// current and the loop goes on with the rest of the queue.
    pub fn track_failed(&mut self)
        ensures
            final(self)@ == after_track_failed(old(self)@),
    {
        self.status.current_song = None;
    }
}

} // verus!
