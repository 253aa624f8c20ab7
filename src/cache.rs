use vstd::prelude::*;

verus! {

/// What `open` does for a track.
pub enum CacheStep {
    /// A copy is on disk: open it.
    ReadLocal,
    /// No copy yet: download it, write it with an exclusive create, then
    /// report the outcome to `download_finished`.
    Download,
}

/// How a download and its exclusive-create write ended.
pub enum FetchOutcome {
    /// The bytes were downloaded and written.
    Written,
    /// Another writer created the file first; its copy serves as well.
    AlreadyExists,
    ConnectionFailure,
    AuthFailure,
    ProtocolMismatch,
    /// The write failed; the partial file is removed before this is reported.
    WriteFailure,
}

/// Why a track could not be played.
#[derive(PartialEq, Eq, Structural)]
pub enum TrackError {
    ConnectionFailure,
    AuthFailure,
    ProtocolMismatch,
    CacheWriteFailure,
    DecodeFailure,
}

/// The set of ids whose copy a cache holds after a download ended with
/// `outcome`.
pub open spec fn after_download(
    held: Set<Seq<char>>,
    id: Seq<char>,
    outcome: FetchOutcome,
) -> Set<Seq<char>> {
    match outcome {
        FetchOutcome::Written | FetchOutcome::AlreadyExists => held.insert(id),
        _ => held,
    }
}

/// The error a failed download is reported as.
pub open spec fn outcome_error(outcome: FetchOutcome) -> Option<TrackError> {
    match outcome {
        FetchOutcome::Written | FetchOutcome::AlreadyExists => None,
        FetchOutcome::ConnectionFailure => Some(TrackError::ConnectionFailure),
        FetchOutcome::AuthFailure => Some(TrackError::AuthFailure),
        FetchOutcome::ProtocolMismatch => Some(TrackError::ProtocolMismatch),
        FetchOutcome::WriteFailure => Some(TrackError::CacheWriteFailure),
    }
}

/// The step `open` takes for `id`, given the ids held and whether a file
/// of that name is on disk.
pub open spec fn open_step_of(held: Set<Seq<char>>, id: Seq<char>, on_disk: bool) -> CacheStep {
    if on_disk || held.contains(id) {
        CacheStep::ReadLocal
    } else {
        CacheStep::Download
    }
}

/// The ids of the tracks that have a complete copy in the session's
/// directory.  Entries are never evicted.
pub struct TrackCache {
    stored: Vec<String>,
}

impl View for TrackCache {
    type V = Set<Seq<char>>;

    closed spec fn view(&self) -> Set<Seq<char>> {
        Set::new(|id: Seq<char>| exists|i: int| 0 <= i < self.stored@.len() && self.stored@[i]@ == id)
    }
}

impl TrackCache {
    /// A cache that holds nothing yet.
    pub fn new() -> (r: TrackCache)
        ensures
            r@ == Set::<Seq<char>>::empty(),
    {
        let r = TrackCache { stored: Vec::new() };
        assert(r@ =~= Set::<Seq<char>>::empty());
        r
    }

    /// Whether a complete copy of `id` has been written this session.
    pub fn contains(&self, id: &String) -> (r: bool)
        ensures
            r == self@.contains(id@),
    {
        let mut i: usize = 0;
        while i < self.stored.len()
            invariant
                0 <= i <= self.stored@.len(),
                forall|j: int| 0 <= j < i ==> self.stored@[j]@ != id@,
            decreases self.stored@.len() - i,
        {
            if self.stored[i] == *id {
                return true;
            }
            i += 1;
        }
        false
    }

    /// The first step of opening `id`: read the local copy when there is
    /// one, else download.
    pub fn open_step(&self, id: &String, on_disk: bool) -> (r: CacheStep)
        ensures
            r == open_step_of(self@, id@, on_disk),
    {
        if on_disk || self.contains(id) {
            CacheStep::ReadLocal
        } else {
            CacheStep::Download
        }
    }

    /// Records how the download of `id` ended.  A written file, or one a
    /// concurrent writer created first, is held from now on and is to be
    /// read locally; any other outcome is the error that skips the track.
    pub fn download_finished(&mut self, id: &String, outcome: FetchOutcome) -> (r: Result<
        (),
        TrackError,
    >)
        ensures
            final(self)@ == after_download(old(self)@, id@, outcome),
            outcome_error(outcome) is None ==> r is Ok,
            outcome_error(outcome) matches Some(e) ==> r == Err::<(), TrackError>(e),
    {
        match outcome {
            FetchOutcome::Written | FetchOutcome::AlreadyExists => {
                if !self.contains(id) {
                    let ghost before = self@;
                    self.stored.push(id.clone());
                    assert(self@ =~= before.insert(id@)) by {
                        assert forall|x: Seq<char>| before.insert(id@).contains(x) implies self@.contains(x) by {
                            if x == id@ {
                                assert(self.stored@[self.stored@.len() - 1]@ == id@);
                            } else {
                                let i = choose|i: int| 0 <= i < old(self).stored@.len() && old(self).stored@[i]@ == x;
                                assert(self.stored@[i] == old(self).stored@[i]);
                            }
                        }
                        assert forall|x: Seq<char>| self@.contains(x) implies before.insert(id@).contains(x) by {
                            {
                                let i = choose|i: int| 0 <= i < self.stored@.len() && self.stored@[i]@ == x;
                                if i < old(self).stored@.len() {
                                    assert(self.stored@[i] == old(self).stored@[i]);
                                }
                            }
                        }
                    }
                } else {
                    assert(self@ =~= old(self)@.insert(id@));
                }
                Ok(())
            },
            FetchOutcome::ConnectionFailure => Err(TrackError::ConnectionFailure),
            FetchOutcome::AuthFailure => Err(TrackError::AuthFailure),
            FetchOutcome::ProtocolMismatch => Err(TrackError::ProtocolMismatch),
            FetchOutcome::WriteFailure => Err(TrackError::CacheWriteFailure),
        }
    }
}

/// Once a download of `id` has ended in a file, by this writer or by a
/// concurrent one, every later open of `id` reads the local copy: the
/// remote download happens at most once per id.
pub proof fn lemma_download_at_most_once(
    held: Set<Seq<char>>,
    id: Seq<char>,
    outcome: FetchOutcome,
    on_disk: bool,
)
    requires
        outcome_error(outcome) is None,
    ensures
        open_step_of(after_download(held, id, outcome), id, on_disk) == CacheStep::ReadLocal,
{
}

/// A failed download leaves the cache as it was, so that the track is
/// downloaded again on its next open.
pub proof fn lemma_failed_download_retried(held: Set<Seq<char>>, id: Seq<char>, outcome: FetchOutcome)
    requires
        outcome_error(outcome) is Some,
        !held.contains(id),
    ensures
        open_step_of(after_download(held, id, outcome), id, false) == CacheStep::Download,
{
}

} // verus!
