use vstd::prelude::*;
use std::collections::HashMap;

verus! {

broadcast use vstd::std_specs::hash::group_hash_axioms;

/// Persisted download state of an episode.
#[derive(Clone, Copy, Debug, PartialEq, Eq, Structural)]
pub enum DownloadState {
    NotDownloaded,
    Downloading,
    Downloaded,
}

/// Live progress of one download: bytes received, and the total when known.
#[derive(Clone, Copy, Debug, PartialEq, Eq, Structural)]
pub struct Progress {
    pub received: u64,
    pub total: Option<u64>,
}

impl Progress {
    /// Never more received than the known total: the fraction is at most one.
    pub open spec fn wf(self) -> bool {
        self.total matches Some(t) ==> self.received <= t
    }

    /// `next` is not behind `self`: no byte is taken back and a known total is kept,
    /// so the fraction does not decrease.
    pub open spec fn not_behind(self, next: Progress) -> bool {
        &&& self.received <= next.received
        &&& self.total is Some ==> next.total == self.total
    }
}

/// The tracker entry of one download in flight: its progress, and the persisted
/// state the episode had before the download began.
#[derive(Clone, Copy, Debug, PartialEq, Eq, Structural)]
pub struct TrackerEntry {
    pub progress: Progress,
    pub before: DownloadState,
}

/// Why a download request was refused.
#[derive(Clone, Copy, Debug, PartialEq, Eq, Structural)]
pub enum DownloadError {
    /// A download of the episode is already in flight; the request is rejected.
    AlreadyInProgress,
    /// No download of the episode is in flight.
    NotInProgress,
    /// Fetching or storing the media failed.
    Transfer,
}

/// The state persisted for an episode whose download failed: its state before
/// the download, but never left at `Downloading`.
pub open spec fn rollback_state(before: DownloadState) -> DownloadState {
    if before == DownloadState::Downloading {
        DownloadState::NotDownloaded
    } else {
        before
    }
}

/// The larger of two counts.
pub open spec fn max(a: u64, b: u64) -> u64 {
    if a < b { b } else { a }
}

/// The total tracked after a report of `total`: the first total known is
/// kept, and a total reported below the `received` bytes is raised to them.
pub open spec fn kept_total(p: Progress, total: Option<u64>) -> Option<u64> {
    match p.total {
        Some(t) => Some(t),
        None => match total {
            Some(t) => Some(max(t, p.received)),
            None => None,
        },
    }
}

/// The progress after a report of `received` bytes out of `total`: never fewer
/// bytes than before, never more than the total kept.
pub open spec fn advanced(p: Progress, received: u64, total: Option<u64>) -> Progress {
    let more = max(p.received, received);
    Progress {
        received: match kept_total(p, total) {
            Some(t) if more > t => t,
            _ => more,
        },
        total: kept_total(p, total),
    }
}

/// Per-episode progress of the downloads in flight, keyed by episode id.
/// At most one download per episode is in flight: a second start is rejected.
pub struct Downloads {
    entries: HashMap<i32, TrackerEntry>,
}

impl View for Downloads {
    type V = Map<i32, TrackerEntry>;

    closed spec fn view(&self) -> Map<i32, TrackerEntry> {
        self.entries@
    }
}

impl Downloads {
    /// Every tracked progress is well formed.
    pub open spec fn wf(&self) -> bool {
        forall|id: i32| #[trigger] self@.contains_key(id) ==> self@[id].progress.wf()
    }

    pub fn new() -> (r: Downloads)
        ensures
            r@ == Map::<i32, TrackerEntry>::empty(),
            r.wf(),
    {
        Downloads { entries: HashMap::new() }
    }

    /// The progress of the download of `id`, or `None` when none is in flight.
    pub fn get_progress(&self, id: i32) -> (r: Option<Progress>)
        ensures
            r == (if self@.contains_key(id) {
                Some(self@[id].progress)
            } else {
                None
            }),
    {
        match self.entries.get(&id) {
            Some(e) => Some(e.progress),
            None => None,
        }
    }

    /// Starts tracking a download of `id`, whose persisted state is `current`.
    /// Rejected, with nothing changed, when one is already in flight; else the
    /// state to persist now is returned: `Downloading`.
    pub fn begin(&mut self, id: i32, current: DownloadState) -> (r: Result<
        DownloadState,
        DownloadError,
    >)
        requires
            old(self).wf(),
        ensures
            final(self).wf(),
            old(self)@.contains_key(id) ==> r == Err::<DownloadState, DownloadError>(
                DownloadError::AlreadyInProgress,
            ) && final(self)@ == old(self)@,
            !old(self)@.contains_key(id) ==> r == Ok::<DownloadState, DownloadError>(
                DownloadState::Downloading,
            ) && final(self)@ == old(self)@.insert(
                id,
                TrackerEntry { progress: Progress { received: 0, total: None }, before: current },
            ),
    {
        if self.entries.contains_key(&id) {
            return Err(DownloadError::AlreadyInProgress);
        }
        self.entries.insert(
            id,
            TrackerEntry { progress: Progress { received: 0, total: None }, before: current },
        );
        Ok(DownloadState::Downloading)
    }

    /// Records that `received` bytes of `total` have arrived for the download
    /// of `id`; returns the progress now tracked.
    pub fn record_progress(&mut self, id: i32, received: u64, total: Option<u64>) -> (r: Result<
        Progress,
        DownloadError,
    >)
        requires
            old(self).wf(),
        ensures
            final(self).wf(),
            !old(self)@.contains_key(id) ==> r == Err::<Progress, DownloadError>(
                DownloadError::NotInProgress,
            ) && final(self)@ == old(self)@,
            old(self)@.contains_key(id) ==> {
                let e = old(self)@[id];
                let p = advanced(e.progress, received, total);
                &&& r == Ok::<Progress, DownloadError>(p)
                &&& final(self)@ == old(self)@.insert(id, TrackerEntry { progress: p, ..e })
                &&& e.progress.not_behind(p)
                &&& p.wf()
            },
    {
        let e = match self.entries.get(&id) {
            Some(e) => *e,
            None => return Err(DownloadError::NotInProgress),
        };
        let t = match (e.progress.total, total) {
            (Some(t), _) => Some(t),
            (None, Some(t)) => Some(
                if t < e.progress.received {
                    e.progress.received
                } else {
                    t
                },
            ),
            (None, None) => None,
        };
        let r = if received < e.progress.received {
            e.progress.received
        } else {
            received
        };
        let p = Progress {
            received: match t {
                Some(t) => if r > t {
                    t
                } else {
                    r
                },
                None => r,
            },
            total: t,
        };
        proof {
            assert(old(self)@.contains_key(id));
            assert(old(self)@[id].progress.wf());
        }
        self.entries.insert(id, TrackerEntry { progress: p, before: e.before });
        Ok(p)
    }

    /// Ends the download of `id`: its entry is removed, and the state to persist
    /// is returned: `Downloaded` when it succeeded, else the state before it
    /// began, never `Downloading`. `None`, with nothing changed, when none is
    /// in flight.
    pub fn finish(&mut self, id: i32, succeeded: bool) -> (r: Option<DownloadState>)
        requires
            old(self).wf(),
        ensures
            final(self).wf(),
            !old(self)@.contains_key(id) ==> r is None && final(self)@ == old(self)@,
            old(self)@.contains_key(id) ==> {
                &&& r == Some(
                    if succeeded {
                        DownloadState::Downloaded
                    } else {
                        rollback_state(old(self)@[id].before)
                    },
                )
                &&& final(self)@ == old(self)@.remove(id)
            },
    {
        match self.entries.remove(&id) {
            None => None,
            Some(e) => {
                if succeeded {
                    Some(DownloadState::Downloaded)
                } else if e.before == DownloadState::Downloading {
                    Some(DownloadState::NotDownloaded)
                } else {
                    Some(e.before)
                }
            },
        }
    }
}

/// A download that fails leaves the persisted state at its value before the
/// download, and never at `Downloading`.
pub proof fn lemma_failure_restores(before: DownloadState)
    ensures
        rollback_state(before) != DownloadState::Downloading,
        before != DownloadState::Downloading ==> rollback_state(before) == before,
{
}

} // verus!
