use vstd::prelude::*;
use crate::config::{VOLUME_MAX, clamped_volume, clamp_volume};

verus! {

/// How far, in seconds, a skip moves the position.
pub const SKIP_SECONDS: u64 = 30;

/// The episode being played, as far as playback needs it.
#[derive(Clone, Copy, Debug, PartialEq, Eq, Structural)]
pub struct Episode {
    pub id: i32,
    /// Length of the episode in seconds.
    pub duration: u64,
}

/// Transport status of the player.
#[derive(Clone, Copy, Debug, PartialEq, Eq, Structural)]
pub enum Transport {
    Stopped,
    Playing,
    Paused,
}

/// What the player's execution context must do to the decode/output chain and
/// to durable storage, in order, after a transition.
#[derive(Clone, Copy, Debug, PartialEq, Eq, Structural)]
pub enum PlayerEffect {
    /// Persist the listened seconds and completed flag of an episode.
    SaveProgress { episode: i32, seconds: u64, completed: bool },
    /// Release the decode/output chain of an episode.
    TearDown { episode: i32 },
    /// Construct the decode/output chain of an episode, starting at `offset`.
    BuildChain { episode: i32, offset: u64 },
    /// Pause the live output.
    PauseOutput,
    /// Resume the live output.
    ResumeOutput,
    /// Move the live chain to a position in seconds.
    SeekOutput { seconds: u64 },
    /// Apply a volume, in thousandths, to the live output.
    SetOutputVolume { level: u32 },
}

/// The player's state as mathematical values.
pub ghost struct PlayerView {
    pub transport: Transport,
    pub episode: Option<Episode>,
    pub position: u64,
    pub volume: u32,
    /// The registration with the media-control surface, if any: the platform
    /// handle it was made with.
    pub controls: Option<Option<u64>>,
}

impl PlayerView {
    /// A chain is live exactly while an episode is loaded, which is exactly
    /// while the player is not stopped; the position lies within the episode.
    pub open spec fn wf(self) -> bool {
        &&& (self.transport == Transport::Stopped) == (self.episode is None)
        &&& self.episode matches Some(e) ==> self.position <= e.duration
        &&& self.episode is None ==> self.position == 0
        &&& self.volume <= VOLUME_MAX
    }

    /// Number of decode/output chains live in this state.
    pub open spec fn live_chains(self) -> int {
        if self.episode is Some { 1 } else { 0 }
    }
}

/// `x` clamped to `[lo, hi]`.
pub open spec fn clamp(x: int, lo: int, hi: int) -> int {
    if x < lo {
        lo
    } else if x > hi {
        hi
    } else {
        x
    }
}

/// Whether a position counts as having listened to the whole episode.
pub open spec fn is_completed(position: u64, e: Episode) -> bool {
    position >= e.duration
}

/// The checkpoint that persists the progress of `e` at `position`.
pub open spec fn save_effect(e: Episode, position: u64) -> PlayerEffect {
    PlayerEffect::SaveProgress { episode: e.id, seconds: position, completed: is_completed(position, e) }
}

/// What stopping does to chain and storage: the progress is saved, then the
/// chain is released.
pub open spec fn stop_effects(p: PlayerView) -> Seq<PlayerEffect> {
    match p.episode {
        Some(e) => seq![save_effect(e, p.position), PlayerEffect::TearDown { episode: e.id }],
        None => seq![],
    }
}

/// What switching to `e` at `start` does: the current playback is fully stopped
/// before the new chain is constructed at the clamped offset.
pub open spec fn switch_effects(p: PlayerView, e: Episode, start: u64) -> Seq<PlayerEffect> {
    stop_effects(p) + seq![
        PlayerEffect::BuildChain { episode: e.id, offset: clamp(start as int, 0, e.duration as int) as u64 },
        PlayerEffect::SetOutputVolume { level: p.volume },
    ]
}

/// A transport control that a caller can ask for by name.
#[derive(Clone, Copy, Debug, PartialEq, Eq, Structural)]
pub enum TransportAction {
    Play,
    Pause,
    SkipForwards,
    SkipBackwards,
}

/// The state after a transport action: resume only from paused, pause only
/// from playing, and skips move the position by `SKIP_SECONDS`, clamped to the
/// episode, while one is loaded. Anything else leaves the state alone.
pub open spec fn after_action(p: PlayerView, a: TransportAction) -> PlayerView {
    match a {
        TransportAction::Play => if p.transport == Transport::Paused {
            PlayerView { transport: Transport::Playing, ..p }
        } else {
            p
        },
        TransportAction::Pause => if p.transport == Transport::Playing {
            PlayerView { transport: Transport::Paused, ..p }
        } else {
            p
        },
        TransportAction::SkipForwards => match p.episode {
            Some(e) => PlayerView {
                position: clamp(p.position + SKIP_SECONDS, 0, e.duration as int) as u64,
                ..p
            },
            None => p,
        },
        TransportAction::SkipBackwards => match p.episode {
            Some(e) => PlayerView {
                position: clamp(p.position - SKIP_SECONDS, 0, e.duration as int) as u64,
                ..p
            },
            None => p,
        },
    }
}

/// What a transport action does to the output and to storage: pausing also
/// saves the progress.
pub open spec fn action_effects(p: PlayerView, a: TransportAction) -> Seq<PlayerEffect> {
    match a {
        TransportAction::Play => if p.transport == Transport::Paused {
            seq![PlayerEffect::ResumeOutput]
        } else {
            seq![]
        },
        TransportAction::Pause => match (p.transport, p.episode) {
            (Transport::Playing, Some(e)) => seq![PlayerEffect::PauseOutput, save_effect(e, p.position)],
            _ => seq![],
        },
        _ => if p.episode is Some {
            seq![PlayerEffect::SeekOutput { seconds: after_action(p, a).position }]
        } else {
            seq![]
        },
    }
}

/// The state after switching to `e` at `start`.
pub open spec fn after_switch(p: PlayerView, e: Episode, start: u64) -> PlayerView {
    PlayerView {
        transport: Transport::Playing,
        episode: Some(e),
        position: clamp(start as int, 0, e.duration as int) as u64,
        ..p
    }
}

/// Change in the number of live chains that an effect makes.
pub open spec fn chain_delta(f: PlayerEffect) -> int {
    match f {
        PlayerEffect::BuildChain { .. } => 1,
        PlayerEffect::TearDown { .. } => -1,
        _ => 0,
    }
}

/// Number of live chains after carrying out `fs` from `live` chains.
pub open spec fn chains_after(live: int, fs: Seq<PlayerEffect>) -> int
    decreases fs.len(),
{
    if fs.len() == 0 {
        live
    } else {
        chains_after(live, fs.drop_last()) + chain_delta(fs.last())
    }
}

proof fn lemma_chains_step(live: int, fs: Seq<PlayerEffect>, k: int)
    requires
        0 < k <= fs.len(),
    ensures
        chains_after(live, fs.take(k)) == chains_after(live, fs.take(k - 1)) + chain_delta(fs[k - 1]),
{
    assert(fs.take(k).drop_last() =~= fs.take(k - 1));
}

/// One switch of episodes from a well-formed state never has two chains live
/// at once, at no point of carrying out its effects, and ends with exactly the
/// one chain that the new state records.
pub proof fn lemma_one_chain_at_a_time(p: PlayerView, e: Episode, start: u64)
    requires
        p.wf(),
    ensures
        forall|k: int|
            0 <= k <= switch_effects(p, e, start).len() ==> 0 <= #[trigger] chains_after(
                p.live_chains(),
                switch_effects(p, e, start).take(k),
            ) <= 1,
        chains_after(p.live_chains(), switch_effects(p, e, start)) == 1,
{
    let fs = switch_effects(p, e, start);
    let live = p.live_chains();
    assert(fs.take(0) =~= Seq::<PlayerEffect>::empty());
    lemma_chains_step(live, fs, 1);
    lemma_chains_step(live, fs, 2);
    if fs.len() == 4 {
        lemma_chains_step(live, fs, 3);
        lemma_chains_step(live, fs, 4);
    }
    assert(fs.take(fs.len() as int) =~= fs);
    if p.episode is Some {
        assert(fs.len() == 4);
        assert(chains_after(live, fs.take(1)) == 1);
        assert(chains_after(live, fs.take(2)) == 0);
        assert(chains_after(live, fs.take(3)) == 1);
        assert(chains_after(live, fs.take(4)) == 1);
    } else {
        assert(fs.len() == 2);
        assert(chains_after(live, fs.take(1)) == 1);
        assert(chains_after(live, fs.take(2)) == 1);
    }
}

/// The state after switching episodes by each of `calls` (episode, start) in turn.
pub open spec fn play_all(p: PlayerView, calls: Seq<(Episode, u64)>) -> PlayerView
    decreases calls.len(),
{
    if calls.len() == 0 {
        p
    } else {
        after_switch(play_all(p, calls.drop_last()), calls.last().0, calls.last().1)
    }
}

/// The effects of switching episodes by each of `calls` in turn, in order.
pub open spec fn play_all_effects(p: PlayerView, calls: Seq<(Episode, u64)>) -> Seq<PlayerEffect>
    decreases calls.len(),
{
    if calls.len() == 0 {
        seq![]
    } else {
        play_all_effects(p, calls.drop_last()) + switch_effects(
            play_all(p, calls.drop_last()),
            calls.last().0,
            calls.last().1,
        )
    }
}

proof fn lemma_chains_concat(live: int, a: Seq<PlayerEffect>, b: Seq<PlayerEffect>)
    ensures
        chains_after(live, a + b) == chains_after(chains_after(live, a), b),
    decreases b.len(),
{
    if b.len() == 0 {
        assert(a + b =~= a);
    } else {
        assert((a + b).drop_last() =~= a + b.drop_last());
        assert((a + b).last() == b.last());
        lemma_chains_concat(live, a, b.drop_last());
    }
}

/// For every sequence of episode switches from a well-formed state, at most
/// one decode/output chain is live at any point of carrying out their effects,
/// and in the end exactly the chains that the final state records are live.
pub proof fn lemma_plays_keep_one_chain(p: PlayerView, calls: Seq<(Episode, u64)>)
    requires
        p.wf(),
    ensures
        play_all(p, calls).wf(),
        chains_after(p.live_chains(), play_all_effects(p, calls)) == play_all(p, calls).live_chains(),
        forall|k: int|
            0 <= k <= play_all_effects(p, calls).len() ==> 0 <= #[trigger] chains_after(
                p.live_chains(),
                play_all_effects(p, calls).take(k),
            ) <= 1,
    decreases calls.len(),
{
    let live = p.live_chains();
    let fs = play_all_effects(p, calls);
    if calls.len() == 0 {
        assert forall|k: int| 0 <= k <= fs.len() implies 0 <= #[trigger] chains_after(
            live,
            fs.take(k),
        ) <= 1 by {
            assert(fs.take(k) =~= Seq::<PlayerEffect>::empty());
        }
    } else {
        let prev = calls.drop_last();
        let (e, start) = calls.last();
        lemma_plays_keep_one_chain(p, prev);
        let q = play_all(p, prev);
        let a = play_all_effects(p, prev);
        let b = switch_effects(q, e, start);
        lemma_one_chain_at_a_time(q, e, start);
        assert(fs == a + b);
        lemma_chains_concat(live, a, b);
        assert forall|k: int| 0 <= k <= fs.len() implies 0 <= #[trigger] chains_after(
            live,
            fs.take(k),
        ) <= 1 by {
            if k <= a.len() {
                assert(fs.take(k) =~= a.take(k));
            } else {
                assert(fs.take(k) =~= a + b.take(k - a.len()));
                lemma_chains_concat(live, a, b.take(k - a.len()));
            }
        }
    }
}

/// Stopping releases every live chain.
pub proof fn lemma_stop_releases_chain(p: PlayerView)
    requires
        p.wf(),
    ensures
        chains_after(p.live_chains(), stop_effects(p)) == 0,
{
    let fs = stop_effects(p);
    if p.episode is Some {
        let once = fs.drop_last();
        assert(once.drop_last() =~= Seq::<PlayerEffect>::empty());
        assert(chains_after(p.live_chains(), once.drop_last()) == 1);
        assert(chain_delta(once.last()) == 0);
        assert(chains_after(p.live_chains(), once) == 1);
    }
}

/// The playback state machine. It owns the transport state and decides what
/// is done to the decode/output chain; the chain itself is driven by whoever
/// carries out the returned effects, in order, on one execution context.
pub struct Player {
    transport: Transport,
    episode: Option<Episode>,
    position: u64,
    volume: u32,
    controls: Option<Option<u64>>,
}

impl View for Player {
    type V = PlayerView;

    closed spec fn view(&self) -> PlayerView {
        PlayerView {
            transport: self.transport,
            episode: self.episode,
            position: self.position,
            volume: self.volume,
            controls: self.controls,
        }
    }
}

impl Player {
    /// A stopped player with nothing loaded, at the given volume.
    pub fn new(volume: i64) -> (r: Player)
        ensures
            r@.wf(),
            r@.transport == Transport::Stopped,
            r@.episode is None,
            r@.position == 0,
            r@.volume as int == clamped_volume(volume as int),
            r@.controls is None,
    {
        Player {
            transport: Transport::Stopped,
            episode: None,
            position: 0,
            volume: clamp_volume(volume),
            controls: None,
        }
    }

    pub fn transport(&self) -> (r: Transport)
        ensures
            r == self@.transport,
    {
        self.transport
    }

    pub fn episode(&self) -> (r: Option<Episode>)
        ensures
            r == self@.episode,
    {
        self.episode
    }

    pub fn position(&self) -> (r: u64)
        ensures
            r == self@.position,
    {
        self.position
    }

    pub fn volume(&self) -> (r: u32)
        ensures
            r == self@.volume,
    {
        self.volume
    }

    pub fn media_controls(&self) -> (r: Option<Option<u64>>)
        ensures
            r == self@.controls,
    {
        self.controls
    }

    fn stop_chain(&self, out: &mut Vec<PlayerEffect>)
        requires
            self@.wf(),
        ensures
            final(out)@ == old(out)@ + stop_effects(self@),
    {
        if let Some(e) = self.episode {
            out.push(
                PlayerEffect::SaveProgress {
                    episode: e.id,
                    seconds: self.position,
                    completed: self.position >= e.duration,
                },
            );
            out.push(PlayerEffect::TearDown { episode: e.id });
        }
        assert(final(out)@ =~= old(out)@ + stop_effects(self@));
    }

    /// Plays `e` from `start` seconds, clamped to the episode: whatever was
    /// playing is stopped and its chain released first.
    pub fn play_episode(&mut self, e: Episode, start: u64) -> (fs: Vec<PlayerEffect>)
        requires
            old(self)@.wf(),
        ensures
            final(self)@.wf(),
            final(self)@ == after_switch(old(self)@, e, start),
            fs@ == switch_effects(old(self)@, e, start),
    {
        let mut fs: Vec<PlayerEffect> = Vec::new();
        self.stop_chain(&mut fs);
        let offset = if start > e.duration {
            e.duration
        } else {
            start
        };
        fs.push(PlayerEffect::BuildChain { episode: e.id, offset });
        fs.push(PlayerEffect::SetOutputVolume { level: self.volume });
        self.transport = Transport::Playing;
        self.episode = Some(e);
        self.position = offset;
        assert(fs@ =~= switch_effects(old(self)@, e, start));
        fs
    }

    /// Stops playback: progress is saved and the chain released. Does nothing
    /// when already stopped.
    pub fn stop(&mut self) -> (fs: Vec<PlayerEffect>)
        requires
            old(self)@.wf(),
        ensures
            final(self)@.wf(),
            final(self)@ == (PlayerView {
                transport: Transport::Stopped,
                episode: None,
                position: 0,
                ..old(self)@
            }),
            fs@ == stop_effects(old(self)@),
    {
        let mut fs: Vec<PlayerEffect> = Vec::new();
        self.stop_chain(&mut fs);
        self.transport = Transport::Stopped;
        self.episode = None;
        self.position = 0;
        assert(fs@ =~= stop_effects(old(self)@));
        fs
    }

    /// Resumes a paused episode; does nothing in any other state.
    pub fn play(&mut self) -> (fs: Vec<PlayerEffect>)
        requires
            old(self)@.wf(),
        ensures
            final(self)@.wf(),
            final(self)@ == after_action(old(self)@, TransportAction::Play),
            fs@ == action_effects(old(self)@, TransportAction::Play),
    {
        let mut fs: Vec<PlayerEffect> = Vec::new();
        if self.transport == Transport::Paused {
            self.transport = Transport::Playing;
            fs.push(PlayerEffect::ResumeOutput);
        }
        fs
    }

    /// Pauses a playing episode and saves its progress; does nothing in any
    /// other state.
    pub fn pause(&mut self) -> (fs: Vec<PlayerEffect>)
        requires
            old(self)@.wf(),
        ensures
            final(self)@.wf(),
            final(self)@ == after_action(old(self)@, TransportAction::Pause),
            fs@ == action_effects(old(self)@, TransportAction::Pause),
    {
        let mut fs: Vec<PlayerEffect> = Vec::new();
        if self.transport == Transport::Playing {
            if let Some(e) = self.episode {
                self.transport = Transport::Paused;
                fs.push(PlayerEffect::PauseOutput);
                fs.push(
                    PlayerEffect::SaveProgress {
                        episode: e.id,
                        seconds: self.position,
                        completed: self.position >= e.duration,
                    },
                );
            }
        }
        fs
    }

    /// Moves to `to` seconds, clamped to `[0, duration]`, while an episode is
    /// loaded; the transport status is kept. Does nothing when stopped.
    pub fn seek_to(&mut self, to: i64) -> (fs: Vec<PlayerEffect>)
        requires
            old(self)@.wf(),
        ensures
            final(self)@.wf(),
            old(self)@.episode matches Some(e) ==> final(self)@ == (PlayerView {
                position: clamp(to as int, 0, e.duration as int) as u64,
                ..old(self)@
            }) && fs@ == seq![PlayerEffect::SeekOutput { seconds: final(self)@.position }],
            old(self)@.episode is None ==> final(self)@ == old(self)@ && fs@.len() == 0,
    {
        let mut fs: Vec<PlayerEffect> = Vec::new();
        if let Some(e) = self.episode {
            let p: u64 = if to < 0 {
                0
            } else if to as u64 > e.duration {
                e.duration
            } else {
                to as u64
            };
            self.position = p;
            fs.push(PlayerEffect::SeekOutput { seconds: p });
        }
        fs
    }

    /// Moves `SKIP_SECONDS` forwards, stopping at the end of the episode.
    pub fn skip_forwards(&mut self) -> (fs: Vec<PlayerEffect>)
        requires
            old(self)@.wf(),
        ensures
            final(self)@.wf(),
            final(self)@ == after_action(old(self)@, TransportAction::SkipForwards),
            fs@ == action_effects(old(self)@, TransportAction::SkipForwards),
    {
        let mut fs: Vec<PlayerEffect> = Vec::new();
        if let Some(e) = self.episode {
            let p: u64 = if e.duration - self.position < SKIP_SECONDS {
                e.duration
            } else {
                self.position + SKIP_SECONDS
            };
            self.position = p;
            fs.push(PlayerEffect::SeekOutput { seconds: p });
        }
        fs
    }

    /// Moves `SKIP_SECONDS` backwards, stopping at the start of the episode.
    pub fn skip_backwards(&mut self) -> (fs: Vec<PlayerEffect>)
        requires
            old(self)@.wf(),
        ensures
            final(self)@.wf(),
            final(self)@ == after_action(old(self)@, TransportAction::SkipBackwards),
            fs@ == action_effects(old(self)@, TransportAction::SkipBackwards),
    {
        let mut fs: Vec<PlayerEffect> = Vec::new();
        if self.episode.is_some() {
            let p: u64 = if self.position < SKIP_SECONDS {
                0
            } else {
                self.position - SKIP_SECONDS
            };
            self.position = p;
            fs.push(PlayerEffect::SeekOutput { seconds: p });
        }
        fs
    }

    /// Carries out a transport action.
    pub fn apply(&mut self, a: TransportAction) -> (fs: Vec<PlayerEffect>)
        requires
            old(self)@.wf(),
        ensures
            final(self)@.wf(),
            final(self)@ == after_action(old(self)@, a),
            fs@ == action_effects(old(self)@, a),
    {
        match a {
            TransportAction::Play => self.play(),
            TransportAction::Pause => self.pause(),
            TransportAction::SkipForwards => self.skip_forwards(),
            TransportAction::SkipBackwards => self.skip_backwards(),
        }
    }

    /// Takes a position reported by the live output while playing, clamped to
    /// the episode, and checkpoints the progress. Reaching the end completes
    /// the episode: its progress is saved as completed, the chain released and
    /// the player stopped. Ignored unless playing.
    pub fn report_position(&mut self, seconds: u64) -> (fs: Vec<PlayerEffect>)
        requires
            old(self)@.wf(),
        ensures
            final(self)@.wf(),
            old(self)@.transport != Transport::Playing ==> final(self)@ == old(self)@ && fs@.len()
                == 0,
            old(self)@.transport == Transport::Playing ==> (old(self)@.episode matches Some(e) && {
                let at = PlayerView {
                    position: clamp(seconds as int, 0, e.duration as int) as u64,
                    ..old(self)@
                };
                if seconds < e.duration {
                    final(self)@ == at && fs@ == seq![save_effect(e, at.position)]
                } else {
                    final(self)@ == (PlayerView {
                        transport: Transport::Stopped,
                        episode: None,
                        position: 0,
                        ..old(self)@
                    }) && fs@ == stop_effects(at)
                }
            }),
    {
        if self.transport != Transport::Playing {
            return Vec::new();
        }
        let e = match self.episode {
            Some(e) => e,
            None => return Vec::new(),
        };
        if seconds < e.duration {
            self.position = seconds;
            let mut fs: Vec<PlayerEffect> = Vec::new();
            fs.push(PlayerEffect::SaveProgress { episode: e.id, seconds, completed: false });
            fs
        } else {
            self.position = e.duration;
            self.stop()
        }
    }

    /// Sets the volume, clamped to `[0, VOLUME_MAX]`, in any transport state;
    /// it is applied to the output at once while a chain is live.
    pub fn set_volume(&mut self, level: i64) -> (fs: Vec<PlayerEffect>)
        requires
            old(self)@.wf(),
        ensures
            final(self)@.wf(),
            final(self)@ == (PlayerView {
                volume: clamped_volume(level as int) as u32,
                ..old(self)@
            }),
            old(self)@.episode is Some ==> fs@ == seq![
                PlayerEffect::SetOutputVolume { level: final(self)@.volume },
            ],
            old(self)@.episode is None ==> fs@.len() == 0,
    {
        let v = clamp_volume(level);
        self.volume = v;
        let mut fs: Vec<PlayerEffect> = Vec::new();
        if self.episode.is_some() {
            fs.push(PlayerEffect::SetOutputVolume { level: v });
        }
        fs
    }

    /// Registers the transport operations with the media-control surface,
    /// made with the given platform handle. A later call replaces the
    /// registration; there is never more than one.
    pub fn set_up_media_controls(&mut self, handle: Option<u64>)
        requires
            old(self)@.wf(),
        ensures
            final(self)@.wf(),
            final(self)@ == (PlayerView { controls: Some(handle), ..old(self)@ }),
    {
        self.controls = Some(handle);
    }
}

} // verus!
