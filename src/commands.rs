use vstd::prelude::*;
use crate::bus::{EntityChange, changes_after_sync, sync_changes};
use crate::config::{ConfigError, ConfigStore, ConfigView, clamped_volume};
use crate::downloads::{DownloadState, Downloads, rollback_state};
use crate::player::{
    Episode,
    Player,
    PlayerEffect,
    PlayerView,
    TransportAction,
    action_effects,
    after_action,
    after_switch,
    switch_effects,
};
use crate::requests::{RequestLedger, Terminal, open_request, uuid_text};

verus! {

/// Where playback of an episode resumes: from the start once it was
/// completed, else from the seconds listened so far.
pub open spec fn resume_offset(listened_seconds: i32, completed: bool) -> u64 {
    if completed || listened_seconds < 0 {
        0
    } else {
        listened_seconds as u64
    }
}

/// Plays an episode from where its stored progress left off; whatever was
/// playing is fully stopped first.
pub fn play_episode(player: &mut Player, episode: Episode, listened_seconds: i32, completed: bool) -> (fs: Vec<PlayerEffect>)
    requires
        old(player)@.wf(),
    ensures
        final(player)@.wf(),
        final(player)@ == after_switch(old(player)@, episode, resume_offset(listened_seconds, completed)),
        fs@ == switch_effects(old(player)@, episode, resume_offset(listened_seconds, completed)),
{
    let start: u64 = if completed || listened_seconds < 0 {
        0
    } else {
        listened_seconds as u64
    };
    player.play_episode(episode, start)
}

/// The transport action a name stands for, if any.
pub open spec fn action_named(name: Seq<char>) -> Option<TransportAction> {
    if name == "play"@ {
        Some(TransportAction::Play)
    } else if name == "pause"@ {
        Some(TransportAction::Pause)
    } else if name == "skip_forwards"@ {
        Some(TransportAction::SkipForwards)
    } else if name == "skip_backwards"@ {
        Some(TransportAction::SkipBackwards)
    } else {
        None
    }
}

/// Reads a transport action from its name.
pub fn parse_action(name: &str) -> (r: Option<TransportAction>)
    ensures
        r == action_named(name@),
{
    let name = name.to_owned();
    if name == "play".to_owned() {
        Some(TransportAction::Play)
    } else if name == "pause".to_owned() {
        Some(TransportAction::Pause)
    } else if name == "skip_forwards".to_owned() {
        Some(TransportAction::SkipForwards)
    } else if name == "skip_backwards".to_owned() {
        Some(TransportAction::SkipBackwards)
    } else {
        None
    }
}

/// Carries out the transport action named `action`; an unknown name does
/// nothing.
pub fn player_action(player: &mut Player, action: &str) -> (fs: Vec<PlayerEffect>)
    requires
        old(player)@.wf(),
    ensures
        final(player)@.wf(),
        action_named(action@) matches Some(a) ==> final(player)@ == after_action(old(player)@, a)
            && fs@ == action_effects(old(player)@, a),
        action_named(action@) is None ==> final(player)@ == old(player)@ && fs@.len() == 0,
{
    match parse_action(action) {
        Some(a) => player.apply(a),
        None => Vec::new(),
    }
}

/// Sets the volume, clamped to the accepted range: on the player at once and
/// in every case, and in the settings when persisting the settings with that
/// volume succeeded. The outcome of persisting is handed back; a failure
/// leaves the settings as they were.
pub fn set_volume(
    store: &mut ConfigStore,
    player: &mut Player,
    volume: i64,
    persisted: Result<(), ConfigError>,
) -> (r: (Vec<PlayerEffect>, Result<(), ConfigError>))
    requires
        old(player)@.wf(),
    ensures
        final(player)@.wf(),
        final(player)@ == (PlayerView {
            volume: clamped_volume(volume as int) as u32,
            ..old(player)@
        }),
        old(player)@.episode is Some ==> r.0@ == seq![
            PlayerEffect::SetOutputVolume { level: clamped_volume(volume as int) as u32 },
        ],
        old(player)@.episode is None ==> r.0@.len() == 0,
        r.1 == persisted,
        persisted is Ok ==> final(store)@ == (ConfigView {
            volume: clamped_volume(volume as int) as u32,
            ..old(store)@
        }),
        persisted is Err ==> final(store)@ == old(store)@,
{
    let next = store.read().with_volume(volume);
    let saved = store.update(next, persisted);
    (player.set_volume(volume), saved)
}

/// Registers the media controls when there is a window to attach them to;
/// without one, nothing is done. Returns whether a registration was made.
pub fn set_up_media_controls(player: &mut Player, has_window: bool, handle: Option<u64>) -> (r:
    bool)
    requires
        old(player)@.wf(),
    ensures
        final(player)@.wf(),
        r == has_window,
        has_window ==> final(player)@ == (PlayerView { controls: Some(handle), ..old(player)@ }),
        !has_window ==> final(player)@ == old(player)@,
{
    if has_window {
        player.set_up_media_controls(handle);
    }
    has_window
}

/// How a detached piece of work ended.
#[derive(Debug)]
pub enum Ending {
    Done,
    Failed { message: String },
}

/// The ending that reports an outcome.
pub open spec fn ending_of(outcome: Result<(), String>) -> Ending {
    match outcome {
        Ok(()) => Ending::Done,
        Err(message) => Ending::Failed { message },
    }
}

fn ending(outcome: Result<(), String>) -> (r: Ending)
    ensures
        r == ending_of(outcome),
{
    match outcome {
        Ok(()) => Ending::Done,
        Err(message) => Ending::Failed { message },
    }
}

/// What ending a download reports.
pub struct DownloadEnd {
    /// The state to persist for the episode.
    pub state: DownloadState,
    /// The change to publish for the episode.
    pub change: EntityChange,
    /// The terminal notification, keyed by the episode id in `change`.
    pub ending: Ending,
}

/// Ends the download of an episode with the outcome of its transfer: the state
/// to persist, the change to publish for the episode, and its one terminal
/// notification. `None`, with nothing changed, when none was in flight, so a
/// download ends at most once.
pub fn download_finished(tracker: &mut Downloads, id: i32, outcome: Result<(), String>) -> (r:
    Option<DownloadEnd>)
    requires
        old(tracker).wf(),
    ensures
        final(tracker).wf(),
        final(tracker)@ == old(tracker)@.remove(id),
        !old(tracker)@.contains_key(id) ==> r is None,
        old(tracker)@.contains_key(id) ==> (r matches Some(end) && {
            &&& end.state == if outcome is Ok {
                DownloadState::Downloaded
            } else {
                rollback_state(old(tracker)@[id].before)
            }
            &&& end.change == EntityChange::Episode(id)
            &&& end.ending == ending_of(outcome)
        }),
{
    let succeeded = outcome.is_ok();
    match tracker.finish(id, succeeded) {
        Some(state) => Some(DownloadEnd { state, change: EntityChange::Episode(id), ending: ending(outcome) }),
        None => None,
    }
}

/// What the end of a sync of all podcasts reports: on success the changes to
/// publish (given the ids of the podcasts stored afterwards) and `Done`; on
/// failure no change and the failure.
pub fn sync_finished(outcome: Result<Vec<i32>, String>) -> (r: (Vec<EntityChange>, Ending))
    ensures
        outcome matches Ok(ids) ==> r.0@ == sync_changes(ids@) && r.1 == Ending::Done,
        outcome matches Err(message) ==> r.0@.len() == 0 && r.1 == (Ending::Failed { message }),
{
    match outcome {
        Ok(ids) => (changes_after_sync(&ids), Ending::Done),
        Err(message) => (Vec::new(), Ending::Failed { message }),
    }
}

/// Why an import request could not be given an identifier.
#[derive(Clone, Copy, Debug, PartialEq, Eq, Structural)]
pub enum ImportError {
    /// The identifier drawn for the request is still in use by a pending one.
    IdentifierInUse,
}

/// Accepts a request to import a podcast, whatever its address: returns at once
/// the identifier under which the one terminal notification of the detached
/// import will come. A bad address makes that import fail, not this call.
pub fn import_podcast(ledger: &mut RequestLedger) -> (r: Result<(u128, String), ImportError>)
    ensures
        r matches Ok((id, text)) ==> {
            &&& !old(ledger)@.contains(id)
            &&& final(ledger)@ == old(ledger)@.insert(id)
            &&& text@ == uuid_text(id)
        },
        r is Err ==> final(ledger)@ == old(ledger)@,
        old(ledger)@ == Set::<u128>::empty() ==> r is Ok,
{
    match open_request(ledger) {
        Some(opened) => Ok(opened),
        None => Err(ImportError::IdentifierInUse),
    }
}

/// Ends the import request `id` with the outcome of its work (the id of the
/// imported podcast, or a message): its terminal notification, and on success
/// the change to publish. Nothing for a request that is not pending.
pub fn import_finished(ledger: &mut RequestLedger, id: u128, outcome: Result<i32, String>) -> (r: (
    Option<Terminal>,
    Option<EntityChange>,
))
    ensures
        final(ledger)@ == old(ledger)@.remove(id),
        !old(ledger)@.contains(id) ==> r.0 is None && r.1 is None,
        old(ledger)@.contains(id) ==> match outcome {
            Ok(podcast) => r.0 == Some(Terminal::Done { request: id }) && r.1 == Some(
                EntityChange::Podcast(podcast),
            ),
            Err(message) => r.0 == Some(Terminal::Failed { request: id, message }) && r.1 is None,
        },
{
    let pending = ledger.is_pending(id);
    match outcome {
        Ok(podcast) => {
            let t = ledger.finish(id, Ok(()));
            (t, if pending { Some(EntityChange::Podcast(podcast)) } else { None })
        },
        Err(message) => (ledger.finish(id, Err(message)), None),
    }
}

} // verus!
