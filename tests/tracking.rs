use podcore::bus::{changes_after_sync, BusError, ChangeBus, Delivery, EntityChange};
use podcore::commands::{download_finished, import_finished, import_podcast, set_volume, sync_finished, Ending};
use podcore::config::{Config, ConfigError, ConfigStore};
use podcore::downloads::{DownloadError, DownloadState, Downloads, Progress};
use podcore::player::Player;
use podcore::requests::{open_request, open_request_with, RequestLedger, Terminal};

#[test]
fn progress_read_right_after_start_is_bounded_and_non_decreasing() {
    let mut d = Downloads::new();
    assert_eq!(d.begin(7, DownloadState::NotDownloaded), Ok(DownloadState::Downloading));
    let first = d.get_progress(7).unwrap();
    assert_eq!(first, Progress { received: 0, total: None });
    let mut last = first;
    for (got, total) in [(100u64, Some(1000u64)), (50, Some(1000)), (600, None), (5000, Some(10))] {
        let p = d.record_progress(7, got, total).unwrap();
        assert!(p.received >= last.received);
        if let Some(t) = p.total {
            assert!(p.received <= t);
        }
        assert_eq!(d.get_progress(7), Some(p));
        last = p;
    }
    assert_eq!(last, Progress { received: 1000, total: Some(1000) });
    assert_eq!(d.finish(7, true), Some(DownloadState::Downloaded));
    assert_eq!(d.get_progress(7), None);
}

#[test]
fn total_below_received_is_raised() {
    let mut d = Downloads::new();
    d.begin(1, DownloadState::NotDownloaded).unwrap();
    d.record_progress(1, 500, None).unwrap();
    assert_eq!(d.record_progress(1, 10, Some(100)), Ok(Progress { received: 500, total: Some(500) }));
}

#[test]
fn second_start_of_same_episode_is_rejected() {
    let mut d = Downloads::new();
    assert!(d.begin(7, DownloadState::NotDownloaded).is_ok());
    assert_eq!(d.begin(7, DownloadState::NotDownloaded), Err(DownloadError::AlreadyInProgress));
    assert!(d.begin(8, DownloadState::NotDownloaded).is_ok());
    assert_eq!(d.finish(7, true), Some(DownloadState::Downloaded));
    assert_eq!(d.finish(7, true), None);
}

#[test]
fn failed_download_restores_previous_state() {
    let mut d = Downloads::new();
    d.begin(3, DownloadState::NotDownloaded).unwrap();
    d.record_progress(3, 10, Some(20)).unwrap();
    let end = download_finished(&mut d, 3, Err("disk full".to_string())).unwrap();
    assert_eq!(end.state, DownloadState::NotDownloaded);
    assert_eq!(end.change, EntityChange::Episode(3));
    assert!(matches!(end.ending, Ending::Failed { ref message } if message == "disk full"));
    assert_eq!(d.get_progress(3), None);
    d.begin(4, DownloadState::Downloading).unwrap();
    assert_eq!(d.finish(4, false), Some(DownloadState::NotDownloaded));
    d.begin(5, DownloadState::Downloaded).unwrap();
    assert_eq!(d.finish(5, false), Some(DownloadState::Downloaded));
    assert!(download_finished(&mut d, 5, Ok(())).is_none());
}

#[test]
fn progress_for_unknown_download_is_refused() {
    let mut d = Downloads::new();
    assert_eq!(d.record_progress(9, 1, None), Err(DownloadError::NotInProgress));
    assert_eq!(d.get_progress(9), None);
}

fn config() -> Config {
    Config {
        user_access_key: "key".to_string(),
        device_name: "laptop".to_string(),
        access_token: "token".to_string(),
        volume: 400,
    }
}

#[test]
fn config_update_applies_only_when_persisted() {
    let mut store = ConfigStore::new(config());
    let next = store.read().with_access_key("other".to_string());
    assert_eq!(store.update(next, Err(ConfigError::PersistFailed)), Err(ConfigError::PersistFailed));
    assert_eq!(store.read().user_access_key, "key");
    let next = store.read().with_device("desk".to_string(), "t2".to_string());
    assert_eq!(store.update(next, Ok(())), Ok(()));
    let now = store.read();
    assert_eq!(now.device_name, "desk");
    assert_eq!(now.access_token, "t2");
    assert_eq!(now.user_access_key, "key");
    assert_eq!(now.volume, 400);
}

#[test]
fn initial_config_is_empty_at_full_volume() {
    let c = Config::initial();
    assert_eq!(c.user_access_key, "");
    assert_eq!(c.volume, 1000);
}

#[test]
fn device_request_carries_access_key() {
    let r = config().device_request("phone".to_string());
    assert_eq!(r.user_access_key, "key");
    assert_eq!(r.device_name, "phone");
}

#[test]
fn set_volume_updates_settings_and_player_together() {
    let mut store = ConfigStore::new(config());
    let mut p = Player::new(400);
    let (effects, saved) = set_volume(&mut store, &mut p, 1500, Err(ConfigError::PersistFailed));
    assert_eq!(saved, Err(ConfigError::PersistFailed));
    assert!(effects.is_empty());
    assert_eq!(store.read().volume, 400);
    assert_eq!(p.volume(), 1000);
    let (_, saved) = set_volume(&mut store, &mut p, -20, Ok(()));
    assert_eq!(saved, Ok(()));
    assert_eq!(store.read().volume, 0);
    assert_eq!(p.volume(), 0);
}

#[test]
fn publish_reaches_current_observers_only() {
    let mut bus = ChangeBus::new();
    assert_eq!(bus.publish(EntityChange::AllPodcasts), Err(BusError::NoObserver));
    assert!(bus.subscribe(1));
    assert!(!bus.subscribe(1));
    assert!(bus.subscribe(2));
    assert_eq!(
        bus.publish(EntityChange::Podcast(5)),
        Ok(vec![
            Delivery { observer: 1, event: EntityChange::Podcast(5) },
            Delivery { observer: 2, event: EntityChange::Podcast(5) },
        ])
    );
    assert!(bus.unsubscribe(1));
    assert!(!bus.unsubscribe(1));
    assert!(bus.subscribe(3));
    assert_eq!(bus.observers(), vec![2, 3]);
    assert_eq!(bus.publish(EntityChange::Episode(1)).unwrap().len(), 2);
}

#[test]
fn sync_announces_all_then_each_podcast() {
    assert_eq!(changes_after_sync(&vec![]), vec![EntityChange::AllPodcasts]);
    assert_eq!(
        changes_after_sync(&vec![4, 9]),
        vec![
            EntityChange::AllPodcasts,
            EntityChange::Podcast(4),
            EntityChange::PodcastEpisodes(4),
            EntityChange::Podcast(9),
            EntityChange::PodcastEpisodes(9),
        ]
    );
}

fn is_hyphenated(s: &str) -> bool {
    s.len() == 36
        && s.char_indices().all(|(i, c)| {
            if i == 8 || i == 13 || i == 18 || i == 23 { c == '-' } else { c.is_ascii_hexdigit() }
        })
}

#[test]
fn import_returns_identifier_and_ends_exactly_once() {
    let mut ledger = RequestLedger::new();
    let (id, text) = import_podcast(&mut ledger).unwrap();
    assert!(is_hyphenated(&text));
    assert_ne!(text, id.to_string());
    assert!(ledger.is_pending(id));
    let (t, change) = import_finished(&mut ledger, id, Ok(12));
    assert!(matches!(t, Some(Terminal::Done { request }) if request == id));
    assert_eq!(change, Some(EntityChange::Podcast(12)));
    let (t, change) = import_finished(&mut ledger, id, Err("late".to_string()));
    assert!(t.is_none());
    assert_eq!(change, None);
    assert!(!ledger.is_pending(id));
}

#[test]
fn import_failure_gives_error_notification() {
    let mut ledger = RequestLedger::new();
    let (id, _) = import_podcast(&mut ledger).unwrap();
    let (t, change) = import_finished(&mut ledger, id, Err("network down".to_string()));
    match t {
        Some(Terminal::Failed { request, message }) => {
            assert_eq!(request, id);
            assert_eq!(message, "network down");
        }
        _ => panic!("expected a failure notification"),
    }
    assert_eq!(change, None);
}

#[test]
fn request_identifiers_are_registered_once() {
    let mut ledger = RequestLedger::new();
    assert!(ledger.register(5));
    assert!(!ledger.register(5));
    let (a, ta) = open_request(&mut ledger).unwrap();
    let (b, tb) = open_request(&mut ledger).unwrap();
    assert_ne!(a, b);
    assert_ne!(ta, tb);
    assert!(matches!(ledger.finish(5, Ok(())), Some(Terminal::Done { request: 5 })));
    assert!(ledger.finish(5, Ok(())).is_none());
}

#[test]
fn successful_download_ends_done_once() {
    let mut d = Downloads::new();
    d.begin(11, DownloadState::NotDownloaded).unwrap();
    let end = download_finished(&mut d, 11, Ok(())).unwrap();
    assert_eq!(end.state, DownloadState::Downloaded);
    assert_eq!(end.change, EntityChange::Episode(11));
    assert!(matches!(end.ending, Ending::Done));
    assert!(download_finished(&mut d, 11, Ok(())).is_none());
}

#[test]
fn sync_end_reports_changes_or_failure() {
    let (changes, ending) = sync_finished(Ok(vec![2]));
    assert_eq!(
        changes,
        vec![EntityChange::AllPodcasts, EntityChange::Podcast(2), EntityChange::PodcastEpisodes(2)]
    );
    assert!(matches!(ending, Ending::Done));
    let (changes, ending) = sync_finished(Err("offline".to_string()));
    assert!(changes.is_empty());
    assert!(matches!(ending, Ending::Failed { ref message } if message == "offline"));
}

#[test]
fn imports_in_flight_together_each_get_an_identifier() {
    let mut ledger = RequestLedger::new();
    assert!(import_podcast(&mut ledger).is_ok());
    assert!(import_podcast(&mut ledger).is_ok());
}

#[test]
fn request_text_is_hyphenated_hex_of_identifier() {
    let mut ledger = RequestLedger::new();
    let (id, text) = open_request(&mut ledger).unwrap();
    let hex = format!("{:032x}", id);
    let expected = format!("{}-{}-{}-{}-{}", &hex[0..8], &hex[8..12], &hex[12..16], &hex[16..20], &hex[20..32]);
    assert_eq!(text, expected);
}

#[test]
fn opening_a_pending_identifier_is_refused() {
    let mut ledger = RequestLedger::new();
    let (id, text) = open_request_with(&mut ledger, 0xa1a2a3a4b1b2c1c2d1d2d3d4d5d6d7d8).unwrap();
    assert_eq!(id, 0xa1a2a3a4b1b2c1c2d1d2d3d4d5d6d7d8);
    assert_eq!(text, "a1a2a3a4-b1b2-c1c2-d1d2-d3d4d5d6d7d8");
    assert!(open_request_with(&mut ledger, id).is_none());
    assert!(open_request_with(&mut ledger, 1).is_some());
}
