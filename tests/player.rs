use podcore::commands::{parse_action, play_episode, player_action, set_up_media_controls};
use podcore::player::{Episode, Player, PlayerEffect, Transport, TransportAction, SKIP_SECONDS};

fn ep(id: i32, duration: u64) -> Episode {
    Episode { id, duration }
}

#[test]
fn play_pause_seek_play_ends_playing_at_seek_position() {
    let mut p = Player::new(1000);
    p.play_episode(ep(42, 3600), 0);
    p.pause();
    p.seek_to(120);
    p.play();
    assert_eq!(p.transport(), Transport::Playing);
    assert_eq!(p.position(), 120);
    assert_eq!(p.episode(), Some(ep(42, 3600)));
}

#[test]
fn switching_episodes_tears_down_before_building() {
    let mut p = Player::new(700);
    let first = p.play_episode(ep(1, 100), 10);
    assert_eq!(
        first,
        vec![
            PlayerEffect::BuildChain { episode: 1, offset: 10 },
            PlayerEffect::SetOutputVolume { level: 700 },
        ]
    );
    let second = p.play_episode(ep(2, 50), 80);
    assert_eq!(
        second,
        vec![
            PlayerEffect::SaveProgress { episode: 1, seconds: 10, completed: false },
            PlayerEffect::TearDown { episode: 1 },
            PlayerEffect::BuildChain { episode: 2, offset: 50 },
            PlayerEffect::SetOutputVolume { level: 700 },
        ]
    );
    assert_eq!(p.position(), 50);
}

#[test]
fn live_chains_never_exceed_one_over_many_switches() {
    let mut p = Player::new(500);
    let mut live: i64 = 0;
    for i in 0..20 {
        let fs = if i % 5 == 4 { p.stop() } else { p.play_episode(ep(i, 60), 5) };
        for f in fs {
            match f {
                PlayerEffect::BuildChain { .. } => live += 1,
                PlayerEffect::TearDown { .. } => live -= 1,
                _ => {}
            }
            assert!(live >= 0 && live <= 1);
        }
    }
}

#[test]
fn seek_clamps_exactly_at_bounds() {
    let mut p = Player::new(500);
    p.play_episode(ep(3, 300), 0);
    p.seek_to(-5);
    assert_eq!(p.position(), 0);
    p.seek_to(300);
    assert_eq!(p.position(), 300);
    p.seek_to(301);
    assert_eq!(p.position(), 300);
    p.seek_to(i64::MAX);
    assert_eq!(p.position(), 300);
    p.seek_to(150);
    assert_eq!(p.position(), 150);
}

#[test]
fn skips_clamp_to_episode() {
    let mut p = Player::new(500);
    p.play_episode(ep(3, 100), 80);
    let fs = p.skip_forwards();
    assert_eq!(p.position(), 100);
    assert_eq!(fs, vec![PlayerEffect::SeekOutput { seconds: 100 }]);
    p.skip_backwards();
    assert_eq!(p.position(), 100 - SKIP_SECONDS);
    p.seek_to(10);
    p.skip_backwards();
    assert_eq!(p.position(), 0);
    p.skip_forwards();
    assert_eq!(p.position(), SKIP_SECONDS);
}

#[test]
fn seek_when_stopped_does_nothing() {
    let mut p = Player::new(500);
    assert!(p.seek_to(10).is_empty());
    assert!(p.skip_forwards().is_empty());
    assert_eq!(p.position(), 0);
    assert_eq!(p.transport(), Transport::Stopped);
}

#[test]
fn play_and_pause_are_no_ops_in_other_states() {
    let mut p = Player::new(500);
    assert!(p.play().is_empty());
    assert!(p.pause().is_empty());
    p.play_episode(ep(9, 60), 0);
    assert!(p.play().is_empty());
    assert_eq!(
        p.pause(),
        vec![
            PlayerEffect::PauseOutput,
            PlayerEffect::SaveProgress { episode: 9, seconds: 0, completed: false },
        ]
    );
    assert!(p.pause().is_empty());
    assert_eq!(p.transport(), Transport::Paused);
    assert_eq!(p.play(), vec![PlayerEffect::ResumeOutput]);
}

#[test]
fn stop_saves_completed_progress() {
    let mut p = Player::new(500);
    p.play_episode(ep(5, 60), 60);
    assert_eq!(
        p.stop(),
        vec![
            PlayerEffect::SaveProgress { episode: 5, seconds: 60, completed: true },
            PlayerEffect::TearDown { episode: 5 },
        ]
    );
    assert_eq!(p.transport(), Transport::Stopped);
    assert_eq!(p.episode(), None);
    assert!(p.stop().is_empty());
}

#[test]
fn volume_clamps_and_never_rejects() {
    let mut p = Player::new(2000);
    assert_eq!(p.volume(), 1000);
    assert!(p.set_volume(-3).is_empty());
    assert_eq!(p.volume(), 0);
    p.set_volume(1001);
    assert_eq!(p.volume(), 1000);
    p.set_volume(250);
    assert_eq!(p.volume(), 250);
    p.play_episode(ep(1, 10), 0);
    assert_eq!(p.set_volume(4000), vec![PlayerEffect::SetOutputVolume { level: 1000 }]);
    assert_eq!(p.transport(), Transport::Playing);
}

#[test]
fn media_controls_are_replaced_not_duplicated() {
    let mut p = Player::new(500);
    assert!(!set_up_media_controls(&mut p, false, Some(1)));
    assert_eq!(p.media_controls(), None);
    assert!(set_up_media_controls(&mut p, true, Some(1)));
    assert!(set_up_media_controls(&mut p, true, None));
    assert_eq!(p.media_controls(), Some(None));
}

#[test]
fn actions_by_name() {
    assert_eq!(parse_action("play"), Some(TransportAction::Play));
    assert_eq!(parse_action("pause"), Some(TransportAction::Pause));
    assert_eq!(parse_action("skip_forwards"), Some(TransportAction::SkipForwards));
    assert_eq!(parse_action("skip_backwards"), Some(TransportAction::SkipBackwards));
    assert_eq!(parse_action("rewind"), None);
    let mut p = Player::new(500);
    p.play_episode(ep(2, 100), 0);
    player_action(&mut p, "skip_forwards");
    assert_eq!(p.position(), 30);
    assert!(player_action(&mut p, "bogus").is_empty());
    player_action(&mut p, "pause");
    assert_eq!(p.transport(), Transport::Paused);
}

#[test]
fn resume_from_stored_progress() {
    let mut p = Player::new(500);
    play_episode(&mut p, ep(4, 500), 200, false);
    assert_eq!(p.position(), 200);
    play_episode(&mut p, ep(4, 500), 200, true);
    assert_eq!(p.position(), 0);
    play_episode(&mut p, ep(4, 500), -7, false);
    assert_eq!(p.position(), 0);
    play_episode(&mut p, ep(4, 500), 900, false);
    assert_eq!(p.position(), 500);
}

#[test]
fn position_reports_checkpoint_and_complete() {
    let mut p = Player::new(500);
    assert!(p.report_position(5).is_empty());
    p.play_episode(ep(8, 90), 0);
    assert_eq!(
        p.report_position(45),
        vec![PlayerEffect::SaveProgress { episode: 8, seconds: 45, completed: false }]
    );
    assert_eq!(p.position(), 45);
    p.pause();
    assert!(p.report_position(50).is_empty());
    assert_eq!(p.position(), 45);
    p.play();
    assert_eq!(
        p.report_position(95),
        vec![
            PlayerEffect::SaveProgress { episode: 8, seconds: 90, completed: true },
            PlayerEffect::TearDown { episode: 8 },
        ]
    );
    assert_eq!(p.transport(), Transport::Stopped);
    assert_eq!(p.episode(), None);
}
