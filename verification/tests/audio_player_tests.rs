use rss_reader::audio_player::{AudioPlayer, PlayerError, is_supported_format};
use rss_reader::episodes::Episode;

fn episode_with_url(url: &str) -> Episode {
    Episode {
        title: "An Episode".to_string(),
        audio_url: Some(url.to_string()),
        ..Default::default()
    }
}

/// Loads a session with the given duration (milliseconds) known to the
/// decoder, exercising the whole load pipeline.
fn loaded_player(duration_ms: Option<u64>) -> AudioPlayer {
    let mut player = AudioPlayer::new();
    let url = player.play_request(&episode_with_url("https://example.com/a.mp3")).unwrap();
    assert_eq!(url, "https://example.com/a.mp3");
    player.accept_download("audio/mpeg", Some(vec![1u8, 2, 3])).unwrap();
    player.accept_decode(true, duration_ms).unwrap();
    player
}

fn assert_empty(player: &AudioPlayer) {
    assert!(!player.has_active_sink());
    assert!(!player.is_playing());
    assert!(player.cached_audio().is_none());
    assert_eq!(player.current_position(), 0);
    assert!(player.duration().is_none());
}

#[test]
fn test_new_player_is_empty() {
    let player = AudioPlayer::new();
    assert_empty(&player);
    assert_eq!(player.volume_centi(), 100);
}

#[test]
fn test_play_without_audio_url_fails_and_stays_empty() {
    let mut player = AudioPlayer::new();
    let episode = Episode { title: "No audio".to_string(), ..Default::default() };
    let result = player.play_request(&episode);
    assert_eq!(result, Err(PlayerError::MissingAudioUrl));
    assert_empty(&player);
}

#[test]
fn test_load_pipeline_starts_playback() {
    let player = loaded_player(Some(300_000));
    assert!(player.has_active_sink());
    assert!(player.is_playing());
    assert!(!player.is_paused());
    assert_eq!(player.current_position(), 0);
    assert_eq!(player.duration(), Some(300_000));
    assert_eq!(player.cached_audio().as_ref().unwrap(), &vec![1u8, 2, 3]);
}

#[test]
fn test_fetch_failure() {
    let mut player = AudioPlayer::new();
    player.play_request(&episode_with_url("https://example.com/a.mp3")).unwrap();
    let result = player.accept_download("audio/mpeg", None);
    assert_eq!(result, Err(PlayerError::FetchFailed));
    assert_empty(&player);
}

#[test]
fn test_unsupported_format() {
    let mut player = AudioPlayer::new();
    player.play_request(&episode_with_url("https://example.com/a.bin")).unwrap();
    let result = player.accept_download("text/html", Some(vec![1u8]));
    assert_eq!(result, Err(PlayerError::UnsupportedFormat));
    assert_empty(&player);
}

#[test]
fn test_decode_failure_clears_session() {
    let mut player = AudioPlayer::new();
    player.play_request(&episode_with_url("https://example.com/a.mp3")).unwrap();
    player.accept_download("audio/mpeg", Some(vec![1u8])).unwrap();
    let result = player.accept_decode(false, None);
    assert_eq!(result, Err(PlayerError::DecodeFailed));
    assert_empty(&player);
}

#[test]
fn test_skip_forward_from_zero() {
    let mut player = loaded_player(Some(300_000));
    let target = player.skip_target(10).unwrap();
    assert_eq!(target, 10_000);
    player.complete_seek(target, true).unwrap();
    assert_eq!(player.current_position(), 10_000);
}

#[test]
fn test_skip_backward_clamps_at_zero() {
    let mut player = loaded_player(Some(300_000));
    player.complete_seek(5_000, true).unwrap();
    let target = player.skip_target(-10).unwrap();
    assert_eq!(target, 0);
}

#[test]
fn test_skip_forward_clamps_at_duration() {
    let mut player = loaded_player(Some(300_000));
    player.complete_seek(295_000, true).unwrap();
    let target = player.skip_target(10).unwrap();
    assert_eq!(target, 300_000);
}

#[test]
fn test_skip_with_unknown_duration_is_unbounded_above() {
    let player = loaded_player(None);
    assert_eq!(player.skip_target(10).unwrap(), 10_000);
    // Only the lower bound applies: a huge forward skip saturates at the
    // largest representable position instead of clamping to a duration.
    assert_eq!(player.skip_target(i64::MAX).unwrap(), u64::MAX);
}

#[test]
fn test_skip_with_nothing_loaded_is_noop() {
    let player = AudioPlayer::new();
    assert!(player.skip_target(10).is_none());
}

#[test]
fn test_failed_seek_keeps_position() {
    let mut player = loaded_player(Some(300_000));
    player.complete_seek(20_000, true).unwrap();
    let result = player.complete_seek(30_000, false);
    assert_eq!(result, Err(PlayerError::SeekUnsupported));
    assert_eq!(player.current_position(), 20_000);
}

#[test]
fn test_seek_with_nothing_loaded() {
    let mut player = AudioPlayer::new();
    let result = player.complete_seek(1_000, true);
    assert_eq!(result, Err(PlayerError::NoActiveSession));
    assert_empty(&player);
}

#[test]
fn test_pause_toggles_and_resume_plays() {
    let mut player = loaded_player(Some(10_000));
    assert!(!player.is_paused());
    player.pause().unwrap();
    assert!(player.is_paused());
    player.pause().unwrap();
    assert!(!player.is_paused());
    player.pause().unwrap();
    player.resume().unwrap();
    assert!(!player.is_paused());
}

#[test]
fn test_pause_with_nothing_loaded_is_noop() {
    let mut player = AudioPlayer::new();
    player.pause().unwrap();
    player.resume().unwrap();
    assert_empty(&player);
}

#[test]
fn test_stop_is_idempotent() {
    let mut once = loaded_player(Some(300_000));
    once.adjust_volume(-25).unwrap();
    once.stop().unwrap();

    let mut twice = loaded_player(Some(300_000));
    twice.adjust_volume(-25).unwrap();
    twice.stop().unwrap();
    twice.stop().unwrap();

    // Both end in the same terminal state: empty, with the volume kept.
    assert_empty(&once);
    assert_empty(&twice);
    assert_eq!(once.volume_centi(), twice.volume_centi());
    assert!(!once.is_paused());
    assert!(!twice.is_paused());
}

#[test]
fn test_volume_converges_to_zero_never_below() {
    let mut player = loaded_player(Some(10_000));
    assert_eq!(player.volume_centi(), 100);
    let mut readings: Vec<u32> = Vec::new();
    for _ in 0..6 {
        player.adjust_volume(-30).unwrap();
        readings.push(player.volume_centi());
    }
    assert_eq!(readings, vec![70, 40, 10, 0, 0, 0]);
}

#[test]
fn test_volume_up_and_down() {
    let mut player = loaded_player(Some(10_000));
    player.adjust_volume(10).unwrap();
    assert_eq!(player.volume_centi(), 110);
    player.adjust_volume(-10).unwrap();
    assert_eq!(player.volume_centi(), 100);
}

#[test]
fn test_volume_with_nothing_loaded_is_noop() {
    let mut player = AudioPlayer::new();
    player.adjust_volume(-10).unwrap();
    assert_eq!(player.volume_centi(), 100);
}

#[test]
fn test_new_play_discards_previous_session() {
    let mut player = loaded_player(Some(300_000));
    player.complete_seek(100_000, true).unwrap();
    let url = player.play_request(&episode_with_url("https://example.com/b.mp3")).unwrap();
    assert_eq!(url, "https://example.com/b.mp3");
    assert_empty(&player);
}

#[test]
fn test_supported_formats() {
    assert!(is_supported_format("audio/mpeg"));
    assert!(is_supported_format("Audio/MPEG"));
    assert!(is_supported_format("audio/x-flac"));
    assert!(is_supported_format("AUDIO/WAV"));
    assert!(!is_supported_format("text/html"));
    assert!(!is_supported_format("video/mp4"));
    assert!(!is_supported_format(""));
    assert!(!is_supported_format("audio/"));
}
