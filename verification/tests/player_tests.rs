use scope_radio::player::{
    flat_line, plan_playback, AudioPlayer, LoadPlan, PlaybackPlan, SinkCommand,
};

#[test]
fn a_new_player_is_silent() {
    let player = AudioPlayer::new(true, None);
    assert!(player.has_sink);
    assert_eq!(player.audio_data, vec![vec![0; 1024]; 2]);
    assert_eq!(player.sample_rate, 44100);
    assert_eq!(player.channels, 2);
    assert!(!player.is_streaming_mode && !player.is_paused);
    assert_eq!(player.start_time, None);
    assert_eq!(player.elapsed_when_paused, 0);
    assert_eq!(player.total_duration, None);
    assert_eq!(player.error_message, None);
    assert_eq!(player.volume, 1000);
    let broken = AudioPlayer::new(false, Some(String::from("Audio init error: none")));
    assert!(!broken.has_sink);
    assert_eq!(broken.error_message.as_deref(), Some("Audio init error: none"));
}

#[test]
fn large_files_are_streamed() {
    assert_eq!(plan_playback(0), PlaybackPlan::FullLoad);
    assert_eq!(plan_playback(20 * 1024 * 1024), PlaybackPlan::FullLoad);
    assert_eq!(
        plan_playback(20 * 1024 * 1024 + 1),
        PlaybackPlan::Streaming { approx_seconds: 1310 }
    );
    assert_eq!(
        plan_playback(32_000_000),
        PlaybackPlan::Streaming { approx_seconds: 2000 }
    );
    assert_eq!(
        plan_playback(u64::MAX),
        PlaybackPlan::Streaming { approx_seconds: u64::MAX / 16000 }
    );
}

#[test]
fn loaded_samples_are_dealt_to_the_channels() {
    let mut player = AudioPlayer::new(true, None);
    player.load_samples(44100, 2, &[1, 2, 3, 4, 5, 6], true, 500);
    assert_eq!(player.audio_data, vec![vec![1, 3, 5], vec![2, 4, 6]]);
    assert_eq!(player.sample_rate, 44100);
    assert_eq!(player.channels, 2);
    assert!(!player.is_streaming_mode);
    assert_eq!(player.total_duration, Some(68));
    assert_eq!(player.start_time, Some(500));
    assert_eq!(player.elapsed_when_paused, 0);
    assert!(!player.is_paused);
    player.load_samples(48000, 1, &vec![7; 96000], false, 900);
    assert_eq!(player.total_duration, Some(2_000_000));
    assert_eq!(player.start_time, Some(500));
    assert_eq!(player.audio_data.len(), 1);
    assert_eq!(player.audio_data[0].len(), 96000);
}

#[test]
fn streaming_leaves_nothing_for_the_scope() {
    let mut player = AudioPlayer::new(true, None);
    player.start_streaming(22050, 3, 1310, true, 42);
    assert!(player.is_streaming_mode);
    assert_eq!(player.audio_data, vec![Vec::<i32>::new(); 3]);
    assert_eq!(player.channels, 3);
    assert_eq!(player.sample_rate, 22050);
    assert_eq!(player.total_duration, Some(1_310_000_000));
    assert_eq!(player.start_time, Some(42));
    assert_eq!(player.get_window(4, 100), vec![vec![0; 4]; 3]);
    player.start_streaming(22050, 3, u64::MAX, false, 50);
    assert_eq!(player.total_duration, Some(u64::MAX));
    assert_eq!(player.start_time, Some(42));
}

#[test]
fn the_window_begins_under_the_playhead() {
    let mut player = AudioPlayer::new(true, None);
    player.load_samples(44100, 2, &[1, 2, 3, 4, 5, 6], true, 1000);
    assert_eq!(player.get_window(4, 1000), vec![vec![1, 3, 5, 0], vec![2, 4, 6, 0]]);
    assert_eq!(player.get_window(4, 1022), vec![vec![1, 3, 5, 0], vec![2, 4, 6, 0]]);
    assert_eq!(player.get_window(4, 1023), vec![vec![3, 5, 0, 0], vec![4, 6, 0, 0]]);
    assert_eq!(player.get_window(2, 1046), vec![vec![5, 0], vec![6, 0]]);
    assert_eq!(player.get_window(2, 1_000_000), vec![vec![0, 0], vec![0, 0]]);
    assert_eq!(player.get_window(2, u64::MAX), vec![vec![0, 0], vec![0, 0]]);
    assert_eq!(player.get_window(0, 1000), vec![Vec::<i32>::new(); 2]);
    assert_eq!(player.get_window(1, 0), vec![vec![1], vec![2]]);
}

#[test]
fn the_window_is_flat_while_paused_or_empty() {
    let mut player = AudioPlayer::new(true, None);
    player.load_samples(44100, 2, &[1, 2, 3, 4], true, 0);
    assert_eq!(player.toggle_pause(10), Some(SinkCommand::Pause));
    assert_eq!(player.get_window(3, 10), vec![vec![0; 3]; 2]);
    assert_eq!(player.toggle_pause(20), Some(SinkCommand::Play));
    assert_eq!(player.get_window(3, 20), vec![vec![1, 3, 0], vec![2, 4, 0]]);
    player.load_samples(44100, 2, &[], true, 0);
    assert_eq!(player.get_window(3, 0), vec![vec![0; 3]; 2]);
    assert_eq!(flat_line(2, 3), vec![vec![0; 3]; 2]);
    assert_eq!(flat_line(0, 3), Vec::<Vec<i32>>::new());
}

#[test]
fn the_clock_stands_still_while_paused() {
    let mut player = AudioPlayer::new(true, None);
    assert_eq!(player.get_current_time(999), 0);
    player.load_samples(44100, 1, &[0; 8], true, 100);
    assert_eq!(player.get_current_time(100), 0);
    assert_eq!(player.get_current_time(350), 250);
    assert_eq!(player.get_current_time(50), 0);
    assert_eq!(player.toggle_pause(400), Some(SinkCommand::Pause));
    assert!(player.is_paused);
    assert_eq!(player.start_time, None);
    assert_eq!(player.elapsed_when_paused, 300);
    assert_eq!(player.get_current_time(400), 300);
    assert_eq!(player.get_current_time(100_000), 300);
    assert_eq!(player.toggle_pause(1000), Some(SinkCommand::Play));
    assert!(!player.is_paused);
    assert_eq!(player.start_time, Some(1000));
    assert_eq!(player.get_current_time(1000), 300);
    assert_eq!(player.get_current_time(1200), 500);
    assert_eq!(player.get_current_time(u64::MAX), u64::MAX - 700);
    player.elapsed_when_paused = 5000;
    assert_eq!(player.get_current_time(u64::MAX), u64::MAX);
}

#[test]
fn without_a_device_nothing_toggles() {
    let mut player = AudioPlayer::new(false, None);
    assert_eq!(player.toggle_pause(5), None);
    assert!(!player.is_paused);
    assert_eq!(player.start_time, None);
    assert_eq!(player.set_volume(500), None);
    assert_eq!(player.volume_up(), None);
    assert_eq!(player.volume_down(), None);
    assert_eq!(player.volume, 1000);
}

#[test]
fn the_volume_is_held_between_zero_and_ten() {
    let mut player = AudioPlayer::new(true, None);
    assert_eq!(player.volume_up(), Some(1100));
    assert_eq!(player.volume_down(), Some(1000));
    assert_eq!(player.set_volume(50), Some(50));
    assert_eq!(player.volume_down(), Some(0));
    assert_eq!(player.volume_down(), Some(0));
    assert_eq!(player.set_volume(9950), Some(9950));
    assert_eq!(player.volume_up(), Some(10_000));
    assert_eq!(player.volume_up(), Some(10_000));
    assert_eq!(player.set_volume(i64::MAX), Some(10_000));
    assert_eq!(player.set_volume(i64::MIN), Some(0));
    assert_eq!(player.volume, 0);
}

#[test]
fn errors_are_recorded_with_their_cause() {
    let mut player = AudioPlayer::new(true, None);
    player.file_not_found("stream_cache.mp3");
    assert_eq!(player.error_message.as_deref(), Some("File not found: stream_cache.mp3"));
    player.format_error("Unrecognized format");
    assert_eq!(player.error_message.as_deref(), Some("Format error: Unrecognized format"));
    assert_eq!(player.volume, 1000);
}

#[test]
fn loading_begins_by_telling_addresses_from_paths() {
    let mut player = AudioPlayer::new(true, Some(String::from("old")));
    assert_eq!(player.load_source("http://radio/stream.mp3"), LoadPlan::Download);
    assert_eq!(player.error_message, None);
    assert_eq!(player.load_source("https://radio/stream.mp3"), LoadPlan::Download);
    assert_eq!(player.load_source("httpfile.mp3"), LoadPlan::Download);
    assert_eq!(player.load_source("audio.mp3"), LoadPlan::PlayLocal);
    assert_eq!(player.load_source("htt"), LoadPlan::PlayLocal);
    assert_eq!(player.load_source(""), LoadPlan::PlayLocal);
    let mut mute = AudioPlayer::new(false, Some(String::from("Audio init error: none")));
    assert_eq!(mute.load_source("http://radio"), LoadPlan::Nothing);
    assert_eq!(mute.error_message.as_deref(), Some("Audio init error: none"));
}
