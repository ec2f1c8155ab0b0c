//! Tests for the playback scheduler: the streaming loop, the transport
//! controls, and the progress arithmetic.

use silicon::hal::audio::AudioStreamer;
use silicon::player::progress::{elapsed_seconds, format_track_time, progress_bar, progress_eighths};
use silicon::player::session::{
    ControlInputs, ExitReason, LedIndication, PlaybackSession, SEEK_DELTA_BYTES,
};
use silicon::player::stream::{StorageError, StorageStream};
use silicon::player::volume::apply_volume;

fn fresh_mono() -> AudioStreamer<silicon::hal::audio::Mono, silicon::hal::audio::Initialized> {
    let p = silicon::hal::init();
    AudioStreamer::new_mono(p.dac).initialize()
}

fn press(which: &str) -> ControlInputs {
    let mut c = ControlInputs::none();
    match which {
        "pause" => c.pause = true,
        "back" => c.back = true,
        "forward" => c.forward = true,
        "backward" => c.backward = true,
        "vol_up" => c.vol_up = true,
        "vol_down" => c.vol_down = true,
        _ => panic!("unknown button"),
    }
    c
}

#[test]
fn ten_second_track_streams_end_to_end() {
    // A 10-second synthetic mono track at 48 000 samples per second,
    // volume 8, no seeks, no pauses.
    let data: Vec<u8> = (0..480_000).map(|i| (i % 251) as u8).collect();
    let stream = StorageStream::open_track(data.clone());
    let mut session = PlaybackSession::new(stream);
    let mut streamer = fresh_mono();
    let script: Vec<ControlInputs> = Vec::new();
    let reason = session.run_playback(&mut streamer, &script, 512, 2000);
    assert!(matches!(reason, Some(ExitReason::EndOfStream)));
    // Every byte was read and every sample reached the hardware, in
    // order; volume 8 is the identity transform.
    assert_eq!(session.stream().current_offset(), 480_000);
    assert_eq!(streamer.hw_queue().mono_samples(), &data);
    assert_eq!(session.bytes_per_second(), 48_000);
    assert_eq!(elapsed_seconds(session.stream().length(), session.bytes_per_second()), 10);
}

#[test]
fn first_tick_reports_the_track_duration() {
    let data = vec![1u8; 480_000];
    let mut session = PlaybackSession::new(StorageStream::open_track(data));
    let mut streamer = fresh_mono();
    let t = session.playback_tick(&mut streamer, ControlInputs::none(), 512);
    assert!(t.exit.is_none());
    let p = t.progress.expect("the first tick owes a progress snapshot");
    assert_eq!(p.total, 10);
    assert!(p.playing);
}

#[test]
fn pause_starves_the_hardware_without_data_loss() {
    let data: Vec<u8> = (0..4096).map(|i| (i % 256) as u8).collect();
    let mut session = PlaybackSession::new(StorageStream::open_track(data.clone()));
    let mut streamer = fresh_mono();
    // One block plays.
    let t = session.playback_tick(&mut streamer, ControlInputs::none(), 512);
    assert!(t.exit.is_none());
    assert_eq!(session.stream().current_offset(), 512);
    assert_eq!(streamer.hw_queue().mono_samples().len(), 512);
    // Pause: from here on no byte is consumed and no sample is written.
    let t = session.playback_tick(&mut streamer, press("pause"), 512);
    assert!(t.exit.is_none());
    assert!(session.paused());
    for _ in 0..5 {
        let t = session.playback_tick(&mut streamer, ControlInputs::none(), 512);
        assert!(t.exit.is_none());
        assert_eq!(session.stream().current_offset(), 512);
        assert_eq!(streamer.hw_queue().mono_samples().len(), 512);
    }
    // Resume: the unpausing iteration itself already streams the next
    // block, continuing from the exact prior offset.
    let t = session.playback_tick(&mut streamer, press("pause"), 512);
    assert!(t.exit.is_none());
    assert!(!session.paused());
    assert_eq!(session.stream().current_offset(), 1024);
    let t = session.playback_tick(&mut streamer, ControlInputs::none(), 512);
    assert!(t.exit.is_none());
    assert_eq!(session.stream().current_offset(), 1536);
    assert_eq!(streamer.hw_queue().mono_samples(), &data[..1536].to_vec());
}

#[test]
fn backward_seek_at_start_is_a_tolerated_no_op() {
    let data = vec![9u8; 4096];
    let mut session = PlaybackSession::new(StorageStream::open_track(data));
    let mut streamer = fresh_mono();
    let t = session.playback_tick(&mut streamer, press("backward"), 512);
    assert!(t.exit.is_none());
    // The seek left the offset clamped at the start; the block that
    // followed was the first block of the track.
    assert_eq!(session.stream().current_offset(), 512);
}

#[test]
fn seek_relative_refuses_to_leave_the_stream() {
    let mut s = StorageStream::open_track(vec![0u8; 100]);
    assert!(matches!(s.seek_relative(-1), Err(StorageError::SeekOutOfBounds)));
    assert_eq!(s.current_offset(), 0);
    assert!(matches!(s.seek_relative(101), Err(StorageError::SeekOutOfBounds)));
    assert_eq!(s.current_offset(), 0);
    assert!(s.seek_relative(100).is_ok());
    assert_eq!(s.current_offset(), 100);
    assert!(s.seek_relative(-100).is_ok());
    assert_eq!(s.current_offset(), 0);
}

#[test]
fn forward_seek_skips_about_ten_seconds() {
    let len = 1_000_000usize;
    let data = vec![3u8; len];
    let mut session = PlaybackSession::new(StorageStream::open_track(data));
    let mut streamer = fresh_mono();
    let t = session.playback_tick(&mut streamer, press("forward"), 512);
    assert!(t.exit.is_none());
    assert_eq!(session.stream().current_offset(), SEEK_DELTA_BYTES as u64 + 512);
}

#[test]
fn cancel_wins_immediately_and_tears_down() {
    let data = vec![1u8; 4096];
    let mut session = PlaybackSession::new(StorageStream::open_track(data));
    let mut streamer = fresh_mono();
    let script = vec![press("back")];
    let reason = session.run_playback(&mut streamer, &script, 512, 100);
    assert!(matches!(reason, Some(ExitReason::Cancelled)));
    // Nothing was read or written before the loop broke.
    assert_eq!(session.stream().current_offset(), 0);
    assert_eq!(streamer.hw_queue().mono_samples().len(), 0);
}

#[test]
fn storage_failure_ends_the_session_like_end_of_stream() {
    let mut stream = StorageStream::open_track(vec![1u8; 4096]);
    stream.set_fail_reads(true);
    let mut session = PlaybackSession::new(stream);
    let mut streamer = fresh_mono();
    let script: Vec<ControlInputs> = Vec::new();
    let reason = session.run_playback(&mut streamer, &script, 512, 100);
    assert!(matches!(reason, Some(ExitReason::StorageFailure)));
    assert_eq!(streamer.hw_queue().mono_samples().len(), 0);
}

#[test]
fn volume_buttons_step_and_clamp() {
    let mut session = PlaybackSession::new(StorageStream::open_track(vec![0u8; 1024]));
    assert_eq!(session.volume(), 8);
    // Up from the ceiling stays at the ceiling.
    let e = session.poll_controls(press("vol_up"));
    assert_eq!(session.volume(), 8);
    assert!(matches!(e.leds, LedIndication::VolumeLevel(8)));
    // A press arms the hold-down debounce window, so an immediately
    // following press is ignored.
    session.poll_controls(press("vol_down"));
    assert_eq!(session.volume(), 8);
    // Let the window pass, then step down.
    for _ in 0..30 {
        session.poll_controls(ControlInputs::none());
    }
    session.poll_controls(press("vol_down"));
    assert_eq!(session.volume(), 7);
}

#[test]
fn volume_transform_is_applied_to_what_reaches_the_hardware() {
    let data = vec![0x80u8; 512];
    let mut session = PlaybackSession::new(StorageStream::open_track(data));
    let mut streamer = fresh_mono();
    // Drop the volume to 7 (one shift) before any audio flows.
    session.poll_controls(press("vol_down"));
    assert_eq!(session.volume(), 7);
    let t = session.playback_tick(&mut streamer, ControlInputs::none(), 512);
    assert!(t.exit.is_none());
    assert_eq!(streamer.hw_queue().mono_samples(), &vec![0x40u8; 512]);
}

#[test]
fn apply_volume_matches_the_shift_rule() {
    let mut buf = vec![0xffu8, 0x80, 0x42, 0x01, 0x99];
    apply_volume(&mut buf, 5, 8);
    assert_eq!(buf, vec![0xffu8, 0x80, 0x42, 0x01, 0x99]);
    let mut buf = vec![0xffu8, 0x80, 0x42, 0x01];
    apply_volume(&mut buf, 4, 1);
    assert_eq!(buf, vec![1u8, 1, 0, 0]);
    let mut buf = vec![0xf0u8, 0x0f];
    apply_volume(&mut buf, 2, 4);
    assert_eq!(buf, vec![0x0fu8, 0x00]);
    // Only the first `count` bytes are touched.
    let mut buf = vec![0x80u8, 0x80];
    apply_volume(&mut buf, 1, 1);
    assert_eq!(buf, vec![0x01u8, 0x80]);
}

#[test]
fn short_final_block_is_streamed_whole() {
    let data: Vec<u8> = (0..700).map(|i| (i % 200) as u8).collect();
    let mut session = PlaybackSession::new(StorageStream::open_track(data.clone()));
    let mut streamer = fresh_mono();
    let script: Vec<ControlInputs> = Vec::new();
    let reason = session.run_playback(&mut streamer, &script, 512, 100);
    assert!(matches!(reason, Some(ExitReason::EndOfStream)));
    assert_eq!(streamer.hw_queue().mono_samples(), &data);
}

#[test]
fn storage_read_fills_only_the_front_of_the_buffer() {
    let mut s = StorageStream::open_track(vec![1u8, 2, 3]);
    let mut buf = vec![0u8; 8];
    assert_eq!(s.read(&mut buf).unwrap(), 3);
    assert_eq!(buf, vec![1u8, 2, 3, 0, 0, 0, 0, 0]);
    assert_eq!(s.read(&mut buf).unwrap(), 0);
}

#[test]
fn closed_stream_refuses_reads_and_seeks() {
    let mut s = StorageStream::open_track(vec![1u8; 16]);
    s.close();
    let mut buf = vec![0u8; 4];
    assert!(matches!(s.read(&mut buf), Err(StorageError::Closed)));
    assert!(matches!(s.seek_relative(1), Err(StorageError::Closed)));
}

#[test]
fn progress_arithmetic_matches_the_original_rules() {
    assert_eq!(elapsed_seconds(480_000, 48_000), 10);
    assert_eq!(elapsed_seconds(47_999, 48_000), 0);
    assert_eq!(progress_eighths(0, 10), 0);
    assert_eq!(progress_eighths(5, 10), 4);
    assert_eq!(progress_eighths(10, 10), 8);
}

#[test]
fn progress_bar_has_one_marker_per_eighth() {
    assert_eq!(progress_bar(0), "*-------");
    assert_eq!(progress_bar(3), "---*----");
    assert_eq!(progress_bar(7), "-------*");
    assert_eq!(progress_bar(8), "********");
    assert_eq!(progress_bar(100), "********");
}

#[test]
fn track_time_renders_as_minutes_and_seconds() {
    assert_eq!(format_track_time(0), b"00:00".to_vec());
    assert_eq!(format_track_time(615), b"10:15".to_vec());
    assert_eq!(format_track_time(59), b"00:59".to_vec());
    assert_eq!(format_track_time(5999), b"99:59".to_vec());
}

#[test]
fn volume_led_pattern_lights_one_led_per_level() {
    let v = silicon::player::session::volume_led_pattern(3);
    assert_eq!(v, vec![true, true, true, false, false, false, false, false]);
    let v = silicon::player::session::volume_led_pattern(8);
    assert_eq!(v, vec![true; 8]);
}

#[test]
fn forward_seek_near_the_end_is_a_tolerated_no_op() {
    // The track is shorter than one seek delta, so a forward seek would
    // leave the stream; it must not error out of playback and must not
    // move the cursor.
    let data = vec![7u8; 4096];
    let mut session = PlaybackSession::new(StorageStream::open_track(data));
    let mut streamer = fresh_mono();
    let t = session.playback_tick(&mut streamer, press("forward"), 512);
    assert!(t.exit.is_none());
    // The clamped seek left the offset at the start, so the block that
    // followed was the first block.
    assert_eq!(session.stream().current_offset(), 512);
}

#[test]
fn paused_progress_snapshot_reports_the_pause() {
    let data = vec![1u8; 480_000];
    let mut session = PlaybackSession::new(StorageStream::open_track(data));
    let mut streamer = fresh_mono();
    // The pause press forces an immediate snapshot, and the snapshot
    // carries the paused state.
    let t = session.playback_tick(&mut streamer, press("pause"), 512);
    let p = t.progress.expect("a pause toggle owes an immediate snapshot");
    assert!(!p.playing);
    assert_eq!(p.elapsed, 0);
}
