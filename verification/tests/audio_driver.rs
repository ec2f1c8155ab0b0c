//! Tests for the audio streamer driver: lifecycle, backpressure, and the
//! burst-write protocol.

use silicon::hal::audio::{AudioBufferStatus, AudioStreamer};

fn fresh_mono() -> AudioStreamer<silicon::hal::audio::Mono, silicon::hal::audio::Initialized> {
    let p = silicon::hal::init();
    AudioStreamer::new_mono(p.dac).initialize()
}

#[test]
fn empty_queue_reports_empty() {
    let s = fresh_mono();
    assert!(matches!(s.buffer_status(), AudioBufferStatus::Empty));
    assert_eq!(s.hw_queue().pending(), 0);
}

#[test]
fn initialize_sets_enable_and_mono_mode() {
    let s = fresh_mono();
    assert_eq!(s.hw_queue().control_word(), 0x01);
}

#[test]
fn stereo_initialize_sets_mode_bit() {
    let p = silicon::hal::init();
    let s = AudioStreamer::new_stereo(p.dac).initialize();
    assert_eq!(s.hw_queue().control_word(), 0x03);
}

#[test]
fn disable_clears_the_control_register() {
    let s = fresh_mono();
    let down = s.disable();
    assert_eq!(down.hw_queue().control_word(), 0x00);
}

#[test]
fn lifecycle_round_trip_through_typed_states() {
    // Disable on an already-disabled driver is not expressible: the
    // typed transitions only offer disable in the Initialized state, so
    // the round trip below is the whole reachable lifecycle.
    let p = silicon::hal::init();
    let uninit = AudioStreamer::new_mono(p.dac);
    let init = uninit.initialize();
    let uninit_again = init.disable();
    let init_again = uninit_again.initialize();
    let _dac = init_again.release();
}

#[test]
fn mode_switch_flushes_the_queue() {
    let mut s = fresh_mono();
    let written = s.write_samples(&[1, 2, 3, 4]);
    assert_eq!(written, 4);
    let st = s.into_stereo();
    assert_eq!(st.hw_queue().pending(), 0);
    assert_eq!(st.hw_queue().control_word(), 0x03);
    let back = st.into_mono();
    assert_eq!(back.hw_queue().pending(), 0);
}

#[test]
fn write_samples_accepts_everything_while_room_lasts() {
    let mut s = fresh_mono();
    let buf: Vec<u8> = (0..600).map(|i| (i % 251) as u8).collect();
    let written = s.write_samples(&buf);
    assert_eq!(written, 600);
    assert_eq!(s.hw_queue().pending(), 600);
    assert_eq!(s.hw_queue().mono_samples(), &buf);
}

#[test]
fn write_samples_stops_exactly_at_capacity() {
    let mut s = fresh_mono();
    let buf = vec![0xaau8; 2000];
    let written = s.write_samples(&buf);
    assert_eq!(written, 1024);
    assert_eq!(s.hw_queue().pending(), 1024);
    assert!(matches!(s.buffer_status(), AudioBufferStatus::Full));
    // A full queue accepts nothing more, and consumes no write id.
    let again = s.write_samples(&buf);
    assert_eq!(again, 0);
    assert_eq!(s.hw_queue().wid_log().len(), 1024);
    assert!(s.write_sample(1).is_err());
    assert_eq!(s.hw_queue().wid_log().len(), 1024);
}

#[test]
fn write_samples_preserves_order_across_calls() {
    let mut s = fresh_mono();
    let first: Vec<u8> = (0..100).collect();
    let second: Vec<u8> = (100..160).collect();
    assert_eq!(s.write_samples(&first), 100);
    assert_eq!(s.write_samples(&second), 60);
    let expected: Vec<u8> = (0..160).collect();
    assert_eq!(s.hw_queue().mono_samples(), &expected);
}

#[test]
fn status_tracks_the_fill_level_through_drains() {
    let mut s = fresh_mono();
    let buf = vec![7u8; 2000];
    assert_eq!(s.write_samples(&buf), 1024);
    // Drain to a fill level just under capacity: almost-full band.
    s.drain(24);
    assert!(matches!(s.buffer_status(), AudioBufferStatus::Available(1)));
    // Drain to a mid fill level: the conservative default band.
    s.drain(500);
    assert!(matches!(s.buffer_status(), AudioBufferStatus::Available(32)));
    // Drain to under 32 pending: almost-empty band.
    s.drain(480);
    assert_eq!(s.hw_queue().pending(), 20);
    assert!(matches!(s.buffer_status(), AudioBufferStatus::Available(512)));
    // Drain the rest: empty.
    s.drain(100);
    assert!(matches!(s.buffer_status(), AudioBufferStatus::Empty));
}

#[test]
fn drains_interleave_with_writes_without_losing_samples() {
    let mut s = fresh_mono();
    let mut expected: Vec<u8> = Vec::new();
    for round in 0..10u32 {
        let chunk: Vec<u8> = (0..300).map(|i| ((i + round * 7) % 256) as u8).collect();
        let written = s.write_samples(&chunk);
        expected.extend_from_slice(&chunk[..written]);
        s.drain(300);
    }
    assert_eq!(s.hw_queue().mono_samples(), &expected);
}

#[test]
fn write_ids_advance_one_per_sample_and_wrap() {
    let mut s = fresh_mono();
    let buf = vec![5u8; 600];
    assert_eq!(s.write_samples(&buf), 600);
    let wids = s.hw_queue().wid_log();
    assert_eq!(wids.len(), 600);
    for (i, w) in wids.iter().enumerate() {
        assert_eq!(*w, (i % 256) as u8);
    }
}

#[test]
fn reinitializing_resets_the_write_id() {
    let mut s = fresh_mono();
    assert_eq!(s.write_samples(&[1, 2, 3]), 3);
    assert_eq!(s.hw_queue().wid_log(), &vec![0u8, 1, 2]);
    let mut s = s.disable().initialize();
    assert_eq!(s.write_samples(&[9]), 1);
    assert_eq!(s.hw_queue().wid_log(), &vec![0u8]);
}

#[test]
fn single_write_consumes_one_id() {
    let mut s = fresh_mono();
    assert!(s.write_sample(42).is_ok());
    assert!(s.write_sample(43).is_ok());
    assert_eq!(s.hw_queue().mono_samples(), &vec![42u8, 43]);
    assert_eq!(s.hw_queue().wid_log(), &vec![0u8, 1]);
}

#[test]
fn stereo_burst_stops_at_pair_capacity() {
    let p = silicon::hal::init();
    let mut s = AudioStreamer::new_stereo(p.dac).initialize();
    let pairs: Vec<(u8, u8)> = (0..2000).map(|i| ((i % 256) as u8, (i % 13) as u8)).collect();
    let written = s.write_samples(&pairs);
    assert_eq!(written, 512);
    assert!(matches!(s.buffer_status(), AudioBufferStatus::Full));
    assert_eq!(s.hw_queue().stereo_samples(), &pairs[..512].to_vec());
}

#[test]
fn stereo_status_bands() {
    let p = silicon::hal::init();
    let mut s = AudioStreamer::new_stereo(p.dac).initialize();
    assert!(matches!(s.buffer_status(), AudioBufferStatus::Empty));
    let pairs = vec![(1u8, 2u8); 20];
    assert_eq!(s.write_samples(&pairs), 20);
    assert!(matches!(s.buffer_status(), AudioBufferStatus::Available(480)));
    let more = vec![(3u8, 4u8); 200];
    assert_eq!(s.write_samples(&more), 200);
    assert!(matches!(s.buffer_status(), AudioBufferStatus::Available(32)));
}

#[test]
fn stereo_checked_write_reports_full() {
    let p = silicon::hal::init();
    let mut s = AudioStreamer::new_stereo(p.dac).initialize();
    let pairs = vec![(0u8, 0u8); 512];
    assert_eq!(s.write_samples(&pairs), 512);
    assert!(s.write_sample(1, 2).is_err());
    s.drain(100);
    assert!(s.write_sample(1, 2).is_ok());
}
