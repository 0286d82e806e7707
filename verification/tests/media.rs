//! The real decoding path: in-memory WAV streams driven through the
//! engine, exercising the trusted wrappers around the decoding crate.

use onmi::{OpenError, Player, State, Symphonia};

fn make_wav(samples: &[i16], sample_rate: u32, channels: u16) -> Vec<u8> {
    let data_len = (samples.len() * 2) as u32;
    let block_align = channels * 2;
    let mut v = Vec::new();
    v.extend_from_slice(b"RIFF");
    v.extend_from_slice(&(36 + data_len).to_le_bytes());
    v.extend_from_slice(b"WAVE");
    v.extend_from_slice(b"fmt ");
    v.extend_from_slice(&16u32.to_le_bytes());
    v.extend_from_slice(&1u16.to_le_bytes());
    v.extend_from_slice(&channels.to_le_bytes());
    v.extend_from_slice(&sample_rate.to_le_bytes());
    v.extend_from_slice(&(sample_rate * block_align as u32).to_le_bytes());
    v.extend_from_slice(&block_align.to_le_bytes());
    v.extend_from_slice(&16u16.to_le_bytes());
    v.extend_from_slice(b"data");
    v.extend_from_slice(&data_len.to_le_bytes());
    for s in samples {
        v.extend_from_slice(&s.to_le_bytes());
    }
    v
}

#[test]
fn opening_a_wav_reads_its_parameters() {
    // 441 stereo frames at 44100 Hz: ten milliseconds.
    let samples = vec![0i16; 441 * 2];
    let src = Symphonia::new(make_wav(&samples, 44100, 2)).unwrap();
    assert_eq!(src.sample_rate(), 44100);
    assert_eq!(src.duration_millis(), Some(10));
    assert_eq!(src.elapsed_millis(), 0);
    assert!(!src.is_finished());
}

#[test]
fn decoded_samples_come_back_converted() {
    // 16-bit PCM is widened to 32-bit samples by a left shift.
    let pcm: Vec<i16> = vec![100, -100, 2000, -2000];
    let mut src = Symphonia::new(make_wav(&pcm, 44100, 2)).unwrap();
    for s in &pcm {
        assert_eq!(src.next_sample(), Some((*s as i32) << 16));
    }
    assert_eq!(src.next_sample(), None);
    assert!(src.is_finished());
}

#[test]
fn opening_garbage_is_unsupported() {
    let r = Symphonia::new(vec![0u8; 64]);
    assert_eq!(r.err(), Some(OpenError::Unsupported));
}

#[test]
fn play_song_failure_leaves_state_unchanged() {
    let mut player = Player::new();
    assert!(player.play_song(vec![1, 2, 3, 4], true).is_err());
    assert_eq!(player.state(), State::Stopped);
    assert_eq!(player.duration(), None);
}

#[test]
fn play_song_renders_scaled_wav_samples() {
    let pcm: Vec<i16> = vec![1000, 1000, -1000, -1000];
    let mut player = Player::new();
    player.play_song(make_wav(&pcm, 44100, 2), true).unwrap();
    player.set_volume(100);
    assert_eq!(player.state(), State::Playing);
    let out = player.render_fill(2, 2);
    // Each 16-bit value is widened to 32 bits, then scaled by volume 100
    // at the default gain of one half.
    let expected: Vec<i32> = pcm.iter().map(|s| ((*s as i32) << 16) / 2).collect();
    assert_eq!(out.samples, expected);
    assert!(!out.flipped);
}

#[test]
fn wav_exhaustion_finishes_through_render() {
    let pcm: Vec<i16> = vec![4, 4];
    let mut player = Player::new();
    player.play_song(make_wav(&pcm, 44100, 2), true).unwrap();
    let out = player.render_fill(3, 2);
    assert_eq!(out.samples.len(), 6);
    assert_eq!(out.samples[2..], [0, 0, 0, 0]);
    assert!(out.flipped);
    assert_eq!(player.state(), State::Finished);
}

#[test]
fn wav_seek_sets_elapsed() {
    let samples = vec![0i16; 44100 * 2];
    let mut src = Symphonia::new(make_wav(&samples, 44100, 2)).unwrap();
    assert_eq!(src.duration_millis(), Some(1000));
    src.seek(500);
    assert_eq!(src.elapsed_millis(), 500);
    assert!(!src.is_finished());
    src.seek(1001);
    assert!(src.is_finished());
}

#[test]
fn play_song_paused_start_waits_for_play() {
    let pcm: Vec<i16> = vec![8, 8, 8, 8];
    let mut player = Player::new();
    player.play_song(make_wav(&pcm, 44100, 2), false).unwrap();
    assert_eq!(player.state(), State::Paused);
    let out = player.render_fill(1, 2);
    assert_eq!(out.samples.len(), 0);
    player.play();
    let out = player.render_fill(1, 2);
    assert_eq!(out.samples.len(), 2);
}
