use parlar::gate::CaptureGate;
use parlar::level::{chunk_peak_level_i16, FULL_SCALE};
use parlar::pcm::{decode_pcm16_le, encode_pcm16_le};
use parlar::playback::PlaybackBuffer;

fn level(samples: &[i16]) -> f32 {
    chunk_peak_level_i16(samples) as f32 / FULL_SCALE as f32
}

#[test]
fn level_of_empty_chunk_is_zero() {
    assert_eq!(chunk_peak_level_i16(&[]), 0);
    assert_eq!(level(&[]), 0.0);
}

#[test]
fn level_of_full_scale_sample_is_one() {
    assert_eq!(level(&[0, 5, i16::MAX, -3]), 1.0);
    assert_eq!(chunk_peak_level_i16(&[i16::MIN]), FULL_SCALE);
}

#[test]
fn level_is_largest_magnitude() {
    assert_eq!(chunk_peak_level_i16(&[100, -2000, 1500]), 2000);
    let l = level(&[100, -2000, 1500]);
    assert!(l > 0.0 && l < 1.0);
    for chunk in [[1i16, -1, 0], [-32767, 3, 4], [7, 7, 7]] {
        let l = level(&chunk);
        assert!((0.0..=1.0).contains(&l));
    }
}

#[test]
fn gate_passes_everything_while_assistant_silent() {
    let mut g = CaptureGate::new(7209, 2);
    for peak in [0u16, 10, 32767, 5] {
        assert!(g.pass_level(peak, false));
        assert_eq!(g.loud_count(), 0);
    }
}

#[test]
fn gate_blocks_soft_chunks_while_speaking() {
    let mut g = CaptureGate::new(7209, 2);
    for peak in [0u16, 100, 7208, 50, 7000] {
        assert!(!g.pass_level(peak, true));
    }
}

#[test]
fn gate_opens_after_consecutive_loud_chunks() {
    let mut g = CaptureGate::new(7209, 2);
    assert!(!g.pass_level(7209, true));
    assert!(g.pass_level(9000, true));
    assert!(g.pass_level(8000, true));
    // one soft chunk resets the onset count
    assert!(!g.pass_level(100, true));
    assert!(!g.pass_level(9000, true));
    assert!(g.pass_level(9000, true));
}

#[test]
fn gate_measures_chunk_level() {
    let mut g = CaptureGate::new(7209, 1);
    assert!(!g.pass_chunk(&[10, -20, 30], true));
    assert!(g.pass_chunk(&[10, -20000, 30], true));
    assert!(g.pass_chunk(&[0, 0], false));
}

#[test]
fn pull_after_push_returns_prefix_in_order() {
    let mut b = PlaybackBuffer::new();
    b.push_samples(&[1, 2, 3, 4, 5]);
    assert_eq!(b.pull(3), vec![1, 2, 3]);
    assert_eq!(b.len(), 2);
    assert_eq!(b.pull(4), vec![4, 5, 0, 0]);
    assert_eq!(b.len(), 0);
}

#[test]
fn pull_from_empty_buffer_is_silence() {
    let mut b = PlaybackBuffer::with_capacity(16);
    assert_eq!(b.pull(4), vec![0, 0, 0, 0]);
}

#[test]
fn clear_discards_queued_audio() {
    let mut b = PlaybackBuffer::new();
    b.push_samples(&[9, 8, 7]);
    b.clear();
    assert_eq!(b.pull(3), vec![0, 0, 0]);
}

#[test]
fn fill_writes_queued_then_silence() {
    let mut b = PlaybackBuffer::new();
    b.push_samples(&[4, -4]);
    let mut out = [1i16; 3];
    b.fill(&mut out);
    assert_eq!(out, [4, -4, 0]);
}

#[test]
fn pcm_bytes_are_little_endian() {
    assert_eq!(encode_pcm16_le(&[1, -1, 0x1234]), vec![1, 0, 0xff, 0xff, 0x34, 0x12]);
    assert_eq!(decode_pcm16_le(&[1, 0, 0xff, 0xff, 0x34, 0x12, 7]), vec![1, -1, 0x1234]);
}

#[test]
fn pcm_round_trip() {
    let s = vec![i16::MIN, -300, 0, 300, i16::MAX];
    assert_eq!(decode_pcm16_le(&encode_pcm16_le(&s)), s);
}
