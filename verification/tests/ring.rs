use boxpigma::ring::{SampleRing, RING_SAMPLES};

fn held(ring: &SampleRing<i32>) -> Vec<i32> {
    (0..ring.complete_samples().max(0)).map(|i| ring.sample(i)).collect()
}

#[test]
fn the_ring_keeps_the_newest_frames() {
    let mut ring: SampleRing<i32> = SampleRing::new();
    assert_eq!(ring.sample_rate(), 0);
    let chunk: Vec<i32> = (0..(RING_SAMPLES as i32 + 10)).collect();
    ring.push(&chunk, 1, 44_100);
    assert_eq!(ring.complete_samples(), RING_SAMPLES);
    assert_eq!(ring.sample(0), 10, "the oldest samples went first");
    assert_eq!(ring.sample(RING_SAMPLES - 1), RING_SAMPLES as i32 + 9);
    assert_eq!(ring.sample_rate(), 44_100);
}

#[test]
fn a_stereo_ring_holds_twice_the_samples() {
    let mut ring: SampleRing<i32> = SampleRing::new();
    let chunk: Vec<i32> = (0..(3 * RING_SAMPLES as i32)).collect();
    ring.push(&chunk, 2, 0);
    assert_eq!(ring.channels(), 2);
    assert_eq!(ring.complete_samples(), 2 * RING_SAMPLES);
    assert_eq!(ring.sample_rate(), 0, "a chunk without a rate leaves the rate unknown");
}

#[test]
fn a_chunk_cut_mid_frame_leaves_its_tail_out() {
    let mut ring: SampleRing<i32> = SampleRing::new();
    ring.push(&[1, 2, 3], 2, 48_000);
    assert_eq!(ring.complete_samples(), 2);
    assert_eq!(held(&ring), vec![1, 2]);
    ring.push(&[4], 0, 0);
    assert_eq!(ring.channels(), 1, "no channel count is one channel");
    assert_eq!(ring.sample_rate(), 48_000);
    assert_eq!(held(&ring), vec![1, 2, 3, 4]);
}
