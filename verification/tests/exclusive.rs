use boxpigma::exclusive::{candidate_rates, frames_for, DeviceSample, Feed, Feeder, CHUNK_FRAMES};

#[test]
fn the_tracks_rate_is_offered_before_the_devices_own() {
    assert_eq!(candidate_rates(48_000, 44_100), vec![44_100, 48_000]);
    assert_eq!(candidate_rates(48_000, 48_000), vec![48_000]);
    assert_eq!(
        candidate_rates(48_000, 0),
        vec![48_000],
        "a track with no rate of its own leaves the device's"
    );
}

#[test]
fn no_rate_at_all_offers_nothing() {
    assert_eq!(candidate_rates(0, 0), Vec::<u32>::new());
    assert_eq!(candidate_rates(0, 96_000), vec![96_000]);
}

#[test]
fn sample_sizes() {
    assert_eq!(DeviceSample::Float32.bytes(), 4);
    assert_eq!(DeviceSample::Int16.bytes(), 2);
}

#[test]
fn a_buffer_is_at_most_one_chunk() {
    assert_eq!(frames_for(100, 2), (100, 200));
    assert_eq!(frames_for(1_000_000, 2), (CHUNK_FRAMES, CHUNK_FRAMES * 2));
}

#[test]
fn the_tail_is_let_out_before_the_stream_finishes() {
    let mut feeder = Feeder::new();
    assert_eq!(feeder.next(false, 512), Feed::Samples);
    assert_eq!(feeder.next(true, 0), Feed::Silence, "paused, the device gets silence");
    assert_eq!(feeder.next(false, 0), Feed::Silence, "the first empty pull lets the tail out");
    assert!(feeder.drained);
    assert_eq!(feeder.next(false, 0), Feed::Finish);
}
