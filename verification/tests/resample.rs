use boxpigma::resample::{needs_resampling, Refill, Tail, CHUNK};

#[test]
fn a_matching_rate_is_left_alone() {
    assert!(!needs_resampling(48_000, 48_000, 2));
    assert!(!needs_resampling(44_100, 0, 2), "a device with no rate has nothing to convert to");
    assert!(!needs_resampling(44_100, 48_000, 0));
    assert!(needs_resampling(44_100, 48_000, 2));
}

#[test]
fn the_tail_of_a_file_drains_through_the_converter_once() {
    let mut tail = Tail::new();
    assert_eq!(tail.after_read(CHUNK), Refill::Resample);
    assert!(!tail.flushed);
    assert_eq!(tail.after_read(100), Refill::Resample, "a short chunk is padded and converted");
    assert!(tail.flushed);
    assert_eq!(tail.after_read(0), Refill::Finish);
    assert!(tail.finished);

    let mut tail = Tail::new();
    assert_eq!(tail.after_read(0), Refill::Resample, "an empty first chunk still flushes the delay");
    assert_eq!(tail.after_read(0), Refill::Finish);
}
