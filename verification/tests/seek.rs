use boxpigma::seek::{seek_error, seek_shape, SeekShape};

#[test]
fn the_four_shapes_are_told_apart() {
    assert_eq!(seek_shape("90"), (SeekShape::Absolute, "90".to_string()));
    assert_eq!(seek_shape("+15"), (SeekShape::Relative, "+15".to_string()));
    assert_eq!(seek_shape("-30"), (SeekShape::Relative, "-30".to_string()));
    assert_eq!(seek_shape("50%"), (SeekShape::Fraction, "50".to_string()));
}

#[test]
fn only_the_last_percent_sign_is_the_shape() {
    assert_eq!(seek_shape("50%%"), (SeekShape::Fraction, "50%".to_string()));
    assert_eq!(seek_shape(""), (SeekShape::Absolute, String::new()));
}

#[test]
fn the_seek_error_names_the_offending_value() {
    assert_eq!(seek_error("abc"), "无效的跳转位置: abc");
}
