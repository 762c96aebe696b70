use boxpigma::disc::{cover_still_current, DiscSpin, IDLE_GLYPH, NEEDLE_DOWN, NEEDLE_UP, STEPS_PER_TURN};

const SPIN_GLYPHS: [char; 4] = ['\u{25F4}', '\u{25F5}', '\u{25F6}', '\u{25F7}'];

fn spin(on: bool, graphics: bool, playing: bool) -> DiscSpin {
    DiscSpin { on, graphics, playing, ..DiscSpin::new() }
}

#[test]
fn the_disc_only_turns_while_it_plays() {
    let mut disc = spin(true, false, true);
    assert!(disc.turning());
    disc.reach(STEPS_PER_TURN / 4);
    assert_eq!(disc.spin_glyph(), SPIN_GLYPHS[1], "a quarter turn on");
    disc.playing = false;
    assert!(!disc.turning(), "a paused player freezes the disc");
    disc.playing = true;
    disc.reach(STEPS_PER_TURN / 2);
    assert_eq!(disc.spin_glyph(), SPIN_GLYPHS[2], "half a turn on");
    disc.on = false;
    assert!(!disc.turning());
    assert_eq!(disc.spin_glyph(), IDLE_GLYPH, "off is a plain ♪ again");
}

#[test]
fn only_a_new_angle_re_encodes_the_disc() {
    let mut disc = spin(true, true, true);
    assert!(!disc.reach(0), "a still disc encodes nothing");
    assert!(disc.reach(1), "a new angle has to be encoded");
    assert_eq!(disc.encoded, 1);
    assert!(!disc.reach(1));
}

#[test]
fn a_halfblocks_terminal_turns_the_placeholder_instead() {
    let mut disc = spin(true, false, true);
    assert!(!disc.reach(STEPS_PER_TURN / 4), "the image is left as it was");
    assert!(disc.spin_as_glyph());
    assert_eq!(disc.spin_glyph(), SPIN_GLYPHS[1]);
    assert!(!spin(true, true, true).spin_as_glyph());
}

#[test]
fn the_needle_follows_the_playing_state() {
    assert_eq!(spin(false, true, true).tonearm(), None, "off is a plain ♪ placeholder");
    assert_eq!(spin(true, true, true).tonearm(), Some(NEEDLE_DOWN));
    assert_eq!(spin(true, true, false).tonearm(), Some(NEEDLE_UP));
}

#[test]
fn a_stale_cover_is_dropped_with_its_square() {
    assert!(cover_still_current(Some(7), 7));
    assert!(!cover_still_current(Some(8), 7), "a cover of an earlier song must not go in");
    assert!(!cover_still_current(None, 7));
    let mut disc = spin(true, true, true);
    disc.reach(30);
    disc.rewind();
    assert_eq!((disc.step, disc.encoded), (0, 0), "a new cover starts at the top of its turn");
    assert_eq!(disc.spin_glyph(), SPIN_GLYPHS[0]);
}

#[test]
fn the_last_step_is_in_the_last_quarter() {
    let mut disc = spin(true, false, true);
    disc.reach(STEPS_PER_TURN - 1);
    assert_eq!(disc.spin_glyph(), SPIN_GLYPHS[3]);
}
