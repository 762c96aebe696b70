use boxpigma::avatar::{resized_url, PortraitSlot, PIXELS};
use boxpigma::mv::{poster_rows, MvSlot, MAX_POSTER_ROWS, POSTER_PIXELS};
use boxpigma::title::bordered_title;

#[test]
fn a_load_from_a_finished_session_is_dropped() {
    let mut slot: PortraitSlot<&str> = PortraitSlot::new();
    let session = slot.session();
    slot.clear();
    assert!(!slot.install(session, "face"), "a finished session must not be served");
    assert!(slot.portrait().is_none());
}

#[test]
fn a_load_for_the_current_session_goes_in() {
    let mut slot: PortraitSlot<&str> = PortraitSlot::new();
    slot.clear();
    let session = slot.session();
    assert!(slot.install(session, "face"));
    assert_eq!(slot.portrait(), Some(&"face"));
    slot.clear();
    assert!(slot.portrait().is_none(), "logging out forgets the portrait");
}

#[test]
fn a_picture_is_asked_for_at_its_size() {
    assert_eq!(
        resized_url("http://p.music.126.net/a.jpg", PIXELS).as_deref(),
        Some("http://p.music.126.net/a.jpg?param=120y120")
    );
    assert_eq!(
        resized_url("http://x/p.jpg", POSTER_PIXELS).as_deref(),
        Some("http://x/p.jpg?param=480y480")
    );
    assert_eq!(resized_url("", PIXELS), None, "an empty URL has nothing behind it");
}

#[test]
fn a_song_without_an_mv_installs_nothing() {
    let mut slot: MvSlot<u32> = MvSlot::new();
    slot.clear();
    let generation = slot.generation();
    assert!(!slot.worth_fetching(0, generation), "a song with no MV asks for nothing");
    assert!(slot.worth_fetching(7, generation));
    assert!(slot.panel().is_none());
}

#[test]
fn a_poster_from_a_previous_song_is_dropped() {
    let mut slot: MvSlot<u32> = MvSlot::new();
    let generation = slot.generation();
    slot.clear();
    assert!(!slot.worth_fetching(7, generation), "a skipped track gets no request");
    assert!(!slot.install(generation, 1), "a finished song must not be served");
    assert!(slot.panel().is_none());
}

#[test]
fn the_poster_of_the_current_song_is_the_one_installed() {
    let mut slot: MvSlot<u32> = MvSlot::new();
    slot.clear();
    let generation = slot.generation();
    assert!(slot.install(generation, 7));
    assert_eq!(slot.panel(), Some(&7));
}

#[test]
fn the_poster_takes_what_the_text_leaves() {
    assert_eq!(poster_rows(3), 0);
    assert_eq!(poster_rows(5), 0);
    assert_eq!(poster_rows(14), 9);
    assert_eq!(poster_rows(40), MAX_POSTER_ROWS);
}

#[test]
fn a_heading_sits_between_the_title_arrows() {
    assert_eq!(bordered_title("歌单 ({count})", "", 3, 0, "►", "◄"), "► 歌单 (3) ◄");
    assert_eq!(bordered_title("{name}", "本地音乐", 0, 0, "[", "]"), "[ 本地音乐 ]");
}
