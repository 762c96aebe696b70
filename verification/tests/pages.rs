use boxpigma::artist::{ArtistAlbum, ArtistData, ArtistDetail, ArtistMsg, ArtistState};
use boxpigma::nav::{NavItem, NavSection, NavState};
use boxpigma::song::{SongCopyright, SongInfo};

fn item(name: &str, api: Option<&str>) -> NavItem {
    NavItem { name: name.to_string(), api: api.map(|a| a.to_string()) }
}

fn sections() -> Vec<NavSection> {
    vec![
        NavSection {
            name: "发现".to_string(),
            items: vec![item("每日推荐", Some("daily")), item("热门歌手", Some("artists"))],
        },
        NavSection { name: "空".to_string(), items: vec![] },
        NavSection {
            name: "我的".to_string(),
            items: vec![item("分隔", None), item("本地音乐", Some("local_music"))],
        },
    ]
}

#[test]
fn every_section_starts_on_its_first_item() {
    let nav = NavState::from_config(sections(), vec![]);
    assert_eq!(nav.selected, vec![Some(0), None, Some(0)]);
    assert_eq!(nav.focus_section, 0);
    assert_eq!(nav.selected_api(), Some("daily"));
    assert_eq!(nav.selected_name(), Some("每日推荐"));
}

#[test]
fn no_configured_sections_means_the_defaults() {
    let nav = NavState::from_config(vec![], sections());
    assert_eq!(nav.sections.len(), 3);
}

#[test]
fn the_focus_returns_to_the_item_that_opens_a_view() {
    let mut nav = NavState::from_config(sections(), vec![]);
    nav.restore_focus_by_api("local_music");
    assert_eq!(nav.focus_section, 2);
    assert_eq!(nav.selected_index(), Some(1));
    assert_eq!(nav.selected_name(), Some("本地音乐"));

    nav.restore_focus_by_api("nowhere");
    assert_eq!(nav.focus_section, 2, "an unknown view leaves the focus where it is");
    assert_eq!(nav.selected_index(), Some(1));
}

#[test]
fn an_item_without_a_view_has_no_api() {
    let mut nav = NavState::from_config(sections(), vec![]);
    nav.focus_section = 2;
    assert_eq!(nav.selected_name(), Some("分隔"));
    assert_eq!(nav.selected_api(), None);
    nav.focus_section = 1;
    assert!(nav.selected_item().is_none());
    nav.focus_section = 9;
    assert!(nav.focused_section().is_none());
}

fn song(id: u64) -> SongInfo {
    SongInfo {
        id,
        name: format!("song{id}"),
        singer: String::new(),
        artist_id: 1,
        album: String::new(),
        album_id: 0,
        pic_url: String::new(),
        duration: 0,
        mv: 0,
        copyright: SongCopyright::Unknown,
        local_path: None,
    }
}

fn detail(songs: usize) -> ArtistDetail {
    ArtistDetail {
        id: 1,
        name: "歌手".to_string(),
        pic_url: "http://p/a.jpg".to_string(),
        alias: vec![],
        brief_desc: String::new(),
        music_size: 568,
        album_size: 44,
        hot_songs: (0..songs as u64).map(song).collect(),
    }
}

#[test]
fn the_profile_replaces_the_row_header() {
    let mut page: ArtistState<u8> = ArtistState::new();
    let load = page.open(1, "row name".to_string(), String::new());
    assert!(matches!(page.data, ArtistData::Loading));
    page.apply(load, ArtistMsg::Ready { detail: detail(3), albums: Ok(Vec::<ArtistAlbum>::new()) });
    assert_eq!(page.name, "歌手");
    assert_eq!(page.pic_url, "http://p/a.jpg");
    assert_eq!(page.hot_songs().len(), 3);
    page.apply(load, ArtistMsg::Avatar(7));
    assert_eq!(page.avatar, Some(7));
}

#[test]
fn a_superseded_load_is_ignored() {
    let mut page: ArtistState<u8> = ArtistState::new();
    let first = page.open(1, "a".to_string(), String::new());
    let second = page.open(2, "b".to_string(), String::new());
    page.apply(first, ArtistMsg::Failed("late".to_string()));
    assert!(matches!(page.data, ArtistData::Loading), "the first load's answer must not land");
    page.apply(second, ArtistMsg::Failed("boom".to_string()));
    assert!(matches!(&page.data, ArtistData::Failed(e) if e == "boom"));
}

#[test]
fn nothing_to_reload_before_the_first_open() {
    let mut page: ArtistState<u8> = ArtistState::new();
    assert_eq!(page.reload(), None);
    page.open(5, "x".to_string(), String::new());
    assert!(page.reload().is_some());
}

#[test]
fn the_cursor_wraps_over_the_hot_songs() {
    let mut page: ArtistState<u8> = ArtistState::new();
    let load = page.open(1, "a".to_string(), String::new());
    page.select_next();
    assert_eq!(page.song_selected, 0, "nothing to move over while loading");
    page.apply(load, ArtistMsg::Ready { detail: detail(3), albums: Err("x".to_string()) });
    page.select_prev();
    assert_eq!(page.song_selected, 2);
    page.select_next();
    assert_eq!(page.song_selected, 0);
    page.select_last();
    assert_eq!(page.selected_song().map(|s| s.id), Some(2));
    page.select_first();
    assert_eq!(page.selected_song().map(|s| s.id), Some(0));
}
