use boxpigma::scan::{
    is_audio_extension, local_id, local_song, sort_scanned, tag_number, tag_text, LocalTags,
    ScannedFile, TrackPosition,
};
use boxpigma::song::SongCopyright;

fn tags(title: Option<&str>, album: Option<&str>, disc: Option<u32>, track: Option<u32>) -> LocalTags {
    LocalTags {
        title: title.map(|t| t.to_string()),
        artist: None,
        album: album.map(|a| a.to_string()),
        duration: Some(1000),
        disc,
        track,
    }
}

fn file(title: &str, album: &str, disc: Option<u32>, track: Option<u32>, path: &str) -> ScannedFile {
    local_song(tags(Some(title), Some(album), disc, track), None, path, 0, 1)
}

#[test]
fn audio_is_known_by_its_extension_whatever_its_case() {
    assert!(is_audio_extension("mp3"));
    assert!(is_audio_extension("FLAC"));
    assert!(is_audio_extension("M4a"));
    assert!(!is_audio_extension("txt"));
    assert!(!is_audio_extension(""));
}

#[test]
fn numbers_are_read_as_taggers_write_them() {
    assert_eq!(tag_number(Some("03")), Some(3));
    assert_eq!(tag_number(Some("3/13")), Some(3));
    assert_eq!(tag_number(Some("1 of 2")), Some(1));
    assert_eq!(tag_number(Some("  7  ")), Some(7));
    assert_eq!(tag_number(Some("+4")), Some(4));
    assert_eq!(tag_number(Some("A")), None);
    assert_eq!(tag_number(Some("-1")), None);
    assert_eq!(tag_number(Some("99999999999")), None);
    assert_eq!(tag_number(Some("   ")), None);
    assert_eq!(tag_number(None), None);
}

#[test]
fn a_blank_tag_is_a_missing_one() {
    assert_eq!(tag_text(Some("  标签标题 ")), Some("标签标题".to_string()));
    assert_eq!(tag_text(Some("   ")), None);
    assert_eq!(tag_text(None), None);
}

#[test]
fn the_track_artist_comes_before_the_album_artist() {
    let t = LocalTags::from_raw(Some("t"), Some(" "), Some("专辑歌手"), None, 0, Some("2"), None);
    assert_eq!(t.artist.as_deref(), Some("专辑歌手"));
    assert_eq!(t.duration, None, "a zero length is no length");
    assert!(t.needs_decoding());
    assert_eq!(t.disc, Some(2));
    let t = LocalTags::from_raw(None, Some("歌手"), Some("专辑歌手"), None, 1000, None, None);
    assert_eq!(t.artist.as_deref(), Some("歌手"));
    assert!(!t.needs_decoding());
}

#[test]
fn tags_supply_the_title_artist_album_and_duration() {
    let t = LocalTags {
        title: Some("标签标题".to_string()),
        artist: Some("标签歌手".to_string()),
        album: Some("标签专辑".to_string()),
        duration: Some(1000),
        disc: None,
        track: None,
    };
    let f = local_song(t, Some("file-stem"), "/m/file-stem.wav", 5, u64::MAX);
    assert_eq!(f.song.name, "标签标题");
    assert_eq!(f.song.singer, "标签歌手");
    assert_eq!(f.song.album, "标签专辑");
    assert_eq!(f.song.duration, 1000);
    assert_eq!(f.song.local_path.as_deref(), Some("/m/file-stem.wav"));
    assert_eq!(f.song.id & (1 << 63), 0);
    assert_eq!(f.song.copyright, SongCopyright::Free);
}

#[test]
fn a_file_without_tags_keeps_its_filename_and_path() {
    let t = LocalTags { title: None, artist: None, album: None, duration: None, disc: None, track: None };
    let f = local_song(t, Some("Artist - Song"), "/m/Artist - Song.wav", 1000, 42);
    assert_eq!(f.song.name, "Artist - Song");
    assert_eq!(f.song.singer, "本地");
    assert_eq!(f.song.album, "/m/Artist - Song.wav");
    assert_eq!(f.song.duration, 1000);
    assert_eq!(f.song.id, 42);
    let t = LocalTags { title: None, artist: None, album: None, duration: None, disc: None, track: None };
    assert_eq!(local_song(t, None, "/m/x", 0, 0).song.name, "unknown");
}

#[test]
fn the_top_bit_of_a_local_id_is_clear() {
    assert_eq!(local_id(u64::MAX), u64::MAX >> 1);
    assert_eq!(local_id(5), 5);
}

#[test]
fn an_album_plays_in_track_order_not_title_order() {
    let songs = sort_scanned(vec![
        file("Airport Take Off", "Rip", Some(1), Some(2), "/m/b.flac"),
        file("Zzz", "Another", None, None, "/m/z.flac"),
        file("Airport Arrival", "Rip", Some(1), Some(1), "/m/a.flac"),
        file("Bonus", "Rip", Some(2), Some(1), "/m/c.flac"),
        file("Untagged", "Rip", None, None, "/m/d.flac"),
    ]);
    let names: Vec<&str> = songs.iter().map(|s| s.name.as_str()).collect();
    assert_eq!(names, vec!["Zzz", "Untagged", "Airport Arrival", "Airport Take Off", "Bonus"]);
}

#[test]
fn the_path_breaks_ties_in_an_untagged_library() {
    let songs = sort_scanned(vec![
        file("b", "/lib", None, None, "/lib/b.mp3"),
        file("a", "/lib", None, None, "/lib/a.mp3"),
        file("中", "/lib", None, None, "/lib/中.mp3"),
    ]);
    let names: Vec<&str> = songs.iter().map(|s| s.name.as_str()).collect();
    assert_eq!(names, vec!["a", "b", "中"]);
}

#[test]
fn positions_compare_unknown_first() {
    let p = TrackPosition { disc: None, track: Some(1) };
    assert_eq!(p.disc, None);
    assert!(sort_scanned(Vec::new()).is_empty());
}

fn tagged(file: &str, album: &str, disc: &str, track: &str, title: &str) -> ScannedFile {
    let tags = LocalTags::from_raw(Some(title), None, None, Some(album), 1000, Some(disc), Some(track));
    let path = format!("/music/{file}");
    let stem = file.rsplit_once('.').map(|(stem, _)| stem);
    local_song(tags, stem, &path, 0, 7)
}

fn names_of(files: Vec<ScannedFile>) -> Vec<String> {
    sort_scanned(files).into_iter().map(|s| s.name).collect()
}

#[test]
fn tracks_follow_their_album_position_not_their_title() {
    let names = names_of(vec![
        tagged("03 - zzz.wav", "专辑", "1", "3", "Zzz"),
        tagged("01 - mmm.wav", "专辑", "1", "1", "Mmm"),
        tagged("02 - aaa.wav", "专辑", "1", "2", "Aaa"),
    ]);
    assert_eq!(names, ["Mmm", "Aaa", "Zzz"]);
}

#[test]
fn discs_play_before_tracks_and_totals_do_not_confuse_the_number() {
    let names = names_of(vec![
        tagged("disc-2-track-1.wav", "双碟", "2/2", "1/9", "第二碟第一首"),
        tagged("disc-1-track-2.wav", "双碟", "1/2", "2/9", "第一碟第二首"),
        tagged("disc-1-track-1.wav", "双碟", "1/2", "1/9", "第一碟第一首"),
    ]);
    assert_eq!(names, ["第一碟第一首", "第一碟第二首", "第二碟第一首"]);
}

#[test]
fn a_library_without_track_tags_is_ordered_by_its_paths() {
    let files = ["c - third.wav", "a - first.wav", "b - second.wav"]
        .iter()
        .map(|file| {
            let tags = LocalTags::from_raw(None, None, None, None, 0, None, None);
            let path = format!("/music/{file}");
            let stem = file.rsplit_once('.').map(|(stem, _)| stem);
            local_song(tags, stem, &path, 1000, 7)
        })
        .collect();
    assert_eq!(names_of(files), ["a - first", "b - second", "c - third"]);
}

#[test]
fn tag_text_trims_what_std_trims() {
    for code in 0u32..0x3100 {
        let Some(c) = char::from_u32(code) else { continue };
        let raw = format!("{c}x{c}");
        let expected = raw.trim().to_string();
        assert_eq!(tag_text(Some(&raw)), Some(expected), "code point {code:#x}");
    }
}

#[test]
fn files_that_tie_on_every_key_keep_the_order_they_were_found_in() {
    let names = names_of(vec![
        file("second", "Same", Some(1), Some(1), "/m/x.flac"),
        file("first", "Earlier", Some(1), Some(1), "/m/a.flac"),
        file("third", "Same", Some(1), Some(1), "/m/x.flac"),
        file("fourth", "Same", Some(1), Some(1), "/m/x.flac"),
    ]);
    assert_eq!(names, ["first", "second", "third", "fourth"]);
}
