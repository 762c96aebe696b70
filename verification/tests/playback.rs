use std::sync::atomic::AtomicBool;
use std::sync::Arc;

use boxpigma::player::is_transient_error;
use boxpigma::queue::{PlaylistQueue, VersionSource};
use boxpigma::song::{SongCopyright, SongInfo};
use boxpigma::source::{
    cloud_match_key, ext_from_url, prebuffer_step, Prebuffer, PREBUFFER_BYTES, local_file_path, pick_cloud_match, records_cache,
    should_record_cache, should_retry_ncm, to_sonar_quality, ChainAction, ChainEvent, ResolveAction,
    ResolveEvent, ResolveStep, Resolver, SonarQuality, SongQuality, Source, SourceError,
    StreamingChain,
};

fn test_song() -> SongInfo {
    SongInfo {
        id: 42,
        name: "Hello, World!".to_string(),
        singer: "A/B".to_string(),
        artist_id: 1,
        album: "An Album".to_string(),
        album_id: 2,
        pic_url: String::new(),
        duration: 240_000,
        mv: 0,
        copyright: SongCopyright::VipOnly,
        local_path: None,
    }
}

fn song(id: u64) -> Arc<SongInfo> {
    Arc::new(SongInfo {
        id,
        name: String::new(),
        singer: String::new(),
        artist_id: 0,
        album: String::new(),
        album_id: 0,
        pic_url: String::new(),
        duration: 0,
        mv: 0,
        copyright: SongCopyright::Unknown,
        local_path: None,
    })
}

#[test]
fn only_network_failures_are_retried() {
    assert!(
        should_retry_ncm(&SourceError::Network("boom".to_string()), 0),
        "a transport failure must be retried once"
    );
    assert!(
        !should_retry_ncm(&SourceError::Network("boom".to_string()), 1),
        "the retry must happen only once"
    );
    assert!(
        !should_retry_ncm(&SourceError::Unavailable("暂无播放源".to_string()), 0),
        "a song with no playable URL must fall back immediately"
    );
    assert!(
        !should_retry_ncm(&SourceError::Stream("decode".to_string()), 0),
        "a stream setup failure must fall back immediately"
    );
}

#[test]
fn cache_entry_is_recorded_only_after_completion() {
    let sent = AtomicBool::new(false);

    assert!(
        !should_record_cache(true, false, &sent),
        "mid-download must not write an index entry"
    );
    assert!(
        !should_record_cache(false, true, &sent),
        "save_on_play = false must not write an index entry"
    );
    assert!(
        should_record_cache(true, true, &sent),
        "a completed download must be recorded"
    );
    assert!(
        !should_record_cache(true, true, &sent),
        "a repeated completion callback must not record twice"
    );
}

#[test]
fn the_record_decision_needs_all_three_conditions() {
    assert!(records_cache(true, true, false));
    assert!(!records_cache(true, true, true));
    assert!(!records_cache(false, true, false));
    assert!(!records_cache(true, false, false));
}

#[test]
fn local_songs_prefer_the_path_over_the_album() {
    let mut song = test_song();

    song.local_path = Some("/music/local.flac".to_string());
    song.album = "An Album".to_string();
    assert_eq!(local_file_path(&song), "/music/local.flac");

    song.local_path = None;
    song.album = "/music/legacy.mp3".to_string();
    assert_eq!(local_file_path(&song), "/music/legacy.mp3");
}

#[test]
fn cloud_match_tolerates_upload_tags() {
    let song = test_song();
    let upload = |id: u64, name: &str, singer: &str, duration: u64| SongInfo {
        id,
        name: name.to_string(),
        singer: singer.to_string(),
        duration,
        ..test_song()
    };

    assert_eq!(
        pick_cloud_match(&song, &vec![upload(7, "Hello, World! (Remastered 2011)", "a/B", 0)]),
        Some(7),
        "spacing, case, a tag suffix and an unknown duration must still match"
    );
    assert_eq!(
        pick_cloud_match(&song, &vec![upload(7, "Hello, World!", "someone else", 0)]),
        None,
        "an upload of another artist must not be played as this song"
    );
    assert_eq!(
        pick_cloud_match(&song, &vec![upload(7, "Hello, World! Tonight", "A", 240_000)]),
        None,
        "a title that merely starts the same is a different song"
    );
    assert_eq!(
        pick_cloud_match(
            &song,
            &vec![upload(7, "Hello, World!", "A", 0), upload(9, "hello world", "A", 240_500)]
        ),
        Some(9),
        "with two uploads, the one whose duration fits the catalogue entry wins"
    );
    assert_eq!(
        pick_cloud_match(&song, &vec![upload(7, "Hello, World!", "A", 60_000)]),
        None,
        "a minute-long recording is not this song"
    );
}

#[test]
fn the_match_key_keeps_only_lowercase_letters_and_digits() {
    assert_eq!(cloud_match_key("Hello, World! (2011)"), "helloworld");
    assert_eq!(cloud_match_key("Track 2 [Live]"), "track2");
    assert_eq!(cloud_match_key("A/B"), "ab");
    assert_eq!(cloud_match_key(""), "");
}

#[test]
fn an_empty_cloud_disk_matches_nothing() {
    assert_eq!(pick_cloud_match(&test_song(), &Vec::new()), None);
}

fn is_ask(action: &ChainAction, source: Source) -> bool {
    matches!(action, ChainAction::Ask(s) if *s == source)
}

fn is_play(action: &ChainAction, source: Source) -> bool {
    matches!(action, ChainAction::Play(s) if *s == source)
}

#[test]
fn streaming_chain_consults_the_cloud_disk_last() {
    // (a) NCM streaming works: neither fallback is asked, least of all the cloud disk.
    let (mut chain, first) = StreamingChain::new(true);
    assert!(is_ask(&first, Source::Ncm));
    let action = chain.step(ChainEvent::Ncm(Ok(())));
    assert!(is_play(&action, Source::Ncm), "普通解析成功时不该访问云盘");

    // (b) NCM and the third-party sources fail, the cloud disk holds the song.
    let (mut chain, _) = StreamingChain::new(true);
    let action = chain.step(ChainEvent::Ncm(Err(SourceError::Unavailable(
        "该歌曲暂无播放源".to_string(),
    ))));
    assert!(is_ask(&action, Source::Sonar));
    let action = chain.step(ChainEvent::Sonar(Err(SourceError::Provider(
        "sonar 兜底失败".to_string(),
    ))));
    assert!(is_ask(&action, Source::Cloud));
    let action = chain.step(ChainEvent::Cloud(true));
    assert!(is_play(&action, Source::Cloud));

    // (c) the cloud disk cannot play it either: the third-party failure is reported...
    let (mut chain, _) = StreamingChain::new(true);
    chain.step(ChainEvent::Ncm(Err(SourceError::Unavailable("该歌曲暂无播放源".to_string()))));
    chain.step(ChainEvent::Sonar(Err(SourceError::Provider("sonar 兜底失败".to_string()))));
    let action = chain.step(ChainEvent::Cloud(false));
    assert!(
        matches!(&action, ChainAction::Fail(SourceError::Provider(m)) if m == "sonar 兜底失败"),
        "云盘未命中时必须返回兜底源的错误, got {action:?}"
    );

    // ... and NCM's failure when the third-party sources are disabled.
    let (mut chain, _) = StreamingChain::new(false);
    let action =
        chain.step(ChainEvent::Ncm(Err(SourceError::Unavailable("该歌曲暂无播放源".to_string()))));
    assert!(is_ask(&action, Source::Cloud));
    let action = chain.step(ChainEvent::Cloud(false));
    assert!(
        matches!(&action, ChainAction::Fail(SourceError::Unavailable(m)) if m == "该歌曲暂无播放源"),
        "云盘未命中时必须返回 NCM 的错误, got {action:?}"
    );

    // (d) a transport failure is retried once, and the cloud disk is asked after the retry.
    let (mut chain, _) = StreamingChain::new(false);
    let mut attempts = 1;
    let mut action = chain.step(ChainEvent::Ncm(Err(SourceError::Network("boom".to_string()))));
    while is_ask(&action, Source::Ncm) {
        attempts += 1;
        action = chain.step(ChainEvent::Ncm(Err(SourceError::Network("boom".to_string()))));
    }
    assert_eq!(attempts, 2, "网络错误只重试一次");
    assert!(is_ask(&action, Source::Cloud), "重试耗尽后仍要尝试云盘");
    let action = chain.step(ChainEvent::Cloud(false));
    assert!(
        matches!(&action, ChainAction::Fail(SourceError::Network(m)) if m == "boom"),
        "重试耗尽且云盘未命中时返回网络错误, got {action:?}"
    );
}

#[test]
fn a_network_error_says_so() {
    assert_eq!(SourceError::Network("boom".to_string()).message(), "网络错误: boom");
    assert_eq!(SourceError::Unavailable("暂无播放源".to_string()).message(), "暂无播放源");
}

#[test]
fn the_cache_is_asked_first_and_wins() {
    let (mut resolver, first) = Resolver::new(false, true);
    assert!(matches!(first, ResolveAction::Ask(ResolveStep::Cache)));
    let action = resolver.step(ResolveEvent::Cache(true));
    assert!(matches!(action, ResolveAction::Play(ResolveStep::Cache)));
}

#[test]
fn a_catalogue_song_tries_its_file_then_streams() {
    let (mut resolver, _) = Resolver::new(false, true);
    let action = resolver.step(ResolveEvent::Cache(false));
    assert!(matches!(action, ResolveAction::Ask(ResolveStep::Local)));
    let action = resolver.step(ResolveEvent::Local(false));
    assert!(matches!(action, ResolveAction::Ask(ResolveStep::Stream(Source::Ncm))));
    let action = resolver.step(ResolveEvent::Stream(ChainEvent::Ncm(Ok(()))));
    assert!(matches!(action, ResolveAction::Play(ResolveStep::Stream(Source::Ncm))));
}

#[test]
fn a_third_party_song_without_sonar_fails_with_a_provider_error() {
    let (mut resolver, _) = Resolver::new(true, false);
    let action = resolver.step(ResolveEvent::Cache(false));
    assert!(matches!(action, ResolveAction::Ask(ResolveStep::ByProvider)));
    let action = resolver.step(ResolveEvent::ByProvider(Err(SourceError::Provider("x".to_string()))));
    assert!(
        matches!(&action, ResolveAction::Fail(SourceError::Provider(m)) if m == "sonar 未启用，第三方音源无法解析")
    );
}

#[test]
fn a_third_party_song_falls_back_to_the_search() {
    let (mut resolver, _) = Resolver::new(true, true);
    resolver.step(ResolveEvent::Cache(false));
    let action = resolver.step(ResolveEvent::ByProvider(Err(SourceError::Provider("x".to_string()))));
    assert!(matches!(action, ResolveAction::Ask(ResolveStep::Providers)));
    let action = resolver.step(ResolveEvent::Providers(Err(SourceError::Provider("y".to_string()))));
    assert!(matches!(&action, ResolveAction::Fail(SourceError::Provider(m)) if m == "y"));
}

#[test]
fn the_extension_is_read_off_the_url_path() {
    assert_eq!(ext_from_url("http://m7.music.126.net/a/b/song.flac?x=1"), "flac");
    assert_eq!(ext_from_url("https://example.com/track.MP3"), "mp3");
    assert_eq!(ext_from_url("https://example.com/stream"), "mp3");
    assert_eq!(ext_from_url("not a url"), "mp3");
    assert_eq!(ext_from_url("https://example.com/flac"), "mp3", "a segment with no dot has no extension");
    assert_eq!(ext_from_url("https://example.com/music/ogg"), "mp3");
    assert_eq!(ext_from_url("https://example.com/a.b/wav"), "mp3");
    assert_eq!(ext_from_url("https://example.com/a.b/c.wav"), "wav");
}

#[test]
fn qualities_map_one_to_one() {
    assert!(matches!(to_sonar_quality(SongQuality::Standard), SonarQuality::Standard));
    assert!(matches!(to_sonar_quality(SongQuality::Lossless), SonarQuality::Lossless));
}

#[test]
fn find_song_index_matches_position() {
    let mut versions = VersionSource::new();
    let songs: Vec<Arc<SongInfo>> = vec![song(1), song(2), song(3), song(2)];
    let q = PlaylistQueue::from_songs(songs, 0, &mut versions);
    assert_eq!(q.find_song_index(2), Some(1));
    assert_eq!(q.find_song_index(3), Some(2));
    assert_eq!(q.find_song_index(9), None);
}

#[test]
fn index_stays_correct_after_append() {
    let mut versions = VersionSource::new();
    let mut q = PlaylistQueue::from_songs(vec![song(1), song(2)], 0, &mut versions);
    q.append(&[song(3)], &mut versions);
    assert_eq!(q.find_song_index(3), Some(2));
    assert_eq!(q.find_song_index(1), Some(0));
}

#[test]
fn index_stays_correct_after_insert_next() {
    let mut versions = VersionSource::new();
    let mut q = PlaylistQueue::from_songs(vec![song(1), song(2), song(3)], 1, &mut versions);
    let at = q.insert_next(vec![song(9)], &mut versions);
    assert_eq!(at, 2);
    assert_eq!(q.find_song_index(9), Some(2));
    assert_eq!(q.find_song_index(3), Some(3));
}

#[test]
fn from_parts_rebuilds_index() {
    let mut versions = VersionSource::new();
    let q = PlaylistQueue::from_parts(vec![song(7), song(8)], vec![7], Some(0), &mut versions);
    assert_eq!(q.find_song_index(8), Some(1));
    assert_eq!(q.history, vec![7]);
}

#[test]
fn a_replaced_queue_never_reuses_a_seen_version() {
    let mut versions = VersionSource::new();
    let previous = PlaylistQueue::from_songs(vec![song(1)], 0, &mut versions);
    let seen = previous.version();

    let switched = PlaylistQueue::from_songs(vec![song(2), song(3)], 0, &mut versions);
    assert_ne!(
        switched.version(),
        seen,
        "a queue loaded over another one must look changed to its consumers"
    );

    assert_ne!(PlaylistQueue::from_parts(vec![song(4)], vec![], None, &mut versions).version(), seen);
    assert_ne!(PlaylistQueue::new(&mut versions).version(), seen);
    assert_ne!(PlaylistQueue::new(&mut versions).version(), switched.version());
}

#[test]
fn every_mutation_advances_the_version() {
    let mut versions = VersionSource::new();
    let mut q = PlaylistQueue::from_songs(vec![song(1), song(2)], 0, &mut versions);
    let step = |q: &PlaylistQueue, seen: u64, what: &str| {
        assert!(q.version() > seen, "{what} left the version at {} (was {seen})", q.version());
        q.version()
    };
    let seen = q.version();
    q.append(&[song(3)], &mut versions);
    let seen = step(&q, seen, "append");
    q.insert_next(vec![song(4)], &mut versions);
    let seen = step(&q, seen, "insert_next");
    q.set_songs(vec![song(5)], &mut versions);
    let seen = step(&q, seen, "set_songs");
    q.advance_to(0, &mut versions);
    let seen = step(&q, seen, "advance_to");
    q.bump(&mut versions);
    step(&q, seen, "bump");
}

#[test]
fn advancing_records_the_song_that_was_playing() {
    let mut versions = VersionSource::new();
    let mut q = PlaylistQueue::from_songs(vec![song(1), song(2), song(3)], 0, &mut versions);
    q.advance_to(2, &mut versions);
    assert_eq!(q.current_index, Some(2));
    assert_eq!(q.history, vec![1]);
    q.advance_to(2, &mut versions);
    assert_eq!(q.history, vec![1], "staying on a song records nothing");
    assert_eq!(q.pop_history(), Some(1));
    assert_eq!(q.pop_history(), None);
}

#[test]
fn the_history_keeps_the_newest_two_hundred() {
    let mut versions = VersionSource::new();
    let songs: Vec<Arc<SongInfo>> = (0..201u64).map(song).collect();
    let mut q = PlaylistQueue::from_songs(songs, 0, &mut versions);
    for i in 1..=201usize {
        q.advance_to(i % 201, &mut versions);
    }
    assert_eq!(q.history.len(), 200);
    assert_eq!(q.history.last(), Some(&200));
    assert_eq!(q.history.first(), Some(&1));
}

#[test]
fn queue_basics() {
    let mut versions = VersionSource::new();
    let q = PlaylistQueue::new(&mut versions);
    assert!(q.is_empty());
    assert_eq!(q.len(), 0);
    assert!(q.current_song().is_none());
    let q = PlaylistQueue::from_songs(vec![song(5), song(6)], 1, &mut versions);
    assert_eq!(q.current_song().map(|s| s.id), Some(6));
}

#[test]
fn underruns_and_overruns_are_not_shown() {
    assert!(is_transient_error("alsa: buffer underrun occurred"));
    assert!(is_transient_error("stream overrun"));
    assert!(!is_transient_error("device lost"));
}

#[test]
fn playback_waits_for_a_head_start_but_not_forever() {
    assert_eq!(prebuffer_step(false, 0, 0), Prebuffer::Wait);
    assert_eq!(prebuffer_step(false, PREBUFFER_BYTES, 0), Prebuffer::Ready);
    assert_eq!(prebuffer_step(true, 0, 0), Prebuffer::Ready, "a finished download needs no head start");
    assert_eq!(prebuffer_step(false, 1024, 8_000), Prebuffer::TimedOut);
    assert_eq!(prebuffer_step(false, 1024, 7_999), Prebuffer::Wait);
}
