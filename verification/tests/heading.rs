use boxpigma::pagination::PaginationInfo;
use boxpigma::title::content_heading;

fn paged(total: u64) -> PaginationInfo {
    PaginationInfo { total, ..PaginationInfo::default() }
}

#[test]
fn paged_content_shows_count_and_total() {
    assert_eq!(content_heading(Some("云盘"), None, Some(&paged(137)), 50), "► 云盘 (50/137) ◄");
}

#[test]
fn unpaged_content_shows_only_the_count() {
    assert_eq!(content_heading(Some("歌单"), None, None, 3), "► 歌单 (3) ◄");
    assert_eq!(
        content_heading(Some("歌单"), None, Some(&paged(0)), 3),
        "► 歌单 (3) ◄",
        "an unknown total is no total"
    );
}

#[test]
fn no_selected_item_is_songs_and_an_item_template_wins() {
    assert_eq!(content_heading(None, None, None, 0), "► SONGS (0) ◄");
    assert_eq!(content_heading(Some("每日推荐"), Some("{name}"), None, 12), "每日推荐");
}
