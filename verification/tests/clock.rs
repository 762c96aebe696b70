use boxpigma::notices::{Level, Notices};

#[test]
fn a_notice_just_raised_is_on_the_toast() {
    let mut notices = Notices::default();
    notices.push(Level::Info, "已保存");
    let now = notices.clock_ms();
    let shown = notices.latest(now).expect("a fresh notice is shown");
    assert_eq!(shown.text, "已保存");
    assert!(shown.at <= now, "the list's clock does not run backwards");
}

#[test]
fn a_notice_is_gone_once_its_time_on_the_list_clock_has_passed() {
    let mut notices = Notices::default();
    notices.push(Level::Info, "已保存");
    let at = notices.latest(notices.clock_ms()).unwrap().at;
    assert!(notices.latest(at + 3000).is_none());
    assert!(notices.latest(at + 2999).is_some());
}
