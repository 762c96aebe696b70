use std::sync::Arc;

use boxpigma::nav::{NavItem, NavSection, NavState};
use boxpigma::navigation::NavigationState;

fn item(name: &str, api: Option<&str>) -> NavItem {
    NavItem { name: name.to_string(), api: api.map(str::to_string) }
}

fn sidebar() -> NavState {
    let sections = vec![
        NavSection { name: "发现".to_string(), items: vec![item("推荐", Some("recommend")), item("排行", Some("toplist"))] },
        NavSection { name: "我的".to_string(), items: vec![item("喜欢", Some("liked")), item("历史", None)] },
    ];
    NavState::from_config(sections, Vec::new())
}

fn screen(content: Vec<u32>) -> NavigationState<Vec<u32>, u8, (usize, usize)> {
    NavigationState {
        nav: sidebar(),
        content: Arc::new(content),
        history: Vec::new(),
        content_selected: 0,
        content_column_selected: 0,
        table_mode: 0,
        table_state: (0, 0),
        pagination: None,
    }
}

#[test]
fn going_back_brings_the_saved_view_back() {
    let mut state = screen(vec![1, 2, 3]);
    state.nav.focus_section = 1;
    state.nav.selected[1] = Some(0);
    state.nav.subtitle = Some("喜欢".to_string());
    state.content_selected = 2;
    state.content_column_selected = 1;
    state.table_mode = 1;
    state.table_state = (2, 1);

    state.push_breadcrumb();
    assert_eq!(state.history.len(), 1);
    assert_eq!(state.history[0].api.as_deref(), Some("liked"));

    // Another view replaces the screen.
    state.content = Arc::new(vec![9]);
    state.content_selected = 0;
    state.content_column_selected = 0;
    state.table_mode = 0;
    state.table_state = (0, 0);
    state.nav.subtitle = Some("歌单".to_string());
    state.nav.focus_section = 0;
    state.nav.selected[0] = Some(1);

    assert!(state.pop_breadcrumb());
    assert!(state.history.is_empty());
    assert_eq!(*state.content, vec![1, 2, 3]);
    assert_eq!(state.content_selected, 2);
    assert_eq!(state.content_column_selected, 1);
    assert_eq!(state.table_mode, 1);
    assert_eq!(state.table_state, (2, 1));
    assert_eq!(state.nav.subtitle.as_deref(), Some("喜欢"));
    assert_eq!(state.nav.focus_section, 1, "the focus returns to the item the view came from");
    assert_eq!(state.nav.selected[1], Some(0));
}

#[test]
fn going_back_with_nothing_saved_changes_nothing() {
    let mut state = screen(vec![5]);
    state.content_selected = 0;
    assert!(!state.pop_breadcrumb());
    assert_eq!(*state.content, vec![5]);
    assert_eq!(state.nav.focus_section, 0);
}

#[test]
fn views_come_back_last_saved_first() {
    let mut state = screen(vec![1]);
    state.push_breadcrumb();
    state.content = Arc::new(vec![2]);
    state.push_breadcrumb();
    state.content = Arc::new(vec![3]);
    assert!(state.pop_breadcrumb());
    assert_eq!(*state.content, vec![2]);
    assert!(state.pop_breadcrumb());
    assert_eq!(*state.content, vec![1]);
    assert!(!state.pop_breadcrumb());
}

#[test]
fn an_item_that_opens_no_view_leaves_the_focus_where_it_is() {
    let mut state = screen(vec![1]);
    state.nav.focus_section = 1;
    state.nav.selected[1] = Some(1);
    state.push_breadcrumb();
    assert_eq!(state.history[0].api, None);
    state.nav.focus_section = 0;
    assert!(state.pop_breadcrumb());
    assert_eq!(state.nav.focus_section, 0);
}

#[test]
fn clearing_forgets_every_saved_view() {
    let mut state = screen(vec![1]);
    state.push_breadcrumb();
    state.push_breadcrumb();
    state.clear_breadcrumb();
    assert!(state.history.is_empty());
    assert!(!state.pop_breadcrumb());
    assert_eq!(*state.content, vec![1]);
}
