use boxpigma::command::{command_names, commands, palette_items, CommandItem, CommandPanel, PanelAction};
use boxpigma::login::{LoginField, LoginMethod, LoginState};
use boxpigma::notices::{Level, Notices, KEEP as NOTICES_KEEP};
use boxpigma::page::{help_items, Page};
use boxpigma::pagination::PaginationInfo;
use boxpigma::popup::PopupState;
use boxpigma::prompt::PromptState;
use boxpigma::settings::{groups, rows_in, settings, SettingsState};
use boxpigma::tasks::{TaskState, Tasks, KEEP as TASKS_KEEP};
use boxpigma::title::render_title;

#[test]
fn next_offset_advances_past_current_page() {
    let pagination = PaginationInfo {
        offset: 60,
        limit: 60,
        ..PaginationInfo::default()
    };

    assert_eq!(pagination.next_offset(), 120);
}

#[test]
fn next_offset_saturates() {
    let pagination = PaginationInfo {
        offset: u32::MAX - 5,
        limit: 60,
        ..PaginationInfo::default()
    };

    assert_eq!(pagination.next_offset(), u32::MAX);
}

#[test]
fn names_are_unique_and_run_themselves() {
    let mut names = command_names();
    let count = names.len();
    names.sort_unstable();
    names.dedup();
    assert_eq!(names.len(), count, "two commands share a name");

    for command in commands() {
        assert!(
            command.ex == command.name || command.ex.starts_with(&format!("{} ", command.name)),
            "{} runs {:?}",
            command.name,
            command.ex
        );
    }
}

#[test]
fn advertised_keys_are_free_of_colons() {
    for command in commands() {
        if let Some(key) = command.key {
            assert!(!key.contains(':'), "{}: {key}", command.name);
        }
    }
}

#[test]
fn every_palette_entry_lands_in_the_section_it_names() {
    let items = palette_items();

    let mut listed: Vec<&str> = Vec::new();
    let mut sections: Vec<(&str, Vec<&str>)> = Vec::new();
    for item in &items {
        match item {
            CommandItem::Action { name, .. } => listed.push(name),
            CommandItem::SubMenu { name, children } => sections.push((
                name,
                children
                    .iter()
                    .filter_map(|child| match child {
                        CommandItem::Action { name, .. } => Some(name.as_str()),
                        CommandItem::SubMenu { .. } => None,
                    })
                    .collect(),
            )),
        }
    }

    for command in commands()
        .iter()
        .filter(|command| command.in_palette && command.name != "theme")
    {
        let root = listed.iter().filter(|name| **name == command.ex).count();
        let filed: Vec<&str> = sections
            .iter()
            .filter(|(_, children)| children.contains(&command.ex))
            .map(|(name, _)| *name)
            .collect();

        match command.group {
            None => {
                assert_eq!(root, 1, "{} is not in the root list once", command.ex);
                assert!(
                    filed.is_empty(),
                    "{} names no section but is filed under {filed:?}",
                    command.ex
                );
            }
            Some(group) => {
                assert_eq!(root, 0, "{} belongs in {group}, not the root list", command.ex);
                assert_eq!(filed, vec![group], "{} should be under {group} once", command.ex);
            }
        }
    }
}

#[test]
fn a_section_title_is_the_section_name() {
    let mut panel = CommandPanel::with_root("COMMANDS", palette_items());
    assert_eq!(panel.current_title(), "\u{25BA} COMMANDS \u{25C4}");

    let index = panel
        .current_items()
        .expect("root")
        .iter()
        .position(|item| matches!(item, CommandItem::SubMenu { name, .. } if name == "通知"))
        .expect("the notify section");
    panel.selected = index;
    assert_eq!(panel.enter(), None, "a submenu opens, it does not run");
    assert_eq!(panel.current_title(), "\u{25BA} 通知 \u{25C4}");

    panel.back();
    assert_eq!(panel.current_title(), "\u{25BA} COMMANDS \u{25C4}");
}

#[test]
fn enter_runs_a_command_and_prefills_one_that_needs_an_argument() {
    let mut panel = CommandPanel::with_root("COMMANDS", palette_items());
    let items = panel.current_items().expect("root");
    let help = items
        .iter()
        .position(|item| matches!(item, CommandItem::Action { ex, .. } if ex == "help"))
        .expect("help");
    let volume = items
        .iter()
        .position(|item| matches!(item, CommandItem::Action { ex, .. } if ex == "volume"))
        .expect("volume");
    panel.selected = help;
    assert_eq!(panel.enter(), Some(PanelAction::Run("help".to_string())));
    panel.selected = volume;
    assert_eq!(panel.enter(), Some(PanelAction::Prefill("volume ".to_string())));
    // At the root, Esc closes the palette instead of leaving a level.
    panel.open = true;
    panel.back();
    assert!(!panel.open);
    assert_eq!(CommandPanel::new().enter(), None, "an empty panel runs nothing");
}

#[test]
fn the_tab_strip_wraps_in_both_directions() {
    let mut state = LoginState::default();
    for _ in 0..LoginMethod::ALL.len() {
        state.select_method(1);
    }
    assert_eq!(state.method, LoginMethod::Qr, "转一圈应回到起点");
    state.select_method(-1);
    assert_eq!(state.method, LoginMethod::Sign, "反向应回到最后一个");
}

#[test]
fn the_commands_prefill_the_form_they_open() {
    let mut state = LoginState::default();
    state.open_password("someone@example.com", "hunter2");
    assert_eq!(state.method, LoginMethod::Password);
    assert_eq!(state.value(LoginField::Account), "someone@example.com");
    assert_eq!(state.value(LoginField::Password), "hunter2");

    let mut state = LoginState::default();
    state.open_sms("13800000000");
    assert_eq!(state.method, LoginMethod::Sms);
    assert_eq!(state.value(LoginField::Phone), "13800000000");

    let mut state = LoginState::default();
    state.open_sms_login("13800000000", "246810");
    assert_eq!(state.method, LoginMethod::Sms);
    assert_eq!(state.value(LoginField::Phone), "13800000000");
    assert_eq!(state.value(LoginField::Code), "246810");
}

#[test]
fn only_the_password_is_masked() {
    assert!(LoginField::Password.masked());
    assert!(!LoginField::Account.masked());
}

#[test]
fn the_caret_walks_the_form_and_wraps() {
    let mut state = LoginState::default();
    state.open(LoginMethod::Sms);
    assert_eq!(state.focus, LoginField::Phone);
    state.focus_field(1);
    assert_eq!(state.focus, LoginField::Code);
    state.focus_field(1);
    assert_eq!(state.focus, LoginField::Phone, "past the last box is the first");
    state.focus_field(-1);
    assert_eq!(state.focus, LoginField::Code, "before the first box is the last");
    assert!(state.focused_input_mut().is_some());

    state.open(LoginMethod::Qr);
    state.focus_field(1);
    assert_eq!(state.focus, LoginField::Account, "a method without a form has nothing to walk");
    assert!(state.focused_input_mut().is_none());
    assert_eq!(LoginMethod::Sign.shift(isize::MIN), LoginMethod::Sign);
    assert_eq!(LoginMethod::Qr.shift(isize::MAX), LoginMethod::Sign);
}

#[test]
fn the_toast_is_the_newest_notice_while_it_lasts() {
    let mut notices = Notices::default();
    let start = notices.clock_ms();

    notices.push(Level::Info, "first");
    assert_eq!(notices.latest(start).map(|n| n.text.as_str()), Some("first"));

    notices.push(Level::Error, "second");
    assert_eq!(
        notices.latest(start).map(|n| n.text.as_str()),
        Some("second"),
        "the newest replaces the one before it"
    );

    let later = start + Level::Error.linger() + 1;
    assert!(notices.latest(later).is_none(), "and it fades");
}

#[test]
fn an_error_lingers_longer_than_a_confirmation() {
    assert!(Level::Error.linger() > Level::Info.linger());
}

#[test]
fn the_history_keeps_the_newest_and_drops_the_oldest() {
    let mut notices = Notices::default();

    for i in 0..NOTICES_KEEP + 10 {
        notices.push(Level::Info, &format!("notice {i}"));
    }

    let kept: Vec<&str> = notices.all().map(|n| n.text.as_str()).collect();
    assert_eq!(kept.len(), NOTICES_KEEP);
    assert_eq!(kept.first(), Some(&"notice 10"));
    assert_eq!(kept.last(), Some(&format!("notice {}", NOTICES_KEEP + 9).as_str()));
    notices.clear();
    assert!(notices.is_empty());
}

#[test]
fn a_notice_lasts_as_long_as_its_level() {
    let mut notices = Notices::default();
    notices.push_at(Level::Warn, "careful", 1_000);
    assert!(notices.latest(1_000 + 4_999).is_some());
    assert!(notices.latest(1_000 + 5_000).is_none());
    // A clock that reads earlier than the notice is no time at all.
    assert!(notices.latest(0).is_some());
}

#[test]
fn every_page_key_is_bound_once() {
    let keys: Vec<char> = Page::ALL
        .iter()
        .filter_map(|page| page.page_spec().key)
        .collect();
    for (i, key) in keys.iter().enumerate() {
        let later = &keys[i + 1..];
        assert!(later.iter().all(|other| other != key), "{key} opens more than one page");
        let page = Page::opened_by(*key).expect("the key names a page");
        assert_eq!(Page::Main.on_key(*key), Some(page));
        assert_eq!(page.on_key(*key), Some(Page::Main));
    }
    assert_eq!(Page::Splash.on_key('l'), Some(Page::Splash), "the splash ignores keys");
    assert_eq!(Page::Main.on_key('x'), None);
}

#[test]
fn every_page_key_is_documented() {
    let items = help_items();
    for page in Page::ALL {
        let spec = page.page_spec();
        let Some(key) = spec.key else {
            continue;
        };
        assert!(
            items.contains(&(key.to_string(), spec.name)),
            "{} ({key}) is missing from the key map",
            spec.name
        );
    }
}

#[test]
fn opening_starts_at_the_top_and_scrolling_stops_at_the_bottom() {
    let mut popup = PopupState {
        scroll: 5,
        ..PopupState::default()
    };
    popup.open();
    assert!(popup.open);
    assert_eq!(popup.scroll, 0);

    popup.max_scroll = 3;
    for _ in 0..10 {
        popup.scroll_down();
    }
    assert_eq!(popup.scroll, 3);
    popup.scroll_up();
    assert_eq!(popup.scroll, 2);

    popup.scroll_bottom();
    assert_eq!(popup.scroll, 3);
    popup.scroll_top();
    assert_eq!(popup.scroll, 0);
    popup.scroll_up();
    assert_eq!(popup.scroll, 0, "there is nothing above the first line");

    popup.toggle();
    assert!(!popup.open);
    popup.toggle();
    assert!(popup.open);
}

#[test]
fn history_walks_back_and_forth_to_the_draft() {
    let mut prompt = PromptState::default();
    prompt.remember("signin someone@example.com hunter2");
    prompt.remember("volume +5");
    prompt.remember("volume +5");
    assert_eq!(prompt.history, ["signin someone@example.com hunter2", "volume +5"]);

    prompt.recall_previous();
    assert_eq!(prompt.input.value, "volume +5");
    prompt.recall_previous();
    assert_eq!(prompt.input.value, "signin someone@example.com hunter2");
    prompt.recall_previous();
    assert_eq!(prompt.input.value, "signin someone@example.com hunter2", "oldest");

    prompt.recall_next();
    assert_eq!(prompt.input.value, "volume +5");
    prompt.recall_next();
    assert_eq!(prompt.input.value, "", "past the newest is a fresh line");
    assert_eq!(prompt.history_index, None);

    prompt.recall_previous();
    assert_eq!(prompt.input.value, "volume +5");
    prompt.leave_history();
    assert_eq!(prompt.history_index, None);
}

#[test]
fn an_empty_history_recalls_nothing() {
    let mut prompt = PromptState::default();
    prompt.recall_previous();
    prompt.recall_next();
    assert_eq!(prompt.input.value, "");
    assert!(prompt.history.is_empty());
}

#[test]
fn a_recalled_line_puts_the_caret_at_its_end() {
    let mut prompt = PromptState::default();
    prompt.remember("seek 50%");
    prompt.remember("");
    assert_eq!(prompt.history.len(), 1, "an empty line is not history");
    prompt.recall_previous();
    assert_eq!(prompt.input.cursor(), "seek 50%".chars().count());
}

#[test]
fn a_task_runs_until_it_is_finished() {
    let mut tasks = Tasks::default();
    let first = tasks.begin("加载 每日推荐");
    assert_eq!(tasks.running(), 1);

    let second = tasks.begin("加载 我喜欢的音乐");
    assert_eq!(tasks.running(), 2);

    tasks.finish(first, TaskState::Done);
    assert_eq!(tasks.running(), 1);
    assert_eq!(tasks.all().next().map(|task| task.state), Some(TaskState::Done));

    tasks.finish(second, TaskState::Failed);
    assert_eq!(tasks.running(), 0);
}

#[test]
fn finishing_what_is_in_flight_leaves_the_history_alone() {
    let mut tasks = Tasks::default();
    let first = tasks.begin("first");
    tasks.finish(first, TaskState::Failed);
    tasks.begin("second");
    tasks.begin("third");

    tasks.finish_running(TaskState::Done);

    let states: Vec<TaskState> = tasks.all().map(|task| task.state).collect();
    assert_eq!(
        states,
        vec![TaskState::Failed, TaskState::Done, TaskState::Done],
        "the failure is still a failure"
    );
}

#[test]
fn the_list_is_capped_and_a_dropped_task_is_ignored() {
    let mut tasks = Tasks::default();
    let oldest = tasks.begin("oldest");
    for i in 0..TASKS_KEEP {
        tasks.begin(&format!("task {i}"));
    }

    assert_eq!(tasks.all().count(), TASKS_KEEP);
    assert_eq!(
        tasks.all().next().map(|task| task.label.as_str()),
        Some("task 0"),
        "the oldest was dropped"
    );

    tasks.finish(oldest, TaskState::Done);
    assert_eq!(tasks.running(), TASKS_KEEP, "a dropped task's handle does not name another task");

    tasks.clear_finished();
    assert_eq!(tasks.running(), TASKS_KEEP, "nothing that is running was cleared");
}

#[test]
fn clearing_finished_tasks_keeps_only_the_running_ones() {
    let mut tasks = Tasks::default();
    let a = tasks.begin("a");
    tasks.begin("b");
    let c = tasks.begin("c");
    tasks.finish(a, TaskState::Done);
    tasks.finish(c, TaskState::Failed);
    tasks.clear_finished();
    let labels: Vec<&str> = tasks.all().map(|task| task.label.as_str()).collect();
    assert_eq!(labels, ["b"]);
    assert!(!tasks.is_empty());
}

#[test]
fn every_row_is_reachable() {
    let mut state = SettingsState::default();
    let mut seen = vec![state.selected];
    for _ in 1..settings().len() {
        state.move_by(1);
        seen.push(state.selected);
    }

    seen.sort_unstable();
    seen.dedup();
    assert_eq!(seen.len(), settings().len());
    state.move_by(1);
    assert_eq!(state.selected, 0, "the cursor wraps");

    for setting in settings() {
        assert!(!setting.group.is_empty(), "{}", setting.label);
        assert!(!setting.label.is_empty());
    }
}

#[test]
fn the_sections_come_in_table_order_each_once() {
    assert_eq!(groups(), ["外观", "歌词", "播放条", "通知", "缓存"]);
    let rows: Vec<usize> = rows_in("歌词").iter().map(|(index, _)| *index).collect();
    assert_eq!(rows, [4, 5, 6]);
    assert!(rows_in("nowhere").is_empty());
}

#[test]
fn title_with_count_suffix() {
    assert_eq!(render_title("每日推荐 ({count})", "每日推荐", 12, 0), "每日推荐 (12)");
}

#[test]
fn title_name_then_count() {
    assert_eq!(render_title("{name} ({count})", "歌单", 3, 0), "歌单 (3)");
}

#[test]
fn title_no_placeholder() {
    assert_eq!(render_title("SONGS", "x", 0, 0), "SONGS");
}

#[test]
fn title_adjacent_placeholders() {
    assert_eq!(render_title("{name}{count}", "A", 5, 0), "A5");
}

#[test]
fn title_total_placeholder() {
    assert_eq!(render_title("{name} ({count}/{total})", "云盘", 50, 137), "云盘 (50/137)");
}
