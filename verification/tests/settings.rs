use boxpigma::settings::{change, index_of, settings, SettingKind};

fn row(ex: &str) -> boxpigma::settings::Setting {
    settings().into_iter().find(|s| s.ex == ex).expect("a row of the table")
}

#[test]
fn a_toggle_flips_its_value() {
    let mouse = row("mouse");
    assert_eq!(mouse.kind, SettingKind::Toggle);
    assert_eq!(change(&mouse, true, Some("on"), &vec![]), Ok(Some("mouse off".to_string())));
    assert_eq!(change(&mouse, false, Some("off"), &vec![]), Ok(Some("mouse on".to_string())));
    assert_eq!(change(&mouse, true, None, &vec![]), Ok(Some("mouse on".to_string())));
}

#[test]
fn a_cycle_only_runs_forwards() {
    let navpos = row("navpos");
    assert_eq!(change(&navpos, true, None, &vec![]), Ok(Some("navpos".to_string())));
    assert_eq!(change(&navpos, false, None, &vec![]), Ok(None));
}

#[test]
fn a_choice_steps_through_its_options_and_wraps() {
    let theme = row("theme");
    let options = vec!["a".to_string(), "b".to_string(), "c".to_string()];
    assert_eq!(change(&theme, true, Some("c"), &options), Ok(Some("theme a".to_string())));
    assert_eq!(change(&theme, false, Some("a"), &options), Ok(Some("theme c".to_string())));
    assert_eq!(change(&theme, true, Some("a"), &options), Ok(Some("theme b".to_string())));
    assert_eq!(
        change(&theme, false, Some("hand-written"), &options),
        Ok(Some("theme a".to_string())),
        "a value that matches no option lands on the first"
    );
}

#[test]
fn a_choice_without_options_says_so() {
    let theme = row("theme");
    assert_eq!(change(&theme, true, Some("x"), &vec![]), Err("`theme` 没有可选的取值".to_string()));
}

#[test]
fn a_row_is_found_where_the_table_lists_it() {
    let table = settings();
    for (i, s) in table.iter().enumerate() {
        assert_eq!(index_of(s), i);
    }
}

/// The argument a step's command line sets the row to.
fn stepped(line: Option<String>, ex: &str) -> String {
    line.expect("a step runs a command").strip_prefix(&format!("{ex} ")).expect("the row's own command").to_string()
}

#[test]
fn a_step_forward_then_back_returns_every_row() {
    let options: Vec<String> = vec!["a".into(), "b".into(), "c".into()];
    for setting in settings() {
        match setting.kind {
            SettingKind::Cycle => {
                assert_eq!(change(&setting, false, Some("x"), &options), Ok(None));
            }
            SettingKind::Toggle => {
                for v0 in ["on", "off"] {
                    let v1 = stepped(change(&setting, true, Some(v0), &options).unwrap(), setting.ex);
                    assert_ne!(v1, v0);
                    let back = stepped(change(&setting, false, Some(&v1), &options).unwrap(), setting.ex);
                    assert_eq!(back, v0);
                }
            }
            SettingKind::Choice => {
                for v0 in &options {
                    let v1 = stepped(change(&setting, true, Some(v0), &options).unwrap(), setting.ex);
                    assert_ne!(&v1, v0);
                    let back = stepped(change(&setting, false, Some(&v1), &options).unwrap(), setting.ex);
                    assert_eq!(&back, v0);
                }
            }
        }
    }
}
