use boxpigma::cells::{masked_text, scroll_text};
use boxpigma::login::{action_label, footer_hint, form_rows, loading_label, LoginField, LoginMethod};
use boxpigma::text_input::TextInput;

#[test]
fn scroll_text_wraps_and_clips_by_cells() {
    assert_eq!(scroll_text("A4  440Hz", 0, 4), "A4  ");
    assert_eq!(scroll_text("A4  440Hz", 2, 4), "  44");
    assert_eq!(scroll_text("A4  440Hz", 9, 4), "A4  ", "wraps to the start");
    assert_eq!(scroll_text("abc", 2, 6), "cabcab");
    assert_eq!(scroll_text("ab", 0, 5), "ababa", "repeats to fill the width");
}

#[test]
fn scroll_text_never_splits_a_wide_glyph() {
    assert_eq!(scroll_text("中ab", 0, 2), "中");
    assert_eq!(scroll_text("中ab", 1, 2), "ab");
    assert_eq!(scroll_text("中ab", 1, 1), "a");
}

#[test]
fn scroll_text_handles_degenerate_input() {
    assert_eq!(scroll_text("", 3, 4), "");
    assert_eq!(scroll_text("abc", 3, 0), "");
}

fn input(value: &str) -> TextInput {
    TextInput { value: value.to_string(), cursor: value.chars().count() }
}

#[test]
fn a_masked_value_never_reaches_the_screen() {
    assert_eq!(masked_text(&input("hunter2"), true, 20), "•••••••");
    assert_eq!(masked_text(&input("hunter2"), false, 20), "hunter2");
}

#[test]
fn a_value_is_clipped_to_its_box_by_cells() {
    assert_eq!(masked_text(&input("someone@example.com"), false, 7), "someone");
    assert_eq!(masked_text(&input("手机号码"), false, 5), "手机");
    assert_eq!(masked_text(&input("abc"), false, 0), "");
}

#[test]
fn the_button_says_what_enter_does() {
    assert_eq!(action_label(LoginMethod::Qr, LoginField::Account), "► GENERATE QR CODE");
    assert_eq!(action_label(LoginMethod::Sms, LoginField::Phone), "► SEND CODE");
    assert_eq!(action_label(LoginMethod::Sms, LoginField::Code), "► LOGIN");
    assert_eq!(loading_label(LoginMethod::Sms, LoginField::Phone), " ◌ SENDING CODE ...");
    assert_eq!(loading_label(LoginMethod::Sign, LoginField::Account), " ◌ CHECKING IN ...");
    assert_eq!(footer_hint(LoginMethod::Qr, LoginField::Account), "ENTER 生成二维码 · ESC 返回");
}

#[test]
fn the_form_rows_are_the_methods_fields() {
    assert_eq!(
        form_rows(LoginMethod::Password),
        vec![("账号", LoginField::Account), ("密码", LoginField::Password)]
    );
    assert_eq!(form_rows(LoginMethod::Sms)[1], ("验证码", LoginField::Code));
    assert!(form_rows(LoginMethod::Qr).is_empty());
    assert!(form_rows(LoginMethod::Sign).is_empty());
}
