use boxpigma::markup::{parse_markup, Markup};

fn text(m: &Markup) -> Option<&str> {
    match m {
        Markup::Text(t) => Some(t.as_str()),
        _ => None,
    }
}

#[test]
fn tagless_text_is_one_plain_piece() {
    let pieces = parse_markup("本地音乐");
    assert_eq!(pieces.len(), 1);
    assert_eq!(text(&pieces[0]), Some("本地音乐"));
}

#[test]
fn tags_open_and_close_around_text() {
    let pieces = parse_markup(" <accent> ► <b>AUTHENTICATION REQUIRED</b></accent>");
    assert_eq!(pieces.len(), 7);
    assert_eq!(text(&pieces[0]), Some(" "));
    assert!(matches!(&pieces[1], Markup::Open(t) if t == "accent"));
    assert_eq!(text(&pieces[2]), Some(" ► "));
    assert!(matches!(&pieces[3], Markup::Open(t) if t == "b"));
    assert_eq!(text(&pieces[4]), Some("AUTHENTICATION REQUIRED"));
    assert!(matches!(pieces[5], Markup::Close));
    assert!(matches!(pieces[6], Markup::Close));
}

#[test]
fn a_gradient_is_one_run_with_its_preset() {
    let pieces = parse_markup("hello <gradient:turbo>world</gradient>!");
    assert_eq!(pieces.len(), 3);
    assert_eq!(text(&pieces[0]), Some("hello "));
    assert!(
        matches!(&pieces[1], Markup::Gradient { preset, text } if preset == "turbo" && text == "world")
    );
    assert_eq!(text(&pieces[2]), Some("!"));

    let pieces = parse_markup("<grad:warm>X</grad>");
    assert_eq!(pieces.len(), 1);
    assert!(matches!(&pieces[0], Markup::Gradient { preset, text } if preset == "warm" && text == "X"));
}

#[test]
fn an_unclosed_gradient_drops_the_rest() {
    let pieces = parse_markup("prefix <gradient:turbo>unclosed");
    assert_eq!(pieces.len(), 1);
    assert_eq!(text(&pieces[0]), Some("prefix "));
}

#[test]
fn a_gradient_inside_a_tag_keeps_the_tag() {
    let pieces = parse_markup("<b><gradient:warm>hi</gradient></b>");
    assert_eq!(pieces.len(), 3);
    assert!(matches!(&pieces[0], Markup::Open(t) if t == "b"));
    assert!(matches!(&pieces[1], Markup::Gradient { text, .. } if text == "hi"));
    assert!(matches!(pieces[2], Markup::Close));
}

#[test]
fn a_lone_angle_bracket_is_text() {
    let pieces = parse_markup("a < b");
    assert_eq!(pieces.len(), 3);
    assert_eq!(text(&pieces[0]), Some("a "));
    assert_eq!(text(&pieces[1]), Some("<"));
    assert_eq!(text(&pieces[2]), Some(" b"));
}

#[test]
fn an_empty_string_has_no_pieces() {
    assert!(parse_markup("").is_empty());
}
