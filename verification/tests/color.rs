use canvas_demo::color::format_color;
use canvas_demo::color::get_hex_color;

fn is_valid_color(s: &str) -> bool {
    s.len() == 7 && s.starts_with('#') && s.chars().skip(1).all(|c| {
        ('0'..='9').contains(&c) || ('a'..='f').contains(&c)
    })
}

#[test]
fn format_color_exact() {
    assert_eq!(format_color(171, 0, 254), "#ab00fe");
    assert_eq!(format_color(0, 0, 0), "#000000");
    assert_eq!(format_color(16, 1, 160), "#1001a0");
    assert_eq!(format_color(255, 255, 255), "#ffffff");
}

#[test]
fn random_color_is_well_formed() {
    let s = get_hex_color();
    assert!(is_valid_color(&s));
    // A byte below 255 never formats as "ff".
    assert_ne!(&s[1..3], "ff");
    assert_ne!(&s[3..5], "ff");
    assert_ne!(&s[5..7], "ff");
}

#[test]
fn color_generator_is_stateless() {
    let first = get_hex_color();
    let second = get_hex_color();
    assert!(is_valid_color(&first));
    assert!(is_valid_color(&second));
    assert_eq!(first.len(), 7);
    assert_eq!(second.len(), 7);
}
