use kuberic::text::{clip, decimal_text};

#[test]
fn numbers_are_written_in_decimal() {
    for number in [0, 7, 10, 99, 100, -1, -10, i64::MAX, i64::MIN] {
        assert_eq!(decimal_text(number), number.to_string());
    }
}

#[test]
fn clipping_never_splits_a_character() {
    let text = "a\u{e9}\u{20ac}\u{1f980}z".to_string();
    for limit in 0..=text.len() + 1 {
        let part = clip(&text, limit);
        assert!(text.starts_with(&part));
        assert!(part.len() <= limit);
        if part.len() < text.len() {
            let next = text[part.len()..].chars().next().unwrap();
            assert!(part.len() + next.len_utf8() > limit);
        }
    }
    assert_eq!(clip(&text, 3), "a\u{e9}");
    assert_eq!(clip(&text, 9), "a\u{e9}\u{20ac}");
    assert_eq!(clip(&text, 100), text);
}
