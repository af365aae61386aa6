use rig_libsql::text::{
    blank, chars_of, decimal_text, has_char, has_text, join, same_text, signed_decimal_text,
    upper_chars, white_space,
};

#[test]
fn numbers_are_written_in_decimal() {
    for n in vec![0, 9, 10, 99, 100, 4294967296, u64::MAX] {
        assert_eq!(decimal_text(n), format!("{}", n));
    }
    for i in vec![0, -1, 10, -10, i64::MAX, i64::MIN] {
        assert_eq!(signed_decimal_text(i), format!("{}", i));
    }
}

#[test]
fn white_space_is_that_of_unicode() {
    for code in 0..=0x10ffff {
        if let Some(c) = char::from_u32(code) {
            assert_eq!(white_space(c), c.is_whitespace(), "{:?}", c);
        }
    }
}

#[test]
fn upper_case_is_that_of_ascii() {
    let text = "aZ_09zé ß";
    let upper: String = upper_chars(text).into_iter().collect();
    assert_eq!(upper, text.to_ascii_uppercase());
}

#[test]
fn texts_are_searched() {
    assert_eq!(chars_of("aé"), vec!['a', 'é']);
    assert!(same_text("id", "id"));
    assert!(!same_text("id", "ID"));
    assert!(!same_text("id", "i"));
    assert!(has_char("a.b", '.'));
    assert!(!has_char("ab", '.'));
    assert!(has_text(&chars_of("POINT"), "INT"));
    assert!(has_text(&chars_of("INT"), ""));
    assert!(!has_text(&chars_of("IN"), "INT"));
    assert!(blank(&chars_of(" \u{a0}\n")));
    assert!(blank(&Vec::new()));
    assert!(!blank(&chars_of(" x ")));
}

#[test]
fn texts_are_joined() {
    let parts = vec!["a".to_string(), String::new(), "b".to_string()];
    assert_eq!(join(&parts, ", "), "a, , b");
    assert_eq!(join(&vec!["a".to_string()], ", "), "a");
    assert_eq!(join(&Vec::new(), ", "), "");
}
