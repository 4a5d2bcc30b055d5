use kiro_accounts::text::{
    copy_field, field_is, filled_text, joined, nonempty_field, same_field, trimmed_field_is,
};

fn field(s: &str) -> Option<String> {
    Some(s.to_string())
}

#[test]
fn filled_field_is_trimmed() {
    assert_eq!(filled_text(&field(" a b\t")), Some("a b"));
    assert_eq!(filled_text(&field(" \n")), None);
    assert_eq!(filled_text(&field("")), None);
    assert_eq!(filled_text(&None), None);
}

#[test]
fn every_white_space_character_is_trimmed() {
    // Exactly the characters with the property White_Space.
    let mut count = 0;
    for c in '\0'..=char::MAX {
        let v = c as u32;
        let blank = (0x09..=0x0d).contains(&v)
            || v == 0x20
            || v == 0x85
            || v == 0xa0
            || v == 0x1680
            || (0x2000..=0x200a).contains(&v)
            || v == 0x2028
            || v == 0x2029
            || v == 0x202f
            || v == 0x205f
            || v == 0x3000;
        if blank {
            count += 1;
        }
        assert_eq!(filled_text(&Some(c.to_string())).is_none(), blank, "{v:x}");
    }
    assert_eq!(count, 25);
}

#[test]
fn fields_are_compared_by_their_text() {
    assert!(same_field(&field("a"), &field("a")));
    assert!(!same_field(&field("a"), &field("a ")));
    assert!(!same_field(&field(""), &None));
    assert!(same_field(&None, &None));
    assert!(field_is(&field("a"), "a"));
    assert!(!field_is(&field(" a"), "a"));
    assert!(!field_is(&None, ""));
    assert!(trimmed_field_is(&field(" a"), "a"));
    assert!(trimmed_field_is(&field("  "), ""));
    assert!(!trimmed_field_is(&None, ""));
}

#[test]
fn empty_field_says_nothing() {
    assert_eq!(nonempty_field(field("")), None);
    assert_eq!(nonempty_field(field(" ")), field(" "));
    assert_eq!(nonempty_field(None), None);
    assert_eq!(copy_field(&field("x")), field("x"));
    assert_eq!(joined("ab", "c"), "abc");
}
