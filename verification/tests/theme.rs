use dioxico::{new_id, use_theme, Theme};
use std::rc::Rc;

#[test]
fn default_theme_holds_the_default_constants() {
    let theme = Theme::default();
    assert_eq!(theme.styles.padding_medium.to_string(), "8px");
    assert_eq!(theme.styles.error_size_medium.to_string(), "1em");
    assert_eq!(theme.styles.error_color.to_string(), "#cf0000");
    assert_eq!(theme.styles.form_padding().to_string(), "8px 0px");
}

#[test]
fn use_theme_hands_the_shared_theme_on() {
    let shared = Rc::new(Theme::default());
    let first = use_theme(Some(shared.clone()));
    let second = use_theme(Some(shared.clone()));
    assert!(Rc::ptr_eq(&first, &shared));
    assert!(Rc::ptr_eq(&first, &second));
    assert_eq!(first.styles.padding_medium.to_string(), "8px");
}

#[test]
fn use_theme_hands_on_whatever_handle_the_tree_holds() {
    assert_eq!(use_theme(Some(3u8)), 3u8);
    assert_eq!(use_theme(Some("handle")), "handle");
}

#[test]
fn use_theme_gives_a_theme_that_can_be_changed_in_place() {
    let mut theme = Theme::default();
    let shared = use_theme(Some(&mut theme));
    shared.styles.padding_medium = dioxico::Length::from(12);
    assert_eq!(theme.styles.form_padding().to_string(), "12px 0px");
}

#[test]
fn new_id_is_the_bits_in_hexadecimal() {
    assert_eq!(new_id(0), "0");
    assert_eq!(new_id(10), "a");
    assert_eq!(new_id(255), "ff");
    assert_eq!(new_id(0x3fe0_0000_0000_0000), "3fe0000000000000");
    assert_eq!(new_id(u64::MAX), "ffffffffffffffff");
}

#[test]
fn new_id_of_a_float_is_its_bits_in_hexadecimal() {
    for value in [0.0f64, 0.5, 0.25, 0.123456789, 0.999999999, 1.0e-300] {
        let bits = value.to_bits();
        assert_eq!(new_id(bits), format!("{bits:x}"));
    }
    assert_eq!(new_id(0.5f64.to_bits()), "3fe0000000000000");
}

#[test]
fn new_id_holds_hexadecimal_digits_only() {
    for bits in [0u64, 1, 0xabcdef, 0x8000_0000_0000_0000, u64::MAX] {
        let id = new_id(bits);
        assert!(!id.is_empty());
        assert!(id.len() <= 16);
        assert!(id.chars().all(|c| c.is_ascii_digit() || ('a'..='f').contains(&c)));
        assert_eq!(u64::from_str_radix(&id, 16), Ok(bits));
    }
}
