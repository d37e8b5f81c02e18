use dynisland_core::text_order::{bytes_cmp, option_text_cmp, text_cmp};
use dynisland_core::ActivityMetadata;
use std::cmp::Ordering;

#[test]
fn metadata_starts_empty() {
    let m = ActivityMetadata::new();
    assert_eq!(m.window_name(), None);
    assert_eq!(m.additional_metadata("anything"), None);
    assert_eq!(m, ActivityMetadata::default());
}

#[test]
fn window_name_second_set_wins() {
    let mut m = ActivityMetadata::new();
    m.set_window_name("first");
    m.set_window_name("second");
    assert_eq!(m.window_name(), Some(String::from("second")));
    let mut n = ActivityMetadata::new();
    n.set_window_name("second");
    assert_eq!(m, n);
}

#[test]
fn annotations_insert_overwrite_and_keep_others() {
    let mut m = ActivityMetadata::new();
    m.set_additional_metadata(String::from("artist"), String::from("Bach"));
    m.set_additional_metadata(String::from("title"), String::from("Air"));
    assert_eq!(m.additional_metadata("artist"), Some(String::from("Bach")));
    assert_eq!(m.additional_metadata("title"), Some(String::from("Air")));
    m.set_additional_metadata(String::from("artist"), String::from("Handel"));
    assert_eq!(m.additional_metadata("artist"), Some(String::from("Handel")));
    assert_eq!(m.additional_metadata("title"), Some(String::from("Air")));
    assert_eq!(m.additional_metadata("album"), None);
}

#[test]
fn metadata_equality_is_structural() {
    let mut a = ActivityMetadata::new();
    let mut b = ActivityMetadata::new();
    a.set_additional_metadata(String::from("k"), String::from("v"));
    assert_ne!(a, b);
    b.set_additional_metadata(String::from("k"), String::from("v"));
    assert_eq!(a, b);
    a.set_window_name("w");
    assert_ne!(a, b);
    b.set_window_name("w");
    assert_eq!(a, b);
    assert_eq!(a.clone(), a);
}

#[test]
fn metadata_order_by_window_name_only() {
    let none = ActivityMetadata::new();
    let mut present = ActivityMetadata::new();
    present.set_window_name("a");
    assert_eq!(none.cmp(&present), Ordering::Less);
    assert_eq!(present.cmp(&none), Ordering::Greater);
    assert_eq!(none.cmp(&ActivityMetadata::new()), Ordering::Equal);

    let mut b = ActivityMetadata::new();
    b.set_window_name("b");
    assert_eq!(present.cmp(&b), Ordering::Less);

    let mut annotated = ActivityMetadata::new();
    annotated.set_window_name("a");
    annotated.set_additional_metadata(String::from("z"), String::from("z"));
    assert_eq!(annotated.cmp(&present), Ordering::Equal);
    assert!(none < present);
    assert!(present < b);
    assert!(!(b < present));
    assert_eq!(annotated.partial_cmp(&present), Some(Ordering::Equal));
    assert_ne!(annotated, present);
}

#[test]
fn text_order_is_lexical() {
    assert_eq!(text_cmp(&String::from("ab"), &String::from("abc")), Ordering::Less);
    assert_eq!(text_cmp(&String::from("abc"), &String::from("ab")), Ordering::Greater);
    assert_eq!(text_cmp(&String::from("abc"), &String::from("abc")), Ordering::Equal);
    assert_eq!(text_cmp(&String::from("B"), &String::from("a")), Ordering::Less);
    assert_eq!(text_cmp(&String::from("z"), &String::from("é")), Ordering::Less);
    assert_eq!(text_cmp(&String::from(""), &String::from("a")), Ordering::Less);
    assert_eq!(bytes_cmp(&[1, 2, 3], &[1, 3]), Ordering::Less);
    assert_eq!(bytes_cmp(&[], &[]), Ordering::Equal);
    assert_eq!(option_text_cmp(&None, &Some(String::new())), Ordering::Less);
    assert_eq!(option_text_cmp(&Some(String::from("x")), &Some(String::from("x"))), Ordering::Equal);
    assert_eq!(option_text_cmp(&None, &None), Ordering::Equal);
}
