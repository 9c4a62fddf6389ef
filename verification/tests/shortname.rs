use jonline::protos::Group;
use jonline::rpcs::create_group::create_group;
use jonline::rpcs::validations::validate_groups::{derive_shortname, validate_group};
use jonline::status::Code;
use jonline::store::Store;

fn group(name: &str, shortname: &str) -> Group {
    Group {
        id: String::new(),
        name: name.to_string(),
        shortname: shortname.to_string(),
        description: String::new(),
        avatar_media_id: None,
        default_membership_permissions: vec![],
        default_membership_moderation: 1,
        default_post_moderation: 1,
        default_event_moderation: 1,
        visibility: 4,
        post_count: 0,
    }
}

#[test]
fn derive_shortname_strips_non_word_characters_of_the_name() {
    assert_eq!(derive_shortname(&group("Hello World!", "")), "HelloWorld");
}

#[test]
fn derive_shortname_prefers_the_declared_shortname() {
    assert_eq!(derive_shortname(&group("Birders", "bird watchers")), "birdwatchers");
}

#[test]
fn derive_shortname_falls_back_to_the_name_when_nothing_is_left() {
    assert_eq!(derive_shortname(&group("A b", "!!! ???")), "Ab");
}

#[test]
fn derive_shortname_keeps_letters_digits_and_underscores() {
    assert_eq!(derive_shortname(&group("x", "\u{c9}mile_1")), "\u{c9}mile_1");
}

#[test]
fn derive_shortname_of_nothing_but_punctuation_is_empty() {
    assert_eq!(derive_shortname(&group("?!", " - ")), "");
}

#[test]
fn derive_shortname_is_idempotent() {
    let names = ["Hello World!", "Birders", "a-b_c d", "!!!", ""];
    let shortnames = ["", "bird watchers", "x y", "??", "_"];
    for name in names {
        for shortname in shortnames {
            let once = derive_shortname(&group(name, shortname));
            let twice = derive_shortname(&group(name, &once));
            assert_eq!(once, twice);
        }
    }
}

#[test]
fn validate_group_reports_a_blank_shortname() {
    let e = validate_group(&group("!!!", "")).unwrap_err();
    assert_eq!(e.code(), Code::InvalidArgument);
    assert_eq!(e.message(), "blank_shortname");
}

#[test]
fn creating_birders_stores_the_derived_shortname_and_no_posts() {
    let mut store = Store::new();
    assert_eq!(create_group(&mut store, 1, &group("Birders", "")), Ok(()));
    assert_eq!(store.groups.len(), 1);
    assert_eq!(store.groups[0].id, 1);
    assert_eq!(store.groups[0].name, "Birders");
    assert_eq!(store.groups[0].shortname, "Birders");
    assert_eq!(store.groups[0].post_count, 0);
}

#[test]
fn creating_an_invalid_group_stores_nothing() {
    let mut store = Store::new();
    let e = create_group(&mut store, 1, &group("", "")).unwrap_err();
    assert_eq!(e.message(), "name_too_short");
    assert!(store.groups.is_empty());
}
