use jonline::permissions::{
    has_permission,
    is_valid_permission_set,
    to_proto_permissions,
    validate_permissions,
};
use jonline::protos::{ContactMethod, Follow, Group, Membership, Permission, User};
use jonline::rpcs::validations::validate_groups::{
    choose_shortname,
    validate_group,
    validate_membership,
};
use jonline::rpcs::validations::validate_strings::{
    validate_email,
    validate_length,
    validate_max_length,
    validate_phone,
    validate_username,
};
use jonline::rpcs::validations::validate_users::{validate_follow, validate_user};
use jonline::rpcs::validations::OperationType;
use jonline::status::{Code, Field, Status};

fn reason(r: Result<(), Status>) -> String {
    let e = r.unwrap_err();
    assert_eq!(e.code(), Code::InvalidArgument);
    e.message()
}

fn group() -> Group {
    Group {
        id: String::new(),
        name: "Birders".to_string(),
        shortname: String::new(),
        description: "People who watch birds".to_string(),
        avatar_media_id: Some("3".to_string()),
        default_membership_permissions: vec![1, 2],
        default_membership_moderation: 1,
        default_post_moderation: 2,
        default_event_moderation: 1,
        visibility: 4,
        post_count: 0,
    }
}

fn membership() -> Membership {
    Membership {
        user_id: "1".to_string(),
        group_id: "2".to_string(),
        permissions: vec![1, 4],
        group_moderation: 1,
        user_moderation: 2,
    }
}

fn user() -> User {
    User {
        id: String::new(),
        username: "ada_1815".to_string(),
        email: Some(ContactMethod { value: "ada@example.org".to_string() }),
        phone: Some(ContactMethod { value: "+4915112345678".to_string() }),
        permissions: vec![1, 2, 4],
        avatar_media_id: None,
        bio: String::new(),
        visibility: 3,
        moderation: 1,
        default_follow_moderation: 2,
        follower_count: 0,
        following_count: 0,
        group_count: 0,
        post_count: 0,
        response_count: 0,
        event_count: 0,
    }
}

fn follow(user_id: &str, target_user_id: &str, moderation: i32) -> Follow {
    Follow {
        user_id: user_id.to_string(),
        target_user_id: target_user_id.to_string(),
        target_user_moderation: moderation,
    }
}

#[test]
fn a_valid_group_passes() {
    assert_eq!(validate_group(&group()), Ok(()));
}

#[test]
fn group_name_must_have_1_to_128_characters() {
    let mut g = group();
    g.name = String::new();
    assert_eq!(reason(validate_group(&g)), "name_too_short");
    g.name = "n".repeat(128);
    assert_eq!(validate_group(&g), Ok(()));
    g.name = "n".repeat(129);
    assert_eq!(reason(validate_group(&g)), "name_too_long");
    g.name = "\u{e9}".repeat(128);
    assert_eq!(validate_group(&g), Ok(()));
}

#[test]
fn group_description_may_have_10000_characters() {
    let mut g = group();
    g.description = "d".repeat(10000);
    assert_eq!(validate_group(&g), Ok(()));
    g.description = "d".repeat(10001);
    assert_eq!(reason(validate_group(&g)), "description_too_long");
}

#[test]
fn group_avatar_must_parse_or_be_absent() {
    let mut g = group();
    g.avatar_media_id = None;
    assert_eq!(validate_group(&g), Ok(()));
    g.avatar_media_id = Some("avatar".to_string());
    assert_eq!(reason(validate_group(&g)), "invalid_avatar_media_id");
}

#[test]
fn group_visibility_must_not_be_the_sentinel() {
    let mut g = group();
    g.visibility = 0;
    assert_eq!(reason(validate_group(&g)), "invalid_visibility");
    g.visibility = 5;
    assert_eq!(reason(validate_group(&g)), "invalid_visibility");
    g.visibility = -1;
    assert_eq!(reason(validate_group(&g)), "invalid_visibility");
    for v in 1..=4 {
        g.visibility = v;
        assert_eq!(validate_group(&g), Ok(()));
    }
}

#[test]
fn group_permissions_must_be_recognized() {
    let mut g = group();
    g.default_membership_permissions = vec![1, 0, 2];
    assert_eq!(reason(validate_group(&g)), "invalid_permission_PERMISSION_UNKNOWN");
    g.default_membership_permissions = vec![1, 9];
    assert_eq!(reason(validate_group(&g)), "invalid_permission");
    g.default_membership_permissions = vec![2, 0, 99];
    assert_eq!(reason(validate_group(&g)), "invalid_permission_PERMISSION_UNKNOWN");
    g.default_membership_permissions = vec![2, 99, 0];
    assert_eq!(reason(validate_group(&g)), "invalid_permission");
    g.default_membership_permissions = vec![-1, 0];
    assert_eq!(reason(validate_group(&g)), "invalid_permission");
    g.default_membership_permissions = vec![8, 7, 6, 5, 4, 3, 2, 1, 1];
    assert_eq!(validate_group(&g), Ok(()));
}

#[test]
fn group_default_moderations_must_stay_open() {
    for bad in [0, 3, 4, 5, -3] {
        let mut g = group();
        g.default_membership_moderation = bad;
        assert_eq!(reason(validate_group(&g)), "invalid_default_membership_moderation");
        let mut g = group();
        g.default_post_moderation = bad;
        assert_eq!(reason(validate_group(&g)), "invalid_default_post_moderation");
        let mut g = group();
        g.default_event_moderation = bad;
        assert_eq!(reason(validate_group(&g)), "invalid_default_event_moderation");
    }
}

#[test]
fn group_validation_reports_the_first_violation() {
    let mut g = group();
    g.name = String::new();
    g.visibility = 0;
    g.default_post_moderation = 3;
    assert_eq!(reason(validate_group(&g)), "name_too_short");
    g.name = "ok".to_string();
    assert_eq!(reason(validate_group(&g)), "invalid_visibility");
    g.visibility = 1;
    assert_eq!(reason(validate_group(&g)), "invalid_default_post_moderation");
}

#[test]
fn membership_create_and_delete_look_at_the_identifiers_only() {
    let mut m = membership();
    m.permissions = vec![0, 99, -1];
    m.group_moderation = 4;
    m.user_moderation = 77;
    assert_eq!(validate_membership(&m, OperationType::Create), Ok(()));
    assert_eq!(validate_membership(&m, OperationType::Delete), Ok(()));
    m.user_id = "nobody".to_string();
    assert_eq!(reason(validate_membership(&m, OperationType::Create)), "invalid_user_id");
    assert_eq!(reason(validate_membership(&m, OperationType::Delete)), "invalid_user_id");
    m.user_id = "1".to_string();
    m.group_id = "0".to_string();
    assert_eq!(reason(validate_membership(&m, OperationType::Create)), "invalid_group_id");
    assert_eq!(reason(validate_membership(&m, OperationType::Delete)), "invalid_group_id");
}

#[test]
fn membership_update_checks_permissions_and_moderations() {
    assert_eq!(validate_membership(&membership(), OperationType::Update), Ok(()));
    let mut m = membership();
    m.permissions = vec![2, 0];
    assert_eq!(
        reason(validate_membership(&m, OperationType::Update)),
        "invalid_permission_PERMISSION_UNKNOWN"
    );
    m.permissions = vec![2, 0, 99];
    assert_eq!(
        reason(validate_membership(&m, OperationType::Update)),
        "invalid_permission_PERMISSION_UNKNOWN"
    );
    m.permissions = vec![99, 0];
    assert_eq!(reason(validate_membership(&m, OperationType::Update)), "invalid_permission");
    let mut m = membership();
    m.group_moderation = 3;
    assert_eq!(reason(validate_membership(&m, OperationType::Update)), "invalid_group_moderation");
    let mut m = membership();
    m.user_moderation = 4;
    assert_eq!(reason(validate_membership(&m, OperationType::Update)), "invalid_user_moderation");
    let mut m = membership();
    m.user_moderation = 12;
    assert_eq!(reason(validate_membership(&m, OperationType::Update)), "invalid_user_moderation");
    let mut m = membership();
    m.user_id = String::new();
    assert_eq!(reason(validate_membership(&m, OperationType::Update)), "invalid_user_id");
}

#[test]
fn a_valid_user_passes() {
    assert_eq!(validate_user(&user()), Ok(()));
    let mut u = user();
    u.email = None;
    u.phone = None;
    u.permissions = vec![];
    assert_eq!(validate_user(&u), Ok(()));
}

#[test]
fn user_fields_are_checked_in_order() {
    let mut u = user();
    u.username = "no spaces".to_string();
    u.email = Some(ContactMethod { value: "nowhere".to_string() });
    assert_eq!(reason(validate_user(&u)), "invalid_username");
    u.username = "fine".to_string();
    assert_eq!(reason(validate_user(&u)), "invalid_email");
    u.email = None;
    u.phone = Some(ContactMethod { value: "12".to_string() });
    assert_eq!(reason(validate_user(&u)), "invalid_phone");
    u.phone = None;
    u.avatar_media_id = Some("-4".to_string());
    assert_eq!(reason(validate_user(&u)), "invalid_avatar_media_id");
    u.avatar_media_id = Some("4".to_string());
    u.visibility = 0;
    assert_eq!(reason(validate_user(&u)), "invalid_visibility");
    u.visibility = 1;
    u.default_follow_moderation = 3;
    assert_eq!(reason(validate_user(&u)), "invalid_default_follow_moderation");
    u.default_follow_moderation = 1;
    u.permissions = vec![8, 0];
    assert_eq!(reason(validate_user(&u)), "invalid_permission_PERMISSION_UNKNOWN");
    u.permissions = vec![8];
    assert_eq!(validate_user(&u), Ok(()));
}

#[test]
fn username_has_1_to_47_word_characters() {
    assert_eq!(reason(validate_username("")), "username_too_short");
    assert_eq!(validate_username("a"), Ok(()));
    assert_eq!(validate_username(&"a".repeat(47)), Ok(()));
    assert_eq!(reason(validate_username(&"a".repeat(48))), "username_too_long");
    assert_eq!(validate_username("Ada_Lovelace_1815"), Ok(()));
    assert_eq!(reason(validate_username("ada-lovelace")), "invalid_username");
    assert_eq!(reason(validate_username("ad\u{e9}")), "invalid_username");
    assert_eq!(reason(validate_username("a@b")), "invalid_username");
}

#[test]
fn email_has_one_at_sign_inside() {
    assert_eq!(validate_email("a@b"), Ok(()));
    assert_eq!(validate_email("ada@example.org"), Ok(()));
    assert_eq!(reason(validate_email("")), "invalid_email");
    assert_eq!(reason(validate_email("a@")), "invalid_email");
    assert_eq!(reason(validate_email("@bc")), "invalid_email");
    assert_eq!(reason(validate_email("ab@")), "invalid_email");
    assert_eq!(reason(validate_email("a@b@c")), "invalid_email");
    assert_eq!(reason(validate_email("a b@c")), "invalid_email");
    assert_eq!(reason(validate_email("example.org")), "invalid_email");
    let long = format!("{}@x", "a".repeat(253));
    assert_eq!(validate_email(&long), Ok(()));
    let too_long = format!("{}@x", "a".repeat(254));
    assert_eq!(reason(validate_email(&too_long)), "invalid_email");
}

#[test]
fn phone_has_7_to_15_digits_after_an_optional_plus() {
    assert_eq!(validate_phone("1234567"), Ok(()));
    assert_eq!(validate_phone("+1234567"), Ok(()));
    assert_eq!(validate_phone("123456789012345"), Ok(()));
    assert_eq!(validate_phone("+123456789012345"), Ok(()));
    assert_eq!(reason(validate_phone("123456")), "invalid_phone");
    assert_eq!(reason(validate_phone("+123456")), "invalid_phone");
    assert_eq!(reason(validate_phone("1234567890123456")), "invalid_phone");
    assert_eq!(reason(validate_phone("")), "invalid_phone");
    assert_eq!(reason(validate_phone("+")), "invalid_phone");
    assert_eq!(reason(validate_phone("555-1234567")), "invalid_phone");
    assert_eq!(reason(validate_phone("12345+67")), "invalid_phone");
}

#[test]
fn lengths_are_counted_in_characters() {
    assert_eq!(validate_length("abc", Field::Name, 3, 3), Ok(()));
    assert_eq!(reason(validate_length("ab", Field::Name, 3, 3)), "name_too_short");
    assert_eq!(reason(validate_length("abcd", Field::Name, 3, 3)), "name_too_long");
    assert_eq!(validate_length("\u{1f426}\u{1f426}", Field::Name, 2, 2), Ok(()));
    assert_eq!(validate_max_length(None, Field::Description, 0), Ok(()));
    assert_eq!(validate_max_length(Some(String::new()), Field::Description, 0), Ok(()));
    assert_eq!(
        reason(validate_max_length(Some("x".to_string()), Field::Description, 0)),
        "description_too_long"
    );
}

#[test]
fn a_self_follow_is_rejected_whatever_its_moderation() {
    for moderation in [0, 1, 2, 3, 4, 9] {
        for op in [OperationType::Create, OperationType::Update, OperationType::Delete] {
            assert_eq!(
                reason(validate_follow(&follow("7", "7", moderation), op)),
                "user_cannot_follow_themselves"
            );
            assert_eq!(
                reason(validate_follow(&follow("7", "007", moderation), op)),
                "user_cannot_follow_themselves"
            );
        }
    }
}

#[test]
fn follow_identifiers_are_checked_first() {
    assert_eq!(
        reason(validate_follow(&follow("x", "x", 3), OperationType::Update)),
        "invalid_user_id"
    );
    assert_eq!(
        reason(validate_follow(&follow("1", "", 3), OperationType::Create)),
        "invalid_target_user_id"
    );
}

#[test]
fn a_follow_update_must_carry_a_decision() {
    assert_eq!(validate_follow(&follow("1", "2", 3), OperationType::Update), Ok(()));
    assert_eq!(validate_follow(&follow("1", "2", 4), OperationType::Update), Ok(()));
    for open in [0, 1, 2, 5, -1] {
        assert_eq!(
            reason(validate_follow(&follow("1", "2", open), OperationType::Update)),
            "invalid_target_user_moderation"
        );
    }
}

#[test]
fn a_follow_create_or_delete_ignores_the_moderation() {
    for moderation in [0, 1, 2, 3, 4, 9] {
        assert_eq!(validate_follow(&follow("1", "2", moderation), OperationType::Create), Ok(()));
        assert_eq!(validate_follow(&follow("1", "2", moderation), OperationType::Delete), Ok(()));
    }
}

#[test]
fn has_permission_ignores_order_and_repetition() {
    let set = vec![Permission::ViewPosts, Permission::Admin, Permission::ViewPosts];
    assert!(has_permission(&set, Permission::Admin));
    assert!(has_permission(&set, Permission::ViewPosts));
    assert!(!has_permission(&set, Permission::CreatePosts));
    assert!(!has_permission(&vec![], Permission::Admin));
}

#[test]
fn a_permission_set_is_valid_without_the_sentinel() {
    assert!(is_valid_permission_set(&vec![]));
    assert!(is_valid_permission_set(&vec![Permission::Admin, Permission::ModerateUsers]));
    assert!(!is_valid_permission_set(&vec![Permission::Admin, Permission::Unknown]));
}

#[test]
fn raw_permissions_are_decoded_in_order() {
    assert_eq!(
        to_proto_permissions(&vec![8, 0, 3]),
        Ok(vec![Permission::Admin, Permission::Unknown, Permission::ModeratePosts])
    );
    assert_eq!(to_proto_permissions(&vec![]), Ok(vec![]));
    assert_eq!(to_proto_permissions(&vec![1, 9]).unwrap_err().message(), "invalid_permission");
    assert_eq!(validate_permissions(&vec![1, 2, 3, 4, 5, 6, 7, 8]), Ok(()));
    assert_eq!(
        validate_permissions(&vec![0]).unwrap_err().message(),
        "invalid_permission_PERMISSION_UNKNOWN"
    );
    assert_eq!(
        validate_permissions(&vec![0, 99]).unwrap_err().message(),
        "invalid_permission_PERMISSION_UNKNOWN"
    );
    assert_eq!(validate_permissions(&vec![99, 0]).unwrap_err().message(), "invalid_permission");
    assert_eq!(validate_permissions(&vec![]), Ok(()));
}

#[test]
fn the_shortname_is_chosen_between_the_two_stripped_candidates() {
    assert_eq!(choose_shortname("abc".to_string(), "Name".to_string()), "abc");
    assert_eq!(choose_shortname(String::new(), "Name".to_string()), "Name");
    assert_eq!(choose_shortname(String::new(), String::new()), "");
    assert_eq!(choose_shortname("_".to_string(), String::new()), "_");
}
