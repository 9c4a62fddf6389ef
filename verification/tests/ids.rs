use jonline::marshaling::id_marshaling::{
    to_db_id,
    to_db_id_or_err,
    to_db_opt_id_or_err,
    to_proto_id,
};
use jonline::status::{Code, Field};

#[test]
fn to_db_id_parses_positive_decimals() {
    assert_eq!(to_db_id("1"), Some(1));
    assert_eq!(to_db_id("42"), Some(42));
    assert_eq!(to_db_id("007"), Some(7));
    assert_eq!(to_db_id("9223372036854775807"), Some(i64::MAX));
}

#[test]
fn to_db_id_rejects_what_is_no_positive_identifier() {
    assert_eq!(to_db_id(""), None);
    assert_eq!(to_db_id("0"), None);
    assert_eq!(to_db_id("000"), None);
    assert_eq!(to_db_id("-1"), None);
    assert_eq!(to_db_id("+1"), None);
    assert_eq!(to_db_id("12a"), None);
    assert_eq!(to_db_id(" 12"), None);
    assert_eq!(to_db_id("1.5"), None);
    assert_eq!(to_db_id("\u{661}"), None);
}

#[test]
fn to_db_id_rejects_what_does_not_fit() {
    assert_eq!(to_db_id("9223372036854775808"), None);
    assert_eq!(to_db_id("99999999999999999999999999"), None);
    assert_eq!(to_db_id("92233720368547758070"), None);
}

#[test]
fn to_db_id_or_err_names_the_field() {
    assert_eq!(to_db_id_or_err("5", Field::UserId), Ok(5));
    let e = to_db_id_or_err("x", Field::UserId).unwrap_err();
    assert_eq!(e.code(), Code::InvalidArgument);
    assert_eq!(e.message(), "invalid_user_id");
    let e = to_db_id_or_err("", Field::GroupId).unwrap_err();
    assert_eq!(e.message(), "invalid_group_id");
}

#[test]
fn to_db_opt_id_or_err_accepts_an_absent_identifier() {
    assert_eq!(to_db_opt_id_or_err(&None, Field::AvatarMediaId), Ok(None));
    assert_eq!(to_db_opt_id_or_err(&Some("12".to_string()), Field::AvatarMediaId), Ok(Some(12)));
    let e = to_db_opt_id_or_err(&Some("0".to_string()), Field::AvatarMediaId).unwrap_err();
    assert_eq!(e.message(), "invalid_avatar_media_id");
}

#[test]
fn to_proto_id_renders_decimals() {
    assert_eq!(to_proto_id(1), "1");
    assert_eq!(to_proto_id(10), "10");
    assert_eq!(to_proto_id(907), "907");
    assert_eq!(to_proto_id(0), "0");
    assert_eq!(to_proto_id(-45), "-45");
    assert_eq!(to_proto_id(i64::MAX), "9223372036854775807");
    assert_eq!(to_proto_id(i64::MIN), "-9223372036854775808");
}

#[test]
fn positive_identifiers_survive_the_round_trip() {
    for id in [1i64, 9, 10, 11, 99, 100, 12345, 1 << 40, i64::MAX - 1, i64::MAX] {
        assert_eq!(to_db_id(&to_proto_id(id)), Some(id));
    }
}
