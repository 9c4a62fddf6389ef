use jonline::auth::Actor;
use jonline::protos::Permission;
use jonline::rpcs::admission::{after_authentication, after_connection, ActorNeed, Rpc, Step};
use jonline::rpcs::get_server_configuration::{
    finish_default_insert,
    get_server_configuration,
    Lookup,
    Resolution,
};
use jonline::status::{Code, Field, Reason, Status};

const ALL: [Rpc; 7] = [
    Rpc::GetServiceVersion,
    Rpc::CreateAccount,
    Rpc::Login,
    Rpc::RefreshToken,
    Rpc::GetCurrentUser,
    Rpc::CreatePost,
    Rpc::GetPosts,
];

fn expired() -> Status {
    Status::new(Code::Unauthenticated, Reason::Unauthenticated)
}

fn ada() -> Actor {
    Actor { user_id: 1, permissions: vec![Permission::CreatePosts] }
}

#[test]
fn without_a_storage_handle_only_the_version_query_runs() {
    for rpc in ALL {
        let step = after_connection(rpc, false);
        if rpc == Rpc::GetServiceVersion {
            assert_eq!(step, Step::Run);
        } else {
            match step {
                Step::Reject(e) => {
                    assert_eq!(e.code(), Code::Internal);
                    assert_eq!(e.message(), "database_connection_failure");
                }
                other => panic!("{:?}", other),
            }
        }
    }
}

#[test]
fn with_a_storage_handle_the_caller_is_authenticated_where_needed() {
    assert_eq!(after_connection(Rpc::GetServiceVersion, true), Step::Run);
    assert_eq!(after_connection(Rpc::CreateAccount, true), Step::Run);
    assert_eq!(after_connection(Rpc::Login, true), Step::Run);
    assert_eq!(after_connection(Rpc::RefreshToken, true), Step::Run);
    assert_eq!(after_connection(Rpc::GetCurrentUser, true), Step::Authenticate);
    assert_eq!(after_connection(Rpc::CreatePost, true), Step::Authenticate);
    assert_eq!(after_connection(Rpc::GetPosts, true), Step::Authenticate);
    assert_eq!(Rpc::GetPosts.needs_actor(), ActorNeed::Optional);
    assert_eq!(Rpc::CreatePost.needs_actor(), ActorNeed::Required);
    assert_eq!(Rpc::Login.needs_actor(), ActorNeed::NotUsed);
}

#[test]
fn failed_authentication_stops_what_requires_an_actor() {
    assert_eq!(after_authentication(Rpc::GetCurrentUser, Err(expired())), Err(expired()));
    assert_eq!(after_authentication(Rpc::CreatePost, Err(expired())), Err(expired()));
    assert_eq!(after_authentication(Rpc::GetPosts, Err(expired())), Ok(None));
    assert_eq!(after_authentication(Rpc::GetCurrentUser, Ok(ada())), Ok(Some(ada())));
    assert_eq!(after_authentication(Rpc::CreatePost, Ok(ada())), Ok(Some(ada())));
    assert_eq!(after_authentication(Rpc::GetPosts, Ok(ada())), Ok(Some(ada())));
    assert_eq!(after_authentication(Rpc::Login, Ok(ada())), Ok(None));
}

#[test]
fn the_configuration_is_returned_created_or_reported_failed() {
    match get_server_configuration(Lookup::Found(5)) {
        Resolution::Respond(c) => assert_eq!(c, 5),
        _ => panic!("a stored configuration is the answer"),
    }
    match get_server_configuration(Lookup::<i32>::Missing) {
        Resolution::InsertDefault => {}
        _ => panic!("a missing configuration is created"),
    }
    match get_server_configuration(Lookup::<i32>::Failed) {
        Resolution::Fail(e) => {
            assert_eq!(e.code(), Code::Internal);
            assert_eq!(e.message(), "data_error");
        }
        _ => panic!("a failed lookup is a failure"),
    }
    assert_eq!(finish_default_insert(Some(7)), Ok(7));
    let e = finish_default_insert::<i32>(None).unwrap_err();
    assert_eq!(e.code(), Code::Internal);
    assert_eq!(e.message(), "error_inserting_default_server_configuration");
}

#[test]
fn every_reason_has_its_stable_text() {
    let texts = [
        (Reason::TooShort(Field::Name), "name_too_short"),
        (Reason::TooLong(Field::Description), "description_too_long"),
        (Reason::TooLong(Field::Username), "username_too_long"),
        (Reason::InvalidId(Field::AvatarMediaId), "invalid_avatar_media_id"),
        (Reason::InvalidId(Field::UserId), "invalid_user_id"),
        (Reason::InvalidId(Field::GroupId), "invalid_group_id"),
        (Reason::InvalidId(Field::TargetUserId), "invalid_target_user_id"),
        (Reason::InvalidUsername, "invalid_username"),
        (Reason::InvalidEmail, "invalid_email"),
        (Reason::InvalidPhone, "invalid_phone"),
        (Reason::InvalidVisibility, "invalid_visibility"),
        (Reason::InvalidModeration, "invalid_moderation"),
        (Reason::InvalidPermission(Permission::Unknown), "invalid_permission_PERMISSION_UNKNOWN"),
        (Reason::InvalidPermission(Permission::ViewPosts), "invalid_permission_VIEW_POSTS"),
        (Reason::UnrecognizedPermission, "invalid_permission"),
        (Reason::InvalidDefaultMembershipModeration, "invalid_default_membership_moderation"),
        (Reason::InvalidDefaultPostModeration, "invalid_default_post_moderation"),
        (Reason::InvalidDefaultEventModeration, "invalid_default_event_moderation"),
        (Reason::InvalidDefaultFollowModeration, "invalid_default_follow_moderation"),
        (Reason::InvalidGroupModeration, "invalid_group_moderation"),
        (Reason::InvalidUserModeration, "invalid_user_moderation"),
        (Reason::InvalidTargetUserModeration, "invalid_target_user_moderation"),
        (Reason::BlankShortname, "blank_shortname"),
        (Reason::UserCannotFollowThemselves, "user_cannot_follow_themselves"),
        (Reason::UserNotFound, "user_not_found"),
        (Reason::GroupNotFound, "group_not_found"),
        (Reason::PostNotFound, "post_not_found"),
        (Reason::GroupPostNotFound, "group_post_not_found"),
        (Reason::FollowNotFound, "follow_not_found"),
        (Reason::MembershipNotFound, "membership_not_found"),
        (Reason::PermissionDenied, "permission_denied"),
        (Reason::Unauthenticated, "unauthenticated"),
        (Reason::ErrorUpdatingGroupPostCount, "error_updating_group_post_count"),
        (Reason::ErrorUpdatingPostGroupCount, "error_updating_post_group_count"),
        (Reason::ErrorUpdatingFollowerCount, "error_updating_follower_count"),
        (Reason::ErrorUpdatingFollowingCount, "error_updating_following_count"),
        (Reason::ErrorUpdatingUserGroupCount, "error_updating_user_group_count"),
        (
            Reason::ErrorInsertingDefaultServerConfiguration,
            "error_inserting_default_server_configuration",
        ),
        (Reason::DataError, "data_error"),
        (Reason::DatabaseConnectionFailure, "database_connection_failure"),
    ];
    for (reason, text) in texts {
        assert_eq!(reason.message(), text);
        assert_eq!(Status::new(Code::Internal, reason).message(), text);
    }
    assert_eq!(Field::Name.as_str(), "name");
}
