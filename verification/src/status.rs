//! The error taxonomy: a coarse [`Code`] plus a stable, machine-matchable
//! [`Reason`] whose text is what callers render or match on.

use vstd::prelude::*;
use vstd::string::*;
use crate::protos::Permission;

verus! {

/// Coarse class of a failure.
#[derive(Clone, Copy, Debug, PartialEq, Eq, Structural)]
pub enum Code {
    /// A referenced entity does not exist.
    NotFound,
    /// The payload fails validation.
    InvalidArgument,
    /// The actor exists but is not allowed to do this.
    PermissionDenied,
    /// A storage or consistency step failed.
    Internal,
    /// The operation needs an actor and none was supplied.
    Unauthenticated,
}

/// A payload field that an error can point at.
#[derive(Clone, Copy, Debug, PartialEq, Eq, Structural)]
pub enum Field {
    Name,
    Description,
    Username,
    AvatarMediaId,
    UserId,
    GroupId,
    TargetUserId,
}

impl Field {
    /// The field's name as it appears inside error texts.
    pub open spec fn name(self) -> Seq<char> {
        match self {
            Field::Name => "name"@,
            Field::Description => "description"@,
            Field::Username => "username"@,
            Field::AvatarMediaId => "avatar_media_id"@,
            Field::UserId => "user_id"@,
            Field::GroupId => "group_id"@,
            Field::TargetUserId => "target_user_id"@,
        }
    }

    pub fn as_str(self) -> (r: &'static str)
        ensures
            r@ == self.name(),
    {
        match self {
            Field::Name => "name",
            Field::Description => "description",
            Field::Username => "username",
            Field::AvatarMediaId => "avatar_media_id",
            Field::UserId => "user_id",
            Field::GroupId => "group_id",
            Field::TargetUserId => "target_user_id",
        }
    }
}

/// The stable reason of a failure. `InvalidPermission` carries the offending
/// permission, whose wire name ends the text.
#[derive(Clone, Copy, Debug, PartialEq, Eq, Structural)]
pub enum Reason {
    TooShort(Field),
    TooLong(Field),
    InvalidId(Field),
    InvalidUsername,
    InvalidEmail,
    InvalidPhone,
    InvalidVisibility,
    InvalidModeration,
    InvalidPermission(Permission),
    UnrecognizedPermission,
    InvalidDefaultMembershipModeration,
    InvalidDefaultPostModeration,
    InvalidDefaultEventModeration,
    InvalidDefaultFollowModeration,
    InvalidGroupModeration,
    InvalidUserModeration,
    InvalidTargetUserModeration,
    BlankShortname,
    UserCannotFollowThemselves,
    UserNotFound,
    GroupNotFound,
    PostNotFound,
    GroupPostNotFound,
    FollowNotFound,
    MembershipNotFound,
    PermissionDenied,
    Unauthenticated,
    ErrorUpdatingGroupPostCount,
    ErrorUpdatingPostGroupCount,
    ErrorUpdatingFollowerCount,
    ErrorUpdatingFollowingCount,
    ErrorUpdatingUserGroupCount,
    ErrorInsertingDefaultServerConfiguration,
    DataError,
    DatabaseConnectionFailure,
}

impl Reason {
    /// The text of the reason, as sent to callers.
    pub open spec fn text(self) -> Seq<char> {
        match self {
            Reason::TooShort(f) => f.name() + "_too_short"@,
            Reason::TooLong(f) => f.name() + "_too_long"@,
            Reason::InvalidId(f) => "invalid_"@ + f.name(),
            Reason::InvalidUsername => "invalid_username"@,
            Reason::InvalidEmail => "invalid_email"@,
            Reason::InvalidPhone => "invalid_phone"@,
            Reason::InvalidVisibility => "invalid_visibility"@,
            Reason::InvalidModeration => "invalid_moderation"@,
            Reason::InvalidPermission(p) => "invalid_permission_"@ + p.str_name(),
            Reason::UnrecognizedPermission => "invalid_permission"@,
            Reason::InvalidDefaultMembershipModeration => "invalid_default_membership_moderation"@,
            Reason::InvalidDefaultPostModeration => "invalid_default_post_moderation"@,
            Reason::InvalidDefaultEventModeration => "invalid_default_event_moderation"@,
            Reason::InvalidDefaultFollowModeration => "invalid_default_follow_moderation"@,
            Reason::InvalidGroupModeration => "invalid_group_moderation"@,
            Reason::InvalidUserModeration => "invalid_user_moderation"@,
            Reason::InvalidTargetUserModeration => "invalid_target_user_moderation"@,
            Reason::BlankShortname => "blank_shortname"@,
            Reason::UserCannotFollowThemselves => "user_cannot_follow_themselves"@,
            Reason::UserNotFound => "user_not_found"@,
            Reason::GroupNotFound => "group_not_found"@,
            Reason::PostNotFound => "post_not_found"@,
            Reason::GroupPostNotFound => "group_post_not_found"@,
            Reason::FollowNotFound => "follow_not_found"@,
            Reason::MembershipNotFound => "membership_not_found"@,
            Reason::PermissionDenied => "permission_denied"@,
            Reason::Unauthenticated => "unauthenticated"@,
            Reason::ErrorUpdatingGroupPostCount => "error_updating_group_post_count"@,
            Reason::ErrorUpdatingPostGroupCount => "error_updating_post_group_count"@,
            Reason::ErrorUpdatingFollowerCount => "error_updating_follower_count"@,
            Reason::ErrorUpdatingFollowingCount => "error_updating_following_count"@,
            Reason::ErrorUpdatingUserGroupCount => "error_updating_user_group_count"@,
            Reason::ErrorInsertingDefaultServerConfiguration =>
                "error_inserting_default_server_configuration"@,
            Reason::DataError => "data_error"@,
            Reason::DatabaseConnectionFailure => "database_connection_failure"@,
        }
    }

    /// Renders the reason as an owned string.
    pub fn message(self) -> (r: String)
        ensures
            r@ == self.text(),
    {
        match self {
            Reason::TooShort(f) => String::from_str(f.as_str()).concat("_too_short"),
            Reason::TooLong(f) => String::from_str(f.as_str()).concat("_too_long"),
            Reason::InvalidId(f) => String::from_str("invalid_").concat(f.as_str()),
            Reason::InvalidUsername => String::from_str("invalid_username"),
            Reason::InvalidEmail => String::from_str("invalid_email"),
            Reason::InvalidPhone => String::from_str("invalid_phone"),
            Reason::InvalidVisibility => String::from_str("invalid_visibility"),
            Reason::InvalidModeration => String::from_str("invalid_moderation"),
            Reason::InvalidPermission(p) => String::from_str("invalid_permission_").concat(
                p.as_str_name(),
            ),
            Reason::UnrecognizedPermission => String::from_str("invalid_permission"),
            Reason::InvalidDefaultMembershipModeration => String::from_str(
                "invalid_default_membership_moderation",
            ),
            Reason::InvalidDefaultPostModeration => String::from_str(
                "invalid_default_post_moderation",
            ),
            Reason::InvalidDefaultEventModeration => String::from_str(
                "invalid_default_event_moderation",
            ),
            Reason::InvalidDefaultFollowModeration => String::from_str(
                "invalid_default_follow_moderation",
            ),
            Reason::InvalidGroupModeration => String::from_str("invalid_group_moderation"),
            Reason::InvalidUserModeration => String::from_str("invalid_user_moderation"),
            Reason::InvalidTargetUserModeration => String::from_str(
                "invalid_target_user_moderation",
            ),
            Reason::BlankShortname => String::from_str("blank_shortname"),
            Reason::UserCannotFollowThemselves => String::from_str(
                "user_cannot_follow_themselves",
            ),
            Reason::UserNotFound => String::from_str("user_not_found"),
            Reason::GroupNotFound => String::from_str("group_not_found"),
            Reason::PostNotFound => String::from_str("post_not_found"),
            Reason::GroupPostNotFound => String::from_str("group_post_not_found"),
            Reason::FollowNotFound => String::from_str("follow_not_found"),
            Reason::MembershipNotFound => String::from_str("membership_not_found"),
            Reason::PermissionDenied => String::from_str("permission_denied"),
            Reason::Unauthenticated => String::from_str("unauthenticated"),
            Reason::ErrorUpdatingGroupPostCount => String::from_str(
                "error_updating_group_post_count",
            ),
            Reason::ErrorUpdatingPostGroupCount => String::from_str(
                "error_updating_post_group_count",
            ),
            Reason::ErrorUpdatingFollowerCount => String::from_str(
                "error_updating_follower_count",
            ),
            Reason::ErrorUpdatingFollowingCount => String::from_str(
                "error_updating_following_count",
            ),
            Reason::ErrorUpdatingUserGroupCount => String::from_str(
                "error_updating_user_group_count",
            ),
            Reason::ErrorInsertingDefaultServerConfiguration => String::from_str(
                "error_inserting_default_server_configuration",
            ),
            Reason::DataError => String::from_str("data_error"),
            Reason::DatabaseConnectionFailure => String::from_str("database_connection_failure"),
        }
    }
}

/// A failure: its class and its reason.
#[derive(Clone, Copy, Debug, PartialEq, Eq, Structural)]
pub struct Status {
    pub code: Code,
    pub reason: Reason,
}

impl Status {
    pub fn new(code: Code, reason: Reason) -> (r: Status)
        ensures
            r == (Status { code, reason }),
    {
        Status { code, reason }
    }

    pub fn code(&self) -> (r: Code)
        ensures
            r == self.code,
    {
        self.code
    }

    /// The stable text of the failure.
    pub fn message(&self) -> (r: String)
        ensures
            r@ == self.reason.text(),
    {
        self.reason.message()
    }
}

} // verus!
