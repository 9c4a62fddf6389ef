//! Rules for user and follow payloads.

use vstd::prelude::*;
use vstd::string::*;
use crate::marshaling::id_marshaling::{db_id, db_opt_id, opt_text, to_db_id_or_err, to_db_opt_id_or_err};
use crate::permissions::{permission_set_verdict, validate_permissions};
use crate::protos::{ContactMethod, Follow, Moderation, User};
use crate::rpcs::validations::validate_groups::{
    open_moderation_verdict,
    validate_open_moderation,
    validate_visibility,
    visibility_verdict,
};
use crate::rpcs::validations::validate_strings::{
    email_verdict,
    invalid,
    invalid_argument,
    phone_verdict,
    username_verdict,
    validate_email,
    validate_phone,
    validate_username,
};
use crate::rpcs::validations::OperationType;
use crate::status::{Field, Reason, Status};

verus! {

/// The verdict on an optional address.
pub open spec fn optional_email_verdict(email: Option<ContactMethod>) -> Result<(), Status> {
    match email {
        None => Ok(()),
        Some(e) => email_verdict(e.value@),
    }
}

/// The verdict on an optional phone number.
pub open spec fn optional_phone_verdict(phone: Option<ContactMethod>) -> Result<(), Status> {
    match phone {
        None => Ok(()),
        Some(p) => phone_verdict(p.value@),
    }
}

/// The verdict on a user payload: the first rule it breaks, in this order.
pub open spec fn user_verdict(user: User) -> Result<(), Status> {
    if username_verdict(user.username@) is Err {
        username_verdict(user.username@)
    } else if optional_email_verdict(user.email) is Err {
        Err(invalid(Reason::InvalidEmail))
    } else if optional_phone_verdict(user.phone) is Err {
        Err(invalid(Reason::InvalidPhone))
    } else if db_opt_id(opt_text(user.avatar_media_id), Field::AvatarMediaId) is Err {
        Err(invalid(Reason::InvalidId(Field::AvatarMediaId)))
    } else if visibility_verdict(user.visibility) is Err {
        visibility_verdict(user.visibility)
    } else if open_moderation_verdict(
        user.default_follow_moderation,
        Reason::InvalidDefaultFollowModeration,
    ) is Err {
        Err(invalid(Reason::InvalidDefaultFollowModeration))
    } else if permission_set_verdict(user.permissions@) is Err {
        permission_set_verdict(user.permissions@)
    } else {
        Ok(())
    }
}

pub fn validate_user(user: &User) -> (r: Result<(), Status>)
    ensures
        r == user_verdict(*user),
{
    validate_username(user.username.as_str())?;
    match &user.email {
        Some(e) => {
            validate_email(e.value.as_str())?;
        },
        None => {},
    }
    match &user.phone {
        Some(p) => {
            validate_phone(p.value.as_str())?;
        },
        None => {},
    }
    match to_db_opt_id_or_err(&user.avatar_media_id, Field::AvatarMediaId) {
        Err(e) => {
            return Err(e);
        },
        Ok(_) => {},
    }
    validate_visibility(user.visibility)?;
    validate_open_moderation(
        user.default_follow_moderation,
        Reason::InvalidDefaultFollowModeration,
    )?;
    validate_permissions(&user.permissions)?;
    Ok(())
}

/// The verdict on a moderation that must be a decision: it must name
/// `Approved` or `Rejected`.
pub open spec fn decision_verdict(raw: i32, reason: Reason) -> Result<(), Status> {
    match Moderation::of_number(raw as int) {
        Some(m) => if m.decision() {
            Ok(())
        } else {
            Err(invalid(reason))
        },
        None => Err(invalid(reason)),
    }
}

pub fn validate_decision(raw: i32, reason: Reason) -> (r: Result<(), Status>)
    ensures
        r == decision_verdict(raw, reason),
{
    match Moderation::from_i32(raw) {
        Some(m) => if m.is_decision() {
            Ok(())
        } else {
            Err(invalid_argument(reason))
        },
        None => Err(invalid_argument(reason)),
    }
}

/// The verdict on a follow payload: both identifiers must parse, they must
/// denote different users, and an update must carry the target's decision.
pub open spec fn follow_verdict(follow: Follow, validation_type: OperationType) -> Result<
    (),
    Status,
> {
    if db_id(follow.user_id@) is None {
        Err(invalid(Reason::InvalidId(Field::UserId)))
    } else if db_id(follow.target_user_id@) is None {
        Err(invalid(Reason::InvalidId(Field::TargetUserId)))
    } else if db_id(follow.user_id@) == db_id(follow.target_user_id@) {
        Err(invalid(Reason::UserCannotFollowThemselves))
    } else if validation_type == OperationType::Update {
        decision_verdict(follow.target_user_moderation, Reason::InvalidTargetUserModeration)
    } else {
        Ok(())
    }
}

pub fn validate_follow(follow: &Follow, validation_type: OperationType) -> (r: Result<(), Status>)
    ensures
        r == follow_verdict(*follow, validation_type),
{
    let user_id: i64 = match to_db_id_or_err(follow.user_id.as_str(), Field::UserId) {
        Err(e) => {
            return Err(e);
        },
        Ok(id) => id,
    };
    let target_user_id: i64 = match to_db_id_or_err(
        follow.target_user_id.as_str(),
        Field::TargetUserId,
    ) {
        Err(e) => {
            return Err(e);
        },
        Ok(id) => id,
    };
    if user_id == target_user_id {
        return Err(invalid_argument(Reason::UserCannotFollowThemselves));
    }
    match validation_type {
        OperationType::Update => validate_decision(
            follow.target_user_moderation,
            Reason::InvalidTargetUserModeration,
        ),
        _ => Ok(()),
    }
}

} // verus!
