//! Reading enumerations from the names under which rows store them. Names
//! are compared without regard to the case of ASCII letters.

use vstd::prelude::*;
use vstd::string::*;
use crate::protos::{Moderation, Permission, Visibility};
use crate::rpcs::validations::validate_strings::{invalid, invalid_argument};
use crate::status::{Reason, Status};
use crate::text::{eq_ignore_ascii_case, eq_ignoring_ascii_case};

verus! {

/// The visibility that a stored name denotes, if any.
pub open spec fn visibility_of_name(name: Seq<char>) -> Option<Visibility> {
    if eq_ignoring_ascii_case(Visibility::Unknown.str_name(), name) {
        Some(Visibility::Unknown)
    } else if eq_ignoring_ascii_case(Visibility::Private.str_name(), name) {
        Some(Visibility::Private)
    } else if eq_ignoring_ascii_case(Visibility::Limited.str_name(), name) {
        Some(Visibility::Limited)
    } else if eq_ignoring_ascii_case(Visibility::ServerPublic.str_name(), name) {
        Some(Visibility::ServerPublic)
    } else if eq_ignoring_ascii_case(Visibility::GlobalPublic.str_name(), name) {
        Some(Visibility::GlobalPublic)
    } else {
        None
    }
}

pub fn to_proto_visibility(name: &str) -> (r: Option<Visibility>)
    ensures
        r == visibility_of_name(name@),
{
    if eq_ignore_ascii_case(Visibility::Unknown.as_str_name(), name) {
        Some(Visibility::Unknown)
    } else if eq_ignore_ascii_case(Visibility::Private.as_str_name(), name) {
        Some(Visibility::Private)
    } else if eq_ignore_ascii_case(Visibility::Limited.as_str_name(), name) {
        Some(Visibility::Limited)
    } else if eq_ignore_ascii_case(Visibility::ServerPublic.as_str_name(), name) {
        Some(Visibility::ServerPublic)
    } else if eq_ignore_ascii_case(Visibility::GlobalPublic.as_str_name(), name) {
        Some(Visibility::GlobalPublic)
    } else {
        None
    }
}

/// The moderation state that a stored name denotes, if any.
pub open spec fn moderation_of_name(name: Seq<char>) -> Option<Moderation> {
    if eq_ignoring_ascii_case(Moderation::Unknown.str_name(), name) {
        Some(Moderation::Unknown)
    } else if eq_ignoring_ascii_case(Moderation::Unmoderated.str_name(), name) {
        Some(Moderation::Unmoderated)
    } else if eq_ignoring_ascii_case(Moderation::Pending.str_name(), name) {
        Some(Moderation::Pending)
    } else if eq_ignoring_ascii_case(Moderation::Approved.str_name(), name) {
        Some(Moderation::Approved)
    } else if eq_ignoring_ascii_case(Moderation::Rejected.str_name(), name) {
        Some(Moderation::Rejected)
    } else {
        None
    }
}

pub fn to_proto_moderation(name: &str) -> (r: Option<Moderation>)
    ensures
        r == moderation_of_name(name@),
{
    if eq_ignore_ascii_case(Moderation::Unknown.as_str_name(), name) {
        Some(Moderation::Unknown)
    } else if eq_ignore_ascii_case(Moderation::Unmoderated.as_str_name(), name) {
        Some(Moderation::Unmoderated)
    } else if eq_ignore_ascii_case(Moderation::Pending.as_str_name(), name) {
        Some(Moderation::Pending)
    } else if eq_ignore_ascii_case(Moderation::Approved.as_str_name(), name) {
        Some(Moderation::Approved)
    } else if eq_ignore_ascii_case(Moderation::Rejected.as_str_name(), name) {
        Some(Moderation::Rejected)
    } else {
        None
    }
}

/// The permission that a stored name denotes, if any.
pub open spec fn permission_of_name(name: Seq<char>) -> Option<Permission> {
    if eq_ignoring_ascii_case(Permission::Unknown.str_name(), name) {
        Some(Permission::Unknown)
    } else if eq_ignoring_ascii_case(Permission::ViewPosts.str_name(), name) {
        Some(Permission::ViewPosts)
    } else if eq_ignoring_ascii_case(Permission::CreatePosts.str_name(), name) {
        Some(Permission::CreatePosts)
    } else if eq_ignoring_ascii_case(Permission::ModeratePosts.str_name(), name) {
        Some(Permission::ModeratePosts)
    } else if eq_ignoring_ascii_case(Permission::ViewEvents.str_name(), name) {
        Some(Permission::ViewEvents)
    } else if eq_ignoring_ascii_case(Permission::CreateEvents.str_name(), name) {
        Some(Permission::CreateEvents)
    } else if eq_ignoring_ascii_case(Permission::ModerateEvents.str_name(), name) {
        Some(Permission::ModerateEvents)
    } else if eq_ignoring_ascii_case(Permission::ModerateUsers.str_name(), name) {
        Some(Permission::ModerateUsers)
    } else if eq_ignoring_ascii_case(Permission::Admin.str_name(), name) {
        Some(Permission::Admin)
    } else {
        None
    }
}

pub fn to_proto_permission(name: &str) -> (r: Option<Permission>)
    ensures
        r == permission_of_name(name@),
{
    if eq_ignore_ascii_case(Permission::Unknown.as_str_name(), name) {
        Some(Permission::Unknown)
    } else if eq_ignore_ascii_case(Permission::ViewPosts.as_str_name(), name) {
        Some(Permission::ViewPosts)
    } else if eq_ignore_ascii_case(Permission::CreatePosts.as_str_name(), name) {
        Some(Permission::CreatePosts)
    } else if eq_ignore_ascii_case(Permission::ModeratePosts.as_str_name(), name) {
        Some(Permission::ModeratePosts)
    } else if eq_ignore_ascii_case(Permission::ViewEvents.as_str_name(), name) {
        Some(Permission::ViewEvents)
    } else if eq_ignore_ascii_case(Permission::CreateEvents.as_str_name(), name) {
        Some(Permission::CreateEvents)
    } else if eq_ignore_ascii_case(Permission::ModerateEvents.as_str_name(), name) {
        Some(Permission::ModerateEvents)
    } else if eq_ignore_ascii_case(Permission::ModerateUsers.as_str_name(), name) {
        Some(Permission::ModerateUsers)
    } else if eq_ignore_ascii_case(Permission::Admin.as_str_name(), name) {
        Some(Permission::Admin)
    } else {
        None
    }
}

/// Every name denotes a permission.
pub open spec fn all_named(names: Seq<String>) -> bool {
    forall|i: int| 0 <= i < names.len() ==> permission_of_name((#[trigger] names[i])@) is Some
}

/// Reads a permission list that is stored by name. Fails exactly where some
/// name denotes no permission.
pub fn to_permissions_by_name(names: &Vec<String>) -> (r: Result<Vec<Permission>, Status>)
    ensures
        match r {
            Ok(set) => {
                &&& all_named(names@)
                &&& set@.len() == names@.len()
                &&& forall|i: int|
                    0 <= i < names@.len() ==> Some(#[trigger] set@[i]) == permission_of_name(
                        names@[i]@,
                    )
            },
            Err(e) => !all_named(names@) && e == invalid(Reason::UnrecognizedPermission),
        },
{
    let mut out: Vec<Permission> = Vec::new();
    let mut i: usize = 0;
    while i < names.len()
        invariant
            0 <= i <= names.len(),
            out@.len() == i,
            forall|j: int| 0 <= j < i ==> permission_of_name((#[trigger] names@[j])@) is Some,
            forall|j: int|
                0 <= j < i ==> Some(#[trigger] out@[j]) == permission_of_name(names@[j]@),
        decreases names.len() - i,
    {
        match to_proto_permission(names[i].as_str()) {
            None => {
                assert(permission_of_name(names@[i as int]@) is None);
                return Err(invalid_argument(Reason::UnrecognizedPermission));
            },
            Some(p) => {
                out.push(p);
            },
        }
        i = i + 1;
    }
    Ok(out)
}

} // verus!
