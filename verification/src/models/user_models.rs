//! Stored users and the follows between them.

use vstd::prelude::*;
use crate::protos::{Moderation, Permission, Timestamp, Visibility};
use crate::status::{Code, Reason, Status};
use crate::store::Store;

verus! {

/// A stored user.
#[derive(Clone, Debug, PartialEq, Eq)]
pub struct User {
    pub id: i64,
    pub username: String,
    pub password_salted_hash: String,
    pub real_name: String,
    pub email: Option<String>,
    pub phone: Option<String>,
    pub permissions: Vec<Permission>,
    pub avatar_media_id: Option<i64>,
    pub bio: String,
    pub visibility: Visibility,
    pub moderation: Moderation,
    pub default_follow_moderation: Moderation,
    pub follower_count: i32,
    pub following_count: i32,
    pub group_count: i32,
    pub post_count: i32,
    pub event_count: i32,
    pub response_count: i32,
    pub created_at: Timestamp,
    pub updated_at: Timestamp,
}

/// A stored follow: `user_id` follows `target_user_id`.
#[derive(Clone, Copy, Debug, PartialEq, Eq, Structural)]
pub struct Follow {
    pub id: i64,
    pub user_id: i64,
    pub target_user_id: i64,
    pub target_user_moderation: Moderation,
    pub created_at: Timestamp,
    pub updated_at: Timestamp,
}

/// What is needed to store a new follow.
#[derive(Clone, Copy, Debug, PartialEq, Eq, Structural)]
pub struct NewFollow {
    pub user_id: i64,
    pub target_user_id: i64,
    pub target_user_moderation: Moderation,
}

/// What looking up one user in storage gave.
pub enum UserLookup {
    /// The user's row.
    Found(User),
    /// No row has the id.
    Missing,
    /// The lookup itself failed.
    Failed,
}

pub open spec fn user_resolution(lookup: UserLookup) -> Result<User, Status> {
    match lookup {
        UserLookup::Found(user) => Ok(user),
        UserLookup::Missing => Err(Status { code: Code::NotFound, reason: Reason::UserNotFound }),
        UserLookup::Failed => Err(Status { code: Code::Internal, reason: Reason::DataError }),
    }
}

/// Decides what a lookup means: a row is the user, no row is a user that is
/// not found, and a lookup that failed is an internal failure, never a
/// missing user.
pub fn resolve_user(lookup: UserLookup) -> (r: Result<User, Status>)
    ensures
        r == user_resolution(lookup),
{
    match lookup {
        UserLookup::Found(user) => Ok(user),
        UserLookup::Missing => Err(Status::new(Code::NotFound, Reason::UserNotFound)),
        UserLookup::Failed => Err(Status::new(Code::Internal, Reason::DataError)),
    }
}

/// Row `i` is the first user with the id.
pub open spec fn first_user_at(users: Seq<User>, id: i64, i: int) -> bool {
    &&& 0 <= i < users.len()
    &&& users[i].id == id
    &&& forall|j: int| 0 <= j < i ==> (#[trigger] users[j]).id != id
}

/// Fetches the user with the given id: the first such row. Where no row has
/// the id, the user is not found.
pub fn get_user(user_id: i64, store: &Store) -> (r: Result<&User, Status>)
    ensures
        match r {
            Ok(user) => exists|i: int|
                first_user_at(store@.users, user_id, i) && *user == store@.users[i],
            Err(e) => e == (Status { code: Code::NotFound, reason: Reason::UserNotFound })
                && forall|i: int|
                0 <= i < store@.users.len() ==> (#[trigger] store@.users[i]).id != user_id,
        },
{
    let mut i: usize = 0;
    while i < store.users.len()
        invariant
            0 <= i <= store.users.len(),
            forall|j: int| 0 <= j < i ==> (#[trigger] store.users@[j]).id != user_id,
        decreases store.users.len() - i,
    {
        if store.users[i].id == user_id {
            assert(first_user_at(store@.users, user_id, i as int));
            return Ok(&store.users[i]);
        }
        i = i + 1;
    }
    Err(Status::new(Code::NotFound, Reason::UserNotFound))
}

} // verus!
