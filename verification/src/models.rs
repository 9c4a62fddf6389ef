//! Stored entities, as plain values.

use vstd::prelude::*;
use crate::protos::{Moderation, Permission, PostContext, Timestamp, Visibility};

pub mod user_models;

verus! {

/// A stored post.
#[derive(Clone, Debug, PartialEq, Eq)]
pub struct Post {
    pub id: i64,
    pub user_id: Option<i64>,
    pub parent_post_id: Option<i64>,
    pub title: String,
    pub link: Option<String>,
    pub content: Option<String>,
    pub media: Vec<i64>,
    pub media_generated: bool,
    pub embed_link: bool,
    pub shareable: bool,
    pub context: PostContext,
    pub visibility: Visibility,
    pub moderation: Moderation,
    pub response_count: i32,
    pub reply_count: i32,
    pub group_count: i32,
    pub created_at: Timestamp,
    pub updated_at: Option<Timestamp>,
    pub published_at: Option<Timestamp>,
    pub last_activity_at: Timestamp,
}

/// What is needed to store a new post.
#[derive(Clone, Debug, PartialEq, Eq)]
pub struct NewPost {
    pub user_id: Option<i64>,
    pub parent_post_id: Option<i64>,
    pub title: String,
    pub link: Option<String>,
    pub content: Option<String>,
    pub published: bool,
    pub context: PostContext,
    pub visibility: Visibility,
}

/// A stored group.
#[derive(Clone, Debug, PartialEq, Eq)]
pub struct Group {
    pub id: i64,
    pub name: String,
    pub shortname: String,
    pub description: String,
    pub avatar_media_id: Option<i64>,
    pub visibility: Visibility,
    pub default_membership_permissions: Vec<Permission>,
    pub default_membership_moderation: Moderation,
    pub default_post_moderation: Moderation,
    pub default_event_moderation: Moderation,
    pub post_count: i32,
}

/// The stored placement of a post in a group, proposed by a member.
#[derive(Clone, Copy, Debug, PartialEq, Eq, Structural)]
pub struct GroupPost {
    pub group_id: i64,
    pub post_id: i64,
    pub user_id: i64,
    pub group_moderation: Moderation,
    pub created_at: Timestamp,
}

/// A stored membership of a user in a group. The group and the user each
/// moderate it on their own.
#[derive(Clone, Debug, PartialEq, Eq)]
pub struct Membership {
    pub user_id: i64,
    pub group_id: i64,
    pub permissions: Vec<Permission>,
    pub group_moderation: Moderation,
    pub user_moderation: Moderation,
    pub created_at: Timestamp,
}

} // verus!
