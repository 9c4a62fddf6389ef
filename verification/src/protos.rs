//! Wire-level vocabulary: the closed enumerations and the request payloads.
//!
//! Enumerations travel as `i32`. Every conversion from a raw number is
//! checked: a number outside the enumeration yields `None`.

use vstd::prelude::*;

verus! {

/// A capability tag. `Unknown` is the sentinel and is never a grantable value.
#[derive(Clone, Copy, Debug, PartialEq, Eq, Structural)]
pub enum Permission {
    Unknown,
    ViewPosts,
    CreatePosts,
    ModeratePosts,
    ViewEvents,
    CreateEvents,
    ModerateEvents,
    ModerateUsers,
    Admin,
}

impl Permission {
    /// True for every value but the sentinel.
    pub open spec fn recognized(self) -> bool {
        self != Permission::Unknown
    }

    pub fn is_recognized(self) -> (r: bool)
        ensures
            r == self.recognized(),
    {
        match self {
            Permission::Unknown => false,
            _ => true,
        }
    }

    /// The wire number of the permission.
    pub open spec fn number(self) -> int {
        match self {
            Permission::Unknown => 0,
            Permission::ViewPosts => 1,
            Permission::CreatePosts => 2,
            Permission::ModeratePosts => 3,
            Permission::ViewEvents => 4,
            Permission::CreateEvents => 5,
            Permission::ModerateEvents => 6,
            Permission::ModerateUsers => 7,
            Permission::Admin => 8,
        }
    }

    pub fn to_i32(self) -> (r: i32)
        ensures
            r == self.number(),
    {
        match self {
            Permission::Unknown => 0,
            Permission::ViewPosts => 1,
            Permission::CreatePosts => 2,
            Permission::ModeratePosts => 3,
            Permission::ViewEvents => 4,
            Permission::CreateEvents => 5,
            Permission::ModerateEvents => 6,
            Permission::ModerateUsers => 7,
            Permission::Admin => 8,
        }
    }

    /// The permission with the given wire number, if there is one.
    pub open spec fn of_number(raw: int) -> Option<Permission> {
        if raw == 0 {
            Some(Permission::Unknown)
        } else if raw == 1 {
            Some(Permission::ViewPosts)
        } else if raw == 2 {
            Some(Permission::CreatePosts)
        } else if raw == 3 {
            Some(Permission::ModeratePosts)
        } else if raw == 4 {
            Some(Permission::ViewEvents)
        } else if raw == 5 {
            Some(Permission::CreateEvents)
        } else if raw == 6 {
            Some(Permission::ModerateEvents)
        } else if raw == 7 {
            Some(Permission::ModerateUsers)
        } else if raw == 8 {
            Some(Permission::Admin)
        } else {
            None
        }
    }

    pub fn from_i32(raw: i32) -> (r: Option<Permission>)
        ensures
            r == Permission::of_number(raw as int),
    {
        match raw {
            0 => Some(Permission::Unknown),
            1 => Some(Permission::ViewPosts),
            2 => Some(Permission::CreatePosts),
            3 => Some(Permission::ModeratePosts),
            4 => Some(Permission::ViewEvents),
            5 => Some(Permission::CreateEvents),
            6 => Some(Permission::ModerateEvents),
            7 => Some(Permission::ModerateUsers),
            8 => Some(Permission::Admin),
            _ => None,
        }
    }

    /// The wire name of the permission.
    pub open spec fn str_name(self) -> Seq<char> {
        match self {
            Permission::Unknown => "PERMISSION_UNKNOWN"@,
            Permission::ViewPosts => "VIEW_POSTS"@,
            Permission::CreatePosts => "CREATE_POSTS"@,
            Permission::ModeratePosts => "MODERATE_POSTS"@,
            Permission::ViewEvents => "VIEW_EVENTS"@,
            Permission::CreateEvents => "CREATE_EVENTS"@,
            Permission::ModerateEvents => "MODERATE_EVENTS"@,
            Permission::ModerateUsers => "MODERATE_USERS"@,
            Permission::Admin => "ADMIN"@,
        }
    }

    pub fn as_str_name(self) -> (r: &'static str)
        ensures
            r@ == self.str_name(),
    {
        match self {
            Permission::Unknown => "PERMISSION_UNKNOWN",
            Permission::ViewPosts => "VIEW_POSTS",
            Permission::CreatePosts => "CREATE_POSTS",
            Permission::ModeratePosts => "MODERATE_POSTS",
            Permission::ViewEvents => "VIEW_EVENTS",
            Permission::CreateEvents => "CREATE_EVENTS",
            Permission::ModerateEvents => "MODERATE_EVENTS",
            Permission::ModerateUsers => "MODERATE_USERS",
            Permission::Admin => "ADMIN",
        }
    }
}

/// Who may read an entity. `Unknown` is the sentinel.
#[derive(Clone, Copy, Debug, PartialEq, Eq, Structural)]
pub enum Visibility {
    Unknown,
    Private,
    Limited,
    ServerPublic,
    GlobalPublic,
}

impl Visibility {
    pub open spec fn number(self) -> int {
        match self {
            Visibility::Unknown => 0,
            Visibility::Private => 1,
            Visibility::Limited => 2,
            Visibility::ServerPublic => 3,
            Visibility::GlobalPublic => 4,
        }
    }

    pub fn to_i32(self) -> (r: i32)
        ensures
            r == self.number(),
    {
        match self {
            Visibility::Unknown => 0,
            Visibility::Private => 1,
            Visibility::Limited => 2,
            Visibility::ServerPublic => 3,
            Visibility::GlobalPublic => 4,
        }
    }

    pub open spec fn of_number(raw: int) -> Option<Visibility> {
        if raw == 0 {
            Some(Visibility::Unknown)
        } else if raw == 1 {
            Some(Visibility::Private)
        } else if raw == 2 {
            Some(Visibility::Limited)
        } else if raw == 3 {
            Some(Visibility::ServerPublic)
        } else if raw == 4 {
            Some(Visibility::GlobalPublic)
        } else {
            None
        }
    }

    pub fn from_i32(raw: i32) -> (r: Option<Visibility>)
        ensures
            r == Visibility::of_number(raw as int),
    {
        match raw {
            0 => Some(Visibility::Unknown),
            1 => Some(Visibility::Private),
            2 => Some(Visibility::Limited),
            3 => Some(Visibility::ServerPublic),
            4 => Some(Visibility::GlobalPublic),
            _ => None,
        }
    }

    /// True where anyone, signed in or not, may read.
    pub open spec fn permits_public_read(self) -> bool {
        self == Visibility::GlobalPublic
    }

    pub fn is_public(self) -> (r: bool)
        ensures
            r == self.permits_public_read(),
    {
        match self {
            Visibility::GlobalPublic => true,
            _ => false,
        }
    }

    pub open spec fn str_name(self) -> Seq<char> {
        match self {
            Visibility::Unknown => "VISIBILITY_UNKNOWN"@,
            Visibility::Private => "PRIVATE"@,
            Visibility::Limited => "LIMITED"@,
            Visibility::ServerPublic => "SERVER_PUBLIC"@,
            Visibility::GlobalPublic => "GLOBAL_PUBLIC"@,
        }
    }

    pub fn as_str_name(self) -> (r: &'static str)
        ensures
            r@ == self.str_name(),
    {
        match self {
            Visibility::Unknown => "VISIBILITY_UNKNOWN",
            Visibility::Private => "PRIVATE",
            Visibility::Limited => "LIMITED",
            Visibility::ServerPublic => "SERVER_PUBLIC",
            Visibility::GlobalPublic => "GLOBAL_PUBLIC",
        }
    }
}

/// Lifecycle tag of a moderated relationship. `Unknown` is the sentinel.
#[derive(Clone, Copy, Debug, PartialEq, Eq, Structural)]
pub enum Moderation {
    Unknown,
    Unmoderated,
    Pending,
    Approved,
    Rejected,
}

impl Moderation {
    pub open spec fn number(self) -> int {
        match self {
            Moderation::Unknown => 0,
            Moderation::Unmoderated => 1,
            Moderation::Pending => 2,
            Moderation::Approved => 3,
            Moderation::Rejected => 4,
        }
    }

    pub fn to_i32(self) -> (r: i32)
        ensures
            r == self.number(),
    {
        match self {
            Moderation::Unknown => 0,
            Moderation::Unmoderated => 1,
            Moderation::Pending => 2,
            Moderation::Approved => 3,
            Moderation::Rejected => 4,
        }
    }

    pub open spec fn of_number(raw: int) -> Option<Moderation> {
        if raw == 0 {
            Some(Moderation::Unknown)
        } else if raw == 1 {
            Some(Moderation::Unmoderated)
        } else if raw == 2 {
            Some(Moderation::Pending)
        } else if raw == 3 {
            Some(Moderation::Approved)
        } else if raw == 4 {
            Some(Moderation::Rejected)
        } else {
            None
        }
    }

    pub fn from_i32(raw: i32) -> (r: Option<Moderation>)
        ensures
            r == Moderation::of_number(raw as int),
    {
        match raw {
            0 => Some(Moderation::Unknown),
            1 => Some(Moderation::Unmoderated),
            2 => Some(Moderation::Pending),
            3 => Some(Moderation::Approved),
            4 => Some(Moderation::Rejected),
            _ => None,
        }
    }

    /// A passing state counts toward aggregates: unmoderated or approved.
    pub open spec fn passing(self) -> bool {
        self == Moderation::Unmoderated || self == Moderation::Approved
    }

    pub fn is_passing(self) -> (r: bool)
        ensures
            r == self.passing(),
    {
        match self {
            Moderation::Unmoderated | Moderation::Approved => true,
            _ => false,
        }
    }

    /// An open state is one a payload may declare: unmoderated or pending.
    pub open spec fn open_state(self) -> bool {
        self == Moderation::Unmoderated || self == Moderation::Pending
    }

    pub fn is_open(self) -> (r: bool)
        ensures
            r == self.open_state(),
    {
        match self {
            Moderation::Unmoderated | Moderation::Pending => true,
            _ => false,
        }
    }

    /// A decision closes a request: approved or rejected.
    pub open spec fn decision(self) -> bool {
        self == Moderation::Approved || self == Moderation::Rejected
    }

    pub fn is_decision(self) -> (r: bool)
        ensures
            r == self.decision(),
    {
        match self {
            Moderation::Approved | Moderation::Rejected => true,
            _ => false,
        }
    }

    pub open spec fn str_name(self) -> Seq<char> {
        match self {
            Moderation::Unknown => "MODERATION_UNKNOWN"@,
            Moderation::Unmoderated => "UNMODERATED"@,
            Moderation::Pending => "PENDING"@,
            Moderation::Approved => "APPROVED"@,
            Moderation::Rejected => "REJECTED"@,
        }
    }

    pub fn as_str_name(self) -> (r: &'static str)
        ensures
            r@ == self.str_name(),
    {
        match self {
            Moderation::Unknown => "MODERATION_UNKNOWN",
            Moderation::Unmoderated => "UNMODERATED",
            Moderation::Pending => "PENDING",
            Moderation::Approved => "APPROVED",
            Moderation::Rejected => "REJECTED",
        }
    }
}

/// What kind of content a post is.
#[derive(Clone, Copy, Debug, PartialEq, Eq, Structural)]
pub enum PostContext {
    Post,
    Reply,
    Event,
    EventInstance,
}

impl PostContext {
    pub open spec fn number(self) -> int {
        match self {
            PostContext::Post => 0,
            PostContext::Reply => 1,
            PostContext::Event => 2,
            PostContext::EventInstance => 3,
        }
    }

    pub fn to_i32(self) -> (r: i32)
        ensures
            r == self.number(),
    {
        match self {
            PostContext::Post => 0,
            PostContext::Reply => 1,
            PostContext::Event => 2,
            PostContext::EventInstance => 3,
        }
    }

    pub open spec fn of_number(raw: int) -> Option<PostContext> {
        if raw == 0 {
            Some(PostContext::Post)
        } else if raw == 1 {
            Some(PostContext::Reply)
        } else if raw == 2 {
            Some(PostContext::Event)
        } else if raw == 3 {
            Some(PostContext::EventInstance)
        } else {
            None
        }
    }

    pub fn from_i32(raw: i32) -> (r: Option<PostContext>)
        ensures
            r == PostContext::of_number(raw as int),
    {
        match raw {
            0 => Some(PostContext::Post),
            1 => Some(PostContext::Reply),
            2 => Some(PostContext::Event),
            3 => Some(PostContext::EventInstance),
            _ => None,
        }
    }

    pub open spec fn str_name(self) -> Seq<char> {
        match self {
            PostContext::Post => "POST"@,
            PostContext::Reply => "REPLY"@,
            PostContext::Event => "EVENT"@,
            PostContext::EventInstance => "EVENT_INSTANCE"@,
        }
    }

    pub fn as_str_name(self) -> (r: &'static str)
        ensures
            r@ == self.str_name(),
    {
        match self {
            PostContext::Post => "POST",
            PostContext::Reply => "REPLY",
            PostContext::Event => "EVENT",
            PostContext::EventInstance => "EVENT_INSTANCE",
        }
    }
}

/// A point in time on the wire: seconds and nanoseconds since the epoch.
#[derive(Clone, Copy, Debug, PartialEq, Eq, Structural)]
pub struct Timestamp {
    pub seconds: i64,
    pub nanos: i32,
}

/// A way to reach a user.
#[derive(Clone, Debug, PartialEq, Eq)]
pub struct ContactMethod {
    pub value: String,
}

/// A user as sent by a client.
#[derive(Clone, Debug, PartialEq, Eq)]
pub struct User {
    pub id: String,
    pub username: String,
    pub email: Option<ContactMethod>,
    pub phone: Option<ContactMethod>,
    pub permissions: Vec<i32>,
    pub avatar_media_id: Option<String>,
    pub bio: String,
    pub visibility: i32,
    pub moderation: i32,
    pub default_follow_moderation: i32,
    pub follower_count: i32,
    pub following_count: i32,
    pub group_count: i32,
    pub post_count: i32,
    pub response_count: i32,
    pub event_count: i32,
}

/// A follow relationship as sent by a client.
#[derive(Clone, Debug, PartialEq, Eq)]
pub struct Follow {
    pub user_id: String,
    pub target_user_id: String,
    pub target_user_moderation: i32,
}

/// A group as sent by a client.
#[derive(Clone, Debug, PartialEq, Eq)]
pub struct Group {
    pub id: String,
    pub name: String,
    pub shortname: String,
    pub description: String,
    pub avatar_media_id: Option<String>,
    pub default_membership_permissions: Vec<i32>,
    pub default_membership_moderation: i32,
    pub default_post_moderation: i32,
    pub default_event_moderation: i32,
    pub visibility: i32,
    pub post_count: i32,
}

/// A membership as sent by a client.
#[derive(Clone, Debug, PartialEq, Eq)]
pub struct Membership {
    pub user_id: String,
    pub group_id: String,
    pub permissions: Vec<i32>,
    pub group_moderation: i32,
    pub user_moderation: i32,
}

/// The author line of a post.
#[derive(Clone, Debug, PartialEq, Eq)]
pub struct Author {
    pub user_id: String,
    pub username: Option<String>,
}

/// The placement of a post in a group, as shown to clients.
#[derive(Clone, Debug, PartialEq, Eq)]
pub struct GroupPost {
    pub group_id: String,
    pub post_id: String,
    pub user_id: String,
    pub group_moderation: i32,
    pub created_at: Option<Timestamp>,
}

/// A post as shown to clients.
#[derive(Debug, PartialEq, Eq)]
pub struct Post {
    pub id: String,
    pub reply_to_post_id: Option<String>,
    pub author: Option<Author>,
    pub title: String,
    pub link: Option<String>,
    pub content: Option<String>,
    pub response_count: i32,
    pub reply_count: i32,
    pub group_count: i32,
    pub current_group_post: Option<GroupPost>,
    pub media: Vec<String>,
    pub media_generated: bool,
    pub embed_link: bool,
    pub shareable: bool,
    pub context: i32,
    pub visibility: i32,
    pub moderation: i32,
    pub replies: Vec<Post>,
    pub created_at: Option<Timestamp>,
    pub updated_at: Option<Timestamp>,
    pub published_at: Option<Timestamp>,
    pub last_activity_at: Option<Timestamp>,
}

} // verus!
