//! Authorization: who may read or write what.

use vstd::prelude::*;
use crate::models::user_models::User;
use crate::models::Post;
use crate::permissions::has_permission;
use crate::protos::{Moderation, Permission, PostContext, Visibility};
use crate::status::{Code, Reason, Status};
use crate::store::Store;

verus! {

/// An authenticated identity. The anonymous actor is `None`.
#[derive(Clone, Debug, PartialEq, Eq)]
pub struct Actor {
    pub user_id: i64,
    pub permissions: Vec<Permission>,
}

/// What an actor wants to do with an entity.
#[derive(Clone, Copy, Debug, PartialEq, Eq, Structural)]
pub enum Access {
    Read,
    Create,
    Update,
    Delete,
}

/// The kind of entity that is acted on.
#[derive(Clone, Copy, Debug, PartialEq, Eq, Structural)]
pub enum EntityKind {
    User,
    Post,
    Event,
}

/// What authorization needs to know of an entity.
#[derive(Clone, Copy, Debug, PartialEq, Eq, Structural)]
pub struct Target {
    pub kind: EntityKind,
    pub owner: Option<i64>,
    pub visibility: Visibility,
    pub moderation: Moderation,
}

/// The permission that lets an actor act on entities of a kind that it does
/// not own.
pub open spec fn moderating_permission(kind: EntityKind) -> Permission {
    match kind {
        EntityKind::User => Permission::ModerateUsers,
        EntityKind::Post => Permission::ModeratePosts,
        EntityKind::Event => Permission::ModerateEvents,
    }
}

/// The kind of entity that a post of a given context is.
pub open spec fn kind_of_context(context: PostContext) -> EntityKind {
    match context {
        PostContext::Post => EntityKind::Post,
        PostContext::Reply => EntityKind::Post,
        PostContext::Event => EntityKind::Event,
        PostContext::EventInstance => EntityKind::Event,
    }
}

/// What authorization needs to know of a post.
pub open spec fn target_of_post(post: Post) -> Target {
    Target {
        kind: kind_of_context(post.context),
        owner: post.user_id,
        visibility: post.visibility,
        moderation: post.moderation,
    }
}

/// What authorization needs to know of a user record, which belongs to
/// the user itself.
pub open spec fn target_of_user(user: User) -> Target {
    Target {
        kind: EntityKind::User,
        owner: Some(user.id),
        visibility: user.visibility,
        moderation: user.moderation,
    }
}

impl Target {
    /// Anyone may read the entity: its visibility is public and its
    /// moderation is passing.
    pub open spec fn publicly_readable(self) -> bool {
        self.visibility.permits_public_read() && self.moderation.passing()
    }

    pub fn of_post(post: &Post) -> (r: Target)
        ensures
            r == target_of_post(*post),
    {
        let kind = match post.context {
            PostContext::Post => EntityKind::Post,
            PostContext::Reply => EntityKind::Post,
            PostContext::Event => EntityKind::Event,
            PostContext::EventInstance => EntityKind::Event,
        };
        Target {
            kind,
            owner: post.user_id,
            visibility: post.visibility,
            moderation: post.moderation,
        }
    }

    pub fn of_user(user: &User) -> (r: Target)
        ensures
            r == target_of_user(*user),
    {
        Target {
            kind: EntityKind::User,
            owner: Some(user.id),
            visibility: user.visibility,
            moderation: user.moderation,
        }
    }
}

impl Actor {
    /// The actor owns the entity.
    pub open spec fn owns(self, target: Target) -> bool {
        target.owner == Some(self.user_id)
    }

    /// The actor holds `Admin` or the permission that moderates the
    /// entity's kind.
    pub open spec fn moderates(self, target: Target) -> bool {
        self.permissions@.contains(Permission::Admin) || self.permissions@.contains(
            moderating_permission(target.kind),
        )
    }
}

/// Whether the actor is let through. Everyone may read what is
/// publicly readable; an authenticated actor may do anything to what it owns
/// and, with `Admin` or the moderating permission, to what it does not own.
/// The anonymous actor never writes.
pub open spec fn allowed(actor: Option<Actor>, target: Target, access: Access) -> bool {
    match actor {
        None => access == Access::Read && target.publicly_readable(),
        Some(a) => (access == Access::Read && target.publicly_readable()) || a.owns(target)
            || a.moderates(target),
    }
}

pub open spec fn permission_denied() -> Status {
    Status { code: Code::PermissionDenied, reason: Reason::PermissionDenied }
}

pub open spec fn unauthenticated() -> Status {
    Status { code: Code::Unauthenticated, reason: Reason::Unauthenticated }
}

/// The verdict on an access. A write without an actor lacks authentication; every
/// other refusal is a denial of permission.
pub open spec fn access_verdict(actor: Option<Actor>, target: Target, access: Access) -> Result<
    (),
    Status,
> {
    if allowed(actor, target, access) {
        Ok(())
    } else if actor is None && access != Access::Read {
        Err(unauthenticated())
    } else {
        Err(permission_denied())
    }
}

fn moderating(kind: EntityKind) -> (r: Permission)
    ensures
        r == moderating_permission(kind),
{
    match kind {
        EntityKind::User => Permission::ModerateUsers,
        EntityKind::Post => Permission::ModeratePosts,
        EntityKind::Event => Permission::ModerateEvents,
    }
}

/// Decides whether the actor may do `access` to the target.
pub fn authorize(actor: &Option<Actor>, target: &Target, access: Access) -> (r: Result<(), Status>)
    ensures
        r == access_verdict(*actor, *target, access),
{
    let public_read = match access {
        Access::Read => target.visibility.is_public() && target.moderation.is_passing(),
        _ => false,
    };
    match actor {
        None => {
            if public_read {
                Ok(())
            } else {
                match access {
                    Access::Read => Err(
                        Status::new(Code::PermissionDenied, Reason::PermissionDenied),
                    ),
                    _ => Err(Status::new(Code::Unauthenticated, Reason::Unauthenticated)),
                }
            }
        },
        Some(a) => {
            let owns = match target.owner {
                Some(owner) => owner == a.user_id,
                None => false,
            };
            if public_read || owns || has_permission(&a.permissions, Permission::Admin)
                || has_permission(&a.permissions, moderating(target.kind)) {
                Ok(())
            } else {
                Err(Status::new(Code::PermissionDenied, Reason::PermissionDenied))
            }
        },
    }
}

/// Whether the actor may decide on a moderated relationship: it holds
/// `Admin` or the permission that moderates the kind, or it is the user
/// whose consent the relationship awaits.
pub open spec fn may_decide(actor: Option<Actor>, kind: EntityKind, consenting: Option<i64>) -> bool {
    match actor {
        None => false,
        Some(a) => consenting == Some(a.user_id) || a.permissions@.contains(Permission::Admin)
            || a.permissions@.contains(moderating_permission(kind)),
    }
}

/// The verdict on a decision: without an actor it lacks authentication, and
/// an actor that may not decide is denied.
pub open spec fn decision_access_verdict(
    actor: Option<Actor>,
    kind: EntityKind,
    consenting: Option<i64>,
) -> Result<(), Status> {
    if may_decide(actor, kind, consenting) {
        Ok(())
    } else if actor is None {
        Err(unauthenticated())
    } else {
        Err(permission_denied())
    }
}

/// Decides whether the actor may set a moderated relationship of the given
/// kind to approved or rejected. `consenting` is the user whose own consent
/// the relationship awaits, where there is one.
pub fn authorize_decision(actor: &Option<Actor>, kind: EntityKind, consenting: Option<i64>) -> (r:
    Result<(), Status>)
    ensures
        r == decision_access_verdict(*actor, kind, consenting),
{
    match actor {
        None => Err(Status::new(Code::Unauthenticated, Reason::Unauthenticated)),
        Some(a) => {
            let consents = match consenting {
                Some(user_id) => user_id == a.user_id,
                None => false,
            };
            if consents || has_permission(&a.permissions, Permission::Admin) || has_permission(
                &a.permissions,
                moderating(kind),
            ) {
                Ok(())
            } else {
                Err(Status::new(Code::PermissionDenied, Reason::PermissionDenied))
            }
        },
    }
}

/// Row `i` is the first post with the id.
pub open spec fn first_post_at(posts: Seq<Post>, id: i64, i: int) -> bool {
    &&& 0 <= i < posts.len()
    &&& posts[i].id == id
    &&& forall|j: int| 0 <= j < i ==> (#[trigger] posts[j]).id != id
}

/// The posts that the actor may read.
pub open spec fn readable_by(actor: Option<Actor>) -> spec_fn(Post) -> bool {
    |post: Post| allowed(actor, target_of_post(post), Access::Read)
}

impl Store {
    /// Fetches a post for reading. A post that does not exist is not found;
    /// one that exists but may not be read is denied.
    pub fn read_post(&self, actor: &Option<Actor>, post_id: i64) -> (r: Result<&Post, Status>)
        ensures
            match r {
                Ok(post) => exists|i: int|
                    first_post_at(self@.posts, post_id, i) && *post == self@.posts[i] && allowed(
                        *actor,
                        target_of_post(*post),
                        Access::Read,
                    ),
                Err(e) => if forall|i: int|
                    0 <= i < self@.posts.len() ==> (#[trigger] self@.posts[i]).id != post_id {
                    e == (Status { code: Code::NotFound, reason: Reason::PostNotFound })
                } else {
                    e == permission_denied() && exists|i: int|
                        first_post_at(self@.posts, post_id, i) && !allowed(
                            *actor,
                            target_of_post(self@.posts[i]),
                            Access::Read,
                        )
                },
            },
    {
        let mut i: usize = 0;
        while i < self.posts.len()
            invariant
                0 <= i <= self.posts.len(),
                forall|j: int| 0 <= j < i ==> (#[trigger] self.posts@[j]).id != post_id,
            decreases self.posts.len() - i,
        {
            if self.posts[i].id == post_id {
                let post = &self.posts[i];
                assert(first_post_at(self@.posts, post_id, i as int));
                let target = Target::of_post(post);
                return match authorize(actor, &target, Access::Read) {
                    Ok(()) => Ok(post),
                    Err(e) => Err(e),
                };
            }
            i = i + 1;
        }
        Err(Status::new(Code::NotFound, Reason::PostNotFound))
    }

    /// The posts that the actor may read, in their stored order. What the
    /// actor may not read is left out.
    pub fn get_posts(&self, actor: &Option<Actor>) -> (r: Vec<&Post>)
        ensures
            r@.map_values(|post: &Post| *post) == self@.posts.filter(readable_by(*actor)),
    {
        let ghost pred = readable_by(*actor);
        let mut out: Vec<&Post> = Vec::new();
        let mut i: usize = 0;
        proof {
            reveal(Seq::filter);
            assert(self.posts@.take(0) =~= Seq::<Post>::empty());
            assert(out@.map_values(|post: &Post| *post) =~= Seq::<Post>::empty());
        }
        while i < self.posts.len()
            invariant
                0 <= i <= self.posts.len(),
                pred == readable_by(*actor),
                out@.map_values(|post: &Post| *post) == self.posts@.take(i as int).filter(pred),
            decreases self.posts.len() - i,
        {
            let post = &self.posts[i];
            let target = Target::of_post(post);
            let ghost before = out@.map_values(|post: &Post| *post);
            proof {
                reveal(Seq::filter);
                assert(self.posts@.take(i + 1).drop_last() =~= self.posts@.take(i as int));
                assert(self.posts@.take(i + 1).last() == *post);
            }
            if authorize(actor, &target, Access::Read).is_ok() {
                out.push(post);
                assert(out@.map_values(|post: &Post| *post) =~= before.push(*post));
            }
            i = i + 1;
        }
        proof {
            assert(self.posts@.take(i as int) =~= self.posts@);
        }
        out
    }
}

} // verus!
