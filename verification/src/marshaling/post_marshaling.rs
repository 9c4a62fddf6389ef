//! Turning stored posts and placements into what clients see, and keeping
//! the counters that depend on a placement in step with the rows.

use vstd::prelude::*;
use vstd::string::*;
use crate::marshaling::id_marshaling::{proto_id, to_proto_id};
use crate::models;
use crate::protos::{Author, GroupPost, Post, PostContext};
use crate::status::Status;
use crate::store::{recount_verdict, Store};
use crate::text::{eq_ignore_ascii_case, eq_ignoring_ascii_case};

verus! {

/// An optional identifier and its optional wire text agree.
pub open spec fn opt_id_matches(id: Option<i64>, text: Option<String>) -> bool {
    match id {
        None => text is None,
        Some(i) => text is Some && text->0@ == proto_id(i),
    }
}

/// The author line agrees with the stored author and the given username.
pub open spec fn author_matches(
    user_id: Option<i64>,
    username: Option<String>,
    author: Option<Author>,
) -> bool {
    match user_id {
        None => author is None,
        Some(id) => author is Some && author->0.user_id@ == proto_id(id) && author->0.username
            == username,
    }
}

/// The wire placement shows exactly the stored placement.
pub open spec fn group_post_matches(row: models::GroupPost, shown: GroupPost) -> bool {
    &&& shown.group_id@ == proto_id(row.group_id)
    &&& shown.post_id@ == proto_id(row.post_id)
    &&& shown.user_id@ == proto_id(row.user_id)
    &&& shown.group_moderation == row.group_moderation.number()
    &&& shown.created_at == Some(row.created_at)
}

/// The optional wire placement shows exactly the optional stored placement.
pub open spec fn opt_group_post_matches(
    row: Option<models::GroupPost>,
    shown: Option<GroupPost>,
) -> bool {
    match row {
        None => shown is None,
        Some(r) => shown is Some && group_post_matches(r, shown->0),
    }
}

/// The wire media list names the stored media, one for one.
pub open spec fn media_matches(media: Seq<i64>, shown: Seq<String>) -> bool {
    &&& shown.len() == media.len()
    &&& forall|i: int| 0 <= i < media.len() ==> (#[trigger] shown[i])@ == proto_id(media[i])
}

/// The wire post shows exactly the stored post, with the given username on
/// its author line and the given placement as its current one. Its replies
/// are not filled in.
pub open spec fn post_matches(
    post: models::Post,
    username: Option<String>,
    group_post: Option<models::GroupPost>,
    shown: Post,
) -> bool {
    &&& shown.id@ == proto_id(post.id)
    &&& opt_id_matches(post.parent_post_id, shown.reply_to_post_id)
    &&& author_matches(post.user_id, username, shown.author)
    &&& shown.title == post.title
    &&& shown.link == post.link
    &&& shown.content == post.content
    &&& shown.response_count == post.response_count
    &&& shown.reply_count == post.reply_count
    &&& shown.group_count == post.group_count
    &&& opt_group_post_matches(group_post, shown.current_group_post)
    &&& media_matches(post.media@, shown.media@)
    &&& shown.media_generated == post.media_generated
    &&& shown.embed_link == post.embed_link
    &&& shown.shareable == post.shareable
    &&& shown.context == post.context.number()
    &&& shown.visibility == post.visibility.number()
    &&& shown.moderation == post.moderation.number()
    &&& shown.replies@.len() == 0
    &&& shown.created_at == Some(post.created_at)
    &&& shown.updated_at == post.updated_at
    &&& shown.published_at == post.published_at
    &&& shown.last_activity_at == Some(post.last_activity_at)
}

pub open spec fn opt_group_post(group_post: Option<&models::GroupPost>) -> Option<
    models::GroupPost,
> {
    match group_post {
        None => None,
        Some(row) => Some(*row),
    }
}

fn clone_opt_string(text: &Option<String>) -> (r: Option<String>)
    ensures
        r == *text,
{
    match text {
        None => None,
        Some(t) => Some(t.clone()),
    }
}

fn opt_proto_id(id: Option<i64>) -> (r: Option<String>)
    ensures
        opt_id_matches(id, r),
{
    match id {
        None => None,
        Some(i) => Some(to_proto_id(i)),
    }
}

fn media_ids(media: &Vec<i64>) -> (r: Vec<String>)
    ensures
        media_matches(media@, r@),
{
    let mut out: Vec<String> = Vec::new();
    let mut i: usize = 0;
    while i < media.len()
        invariant
            0 <= i <= media.len(),
            out@.len() == i,
            forall|j: int| 0 <= j < i ==> (#[trigger] out@[j])@ == proto_id(media@[j]),
        decreases media.len() - i,
    {
        out.push(to_proto_id(media[i]));
        i = i + 1;
    }
    out
}

/// Showing a stored post to clients.
pub trait ToProtoPost {
    fn to_proto(&self, username: Option<String>) -> Post;

    fn to_group_proto(&self, username: Option<String>, group_post: Option<&models::GroupPost>) -> Post;

    fn proto_author(&self, username: Option<String>) -> Option<Author>;
}

impl ToProtoPost for models::Post {
    /// The post as clients see it outside any group.
    fn to_proto(&self, username: Option<String>) -> (r: Post)
        ensures
            post_matches(*self, username, None, r),
    {
        self.to_group_proto(username, None)
    }

    /// The post as clients see it, with its placement in a group where one
    /// is given.
    fn to_group_proto(&self, username: Option<String>, group_post: Option<&models::GroupPost>) -> (r:
        Post)
        ensures
            post_matches(*self, username, opt_group_post(group_post), r),
    {
        let current_group_post = match group_post {
            None => None,
            Some(row) => Some(row.to_proto()),
        };
        Post {
            id: to_proto_id(self.id),
            reply_to_post_id: opt_proto_id(self.parent_post_id),
            author: self.proto_author(username),
            title: self.title.clone(),
            link: clone_opt_string(&self.link),
            content: clone_opt_string(&self.content),
            response_count: self.response_count,
            reply_count: self.reply_count,
            group_count: self.group_count,
            current_group_post,
            media: media_ids(&self.media),
            media_generated: self.media_generated,
            embed_link: self.embed_link,
            shareable: self.shareable,
            context: self.context.to_i32(),
            visibility: self.visibility.to_i32(),
            moderation: self.moderation.to_i32(),
            replies: Vec::new(),
            created_at: Some(self.created_at),
            updated_at: self.updated_at,
            published_at: self.published_at,
            last_activity_at: Some(self.last_activity_at),
        }
    }

    /// The author line: present exactly where the post has an author.
    fn proto_author(&self, username: Option<String>) -> (r: Option<Author>)
        ensures
            author_matches(self.user_id, username, r),
    {
        match self.user_id {
            None => None,
            Some(user_id) => Some(Author { user_id: to_proto_id(user_id), username }),
        }
    }
}

/// Showing a stored placement to clients, and recounting what depends on it.
pub trait ToProtoGroupPost {
    fn to_proto(&self) -> GroupPost;

    fn update_related_counts(&self, store: &mut Store) -> Result<(), Status>;
}

impl ToProtoGroupPost for models::GroupPost {
    fn to_proto(&self) -> (r: GroupPost)
        ensures
            group_post_matches(*self, r),
    {
        GroupPost {
            group_id: to_proto_id(self.group_id),
            post_id: to_proto_id(self.post_id),
            user_id: to_proto_id(self.user_id),
            group_moderation: self.group_moderation.to_i32(),
            created_at: Some(self.created_at),
        }
    }

    /// Recounts the passing placements in this placement's group and of its
    /// post, and writes both counts: the first into every group row with that
    /// id, the second into every post row with that id. Where a count does
    /// not fit the stored counter, nothing is written and the failure names
    /// the counter.
    fn update_related_counts(&self, store: &mut Store) -> (r: Result<(), Status>)
        ensures
            r == recount_verdict(old(store)@.group_posts, self.group_id, self.post_id),
            r is Ok ==> final(store)@ == old(store)@.recounted(self.group_id, self.post_id),
            r is Err ==> final(store)@ == old(store)@,
    {
        let (post_count, group_count) = match store.related_counts(self.group_id, self.post_id) {
            Ok(counts) => counts,
            Err(e) => {
                return Err(e);
            },
        };
        store.set_post_count(self.group_id, post_count);
        store.set_group_count(self.post_id, group_count);
        Ok(())
    }
}

/// Every post context, in the order of the wire numbers.
pub const ALL_POST_CONTEXTS: [PostContext; 4] = [
    PostContext::Post,
    PostContext::Reply,
    PostContext::Event,
    PostContext::EventInstance,
];

/// The post context that a stored name denotes, if any. Names are compared
/// without regard to the case of ASCII letters.
pub open spec fn post_context_of_name(name: Seq<char>) -> Option<PostContext> {
    if eq_ignoring_ascii_case(PostContext::Post.str_name(), name) {
        Some(PostContext::Post)
    } else if eq_ignoring_ascii_case(PostContext::Reply.str_name(), name) {
        Some(PostContext::Reply)
    } else if eq_ignoring_ascii_case(PostContext::Event.str_name(), name) {
        Some(PostContext::Event)
    } else if eq_ignoring_ascii_case(PostContext::EventInstance.str_name(), name) {
        Some(PostContext::EventInstance)
    } else {
        None
    }
}

/// Reading a post context from a stored name or from a wire number.
pub trait ToProtoPostContext {
    fn to_proto_post_context(&self) -> Option<PostContext>;
}

impl ToProtoPostContext for String {
    fn to_proto_post_context(&self) -> (r: Option<PostContext>)
        ensures
            r == post_context_of_name(self@),
    {
        let mut i: usize = 0;
        while i < 4
            invariant
                0 <= i <= 4,
                forall|j: int|
                    0 <= j < i ==> !eq_ignoring_ascii_case(
                        (#[trigger] ALL_POST_CONTEXTS[j]).str_name(),
                        self@,
                    ),
            decreases 4 - i,
        {
            let post_context = ALL_POST_CONTEXTS[i];
            if eq_ignore_ascii_case(post_context.as_str_name(), self.as_str()) {
                return Some(post_context);
            }
            i = i + 1;
        }
        assert(ALL_POST_CONTEXTS[0] == PostContext::Post);
        assert(ALL_POST_CONTEXTS[1] == PostContext::Reply);
        assert(ALL_POST_CONTEXTS[2] == PostContext::Event);
        assert(ALL_POST_CONTEXTS[3] == PostContext::EventInstance);
        None
    }
}

impl ToProtoPostContext for i32 {
    /// A number outside the enumeration denotes no context.
    fn to_proto_post_context(&self) -> (r: Option<PostContext>)
        ensures
            r == PostContext::of_number(*self as int),
    {
        PostContext::from_i32(*self)
    }
}

/// The wire number of the post context that a stored name denotes.
pub trait ToI32PostContext {
    spec fn names_post_context(&self) -> bool;

    fn to_i32_post_context(&self) -> i32
        requires
            self.names_post_context(),
    ;
}

impl ToI32PostContext for String {
    open spec fn names_post_context(&self) -> bool {
        post_context_of_name(self@) is Some
    }

    fn to_i32_post_context(&self) -> (r: i32)
        ensures
            r == post_context_of_name(self@)->0.number(),
    {
        match self.to_proto_post_context() {
            Some(context) => context.to_i32(),
            None => 0,
        }
    }
}

} // verus!
