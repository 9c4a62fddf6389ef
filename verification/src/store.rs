//! The tables that the rules read and write, held as plain rows, and the
//! counters that are kept in step with them.

use vstd::prelude::*;
use crate::counts::{count_where, lemma_count_empty, lemma_count_push};
use crate::models::user_models::{Follow, User};
use crate::models::{Group, GroupPost, Membership, Post};
use crate::status::{Code, Reason, Status};

verus! {

/// All rows.
pub struct Store {
    pub users: Vec<User>,
    pub groups: Vec<Group>,
    pub posts: Vec<Post>,
    pub group_posts: Vec<GroupPost>,
    pub follows: Vec<Follow>,
    pub memberships: Vec<Membership>,
}

/// What a store holds, table by table.
pub struct Tables {
    pub users: Seq<User>,
    pub groups: Seq<Group>,
    pub posts: Seq<Post>,
    pub group_posts: Seq<GroupPost>,
    pub follows: Seq<Follow>,
    pub memberships: Seq<Membership>,
}

impl View for Store {
    type V = Tables;

    open spec fn view(&self) -> Tables {
        Tables {
            users: self.users@,
            groups: self.groups@,
            posts: self.posts@,
            group_posts: self.group_posts@,
            follows: self.follows@,
            memberships: self.memberships@,
        }
    }
}

/// The placements that count toward a group: those in it whose moderation
/// is passing.
pub open spec fn counts_in_group(group_id: i64) -> spec_fn(GroupPost) -> bool {
    |row: GroupPost| row.group_id == group_id && row.group_moderation.passing()
}

/// The placements that count toward a post: those of it whose moderation is
/// passing.
pub open spec fn counts_for_post(post_id: i64) -> spec_fn(GroupPost) -> bool {
    |row: GroupPost| row.post_id == post_id && row.group_moderation.passing()
}

/// The number of passing placements in a group.
pub open spec fn group_post_count(rows: Seq<GroupPost>, group_id: i64) -> nat {
    count_where(rows, counts_in_group(group_id))
}

/// The number of passing placements of a post.
pub open spec fn post_group_count(rows: Seq<GroupPost>, post_id: i64) -> nat {
    count_where(rows, counts_for_post(post_id))
}

/// A group row with its counter replaced.
pub open spec fn with_post_count(group: Group, count: i32) -> Group {
    Group { post_count: count, ..group }
}

/// A post row with its counter replaced.
pub open spec fn with_group_count(post: Post, count: i32) -> Post {
    Post { group_count: count, ..post }
}

/// The group table after the counter of every row with the given id was set.
pub open spec fn groups_with_post_count(groups: Seq<Group>, group_id: i64, count: i32) -> Seq<
    Group,
> {
    Seq::new(
        groups.len(),
        |i: int|
            if groups[i].id == group_id {
                with_post_count(groups[i], count)
            } else {
                groups[i]
            },
    )
}

/// The post table after the counter of every row with the given id was set.
pub open spec fn posts_with_group_count(posts: Seq<Post>, post_id: i64, count: i32) -> Seq<Post> {
    Seq::new(
        posts.len(),
        |i: int|
            if posts[i].id == post_id {
                with_group_count(posts[i], count)
            } else {
                posts[i]
            },
    )
}

/// One of the two counters that a recount writes.
#[derive(Clone, Copy, Debug, PartialEq, Eq, Structural)]
pub enum CounterWrite {
    /// A group's `post_count`.
    GroupPostCount,
    /// A post's `group_count`.
    PostGroupCount,
}

/// The failure of a write of a counter: internal, and named after the
/// counter.
pub open spec fn counter_write_failure(write: CounterWrite) -> Status {
    Status {
        code: Code::Internal,
        reason: match write {
            CounterWrite::GroupPostCount => Reason::ErrorUpdatingGroupPostCount,
            CounterWrite::PostGroupCount => Reason::ErrorUpdatingPostGroupCount,
        },
    }
}

/// Says how a write of a counter that did not succeed is reported.
pub fn write_failure(write: CounterWrite) -> (r: Status)
    ensures
        r == counter_write_failure(write),
{
    match write {
        CounterWrite::GroupPostCount => Status::new(
            Code::Internal,
            Reason::ErrorUpdatingGroupPostCount,
        ),
        CounterWrite::PostGroupCount => Status::new(
            Code::Internal,
            Reason::ErrorUpdatingPostGroupCount,
        ),
    }
}

/// Whether recounting for a group and a post can be written down: both
/// counts must fit the stored counter. The group's counter is judged first.
pub open spec fn recount_verdict(rows: Seq<GroupPost>, group_id: i64, post_id: i64) -> Result<
    (),
    Status,
> {
    if group_post_count(rows, group_id) > i32::MAX {
        Err(counter_write_failure(CounterWrite::GroupPostCount))
    } else if post_group_count(rows, post_id) > i32::MAX {
        Err(counter_write_failure(CounterWrite::PostGroupCount))
    } else {
        Ok(())
    }
}

/// The two counts that a recount writes, where both fit: the group's
/// `post_count` first, the post's `group_count` second.
pub open spec fn recount_values(rows: Seq<GroupPost>, group_id: i64, post_id: i64) -> Result<
    (i32, i32),
    Status,
> {
    match recount_verdict(rows, group_id, post_id) {
        Ok(()) => Ok(
            (group_post_count(rows, group_id) as i32, post_group_count(rows, post_id) as i32),
        ),
        Err(e) => Err(e),
    }
}

impl Tables {
    /// The group at `i` stores the count of its passing placements.
    pub open spec fn group_consistent(self, i: int) -> bool {
        self.groups[i].post_count == group_post_count(self.group_posts, self.groups[i].id)
    }

    /// The post at `i` stores the count of its passing placements.
    pub open spec fn post_consistent(self, i: int) -> bool {
        self.posts[i].group_count == post_group_count(self.group_posts, self.posts[i].id)
    }

    /// Every group and every post stores the count of its passing placements.
    pub open spec fn counts_consistent(self) -> bool {
        &&& forall|i: int| 0 <= i < self.groups.len() ==> #[trigger] self.group_consistent(i)
        &&& forall|i: int| 0 <= i < self.posts.len() ==> #[trigger] self.post_consistent(i)
    }

    /// The tables with other groups.
    pub open spec fn with_groups(self, rows: Seq<Group>) -> Tables {
        Tables { groups: rows, ..self }
    }

    /// The tables with other placements.
    pub open spec fn with_group_posts(self, rows: Seq<GroupPost>) -> Tables {
        Tables { group_posts: rows, ..self }
    }

    /// The tables after the counters of one group and one post were set to
    /// the counts of their passing placements. Nothing else differs.
    pub open spec fn recounted(self, group_id: i64, post_id: i64) -> Tables {
        Tables {
            groups: groups_with_post_count(
                self.groups,
                group_id,
                group_post_count(self.group_posts, group_id) as i32,
            ),
            posts: posts_with_group_count(
                self.posts,
                post_id,
                post_group_count(self.group_posts, post_id) as i32,
            ),
            ..self
        }
    }
}

impl Store {
    /// A store without rows.
    pub fn new() -> (r: Store)
        ensures
            r@.users.len() == 0,
            r@.groups.len() == 0,
            r@.posts.len() == 0,
            r@.group_posts.len() == 0,
            r@.follows.len() == 0,
            r@.memberships.len() == 0,
            r@.counts_consistent(),
    {
        Store {
            users: Vec::new(),
            groups: Vec::new(),
            posts: Vec::new(),
            group_posts: Vec::new(),
            follows: Vec::new(),
            memberships: Vec::new(),
        }
    }

    /// Counts the passing placements in a group.
    pub fn count_group_posts(&self, group_id: i64) -> (r: usize)
        ensures
            r == group_post_count(self.group_posts@, group_id),
    {
        let ghost pred = counts_in_group(group_id);
        let mut count: usize = 0;
        let mut i: usize = 0;
        proof {
            lemma_count_empty(pred);
            assert(self.group_posts@.take(0) =~= Seq::<GroupPost>::empty());
        }
        while i < self.group_posts.len()
            invariant
                0 <= i <= self.group_posts.len(),
                pred == counts_in_group(group_id),
                count == count_where(self.group_posts@.take(i as int), pred),
                count <= i,
            decreases self.group_posts.len() - i,
        {
            let row = self.group_posts[i];
            proof {
                lemma_count_push(self.group_posts@.take(i as int), row, pred);
                assert(self.group_posts@.take(i + 1) =~= self.group_posts@.take(i as int).push(
                    row,
                ));
            }
            if row.group_id == group_id && row.group_moderation.is_passing() {
                count = count + 1;
            }
            i = i + 1;
        }
        proof {
            assert(self.group_posts@.take(i as int) =~= self.group_posts@);
        }
        count
    }

    /// Counts the passing placements of a post.
    pub fn count_post_groups(&self, post_id: i64) -> (r: usize)
        ensures
            r == post_group_count(self.group_posts@, post_id),
    {
        let ghost pred = counts_for_post(post_id);
        let mut count: usize = 0;
        let mut i: usize = 0;
        proof {
            lemma_count_empty(pred);
            assert(self.group_posts@.take(0) =~= Seq::<GroupPost>::empty());
        }
        while i < self.group_posts.len()
            invariant
                0 <= i <= self.group_posts.len(),
                pred == counts_for_post(post_id),
                count == count_where(self.group_posts@.take(i as int), pred),
                count <= i,
            decreases self.group_posts.len() - i,
        {
            let row = self.group_posts[i];
            proof {
                lemma_count_push(self.group_posts@.take(i as int), row, pred);
                assert(self.group_posts@.take(i + 1) =~= self.group_posts@.take(i as int).push(
                    row,
                ));
            }
            if row.post_id == post_id && row.group_moderation.is_passing() {
                count = count + 1;
            }
            i = i + 1;
        }
        proof {
            assert(self.group_posts@.take(i as int) =~= self.group_posts@);
        }
        count
    }

    /// Counts the passing placements in the group and of the post, and
    /// gives both counts as the counters will hold them. Fails where one of
    /// them does not fit the counter.
    pub fn related_counts(&self, group_id: i64, post_id: i64) -> (r: Result<(i32, i32), Status>)
        ensures
            r == recount_values(self@.group_posts, group_id, post_id),
    {
        let post_count: usize = self.count_group_posts(group_id);
        if post_count > i32::MAX as usize {
            return Err(write_failure(CounterWrite::GroupPostCount));
        }
        let group_count: usize = self.count_post_groups(post_id);
        if group_count > i32::MAX as usize {
            return Err(write_failure(CounterWrite::PostGroupCount));
        }
        Ok((post_count as i32, group_count as i32))
    }

    /// Writes `count` into every group row with the given id.
    pub fn set_post_count(&mut self, group_id: i64, count: i32)
        ensures
            final(self)@ == (Tables {
                groups: groups_with_post_count(old(self)@.groups, group_id, count),
                ..old(self)@
            }),
    {
        let ghost before = self.groups@;
        let n: usize = self.groups.len();
        let mut i: usize = 0;
        while i < n
            invariant
                0 <= i <= n,
                n == before.len(),
                self.groups@.len() == n,
                self.users@ == old(self).users@,
                self.posts@ == old(self).posts@,
                self.group_posts@ == old(self).group_posts@,
                self.follows@ == old(self).follows@,
                self.memberships@ == old(self).memberships@,
                forall|j: int|
                    0 <= j < i ==> #[trigger] self.groups@[j] == groups_with_post_count(
                        before,
                        group_id,
                        count,
                    )[j],
                forall|j: int| i <= j < n ==> #[trigger] self.groups@[j] == before[j],
            decreases n - i,
        {
            if self.groups[i].id == group_id {
                self.groups[i].post_count = count;
            }
            i = i + 1;
        }
        assert(self.groups@ =~= groups_with_post_count(before, group_id, count));
    }

    /// Writes `count` into every post row with the given id.
    pub fn set_group_count(&mut self, post_id: i64, count: i32)
        ensures
            final(self)@ == (Tables {
                posts: posts_with_group_count(old(self)@.posts, post_id, count),
                ..old(self)@
            }),
    {
        let ghost before = self.posts@;
        let n: usize = self.posts.len();
        let mut i: usize = 0;
        while i < n
            invariant
                0 <= i <= n,
                n == before.len(),
                self.posts@.len() == n,
                self.users@ == old(self).users@,
                self.groups@ == old(self).groups@,
                self.group_posts@ == old(self).group_posts@,
                self.follows@ == old(self).follows@,
                self.memberships@ == old(self).memberships@,
                forall|j: int|
                    0 <= j < i ==> #[trigger] self.posts@[j] == posts_with_group_count(
                        before,
                        post_id,
                        count,
                    )[j],
                forall|j: int| i <= j < n ==> #[trigger] self.posts@[j] == before[j],
            decreases n - i,
        {
            if self.posts[i].id == post_id {
                self.posts[i].group_count = count;
            }
            i = i + 1;
        }
        assert(self.posts@ =~= posts_with_group_count(before, post_id, count));
    }
}

} // verus!
