//! The transitions of a placement of a post in a group: proposing it,
//! deciding on it and withdrawing it. Every transition recounts the group and
//! the post that the placement refers to, and either both the transition and
//! the recount take effect or neither does.

use vstd::prelude::*;
use crate::consistency::lemma_user_counts_untouched;
use crate::counts::{indicator, lemma_count_push, lemma_count_remove, lemma_count_update};
use crate::marshaling::post_marshaling::ToProtoGroupPost;
use crate::models::{Group, GroupPost, Post};
use crate::protos::Moderation;
use crate::rpcs::validations::validate_strings::{invalid, invalid_argument};
use crate::status::{Code, Reason, Status};
use crate::store::{
    counts_for_post,
    counts_in_group,
    group_post_count,
    post_group_count,
    recount_verdict,
    Store,
    Tables,
};

verus! {

/// Some group row has the id.
pub open spec fn has_group(groups: Seq<Group>, id: i64) -> bool {
    exists|i: int| 0 <= i < groups.len() && (#[trigger] groups[i]).id == id
}

/// Some post row has the id.
pub open spec fn has_post(posts: Seq<Post>, id: i64) -> bool {
    exists|i: int| 0 <= i < posts.len() && (#[trigger] posts[i]).id == id
}

/// Row `i` places the post in the group.
pub open spec fn placement_at(rows: Seq<GroupPost>, group_id: i64, post_id: i64, i: int) -> bool {
    0 <= i < rows.len() && rows[i].group_id == group_id && rows[i].post_id == post_id
}

/// Row `i` is the first that places the post in the group.
pub open spec fn first_placement_at(
    rows: Seq<GroupPost>,
    group_id: i64,
    post_id: i64,
    i: int,
) -> bool {
    &&& placement_at(rows, group_id, post_id, i)
    &&& forall|j: int| 0 <= j < i ==> !placement_at(rows, group_id, post_id, j)
}

/// The index of the first row that places the post in the group.
pub open spec fn first_placement(rows: Seq<GroupPost>, group_id: i64, post_id: i64) -> Option<int> {
    if exists|i: int| first_placement_at(rows, group_id, post_id, i) {
        Some(choose|i: int| first_placement_at(rows, group_id, post_id, i))
    } else {
        None
    }
}

/// A placement with another moderation state.
pub open spec fn with_moderation(row: GroupPost, moderation: Moderation) -> GroupPost {
    GroupPost { group_moderation: moderation, ..row }
}

pub open spec fn not_found(reason: Reason) -> Status {
    Status { code: Code::NotFound, reason }
}

impl Tables {
    /// Whether a placement can be proposed: its state is not the sentinel,
    /// its group and its post exist, and the recount can be written.
    pub open spec fn create_group_post_verdict(self, row: GroupPost) -> Result<(), Status> {
        if row.group_moderation == Moderation::Unknown {
            Err(invalid(Reason::InvalidModeration))
        } else if !has_group(self.groups, row.group_id) {
            Err(not_found(Reason::GroupNotFound))
        } else if !has_post(self.posts, row.post_id) {
            Err(not_found(Reason::PostNotFound))
        } else {
            recount_verdict(self.group_posts.push(row), row.group_id, row.post_id)
        }
    }

    /// The tables after a placement was proposed and counted.
    pub open spec fn after_create_group_post(self, row: GroupPost) -> Tables {
        self.with_group_posts(self.group_posts.push(row)).recounted(row.group_id, row.post_id)
    }

    /// The placements after the first placement of the post in the group got
    /// the given state.
    pub open spec fn decided_rows(self, group_id: i64, post_id: i64, moderation: Moderation) -> Seq<
        GroupPost,
    > {
        let i = first_placement(self.group_posts, group_id, post_id)->0;
        self.group_posts.update(i, with_moderation(self.group_posts[i], moderation))
    }

    /// Whether a placement can be decided: the state is a decision, the
    /// placement exists, and the recount can be written.
    pub open spec fn decide_group_post_verdict(
        self,
        group_id: i64,
        post_id: i64,
        moderation: Moderation,
    ) -> Result<(), Status> {
        if !moderation.decision() {
            Err(invalid(Reason::InvalidModeration))
        } else if first_placement(self.group_posts, group_id, post_id) is None {
            Err(not_found(Reason::GroupPostNotFound))
        } else {
            recount_verdict(self.decided_rows(group_id, post_id, moderation), group_id, post_id)
        }
    }

    /// The tables after a placement was decided and counted.
    pub open spec fn after_decide_group_post(
        self,
        group_id: i64,
        post_id: i64,
        moderation: Moderation,
    ) -> Tables {
        self.with_group_posts(self.decided_rows(group_id, post_id, moderation)).recounted(
            group_id,
            post_id,
        )
    }

    /// The placements without the first placement of the post in the group.
    pub open spec fn remaining_rows(self, group_id: i64, post_id: i64) -> Seq<GroupPost> {
        self.group_posts.remove(first_placement(self.group_posts, group_id, post_id)->0)
    }

    /// Whether a placement can be withdrawn: it exists, and the recount can
    /// be written.
    pub open spec fn delete_group_post_verdict(self, group_id: i64, post_id: i64) -> Result<
        (),
        Status,
    > {
        if first_placement(self.group_posts, group_id, post_id) is None {
            Err(not_found(Reason::GroupPostNotFound))
        } else {
            recount_verdict(self.remaining_rows(group_id, post_id), group_id, post_id)
        }
    }

    /// The tables after a placement was withdrawn and counted.
    pub open spec fn after_delete_group_post(self, group_id: i64, post_id: i64) -> Tables {
        self.with_group_posts(self.remaining_rows(group_id, post_id)).recounted(group_id, post_id)
    }

    /// Every group but the given one, and every post but the given one,
    /// stores the count of its passing placements.
    pub open spec fn consistent_elsewhere(self, group_id: i64, post_id: i64) -> bool {
        &&& forall|i: int|
            0 <= i < self.groups.len() && self.groups[i].id != group_id
                ==> #[trigger] self.group_consistent(i)
        &&& forall|i: int|
            0 <= i < self.posts.len() && self.posts[i].id != post_id
                ==> #[trigger] self.post_consistent(i)
    }
}

/// A recount that can be written makes the counters of its group and its
/// post right, and leaves every other counter as right as it was.
pub proof fn lemma_recount_restores_counts(t: Tables, group_id: i64, post_id: i64)
    requires
        recount_verdict(t.group_posts, group_id, post_id) is Ok,
        t.consistent_elsewhere(group_id, post_id),
    ensures
        t.recounted(group_id, post_id).counts_consistent(),
{
    let u = t.recounted(group_id, post_id);
    assert forall|i: int| 0 <= i < u.groups.len() implies #[trigger] u.group_consistent(i) by {
        if t.groups[i].id != group_id {
            assert(t.group_consistent(i));
        }
    }
    assert forall|i: int| 0 <= i < u.posts.len() implies #[trigger] u.post_consistent(i) by {
        if t.posts[i].id != post_id {
            assert(t.post_consistent(i));
        }
    }
}

/// Replacing the placements by others that give every other group and every
/// other post the same count keeps those counters right.
pub proof fn lemma_other_counts_kept(t: Tables, rows: Seq<GroupPost>, group_id: i64, post_id: i64)
    requires
        t.counts_consistent(),
        forall|g: i64| g != group_id ==> group_post_count(rows, g) == group_post_count(
            t.group_posts,
            g,
        ),
        forall|p: i64| p != post_id ==> post_group_count(rows, p) == post_group_count(
            t.group_posts,
            p,
        ),
    ensures
        t.with_group_posts(rows).consistent_elsewhere(group_id, post_id),
{
    let u = t.with_group_posts(rows);
    assert forall|i: int|
        0 <= i < u.groups.len() && u.groups[i].id != group_id implies #[trigger] u.group_consistent(
        i,
    ) by {
        assert(t.group_consistent(i));
    }
    assert forall|i: int|
        0 <= i < u.posts.len() && u.posts[i].id != post_id implies #[trigger] u.post_consistent(
        i,
    ) by {
        assert(t.post_consistent(i));
    }
}

/// After a placement is proposed, every group's `post_count` and every
/// post's `group_count` equals the number of its passing placements.
pub proof fn lemma_create_keeps_counts(t: Tables, row: GroupPost)
    requires
        t.counts_consistent(),
        t.create_group_post_verdict(row) is Ok,
    ensures
        t.after_create_group_post(row).counts_consistent(),
{
    let rows = t.group_posts.push(row);
    assert forall|g: i64| g != row.group_id implies group_post_count(rows, g) == group_post_count(
        t.group_posts,
        g,
    ) by {
        lemma_count_push(t.group_posts, row, counts_in_group(g));
    }
    assert forall|p: i64| p != row.post_id implies post_group_count(rows, p) == post_group_count(
        t.group_posts,
        p,
    ) by {
        lemma_count_push(t.group_posts, row, counts_for_post(p));
    }
    lemma_other_counts_kept(t, rows, row.group_id, row.post_id);
    lemma_recount_restores_counts(t.with_group_posts(rows), row.group_id, row.post_id);
}

/// After a placement is decided, every group's `post_count` and every
/// post's `group_count` equals the number of its passing placements.
pub proof fn lemma_decide_keeps_counts(
    t: Tables,
    group_id: i64,
    post_id: i64,
    moderation: Moderation,
)
    requires
        t.counts_consistent(),
        t.decide_group_post_verdict(group_id, post_id, moderation) is Ok,
    ensures
        t.after_decide_group_post(group_id, post_id, moderation).counts_consistent(),
{
    let i = first_placement(t.group_posts, group_id, post_id)->0;
    assert(first_placement_at(t.group_posts, group_id, post_id, i));
    let old_row = t.group_posts[i];
    let new_row = with_moderation(old_row, moderation);
    let rows = t.decided_rows(group_id, post_id, moderation);
    assert forall|g: i64| g != group_id implies group_post_count(rows, g) == group_post_count(
        t.group_posts,
        g,
    ) by {
        lemma_count_update(t.group_posts, i, new_row, counts_in_group(g));
    }
    assert forall|p: i64| p != post_id implies post_group_count(rows, p) == post_group_count(
        t.group_posts,
        p,
    ) by {
        lemma_count_update(t.group_posts, i, new_row, counts_for_post(p));
    }
    lemma_other_counts_kept(t, rows, group_id, post_id);
    lemma_recount_restores_counts(t.with_group_posts(rows), group_id, post_id);
}

/// After a placement is withdrawn, every group's `post_count` and every
/// post's `group_count` equals the number of its passing placements.
pub proof fn lemma_delete_keeps_counts(t: Tables, group_id: i64, post_id: i64)
    requires
        t.counts_consistent(),
        t.delete_group_post_verdict(group_id, post_id) is Ok,
    ensures
        t.after_delete_group_post(group_id, post_id).counts_consistent(),
{
    let i = first_placement(t.group_posts, group_id, post_id)->0;
    assert(first_placement_at(t.group_posts, group_id, post_id, i));
    let rows = t.remaining_rows(group_id, post_id);
    assert forall|g: i64| g != group_id implies group_post_count(rows, g) == group_post_count(
        t.group_posts,
        g,
    ) by {
        lemma_count_remove(t.group_posts, i, counts_in_group(g));
    }
    assert forall|p: i64| p != post_id implies post_group_count(rows, p) == post_group_count(
        t.group_posts,
        p,
    ) by {
        lemma_count_remove(t.group_posts, i, counts_for_post(p));
    }
    lemma_other_counts_kept(t, rows, group_id, post_id);
    lemma_recount_restores_counts(t.with_group_posts(rows), group_id, post_id);
}

/// Approving a placement that did not count raises the count of its group by
/// one; rejecting one that counted lowers it by one.
pub proof fn lemma_decision_moves_group_count(
    rows: Seq<GroupPost>,
    i: int,
    moderation: Moderation,
)
    requires
        0 <= i < rows.len(),
    ensures
        group_post_count(rows.update(i, with_moderation(rows[i], moderation)), rows[i].group_id)
            + indicator(rows[i].group_moderation.passing()) == group_post_count(
            rows,
            rows[i].group_id,
        ) + indicator(moderation.passing()),
{
    lemma_count_update(
        rows,
        i,
        with_moderation(rows[i], moderation),
        counts_in_group(rows[i].group_id),
    );
}

impl Store {
    pub fn contains_group(&self, id: i64) -> (r: bool)
        ensures
            r == has_group(self@.groups, id),
    {
        let mut i: usize = 0;
        while i < self.groups.len()
            invariant
                0 <= i <= self.groups.len(),
                forall|j: int| 0 <= j < i ==> (#[trigger] self.groups@[j]).id != id,
            decreases self.groups.len() - i,
        {
            if self.groups[i].id == id {
                return true;
            }
            i = i + 1;
        }
        false
    }

    pub fn contains_post(&self, id: i64) -> (r: bool)
        ensures
            r == has_post(self@.posts, id),
    {
        let mut i: usize = 0;
        while i < self.posts.len()
            invariant
                0 <= i <= self.posts.len(),
                forall|j: int| 0 <= j < i ==> (#[trigger] self.posts@[j]).id != id,
            decreases self.posts.len() - i,
        {
            if self.posts[i].id == id {
                return true;
            }
            i = i + 1;
        }
        false
    }

    /// The index of the first placement of the post in the group.
    pub fn find_group_post(&self, group_id: i64, post_id: i64) -> (r: Option<usize>)
        ensures
            match r {
                Some(i) => first_placement(self@.group_posts, group_id, post_id) == Some(i as int),
                None => first_placement(self@.group_posts, group_id, post_id) is None,
            },
            r is Some ==> first_placement_at(self@.group_posts, group_id, post_id, r->0 as int),
    {
        let mut i: usize = 0;
        while i < self.group_posts.len()
            invariant
                0 <= i <= self.group_posts.len(),
                forall|j: int| 0 <= j < i ==> !placement_at(self.group_posts@, group_id, post_id, j),
            decreases self.group_posts.len() - i,
        {
            if self.group_posts[i].group_id == group_id && self.group_posts[i].post_id == post_id {
                proof {
                    let rows = self@.group_posts;
                    assert(first_placement_at(rows, group_id, post_id, i as int));
                    let k = choose|k: int| first_placement_at(rows, group_id, post_id, k);
                    assert(first_placement_at(rows, group_id, post_id, k));
                    if k < i {
                        assert(!placement_at(rows, group_id, post_id, k));
                    }
                    if i < k {
                        assert(placement_at(rows, group_id, post_id, i as int));
                    }
                }
                return Some(i);
            }
            i = i + 1;
        }
        proof {
            let rows = self@.group_posts;
            assert forall|k: int| !first_placement_at(rows, group_id, post_id, k) by {
                if 0 <= k < rows.len() {
                    assert(!placement_at(rows, group_id, post_id, k));
                }
            }
        }
        None
    }

    /// Proposes a placement and recounts its group and its post.
    pub fn create_group_post(&mut self, row: GroupPost) -> (r: Result<(), Status>)
        ensures
            r == old(self)@.create_group_post_verdict(row),
            r is Ok ==> final(self)@ == old(self)@.after_create_group_post(row),
            r is Err ==> final(self)@ == old(self)@,
            old(self)@.counts_consistent() ==> final(self)@.counts_consistent(),
            old(self)@.all_counts_consistent() ==> final(self)@.all_counts_consistent(),
    {
        if row.group_moderation == Moderation::Unknown {
            return Err(invalid_argument(Reason::InvalidModeration));
        }
        if !self.contains_group(row.group_id) {
            return Err(Status::new(Code::NotFound, Reason::GroupNotFound));
        }
        if !self.contains_post(row.post_id) {
            return Err(Status::new(Code::NotFound, Reason::PostNotFound));
        }
        self.group_posts.push(row);
        assert(self@ == old(self)@.with_group_posts(old(self)@.group_posts.push(row)));
        match row.update_related_counts(self) {
            Ok(()) => {
                proof {
                    if old(self)@.counts_consistent() {
                        lemma_create_keeps_counts(old(self)@, row);
                    }
                    if old(self)@.all_counts_consistent() {
                        lemma_user_counts_untouched(old(self)@, self@);
                    }
                }
                Ok(())
            },
            Err(e) => {
                self.group_posts.pop();
                assert(self@.group_posts =~= old(self)@.group_posts);
                Err(e)
            },
        }
    }

    /// Records the decision on the first placement of the post in the group
    /// and recounts both.
    pub fn decide_group_post(&mut self, group_id: i64, post_id: i64, moderation: Moderation) -> (r:
        Result<(), Status>)
        ensures
            r == old(self)@.decide_group_post_verdict(group_id, post_id, moderation),
            r is Ok ==> final(self)@ == old(self)@.after_decide_group_post(
                group_id,
                post_id,
                moderation,
            ),
            r is Err ==> final(self)@ == old(self)@,
            old(self)@.counts_consistent() ==> final(self)@.counts_consistent(),
            old(self)@.all_counts_consistent() ==> final(self)@.all_counts_consistent(),
    {
        if !moderation.is_decision() {
            return Err(invalid_argument(Reason::InvalidModeration));
        }
        let i: usize = match self.find_group_post(group_id, post_id) {
            None => {
                return Err(Status::new(Code::NotFound, Reason::GroupPostNotFound));
            },
            Some(i) => i,
        };
        let previous = self.group_posts[i].group_moderation;
        self.group_posts[i].group_moderation = moderation;
        let row = self.group_posts[i];
        assert(self@.group_posts =~= old(self)@.decided_rows(group_id, post_id, moderation));
        assert(self@ == old(self)@.with_group_posts(
            old(self)@.decided_rows(group_id, post_id, moderation),
        ));
        match row.update_related_counts(self) {
            Ok(()) => {
                proof {
                    if old(self)@.counts_consistent() {
                        lemma_decide_keeps_counts(old(self)@, group_id, post_id, moderation);
                    }
                    if old(self)@.all_counts_consistent() {
                        lemma_user_counts_untouched(old(self)@, self@);
                    }
                }
                Ok(())
            },
            Err(e) => {
                self.group_posts[i].group_moderation = previous;
                assert(self@.group_posts =~= old(self)@.group_posts);
                Err(e)
            },
        }
    }

    /// Withdraws the first placement of the post in the group and recounts
    /// both.
    pub fn delete_group_post(&mut self, group_id: i64, post_id: i64) -> (r: Result<(), Status>)
        ensures
            r == old(self)@.delete_group_post_verdict(group_id, post_id),
            r is Ok ==> final(self)@ == old(self)@.after_delete_group_post(group_id, post_id),
            r is Err ==> final(self)@ == old(self)@,
            old(self)@.counts_consistent() ==> final(self)@.counts_consistent(),
            old(self)@.all_counts_consistent() ==> final(self)@.all_counts_consistent(),
    {
        let i: usize = match self.find_group_post(group_id, post_id) {
            None => {
                return Err(Status::new(Code::NotFound, Reason::GroupPostNotFound));
            },
            Some(i) => i,
        };
        let row = self.group_posts.remove(i);
        assert(self@ == old(self)@.with_group_posts(old(self)@.remaining_rows(group_id, post_id)));
        match row.update_related_counts(self) {
            Ok(()) => {
                proof {
                    if old(self)@.counts_consistent() {
                        lemma_delete_keeps_counts(old(self)@, group_id, post_id);
                    }
                    if old(self)@.all_counts_consistent() {
                        lemma_user_counts_untouched(old(self)@, self@);
                    }
                }
                Ok(())
            },
            Err(e) => {
                self.group_posts.insert(i, row);
                assert(self@.group_posts =~= old(self)@.group_posts);
                Err(e)
            },
        }
    }
}

} // verus!
