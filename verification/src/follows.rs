//! The transitions of a follow: requesting it, the target's decision on it
//! and ending it. Every transition recounts the follower's `following_count`
//! and the target's `follower_count`, and either both the transition and the
//! recount take effect or neither does.

use vstd::prelude::*;
use crate::consistency::{lemma_group_counts_framed, lemma_placement_counts_framed};
use crate::counts::{
    count_where,
    lemma_count_empty,
    lemma_count_push,
    lemma_count_remove,
    lemma_count_update,
};
use crate::models::user_models::{Follow, User};
use crate::moderation::not_found;
use crate::protos::Moderation;
use crate::rpcs::validations::validate_strings::{invalid, invalid_argument};
use crate::status::{Code, Reason, Status};
use crate::store::{Store, Tables};

verus! {

/// The follows that count toward a user's followers: those aimed at the
/// user whose moderation is passing.
pub open spec fn counts_as_follower_of(target_user_id: i64) -> spec_fn(Follow) -> bool {
    |row: Follow| row.target_user_id == target_user_id && row.target_user_moderation.passing()
}

/// The follows that count toward what a user follows: those of the user
/// whose moderation is passing.
pub open spec fn counts_as_following_by(user_id: i64) -> spec_fn(Follow) -> bool {
    |row: Follow| row.user_id == user_id && row.target_user_moderation.passing()
}

/// The number of passing follows aimed at a user.
pub open spec fn follower_count(rows: Seq<Follow>, target_user_id: i64) -> nat {
    count_where(rows, counts_as_follower_of(target_user_id))
}

/// The number of passing follows of a user.
pub open spec fn following_count(rows: Seq<Follow>, user_id: i64) -> nat {
    count_where(rows, counts_as_following_by(user_id))
}

/// A user row after a follow between `user_id` and `target_user_id` was
/// recounted: the follower's row gets `following`, the target's `followers`.
pub open spec fn with_follow_counts(
    user: User,
    user_id: i64,
    following: i32,
    target_user_id: i64,
    followers: i32,
) -> User {
    User {
        following_count: if user.id == user_id {
            following
        } else {
            user.following_count
        },
        follower_count: if user.id == target_user_id {
            followers
        } else {
            user.follower_count
        },
        ..user
    }
}

/// The user table after every row was recounted in that way.
pub open spec fn users_with_follow_counts(
    users: Seq<User>,
    user_id: i64,
    following: i32,
    target_user_id: i64,
    followers: i32,
) -> Seq<User> {
    Seq::new(
        users.len(),
        |i: int| with_follow_counts(users[i], user_id, following, target_user_id, followers),
    )
}

/// Whether recounting for a follower and a target can be written down: both
/// counts must fit the stored counter.
pub open spec fn follow_recount_verdict(rows: Seq<Follow>, user_id: i64, target_user_id: i64) -> Result<
    (),
    Status,
> {
    if following_count(rows, user_id) > i32::MAX {
        Err(Status { code: Code::Internal, reason: Reason::ErrorUpdatingFollowingCount })
    } else if follower_count(rows, target_user_id) > i32::MAX {
        Err(Status { code: Code::Internal, reason: Reason::ErrorUpdatingFollowerCount })
    } else {
        Ok(())
    }
}

/// Some user row has the id.
pub open spec fn has_user(users: Seq<User>, id: i64) -> bool {
    exists|i: int| 0 <= i < users.len() && (#[trigger] users[i]).id == id
}

/// Row `i` is a follow of the target by the user.
pub open spec fn follow_at(rows: Seq<Follow>, user_id: i64, target_user_id: i64, i: int) -> bool {
    0 <= i < rows.len() && rows[i].user_id == user_id && rows[i].target_user_id == target_user_id
}

/// Row `i` is the first follow of the target by the user.
pub open spec fn first_follow_at(
    rows: Seq<Follow>,
    user_id: i64,
    target_user_id: i64,
    i: int,
) -> bool {
    &&& follow_at(rows, user_id, target_user_id, i)
    &&& forall|j: int| 0 <= j < i ==> !follow_at(rows, user_id, target_user_id, j)
}

/// The index of the first follow of the target by the user.
pub open spec fn first_follow(rows: Seq<Follow>, user_id: i64, target_user_id: i64) -> Option<int> {
    if exists|i: int| first_follow_at(rows, user_id, target_user_id, i) {
        Some(choose|i: int| first_follow_at(rows, user_id, target_user_id, i))
    } else {
        None
    }
}

/// A follow with another moderation state.
pub open spec fn with_target_moderation(row: Follow, moderation: Moderation) -> Follow {
    Follow { target_user_moderation: moderation, ..row }
}

impl Tables {
    /// The user at `i` stores the number of its passing followers.
    pub open spec fn follower_consistent(self, i: int) -> bool {
        self.users[i].follower_count == follower_count(self.follows, self.users[i].id)
    }

    /// The user at `i` stores the number of passing follows of its own.
    pub open spec fn following_consistent(self, i: int) -> bool {
        self.users[i].following_count == following_count(self.follows, self.users[i].id)
    }

    /// Every user stores both of its follow counts.
    pub open spec fn follow_counts_consistent(self) -> bool {
        &&& forall|i: int| 0 <= i < self.users.len() ==> #[trigger] self.follower_consistent(i)
        &&& forall|i: int| 0 <= i < self.users.len() ==> #[trigger] self.following_consistent(i)
    }

    /// The tables with other follows.
    pub open spec fn with_follows(self, rows: Seq<Follow>) -> Tables {
        Tables { follows: rows, ..self }
    }

    /// The tables after the follower's `following_count` and the target's
    /// `follower_count` were set to the counts of their passing follows.
    pub open spec fn follows_recounted(self, user_id: i64, target_user_id: i64) -> Tables {
        Tables {
            users: users_with_follow_counts(
                self.users,
                user_id,
                following_count(self.follows, user_id) as i32,
                target_user_id,
                follower_count(self.follows, target_user_id) as i32,
            ),
            ..self
        }
    }

    /// Whether a follow can be requested: it is no self-follow, its state is
    /// not the sentinel, both users exist, and the recount can be written.
    pub open spec fn create_follow_verdict(self, row: Follow) -> Result<(), Status> {
        if row.user_id == row.target_user_id {
            Err(invalid(Reason::UserCannotFollowThemselves))
        } else if row.target_user_moderation == Moderation::Unknown {
            Err(invalid(Reason::InvalidModeration))
        } else if !has_user(self.users, row.user_id) || !has_user(self.users, row.target_user_id) {
            Err(not_found(Reason::UserNotFound))
        } else {
            follow_recount_verdict(self.follows.push(row), row.user_id, row.target_user_id)
        }
    }

    /// The tables after a follow was requested and counted.
    pub open spec fn after_create_follow(self, row: Follow) -> Tables {
        self.with_follows(self.follows.push(row)).follows_recounted(
            row.user_id,
            row.target_user_id,
        )
    }

    /// The follows after the first follow of the target by the user got the
    /// given state.
    pub open spec fn decided_follows(
        self,
        user_id: i64,
        target_user_id: i64,
        moderation: Moderation,
    ) -> Seq<Follow> {
        let i = first_follow(self.follows, user_id, target_user_id)->0;
        self.follows.update(i, with_target_moderation(self.follows[i], moderation))
    }

    /// Whether a follow can be decided: the state is a decision, the follow
    /// exists, and the recount can be written.
    pub open spec fn decide_follow_verdict(
        self,
        user_id: i64,
        target_user_id: i64,
        moderation: Moderation,
    ) -> Result<(), Status> {
        if !moderation.decision() {
            Err(invalid(Reason::InvalidTargetUserModeration))
        } else if first_follow(self.follows, user_id, target_user_id) is None {
            Err(not_found(Reason::FollowNotFound))
        } else {
            follow_recount_verdict(
                self.decided_follows(user_id, target_user_id, moderation),
                user_id,
                target_user_id,
            )
        }
    }

    /// The tables after a follow was decided and counted.
    pub open spec fn after_decide_follow(
        self,
        user_id: i64,
        target_user_id: i64,
        moderation: Moderation,
    ) -> Tables {
        self.with_follows(
            self.decided_follows(user_id, target_user_id, moderation),
        ).follows_recounted(user_id, target_user_id)
    }

    /// The follows without the first follow of the target by the user.
    pub open spec fn remaining_follows(self, user_id: i64, target_user_id: i64) -> Seq<Follow> {
        self.follows.remove(first_follow(self.follows, user_id, target_user_id)->0)
    }

    /// Whether a follow can be ended: it exists, and the recount can be
    /// written.
    pub open spec fn delete_follow_verdict(self, user_id: i64, target_user_id: i64) -> Result<
        (),
        Status,
    > {
        if first_follow(self.follows, user_id, target_user_id) is None {
            Err(not_found(Reason::FollowNotFound))
        } else {
            follow_recount_verdict(
                self.remaining_follows(user_id, target_user_id),
                user_id,
                target_user_id,
            )
        }
    }

    /// The tables after a follow was ended and counted.
    pub open spec fn after_delete_follow(self, user_id: i64, target_user_id: i64) -> Tables {
        self.with_follows(self.remaining_follows(user_id, target_user_id)).follows_recounted(
            user_id,
            target_user_id,
        )
    }
}

/// After the follows were replaced by others that give every user but the
/// target the same follower count, and every user but the follower the same
/// following count, a recount that can be written makes every count right.
pub proof fn lemma_follow_recount_restores_counts(
    t: Tables,
    rows: Seq<Follow>,
    user_id: i64,
    target_user_id: i64,
)
    requires
        t.follow_counts_consistent(),
        follow_recount_verdict(rows, user_id, target_user_id) is Ok,
        forall|u: i64|
            u != target_user_id ==> follower_count(rows, u) == follower_count(t.follows, u),
        forall|u: i64| u != user_id ==> following_count(rows, u) == following_count(t.follows, u),
    ensures
        t.with_follows(rows).follows_recounted(user_id, target_user_id).follow_counts_consistent(),
{
    let u = t.with_follows(rows).follows_recounted(user_id, target_user_id);
    assert forall|i: int| 0 <= i < u.users.len() implies #[trigger] u.follower_consistent(i) by {
        assert(t.follower_consistent(i));
    }
    assert forall|i: int| 0 <= i < u.users.len() implies #[trigger] u.following_consistent(i) by {
        assert(t.following_consistent(i));
    }
}

/// After a follow is requested, every user's `follower_count` and
/// `following_count` equals the number of its passing follows.
pub proof fn lemma_create_follow_keeps_counts(t: Tables, row: Follow)
    requires
        t.follow_counts_consistent(),
        t.create_follow_verdict(row) is Ok,
    ensures
        t.after_create_follow(row).follow_counts_consistent(),
{
    let rows = t.follows.push(row);
    assert forall|u: i64| u != row.target_user_id implies follower_count(rows, u)
        == follower_count(t.follows, u) by {
        lemma_count_push(t.follows, row, counts_as_follower_of(u));
    }
    assert forall|u: i64| u != row.user_id implies following_count(rows, u) == following_count(
        t.follows,
        u,
    ) by {
        lemma_count_push(t.follows, row, counts_as_following_by(u));
    }
    lemma_follow_recount_restores_counts(t, rows, row.user_id, row.target_user_id);
}

/// After a follow is decided, every user's `follower_count` and
/// `following_count` equals the number of its passing follows.
pub proof fn lemma_decide_follow_keeps_counts(
    t: Tables,
    user_id: i64,
    target_user_id: i64,
    moderation: Moderation,
)
    requires
        t.follow_counts_consistent(),
        t.decide_follow_verdict(user_id, target_user_id, moderation) is Ok,
    ensures
        t.after_decide_follow(user_id, target_user_id, moderation).follow_counts_consistent(),
{
    let i = first_follow(t.follows, user_id, target_user_id)->0;
    assert(first_follow_at(t.follows, user_id, target_user_id, i));
    let new_row = with_target_moderation(t.follows[i], moderation);
    let rows = t.decided_follows(user_id, target_user_id, moderation);
    assert forall|u: i64| u != target_user_id implies follower_count(rows, u) == follower_count(
        t.follows,
        u,
    ) by {
        lemma_count_update(t.follows, i, new_row, counts_as_follower_of(u));
    }
    assert forall|u: i64| u != user_id implies following_count(rows, u) == following_count(
        t.follows,
        u,
    ) by {
        lemma_count_update(t.follows, i, new_row, counts_as_following_by(u));
    }
    lemma_follow_recount_restores_counts(t, rows, user_id, target_user_id);
}

/// After a follow is ended, every user's `follower_count` and
/// `following_count` equals the number of its passing follows.
pub proof fn lemma_delete_follow_keeps_counts(t: Tables, user_id: i64, target_user_id: i64)
    requires
        t.follow_counts_consistent(),
        t.delete_follow_verdict(user_id, target_user_id) is Ok,
    ensures
        t.after_delete_follow(user_id, target_user_id).follow_counts_consistent(),
{
    let i = first_follow(t.follows, user_id, target_user_id)->0;
    assert(first_follow_at(t.follows, user_id, target_user_id, i));
    let rows = t.remaining_follows(user_id, target_user_id);
    assert forall|u: i64| u != target_user_id implies follower_count(rows, u) == follower_count(
        t.follows,
        u,
    ) by {
        lemma_count_remove(t.follows, i, counts_as_follower_of(u));
    }
    assert forall|u: i64| u != user_id implies following_count(rows, u) == following_count(
        t.follows,
        u,
    ) by {
        lemma_count_remove(t.follows, i, counts_as_following_by(u));
    }
    lemma_follow_recount_restores_counts(t, rows, user_id, target_user_id);
}

impl Store {
    pub fn contains_user(&self, id: i64) -> (r: bool)
        ensures
            r == has_user(self@.users, id),
    {
        let mut i: usize = 0;
        while i < self.users.len()
            invariant
                0 <= i <= self.users.len(),
                forall|j: int| 0 <= j < i ==> (#[trigger] self.users@[j]).id != id,
            decreases self.users.len() - i,
        {
            if self.users[i].id == id {
                return true;
            }
            i = i + 1;
        }
        false
    }

    /// Counts the passing follows aimed at a user.
    pub fn count_followers(&self, target_user_id: i64) -> (r: usize)
        ensures
            r == follower_count(self@.follows, target_user_id),
    {
        let ghost pred = counts_as_follower_of(target_user_id);
        let mut count: usize = 0;
        let mut i: usize = 0;
        proof {
            lemma_count_empty(pred);
            assert(self.follows@.take(0) =~= Seq::<Follow>::empty());
        }
        while i < self.follows.len()
            invariant
                0 <= i <= self.follows.len(),
                pred == counts_as_follower_of(target_user_id),
                count == count_where(self.follows@.take(i as int), pred),
                count <= i,
            decreases self.follows.len() - i,
        {
            let row = self.follows[i];
            proof {
                lemma_count_push(self.follows@.take(i as int), row, pred);
                assert(self.follows@.take(i + 1) =~= self.follows@.take(i as int).push(row));
            }
            if row.target_user_id == target_user_id && row.target_user_moderation.is_passing() {
                count = count + 1;
            }
            i = i + 1;
        }
        proof {
            assert(self.follows@.take(i as int) =~= self.follows@);
        }
        count
    }

    /// Counts the passing follows of a user.
    pub fn count_following(&self, user_id: i64) -> (r: usize)
        ensures
            r == following_count(self@.follows, user_id),
    {
        let ghost pred = counts_as_following_by(user_id);
        let mut count: usize = 0;
        let mut i: usize = 0;
        proof {
            lemma_count_empty(pred);
            assert(self.follows@.take(0) =~= Seq::<Follow>::empty());
        }
        while i < self.follows.len()
            invariant
                0 <= i <= self.follows.len(),
                pred == counts_as_following_by(user_id),
                count == count_where(self.follows@.take(i as int), pred),
                count <= i,
            decreases self.follows.len() - i,
        {
            let row = self.follows[i];
            proof {
                lemma_count_push(self.follows@.take(i as int), row, pred);
                assert(self.follows@.take(i + 1) =~= self.follows@.take(i as int).push(row));
            }
            if row.user_id == user_id && row.target_user_moderation.is_passing() {
                count = count + 1;
            }
            i = i + 1;
        }
        proof {
            assert(self.follows@.take(i as int) =~= self.follows@);
        }
        count
    }

    /// Recounts the passing follows of the follower and those aimed at the
    /// target, and writes both counts into the user rows with those ids.
    /// Where a count does not fit the stored counter, nothing is written and
    /// the failure names the counter.
    pub fn update_follow_counts(&mut self, user_id: i64, target_user_id: i64) -> (r: Result<
        (),
        Status,
    >)
        ensures
            r == follow_recount_verdict(old(self)@.follows, user_id, target_user_id),
            r is Ok ==> final(self)@ == old(self)@.follows_recounted(user_id, target_user_id),
            r is Err ==> final(self)@ == old(self)@,
    {
        let following: usize = self.count_following(user_id);
        if following > i32::MAX as usize {
            return Err(Status::new(Code::Internal, Reason::ErrorUpdatingFollowingCount));
        }
        let followers: usize = self.count_followers(target_user_id);
        if followers > i32::MAX as usize {
            return Err(Status::new(Code::Internal, Reason::ErrorUpdatingFollowerCount));
        }
        let ghost before = self.users@;
        let ghost goal = users_with_follow_counts(
            before,
            user_id,
            following as i32,
            target_user_id,
            followers as i32,
        );
        let n: usize = self.users.len();
        let mut i: usize = 0;
        while i < n
            invariant
                0 <= i <= n,
                n == before.len(),
                self.users@.len() == n,
                goal == users_with_follow_counts(
                    before,
                    user_id,
                    following as i32,
                    target_user_id,
                    followers as i32,
                ),
                self.groups@ == old(self).groups@,
                self.posts@ == old(self).posts@,
                self.group_posts@ == old(self).group_posts@,
                self.follows@ == old(self).follows@,
                self.memberships@ == old(self).memberships@,
                forall|j: int| 0 <= j < i ==> #[trigger] self.users@[j] == goal[j],
                forall|j: int| i <= j < n ==> #[trigger] self.users@[j] == before[j],
            decreases n - i,
        {
            if self.users[i].id == user_id {
                self.users[i].following_count = following as i32;
            }
            if self.users[i].id == target_user_id {
                self.users[i].follower_count = followers as i32;
            }
            i = i + 1;
        }
        assert(self.users@ =~= goal);
        Ok(())
    }

    /// The index of the first follow of the target by the user.
    pub fn find_follow(&self, user_id: i64, target_user_id: i64) -> (r: Option<usize>)
        ensures
            match r {
                Some(i) => first_follow(self@.follows, user_id, target_user_id) == Some(i as int),
                None => first_follow(self@.follows, user_id, target_user_id) is None,
            },
            r is Some ==> first_follow_at(self@.follows, user_id, target_user_id, r->0 as int),
    {
        let mut i: usize = 0;
        while i < self.follows.len()
            invariant
                0 <= i <= self.follows.len(),
                forall|j: int| 0 <= j < i ==> !follow_at(self.follows@, user_id, target_user_id, j),
            decreases self.follows.len() - i,
        {
            if self.follows[i].user_id == user_id && self.follows[i].target_user_id
                == target_user_id {
                proof {
                    let rows = self@.follows;
                    assert(first_follow_at(rows, user_id, target_user_id, i as int));
                    let k = choose|k: int| first_follow_at(rows, user_id, target_user_id, k);
                    assert(first_follow_at(rows, user_id, target_user_id, k));
                    if k < i {
                        assert(!follow_at(rows, user_id, target_user_id, k));
                    }
                    if i < k {
                        assert(follow_at(rows, user_id, target_user_id, i as int));
                    }
                }
                return Some(i);
            }
            i = i + 1;
        }
        proof {
            let rows = self@.follows;
            assert forall|k: int| !first_follow_at(rows, user_id, target_user_id, k) by {
                if 0 <= k < rows.len() {
                    assert(!follow_at(rows, user_id, target_user_id, k));
                }
            }
        }
        None
    }

    /// Requests a follow and recounts both users.
    pub fn create_follow(&mut self, row: Follow) -> (r: Result<(), Status>)
        ensures
            r == old(self)@.create_follow_verdict(row),
            r is Ok ==> final(self)@ == old(self)@.after_create_follow(row),
            r is Err ==> final(self)@ == old(self)@,
            old(self)@.follow_counts_consistent() ==> final(self)@.follow_counts_consistent(),
            old(self)@.all_counts_consistent() ==> final(self)@.all_counts_consistent(),
    {
        if row.user_id == row.target_user_id {
            return Err(invalid_argument(Reason::UserCannotFollowThemselves));
        }
        if row.target_user_moderation == Moderation::Unknown {
            return Err(invalid_argument(Reason::InvalidModeration));
        }
        if !self.contains_user(row.user_id) || !self.contains_user(row.target_user_id) {
            return Err(Status::new(Code::NotFound, Reason::UserNotFound));
        }
        self.follows.push(row);
        assert(self@ == old(self)@.with_follows(old(self)@.follows.push(row)));
        match self.update_follow_counts(row.user_id, row.target_user_id) {
            Ok(()) => {
                proof {
                    if old(self)@.follow_counts_consistent() {
                        lemma_create_follow_keeps_counts(old(self)@, row);
                    }
                    if old(self)@.all_counts_consistent() {
                        lemma_placement_counts_framed(old(self)@, self@);
                        lemma_group_counts_framed(old(self)@, self@);
                    }
                }
                Ok(())
            },
            Err(e) => {
                self.follows.pop();
                assert(self@.follows =~= old(self)@.follows);
                Err(e)
            },
        }
    }

    /// Records the target's decision on the first follow of the target by
    /// the user and recounts both users.
    pub fn decide_follow(&mut self, user_id: i64, target_user_id: i64, moderation: Moderation) -> (r:
        Result<(), Status>)
        ensures
            r == old(self)@.decide_follow_verdict(user_id, target_user_id, moderation),
            r is Ok ==> final(self)@ == old(self)@.after_decide_follow(
                user_id,
                target_user_id,
                moderation,
            ),
            r is Err ==> final(self)@ == old(self)@,
            old(self)@.follow_counts_consistent() ==> final(self)@.follow_counts_consistent(),
            old(self)@.all_counts_consistent() ==> final(self)@.all_counts_consistent(),
    {
        if !moderation.is_decision() {
            return Err(invalid_argument(Reason::InvalidTargetUserModeration));
        }
        let i: usize = match self.find_follow(user_id, target_user_id) {
            None => {
                return Err(Status::new(Code::NotFound, Reason::FollowNotFound));
            },
            Some(i) => i,
        };
        let previous = self.follows[i].target_user_moderation;
        self.follows[i].target_user_moderation = moderation;
        assert(self@.follows =~= old(self)@.decided_follows(user_id, target_user_id, moderation));
        assert(self@ == old(self)@.with_follows(
            old(self)@.decided_follows(user_id, target_user_id, moderation),
        ));
        match self.update_follow_counts(user_id, target_user_id) {
            Ok(()) => {
                proof {
                    if old(self)@.follow_counts_consistent() {
                        lemma_decide_follow_keeps_counts(
                            old(self)@,
                            user_id,
                            target_user_id,
                            moderation,
                        );
                    }
                    if old(self)@.all_counts_consistent() {
                        lemma_placement_counts_framed(old(self)@, self@);
                        lemma_group_counts_framed(old(self)@, self@);
                    }
                }
                Ok(())
            },
            Err(e) => {
                self.follows[i].target_user_moderation = previous;
                assert(self@.follows =~= old(self)@.follows);
                Err(e)
            },
        }
    }

    /// Ends the first follow of the target by the user and recounts both
    /// users.
    pub fn delete_follow(&mut self, user_id: i64, target_user_id: i64) -> (r: Result<(), Status>)
        ensures
            r == old(self)@.delete_follow_verdict(user_id, target_user_id),
            r is Ok ==> final(self)@ == old(self)@.after_delete_follow(user_id, target_user_id),
            r is Err ==> final(self)@ == old(self)@,
            old(self)@.follow_counts_consistent() ==> final(self)@.follow_counts_consistent(),
            old(self)@.all_counts_consistent() ==> final(self)@.all_counts_consistent(),
    {
        let i: usize = match self.find_follow(user_id, target_user_id) {
            None => {
                return Err(Status::new(Code::NotFound, Reason::FollowNotFound));
            },
            Some(i) => i,
        };
        let row = self.follows.remove(i);
        assert(self@ == old(self)@.with_follows(
            old(self)@.remaining_follows(user_id, target_user_id),
        ));
        match self.update_follow_counts(user_id, target_user_id) {
            Ok(()) => {
                proof {
                    if old(self)@.follow_counts_consistent() {
                        lemma_delete_follow_keeps_counts(old(self)@, user_id, target_user_id);
                    }
                    if old(self)@.all_counts_consistent() {
                        lemma_placement_counts_framed(old(self)@, self@);
                        lemma_group_counts_framed(old(self)@, self@);
                    }
                }
                Ok(())
            },
            Err(e) => {
                self.follows.insert(i, row);
                assert(self@.follows =~= old(self)@.follows);
                Err(e)
            },
        }
    }
}

} // verus!
