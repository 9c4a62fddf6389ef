//! The transitions of a membership: joining, a decision by either side and
//! leaving. A membership counts toward its user's `group_count` while both
//! the group's and the user's moderation of it are passing. Every transition
//! recounts that counter, and either both the transition and the recount take
//! effect or neither does.

use vstd::prelude::*;
use crate::consistency::{lemma_follow_counts_framed, lemma_placement_counts_framed};
use crate::counts::{
    count_where,
    lemma_count_empty,
    lemma_count_push,
    lemma_count_remove,
    lemma_count_update,
};
use crate::follows::has_user;
use crate::models::user_models::User;
use crate::models::Membership;
use crate::moderation::{has_group, not_found};
use crate::protos::Moderation;
use crate::rpcs::validations::validate_strings::{invalid, invalid_argument};
use crate::status::{Code, Reason, Status};
use crate::store::{Store, Tables};

verus! {

/// Which of the two sides of a membership moderates.
#[derive(Clone, Copy, Debug, PartialEq, Eq, Structural)]
pub enum Side {
    /// The group admits or refuses the user.
    Group,
    /// The user accepts or declines the group.
    User,
}

/// The memberships that count toward a user's groups: those of the user
/// that both sides let pass.
pub open spec fn counts_as_group_of(user_id: i64) -> spec_fn(Membership) -> bool {
    |row: Membership|
        row.user_id == user_id && row.group_moderation.passing() && row.user_moderation.passing()
}

/// The number of a user's memberships that both sides let pass.
pub open spec fn user_group_count(rows: Seq<Membership>, user_id: i64) -> nat {
    count_where(rows, counts_as_group_of(user_id))
}

/// A user row with its group counter replaced.
pub open spec fn with_user_group_count(user: User, count: i32) -> User {
    User { group_count: count, ..user }
}

/// The user table after the group counter of every row with the given id
/// was set.
pub open spec fn users_with_user_group_count(users: Seq<User>, user_id: i64, count: i32) -> Seq<User> {
    Seq::new(
        users.len(),
        |i: int|
            if users[i].id == user_id {
                with_user_group_count(users[i], count)
            } else {
                users[i]
            },
    )
}

/// Whether recounting for a user can be written down: the count must fit
/// the stored counter.
pub open spec fn membership_recount_verdict(rows: Seq<Membership>, user_id: i64) -> Result<
    (),
    Status,
> {
    if user_group_count(rows, user_id) > i32::MAX {
        Err(Status { code: Code::Internal, reason: Reason::ErrorUpdatingUserGroupCount })
    } else {
        Ok(())
    }
}

/// Row `i` is a membership of the user in the group.
pub open spec fn membership_at(rows: Seq<Membership>, user_id: i64, group_id: i64, i: int) -> bool {
    0 <= i < rows.len() && rows[i].user_id == user_id && rows[i].group_id == group_id
}

/// Row `i` is the first membership of the user in the group.
pub open spec fn first_membership_at(
    rows: Seq<Membership>,
    user_id: i64,
    group_id: i64,
    i: int,
) -> bool {
    &&& membership_at(rows, user_id, group_id, i)
    &&& forall|j: int| 0 <= j < i ==> !membership_at(rows, user_id, group_id, j)
}

/// The index of the first membership of the user in the group.
pub open spec fn first_membership(rows: Seq<Membership>, user_id: i64, group_id: i64) -> Option<
    int,
> {
    if exists|i: int| first_membership_at(rows, user_id, group_id, i) {
        Some(choose|i: int| first_membership_at(rows, user_id, group_id, i))
    } else {
        None
    }
}

/// A membership after one side decided on it.
pub open spec fn with_side_moderation(row: Membership, side: Side, moderation: Moderation) -> Membership {
    match side {
        Side::Group => Membership { group_moderation: moderation, ..row },
        Side::User => Membership { user_moderation: moderation, ..row },
    }
}

impl Tables {
    /// The user at `i` stores the number of its passing memberships.
    pub open spec fn group_count_consistent(self, i: int) -> bool {
        self.users[i].group_count == user_group_count(self.memberships, self.users[i].id)
    }

    /// Every user stores the number of its passing memberships.
    pub open spec fn group_counts_consistent(self) -> bool {
        forall|i: int| 0 <= i < self.users.len() ==> #[trigger] self.group_count_consistent(i)
    }

    /// The tables with other memberships.
    pub open spec fn with_memberships(self, rows: Seq<Membership>) -> Tables {
        Tables { memberships: rows, ..self }
    }

    /// The tables after the user's `group_count` was set to the count of
    /// its passing memberships.
    pub open spec fn memberships_recounted(self, user_id: i64) -> Tables {
        Tables {
            users: users_with_user_group_count(
                self.users,
                user_id,
                user_group_count(self.memberships, user_id) as i32,
            ),
            ..self
        }
    }

    /// Whether a user can join: neither state is the sentinel, the user and
    /// the group exist, and the recount can be written. The permission set
    /// is not looked at.
    pub open spec fn create_membership_verdict(self, row: Membership) -> Result<(), Status> {
        if row.group_moderation == Moderation::Unknown {
            Err(invalid(Reason::InvalidGroupModeration))
        } else if row.user_moderation == Moderation::Unknown {
            Err(invalid(Reason::InvalidUserModeration))
        } else if !has_user(self.users, row.user_id) {
            Err(not_found(Reason::UserNotFound))
        } else if !has_group(self.groups, row.group_id) {
            Err(not_found(Reason::GroupNotFound))
        } else {
            membership_recount_verdict(self.memberships.push(row), row.user_id)
        }
    }

    /// The tables after a user joined and was recounted.
    pub open spec fn after_create_membership(self, row: Membership) -> Tables {
        self.with_memberships(self.memberships.push(row)).memberships_recounted(row.user_id)
    }

    /// The memberships after one side decided on the first membership of
    /// the user in the group.
    pub open spec fn decided_memberships(
        self,
        user_id: i64,
        group_id: i64,
        side: Side,
        moderation: Moderation,
    ) -> Seq<Membership> {
        let i = first_membership(self.memberships, user_id, group_id)->0;
        self.memberships.update(i, with_side_moderation(self.memberships[i], side, moderation))
    }

    /// Whether a side can decide: the state is a decision, the membership
    /// exists, and the recount can be written.
    pub open spec fn decide_membership_verdict(
        self,
        user_id: i64,
        group_id: i64,
        side: Side,
        moderation: Moderation,
    ) -> Result<(), Status> {
        if !moderation.decision() {
            Err(
                invalid(
                    match side {
                        Side::Group => Reason::InvalidGroupModeration,
                        Side::User => Reason::InvalidUserModeration,
                    },
                ),
            )
        } else if first_membership(self.memberships, user_id, group_id) is None {
            Err(not_found(Reason::MembershipNotFound))
        } else {
            membership_recount_verdict(
                self.decided_memberships(user_id, group_id, side, moderation),
                user_id,
            )
        }
    }

    /// The tables after a side decided and the user was recounted.
    pub open spec fn after_decide_membership(
        self,
        user_id: i64,
        group_id: i64,
        side: Side,
        moderation: Moderation,
    ) -> Tables {
        self.with_memberships(
            self.decided_memberships(user_id, group_id, side, moderation),
        ).memberships_recounted(user_id)
    }

    /// The memberships without the first membership of the user in the
    /// group.
    pub open spec fn remaining_memberships(self, user_id: i64, group_id: i64) -> Seq<Membership> {
        self.memberships.remove(first_membership(self.memberships, user_id, group_id)->0)
    }

    /// Whether a user can leave: the membership exists, and the recount can
    /// be written.
    pub open spec fn delete_membership_verdict(self, user_id: i64, group_id: i64) -> Result<
        (),
        Status,
    > {
        if first_membership(self.memberships, user_id, group_id) is None {
            Err(not_found(Reason::MembershipNotFound))
        } else {
            membership_recount_verdict(self.remaining_memberships(user_id, group_id), user_id)
        }
    }

    /// The tables after a user left and was recounted.
    pub open spec fn after_delete_membership(self, user_id: i64, group_id: i64) -> Tables {
        self.with_memberships(self.remaining_memberships(user_id, group_id)).memberships_recounted(
            user_id,
        )
    }
}

/// After the memberships were replaced by others that give every other user
/// the same count, a recount that can be written makes every count right.
pub proof fn lemma_membership_recount_restores_counts(
    t: Tables,
    rows: Seq<Membership>,
    user_id: i64,
)
    requires
        t.group_counts_consistent(),
        membership_recount_verdict(rows, user_id) is Ok,
        forall|u: i64| u != user_id ==> user_group_count(rows, u) == user_group_count(
            t.memberships,
            u,
        ),
    ensures
        t.with_memberships(rows).memberships_recounted(user_id).group_counts_consistent(),
{
    let u = t.with_memberships(rows).memberships_recounted(user_id);
    assert forall|i: int| 0 <= i < u.users.len() implies #[trigger] u.group_count_consistent(i) by {
        assert(t.group_count_consistent(i));
    }
}

/// After a user joins a group, every user's `group_count` equals the number
/// of its passing memberships.
pub proof fn lemma_create_membership_keeps_counts(t: Tables, row: Membership)
    requires
        t.group_counts_consistent(),
        t.create_membership_verdict(row) is Ok,
    ensures
        t.after_create_membership(row).group_counts_consistent(),
{
    let rows = t.memberships.push(row);
    assert forall|u: i64| u != row.user_id implies user_group_count(rows, u) == user_group_count(
        t.memberships,
        u,
    ) by {
        lemma_count_push(t.memberships, row, counts_as_group_of(u));
    }
    lemma_membership_recount_restores_counts(t, rows, row.user_id);
}

/// After a side decides on a membership, every user's `group_count` equals
/// the number of its passing memberships.
pub proof fn lemma_decide_membership_keeps_counts(
    t: Tables,
    user_id: i64,
    group_id: i64,
    side: Side,
    moderation: Moderation,
)
    requires
        t.group_counts_consistent(),
        t.decide_membership_verdict(user_id, group_id, side, moderation) is Ok,
    ensures
        t.after_decide_membership(user_id, group_id, side, moderation).group_counts_consistent(),
{
    let i = first_membership(t.memberships, user_id, group_id)->0;
    assert(first_membership_at(t.memberships, user_id, group_id, i));
    let new_row = with_side_moderation(t.memberships[i], side, moderation);
    let rows = t.decided_memberships(user_id, group_id, side, moderation);
    assert forall|u: i64| u != user_id implies user_group_count(rows, u) == user_group_count(
        t.memberships,
        u,
    ) by {
        lemma_count_update(t.memberships, i, new_row, counts_as_group_of(u));
    }
    lemma_membership_recount_restores_counts(t, rows, user_id);
}

/// After a user leaves a group, every user's `group_count` equals the
/// number of its passing memberships.
pub proof fn lemma_delete_membership_keeps_counts(t: Tables, user_id: i64, group_id: i64)
    requires
        t.group_counts_consistent(),
        t.delete_membership_verdict(user_id, group_id) is Ok,
    ensures
        t.after_delete_membership(user_id, group_id).group_counts_consistent(),
{
    let i = first_membership(t.memberships, user_id, group_id)->0;
    assert(first_membership_at(t.memberships, user_id, group_id, i));
    let rows = t.remaining_memberships(user_id, group_id);
    assert forall|u: i64| u != user_id implies user_group_count(rows, u) == user_group_count(
        t.memberships,
        u,
    ) by {
        lemma_count_remove(t.memberships, i, counts_as_group_of(u));
    }
    lemma_membership_recount_restores_counts(t, rows, user_id);
}

impl Store {
    /// Counts the user's memberships that both sides let pass.
    pub fn count_user_groups(&self, user_id: i64) -> (r: usize)
        ensures
            r == user_group_count(self@.memberships, user_id),
    {
        let ghost pred = counts_as_group_of(user_id);
        let mut count: usize = 0;
        let mut i: usize = 0;
        proof {
            lemma_count_empty(pred);
            assert(self.memberships@.take(0) =~= Seq::<Membership>::empty());
        }
        while i < self.memberships.len()
            invariant
                0 <= i <= self.memberships.len(),
                pred == counts_as_group_of(user_id),
                count == count_where(self.memberships@.take(i as int), pred),
                count <= i,
            decreases self.memberships.len() - i,
        {
            let row = &self.memberships[i];
            proof {
                lemma_count_push(self.memberships@.take(i as int), *row, pred);
                assert(self.memberships@.take(i + 1) =~= self.memberships@.take(i as int).push(
                    *row,
                ));
            }
            if row.user_id == user_id && row.group_moderation.is_passing()
                && row.user_moderation.is_passing() {
                count = count + 1;
            }
            i = i + 1;
        }
        proof {
            assert(self.memberships@.take(i as int) =~= self.memberships@);
        }
        count
    }

    /// Recounts the user's passing memberships and writes the count into
    /// every user row with that id. Where the count does not fit the stored
    /// counter, nothing is written.
    pub fn update_membership_counts(&mut self, user_id: i64) -> (r: Result<(), Status>)
        ensures
            r == membership_recount_verdict(old(self)@.memberships, user_id),
            r is Ok ==> final(self)@ == old(self)@.memberships_recounted(user_id),
            r is Err ==> final(self)@ == old(self)@,
    {
        let count: usize = self.count_user_groups(user_id);
        if count > i32::MAX as usize {
            return Err(Status::new(Code::Internal, Reason::ErrorUpdatingUserGroupCount));
        }
        let ghost before = self.users@;
        let ghost goal = users_with_user_group_count(before, user_id, count as i32);
        let n: usize = self.users.len();
        let mut i: usize = 0;
        while i < n
            invariant
                0 <= i <= n,
                n == before.len(),
                self.users@.len() == n,
                goal == users_with_user_group_count(before, user_id, count as i32),
                self.groups@ == old(self).groups@,
                self.posts@ == old(self).posts@,
                self.group_posts@ == old(self).group_posts@,
                self.follows@ == old(self).follows@,
                self.memberships@ == old(self).memberships@,
                forall|j: int| 0 <= j < i ==> #[trigger] self.users@[j] == goal[j],
                forall|j: int| i <= j < n ==> #[trigger] self.users@[j] == before[j],
            decreases n - i,
        {
            if self.users[i].id == user_id {
                self.users[i].group_count = count as i32;
            }
            i = i + 1;
        }
        assert(self.users@ =~= goal);
        Ok(())
    }

    /// The index of the first membership of the user in the group.
    pub fn find_membership(&self, user_id: i64, group_id: i64) -> (r: Option<usize>)
        ensures
            match r {
                Some(i) => first_membership(self@.memberships, user_id, group_id) == Some(i as int),
                None => first_membership(self@.memberships, user_id, group_id) is None,
            },
            r is Some ==> first_membership_at(self@.memberships, user_id, group_id, r->0 as int),
    {
        let mut i: usize = 0;
        while i < self.memberships.len()
            invariant
                0 <= i <= self.memberships.len(),
                forall|j: int| 0 <= j < i ==> !membership_at(self.memberships@, user_id, group_id, j),
            decreases self.memberships.len() - i,
        {
            if self.memberships[i].user_id == user_id && self.memberships[i].group_id == group_id {
                proof {
                    let rows = self@.memberships;
                    assert(first_membership_at(rows, user_id, group_id, i as int));
                    let k = choose|k: int| first_membership_at(rows, user_id, group_id, k);
                    assert(first_membership_at(rows, user_id, group_id, k));
                    if k < i {
                        assert(!membership_at(rows, user_id, group_id, k));
                    }
                    if i < k {
                        assert(membership_at(rows, user_id, group_id, i as int));
                    }
                }
                return Some(i);
            }
            i = i + 1;
        }
        proof {
            let rows = self@.memberships;
            assert forall|k: int| !first_membership_at(rows, user_id, group_id, k) by {
                if 0 <= k < rows.len() {
                    assert(!membership_at(rows, user_id, group_id, k));
                }
            }
        }
        None
    }

    /// Lets a user join a group and recounts the user.
    pub fn create_membership(&mut self, row: Membership) -> (r: Result<(), Status>)
        ensures
            r == old(self)@.create_membership_verdict(row),
            r is Ok ==> final(self)@ == old(self)@.after_create_membership(row),
            r is Err ==> final(self)@ == old(self)@,
            old(self)@.group_counts_consistent() ==> final(self)@.group_counts_consistent(),
            old(self)@.all_counts_consistent() ==> final(self)@.all_counts_consistent(),
    {
        if row.group_moderation == Moderation::Unknown {
            return Err(invalid_argument(Reason::InvalidGroupModeration));
        }
        if row.user_moderation == Moderation::Unknown {
            return Err(invalid_argument(Reason::InvalidUserModeration));
        }
        if !self.contains_user(row.user_id) {
            return Err(Status::new(Code::NotFound, Reason::UserNotFound));
        }
        if !self.contains_group(row.group_id) {
            return Err(Status::new(Code::NotFound, Reason::GroupNotFound));
        }
        let user_id = row.user_id;
        self.memberships.push(row);
        assert(self@ == old(self)@.with_memberships(old(self)@.memberships.push(row)));
        match self.update_membership_counts(user_id) {
            Ok(()) => {
                proof {
                    if old(self)@.group_counts_consistent() {
                        lemma_create_membership_keeps_counts(old(self)@, row);
                    }
                    if old(self)@.all_counts_consistent() {
                        lemma_placement_counts_framed(old(self)@, self@);
                        lemma_follow_counts_framed(old(self)@, self@);
                    }
                }
                Ok(())
            },
            Err(e) => {
                self.memberships.pop();
                assert(self@.memberships =~= old(self)@.memberships);
                Err(e)
            },
        }
    }

    /// Records the decision of one side on the first membership of the user
    /// in the group and recounts the user.
    pub fn decide_membership(
        &mut self,
        user_id: i64,
        group_id: i64,
        side: Side,
        moderation: Moderation,
    ) -> (r: Result<(), Status>)
        ensures
            r == old(self)@.decide_membership_verdict(user_id, group_id, side, moderation),
            r is Ok ==> final(self)@ == old(self)@.after_decide_membership(
                user_id,
                group_id,
                side,
                moderation,
            ),
            r is Err ==> final(self)@ == old(self)@,
            old(self)@.group_counts_consistent() ==> final(self)@.group_counts_consistent(),
            old(self)@.all_counts_consistent() ==> final(self)@.all_counts_consistent(),
    {
        if !moderation.is_decision() {
            return Err(
                invalid_argument(
                    match side {
                        Side::Group => Reason::InvalidGroupModeration,
                        Side::User => Reason::InvalidUserModeration,
                    },
                ),
            );
        }
        let i: usize = match self.find_membership(user_id, group_id) {
            None => {
                return Err(Status::new(Code::NotFound, Reason::MembershipNotFound));
            },
            Some(i) => i,
        };
        let previous = match side {
            Side::Group => self.memberships[i].group_moderation,
            Side::User => self.memberships[i].user_moderation,
        };
        match side {
            Side::Group => {
                self.memberships[i].group_moderation = moderation;
            },
            Side::User => {
                self.memberships[i].user_moderation = moderation;
            },
        }
        assert(self@.memberships =~= old(self)@.decided_memberships(
            user_id,
            group_id,
            side,
            moderation,
        ));
        assert(self@ == old(self)@.with_memberships(
            old(self)@.decided_memberships(user_id, group_id, side, moderation),
        ));
        match self.update_membership_counts(user_id) {
            Ok(()) => {
                proof {
                    if old(self)@.group_counts_consistent() {
                        lemma_decide_membership_keeps_counts(
                            old(self)@,
                            user_id,
                            group_id,
                            side,
                            moderation,
                        );
                    }
                    if old(self)@.all_counts_consistent() {
                        lemma_placement_counts_framed(old(self)@, self@);
                        lemma_follow_counts_framed(old(self)@, self@);
                    }
                }
                Ok(())
            },
            Err(e) => {
                match side {
                    Side::Group => {
                        self.memberships[i].group_moderation = previous;
                    },
                    Side::User => {
                        self.memberships[i].user_moderation = previous;
                    },
                }
                assert(self@.memberships =~= old(self)@.memberships);
                Err(e)
            },
        }
    }

    /// Lets a user leave a group and recounts the user.
    pub fn delete_membership(&mut self, user_id: i64, group_id: i64) -> (r: Result<(), Status>)
        ensures
            r == old(self)@.delete_membership_verdict(user_id, group_id),
            r is Ok ==> final(self)@ == old(self)@.after_delete_membership(user_id, group_id),
            r is Err ==> final(self)@ == old(self)@,
            old(self)@.group_counts_consistent() ==> final(self)@.group_counts_consistent(),
            old(self)@.all_counts_consistent() ==> final(self)@.all_counts_consistent(),
    {
        let i: usize = match self.find_membership(user_id, group_id) {
            None => {
                return Err(Status::new(Code::NotFound, Reason::MembershipNotFound));
            },
            Some(i) => i,
        };
        let row = self.memberships.remove(i);
        assert(self@ == old(self)@.with_memberships(
            old(self)@.remaining_memberships(user_id, group_id),
        ));
        match self.update_membership_counts(user_id) {
            Ok(()) => {
                proof {
                    if old(self)@.group_counts_consistent() {
                        lemma_delete_membership_keeps_counts(old(self)@, user_id, group_id);
                    }
                    if old(self)@.all_counts_consistent() {
                        lemma_placement_counts_framed(old(self)@, self@);
                        lemma_follow_counts_framed(old(self)@, self@);
                    }
                }
                Ok(())
            },
            Err(e) => {
                self.memberships.insert(i, row);
                assert(self@.memberships =~= old(self)@.memberships);
                Err(e)
            },
        }
    }
}

} // verus!
