//! The invariant that ties every stored counter to the rows it counts, and
//! why a change to one kind of relationship leaves the counters of the other
//! kinds right.

use vstd::prelude::*;
use crate::store::Tables;

verus! {

impl Tables {
    /// Every counter equals the number of passing relationships that it
    /// counts: placements per group and per post, followers and follows per
    /// user, and memberships per user.
    pub open spec fn all_counts_consistent(self) -> bool {
        &&& self.counts_consistent()
        &&& self.follow_counts_consistent()
        &&& self.group_counts_consistent()
    }

    /// Both tables have the same users up to their counters.
    pub open spec fn same_users_up_to_counters(self, other: Tables) -> bool {
        &&& self.users.len() == other.users.len()
        &&& forall|i: int|
            0 <= i < self.users.len() ==> (#[trigger] self.users[i]).id == other.users[i].id
    }
}

/// Groups, posts and placements that stay as they are keep their counters
/// right.
pub proof fn lemma_placement_counts_framed(t: Tables, u: Tables)
    requires
        t.counts_consistent(),
        u.groups == t.groups,
        u.posts == t.posts,
        u.group_posts == t.group_posts,
    ensures
        u.counts_consistent(),
{
    assert forall|i: int| 0 <= i < u.groups.len() implies #[trigger] u.group_consistent(i) by {
        assert(t.group_consistent(i));
    }
    assert forall|i: int| 0 <= i < u.posts.len() implies #[trigger] u.post_consistent(i) by {
        assert(t.post_consistent(i));
    }
}

/// Follows that stay as they are, with users that keep their follow
/// counters, keep those counters right.
pub proof fn lemma_follow_counts_framed(t: Tables, u: Tables)
    requires
        t.follow_counts_consistent(),
        u.follows == t.follows,
        u.same_users_up_to_counters(t),
        forall|i: int|
            0 <= i < u.users.len() ==> (#[trigger] u.users[i]).follower_count
                == t.users[i].follower_count && u.users[i].following_count
                == t.users[i].following_count,
    ensures
        u.follow_counts_consistent(),
{
    assert forall|i: int| 0 <= i < u.users.len() implies #[trigger] u.follower_consistent(i) by {
        assert(t.follower_consistent(i));
        assert(u.users[i].id == t.users[i].id);
    }
    assert forall|i: int| 0 <= i < u.users.len() implies #[trigger] u.following_consistent(i) by {
        assert(t.following_consistent(i));
        assert(u.users[i].id == t.users[i].id);
    }
}

/// Memberships that stay as they are, with users that keep their group
/// counter, keep that counter right.
pub proof fn lemma_group_counts_framed(t: Tables, u: Tables)
    requires
        t.group_counts_consistent(),
        u.memberships == t.memberships,
        u.same_users_up_to_counters(t),
        forall|i: int|
            0 <= i < u.users.len() ==> (#[trigger] u.users[i]).group_count
                == t.users[i].group_count,
    ensures
        u.group_counts_consistent(),
{
    assert forall|i: int| 0 <= i < u.users.len() implies #[trigger] u.group_count_consistent(
        i,
    ) by {
        assert(t.group_count_consistent(i));
        assert(u.users[i].id == t.users[i].id);
    }
}

/// A change to the placements and their counters alone keeps every counter
/// of the users right.
pub proof fn lemma_user_counts_untouched(t: Tables, u: Tables)
    requires
        t.follow_counts_consistent(),
        t.group_counts_consistent(),
        u.users == t.users,
        u.follows == t.follows,
        u.memberships == t.memberships,
    ensures
        u.follow_counts_consistent(),
        u.group_counts_consistent(),
{
    lemma_follow_counts_framed(t, u);
    lemma_group_counts_framed(t, u);
}

} // verus!
