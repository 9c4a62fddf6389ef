//! Laws that relate the validators to each other and to the moderation
//! states.

use vstd::prelude::*;
use crate::marshaling::id_marshaling::db_id;
use crate::permissions::{
    first_permission_fault_at,
    lemma_first_fault_decides,
    lemma_some_fault_is_first,
    permission_fault,
};
use crate::protos::{Follow, Membership, Moderation, Permission};
use crate::rpcs::validations::validate_groups::{
    derived_shortname,
    is_word_char,
    membership_verdict,
    word_chars,
};
use crate::rpcs::validations::validate_strings::invalid;
use crate::rpcs::validations::validate_users::follow_verdict;
use crate::rpcs::validations::OperationType;
use crate::status::{Reason, Status};

verus! {

/// Filtering a sequence whose elements all pass the filter changes nothing.
pub proof fn lemma_filter_of_passing<A>(s: Seq<A>, pred: spec_fn(A) -> bool)
    requires
        forall|i: int| 0 <= i < s.len() ==> pred(#[trigger] s[i]),
    ensures
        s.filter(pred) == s,
    decreases s.len(),
{
    reveal(Seq::filter);
    if s.len() > 0 {
        assert forall|i: int| 0 <= i < s.drop_last().len() implies pred(
            #[trigger] s.drop_last()[i],
        ) by {
            assert(s.drop_last()[i] == s[i]);
        }
        lemma_filter_of_passing(s.drop_last(), pred);
        assert(pred(s[s.len() - 1]));
        assert(s.drop_last().push(s.last()) =~= s);
    }
}

/// Taking the word characters of a text twice gives what taking them once
/// gives.
pub proof fn lemma_word_chars_idempotent(text: Seq<char>)
    ensures
        word_chars(word_chars(text)) == word_chars(text),
{
    let pred = |c: char| is_word_char(c);
    text.filter_lemma(pred);
    lemma_filter_of_passing(text.filter(pred), pred);
}

/// Deriving a shortname is idempotent: a group that declares its derived
/// shortname derives the same one again, whatever its name.
pub proof fn lemma_derive_shortname_idempotent(shortname: Seq<char>, name: Seq<char>)
    ensures
        derived_shortname(derived_shortname(shortname, name), name) == derived_shortname(
            shortname,
            name,
        ),
{
    lemma_word_chars_idempotent(shortname);
    lemma_word_chars_idempotent(name);
}

/// A follow whose two identifiers are the same valid identifier is rejected
/// as a self-follow, whatever its moderation and whatever the operation.
pub proof fn lemma_self_follow_rejected(follow: Follow, validation_type: OperationType)
    requires
        follow.user_id@ == follow.target_user_id@,
        db_id(follow.user_id@) is Some,
    ensures
        follow_verdict(follow, validation_type) == Err::<(), Status>(
            invalid(Reason::UserCannotFollowThemselves),
        ),
{
}

/// Joining and leaving never depend on the permission set or on either
/// moderation state: the verdict is that of the two identifiers.
pub proof fn lemma_membership_join_leave_ignores_permissions(
    a: Membership,
    b: Membership,
    operation_type: OperationType,
)
    requires
        operation_type != OperationType::Update,
        a.user_id@ == b.user_id@,
        a.group_id@ == b.group_id@,
    ensures
        membership_verdict(a, operation_type) == membership_verdict(b, operation_type),
        db_id(a.user_id@) is Some && db_id(a.group_id@) is Some ==> membership_verdict(
            a,
            operation_type,
        ) is Ok,
{
}

/// A membership update with valid identifiers whose permission list holds
/// the sentinel anywhere fails, and it fails on a permission: it reports the
/// sentinel by name, or, where a number that names no permission comes
/// first, that the list holds such a number.
pub proof fn lemma_membership_update_rejects_sentinel(membership: Membership, i: int)
    requires
        db_id(membership.user_id@) is Some,
        db_id(membership.group_id@) is Some,
        0 <= i < membership.permissions@.len(),
        membership.permissions@[i] == Permission::Unknown.number(),
    ensures
        membership_verdict(membership, OperationType::Update) == Err::<(), Status>(
            invalid(Reason::InvalidPermission(Permission::Unknown)),
        ) || membership_verdict(membership, OperationType::Update) == Err::<(), Status>(
            invalid(Reason::UnrecognizedPermission),
        ),
{
    let raw = membership.permissions@;
    lemma_some_fault_is_first(raw, i);
    let k = choose|k: int| 0 <= k <= i && first_permission_fault_at(raw, k);
    lemma_first_fault_decides(raw, k);
}

/// A membership update with valid identifiers whose permission list holds
/// the sentinel, with nothing at fault before it, fails and reports the
/// sentinel by name.
pub proof fn lemma_membership_update_rejects_unknown_permission(membership: Membership, i: int)
    requires
        db_id(membership.user_id@) is Some,
        db_id(membership.group_id@) is Some,
        0 <= i < membership.permissions@.len(),
        membership.permissions@[i] == Permission::Unknown.number(),
        forall|j: int| 0 <= j < i ==> permission_fault(#[trigger] membership.permissions@[j]) is None,
    ensures
        membership_verdict(membership, OperationType::Update) == Err::<(), Status>(
            invalid(Reason::InvalidPermission(Permission::Unknown)),
        ),
{
    assert(first_permission_fault_at(membership.permissions@, i));
    lemma_first_fault_decides(membership.permissions@, i);
}

/// A follow update between two different valid users that leaves the
/// target's moderation open is rejected.
pub proof fn lemma_follow_update_needs_decision(follow: Follow)
    requires
        db_id(follow.user_id@) is Some,
        db_id(follow.target_user_id@) is Some,
        db_id(follow.user_id@) != db_id(follow.target_user_id@),
        Moderation::of_number(follow.target_user_moderation as int) == Some(Moderation::Unmoderated)
            || Moderation::of_number(follow.target_user_moderation as int) == Some(
            Moderation::Pending,
        ),
    ensures
        follow_verdict(follow, OperationType::Update) == Err::<(), Status>(
            invalid(Reason::InvalidTargetUserModeration),
        ),
{
}

} // verus!
