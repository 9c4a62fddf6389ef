//! Creating a group from a validated payload.

use vstd::prelude::*;
use vstd::string::*;
use crate::consistency::lemma_user_counts_untouched;
use crate::marshaling::id_marshaling::{db_opt_id, opt_text, to_db_opt_id_or_err};
use crate::models;
use crate::permissions::{decoded, lemma_faultless_list_is_valid, to_proto_permissions};
use crate::protos::{Group, Moderation, Visibility};
use crate::rpcs::validations::validate_groups::{
    ascii_agreement,
    derive_shortname,
    derived_shortname,
    group_verdict,
    validate_group,
};
use crate::rpcs::validations::validate_strings::{invalid, invalid_argument};
use crate::status::{Field, Reason, Status};
use crate::store::{group_post_count, Store};

verus! {

/// The stored group is what a valid payload declares: its texts as sent,
/// its shortname derived, its enumerations decoded, and no post counted yet.
pub open spec fn stored_from(row: models::Group, id: i64, payload: Group) -> bool {
    &&& row.id == id
    &&& row.name == payload.name
    &&& row.shortname@ == derived_shortname(payload.shortname@, payload.name@)
    &&& row.description == payload.description
    &&& Ok::<Option<i64>, Status>(row.avatar_media_id) == db_opt_id(
        opt_text(payload.avatar_media_id),
        Field::AvatarMediaId,
    )
    &&& Some(row.visibility) == Visibility::of_number(payload.visibility as int)
    &&& row.default_membership_permissions@ == decoded(payload.default_membership_permissions@)
    &&& Some(row.default_membership_moderation) == Moderation::of_number(
        payload.default_membership_moderation as int,
    )
    &&& Some(row.default_post_moderation) == Moderation::of_number(
        payload.default_post_moderation as int,
    )
    &&& Some(row.default_event_moderation) == Moderation::of_number(
        payload.default_event_moderation as int,
    )
    &&& row.post_count == 0
}

/// Validates the payload and, where it is valid, stores the group under the
/// given id as the last row. An invalid payload changes nothing.
pub fn create_group(store: &mut Store, id: i64, payload: &Group) -> (r: Result<(), Status>)
    ensures
        r == group_verdict(*payload),
        r is Ok || r == Err::<(), Status>(invalid(Reason::BlankShortname)) ==> ascii_agreement(
            payload.shortname@,
        ) && ascii_agreement(payload.name@),
        r is Err ==> final(store)@ == old(store)@,
        r is Ok ==> {
            &&& final(store)@.groups.len() == old(store)@.groups.len() + 1
            &&& final(store)@.groups.drop_last() == old(store)@.groups
            &&& stored_from(final(store)@.groups.last(), id, *payload)
            &&& final(store)@.with_groups(old(store)@.groups) == old(store)@
        },
        old(store)@.counts_consistent() && group_post_count(old(store)@.group_posts, id) == 0
            ==> final(store)@.counts_consistent(),
        old(store)@.all_counts_consistent() && group_post_count(old(store)@.group_posts, id) == 0
            ==> final(store)@.all_counts_consistent(),
{
    validate_group(payload)?;
    let avatar_media_id = match to_db_opt_id_or_err(
        &payload.avatar_media_id,
        Field::AvatarMediaId,
    ) {
        Ok(avatar_media_id) => avatar_media_id,
        Err(e) => {
            return Err(e);
        },
    };
    let visibility = match Visibility::from_i32(payload.visibility) {
        Some(visibility) => visibility,
        None => {
            return Err(invalid_argument(Reason::InvalidVisibility));
        },
    };
    proof {
        lemma_faultless_list_is_valid(payload.default_membership_permissions@);
    }
    let default_membership_permissions = match to_proto_permissions(
        &payload.default_membership_permissions,
    ) {
        Ok(permissions) => permissions,
        Err(e) => {
            return Err(e);
        },
    };
    let default_membership_moderation = match Moderation::from_i32(
        payload.default_membership_moderation,
    ) {
        Some(moderation) => moderation,
        None => {
            return Err(invalid_argument(Reason::InvalidDefaultMembershipModeration));
        },
    };
    let default_post_moderation = match Moderation::from_i32(payload.default_post_moderation) {
        Some(moderation) => moderation,
        None => {
            return Err(invalid_argument(Reason::InvalidDefaultPostModeration));
        },
    };
    let default_event_moderation = match Moderation::from_i32(payload.default_event_moderation) {
        Some(moderation) => moderation,
        None => {
            return Err(invalid_argument(Reason::InvalidDefaultEventModeration));
        },
    };
    let row = models::Group {
        id,
        name: payload.name.clone(),
        shortname: derive_shortname(payload),
        description: payload.description.clone(),
        avatar_media_id,
        visibility,
        default_membership_permissions,
        default_membership_moderation,
        default_post_moderation,
        default_event_moderation,
        post_count: 0,
    };
    store.groups.push(row);
    proof {
        let before = old(store)@;
        let after = store@;
        assert(after.groups.drop_last() =~= before.groups);
        assert(after.with_groups(before.groups) == before);
        if before.all_counts_consistent() {
            lemma_user_counts_untouched(before, after);
        }
        if before.counts_consistent() && group_post_count(before.group_posts, id) == 0 {
            assert forall|i: int| 0 <= i < after.groups.len() implies #[trigger] after.group_consistent(
                i,
            ) by {
                if i < before.groups.len() {
                    assert(before.group_consistent(i));
                }
            }
            assert forall|i: int| 0 <= i < after.posts.len() implies #[trigger] after.post_consistent(
                i,
            ) by {
                assert(before.post_consistent(i));
            }
        }
    }
    Ok(())
}

} // verus!
