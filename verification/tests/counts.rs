use jonline::marshaling::post_marshaling::ToProtoGroupPost;
use jonline::models::user_models::{Follow, User};
use jonline::memberships::Side;
use jonline::models::{Group, GroupPost, Membership, Post};
use jonline::protos::{Moderation, Permission, PostContext, Timestamp, Visibility};
use jonline::status::Code;
use jonline::store::{write_failure, CounterWrite, Store};

fn at(seconds: i64) -> Timestamp {
    Timestamp { seconds, nanos: 0 }
}

fn group(id: i64) -> Group {
    Group {
        id,
        name: format!("group {}", id),
        shortname: format!("group{}", id),
        description: String::new(),
        avatar_media_id: None,
        visibility: Visibility::GlobalPublic,
        default_membership_permissions: vec![],
        default_membership_moderation: Moderation::Unmoderated,
        default_post_moderation: Moderation::Unmoderated,
        default_event_moderation: Moderation::Unmoderated,
        post_count: 0,
    }
}

fn post(id: i64) -> Post {
    Post {
        id,
        user_id: Some(1),
        parent_post_id: None,
        title: format!("post {}", id),
        link: None,
        content: None,
        media: vec![],
        media_generated: false,
        embed_link: false,
        shareable: true,
        context: PostContext::Post,
        visibility: Visibility::GlobalPublic,
        moderation: Moderation::Unmoderated,
        response_count: 0,
        reply_count: 0,
        group_count: 0,
        created_at: at(0),
        updated_at: None,
        published_at: None,
        last_activity_at: at(0),
    }
}

fn user(id: i64) -> User {
    User {
        id,
        username: format!("user{}", id),
        password_salted_hash: String::new(),
        real_name: String::new(),
        email: None,
        phone: None,
        permissions: vec![],
        avatar_media_id: None,
        bio: String::new(),
        visibility: Visibility::GlobalPublic,
        moderation: Moderation::Unmoderated,
        default_follow_moderation: Moderation::Unmoderated,
        follower_count: 0,
        following_count: 0,
        group_count: 0,
        post_count: 0,
        event_count: 0,
        response_count: 0,
        created_at: at(0),
        updated_at: at(0),
    }
}

fn placement(group_id: i64, post_id: i64, moderation: Moderation) -> GroupPost {
    GroupPost { group_id, post_id, user_id: 1, group_moderation: moderation, created_at: at(5) }
}

fn follow(user_id: i64, target_user_id: i64, moderation: Moderation) -> Follow {
    Follow {
        id: 0,
        user_id,
        target_user_id,
        target_user_moderation: moderation,
        created_at: at(0),
        updated_at: at(0),
    }
}

fn membership(user_id: i64, group_id: i64, group: Moderation, user: Moderation) -> Membership {
    Membership {
        user_id,
        group_id,
        permissions: vec![Permission::Unknown],
        group_moderation: group,
        user_moderation: user,
        created_at: at(0),
    }
}

fn store() -> Store {
    let mut store = Store::new();
    store.groups = vec![group(1), group(2)];
    store.posts = vec![post(7), post(8), post(9)];
    store.users = vec![user(1), user(2), user(3)];
    store
}

fn passing(m: Moderation) -> bool {
    m == Moderation::Unmoderated || m == Moderation::Approved
}

fn assert_counts_hold(store: &Store) {
    for g in &store.groups {
        let n = store
            .group_posts
            .iter()
            .filter(|r| r.group_id == g.id && passing(r.group_moderation))
            .count();
        assert_eq!(g.post_count as usize, n);
    }
    for p in &store.posts {
        let n = store
            .group_posts
            .iter()
            .filter(|r| r.post_id == p.id && passing(r.group_moderation))
            .count();
        assert_eq!(p.group_count as usize, n);
    }
    for u in &store.users {
        let followers = store
            .follows
            .iter()
            .filter(|r| r.target_user_id == u.id && passing(r.target_user_moderation))
            .count();
        let following = store
            .follows
            .iter()
            .filter(|r| r.user_id == u.id && passing(r.target_user_moderation))
            .count();
        assert_eq!(u.follower_count as usize, followers);
        assert_eq!(u.following_count as usize, following);
        let groups = store
            .memberships
            .iter()
            .filter(|r| {
                r.user_id == u.id && passing(r.group_moderation) && passing(r.user_moderation)
            })
            .count();
        assert_eq!(u.group_count as usize, groups);
    }
}

#[test]
fn attaching_an_approved_post_counts_and_rejecting_it_uncounts() {
    let mut store = store();
    assert_eq!(store.create_group_post(placement(1, 7, Moderation::Approved)), Ok(()));
    assert_eq!(store.groups[0].post_count, 1);
    assert_eq!(store.posts[0].group_count, 1);
    assert_eq!(store.decide_group_post(1, 7, Moderation::Rejected), Ok(()));
    assert_eq!(store.groups[0].post_count, 0);
    assert_eq!(store.posts[0].group_count, 0);
    assert_eq!(store.group_posts[0].group_moderation, Moderation::Rejected);
}

#[test]
fn only_passing_placements_count() {
    let mut store = store();
    assert_eq!(store.create_group_post(placement(1, 7, Moderation::Unmoderated)), Ok(()));
    assert_eq!(store.create_group_post(placement(1, 8, Moderation::Pending)), Ok(()));
    assert_eq!(store.create_group_post(placement(1, 9, Moderation::Rejected)), Ok(()));
    assert_eq!(store.create_group_post(placement(2, 7, Moderation::Approved)), Ok(()));
    assert_eq!(store.groups[0].post_count, 1);
    assert_eq!(store.groups[1].post_count, 1);
    assert_eq!(store.posts[0].group_count, 2);
    assert_eq!(store.posts[1].group_count, 0);
    assert_eq!(store.posts[2].group_count, 0);
    assert_eq!(store.count_group_posts(1), 1);
    assert_eq!(store.count_post_groups(7), 2);
    assert_counts_hold(&store);
}

#[test]
fn counts_hold_after_every_create_update_and_delete() {
    let mut store = store();
    let states = [
        Moderation::Unmoderated,
        Moderation::Pending,
        Moderation::Approved,
        Moderation::Rejected,
    ];
    let mut k = 0;
    for g in [1, 2] {
        for p in [7, 8, 9] {
            assert_eq!(store.create_group_post(placement(g, p, states[k % 4])), Ok(()));
            assert_counts_hold(&store);
            k += 1;
        }
    }
    for g in [1, 2] {
        for p in [7, 8, 9] {
            assert_eq!(store.decide_group_post(g, p, Moderation::Approved), Ok(()));
            assert_counts_hold(&store);
        }
    }
    assert_eq!(store.groups[0].post_count, 3);
    assert_eq!(store.posts[0].group_count, 2);
    for p in [7, 8, 9] {
        assert_eq!(store.decide_group_post(2, p, Moderation::Rejected), Ok(()));
        assert_counts_hold(&store);
    }
    assert_eq!(store.groups[1].post_count, 0);
    for p in [7, 8, 9] {
        assert_eq!(store.delete_group_post(1, p), Ok(()));
        assert_counts_hold(&store);
    }
    assert_eq!(store.groups[0].post_count, 0);
    assert_eq!(store.group_posts.len(), 3);
}

#[test]
fn deleting_a_counted_placement_uncounts_it() {
    let mut store = store();
    assert_eq!(store.create_group_post(placement(1, 7, Moderation::Approved)), Ok(()));
    assert_eq!(store.create_group_post(placement(1, 8, Moderation::Approved)), Ok(()));
    assert_eq!(store.groups[0].post_count, 2);
    assert_eq!(store.delete_group_post(1, 7), Ok(()));
    assert_eq!(store.groups[0].post_count, 1);
    assert_eq!(store.posts[0].group_count, 0);
    assert_eq!(store.posts[1].group_count, 1);
    assert_eq!(store.group_posts, vec![placement(1, 8, Moderation::Approved)]);
}

#[test]
fn a_placement_needs_its_group_and_its_post() {
    let mut store = store();
    let e = store.create_group_post(placement(5, 7, Moderation::Approved)).unwrap_err();
    assert_eq!(e.code(), Code::NotFound);
    assert_eq!(e.message(), "group_not_found");
    let e = store.create_group_post(placement(1, 70, Moderation::Approved)).unwrap_err();
    assert_eq!(e.code(), Code::NotFound);
    assert_eq!(e.message(), "post_not_found");
    let e = store.create_group_post(placement(1, 7, Moderation::Unknown)).unwrap_err();
    assert_eq!(e.code(), Code::InvalidArgument);
    assert_eq!(e.message(), "invalid_moderation");
    assert!(store.group_posts.is_empty());
}

#[test]
fn a_decision_needs_a_placement_and_must_decide() {
    let mut store = store();
    let e = store.decide_group_post(1, 7, Moderation::Approved).unwrap_err();
    assert_eq!(e.code(), Code::NotFound);
    assert_eq!(e.message(), "group_post_not_found");
    assert_eq!(store.create_group_post(placement(1, 7, Moderation::Pending)), Ok(()));
    for open in [Moderation::Unknown, Moderation::Unmoderated, Moderation::Pending] {
        let e = store.decide_group_post(1, 7, open).unwrap_err();
        assert_eq!(e.code(), Code::InvalidArgument);
        assert_eq!(e.message(), "invalid_moderation");
    }
    assert_eq!(store.group_posts[0].group_moderation, Moderation::Pending);
    let e = store.delete_group_post(2, 7).unwrap_err();
    assert_eq!(e.message(), "group_post_not_found");
    assert_eq!(store.find_group_post(1, 7), Some(0));
    assert_eq!(store.find_group_post(1, 8), None);
}

#[test]
fn update_related_counts_repairs_stale_counters() {
    let mut store = store();
    store.group_posts = vec![
        placement(1, 7, Moderation::Approved),
        placement(1, 8, Moderation::Unmoderated),
        placement(2, 7, Moderation::Pending),
    ];
    store.groups[0].post_count = 40;
    store.posts[0].group_count = -3;
    store.groups[1].post_count = 9;
    let row = placement(1, 7, Moderation::Approved);
    assert_eq!(row.update_related_counts(&mut store), Ok(()));
    assert_eq!(store.groups[0].post_count, 2);
    assert_eq!(store.posts[0].group_count, 1);
    assert_eq!(store.groups[1].post_count, 9);
    assert_eq!(store.group_posts.len(), 3);
}

#[test]
fn update_related_counts_writes_every_row_with_the_id() {
    let mut store = store();
    store.groups.push(group(1));
    store.group_posts = vec![placement(1, 7, Moderation::Approved)];
    let row = placement(1, 7, Moderation::Approved);
    assert_eq!(row.update_related_counts(&mut store), Ok(()));
    assert_eq!(store.groups[0].post_count, 1);
    assert_eq!(store.groups[2].post_count, 1);
    assert_eq!(store.groups[1].post_count, 0);
}

#[test]
fn follows_keep_both_counters_in_step() {
    let mut store = store();
    assert_eq!(store.create_follow(follow(1, 2, Moderation::Unmoderated)), Ok(()));
    assert_eq!(store.create_follow(follow(3, 2, Moderation::Pending)), Ok(()));
    assert_eq!(store.create_follow(follow(2, 1, Moderation::Approved)), Ok(()));
    assert_eq!(store.users[0].following_count, 1);
    assert_eq!(store.users[0].follower_count, 1);
    assert_eq!(store.users[1].follower_count, 1);
    assert_eq!(store.users[1].following_count, 1);
    assert_eq!(store.users[2].following_count, 0);
    assert_counts_hold(&store);
    assert_eq!(store.decide_follow(3, 2, Moderation::Approved), Ok(()));
    assert_eq!(store.users[1].follower_count, 2);
    assert_eq!(store.users[2].following_count, 1);
    assert_counts_hold(&store);
    assert_eq!(store.decide_follow(1, 2, Moderation::Rejected), Ok(()));
    assert_eq!(store.users[1].follower_count, 1);
    assert_eq!(store.users[0].following_count, 0);
    assert_counts_hold(&store);
    assert_eq!(store.delete_follow(3, 2), Ok(()));
    assert_eq!(store.users[1].follower_count, 0);
    assert_eq!(store.users[2].following_count, 0);
    assert_eq!(store.count_followers(1), 1);
    assert_eq!(store.count_following(2), 1);
    assert_counts_hold(&store);
}

#[test]
fn a_follow_needs_two_different_existing_users() {
    let mut store = store();
    let e = store.create_follow(follow(1, 1, Moderation::Approved)).unwrap_err();
    assert_eq!(e.code(), Code::InvalidArgument);
    assert_eq!(e.message(), "user_cannot_follow_themselves");
    let e = store.create_follow(follow(1, 2, Moderation::Unknown)).unwrap_err();
    assert_eq!(e.message(), "invalid_moderation");
    let e = store.create_follow(follow(1, 20, Moderation::Pending)).unwrap_err();
    assert_eq!(e.code(), Code::NotFound);
    assert_eq!(e.message(), "user_not_found");
    let e = store.create_follow(follow(10, 2, Moderation::Pending)).unwrap_err();
    assert_eq!(e.message(), "user_not_found");
    assert!(store.follows.is_empty());
    let e = store.decide_follow(1, 2, Moderation::Approved).unwrap_err();
    assert_eq!(e.message(), "follow_not_found");
    let e = store.decide_follow(1, 2, Moderation::Pending).unwrap_err();
    assert_eq!(e.message(), "invalid_target_user_moderation");
    let e = store.delete_follow(1, 2).unwrap_err();
    assert_eq!(e.code(), Code::NotFound);
    assert_eq!(e.message(), "follow_not_found");
    assert!(store.contains_user(3));
    assert!(!store.contains_user(4));
    assert!(store.contains_group(2));
    assert!(!store.contains_group(3));
    assert!(store.contains_post(9));
    assert!(!store.contains_post(1));
}

#[test]
fn memberships_count_while_both_sides_let_them_pass() {
    let mut store = store();
    let open = Moderation::Unmoderated;
    assert_eq!(store.create_membership(membership(1, 1, open, open)), Ok(()));
    assert_eq!(store.create_membership(membership(1, 2, Moderation::Pending, open)), Ok(()));
    assert_eq!(store.create_membership(membership(2, 1, open, Moderation::Pending)), Ok(()));
    assert_eq!(store.users[0].group_count, 1);
    assert_eq!(store.users[1].group_count, 0);
    assert_counts_hold(&store);
    assert_eq!(store.decide_membership(1, 2, Side::Group, Moderation::Approved), Ok(()));
    assert_eq!(store.users[0].group_count, 2);
    assert_eq!(store.decide_membership(2, 1, Side::User, Moderation::Approved), Ok(()));
    assert_eq!(store.users[1].group_count, 1);
    assert_counts_hold(&store);
    assert_eq!(store.decide_membership(1, 1, Side::User, Moderation::Rejected), Ok(()));
    assert_eq!(store.users[0].group_count, 1);
    assert_eq!(store.memberships[0].user_moderation, Moderation::Rejected);
    assert_eq!(store.memberships[0].group_moderation, Moderation::Unmoderated);
    assert_counts_hold(&store);
    assert_eq!(store.delete_membership(1, 2), Ok(()));
    assert_eq!(store.users[0].group_count, 0);
    assert_eq!(store.memberships.len(), 2);
    assert_eq!(store.count_user_groups(2), 1);
    assert_counts_hold(&store);
}

#[test]
fn a_membership_needs_its_user_and_its_group() {
    let mut store = store();
    let open = Moderation::Unmoderated;
    let e = store.create_membership(membership(1, 1, Moderation::Unknown, open)).unwrap_err();
    assert_eq!(e.code(), Code::InvalidArgument);
    assert_eq!(e.message(), "invalid_group_moderation");
    let e = store.create_membership(membership(1, 1, open, Moderation::Unknown)).unwrap_err();
    assert_eq!(e.message(), "invalid_user_moderation");
    let e = store.create_membership(membership(9, 1, open, open)).unwrap_err();
    assert_eq!(e.code(), Code::NotFound);
    assert_eq!(e.message(), "user_not_found");
    let e = store.create_membership(membership(1, 9, open, open)).unwrap_err();
    assert_eq!(e.message(), "group_not_found");
    assert!(store.memberships.is_empty());
    let e = store.decide_membership(1, 1, Side::Group, Moderation::Approved).unwrap_err();
    assert_eq!(e.code(), Code::NotFound);
    assert_eq!(e.message(), "membership_not_found");
    let e = store.decide_membership(1, 1, Side::Group, Moderation::Pending).unwrap_err();
    assert_eq!(e.message(), "invalid_group_moderation");
    let e = store.decide_membership(1, 1, Side::User, Moderation::Unmoderated).unwrap_err();
    assert_eq!(e.message(), "invalid_user_moderation");
    let e = store.delete_membership(1, 1).unwrap_err();
    assert_eq!(e.message(), "membership_not_found");
    assert_eq!(store.find_membership(1, 1), None);
}

#[test]
fn related_counts_gives_what_the_counters_will_hold() {
    let mut store = store();
    store.group_posts = vec![
        placement(1, 7, Moderation::Approved),
        placement(1, 8, Moderation::Unmoderated),
        placement(2, 7, Moderation::Pending),
        placement(2, 8, Moderation::Rejected),
    ];
    assert_eq!(store.related_counts(1, 7), Ok((2, 1)));
    assert_eq!(store.related_counts(2, 8), Ok((0, 1)));
    assert_eq!(store.related_counts(3, 9), Ok((0, 0)));
}

#[test]
fn a_failed_counter_write_names_its_counter() {
    let e = write_failure(CounterWrite::GroupPostCount);
    assert_eq!(e.code(), Code::Internal);
    assert_eq!(e.message(), "error_updating_group_post_count");
    let e = write_failure(CounterWrite::PostGroupCount);
    assert_eq!(e.code(), Code::Internal);
    assert_eq!(e.message(), "error_updating_post_group_count");
}
