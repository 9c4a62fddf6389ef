use jonline::marshaling::enum_marshaling::{
    to_permissions_by_name,
    to_proto_moderation,
    to_proto_permission,
    to_proto_visibility,
};
use jonline::marshaling::post_marshaling::{
    ALL_POST_CONTEXTS,
    ToI32PostContext,
    ToProtoGroupPost,
    ToProtoPost,
    ToProtoPostContext,
};
use jonline::marshaling::time_marshaling::to_proto_time;
use jonline::models::{GroupPost, Post};
use jonline::protos::{Moderation, Permission, PostContext, Timestamp, Visibility};
use jonline::text::eq_ignore_ascii_case;

fn post() -> Post {
    Post {
        id: 12,
        user_id: Some(3),
        parent_post_id: Some(4),
        title: "A title".to_string(),
        link: Some("https://example.org".to_string()),
        content: None,
        media: vec![5, 60, 700],
        media_generated: true,
        embed_link: false,
        shareable: true,
        context: PostContext::Reply,
        visibility: Visibility::ServerPublic,
        moderation: Moderation::Approved,
        response_count: 2,
        reply_count: 1,
        group_count: 6,
        created_at: Timestamp { seconds: 100, nanos: 9 },
        updated_at: Some(Timestamp { seconds: 200, nanos: 0 }),
        published_at: Some(Timestamp { seconds: 120, nanos: 3 }),
        last_activity_at: Timestamp { seconds: 300, nanos: 4 },
    }
}

fn placement() -> GroupPost {
    GroupPost {
        group_id: 8,
        post_id: 12,
        user_id: 3,
        group_moderation: Moderation::Pending,
        created_at: Timestamp { seconds: 150, nanos: 1 },
    }
}

#[test]
fn a_post_is_shown_field_by_field() {
    let shown = post().to_proto(Some("ada".to_string()));
    assert_eq!(shown.id, "12");
    assert_eq!(shown.reply_to_post_id, Some("4".to_string()));
    let author = shown.author.unwrap();
    assert_eq!(author.user_id, "3");
    assert_eq!(author.username, Some("ada".to_string()));
    assert_eq!(shown.title, "A title");
    assert_eq!(shown.link, Some("https://example.org".to_string()));
    assert_eq!(shown.content, None);
    assert_eq!(shown.response_count, 2);
    assert_eq!(shown.reply_count, 1);
    assert_eq!(shown.group_count, 6);
    assert_eq!(shown.current_group_post, None);
    assert_eq!(shown.media, vec!["5".to_string(), "60".to_string(), "700".to_string()]);
    assert_eq!(shown.context, 1);
    assert_eq!(shown.visibility, 3);
    assert_eq!(shown.moderation, 3);
    assert_eq!(shown.created_at, Some(Timestamp { seconds: 100, nanos: 9 }));
    assert_eq!(shown.updated_at, Some(Timestamp { seconds: 200, nanos: 0 }));
    assert_eq!(shown.published_at, Some(Timestamp { seconds: 120, nanos: 3 }));
    assert_eq!(shown.last_activity_at, Some(Timestamp { seconds: 300, nanos: 4 }));
    assert!(shown.media_generated);
    assert!(!shown.embed_link);
    assert!(shown.shareable);
    assert!(shown.replies.is_empty());
}

#[test]
fn a_post_in_a_group_shows_its_placement() {
    let row = placement();
    let shown = post().to_group_proto(None, Some(&row));
    let current = shown.current_group_post.unwrap();
    assert_eq!(current.group_id, "8");
    assert_eq!(current.post_id, "12");
    assert_eq!(current.user_id, "3");
    assert_eq!(current.group_moderation, 2);
    assert_eq!(current.created_at, Some(Timestamp { seconds: 150, nanos: 1 }));
    assert_eq!(shown.author.unwrap().username, None);
    assert_eq!(row.to_proto(), current);
}

#[test]
fn a_post_without_an_author_has_no_author_line() {
    let mut p = post();
    p.user_id = None;
    p.parent_post_id = None;
    p.media = vec![];
    assert_eq!(p.proto_author(Some("ada".to_string())), None);
    let shown = p.to_proto(Some("ada".to_string()));
    assert_eq!(shown.author, None);
    assert_eq!(shown.reply_to_post_id, None);
    assert!(shown.media.is_empty());
    assert!(shown.replies.is_empty());
}

#[test]
fn post_contexts_are_read_from_names_in_any_case() {
    assert_eq!("post".to_string().to_proto_post_context(), Some(PostContext::Post));
    assert_eq!("REPLY".to_string().to_proto_post_context(), Some(PostContext::Reply));
    assert_eq!("Event".to_string().to_proto_post_context(), Some(PostContext::Event));
    assert_eq!(
        "event_instance".to_string().to_proto_post_context(),
        Some(PostContext::EventInstance)
    );
    assert_eq!("eventinstance".to_string().to_proto_post_context(), None);
    assert_eq!("".to_string().to_proto_post_context(), None);
    assert_eq!("posts".to_string().to_proto_post_context(), None);
}

#[test]
fn post_contexts_are_read_from_numbers_in_range() {
    assert_eq!(0.to_proto_post_context(), Some(PostContext::Post));
    assert_eq!(1.to_proto_post_context(), Some(PostContext::Reply));
    assert_eq!(2.to_proto_post_context(), Some(PostContext::Event));
    assert_eq!(3.to_proto_post_context(), Some(PostContext::EventInstance));
    assert_eq!(4.to_proto_post_context(), None);
    assert_eq!((-1).to_proto_post_context(), None);
    assert_eq!(i32::MAX.to_proto_post_context(), None);
}

#[test]
fn post_context_names_have_numbers() {
    assert_eq!("post".to_string().to_i32_post_context(), 0);
    assert_eq!("Reply".to_string().to_i32_post_context(), 1);
    assert_eq!("EVENT".to_string().to_i32_post_context(), 2);
    assert_eq!("event_INSTANCE".to_string().to_i32_post_context(), 3);
}

#[test]
fn enumerations_round_trip_through_their_numbers() {
    for p in [
        Permission::Unknown,
        Permission::ViewPosts,
        Permission::CreatePosts,
        Permission::ModeratePosts,
        Permission::ViewEvents,
        Permission::CreateEvents,
        Permission::ModerateEvents,
        Permission::ModerateUsers,
        Permission::Admin,
    ] {
        assert_eq!(Permission::from_i32(p.to_i32()), Some(p));
        assert_eq!(p.is_recognized(), p != Permission::Unknown);
    }
    assert_eq!(Permission::from_i32(9), None);
    assert_eq!(Permission::from_i32(-1), None);
    assert_eq!(Permission::Admin.as_str_name(), "ADMIN");
    for v in [
        Visibility::Unknown,
        Visibility::Private,
        Visibility::Limited,
        Visibility::ServerPublic,
        Visibility::GlobalPublic,
    ] {
        assert_eq!(Visibility::from_i32(v.to_i32()), Some(v));
        assert_eq!(v.is_public(), v == Visibility::GlobalPublic);
    }
    assert_eq!(Visibility::from_i32(5), None);
    assert_eq!(Visibility::Private.as_str_name(), "PRIVATE");
    for m in [
        Moderation::Unknown,
        Moderation::Unmoderated,
        Moderation::Pending,
        Moderation::Approved,
        Moderation::Rejected,
    ] {
        assert_eq!(Moderation::from_i32(m.to_i32()), Some(m));
    }
    assert_eq!(Moderation::from_i32(5), None);
    assert_eq!(Moderation::Rejected.as_str_name(), "REJECTED");
    assert_eq!(PostContext::EventInstance.as_str_name(), "EVENT_INSTANCE");
}

#[test]
fn moderation_states_are_classified() {
    assert!(Moderation::Unmoderated.is_passing());
    assert!(Moderation::Approved.is_passing());
    assert!(!Moderation::Pending.is_passing());
    assert!(!Moderation::Rejected.is_passing());
    assert!(!Moderation::Unknown.is_passing());
    assert!(Moderation::Unmoderated.is_open());
    assert!(Moderation::Pending.is_open());
    assert!(!Moderation::Approved.is_open());
    assert!(!Moderation::Unknown.is_open());
    assert!(Moderation::Approved.is_decision());
    assert!(Moderation::Rejected.is_decision());
    assert!(!Moderation::Pending.is_decision());
    assert!(!Moderation::Unknown.is_decision());
}

#[test]
fn texts_compare_without_regard_to_ascii_case() {
    assert!(eq_ignore_ascii_case("Event_Instance", "EVENT_INSTANCE"));
    assert!(eq_ignore_ascii_case("", ""));
    assert!(!eq_ignore_ascii_case("a", "ab"));
    assert!(!eq_ignore_ascii_case("a", "b"));
    assert!(!eq_ignore_ascii_case("\u{e9}", "\u{c9}"));
    assert!(!eq_ignore_ascii_case("@", "`"));
    assert!(!eq_ignore_ascii_case("[", "{"));
}

#[test]
fn enumerations_are_read_from_stored_names() {
    assert_eq!(to_proto_visibility("global_public"), Some(Visibility::GlobalPublic));
    assert_eq!(to_proto_visibility("PRIVATE"), Some(Visibility::Private));
    assert_eq!(to_proto_visibility("Limited"), Some(Visibility::Limited));
    assert_eq!(to_proto_visibility("server_public"), Some(Visibility::ServerPublic));
    assert_eq!(to_proto_visibility("visibility_unknown"), Some(Visibility::Unknown));
    assert_eq!(to_proto_visibility("public"), None);
    assert_eq!(to_proto_moderation("unmoderated"), Some(Moderation::Unmoderated));
    assert_eq!(to_proto_moderation("Pending"), Some(Moderation::Pending));
    assert_eq!(to_proto_moderation("APPROVED"), Some(Moderation::Approved));
    assert_eq!(to_proto_moderation("rejected"), Some(Moderation::Rejected));
    assert_eq!(to_proto_moderation("moderation_unknown"), Some(Moderation::Unknown));
    assert_eq!(to_proto_moderation(""), None);
    assert_eq!(to_proto_permission("admin"), Some(Permission::Admin));
    assert_eq!(to_proto_permission("view_posts"), Some(Permission::ViewPosts));
    assert_eq!(to_proto_permission("MODERATE_EVENTS"), Some(Permission::ModerateEvents));
    assert_eq!(to_proto_permission("moderate"), None);
    assert_eq!(
        to_permissions_by_name(&vec!["admin".to_string(), "CREATE_EVENTS".to_string()]),
        Ok(vec![Permission::Admin, Permission::CreateEvents])
    );
    assert_eq!(
        to_permissions_by_name(&vec!["admin".to_string(), "root".to_string()])
            .unwrap_err()
            .message(),
        "invalid_permission"
    );
}

#[test]
fn instants_after_the_epoch_keep_seconds_and_nanoseconds() {
    assert_eq!(to_proto_time(0, 0, false), Timestamp { seconds: 0, nanos: 0 });
    assert_eq!(to_proto_time(12, 500, false), Timestamp { seconds: 12, nanos: 500 });
    assert_eq!(
        to_proto_time(7, 999_999_999, false),
        Timestamp { seconds: 7, nanos: 999_999_999 }
    );
    assert_eq!(to_proto_time(7, 1_000_000_001, false), Timestamp { seconds: 8, nanos: 1 });
    assert_eq!(to_proto_time(u64::MAX, 0, false), Timestamp { seconds: i64::MAX, nanos: 0 });
}

#[test]
fn instants_before_the_epoch_count_nanoseconds_forward() {
    assert_eq!(to_proto_time(0, 0, true), Timestamp { seconds: 0, nanos: 0 });
    assert_eq!(to_proto_time(5, 0, true), Timestamp { seconds: -5, nanos: 0 });
    assert_eq!(to_proto_time(0, 1, true), Timestamp { seconds: -1, nanos: 999_999_999 });
    assert_eq!(
        to_proto_time(5, 250_000_000, true),
        Timestamp { seconds: -6, nanos: 750_000_000 }
    );
    assert_eq!(to_proto_time(u64::MAX, 0, true), Timestamp { seconds: -i64::MAX, nanos: 0 });
    assert_eq!(to_proto_time(u64::MAX, 1, true), Timestamp { seconds: i64::MIN, nanos: 999_999_999 });
}

#[test]
fn all_post_contexts_are_listed_in_the_order_of_their_numbers() {
    assert_eq!(
        ALL_POST_CONTEXTS,
        [PostContext::Post, PostContext::Reply, PostContext::Event, PostContext::EventInstance]
    );
    for (i, context) in ALL_POST_CONTEXTS.iter().enumerate() {
        assert_eq!(context.to_i32(), i as i32);
        assert_eq!(context.as_str_name().to_string().to_proto_post_context(), Some(*context));
    }
}
