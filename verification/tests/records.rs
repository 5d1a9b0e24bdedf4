use rustedu::models::common::{JsonValue, Timestamp};
use rustedu::models::contact::SubmitInquiryRequest;
use rustedu::models::notification::CreateNotification;
use rustedu::models::reference::{CreateReference, UpdateReference};
use rustedu::models::user::{UpdateUser, User, UserRoleUpdate};
use rustedu::notification::{mark_read, new_notification, owned_notification};
use rustedu::reference::{apply_reference_update, new_inquiry, new_reference};
use rustedu::user::{admin_stats, apply_role_update, apply_user_update, user_stats};

fn at(secs: i64) -> Timestamp {
    Timestamp { secs, nanos: 0 }
}

fn user() -> User {
    User {
        id: 1,
        email: "a@b.c".to_string(),
        google_id: None,
        is_guest: false,
        name: "Ana".to_string(),
        avatar_url: None,
        password_hash: None,
        preferred_language: Some("EN".to_string()),
        theme: Some("system".to_string()),
        role: "USER".to_string(),
        created_at: at(1),
        updated_at: at(1),
    }
}

#[test]
fn preferences_and_roles() {
    let u = apply_user_update(user(), UpdateUser { preferred_language: Some("ES".to_string()), theme: None }, at(5));
    assert_eq!(u.preferred_language, Some("ES".to_string()));
    assert_eq!(u.theme, Some("system".to_string()));
    assert_eq!(u.updated_at, at(5));
    let r = apply_role_update(u, UserRoleUpdate { role: "ADMIN".to_string() }, at(6));
    assert_eq!(r.role, "ADMIN");
    assert_eq!(r.email, "a@b.c");
}

#[test]
fn preference_change_twice_is_once() {
    let req = || UpdateUser { preferred_language: None, theme: Some("dark".to_string()) };
    let once = apply_user_update(user(), req(), at(9));
    let twice = apply_user_update(apply_user_update(user(), req(), at(9)), req(), at(9));
    assert_eq!(once, twice);
    assert_eq!(once.id, 1);
    assert_eq!(once.role, "USER");
    assert_eq!(once.theme, Some("dark".to_string()));
}

#[test]
fn statistics_from_counts() {
    let s = user_stats(3, 4);
    assert_eq!(s.completed_courses, 3);
    assert_eq!(s.community_contributions, 4);
    let a = admin_stats(10, 7, 3, 2, 5);
    assert_eq!((a.total_users, a.active_students, a.total_courses, a.total_posts, a.total_threads), (10, 7, 3, 2, 5));
}

#[test]
fn notifications_are_read_by_owner() {
    let n = new_notification(
        9,
        CreateNotification { user_id: 1, kind: "SYSTEM_ALERT".to_string(), title: "Welcome".to_string(), content: None },
        at(2),
    );
    assert_eq!(n.is_read, Some(false));
    assert_eq!(n.kind, "SYSTEM_ALERT");
    assert!(owned_notification(Some(n.clone()), 2).is_none());
    let mine = owned_notification(Some(n), 1).unwrap();
    let read = mark_read(mine);
    assert_eq!(read.is_read, Some(true));
    assert_eq!(read.title, "Welcome");
}

#[test]
fn references_and_inquiries() {
    let r = new_reference(
        4,
        CreateReference {
            title: JsonValue::String("Book".to_string()),
            url: "https://x".to_string(),
            description: None,
            kind: "BOOK".to_string(),
        },
        at(1),
    );
    let r = apply_reference_update(
        r,
        UpdateReference { title: None, url: Some("https://y".to_string()), description: None, kind: None },
        at(2),
    );
    assert_eq!(r.url, "https://y");
    assert_eq!(r.kind, "BOOK");
    assert_eq!(r.updated_at, at(2));
    let i = new_inquiry(
        5,
        SubmitInquiryRequest {
            name: "Ana".to_string(),
            email: "a@b.c".to_string(),
            kind: "Training".to_string(),
            message: "Hello there!".to_string(),
        },
        at(3),
    );
    assert_eq!(i.id, 5);
    assert_eq!(i.kind, "Training");
    assert_eq!(i.created_at, at(3));
}
