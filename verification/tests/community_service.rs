use rustedu::community::{
    apply_comment_update, apply_thread_update, authorize_comment_change, authorize_thread_change,
    new_comment, new_thread, new_thread_message, reply_message, thread_with_comments, toggle_like,
    Change,
};
use rustedu::error::{deleted_or_not_found, found_or_not_found, AppError, RecordKind};
use rustedu::models::common::Timestamp;
use rustedu::models::community::{
    Comment, CreateThreadRequest, Thread, UpdateComment, UpdateThreadRequest,
};
use rustedu::notification::{delivers_to, NotificationEvent};

fn at(secs: i64) -> Timestamp {
    Timestamp { secs, nanos: 0 }
}

fn thread(id: u128, author_id: u128) -> Thread {
    new_thread(
        id,
        author_id,
        CreateThreadRequest {
            title: "Test Thread".to_string(),
            content: "Content".to_string(),
            tags: None,
        },
        at(10),
    )
}

fn comment(id: u128, author_id: u128) -> Comment {
    new_comment(id, 1, author_id, "Nice".to_string(), at(11))
}

#[test]
fn test_create_thread_broadcasts_sse_event() {
    let author_id = 0xaa;
    let expected_thread_id = 0xbb;
    let t = thread(expected_thread_id, author_id);
    assert_eq!(t.id, expected_thread_id);
    assert_eq!(t.likes_count, Some(0));
    let msg = new_thread_message(&t);
    assert!(msg.user_id.is_none(), "Thread creation should broadcast to all");
    match msg.event {
        NotificationEvent::NewThread { thread_id } => assert_eq!(thread_id, expected_thread_id),
        _ => panic!("Expected NewThread event"),
    }
    assert!(delivers_to(&msg, 1));
    assert!(delivers_to(&msg, 2));
}

#[test]
fn only_author_changes_thread() {
    let t = thread(1, 10);
    assert_eq!(authorize_thread_change(&t, 10, Change::Update), Ok(()));
    assert_eq!(
        authorize_thread_change(&t, 11, Change::Update),
        Err(AppError::Forbidden("Only the author can update this thread".to_string()))
    );
    assert_eq!(
        authorize_thread_change(&t, 11, Change::Delete),
        Err(AppError::Forbidden("Only the author can delete this thread".to_string()))
    );
}

#[test]
fn moderators_and_admins_change_comments() {
    let c = comment(3, 10);
    assert_eq!(authorize_comment_change(&c, 10, "USER", Change::Update), Ok(()));
    assert_eq!(authorize_comment_change(&c, 11, "MODERATOR", Change::Update), Ok(()));
    assert_eq!(authorize_comment_change(&c, 11, "ADMIN", Change::Delete), Ok(()));
    assert_eq!(
        authorize_comment_change(&c, 11, "USER", Change::Update),
        Err(AppError::Forbidden("Not authorized to edit this comment".to_string()))
    );
    assert_eq!(
        authorize_comment_change(&c, 11, "admin", Change::Delete),
        Err(AppError::Forbidden("Not authorized to delete this comment".to_string()))
    );
}

#[test]
fn reply_notifies_thread_author_only() {
    let t = thread(1, 10);
    let c = comment(3, 20);
    let msg = reply_message(&t, 20, &c).expect("author should be told");
    assert_eq!(msg.user_id, Some(10));
    assert_eq!(msg.event, NotificationEvent::NewReply { thread_id: 1, comment_id: 3 });
    assert!(delivers_to(&msg, 10));
    assert!(!delivers_to(&msg, 20));
    assert_eq!(reply_message(&t, 10, &comment(4, 10)), None);
}

#[test]
fn likes_toggle_up_and_down() {
    assert_eq!(toggle_like(false, Some(4)), (true, 5));
    assert_eq!(toggle_like(true, Some(5)), (false, 4));
    assert_eq!(toggle_like(false, None), (true, 1));
    assert_eq!(toggle_like(true, None), (false, -1));
    // Two likers and a counter of two: a third user's like makes three,
    // and one of the two withdrawing makes one.
    assert_eq!(toggle_like(false, Some(2)), (true, 3));
    assert_eq!(toggle_like(true, Some(2)), (false, 1));
    let (liked, count) = toggle_like(false, Some(7));
    assert_eq!(toggle_like(liked, Some(count)), (false, 7));
}

#[test]
fn thread_update_merges_fields() {
    let t = thread(1, 10);
    let req = UpdateThreadRequest {
        title: Some("A new title".to_string()),
        content: None,
        tags: Some(vec!["rust".to_string()]),
    };
    let r = apply_thread_update(t, req, at(20));
    assert_eq!(r.title, "A new title");
    assert_eq!(r.content, "Content");
    assert_eq!(r.tags, Some(vec!["rust".to_string()]));
    assert_eq!(r.updated_at, at(20));
    assert_eq!(r.created_at, at(10));
}

#[test]
fn comment_update_sets_content() {
    let c = apply_comment_update(comment(3, 10), UpdateComment { content: "Edited".to_string() }, at(30));
    assert_eq!(c.content, "Edited");
    assert_eq!(c.updated_at, at(30));
    assert_eq!(c.created_at, at(11));
}

#[test]
fn thread_with_comments_keeps_order() {
    let r = thread_with_comments(thread(1, 10), vec![comment(3, 10), comment(4, 11)]);
    assert_eq!(r.comments.len(), 2);
    assert_eq!(r.comments[0].id, 3);
    assert_eq!(r.comments[1].id, 4);
}

#[test]
fn missing_records_are_not_found() {
    assert_eq!(
        found_or_not_found::<Thread>(None, RecordKind::Thread),
        Err(AppError::NotFound("Thread not found".to_string()))
    );
    assert_eq!(
        deleted_or_not_found(0, RecordKind::Comment),
        Err(AppError::NotFound("Comment not found".to_string()))
    );
    assert_eq!(deleted_or_not_found(1, RecordKind::Comment), Ok(()));
}
