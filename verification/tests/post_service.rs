use rustedu::error::{found_or_not_found, AppError, RecordKind};
use rustedu::models::common::{JsonValue, Timestamp};
use rustedu::models::post::{CreatePost, Post, UpdatePost};
use rustedu::post::{apply_post_update, new_post, post_summary};

fn at(secs: i64) -> Timestamp {
    Timestamp { secs, nanos: 0 }
}

#[test]
fn test_list_posts_returns_summaries() {
    let post_id = 0x77u128;
    let author_id = 0x88u128;
    let post = new_post(
        post_id,
        author_id,
        CreatePost {
            title: JsonValue::String("First Post".to_string()),
            content: "Body".to_string(),
            image_url: None,
            tags: None,
            published_at: Some(at(3)),
        },
        at(1),
    );
    let list = vec![post_summary(post)];
    assert_eq!(list.len(), 1);
    assert_eq!(list[0].id, post_id);
    assert_eq!(list[0].title, JsonValue::String("First Post".to_string()));
    assert_eq!(list[0].author_id, Some(author_id));
    assert_eq!(list[0].published_at, Some(at(3)));
}

#[test]
fn test_get_post_not_found() {
    let result = found_or_not_found::<Post>(None, RecordKind::Post);
    assert!(result.is_err(), "Should return error when post not found");
    match result {
        Err(AppError::NotFound(msg)) => assert_eq!(msg, "Post not found"),
        _ => panic!("Expected NotFound error"),
    }
}

#[test]
fn post_update_keeps_image_and_tags() {
    let post = new_post(
        1,
        2,
        CreatePost {
            title: JsonValue::Null,
            content: "old".to_string(),
            image_url: Some("img".to_string()),
            tags: Some(vec!["a".to_string()]),
            published_at: None,
        },
        at(1),
    );
    let req = UpdatePost {
        title: None,
        content: Some("new".to_string()),
        image_url: Some("other".to_string()),
        tags: None,
        published_at: Some(at(9)),
    };
    let r = apply_post_update(post, req, at(10));
    assert_eq!(r.content, "new");
    assert_eq!(r.image_url, Some("img".to_string()));
    assert_eq!(r.published_at, Some(at(9)));
    assert_eq!(r.updated_at, at(10));
}
