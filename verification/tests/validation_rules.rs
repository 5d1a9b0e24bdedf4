use rustedu::handlers::auth::GoogleLoginRequest;
use rustedu::models::community::{CreateCommentRequest, CreateThreadRequest, UpdateThreadRequest};
use rustedu::models::contact::SubmitInquiryRequest;
use rustedu::models::user::CreateUser;
use rustedu::validation::{is_valid_email, FieldError};

fn length_error(field: &str, min: u64, max: Option<u64>, message: Option<&str>) -> FieldError {
    FieldError {
        field: field.to_string(),
        code: "length".to_string(),
        message: message.map(|m| m.to_string()),
        min: Some(min),
        max,
    }
}

#[test]
fn thread_lengths_are_counted_in_characters() {
    let ok = CreateThreadRequest { title: "Hello".to_string(), content: "0123456789".to_string(), tags: None };
    assert_eq!(ok.validate(), Ok(()));
    let accents = CreateThreadRequest { title: "ñañañ".to_string(), content: "ééééééééé".to_string(), tags: None };
    assert_eq!(
        accents.validate(),
        Err(vec![length_error("content", 10, None, Some("Content must be at least 10 characters"))])
    );
    let both = CreateThreadRequest { title: "Hey".to_string(), content: "short".to_string(), tags: None };
    assert_eq!(
        both.validate(),
        Err(vec![
            length_error("title", 5, None, Some("Title must be at least 5 characters")),
            length_error("content", 10, None, Some("Content must be at least 10 characters")),
        ])
    );
}

#[test]
fn thread_edit_checks_given_fields() {
    let none = UpdateThreadRequest { title: None, content: None, tags: None };
    assert_eq!(none.validate(), Ok(()));
    let bad = UpdateThreadRequest { title: Some("abc".to_string()), content: None, tags: None };
    assert_eq!(
        bad.validate(),
        Err(vec![length_error("title", 5, None, Some("Title must be at least 5 characters"))])
    );
}

#[test]
fn empty_comment_is_rejected() {
    assert_eq!(
        CreateCommentRequest { content: String::new() }.validate(),
        Err(vec![length_error("content", 1, None, Some("Content cannot be empty"))])
    );
    assert_eq!(CreateCommentRequest { content: "x".to_string() }.validate(), Ok(()));
}

#[test]
fn inquiry_rules() {
    let good = SubmitInquiryRequest {
        name: "Ana".to_string(),
        email: "ana@example.com".to_string(),
        kind: "Training".to_string(),
        message: "Hello, I want a course".to_string(),
    };
    assert_eq!(good.validate(), Ok(()));
    let bad = SubmitInquiryRequest {
        name: "A".to_string(),
        email: "not-an-email".to_string(),
        kind: "T".to_string(),
        message: "short".to_string(),
    };
    let errs = bad.validate().unwrap_err();
    let fields: Vec<&str> = errs.iter().map(|e| e.field.as_str()).collect();
    assert_eq!(fields, vec!["name", "email", "type", "message"]);
    assert_eq!(errs[1].code, "email");
    assert_eq!(errs[1].message.as_deref(), Some("Valid email is required"));
}

#[test]
fn email_checks() {
    assert!(is_valid_email("user@example.com"));
    assert!(!is_valid_email(""));
    assert!(!is_valid_email("no-at-sign"));
}

#[test]
fn new_user_name_bounds() {
    let long = CreateUser {
        email: "a@b.co".to_string(),
        name: "x".repeat(256),
        google_id: None,
        avatar_url: None,
        password_hash: None,
    };
    assert_eq!(long.validate(), Err(vec![length_error("name", 2, Some(255), None)]));
}

#[test]
fn google_token_required() {
    assert!(GoogleLoginRequest { google_token: String::new() }.validate().is_err());
    assert_eq!(GoogleLoginRequest { google_token: "t".to_string() }.validate(), Ok(()));
}
