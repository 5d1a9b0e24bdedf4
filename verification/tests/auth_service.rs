use rustedu::auth::{
    auth_user_from_claims, bearer_token, claims_at, claims_now, google_login_account,
    google_tokeninfo_url, google_user, guest_signup, new_guest_signup, Claims, GoogleReply,
    GoogleTokenInfo, LoginAccount, TOKEN_LIFETIME_SECS, require_admin,
};
use rustedu::error::AppError;
use rustedu::models::user::CreateUser;

#[test]
fn test_login_guest_creates_new_user_and_returns_jwt() {
    let user = new_guest_signup();
    assert_eq!(user.name, "Guest User");
    assert!(user.email.starts_with("guest_"));
    assert!(user.email.ends_with("@rustedu.com"));
    assert_eq!(user.google_id, None);
    let claims = claims_now(0x5, &user.email, true).expect("Failed to login guest");
    assert!(claims.is_guest);
    assert_eq!(claims.email, user.email);
    assert!(claims.exp >= TOKEN_LIFETIME_SECS);
}

#[test]
fn test_verify_google_token_invalid_format() {
    let result = google_user(GoogleReply::Answered { status: 400, info: None });
    assert!(result.is_err(), "Should fail with invalid token");
    match result {
        Err(AppError::AuthError(msg)) => assert_eq!(msg, "Invalid Google token"),
        _ => panic!("Expected AuthError"),
    }
}

#[test]
fn guest_email_embeds_the_id() {
    let user = guest_signup(0xa1a2a3a4b1b2c1c2d1d2d3d4d5d6d7d8);
    assert_eq!(user.email, "guest_a1a2a3a4-b1b2-c1c2-d1d2-d3d4d5d6d7d8@rustedu.com");
}

#[test]
fn uuid_text_is_hyphenated_lowercase() {
    assert_eq!(guest_signup(0).email, "guest_00000000-0000-0000-0000-000000000000@rustedu.com");
}

#[test]
fn bearer_header_yields_token() {
    assert_eq!(bearer_token(Some("Bearer abc.def")), Ok("abc.def".to_string()));
    assert_eq!(bearer_token(Some("Bearer Bearer xyz")), Ok("xyz".to_string()));
    assert_eq!(bearer_token(Some("Bearer ")), Ok(String::new()));
    let missing = Err(AppError::AuthError("Missing or invalid Authorization header".to_string()));
    assert_eq!(bearer_token(None), missing);
    assert_eq!(bearer_token(Some("Basic abc")), missing);
    assert_eq!(bearer_token(Some("bearer abc")), missing);
}

#[test]
fn claims_expire_after_seven_days() {
    let c = claims_at(9, "a@b.c", false, Some(1_000)).unwrap();
    assert_eq!(c, Claims { sub: 9, email: "a@b.c".to_string(), is_guest: false, exp: 1_000 + 604_800 });
    assert_eq!(
        claims_at(9, "a@b.c", false, None),
        Err(AppError::InternalServerError("Time went backwards".to_string()))
    );
    let u = auth_user_from_claims(&c);
    assert_eq!(u.id, 9);
    assert!(!u.is_guest);
}

#[test]
fn google_reply_handling() {
    assert_eq!(
        google_tokeninfo_url("tok"),
        "https://oauth2.googleapis.com/tokeninfo?id_token=tok"
    );
    assert_eq!(
        google_user(GoogleReply::Unreachable),
        Err(AppError::AuthError("Failed to verify Google token".to_string()))
    );
    assert_eq!(
        google_user(GoogleReply::Answered { status: 200, info: None }),
        Err(AppError::AuthError("Failed to parse Google token info".to_string()))
    );
    let info = GoogleTokenInfo {
        email: "ana@example.com".to_string(),
        name: "Ana".to_string(),
        sub: "g-123".to_string(),
        picture: Some("http://p".to_string()),
    };
    let expected = CreateUser {
        email: "ana@example.com".to_string(),
        name: "Ana".to_string(),
        google_id: Some("g-123".to_string()),
        avatar_url: Some("http://p".to_string()),
        password_hash: None,
    };
    assert_eq!(google_user(GoogleReply::Answered { status: 204, info: Some(info.clone()) }), Ok(expected.clone()));
    assert!(google_user(GoogleReply::Answered { status: 300, info: Some(info) }).is_err());
    assert_eq!(google_login_account(None, expected.clone()), LoginAccount::Create(expected));
}

#[test]
fn only_admins_pass_the_admin_check() {
    assert_eq!(require_admin("ADMIN"), Ok(()));
    let refused = Err(AppError::Forbidden("Admin access required".to_string()));
    assert_eq!(require_admin("MODERATOR"), refused);
    assert_eq!(require_admin("USER"), refused);
    assert_eq!(require_admin("admin"), refused);
    assert_eq!(require_admin(""), refused);
}

#[test]
fn guest_ids_are_random_version_four() {
    let a = new_guest_signup().email;
    let b = new_guest_signup().email;
    assert_ne!(a, b);
    let id = &a["guest_".len()..a.len() - "@rustedu.com".len()];
    assert_eq!(id.len(), 36);
    assert_eq!(&id[14..15], "4");
    assert!(matches!(&id[19..20], "8" | "9" | "a" | "b"));
}
