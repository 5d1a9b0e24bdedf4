//! Authentication: bearer tokens, session claims, guest and Google sign-in.

use vstd::prelude::*;
use vstd::string::*;
use vstd::arithmetic::power::pow;
use crate::error::AppError;
use crate::ids::{new_random_id, uuid_text, uuid_to_string};
use crate::models::user::{CreateUser, User};
use crate::text::{has_prefix, push_str, starts_with, str_eq};

verus! {

// ---------------------------------------------------------------------------
// Bearer tokens
// ---------------------------------------------------------------------------

/// The scheme prefix of an `Authorization` header.
pub open spec fn bearer_prefix() -> Seq<char> {
    "Bearer "@
}

/// `s` with every leading repetition of `p` removed (as `trim_start_matches`
/// does for a non-empty pattern).
pub open spec fn strip_repeated_prefix(s: Seq<char>, p: Seq<char>) -> Seq<char>
    decreases s.len(),
{
    if p.len() > 0 && has_prefix(s, p) {
        strip_repeated_prefix(s.subrange(p.len() as int, s.len() as int), p)
    } else {
        s
    }
}

/// The refusal for a missing or malformed `Authorization` header.
pub open spec fn missing_header_text() -> Seq<char> {
    "Missing or invalid Authorization header"@
}

/// The token carried by an `Authorization` header: the header must start
/// with `Bearer `, and the token is what remains once every leading
/// `Bearer ` has been removed.
pub fn bearer_token(header: Option<&str>) -> (r: Result<String, AppError>)
    ensures
        match header {
            Some(h) if has_prefix(h@, bearer_prefix()) => r matches Ok(t) && t@ == strip_repeated_prefix(
                h@,
                bearer_prefix(),
            ),
            _ => r matches Err(e) && e matches AppError::AuthError(m) && m@ == missing_header_text(),
        },
{
    let prefix = "Bearer ";
    let h = match header {
        Some(h) => h,
        None => {
            return Err(
                AppError::AuthError(String::from_str("Missing or invalid Authorization header")),
            );
        },
    };
    if !starts_with(h, prefix) {
        return Err(AppError::AuthError(String::from_str("Missing or invalid Authorization header")));
    }
    let plen = prefix.unicode_len();
    proof {
        reveal_strlit("Bearer ");
    }
    let mut rest: &str = h;
    while starts_with(rest, prefix)
        invariant
            plen == prefix@.len(),
            prefix@ == bearer_prefix(),
            plen > 0,
            strip_repeated_prefix(rest@, bearer_prefix()) == strip_repeated_prefix(h@, bearer_prefix()),
        decreases rest@.len(),
    {
        let n = rest.unicode_len();
        rest = rest.substring_char(plen, n);
    }
    Ok(String::from_str(rest))
}

// ---------------------------------------------------------------------------
// Session claims
// ---------------------------------------------------------------------------

/// The claims of a session token.
#[derive(Debug, Clone, PartialEq, Eq)]
pub struct Claims {
    /// The user the token was issued to.
    pub sub: u128,
    pub email: String,
    pub is_guest: bool,
    /// Expiry, in seconds since the Unix epoch.
    pub exp: u64,
}

/// How long a session token stays valid: seven days.
pub const TOKEN_LIFETIME_SECS: u64 = 604800;

/// The refusal when the clock reads before the Unix epoch.
pub open spec fn clock_error_text() -> Seq<char> {
    "Time went backwards"@
}

/// The claims of a token issued at `now` (seconds since the Unix epoch; none
/// when the clock reads before the epoch): the token expires seven days
/// later.
pub fn claims_at(user_id: u128, email: &str, is_guest: bool, now: Option<u64>) -> (r: Result<
    Claims,
    AppError,
>)
    requires
        now matches Some(t) ==> t + TOKEN_LIFETIME_SECS <= u64::MAX,
    ensures
        now matches Some(t) ==> (r matches Ok(c) && c.sub == user_id && c.email@ == email@
            && c.is_guest == is_guest && c.exp == t + TOKEN_LIFETIME_SECS),
        now is None ==> (r matches Err(e) && e matches AppError::InternalServerError(m) && m@
            == clock_error_text()),
{
    match now {
        None => Err(AppError::InternalServerError(String::from_str("Time went backwards"))),
        Some(t) => Ok(
            Claims {
                sub: user_id,
                email: String::from_str(email),
                is_guest,
                exp: t + TOKEN_LIFETIME_SECS,
            },
        ),
    }
}

/// Reads the clock: seconds since the Unix epoch from
/// `std::time::SystemTime::now().duration_since(UNIX_EPOCH)`, or `None` when
/// the clock reads before the epoch. Nothing is promised of the value.
#[verifier::external_body]
fn unix_time_secs() -> (t: Option<u64>) {
    match std::time::SystemTime::now().duration_since(std::time::UNIX_EPOCH) {
        Ok(d) => Some(d.as_secs()),
        Err(_) => None,
    }
}

/// The claims of a token issued now. Whatever the clock reads, the claims
/// name the user, the email and the guest flag, and expire seven days after
/// some instant; a clock before the epoch is an internal error.
pub fn claims_now(user_id: u128, email: &str, is_guest: bool) -> (r: Result<Claims, AppError>)
    ensures
        r matches Ok(c) ==> c.sub == user_id && c.email@ == email@ && c.is_guest == is_guest && c.exp
            >= TOKEN_LIFETIME_SECS,
        r matches Err(e) ==> e is InternalServerError,
{
    let now = unix_time_secs();
    match now {
        Some(t) => {
            if t > u64::MAX - TOKEN_LIFETIME_SECS {
                return Err(
                    AppError::InternalServerError(String::from_str("Token expiry out of range")),
                );
            }
        },
        None => {},
    }
    claims_at(user_id, email, is_guest, now)
}

/// The signed-in user described by the claims of a valid token.
#[derive(Debug, Clone, Copy, PartialEq, Eq)]
pub struct AuthUser {
    pub id: u128,
    pub is_guest: bool,
}

/// The signed-in user of a decoded token.
pub fn auth_user_from_claims(claims: &Claims) -> (u: AuthUser)
    ensures
        u.id == claims.sub,
        u.is_guest == claims.is_guest,
{
    AuthUser { id: claims.sub, is_guest: claims.is_guest }
}

/// The role that the administration endpoints are reserved to.
pub open spec fn is_admin_role(role: Seq<char>) -> bool {
    role == "ADMIN"@
}

/// Admits a signed-in user to an administration endpoint: only an
/// administrator is admitted, anyone else is refused.
pub fn require_admin(role: &str) -> (r: Result<(), AppError>)
    ensures
        r is Ok <==> is_admin_role(role@),
        r matches Err(e) ==> (e matches AppError::Forbidden(m) && m@ == "Admin access required"@),
{
    if str_eq(role, "ADMIN") {
        Ok(())
    } else {
        Err(AppError::Forbidden(String::from_str("Admin access required")))
    }
}

// ---------------------------------------------------------------------------
// Guest sign-in
// ---------------------------------------------------------------------------

/// The email address of the guest account with this id.
pub open spec fn guest_email(guest_id: u128) -> Seq<char> {
    "guest_"@ + uuid_text(guest_id) + "@rustedu.com"@
}

/// The account data of a guest with this id: a generated email address,
/// the name "Guest User", and nothing else.
pub fn guest_signup(guest_id: u128) -> (u: CreateUser)
    ensures
        u.email@ == guest_email(guest_id),
        u.name@ == "Guest User"@,
        u.google_id is None,
        u.avatar_url is None,
        u.password_hash is None,
{
    let mut email = String::from_str("guest_");
    let id = uuid_to_string(guest_id);
    push_str(&mut email, id.as_str());
    push_str(&mut email, "@rustedu.com");
    CreateUser {
        email,
        name: String::from_str("Guest User"),
        google_id: None,
        avatar_url: None,
        password_hash: None,
    }
}

/// The account data of a new guest, with a fresh random id.
pub fn new_guest_signup() -> (u: CreateUser)
    ensures
        exists|id: u128|
            #![trigger guest_email(id)]
            (id as int / pow(2, 76)) % 16 == 4 && (id as int / pow(2, 62)) % 4 == 2 && u.email@
                == guest_email(id),
        u.name@ == "Guest User"@,
        u.google_id is None,
        u.avatar_url is None,
        u.password_hash is None,
{
    let id = new_random_id();
    guest_signup(id)
}

/// Every guest email address starts with `guest_` and ends with
/// `@rustedu.com`.
pub proof fn lemma_guest_email_shape(guest_id: u128)
    ensures
        has_prefix(guest_email(guest_id), "guest_"@),
        guest_email(guest_id).subrange(
            guest_email(guest_id).len() - "@rustedu.com"@.len(),
            guest_email(guest_id).len() as int,
        ) == "@rustedu.com"@,
        guest_email(guest_id).len() == "guest_"@.len() + 36 + "@rustedu.com"@.len(),
{
    let e = guest_email(guest_id);
    assert(e.subrange(0, "guest_"@.len() as int) =~= "guest_"@);
    assert(e.subrange(e.len() - "@rustedu.com"@.len(), e.len() as int) =~= "@rustedu.com"@);
}

// ---------------------------------------------------------------------------
// Google sign-in
// ---------------------------------------------------------------------------

/// The profile Google returns for a valid ID token.
#[derive(Debug, Clone, PartialEq, Eq)]
pub struct GoogleTokenInfo {
    pub email: String,
    pub name: String,
    /// The Google account id.
    pub sub: String,
    pub picture: Option<String>,
}

/// The address that checks a Google ID token.
pub open spec fn tokeninfo_url(token: Seq<char>) -> Seq<char> {
    "https://oauth2.googleapis.com/tokeninfo?id_token="@ + token
}

/// Builds the address that checks a Google ID token.
pub fn google_tokeninfo_url(token: &str) -> (u: String)
    ensures
        u@ == tokeninfo_url(token@),
{
    let mut u = String::from_str("https://oauth2.googleapis.com/tokeninfo?id_token=");
    push_str(&mut u, token);
    u
}

/// What came back from the token check.
#[derive(Debug, Clone, PartialEq, Eq)]
pub enum GoogleReply {
    /// The request could not be sent or no answer came.
    Unreachable,
    /// Google answered with this status; for a success status, the body read
    /// as a token profile (`None` when it could not be read).
    Answered { status: u16, info: Option<GoogleTokenInfo> },
}

/// Whether an HTTP status is a success (2xx).
pub open spec fn is_success(status: u16) -> bool {
    200 <= status <= 299
}

/// The account data of a Google user, from the answer of the token check:
/// an unreachable service, a failure status and an unreadable profile are
/// each refused with their own message.
pub fn google_user(reply: GoogleReply) -> (r: Result<CreateUser, AppError>)
    ensures
        reply is Unreachable ==> (r matches Err(e) && e matches AppError::AuthError(m) && m@
            == "Failed to verify Google token"@),
        reply matches GoogleReply::Answered { status, info } ==> {
            &&& !is_success(status) ==> (r matches Err(e) && e matches AppError::AuthError(m) && m@
                == "Invalid Google token"@)
            &&& is_success(status) && info is None ==> (r matches Err(e)
                && e matches AppError::AuthError(m) && m@ == "Failed to parse Google token info"@)
            &&& is_success(status) && info is Some ==> r == Ok::<CreateUser, AppError>(
                CreateUser {
                    email: info->0.email,
                    name: info->0.name,
                    google_id: Some(info->0.sub),
                    avatar_url: info->0.picture,
                    password_hash: None,
                },
            )
        },
{
    match reply {
        GoogleReply::Unreachable => Err(
            AppError::AuthError(String::from_str("Failed to verify Google token")),
        ),
        GoogleReply::Answered { status, info } => {
            if status < 200 || status > 299 {
                return Err(AppError::AuthError(String::from_str("Invalid Google token")));
            }
            match info {
                None => Err(AppError::AuthError(String::from_str("Failed to parse Google token info"))),
                Some(i) => Ok(
                    CreateUser {
                        email: i.email,
                        name: i.name,
                        google_id: Some(i.sub),
                        avatar_url: i.picture,
                        password_hash: None,
                    },
                ),
            }
        },
    }
}

/// The account a Google sign-in uses.
#[derive(Debug, Clone, PartialEq, Eq)]
pub enum LoginAccount {
    /// The account already registered with the email.
    Existing(User),
    /// A new, non-guest account to create.
    Create(CreateUser),
}

/// A Google user signs in to the account registered with their email, or
/// to a new account when there is none.
pub fn google_login_account(existing: Option<User>, google_user: CreateUser) -> (a: LoginAccount)
    ensures
        existing matches Some(u) ==> a == LoginAccount::Existing(u),
        existing is None ==> a == LoginAccount::Create(google_user),
{
    match existing {
        Some(u) => LoginAccount::Existing(u),
        None => LoginAccount::Create(google_user),
    }
}

} // verus!
