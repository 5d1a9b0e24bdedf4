//! Validation of request bodies: minimum and maximum lengths (counted in
//! characters) and email addresses.

use vstd::prelude::*;
use vstd::string::*;
use crate::models::community::{
    CreateCommentRequest, CreateThreadRequest, UpdateComment, UpdateThreadRequest,
};
use crate::models::contact::SubmitInquiryRequest;
use crate::models::user::{CreateUser, UpdateUser, UserRoleUpdate};

verus! {

/// One violated rule of one field.
#[derive(Debug, Clone, PartialEq, Eq)]
pub struct FieldError {
    /// The field name.
    pub field: String,
    /// The rule: `length` or `email`.
    pub code: String,
    /// The message shown for the violation, if the rule has one.
    pub message: Option<String>,
    /// For a length rule, its bounds.
    pub min: Option<u64>,
    pub max: Option<u64>,
}

/// The abstract content of a field error: field, rule, message and bounds.
pub type ErrorView = (Seq<char>, Seq<char>, Option<Seq<char>>, Option<u64>, Option<u64>);

/// The view of a field error.
pub open spec fn error_view(e: FieldError) -> ErrorView {
    (
        e.field@,
        e.code@,
        match e.message {
            Some(m) => Some(m@),
            None => None,
        },
        e.min,
        e.max,
    )
}

/// The views of a list of field errors.
pub open spec fn errors_view(es: Seq<FieldError>) -> Seq<ErrorView> {
    es.map_values(|e: FieldError| error_view(e))
}

/// The error `e`, when `violated`.
pub open spec fn if_violated(violated: bool, e: ErrorView) -> Seq<ErrorView> {
    if violated {
        seq![e]
    } else {
        seq![]
    }
}

/// The outcome of a validation from the list of violations it found.
pub open spec fn outcome(r: Result<(), Vec<FieldError>>, expected: Seq<ErrorView>) -> bool {
    if expected.len() == 0 {
        r is Ok
    } else {
        r matches Err(es) && errors_view(es@) == expected
    }
}

/// The error view of a violated length rule.
pub open spec fn length_view(field: Seq<char>, min: u64, max: Option<u64>, message: Option<Seq<char>>) -> ErrorView {
    (field, "length"@, message, Some(min), max)
}

/// Whether a text is outside the length bounds.
pub open spec fn length_violated(s: Seq<char>, min: u64, max: Option<u64>) -> bool {
    s.len() < min || (max matches Some(m) && s.len() > m)
}

/// Whether the email check of the `validator` crate accepts an address.
pub uninterp spec fn email_accepted(s: Seq<char>) -> bool;

/// Checks an address with `validator::ValidateEmail::validate_email` (the
/// HTML5 address grammar, with length limits on both parts and
/// internationalised domains). Its result is named `email_accepted`; the
/// source plainly rejects an empty address and one without `@`.
#[verifier::external_body]
fn email_ok(s: &str) -> (r: bool)
    ensures
        r == email_accepted(s@),
        s@.len() == 0 ==> !r,
        !s@.contains('@') ==> !r,
{
    validator::ValidateEmail::validate_email(&s)
}

/// Whether this crate's email check accepts an address.
pub fn is_valid_email(s: &str) -> (r: bool)
    ensures
        r == email_accepted(s@),
        s@.len() == 0 ==> !r,
        !s@.contains('@') ==> !r,
{
    email_ok(s)
}

/// The error of a violated length rule.
fn length_error(field: &str, min: u64, max: Option<u64>, message: Option<&str>) -> (e: FieldError)
    ensures
        error_view(e) == length_view(
            field@,
            min,
            max,
            match message {
                Some(m) => Some(m@),
                None => None,
            },
        ),
{
    FieldError {
        field: String::from_str(field),
        code: String::from_str("length"),
        message: match message {
            Some(m) => Some(String::from_str(m)),
            None => None,
        },
        min: Some(min),
        max,
    }
}

/// The error of a rejected email address.
fn email_error(field: &str, message: Option<&str>) -> (e: FieldError)
    ensures
        error_view(e) == (
            field@,
            "email"@,
            match message {
                Some(m) => Some(m@),
                None => None,
            },
            None::<u64>,
            None::<u64>,
        ),
{
    FieldError {
        field: String::from_str(field),
        code: String::from_str("email"),
        message: match message {
            Some(m) => Some(String::from_str(m)),
            None => None,
        },
        min: None,
        max: None,
    }
}

/// Appends the error of a length rule when `value` breaks it.
fn check_length(
    errors: &mut Vec<FieldError>,
    field: &str,
    value: &str,
    min: u64,
    max: Option<u64>,
    message: Option<&str>,
)
    ensures
        errors_view(final(errors)@) == errors_view(old(errors)@) + if_violated(
            length_violated(value@, min, max),
            length_view(
                field@,
                min,
                max,
                match message {
                    Some(m) => Some(m@),
                    None => None,
                },
            ),
        ),
{
    let n = value.unicode_len() as u64;
    let violated = n < min || match max {
        Some(m) => n > m,
        None => false,
    };
    let ghost before = errors@;
    if violated {
        errors.push(length_error(field, min, max, message));
        assert(errors_view(errors@) =~= errors_view(before) + seq![error_view(errors@.last())]);
    } else {
        assert(errors_view(errors@) =~= errors_view(before) + Seq::<ErrorView>::empty());
    }
}

/// Appends the error of an email rule when `value` is rejected.
fn check_email(errors: &mut Vec<FieldError>, field: &str, value: &str, message: Option<&str>)
    ensures
        errors_view(final(errors)@) == errors_view(old(errors)@) + if_violated(
            !email_accepted(value@),
            (
                field@,
                "email"@,
                match message {
                    Some(m) => Some(m@),
                    None => None,
                },
                None::<u64>,
                None::<u64>,
            ),
        ),
{
    let ghost before = errors@;
    if !is_valid_email(value) {
        errors.push(email_error(field, message));
        assert(errors_view(errors@) =~= errors_view(before) + seq![error_view(errors@.last())]);
    } else {
        assert(errors_view(errors@) =~= errors_view(before) + Seq::<ErrorView>::empty());
    }
}

/// The result of a validation from the errors it collected.
fn finish(errors: Vec<FieldError>) -> (r: Result<(), Vec<FieldError>>)
    ensures
        outcome(r, errors_view(errors@)),
{
    if errors.len() == 0 {
        Ok(())
    } else {
        Err(errors)
    }
}

/// The violations of a new thread: a title of at least 5 characters and a
/// content of at least 10.
pub open spec fn create_thread_violations(req: CreateThreadRequest) -> Seq<ErrorView> {
    if_violated(
        length_violated(req.title@, 5, None),
        length_view("title"@, 5, None, Some("Title must be at least 5 characters"@)),
    ) + if_violated(
        length_violated(req.content@, 10, None),
        length_view("content"@, 10, None, Some("Content must be at least 10 characters"@)),
    )
}

/// The violations of a thread edit: the same rules as a new thread, for the
/// fields it gives.
pub open spec fn update_thread_violations(req: UpdateThreadRequest) -> Seq<ErrorView> {
    if_violated(
        req.title matches Some(t) && length_violated(t@, 5, None),
        length_view("title"@, 5, None, Some("Title must be at least 5 characters"@)),
    ) + if_violated(
        req.content matches Some(c) && length_violated(c@, 10, None),
        length_view("content"@, 10, None, Some("Content must be at least 10 characters"@)),
    )
}

/// The violation of a comment body: it must not be empty.
pub open spec fn comment_violations(content: Seq<char>) -> Seq<ErrorView> {
    if_violated(
        length_violated(content, 1, None),
        length_view("content"@, 1, None, Some("Content cannot be empty"@)),
    )
}

/// The violations of a contact form.
pub open spec fn inquiry_violations(req: SubmitInquiryRequest) -> Seq<ErrorView> {
    if_violated(
        length_violated(req.name@, 2, None),
        length_view("name"@, 2, None, Some("Name is required"@)),
    ) + if_violated(
        !email_accepted(req.email@),
        ("email"@, "email"@, Some("Valid email is required"@), None::<u64>, None::<u64>),
    ) + if_violated(
        length_violated(req.kind@, 2, None),
        length_view("type"@, 2, None, Some("Type is required"@)),
    ) + if_violated(
        length_violated(req.message@, 10, None),
        length_view("message"@, 10, None, Some("Message must be at least 10 characters long"@)),
    )
}

/// The violations of new account data: a valid email and a name of 2 to
/// 255 characters.
pub open spec fn create_user_violations(req: CreateUser) -> Seq<ErrorView> {
    if_violated(!email_accepted(req.email@), ("email"@, "email"@, None::<Seq<char>>, None::<u64>, None::<u64>))
        + if_violated(length_violated(req.name@, 2, Some(255)), length_view("name"@, 2, Some(255), None))
}

// ---------------------------------------------------------------------------
// The rules, stated field by field
// ---------------------------------------------------------------------------

/// The error of a thread title shorter than 5 characters.
pub open spec fn short_title_error() -> ErrorView {
    ("title"@, "length"@, Some("Title must be at least 5 characters"@), Some(5u64), None::<u64>)
}

/// The error of a thread content shorter than 10 characters.
pub open spec fn short_content_error() -> ErrorView {
    ("content"@, "length"@, Some("Content must be at least 10 characters"@), Some(10u64), None::<u64>)
}

/// The error of an empty comment.
pub open spec fn empty_comment_error() -> ErrorView {
    ("content"@, "length"@, Some("Content cannot be empty"@), Some(1u64), None::<u64>)
}

/// A new thread passes iff its title has at least 5 characters and its
/// content at least 10; each rule it breaks is reported with its error.
pub proof fn lemma_create_thread_rules(req: CreateThreadRequest)
    ensures
        create_thread_violations(req).len() == 0 <==> (req.title@.len() >= 5 && req.content@.len() >= 10),
        req.title@.len() < 5 ==> create_thread_violations(req).contains(short_title_error()),
        req.content@.len() < 10 ==> create_thread_violations(req).contains(short_content_error()),
{
    let v = create_thread_violations(req);
    if req.title@.len() < 5 {
        assert(v[0] == short_title_error());
    }
    if req.content@.len() < 10 {
        assert(v[v.len() - 1] == short_content_error());
    }
}

/// A thread edit passes iff the title it gives (if any) has at least 5
/// characters and the content it gives (if any) at least 10; a field it
/// leaves out is not checked, and each rule it breaks is reported with its
/// error.
pub proof fn lemma_update_thread_rules(req: UpdateThreadRequest)
    ensures
        update_thread_violations(req).len() == 0 <==> ((req.title matches Some(t) ==> t@.len() >= 5)
            && (req.content matches Some(c) ==> c@.len() >= 10)),
        req.title matches Some(t) ==> (t@.len() < 5 ==> update_thread_violations(req).contains(
            short_title_error(),
        )),
        req.content matches Some(c) ==> (c@.len() < 10 ==> update_thread_violations(req).contains(
            short_content_error(),
        )),
{
    let v = update_thread_violations(req);
    if req.title matches Some(t) && t@.len() < 5 {
        assert(v[0] == short_title_error());
    }
    if req.content matches Some(c) && c@.len() < 10 {
        assert(v[v.len() - 1] == short_content_error());
    }
}

/// A comment passes iff it is not empty; an empty one is reported.
pub proof fn lemma_comment_rules(content: Seq<char>)
    ensures
        comment_violations(content).len() == 0 <==> content.len() >= 1,
        content.len() == 0 ==> comment_violations(content) == seq![empty_comment_error()],
{
}

/// A contact form passes iff the name has at least 2 characters, the email
/// is accepted, the type has at least 2 characters and the message at least
/// 10; each rule it breaks is reported with its error.
pub proof fn lemma_inquiry_rules(req: SubmitInquiryRequest)
    ensures
        inquiry_violations(req).len() == 0 <==> (req.name@.len() >= 2 && email_accepted(req.email@)
            && req.kind@.len() >= 2 && req.message@.len() >= 10),
        req.name@.len() < 2 ==> inquiry_violations(req).contains(
            ("name"@, "length"@, Some("Name is required"@), Some(2u64), None::<u64>),
        ),
        !email_accepted(req.email@) ==> inquiry_violations(req).contains(
            ("email"@, "email"@, Some("Valid email is required"@), None::<u64>, None::<u64>),
        ),
        req.kind@.len() < 2 ==> inquiry_violations(req).contains(
            ("type"@, "length"@, Some("Type is required"@), Some(2u64), None::<u64>),
        ),
        req.message@.len() < 10 ==> inquiry_violations(req).contains(
            ("message"@, "length"@, Some("Message must be at least 10 characters long"@), Some(10u64), None::<u64>),
        ),
{
    let a = if_violated(
        length_violated(req.name@, 2, None),
        length_view("name"@, 2, None, Some("Name is required"@)),
    );
    let b = if_violated(
        !email_accepted(req.email@),
        ("email"@, "email"@, Some("Valid email is required"@), None::<u64>, None::<u64>),
    );
    let c = if_violated(
        length_violated(req.kind@, 2, None),
        length_view("type"@, 2, None, Some("Type is required"@)),
    );
    let v = inquiry_violations(req);
    assert(v == a + b + c + if_violated(
        length_violated(req.message@, 10, None),
        length_view("message"@, 10, None, Some("Message must be at least 10 characters long"@)),
    ));
    if req.name@.len() < 2 {
        assert(v[0] == a[0]);
    }
    if !email_accepted(req.email@) {
        assert(v[a.len() as int] == b[0]);
    }
    if req.kind@.len() < 2 {
        assert(v[(a.len() + b.len()) as int] == c[0]);
    }
    if req.message@.len() < 10 {
        assert(v[v.len() - 1] == ("message"@, "length"@, Some("Message must be at least 10 characters long"@), Some(10u64), None::<u64>));
    }
}

/// New account data passes iff the email is accepted and the name has 2 to
/// 255 characters; each rule it breaks is reported with its error.
pub proof fn lemma_create_user_rules(req: CreateUser)
    ensures
        create_user_violations(req).len() == 0 <==> (email_accepted(req.email@) && 2 <= req.name@.len()
            <= 255),
        !email_accepted(req.email@) ==> create_user_violations(req).contains(
            ("email"@, "email"@, None::<Seq<char>>, None::<u64>, None::<u64>),
        ),
        !(2 <= req.name@.len() <= 255) ==> create_user_violations(req).contains(
            ("name"@, "length"@, None::<Seq<char>>, Some(2u64), Some(255u64)),
        ),
{
    let v = create_user_violations(req);
    if !email_accepted(req.email@) {
        assert(v[0] == ("email"@, "email"@, None::<Seq<char>>, None::<u64>, None::<u64>));
    }
    if !(2 <= req.name@.len() <= 255) {
        assert(v[v.len() - 1] == ("name"@, "length"@, None::<Seq<char>>, Some(2u64), Some(255u64)));
    }
}

impl CreateThreadRequest {
    /// Checks the rules of a new thread.
    pub fn validate(&self) -> (r: Result<(), Vec<FieldError>>)
        ensures
            outcome(r, create_thread_violations(*self)),
            r is Ok <==> (self.title@.len() >= 5 && self.content@.len() >= 10),
            self.title@.len() < 5 ==> (r matches Err(es) && errors_view(es@).contains(short_title_error())),
            self.content@.len() < 10 ==> (r matches Err(es) && errors_view(es@).contains(
                short_content_error(),
            )),
    {
        let mut errors: Vec<FieldError> = Vec::new();
        assert(errors_view(errors@) =~= Seq::<ErrorView>::empty());
        check_length(&mut errors, "title", self.title.as_str(), 5, None, Some("Title must be at least 5 characters"));
        check_length(&mut errors, "content", self.content.as_str(), 10, None, Some("Content must be at least 10 characters"));
        assert(errors_view(errors@) =~= create_thread_violations(*self));
        let r = finish(errors);
        proof {
            lemma_create_thread_rules(*self);
        }
        r
    }
}

impl UpdateThreadRequest {
    /// Checks the rules of a thread edit.
    pub fn validate(&self) -> (r: Result<(), Vec<FieldError>>)
        ensures
            outcome(r, update_thread_violations(*self)),
            r is Ok <==> ((self.title matches Some(t) ==> t@.len() >= 5) && (self.content matches Some(c)
                ==> c@.len() >= 10)),
            self.title matches Some(t) ==> (t@.len() < 5 ==> (r matches Err(es) && errors_view(
                es@,
            ).contains(short_title_error()))),
            self.content matches Some(c) ==> (c@.len() < 10 ==> (r matches Err(es) && errors_view(
                es@,
            ).contains(short_content_error()))),
    {
        let mut errors: Vec<FieldError> = Vec::new();
        assert(errors_view(errors@) =~= Seq::<ErrorView>::empty());
        match &self.title {
            Some(t) => check_length(&mut errors, "title", t.as_str(), 5, None, Some("Title must be at least 5 characters")),
            None => {},
        }
        match &self.content {
            Some(c) => check_length(&mut errors, "content", c.as_str(), 10, None, Some("Content must be at least 10 characters")),
            None => {},
        }
        assert(errors_view(errors@) =~= update_thread_violations(*self));
        let r = finish(errors);
        proof {
            lemma_update_thread_rules(*self);
        }
        r
    }
}

impl CreateCommentRequest {
    /// Checks that the comment is not empty.
    pub fn validate(&self) -> (r: Result<(), Vec<FieldError>>)
        ensures
            outcome(r, comment_violations(self.content@)),
            r is Ok <==> self.content@.len() >= 1,
            self.content@.len() == 0 ==> (r matches Err(es) && errors_view(es@) == seq![empty_comment_error()]),
    {
        let mut errors: Vec<FieldError> = Vec::new();
        assert(errors_view(errors@) =~= Seq::<ErrorView>::empty());
        check_length(&mut errors, "content", self.content.as_str(), 1, None, Some("Content cannot be empty"));
        assert(errors_view(errors@) =~= comment_violations(self.content@));
        let r = finish(errors);
        proof {
            lemma_comment_rules(self.content@);
        }
        r
    }
}

impl UpdateComment {
    /// Checks that the new content is not empty.
    pub fn validate(&self) -> (r: Result<(), Vec<FieldError>>)
        ensures
            outcome(r, comment_violations(self.content@)),
            r is Ok <==> self.content@.len() >= 1,
            self.content@.len() == 0 ==> (r matches Err(es) && errors_view(es@) == seq![empty_comment_error()]),
    {
        let mut errors: Vec<FieldError> = Vec::new();
        assert(errors_view(errors@) =~= Seq::<ErrorView>::empty());
        check_length(&mut errors, "content", self.content.as_str(), 1, None, Some("Content cannot be empty"));
        assert(errors_view(errors@) =~= comment_violations(self.content@));
        let r = finish(errors);
        proof {
            lemma_comment_rules(self.content@);
        }
        r
    }
}

impl SubmitInquiryRequest {
    /// Checks the rules of a contact form.
    pub fn validate(&self) -> (r: Result<(), Vec<FieldError>>)
        ensures
            outcome(r, inquiry_violations(*self)),
            r is Ok <==> (self.name@.len() >= 2 && email_accepted(self.email@) && self.kind@.len() >= 2
                && self.message@.len() >= 10),
    {
        let mut errors: Vec<FieldError> = Vec::new();
        assert(errors_view(errors@) =~= Seq::<ErrorView>::empty());
        check_length(&mut errors, "name", self.name.as_str(), 2, None, Some("Name is required"));
        check_email(&mut errors, "email", self.email.as_str(), Some("Valid email is required"));
        check_length(&mut errors, "type", self.kind.as_str(), 2, None, Some("Type is required"));
        check_length(&mut errors, "message", self.message.as_str(), 10, None, Some("Message must be at least 10 characters long"));
        assert(errors_view(errors@) =~= inquiry_violations(*self));
        let r = finish(errors);
        proof {
            lemma_inquiry_rules(*self);
        }
        r
    }
}

impl CreateUser {
    /// Checks the rules of new account data.
    pub fn validate(&self) -> (r: Result<(), Vec<FieldError>>)
        ensures
            outcome(r, create_user_violations(*self)),
            r is Ok <==> (email_accepted(self.email@) && 2 <= self.name@.len() <= 255),
    {
        let mut errors: Vec<FieldError> = Vec::new();
        assert(errors_view(errors@) =~= Seq::<ErrorView>::empty());
        check_email(&mut errors, "email", self.email.as_str(), None);
        check_length(&mut errors, "name", self.name.as_str(), 2, Some(255), None);
        assert(errors_view(errors@) =~= create_user_violations(*self));
        let r = finish(errors);
        proof {
            lemma_create_user_rules(*self);
        }
        r
    }
}

impl UpdateUser {
    /// Preference changes have no rules: they always pass.
    pub fn validate(&self) -> (r: Result<(), Vec<FieldError>>)
        ensures
            r is Ok,
    {
        Ok(())
    }
}

impl UserRoleUpdate {
    /// Role changes have no rules: they always pass.
    pub fn validate(&self) -> (r: Result<(), Vec<FieldError>>)
        ensures
            r is Ok,
    {
        Ok(())
    }
}

} // verus!
