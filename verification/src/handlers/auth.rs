//! Bodies of the sign-in endpoints.

use vstd::prelude::*;
use vstd::string::*;
use crate::validation::{length_view, length_violated, outcome, if_violated, ErrorView, FieldError};

verus! {

/// Body of a Google sign-in request.
#[derive(Debug, Clone, PartialEq, Eq)]
pub struct GoogleLoginRequest {
    pub google_token: String,
}

/// Answer of a successful sign-in: the session token.
#[derive(Debug, Clone, PartialEq, Eq)]
pub struct AuthResponse {
    pub token: String,
}

/// The violation of a Google sign-in body: the token must not be empty.
pub open spec fn google_login_violations(req: GoogleLoginRequest) -> Seq<ErrorView> {
    if_violated(
        length_violated(req.google_token@, 1, None),
        length_view("google_token"@, 1, None, Some("Google token is required"@)),
    )
}

impl GoogleLoginRequest {
    /// Checks that a token is given.
    pub fn validate(&self) -> (r: Result<(), Vec<FieldError>>)
        ensures
            outcome(r, google_login_violations(*self)),
            r is Ok <==> self.google_token@.len() >= 1,
            self.google_token@.len() == 0 ==> (r matches Err(es) && crate::validation::errors_view(es@)
                == seq![("google_token"@, "length"@, Some("Google token is required"@), Some(1u64), None::<u64>)]),
    {
        if self.google_token.as_str().unicode_len() < 1 {
            let mut errors: Vec<FieldError> = Vec::new();
            errors.push(
                FieldError {
                    field: String::from_str("google_token"),
                    code: String::from_str("length"),
                    message: Some(String::from_str("Google token is required")),
                    min: Some(1),
                    max: None,
                },
            );
            assert(crate::validation::errors_view(errors@) =~= google_login_violations(*self));
            Err(errors)
        } else {
            Ok(())
        }
    }
}

} // verus!
