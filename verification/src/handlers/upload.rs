//! The image upload endpoint: which form field holds the image, and the
//! answer.

use vstd::prelude::*;
use crate::error::AppError;
use crate::text::str_eq;

verus! {

/// Answer of a successful upload: the address of the stored image.
#[derive(Debug, Clone, PartialEq, Eq)]
pub struct UploadResponse {
    pub url: String,
}

/// Whether a form field with this name holds the uploaded image: its name
/// is `file` or `image` (a field without a name is neither).
pub open spec fn is_image_field_name(name: Option<Seq<char>>) -> bool {
    name matches Some(n) && (n == "file"@ || n == "image"@)
}

/// Decides whether a form field holds the uploaded image.
pub fn is_image_field(name: Option<&str>) -> (r: bool)
    ensures
        r == is_image_field_name(
            match name {
                Some(n) => Some(n@),
                None => None,
            },
        ),
{
    match name {
        Some(n) => str_eq(n, "file") || str_eq(n, "image"),
        None => false,
    }
}

/// The answer once the image field has been read: the placeholder address.
pub fn upload_response() -> (r: UploadResponse)
    ensures
        r.url@ == "https://rustedu.com/uploads/mock-image.png"@,
{
    UploadResponse { url: String::from_str("https://rustedu.com/uploads/mock-image.png") }
}

/// The answer when no field held an image.
pub fn no_file_uploaded() -> (e: AppError)
    ensures
        e matches AppError::ValidationError(m) && m@ == "No file uploaded"@,
{
    AppError::ValidationError(String::from_str("No file uploaded"))
}

} // verus!
