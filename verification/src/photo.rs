//! Remote-photo validation and inlining. The network fetch itself lives with
//! the caller; this module decides, from the response metadata, whether the
//! photo may be embedded, and turns an accepted body into a base64 data URI.

use base64::Engine;
use vstd::prelude::*;

use crate::utils::str_eq;

verus! {

/// The declared size ceiling for a remote photo, in bytes.
pub const MAX_PHOTO_SIZE: u64 = 5 * 1024 * 1024;

/// Why a remote photo was rejected.
#[derive(Clone, Copy, Debug, PartialEq, Eq, Structural)]
pub enum FetchError {
    /// The response did not declare a content length.
    UnknownSize,
    /// The declared content length exceeds the size ceiling.
    TooLarge,
    /// The response carried no content type.
    UnknownContentType,
    /// The content type is not in the image allow-list.
    DisallowedContentType,
    /// The transfer itself failed or timed out.
    Transport,
}

impl FetchError {
    /// The user-facing message for this rejection.
    pub fn message(&self) -> (r: &'static str)
        ensures
            *self == FetchError::UnknownSize ==> r@ == "Image size is unknown"@,
            *self == FetchError::TooLarge ==> r@ == "Image is too large"@,
            *self == FetchError::UnknownContentType ==> r@ == "Content type is unknown"@,
            *self == FetchError::DisallowedContentType ==> r@ == "Content type is not allowed"@,
            *self == FetchError::Transport ==> r@ == "Image request failed"@,
    {
        match self {
            FetchError::UnknownSize => "Image size is unknown",
            FetchError::TooLarge => "Image is too large",
            FetchError::UnknownContentType => "Content type is unknown",
            FetchError::DisallowedContentType => "Content type is not allowed",
            FetchError::Transport => "Image request failed",
        }
    }
}

/// A content type that may be embedded.
pub open spec fn allowed_mime(ct: Seq<char>) -> bool {
    ||| ct == "image/jpeg"@
    ||| ct == "image/png"@
    ||| ct == "image/webp"@
    ||| ct == "image/svg+xml"@
}

/// Whether `ct` is in the image content-type allow-list.
pub fn is_allowed_content_type(ct: &str) -> (r: bool)
    ensures
        r == allowed_mime(ct@),
{
    str_eq(ct, "image/jpeg") || str_eq(ct, "image/png") || str_eq(ct, "image/webp") || str_eq(
        ct,
        "image/svg+xml",
    )
}

/// The metadata checks pass exactly when a content length was declared, it is
/// within the ceiling, a content type was declared, and it is allow-listed.
pub open spec fn metadata_ok(content_length: Option<u64>, content_type: Option<Seq<char>>) -> bool {
    &&& content_length is Some
    &&& content_length.unwrap() <= MAX_PHOTO_SIZE
    &&& content_type is Some
    &&& allowed_mime(content_type.unwrap())
}

/// Validates the response metadata of a photo fetch, before any body is read.
/// The declared content length is checked first, then the content type; each
/// error names exactly the first check that failed.
pub fn validate_photo_metadata(content_length: Option<u64>, content_type: Option<&str>) -> (r:
    Result<(), FetchError>)
    ensures
        r is Ok <==> metadata_ok(content_length, content_type.deep_view()),
        r == validate_photo_metadata_result(content_length, content_type.deep_view()),
        r == Result::<(), FetchError>::Err(FetchError::UnknownSize) <==> content_length is None,
        r == Result::<(), FetchError>::Err(FetchError::TooLarge) <==> ({
            &&& content_length matches Some(len)
            &&& len > MAX_PHOTO_SIZE
        }),
        r == Result::<(), FetchError>::Err(FetchError::UnknownContentType) <==> ({
            &&& content_length matches Some(len)
            &&& len <= MAX_PHOTO_SIZE
            &&& content_type is None
        }),
        r == Result::<(), FetchError>::Err(FetchError::DisallowedContentType) <==> ({
            &&& content_length matches Some(len)
            &&& len <= MAX_PHOTO_SIZE
            &&& content_type matches Some(ct)
            &&& !allowed_mime(ct@)
        }),
{
    let len = match content_length {
        None => {
            return Err(FetchError::UnknownSize);
        },
        Some(len) => len,
    };
    if len > MAX_PHOTO_SIZE {
        return Err(FetchError::TooLarge);
    }
    let ct = match content_type {
        None => {
            return Err(FetchError::UnknownContentType);
        },
        Some(ct) => ct,
    };
    if !is_allowed_content_type(ct) {
        return Err(FetchError::DisallowedContentType);
    }
    Ok(())
}

/// What base64's standard engine returns for a byte sequence. The alphabet
/// table is left unstated; the result is a function of the bytes alone.
pub uninterp spec fn base64_of(bytes: Seq<u8>) -> Seq<char>;

/// Relies on `base64::engine::general_purpose::STANDARD.encode`: standard
/// alphabet with padding, a pure function of the input bytes.
#[verifier::external_body]
fn base64_encode(bytes: &[u8]) -> (r: String)
    ensures
        r@ == base64_of(bytes@),
        bytes@.len() == 0 ==> r@.len() == 0,
{
    base64::engine::general_purpose::STANDARD.encode(bytes)
}

/// A data URI inlining `body` under `mime`.
pub open spec fn data_uri_spec(mime: Seq<char>, body: Seq<u8>) -> Seq<char> {
    "data:"@ + mime + ";base64,"@ + base64_of(body)
}

/// Encodes `body` as a base64 data URI under the given content type.
pub fn photo_data_uri(mime: &str, body: &[u8]) -> (r: String)
    ensures
        r@ == data_uri_spec(mime@, body@),
{
    let mut out = String::from_str("data:");
    out.append(mime);
    out.append(";base64,");
    let b64 = base64_encode(body);
    out.append(b64.as_str());
    proof {
        assert(out@ =~= data_uri_spec(mime@, body@));
    }
    out
}

/// The whole in-memory part of a photo load: validates the response metadata
/// and, when it passes, inlines the body as a data URI under the declared
/// content type. Returns exactly the rejection that the metadata checks give.
pub fn load_photo_from_response(
    content_length: Option<u64>,
    content_type: Option<&str>,
    body: &[u8],
) -> (r: Result<String, FetchError>)
    ensures
        r is Ok <==> metadata_ok(content_length, content_type.deep_view()),
        r matches Ok(uri) ==> uri@ == data_uri_spec(content_type.unwrap()@, body@),
        r matches Err(e) ==> Result::<(), FetchError>::Err(e) == validate_photo_metadata_result(
            content_length,
            content_type.deep_view(),
        ),
{
    match validate_photo_metadata(content_length, content_type) {
        Err(e) => Err(e),
        Ok(()) => {
            let ct = match content_type {
                Some(ct) => ct,
                None => {
                    return Err(FetchError::UnknownContentType);
                },
            };
            Ok(photo_data_uri(ct, body))
        },
    }
}

/// The outcome of the metadata checks, as a value: used to relate
/// [`load_photo_from_response`] to [`validate_photo_metadata`].
pub open spec fn validate_photo_metadata_result(
    content_length: Option<u64>,
    content_type: Option<Seq<char>>,
) -> Result<(), FetchError> {
    if content_length is None {
        Err(FetchError::UnknownSize)
    } else if content_length.unwrap() > MAX_PHOTO_SIZE {
        Err(FetchError::TooLarge)
    } else if content_type is None {
        Err(FetchError::UnknownContentType)
    } else if !allowed_mime(content_type.unwrap()) {
        Err(FetchError::DisallowedContentType)
    } else {
        Ok(())
    }
}

} // verus!
