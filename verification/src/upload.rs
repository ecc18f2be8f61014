//! Picture uploads: where pictures are stored and which bodies are accepted.

use vstd::prelude::*;
use vstd::string::StringExecFns;

use crate::token::{is_v4_uuid_text, random_uuid_text};

verus! {

/// The largest accepted picture body: ten mebibytes.
pub const MAX_PICTURE_BYTES: usize = 10485760;

/// The largest accepted width or height of a picture, in pixels.
pub const MAX_PICTURE_SIDE: u32 = 4096;

/// The file a picture is stored in: `./uploads/<id>.jpg`.
pub open spec fn picture_file(id: Seq<char>) -> Seq<char> {
    "./uploads/"@ + id + ".jpg"@
}

/// The path of the file that holds the picture `id`.
pub fn picture_path(id: &str) -> (path: String)
    ensures
        path@ == picture_file(id@),
{
    let mut path = String::from_str("./uploads/");
    path.append(id);
    path.append(".jpg");
    path
}

/// Why an uploaded picture was refused.
#[derive(Debug, PartialEq, Eq)]
pub enum UploadError {
    /// The body is larger than `MAX_PICTURE_BYTES`.
    TooLarge,
    /// The body could not be decoded as an image; the decoder's error text.
    InvalidImage(String),
    /// The width or the height is larger than `MAX_PICTURE_SIDE`.
    DimensionsTooLarge,
}

impl UploadError {
    /// The text of the answer for this refusal.
    pub open spec fn text(self) -> Seq<char> {
        match self {
            UploadError::TooLarge => "Image too large"@,
            UploadError::InvalidImage(e) => "Invalid image: "@ + e@,
            UploadError::DimensionsTooLarge => "Image dimensions are too large"@,
        }
    }

    /// The body of the answer for this refusal.
    pub fn message(&self) -> (m: String)
        ensures
            m@ == self.text(),
    {
        match self {
            UploadError::TooLarge => String::from_str("Image too large"),
            UploadError::InvalidImage(e) => {
                let mut m = String::from_str("Invalid image: ");
                m.append(e.as_str());
                m
            },
            UploadError::DimensionsTooLarge => String::from_str("Image dimensions are too large"),
        }
    }

    /// The HTTP status of the answer: 413 Payload Too Large for a body over
    /// the size limit, 400 Bad Request otherwise.
    pub fn status(&self) -> (code: u16)
        ensures
            code == (if *self is TooLarge { 413u16 } else { 400u16 }),
    {
        match self {
            UploadError::TooLarge => 413,
            _ => 400,
        }
    }
}

/// What the `image` crate makes of `bytes` when it guesses the format from
/// the content and decodes: the width and height, or the error text.
pub uninterp spec fn decoded_dimensions(bytes: Seq<u8>) -> Result<(u32, u32), Seq<char>>;

/// Calls `image::ImageReader::new(Cursor::new(bytes)).with_guessed_format()`
/// and then `decode`, with the reader's default limits. Trusted: the outcome
/// is `decoded_dimensions` of the bytes, the width and height of the decoded
/// image or the text of the error that either step gave.
#[verifier::external_body]
fn decode_dimensions(bytes: &[u8]) -> (d: Result<(u32, u32), String>)
    ensures
        match d {
            Ok(wh) => decoded_dimensions(bytes@) == Ok::<(u32, u32), Seq<char>>(wh),
            Err(e) => decoded_dimensions(bytes@) == Err::<(u32, u32), Seq<char>>(e@),
        },
{
    let reader = match image::ImageReader::new(std::io::Cursor::new(bytes)).with_guessed_format() {
        Ok(r) => r,
        Err(e) => return Err(e.to_string()),
    };
    match reader.decode() {
        Ok(img) => Ok((img.width(), img.height())),
        Err(e) => Err(e.to_string()),
    }
}

/// Judges a picture body from its length and what decoding it gave.
pub fn picture_verdict(len: usize, decoded: Result<(u32, u32), String>) -> (r: Result<(), UploadError>)
    ensures
        len > MAX_PICTURE_BYTES ==> r == Err::<(), UploadError>(UploadError::TooLarge),
        len <= MAX_PICTURE_BYTES ==> match decoded {
            Err(e) => r == Err::<(), UploadError>(UploadError::InvalidImage(e)),
            Ok((w, h)) => if w > MAX_PICTURE_SIDE || h > MAX_PICTURE_SIDE {
                r == Err::<(), UploadError>(UploadError::DimensionsTooLarge)
            } else {
                r == Ok::<(), UploadError>(())
            },
        },
{
    if len > MAX_PICTURE_BYTES {
        return Err(UploadError::TooLarge);
    }
    match decoded {
        Err(e) => Err(UploadError::InvalidImage(e)),
        Ok((w, h)) => if w > MAX_PICTURE_SIDE || h > MAX_PICTURE_SIDE {
            Err(UploadError::DimensionsTooLarge)
        } else {
            Ok(())
        },
    }
}

/// Checks an uploaded picture for the picture id `picture_id` and gives the
/// path to store it at. The body is decoded only when it is not too large.
pub fn post_picture(picture_id: &str, body: &[u8]) -> (r: Result<String, UploadError>)
    ensures
        body@.len() > MAX_PICTURE_BYTES ==> r == Err::<String, UploadError>(UploadError::TooLarge),
        body@.len() <= MAX_PICTURE_BYTES ==> match decoded_dimensions(body@) {
            Err(t) => r matches Err(UploadError::InvalidImage(m)) && m@ == t,
            Ok((w, h)) => if w > MAX_PICTURE_SIDE || h > MAX_PICTURE_SIDE {
                r == Err::<String, UploadError>(UploadError::DimensionsTooLarge)
            } else {
                r matches Ok(path) && path@ == picture_file(picture_id@)
            },
        },
{
    if body.len() > MAX_PICTURE_BYTES {
        return Err(UploadError::TooLarge);
    }
    let decoded = decode_dimensions(body);
    match picture_verdict(body.len(), decoded) {
        Ok(()) => Ok(picture_path(picture_id)),
        Err(e) => Err(e),
    }
}

/// Where a new upload goes: a fresh random id and the path of its file.
#[derive(Debug)]
pub struct UploadTarget {
    pub upload_id: String,
    pub path: String,
}

/// Picks the id and file of a new upload.
pub fn post_file() -> (t: UploadTarget)
    ensures
        is_v4_uuid_text(t.upload_id@),
        t.path@ == picture_file(t.upload_id@),
{
    let upload_id = random_uuid_text();
    let path = picture_path(upload_id.as_str());
    UploadTarget { upload_id, path }
}

} // verus!
