//! Uploaded media: which files are accepted, the blob key a file is stored
//! under (`uploads/{user_id}/{file_id}.{ext}`), its recorded content type, and
//! the public URL of a stored blob.
use crate::ids::{hyphenated, Uuid};
use vstd::prelude::*;

verus! {

/// The extension of the last component of the path `name`, as `std::path::Path::extension` reads it.
pub uninterp spec fn extension_of(name: Seq<char>) -> Option<Seq<char>>;

/// The lowercase form of `s`, as `str::to_lowercase` gives it.
pub uninterp spec fn lower_of(s: Seq<char>) -> Seq<char>;

/// The first MIME type that `mime_guess::from_path` guesses for the file name `name`.
pub uninterp spec fn mime_guess_of(name: Seq<char>) -> Option<Seq<char>>;

/// Relies on `std::path::Path::extension`: the part of the file name after its last
/// dot, if any (read as UTF-8, which it is, coming from a `str`).
#[verifier::external_body]
fn path_extension(name: &str) -> (r: Option<String>)
    ensures
        match r {
            Some(e) => extension_of(name@) == Some(e@),
            None => extension_of(name@) is None,
        },
{
    std::path::Path::new(name).extension().and_then(|e| e.to_str()).map(|e| e.to_string())
}

/// Relies on `str::to_lowercase`.
#[verifier::external_body]
fn lowercase(s: &str) -> (r: String)
    ensures
        r@ == lower_of(s@),
{
    s.to_lowercase()
}

/// Relies on `mime_guess::from_path(..).first()`, rendered with the `Display` impl of `mime::Mime`.
#[verifier::external_body]
fn guess_mime(name: &str) -> (r: Option<String>)
    ensures
        match r {
            Some(m) => mime_guess_of(name@) == Some(m@),
            None => mime_guess_of(name@) is None,
        },
{
    mime_guess::from_path(name).first().map(|m| m.to_string())
}

/// Why an upload is refused.
#[derive(Clone, Copy, Debug, PartialEq, Eq, Structural)]
pub enum MediaError {
    /// Only .png, .jpg, .jpeg, .gif, .mp4, .mov and .webm files are accepted.
    DisallowedExtension,
    /// Only image and video files are accepted.
    NotImageOrVideo,
}

/// The extensions of accepted files, in lowercase.
pub open spec fn allowed_extension(ext: Seq<char>) -> bool {
    ||| ext == "png"@
    ||| ext == "jpg"@
    ||| ext == "jpeg"@
    ||| ext == "gif"@
    ||| ext == "mp4"@
    ||| ext == "mov"@
    ||| ext == "webm"@
}

/// `p` is a prefix of `s`.
pub open spec fn has_prefix(s: Seq<char>, p: Seq<char>) -> bool {
    p.len() <= s.len() && s.subrange(0, p.len() as int) == p
}

/// A MIME type of an image or a video.
pub open spec fn is_image_or_video(mime: Seq<char>) -> bool {
    has_prefix(mime, "image/"@) || has_prefix(mime, "video/"@)
}

/// The content type recorded when none is known.
pub open spec fn fallback_type() -> Seq<char> {
    "application/octet-stream"@
}

/// The verdict on an upload whose lowercased extension is `ext` and whose guessed
/// type is `guessed`.
pub open spec fn upload_verdict(ext: Option<Seq<char>>, guessed: Option<Seq<char>>) -> Result<(), MediaError> {
    let e = match ext {
        Some(e) => e,
        None => Seq::empty(),
    };
    let mime = match guessed {
        Some(m) => m,
        None => fallback_type(),
    };
    if !allowed_extension(e) {
        Err(MediaError::DisallowedExtension)
    } else if !is_image_or_video(mime) {
        Err(MediaError::NotImageOrVideo)
    } else {
        Ok(())
    }
}

/// Whether `s` starts with `p`.
pub fn starts_with(s: &str, p: &str) -> (r: bool)
    ensures
        r == has_prefix(s@, p@),
{
    let n = s.unicode_len();
    let m = p.unicode_len();
    if m > n {
        return false;
    }
    let mut i: usize = 0;
    while i < m
        invariant
            i <= m <= n,
            n == s@.len(),
            m == p@.len(),
            forall|j: int| 0 <= j < i ==> s@[j] == p@[j],
        decreases m - i,
    {
        if s.get_char(i) != p.get_char(i) {
            return false;
        }
        i = i + 1;
    }
    assert(s@.subrange(0, m as int) =~= p@);
    true
}

/// Whether `ext` (already lowercased) is the extension of an accepted file.
pub fn is_allowed_extension(ext: &str) -> (r: bool)
    ensures
        r == allowed_extension(ext@),
{
    let e = String::from_str(ext);
    e == String::from_str("png") || e == String::from_str("jpg") || e == String::from_str("jpeg")
        || e == String::from_str("gif") || e == String::from_str("mp4") || e == String::from_str(
        "mov",
    ) || e == String::from_str("webm")
}

/// Whether `mime` is the type of an image or a video.
pub fn is_image_or_video_type(mime: &str) -> (r: bool)
    ensures
        r == is_image_or_video(mime@),
{
    starts_with(mime, "image/") || starts_with(mime, "video/")
}

/// The verdict on an upload, given its extension in lowercase and the type guessed
/// from its name: the extension must be an accepted one, and the guessed type
/// (`application/octet-stream` when none) an image or a video type.
pub fn upload_check(ext: Option<String>, guessed: Option<String>) -> (r: Result<(), MediaError>)
    ensures
        r == upload_verdict(
            match ext {
                Some(e) => Some(e@),
                None => None,
            },
            match guessed {
                Some(m) => Some(m@),
                None => None,
            },
        ),
{
    let e = match ext {
        Some(e) => e,
        None => String::new(),
    };
    if !is_allowed_extension(e.as_str()) {
        return Err(MediaError::DisallowedExtension);
    }
    let mime = match guessed {
        Some(m) => m,
        None => String::from_str("application/octet-stream"),
    };
    if !is_image_or_video_type(mime.as_str()) {
        return Err(MediaError::NotImageOrVideo);
    }
    Ok(())
}

/// Whether a file named `original_name` may be uploaded.
pub fn check_upload(original_name: &str) -> (r: Result<(), MediaError>)
    ensures
        r == upload_verdict(
            match extension_of(original_name@) {
                Some(e) => Some(lower_of(e)),
                None => None,
            },
            mime_guess_of(original_name@),
        ),
{
    let ext = match path_extension(original_name) {
        Some(e) => Some(lowercase(e.as_str())),
        None => None,
    };
    let guessed = guess_mime(original_name);
    upload_check(ext, guessed)
}

/// The blob key of the file `file_id` of user `user_id` with extension `ext`
/// (none when empty).
pub open spec fn object_key(user_id: Uuid, file_id: Uuid, ext: Seq<char>) -> Seq<char> {
    let base = "uploads/"@ + hyphenated(user_id.bits) + "/"@ + hyphenated(file_id.bits);
    if ext.len() == 0 {
        base
    } else {
        base + "."@ + ext
    }
}

/// The blob key under which the file `original_name` of `user_id` is stored as `file_id`.
pub fn upload_key(user_id: Uuid, file_id: Uuid, original_name: &str) -> (r: String)
    ensures
        r@ == object_key(
            user_id,
            file_id,
            match extension_of(original_name@) {
                Some(e) => e,
                None => Seq::empty(),
            },
        ),
{
    let ext = match path_extension(original_name) {
        Some(e) => e,
        None => String::new(),
    };
    key_for(user_id, file_id, ext.as_str())
}

/// The blob key of the file `file_id` of `user_id` with extension `ext`.
pub fn key_for(user_id: Uuid, file_id: Uuid, ext: &str) -> (r: String)
    ensures
        r@ == object_key(user_id, file_id, ext@),
{
    let key = String::from_str("uploads/").concat(user_id.to_text().as_str()).concat("/").concat(
        file_id.to_text().as_str(),
    );
    if ext.unicode_len() == 0 {
        key
    } else {
        key.concat(".").concat(ext)
    }
}

/// The name recorded for an upload: the one its request gives, else `file`.
pub fn stored_file_name(given: Option<&str>) -> (r: String)
    ensures
        r@ == (match given {
            Some(n) => n@,
            None => "file"@,
        }),
{
    match given {
        Some(n) => String::from_str(n),
        None => String::from_str("file"),
    }
}

/// The content type of an upload: the one its request declares, else the type
/// guessed from its name.
pub fn declared_or_guessed_type(declared: Option<&str>, original_name: &str) -> (r: Option<String>)
    ensures
        match declared {
            Some(d) => r matches Some(t) && t@ == d@,
            None => match mime_guess_of(original_name@) {
                Some(g) => r matches Some(t) && t@ == g,
                None => r is None,
            },
        },
{
    match declared {
        Some(d) => Some(String::from_str(d)),
        None => guess_mime(original_name),
    }
}

/// The content type recorded for a media row: `application/octet-stream` when unknown.
pub fn recorded_type(mime: Option<String>) -> (r: String)
    ensures
        r@ == (match mime {
            Some(m) => m@,
            None => fallback_type(),
        }),
{
    match mime {
        Some(m) => m,
        None => String::from_str("application/octet-stream"),
    }
}

/// The public URL of the blob `key` in the bucket `bucket`.
pub fn media_url(bucket: &str, key: &str) -> (r: String)
    ensures
        r@ == "https://"@ + bucket@ + ".s3.amazonaws.com/"@ + key@,
{
    String::from_str("https://").concat(bucket).concat(".s3.amazonaws.com/").concat(key)
}

} // verus!
