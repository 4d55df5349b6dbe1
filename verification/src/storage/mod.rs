//! Saving captures: the errors of file writes, and the name and PNG bytes of
//! the frozen frame kept while the user selects. The writes themselves are the
//! host application's part.

use vstd::prelude::*;

use crate::error::{CaptureError, CaptureErrorKind, kind_message, opt_view};
use crate::image_processor::{RawImage, encode_png, png_encoding};
use crate::text::{push_str, string_from_chars};

verus! {

/// Errors of writing capture files.
#[derive(Debug)]
pub enum StorageError {
    /// The file could not be written (missing parent directory, bad path).
    WriteFailed(String),
    /// Disk or permission failure.
    DiskError(String),
}

/// How a storage error reads.
pub open spec fn storage_error_text(e: StorageError) -> Seq<char> {
    match e {
        StorageError::WriteFailed(m) => "Failed to write file: "@ + m@,
        StorageError::DiskError(m) => "Disk full or insufficient permissions: "@ + m@,
    }
}

impl StorageError {
    /// The human-readable text of this error.
    pub fn to_string(&self) -> (r: String)
        ensures
            r@ == storage_error_text(*self),
    {
        let mut v: Vec<char> = Vec::new();
        match self {
            StorageError::WriteFailed(m) => {
                push_str(&mut v, "Failed to write file: ");
                push_str(&mut v, m.as_str());
            },
            StorageError::DiskError(m) => {
                push_str(&mut v, "Disk full or insufficient permissions: ");
                push_str(&mut v, m.as_str());
            },
        }
        string_from_chars(v.as_slice())
    }
}

/// A saved file: its path and its size in bytes.
#[derive(Debug)]
pub struct SavedFile {
    pub path: String,
    pub file_size: u64,
}

/// `c` is a lower-case hexadecimal digit.
pub open spec fn is_lower_hex(c: char) -> bool {
    ('0' <= c && c <= '9') || ('a' <= c && c <= 'f')
}

/// `s` is a version-4 UUID in hyphenated lower-case form: five groups of
/// 8, 4, 4, 4 and 12 hexadecimal digits, the version digit `4` opening the
/// third group and the variant digit (`8`, `9`, `a` or `b`) the fourth.
pub open spec fn uuid_v4_text(s: Seq<char>) -> bool {
    &&& s.len() == 36
    &&& forall|i: int| 0 <= i < 36 ==> (if i == 8 || i == 13 || i == 18 || i == 23 {
        #[trigger] s[i] == '-'
    } else {
        is_lower_hex(s[i])
    })
    &&& s[14] == '4'
    &&& (s[19] == '8' || s[19] == '9' || s[19] == 'a' || s[19] == 'b')
}

/// A fresh random UUID from `uuid::Uuid::new_v4()`, as `to_string` writes it:
/// hyphenated lower case, with the version and variant bits that `new_v4`
/// sets. Which UUID comes out is chance, so nothing else is claimed; the call
/// panics only if the operating system's random source fails.
#[verifier::external_body]
fn new_uuid_v4() -> (r: String)
    ensures
        uuid_v4_text(r@),
{
    uuid::Uuid::new_v4().to_string()
}

/// Writes capture files.
#[derive(Debug, Default)]
pub struct StorageManager;

impl StorageManager {
    /// The error for a failed write of the file at `path` (as the host shows
    /// a path) with the failure's description `detail`: a refused permission
    /// is a disk error, any other failure a write failure.
    pub fn write_failure(permission_denied: bool, path: &str, detail: &str) -> (r: StorageError)
        ensures
            permission_denied ==> (r matches StorageError::DiskError(m)
                && m@ == "Permission denied writing to "@ + path@ + ": "@ + detail@),
            !permission_denied ==> (r matches StorageError::WriteFailed(m)
                && m@ == "Failed to write "@ + path@ + ": "@ + detail@),
    {
        let mut v: Vec<char> = Vec::new();
        if permission_denied {
            push_str(&mut v, "Permission denied writing to ");
        } else {
            push_str(&mut v, "Failed to write ");
        }
        push_str(&mut v, path);
        push_str(&mut v, ": ");
        push_str(&mut v, detail);
        let message = string_from_chars(v.as_slice());
        if permission_denied {
            StorageError::DiskError(message)
        } else {
            StorageError::WriteFailed(message)
        }
    }

    /// The file name of the frozen frame identified by `id`: `<id>.png`.
    pub fn temp_file_name_for(id: &str) -> (r: String)
        ensures
            r@ == id@ + ".png"@,
    {
        let mut v: Vec<char> = Vec::new();
        push_str(&mut v, id);
        push_str(&mut v, ".png");
        string_from_chars(v.as_slice())
    }

    /// The file name of a new frozen frame: a fresh random UUID with the
    /// `.png` extension, so that frames never overwrite each other.
    pub fn temp_file_name() -> (r: String)
        ensures
            r@.len() == 40,
            uuid_v4_text(r@.subrange(0, 36)),
            r@.subrange(36, 40) == ".png"@,
    {
        let id = new_uuid_v4();
        proof {
            reveal_strlit(".png");
        }
        let name = Self::temp_file_name_for(id.as_str());
        assert(name@.subrange(0, 36) =~= id@);
        assert(name@.subrange(36, 40) =~= ".png"@);
        name
    }

    /// The PNG file of a frozen frame, or the encoder's description of why
    /// it refused the image.
    pub fn frozen_frame_png(image: &RawImage) -> (r: Result<Vec<u8>, String>)
        ensures
            match r {
                Ok(bytes) => png_encoding(image@.0, image@.1, image@.2) == Some(bytes@),
                Err(_) => png_encoding(image@.0, image@.1, image@.2) is None,
            },
    {
        encode_png(image)
    }

    /// The error of a frozen frame that could not be saved at `path`, with
    /// the failure's description.
    pub fn temp_save_error(path: &str, detail: &str) -> (r: CaptureError)
        ensures
            r.kind == CaptureErrorKind::StorageError,
            r.message@ == kind_message(CaptureErrorKind::StorageError),
            opt_view(r.context) == Some("Failed to save temp file "@ + path@ + ": "@ + detail@),
    {
        let mut v: Vec<char> = Vec::new();
        push_str(&mut v, "Failed to save temp file ");
        push_str(&mut v, path);
        push_str(&mut v, ": ");
        push_str(&mut v, detail);
        let context = string_from_chars(v.as_slice());
        CaptureError::new(CaptureErrorKind::StorageError).with_context(context.as_str())
    }

    /// The error for a size lookup of the file at `path` that failed after
    /// the write, with the failure's description `detail`.
    pub fn metadata_failure(path: &str, detail: &str) -> (r: StorageError)
        ensures
            r matches StorageError::DiskError(m) && m@ == "Failed to read metadata for "@ + path@
                + ": "@ + detail@,
    {
        let mut v: Vec<char> = Vec::new();
        push_str(&mut v, "Failed to read metadata for ");
        push_str(&mut v, path);
        push_str(&mut v, ": ");
        push_str(&mut v, detail);
        StorageError::DiskError(string_from_chars(v.as_slice()))
    }
}

} // verus!
