//! The system clipboard: the errors of copying a capture to it. The copy
//! itself is the host application's part.

use vstd::prelude::*;

use crate::error::{CaptureError, CaptureErrorKind, kind_message, opt_view};
use crate::text::concat2;

verus! {

/// Copies captures to the system clipboard.
#[derive(Debug, Default)]
pub struct ClipboardManager;

impl ClipboardManager {
    /// The error when the clipboard lock is poisoned.
    pub fn poisoned_error() -> (r: CaptureError)
        ensures
            r.kind == CaptureErrorKind::ClipboardError,
            r.message@ == kind_message(CaptureErrorKind::ClipboardError),
            opt_view(r.context) == Some("Clipboard mutex poisoned — clipboard state is unrecoverable"@),
    {
        CaptureError::new(CaptureErrorKind::ClipboardError).with_context(
            "Clipboard mutex poisoned — clipboard state is unrecoverable",
        )
    }

    /// The error when the clipboard refuses the image, with the clipboard's
    /// own description `detail`.
    pub fn set_image_error(detail: &str) -> (r: CaptureError)
        ensures
            r.kind == CaptureErrorKind::ClipboardError,
            r.message@ == kind_message(CaptureErrorKind::ClipboardError),
            opt_view(r.context) == Some("arboard set_image failed: "@ + detail@),
    {
        let context = concat2("arboard set_image failed: ", detail);
        CaptureError::new(CaptureErrorKind::ClipboardError).with_context(context.as_str())
    }

    /// The error for any other clipboard failure, with its description `detail`.
    pub fn clipboard_error(detail: &str) -> (r: CaptureError)
        ensures
            r.kind == CaptureErrorKind::ClipboardError,
            r.message@ == kind_message(CaptureErrorKind::ClipboardError),
            opt_view(r.context) == Some("arboard error: "@ + detail@),
    {
        let context = concat2("arboard error: ", detail);
        CaptureError::new(CaptureErrorKind::ClipboardError).with_context(context.as_str())
    }
}

} // verus!
