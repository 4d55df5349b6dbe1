use vstd::prelude::*;

use crate::error::{CaptureErrorKind, StructuredError, kind_error_with_context};
use crate::text::{
    concat2, eq_ignore_case, is_unicode_whitespace, matches_ignore_case, str_chars, trim, trim_chars,
    trim_end, trim_start,
};

verus! {

/// The capture modes offered to the user.
#[derive(Debug, Clone, Copy, PartialEq, Eq, Structural)]
pub enum CaptureModeName {
    Fullscreen,
    Window,
    Area,
}

/// The mode that a textual mode name selects: surrounding whitespace is
/// ignored and ASCII letters are compared without regard to case. For these
/// three words this is the same as comparing the text's Unicode lowercase
/// form: the only other character that lowercases to an ASCII letter is the
/// Kelvin sign, which lowercases to `k`.
pub open spec fn mode_from_text(value: Seq<char>) -> Option<CaptureModeName> {
    let t = trim(value);
    if matches_ignore_case(t, "fullscreen"@) {
        Some(CaptureModeName::Fullscreen)
    } else if matches_ignore_case(t, "window"@) {
        Some(CaptureModeName::Window)
    } else if matches_ignore_case(t, "area"@) {
        Some(CaptureModeName::Area)
    } else {
        None
    }
}

/// The lowercase name under which a mode travels over IPC.
pub open spec fn mode_wire_name(mode: CaptureModeName) -> Seq<char> {
    match mode {
        CaptureModeName::Fullscreen => "fullscreen"@,
        CaptureModeName::Window => "window"@,
        CaptureModeName::Area => "area"@,
    }
}

impl CaptureModeName {
    /// Parses a mode name; on an unknown name the error is
    /// `INVALID_CAPTURE_MODE` with context `mode=<value>`.
    pub fn parse(value: &str) -> (r: Result<Self, StructuredError>)
        ensures
            mode_from_text(value@) matches Some(m) ==> r == Ok::<Self, StructuredError>(m),
            mode_from_text(value@) is None ==> (r matches Err(e) && kind_error_with_context(
                e,
                CaptureErrorKind::InvalidCaptureMode,
                "mode="@ + value@,
            )),
    {
        let chars = str_chars(value);
        let t = trim_chars(&chars);
        if eq_ignore_case(&t, "fullscreen") {
            Ok(CaptureModeName::Fullscreen)
        } else if eq_ignore_case(&t, "window") {
            Ok(CaptureModeName::Window)
        } else if eq_ignore_case(&t, "area") {
            Ok(CaptureModeName::Area)
        } else {
            let context = concat2("mode=", value);
            Err(
                StructuredError::from_kind(CaptureErrorKind::InvalidCaptureMode).with_context(
                    context.as_str(),
                ),
            )
        }
    }
}

impl Default for CaptureModeName {
    fn default() -> (r: Self)
        ensures
            r == CaptureModeName::Area,
    {
        CaptureModeName::Area
    }
}

impl<'a> TryFrom<&'a str> for CaptureModeName {
    type Error = StructuredError;

    fn try_from(value: &'a str) -> (r: Result<Self, Self::Error>)
        ensures
            mode_from_text(value@) matches Some(m) ==> r == Ok::<Self, StructuredError>(m),
            mode_from_text(value@) is None ==> (r matches Err(e) && kind_error_with_context(
                e,
                CaptureErrorKind::InvalidCaptureMode,
                "mode="@ + value@,
            )),
    {
        Self::parse(value)
    }
}

impl<'a> vstd::std_specs::convert::TryFromSpecImpl<&'a str> for CaptureModeName {
    open spec fn obeys_try_from_spec() -> bool {
        false
    }

    open spec fn try_from_spec(v: &'a str) -> Result<Self, StructuredError> {
        arbitrary()
    }
}

/// The stages of the capture pipeline as reported to the frontend.
#[derive(Debug, Clone, Copy, PartialEq, Eq, Structural)]
pub enum CapturePipelineState {
    Idle,
    Capturing,
    FreezeReady,
    Selecting,
    Finalizing,
    Complete,
    Failed,
    Cancelled,
}

/// A rectangle selected on the frozen screen, in pixels.
#[derive(Debug, Clone, Copy, PartialEq, Eq, Structural)]
pub struct Region {
    pub x: u32,
    pub y: u32,
    pub width: u32,
    pub height: u32,
}

impl Region {
    /// Accepts the region when both dimensions are positive; otherwise the
    /// error is `INVALID_MODEL`.
    pub fn validate(self) -> (r: Result<Self, StructuredError>)
        ensures
            self.width > 0 && self.height > 0 ==> r == Ok::<Self, StructuredError>(self),
            !(self.width > 0 && self.height > 0) ==> (r matches Err(e) && kind_error_with_context(
                e,
                CaptureErrorKind::InvalidModel,
                "region width and height must be greater than zero"@,
            )),
    {
        if self.width == 0 || self.height == 0 {
            return Err(
                StructuredError::from_kind(CaptureErrorKind::InvalidModel).with_context(
                    "region width and height must be greater than zero",
                ),
            );
        }
        Ok(self)
    }
}

/// The integer part of checking a monitor description: both dimensions must
/// be positive, otherwise the error is `INVALID_MODEL`. (The monitor's scale
/// factor, a floating-point number, is checked by the host.)
pub fn validate_monitor_dimensions(width: u32, height: u32) -> (r: Result<(), StructuredError>)
    ensures
        width > 0 && height > 0 ==> r is Ok,
        !(width > 0 && height > 0) ==> (r matches Err(e) && kind_error_with_context(
            e,
            CaptureErrorKind::InvalidModel,
            "monitor width and height must be greater than zero"@,
        )),
{
    if width == 0 || height == 0 {
        return Err(
            StructuredError::from_kind(CaptureErrorKind::InvalidModel).with_context(
                "monitor width and height must be greater than zero",
            ),
        );
    }
    Ok(())
}

/// The error for a monitor whose scale factor is not a finite positive number.
pub fn invalid_scale_factor_error() -> (r: StructuredError)
    ensures
        kind_error_with_context(
            r,
            CaptureErrorKind::InvalidModel,
            "monitor scale_factor must be a finite positive number"@,
        ),
{
    StructuredError::from_kind(CaptureErrorKind::InvalidModel).with_context(
        "monitor scale_factor must be a finite positive number",
    )
}

/// What a finished capture reports to the frontend.
#[derive(Debug, Clone, PartialEq)]
pub struct CaptureResult {
    pub path: String,
    pub width: u32,
    pub height: u32,
    pub file_size: u64,
    pub is_black_warning: bool,
}

/// The wire name of every mode parses back to that mode.
pub proof fn lemma_wire_name_parses(mode: CaptureModeName)
    ensures
        mode_from_text(mode_wire_name(mode)) == Some(mode),
{
    reveal_strlit("fullscreen");
    reveal_strlit("window");
    reveal_strlit("area");
    let w = mode_wire_name(mode);
    assert(!is_unicode_whitespace(w[0]));
    assert(!is_unicode_whitespace(w.last()));
    assert(trim_start(w) == w);
    assert(trim_end(w) == w);
    assert(trim(w) == w);
    match mode {
        CaptureModeName::Fullscreen => {
            assert(matches_ignore_case(w, "fullscreen"@));
        },
        CaptureModeName::Window => {
            assert(!matches_ignore_case(w, "fullscreen"@));
            assert(matches_ignore_case(w, "window"@));
        },
        CaptureModeName::Area => {
            assert(!matches_ignore_case(w, "fullscreen"@));
            assert(!matches_ignore_case(w, "window"@));
            assert(matches_ignore_case(w, "area"@));
        },
    }
}

} // verus!
