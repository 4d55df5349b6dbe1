mod models;

pub use models::{
    CaptureModeName, CapturePipelineState, CaptureResult, Region, invalid_scale_factor_error,
    lemma_wire_name_parses, mode_from_text, mode_wire_name, validate_monitor_dimensions,
};

use vstd::prelude::*;

verus! {

/// Whether a capture mode needs the selection overlay.
pub open spec fn mode_requires_overlay(mode: CaptureModeName) -> bool {
    mode != CaptureModeName::Fullscreen
}

/// A way of capturing the screen; each mode says whether the user selects
/// a region on an overlay before the capture is finalized.
pub trait CaptureMode {
    fn requires_overlay(&self) -> bool;
}

/// Captures the whole active monitor and saves it directly, without overlay.
pub struct FullscreenCapture;

impl CaptureMode for FullscreenCapture {
    fn requires_overlay(&self) -> (r: bool)
        ensures
            r == mode_requires_overlay(CaptureModeName::Fullscreen),
    {
        false
    }
}

/// Freezes the whole screen so that the user selects a region on the overlay.
pub struct AreaCapture;

impl CaptureMode for AreaCapture {
    fn requires_overlay(&self) -> (r: bool)
        ensures
            r == mode_requires_overlay(CaptureModeName::Area),
    {
        true
    }
}

/// Freezes the whole screen so that the overlay lists the windows to pick from.
pub struct WindowCapture;

impl CaptureMode for WindowCapture {
    fn requires_overlay(&self) -> (r: bool)
        ensures
            r == mode_requires_overlay(CaptureModeName::Window),
    {
        true
    }
}

impl CaptureModeName {
    /// Whether this mode needs the selection overlay, as its capture mode says.
    pub fn requires_overlay(self) -> (r: bool)
        ensures
            r == mode_requires_overlay(self),
    {
        match self {
            CaptureModeName::Fullscreen => FullscreenCapture.requires_overlay(),
            CaptureModeName::Area => AreaCapture.requires_overlay(),
            CaptureModeName::Window => WindowCapture.requires_overlay(),
        }
    }
}

} // verus!
