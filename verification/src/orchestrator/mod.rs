//! The capture pipeline state machine:
//! `Idle → Capturing → FreezeReady → Selecting → Finalizing → Complete → Idle`,
//! with `Capturing → Finalizing` for the fullscreen mode, which needs no
//! overlay. Starting, finalizing and every step in between are decided here:
//! each step takes the outcome of what the host application did (captured a
//! frame, opened the overlay, listed the captures directory, saved the file,
//! or failed) and says what the host does next, down to what it cleans up
//! and reports when the capture ends. The host performs the screen capture,
//! the overlay window, the clipboard copy and the file writes in between.
use vstd::prelude::*;

use crate::capture::{CaptureModeName, CaptureResult, Region, mode_requires_overlay};
use crate::error::{
    CaptureErrorKind, StructuredError, kind_code, kind_error_with_context,
};
use crate::image_processor::{
    BlackImageDetector, CaptureInput, ImageProcessor, ProcessedCapture, RawImage,
    SelectionRegion, all_black, png_encoding, crop_bounds, selection_outcome, timestamp_text, image_process_error_text, none_black, possible_verdict, processed_as,
};
use crate::storage::{SavedFile, StorageError, storage_error_text};
use crate::text::{is_main_separator, push_str, string_from_chars, strings_view};

verus! {

/// The state of the capture pipeline, with the data that each stage carries.
pub enum CaptureState {
    /// Waiting for a capture trigger.
    Idle,
    /// The screen is being captured.
    Capturing { mode: CaptureModeName },
    /// The frozen frame is saved; the overlay is about to open.
    FreezeReady { temp_path: String, full_image: RawImage, is_potentially_black: bool },
    /// The overlay is open; the user is selecting.
    Selecting {
        temp_path: String,
        full_image: RawImage,
        mode: CaptureModeName,
        is_potentially_black: bool,
    },
    /// Cropping, copying to the clipboard and saving.
    Finalizing,
    /// The capture finished.
    Complete,
    /// The capture failed.
    Failed { error: StructuredError },
    /// The user cancelled the capture.
    Cancelled,
}

/// The name of a state.
pub open spec fn state_name(s: CaptureState) -> Seq<char> {
    match s {
        CaptureState::Idle => "Idle"@,
        CaptureState::Capturing { .. } => "Capturing"@,
        CaptureState::FreezeReady { .. } => "FreezeReady"@,
        CaptureState::Selecting { .. } => "Selecting"@,
        CaptureState::Finalizing => "Finalizing"@,
        CaptureState::Complete => "Complete"@,
        CaptureState::Failed { .. } => "Failed"@,
        CaptureState::Cancelled => "Cancelled"@,
    }
}

/// The transitions of the pipeline.
pub open spec fn valid_transition(from: CaptureState, to: CaptureState) -> bool {
    match (from, to) {
        (CaptureState::Idle, CaptureState::Capturing { .. }) => true,
        (CaptureState::Capturing { .. }, CaptureState::FreezeReady { .. }) => true,
        (CaptureState::Capturing { .. }, CaptureState::Finalizing) => true,
        (CaptureState::FreezeReady { .. }, CaptureState::Selecting { .. }) => true,
        (CaptureState::Selecting { .. }, CaptureState::Finalizing) => true,
        (CaptureState::Selecting { .. }, CaptureState::Idle) => true,
        (CaptureState::Finalizing, CaptureState::Complete) => true,
        (CaptureState::Finalizing, CaptureState::Failed { .. }) => true,
        (CaptureState::Complete, CaptureState::Idle) => true,
        (CaptureState::Failed { .. }, CaptureState::Idle) => true,
        (CaptureState::Cancelled, CaptureState::Idle) => true,
        _ => false,
    }
}

/// The state after attempting the transition from `from` to `to`: `to` when
/// it is allowed, `from` otherwise.
pub open spec fn attempt(from: CaptureState, to: CaptureState) -> CaptureState {
    if valid_transition(from, to) {
        to
    } else {
        from
    }
}

/// `e` is an `INVALID_STATE` error with the context `context`.
pub open spec fn invalid_state_error(e: StructuredError, context: Seq<char>) -> bool {
    kind_error_with_context(e, CaptureErrorKind::InvalidState, context)
}

impl CaptureState {
    /// The name of this state.
    pub fn name(&self) -> (r: &'static str)
        ensures
            r@ == state_name(*self),
    {
        match self {
            CaptureState::Idle => "Idle",
            CaptureState::Capturing { .. } => "Capturing",
            CaptureState::FreezeReady { .. } => "FreezeReady",
            CaptureState::Selecting { .. } => "Selecting",
            CaptureState::Finalizing => "Finalizing",
            CaptureState::Complete => "Complete",
            CaptureState::Failed { .. } => "Failed",
            CaptureState::Cancelled => "Cancelled",
        }
    }
}

/// Which capture of the black-frame retry loop is asked for.
#[derive(Debug, Clone, Copy, PartialEq, Eq, Structural)]
pub enum CaptureAttempt {
    /// The first capture.
    Initial,
    /// A capture after a short pause, because the previous one was black.
    Retry,
    /// The last capture, after hiding the application's main window.
    Fallback,
}

/// The attempt that the `i`-th capture of the black-frame loop (from 0) is:
/// the initial one, then two retries, then the fallback.
pub open spec fn attempt_at(i: int) -> CaptureAttempt {
    if i == 0 {
        CaptureAttempt::Initial
    } else if i < 3 {
        CaptureAttempt::Retry
    } else {
        CaptureAttempt::Fallback
    }
}

/// `frames` are frames that `capture_fn` returned for the successive
/// attempts of the black-frame loop, and `verdicts` the verdicts that the
/// black-frame check reached on them, every one but the last black.
pub open spec fn retry_trace<F: Fn(CaptureAttempt) -> Result<RawImage, StructuredError>>(
    capture_fn: F,
    frames: Seq<RawImage>,
    verdicts: Seq<bool>,
) -> bool {
    &&& frames.len() <= 4
    &&& verdicts.len() == frames.len()
    &&& forall|i: int| 0 <= i < frames.len() ==> capture_fn.ensures(
        (attempt_at(i),),
        Ok::<RawImage, StructuredError>(#[trigger] frames[i]),
    )
    &&& forall|i: int| 0 <= i < frames.len() ==> possible_verdict(#[trigger] frames[i]@, verdicts[i])
    &&& forall|i: int| 0 <= i < frames.len() - 1 ==> #[trigger] verdicts[i]
}

/// What the pipeline asks the host application to do next. The host performs
/// the step and reports its outcome to [`CaptureOrchestrator::on_event`].
pub enum HostAction {
    /// Find the active monitor and capture it through
    /// [`CaptureOrchestrator::capture_with_black_image_retry`]; when
    /// `keep_frozen_frame`, save the captured frame as the frozen frame. Report
    /// `FrameCaptured`, or `StepFailed` when the monitor or the capture failed.
    CaptureFrame { mode: CaptureModeName, keep_frozen_frame: bool },
    /// Open the selection overlay over the monitor; report `OverlayOpened`,
    /// or `StepFailed`.
    OpenOverlay,
    /// Keep and announce the frozen frame at `temp_path` to the overlay;
    /// report `FreezeAnnounced`, or `StepFailed`.
    AnnounceFreeze { temp_path: String },
    /// List the captures directory; report `CapturesDirListed`.
    ListCapturesDir,
    /// Copy the capture to the clipboard (a failure there is only logged) and
    /// save its file; report `FileSaved`, or `StepFailed` when the save could
    /// not run at all.
    CopyAndSave { processed: ProcessedCapture },
    /// The overlay is open and the user is selecting: starting is done.
    AwaitSelection,
    /// The capture is complete: delete the frozen frame file if there is one,
    /// close the overlay, forget the announcement and report `result`.
    Complete { result: CaptureResult, temp_path: Option<String> },
    /// The step failed: delete the frozen frame file if there is one, close
    /// the overlay, report `error` to the frontend when `report`, and give it
    /// back to the caller.
    Abort { error: StructuredError, temp_path: Option<String>, report: bool },
    /// The event was not expected now and changed nothing.
    Ignore,
}

/// The outcome of a step that the host performed.
pub enum HostEvent {
    /// The frame was captured; for a mode with overlay, `frozen_frame` is
    /// where the frozen frame was saved, or why it could not be.
    FrameCaptured {
        image: RawImage,
        is_potentially_black: bool,
        frozen_frame: Option<Result<String, StructuredError>>,
    },
    /// The overlay window is open.
    OverlayOpened,
    /// The frozen frame was announced to the overlay.
    FreezeAnnounced,
    /// The captures directory (or the text of the error resolving it) and the
    /// names already in it.
    CapturesDirListed { target_dir: Result<String, String>, existing: Vec<String> },
    /// The outcome of saving the capture file.
    FileSaved { saved: Result<SavedFile, StorageError> },
    /// The step failed with `error`.
    StepFailed { error: StructuredError },
}

/// Where a capture stands within its current state, with what the next
/// step needs.
pub enum Progress {
    /// Nothing is pending.
    Nothing,
    /// The frozen frame awaits its overlay in `mode`; `opened` once the
    /// overlay is open.
    Overlay { mode: CaptureModeName, opened: bool },
    /// The capture awaits the captures directory to be processed.
    Processing { input: CaptureInput, temp_path: Option<String> },
    /// The capture file is being saved.
    Saving { width: u32, height: u32, is_black_warning: bool, temp_path: Option<String> },
}

/// The central state machine of the capture pipeline.
pub struct CaptureOrchestrator {
    pub state: CaptureState,
    pub progress: Progress,
}

/// The selected region clamped to an image of `width` x `height` pixels:
/// its corner moved inside the image and its size cut to what remains.
pub open spec fn clamped(region: Region, width: u32, height: u32) -> SelectionRegion {
    let b = crop_bounds(
        width as nat,
        height as nat,
        region.x as nat,
        region.y as nat,
        region.width as nat,
        region.height as nat,
    );
    SelectionRegion { x: b.0 as u32, y: b.1 as u32, width: b.2 as u32, height: b.3 as u32 }
}

/// `e` is the error reported for an image processing failure `ie`.
pub open spec fn processing_error(e: StructuredError, ie: crate::image_processor::ImageProcessError) -> bool {
    kind_error_with_context(e, CaptureErrorKind::ImageProcessingError, image_process_error_text(ie))
}

/// `e` is the error reported for a storage failure `se`.
pub open spec fn storage_failure(e: StructuredError, se: StorageError) -> bool {
    kind_error_with_context(e, CaptureErrorKind::StorageError, storage_error_text(se))
}

impl CaptureOrchestrator {
    pub fn new() -> (r: Self)
        ensures
            r.state is Idle,
            r.progress is Nothing,
    {
        CaptureOrchestrator { state: CaptureState::Idle, progress: Progress::Nothing }
    }

    pub fn current_state_name(&self) -> (r: &'static str)
        ensures
            r@ == state_name(self.state),
    {
        self.state.name()
    }

    /// Whether the pipeline may go from `from` to `to`.
    pub fn is_valid_transition(from: &CaptureState, to: &CaptureState) -> (r: bool)
        ensures
            r == valid_transition(*from, *to),
    {
        match (from, to) {
            (CaptureState::Idle, CaptureState::Capturing { .. }) => true,
            (CaptureState::Capturing { .. }, CaptureState::FreezeReady { .. }) => true,
            (CaptureState::Capturing { .. }, CaptureState::Finalizing) => true,
            (CaptureState::FreezeReady { .. }, CaptureState::Selecting { .. }) => true,
            (CaptureState::Selecting { .. }, CaptureState::Finalizing) => true,
            (CaptureState::Selecting { .. }, CaptureState::Idle) => true,
            (CaptureState::Finalizing, CaptureState::Complete) => true,
            (CaptureState::Finalizing, CaptureState::Failed { .. }) => true,
            (CaptureState::Complete, CaptureState::Idle) => true,
            (CaptureState::Failed { .. }, CaptureState::Idle) => true,
            (CaptureState::Cancelled, CaptureState::Idle) => true,
            _ => false,
        }
    }

    /// Moves to `new_state` when the transition is allowed; otherwise the
    /// state is kept and the error is `INVALID_STATE` naming both states.
    pub fn transition(&mut self, new_state: CaptureState) -> (r: Result<(), StructuredError>)
        ensures
            final(self).progress == old(self).progress,
            valid_transition(old(self).state, new_state) ==> r is Ok && final(self).state
                == new_state,
            !valid_transition(old(self).state, new_state) ==> final(self).state == old(
                self,
            ).state && (r matches Err(e) && invalid_state_error(
                e,
                "transition "@ + state_name(old(self).state) + " → "@ + state_name(new_state)
                    + " is invalid"@,
            )),
    {
        if !Self::is_valid_transition(&self.state, &new_state) {
            let mut v: Vec<char> = Vec::new();
            push_str(&mut v, "transition ");
            push_str(&mut v, self.state.name());
            push_str(&mut v, " → ");
            push_str(&mut v, new_state.name());
            push_str(&mut v, " is invalid");
            let context = string_from_chars(v.as_slice());
            return Err(
                StructuredError::from_kind(CaptureErrorKind::InvalidState).with_context(
                    context.as_str(),
                ),
            );
        }
        self.state = new_state;
        Ok(())
    }

    /// The error of a failed save: `STORAGE_ERROR` with the storage error's
    /// text as context.
    pub fn storage_err(e: StorageError) -> (r: StructuredError)
        ensures
            storage_failure(r, e),
    {
        let text = e.to_string();
        StructuredError::from_kind(CaptureErrorKind::StorageError).with_context(text.as_str())
    }

    /// The monitor to capture: the first one listed, or `MONITOR_NOT_FOUND`
    /// when none is.
    pub fn first_monitor<T>(monitors: Vec<T>) -> (r: Result<T, StructuredError>)
        ensures
            monitors@.len() > 0 ==> r == Ok::<T, StructuredError>(monitors@[0]),
            monitors@.len() == 0 ==> (r matches Err(e) && kind_error_with_context(
                e,
                CaptureErrorKind::MonitorNotFound,
                "No monitors detected"@,
            )),
    {
        let mut monitors = monitors;
        if monitors.len() == 0 {
            return Err(
                StructuredError::from_kind(CaptureErrorKind::MonitorNotFound).with_context(
                    "No monitors detected",
                ),
            );
        }
        Ok(monitors.remove(0))
    }

    /// The error of a failed monitor query such as `monitor.x()`: a
    /// `MONITOR_NOT_FOUND` naming the query, with the failure's description.
    pub fn monitor_query_error(query: &str, detail: &str) -> (r: StructuredError)
        ensures
            kind_error_with_context(
                r,
                CaptureErrorKind::MonitorNotFound,
                query@ + " failed: "@ + detail@,
            ),
    {
        let mut v: Vec<char> = Vec::new();
        push_str(&mut v, query);
        push_str(&mut v, " failed: ");
        push_str(&mut v, detail);
        let context = string_from_chars(v.as_slice());
        StructuredError::from_kind(CaptureErrorKind::MonitorNotFound).with_context(context.as_str())
    }

    /// Returns the pipeline to `Idle`, as every failed or abandoned step does.
    pub fn reset_to_idle(&mut self)
        ensures
            final(self).state is Idle,
            final(self).progress == old(self).progress,
    {
        self.state = CaptureState::Idle;
    }

    fn called_in_state_error(prefix: &str, state: &CaptureState) -> (r: StructuredError)
        ensures
            invalid_state_error(r, prefix@ + state_name(*state)),
    {
        let mut v: Vec<char> = Vec::new();
        push_str(&mut v, prefix);
        push_str(&mut v, state.name());
        let context = string_from_chars(v.as_slice());
        StructuredError::from_kind(CaptureErrorKind::InvalidState).with_context(context.as_str())
    }

    /// Starts a capture in `mode`: allowed only when `Idle`, and then the
    /// pipeline is `Capturing`.
    pub fn start_capture(&mut self, mode: CaptureModeName) -> (r: Result<HostAction, StructuredError>)
        ensures
            old(self).state is Idle ==> final(self).state == (CaptureState::Capturing { mode })
                && final(self).progress is Nothing && r == Ok::<HostAction, StructuredError>(
                HostAction::CaptureFrame { mode, keep_frozen_frame: mode_requires_overlay(mode) },
            ),
            !(old(self).state is Idle) ==> final(self).state == old(self).state
                && final(self).progress == old(self).progress && (r matches Err(e)
                && invalid_state_error(e, "start_capture called in state="@ + state_name(old(self).state))),
    {
        if !matches!(self.state, CaptureState::Idle) {
            return Err(Self::called_in_state_error("start_capture called in state=", &self.state));
        }
        self.state = CaptureState::Capturing { mode };
        self.progress = Progress::Nothing;
        Ok(HostAction::CaptureFrame { mode, keep_frozen_frame: mode.requires_overlay() })
    }

    /// Captures until a frame is judged not black: the initial capture, then
    /// after each black one a retry, at most two, and then a last fallback
    /// capture (the host hides its main window first), whose frame is kept
    /// and flagged when it is judged black too. The first frame judged not
    /// black is returned unflagged. The first capture error ends the loop.
    pub fn capture_with_black_image_retry<F: Fn(CaptureAttempt) -> Result<RawImage, StructuredError>>(
        &self,
        capture_fn: F,
    ) -> (r: Result<(RawImage, bool), StructuredError>)
        requires
            forall|a: CaptureAttempt| #[trigger] capture_fn.requires((a,)),
        ensures
            r matches Ok((img, black)) ==> exists|frames: Seq<RawImage>, verdicts: Seq<bool>|
                #[trigger] retry_trace(capture_fn, frames, verdicts) && {
                    &&& 1 <= frames.len() <= 4
                    &&& frames.len() < 4 ==> !verdicts.last()
                    &&& img == frames.last()
                    &&& black == (frames.len() == 4 && verdicts.last())
                },
            r matches Err(e) ==> exists|frames: Seq<RawImage>, verdicts: Seq<bool>|
                #[trigger] retry_trace(capture_fn, frames, verdicts) && {
                    &&& frames.len() < 4
                    &&& forall|i: int| 0 <= i < verdicts.len() ==> #[trigger] verdicts[i]
                    &&& capture_fn.ensures(
                        (attempt_at(frames.len() as int),),
                        Err::<RawImage, StructuredError>(e),
                    )
                },
            r matches Ok((img, black)) ==> (black ==> !none_black(img@)) && (!black ==> !all_black(img@)),
    {
        let ghost mut frames: Seq<RawImage> = Seq::empty();
        let ghost mut verdicts: Seq<bool> = Seq::empty();
        let first = capture_fn(CaptureAttempt::Initial);
        let mut image = match first {
            Ok(i) => i,
            Err(e) => {
                assert(retry_trace(capture_fn, frames, verdicts));
                return Err(e);
            },
        };
        proof {
            frames = frames.push(image);
        }
        let mut retry_count: u32 = 0;
        loop
            invariant
                retry_count <= 2,
                forall|a: CaptureAttempt| #[trigger] capture_fn.requires((a,)),
                frames.len() == retry_count + 1,
                verdicts.len() == retry_count,
                frames.last() == image,
                forall|i: int| 0 <= i < verdicts.len() ==> #[trigger] verdicts[i],
                forall|i: int| 0 <= i < verdicts.len() ==> possible_verdict(#[trigger] frames[i]@, true),
                forall|i: int| 0 <= i < frames.len() ==> capture_fn.ensures(
                    (attempt_at(i),),
                    Ok::<RawImage, StructuredError>(#[trigger] frames[i]),
                ),
            decreases 3 - retry_count,
        {
            let detection = BlackImageDetector::check(&image);
            proof {
                verdicts = verdicts.push(detection.is_black);
            }
            if !detection.is_black {
                assert(retry_trace(capture_fn, frames, verdicts));
                return Ok((image, false));
            }
            if retry_count < 2 {
                retry_count += 1;
                match capture_fn(CaptureAttempt::Retry) {
                    Ok(i) => {
                        image = i;
                        proof {
                            frames = frames.push(image);
                        }
                    },
                    Err(e) => {
                        assert(retry_trace(capture_fn, frames, verdicts));
                        return Err(e);
                    },
                }
            } else {
                let fallback = match capture_fn(CaptureAttempt::Fallback) {
                    Ok(i) => i,
                    Err(e) => {
                        assert(retry_trace(capture_fn, frames, verdicts));
                        return Err(e);
                    },
                };
                let final_detection = BlackImageDetector::check(&fallback);
                proof {
                    frames = frames.push(fallback);
                    verdicts = verdicts.push(final_detection.is_black);
                }
                assert(retry_trace(capture_fn, frames, verdicts));
                return Ok((fallback, final_detection.is_black));
            }
        }
    }

    /// From `FreezeReady`, opens the selection in `mode` with the frozen
    /// frame; from any other state the attempted transition is refused.
    pub fn enter_selecting(&mut self, mode: CaptureModeName) -> (r: Result<(), StructuredError>)
        ensures
            final(self).progress == old(self).progress,
            match old(self).state {
                CaptureState::FreezeReady { temp_path, full_image, is_potentially_black } => r is Ok
                    && final(self).state == (CaptureState::Selecting {
                    temp_path,
                    full_image,
                    mode,
                    is_potentially_black,
                }),
                _ => final(self).state == old(self).state && (r matches Err(e) && invalid_state_error(
                    e,
                    "transition "@ + state_name(old(self).state) + " → Selecting is invalid"@,
                )),
            },
    {
        if !matches!(self.state, CaptureState::FreezeReady { .. }) {
            let mut v: Vec<char> = Vec::new();
            push_str(&mut v, "transition ");
            push_str(&mut v, self.state.name());
            push_str(&mut v, " → Selecting is invalid");
            let context = string_from_chars(v.as_slice());
            assert(context@ =~= "transition "@ + state_name(self.state) + " → Selecting is invalid"@);
            return Err(
                StructuredError::from_kind(CaptureErrorKind::InvalidState).with_context(
                    context.as_str(),
                ),
            );
        }
        let mut current = CaptureState::Idle;
        std::mem::swap(&mut current, &mut self.state);
        match current {
            CaptureState::FreezeReady { temp_path, full_image, is_potentially_black } => {
                self.state = CaptureState::Selecting { temp_path, full_image, mode, is_potentially_black };
                Ok(())
            },
            other => {
                self.state = other;
                Err(StructuredError::internal("enter_selecting lost the frozen frame"))
            },
        }
    }

    /// The selected region clamped to an image of `width` x `height` pixels.
    pub fn clamp_region(region: Region, width: u32, height: u32) -> (r: SelectionRegion)
        ensures
            r == clamped(region, width, height),
    {
        let x = if region.x <= width { region.x } else { width };
        let y = if region.y <= height { region.y } else { height };
        let w = if region.width <= width - x { region.width } else { width - x };
        let h = if region.height <= height - y { region.height } else { height - y };
        SelectionRegion { x, y, width: w, height: h }
    }

    /// Starts finalizing with the region the user selected: allowed only while
    /// `Selecting` and with a region of positive size. In area mode the region
    /// is clamped to the frozen frame; a selection that cannot be cut out
    /// fails the capture at once (back to `Idle`, aborting with the
    /// processing error). Otherwise the pipeline is `Finalizing` with the
    /// frozen frame to process, and the host is asked for the captures
    /// directory.
    pub fn finalize_capture(&mut self, region: Region) -> (r: Result<HostAction, StructuredError>)
        ensures
            match old(self).state {
                CaptureState::Selecting { temp_path, full_image, mode, is_potentially_black } => if region.width
                    > 0 && region.height > 0 {
                    match selection_outcome(
                        full_image@,
                        mode,
                        if mode == CaptureModeName::Area {
                            Some(clamped(region, full_image@.0, full_image@.1))
                        } else {
                            None
                        },
                    ) {
                    Err(m) => {
                        &&& final(self).state is Idle
                        &&& final(self).progress is Nothing
                        &&& r matches Ok(HostAction::Abort { error, temp_path: t, report: true })
                        &&& t == Some(temp_path)
                        &&& kind_error_with_context(
                            error,
                            CaptureErrorKind::ImageProcessingError,
                            "Failed to crop image: "@ + m,
                        )
                    },
                    Ok(_) => {
                    &&& final(self).state is Finalizing
                    &&& r == Ok::<HostAction, StructuredError>(HostAction::ListCapturesDir)
                    &&& final(self).progress == (Progress::Processing {
                        input: CaptureInput {
                            image: full_image,
                            mode,
                            selection: if mode == CaptureModeName::Area {
                                Some(clamped(region, full_image@.0, full_image@.1))
                            } else {
                                None
                            },
                            is_potentially_black,
                        },
                        temp_path: Some(temp_path),
                    })
                    },
                    }
                } else {
                    final(self).state == old(self).state && final(self).progress == old(self).progress
                        && (r matches Err(e) && kind_error_with_context(
                        e,
                        CaptureErrorKind::InvalidModel,
                        "region width and height must be greater than zero"@,
                    ))
                },
                _ => final(self).state == old(self).state && final(self).progress == old(self).progress
                    && (r matches Err(e) && invalid_state_error(
                    e,
                    "finalize_capture called in state="@ + state_name(old(self).state),
                )),
            },
    {
        if !matches!(self.state, CaptureState::Selecting { .. }) {
            return Err(Self::called_in_state_error("finalize_capture called in state=", &self.state));
        }
        match region.validate() {
            Ok(_) => {},
            Err(e) => {
                return Err(e);
            },
        }
        let mut current = CaptureState::Finalizing;
        std::mem::swap(&mut current, &mut self.state);
        match current {
            CaptureState::Selecting { temp_path, full_image, mode, is_potentially_black } => {
                let selection = match mode {
                    CaptureModeName::Area => Some(
                        Self::clamp_region(region, full_image.width(), full_image.height()),
                    ),
                    _ => None,
                };
                let input = CaptureInput { image: full_image, mode, selection, is_potentially_black };
                match ImageProcessor::select(&input) {
                    Ok(_) => {},
                    Err(ie) => {
                        let text = ie.to_string();
                        let error = StructuredError::from_kind(CaptureErrorKind::ImageProcessingError)
                            .with_context(text.as_str());
                        let _ = self.transition(CaptureState::Failed { error: error.duplicate() });
                        self.state = CaptureState::Idle;
                        self.progress = Progress::Nothing;
                        return Ok(HostAction::Abort { error, temp_path: Some(temp_path), report: true });
                    },
                }
                self.progress = Progress::Processing { input, temp_path: Some(temp_path) };
                Ok(HostAction::ListCapturesDir)
            },
            other => {
                self.state = other;
                Err(StructuredError::internal("finalize_capture lost the selection state"))
            },
        }
    }

    /// Processes the image of a capture being finalized. On failure the error
    /// is `IMAGE_PROCESSING_ERROR` with the processing error's text, and the
    /// pipeline goes through `Failed` back to `Idle`; on success the state is kept.
    pub fn process_capture(
        &mut self,
        input: CaptureInput,
        target_dir: Result<String, String>,
        existing: &Vec<String>,
    ) -> (r: Result<ProcessedCapture, StructuredError>)
        ensures
            exists|timestamp: Seq<char>, sep: char, pr: Result<ProcessedCapture, crate::image_processor::ImageProcessError>|
                timestamp_text(timestamp) && is_main_separator(sep) && #[trigger] processed_as(
                    input,
                    target_dir,
                    strings_view(existing@),
                    timestamp,
                    sep,
                    pr,
                ) && match pr {
                    Ok(p) => r == Ok::<ProcessedCapture, StructuredError>(p),
                    Err(ie) => r matches Err(e) && processing_error(e, ie),
                },
            final(self).progress == old(self).progress,
            r is Ok ==> final(self).state == old(self).state,
            r is Err ==> final(self).state is Idle,
            r matches Ok(p) ==> png_encoding(p.width, p.height, p.rgba_bytes@) == Some(p.png_bytes@),
    {
        let processed = ImageProcessor::process(input, target_dir, existing);
        match processed {
            Ok(p) => Ok(p),
            Err(ie) => {
                let text = ie.to_string();
                let error = StructuredError::from_kind(CaptureErrorKind::ImageProcessingError).with_context(
                    text.as_str(),
                );
                let _ = self.transition(CaptureState::Failed { error: error.duplicate() });
                self.state = CaptureState::Idle;
                Err(error)
            },
        }
    }

    /// Concludes a capture with the outcome of saving its file. A saved file
    /// gives the capture result and the pipeline passes `Complete` and returns
    /// to `Idle`; a failed save is a `STORAGE_ERROR` and the pipeline passes
    /// `Failed` and ends `Idle`.
    pub fn complete_capture(
        &mut self,
        saved: Result<SavedFile, StorageError>,
        width: u32,
        height: u32,
        is_black_warning: bool,
    ) -> (r: Result<CaptureResult, StructuredError>)
        ensures
            saved matches Ok(s) ==> (r matches Ok(c) && c.path == s.path && c.file_size == s.file_size
                && c.width == width && c.height == height && c.is_black_warning == is_black_warning)
                && final(self).state == attempt(attempt(old(self).state, CaptureState::Complete), CaptureState::Idle),
            saved matches Err(se) ==> (r matches Err(e) && storage_failure(e, se)) && final(self).state is Idle,
            final(self).progress == old(self).progress,
    {
        match saved {
            Ok(s) => {
                let result = CaptureResult {
                    path: s.path,
                    width,
                    height,
                    file_size: s.file_size,
                    is_black_warning,
                };
                let _ = self.transition(CaptureState::Complete);
                let _ = self.transition(CaptureState::Idle);
                Ok(result)
            },
            Err(se) => {
                let error = Self::storage_err(se);
                let _ = self.transition(CaptureState::Failed { error: error.duplicate() });
                self.state = CaptureState::Idle;
                Err(error)
            },
        }
    }

    /// Takes the pipeline one step on with the outcome of the step the host
    /// performed, and says what the host does next. A failed step, or a
    /// failed processing or save, returns the pipeline to `Idle` and aborts
    /// with the error, handing back the frozen frame file to delete; only a
    /// failed announcement of the frozen frame leaves the pipeline as it was
    /// and is not reported. An event that the current step does not expect
    /// changes nothing.
    pub fn on_event(&mut self, event: HostEvent) -> (action: HostAction)
        ensures
            action matches HostAction::CopyAndSave { processed } ==> png_encoding(
                processed.width,
                processed.height,
                processed.rgba_bytes@,
            ) == Some(processed.png_bytes@),
            match (old(self).state, old(self).progress, event) {
                (CaptureState::Capturing { mode }, _, HostEvent::StepFailed { error }) => {
                    &&& final(self).state is Idle
                    &&& final(self).progress is Nothing
                    &&& action == (HostAction::Abort { error, temp_path: None, report: true })
                },
                (
                    CaptureState::Capturing { mode },
                    _,
                    HostEvent::FrameCaptured { image, is_potentially_black, frozen_frame },
                ) => if !mode_requires_overlay(mode) {
                    &&& final(self).state is Finalizing
                    &&& final(self).progress == (Progress::Processing {
                        input: CaptureInput { image, mode, selection: None, is_potentially_black },
                        temp_path: None,
                    })
                    &&& action is ListCapturesDir
                } else {
                    match frozen_frame {
                        Some(Ok(temp_path)) => {
                            &&& final(self).state == (CaptureState::FreezeReady {
                                temp_path,
                                full_image: image,
                                is_potentially_black,
                            })
                            &&& final(self).progress == (Progress::Overlay { mode, opened: false })
                            &&& action is OpenOverlay
                        },
                        Some(Err(error)) => {
                            &&& final(self).state is Idle
                            &&& final(self).progress is Nothing
                            &&& action == (HostAction::Abort { error, temp_path: None, report: true })
                        },
                        None => {
                            &&& final(self).state is Idle
                            &&& final(self).progress is Nothing
                            &&& action matches HostAction::Abort { error, temp_path: None, report: true }
                            &&& error.code@ == kind_code(CaptureErrorKind::InternalError)
                        },
                    }
                },
                (
                    CaptureState::FreezeReady { temp_path, full_image, is_potentially_black },
                    Progress::Overlay { mode, opened: false },
                    HostEvent::OverlayOpened,
                ) => {
                    &&& final(self).state == old(self).state
                    &&& final(self).progress == (Progress::Overlay { mode, opened: true })
                    &&& action == (HostAction::AnnounceFreeze { temp_path })
                },
                (
                    CaptureState::FreezeReady { temp_path, .. },
                    Progress::Overlay { opened: false, .. },
                    HostEvent::StepFailed { error },
                ) => {
                    &&& final(self).state is Idle
                    &&& final(self).progress is Nothing
                    &&& action == (HostAction::Abort { error, temp_path: Some(temp_path), report: true })
                },
                (
                    CaptureState::FreezeReady { temp_path, full_image, is_potentially_black },
                    Progress::Overlay { mode, opened: true },
                    HostEvent::FreezeAnnounced,
                ) => {
                    &&& final(self).state == (CaptureState::Selecting {
                        temp_path,
                        full_image,
                        mode,
                        is_potentially_black,
                    })
                    &&& final(self).progress is Nothing
                    &&& action is AwaitSelection
                },
                (
                    CaptureState::FreezeReady { .. },
                    Progress::Overlay { opened: true, .. },
                    HostEvent::StepFailed { error },
                ) => {
                    &&& final(self).state == old(self).state
                    &&& final(self).progress == old(self).progress
                    &&& action == (HostAction::Abort { error, temp_path: None, report: false })
                },
                (
                    CaptureState::Finalizing,
                    Progress::Processing { input, temp_path },
                    HostEvent::CapturesDirListed { target_dir, existing },
                ) => exists|timestamp: Seq<char>, sep: char, pr: Result<ProcessedCapture, crate::image_processor::ImageProcessError>|
                    timestamp_text(timestamp) && is_main_separator(sep) && #[trigger] processed_as(
                        input,
                        target_dir,
                        strings_view(existing@),
                        timestamp,
                        sep,
                        pr,
                    ) && match pr {
                        Ok(p) => {
                            &&& final(self).state is Finalizing
                            &&& final(self).progress == (Progress::Saving {
                                width: p.width,
                                height: p.height,
                                is_black_warning: p.is_black_warning,
                                temp_path,
                            })
                            &&& action == (HostAction::CopyAndSave { processed: p })
                        },
                        Err(ie) => {
                            &&& final(self).state is Idle
                            &&& final(self).progress is Nothing
                            &&& action matches HostAction::Abort { error, temp_path: t, report: true }
                            &&& t == temp_path
                            &&& processing_error(error, ie)
                        },
                    },
                (
                    CaptureState::Finalizing,
                    Progress::Saving { width, height, is_black_warning, temp_path },
                    HostEvent::FileSaved { saved },
                ) => {
                    &&& final(self).state is Idle
                    &&& final(self).progress is Nothing
                    &&& match saved {
                        Ok(s) => action == (HostAction::Complete {
                            result: CaptureResult {
                                path: s.path,
                                width,
                                height,
                                file_size: s.file_size,
                                is_black_warning,
                            },
                            temp_path,
                        }),
                        Err(se) => action matches HostAction::Abort { error, temp_path: t, report: true }
                            && t == temp_path && storage_failure(error, se),
                    }
                },
                (CaptureState::Finalizing, Progress::Processing { temp_path, .. }, HostEvent::StepFailed { error })
                | (CaptureState::Finalizing, Progress::Saving { temp_path, .. }, HostEvent::StepFailed { error }) => {
                    &&& final(self).state is Idle
                    &&& final(self).progress is Nothing
                    &&& action == (HostAction::Abort { error, temp_path, report: true })
                },
                _ => {
                    &&& final(self).state == old(self).state
                    &&& final(self).progress == old(self).progress
                    &&& action is Ignore
                },
            },
    {
        let mut state = CaptureState::Idle;
        std::mem::swap(&mut state, &mut self.state);
        let mut progress = Progress::Nothing;
        std::mem::swap(&mut progress, &mut self.progress);
        match (state, progress, event) {
            (CaptureState::Capturing { mode }, _, HostEvent::StepFailed { error }) => {
                HostAction::Abort { error, temp_path: None, report: true }
            },
            (
                CaptureState::Capturing { mode },
                _,
                HostEvent::FrameCaptured { image, is_potentially_black, frozen_frame },
            ) => {
                if !mode.requires_overlay() {
                    self.state = CaptureState::Finalizing;
                    self.progress = Progress::Processing {
                        input: CaptureInput { image, mode, selection: None, is_potentially_black },
                        temp_path: None,
                    };
                    HostAction::ListCapturesDir
                } else {
                    match frozen_frame {
                        Some(Ok(temp_path)) => {
                            self.state = CaptureState::FreezeReady {
                                temp_path,
                                full_image: image,
                                is_potentially_black,
                            };
                            self.progress = Progress::Overlay { mode, opened: false };
                            HostAction::OpenOverlay
                        },
                        Some(Err(error)) => HostAction::Abort { error, temp_path: None, report: true },
                        None => HostAction::Abort {
                            error: StructuredError::internal("the frozen frame was not saved"),
                            temp_path: None,
                            report: true,
                        },
                    }
                }
            },
            (
                CaptureState::FreezeReady { temp_path, full_image, is_potentially_black },
                Progress::Overlay { mode, opened: false },
                HostEvent::OverlayOpened,
            ) => {
                let announced = temp_path.clone();
                self.state = CaptureState::FreezeReady { temp_path, full_image, is_potentially_black };
                self.progress = Progress::Overlay { mode, opened: true };
                HostAction::AnnounceFreeze { temp_path: announced }
            },
            (
                CaptureState::FreezeReady { temp_path, .. },
                Progress::Overlay { opened: false, .. },
                HostEvent::StepFailed { error },
            ) => {
                HostAction::Abort { error, temp_path: Some(temp_path), report: true }
            },
            (
                CaptureState::FreezeReady { temp_path, full_image, is_potentially_black },
                Progress::Overlay { mode, opened: true },
                HostEvent::FreezeAnnounced,
            ) => {
                self.state = CaptureState::Selecting { temp_path, full_image, mode, is_potentially_black };
                HostAction::AwaitSelection
            },
            (
                CaptureState::FreezeReady { temp_path, full_image, is_potentially_black },
                Progress::Overlay { mode, opened: true },
                HostEvent::StepFailed { error },
            ) => {
                self.state = CaptureState::FreezeReady { temp_path, full_image, is_potentially_black };
                self.progress = Progress::Overlay { mode, opened: true };
                HostAction::Abort { error, temp_path: None, report: false }
            },
            (
                CaptureState::Finalizing,
                Progress::Processing { input, temp_path },
                HostEvent::CapturesDirListed { target_dir, existing },
            ) => {
                self.state = CaptureState::Finalizing;
                match self.process_capture(input, target_dir, &existing) {
                    Ok(p) => {
                        self.progress = Progress::Saving {
                            width: p.width,
                            height: p.height,
                            is_black_warning: p.is_black_warning,
                            temp_path,
                        };
                        HostAction::CopyAndSave { processed: p }
                    },
                    Err(error) => HostAction::Abort { error, temp_path, report: true },
                }
            },
            (
                CaptureState::Finalizing,
                Progress::Saving { width, height, is_black_warning, temp_path },
                HostEvent::FileSaved { saved },
            ) => {
                self.state = CaptureState::Finalizing;
                match self.complete_capture(saved, width, height, is_black_warning) {
                    Ok(result) => HostAction::Complete { result, temp_path },
                    Err(error) => HostAction::Abort { error, temp_path, report: true },
                }
            },
            (CaptureState::Finalizing, Progress::Processing { temp_path, .. }, HostEvent::StepFailed { error }) => {
                HostAction::Abort { error, temp_path, report: true }
            },
            (CaptureState::Finalizing, Progress::Saving { temp_path, .. }, HostEvent::StepFailed { error }) => {
                HostAction::Abort { error, temp_path, report: true }
            },
            (state, progress, _) => {
                self.state = state;
                self.progress = progress;
                HostAction::Ignore
            },
        }
    }

    /// Cancels the capture in progress: refused when `Idle`; otherwise the
    /// pipeline returns to `Idle` and the frozen frame file, if the capture
    /// had one, is handed back for deletion.
    pub fn cancel_capture(&mut self) -> (r: Result<Option<String>, StructuredError>)
        ensures
            old(self).state is Idle ==> final(self).state is Idle && (r matches Err(e) && invalid_state_error(
                e,
                "cancel_capture called in state=Idle"@,
            )),
            old(self).state is Idle ==> final(self).progress == old(self).progress,
            !(old(self).state is Idle) ==> final(self).progress is Nothing,
            !(old(self).state is Idle) ==> final(self).state is Idle && r == Ok::<Option<String>, StructuredError>(
                match old(self).state {
                    CaptureState::FreezeReady { temp_path, .. } => Some(temp_path),
                    CaptureState::Selecting { temp_path, .. } => Some(temp_path),
                    _ => None,
                },
            ),
    {
        if matches!(self.state, CaptureState::Idle) {
            return Err(
                StructuredError::from_kind(CaptureErrorKind::InvalidState).with_context(
                    "cancel_capture called in state=Idle",
                ),
            );
        }
        let mut current = CaptureState::Idle;
        std::mem::swap(&mut current, &mut self.state);
        self.progress = Progress::Nothing;
        let temp_path = match current {
            CaptureState::FreezeReady { temp_path, .. } => Some(temp_path),
            CaptureState::Selecting { temp_path, .. } => Some(temp_path),
            _ => None,
        };
        Ok(temp_path)
    }
}

/// The two runs of the pipeline are made of allowed transitions: with the
/// overlay `Idle → Capturing → FreezeReady → Selecting → Finalizing →
/// Complete → Idle`, and without it `Idle → Capturing → Finalizing →
/// Complete → Idle`; a failed finalization goes `Finalizing → Failed → Idle`.
pub proof fn lemma_pipeline_runs(
    mode: CaptureModeName,
    temp_path: String,
    full_image: RawImage,
    is_potentially_black: bool,
    error: StructuredError,
)
    ensures
        valid_transition(CaptureState::Idle, CaptureState::Capturing { mode }),
        valid_transition(
            CaptureState::Capturing { mode },
            CaptureState::FreezeReady { temp_path, full_image, is_potentially_black },
        ),
        valid_transition(
            CaptureState::FreezeReady { temp_path, full_image, is_potentially_black },
            CaptureState::Selecting { temp_path, full_image, mode, is_potentially_black },
        ),
        valid_transition(
            CaptureState::Selecting { temp_path, full_image, mode, is_potentially_black },
            CaptureState::Finalizing,
        ),
        valid_transition(CaptureState::Capturing { mode }, CaptureState::Finalizing),
        valid_transition(CaptureState::Finalizing, CaptureState::Complete),
        valid_transition(CaptureState::Complete, CaptureState::Idle),
        valid_transition(CaptureState::Finalizing, CaptureState::Failed { error }),
        valid_transition(CaptureState::Failed { error }, CaptureState::Idle),
{
}

/// A capture can only start from `Idle`, and `Idle` only leads to `Capturing`.
pub proof fn lemma_idle_only_starts_capturing(from: CaptureState, to: CaptureState)
    ensures
        valid_transition(from, to) && to is Capturing ==> from is Idle,
        valid_transition(CaptureState::Idle, to) ==> to is Capturing,
{
}

/// The end states `Complete`, `Failed` and `Cancelled` only reset to `Idle`,
/// and nothing leads back into them but finalization (for `Complete` and
/// `Failed`).
pub proof fn lemma_end_states_reset(from: CaptureState, to: CaptureState)
    ensures
        valid_transition(from, to) && (from is Complete || from is Failed || from is Cancelled)
            ==> to is Idle,
        valid_transition(from, to) && (to is Complete || to is Failed) ==> from is Finalizing,
        !valid_transition(from, CaptureState::Cancelled),
{
}

/// No transition leaves a state unchanged in kind: the pipeline never loops
/// on one state.
pub proof fn lemma_no_self_transition(from: CaptureState, to: CaptureState)
    requires
        valid_transition(from, to),
    ensures
        state_name(from) != state_name(to),
{
    reveal_strlit("Idle");
    reveal_strlit("Capturing");
    reveal_strlit("FreezeReady");
    reveal_strlit("Selecting");
    reveal_strlit("Finalizing");
    reveal_strlit("Complete");
    reveal_strlit("Failed");
    reveal_strlit("Cancelled");
    match from {
        CaptureState::Selecting { .. } => {
            if to is Idle {
                assert(state_name(from)[0] != state_name(to)[0]);
            } else {
                assert(state_name(from)[0] != state_name(to)[0]);
            }
        },
        CaptureState::Finalizing => {
            if to is Complete {
                assert(state_name(from)[0] != state_name(to)[0]);
            } else {
                assert(state_name(from).len() != state_name(to).len());
            }
        },
        _ => {
            assert(state_name(from)[0] != state_name(to)[0]);
        },
    }
}

/// Concluding a capture that is being finalized with a saved file passes
/// `Complete` and leaves the pipeline `Idle`, ready for the next capture;
/// before the capture is taken or while the frame is being frozen, the
/// conclusion changes nothing.
pub proof fn lemma_completion_returns_to_idle(s: CaptureState)
    ensures
        s is Finalizing ==> attempt(attempt(s, CaptureState::Complete), CaptureState::Idle) is Idle,
        s is Idle || s is Capturing || s is FreezeReady ==> attempt(
            attempt(s, CaptureState::Complete),
            CaptureState::Idle,
        ) == s,
{
}

/// `s` reaches `Idle` through at most `n` allowed transitions.
pub open spec fn reaches_idle_within(s: CaptureState, n: nat) -> bool
    decreases n,
{
    s is Idle || (n > 0 && exists|t: CaptureState|
        #[trigger] valid_transition(s, t) && reaches_idle_within(t, (n - 1) as nat))
}

/// Every state has a way back to `Idle` through allowed transitions, in at
/// most three steps: the pipeline can never get stuck.
pub proof fn lemma_every_state_returns_to_idle(s: CaptureState)
    ensures
        reaches_idle_within(s, 3),
{
    let idle = CaptureState::Idle;
    let complete = CaptureState::Complete;
    assert(reaches_idle_within(idle, 0));
    assert(reaches_idle_within(idle, 1));
    assert(reaches_idle_within(idle, 2));
    assert(valid_transition(complete, idle));
    assert(reaches_idle_within(complete, 1));
    assert(reaches_idle_within(complete, 2));
    assert(valid_transition(CaptureState::Finalizing, complete));
    assert(reaches_idle_within(CaptureState::Finalizing, 2));
    match s {
        CaptureState::Capturing { .. } => {
            assert(valid_transition(s, CaptureState::Finalizing));
        },
        CaptureState::FreezeReady { temp_path, full_image, is_potentially_black } => {
            let sel = CaptureState::Selecting {
                temp_path,
                full_image,
                mode: CaptureModeName::Area,
                is_potentially_black,
            };
            assert(valid_transition(sel, idle));
            assert(reaches_idle_within(sel, 2));
            assert(valid_transition(s, sel));
        },
        CaptureState::Finalizing => {
            assert(valid_transition(s, complete));
        },
        _ => {
            assert(valid_transition(s, idle) || s is Idle);
        },
    }
    assert(reaches_idle_within(s, 3));
}

} // verus!
