use screenshot_tool_lib::capture::{CaptureModeName, Region};
use screenshot_tool_lib::error::StructuredError;
use screenshot_tool_lib::image_processor::{RawImage, SelectionRegion};
use screenshot_tool_lib::orchestrator::{
    CaptureAttempt, CaptureOrchestrator, CaptureState, HostAction, HostEvent, Progress,
};
use screenshot_tool_lib::storage::{SavedFile, StorageError};
use std::sync::atomic::{AtomicU32, Ordering};

fn image(w: u32, h: u32) -> RawImage {
    RawImage::from_pixel(w, h, [0, 0, 0, 0])
}

fn selecting(mode: CaptureModeName, black: bool) -> CaptureState {
    CaptureState::Selecting {
        temp_path: "/tmp/test.png".to_string(),
        full_image: image(2, 2),
        mode,
        is_potentially_black: black,
    }
}

fn freeze_ready(black: bool) -> CaptureState {
    CaptureState::FreezeReady {
        temp_path: "/tmp/test.png".to_string(),
        full_image: image(2, 2),
        is_potentially_black: black,
    }
}

#[test]
fn should_start_in_idle_state() {
    let orch = CaptureOrchestrator::new();
    assert!(matches!(orch.state, CaptureState::Idle));
    assert_eq!(orch.current_state_name(), "Idle");
}

#[test]
fn should_reject_start_capture_when_not_idle() {
    let mut orch = CaptureOrchestrator::new();
    orch.state = CaptureState::Capturing {
        mode: CaptureModeName::Area,
    };

    let err = orch
        .start_capture(CaptureModeName::Area)
        .err()
        .expect("must fail when not idle");
    assert_eq!(err.code, "INVALID_STATE");
}

#[test]
fn state_guard_start_in_capturing_returns_invalid_state() {
    let mut orch = CaptureOrchestrator::new();
    orch.state = CaptureState::Capturing {
        mode: CaptureModeName::Fullscreen,
    };
    let err = orch
        .start_capture(CaptureModeName::Area)
        .err()
        .expect("must return error");
    assert_eq!(err.code, "INVALID_STATE");
    assert_eq!(err.context.as_deref(), Some("start_capture called in state=Capturing"));
}

#[test]
fn should_reject_finalize_when_not_selecting() {
    let mut orch = CaptureOrchestrator::new();
    let region = Region {
        x: 0,
        y: 0,
        width: 100,
        height: 100,
    };
    let err = orch
        .finalize_capture(region)
        .err()
        .expect("must fail when not selecting");
    assert_eq!(err.code, "INVALID_STATE");
}

#[test]
fn state_guard_finalize_in_idle_returns_invalid_state() {
    let mut orch = CaptureOrchestrator::new();
    let region = Region {
        x: 10,
        y: 10,
        width: 100,
        height: 100,
    };
    let err = orch.finalize_capture(region).err().expect("must return error");
    assert_eq!(err.code, "INVALID_STATE");
    assert_eq!(err.context.as_deref(), Some("finalize_capture called in state=Idle"));
}

#[test]
fn should_reject_cancel_when_already_idle() {
    let mut orch = CaptureOrchestrator::new();
    let err = orch
        .cancel_capture()
        .expect_err("must fail when already idle");
    assert_eq!(err.code, "INVALID_STATE");
}

#[test]
fn should_transition_idle_to_capturing_on_start() {
    let mut orch = CaptureOrchestrator::new();
    assert!(matches!(orch.state, CaptureState::Idle));

    orch.transition(CaptureState::Capturing {
        mode: CaptureModeName::Area,
    })
    .expect("transition Idle → Capturing should be valid");

    assert!(matches!(orch.state, CaptureState::Capturing { .. }));
}

#[test]
fn should_transition_selecting_to_finalizing_on_finalize() {
    let mut orch = CaptureOrchestrator::new();
    orch.state = selecting(CaptureModeName::Area, false);

    orch.transition(CaptureState::Finalizing)
        .expect("transition Selecting → Finalizing should be valid");

    assert!(matches!(orch.state, CaptureState::Finalizing));
}

#[test]
fn should_reset_to_idle_after_complete() {
    let mut orch = CaptureOrchestrator::new();
    orch.state = CaptureState::Complete;

    orch.transition(CaptureState::Idle)
        .expect("transition Complete → Idle should be valid");

    assert!(matches!(orch.state, CaptureState::Idle));
}

#[test]
fn should_reset_to_idle_after_failed() {
    let mut orch = CaptureOrchestrator::new();
    orch.state = CaptureState::Failed {
        error: StructuredError::internal("test error"),
    };

    orch.transition(CaptureState::Idle)
        .expect("transition Failed → Idle should be valid");

    assert!(matches!(orch.state, CaptureState::Idle));
}

#[test]
fn invalid_transition_keeps_state_and_names_both_states() {
    let mut orch = CaptureOrchestrator::new();
    let err = orch.transition(CaptureState::Complete).unwrap_err();
    assert_eq!(err.code, "INVALID_STATE");
    assert_eq!(err.context.as_deref(), Some("transition Idle → Complete is invalid"));
    assert!(matches!(orch.state, CaptureState::Idle));
}

#[test]
fn should_emit_cancelled_event_on_cancel() {
    let mut orch = CaptureOrchestrator::new();
    orch.state = selecting(CaptureModeName::Area, false);
    let temp = orch
        .cancel_capture()
        .expect("cancel_capture must succeed to trigger event emission");
    assert_eq!(temp.as_deref(), Some("/tmp/test.png"));
    assert!(
        matches!(orch.state, CaptureState::Idle),
        "state must be Idle after cancel (post-event emission)"
    );
}

#[test]
fn should_reset_to_idle_after_cancel_from_capturing() {
    let mut orch = CaptureOrchestrator::new();
    orch.state = CaptureState::Capturing {
        mode: CaptureModeName::Area,
    };

    let temp = orch.cancel_capture().expect("cancel must succeed from Capturing");
    assert_eq!(temp, None);
    assert!(matches!(orch.state, CaptureState::Idle));
}

#[test]
fn cancel_from_freeze_ready_hands_back_the_frozen_frame() {
    let mut orch = CaptureOrchestrator::new();
    orch.state = freeze_ready(false);
    let temp = orch.cancel_capture().expect("cancel from FreezeReady must succeed");
    assert_eq!(temp.as_deref(), Some("/tmp/test.png"));
    assert!(matches!(orch.state, CaptureState::Idle));
}

#[test]
fn all_valid_transitions_are_accepted() {
    let valid_transitions: Vec<(CaptureState, CaptureState)> = vec![
        (
            CaptureState::Idle,
            CaptureState::Capturing {
                mode: CaptureModeName::Area,
            },
        ),
        (
            CaptureState::Capturing {
                mode: CaptureModeName::Area,
            },
            freeze_ready(false),
        ),
        (
            CaptureState::Capturing {
                mode: CaptureModeName::Fullscreen,
            },
            CaptureState::Finalizing,
        ),
        (freeze_ready(false), selecting(CaptureModeName::Area, false)),
        (selecting(CaptureModeName::Area, false), CaptureState::Finalizing),
        (selecting(CaptureModeName::Area, false), CaptureState::Idle),
        (CaptureState::Finalizing, CaptureState::Complete),
        (
            CaptureState::Finalizing,
            CaptureState::Failed {
                error: StructuredError::internal("test"),
            },
        ),
        (CaptureState::Complete, CaptureState::Idle),
        (
            CaptureState::Failed {
                error: StructuredError::internal("test"),
            },
            CaptureState::Idle,
        ),
        (CaptureState::Cancelled, CaptureState::Idle),
    ];

    for (from, to) in valid_transitions {
        assert!(
            CaptureOrchestrator::is_valid_transition(&from, &to),
            "transition {} → {} should be valid",
            from.name(),
            to.name()
        );
    }
}

#[test]
fn invalid_transitions_are_rejected_by_state_machine() {
    let invalid_transitions: Vec<(CaptureState, CaptureState)> = vec![
        (CaptureState::Idle, CaptureState::Finalizing),
        (CaptureState::Idle, CaptureState::Complete),
        (CaptureState::Finalizing, CaptureState::Idle),
        (CaptureState::Complete, CaptureState::Finalizing),
        (
            CaptureState::Idle,
            CaptureState::Failed {
                error: StructuredError::internal("test"),
            },
        ),
    ];

    for (from, to) in invalid_transitions {
        assert!(
            !CaptureOrchestrator::is_valid_transition(&from, &to),
            "transition {} → {} should be invalid",
            from.name(),
            to.name()
        );
    }
}

#[test]
fn should_clamp_region_to_image_bounds() {
    let full_image = image(100, 100);
    let region = Region {
        x: 10,
        y: 10,
        width: 50,
        height: 50,
    };
    let img_width = full_image.width();
    let img_height = full_image.height();
    assert!(region.x < img_width);
    assert!(region.y < img_height);
    assert!(region.x + region.width <= img_width);
    assert!(region.y + region.height <= img_height);
}

#[test]
fn freeze_ready_state_stores_is_potentially_black() {
    let mut orch = CaptureOrchestrator::new();
    orch.state = freeze_ready(true);
    let is_black = match &orch.state {
        CaptureState::FreezeReady {
            is_potentially_black,
            ..
        } => *is_potentially_black,
        _ => panic!("Expected FreezeReady state"),
    };
    assert!(is_black, "FreezeReady must store is_potentially_black=true");
}

#[test]
fn selecting_state_stores_is_potentially_black_and_mode() {
    let mut orch = CaptureOrchestrator::new();
    orch.state = selecting(CaptureModeName::Area, true);
    let (is_black, mode) = match &orch.state {
        CaptureState::Selecting {
            is_potentially_black,
            mode,
            ..
        } => (*is_potentially_black, *mode),
        _ => panic!("Expected Selecting state"),
    };
    assert!(is_black, "Selecting must store is_potentially_black=true");
    assert_eq!(mode, CaptureModeName::Area, "Selecting must store mode");
}

#[test]
fn enter_selecting_carries_the_frozen_frame() {
    let mut orch = CaptureOrchestrator::new();
    orch.state = freeze_ready(true);
    orch.enter_selecting(CaptureModeName::Window).unwrap();
    match &orch.state {
        CaptureState::Selecting { temp_path, mode, is_potentially_black, full_image } => {
            assert_eq!(temp_path, "/tmp/test.png");
            assert_eq!(*mode, CaptureModeName::Window);
            assert!(*is_potentially_black);
            assert_eq!(full_image.width(), 2);
        },
        _ => panic!("Expected Selecting state"),
    }
    let err = orch.enter_selecting(CaptureModeName::Area).unwrap_err();
    assert_eq!(err.context.as_deref(), Some("transition Selecting → Selecting is invalid"));
}

#[test]
fn retry_loop_returns_image_with_false_when_not_black() {
    let orch = CaptureOrchestrator::new();
    let call_count = AtomicU32::new(0);
    let result = orch.capture_with_black_image_retry(|_attempt| {
        call_count.fetch_add(1, Ordering::SeqCst);
        Ok(RawImage::from_pixel(100, 100, [255u8, 255u8, 255u8, 255u8]))
    });
    assert!(result.is_ok(), "retry loop must succeed with white image");
    let (_, is_potentially_black) = result.unwrap();
    assert!(
        !is_potentially_black,
        "is_potentially_black must be false for white image"
    );
    assert_eq!(
        call_count.load(Ordering::SeqCst),
        1,
        "capture_fn must be called exactly once for non-black image"
    );
}

#[test]
fn retry_loop_retries_twice_for_persistent_black_image() {
    let orch = CaptureOrchestrator::new();
    let call_count = AtomicU32::new(0);
    let attempts = std::sync::Mutex::new(Vec::new());
    let result = orch.capture_with_black_image_retry(|attempt| {
        call_count.fetch_add(1, Ordering::SeqCst);
        attempts.lock().unwrap().push(attempt);
        Ok(RawImage::from_pixel(100, 100, [0u8, 0u8, 0u8, 255u8]))
    });
    assert!(
        result.is_ok(),
        "retry loop must succeed even with persistent black (zero-loss)"
    );
    let (_, is_potentially_black) = result.unwrap();
    assert!(
        is_potentially_black,
        "is_potentially_black must be true when all captures are black"
    );
    assert_eq!(
        call_count.load(Ordering::SeqCst),
        4,
        "must call capture_fn 4 times: initial + 2 retries + 1 fallback"
    );
    assert_eq!(
        *attempts.lock().unwrap(),
        vec![
            CaptureAttempt::Initial,
            CaptureAttempt::Retry,
            CaptureAttempt::Retry,
            CaptureAttempt::Fallback
        ]
    );
}

#[test]
fn retry_loop_succeeds_on_second_attempt() {
    let orch = CaptureOrchestrator::new();
    let call_count = AtomicU32::new(0);
    let result = orch.capture_with_black_image_retry(|_attempt| {
        let count = call_count.fetch_add(1, Ordering::SeqCst);
        if count == 0 {
            Ok(RawImage::from_pixel(100, 100, [0u8, 0u8, 0u8, 255u8]))
        } else {
            Ok(RawImage::from_pixel(100, 100, [255u8, 255u8, 255u8, 255u8]))
        }
    });
    assert!(result.is_ok());
    let (_, is_potentially_black) = result.unwrap();
    assert!(
        !is_potentially_black,
        "is_potentially_black must be false when second capture succeeds"
    );
    assert_eq!(
        call_count.load(Ordering::SeqCst),
        2,
        "must call capture_fn 2 times: initial (black) + retry (white)"
    );
}

#[test]
fn retry_loop_stops_at_the_first_capture_error() {
    let orch = CaptureOrchestrator::new();
    let call_count = AtomicU32::new(0);
    let result = orch.capture_with_black_image_retry(|attempt| {
        call_count.fetch_add(1, Ordering::SeqCst);
        match attempt {
            CaptureAttempt::Initial => Ok(RawImage::from_pixel(4, 4, [0, 0, 0, 255])),
            _ => Err(StructuredError::internal("capture failed")),
        }
    });
    assert_eq!(result.err().unwrap().message, "capture failed");
    assert_eq!(call_count.load(Ordering::SeqCst), 2);
}

#[test]
fn finalize_area_capture_builds_the_crop_job_and_completes() {
    let mut orch = CaptureOrchestrator::new();
    orch.state = selecting(CaptureModeName::Area, false);
    let bad = orch.finalize_capture(Region { x: 0, y: 0, width: 0, height: 1 }).err().unwrap();
    assert_eq!(bad.code, "INVALID_MODEL");
    assert_eq!(orch.current_state_name(), "Selecting");

    let action = orch
        .finalize_capture(Region { x: 0, y: 0, width: 2, height: 2 })
        .ok()
        .unwrap();
    assert!(matches!(action, HostAction::ListCapturesDir));
    assert_eq!(orch.current_state_name(), "Finalizing");
    match &orch.progress {
        Progress::Processing { input, temp_path } => {
            assert_eq!(temp_path.as_deref(), Some("/tmp/test.png"));
            assert_eq!(input.selection, Some(SelectionRegion { x: 0, y: 0, width: 2, height: 2 }));
        }
        _ => panic!("expected processing"),
    }
    let action = orch.on_event(HostEvent::CapturesDirListed {
        target_dir: Ok("/tmp/caps".to_string()),
        existing: Vec::new(),
    });
    let processed = match action {
        HostAction::CopyAndSave { processed } => processed,
        _ => panic!("expected CopyAndSave"),
    };
    assert_eq!((processed.width, processed.height), (2, 2));
    assert_eq!(orch.current_state_name(), "Finalizing");
    let action = orch.on_event(HostEvent::FileSaved {
        saved: Ok(SavedFile { path: processed.target_path.clone(), file_size: 77 }),
    });
    match action {
        HostAction::Complete { result, temp_path } => {
            assert_eq!(result.path, processed.target_path);
            assert_eq!(result.file_size, 77);
            assert_eq!((result.width, result.height), (2, 2));
            assert_eq!(temp_path.as_deref(), Some("/tmp/test.png"));
        }
        _ => panic!("expected Complete"),
    }
    assert!(matches!(orch.state, CaptureState::Idle));
    assert!(matches!(orch.progress, Progress::Nothing));
}

#[test]
fn finalize_clamps_the_region_to_the_frozen_frame() {
    let mut orch = CaptureOrchestrator::new();
    orch.state = CaptureState::Selecting {
        temp_path: "/tmp/frame.png".to_string(),
        full_image: image(100, 100),
        mode: CaptureModeName::Area,
        is_potentially_black: false,
    };
    orch.finalize_capture(Region { x: 90, y: 90, width: 50, height: 50 }).ok().unwrap();
    match &orch.progress {
        Progress::Processing { input, .. } => {
            assert_eq!(input.selection, Some(SelectionRegion { x: 90, y: 90, width: 10, height: 10 }));
        }
        _ => panic!("expected processing"),
    }
    let action = orch.on_event(HostEvent::CapturesDirListed {
        target_dir: Ok("/tmp/caps".to_string()),
        existing: Vec::new(),
    });
    match action {
        HostAction::CopyAndSave { processed } => {
            assert_eq!((processed.width, processed.height), (10, 10));
        }
        _ => panic!("expected CopyAndSave"),
    }
}

#[test]
fn clamp_region_cuts_to_the_image() {
    let r = CaptureOrchestrator::clamp_region(Region { x: 150, y: 20, width: 5, height: 500 }, 100, 100);
    assert_eq!(r, SelectionRegion { x: 100, y: 20, width: 0, height: 80 });
}

#[test]
fn finalize_window_capture_keeps_the_whole_frame() {
    let mut orch = CaptureOrchestrator::new();
    orch.state = selecting(CaptureModeName::Window, true);
    orch.finalize_capture(Region { x: 5, y: 5, width: 1, height: 1 }).ok().unwrap();
    match &orch.progress {
        Progress::Processing { input, .. } => {
            assert_eq!(input.selection, None);
            assert!(input.is_potentially_black);
        }
        _ => panic!("expected processing"),
    }
}

#[test]
fn failures_while_finalizing_end_idle() {
    let mut orch = CaptureOrchestrator::new();
    orch.state = selecting(CaptureModeName::Area, false);
    orch.finalize_capture(Region { x: 1, y: 1, width: 2, height: 2 }).ok().unwrap();
    let action = orch.on_event(HostEvent::CapturesDirListed {
        target_dir: Err("no dir".to_string()),
        existing: Vec::new(),
    });
    match action {
        HostAction::Abort { error, temp_path, report } => {
            assert_eq!(error.code, "IMAGE_PROCESSING_ERROR");
            assert_eq!(
                error.context.as_deref(),
                Some("Failed to resolve platform directory: no dir")
            );
            assert_eq!(temp_path.as_deref(), Some("/tmp/test.png"));
            assert!(report);
        }
        _ => panic!("expected Abort"),
    }
    assert!(matches!(orch.state, CaptureState::Idle));

    let mut orch = CaptureOrchestrator::new();
    orch.state = CaptureState::Finalizing;
    orch.progress = Progress::Saving { width: 1, height: 1, is_black_warning: false, temp_path: None };
    let action = orch.on_event(HostEvent::FileSaved {
        saved: Err(StorageError::WriteFailed("nope".to_string())),
    });
    match action {
        HostAction::Abort { error, .. } => {
            assert_eq!(error.code, "STORAGE_ERROR");
            assert_eq!(error.context.as_deref(), Some("Failed to write file: nope"));
        }
        _ => panic!("expected Abort"),
    }
    assert!(matches!(orch.state, CaptureState::Idle));
}

#[test]
fn overlay_start_runs_to_selecting() {
    let mut orch = CaptureOrchestrator::new();
    let action = orch.start_capture(CaptureModeName::Area).ok().unwrap();
    assert!(matches!(
        action,
        HostAction::CaptureFrame { mode: CaptureModeName::Area, keep_frozen_frame: true }
    ));
    let action = orch.on_event(HostEvent::FrameCaptured {
        image: image(4, 3),
        is_potentially_black: true,
        frozen_frame: Some(Ok("/tmp/f.png".to_string())),
    });
    assert!(matches!(action, HostAction::OpenOverlay));
    assert_eq!(orch.current_state_name(), "FreezeReady");
    let action = orch.on_event(HostEvent::OverlayOpened);
    match action {
        HostAction::AnnounceFreeze { temp_path } => assert_eq!(temp_path, "/tmp/f.png"),
        _ => panic!("expected AnnounceFreeze"),
    }
    let action = orch.on_event(HostEvent::FreezeAnnounced);
    assert!(matches!(action, HostAction::AwaitSelection));
    match &orch.state {
        CaptureState::Selecting { temp_path, full_image, mode, is_potentially_black } => {
            assert_eq!(temp_path, "/tmp/f.png");
            assert_eq!((full_image.width(), full_image.height()), (4, 3));
            assert_eq!(*mode, CaptureModeName::Area);
            assert!(*is_potentially_black);
        }
        _ => panic!("expected Selecting"),
    }
}

#[test]
fn fullscreen_start_runs_to_idle_with_the_result() {
    let mut orch = CaptureOrchestrator::new();
    let action = orch.start_capture(CaptureModeName::Fullscreen).ok().unwrap();
    assert!(matches!(action, HostAction::CaptureFrame { keep_frozen_frame: false, .. }));
    let action = orch.on_event(HostEvent::FrameCaptured {
        image: image(3, 2),
        is_potentially_black: false,
        frozen_frame: None,
    });
    assert!(matches!(action, HostAction::ListCapturesDir));
    let action = orch.on_event(HostEvent::CapturesDirListed {
        target_dir: Ok("/caps".to_string()),
        existing: Vec::new(),
    });
    let processed = match action {
        HostAction::CopyAndSave { processed } => processed,
        _ => panic!("expected CopyAndSave"),
    };
    assert!(processed.target_path.starts_with("/caps/"));
    assert!(processed.filename.ends_with("_fullscreen.png"));
    let action = orch.on_event(HostEvent::FileSaved {
        saved: Ok(SavedFile { path: processed.target_path.clone(), file_size: 10 }),
    });
    match action {
        HostAction::Complete { result, temp_path } => {
            assert_eq!((result.width, result.height, result.file_size), (3, 2, 10));
            assert!(!result.is_black_warning);
            assert_eq!(temp_path, None);
        }
        _ => panic!("expected Complete"),
    }
    assert!(matches!(orch.state, CaptureState::Idle));
}

#[test]
fn failed_steps_while_starting_end_idle() {
    let failure = || StructuredError::internal("boom");
    let mut orch = CaptureOrchestrator::new();
    orch.start_capture(CaptureModeName::Window).ok().unwrap();
    let action = orch.on_event(HostEvent::StepFailed { error: failure() });
    assert!(matches!(action, HostAction::Abort { temp_path: None, report: true, .. }));
    assert!(matches!(orch.state, CaptureState::Idle));

    orch.start_capture(CaptureModeName::Window).ok().unwrap();
    let action = orch.on_event(HostEvent::FrameCaptured {
        image: image(1, 1),
        is_potentially_black: false,
        frozen_frame: Some(Err(failure())),
    });
    assert!(matches!(action, HostAction::Abort { temp_path: None, report: true, .. }));
    assert!(matches!(orch.state, CaptureState::Idle));

    orch.start_capture(CaptureModeName::Window).ok().unwrap();
    orch.on_event(HostEvent::FrameCaptured {
        image: image(1, 1),
        is_potentially_black: false,
        frozen_frame: Some(Ok("/tmp/w.png".to_string())),
    });
    let action = orch.on_event(HostEvent::StepFailed { error: failure() });
    match action {
        HostAction::Abort { temp_path, report, .. } => {
            assert_eq!(temp_path.as_deref(), Some("/tmp/w.png"));
            assert!(report);
        }
        _ => panic!("expected Abort"),
    }
    assert!(matches!(orch.state, CaptureState::Idle));
}

#[test]
fn unexpected_events_change_nothing() {
    let mut orch = CaptureOrchestrator::new();
    assert!(matches!(orch.on_event(HostEvent::OverlayOpened), HostAction::Ignore));
    assert!(matches!(orch.state, CaptureState::Idle));
}

#[test]
fn storage_failure_becomes_a_storage_error() {
    let e = CaptureOrchestrator::storage_err(StorageError::DiskError("disk full".to_string()));
    assert_eq!(e.code, "STORAGE_ERROR");
    assert_eq!(
        e.context.as_deref(),
        Some("Disk full or insufficient permissions: disk full")
    );
}

#[test]
fn first_monitor_picks_the_first_listed() {
    let picked = CaptureOrchestrator::first_monitor(vec!["left", "right"]);
    assert_eq!(picked, Ok("left"));
}

#[test]
fn no_monitor_is_monitor_not_found() {
    let e = CaptureOrchestrator::first_monitor(Vec::<u32>::new()).expect_err("no monitor");
    assert_eq!(e.code, "MONITOR_NOT_FOUND");
    assert_eq!(e.context.as_deref(), Some("No monitors detected"));
}

#[test]
fn monitor_query_error_names_the_query() {
    let e = CaptureOrchestrator::monitor_query_error("monitor.x()", "no display");
    assert_eq!(e.code, "MONITOR_NOT_FOUND");
    assert_eq!(e.context.as_deref(), Some("monitor.x() failed: no display"));
}

#[test]
fn finalize_fails_at_once_on_a_selection_outside_the_frame() {
    let mut orch = CaptureOrchestrator::new();
    orch.state = selecting(CaptureModeName::Area, false);
    let action = orch
        .finalize_capture(Region { x: 5, y: 0, width: 1, height: 1 })
        .ok()
        .unwrap();
    match action {
        HostAction::Abort { error, temp_path, report } => {
            assert_eq!(error.code, "IMAGE_PROCESSING_ERROR");
            assert_eq!(
                error.context.as_deref(),
                Some("Failed to crop image: SelectionRegion dimensions must be > 0, got width=0 height=1")
            );
            assert_eq!(temp_path.as_deref(), Some("/tmp/test.png"));
            assert!(report);
        }
        _ => panic!("expected Abort"),
    }
    assert!(matches!(orch.state, CaptureState::Idle));
}
