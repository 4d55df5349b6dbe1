use screenshot_tool_lib::notification::{
    CaptureNotification, NotificationError, NotificationService,
};

/// The size text as floating-point formatting gives it.
fn float_reference(bytes: u64) -> String {
    const KB: u64 = 1024;
    const MB: u64 = 1024 * 1024;
    if bytes < KB {
        format!("{} B", bytes)
    } else if bytes < MB {
        let value = bytes as f64 / KB as f64;
        if value < 10.0 {
            format!("{:.1} KB", value)
        } else {
            format!("{:.0} KB", value)
        }
    } else {
        let value = bytes as f64 / MB as f64;
        if value < 10.0 {
            format!("{:.1} MB", value)
        } else {
            format!("{:.0} MB", value)
        }
    }
}

#[test]
fn format_size_bytes_below_kb() {
    assert_eq!(NotificationService::format_file_size(0), "0 B");
    assert_eq!(NotificationService::format_file_size(500), "500 B");
    assert_eq!(NotificationService::format_file_size(1023), "1023 B");
}

#[test]
fn format_size_exactly_one_kb() {
    assert_eq!(NotificationService::format_file_size(1024), "1.0 KB");
}

#[test]
fn format_size_kb_above_ten() {
    assert_eq!(NotificationService::format_file_size(245760), "240 KB");
}

#[test]
fn format_size_exactly_one_mb() {
    assert_eq!(NotificationService::format_file_size(1048576), "1.0 MB");
}

#[test]
fn format_size_mb_decimal() {
    assert_eq!(NotificationService::format_file_size(2457600), "2.3 MB");
}

#[test]
fn format_size_mb_above_ten() {
    assert_eq!(
        NotificationService::format_file_size(20 * 1024 * 1024),
        "20 MB"
    );
}

#[test]
fn format_size_boundary_conditions() {
    assert_eq!(NotificationService::format_file_size(1023), "1023 B");
    assert_eq!(NotificationService::format_file_size(1048575), "1024 KB");
}

#[test]
fn format_size_small_kb_uses_one_decimal() {
    assert_eq!(NotificationService::format_file_size(5120), "5.0 KB");
    assert_eq!(NotificationService::format_file_size(9216), "9.0 KB");
    assert_eq!(NotificationService::format_file_size(10240), "10 KB");
}

#[test]
fn format_size_small_mb_uses_one_decimal() {
    assert_eq!(
        NotificationService::format_file_size(5 * 1024 * 1024),
        "5.0 MB"
    );
    assert_eq!(
        NotificationService::format_file_size(10 * 1024 * 1024),
        "10 MB"
    );
}

#[test]
fn format_file_size_bytes_threshold() {
    assert_eq!(NotificationService::format_file_size(0), "0 B");
    assert_eq!(NotificationService::format_file_size(1), "1 B");
    assert_eq!(NotificationService::format_file_size(1023), "1023 B");
}

#[test]
fn format_file_size_kb_boundary() {
    assert_eq!(NotificationService::format_file_size(1024), "1.0 KB");
    assert_eq!(NotificationService::format_file_size(10 * 1024), "10 KB");
    assert_eq!(NotificationService::format_file_size(245 * 1024), "245 KB");
}

#[test]
fn format_file_size_mb_boundary() {
    assert_eq!(NotificationService::format_file_size(1024 * 1024), "1.0 MB");
    assert_eq!(NotificationService::format_file_size(2457600), "2.3 MB");
    assert_eq!(
        NotificationService::format_file_size(10 * 1024 * 1024),
        "10 MB"
    );
}

#[test]
fn format_file_size_matches_float_formatting() {
    let mut values: Vec<u64> = Vec::new();
    let mut b: u64 = 0;
    while b < 1_200_000 {
        values.push(b);
        b += 3;
    }
    // Exact halves of KB and MB values and of their tenths.
    for k in 1..2048u64 {
        values.push(k * 1024 + 512);
        values.push(k * 1024 * 1024 + 512 * 1024);
        values.push(k * 1024 * 1024 + 52429);
    }
    for k in [2304u64, 3328, 10752, 11776, 9_961_472, 10_485_759, 10_485_760, 11_010_048] {
        values.push(k);
    }
    // Values where `as f64` rounds.
    for shift in 50..64u32 {
        let p = 1u64 << shift;
        for d in 0..8u64 {
            values.push(p + d);
            values.push(p - 1 - d);
            values.push(p + (1u64 << (shift - 50)) * 3 / 2 + d);
        }
    }
    values.push(u64::MAX);
    values.push(u64::MAX - 1024);
    values.push((1u64 << 53) + 1);
    values.push((1u64 << 54) + 2);
    values.push((1u64 << 54) + 6);
    for v in values {
        assert_eq!(
            NotificationService::format_file_size(v),
            float_reference(v),
            "size {}",
            v
        );
    }
}

#[test]
fn capture_notification_success_title() {
    let notification = CaptureNotification {
        filename: "2026-02-23_14-35-22_region.png".to_string(),
        file_size_display: "245 KB".to_string(),
        dir_path: "/home/user/.local/share/screenshot-tool/captures".to_string(),
        is_warning: false,
    };
    assert!(!notification.is_warning);
    let title = NotificationService::capture_title(notification.is_warning);
    assert_eq!(title, "Captura salva");
}

#[test]
fn capture_notification_warning_title() {
    let notification = CaptureNotification {
        filename: "2026-02-23_14-35-22_fullscreen.png".to_string(),
        file_size_display: "1.0 MB".to_string(),
        dir_path: "/home/user/.local/share/screenshot-tool/captures".to_string(),
        is_warning: true,
    };
    assert!(notification.is_warning);
    let title = NotificationService::capture_title(notification.is_warning);
    assert_eq!(title, "Captura salva (possível erro)");
}

#[test]
fn capture_notification_bodies() {
    let ok = CaptureNotification {
        filename: "a.png".to_string(),
        file_size_display: "1.0 KB".to_string(),
        dir_path: "/tmp/captures".to_string(),
        is_warning: false,
    };
    assert_eq!(
        NotificationService::capture_body(&ok),
        "a.png — 1.0 KB\n/tmp/captures"
    );
    let warn = CaptureNotification { is_warning: true, ..ok };
    assert_eq!(
        NotificationService::capture_body(&warn),
        "A imagem pode estar corrompida. Verifique o arquivo em /tmp/captures"
    );
    assert_eq!(NotificationService::error_title(), "Falha na captura");
    assert_eq!(
        NotificationService::error_body("sem espaço"),
        "Falha ao salvar captura — sem espaço"
    );
}

#[test]
fn notification_error_send_failed_display() {
    let err = NotificationError::SendFailed("connection refused".to_string());
    let display = err.to_string();
    assert!(
        display.contains("Failed to send notification"),
        "Display deve conter 'Failed to send notification', obtido: {}",
        display
    );
    assert!(display.contains("connection refused"));
}

#[test]
fn notification_error_setup_failed_display() {
    let err = NotificationError::SetupFailed("permission denied".to_string());
    let display = err.to_string();
    assert!(
        display.contains("Failed to setup notification actions"),
        "Display deve conter 'Failed to setup notification actions', obtido: {}",
        display
    );
    assert!(display.contains("permission denied"));
}

#[test]
fn notification_error_is_clone_and_eq() {
    let err = NotificationError::SendFailed("test".to_string());
    let cloned = err.clone();
    assert_eq!(err, cloned);

    let err2 = NotificationError::SetupFailed("x".to_string());
    assert_ne!(err, err2);
}

#[test]
fn capture_notification_success_fields() {
    let notification = CaptureNotification {
        filename: "2026-02-23_14-35-22_region.png".to_string(),
        file_size_display: NotificationService::format_file_size(245760),
        dir_path: "/home/user/.local/share/screenshot-tool/captures".to_string(),
        is_warning: false,
    };

    assert!(
        !notification.is_warning,
        "sucesso deve ter is_warning=false"
    );
    assert_eq!(notification.file_size_display, "240 KB");
    assert!(notification.filename.ends_with(".png"));
    assert!(!notification.dir_path.is_empty());
}

#[test]
fn capture_notification_warning_fields() {
    let notification = CaptureNotification {
        filename: "2026-02-23_14-35-22_fullscreen.png".to_string(),
        file_size_display: NotificationService::format_file_size(1048576),
        dir_path: "/home/user/.local/share/screenshot-tool/captures".to_string(),
        is_warning: true,
    };

    assert!(
        notification.is_warning,
        "imagem preta deve ter is_warning=true"
    );
    assert_eq!(notification.file_size_display, "1.0 MB");
}

#[test]
fn is_black_warning_true_maps_to_notification_is_warning_true() {
    let is_black_warning = true;
    let notification = CaptureNotification {
        filename: "test.png".to_string(),
        file_size_display: NotificationService::format_file_size(512 * 1024),
        dir_path: "/tmp/captures".to_string(),
        is_warning: is_black_warning,
    };
    assert!(
        notification.is_warning,
        "is_black_warning=true deve resultar em CaptureNotification::is_warning=true"
    );
}

#[test]
fn is_black_warning_false_maps_to_notification_is_warning_false() {
    let is_black_warning = false;
    let notification = CaptureNotification {
        filename: "test.png".to_string(),
        file_size_display: NotificationService::format_file_size(512 * 1024),
        dir_path: "/tmp/captures".to_string(),
        is_warning: is_black_warning,
    };
    assert!(
        !notification.is_warning,
        "is_black_warning=false deve resultar em CaptureNotification::is_warning=false"
    );
}

#[test]
fn notification_error_send_failed_display_contract() {
    let err = NotificationError::SendFailed("dbus connection failed".to_string());
    let display = err.to_string();
    assert!(
        display.contains("Failed to send notification"),
        "SendFailed Display deve conter 'Failed to send notification'"
    );
}

#[test]
fn notification_error_setup_failed_display_contract() {
    let err = NotificationError::SetupFailed("permission denied".to_string());
    let display = err.to_string();
    assert!(
        display.contains("Failed to setup notification actions"),
        "SetupFailed Display deve conter 'Failed to setup notification actions'"
    );
}

#[test]
fn notification_failure_result_can_be_logged_without_panic() {
    let fake_error = NotificationError::SendFailed("simulated failure".to_string());
    let result: Result<(), NotificationError> = Err(fake_error);

    if let Err(e) = result {
        let warn_msg = format!("notify_capture failed (non-blocking): {}", e.to_string());
        assert!(warn_msg.contains("Failed to send notification"));
        assert!(warn_msg.contains("simulated failure"));
    } else {
        panic!("result deve ser Err");
    }
}

#[test]
fn notification_error_does_not_propagate_past_if_let_pattern() {
    let mut steps_completed = 0u32;

    let result: Result<(), NotificationError> =
        Err(NotificationError::SendFailed("test".to_string()));

    if let Err(e) = result {
        let _ = format!("warn: {}", e.to_string());
        steps_completed += 1;
    }

    steps_completed += 1;
    assert_eq!(
        steps_completed, 2,
        "pipeline deve completar mesmo com falha de notificação"
    );
}

#[test]
fn dir_path_from_saved_file_path_parent() {
    let saved_path = std::path::PathBuf::from(
        "/home/user/.local/share/screenshot-tool/captures/2026-02-23_14-35-22_region.png",
    );
    let dir_path = saved_path
        .parent()
        .map(|p| p.to_string_lossy().to_string())
        .unwrap_or_default();

    assert_eq!(dir_path, "/home/user/.local/share/screenshot-tool/captures");
    assert!(!dir_path.is_empty(), "dir_path não deve ser vazio");
}

#[test]
fn dir_path_fallback_for_path_without_parent() {
    let saved_path = std::path::PathBuf::from("test.png");
    let dir_path = saved_path
        .parent()
        .map(|p| p.to_string_lossy().to_string())
        .unwrap_or_default();
    let _ = dir_path;
}

/// How the host application shows a notification error: through its text.
#[derive(Debug)]
struct Shown(NotificationError);

impl std::fmt::Display for Shown {
    fn fmt(&self, f: &mut std::fmt::Formatter<'_>) -> std::fmt::Result {
        f.write_str(&self.0.to_string())
    }
}

impl std::error::Error for Shown {}

#[test]
fn notification_error_implements_error_trait() {
    let err = Shown(NotificationError::SendFailed("test".to_string()));
    let _: &dyn std::error::Error = &err;
}

#[test]
fn notification_error_is_std_error() {
    let err = NotificationError::SendFailed("test".to_string());
    let boxed: Box<dyn std::error::Error> = Box::new(Shown(err));
    assert!(boxed.to_string().contains("Failed to send notification"));
}
