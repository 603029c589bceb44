use print_guardian::alerts::{
    render_duration, render_meters, Alert, Attachment, Timestamp, COLOR_BLUE, COLOR_GREEN,
    COLOR_ORANGE, COLOR_RED,
};
use print_guardian::detector::Score;
use print_guardian::error::{
    AlertError, ConfigError, DetectionError, ImageError, NetworkError, PrinterError,
};
use print_guardian::printer::{PrinterAction, PrinterObservation};
use print_guardian::text::{i64_to_decimal, join, split, split_lines, two_digit_str, u64_to_decimal};
use print_guardian::{AlertService, PrintGuardianError, PrinterService};

const NOON: Timestamp = Timestamp { seconds: 1431648000, nanos: 0 };

fn service() -> AlertService {
    AlertService::new("https://discord.example/api/webhooks/1".to_string())
}

fn expect(alert: Alert, title: &str, description: &str, color: u32, attachment: Option<Attachment>) {
    assert_eq!(
        alert,
        Alert {
            webhook_url: "https://discord.example/api/webhooks/1".to_string(),
            title: title.to_string(),
            description: description.to_string(),
            color,
            timestamp: "2015-05-15T00:00:00+00:00".to_string(),
            footer: "Print Guardian".to_string(),
            attachment,
        }
    );
}

#[test]
fn numbers_are_rendered_in_decimal() {
    for n in [0u64, 1, 9, 10, 11, 99, 100, 12345, 1_000_000, u32::MAX as u64, u64::MAX] {
        assert_eq!(u64_to_decimal(n), n.to_string());
    }
    for n in [0i64, -1, 7, -10, 1431648000, i64::MAX, i64::MIN, i64::MIN + 1] {
        assert_eq!(i64_to_decimal(n), n.to_string());
    }
    for n in [0u8, 5, 10, 42, 99] {
        assert_eq!(two_digit_str(n), format!("{:02}", n));
    }
}

#[test]
fn lists_are_joined_and_split() {
    let parts = vec!["a".to_string(), "".to_string(), "bc".to_string()];
    assert_eq!(join(&parts, ", "), "a, , bc");
    assert_eq!(join(&Vec::new(), ", "), "");
    assert_eq!(join(&vec!["only".to_string()], ", "), "only");
    for text in ["", ",", "a,b", "a,,b,", ",x", "no comma", "é,ü"] {
        let expected: Vec<String> = text.split(',').map(str::to_string).collect();
        assert_eq!(split(text, ','), expected, "{:?}", text);
    }
    for text in ["", "one", "one\ntwo", "one\r\ntwo\r\n", "\n\n", "a\rb\n", "\r"] {
        let expected: Vec<String> = text.lines().map(str::to_string).collect();
        assert_eq!(split_lines(text), expected, "{:?}", text);
    }
}

#[test]
fn lengths_and_durations_are_rendered() {
    assert_eq!(render_meters(0), "0.00");
    assert_eq!(render_meters(4), "0.00");
    assert_eq!(render_meters(5), "0.01");
    assert_eq!(render_meters(1234), "1.23");
    assert_eq!(render_meters(1235), "1.24");
    assert_eq!(render_meters(999_995), "1000.00");
    assert_eq!(render_meters(u64::MAX), "18446744073709551.62");
    assert_eq!(render_duration(0), "0h 0m 0s");
    assert_eq!(render_duration(59), "0h 0m 59s");
    assert_eq!(render_duration(3600), "1h 0m 0s");
    assert_eq!(render_duration(3723), "1h 2m 3s");
    assert_eq!(render_duration(360_000 + 59 * 60 + 59), "100h 59m 59s");
}

#[test]
fn offline_and_recovery_alerts() {
    let offline = service()
        .send_system_offline_alert("http://a/1.jpg, http://b/2.jpg", 15, NOON)
        .unwrap();
    expect(
        offline,
        "🚨 CRITICAL: Print Monitoring Offline",
        "Failed to fetch image from http://a/1.jpg, http://b/2.jpg after 15 attempts. Print monitoring is offline!",
        0xFF0000,
        None,
    );
    assert_eq!(COLOR_RED, 0xFF0000);
    let recovery = service().send_system_recovery_alert(NOON).unwrap();
    expect(
        recovery,
        "✅ RECOVERY: Print Monitoring Back Online",
        "Image fetch successful after connection issues.",
        0x00FF00,
        None,
    );
    assert_eq!(COLOR_GREEN, 0x00FF00);
}

#[test]
fn pause_alert_names_the_count_and_carries_the_image() {
    let plain = service().send_print_pause_alert(4, None, NOON).unwrap();
    expect(
        plain,
        "🚨 Print Paused Due to Multiple Failures",
        "Print has been paused after detecting 4 print failures. Please check the printer.",
        0xFF0000,
        None,
    );
    let with_image = service().send_print_pause_alert(4, Some(&[1, 2, 3]), NOON).unwrap();
    let attachment = Attachment { filename: "print_pause_1431648000.jpg".to_string(), data: vec![1, 2, 3] };
    assert_eq!(attachment.url(), "attachment://print_pause_1431648000.jpg");
    assert_eq!(with_image.attachment, Some(attachment));
}

#[test]
fn failure_alert_lists_confidence_and_place() {
    let score = |value: f32| Score::from_bits(value.to_bits());
    let alert = service()
        .send_print_failure_alert(
            "spaghetti",
            score(87.65),
            score(0.5),
            score(0.44),
            score(0.16),
            score(0.1),
            Some(&[9]),
            NOON,
        )
        .unwrap();
    expect(
        alert,
        "⚠️ Print Failure Detected",
        "Detected **spaghetti** print failure with **87.65%** confidence\n\n**Location:**\n• X: 0.5\n• Y: 0.4\n• Width: 0.2\n• Height: 0.1",
        0xFFA500,
        Some(Attachment { filename: "failure_detection_1431648000.jpg".to_string(), data: vec![9] }),
    );
    assert_eq!(COLOR_ORANGE, 0xFFA500);
}

#[test]
fn status_alert_reports_file_state_and_statistics() {
    let observation = PrinterObservation {
        state_name: Some("printing".to_string()),
        state_message: Some("Printer is ready".to_string()),
        filename: Some("benchy.gcode".to_string()),
        filament_used_mm: 12_345,
        print_duration_seconds: 3_723,
    };
    let alert = service().send_printer_status_alert(&observation, None, NOON).unwrap();
    expect(
        alert,
        "ℹ️ Printer is ready",
        "\n            Current file: **benchy.gcode**\n            Current printer state: **printing**\n            **Print Stats:**\n            • Filament Used: 12.35m\n            • Print Duration: 1h 2m 3s\n            ",
        0x0099FF,
        None,
    );
    assert_eq!(COLOR_BLUE, 0x0099FF);

    let bare = PrinterObservation {
        state_name: None,
        state_message: None,
        filename: None,
        filament_used_mm: 0,
        print_duration_seconds: 0,
    };
    assert_eq!(bare.state(), "unknown");
    let alert = service().send_printer_status_alert(&bare, Some(&[7, 7]), NOON).unwrap();
    expect(
        alert,
        "ℹ️ Printer Status Update",
        "\n            Current file: **Unknown**\n            Current printer state: **unknown**\n            **Print Stats:**\n            • Filament Used: 0.00m\n            • Print Duration: 0h 0m 0s\n            ",
        0x0099FF,
        Some(Attachment { filename: "printer_status_1431648000.jpg".to_string(), data: vec![7, 7] }),
    );
}

#[test]
fn plain_alerts_and_alerts_with_images() {
    let alert = service().send_alert("Title", "Body", 0x123456, "*", NOON).unwrap();
    expect(alert, "* Title", "Body", 0x123456, None);
    let alert = service()
        .send_alert_with_image("Title", "Body", 1, "*", &[4, 5], "frame.jpg", NOON)
        .unwrap();
    expect(alert, "* Title", "Body", 1, Some(Attachment { filename: "frame.jpg".to_string(), data: vec![4, 5] }));
    let composed = service().compose("T", "D", 2, "!", "then".to_string(), None);
    assert_eq!(composed.title, "! T");
    assert_eq!(composed.timestamp, "then");
    assert_eq!(service().webhook_url(), "https://discord.example/api/webhooks/1");
}

#[test]
fn the_time_is_written_as_rfc_3339() {
    let late = Timestamp { seconds: 1_700_000_000, nanos: 123_000_000 };
    let alert = service().send_system_recovery_alert(late).unwrap();
    assert_eq!(alert.timestamp, "2023-11-14T22:13:20.123+00:00");
    let early = Timestamp { seconds: -1, nanos: 0 };
    let alert = service().send_print_pause_alert(1, Some(&[]), early).unwrap();
    assert_eq!(alert.timestamp, "1969-12-31T23:59:59+00:00");
    assert_eq!(alert.attachment.unwrap().filename, "print_pause_-1.jpg");
}

#[test]
fn a_time_out_of_range_is_an_error() {
    let never = Timestamp { seconds: i64::MAX, nanos: 0 };
    assert_eq!(
        service().send_system_recovery_alert(never),
        Err(AlertError::MessageFormatError { reason: "time out of range".to_string() })
    );
    let broken = Timestamp { seconds: 0, nanos: 3_000_000_000 };
    assert!(service().send_alert("t", "d", 0, "e", broken).is_err());
}

#[test]
fn printer_requests_and_replies() {
    let printer = PrinterService::new("http://printer.local:7125".to_string());
    assert_eq!(printer.endpoint(PrinterAction::Pause), "http://printer.local:7125/printer/print/pause");
    assert_eq!(printer.endpoint(PrinterAction::Resume), "http://printer.local:7125/printer/print/resume");
    assert_eq!(printer.endpoint(PrinterAction::Cancel), "http://printer.local:7125/printer/print/cancel");
    assert!(PrinterAction::QueryStatus.is_query());
    assert!(!PrinterAction::Pause.is_query());
    assert_eq!(printer.pause_print(Some(200)), Ok(()));
    assert_eq!(printer.resume_print(Some(204)), Ok(()));
    assert_eq!(printer.cancel_print(Some(299)), Ok(()));
    assert_eq!(
        printer.pause_print(Some(404)),
        Err(PrinterError::ApiError {
            endpoint: "http://printer.local:7125/printer/print/pause".to_string(),
            status: 404,
            message: "Failed to pause print: HTTP 404".to_string(),
        })
    );
    assert_eq!(
        printer.cancel_print(Some(300)),
        Err(PrinterError::ApiError {
            endpoint: "http://printer.local:7125/printer/print/cancel".to_string(),
            status: 300,
            message: "Failed to cancel print: HTTP 300".to_string(),
        })
    );
    assert!(printer.resume_print(Some(199)).is_err());
    assert_eq!(
        printer.check_reply(PrinterAction::QueryStatus, None),
        Err(PrinterError::ConnectionFailed {
            api_url: "http://printer.local:7125".to_string(),
            reason: "no response".to_string(),
        })
    );
}

const STATUS_BODY: &str = r#"{"result": {"eventtime": 100.5, "status": {
    "webhooks": {"state": "ready", "state_message": "Printer is ready"},
    "print_stats": {"filename": "benchy.gcode", "total_duration": 4000.2,
        "print_duration": 3723.9, "filament_used": 12345.678, "state": "printing"}}}}"#;

#[test]
fn observations_are_read_out_of_the_status_document() {
    assert_eq!(
        PrinterObservation::from_json(STATUS_BODY),
        Some(PrinterObservation {
            state_name: Some("printing".to_string()),
            state_message: Some("Printer is ready".to_string()),
            filename: Some("benchy.gcode".to_string()),
            filament_used_mm: 12_345,
            print_duration_seconds: 3_723,
        })
    );
    let bare = PrinterObservation {
        state_name: None,
        state_message: None,
        filename: None,
        filament_used_mm: 0,
        print_duration_seconds: 0,
    };
    assert_eq!(PrinterObservation::from_json("{}"), Some(bare.clone()));
    assert_eq!(PrinterObservation::from_json("[1, 2]"), Some(bare.clone()));
    assert_eq!(
        PrinterObservation::from_json(
            r#"{"result": {"status": {"print_stats": {"state": 7, "filename": null,
                "filament_used": "much", "print_duration": -4.5}}}}"#
        ),
        Some(bare)
    );
    assert_eq!(
        PrinterObservation::from_json(
            r#"{"result": {"status": {"print_stats": {"state": "paused", "filament_used": 17,
                "print_duration": 0.99}}}}"#
        ),
        Some(PrinterObservation {
            state_name: Some("paused".to_string()),
            state_message: None,
            filename: None,
            filament_used_mm: 17,
            print_duration_seconds: 0,
        })
    );
    assert_eq!(PrinterObservation::from_json(""), None);
    assert_eq!(PrinterObservation::from_json("{\"result\": "), None);
    assert_eq!(PrinterObservation::from_json("printing"), None);
}

#[test]
fn status_queries_hand_on_the_observation() {
    let printer = PrinterService::new("http://p".to_string());
    let observation = printer.get_printer_status(Some(200), STATUS_BODY).unwrap();
    assert_eq!(observation.state(), "printing");
    assert_eq!(observation.print_duration_seconds, 3_723);
    assert_eq!(
        printer.get_printer_status(Some(200), "<html>"),
        Err(PrinterError::ApiError {
            endpoint: "http://p/printer/objects/query?webhooks&print_stats".to_string(),
            status: 200,
            message: "Failed to get printer status: unreadable body".to_string(),
        })
    );
    assert_eq!(
        printer.get_printer_status(Some(500), STATUS_BODY),
        Err(PrinterError::ApiError {
            endpoint: "http://p/printer/objects/query?webhooks&print_stats".to_string(),
            status: 500,
            message: "Failed to get printer status: HTTP 500".to_string(),
        })
    );
    assert!(printer.get_printer_status(None, STATUS_BODY).is_err());
}

#[test]
fn every_error_has_its_message() {
    let s = |t: &str| t.to_string();
    assert_eq!(
        ImageError::DownloadFailed { url: s("u"), reason: s("r") }.message(),
        "Failed to download image from 'u': r"
    );
    assert_eq!(ImageError::SaveFailed { path: s("p"), reason: s("r") }.message(), "Failed to save image to 'p': r");
    assert_eq!(ImageError::InvalidFormat { path: s("p") }.message(), "Invalid or corrupted image format: p");
    assert_eq!(ImageError::ReadFailed { path: s("p"), reason: s("r") }.message(), "Failed to read image from 'p': r");
    assert_eq!(
        DetectionError::ModelConfigLoadFailed { path: s("p"), reason: s("r") }.message(),
        "Failed to load model config from 'p': r"
    );
    assert_eq!(
        DetectionError::WeightsLoadFailed { path: s("p"), reason: s("r") }.message(),
        "Failed to load model weights from 'p': r"
    );
    assert_eq!(
        DetectionError::LabelsLoadFailed { path: s("p"), reason: s("r") }.message(),
        "Failed to load labels from 'p': r"
    );
    assert_eq!(DetectionError::InferenceFailed { reason: s("r") }.message(), "Neural network inference failed: r");
    assert_eq!(
        DetectionError::WeightsDownloadFailed { url: s("u"), reason: s("r") }.message(),
        "Failed to download model weights from 'u': r"
    );
    assert_eq!(
        PrinterError::ConnectionFailed { api_url: s("a"), reason: s("r") }.message(),
        "Failed to connect to printer at 'a': r"
    );
    assert_eq!(
        PrinterError::ApiError { endpoint: s("e"), status: 503, message: s("m") }.message(),
        "Printer API error at 'e' (HTTP 503): m"
    );
    assert_eq!(
        PrinterError::InvalidState { requested_action: s("pause"), current_state: s("idle") }.message(),
        "Cannot pause printer in state 'idle'"
    );
    assert_eq!(
        PrinterError::AuthenticationFailed { api_url: s("a") }.message(),
        "Authentication failed for printer API at 'a'"
    );
    assert_eq!(AlertError::WebhookFailed { reason: s("r") }.message(), "Discord webhook request failed: r");
    assert_eq!(AlertError::MessageFormatError { reason: s("r") }.message(), "Failed to format alert message: r");
    assert_eq!(AlertError::InvalidWebhookUrl { url: s("u") }.message(), "Invalid Discord webhook URL: u");
    assert_eq!(
        ConfigError::MissingEnvVar { var_name: s("V") }.message(),
        "Required environment variable 'V' is not set"
    );
    assert_eq!(
        ConfigError::FileReadError { path: s("p"), reason: s("r") }.message(),
        "Failed to read configuration file 'p': r"
    );
    assert_eq!(
        ConfigError::InvalidValue { field: s("f"), value: s("v"), reason: s("r") }.message(),
        "Invalid value 'v' for field 'f': r"
    );
    assert_eq!(ConfigError::MissingFile { path: s("p") }.message(), "Required file not found: p");
    assert_eq!(
        NetworkError::RequestFailed { url: s("u"), reason: s("r") }.message(),
        "Network request to 'u' failed: r"
    );
    assert_eq!(
        NetworkError::Timeout { url: s("u"), timeout_seconds: 30 }.message(),
        "Request to 'u' timed out after 30 seconds"
    );
    assert_eq!(NetworkError::DnsError { hostname: s("h") }.message(), "DNS resolution failed for hostname 'h'");
    assert_eq!(NetworkError::SslError { url: s("u"), reason: s("r") }.message(), "SSL/TLS error for 'u': r");
}

#[test]
fn errors_convert_into_the_common_error() {
    let s = |t: &str| t.to_string();
    let image: PrintGuardianError = ImageError::InvalidFormat { path: s("p") }.into();
    assert_eq!(image.message(), "Image error: Invalid or corrupted image format: p");
    let detection: PrintGuardianError = DetectionError::InferenceFailed { reason: s("r") }.into();
    assert_eq!(detection.message(), "Detection error: Neural network inference failed: r");
    let printer: PrintGuardianError = PrinterError::AuthenticationFailed { api_url: s("a") }.into();
    assert_eq!(printer.message(), "Printer error: Authentication failed for printer API at 'a'");
    let alert: PrintGuardianError = AlertError::WebhookFailed { reason: s("r") }.into();
    assert_eq!(alert.message(), "Alert error: Discord webhook request failed: r");
    let config: PrintGuardianError = ConfigError::MissingFile { path: s("p") }.into();
    assert_eq!(config.message(), "Configuration error: Required file not found: p");
    let network: PrintGuardianError = NetworkError::DnsError { hostname: s("h") }.into();
    assert_eq!(network.message(), "Network error: DNS resolution failed for hostname 'h'");
    assert_eq!(
        PrintGuardianError::from(ConfigError::MissingFile { path: s("p") }),
        PrintGuardianError::ConfigError(ConfigError::MissingFile { path: s("p") })
    );
}
