use print_guardian::error::ImageError;
use print_guardian::image_fetcher::{AlertType, FetchDecision, FetchReport};
use print_guardian::ImageFetcher;
use std::cell::{Cell, RefCell};

fn sources(n: usize) -> Vec<String> {
    (0..n).map(|i| format!("http://camera{}.local/image.jpg", i)).collect()
}

/// Runs one call in which the source fails `failures` times and succeeds
/// after that. Returns the report, the URLs attempted and the waits made.
fn run(fetcher: &mut ImageFetcher, failures: usize, url_index: Option<usize>) -> (FetchReport, Vec<String>, Vec<u64>) {
    let attempted = RefCell::new(Vec::new());
    let waits = RefCell::new(Vec::new());
    let left = Cell::new(failures);
    let report = fetcher.fetch_with_retry(
        |url: &str| -> Result<Vec<u8>, String> {
            attempted.borrow_mut().push(url.to_string());
            if left.get() > 0 {
                left.set(left.get() - 1);
                Err("unreachable".to_string())
            } else {
                Ok(url.as_bytes().to_vec())
            }
        },
        |seconds: u64| waits.borrow_mut().push(seconds),
        url_index,
    );
    (report, attempted.into_inner(), waits.into_inner())
}

#[test]
fn rotation_returns_each_source_once_then_wraps() {
    for n in 1..6usize {
        let mut fetcher = ImageFetcher::new(sources(n), 3, 1);
        let mut seen = Vec::new();
        for _ in 0..n {
            seen.push(fetcher.next_source());
        }
        let expected: Vec<usize> = (0..n).collect();
        assert_eq!(seen, expected);
        assert_eq!(fetcher.next_source(), 0);
    }
}

#[test]
fn rotation_advances_on_failed_attempts_too() {
    let mut fetcher = ImageFetcher::new(sources(3), 5, 7);
    let (report, attempted, waits) = run(&mut fetcher, 2, None);
    assert_eq!(
        attempted,
        vec![
            "http://camera0.local/image.jpg".to_string(),
            "http://camera1.local/image.jpg".to_string(),
            "http://camera2.local/image.jpg".to_string()
        ]
    );
    assert_eq!(waits, vec![7, 7]);
    assert_eq!(report.result, Ok(b"http://camera2.local/image.jpg".to_vec()));
    assert_eq!(fetcher.get_current_image_url(), "http://camera0.local/image.jpg");
}

#[test]
fn explicit_source_leaves_the_rotation_alone() {
    let mut fetcher = ImageFetcher::new(sources(3), 5, 7);
    assert_eq!(fetcher.next_source(), 0);
    let (report, attempted, _) = run(&mut fetcher, 1, Some(2));
    assert_eq!(
        attempted,
        vec!["http://camera2.local/image.jpg".to_string(), "http://camera2.local/image.jpg".to_string()]
    );
    assert!(report.result.is_ok());
    assert_eq!(fetcher.get_current_image_url(), "http://camera1.local/image.jpg");
    assert_eq!(fetcher.source_at(2), Some("http://camera2.local/image.jpg"));
    assert_eq!(fetcher.source_at(3), None);
    assert_eq!(fetcher.source_count(), 3);
}

#[test]
fn success_after_one_failure_less_than_the_limit() {
    for max_retries in 1..6u32 {
        let mut fetcher = ImageFetcher::new(sources(2), max_retries, 4);
        let (report, attempted, waits) = run(&mut fetcher, (max_retries - 1) as usize, None);
        assert!(report.result.is_ok());
        assert_eq!(report.alert, None);
        assert_eq!(attempted.len(), max_retries as usize);
        assert_eq!(waits.len(), (max_retries - 1) as usize);
        assert_eq!(fetcher.get_retry_count(), 0);
        assert!(!fetcher.is_disconnect_alert_sent());
    }
}

#[test]
fn exhaustion_alerts_once_and_recovery_alerts_once() {
    let mut fetcher = ImageFetcher::new(sources(2), 3, 4);
    let (report, attempted, waits) = run(&mut fetcher, 10, None);
    assert_eq!(attempted.len(), 3);
    assert_eq!(waits, vec![4, 4]);
    assert_eq!(report.alert, Some(AlertType::SystemOffline));
    assert_eq!(
        report.result,
        Err(ImageError::DownloadFailed {
            url: "http://camera0.local/image.jpg, http://camera1.local/image.jpg".to_string(),
            reason: "Failed to fetch image after 3 retries".to_string(),
        })
    );
    assert_eq!(fetcher.get_retry_count(), 3);
    assert!(fetcher.is_disconnect_alert_sent());

    // The caller asks again while the sources are still down: one attempt,
    // no second offline alert.
    let (again, attempted, waits) = run(&mut fetcher, 10, None);
    assert_eq!(attempted.len(), 1);
    assert!(waits.is_empty());
    assert!(again.result.is_err());
    assert_eq!(again.alert, None);
    assert_eq!(fetcher.get_retry_count(), 4);

    let (back, attempted, _) = run(&mut fetcher, 0, None);
    assert_eq!(attempted.len(), 1);
    assert!(back.result.is_ok());
    assert_eq!(back.alert, Some(AlertType::SystemRecovery));
    assert_eq!(fetcher.get_retry_count(), 0);
    assert!(!fetcher.is_disconnect_alert_sent());

    let (calm, _, _) = run(&mut fetcher, 0, None);
    assert_eq!(calm.alert, None);
}

#[test]
fn a_limit_of_zero_gives_up_at_the_first_failure() {
    let mut fetcher = ImageFetcher::new(sources(1), 0, 4);
    let (report, attempted, waits) = run(&mut fetcher, 1, None);
    assert_eq!(attempted.len(), 1);
    assert!(waits.is_empty());
    assert!(report.result.is_err());
    assert_eq!(report.alert, Some(AlertType::SystemOffline));
}

#[test]
fn steps_of_the_retry_policy() {
    let mut fetcher = ImageFetcher::new(sources(2), 2, 9);
    assert_eq!(fetcher.record_failure(), FetchDecision::Retry { delay_seconds: 9 });
    assert_eq!(fetcher.get_retry_count(), 1);
    assert_eq!(
        fetcher.record_failure(),
        FetchDecision::GiveUp { alert: Some(AlertType::SystemOffline) }
    );
    assert_eq!(fetcher.record_failure(), FetchDecision::GiveUp { alert: None });
    assert_eq!(fetcher.get_retry_count(), 3);
    assert_eq!(fetcher.record_success(), Some(AlertType::SystemRecovery));
    assert_eq!(fetcher.record_success(), None);
    assert_eq!(fetcher.get_retry_count(), 0);
}

#[test]
fn getters_and_reset() {
    let mut fetcher = ImageFetcher::new(sources(3), 15, 30);
    assert_eq!(fetcher.get_max_retries(), 15);
    assert_eq!(fetcher.get_retry_delay_seconds(), 30);
    assert_eq!(
        fetcher.get_image_urls_string(),
        "http://camera0.local/image.jpg, http://camera1.local/image.jpg, http://camera2.local/image.jpg"
    );
    fetcher.next_source();
    fetcher.record_failure();
    assert_eq!(fetcher.get_current_image_url(), "http://camera1.local/image.jpg");
    fetcher.reset_state();
    assert_eq!(fetcher.get_current_image_url(), "http://camera0.local/image.jpg");
    assert_eq!(fetcher.get_retry_count(), 0);
    assert!(!fetcher.is_disconnect_alert_sent());
    assert_eq!(ImageFetcher::new(Vec::new(), 1, 1).get_image_urls_string(), "");
}
