use print_guardian::detector::{BBox, Detection, Score};
use print_guardian::monitor::{Monitor, StatusDecision};

fn score(value: f32) -> Score {
    Score::from_bits(value.to_bits())
}

fn detection(confidence: f32) -> Detection {
    let zero = score(0.0);
    Detection::new("failure".to_string(), score(confidence), BBox { x: zero, y: zero, w: zero, h: zero })
}

fn frame(confidences: &[f32]) -> Vec<Detection> {
    confidences.iter().map(|c| detection(*c)).collect()
}

#[test]
fn a_failed_pause_keeps_the_count_and_is_tried_again() {
    let mut monitor = Monitor::new(3, score(0.5), 15);
    let first = monitor.accumulate(&frame(&[0.9, 0.8, 0.7]));
    assert_eq!(monitor.failure_count(), 3);
    assert!(!first.pause);

    let second = monitor.accumulate(&frame(&[0.9]));
    assert_eq!(monitor.failure_count(), 4);
    assert!(second.pause);
    assert_eq!(monitor.pause_attempted(false), None);
    assert_eq!(monitor.failure_count(), 4);

    let third = monitor.accumulate(&frame(&[0.4, 0.9]));
    assert_eq!(third.significant.len(), 1);
    assert_eq!(monitor.failure_count(), 5);
    assert!(third.pause);
    assert_eq!(monitor.pause_attempted(true), Some(5));
    assert_eq!(monitor.failure_count(), 0);
    assert!(!monitor.accumulate(&frame(&[])).pause);
}

#[test]
fn every_significant_detection_of_a_frame_counts() {
    let mut monitor = Monitor::new(3, score(0.5), 15);
    let decision = monitor.accumulate(&frame(&[0.3, 0.6, 0.9, 0.5, 0.51]));
    assert_eq!(decision.significant.len(), 3);
    assert_eq!(monitor.failure_count(), 3);
    assert!(!decision.pause);
    let decision = monitor.accumulate(&frame(&[0.2]));
    assert!(decision.significant.is_empty());
    assert_eq!(monitor.failure_count(), 3);
    assert!(!decision.pause);
}

/// Feeds one observed state through the monitor as the loop does, with a
/// notification that is always delivered. Tells whether it was a
/// transition.
fn see(monitor: &mut Monitor, state: &str) -> bool {
    match monitor.observe(Some(state)) {
        StatusDecision::Announce => {
            monitor.status_notified(state, true);
            true
        }
        _ => false,
    }
}

#[test]
fn transitions_are_announced_once_and_reset_the_count() {
    let mut monitor = Monitor::new(3, score(0.5), 15);
    // The first state ever seen differs from none recorded.
    assert!(see(&mut monitor, "printing"));

    let states = ["printing", "printing", "paused", "printing"];
    let mut transitions = Vec::new();
    let mut resets = Vec::new();
    for (position, state) in states.iter().enumerate() {
        monitor.accumulate(&frame(&[0.9]));
        let before = monitor.failure_count();
        let transition = see(&mut monitor, state);
        if transition {
            transitions.push(position + 1);
        }
        if monitor.failure_count() == 0 && before > 0 {
            resets.push(position + 1);
        }
    }
    assert_eq!(transitions, vec![3, 4]);
    assert_eq!(resets, vec![3, 4]);
}

#[test]
fn detection_runs_only_while_printing() {
    let mut monitor = Monitor::new(3, score(0.5), 15);
    assert_eq!(monitor.observe(Some("paused")), StatusDecision::Announce);
    assert_eq!(monitor.status_notified("paused", true), StatusDecision::Wait { seconds: 15 });
    assert_eq!(monitor.observe(Some("paused")), StatusDecision::Wait { seconds: 15 });
    assert_eq!(monitor.observe(Some("printing")), StatusDecision::Announce);
    assert_eq!(monitor.status_notified("printing", true), StatusDecision::Detect);
    assert_eq!(monitor.observe(Some("printing")), StatusDecision::Detect);
    assert_eq!(monitor.last_state(), "printing");
    assert_eq!(monitor.observe(None), StatusDecision::Wait { seconds: 15 });
    assert_eq!(monitor.iteration_failed(), StatusDecision::Wait { seconds: 15 });
    assert_eq!(monitor.retry_delay_seconds(), 15);
}

#[test]
fn the_first_notification_is_repeated_until_it_is_delivered() {
    let mut monitor = Monitor::new(3, score(0.5), 15);
    assert_eq!(monitor.observe(Some("printing")), StatusDecision::Announce);
    assert_eq!(monitor.status_notified("printing", false), StatusDecision::Wait { seconds: 15 });
    assert_eq!(monitor.last_state(), "");
    assert_eq!(monitor.observe(Some("printing")), StatusDecision::Announce);
    assert_eq!(monitor.status_notified("printing", true), StatusDecision::Detect);
    assert_eq!(monitor.last_state(), "printing");

    // Later notifications that fail are not repeated: the state is
    // recorded all the same.
    assert_eq!(monitor.observe(Some("complete")), StatusDecision::Announce);
    assert_eq!(monitor.status_notified("complete", false), StatusDecision::Wait { seconds: 15 });
    assert_eq!(monitor.last_state(), "complete");
    assert_eq!(monitor.observe(Some("complete")), StatusDecision::Wait { seconds: 15 });
}

#[test]
fn the_count_stops_at_its_largest_value() {
    let mut monitor = Monitor::new(u32::MAX, score(0.5), 15);
    let many = frame(&[0.9; 5]);
    monitor.accumulate(&many);
    assert_eq!(monitor.failure_count(), 5);
    assert!(!monitor.accumulate(&many).pause);
}
