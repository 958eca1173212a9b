use posthog_client::{capture_batch_result, ApiOptions, CaptureError, Client};

#[test]
fn batch_stops_at_first_failure() {
    let outcomes = vec![
        Ok(()),
        Err(CaptureError::Transport("connection refused".to_string())),
        Ok(()),
    ];
    let report = capture_batch_result(&outcomes);
    assert_eq!(report.delivered, 1);
    assert_eq!(report.attempted, 2);
    assert_eq!(
        report.error,
        Some(CaptureError::Transport("connection refused".to_string()))
    );
}

#[test]
fn batch_all_delivered() {
    let outcomes = vec![Ok(()), Ok(()), Ok(())];
    let report = capture_batch_result(&outcomes);
    assert_eq!(report.delivered, 3);
    assert_eq!(report.attempted, 3);
    assert_eq!(report.error, None);
}

#[test]
fn batch_empty() {
    let report = capture_batch_result(&Vec::new());
    assert_eq!(report.delivered, 0);
    assert_eq!(report.attempted, 0);
    assert_eq!(report.error, None);
}

#[test]
fn batch_first_fails_immediately() {
    let outcomes = vec![Err(CaptureError::Timeout(50)), Ok(())];
    let report = capture_batch_result(&outcomes);
    assert_eq!(report.delivered, 0);
    assert_eq!(report.attempted, 1);
    assert_eq!(report.error, Some(CaptureError::Timeout(50)));
}

#[test]
fn batch_surfaces_serialization_error() {
    let outcomes = vec![
        Ok(()),
        Ok(()),
        Err(CaptureError::Serialization("unencodable".to_string())),
    ];
    let report = capture_batch_result(&outcomes);
    assert_eq!(report.delivered, 2);
    assert_eq!(report.attempted, 3);
    assert_eq!(
        report.error,
        Some(CaptureError::Serialization("unencodable".to_string()))
    );
}

#[test]
fn timeout_error_carries_bound() {
    let options = ApiOptions::new("https://example.com/".to_string(), "k".to_string());
    let client = Client::new_with_timeout(options, 50);
    assert_eq!(client.timeout_error(), CaptureError::Timeout(50));
}
