use spotty::reconnect::ReconnectWindow;
use spotty::reconnect::MAX_RECONNECTS;
use spotty::reconnect::RECONNECT_HORIZON_SECS;

fn window_with(times: &[u64]) -> ReconnectWindow {
    let mut w = ReconnectWindow::new();
    for t in times {
        assert!(w.record_attempt(*t));
    }
    w
}

#[test]
fn constants_are_five_per_ten_minutes() {
    assert_eq!(MAX_RECONNECTS, 5);
    assert_eq!(RECONNECT_HORIZON_SECS, 600);
}

#[test]
fn new_window_is_empty_and_permits() {
    let w = ReconnectWindow::new();
    assert_eq!(w.len(), 0);
    assert_eq!(w.times(), Vec::<u64>::new());
    assert!(w.should_retry(0));
    assert!(w.should_retry(u64::MAX));
}

#[test]
fn full_window_refuses_inside_horizon_and_permits_after() {
    let w = window_with(&[0, 100, 200, 300, 400]);
    assert_eq!(w.times(), vec![0, 100, 200, 300, 400]);
    assert!(!w.should_retry(450));
    assert!(w.should_retry(700));
}

#[test]
fn first_five_are_permitted_and_the_sixth_refused() {
    let mut w = ReconnectWindow::new();
    for n in 0..5u64 {
        assert!(w.should_retry(1000 + n));
        assert!(w.record_attempt(1000 + n));
        assert_eq!(w.len(), (n + 1) as usize);
    }
    assert!(!w.should_retry(1005));
    assert!(!w.record_attempt(1005));
    assert_eq!(w.times(), vec![1000, 1001, 1002, 1003, 1004]);
}

#[test]
fn refused_attempt_leaves_window_untouched() {
    let mut w = window_with(&[10, 20, 30, 40, 50]);
    assert!(!w.record_attempt(60));
    assert_eq!(w.times(), vec![10, 20, 30, 40, 50]);
    assert!(!w.record_attempt(610));
    assert_eq!(w.times(), vec![10, 20, 30, 40, 50]);
}

#[test]
fn permitted_attempt_drops_stale_entries_and_appends() {
    let mut w = window_with(&[0, 100, 200, 300, 400]);
    assert!(w.record_attempt(700));
    assert_eq!(w.times(), vec![100, 200, 300, 400, 700]);
    assert!(!w.should_retry(700));
    assert!(w.record_attempt(5000));
    assert_eq!(w.times(), vec![5000]);
}

#[test]
fn entry_exactly_one_horizon_old_still_counts() {
    let w = window_with(&[0, 0, 0, 0, 0]);
    assert!(!w.should_retry(600));
    assert!(w.should_retry(601));
}

#[test]
fn entry_from_the_future_is_never_stale() {
    let w = window_with(&[1000, 1000, 1000, 1000, 1000]);
    assert!(!w.should_retry(0));
    assert!(!w.should_retry(999));
}

#[test]
fn clear_forgets_everything() {
    let mut w = window_with(&[1, 2, 3, 4, 5]);
    assert!(!w.should_retry(6));
    w.clear();
    assert_eq!(w.len(), 0);
    assert!(w.should_retry(6));
}

#[test]
fn should_retry_does_not_change_the_window() {
    let w = window_with(&[0, 100]);
    assert!(w.should_retry(10_000));
    assert_eq!(w.times(), vec![0, 100]);
}
