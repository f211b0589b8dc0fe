use capture_card_viewer::errors::AppError;
use capture_card_viewer::watchdog::{
    StreamKind, Watchdog, WatchdogAction, WatchdogEvent, INITIAL_BACKOFF_MS, MAX_BACKOFF_MS,
};

fn fail(e: AppError) -> WatchdogEvent {
    WatchdogEvent::RestartFailed { error: e }
}

#[test]
fn watchdog_exits_on_stop() {
    let mut w = Watchdog::new(StreamKind::Video);
    let a = w.step(WatchdogEvent::Tick { stop_requested: true, needs_restart: true });
    assert!(matches!(a, WatchdogAction::Exit));
}

#[test]
fn watchdog_healthy_stream_keeps_watching() {
    let mut w = Watchdog::new(StreamKind::Audio);
    w.step(fail(AppError::AudioStreamFailed));
    assert_eq!(w.backoff_ms(), 2000);
    let a = w.step(WatchdogEvent::Tick { stop_requested: false, needs_restart: false });
    assert!(matches!(a, WatchdogAction::KeepWatching));
    assert_eq!(w.backoff_ms(), INITIAL_BACKOFF_MS);
}

#[test]
fn watchdog_restarts_failed_stream() {
    let mut w = Watchdog::new(StreamKind::Audio);
    let a = w.step(WatchdogEvent::Tick { stop_requested: false, needs_restart: true });
    assert!(matches!(a, WatchdogAction::Restart));
}

#[test]
fn watchdog_backoff_doubles_to_ten_seconds() {
    let mut w = Watchdog::new(StreamKind::Audio);
    let mut delays = Vec::new();
    for _ in 0..6 {
        match w.step(fail(AppError::AudioStreamFailed)) {
            WatchdogAction::RetryAfter { delay_ms, notice } => {
                assert_eq!(notice, None);
                delays.push(delay_ms);
            }
            other => panic!("unexpected action {other:?}"),
        }
    }
    assert_eq!(delays, vec![2000, 4000, 8000, 10000, 10000, 10000]);
    assert_eq!(w.backoff_ms(), MAX_BACKOFF_MS);
}

#[test]
fn watchdog_video_failure_notice() {
    let mut w = Watchdog::new(StreamKind::Video);
    match w.step(fail(AppError::VideoDeviceInUse)) {
        WatchdogAction::RetryAfter { delay_ms, notice } => {
            assert_eq!(delay_ms, 2000);
            assert_eq!(
                notice.as_deref(),
                Some("Video reconnect failed: The video device is in use by another application. Retrying...")
            );
        }
        other => panic!("unexpected action {other:?}"),
    }
}

#[test]
fn watchdog_reconnect_notices_and_reset() {
    let mut v = Watchdog::new(StreamKind::Video);
    v.step(fail(AppError::VideoStreamFailed));
    v.step(fail(AppError::VideoStreamFailed));
    match v.step(WatchdogEvent::Restarted) {
        WatchdogAction::Resume { notice } => {
            assert_eq!(notice.as_deref(), Some("Video reconnected automatically."))
        }
        other => panic!("unexpected action {other:?}"),
    }
    assert_eq!(v.backoff_ms(), INITIAL_BACKOFF_MS);
    let mut a = Watchdog::new(StreamKind::Audio);
    match a.step(WatchdogEvent::Restarted) {
        WatchdogAction::Resume { notice } => {
            assert_eq!(notice.as_deref(), Some("Audio reconnected automatically."))
        }
        other => panic!("unexpected action {other:?}"),
    }
}

#[test]
fn watchdog_kth_failure_after_recovery() {
    let mut w = Watchdog::new(StreamKind::Video);
    w.step(fail(AppError::VideoStreamFailed));
    w.step(fail(AppError::VideoStreamFailed));
    w.step(WatchdogEvent::Tick { stop_requested: false, needs_restart: false });
    match w.step(fail(AppError::VideoStreamFailed)) {
        WatchdogAction::RetryAfter { delay_ms, .. } => assert_eq!(delay_ms, 2000),
        other => panic!("unexpected action {other:?}"),
    }
    w.step(WatchdogEvent::Tick { stop_requested: false, needs_restart: true });
    match w.step(fail(AppError::VideoStreamFailed)) {
        WatchdogAction::RetryAfter { delay_ms, .. } => assert_eq!(delay_ms, 4000),
        other => panic!("unexpected action {other:?}"),
    }
}
