use storagehub::bridge::StorageHubError;
use storagehub::scheduler::{backoff_seconds, RetryAction, RetryScheduler};

#[test]
fn backoff_schedule_is_sixty_times_powers_of_three() {
    assert_eq!(backoff_seconds(0), 60);
    assert_eq!(backoff_seconds(1), 180);
    assert_eq!(backoff_seconds(2), 540);
    assert_eq!(backoff_seconds(3), 1620);
    assert_eq!(backoff_seconds(10), 60 * 59_049);
    // Far past the integer bound the wait saturates.
    assert_eq!(backoff_seconds(1000), u64::MAX);
}

#[test]
fn finished_subscription_reconnects_at_once() {
    let mut scheduler = RetryScheduler::new();
    let action = scheduler.on_run_end(&StorageHubError::SubscriptionFinished);
    assert_eq!(action, RetryAction::ReconnectNow);

    // The failure count is untouched: a later real failure still waits
    // the first backoff step.
    let action = scheduler.on_run_end(&StorageHubError::CodecError);
    assert_eq!(action, RetryAction::Backoff { seconds: 180 });
}

#[test]
fn consecutive_failures_escalate_backoff() {
    let mut scheduler = RetryScheduler::new();

    // First failure: 60 * 3^1 seconds.
    let action = scheduler.on_run_end(&StorageHubError::CodecError);
    assert_eq!(action, RetryAction::Backoff { seconds: 180 });

    // Second consecutive failure: 60 * 3^2 seconds.
    let action = scheduler.on_run_end(&StorageHubError::CodecError);
    assert_eq!(action, RetryAction::Backoff { seconds: 540 });

    // The count never resets, not even after an ended subscription.
    scheduler.on_run_end(&StorageHubError::SubscriptionFinished);
    let action = scheduler.on_run_end(&StorageHubError::SubxtError);
    assert_eq!(action, RetryAction::Backoff { seconds: 1620 });
}
