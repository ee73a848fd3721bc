use hyprcrop_platform::domain::error::AppError;
use hyprcrop_platform::platform::capture::dispatch::{
    start, step, DispatchEvent, DispatchNext, DispatchPhase,
};

fn phase_after(phase: DispatchPhase, event: DispatchEvent) -> DispatchPhase {
    match step(phase, event) {
        DispatchNext::Continue(after) => after,
        DispatchNext::Finished(result) => panic!("ended with {result:?}"),
    }
}

fn failure_after(phase: DispatchPhase, event: DispatchEvent) -> String {
    match step(phase, event) {
        DispatchNext::Finished(Err(AppError::Wayland(text))) => text,
        other => panic!("expected a failure, got {other:?}"),
    }
}

#[test]
fn a_round_returns_to_dispatching() {
    let phase = start();
    assert_eq!(phase, DispatchPhase::Dispatching);
    let phase = phase_after(phase, DispatchEvent::Completed);
    assert_eq!(phase, DispatchPhase::Checking);
    let phase = phase_after(phase, DispatchEvent::Predicate(false));
    assert_eq!(phase, DispatchPhase::Timing);
    let phase = phase_after(phase, DispatchEvent::Remaining(2_500_000_000));
    assert_eq!(phase, DispatchPhase::Flushing(2500));
    let phase = phase_after(phase, DispatchEvent::Completed);
    assert_eq!(phase, DispatchPhase::Polling(2500));
    let phase = phase_after(phase, DispatchEvent::Completed);
    assert_eq!(phase, DispatchPhase::Reading);
    assert_eq!(phase_after(phase, DispatchEvent::Completed), DispatchPhase::Dispatching);
}

#[test]
fn ends_when_the_condition_holds() {
    let end = step(DispatchPhase::Checking, DispatchEvent::Predicate(true));
    assert!(matches!(end, DispatchNext::Finished(Ok(()))));
}

#[test]
fn ends_at_the_deadline() {
    assert_eq!(
        failure_after(DispatchPhase::Timing, DispatchEvent::Remaining(0)),
        "Wayland capture timed out: compositor did not respond in time"
    );
}

#[test]
fn polls_whole_milliseconds_up_to_the_largest_timeout() {
    let timeout = |nanos| phase_after(DispatchPhase::Timing, DispatchEvent::Remaining(nanos));
    assert_eq!(timeout(1), DispatchPhase::Flushing(0));
    assert_eq!(timeout(999_999), DispatchPhase::Flushing(0));
    assert_eq!(timeout(1_000_000), DispatchPhase::Flushing(1));
    assert_eq!(timeout(65_535_999_999), DispatchPhase::Flushing(65_535));
    assert_eq!(timeout(65_536_000_000), DispatchPhase::Flushing(65_535));
    assert_eq!(timeout(u128::MAX), DispatchPhase::Flushing(65_535));
}

#[test]
fn failures_name_their_operation() {
    let failed = || DispatchEvent::Failed("broken pipe".to_owned());
    assert_eq!(
        failure_after(DispatchPhase::Dispatching, failed()),
        "Wayland dispatch failed: broken pipe"
    );
    assert_eq!(
        failure_after(DispatchPhase::Flushing(1), failed()),
        "Wayland flush failed: broken pipe"
    );
    assert_eq!(failure_after(DispatchPhase::Polling(1), failed()), "poll failed: broken pipe");
    assert_eq!(
        failure_after(DispatchPhase::Reading, failed()),
        "Wayland read failed: broken pipe"
    );
}

#[test]
fn events_out_of_place_change_nothing() {
    for phase in [DispatchPhase::Dispatching, DispatchPhase::Polling(3), DispatchPhase::Reading] {
        assert_eq!(phase_after(phase, DispatchEvent::Predicate(true)), phase);
        assert_eq!(phase_after(phase, DispatchEvent::Remaining(0)), phase);
    }
    for phase in [
        DispatchPhase::Dispatching,
        DispatchPhase::Checking,
        DispatchPhase::Timing,
        DispatchPhase::Flushing(3),
        DispatchPhase::Polling(3),
    ] {
        assert_eq!(phase_after(phase, DispatchEvent::NothingRead), phase);
    }
    let checking = DispatchPhase::Checking;
    assert_eq!(phase_after(checking, DispatchEvent::Completed), checking);
    let timing = DispatchPhase::Timing;
    assert_eq!(phase_after(timing, DispatchEvent::Failed(String::new())), timing);
}

#[test]
fn many_rounds_end_with_the_condition() {
    let mut phase = start();
    for left in (1..=20u128).rev() {
        for event in [
            DispatchEvent::Completed,
            DispatchEvent::Predicate(false),
            DispatchEvent::Remaining(left * 1_000_000),
            DispatchEvent::Completed,
            DispatchEvent::Completed,
            DispatchEvent::Completed,
        ] {
            phase = phase_after(phase, event);
        }
    }
    phase = phase_after(phase, DispatchEvent::Completed);
    let end = step(phase, DispatchEvent::Predicate(true));
    assert!(matches!(end, DispatchNext::Finished(Ok(()))));
}

#[test]
fn a_silent_compositor_ends_in_the_timeout_error() {
    let mut phase = start();
    for left in (1..=20u128).rev() {
        for event in [
            DispatchEvent::Completed,
            DispatchEvent::Predicate(false),
            DispatchEvent::Remaining(left * 1_000_000),
            DispatchEvent::Completed,
            DispatchEvent::Completed,
            DispatchEvent::NothingRead,
        ] {
            phase = phase_after(phase, event);
        }
        assert_eq!(phase, DispatchPhase::Dispatching);
    }
    phase = phase_after(phase, DispatchEvent::Completed);
    phase = phase_after(phase, DispatchEvent::Predicate(false));
    assert_eq!(
        failure_after(phase, DispatchEvent::Remaining(0)),
        "Wayland capture timed out: compositor did not respond in time"
    );
}
