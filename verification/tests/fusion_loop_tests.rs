use imu_posture::binary32::Quaternion;
use imu_posture::error::FusionError;
use imu_posture::fusion_loop::{Action, CycleOutcome, Event, FusionLoop, Phase};
use imu_posture::message::{frame_id, OrientationMessage};

fn finished(outcome: CycleOutcome, elapsed_ms: u64) -> Event {
    Event::CycleFinished { outcome, elapsed_ms }
}

#[test]
fn loop_is_not_made_of_a_zero_period() {
    assert_eq!(FusionLoop::new(0), Err(FusionError::InvalidConfiguration));
}

#[test]
fn loop_is_not_made_of_a_negative_period() {
    assert_eq!(FusionLoop::new(-10), Err(FusionError::InvalidConfiguration));
}

#[test]
fn new_loop_awaits_a_sample() {
    let m = FusionLoop::new(10).unwrap();
    assert_eq!(m.current_phase(), Phase::AwaitingSample);
    assert_eq!(m.period().as_millis(), 10);
}

#[test]
fn sample_is_fused_and_the_rest_of_the_period_slept() {
    let mut m = FusionLoop::new(10).unwrap();
    assert_eq!(m.step(Event::SampleArrived), Action::Fuse);
    assert_eq!(m.current_phase(), Phase::Fusing);
    assert_eq!(
        m.step(finished(CycleOutcome::Published, 3)),
        Action::Rest { sleep_ms: 7, overrun: false, notice: None }
    );
    assert_eq!(m.current_phase(), Phase::AwaitingSample);
}

#[test]
fn cycle_that_takes_the_whole_period_is_no_overrun() {
    let mut m = FusionLoop::new(10).unwrap();
    m.step(Event::SampleArrived);
    assert_eq!(
        m.step(finished(CycleOutcome::Published, 10)),
        Action::Rest { sleep_ms: 0, overrun: false, notice: None }
    );
}

#[test]
fn overrun_is_flagged_and_not_slept() {
    let mut m = FusionLoop::new(10).unwrap();
    m.step(Event::SampleArrived);
    assert_eq!(
        m.step(finished(CycleOutcome::Published, 11)),
        Action::Rest { sleep_ms: 0, overrun: true, notice: None }
    );
    assert_eq!(m.current_phase(), Phase::AwaitingSample);
}

#[test]
fn publish_failure_is_reported_and_survived() {
    let mut m = FusionLoop::new(10).unwrap();
    m.step(Event::SampleArrived);
    assert_eq!(
        m.step(finished(CycleOutcome::PublishFailed, 4)),
        Action::Rest { sleep_ms: 6, overrun: false, notice: Some(FusionError::PublishFailure) }
    );
    assert_eq!(m.step(Event::SampleArrived), Action::Fuse);
}

#[test]
fn instability_is_reported_and_survived() {
    let mut m = FusionLoop::new(10).unwrap();
    m.step(Event::SampleArrived);
    assert_eq!(
        m.step(finished(CycleOutcome::Unstable, 2)),
        Action::Rest { sleep_ms: 8, overrun: false, notice: Some(FusionError::NumericInstability) }
    );
    assert_eq!(m.step(Event::SampleArrived), Action::Fuse);
}

#[test]
fn missing_sample_halts_the_loop() {
    let mut m = FusionLoop::new(10).unwrap();
    assert_eq!(m.step(Event::SampleUnavailable), Action::Halt(FusionError::SampleUnavailable));
    assert_eq!(m.current_phase(), Phase::AwaitingSample);
}

#[test]
fn loop_without_retries_forgives_nothing() {
    let m = FusionLoop::new(10).unwrap();
    assert_eq!(m.failures_in_a_row(), 0);
    assert_eq!(m, FusionLoop::with_retries(10, 0).unwrap());
}

#[test]
fn retries_need_a_positive_period_too() {
    assert_eq!(FusionLoop::with_retries(0, 3), Err(FusionError::InvalidConfiguration));
    assert_eq!(FusionLoop::with_retries(-4, 3), Err(FusionError::InvalidConfiguration));
}

#[test]
fn source_failures_are_retried_up_to_the_limit() {
    let mut m = FusionLoop::with_retries(10, 3).unwrap();
    for failed in 1u32..=3 {
        assert_eq!(m.step(Event::SampleUnavailable), Action::Retry { backoff_ms: 10 });
        assert_eq!(m.failures_in_a_row(), failed);
        assert_eq!(m.current_phase(), Phase::AwaitingSample);
    }
    assert_eq!(m.step(Event::SampleUnavailable), Action::Halt(FusionError::SampleUnavailable));
    assert_eq!(m.failures_in_a_row(), 3);
    assert_eq!(m.step(Event::SampleUnavailable), Action::Halt(FusionError::SampleUnavailable));
}

#[test]
fn sample_sets_the_failures_back_to_zero() {
    let mut m = FusionLoop::with_retries(10, 2).unwrap();
    assert_eq!(m.step(Event::SampleUnavailable), Action::Retry { backoff_ms: 10 });
    assert_eq!(m.step(Event::SampleUnavailable), Action::Retry { backoff_ms: 10 });
    assert_eq!(m.step(Event::SampleArrived), Action::Fuse);
    assert_eq!(m.failures_in_a_row(), 0);
    m.step(finished(CycleOutcome::Published, 1));
    assert_eq!(m.step(Event::SampleUnavailable), Action::Retry { backoff_ms: 10 });
    assert_eq!(m.step(Event::SampleUnavailable), Action::Retry { backoff_ms: 10 });
    assert_eq!(m.step(Event::SampleUnavailable), Action::Halt(FusionError::SampleUnavailable));
}

#[test]
fn misplaced_events_are_ignored() {
    let mut m = FusionLoop::new(10).unwrap();
    assert_eq!(m.step(finished(CycleOutcome::Published, 1)), Action::Ignore);
    assert_eq!(m.current_phase(), Phase::AwaitingSample);
    m.step(Event::SampleArrived);
    assert_eq!(m.step(Event::SampleArrived), Action::Ignore);
    assert_eq!(m.current_phase(), Phase::Fusing);
    assert_eq!(m.step(Event::SampleUnavailable), Action::Ignore);
    assert_eq!(m.current_phase(), Phase::Fusing);
}

#[test]
fn hundred_cycles_keep_the_cadence() {
    let mut m = FusionLoop::new(10).unwrap();
    for cycle in 0u64..100 {
        assert_eq!(m.step(Event::SampleArrived), Action::Fuse);
        let elapsed = cycle % 13;
        let action = m.step(finished(CycleOutcome::Published, elapsed));
        let expected = if elapsed > 10 {
            Action::Rest { sleep_ms: 0, overrun: true, notice: None }
        } else {
            Action::Rest { sleep_ms: 10 - elapsed, overrun: false, notice: None }
        };
        assert_eq!(action, expected);
        assert_eq!(m.current_phase(), Phase::AwaitingSample);
        assert_eq!(m.period().as_millis(), 10);
    }
}

#[test]
fn only_configuration_and_source_failures_are_fatal() {
    assert!(FusionError::InvalidConfiguration.is_fatal());
    assert!(FusionError::SampleUnavailable.is_fatal());
    assert!(!FusionError::PublishFailure.is_fatal());
    assert!(!FusionError::NumericInstability.is_fatal());
}

#[test]
fn frame_is_odom() {
    assert_eq!(frame_id(), "odom");
}

#[test]
fn message_carries_the_quaternion_it_was_made_of() {
    let q = Quaternion {
        w: 1.0f32.to_bits(),
        i: 0.0f32.to_bits(),
        j: 0.0f32.to_bits(),
        k: 0.0f32.to_bits(),
    };
    let message = OrientationMessage::compose(q).unwrap();
    assert_eq!(message.orientation(), q);
    assert_eq!(message.frame(), "odom");
    assert_eq!(f32::from_bits(message.orientation().w), 1.0);
}

#[test]
fn message_is_not_made_of_a_nan() {
    let q = Quaternion {
        w: f32::NAN.to_bits(),
        i: 0.0f32.to_bits(),
        j: 0.0f32.to_bits(),
        k: 0.0f32.to_bits(),
    };
    assert_eq!(OrientationMessage::compose(q), Err(FusionError::NumericInstability));
    let r = Quaternion { k: f32::INFINITY.to_bits(), ..q };
    assert_eq!(OrientationMessage::compose(r), Err(FusionError::NumericInstability));
}
