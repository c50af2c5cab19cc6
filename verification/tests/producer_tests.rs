use waterman_bridge::data_gen::{Column, GenerationError};
use waterman_bridge::parameters::{DataType, Parameters, SignalPattern, TestDuration};
use waterman_bridge::producer::{
    Producer, ProducerState, StopReason, TickAction, MAX_CONSECUTIVE_ERRORS, QUEUE_CAPACITY,
};
use waterman_bridge::schema::build_schema;
use waterman_bridge::signal::Sample;

const NOW: u64 = 1_700_000_000_000;

/// Nanoseconds in a millisecond, a microsecond and a second of session time.
const MS: u64 = 1_000_000;
const US: u64 = 1_000;
const S: u64 = 1_000_000_000;

fn at_rate(rate_hz: f64, duration: TestDuration) -> Parameters {
    let mut params = Parameters::new();
    params.data_volume.data_rate_hz = rate_hz.to_bits();
    params.data_volume.test_duration = duration;
    params.data_volume.num_channels = 1;
    params.websocket.batch_size = 1;
    params
}

/// Runs the loop with every tick at the instant at which the next batch is
/// due, and counts the batches until the producer stops.
fn batches_in_paced_run(params: &Parameters) -> u64 {
    let mut producer = Producer::new();
    let mut batches = 0;
    let mut time = 0;
    loop {
        match producer.tick(params, time, NOW) {
            TickAction::Stop(reason) => {
                assert_eq!(reason, StopReason::DurationElapsed);
                return batches;
            }
            TickAction::Emit(_) => batches += 1,
            TickAction::Idle => {}
            TickAction::Retry(error) => panic!("unexpected failure {:?}", error),
        }
        let wait = producer.time_until_due(params, time);
        assert!(wait > 0);
        time += wait;
    }
}

#[test]
fn new_producer_is_running() {
    let producer = Producer::new();
    assert_eq!(producer.state(), ProducerState::Running);
    assert_eq!(producer.rows_generated(), 0);
    assert_eq!(producer.consecutive_errors(), 0);
    assert_eq!(MAX_CONSECUTIVE_ERRORS, 5);
    assert_eq!(QUEUE_CAPACITY, 512);
}

#[test]
fn batches_come_due_once_per_period() {
    let mut params = at_rate(100.0, TestDuration::OpenEnded);
    params.websocket.batch_size = 10;
    let mut producer = Producer::new();
    assert_eq!(producer.tick(&params, 0, NOW), TickAction::Idle);
    assert_eq!(producer.tick(&params, 10 * MS - 1, NOW), TickAction::Idle);
    match producer.tick(&params, 10 * MS, NOW) {
        TickAction::Emit(batch) => {
            assert_eq!(batch.num_rows, 10);
            assert_eq!(batch.schema, build_schema(&params.data_characteristics, 1));
            assert_eq!(batch.columns[0], Column::UInt64((0..10).map(|i| NOW + 10 * i).collect()));
        }
        other => panic!("unexpected action {:?}", other),
    }
    assert_eq!(producer.rows_generated(), 10);
    assert_eq!(producer.tick(&params, 10 * MS, NOW), TickAction::Idle);
    assert_eq!(producer.tick(&params, 20 * MS - 1, NOW), TickAction::Idle);
    // A clock that runs backwards makes nothing due.
    assert_eq!(producer.tick(&params, 3 * MS, NOW), TickAction::Idle);
    match producer.tick(&params, 27 * MS, NOW) {
        TickAction::Emit(batch) => match &batch.columns[1] {
            Column::Float64(values) => {
                assert_eq!(
                    values[0],
                    Sample::Sine { amplitude: params.data_volume.float_precision, index: 10 }
                );
            }
            other => panic!("unexpected column {:?}", other),
        },
        other => panic!("unexpected action {:?}", other),
    }
    // The period counts from the tick at which the last batch came due.
    assert_eq!(producer.tick(&params, 37 * MS - 1, NOW), TickAction::Idle);
    assert!(matches!(producer.tick(&params, 37 * MS, NOW), TickAction::Emit(_)));
    assert_eq!(producer.rows_generated(), 30);
    assert_eq!(producer.state(), ProducerState::Running);
}

#[test]
fn the_period_is_not_rounded() {
    // 600 Hz: a batch every 1 2/3 ms.
    let params = at_rate(600.0, TestDuration::OpenEnded);
    let mut producer = Producer::new();
    assert_eq!(producer.tick(&params, 1_666_666, NOW), TickAction::Idle);
    assert!(matches!(producer.tick(&params, 1_666_667, NOW), TickAction::Emit(_)));
    assert_eq!(producer.tick(&params, 3_333_333, NOW), TickAction::Idle);
    assert!(matches!(producer.tick(&params, 3_333_334, NOW), TickAction::Emit(_)));
    assert_eq!(producer.tick(&params, 4_999_999, NOW), TickAction::Idle);
    assert!(matches!(producer.tick(&params, 5_000_000, NOW), TickAction::Emit(_)));
    assert_eq!(producer.rows_generated(), 3);
}

#[test]
fn a_rate_above_a_kilohertz_is_paced_too() {
    // 50 kHz: a batch every twenty microseconds, and none at the very start.
    let params = at_rate(50_000.0, TestDuration::OpenEnded);
    let mut producer = Producer::new();
    assert_eq!(producer.tick(&params, 0, NOW), TickAction::Idle);
    assert_eq!(producer.tick(&params, 20 * US - 1, NOW), TickAction::Idle);
    assert!(matches!(producer.tick(&params, 20 * US, NOW), TickAction::Emit(_)));
    assert_eq!(producer.tick(&params, 20 * US, NOW), TickAction::Idle);
    assert_eq!(producer.tick(&params, 40 * US - 1, NOW), TickAction::Idle);
    assert!(matches!(producer.tick(&params, 40 * US, NOW), TickAction::Emit(_)));
    assert!(matches!(producer.tick(&params, 60 * US, NOW), TickAction::Emit(_)));
    assert_eq!(producer.rows_generated(), 3);
}

#[test]
fn a_late_tick_starts_the_schedule_afresh() {
    let params = at_rate(100.0, TestDuration::OpenEnded);
    let mut producer = Producer::new();
    // Three periods have passed: one batch is sent, the others are not made
    // up for, and the next is due one period after this one.
    assert!(matches!(producer.tick(&params, 35 * MS, NOW), TickAction::Emit(_)));
    assert_eq!(producer.tick(&params, 35 * MS, NOW), TickAction::Idle);
    assert_eq!(producer.tick(&params, 45 * MS - 1, NOW), TickAction::Idle);
    assert!(matches!(producer.tick(&params, 45 * MS, NOW), TickAction::Emit(_)));
    assert!(matches!(producer.tick(&params, 55 * MS, NOW), TickAction::Emit(_)));
    assert_eq!(producer.rows_generated(), 3);
}

#[test]
fn a_rate_that_is_no_rate() {
    // Nothing is ever due at a rate of zero.
    let never = at_rate(0.0, TestDuration::OpenEnded);
    let mut producer = Producer::new();
    assert_eq!(producer.tick(&never, 0, NOW), TickAction::Idle);
    assert_eq!(producer.tick(&never, u64::MAX, NOW), TickAction::Idle);
    // A negative rate sets no pace: every tick sends.
    let unpaced = at_rate(-1.0, TestDuration::OpenEnded);
    let mut producer = Producer::new();
    for time in [0, 0, 1, 5] {
        assert!(matches!(producer.tick(&unpaced, time, NOW), TickAction::Emit(_)));
    }
}

#[test]
fn the_duration_limit_stops_the_producer() {
    let params = at_rate(100.0, TestDuration::Short);
    let mut producer = Producer::new();
    assert!(matches!(producer.tick(&params, 9_990 * MS, NOW), TickAction::Emit(_)));
    assert_eq!(producer.tick(&params, 10 * S - 1, NOW), TickAction::Idle);
    assert_eq!(producer.tick(&params, 10 * S, NOW), TickAction::Stop(StopReason::DurationElapsed));
    assert_eq!(producer.state(), ProducerState::Stopped(StopReason::DurationElapsed));
    // Once stopped, always stopped, whatever the configuration says.
    let open = at_rate(100.0, TestDuration::OpenEnded);
    assert_eq!(
        producer.tick(&open, 10 * S + 50 * MS, NOW),
        TickAction::Stop(StopReason::DurationElapsed)
    );
    assert_eq!(producer.rows_generated(), 1);
}

#[test]
fn every_duration_has_its_limit() {
    for (duration, seconds) in [
        (TestDuration::Short, 10u64),
        (TestDuration::Medium, 100),
        (TestDuration::Long, 1_000),
        (TestDuration::Hour, 3_600),
    ] {
        let params = at_rate(100.0, duration);
        let mut producer = Producer::new();
        assert!(matches!(producer.tick(&params, seconds * S - 1, NOW), TickAction::Emit(_)));
        assert_eq!(
            producer.tick(&params, seconds * S, NOW),
            TickAction::Stop(StopReason::DurationElapsed)
        );
    }
    let params = at_rate(100.0, TestDuration::OpenEnded);
    let mut producer = Producer::new();
    assert!(matches!(producer.tick(&params, u64::MAX, NOW), TickAction::Emit(_)));
}

#[test]
fn a_paced_run_gives_rate_times_duration_batches() {
    // 100 Hz for 10 s: 1000 batches, give or take one. The last batch would
    // be due where the duration ends, and the limit stops it.
    assert_eq!(batches_in_paced_run(&at_rate(100.0, TestDuration::Short)), 999);
    // 600 Hz for 10 s: 6000, give or take one.
    assert_eq!(batches_in_paced_run(&at_rate(600.0, TestDuration::Short)), 5_999);
    // 3 Hz for 10 s.
    assert_eq!(batches_in_paced_run(&at_rate(3.0, TestDuration::Short)), 29);
    // 7 Hz for 100 s: 700 cycles, the last one a little before the end.
    assert_eq!(batches_in_paced_run(&at_rate(7.0, TestDuration::Medium)), 699);
    // 0.3 Hz for 10 s: floor(3) is 2 for the number that binary64 holds.
    assert_eq!(batches_in_paced_run(&at_rate(0.3, TestDuration::Short)), 2);
    // 0.5 Hz for 10 s.
    assert_eq!(batches_in_paced_run(&at_rate(0.5, TestDuration::Short)), 4);
    // 50 kHz for 10 s: half a million, give or take one.
    assert_eq!(batches_in_paced_run(&at_rate(50_000.0, TestDuration::Short)), 499_999);
}

#[test]
fn a_changed_rate_paces_the_next_tick() {
    let fast = at_rate(100.0, TestDuration::OpenEnded);
    let slow = at_rate(20.0, TestDuration::OpenEnded);
    let mut producer = Producer::new();
    assert!(matches!(producer.tick(&fast, 10 * MS, NOW), TickAction::Emit(_)));
    assert!(matches!(producer.tick(&fast, 20 * MS, NOW), TickAction::Emit(_)));
    // The rate drops: the next batch is due fifty milliseconds after the last.
    assert_eq!(producer.tick(&slow, 30 * MS, NOW), TickAction::Idle);
    assert_eq!(producer.tick(&slow, 70 * MS - 1, NOW), TickAction::Idle);
    assert!(matches!(producer.tick(&slow, 70 * MS, NOW), TickAction::Emit(_)));
    // The rate rises again: ten milliseconds are enough.
    assert_eq!(producer.tick(&fast, 80 * MS - 1, NOW), TickAction::Idle);
    assert!(matches!(producer.tick(&fast, 80 * MS, NOW), TickAction::Emit(_)));
    assert_eq!(producer.rows_generated(), 4);
    assert_eq!(producer.state(), ProducerState::Running);
}

#[test]
fn a_changed_layout_shapes_the_next_batch() {
    let mut params = at_rate(100.0, TestDuration::OpenEnded);
    let mut producer = Producer::new();
    assert!(matches!(producer.tick(&params, 10 * MS, NOW), TickAction::Emit(_)));
    params.data_volume.num_channels = 3;
    params.data_characteristics.data_type = DataType::Array;
    params.data_characteristics.signal_pattern = SignalPattern::StepFunction;
    params.websocket.batch_size = 2;
    match producer.tick(&params, 20 * MS, NOW) {
        TickAction::Emit(batch) => {
            assert_eq!(batch.num_rows, 2);
            assert_eq!(batch.schema, build_schema(&params.data_characteristics, 3));
            assert_eq!(batch.columns.len(), 4);
        }
        other => panic!("unexpected action {:?}", other),
    }
    assert_eq!(producer.rows_generated(), 3);
}

#[test]
fn five_failures_in_a_row_stop_the_producer() {
    let mut params = at_rate(100.0, TestDuration::OpenEnded);
    params.websocket.batch_size = 10;
    let mut producer = Producer::new();
    // At the end of the wall clock the timestamps of a batch do not fit.
    for failures in 1..MAX_CONSECUTIVE_ERRORS {
        assert_eq!(
            producer.tick(&params, 10 * MS * failures as u64, u64::MAX),
            TickAction::Retry(GenerationError::TimestampOverflow)
        );
        assert_eq!(producer.consecutive_errors(), failures);
        assert_eq!(producer.state(), ProducerState::Running);
    }
    assert_eq!(
        producer.tick(&params, 50 * MS, u64::MAX),
        TickAction::Stop(StopReason::TooManyErrors)
    );
    assert_eq!(producer.state(), ProducerState::Stopped(StopReason::TooManyErrors));
    assert_eq!(producer.consecutive_errors(), 5);
    assert_eq!(producer.rows_generated(), 0);
    assert_eq!(producer.tick(&params, 60 * MS, NOW), TickAction::Stop(StopReason::TooManyErrors));
}

#[test]
fn a_batch_that_succeeds_forgets_the_failures() {
    let mut params = at_rate(100.0, TestDuration::OpenEnded);
    params.websocket.batch_size = 10;
    let mut producer = Producer::new();
    let mut time = 0;
    for _ in 0..3 {
        for _ in 0..4 {
            time += 10 * MS;
            assert!(matches!(producer.tick(&params, time, u64::MAX), TickAction::Retry(_)));
        }
        assert_eq!(producer.consecutive_errors(), 4);
        time += 10 * MS;
        assert!(matches!(producer.tick(&params, time, NOW), TickAction::Emit(_)));
        assert_eq!(producer.consecutive_errors(), 0);
    }
    assert_eq!(producer.state(), ProducerState::Running);
    assert_eq!(producer.rows_generated(), 30);
}

#[test]
fn a_failed_batch_uses_up_its_slot() {
    let mut params = at_rate(100.0, TestDuration::OpenEnded);
    params.websocket.batch_size = 10;
    let mut producer = Producer::new();
    assert!(matches!(producer.tick(&params, 10 * MS, u64::MAX), TickAction::Retry(_)));
    assert_eq!(producer.tick(&params, 11 * MS, NOW), TickAction::Idle);
    assert!(matches!(producer.tick(&params, 20 * MS, NOW), TickAction::Emit(_)));
}

#[test]
fn a_closed_queue_stops_a_running_producer() {
    let params = at_rate(100.0, TestDuration::OpenEnded);
    let mut producer = Producer::new();
    assert!(matches!(producer.tick(&params, 10 * MS, NOW), TickAction::Emit(_)));
    producer.queue_closed();
    assert_eq!(producer.state(), ProducerState::Stopped(StopReason::QueueClosed));
    assert_eq!(producer.tick(&params, 20 * MS, NOW), TickAction::Stop(StopReason::QueueClosed));
    assert_eq!(producer.rows_generated(), 1);

    let mut stopped = Producer::new();
    let short = at_rate(100.0, TestDuration::Short);
    assert_eq!(stopped.tick(&short, 20 * S, NOW), TickAction::Stop(StopReason::DurationElapsed));
    stopped.queue_closed();
    assert_eq!(stopped.state(), ProducerState::Stopped(StopReason::DurationElapsed));
}

#[test]
fn the_loop_sleeps_until_the_next_batch_is_due() {
    let params = at_rate(100.0, TestDuration::OpenEnded);
    let mut producer = Producer::new();
    assert_eq!(producer.time_until_due(&params, 0), 10 * MS);
    assert_eq!(producer.time_until_due(&params, 3 * MS), 7 * MS);
    assert_eq!(producer.time_until_due(&params, 10 * MS - 1), 1);
    assert_eq!(producer.time_until_due(&params, 10 * MS), 0);
    assert_eq!(producer.time_until_due(&params, 25 * MS), 0);
    assert!(matches!(producer.tick(&params, 12 * MS, NOW), TickAction::Emit(_)));
    // The next batch is due one period after this one.
    assert_eq!(producer.time_until_due(&params, 12 * MS), 10 * MS);
    assert_eq!(producer.time_until_due(&params, 20 * MS), 2 * MS);
    assert_eq!(producer.time_until_due(&params, 22 * MS), 0);
    // Under another rate, a period of that rate after the last batch.
    let slow = at_rate(20.0, TestDuration::OpenEnded);
    assert_eq!(producer.time_until_due(&slow, 12 * MS), 50 * MS);
    assert_eq!(producer.time_until_due(&slow, 5 * MS), 57 * MS);
}

#[test]
fn the_time_until_a_batch_is_due_is_not_rounded() {
    let mut producer = Producer::new();
    assert_eq!(producer.time_until_due(&at_rate(600.0, TestDuration::OpenEnded), 0), 1_666_667);
    assert_eq!(producer.time_until_due(&at_rate(3.0, TestDuration::OpenEnded), 0), 333_333_334);
    assert_eq!(producer.time_until_due(&at_rate(50_000.0, TestDuration::OpenEnded), 0), 20_000);
    assert_eq!(producer.time_until_due(&at_rate(2e9, TestDuration::OpenEnded), 0), 1);
    assert_eq!(producer.time_until_due(&at_rate(0.5, TestDuration::OpenEnded), 0), 2 * S);
    // A tenth of a hertz, which binary64 holds a little too large.
    assert_eq!(producer.time_until_due(&at_rate(0.1, TestDuration::OpenEnded), 0), 10 * S);
    let params = at_rate(600.0, TestDuration::OpenEnded);
    let mut time = 0;
    for batch in 1..=3000u64 {
        time += producer.time_until_due(&params, time);
        assert_eq!(time, (batch * 1_000_000_000 + 599) / 600);
        assert!(matches!(producer.tick(&params, time, NOW), TickAction::Emit(_)));
    }
    assert_eq!(time, 5 * S);
}

#[test]
fn nothing_is_slept_for_where_nothing_paces() {
    let producer = Producer::new();
    assert_eq!(producer.time_until_due(&at_rate(0.0, TestDuration::OpenEnded), 0), u64::MAX);
    assert_eq!(producer.time_until_due(&at_rate(1e-300, TestDuration::OpenEnded), 0), u64::MAX);
    assert_eq!(producer.time_until_due(&at_rate(-1.0, TestDuration::OpenEnded), 7), 0);
    assert_eq!(producer.time_until_due(&at_rate(f64::NAN, TestDuration::OpenEnded), 7), 0);
}

#[test]
fn a_run_that_is_late_at_every_tick_falls_behind_the_rate() {
    // Every tick comes a tenth of a millisecond after its batch fell due, so
    // that the batches are 10.1 ms apart: 990 of them in ten seconds.
    let params = at_rate(100.0, TestDuration::Short);
    let mut producer = Producer::new();
    let mut batches = 0;
    let mut time = producer.time_until_due(&params, 0) + 100 * US;
    loop {
        match producer.tick(&params, time, NOW) {
            TickAction::Stop(_) => break,
            TickAction::Emit(_) => batches += 1,
            other => panic!("unexpected action {:?}", other),
        }
        time += producer.time_until_due(&params, time) + 100 * US;
    }
    assert_eq!(batches, 990);
}
