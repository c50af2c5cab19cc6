use rand::Rng;
use waterman_bridge::consumer::{
    disconnect_at_risk, latency, should_disconnect, CloseReason, Consumer, ConsumerAction,
    ConsumerEvent, ConsumerState, REPORT_INTERVAL_MS,
};
use waterman_bridge::parameters::Parameters;

fn impaired(latency_ms: Option<u64>, probability: Option<f64>) -> Parameters {
    let mut params = Parameters::new();
    if let Some(ms) = latency_ms {
        params.websocket.simulate_latency = true;
        params.websocket.latency_ms = ms;
    }
    if let Some(p) = probability {
        params.websocket.simulate_disconnects = true;
        params.websocket.disconnection_probability = p.to_bits();
    }
    params
}

fn drawn(sample: f64) -> ConsumerEvent {
    ConsumerEvent::Drawn { sample: sample.to_bits() }
}

#[test]
fn new_consumer_is_draining() {
    let consumer = Consumer::new(42);
    assert_eq!(
        consumer,
        Consumer {
            success_count: 0,
            error_count: 0,
            last_report_ms: 42,
            state: ConsumerState::Draining
        }
    );
    assert!(!consumer.is_closed());
    assert_eq!(REPORT_INTERVAL_MS, 5000);
}

#[test]
fn a_frame_goes_out_without_impairment() {
    let params = Parameters::new();
    let mut consumer = Consumer::new(0);
    assert_eq!(
        consumer.step(ConsumerEvent::Encoded, &params),
        ConsumerAction::Deliver { delay_ms: 0, draw: false }
    );
    assert_eq!(consumer.step(ConsumerEvent::Sent { now_ms: 12 }, &params), ConsumerAction::Next);
    assert_eq!(consumer.success_count, 1);
    assert_eq!(consumer.error_count, 0);
    assert_eq!(consumer.state, ConsumerState::Draining);
}

#[test]
fn a_failed_encoding_is_counted_and_the_frame_dropped() {
    let params = Parameters::new();
    let mut consumer = Consumer::new(0);
    assert_eq!(consumer.step(ConsumerEvent::EncodeFailed, &params), ConsumerAction::Next);
    assert_eq!(consumer.step(ConsumerEvent::EncodeFailed, &params), ConsumerAction::Next);
    assert_eq!(consumer.error_count, 2);
    assert_eq!(consumer.success_count, 0);
    assert!(!consumer.is_closed());
    assert_eq!(
        consumer.step(ConsumerEvent::Encoded, &params),
        ConsumerAction::Deliver { delay_ms: 0, draw: false }
    );
}

#[test]
fn latency_delays_every_frame() {
    let params = impaired(Some(40), None);
    assert_eq!(latency(&params), 40);
    let mut consumer = Consumer::new(0);
    for _ in 0..3 {
        assert_eq!(
            consumer.step(ConsumerEvent::Encoded, &params),
            ConsumerAction::Deliver { delay_ms: 40, draw: false }
        );
    }
    assert_eq!(latency(&impaired(Some(0), None)), 0);
    let mut off = impaired(Some(40), None);
    off.websocket.simulate_latency = false;
    assert_eq!(latency(&off), 0);
}

#[test]
fn a_draw_below_the_probability_disconnects() {
    let params = impaired(Some(5), Some(0.5));
    let mut consumer = Consumer::new(0);
    assert_eq!(
        consumer.step(ConsumerEvent::Encoded, &params),
        ConsumerAction::Deliver { delay_ms: 5, draw: true }
    );
    assert_eq!(consumer.step(drawn(0.75), &params), ConsumerAction::Transmit);
    assert_eq!(consumer.step(ConsumerEvent::Sent { now_ms: 1 }, &params), ConsumerAction::Next);
    assert_eq!(consumer.step(drawn(0.5), &params), ConsumerAction::Transmit);
    assert_eq!(
        consumer.step(drawn(0.4999), &params),
        ConsumerAction::Close(CloseReason::SimulatedDisconnect)
    );
    assert_eq!(consumer.state, ConsumerState::Closed(CloseReason::SimulatedDisconnect));
    assert!(consumer.is_closed());
    assert_eq!(consumer.success_count, 1);
    assert_eq!(consumer.error_count, 0);
}

#[test]
fn no_draw_is_asked_for_without_a_chance_of_disconnect() {
    assert!(!disconnect_at_risk(&Parameters::new()));
    assert!(!disconnect_at_risk(&impaired(None, Some(0.0))));
    assert!(!disconnect_at_risk(&impaired(None, Some(-0.0))));
    assert!(!disconnect_at_risk(&impaired(None, Some(f64::NAN))));
    assert!(!disconnect_at_risk(&impaired(None, Some(-0.5))));
    assert!(disconnect_at_risk(&impaired(None, Some(1e-9))));
    assert!(disconnect_at_risk(&impaired(None, Some(1.0))));
    let mut off = impaired(None, Some(0.9));
    off.websocket.simulate_disconnects = false;
    assert!(!disconnect_at_risk(&off));
    assert!(!should_disconnect(&off, 0.1f64.to_bits()));
    let mut consumer = Consumer::new(0);
    assert_eq!(consumer.step(drawn(0.0), &impaired(None, Some(0.0))), ConsumerAction::Transmit);
    assert_eq!(consumer.step(drawn(0.0), &off), ConsumerAction::Transmit);
    assert!(!consumer.is_closed());
}

#[test]
fn a_probability_of_one_always_disconnects() {
    let params = impaired(None, Some(1.0));
    for sample in [0.0, 0.25, 0.999_999_999, 1.0 - f64::EPSILON / 2.0] {
        assert!(should_disconnect(&params, sample.to_bits()));
    }
    assert!(!should_disconnect(&params, 1.0f64.to_bits()));
}

#[test]
fn the_disconnect_rate_follows_the_probability() {
    let mut rng = rand::thread_rng();
    for p in [0.1, 0.3, 0.5, 0.9] {
        let params = impaired(None, Some(p));
        let sends = 20_000;
        let mut disconnects = 0;
        for _ in 0..sends {
            let mut consumer = Consumer::new(0);
            assert_eq!(
                consumer.step(ConsumerEvent::Encoded, &params),
                ConsumerAction::Deliver { delay_ms: 0, draw: true }
            );
            let sample: f64 = rng.gen_range(0.0..1.0);
            match consumer.step(drawn(sample), &params) {
                ConsumerAction::Close(CloseReason::SimulatedDisconnect) => {
                    assert!(sample < p);
                    disconnects += 1;
                }
                ConsumerAction::Transmit => assert!(sample >= p),
                other => panic!("unexpected action {:?}", other),
            }
        }
        let observed = disconnects as f64 / sends as f64;
        // Six standard deviations of a binomial proportion at most.
        assert!((observed - p).abs() < 0.022, "p {} observed {}", p, observed);
    }
}

#[test]
fn an_even_grid_of_draws_disconnects_in_proportion() {
    let params = impaired(None, Some(0.3));
    let sends = 10_000;
    let mut disconnects = 0;
    for k in 0..sends {
        let sample = (k as f64 + 0.5) / sends as f64;
        if should_disconnect(&params, sample.to_bits()) {
            disconnects += 1;
        }
    }
    assert_eq!(disconnects, 3_000);
}

#[test]
fn a_failed_transmission_closes_the_consumer() {
    let params = Parameters::new();
    let mut consumer = Consumer::new(0);
    consumer.step(ConsumerEvent::Encoded, &params);
    assert_eq!(consumer.step(ConsumerEvent::Sent { now_ms: 3 }, &params), ConsumerAction::Next);
    consumer.step(ConsumerEvent::Encoded, &params);
    assert_eq!(
        consumer.step(ConsumerEvent::SendFailed, &params),
        ConsumerAction::Close(CloseReason::SendError)
    );
    assert_eq!(
        consumer,
        Consumer {
            success_count: 1,
            error_count: 1,
            last_report_ms: 0,
            state: ConsumerState::Closed(CloseReason::SendError)
        }
    );
}

#[test]
fn a_closed_queue_closes_the_consumer() {
    let params = Parameters::new();
    let mut consumer = Consumer::new(0);
    assert_eq!(
        consumer.step(ConsumerEvent::QueueClosed, &params),
        ConsumerAction::Close(CloseReason::QueueClosed)
    );
    assert_eq!(consumer.state, ConsumerState::Closed(CloseReason::QueueClosed));
}

#[test]
fn a_closed_consumer_answers_every_event_with_its_reason() {
    let params = impaired(Some(10), Some(1.0));
    let mut consumer = Consumer::new(0);
    consumer.step(ConsumerEvent::SendFailed, &params);
    let closed = consumer;
    for event in [
        ConsumerEvent::Encoded,
        ConsumerEvent::EncodeFailed,
        drawn(0.0),
        ConsumerEvent::Sent { now_ms: 9_000 },
        ConsumerEvent::SendFailed,
        ConsumerEvent::QueueClosed,
    ] {
        assert_eq!(consumer.step(event, &params), ConsumerAction::Close(CloseReason::SendError));
        assert_eq!(consumer, closed);
    }
}

#[test]
fn counts_are_reported_every_five_seconds() {
    let params = Parameters::new();
    let mut consumer = Consumer::new(1_000);
    consumer.step(ConsumerEvent::EncodeFailed, &params);
    assert_eq!(consumer.step(ConsumerEvent::Sent { now_ms: 2_000 }, &params), ConsumerAction::Next);
    assert_eq!(consumer.step(ConsumerEvent::Sent { now_ms: 6_000 }, &params), ConsumerAction::Next);
    assert_eq!(
        consumer.step(ConsumerEvent::Sent { now_ms: 6_001 }, &params),
        ConsumerAction::Report { success_count: 3, error_count: 1 }
    );
    assert_eq!(consumer.last_report_ms, 6_001);
    assert_eq!(consumer.step(ConsumerEvent::Sent { now_ms: 11_001 }, &params), ConsumerAction::Next);
    // A clock that runs backwards makes no report due.
    assert_eq!(consumer.step(ConsumerEvent::Sent { now_ms: 0 }, &params), ConsumerAction::Next);
    assert_eq!(
        consumer.step(ConsumerEvent::Sent { now_ms: 20_000 }, &params),
        ConsumerAction::Report { success_count: 6, error_count: 1 }
    );
    assert_eq!(consumer.success_count, 6);
}

#[test]
fn counts_stop_at_the_largest_value() {
    let params = Parameters::new();
    let mut consumer = Consumer {
        success_count: u64::MAX - 1,
        error_count: u64::MAX,
        last_report_ms: 0,
        state: ConsumerState::Draining,
    };
    consumer.step(ConsumerEvent::Sent { now_ms: 1 }, &params);
    assert_eq!(consumer.success_count, u64::MAX);
    consumer.step(ConsumerEvent::Sent { now_ms: 2 }, &params);
    assert_eq!(consumer.success_count, u64::MAX);
    consumer.step(ConsumerEvent::EncodeFailed, &params);
    assert_eq!(consumer.error_count, u64::MAX);
}
