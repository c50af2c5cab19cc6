//! The consumer of a session: what happens to each batch that comes off the
//! queue.
//!
//! Encoding a batch, waiting, drawing a random number and transmitting are the
//! caller's work. The caller reports each of them as an event and does what
//! the returned action says; every decision in between is taken here.
use crate::binary64::{less_than, lt, ZERO};
use crate::parameters::Parameters;
use vstd::prelude::*;

verus! {

/// Milliseconds that pass between two reports of the counts, at least.
pub const REPORT_INTERVAL_MS: u64 = 5000;

/// Why a consumer closed.
#[derive(Debug, Clone, Copy, PartialEq, Eq, Structural)]
pub enum CloseReason {
    /// The producer is gone and the queue is empty.
    QueueClosed,
    /// A frame could not be transmitted.
    SendError,
    /// The simulated network dropped the connection.
    SimulatedDisconnect,
}

/// The state of a consumer.
#[derive(Debug, Clone, Copy, PartialEq, Eq, Structural)]
pub enum ConsumerState {
    Draining,
    Closed(CloseReason),
}

/// What the caller reports.
#[derive(Debug, Clone, Copy, PartialEq, Eq, Structural)]
pub enum ConsumerEvent {
    /// The batch taken off the queue was encoded into a frame.
    Encoded,
    /// The batch taken off the queue could not be encoded.
    EncodeFailed,
    /// The uniform draw from `[0, 1)` that `Deliver` asked for, as a binary64
    /// encoding.
    Drawn { sample: u64 },
    /// The frame was transmitted; `now_ms` is the caller's monotonic clock.
    Sent { now_ms: u64 },
    /// The frame could not be transmitted.
    SendFailed,
    /// The queue is closed and empty.
    QueueClosed,
}

/// What the caller does next.
#[derive(Debug, Clone, Copy, PartialEq, Eq, Structural)]
pub enum ConsumerAction {
    /// Take the next batch off the queue.
    Next,
    /// Emit the counts, then take the next batch off the queue.
    Report { success_count: u64, error_count: u64 },
    /// Wait for `delay_ms`; then, if `draw` is set, draw a uniform sample and
    /// report it, else transmit the frame.
    Deliver { delay_ms: u64, draw: bool },
    /// Transmit the frame.
    Transmit,
    /// Stop: the session is over, and the frame in hand, if any, is not sent.
    Close(CloseReason),
}

/// The consumer of one session.
#[derive(Debug, Clone, Copy, PartialEq, Eq, Structural)]
pub struct Consumer {
    /// Frames transmitted.
    pub success_count: u64,
    /// Batches that could not be encoded and frames that could not be
    /// transmitted.
    pub error_count: u64,
    /// The clock value of the last report, or of the start.
    pub last_report_ms: u64,
    pub state: ConsumerState,
}

/// A count after one more event; a count that has reached the largest value
/// stays there.
pub open spec fn counted(count: u64) -> u64 {
    if count < u64::MAX {
        (count + 1) as u64
    } else {
        count
    }
}

/// The delay before a frame is transmitted: the configured latency where
/// latency is simulated, else none.
pub open spec fn latency_of(params: Parameters) -> u64 {
    if params.websocket.simulate_latency {
        params.websocket.latency_ms
    } else {
        0
    }
}

/// A frame is put at the risk of a disconnect: disconnects are simulated,
/// with a probability above zero.
pub open spec fn draws_disconnect(params: Parameters) -> bool {
    params.websocket.simulate_disconnects && less_than(
        ZERO,
        params.websocket.disconnection_probability,
    )
}

/// The draw `sample` disconnects: it lies below the configured probability.
pub open spec fn disconnects(params: Parameters, sample: u64) -> bool {
    draws_disconnect(params) && less_than(sample, params.websocket.disconnection_probability)
}

/// A report is due at `now_ms`: more than `REPORT_INTERVAL_MS` have passed
/// since the last one.
pub open spec fn report_due(last_report_ms: u64, now_ms: u64) -> bool {
    now_ms - last_report_ms > REPORT_INTERVAL_MS
}

impl Consumer {
    /// The consumer after `event`, and the action that it asks for.
    ///
    /// A closed consumer stays as it is and answers every event with its
    /// reason. A draining one counts a failed encoding and goes on; plans the
    /// delivery of an encoded frame; closes on a draw below the disconnect
    /// probability, on a failed transmission and on a closed queue; and counts
    /// a transmitted frame, reporting the counts when a report is due.
    pub open spec fn after(self, event: ConsumerEvent, params: Parameters) -> (
        Consumer,
        ConsumerAction,
    ) {
        match self.state {
            ConsumerState::Closed(reason) => (self, ConsumerAction::Close(reason)),
            ConsumerState::Draining => match event {
                ConsumerEvent::EncodeFailed => (
                    Consumer { error_count: counted(self.error_count), ..self },
                    ConsumerAction::Next,
                ),
                ConsumerEvent::Encoded => (
                    self,
                    ConsumerAction::Deliver {
                        delay_ms: latency_of(params),
                        draw: draws_disconnect(params),
                    },
                ),
                ConsumerEvent::Drawn { sample } => if disconnects(params, sample) {
                    (
                        Consumer {
                            state: ConsumerState::Closed(CloseReason::SimulatedDisconnect),
                            ..self
                        },
                        ConsumerAction::Close(CloseReason::SimulatedDisconnect),
                    )
                } else {
                    (self, ConsumerAction::Transmit)
                },
                ConsumerEvent::Sent { now_ms } => if report_due(self.last_report_ms, now_ms) {
                    (
                        Consumer {
                            success_count: counted(self.success_count),
                            last_report_ms: now_ms,
                            ..self
                        },
                        ConsumerAction::Report {
                            success_count: counted(self.success_count),
                            error_count: self.error_count,
                        },
                    )
                } else {
                    (
                        Consumer { success_count: counted(self.success_count), ..self },
                        ConsumerAction::Next,
                    )
                },
                ConsumerEvent::SendFailed => (
                    Consumer {
                        error_count: counted(self.error_count),
                        state: ConsumerState::Closed(CloseReason::SendError),
                        ..self
                    },
                    ConsumerAction::Close(CloseReason::SendError),
                ),
                ConsumerEvent::QueueClosed => (
                    Consumer { state: ConsumerState::Closed(CloseReason::QueueClosed), ..self },
                    ConsumerAction::Close(CloseReason::QueueClosed),
                ),
            },
        }
    }

    /// A draining consumer with both counts at zero, started at `now_ms` of
    /// the caller's monotonic clock.
    pub fn new(now_ms: u64) -> (consumer: Self)
        ensures
            consumer == (Consumer {
                success_count: 0,
                error_count: 0,
                last_report_ms: now_ms,
                state: ConsumerState::Draining,
            }),
    {
        Consumer {
            success_count: 0,
            error_count: 0,
            last_report_ms: now_ms,
            state: ConsumerState::Draining,
        }
    }

    /// Takes one event and says what to do next.
    pub fn step(&mut self, event: ConsumerEvent, params: &Parameters) -> (action: ConsumerAction)
        ensures
            (*final(self), action) == old(self).after(event, *params),
    {
        if let ConsumerState::Closed(reason) = self.state {
            return ConsumerAction::Close(reason);
        }
        match event {
            ConsumerEvent::EncodeFailed => {
                self.error_count = count_one(self.error_count);
                ConsumerAction::Next
            },
            ConsumerEvent::Encoded => ConsumerAction::Deliver {
                delay_ms: latency(params),
                draw: disconnect_at_risk(params),
            },
            ConsumerEvent::Drawn { sample } => {
                if should_disconnect(params, sample) {
                    self.state = ConsumerState::Closed(CloseReason::SimulatedDisconnect);
                    ConsumerAction::Close(CloseReason::SimulatedDisconnect)
                } else {
                    ConsumerAction::Transmit
                }
            },
            ConsumerEvent::Sent { now_ms } => {
                self.success_count = count_one(self.success_count);
                if now_ms > self.last_report_ms && now_ms - self.last_report_ms
                    > REPORT_INTERVAL_MS {
                    self.last_report_ms = now_ms;
                    ConsumerAction::Report {
                        success_count: self.success_count,
                        error_count: self.error_count,
                    }
                } else {
                    ConsumerAction::Next
                }
            },
            ConsumerEvent::SendFailed => {
                self.error_count = count_one(self.error_count);
                self.state = ConsumerState::Closed(CloseReason::SendError);
                ConsumerAction::Close(CloseReason::SendError)
            },
            ConsumerEvent::QueueClosed => {
                self.state = ConsumerState::Closed(CloseReason::QueueClosed);
                ConsumerAction::Close(CloseReason::QueueClosed)
            },
        }
    }

    /// Tells whether the consumer is closed.
    pub fn is_closed(&self) -> (closed: bool)
        ensures
            closed == (self.state is Closed),
    {
        match self.state {
            ConsumerState::Closed(_) => true,
            ConsumerState::Draining => false,
        }
    }
}

/// Adds one to a count that has not reached the largest value.
fn count_one(count: u64) -> (next: u64)
    ensures
        next == counted(count),
{
    if count < u64::MAX {
        count + 1
    } else {
        count
    }
}

/// The delay before a frame is transmitted.
pub fn latency(params: &Parameters) -> (delay_ms: u64)
    ensures
        delay_ms == latency_of(*params),
{
    if params.websocket.simulate_latency && params.websocket.latency_ms > 0 {
        params.websocket.latency_ms
    } else {
        0
    }
}

/// Tells whether a frame is put at the risk of a disconnect.
pub fn disconnect_at_risk(params: &Parameters) -> (at_risk: bool)
    ensures
        at_risk == draws_disconnect(*params),
{
    params.websocket.simulate_disconnects && lt(ZERO, params.websocket.disconnection_probability)
}

/// Tells whether a uniform draw from `[0, 1)` disconnects.
pub fn should_disconnect(params: &Parameters, sample: u64) -> (disconnect: bool)
    ensures
        disconnect == disconnects(*params, sample),
{
    disconnect_at_risk(params) && lt(sample, params.websocket.disconnection_probability)
}

/// Once closed, a consumer stays closed, for the same reason and with the
/// same counts, whatever is reported to it.
pub proof fn lemma_closed_is_final(consumer: Consumer, event: ConsumerEvent, params: Parameters)
    requires
        consumer.state is Closed,
    ensures
        consumer.after(event, params).0 == consumer,
        consumer.after(event, params).1 == ConsumerAction::Close(consumer.state->Closed_0),
{
}

/// No event is lost to the counts: a failed encoding and a failed
/// transmission each raise the error count, a transmitted frame raises the
/// success count, and no event lowers either.
pub proof fn lemma_every_outcome_counted(
    consumer: Consumer,
    event: ConsumerEvent,
    params: Parameters,
)
    requires
        consumer.state is Draining,
    ensures
        consumer.after(event, params).0.success_count >= consumer.success_count,
        consumer.after(event, params).0.error_count >= consumer.error_count,
        event is EncodeFailed || event is SendFailed ==> consumer.after(
            event,
            params,
        ).0.error_count == counted(consumer.error_count),
        event is Sent ==> consumer.after(event, params).0.success_count == counted(
            consumer.success_count,
        ),
{
}

/// With a disconnect probability of zero, or without the simulation of
/// disconnects, no draw closes the session.
pub proof fn lemma_no_disconnect_at_zero(consumer: Consumer, sample: u64, params: Parameters)
    requires
        consumer.state is Draining,
        !params.websocket.simulate_disconnects || params.websocket.disconnection_probability
            == ZERO,
    ensures
        consumer.after(ConsumerEvent::Drawn { sample }, params) == (
            consumer,
            ConsumerAction::Transmit,
        ),
{
}

} // verus!
