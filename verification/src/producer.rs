//! The producer of a session: the pacing of the batches, the duration limit,
//! and what follows from a batch that could not be generated.
//!
//! The caller runs the loop: it reads the clocks and a snapshot of the
//! configuration, calls `tick`, does what the returned action says (hands the
//! batch to the queue), sleeps for `time_until_due`, and reports a closed
//! queue with `queue_closed`. Every decision of the loop is taken here.
//!
//! Session time is counted in nanoseconds from the start of the session. A
//! batch comes due once the time since the last one is at least one period
//! of the data rate, `1 / rate` seconds. That is decided exactly, by the
//! whole cycles of the rate that have passed: the period is never rounded,
//! so the batches of a run that keeps its pace do not drift off the rate.
use crate::binary64::{
    cycles, cycles_elapsed, denominator, is_positive_finite, lemma_cycles_rise,
    lemma_whole_cycles_of_seconds, lemma_whole_cycles_step, numerator, whole_cycles,
    whole_product, NANOS_PER_SECOND, ZERO,
};
use crate::data_gen::{Batch, DataGenerator, GenerationError, GeneratorView};
use crate::parameters::{duration_seconds, Parameters};
use crate::schema::{default_layout, ColumnType};
use vstd::arithmetic::div_mod::*;
use vstd::prelude::*;

verus! {

/// Batches that the queue between producer and consumer holds; a producer
/// that finds it full waits for the consumer.
pub const QUEUE_CAPACITY: usize = 512;

/// Batches that may fail in a row; the producer stops at this many.
pub const MAX_CONSECUTIVE_ERRORS: u32 = 5;

/// Why a producer stopped.
#[derive(Debug, Clone, Copy, PartialEq, Eq, Structural)]
pub enum StopReason {
    /// The configured test duration has passed.
    DurationElapsed,
    /// `MAX_CONSECUTIVE_ERRORS` batches in a row could not be generated.
    TooManyErrors,
    /// The queue is closed: nobody takes the batches.
    QueueClosed,
}

/// The state of a producer.
#[derive(Debug, Clone, Copy, PartialEq, Eq, Structural)]
pub enum ProducerState {
    Running,
    Stopped(StopReason),
}

/// What the pacing decides at one tick.
#[derive(Debug, Clone, Copy, PartialEq, Eq, Structural)]
pub enum Pace {
    /// The duration limit is reached.
    Stop,
    /// A batch is due.
    Send,
    /// No batch is due yet.
    Wait,
}

/// What the caller does after a tick.
#[derive(Debug, PartialEq, Eq)]
pub enum TickAction {
    /// Leave the loop.
    Stop(StopReason),
    /// No batch is due: sleep until one is.
    Idle,
    /// The batch that was due could not be generated: go to the next tick at
    /// once.
    Retry(GenerationError),
    /// Hand the batch to the queue, then sleep until the next one is due.
    Emit(Batch),
}

/// The schedule by which batches come due.
///
/// A batch is due once the time since the last batch is at least one period
/// of the data rate. The time of the last batch is the time of the tick at
/// which it came due. Where that tick came at the very nanosecond at which
/// the batch fell due, the instant at which it fell due is meant, which a
/// reading of the clock only rounds: the schedule keeps that instant exactly,
/// as the `batches` whole periods that have passed since `anchor_time`. A
/// tick that comes later starts the schedule afresh at its own time, so that
/// what was missed is not made up for; and under another rate than that of
/// the schedule, the periods count from the time of the last batch.
#[derive(Debug, Clone, Copy, PartialEq, Eq, Structural)]
pub struct Pacing {
    /// The session time of the last tick at which a batch came due.
    pub last_send_time: u64,
    /// The session time from which the schedule counts cycles.
    pub anchor_time: u64,
    /// Batches that came due on the schedule.
    pub batches: u64,
    /// The data rate of the schedule, as a binary64 encoding.
    pub rate: u64,
}

impl Pacing {
    /// The pacing of a session that starts: nothing sent, at time zero.
    pub open spec fn start() -> Pacing {
        Pacing { last_send_time: 0, anchor_time: 0, batches: 0, rate: ZERO }
    }

    /// The time from which cycles of `rate` count: the anchor of the
    /// schedule where it is a schedule of that rate, else the time of the
    /// last batch.
    pub open spec fn anchor_under(self, rate: u64) -> u64 {
        if rate == self.rate {
            self.anchor_time
        } else {
            self.last_send_time
        }
    }

    /// The batches that came due since `anchor_under`.
    pub open spec fn batches_under(self, rate: u64) -> u64 {
        if rate == self.rate {
            self.batches
        } else {
            0
        }
    }

    /// The whole cycles of `rate` that have passed at the session time
    /// `time` since `anchor_under`.
    pub open spec fn cycles_at(self, rate: u64, time: int) -> u64 {
        if time < self.anchor_under(rate) {
            0
        } else {
            cycles_elapsed(rate, (time - self.anchor_under(rate)) as u64)
        }
    }

    /// A batch is due at `time`: more cycles have passed than batches came
    /// due. For a positive finite rate of `x` hertz that is
    /// `(time - anchor) * x >= (batches + 1) * 10^9`, unrounded.
    pub open spec fn is_due(self, rate: u64, time: int) -> bool {
        self.cycles_at(rate, time) > self.batches_under(rate)
    }

    /// The tick at `time` comes at the very nanosecond at which its batch
    /// falls due: one nanosecond earlier the batch was not due.
    pub open spec fn is_on_time(self, rate: u64, time: int) -> bool {
        self.anchor_under(rate) < time && !self.is_due(rate, time - 1)
    }

    /// The pacing after a batch came due at `time`: one more period on the
    /// schedule where the tick was on time, else a schedule that starts
    /// afresh at `time`.
    pub open spec fn after_due(self, rate: u64, time: u64) -> Pacing {
        if self.is_on_time(rate, time as int) {
            Pacing {
                last_send_time: time,
                anchor_time: self.anchor_under(rate),
                batches: (self.batches_under(rate) + 1) as u64,
                rate,
            }
        } else {
            Pacing { last_send_time: time, anchor_time: time, batches: 0, rate }
        }
    }
}

/// The producer of one session.
pub struct Producer {
    generator: DataGenerator,
    pacing: Pacing,
    consecutive_errors: u32,
    state: ProducerState,
}

/// A producer as contracts speak of it.
pub struct ProducerView {
    pub generator: GeneratorView,
    pub pacing: Pacing,
    /// Batches that could not be generated since the last one that could.
    pub consecutive_errors: u32,
    pub state: ProducerState,
}

impl View for Producer {
    type V = ProducerView;

    closed spec fn view(&self) -> ProducerView {
        ProducerView {
            generator: self.generator@,
            pacing: self.pacing,
            consecutive_errors: self.consecutive_errors,
            state: self.state,
        }
    }
}

/// The session time in nanoseconds at which the producer stops, if the test
/// duration is limited.
pub open spec fn duration_limit_ns(params: Parameters) -> Option<int> {
    match duration_seconds(params.data_volume.test_duration) {
        Some(seconds) => Some(seconds * NANOS_PER_SECOND),
        None => None,
    }
}

/// The decision of the pacing at the session time `time`: stop at the
/// duration limit; else send where a batch is due; else wait.
pub open spec fn pace(params: Parameters, pacing: Pacing, time: int) -> Pace {
    if duration_limit_ns(params) matches Some(limit) && time >= limit {
        Pace::Stop
    } else if pacing.is_due(params.data_volume.data_rate_hz, time) {
        Pace::Send
    } else {
        Pace::Wait
    }
}

/// The nanoseconds from the session time `time` to the duration limit; none
/// where the limit is reached or the duration is open-ended.
pub open spec fn time_left(params: Parameters, time: int) -> nat {
    match duration_limit_ns(params) {
        Some(limit) => if time < limit {
            (limit - time) as nat
        } else {
            0
        },
        None => 0,
    }
}

/// The batches that come due in a run that keeps its pace: one that looks at
/// the clock at every nanosecond from the session time `time` on, so that
/// every batch is sent at the first reading of the clock at which it is due.
pub open spec fn paced_batches(params: Parameters, pacing: Pacing, time: int) -> nat
    decreases time_left(params, time),
{
    match pace(params, pacing, time) {
        Pace::Send => if duration_limit_ns(params) is Some {
            1 + paced_batches(
                params,
                pacing.after_due(params.data_volume.data_rate_hz, time as u64),
                time + 1,
            )
        } else {
            0
        },
        Pace::Wait => if duration_limit_ns(params) is Some {
            paced_batches(params, pacing, time + 1)
        } else {
            0
        },
        Pace::Stop => 0,
    }
}

/// The errors in a row after one more batch failed; the count does not go
/// beyond `MAX_CONSECUTIVE_ERRORS`, at which the producer stops.
pub open spec fn errors_after_failure(errors: u32) -> u32 {
    if errors < MAX_CONSECUTIVE_ERRORS {
        (errors + 1) as u32
    } else {
        errors
    }
}

impl ProducerView {
    /// The generator as a tick arms it: with the configuration of the tick in
    /// force.
    pub open spec fn armed(self, params: Parameters) -> GeneratorView {
        GeneratorView { config: Some(params), ..self.generator }
    }

    /// What holds of a tick: of the producer `next` that it leaves and of
    /// the `action` that it returns.
    ///
    /// A stopped producer stays as it is and answers with its reason. A
    /// running one follows `pace`. At the duration limit it stops. While no
    /// batch is due it stays as it is. When one is due, the schedule moves
    /// on, and the producer takes the tick's configuration and generates a
    /// batch of the configured size: if that can be generated, it is emitted
    /// and the errors in a row are forgotten; if not, the failure is counted,
    /// and the producer stops at `MAX_CONSECUTIVE_ERRORS` of them in a row
    /// and tries again before.
    pub open spec fn tick_ok(
        self,
        next: ProducerView,
        action: TickAction,
        params: Parameters,
        current_time: u64,
        now_ms: u64,
    ) -> bool {
        let rows = params.websocket.batch_size;
        let moved = self.pacing.after_due(params.data_volume.data_rate_hz, current_time);
        match self.state {
            ProducerState::Stopped(reason) => next == self && action == TickAction::Stop(reason),
            ProducerState::Running => match pace(params, self.pacing, current_time as int) {
                Pace::Stop => {
                    &&& next == ProducerView {
                        state: ProducerState::Stopped(StopReason::DurationElapsed),
                        ..self
                    }
                    &&& action == TickAction::Stop(StopReason::DurationElapsed)
                },
                Pace::Wait => next == self && action == TickAction::Idle,
                Pace::Send => if self.armed(params).can_generate(rows, now_ms) {
                    &&& action matches TickAction::Emit(batch)
                    &&& self.armed(params).batch_ok(batch, rows, now_ms)
                    &&& next == ProducerView {
                        generator: self.armed(params).advanced(rows),
                        pacing: moved,
                        consecutive_errors: 0,
                        state: ProducerState::Running,
                    }
                } else if errors_after_failure(self.consecutive_errors) < MAX_CONSECUTIVE_ERRORS {
                    &&& action matches TickAction::Retry(error)
                    &&& self.armed(params).fails_with(rows, now_ms, error)
                    &&& next == ProducerView {
                        generator: self.armed(params).stalled(),
                        pacing: moved,
                        consecutive_errors: errors_after_failure(self.consecutive_errors),
                        state: ProducerState::Running,
                    }
                } else {
                    &&& action == TickAction::Stop(StopReason::TooManyErrors)
                    &&& next == ProducerView {
                        generator: self.armed(params).stalled(),
                        pacing: moved,
                        consecutive_errors: errors_after_failure(self.consecutive_errors),
                        state: ProducerState::Stopped(StopReason::TooManyErrors),
                    }
                },
            },
        }
    }
}

impl Producer {
    /// A running producer at session time zero: nothing generated, nothing
    /// failed.
    pub fn new() -> (producer: Self)
        ensures
            producer@ == (ProducerView {
                generator: GeneratorView { layout: default_layout(), config: None, cursor: 0 },
                pacing: Pacing::start(),
                consecutive_errors: 0,
                state: ProducerState::Running,
            }),
    {
        Producer {
            generator: DataGenerator::new(),
            pacing: Pacing { last_send_time: 0, anchor_time: 0, batches: 0, rate: ZERO },
            consecutive_errors: 0,
            state: ProducerState::Running,
        }
    }

    /// One tick of the loop, at `current_time` nanoseconds of session time
    /// and `now_ms` milliseconds of wall-clock time, under the configuration
    /// `params`.
    pub fn tick(&mut self, params: &Parameters, current_time: u64, now_ms: u64) -> (action:
        TickAction)
        ensures
            old(self)@.tick_ok(final(self)@, action, *params, current_time, now_ms),
    {
        if let ProducerState::Stopped(reason) = self.state {
            return TickAction::Stop(reason);
        }
        if let Some(seconds) = params.get_test_duration_seconds() {
            if current_time >= seconds * NANOS_PER_SECOND {
                self.state = ProducerState::Stopped(StopReason::DurationElapsed);
                return TickAction::Stop(StopReason::DurationElapsed);
            }
        }
        let rate = params.data_volume.data_rate_hz;
        let on_schedule = rate == self.pacing.rate;
        let anchor: u64 = if on_schedule {
            self.pacing.anchor_time
        } else {
            self.pacing.last_send_time
        };
        let batches: u64 = if on_schedule {
            self.pacing.batches
        } else {
            0
        };
        let passed: u64 = if current_time < anchor {
            0
        } else {
            cycles(rate, current_time - anchor)
        };
        if passed <= batches {
            return TickAction::Idle;
        }
        let ghost armed = old(self)@.armed(*params);
        let rows = params.websocket.batch_size;
        let on_time = anchor < current_time && cycles(rate, current_time - 1 - anchor) <= batches;
        self.pacing = if on_time {
            Pacing { last_send_time: current_time, anchor_time: anchor, batches: batches + 1, rate }
        } else {
            Pacing { last_send_time: current_time, anchor_time: current_time, batches: 0, rate }
        };
        self.generator.set_parameters(Some(*params));
        match self.generator.generate_record_batch(rows, now_ms) {
            Ok(batch) => {
                self.consecutive_errors = 0;
                TickAction::Emit(batch)
            },
            Err(error) => {
                proof {
                    lemma_failure_excludes_success(armed, rows, now_ms, error);
                }
                let errors: u32 = if self.consecutive_errors < MAX_CONSECUTIVE_ERRORS {
                    self.consecutive_errors + 1
                } else {
                    self.consecutive_errors
                };
                if errors >= MAX_CONSECUTIVE_ERRORS {
                    self.state = ProducerState::Stopped(StopReason::TooManyErrors);
                    self.consecutive_errors = errors;
                    TickAction::Stop(StopReason::TooManyErrors)
                } else {
                    self.consecutive_errors = errors;
                    TickAction::Retry(error)
                }
            },
        }
    }

    /// The nanoseconds from `current_time` to the first session time at
    /// which a batch is due under `params`: nothing where one is due
    /// already, the rest of the period else, and `u64::MAX` where none comes
    /// due while the clock lasts. It is the time by which the loop may sleep
    /// after a tick.
    pub fn time_until_due(&self, params: &Parameters, current_time: u64) -> (wait: u64)
        ensures
            forall|time: int|
                current_time <= time < current_time + wait && time <= u64::MAX
                    ==> !self@.pacing.is_due(params.data_volume.data_rate_hz, time),
            wait < u64::MAX ==> {
                &&& current_time + wait <= u64::MAX
                &&& self@.pacing.is_due(params.data_volume.data_rate_hz, current_time + wait)
            },
    {
        let rate = params.data_volume.data_rate_hz;
        let on_schedule = rate == self.pacing.rate;
        let anchor: u64 = if on_schedule {
            self.pacing.anchor_time
        } else {
            self.pacing.last_send_time
        };
        let batches: u64 = if on_schedule {
            self.pacing.batches
        } else {
            0
        };
        let ghost pacing = self@.pacing;
        let first: u64 = if current_time < anchor {
            0
        } else {
            current_time - anchor
        };
        if cycles(rate, first) > batches {
            return anchor + first - current_time;
        }
        let last: u64 = u64::MAX - anchor;
        if cycles(rate, last) <= batches {
            assert forall|time: int|
                current_time <= time < current_time + u64::MAX && time <= u64::MAX
                    implies !pacing.is_due(rate, time) by {
                if time >= anchor {
                    lemma_cycles_rise(rate, (time - anchor) as u64, last);
                }
            }
            return u64::MAX;
        }
        let mut low: u64 = first;
        let mut high: u64 = last;
        while high - low > 1
            invariant
                first <= low < high <= last,
                last == u64::MAX - anchor,
                cycles_elapsed(rate, low) <= batches,
                cycles_elapsed(rate, high) > batches,
            decreases high - low,
        {
            let middle: u64 = low + (high - low) / 2;
            if cycles(rate, middle) > batches {
                high = middle;
            } else {
                low = middle;
            }
        }
        assert forall|time: int|
            current_time <= time < anchor + high && time <= u64::MAX implies !pacing.is_due(
            rate,
            time,
        ) by {
            if time >= anchor {
                lemma_cycles_rise(rate, (time - anchor) as u64, low);
            }
        }
        anchor + high - current_time
    }

    /// Records that the queue is closed: a running producer stops, a stopped
    /// one keeps its reason.
    pub fn queue_closed(&mut self)
        ensures
            final(self)@ == (ProducerView {
                state: if old(self)@.state is Running {
                    ProducerState::Stopped(StopReason::QueueClosed)
                } else {
                    old(self)@.state
                },
                ..old(self)@
            }),
    {
        if let ProducerState::Running = self.state {
            self.state = ProducerState::Stopped(StopReason::QueueClosed);
        }
    }

    /// The state of the producer.
    pub fn state(&self) -> (state: ProducerState)
        ensures
            state == self@.state,
    {
        self.state
    }

    /// The rows generated so far.
    pub fn rows_generated(&self) -> (rows: u64)
        ensures
            rows == self@.generator.cursor,
    {
        self.generator.rows_generated()
    }

    /// Batches that could not be generated since the last one that could.
    pub fn consecutive_errors(&self) -> (errors: u32)
        ensures
            errors == self@.consecutive_errors,
    {
        self.consecutive_errors
    }
}

/// A batch that fails with an error cannot be generated.
pub proof fn lemma_failure_excludes_success(
    generator: GeneratorView,
    num_rows: usize,
    now_ms: u64,
    error: GenerationError,
)
    requires
        generator.fails_with(num_rows, now_ms, error),
    ensures
        !generator.can_generate(num_rows, now_ms),
{
    if let GenerationError::IndexOverflow { position } = error {
    }
}

/// The state of the schedule in a run that keeps its pace from time zero
/// on, before the tick at `time`: the schedule counts from zero, and every
/// batch that was due before `time` has been sent.
pub open spec fn keeps_pace(pacing: Pacing, rate: u64, time: int) -> bool {
    &&& pacing.anchor_under(rate) == 0
    &&& pacing.batches_under(rate) == if time == 0 {
        0
    } else {
        whole_cycles(rate, (time - 1) as nat)
    }
}

/// From any tick of a run that keeps its pace, the batches still to come are
/// the cycles of the rate that complete before the duration limit and have
/// not been sent.
proof fn lemma_paced_from(params: Parameters, pacing: Pacing, time: int)
    requires
        is_positive_finite(params.data_volume.data_rate_hz),
        numerator(params.data_volume.data_rate_hz) <= NANOS_PER_SECOND * denominator(
            params.data_volume.data_rate_hz,
        ),
        duration_limit_ns(params) is Some,
        0 <= time <= duration_limit_ns(params)->0,
        keeps_pace(pacing, params.data_volume.data_rate_hz, time),
    ensures
        paced_batches(params, pacing, time) == whole_cycles(
            params.data_volume.data_rate_hz,
            (duration_limit_ns(params)->0 - 1) as nat,
        ) - pacing.batches_under(params.data_volume.data_rate_hz),
    decreases time_left(params, time),
{
    let rate = params.data_volume.data_rate_hz;
    let limit = duration_limit_ns(params)->0;
    if time < limit {
        lemma_whole_cycles_step(rate, time as nat);
        if time > 0 {
            lemma_whole_cycles_step(rate, (time - 1) as nat);
        }
        if pacing.is_due(rate, time) {
            let moved = pacing.after_due(rate, time as u64);
            lemma_paced_from(params, moved, time + 1);
        } else {
            lemma_paced_from(params, pacing, time + 1);
        }
    }
}

/// The state of the schedule in a run at a rate of a cycle in a nanosecond or
/// more, before the tick at `time`: no more batches have come due on the
/// schedule than nanoseconds have passed on it.
pub open spec fn runs_behind(pacing: Pacing, rate: u64, time: int) -> bool {
    pacing.anchor_under(rate) + pacing.batches_under(rate) <= time - 1
}

/// At a rate of a cycle in a nanosecond or more, a batch is due at every
/// tick after the first, so that every nanosecond before the duration limit
/// sends one batch.
proof fn lemma_paced_at_every_tick(params: Parameters, pacing: Pacing, time: int)
    requires
        is_positive_finite(params.data_volume.data_rate_hz),
        numerator(params.data_volume.data_rate_hz) >= NANOS_PER_SECOND * denominator(
            params.data_volume.data_rate_hz,
        ),
        duration_limit_ns(params) is Some,
        1 <= time <= duration_limit_ns(params)->0,
        runs_behind(pacing, params.data_volume.data_rate_hz, time),
    ensures
        paced_batches(params, pacing, time) == duration_limit_ns(params)->0 - time,
    decreases time_left(params, time),
{
    let rate = params.data_volume.data_rate_hz;
    let limit = duration_limit_ns(params)->0;
    if time < limit {
        let elapsed = (time - pacing.anchor_under(rate)) as nat;
        lemma_whole_cycles_step(rate, elapsed);
        let moved = pacing.after_due(rate, time as u64);
        lemma_paced_at_every_tick(params, moved, time + 1);
    }
}

/// A run that keeps its pace sends `floor(rate * seconds)` batches in a test
/// duration of `seconds`, give or take one: one less where the duration ends
/// on a batch, which the duration limit then stops. This holds of every
/// positive finite data rate that asks for no more batches in the duration
/// than the duration has nanoseconds: the clock of a session reads
/// nanoseconds, and a tick sends one batch.
pub proof fn lemma_batches_in_paced_run(params: Parameters)
    requires
        is_positive_finite(params.data_volume.data_rate_hz),
        duration_seconds(params.data_volume.test_duration) is Some,
        whole_product(
            params.data_volume.data_rate_hz,
            duration_seconds(params.data_volume.test_duration)->0 as nat,
        ) <= duration_seconds(params.data_volume.test_duration)->0 * NANOS_PER_SECOND,
    ensures
        ({
            let expected = whole_product(
                params.data_volume.data_rate_hz,
                duration_seconds(params.data_volume.test_duration)->0 as nat,
            );
            expected - 1 <= paced_batches(params, Pacing::start(), 0) <= expected
        }),
{
    let rate = params.data_volume.data_rate_hz;
    let seconds = duration_seconds(params.data_volume.test_duration)->0 as nat;
    let limit = duration_limit_ns(params)->0;
    lemma_whole_cycles_of_seconds(rate, seconds);
    if numerator(rate) <= NANOS_PER_SECOND * denominator(rate) {
        lemma_paced_from(params, Pacing::start(), 0);
        lemma_whole_cycles_step(rate, (limit - 1) as nat);
    } else {
        lemma_whole_cycles_step(rate, 0);
        lemma_whole_cycles_step(rate, limit as nat);
        lemma_paced_at_every_tick(params, Pacing::start(), 1);
    }
}

/// Once stopped, a producer stays stopped, for the same reason and with the
/// same cursor, whatever the time and the configuration of a tick.
pub proof fn lemma_stopped_is_final(
    producer: ProducerView,
    next: ProducerView,
    action: TickAction,
    params: Parameters,
    current_time: u64,
    now_ms: u64,
)
    requires
        producer.state is Stopped,
        producer.tick_ok(next, action, params, current_time, now_ms),
    ensures
        next == producer,
        action == TickAction::Stop(producer.state->Stopped_0),
{
}

/// A tick paces by the configuration that it is given. Whatever the rate was
/// before, a batch is due exactly where a cycle of the present rate is
/// complete; after a change of the rate that is once a whole period of the
/// new rate has passed since the last batch. The producer goes on where it
/// stood: while it waits it does not change, and a batch that it emits
/// continues the signal at the cursor.
pub proof fn lemma_tick_paces_by_its_configuration(
    producer: ProducerView,
    next: ProducerView,
    action: TickAction,
    params: Parameters,
    current_time: u64,
    now_ms: u64,
)
    requires
        producer.state is Running,
        producer.tick_ok(next, action, params, current_time, now_ms),
        duration_limit_ns(params) matches Some(limit) ==> current_time < limit,
    ensures
        action is Idle <==> !producer.pacing.is_due(
            params.data_volume.data_rate_hz,
            current_time as int,
        ),
        params.data_volume.data_rate_hz != producer.pacing.rate && current_time
            >= producer.pacing.last_send_time ==> (action is Idle <==> cycles_elapsed(
            params.data_volume.data_rate_hz,
            (current_time - producer.pacing.last_send_time) as u64,
        ) == 0),
        action is Idle ==> next == producer,
        action matches TickAction::Emit(batch) ==> {
            &&& batch.num_rows == params.websocket.batch_size
            &&& next.generator.cursor == producer.generator.cursor + batch.num_rows
            &&& next.state is Running
        },
{
}

/// No batch is due at the very start of a session, at any data rate: at
/// session time zero no cycle of a rate is complete.
pub proof fn lemma_idle_at_start(params: Parameters)
    requires
        is_positive_finite(params.data_volume.data_rate_hz),
    ensures
        !Pacing::start().is_due(params.data_volume.data_rate_hz, 0),
{
    lemma_whole_cycles_step(params.data_volume.data_rate_hz, 0);
}

} // verus!
