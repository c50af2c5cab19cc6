//! The state that a session shares with the configuration surface: the
//! session clock and the live configuration.
//!
//! The store is a plain value. Whoever shares it between tasks guards it with a
//! lock and keeps each critical section to one of the operations below; a
//! reader takes its snapshot with `get_parameters` and works on the copy.
use crate::binary64::is_positive_finite;
use crate::parameters::{DataCharacteristicsParams, DataVolumeParams, Parameters, WebSocketParams};
use vstd::prelude::*;

verus! {

/// Session clock and live configuration.
#[derive(Debug, Clone, Copy, PartialEq, Eq, Structural)]
pub struct WSBridgeState {
    /// Milliseconds of session time that have been accounted for.
    pub t_ms: u64,
    /// The value of `t_ms` when the last batch was handed over.
    pub last_t_ms: Option<u64>,
    pub parameters: Parameters,
}

/// What the status surface reports of a session.
#[derive(Debug, Clone, Copy, PartialEq, Eq, Structural)]
pub struct Status {
    pub time_ms: u64,
    pub last_update_ms: Option<u64>,
    /// The current data rate, as a binary64 encoding.
    pub data_rate_hz: u64,
}

impl Default for WSBridgeState {
    fn default() -> (state: Self)
        ensures
            state == WSBridgeState::initial(),
            state.wf(),
    {
        WSBridgeState { t_ms: 0, last_t_ms: None, parameters: Parameters::default() }
    }
}

impl WSBridgeState {
    /// The state of a session that has not started: clock at zero, nothing
    /// sent, the starting configuration.
    pub open spec fn initial() -> WSBridgeState {
        WSBridgeState { t_ms: 0, last_t_ms: None, parameters: Parameters::initial() }
    }

    /// The invariant of the store: its configuration keeps its own, and the
    /// last hand-over does not lie ahead of the clock.
    pub open spec fn wf(&self) -> bool {
        &&& self.parameters.wf()
        &&& self.last_t_ms matches Some(last) ==> last <= self.t_ms
    }

    /// The state of a session that has not started.
    pub fn new() -> (state: Self)
        ensures
            state == WSBridgeState::initial(),
            state.wf(),
    {
        Default::default()
    }

    /// Advances the session clock by `dt_ms`.
    pub fn tick(&mut self, dt_ms: u64)
        requires
            old(self).t_ms + dt_ms <= u64::MAX,
        ensures
            final(self).t_ms == old(self).t_ms + dt_ms,
            final(self).last_t_ms == old(self).last_t_ms,
            final(self).parameters == old(self).parameters,
            old(self).wf() ==> final(self).wf(),
    {
        self.t_ms = self.t_ms + dt_ms;
    }

    /// Records that a batch was handed over at the present clock value.
    pub fn update_last_t(&mut self)
        ensures
            final(self).last_t_ms == Some(old(self).t_ms),
            final(self).t_ms == old(self).t_ms,
            final(self).parameters == old(self).parameters,
            old(self).wf() ==> final(self).wf(),
    {
        self.last_t_ms = Some(self.t_ms);
    }

    /// The current data rate, as a binary64 encoding.
    pub fn get_send_rate_hz(&self) -> (rate: u64)
        ensures
            rate == self.parameters.data_volume.data_rate_hz,
    {
        self.parameters.get_data_rate_hz()
    }

    /// Replaces the data rate and nothing else.
    pub fn set_send_rate_hz(&mut self, rate: u64)
        requires
            is_positive_finite(rate),
        ensures
            *final(self) == (WSBridgeState {
                parameters: Parameters {
                    data_volume: DataVolumeParams {
                        data_rate_hz: rate,
                        ..old(self).parameters.data_volume
                    },
                    ..old(self).parameters
                },
                ..*old(self)
            }),
            old(self).wf() ==> final(self).wf(),
    {
        self.parameters.data_volume.data_rate_hz = rate;
    }

    /// A snapshot of the configuration.
    pub fn get_parameters(&self) -> (params: Parameters)
        ensures
            params == self.parameters,
    {
        self.parameters
    }

    /// Replaces the whole configuration.
    pub fn update_parameters(&mut self, params: Parameters)
        requires
            params.wf(),
        ensures
            *final(self) == (WSBridgeState { parameters: params, ..*old(self) }),
            old(self).wf() ==> final(self).wf(),
    {
        self.parameters = params;
    }

    /// Replaces the volume section and leaves the other two as they are.
    pub fn update_data_volume(&mut self, data_volume: DataVolumeParams)
        requires
            data_volume.wf(),
        ensures
            *final(self) == (WSBridgeState {
                parameters: Parameters { data_volume, ..old(self).parameters },
                ..*old(self)
            }),
            old(self).wf() ==> final(self).wf(),
    {
        self.parameters.data_volume = data_volume;
    }

    /// Replaces the characteristics section and leaves the other two as they
    /// are.
    pub fn update_data_characteristics(&mut self, data_characteristics: DataCharacteristicsParams)
        ensures
            *final(self) == (WSBridgeState {
                parameters: Parameters { data_characteristics, ..old(self).parameters },
                ..*old(self)
            }),
            old(self).wf() ==> final(self).wf(),
    {
        self.parameters.data_characteristics = data_characteristics;
    }

    /// Replaces the transport section and leaves the other two as they are.
    pub fn update_websocket_params(&mut self, websocket: WebSocketParams)
        requires
            websocket.wf(),
        ensures
            *final(self) == (WSBridgeState {
                parameters: Parameters { websocket, ..old(self).parameters },
                ..*old(self)
            }),
            old(self).wf() ==> final(self).wf(),
    {
        self.parameters.websocket = websocket;
    }

    /// What the status surface reports: clock, last hand-over and data rate.
    pub fn status(&self) -> (status: Status)
        ensures
            status == (Status {
                time_ms: self.t_ms,
                last_update_ms: self.last_t_ms,
                data_rate_hz: self.parameters.data_volume.data_rate_hz,
            }),
    {
        Status {
            time_ms: self.t_ms,
            last_update_ms: self.last_t_ms,
            data_rate_hz: self.parameters.data_volume.data_rate_hz,
        }
    }
}

} // verus!
