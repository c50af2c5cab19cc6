//! The configuration of the source: how much data, of what kind, and how the
//! transport treats it.
//!
//! Real-valued settings are held as binary64 encodings (see `binary64`).
use crate::binary64::{
    is_positive_finite, is_probability, positive_finite, probability, ONE_HUNDRED, ZERO,
};
use vstd::prelude::*;

verus! {

/// The encoding of `1e8`, the amplitude that a fresh configuration starts with.
pub const DEFAULT_AMPLITUDE: u64 = 0x4197_D784_0000_0000;

/// The type of the elements of a data channel.
#[derive(Debug, Clone, Copy, PartialEq, Eq, Structural)]
pub enum DataType {
    Float32,
    Float64,
    Int32,
    /// A list of ten 64-bit floating-point numbers per row.
    Array,
    /// A record of value, quality, timestamp and validity per row.
    NestedObject,
}

/// The shape of the generated signal.
#[derive(Debug, Clone, Copy, PartialEq, Eq, Structural)]
pub enum SignalPattern {
    SineWave,
    RandomNoise,
    StepFunction,
    ImpulseResponse,
    Mixed,
}

/// How long a session generates data.
#[derive(Debug, Clone, Copy, PartialEq, Eq, Structural)]
pub enum TestDuration {
    /// 10 seconds.
    Short,
    /// 100 seconds.
    Medium,
    /// 1000 seconds.
    Long,
    /// 3600 seconds.
    Hour,
    /// Until the session is stopped from outside.
    OpenEnded,
}

/// How much data is generated.
#[derive(Debug, Clone, Copy, PartialEq, Eq, Structural)]
pub struct DataVolumeParams {
    /// Number of data channels beside the timestamp.
    pub num_channels: usize,
    /// Amplitude of the generated signal, as a binary64 encoding.
    pub float_precision: u64,
    /// Batches per second, as a binary64 encoding.
    pub data_rate_hz: u64,
    pub test_duration: TestDuration,
}

/// What the generated data looks like.
#[derive(Debug, Clone, Copy, PartialEq, Eq, Structural)]
pub struct DataCharacteristicsParams {
    pub data_type: DataType,
    pub include_missing_data: bool,
    pub include_data_gaps: bool,
    pub signal_pattern: SignalPattern,
    pub include_outliers: bool,
}

/// How frames are formed and what the simulated network does to them.
#[derive(Debug, Clone, Copy, PartialEq, Eq, Structural)]
pub struct WebSocketParams {
    /// Rows per frame.
    pub batch_size: usize,
    /// Bytes per message; 0 leaves the size to the encoder.
    pub message_size: usize,
    /// Target messages per second, as a binary64 encoding.
    pub message_frequency: u64,
    pub simulate_disconnects: bool,
    pub simulate_latency: bool,
    /// Delay before each frame is sent, where latency is simulated.
    pub latency_ms: u64,
    /// Chance that a frame ends the session, as a binary64 encoding.
    pub disconnection_probability: u64,
}

/// The whole configuration.
#[derive(Debug, Clone, Copy, PartialEq, Eq, Structural)]
pub struct Parameters {
    pub data_volume: DataVolumeParams,
    pub data_characteristics: DataCharacteristicsParams,
    pub websocket: WebSocketParams,
}

/// The seconds that a test duration stands for; `None` for an open-ended one.
pub open spec fn duration_seconds(duration: TestDuration) -> Option<u64> {
    match duration {
        TestDuration::Short => Some(10u64),
        TestDuration::Medium => Some(100u64),
        TestDuration::Long => Some(1000u64),
        TestDuration::Hour => Some(3600u64),
        TestDuration::OpenEnded => None,
    }
}

impl DataVolumeParams {
    /// The data rate is a positive finite number.
    pub open spec fn wf(&self) -> bool {
        is_positive_finite(self.data_rate_hz)
    }

    /// Tells whether the section keeps its invariant.
    pub fn is_valid(&self) -> (valid: bool)
        ensures
            valid == self.wf(),
    {
        positive_finite(self.data_rate_hz)
    }
}

impl WebSocketParams {
    /// The disconnect probability lies between zero and one.
    pub open spec fn wf(&self) -> bool {
        is_probability(self.disconnection_probability)
    }

    /// Tells whether the section keeps its invariant.
    pub fn is_valid(&self) -> (valid: bool)
        ensures
            valid == self.wf(),
    {
        probability(self.disconnection_probability)
    }
}

impl Default for DataVolumeParams {
    fn default() -> (params: Self)
        ensures
            params == (DataVolumeParams {
                num_channels: 10,
                float_precision: DEFAULT_AMPLITUDE,
                data_rate_hz: ONE_HUNDRED,
                test_duration: TestDuration::Medium,
            }),
            params.wf(),
    {
        DataVolumeParams {
            num_channels: 10,
            float_precision: DEFAULT_AMPLITUDE,
            data_rate_hz: ONE_HUNDRED,
            test_duration: TestDuration::Medium,
        }
    }
}

impl Default for DataCharacteristicsParams {
    fn default() -> (params: Self)
        ensures
            params == (DataCharacteristicsParams {
                data_type: DataType::Float64,
                include_missing_data: false,
                include_data_gaps: false,
                signal_pattern: SignalPattern::SineWave,
                include_outliers: false,
            }),
    {
        DataCharacteristicsParams {
            data_type: DataType::Float64,
            include_missing_data: false,
            include_data_gaps: false,
            signal_pattern: SignalPattern::SineWave,
            include_outliers: false,
        }
    }
}

impl Default for WebSocketParams {
    fn default() -> (params: Self)
        ensures
            params == (WebSocketParams {
                batch_size: 10,
                message_size: 0,
                message_frequency: ONE_HUNDRED,
                simulate_disconnects: false,
                simulate_latency: false,
                latency_ms: 0,
                disconnection_probability: ZERO,
            }),
            params.wf(),
    {
        WebSocketParams {
            batch_size: 10,
            message_size: 0,
            message_frequency: ONE_HUNDRED,
            simulate_disconnects: false,
            simulate_latency: false,
            latency_ms: 0,
            disconnection_probability: ZERO,
        }
    }
}

impl Default for Parameters {
    fn default() -> (params: Self)
        ensures
            params == Parameters::initial(),
            params.wf(),
    {
        Parameters {
            data_volume: DataVolumeParams::default(),
            data_characteristics: DataCharacteristicsParams::default(),
            websocket: WebSocketParams::default(),
        }
    }
}

impl Parameters {
    /// The configuration that a source starts with.
    pub open spec fn initial() -> Parameters {
        Parameters {
            data_volume: DataVolumeParams {
                num_channels: 10,
                float_precision: DEFAULT_AMPLITUDE,
                data_rate_hz: ONE_HUNDRED,
                test_duration: TestDuration::Medium,
            },
            data_characteristics: DataCharacteristicsParams {
                data_type: DataType::Float64,
                include_missing_data: false,
                include_data_gaps: false,
                signal_pattern: SignalPattern::SineWave,
                include_outliers: false,
            },
            websocket: WebSocketParams {
                batch_size: 10,
                message_size: 0,
                message_frequency: ONE_HUNDRED,
                simulate_disconnects: false,
                simulate_latency: false,
                latency_ms: 0,
                disconnection_probability: ZERO,
            },
        }
    }

    /// The invariant of a configuration: a positive finite data rate and a
    /// disconnect probability between zero and one.
    pub open spec fn wf(&self) -> bool {
        self.data_volume.wf() && self.websocket.wf()
    }

    /// The starting configuration.
    pub fn new() -> (params: Self)
        ensures
            params == Parameters::initial(),
            params.wf(),
    {
        Default::default()
    }

    /// Tells whether the configuration keeps its invariant.
    pub fn is_valid(&self) -> (valid: bool)
        ensures
            valid == self.wf(),
    {
        self.data_volume.is_valid() && self.websocket.is_valid()
    }

    /// The data rate in hertz, as a binary64 encoding.
    pub fn get_data_rate_hz(&self) -> (rate: u64)
        ensures
            rate == self.data_volume.data_rate_hz,
    {
        self.data_volume.data_rate_hz
    }

    /// The seconds after which the session stops generating, if it is
    /// limited at all.
    pub fn get_test_duration_seconds(&self) -> (seconds: Option<u64>)
        ensures
            seconds == duration_seconds(self.data_volume.test_duration),
    {
        match self.data_volume.test_duration {
            TestDuration::Short => Some(10),
            TestDuration::Medium => Some(100),
            TestDuration::Long => Some(1000),
            TestDuration::Hour => Some(3600),
            TestDuration::OpenEnded => None,
        }
    }

    /// Tells whether any impairment of the network is simulated.
    pub fn should_simulate_network_issues(&self) -> (simulated: bool)
        ensures
            simulated == (self.websocket.simulate_disconnects || self.websocket.simulate_latency),
    {
        self.websocket.simulate_disconnects || self.websocket.simulate_latency
    }
}

} // verus!
