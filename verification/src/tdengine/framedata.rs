//! The per-frame values that the TDengine recorder extracts from a trace message.
use vstd::prelude::*;

use crate::common::{DigitizerId, FrameNumber, Timestamp};
use crate::message::{max_voltage_len, TraceMessage};
use crate::text::{decimal, push_decimal};

use super::error::{TDEngineError, TraceMessageErrorCode};

verus! {

broadcast use vstd::string::group_string_axioms;

/// Nanoseconds in one second.
pub const NANOS_PER_SECOND: i64 = 1_000_000_000;

/// The duration of one sample, in nanoseconds, for a sampling rate given as a (signed 32-bit)
/// number of samples per second: one second divided by the rate, rounded toward zero.
pub open spec fn sample_time_for_rate(rate: int) -> int {
    if rate > 0 {
        NANOS_PER_SECOND as int / rate
    } else {
        -(NANOS_PER_SECOND as int / (-rate))
    }
}

/// The duration of one sample, in nanoseconds, for the given rate.
pub fn sample_time_from_rate(rate: i32) -> (res: i64)
    requires
        rate != 0,
    ensures
        res == sample_time_for_rate(rate as int),
{
    let r = rate as i64;
    if r > 0 {
        NANOS_PER_SECOND / r
    } else {
        let m: i64 = NANOS_PER_SECOND / (0 - r);
        0 - m
    }
}

/// Stores and handles the per-frame values obtained from a trace message.
pub struct FrameData {
    pub timestamp: Timestamp,
    pub digitizer_id: DigitizerId,
    pub frame_number: FrameNumber,
    pub num_channels: usize,
    pub num_samples: usize,
    pub sample_time: i64,
    pub sample_rate: u64,
}

/// The time of a measurement: the frame's timestamp plus the sample time for each earlier sample.
/// The measurement number is taken as a signed 32-bit number.
pub open spec fn measurement_time(frame: FrameData, measurement_number: int) -> int {
    frame.timestamp + frame.sample_time * ((measurement_number as i32) as int)
}

/// Whether the time of a measurement stays within the range of a timestamp.
pub open spec fn measurement_time_in_range(frame: FrameData, measurement_number: int) -> bool {
    &&& i64::MIN <= frame.sample_time * ((measurement_number as i32) as int) <= i64::MAX
    &&& i64::MIN <= measurement_time(frame, measurement_number) <= i64::MAX
}

/// The defect that stops the extraction of a message's frame values, checked in this order: no
/// timestamp, a zero sampling rate, a rate whose sample time is zero, no channel data; `None`
/// where there is none.
pub open spec fn frame_value_error(message: TraceMessage) -> Option<TraceMessageErrorCode> {
    if message.metadata.timestamp.is_none() {
        Some(TraceMessageErrorCode::TimestampMissing)
    } else if message.sample_rate == 0 {
        Some(TraceMessageErrorCode::SampleRateZero)
    } else if sample_time_for_rate((message.sample_rate as i32) as int) == 0 {
        Some(TraceMessageErrorCode::SampleTimeZero)
    } else if message.channels.is_none() {
        Some(TraceMessageErrorCode::ChannelDataNull)
    } else {
        None
    }
}

impl FrameData {
    /// Zero values throughout.
    pub open spec fn default_value() -> Self {
        FrameData {
            timestamp: 0,
            digitizer_id: 0,
            frame_number: 0,
            num_channels: 0,
            num_samples: 0,
            sample_time: 0,
            sample_rate: 0,
        }
    }

    /// Zero values throughout.
    pub fn default() -> (res: Self)
        ensures
            res == Self::default_value(),
    {
        FrameData {
            timestamp: 0,
            digitizer_id: 0,
            frame_number: 0,
            num_channels: 0,
            num_samples: 0,
            sample_time: 0,
            sample_rate: 0,
        }
    }

    /// Sets the number of channels a frame is expected to hold.
    pub fn set_channel_count(&mut self, num_channels: usize)
        ensures
            *final(self) == (FrameData { num_channels, ..*old(self) }),
    {
        self.num_channels = num_channels;
    }

    /// Extracts the per-frame values of a message; no channel trace data is extracted. The
    /// timestamp, digitiser and frame number are taken first, then the sampling rate and the
    /// sample time, then the largest sample count of the channels; a defect stops the extraction
    /// where it is found.
    pub fn init(&mut self, message: &TraceMessage) -> (res: Result<(), TDEngineError>)
        requires
            message.metadata.timestamp.is_some() && message.sample_rate != 0 ==> (
            message.sample_rate as i32) != 0,
        ensures
            match message.metadata.timestamp {
                None => {
                    &&& res == Err::<(), _>(
                        TDEngineError::TraceMessage(TraceMessageErrorCode::TimestampMissing),
                    )
                    &&& *final(self) == *old(self)
                },
                Some(ts) => {
                    let rate = message.sample_rate;
                    let with_ids = FrameData {
                        timestamp: ts,
                        digitizer_id: message.digitizer_id,
                        frame_number: message.metadata.frame_number,
                        sample_rate: rate,
                        ..*old(self)
                    };
                    if rate == 0 {
                        &&& res == Err::<(), _>(
                            TDEngineError::TraceMessage(TraceMessageErrorCode::SampleRateZero),
                        )
                        &&& *final(self) == with_ids
                    } else {
                        let st = sample_time_for_rate((rate as i32) as int);
                        let with_time = FrameData { sample_time: st as i64, ..with_ids };
                        if st == 0 {
                            &&& res == Err::<(), _>(
                                TDEngineError::TraceMessage(TraceMessageErrorCode::SampleTimeZero),
                            )
                            &&& *final(self) == with_time
                        } else if message.channels.is_none() {
                            &&& res == Err::<(), _>(
                                TDEngineError::TraceMessage(TraceMessageErrorCode::ChannelDataNull),
                            )
                            &&& *final(self) == with_time
                        } else {
                            &&& res == Ok::<(), TDEngineError>(())
                            &&& *final(self) == (FrameData {
                                num_samples: max_voltage_len(message.channels.unwrap()@) as usize,
                                ..with_time
                            })
                        }
                    }
                },
            },
    {
        let ts = match message.metadata.timestamp {
            Some(ts) => ts,
            None => {
                return Err(TDEngineError::TraceMessage(TraceMessageErrorCode::TimestampMissing));
            },
        };
        self.timestamp = ts;
        self.digitizer_id = message.digitizer_id;
        self.frame_number = message.metadata.frame_number;
        self.sample_rate = message.sample_rate;
        if self.sample_rate == 0 {
            return Err(TDEngineError::TraceMessage(TraceMessageErrorCode::SampleRateZero));
        }
        self.sample_time = sample_time_from_rate(self.sample_rate as i32);
        if self.sample_time == 0 {
            return Err(TDEngineError::TraceMessage(TraceMessageErrorCode::SampleTimeZero));
        }
        match &message.channels {
            None => Err(TDEngineError::TraceMessage(TraceMessageErrorCode::ChannelDataNull)),
            Some(channels) => {
                self.num_samples = crate::message::max_channel_samples(channels);
                Ok(())
            },
        }
    }

    /// The name of the table of this digitiser's traces: `d` and the digitiser identifier.
    pub fn get_table_name(&self) -> (res: String)
        ensures
            res@ == "d"@ + decimal(self.digitizer_id as nat),
    {
        let mut s = "d".to_string();
        push_decimal(&mut s, self.digitizer_id as u64);
        s
    }

    /// The name of the table of this digitiser's frames: `m` and the digitiser identifier.
    pub fn get_frame_table_name(&self) -> (res: String)
        ensures
            res@ == "m"@ + decimal(self.digitizer_id as nat),
    {
        let mut s = "m".to_string();
        push_decimal(&mut s, self.digitizer_id as u64);
        s
    }

    /// The time of a measurement relative to the timestamp of this frame.
    pub fn calc_measurement_time(&self, measurement_number: usize) -> (res: Timestamp)
        requires
            measurement_time_in_range(*self, measurement_number as int),
        ensures
            res == measurement_time(*self, measurement_number as int),
    {
        let k = measurement_number as i32;
        let offset: i64 = self.sample_time * (k as i64);
        self.timestamp + offset
    }
}

} // verus!
