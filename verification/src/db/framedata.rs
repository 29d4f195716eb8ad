//! The per-frame values that the database archiver extracts from a trace message, and the checks
//! that a message passes before its traces are stored.
use vstd::prelude::*;

use crate::common::{Channel, DigitizerId, FrameNumber, Timestamp};
use crate::message::{voltage_len, ChannelTrace, TraceMessage};
use crate::tdengine::framedata::{sample_time_for_rate, sample_time_from_rate};

verus! {

/// Why a trace message cannot be stored.
#[derive(Debug, Clone, Copy, PartialEq, Eq, Structural)]
pub enum FrameError {
    /// The message has no timestamp.
    NoTimestamp,
    /// The message's sampling rate is zero.
    SampleRateZero,
    /// The sampling rate is so high that a sample takes no whole nanosecond.
    SampleTimeZero,
    /// The message has no channel list.
    NoChannelData,
    /// The channel with this identifier has no samples.
    MissingIntensities(Channel),
    /// The channel list is empty.
    ZeroChannels,
    /// A channel holds another number of samples than expected: its identifier, its count, and
    /// the count expected.
    SampleCountMismatch(Channel, usize, usize),
    /// The message holds another number of channels than expected: its count and the count
    /// expected.
    ChannelCountMismatch(usize, usize),
}

/// The position of the first channel without samples, if any.
pub open spec fn first_missing(chans: Seq<ChannelTrace>) -> Option<int>
    decreases chans.len(),
{
    if chans.len() == 0 {
        None
    } else {
        match first_missing(chans.drop_last()) {
            Some(i) => Some(i),
            None => if chans.last().voltage is None {
                Some(chans.len() - 1)
            } else {
                None
            },
        }
    }
}

/// The position of the first channel whose sample count is not `n`, if any.
pub open spec fn first_count_mismatch(chans: Seq<ChannelTrace>, n: nat) -> Option<int>
    decreases chans.len(),
{
    if chans.len() == 0 {
        None
    } else {
        match first_count_mismatch(chans.drop_last(), n) {
            Some(i) => Some(i),
            None => if voltage_len(chans.last()) != n {
                Some(chans.len() - 1)
            } else {
                None
            },
        }
    }
}

/// What the check that a message has channels, each with samples, finds: the first defect of a
/// missing channel list, a channel without samples, or an empty channel list.
pub open spec fn channels_check(message: TraceMessage) -> Result<(), FrameError> {
    match message.channels {
        None => Err(FrameError::NoChannelData),
        Some(c) => match first_missing(c@) {
            Some(i) => Err(FrameError::MissingIntensities(c@[i].channel)),
            None => if c@.len() == 0 {
                Err(FrameError::ZeroChannels)
            } else {
                Ok(())
            },
        },
    }
}

/// The first channel without samples is one of the channels.
pub proof fn lemma_first_missing_bound(chans: Seq<ChannelTrace>)
    ensures
        first_missing(chans) matches Some(i) ==> 0 <= i < chans.len() && chans[i].voltage is None,
    decreases chans.len(),
{
    if chans.len() > 0 {
        lemma_first_missing_bound(chans.drop_last());
    }
}

/// The first channel with another sample count is one of the channels.
pub proof fn lemma_first_count_mismatch_bound(chans: Seq<ChannelTrace>, n: nat)
    ensures
        first_count_mismatch(chans, n) matches Some(i) ==> 0 <= i < chans.len() && voltage_len(
            chans[i],
        ) != n,
    decreases chans.len(),
{
    if chans.len() > 0 {
        lemma_first_count_mismatch_bound(chans.drop_last(), n);
    }
}

/// Finds the first channel without samples.
fn find_missing(chans: &Vec<ChannelTrace>) -> (res: Option<usize>)
    ensures
        res matches Some(j) ==> first_missing(chans@) == Some(j as int),
        res is None ==> first_missing(chans@) is None,
{
    let mut i: usize = 0;
    while i < chans.len()
        invariant
            i <= chans.len(),
            first_missing(chans@.take(i as int)).is_none(),
        decreases chans.len() - i,
    {
        assert(chans@.take(i + 1).drop_last() =~= chans@.take(i as int));
        if chans[i].voltage.is_none() {
            proof {
                lemma_first_missing_prefix(chans@, i as int + 1);
            }
            return Some(i);
        }
        i = i + 1;
    }
    assert(chans@.take(chans.len() as int) =~= chans@);
    None
}

/// Where a prefix has a channel without samples, the whole list finds the same one first.
pub proof fn lemma_first_missing_prefix(chans: Seq<ChannelTrace>, k: int)
    requires
        0 <= k <= chans.len(),
        first_missing(chans.take(k)).is_some(),
    ensures
        first_missing(chans) == first_missing(chans.take(k)),
    decreases chans.len() - k,
{
    if k < chans.len() {
        assert(chans.take(k + 1).drop_last() =~= chans.take(k));
        lemma_first_missing_prefix(chans, k + 1);
    } else {
        assert(chans.take(k) =~= chans);
    }
}

/// Where a prefix has a channel with another sample count, the whole list finds the same one
/// first.
pub proof fn lemma_first_count_mismatch_prefix(chans: Seq<ChannelTrace>, n: nat, k: int)
    requires
        0 <= k <= chans.len(),
        first_count_mismatch(chans.take(k), n).is_some(),
    ensures
        first_count_mismatch(chans, n) == first_count_mismatch(chans.take(k), n),
    decreases chans.len() - k,
{
    if k < chans.len() {
        assert(chans.take(k + 1).drop_last() =~= chans.take(k));
        lemma_first_count_mismatch_prefix(chans, n, k + 1);
    } else {
        assert(chans.take(k) =~= chans);
    }
}

/// Checks that a message has channels, each with samples.
pub fn test_channels(message: &TraceMessage) -> (res: Result<(), FrameError>)
    ensures
        res == channels_check(*message),
{
    match &message.channels {
        None => Err(FrameError::NoChannelData),
        Some(c) => {
            proof {
                lemma_first_missing_bound(c@);
            }
            match find_missing(c) {
                Some(i) => Err(FrameError::MissingIntensities(c[i].channel)),
                None => if c.len() == 0 {
                    Err(FrameError::ZeroChannels)
                } else {
                    Ok(())
                },
            }
        },
    }
}

/// The per-frame values of a trace message: its time, digitiser and frame, its channel and sample
/// counts, and the duration of a sample in nanoseconds.
#[derive(Clone, Copy, Debug, PartialEq, Eq, Structural)]
pub struct FrameData {
    pub timestamp: Timestamp,
    pub digitizer_id: DigitizerId,
    pub frame_number: FrameNumber,
    pub num_channels: usize,
    pub num_samples: usize,
    pub sample_time: i64,
}

/// What the check of the channel and sample counts finds: the first channel with another sample
/// count than expected, else a channel count other than expected.
pub open spec fn counts_check(frame: FrameData, chans: Seq<ChannelTrace>) -> Result<(), FrameError> {
    match first_count_mismatch(chans, frame.num_samples as nat) {
        Some(i) => Err(
            FrameError::SampleCountMismatch(
                chans[i].channel,
                voltage_len(chans[i]) as usize,
                frame.num_samples,
            ),
        ),
        None => if chans.len() != frame.num_channels {
            Err(FrameError::ChannelCountMismatch(chans.len() as usize, frame.num_channels))
        } else {
            Ok(())
        },
    }
}

/// The time of a measurement: the frame's time plus the sample time for each earlier sample, the
/// measurement number taken as a signed 32-bit number.
pub open spec fn measurement_time(frame: FrameData, measurement_number: int) -> int {
    frame.timestamp + frame.sample_time * ((measurement_number as i32) as int)
}

/// Whether the time of a measurement stays within the range of a timestamp.
pub open spec fn measurement_time_in_range(frame: FrameData, measurement_number: int) -> bool {
    &&& i64::MIN <= frame.sample_time * ((measurement_number as i32) as int) <= i64::MAX
    &&& i64::MIN <= measurement_time(frame, measurement_number) <= i64::MAX
}

/// What extracting the per-frame values of a message gives: the values, or the first defect found.
/// The timestamp, digitiser and frame number are taken first, then the sample time, then the
/// checks of the channels, then the sample count of the first channel, then the checks of the
/// counts.
pub open spec fn spec_init(old_frame: FrameData, message: TraceMessage) -> (FrameData, Result<(), FrameError>) {
    match message.metadata.timestamp {
        None => (old_frame, Err(FrameError::NoTimestamp)),
        Some(ts) => {
            let with_ids = FrameData {
                timestamp: ts,
                digitizer_id: message.digitizer_id,
                frame_number: message.metadata.frame_number,
                ..old_frame
            };
            if message.sample_rate == 0 {
                (with_ids, Err(FrameError::SampleRateZero))
            } else {
                let st = sample_time_for_rate((message.sample_rate as i32) as int);
                let with_time = FrameData { sample_time: st as i64, ..with_ids };
                if st == 0 {
                    (with_time, Err(FrameError::SampleTimeZero))
                } else {
                    match channels_check(message) {
                        Err(e) => (with_time, Err(e)),
                        Ok(_) => {
                            let c = message.channels.unwrap()@;
                            let counted = FrameData {
                                num_samples: voltage_len(c[0]) as usize,
                                ..with_time
                            };
                            (counted, counts_check(counted, c))
                        },
                    }
                }
            }
        },
    }
}

impl FrameData {
    /// Zero values throughout.
    pub fn default() -> (res: Self)
        ensures
            res == (FrameData {
                timestamp: 0,
                digitizer_id: 0,
                frame_number: 0,
                num_channels: 0,
                num_samples: 0,
                sample_time: 0,
            }),
    {
        FrameData {
            timestamp: 0,
            digitizer_id: 0,
            frame_number: 0,
            num_channels: 0,
            num_samples: 0,
            sample_time: 0,
        }
    }

    /// Sets the number of channels a frame is expected to hold.
    pub fn set_channel_count(&mut self, num_channels: usize)
        ensures
            *final(self) == (FrameData { num_channels, ..*old(self) }),
    {
        self.num_channels = num_channels;
    }

    /// Checks that every channel holds the expected number of samples, then that the message
    /// holds the expected number of channels. Every channel must have samples.
    pub fn test_channel_and_sample_count(&self, chans: &Vec<ChannelTrace>) -> (res: Result<(), FrameError>)
        requires
            forall|i: int| 0 <= i < chans@.len() ==> (#[trigger] chans@[i]).voltage is Some,
        ensures
            res == counts_check(*self, chans@),
            res is Ok <==> (chans@.len() == self.num_channels && forall|i: int|
                0 <= i < chans@.len() ==> voltage_len(#[trigger] chans@[i]) == self.num_samples),
    {
        proof {
            law_counts_check_exact(*self, chans@);
        }
        let mut i: usize = 0;
        while i < chans.len()
            invariant
                i <= chans.len(),
                first_count_mismatch(chans@.take(i as int), self.num_samples as nat).is_none(),
            decreases chans.len() - i,
        {
            assert(chans@.take(i + 1).drop_last() =~= chans@.take(i as int));
            let len = match &chans[i].voltage {
                Some(v) => v.len(),
                None => 0,
            };
            if len != self.num_samples {
                proof {
                    lemma_first_count_mismatch_bound(chans@, self.num_samples as nat);
                    lemma_first_count_mismatch_prefix(chans@, self.num_samples as nat, i as int + 1);
                }
                return Err(FrameError::SampleCountMismatch(chans[i].channel, len, self.num_samples));
            }
            i = i + 1;
        }
        assert(chans@.take(chans.len() as int) =~= chans@);
        if chans.len() != self.num_channels {
            Err(FrameError::ChannelCountMismatch(chans.len(), self.num_channels))
        } else {
            Ok(())
        }
    }

    /// Extracts the per-frame values of a message, checking it on the way; no channel trace data
    /// is extracted. Where the sampling rate is set, its low 32 bits must not be all zero.
    pub fn init(&mut self, message: &TraceMessage) -> (res: Result<(), FrameError>)
        requires
            message.metadata.timestamp.is_some() && message.sample_rate != 0 ==> (
            message.sample_rate as i32) != 0,
        ensures
            (*final(self), res) == spec_init(*old(self), *message),
            res is Ok ==> (message.channels matches Some(c) && c@.len() == old(self).num_channels
                && forall|i: int|
                0 <= i < c@.len() ==> voltage_len(#[trigger] c@[i]) == final(self).num_samples),
    {
        proof {
            law_init_accepts_only_expected_shape(*old(self), *message);
        }
        let ts = match message.metadata.timestamp {
            Some(ts) => ts,
            None => {
                return Err(FrameError::NoTimestamp);
            },
        };
        self.timestamp = ts;
        self.digitizer_id = message.digitizer_id;
        self.frame_number = message.metadata.frame_number;
        if message.sample_rate == 0 {
            return Err(FrameError::SampleRateZero);
        }
        self.sample_time = sample_time_from_rate(message.sample_rate as i32);
        if self.sample_time == 0 {
            return Err(FrameError::SampleTimeZero);
        }
        let checked = test_channels(message);
        if let Err(e) = checked {
            return Err(e);
        }
        match &message.channels {
            Some(c) => {
                assert(first_missing(c@).is_none());
                proof {
                    lemma_no_missing(c@);
                }
                self.num_samples = match &c[0].voltage {
                    Some(v) => v.len(),
                    None => 0,
                };
                self.test_channel_and_sample_count(c)
            },
            None => Err(FrameError::NoChannelData),
        }
    }

    /// The time of a measurement relative to the time of this frame.
    pub fn calc_measurement_time(&self, measurement_number: usize) -> (res: Timestamp)
        requires
            measurement_time_in_range(*self, measurement_number as int),
        ensures
            res == measurement_time(*self, measurement_number as int),
    {
        let k = measurement_number as i32;
        let offset: i64 = self.sample_time * (k as i64);
        self.timestamp + offset
    }
}

/// Where no channel lacks samples, every channel has samples.
pub proof fn lemma_no_missing(chans: Seq<ChannelTrace>)
    requires
        first_missing(chans).is_none(),
    ensures
        forall|i: int| 0 <= i < chans.len() ==> (#[trigger] chans[i]).voltage is Some,
    decreases chans.len(),
{
    if chans.len() > 0 {
        lemma_no_missing(chans.drop_last());
        assert forall|i: int| 0 <= i < chans.len() implies (#[trigger] chans[i]).voltage is Some by {
            if i < chans.len() - 1 {
                assert(chans[i] == chans.drop_last()[i]);
            }
        }
    }
}

/// No channel has another sample count than `n` exactly where every channel has `n` samples.
proof fn lemma_no_count_mismatch(chans: Seq<ChannelTrace>, n: nat)
    ensures
        first_count_mismatch(chans, n).is_none() <==> forall|i: int|
            0 <= i < chans.len() ==> voltage_len(#[trigger] chans[i]) == n,
    decreases chans.len(),
{
    if chans.len() > 0 {
        let prev = chans.drop_last();
        lemma_no_count_mismatch(prev, n);
        if first_count_mismatch(chans, n).is_none() {
            assert forall|i: int| 0 <= i < chans.len() implies voltage_len(#[trigger] chans[i]) == n by {
                if i < chans.len() - 1 {
                    assert(chans[i] == prev[i]);
                }
            }
        }
        if forall|i: int| 0 <= i < chans.len() ==> voltage_len(#[trigger] chans[i]) == n {
            assert forall|i: int| 0 <= i < prev.len() implies voltage_len(#[trigger] prev[i]) == n by {
                assert(prev[i] == chans[i]);
            }
            assert(voltage_len(chans[chans.len() - 1]) == n);
        }
    }
}

/// The check of the counts passes exactly where the message holds the expected number of channels
/// and every channel the expected number of samples. Where every sample count is right, a channel
/// count other than the expected one, larger as well as smaller, is refused with both counts.
pub proof fn law_counts_check_exact(frame: FrameData, chans: Seq<ChannelTrace>)
    ensures
        counts_check(frame, chans) is Ok <==> (chans.len() == frame.num_channels && forall|i: int|
            0 <= i < chans.len() ==> voltage_len(#[trigger] chans[i]) == frame.num_samples),
        (forall|i: int| 0 <= i < chans.len() ==> voltage_len(#[trigger] chans[i]) == frame.num_samples)
            && chans.len() != frame.num_channels ==> counts_check(frame, chans) == Err::<
            (),
            FrameError,
        >(FrameError::ChannelCountMismatch(chans.len() as usize, frame.num_channels)),
{
    lemma_no_count_mismatch(chans, frame.num_samples as nat);
    lemma_first_count_mismatch_bound(chans, frame.num_samples as nat);
}

/// A message whose frame values are extracted has a timestamp, a sampling rate, and the expected
/// number of channels, each with samples and all with as many samples as the first one, which the
/// frame then holds as its sample count.
pub proof fn law_init_accepts_only_expected_shape(old_frame: FrameData, message: TraceMessage)
    ensures
        spec_init(old_frame, message).1 is Ok ==> {
            &&& message.metadata.timestamp is Some
            &&& message.sample_rate != 0
            &&& message.channels matches Some(c) && {
                &&& c@.len() == old_frame.num_channels
                &&& c@.len() > 0
                &&& forall|i: int| 0 <= i < c@.len() ==> (#[trigger] c@[i]).voltage is Some
                &&& forall|i: int|
                    0 <= i < c@.len() ==> voltage_len(#[trigger] c@[i]) == spec_init(
                        old_frame,
                        message,
                    ).0.num_samples
                &&& spec_init(old_frame, message).0.num_samples == voltage_len(c@[0])
            }
        },
{
    if spec_init(old_frame, message).1 is Ok {
        let c = message.channels.unwrap()@;
        lemma_first_missing_bound(c);
        lemma_no_missing(c);
        law_counts_check_exact(spec_init(old_frame, message).0, c);
    }
}

/// Successive measurements of a frame are one sample time apart.
pub proof fn law_measurement_times_step(frame: FrameData, i: int)
    requires
        0 <= i,
        i + 1 <= i32::MAX,
    ensures
        measurement_time(frame, i + 1) == measurement_time(frame, i) + frame.sample_time,
{
    assert((i as i32) as int == i);
    assert(((i + 1) as i32) as int == i + 1);
    assert(frame.sample_time * (i + 1) == frame.sample_time * i + frame.sample_time) by (nonlinear_arith);
}

} // verus!
