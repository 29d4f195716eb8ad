//! The frame metadata of an archive: one entry per frame, in increasing frame-number order.
use vstd::prelude::*;

use crate::common::{FrameNumber, Timestamp};

verus! {

/// Nanoseconds in one second.
pub const NANOS_PER_SECOND: i64 = 1_000_000_000;

/// The whole seconds of a timestamp (rounded toward negative infinity).
pub open spec fn timestamp_seconds(t: Timestamp) -> i64 {
    (t as int / NANOS_PER_SECOND as int) as i64
}

/// The nanoseconds of a timestamp past its whole seconds.
pub open spec fn timestamp_subsec_nanos(t: Timestamp) -> u32 {
    (t as int % NANOS_PER_SECOND as int) as u32
}

/// Splits a timestamp into whole seconds and the nanoseconds past them.
pub fn split_timestamp(t: Timestamp) -> (res: (i64, u32))
    ensures
        res.0 == timestamp_seconds(t),
        res.1 == timestamp_subsec_nanos(t),
{
    if t >= 0 {
        let s = t / NANOS_PER_SECOND;
        let n = t % NANOS_PER_SECOND;
        (s, n as u32)
    } else {
        let m: i128 = 0i128 - t as i128;
        let q: i128 = m / 1_000_000_000i128;
        let r: i128 = m % 1_000_000_000i128;
        proof {
            let tt = t as int;
            let mm = m as int;
            assert(mm == -tt);
            assert(mm == q * 1_000_000_000 + r);
            if r == 0 {
                assert(tt == (-q) * 1_000_000_000);
            } else {
                assert(tt == (-q - 1) * 1_000_000_000 + (1_000_000_000 - r));
            }
        }
        if r == 0 {
            ((0i128 - q) as i64, 0)
        } else {
            ((0i128 - q - 1) as i64, (1_000_000_000i128 - r) as u32)
        }
    }
}

/// The position of the first entry equal to `x`, if any.
pub open spec fn first_position(s: Seq<FrameNumber>, x: FrameNumber) -> Option<int> {
    if exists|i: int| 0 <= i < s.len() && s[i] == x {
        Some(choose|i: int| 0 <= i < s.len() && s[i] == x && forall|j: int| 0 <= j < i ==> s[j] != x)
    } else {
        None
    }
}

/// The frame metadata of an archive, one entry per frame: the frame's timestamp (whole seconds
/// and nanoseconds), its number, and where its traces start in the detector data.
pub struct BaseFile {
    pub frame_timestamp_seconds: Vec<i64>,
    pub frame_timestamp_nanoseconds: Vec<u32>,
    pub frame_number: Vec<FrameNumber>,
    pub frame_start_index: Vec<usize>,
    /// The number that the next new frame must reach.
    pub next_frame_number: FrameNumber,
}

impl BaseFile {
    /// The number that the next new frame must reach.
    pub open spec fn next_frame(&self) -> FrameNumber {
        self.next_frame_number
    }

    /// The four lists have one entry per frame; frame numbers increase strictly, and the next new
    /// frame must exceed the last one.
    pub open spec fn well_formed(&self) -> bool {
        let n = self.frame_number@.len();
        &&& self.frame_timestamp_seconds@.len() == n
        &&& self.frame_timestamp_nanoseconds@.len() == n
        &&& self.frame_start_index@.len() == n
        &&& forall|i: int, j: int|
            0 <= i < j < n ==> self.frame_number@[i] < self.frame_number@[j]
        &&& n == 0 ==> self.next_frame() == 0
        &&& n > 0 ==> self.next_frame() == self.frame_number@[n - 1] + 1
    }

    /// An archive with no frames.
    pub fn create() -> (res: Self)
        ensures
            res.well_formed(),
            res.frame_number@.len() == 0,
    {
        BaseFile {
            frame_timestamp_seconds: Vec::new(),
            frame_timestamp_nanoseconds: Vec::new(),
            frame_number: Vec::new(),
            frame_start_index: Vec::new(),
            next_frame_number: 0,
        }
    }

    /// Whether the entry of `frame_number`, if there is one, carries the given timestamp.
    pub open spec fn timestamp_consistent(&self, frame_number: FrameNumber, timestamp: Timestamp) -> bool {
        first_position(self.frame_number@, frame_number) matches Some(i) ==> (
        self.frame_timestamp_seconds@[i] == timestamp_seconds(timestamp)
            && self.frame_timestamp_nanoseconds@[i] == timestamp_subsec_nanos(timestamp))
    }

    /// The position of the entry of a frame, if the archive has one. The entry must carry the same
    /// timestamp: a frame number seen again with another time means the frame numbers have been
    /// reset, which the archive cannot represent.
    pub fn find_frame_metadata_index(&self, frame_number: FrameNumber, timestamp: Timestamp) -> (res:
        Option<usize>)
        requires
            self.well_formed(),
            self.timestamp_consistent(frame_number, timestamp),
        ensures
            match res {
                Some(i) => first_position(self.frame_number@, frame_number) == Some(i as int),
                None => first_position(self.frame_number@, frame_number).is_none(),
            },
    {
        let mut i: usize = 0;
        while i < self.frame_number.len()
            invariant
                i <= self.frame_number@.len(),
                forall|j: int| 0 <= j < i ==> self.frame_number@[j] != frame_number,
            decreases self.frame_number@.len() - i,
        {
            if self.frame_number[i] == frame_number {
                proof {
                    let p = first_position(self.frame_number@, frame_number);
                    assert(p.is_some());
                    let k = p.unwrap();
                    assert(self.frame_number@[k] == frame_number);
                    assert(forall|j: int| 0 <= j < k ==> self.frame_number@[j] != frame_number);
                    assert(k == i as int);
                }
                return Some(i);
            }
            i = i + 1;
        }
        None
    }

    /// Adds an entry for a new frame. A frame whose number does not exceed every frame already
    /// recorded is not recorded again.
    pub fn new_frame(&mut self, frame_number: FrameNumber, frame_time: Timestamp, frame_start: usize)
        requires
            old(self).well_formed(),
            frame_number >= old(self).next_frame() ==> frame_number < FrameNumber::MAX,
        ensures
            final(self).well_formed(),
            frame_number < old(self).next_frame() ==> *final(self) == *old(self),
            frame_number >= old(self).next_frame() ==> {
                &&& final(self).frame_number@ == old(self).frame_number@.push(frame_number)
                &&& final(self).frame_timestamp_seconds@ == old(self).frame_timestamp_seconds@.push(
                    timestamp_seconds(frame_time),
                )
                &&& final(self).frame_timestamp_nanoseconds@
                    == old(self).frame_timestamp_nanoseconds@.push(timestamp_subsec_nanos(frame_time))
                &&& final(self).frame_start_index@ == old(self).frame_start_index@.push(frame_start)
            },
    {
        if frame_number < self.next_frame_number {
            return;
        }
        self.next_frame_number = frame_number + 1;
        let (seconds, nanoseconds) = split_timestamp(frame_time);
        self.frame_timestamp_seconds.push(seconds);
        self.frame_timestamp_nanoseconds.push(nanoseconds);
        self.frame_number.push(frame_number);
        self.frame_start_index.push(frame_start);
    }
}

/// A frame that `new_frame` records is found again by `find_frame_metadata_index`, at the position
/// where it was added; it carries the time it was given, and the column where its traces start,
/// which later traces of the same frame share.
pub proof fn law_new_frame_found(
    before: BaseFile,
    after: BaseFile,
    frame_number: FrameNumber,
    frame_time: Timestamp,
    frame_start: usize,
)
    requires
        before.well_formed(),
        frame_number >= before.next_frame(),
        after.frame_number@ == before.frame_number@.push(frame_number),
        after.frame_timestamp_seconds@ == before.frame_timestamp_seconds@.push(
            timestamp_seconds(frame_time),
        ),
        after.frame_timestamp_nanoseconds@ == before.frame_timestamp_nanoseconds@.push(
            timestamp_subsec_nanos(frame_time),
        ),
        after.frame_start_index@ == before.frame_start_index@.push(frame_start),
    ensures
        first_position(after.frame_number@, frame_number) == Some(before.frame_number@.len() as int),
        after.timestamp_consistent(frame_number, frame_time),
        after.frame_start_index@[before.frame_number@.len() as int] == frame_start,
{
    let n = before.frame_number@.len() as int;
    let s = after.frame_number@;
    assert forall|j: int| 0 <= j < n implies s[j] != frame_number by {
        assert(s[j] == before.frame_number@[j]);
        assert(before.frame_number@[j] <= before.frame_number@[n - 1]);
    }
    assert(s[n] == frame_number);
    let k = choose|i: int| 0 <= i < s.len() && s[i] == frame_number && forall|j: int|
        0 <= j < i ==> s[j] != frame_number;
    assert(0 <= k < s.len() && s[k] == frame_number && forall|j: int| 0 <= j < k ==> s[j] != frame_number);
    assert(k == n);
}

} // verus!
