//! The binary trace file format: a header describing the recording, followed by trace events
//! of a fixed size, each holding one raw trace per channel.
//!
//! Integers and floating-point values are little-endian; floating-point values are kept as their
//! raw bits. Text is a little-endian 32-bit byte count followed by UTF-8 bytes. Raw trace samples
//! are big-endian 16-bit values.
use vstd::prelude::*;
use vstd::utf8::{decode_utf8, decode_utf8_encode_utf8, encode_utf8, valid_utf8};

use super::bytes::{
    bool_seq, copy_range, i32_seq, le_i32, le_u64, read_bools, read_i32_le, read_i32s, read_u16s_be,
    read_u64_le, read_u64s, string_from_utf8, u16_seq, u64_seq,
};

verus! {

/// Why a trace file cannot be read.
#[derive(Clone, Copy, Debug, PartialEq, Eq, Structural)]
pub enum LoadError {
    /// The file ends before a value that it should hold.
    UnexpectedEof,
    /// A text field is not valid UTF-8.
    InvalidData,
    /// A trace event that the file does not hold was asked for.
    InvalidEventIndex,
    /// The events do not fill the rest of the file: this many bytes are left over.
    TrailingBytes(usize),
}

// Layout of the header. Each offset depends on the text lengths and the channel count read
// before it.

/// The byte count of the program version text.
pub open spec fn first_len(b: Seq<u8>) -> int {
    le_i32(b, 0) as int
}

/// Where the program version text ends.
pub open spec fn first_end(b: Seq<u8>) -> int {
    4 + first_len(b)
}

/// The byte count of the run description text.
pub open spec fn second_len(b: Seq<u8>) -> int {
    le_i32(b, first_end(b)) as int
}

/// Where the run description text ends.
pub open spec fn second_end(b: Seq<u8>) -> int {
    first_end(b) + 4 + second_len(b)
}

/// The channel count of the recording.
pub open spec fn header_channels(b: Seq<u8>) -> int {
    le_i32(b, second_end(b) + 4) as int
}

/// Where the per-channel settings start.
pub open spec fn settings_start(b: Seq<u8>) -> int {
    second_end(b) + 8
}

/// The size of the part of the header that follows the two texts, for `nc` channels.
pub open spec fn settings_size(nc: int) -> int {
    33 + 30 * nc
}

/// Where the header ends.
pub open spec fn header_end(b: Seq<u8>) -> int {
    second_end(b) + settings_size(header_channels(b))
}

/// Whether the text byte counts that are read are never negative: a negative count would ask
/// for an impossible allocation.
pub open spec fn text_lengths_valid(b: Seq<u8>) -> bool {
    &&& b.len() >= 4 ==> first_len(b) >= 0
    &&& (b.len() >= 4 && first_end(b) <= b.len() && valid_utf8(b.subrange(4, first_end(b)))
        && first_end(b) + 4 <= b.len()) ==> second_len(b) >= 0
}

/// The outcome of reading a header from `b`: no error, or the first one met.
pub open spec fn header_error(b: Seq<u8>) -> Option<LoadError> {
    if b.len() < 4 || first_end(b) > b.len() {
        Some(LoadError::UnexpectedEof)
    } else if !valid_utf8(b.subrange(4, first_end(b))) {
        Some(LoadError::InvalidData)
    } else if first_end(b) + 4 > b.len() || second_end(b) > b.len() {
        Some(LoadError::UnexpectedEof)
    } else if !valid_utf8(b.subrange(first_end(b) + 4, second_end(b))) {
        Some(LoadError::InvalidData)
    } else if settings_start(b) > b.len() || header_channels(b) < 0 || header_end(b) > b.len() {
        Some(LoadError::UnexpectedEof)
    } else {
        None
    }
}

/// The header of a trace file. Floating-point settings are held as their raw bits.
pub struct TraceFileHeader {
    pub prog_version: String,
    pub run_descript: String,
    pub resolution: i32,
    pub number_of_channels: i32,
    pub channel_enabled: Vec<bool>,
    pub volts_scale_factor: Vec<u64>,
    pub channel_offset_volts: Vec<u64>,
    pub sample_time: u64,
    pub number_of_samples: i32,
    pub trigger_enabled: Vec<bool>,
    pub ex_trigger_enabled: bool,
    pub trigger_level: Vec<u64>,
    pub ex_trigger_level: u64,
    pub trigger_slope: Vec<i32>,
    pub ex_trigger_slope: i32,
    /// The number of bytes the header took up in the file.
    pub total_bytes: usize,
}

/// Whether `h` holds the values that the header at the start of `b` encodes.
pub open spec fn header_matches(h: TraceFileHeader, b: Seq<u8>) -> bool {
    let nc = header_channels(b);
    let s = settings_start(b);
    &&& h.prog_version@ == decode_utf8(b.subrange(4, first_end(b)))
    &&& h.run_descript@ == decode_utf8(b.subrange(first_end(b) + 4, second_end(b)))
    &&& h.resolution == le_i32(b, second_end(b))
    &&& h.number_of_channels as int == nc
    &&& h.channel_enabled@ == bool_seq(b, s, nc)
    &&& h.volts_scale_factor@ == u64_seq(b, s + nc, nc)
    &&& h.channel_offset_volts@ == u64_seq(b, s + 9 * nc, nc)
    &&& h.sample_time as int == le_u64(b, s + 17 * nc)
    &&& h.number_of_samples == le_i32(b, s + 17 * nc + 8)
    &&& h.trigger_enabled@ == bool_seq(b, s + 17 * nc + 12, nc)
    &&& h.ex_trigger_enabled == (b[s + 18 * nc + 12] != 0)
    &&& h.trigger_level@ == u64_seq(b, s + 18 * nc + 13, nc)
    &&& h.ex_trigger_level as int == le_u64(b, s + 26 * nc + 13)
    &&& h.trigger_slope@ == i32_seq(b, s + 26 * nc + 21, nc)
    &&& h.ex_trigger_slope == le_i32(b, s + 30 * nc + 21)
}

/// The size of an encoded header from its text byte counts and channel count.
pub open spec fn encoded_header_size(prog_version_len: int, run_descript_len: int, nc: int) -> int {
    4 + prog_version_len + 4 + run_descript_len + 4 + 4 + nc + 8 * nc + 8 * nc + 8 + 4 + nc + 1 + 8
        * nc + 8 + 4 * nc + 4
}

/// The size of an encoded trace event: its fixed fields, one flag per channel, and one raw trace
/// of two-byte samples per channel.
pub open spec fn event_size(nc: int, ns: int) -> int {
    4 + 8 + 4 + nc + 8 + 2 * nc * ns
}

impl TraceFileHeader {
    /// The channel count taken as an unsigned size.
    pub open spec fn channels_as_size(&self) -> int {
        (self.number_of_channels as usize) as int
    }

    /// The sample count taken as an unsigned size.
    pub open spec fn samples_as_size(&self) -> int {
        (self.number_of_samples as usize) as int
    }

    /// Reads the header at the start of the bytes of a trace file. Reading stops at the first
    /// field that the bytes cannot supply; a text field that is not valid UTF-8 is refused.
    pub fn load(b: &Vec<u8>) -> (res: Result<Self, LoadError>)
        requires
            text_lengths_valid(b@),
        ensures
            res.is_err() == header_error(b@).is_some(),
            res matches Err(e) ==> header_error(b@) == Some(e),
            res matches Ok(h) ==> {
                &&& header_matches(h, b@)
                &&& h.total_bytes == header_end(b@)
                &&& h.number_of_channels >= 0
                &&& h.total_bytes == encoded_header_size(
                    encode_utf8(h.prog_version@).len() as int,
                    encode_utf8(h.run_descript@).len() as int,
                    h.number_of_channels as int,
                )
            },
    {
        let len = b.len();
        if len < 4 {
            return Err(LoadError::UnexpectedEof);
        }
        let n1 = read_i32_le(b, 0);
        let n1u = n1 as usize;
        if n1u > len - 4 {
            return Err(LoadError::UnexpectedEof);
        }
        let end1 = 4 + n1u;
        let prog_version = match string_from_utf8(copy_range(b, 4, end1)) {
            Some(s) => s,
            None => {
                return Err(LoadError::InvalidData);
            },
        };
        if len - end1 < 4 {
            return Err(LoadError::UnexpectedEof);
        }
        let n2 = read_i32_le(b, end1);
        let n2u = n2 as usize;
        if n2u > len - end1 - 4 {
            return Err(LoadError::UnexpectedEof);
        }
        let end2 = end1 + 4 + n2u;
        let run_descript = match string_from_utf8(copy_range(b, end1 + 4, end2)) {
            Some(s) => s,
            None => {
                return Err(LoadError::InvalidData);
            },
        };
        if len - end2 < 8 {
            return Err(LoadError::UnexpectedEof);
        }
        let resolution = read_i32_le(b, end2);
        let nc = read_i32_le(b, end2 + 4);
        if nc < 0 {
            return Err(LoadError::UnexpectedEof);
        }
        let s = end2 + 8;
        let rest: u64 = (len - s) as u64;
        let ncu64: u64 = nc as u64;
        if 25 + 30 * ncu64 > rest {
            return Err(LoadError::UnexpectedEof);
        }
        let n = nc as usize;
        proof {
            decode_utf8_encode_utf8(b@.subrange(4, end1 as int));
            decode_utf8_encode_utf8(b@.subrange(end1 + 4, end2 as int));
        }
        let channel_enabled = read_bools(b, s, n);
        let volts_scale_factor = read_u64s(b, s + n, n);
        let channel_offset_volts = read_u64s(b, s + 9 * n, n);
        let sample_time = read_u64_le(b, s + 17 * n);
        let number_of_samples = read_i32_le(b, s + 17 * n + 8);
        let trigger_enabled = read_bools(b, s + 17 * n + 12, n);
        let ex_trigger_enabled = b[s + 18 * n + 12] != 0;
        let trigger_level = read_u64s(b, s + 18 * n + 13, n);
        let ex_trigger_level = read_u64_le(b, s + 26 * n + 13);
        let trigger_slope = read_i32s(b, s + 26 * n + 21, n);
        let ex_trigger_slope = read_i32_le(b, s + 30 * n + 21);
        Ok(TraceFileHeader {
            prog_version,
            run_descript,
            resolution,
            number_of_channels: nc,
            channel_enabled,
            volts_scale_factor,
            channel_offset_volts,
            sample_time,
            number_of_samples,
            trigger_enabled,
            ex_trigger_enabled,
            trigger_level,
            ex_trigger_level,
            trigger_slope,
            ex_trigger_slope,
            total_bytes: s + 30 * n + 25,
        })
    }

    /// The number of bytes the header took up in the file.
    pub fn get_total_bytes(&self) -> (res: usize)
        ensures
            res == self.total_bytes,
    {
        self.total_bytes
    }

    /// The size of the encoded header, computed from its texts and its channel count.
    pub fn get_size(&self) -> (res: usize)
        requires
            encoded_header_size(
                encode_utf8(self.prog_version@).len() as int,
                encode_utf8(self.run_descript@).len() as int,
                self.channels_as_size(),
            ) <= usize::MAX,
        ensures
            res as int == encoded_header_size(
                encode_utf8(self.prog_version@).len() as int,
                encode_utf8(self.run_descript@).len() as int,
                self.channels_as_size(),
            ),
    {
        let nc = self.number_of_channels as usize;
        let p = self.prog_version.as_str().len();
        let r = self.run_descript.as_str().len();
        4 + p + 4 + r + 4 + 4 + nc + 8 * nc + 8 * nc + 8 + 4 + nc + 1 + 8 * nc + 8 + 4 * nc + 4
    }

    /// Whether the size of a trace event for this header's channel and sample counts can be
    /// computed.
    pub open spec fn event_size_fits(&self) -> bool {
        event_size(self.channels_as_size(), self.samples_as_size()) <= usize::MAX
    }

    /// Whether the size of a trace event for this header's channel and sample counts can be
    /// computed.
    pub fn event_size_in_range(&self) -> (res: bool)
        ensures
            res == self.event_size_fits(),
    {
        let ncu: usize = #[verifier::truncate] (self.number_of_channels as usize);
        let nsu: usize = #[verifier::truncate] (self.number_of_samples as usize);
        let nc = ncu as u128;
        let ns = nsu as u128;
        let fixed: u128 = 24 + nc;
        let limit: u128 = usize::MAX as u128;
        if fixed > limit {
            proof {
                let a = nc as int;
                let c = ns as int;
                assert(2 * a * c >= 0) by (nonlinear_arith)
                    requires
                        a >= 0,
                        c >= 0,
                ;
            }
            return false;
        }
        if ns == 0 || nc == 0 {
            proof {
                let a = nc as int;
                let c = ns as int;
                assert(2 * a * c == 0) by (nonlinear_arith)
                    requires
                        a == 0 || c == 0,
                ;
            }
            return true;
        }
        let room: u128 = (limit - fixed) / 2;
        let fits = nc <= room / ns;
        proof {
            let rm = room as int;
            let a = nc as int;
            let c = ns as int;
            let l = (limit - fixed) as int;
            assert(2 * a * c == 2 * (a * c)) by (nonlinear_arith);
            if fits {
                assert(a * c <= rm) by (nonlinear_arith)
                    requires
                        a <= rm / c,
                        c > 0,
                        rm >= 0,
                ;
            } else {
                assert(a * c > rm) by (nonlinear_arith)
                    requires
                        a > rm / c,
                        c > 0,
                        rm >= 0,
                ;
            }
            assert(rm == l / 2);
        }
        fits
    }

    /// The size of a trace event for this header's channel and sample counts.
    pub fn get_event_size(&self) -> (res: usize)
        requires
            self.event_size_fits(),
        ensures
            res as int == event_size(self.channels_as_size(), self.samples_as_size()),
    {
        let nc: usize = #[verifier::truncate] (self.number_of_channels as usize);
        let ns: usize = #[verifier::truncate] (self.number_of_samples as usize);
        TraceFileEvent::get_size(nc, ns)
    }
}

/// The fixed fields of a trace event, its per-channel flags and its raw traces.
pub struct TraceFileEvent {
    pub cur_trace_event: i32,
    pub trace_event_runtime: u64,
    pub number_saved_traces: i32,
    pub saved_channels: Vec<bool>,
    pub trigger_time: u64,
    pub raw_trace: Vec<Vec<u16>>,
    pub total_bytes: usize,
}

/// The raw traces stored from `at`: `nc` traces of `ns` samples each, one after another.
pub open spec fn raw_traces_match(traces: Seq<Vec<u16>>, b: Seq<u8>, at: int, nc: int, ns: int) -> bool {
    &&& traces.len() == nc
    &&& forall|c: int| 0 <= c < nc ==> (#[trigger] traces[c])@ == u16_seq(b, at + 2 * ns * c, ns)
}

/// Whether `e` holds the values of the trace event encoded at `at` in `b`, for `nc` channels of
/// `ns` samples.
pub open spec fn event_matches(e: TraceFileEvent, b: Seq<u8>, at: int, nc: int, ns: int) -> bool {
    &&& e.cur_trace_event == le_i32(b, at)
    &&& e.trace_event_runtime as int == le_u64(b, at + 4)
    &&& e.number_saved_traces == le_i32(b, at + 12)
    &&& e.saved_channels@ == bool_seq(b, at + 16, nc)
    &&& e.trigger_time as int == le_u64(b, at + 16 + nc)
    &&& raw_traces_match(e.raw_trace@, b, at + 24 + nc, nc, ns)
    &&& e.total_bytes == event_size(nc, ns)
}

impl TraceFileEvent {
    /// The size of an encoded trace event with `num_channels` channels of `num_samples` samples.
    pub fn get_size(num_channels: usize, num_samples: usize) -> (res: usize)
        requires
            event_size(num_channels as int, num_samples as int) <= usize::MAX,
        ensures
            res as int == event_size(num_channels as int, num_samples as int),
    {
        proof {
            let a = num_channels as int;
            let c = num_samples as int;
            assert(0 <= a * c && 2 * a * c == 2 * (a * c)) by (nonlinear_arith)
                requires
                    a >= 0,
                    c >= 0,
            ;
        }
        4 + 8 + 4 + num_channels + 8 + 2 * (num_channels * num_samples)
    }

    /// Reads the trace event encoded at `at`, with `num_channels` channels of `num_samples`
    /// samples each.
    pub fn load_raw(b: &Vec<u8>, at: usize, num_channels: usize, num_samples: usize) -> (res: Self)
        requires
            at + event_size(num_channels as int, num_samples as int) <= b.len(),
        ensures
            event_matches(res, b@, at as int, num_channels as int, num_samples as int),
    {
        let nc = num_channels;
        let ns = num_samples;
        proof {
            let a = nc as int;
            let c = ns as int;
            assert(0 <= 2 * a * c) by (nonlinear_arith)
                requires
                    a >= 0,
                    c >= 0,
            ;
        }
        let cur_trace_event = read_i32_le(b, at);
        let trace_event_runtime = read_u64_le(b, at + 4);
        let number_saved_traces = read_i32_le(b, at + 12);
        let saved_channels = read_bools(b, at + 16, nc);
        let trigger_time = read_u64_le(b, at + 16 + nc);
        let base = at + 24 + nc;
        let mut raw_trace: Vec<Vec<u16>> = Vec::new();
        let mut c: usize = 0;
        let mut pos: usize = base;
        while c < nc
            invariant
                c <= nc,
                base == at + 24 + nc,
                at + event_size(nc as int, ns as int) <= b.len(),
                pos == base + 2 * ns * c,
                raw_trace@.len() == c,
                forall|k: int|
                    0 <= k < c ==> (#[trigger] raw_trace@[k])@ == u16_seq(
                        b@,
                        base + 2 * ns * k,
                        ns as int,
                    ),
            decreases nc - c,
        {
            proof {
                let a = nc as int;
                let s = ns as int;
                let k = c as int;
                assert(2 * s * k + 2 * s <= 2 * a * s) by (nonlinear_arith)
                    requires
                        k < a,
                        s >= 0,
                ;
                assert(2 * s * (k + 1) == 2 * s * k + 2 * s) by (nonlinear_arith);
            }
            raw_trace.push(read_u16s_be(b, pos, ns));
            pos = pos + 2 * ns;
            c = c + 1;
        }
        let total_bytes = Self::get_size(nc, ns);
        let res = TraceFileEvent {
            cur_trace_event,
            trace_event_runtime,
            number_saved_traces,
            saved_channels,
            trigger_time,
            raw_trace,
            total_bytes,
        };
        assert forall|k: int| 0 <= k < nc implies (#[trigger] res.raw_trace@[k])@ == u16_seq(
            b@,
            base + 2 * ns * k,
            ns as int,
        ) by {}
        res
    }
}

/// A trace file held in memory: its bytes, its header, and the number of trace events it holds.
pub struct TraceFile {
    data: Vec<u8>,
    header: TraceFileHeader,
    num_trace_events: usize,
}

impl TraceFile {
    /// The bytes of the file.
    pub closed spec fn data(&self) -> Seq<u8> {
        self.data@
    }

    /// The header of the file.
    pub closed spec fn header(&self) -> TraceFileHeader {
        self.header
    }

    /// The number of trace events the file holds.
    pub closed spec fn num_events(&self) -> nat {
        self.num_trace_events as nat
    }

    /// The header was read from the start of the bytes, the events fill the rest exactly.
    pub closed spec fn well_formed(&self) -> bool {
        &&& header_error(self.data@).is_none()
        &&& header_matches(self.header, self.data@)
        &&& self.header.total_bytes == header_end(self.data@)
        &&& self.header.number_of_channels >= 0
        &&& self.header.event_size_fits()
        &&& self.header.total_bytes == encoded_header_size(
            encode_utf8(self.header.prog_version@).len() as int,
            encode_utf8(self.header.run_descript@).len() as int,
            self.header.number_of_channels as int,
        )
        &&& self.header.total_bytes + self.num_trace_events * event_size(
            self.header.channels_as_size(),
            self.header.samples_as_size(),
        ) == self.data@.len()
    }

    /// The trace event at index `event`: its bytes follow the header and the events before it.
    pub fn get_trace_event(&self, event: usize) -> (res: Result<TraceFileEvent, LoadError>)
        requires
            self.well_formed(),
        ensures
            event >= self.num_events() ==> res == Err::<TraceFileEvent, LoadError>(
                LoadError::InvalidEventIndex,
            ),
            event < self.num_events() ==> (res matches Ok(e) && event_matches(
                e,
                self.data(),
                self.header().total_bytes + event * event_size(
                    self.header().channels_as_size(),
                    self.header().samples_as_size(),
                ),
                self.header().channels_as_size(),
                self.header().samples_as_size(),
            )),
    {
        if event < self.num_trace_events {
            let size = self.header.get_event_size();
            let header_size = self.header.get_size();
            let data_len = self.data.len();
            proof {
                let e = event as int;
                let n = self.num_trace_events as int;
                let z = size as int;
                assert(0 <= e * z && e * z + z <= n * z) by (nonlinear_arith)
                    requires
                        0 <= e < n,
                        z >= 0,
                ;
                assert(header_size == self.header.total_bytes);
                assert(header_size + n * z == data_len);
            }
            let offset = header_size + event * size;
            let ns: usize = #[verifier::truncate] (self.header.number_of_samples as usize);
            Ok(TraceFileEvent::load_raw(&self.data, offset, self.header.number_of_channels as usize, ns))
        } else {
            Err(LoadError::InvalidEventIndex)
        }
    }

    /// The number of trace events the file holds.
    pub fn get_number_of_trace_events(&self) -> (res: usize)
        ensures
            res == self.num_events(),
    {
        self.num_trace_events
    }

    /// The number of channels of the recording.
    pub fn get_num_channels(&self) -> (res: usize)
        ensures
            res as int == self.header().channels_as_size(),
    {
        self.header.number_of_channels as usize
    }

    /// The raw bits of the sample time of the recording.
    pub fn get_sample_time(&self) -> (res: u64)
        ensures
            res == self.header().sample_time,
    {
        self.header.sample_time
    }

    /// The header of the file.
    pub fn get_header(&self) -> (res: &TraceFileHeader)
        ensures
            *res == self.header(),
    {
        &self.header
    }
}

/// Whether the text byte counts that `b` holds are not negative: the first one where `b` holds
/// four bytes, and the second one where the bytes after the first text hold four more, whatever
/// the first text holds.
pub open spec fn text_counts_nonnegative(b: Seq<u8>) -> bool {
    b.len() >= 4 ==> {
        &&& first_len(b) >= 0
        &&& first_end(b) + 4 <= b.len() ==> second_len(b) >= 0
    }
}

/// Whether the text byte counts that a trace file starts with are not negative, where the file
/// holds them. Where this holds, the file may be read: a negative count would ask for an
/// impossible allocation. A second count is examined whatever the first text holds.
pub fn text_lengths_nonnegative(b: &Vec<u8>) -> (res: bool)
    ensures
        res == text_counts_nonnegative(b@),
        res ==> text_lengths_valid(b@),
{
    if b.len() < 4 {
        return true;
    }
    let first = read_i32_le(b, 0);
    if first < 0 {
        return false;
    }
    let first_end: usize = 4 + first as usize;
    if first_end > b.len() || b.len() - first_end < 4 {
        return true;
    }
    let second = read_i32_le(b, first_end);
    second >= 0
}

/// Whether the trace events of the file whose header is at the start of `b` could be sized.
pub open spec fn trace_file_sizable(b: Seq<u8>) -> bool {
    header_error(b).is_none() ==> event_size(
        (header_channels(b) as usize) as int,
        ((le_i32(b, settings_start(b) + 17 * header_channels(b) + 8)) as usize) as int,
    ) <= usize::MAX
}

/// Reads a trace file from its bytes: the header, then the number of trace events, which must
/// fill the rest of the file exactly.
pub fn load_trace_file(data: Vec<u8>) -> (res: Result<TraceFile, LoadError>)
    requires
        text_lengths_valid(data@),
        trace_file_sizable(data@),
    ensures
        header_error(data@) matches Some(e) ==> res == Err::<TraceFile, LoadError>(e),
        header_error(data@).is_none() ==> {
            let nc = (header_channels(data@) as usize) as int;
            let ns = ((le_i32(data@, settings_start(data@) + 17 * header_channels(data@) + 8)) as usize) as int;
            let rest = data@.len() - header_end(data@);
            let z = event_size(nc, ns);
            &&& rest % z != 0 ==> res == Err::<TraceFile, LoadError>(
                LoadError::TrailingBytes((rest % z) as usize),
            )
            &&& rest % z == 0 ==> (res matches Ok(f) && f.well_formed() && f.data() == data@
                && f.num_events() == rest / z)
        },
{
    let header = match TraceFileHeader::load(&data) {
        Ok(h) => h,
        Err(e) => {
            return Err(e);
        },
    };
    let file_size = data.len();
    let size_minus_header = file_size - header.get_total_bytes();
    let trace_event_size = header.get_event_size();
    if size_minus_header % trace_event_size != 0 {
        Err(LoadError::TrailingBytes(size_minus_header % trace_event_size))
    } else {
        let num_trace_events = size_minus_header / trace_event_size;
        proof {
            let r = size_minus_header as int;
            let z = trace_event_size as int;
            assert(r / z * z == r) by (nonlinear_arith)
                requires
                    r % z == 0,
                    z > 0,
            ;
        }
        Ok(TraceFile { data, header, num_trace_events })
    }
}

} // verus!
