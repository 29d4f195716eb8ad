//! Detects and records the defects of a trace message as an error code and a list of reports.
use vstd::prelude::*;

use crate::message::{ChannelTrace, TraceMessage};
use crate::text::{decimal, push_decimal};

use super::framedata::FrameData;

verus! {

broadcast use vstd::string::group_string_axioms;

/// The kind of a single defect. The kinds are single bits, which are combined by bitwise or
/// into the error code of a frame.
#[derive(Clone, Copy, Debug, PartialEq, Eq, Structural)]
pub enum ErrorCode {
    MissingChannels,
    MissingTimestamp,
    NumChannelsIncorrect,
    DuplicateChannelIds,
    NumSamplesIncorrect,
    ChannelVoltagesMissing,
}

impl ErrorCode {
    /// The bit of this kind of defect.
    pub open spec fn bit(self) -> u32 {
        match self {
            ErrorCode::MissingChannels => 1,
            ErrorCode::MissingTimestamp => 2,
            ErrorCode::NumChannelsIncorrect => 4,
            ErrorCode::DuplicateChannelIds => 8,
            ErrorCode::NumSamplesIncorrect => 16,
            ErrorCode::ChannelVoltagesMissing => 32,
        }
    }

    /// The bit of this kind of defect.
    pub fn value(self) -> (res: u32)
        ensures
            res == self.bit(),
    {
        match self {
            ErrorCode::MissingChannels => 1,
            ErrorCode::MissingTimestamp => 2,
            ErrorCode::NumChannelsIncorrect => 4,
            ErrorCode::DuplicateChannelIds => 8,
            ErrorCode::NumSamplesIncorrect => 16,
            ErrorCode::ChannelVoltagesMissing => 32,
        }
    }
}

/// The bitwise or of the bits of a list of defects.
pub open spec fn combined_code(codes: Seq<ErrorCode>) -> u32
    decreases codes.len(),
{
    if codes.len() == 0 {
        0
    } else {
        combined_code(codes.drop_last()) | codes.last().bit()
    }
}

/// Two single bits of defect kinds overlap exactly where they are the same bit.
proof fn lemma_single_bits_overlap(x: u32, y: u32)
    by (bit_vector)
    requires
        x == 1 || x == 2 || x == 4 || x == 8 || x == 16 || x == 32,
        y == 1 || y == 2 || y == 4 || y == 8 || y == 16 || y == 32,
    ensures
        (x & y != 0) == (x == y),
{
}

/// A kind's bit is set in an or of two codes exactly where it is set in one of them.
proof fn lemma_or_bit(x: u32, y: u32, z: u32)
    by (bit_vector)
    ensures
        ((x | y) & z != 0) == ((x & z != 0) || (y & z != 0)),
{
}

/// The error code of a list of defects has the bit of a kind exactly where one of the defects is
/// of that kind.
pub proof fn law_code_bits(codes: Seq<ErrorCode>, k: ErrorCode)
    ensures
        (combined_code(codes) & k.bit() != 0) == codes.contains(k),
    decreases codes.len(),
{
    if codes.len() == 0 {
        assert(0u32 & k.bit() == 0) by (bit_vector);
    } else {
        let prev = codes.drop_last();
        law_code_bits(prev, k);
        lemma_or_bit(combined_code(prev), codes.last().bit(), k.bit());
        lemma_single_bits_overlap(codes.last().bit(), k.bit());
        assert(codes.last().bit() == k.bit() <==> codes.last() == k);
        if prev.contains(k) {
            let i = choose|i: int| 0 <= i < prev.len() && prev[i] == k;
            assert(codes[i] == k);
        }
        if codes.contains(k) && codes.last() != k {
            let i = choose|i: int| 0 <= i < codes.len() && codes[i] == k;
            assert(i < codes.len() - 1);
            assert(prev[i] == k);
        }
    }
}

/// A defect: its kind and the text of its report.
pub type Report = (ErrorCode, Seq<char>);

/// The kinds of a list of defects.
pub open spec fn report_codes(reports: Seq<Report>) -> Seq<ErrorCode> {
    reports.map_values(|r: Report| r.0)
}

/// The texts of a list of defects.
pub open spec fn report_texts(reports: Seq<Report>) -> Seq<Seq<char>> {
    reports.map_values(|r: Report| r.1)
}

/// The defects that the metadata of a message shows: missing channels, then a missing timestamp.
pub open spec fn metadata_reports(message: TraceMessage) -> Seq<Report> {
    (if message.channels.is_none() {
        seq![(ErrorCode::MissingChannels, "Channels missing"@)]
    } else {
        Seq::empty()
    }) + (if message.metadata.timestamp.is_none() {
        seq![(ErrorCode::MissingTimestamp, "Timestamp missing"@)]
    } else {
        Seq::empty()
    })
}

/// The defect of a channel count that differs from the expected one, if it does.
pub open spec fn channel_count_reports(found: nat, expected: nat) -> Seq<Report> {
    if found < expected {
        seq![
            (
                ErrorCode::NumChannelsIncorrect,
                "Number of channels "@ + decimal(found) + " insuffient, should be "@ + decimal(
                    expected,
                ),
            ),
        ]
    } else if found > expected {
        seq![
            (
                ErrorCode::NumChannelsIncorrect,
                "Number of channels "@ + decimal(found) + " too large, only the first "@ + decimal(
                    expected,
                ) + " channels retained"@,
            ),
        ]
    } else {
        Seq::empty()
    }
}

/// How many of the channels carry the identifier `id`.
pub open spec fn id_count(chans: Seq<ChannelTrace>, id: u32) -> nat
    decreases chans.len(),
{
    if chans.len() == 0 {
        0
    } else {
        id_count(chans.drop_last(), id) + if chans.last().channel == id {
            1nat
        } else {
            0nat
        }
    }
}

/// The defects of the channel at index `i`: a shared identifier, then a wrong or missing
/// sample list.
pub open spec fn channel_reports(frame: FrameData, chans: Seq<ChannelTrace>, i: int) -> Seq<Report> {
    let c = chans[i];
    (if id_count(chans, c.channel) != 1 {
        seq![
            (
                ErrorCode::DuplicateChannelIds,
                "Channel at index "@ + decimal(i as nat) + " has duplicate channel identifier of "@
                    + decimal(c.channel as nat),
            ),
        ]
    } else {
        Seq::empty()
    }) + match c.voltage {
        Some(v) => if v@.len() != frame.num_samples {
            seq![
                (
                    ErrorCode::NumSamplesIncorrect,
                    "Channel at index "@ + decimal(i as nat) + " has incorrect sample count of "@
                        + decimal(v@.len()),
                ),
            ]
        } else {
            Seq::empty()
        },
        None => seq![
            (
                ErrorCode::ChannelVoltagesMissing,
                "Channel at index "@ + decimal(i as nat) + " has voltages null"@,
            ),
        ],
    }
}

/// The defects of the first `k` channels, channel by channel.
pub open spec fn channels_reports(frame: FrameData, chans: Seq<ChannelTrace>, k: int) -> Seq<
    Report,
>
    decreases k,
{
    if k <= 0 {
        Seq::empty()
    } else {
        channels_reports(frame, chans, k - 1) + channel_reports(frame, chans, k - 1)
    }
}

/// All defects of a list of channels: the channel count first, then each channel in order.
pub open spec fn all_channel_reports(frame: FrameData, chans: Seq<ChannelTrace>) -> Seq<Report> {
    channel_count_reports(chans.len(), frame.num_channels as nat) + channels_reports(
        frame,
        chans,
        chans.len() as int,
    )
}

/// A single bit already set in a code is set again without changing it.
proof fn lemma_or_set_bit(x: u32, b: u32)
    by (bit_vector)
    requires
        b == 1 || b == 2 || b == 4 || b == 8 || b == 16 || b == 32,
        x & b != 0,
    ensures
        x | b == x,
{
}

/// The kinds and texts of a list of defects with one more at its end.
proof fn lemma_reports_push(rs: Seq<Report>, r: Report)
    ensures
        report_codes(rs.push(r)).drop_last() == report_codes(rs),
        report_codes(rs.push(r)).last() == r.0,
        report_texts(rs.push(r)) == report_texts(rs).push(r.1),
{
    assert(report_codes(rs.push(r)).drop_last() =~= report_codes(rs));
    assert(report_texts(rs.push(r)) =~= report_texts(rs).push(r.1));
}

/// Recording again a kind of defect already recorded adds its report and leaves the error code as
/// it was.
pub proof fn law_repeated_kind_keeps_code(rs: Seq<Report>, code: ErrorCode, text: Seq<char>)
    requires
        report_codes(rs).contains(code),
    ensures
        combined_code(report_codes(rs.push((code, text)))) == combined_code(report_codes(rs)),
        report_texts(rs.push((code, text))) == report_texts(rs).push(text),
{
    lemma_reports_push(rs, (code, text));
    law_code_bits(report_codes(rs), code);
    lemma_or_set_bit(combined_code(report_codes(rs)), code.bit());
}

/// Examines trace messages for defects, and records each as a report and a bit of the error code.
pub struct TDEngineErrorReporter {
    error: bool,
    code: u32,
    error_reports: Vec<String>,
    recorded: Ghost<Seq<Report>>,
}

impl TDEngineErrorReporter {
    /// The defects recorded so far, in order.
    pub closed spec fn recorded(&self) -> Seq<Report> {
        self.recorded@
    }

    /// The texts of the reports held.
    pub closed spec fn spec_texts(&self) -> Seq<Seq<char>> {
        self.error_reports@.map_values(|s: String| s@)
    }

    /// The report texts, the error code and the error flag agree with the recorded defects.
    pub closed spec fn well_formed(&self) -> bool {
        &&& self.spec_texts() == report_texts(self.recorded@)
        &&& self.code == combined_code(report_codes(self.recorded@))
        &&& self.error == (self.recorded@.len() > 0)
    }

    /// A reporter with nothing recorded.
    pub fn new() -> (res: Self)
        ensures
            res.well_formed(),
            res.recorded() == Seq::<Report>::empty(),
    {
        let res = TDEngineErrorReporter {
            error: false,
            code: 0,
            error_reports: Vec::<String>::new(),
            recorded: Ghost(Seq::empty()),
        };
        assert(res.error_reports@.map_values(|s: String| s@) =~= report_texts(Seq::empty()));
        res
    }

    /// The error code: the bitwise or of the bits of every defect recorded.
    pub fn error_code(&self) -> (res: u32)
        requires
            self.well_formed(),
        ensures
            res == combined_code(report_codes(self.recorded())),
    {
        self.code
    }

    /// Whether any defect has been recorded.
    pub fn has_error(&self) -> (res: bool)
        requires
            self.well_formed(),
        ensures
            res == (self.recorded().len() > 0),
    {
        self.error
    }

    /// The report texts, in the order they were recorded.
    pub fn reports(&self) -> (res: &Vec<String>)
        requires
            self.well_formed(),
        ensures
            res@.map_values(|s: String| s@) == report_texts(self.recorded()),
    {
        &self.error_reports
    }

    /// Records a defect of the given kind with the given report text.
    pub fn report_error(&mut self, code: ErrorCode, message: String)
        requires
            old(self).well_formed(),
        ensures
            final(self).well_formed(),
            final(self).recorded() == old(self).recorded().push((code, message@)),
    {
        let ghost old_reports = self.recorded@;
        let ghost text = message@;
        let ghost old_texts = self.error_reports@;
        let ghost msg = message;
        self.error_reports.push(message);
        self.code = self.code | code.value();
        self.error = true;
        self.recorded = Ghost(old_reports.push((code, text)));
        proof {
            let new_reports = old_reports.push((code, text));
            assert(report_codes(new_reports).drop_last() =~= report_codes(old_reports));
            assert(self.error_reports@ =~= old_texts.push(msg));
            let texts = self.error_reports@.map_values(|s: String| s@);
            let old_view = old_texts.map_values(|s: String| s@);
            assert(old_view =~= report_texts(old_reports));
            assert(old_view.len() == old_texts.len());
            assert(report_texts(old_reports).len() == old_reports.len());
            assert(texts.len() == new_reports.len());
            assert forall|j: int| 0 <= j < texts.len() implies texts[j] == report_texts(new_reports)[j] by {
                assert(report_texts(new_reports)[j] == new_reports[j].1);
                if j < old_texts.len() {
                    assert(texts[j] == old_view[j]);
                    assert(old_view[j] == report_texts(old_reports)[j]);
                    assert(report_texts(old_reports)[j] == old_reports[j].1);
                    assert(new_reports[j] == old_reports[j]);
                } else {
                    assert(texts[j] == msg@);
                }
            }
            assert(texts =~= report_texts(new_reports));
        }
    }

    /// Records the defects of the metadata of a message: missing channels, then a missing
    /// timestamp.
    pub fn test_metadata(&mut self, message: &TraceMessage)
        requires
            old(self).well_formed(),
        ensures
            final(self).well_formed(),
            final(self).recorded() == old(self).recorded() + metadata_reports(*message),
    {
        let ghost start = self.recorded();
        if message.channels.is_none() {
            self.report_error(ErrorCode::MissingChannels, "Channels missing".to_string());
        }
        let ghost mid = self.recorded();
        if message.metadata.timestamp.is_none() {
            self.report_error(ErrorCode::MissingTimestamp, "Timestamp missing".to_string());
        }
        assert(self.recorded() =~= start + metadata_reports(*message));
    }

    /// Records the defects of a list of channels against the expected channel and sample counts:
    /// a wrong channel count first, then for each channel a shared identifier and a wrong or
    /// missing sample list.
    pub fn test_channels(&mut self, frame_data: &FrameData, channels: &Vec<ChannelTrace>)
        requires
            old(self).well_formed(),
        ensures
            final(self).well_formed(),
            final(self).recorded() == old(self).recorded() + all_channel_reports(
                *frame_data,
                channels@,
            ),
    {
        let ghost start = self.recorded();
        let len = channels.len();
        if len < frame_data.num_channels {
            let mut m = "Number of channels ".to_string();
            push_decimal(&mut m, len as u64);
            m.append(" insuffient, should be ");
            push_decimal(&mut m, frame_data.num_channels as u64);
            self.report_error(ErrorCode::NumChannelsIncorrect, m);
        } else if len > frame_data.num_channels {
            let mut m = "Number of channels ".to_string();
            push_decimal(&mut m, len as u64);
            m.append(" too large, only the first ");
            push_decimal(&mut m, frame_data.num_channels as u64);
            m.append(" channels retained");
            self.report_error(ErrorCode::NumChannelsIncorrect, m);
        }
        assert(self.recorded() =~= start + channel_count_reports(
            len as nat,
            frame_data.num_channels as nat,
        ));
        let ghost counted = self.recorded();
        let mut i: usize = 0;
        while i < len
            invariant
                i <= len,
                len == channels@.len(),
                self.well_formed(),
                self.recorded() == counted + channels_reports(*frame_data, channels@, i as int),
            decreases len - i,
        {
            let ghost before = self.recorded();
            let channel = &channels[i];
            let count = count_channel_id(channels, channel.channel);
            if count != 1 {
                let mut m = "Channel at index ".to_string();
                push_decimal(&mut m, i as u64);
                m.append(" has duplicate channel identifier of ");
                push_decimal(&mut m, channel.channel as u64);
                self.report_error(ErrorCode::DuplicateChannelIds, m);
            }
            match &channel.voltage {
                Some(v) => {
                    if v.len() != frame_data.num_samples {
                        let mut m = "Channel at index ".to_string();
                        push_decimal(&mut m, i as u64);
                        m.append(" has incorrect sample count of ");
                        push_decimal(&mut m, v.len() as u64);
                        self.report_error(ErrorCode::NumSamplesIncorrect, m);
                    }
                },
                None => {
                    let mut m = "Channel at index ".to_string();
                    push_decimal(&mut m, i as u64);
                    m.append(" has voltages null");
                    self.report_error(ErrorCode::ChannelVoltagesMissing, m);
                },
            }
            assert(self.recorded() =~= before + channel_reports(*frame_data, channels@, i as int));
            i = i + 1;
        }
        assert(self.recorded() =~= start + all_channel_reports(*frame_data, channels@));
    }
}

/// How many of the channels carry the identifier `id`.
pub fn count_channel_id(chans: &Vec<ChannelTrace>, id: u32) -> (res: usize)
    ensures
        res == id_count(chans@, id),
{
    let mut n: usize = 0;
    let mut j: usize = 0;
    while j < chans.len()
        invariant
            j <= chans.len(),
            n == id_count(chans@.take(j as int), id),
            n <= j,
        decreases chans.len() - j,
    {
        assert(chans@.take(j + 1).drop_last() =~= chans@.take(j as int));
        if chans[j].channel == id {
            n = n + 1;
        }
        j = j + 1;
    }
    assert(chans@.take(chans.len() as int) =~= chans@);
    n
}

/// The states of a reporter before and after each recording in a sequence.
proof fn lemma_recorded_prefix(states: Seq<TDEngineErrorReporter>, rs: Seq<Report>, j: int)
    requires
        states.len() == rs.len() + 1,
        states[0].recorded().len() == 0,
        forall|i: int|
            0 <= i < rs.len() ==> states[i + 1].recorded() == states[i].recorded().push(
                #[trigger] rs[i],
            ),
        0 <= j <= rs.len(),
    ensures
        states[j].recorded() == rs.take(j),
    decreases j,
{
    if j == 0 {
        assert(rs.take(0) =~= Seq::<Report>::empty());
    } else {
        lemma_recorded_prefix(states, rs, j - 1);
        assert(rs.take(j) =~= rs.take(j - 1).push(rs[j - 1]));
    }
}

/// Recording the defects `rs` one by one, in order, on a reporter with nothing recorded (each
/// state after a recording holds what the one before held and the new defect, as `report_error`
/// ensures): the reporter ends with `rs` recorded, so its error code has the bit of a kind
/// exactly where one of `rs` is of that kind, its reports are their texts in order, and its error
/// flag is set exactly where `rs` is not empty.
pub proof fn law_reports_in_sequence(states: Seq<TDEngineErrorReporter>, rs: Seq<Report>)
    requires
        states.len() == rs.len() + 1,
        states[0].recorded().len() == 0,
        forall|i: int|
            0 <= i < rs.len() ==> states[i + 1].recorded() == states[i].recorded().push(
                #[trigger] rs[i],
            ),
    ensures
        states.last().recorded() == rs,
        forall|k: ErrorCode|
            ((combined_code(report_codes(states.last().recorded())) & #[trigger] k.bit()) != 0)
                == report_codes(rs).contains(k),
        report_texts(states.last().recorded()) == report_texts(rs),
        (states.last().recorded().len() > 0) == (rs.len() > 0),
{
    lemma_recorded_prefix(states, rs, rs.len() as int);
    assert(rs.take(rs.len() as int) =~= rs);
    assert forall|k: ErrorCode|
        ((combined_code(report_codes(states.last().recorded())) & #[trigger] k.bit()) != 0)
            == report_codes(rs).contains(k) by {
        law_code_bits(report_codes(rs), k);
    }
}

} // verus!
