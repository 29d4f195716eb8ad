//! Replaying HDF5 trace archives: naming conventions of the archive's groups and datasets,
//! locating frames, resolving read commands and the metadata of each replayed message.
use vstd::prelude::*;

use core::ops::Range;

use crate::common::{Channel, DigitizerId, FrameNumber, Timestamp};
use crate::message::{ChannelTrace, FrameMetadata, TraceMessage};
use crate::text::{
    chars_of, decimal, is_digit, law_decimal_parses_back, lemma_decimal_digits,
    lemma_split_on_concat, lemma_split_on_no_sep, parse_unsigned, parses_unsigned, pieces_view,
    split_chars, split_on, string_from_chars, unsigned_value,
};

verus! {

broadcast use vstd::string::group_string_axioms;

/// Why a trace archive cannot be replayed as asked.
#[derive(Debug)]
pub enum ReadError {
    DatasetNameZeroLength,
    /// A group or dataset name has no underscore.
    NoUnderscore(String),
    /// A group or dataset name starts with another identifier: the expected one, then the one found.
    WrongIdentifier(String, String),
    /// The index in a group or dataset name is not a number in range.
    ParseInt,
    /// A frame index at or past the number of frames.
    FrameIndexTooLarge(usize, usize),
    /// No frame at or after the given number.
    FrameNumberNotFound(FrameNumber),
    /// No frame at or after the given time.
    TimestampNotFound(Timestamp),
    /// None of the selected digitisers is present; these are.
    NoDigitisersSelected(Vec<DigitizerId>),
    /// A read command selects frames by time.
    ConfigReadSeqTimestampInTimestampAsRfc3339Attrib,
    /// A stored timestamp text is not a time in RFC 3339 form within the range of a timestamp.
    TimestampUnreadable(String),
    /// The frame's time cannot be moved to the given date.
    DateNotShiftable(Timestamp),
}

/// The pieces of the last path component of a dataset name, split at underscores.
pub open spec fn name_pieces(source: Seq<char>) -> Seq<Seq<char>> {
    split_on(split_on(source, '/').last(), '_')
}

/// The outcome of reading the index from a name of the form `.../<identifier>_<index>`, for an
/// index type whose largest value is `max`: the second underscore-separated piece of the last
/// path component, where the first piece is the identifier.
pub open spec fn spec_extract(source: Seq<char>, identifier: Seq<char>, max: int) -> Result<int, ()> {
    let pieces = name_pieces(source);
    if pieces.len() < 2 || pieces[0] != identifier || !parses_unsigned(pieces[1], max) {
        Err(())
    } else {
        Ok(unsigned_value(pieces[1]))
    }
}

/// The name of the group or dataset of an index: the path of its parent, a slash, the identifier,
/// an underscore and the index in decimal.
pub open spec fn indexed_name(parent: Seq<char>, identifier: Seq<char>, index: nat) -> Seq<char> {
    parent + seq!['/'] + identifier + seq!['_'] + decimal(index)
}

/// Reading the index back from the name of an indexed group or dataset gives the index, for an
/// identifier without slash or underscore and an index within range.
pub proof fn law_indexed_name_reads_back(parent: Seq<char>, identifier: Seq<char>, index: nat, max: int)
    requires
        forall|i: int| 0 <= i < identifier.len() ==> identifier[i] != '/' && identifier[i] != '_',
        index <= max,
    ensures
        spec_extract(indexed_name(parent, identifier, index), identifier, max) == Ok::<int, ()>(
            index as int,
        ),
{
    let d = decimal(index);
    lemma_decimal_digits(index);
    assert forall|i: int| 0 <= i < d.len() implies d[i] != '/' && d[i] != '_' by {
        assert(is_digit(d[i]));
    }
    let name = identifier + seq!['_'] + d;
    assert forall|i: int| 0 <= i < name.len() implies name[i] != '/' by {
        if i < identifier.len() {
            assert(name[i] == identifier[i]);
        } else if i > identifier.len() {
            assert(name[i] == d[i - identifier.len() - 1]);
        }
    }
    assert(indexed_name(parent, identifier, index) =~= parent + seq!['/'] + name);
    lemma_split_on_concat(parent, name, '/');
    lemma_split_on_no_sep(name, '/');
    lemma_split_on_concat(identifier, d, '_');
    lemma_split_on_no_sep(identifier, '_');
    lemma_split_on_no_sep(d, '_');
    assert(split_on(indexed_name(parent, identifier, index), '/').last() == name);
    assert(name_pieces(indexed_name(parent, identifier, index)) =~= seq![identifier, d]);
    law_decimal_parses_back(index, max);
}

/// Whether two character lists are equal.
pub fn chars_equal(a: &Vec<char>, b: &Vec<char>) -> (res: bool)
    ensures
        res == (a@ == b@),
{
    if a.len() != b.len() {
        return false;
    }
    let mut i: usize = 0;
    while i < a.len()
        invariant
            i <= a.len(),
            a.len() == b.len(),
            forall|k: int| 0 <= k < i ==> a@[k] == b@[k],
        decreases a.len() - i,
    {
        if a[i] != b[i] {
            return false;
        }
        i = i + 1;
    }
    assert(a@ =~= b@);
    true
}

/// Reads the index from a name of the form `.../<identifier>_<index>`, where the index must not
/// exceed `max_value`. A name without an underscore, with another identifier, or with an index
/// that is not a number in range is refused, in that order.
pub fn extract_from_dataset_name(source: &str, identifier: &str, max_value: u64) -> (res: Result<
    u64,
    ReadError,
>)
    ensures
        res.is_ok() == spec_extract(source@, identifier@, max_value as int).is_ok(),
        res matches Ok(v) ==> spec_extract(source@, identifier@, max_value as int) == Ok::<int, ()>(
            v as int,
        ),
        name_pieces(source@).len() < 2 ==> (res matches Err(ReadError::NoUnderscore(s)) && s@ == source@),
        name_pieces(source@).len() >= 2 && name_pieces(source@)[0] != identifier@ ==> (res matches Err(
            ReadError::WrongIdentifier(e, f),
        ) && e@ == identifier@ && f@ == name_pieces(source@)[0]),
        name_pieces(source@).len() >= 2 && name_pieces(source@)[0] == identifier@ && !parses_unsigned(
            name_pieces(source@)[1],
            max_value as int,
        ) ==> res matches Err(ReadError::ParseInt),
{
    let chars = chars_of(source);
    let components = split_chars(&chars, '/');
    let last = &components[components.len() - 1];
    proof {
        assert(pieces_view(components@).last() == last@);
    }
    let pieces = split_chars(last, '_');
    proof {
        assert(pieces_view(pieces@) == name_pieces(source@));
    }
    if pieces.len() < 2 {
        return Err(ReadError::NoUnderscore(source.to_string()));
    }
    let ident = chars_of(identifier);
    proof {
        assert(pieces_view(pieces@)[0] == pieces@[0]@);
        assert(pieces_view(pieces@)[1] == pieces@[1]@);
    }
    if !chars_equal(&pieces[0], &ident) {
        return Err(ReadError::WrongIdentifier(identifier.to_string(), string_from_chars(&pieces[0])));
    }
    match parse_unsigned(&pieces[1], max_value) {
        Some(v) => Ok(v),
        None => Err(ReadError::ParseInt),
    }
}

/// The position of the first entry equal to `x`, or else of the first entry not below it.
pub open spec fn position_or_next(s: Seq<int>, x: int) -> Option<int> {
    if exists|i: int| 0 <= i < s.len() && s[i] == x {
        Some(choose|i: int| 0 <= i < s.len() && s[i] == x && forall|j: int| 0 <= j < i ==> s[j] != x)
    } else if exists|i: int| 0 <= i < s.len() && x <= s[i] {
        Some(choose|i: int| 0 <= i < s.len() && x <= s[i] && forall|j: int| 0 <= j < i ==> s[j] < x)
    } else {
        None
    }
}

/// The frame numbers as integers.
pub open spec fn frame_ints(s: Seq<FrameNumber>) -> Seq<int> {
    s.map_values(|v: FrameNumber| v as int)
}

/// The timestamps as integers.
pub open spec fn time_ints(s: Seq<Timestamp>) -> Seq<int> {
    s.map_values(|v: Timestamp| v as int)
}

/// The position of the first frame number equal to `x`, or else of the first one not below it.
pub fn position_or_next_frame(s: &Vec<FrameNumber>, x: FrameNumber) -> (res: Option<usize>)
    ensures
        match res {
            Some(i) => position_or_next(frame_ints(s@), x as int) == Some(i as int),
            None => position_or_next(frame_ints(s@), x as int).is_none(),
        },
{
    let ghost si = frame_ints(s@);
    let mut i: usize = 0;
    while i < s.len()
        invariant
            i <= s.len(),
            si == frame_ints(s@),
            forall|j: int| 0 <= j < i ==> s@[j] != x,
        decreases s.len() - i,
    {
        if s[i] == x {
            proof {
                assert(si[i as int] == x as int);
                let k = choose|k: int| 0 <= k < si.len() && si[k] == x && forall|j: int| 0 <= j < k ==> si[j] != x;
                assert(si[k] == s@[k] as int);
                if k < i {
                    assert(s@[k] != x);
                }
                if k > i {
                    assert(si[i as int] != x);
                }
            }
            return Some(i);
        }
        i = i + 1;
    }
    assert(forall|j: int| 0 <= j < si.len() ==> si[j] != x as int) by {
        assert forall|j: int| 0 <= j < si.len() implies si[j] != x as int by {
            assert(si[j] == s@[j] as int);
        }
    }
    let mut k: usize = 0;
    while k < s.len()
        invariant
            k <= s.len(),
            si == frame_ints(s@),
            forall|j: int| 0 <= j < si.len() ==> si[j] != x as int,
            forall|j: int| 0 <= j < k ==> s@[j] < x,
        decreases s.len() - k,
    {
        if x <= s[k] {
            proof {
                assert(si[k as int] >= x as int);
                let m = choose|m: int| 0 <= m < si.len() && x <= si[m] && forall|j: int| 0 <= j < m ==> si[j] < x;
                assert(si[m] == s@[m] as int);
                if m < k {
                    assert(s@[m] < x);
                }
                if m > k {
                    assert(si[k as int] < x as int);
                }
            }
            return Some(k);
        }
        k = k + 1;
    }
    assert forall|j: int| 0 <= j < si.len() implies !(x as int <= si[j]) by {
        assert(si[j] == s@[j] as int);
    }
    None
}

/// The position of the first timestamp equal to `x`, or else of the first one not before it.
pub fn position_or_next_time(s: &Vec<Timestamp>, x: Timestamp) -> (res: Option<usize>)
    ensures
        match res {
            Some(i) => position_or_next(time_ints(s@), x as int) == Some(i as int),
            None => position_or_next(time_ints(s@), x as int).is_none(),
        },
{
    let ghost si = time_ints(s@);
    let mut i: usize = 0;
    while i < s.len()
        invariant
            i <= s.len(),
            si == time_ints(s@),
            forall|j: int| 0 <= j < i ==> s@[j] != x,
        decreases s.len() - i,
    {
        if s[i] == x {
            proof {
                assert(si[i as int] == x as int);
                let k = choose|k: int| 0 <= k < si.len() && si[k] == x && forall|j: int| 0 <= j < k ==> si[j] != x;
                assert(si[k] == s@[k] as int);
                if k < i {
                    assert(s@[k] != x);
                }
                if k > i {
                    assert(si[i as int] != x);
                }
            }
            return Some(i);
        }
        i = i + 1;
    }
    assert(forall|j: int| 0 <= j < si.len() ==> si[j] != x as int) by {
        assert forall|j: int| 0 <= j < si.len() implies si[j] != x as int by {
            assert(si[j] == s@[j] as int);
        }
    }
    let mut k: usize = 0;
    while k < s.len()
        invariant
            k <= s.len(),
            si == time_ints(s@),
            forall|j: int| 0 <= j < si.len() ==> si[j] != x as int,
            forall|j: int| 0 <= j < k ==> s@[j] < x,
        decreases s.len() - k,
    {
        if x <= s[k] {
            proof {
                assert(si[k as int] >= x as int);
                let m = choose|m: int| 0 <= m < si.len() && x <= si[m] && forall|j: int| 0 <= j < m ==> si[j] < x;
                assert(si[m] == s@[m] as int);
                if m < k {
                    assert(s@[m] < x);
                }
                if m > k {
                    assert(si[k as int] < x as int);
                }
            }
            return Some(k);
        }
        k = k + 1;
    }
    assert forall|j: int| 0 <= j < si.len() implies !(x as int <= si[j]) by {
        assert(si[j] == s@[j] as int);
    }
    None
}

/// The identifier of a digitiser group name, `digitiser_<id>`.
pub const DIGITISER: &'static str = "digitiser";

/// The identifier of a channel dataset name, `channel_<index>`.
pub const CHANNEL: &'static str = "channel";

/// Whether the last path component of a dataset name is that of one of the per-frame datasets
/// (`frame_number`, `period_number`, `timestamp`) rather than of a channel.
pub open spec fn is_frame_dataset(name: Seq<char>) -> bool {
    let last = split_on(name, '/').last();
    last == "frame_number"@ || last == "period_number"@ || last == "timestamp"@
}

/// Whether the last path component of a dataset name is that of a per-frame dataset.
pub fn is_frame_dataset_name(name: &str) -> (res: bool)
    ensures
        res == is_frame_dataset(name@),
{
    let chars = chars_of(name);
    let components = split_chars(&chars, '/');
    let last = &components[components.len() - 1];
    proof {
        assert(pieces_view(components@).last() == last@);
    }
    let a = chars_of("frame_number");
    let b = chars_of("period_number");
    let c = chars_of("timestamp");
    chars_equal(last, &a) || chars_equal(last, &b) || chars_equal(last, &c)
}

/// The channel datasets among the datasets of a digitiser group, with their channel numbers:
/// every dataset but the per-frame ones is taken as a channel dataset named `channel_<index>`.
pub open spec fn spec_channel_datasets(names: Seq<Seq<char>>) -> Result<Seq<(int, int)>, ()>
    decreases names.len(),
{
    if names.len() == 0 {
        Ok(Seq::empty())
    } else {
        match spec_channel_datasets(names.drop_last()) {
            Err(()) => Err(()),
            Ok(prev) => if is_frame_dataset(names.last()) {
                Ok(prev)
            } else {
                match spec_extract(names.last(), CHANNEL@, u32::MAX as int) {
                    Err(()) => Err(()),
                    Ok(ch) => Ok(prev.push(((names.len() - 1) as int, ch))),
                }
            },
        }
    }
}

/// The views of a list of names.
pub open spec fn names_view(names: Seq<String>) -> Seq<Seq<char>> {
    names.map_values(|s: String| s@)
}

/// The channel datasets among the datasets of a digitiser group: the position of each in the
/// list, and its channel number. A dataset that is not a per-frame one must be named as a channel.
pub fn select_channel_datasets(names: &Vec<String>) -> (res: Result<Vec<(usize, Channel)>, ReadError>)
    ensures
        res.is_ok() == spec_channel_datasets(names_view(names@)).is_ok(),
        res matches Ok(v) ==> spec_channel_datasets(names_view(names@)) == Ok::<Seq<(int, int)>, ()>(
            v@.map_values(|p: (usize, Channel)| (p.0 as int, p.1 as int)),
        ),
{
    let mut out: Vec<(usize, Channel)> = Vec::new();
    let mut i: usize = 0;
    assert(names_view(names@).take(0) =~= Seq::<Seq<char>>::empty());
    assert(out@.map_values(|p: (usize, Channel)| (p.0 as int, p.1 as int)) =~= Seq::<(int, int)>::empty());
    while i < names.len()
        invariant
            i <= names.len(),
            spec_channel_datasets(names_view(names@).take(i as int)) == Ok::<Seq<(int, int)>, ()>(
                out@.map_values(|p: (usize, Channel)| (p.0 as int, p.1 as int)),
            ),
        decreases names.len() - i,
    {
        let ghost prefix = names_view(names@).take(i + 1);
        assert(prefix.drop_last() =~= names_view(names@).take(i as int));
        assert(prefix.last() == names@[i as int]@);
        assert(prefix.len() - 1 == i);
        let name = names[i].as_str();
        if !is_frame_dataset_name(name) {
            match extract_from_dataset_name(name, CHANNEL, u32::MAX as u64) {
                Ok(ch) => {
                    let ghost old_out = out@;
                    out.push((i, ch as Channel));
                    assert(out@.map_values(|p: (usize, Channel)| (p.0 as int, p.1 as int))
                        =~= old_out.map_values(|p: (usize, Channel)| (p.0 as int, p.1 as int)).push(
                        (i as int, ch as int),
                    ));
                },
                Err(e) => {
                    proof {
                        lemma_channel_datasets_err_persists(names_view(names@), i as int + 1);
                    }
                    return Err(e);
                },
            }
        }
        i = i + 1;
    }
    assert(names_view(names@).take(names.len() as int) =~= names_view(names@));
    Ok(out)
}

/// A refused prefix of names leaves the whole list refused.
pub proof fn lemma_channel_datasets_err_persists(names: Seq<Seq<char>>, k: int)
    requires
        0 <= k <= names.len(),
        spec_channel_datasets(names.take(k)).is_err(),
    ensures
        spec_channel_datasets(names).is_err(),
    decreases names.len() - k,
{
    if k < names.len() {
        assert(names.take(k + 1).drop_last() =~= names.take(k));
        lemma_channel_datasets_err_persists(names, k + 1);
    } else {
        assert(names.take(k) =~= names);
    }
}

/// The values that replace those of the archive in the replayed messages, where given.
pub struct OverwriteFields {
    pub shift_to_today: bool,
    pub overwrite_period_number: Option<u64>,
    pub overwrite_protons_per_pulse: Option<u8>,
    pub overwrite_running: Option<bool>,
    pub overwrite_veto_flags: Option<u16>,
}

/// The metadata of one replayed message, other than its timestamp.
pub struct ReplayMetadata {
    pub frame_number: FrameNumber,
    pub period_number: u64,
    pub protons_per_pulse: u8,
    pub running: bool,
    pub veto_flags: u16,
    pub sample_rate: u64,
}

/// The times of the frames of a digitiser, as the archive stores them.
pub enum FrameTimes {
    /// Nanoseconds since the Unix epoch.
    EpochNanos(Vec<Timestamp>),
    /// Texts in RFC 3339 form.
    Rfc3339(Vec<String>),
}

impl FrameTimes {
    /// The number of stored times.
    pub open spec fn count(&self) -> nat {
        match self {
            FrameTimes::EpochNanos(v) => v@.len(),
            FrameTimes::Rfc3339(v) => v@.len(),
        }
    }
}

/// The time, in nanoseconds since the Unix epoch, that a text in RFC 3339 form gives, as chrono
/// reads it into a UTC time; `None` where the text is not such a time or the time lies outside
/// the range of a timestamp.
pub uninterp spec fn rfc3339_nanos(text: Seq<char>) -> Option<Timestamp>;

/// The time, in nanoseconds since the Unix epoch, with its date set to the given year, month and
/// day, as chrono's `with_day`, `with_month` and `with_year` set it in that order; `None` where
/// one of them gives no date or the result lies outside the range of a timestamp.
pub uninterp spec fn date_moved_nanos(nanos: Timestamp, year: i32, month: u32, day: u32) -> Option<
    Timestamp,
>;

/// `str::parse::<DateTime<Utc>>` (chrono's relaxed RFC 3339 reading), then
/// `timestamp_nanos_opt`. The contract names the result, which depends on the text alone.
#[verifier::external_body]
fn parse_rfc3339(text: &str) -> (res: Option<Timestamp>)
    ensures
        res == rfc3339_nanos(text@),
{
    text.parse::<chrono::DateTime<chrono::Utc>>().ok()?.timestamp_nanos_opt()
}

/// `DateTime::from_timestamp_nanos`, then chrono's `Datelike::with_day`, `with_month` and
/// `with_year`, then `timestamp_nanos_opt`. The contract names the result, which depends on the
/// arguments alone: the time is in UTC, whose offset never changes.
#[verifier::external_body]
fn move_date(nanos: Timestamp, year: i32, month: u32, day: u32) -> (res: Option<Timestamp>)
    ensures
        res == date_moved_nanos(nanos, year, month, day),
{
    let t = chrono::DateTime::from_timestamp_nanos(nanos);
    let t = chrono::Datelike::with_day(&t, day)?;
    let t = chrono::Datelike::with_month(&t, month)?;
    let t = chrono::Datelike::with_year(&t, year)?;
    t.timestamp_nanos_opt()
}

/// The stored time of the frame at position `k`: the stored nanoseconds, or the time that the
/// stored text gives.
pub open spec fn stored_time(times: FrameTimes, k: int) -> Option<Timestamp> {
    match times {
        FrameTimes::EpochNanos(v) => Some(v@[k]),
        FrameTimes::Rfc3339(v) => rfc3339_nanos(v@[k]@),
    }
}

/// The time of the replayed frame at position `k`: the stored time, with its date set to `today`
/// where `shift` is set.
pub open spec fn frame_time_value(times: FrameTimes, k: int, shift: bool, today: (i32, u32, u32)) -> Option<
    Timestamp,
> {
    match stored_time(times, k) {
        None => None,
        Some(t) => if shift {
            date_moved_nanos(t, today.0, today.1, today.2)
        } else {
            Some(t)
        },
    }
}

/// Whether `e` is the error met in finding the time of the frame at position `k`: the stored text
/// where it gives no time, or else the stored time where its date cannot be moved.
pub open spec fn frame_time_error(times: FrameTimes, k: int, e: ReadError) -> bool {
    match stored_time(times, k) {
        None => e matches ReadError::TimestampUnreadable(s) && (times matches FrameTimes::Rfc3339(
            v,
        ) && s@ == v@[k]@),
        Some(t) => e == ReadError::DateNotShiftable(t),
    }
}

/// The per-frame values of one digitiser of an archive. The optional lists are absent from older
/// archives.
pub struct Hdf5Digitiser {
    pub digitiser_id: DigitizerId,
    pub period_numbers: Vec<u64>,
    pub frame_numbers: Vec<FrameNumber>,
    pub sample_rates: Option<Vec<u64>>,
    pub running: Option<Vec<bool>>,
    pub protons_per_pulse: Option<Vec<u8>>,
    pub veto_flags: Option<Vec<u16>>,
    pub timestamps: FrameTimes,
    pub num_frames: usize,
}

/// The entry of an optional per-frame list, where the list is present.
pub open spec fn entry_of<T>(list: Option<Vec<T>>, index: int) -> Option<T> {
    match list {
        Some(v) => Some(v@[index]),
        None => None,
    }
}

/// The value given, or else the default.
pub open spec fn or_else<T>(given: Option<T>, default: T) -> T {
    match given {
        Some(v) => v,
        None => default,
    }
}

impl Hdf5Digitiser {
    /// Every per-frame list present has one entry per frame.
    pub open spec fn well_formed(&self) -> bool {
        &&& self.frame_numbers@.len() == self.num_frames
        &&& self.period_numbers@.len() == self.num_frames
        &&& (self.sample_rates matches Some(v) ==> v@.len() == self.num_frames)
        &&& (self.running matches Some(v) ==> v@.len() == self.num_frames)
        &&& (self.protons_per_pulse matches Some(v) ==> v@.len() == self.num_frames)
        &&& (self.veto_flags matches Some(v) ==> v@.len() == self.num_frames)
        &&& self.timestamps.count() == self.num_frames
    }

    /// A digitiser from its group's name and the per-frame lists read from its datasets. The
    /// identifier is the index in the group name, `digitiser_<id>`; every list present must have
    /// one entry per frame number.
    pub fn open_digitiser(
        group_name: &str,
        frame_numbers: Vec<FrameNumber>,
        period_numbers: Vec<u64>,
        protons_per_pulse: Option<Vec<u8>>,
        sample_rates: Option<Vec<u64>>,
        veto_flags: Option<Vec<u16>>,
        running: Option<Vec<bool>>,
        timestamps: FrameTimes,
    ) -> (res: Result<Hdf5Digitiser, ReadError>)
        requires
            period_numbers@.len() == frame_numbers@.len(),
            protons_per_pulse matches Some(v) ==> v@.len() == frame_numbers@.len(),
            sample_rates matches Some(v) ==> v@.len() == frame_numbers@.len(),
            veto_flags matches Some(v) ==> v@.len() == frame_numbers@.len(),
            running matches Some(v) ==> v@.len() == frame_numbers@.len(),
            timestamps.count() == frame_numbers@.len(),
        ensures
            res.is_ok() == spec_extract(group_name@, DIGITISER@, u8::MAX as int).is_ok(),
            res matches Ok(d) ==> {
                &&& d.well_formed()
                &&& spec_extract(group_name@, DIGITISER@, u8::MAX as int) == Ok::<int, ()>(
                    d.digitiser_id as int,
                )
                &&& d.num_frames == frame_numbers@.len()
                &&& d.frame_numbers == frame_numbers
                &&& d.period_numbers == period_numbers
                &&& d.protons_per_pulse == protons_per_pulse
                &&& d.sample_rates == sample_rates
                &&& d.veto_flags == veto_flags
                &&& d.running == running
                &&& d.timestamps == timestamps
            },
    {
        let id = match extract_from_dataset_name(group_name, DIGITISER, u8::MAX as u64) {
            Ok(id) => id as DigitizerId,
            Err(e) => {
                return Err(e);
            },
        };
        let num_frames = frame_numbers.len();
        Ok(
            Hdf5Digitiser {
                digitiser_id: id,
                period_numbers,
                frame_numbers,
                sample_rates,
                running,
                protons_per_pulse,
                veto_flags,
                timestamps,
                num_frames,
            },
        )
    }

    /// The number of frames.
    pub fn get_num_frames(&self) -> (res: usize)
        ensures
            res == self.num_frames,
    {
        self.num_frames
    }

    /// The identifier of the digitiser.
    pub fn get_id(&self) -> (res: DigitizerId)
        ensures
            res == self.digitiser_id,
    {
        self.digitiser_id
    }

    /// The index of a frame: of the first frame with the given number, or else of the first frame
    /// with a number not below it.
    pub fn get_index_from_frame_number(&self, frame_number: FrameNumber) -> (res: Result<usize, ReadError>)
        ensures
            match position_or_next(frame_ints(self.frame_numbers@), frame_number as int) {
                Some(i) => res matches Ok(j) && j as int == i,
                None => res matches Err(ReadError::FrameNumberNotFound(n)) && n == frame_number,
            },
    {
        match position_or_next_frame(&self.frame_numbers, frame_number) {
            Some(i) => Ok(i),
            None => Err(ReadError::FrameNumberNotFound(frame_number)),
        }
    }

    /// The index of a frame: of the first frame at the given time, or else of the first frame not
    /// before it. Only archives that store timestamps as nanoseconds since the epoch can be
    /// searched by time.
    pub fn get_index_from_timestamp(&self, timestamp: Timestamp) -> (res: Result<usize, ReadError>)
        requires
            self.timestamps is EpochNanos,
        ensures
            match position_or_next(time_ints(self.timestamps->EpochNanos_0@), timestamp as int) {
                Some(i) => res matches Ok(j) && j as int == i,
                None => res matches Err(ReadError::TimestampNotFound(t)) && t == timestamp,
            },
    {
        let times = match &self.timestamps {
            FrameTimes::EpochNanos(v) => v,
            FrameTimes::Rfc3339(_) => {
                return Err(ReadError::TimestampNotFound(timestamp));
            },
        };
        match position_or_next_time(times, timestamp) {
            Some(i) => Ok(i),
            None => Err(ReadError::TimestampNotFound(timestamp)),
        }
    }

    /// The metadata of the message replayed from the frame at `index`: the archive's values, each
    /// replaced where an overwrite is given; where an optional list is absent, the protons per
    /// pulse and veto flags default to zero, the running flag to set, and the sampling rate to
    /// the given default.
    pub fn replay_metadata(&self, index: usize, sample_rate_default: u64, overwrite_fields: &OverwriteFields)
        -> (res: Result<ReplayMetadata, ReadError>)
        requires
            self.well_formed(),
        ensures
            index >= self.num_frames ==> (res matches Err(ReadError::FrameIndexTooLarge(i, n)) && i == index
                && n == self.num_frames),
            index < self.num_frames ==> (res matches Ok(m) && {
                let k = index as int;
                &&& m.frame_number == self.frame_numbers@[k]
                &&& m.period_number == or_else(
                    overwrite_fields.overwrite_period_number,
                    self.period_numbers@[k],
                )
                &&& m.protons_per_pulse == or_else(
                    overwrite_fields.overwrite_protons_per_pulse,
                    or_else(entry_of(self.protons_per_pulse, k), 0u8),
                )
                &&& m.running == or_else(
                    overwrite_fields.overwrite_running,
                    or_else(entry_of(self.running, k), true),
                )
                &&& m.veto_flags == or_else(
                    overwrite_fields.overwrite_veto_flags,
                    or_else(entry_of(self.veto_flags, k), 0u16),
                )
                &&& m.sample_rate == or_else(entry_of(self.sample_rates, k), sample_rate_default)
            }),
    {
        if index >= self.num_frames {
            return Err(ReadError::FrameIndexTooLarge(index, self.num_frames));
        }
        let frame_number = self.frame_numbers[index];
        let period_number = self.period_numbers[index];
        let protons_per_pulse = match &self.protons_per_pulse {
            Some(v) => v[index],
            None => 0,
        };
        let running = match &self.running {
            Some(v) => v[index],
            None => true,
        };
        let veto_flags = match &self.veto_flags {
            Some(v) => v[index],
            None => 0,
        };
        let sample_rate = match &self.sample_rates {
            Some(v) => v[index],
            None => sample_rate_default,
        };
        Ok(ReplayMetadata {
            frame_number,
            period_number: match overwrite_fields.overwrite_period_number {
                Some(v) => v,
                None => period_number,
            },
            protons_per_pulse: match overwrite_fields.overwrite_protons_per_pulse {
                Some(v) => v,
                None => protons_per_pulse,
            },
            running: match overwrite_fields.overwrite_running {
                Some(v) => v,
                None => running,
            },
            veto_flags: match overwrite_fields.overwrite_veto_flags {
                Some(v) => v,
                None => veto_flags,
            },
            sample_rate,
        })
    }

    /// The time of the frame at `index`: the stored nanoseconds since the epoch, or the time that
    /// the stored RFC 3339 text gives; where `shift` is set, its date is then set to `today`, a
    /// year, month and day.
    pub fn frame_time(&self, index: usize, shift: bool, today: (i32, u32, u32)) -> (res: Result<
        Timestamp,
        ReadError,
    >)
        requires
            self.well_formed(),
            index < self.num_frames,
        ensures
            match frame_time_value(self.timestamps, index as int, shift, today) {
                Some(t) => res == Ok::<Timestamp, ReadError>(t),
                None => res matches Err(e) && frame_time_error(self.timestamps, index as int, e),
            },
    {
        let stored = match &self.timestamps {
            FrameTimes::EpochNanos(v) => v[index],
            FrameTimes::Rfc3339(v) => match parse_rfc3339(v[index].as_str()) {
                Some(t) => t,
                None => {
                    return Err(ReadError::TimestampUnreadable(v[index].clone()));
                },
            },
        };
        if shift {
            match move_date(stored, today.0, today.1, today.2) {
                Some(t) => Ok(t),
                None => Err(ReadError::DateNotShiftable(stored)),
            }
        } else {
            Ok(stored)
        }
    }

    /// The message replayed from the frame at `index`: this digitiser's identifier, the replayed
    /// metadata with the frame's time (its date set to `today` where the overwrites ask for it),
    /// and the given channel traces read from the archive.
    pub fn create_message(
        &self,
        index: usize,
        sample_rate_default: u64,
        overwrite_fields: &OverwriteFields,
        today: (i32, u32, u32),
        channels: Vec<ChannelTrace>,
    ) -> (res: Result<TraceMessage, ReadError>)
        requires
            self.well_formed(),
        ensures
            index >= self.num_frames ==> (res matches Err(ReadError::FrameIndexTooLarge(i, n)) && i
                == index && n == self.num_frames),
            index < self.num_frames ==> match frame_time_value(
                self.timestamps,
                index as int,
                overwrite_fields.shift_to_today,
                today,
            ) {
                None => res matches Err(e) && frame_time_error(self.timestamps, index as int, e),
                Some(time) => res matches Ok(m) && {
                    let k = index as int;
                    &&& m.digitizer_id == self.digitiser_id
                    &&& m.metadata.frame_number == self.frame_numbers@[k]
                    &&& m.metadata.period_number == or_else(
                        overwrite_fields.overwrite_period_number,
                        self.period_numbers@[k],
                    )
                    &&& m.metadata.protons_per_pulse == or_else(
                        overwrite_fields.overwrite_protons_per_pulse,
                        or_else(entry_of(self.protons_per_pulse, k), 0u8),
                    )
                    &&& m.metadata.running == or_else(
                        overwrite_fields.overwrite_running,
                        or_else(entry_of(self.running, k), true),
                    )
                    &&& m.metadata.veto_flags == or_else(
                        overwrite_fields.overwrite_veto_flags,
                        or_else(entry_of(self.veto_flags, k), 0u16),
                    )
                    &&& m.metadata.timestamp == Some(time)
                    &&& m.sample_rate == or_else(entry_of(self.sample_rates, k), sample_rate_default)
                    &&& m.channels == Some(channels)
                },
            },
    {
        let meta = match self.replay_metadata(index, sample_rate_default, overwrite_fields) {
            Ok(m) => m,
            Err(e) => {
                return Err(e);
            },
        };
        let timestamp = match self.frame_time(index, overwrite_fields.shift_to_today, today) {
            Ok(t) => t,
            Err(e) => {
                return Err(e);
            },
        };
        Ok(
            TraceMessage {
                digitizer_id: self.digitiser_id,
                metadata: FrameMetadata {
                    frame_number: meta.frame_number,
                    period_number: meta.period_number,
                    protons_per_pulse: meta.protons_per_pulse,
                    running: meta.running,
                    timestamp: Some(timestamp),
                    veto_flags: meta.veto_flags,
                },
                sample_rate: meta.sample_rate,
                channels: Some(channels),
            },
        )
    }
}

/// A read command: which frames of an archive to replay.
#[derive(Debug)]
pub enum ReadCommand {
    /// Frames from the first frame number up to (not including) the second.
    FrameRange(FrameNumber, FrameNumber),
    /// A count of frames from a frame number.
    FrameCount(FrameNumber, usize),
    /// Frames from the first index up to (not including) the second.
    IndexRange(usize, usize),
    /// A count of frames from an index.
    IndexCount(usize, usize),
    /// Frames between two times.
    TimestampRange(String, String),
    /// A count of frames from a time.
    TimestampCount(String, usize),
    /// All frames.
    All,
}

/// Whether a read command selects frames by time.
pub open spec fn is_time_command(c: ReadCommand) -> bool {
    c is TimestampRange || c is TimestampCount
}

/// Refuses a read sequence in which any command selects frames by time.
pub fn check_read_sequence(commands: &Vec<ReadCommand>) -> (res: Result<(), ReadError>)
    ensures
        res.is_ok() == (forall|i: int| 0 <= i < commands@.len() ==> !is_time_command(#[trigger] commands@[i])),
        res.is_err() ==> res matches Err(ReadError::ConfigReadSeqTimestampInTimestampAsRfc3339Attrib),
{
    let mut i: usize = 0;
    while i < commands.len()
        invariant
            i <= commands.len(),
            forall|k: int| 0 <= k < i ==> !is_time_command(#[trigger] commands@[k]),
        decreases commands.len() - i,
    {
        match &commands[i] {
            ReadCommand::TimestampRange(..) | ReadCommand::TimestampCount(..) => {
                return Err(ReadError::ConfigReadSeqTimestampInTimestampAsRfc3339Attrib);
            },
            _ => {},
        }
        i = i + 1;
    }
    Ok(())
}

/// The range of frame indices that a read command selects from a digitiser's frames.
pub open spec fn spec_command_range(d: Hdf5Digitiser, c: ReadCommand) -> Result<(int, int), ()> {
    match c {
        ReadCommand::FrameRange(from, to) => match (
            position_or_next(frame_ints(d.frame_numbers@), from as int),
            position_or_next(frame_ints(d.frame_numbers@), to as int),
        ) {
            (Some(a), Some(b)) => Ok((a, b)),
            _ => Err(()),
        },
        ReadCommand::FrameCount(from, count) => match position_or_next(
            frame_ints(d.frame_numbers@),
            from as int,
        ) {
            Some(a) => Ok((a, a + count)),
            None => Err(()),
        },
        ReadCommand::IndexRange(from, to) => Ok((from as int, to as int)),
        ReadCommand::IndexCount(from, count) => Ok((from as int, from + count)),
        ReadCommand::All => Ok((0, d.num_frames as int)),
        _ => Err(()),
    }
}

/// Whether the end of the range that a read command selects stays within the range of a size.
pub open spec fn command_in_range(d: Hdf5Digitiser, c: ReadCommand) -> bool {
    &&& !is_time_command(c)
    &&& (spec_command_range(d, c) matches Ok(r) ==> r.1 <= usize::MAX)
}

/// The range of frame indices that a read command selects from a digitiser's frames. A command by
/// frame number starts at the first frame with that number, or else at the first frame after it;
/// a frame number with no frame at or after it is refused.
pub fn command_range(d: &Hdf5Digitiser, c: &ReadCommand) -> (res: Result<Range<usize>, ReadError>)
    requires
        command_in_range(*d, *c),
    ensures
        res.is_ok() == spec_command_range(*d, *c).is_ok(),
        res matches Ok(r) ==> spec_command_range(*d, *c) == Ok::<(int, int), ()>(
            (r.start as int, r.end as int),
        ),
{
    match c {
        ReadCommand::FrameRange(from, to) => {
            let a = d.get_index_from_frame_number(*from)?;
            let b = d.get_index_from_frame_number(*to)?;
            Ok(Range { start: a, end: b })
        },
        ReadCommand::FrameCount(from, count) => {
            let a = d.get_index_from_frame_number(*from)?;
            Ok(Range { start: a, end: a + *count })
        },
        ReadCommand::IndexRange(from, to) => Ok(Range { start: *from, end: *to }),
        ReadCommand::IndexCount(from, count) => Ok(Range { start: *from, end: *from + *count }),
        ReadCommand::All => Ok(Range { start: 0, end: d.num_frames }),
        _ => Err(ReadError::ConfigReadSeqTimestampInTimestampAsRfc3339Attrib),
    }
}

/// The ranges of frame indices that a read sequence selects from a digitiser's frames, in order;
/// the first command that cannot be resolved stops the resolution.
pub fn resolve_read_sequence(d: &Hdf5Digitiser, commands: &Vec<ReadCommand>) -> (res: Result<
    Vec<Range<usize>>,
    ReadError,
>)
    requires
        forall|i: int| 0 <= i < commands@.len() ==> command_in_range(*d, #[trigger] commands@[i]),
    ensures
        res.is_ok() == (forall|i: int| 0 <= i < commands@.len() ==> (#[trigger] spec_command_range(*d, commands@[i])).is_ok()),
        res matches Ok(v) ==> v@.len() == commands@.len() && forall|i: int|
            0 <= i < commands@.len() ==> spec_command_range(*d, commands@[i]) == Ok::<(int, int), ()>(
                ((#[trigger] v@[i]).start as int, v@[i].end as int),
            ),
{
    let mut out: Vec<Range<usize>> = Vec::new();
    let mut i: usize = 0;
    while i < commands.len()
        invariant
            i <= commands.len(),
            forall|k: int| 0 <= k < commands@.len() ==> command_in_range(*d, #[trigger] commands@[k]),
            out@.len() == i,
            forall|k: int|
                0 <= k < i ==> spec_command_range(*d, commands@[k]) == Ok::<(int, int), ()>(
                    ((#[trigger] out@[k]).start as int, out@[k].end as int),
                ),
        decreases commands.len() - i,
    {
        let r = command_range(d, &commands[i]);
        match r {
            Ok(range) => {
                out.push(range);
            },
            Err(e) => {
                assert(spec_command_range(*d, commands@[i as int]).is_err());
                return Err(e);
            },
        }
        i = i + 1;
    }
    assert forall|k: int| 0 <= k < commands@.len() implies (#[trigger] spec_command_range(
        *d,
        commands@[k],
    )).is_ok() by {
        let r = out@[k];
        assert(spec_command_range(*d, commands@[k]) == Ok::<(int, int), ()>(
            (r.start as int, r.end as int),
        ));
    }
    Ok(out)
}

/// Whether a digitiser is selected: every digitiser is where the selection is empty.
pub fn is_id_contained_in(id: DigitizerId, ids: &Vec<DigitizerId>) -> (res: bool)
    ensures
        res == (ids@.len() == 0 || ids@.contains(id)),
{
    if ids.len() == 0 {
        return true;
    }
    let mut i: usize = 0;
    while i < ids.len()
        invariant
            i <= ids.len(),
            forall|k: int| 0 <= k < i ==> ids@[k] != id,
        decreases ids.len() - i,
    {
        if ids[i] == id {
            assert(ids@[i as int] == id);
            return true;
        }
        i = i + 1;
    }
    false
}

/// The number of frame indices in a range: zero where it ends before it starts.
pub open spec fn range_len(r: Range<usize>) -> int {
    if r.end >= r.start {
        r.end - r.start
    } else {
        0
    }
}

/// The smallest of a non-empty list of counts.
pub open spec fn seq_min(s: Seq<int>) -> int
    decreases s.len(),
{
    if s.len() <= 1 {
        s[0]
    } else if s.last() < seq_min(s.drop_last()) {
        s.last()
    } else {
        seq_min(s.drop_last())
    }
}

/// How many frames each selected digitiser replays for one command: the fewest that any of them
/// has in its range for that command. Where no digitiser is selected, the identifiers of the
/// digitisers present are reported.
pub fn indices_for_command(
    ranges: &Vec<Vec<Range<usize>>>,
    command_index: usize,
    present: &Vec<DigitizerId>,
) -> (res: Result<usize, ReadError>)
    requires
        forall|d: int| 0 <= d < ranges@.len() ==> command_index < (#[trigger] ranges@[d])@.len(),
    ensures
        ranges@.len() == 0 ==> (res matches Err(ReadError::NoDigitisersSelected(p)) && p@ == present@),
        ranges@.len() > 0 ==> (res matches Ok(n) && n as int == seq_min(
            Seq::new(ranges@.len(), |d: int| range_len(ranges@[d]@[command_index as int])),
        )),
{
    if ranges.len() == 0 {
        let mut p: Vec<DigitizerId> = Vec::new();
        let mut k: usize = 0;
        while k < present.len()
            invariant
                k <= present.len(),
                p@ == present@.take(k as int),
            decreases present.len() - k,
        {
            p.push(present[k]);
            k = k + 1;
            assert(p@ =~= present@.take(k as int));
        }
        assert(present@.take(present.len() as int) =~= present@);
        return Err(ReadError::NoDigitisersSelected(p));
    }
    let ghost lens = Seq::new(ranges@.len(), |d: int| range_len(ranges@[d]@[command_index as int]));
    let mut best: usize = 0;
    let mut d: usize = 0;
    while d < ranges.len()
        invariant
            d <= ranges.len(),
            ranges@.len() > 0,
            lens == Seq::new(ranges@.len(), |x: int| range_len(ranges@[x]@[command_index as int])),
            forall|x: int| 0 <= x < ranges@.len() ==> command_index < (#[trigger] ranges@[x])@.len(),
            d > 0 ==> best as int == seq_min(lens.take(d as int)),
        decreases ranges.len() - d,
    {
        let r = &ranges[d][command_index];
        let len = if r.end >= r.start {
            r.end - r.start
        } else {
            0
        };
        assert(len as int == lens[d as int]);
        assert(lens.take(d + 1).drop_last() =~= lens.take(d as int));
        assert(lens.take(d + 1).last() == lens[d as int]);
        if d == 0 || len < best {
            best = len;
        }
        d = d + 1;
    }
    assert(lens.take(ranges.len() as int) =~= lens);
    Ok(best)
}

} // verus!
