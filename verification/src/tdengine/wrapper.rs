//! The statements and per-message values of the TDengine recorder.
//!
//! The recorder keeps one trace table and one frame table per digitiser, created from two
//! super-tables whose column count is the expected number of channels.
use vstd::prelude::*;

use crate::common::DigitizerId;
use crate::message::{max_voltage_len, TraceMessage};
use crate::text::{decimal, push_decimal};

use super::error::{TDEngineError, TraceMessageErrorCode};
use super::error_reporter::{
    all_channel_reports, combined_code, metadata_reports, report_codes, TDEngineErrorReporter,
};
use super::framedata::{
    frame_value_error, measurement_time, measurement_time_in_range, sample_time_for_rate, FrameData,
};
use super::views::{
    channel_column, channel_id_column, create_column_views, create_frame_column_views, ColumnViews,
    FrameColumnViews,
};

verus! {

broadcast use vstd::string::group_string_axioms;

/// `n` copies of `s`, one after another.
pub open spec fn repeat_text(s: Seq<char>, n: nat) -> Seq<char>
    decreases n,
{
    if n == 0 {
        Seq::empty()
    } else {
        repeat_text(s, (n - 1) as nat) + s
    }
}

/// Column definitions `, <prefix><k><suffix>` for k from 0 below n.
pub open spec fn column_list(prefix: Seq<char>, suffix: Seq<char>, n: nat) -> Seq<char>
    decreases n,
{
    if n == 0 {
        Seq::empty()
    } else {
        column_list(prefix, suffix, (n - 1) as nat) + ", "@ + prefix + decimal((n - 1) as nat)
            + suffix
    }
}

/// Appends `n` copies of `piece`.
pub fn push_repeated(s: &mut String, piece: &str, n: usize)
    ensures
        final(s)@ == old(s)@ + repeat_text(piece@, n as nat),
{
    let ghost start = s@;
    let mut i: usize = 0;
    while i < n
        invariant
            i <= n,
            s@ == start + repeat_text(piece@, i as nat),
        decreases n - i,
    {
        s.append(piece);
        i = i + 1;
        assert(start + repeat_text(piece@, i as nat) =~= start + repeat_text(piece@, (i - 1) as nat)
            + piece@);
    }
}

/// Appends the column definitions `, <prefix><k><suffix>` for k from 0 below n.
pub fn push_column_list(s: &mut String, prefix: &str, suffix: &str, n: usize)
    ensures
        final(s)@ == old(s)@ + column_list(prefix@, suffix@, n as nat),
{
    let ghost start = s@;
    let mut k: usize = 0;
    while k < n
        invariant
            k <= n,
            s@ == start + column_list(prefix@, suffix@, k as nat),
        decreases n - k,
    {
        s.append(", ");
        s.append(prefix);
        push_decimal(s, k as u64);
        s.append(suffix);
        k = k + 1;
        assert(start + column_list(prefix@, suffix@, k as nat) =~= start + column_list(
            prefix@,
            suffix@,
            (k - 1) as nat,
        ) + ", "@ + prefix@ + decimal((k - 1) as nat) + suffix@);
    }
}

/// The connection address of a TDengine broker, with the credentials where both are given.
pub open spec fn spec_url(broker: Seq<char>, username: Option<Seq<char>>, password: Option<Seq<char>>) -> Seq<char> {
    if username.is_some() && password.is_some() {
        "taos+ws://"@ + broker + "@"@ + username.unwrap() + ":"@ + password.unwrap()
    } else {
        "taos+ws://"@ + broker
    }
}

/// The view of an optional string.
pub open spec fn opt_view(s: Option<String>) -> Option<Seq<char>> {
    match s {
        Some(v) => Some(v@),
        None => None,
    }
}

/// The connection address of a TDengine broker: `taos+ws://<broker>`, followed by
/// `@<username>:<password>` where both are given.
pub fn tdengine_url(broker: &str, username: &Option<String>, password: &Option<String>) -> (res: String)
    ensures
        res@ == spec_url(broker@, opt_view(*username), opt_view(*password)),
{
    let mut url = "taos+ws://".to_string();
    url.append(broker);
    match (username, password) {
        (Some(u), Some(p)) => {
            url.append("@");
            url.append(u.as_str());
            url.append(":");
            url.append(p.as_str());
        },
        _ => {},
    }
    url
}

/// The statement that creates the database.
pub fn create_database_sql(database: &str) -> (res: String)
    ensures
        res@ == "CREATE DATABASE IF NOT EXISTS "@ + database@ + " PRECISION 'ns'"@,
{
    let mut s = "CREATE DATABASE IF NOT EXISTS ".to_string();
    s.append(database);
    s.append(" PRECISION 'ns'");
    s
}

/// The statement that creates the trace super-table: a timestamp column and one sample column
/// per channel, tagged with the digitiser identifier.
pub fn create_supertable_sql(database: &str, num_channels: usize) -> (res: String)
    ensures
        res@ == "CREATE STABLE IF NOT EXISTS "@ + database@ + ".template (ts TIMESTAMP"@
            + column_list("c"@, " SMALLINT UNSIGNED"@, num_channels as nat)
            + ") TAGS (digitizer_id TINYINT UNSIGNED)"@,
{
    let mut s = "CREATE STABLE IF NOT EXISTS ".to_string();
    s.append(database);
    s.append(".template (ts TIMESTAMP");
    push_column_list(&mut s, "c", " SMALLINT UNSIGNED", num_channels);
    s.append(") TAGS (digitizer_id TINYINT UNSIGNED)");
    s
}

/// The statement that creates the frame super-table: the frame's time, sample count, sampling
/// rate, frame number and error code, and one channel identifier column per channel.
pub fn create_frame_supertable_sql(database: &str, num_channels: usize) -> (res: String)
    ensures
        res@ == "CREATE STABLE IF NOT EXISTS "@ + database@
            + ".frame_template (frame_ts TIMESTAMP, sample_count INT UNSIGNED, sampling_rate INT UNSIGNED, frame_number INT UNSIGNED, error_code INT UNSIGNED"@
            + column_list("cid"@, " INT UNSIGNED"@, num_channels as nat)
            + ") TAGS (digitizer_id TINYINT UNSIGNED)"@,
{
    let mut s = "CREATE STABLE IF NOT EXISTS ".to_string();
    s.append(database);
    s.append(
        ".frame_template (frame_ts TIMESTAMP, sample_count INT UNSIGNED, sampling_rate INT UNSIGNED, frame_number INT UNSIGNED, error_code INT UNSIGNED",
    );
    push_column_list(&mut s, "cid", " INT UNSIGNED", num_channels);
    s.append(") TAGS (digitizer_id TINYINT UNSIGNED)");
    s
}

/// The insertion statement of the trace tables: one placeholder for the timestamp and one per
/// channel.
pub fn insert_statement_sql(database: &str, num_channels: usize) -> (res: String)
    ensures
        res@ == "INSERT INTO ? USING "@ + database@ + ".template TAGS (?) VALUES (?"@ + repeat_text(
            ", ?"@,
            num_channels as nat,
        ) + ")"@,
{
    let mut s = "INSERT INTO ? USING ".to_string();
    s.append(database);
    s.append(".template TAGS (?) VALUES (?");
    push_repeated(&mut s, ", ?", num_channels);
    s.append(")");
    s
}

/// The insertion statement of the frame tables: five placeholders for the frame's values and one
/// per channel.
pub fn insert_frame_statement_sql(database: &str, num_channels: usize) -> (res: String)
    ensures
        res@ == "INSERT INTO ? USING "@ + database@ + ".frame_template TAGS (?) VALUES (?, ?, ?, ?, ?"@
            + repeat_text(", ?"@, num_channels as nat) + ")"@,
{
    let mut s = "INSERT INTO ? USING ".to_string();
    s.append(database);
    s.append(".frame_template TAGS (?) VALUES (?, ?, ?, ?, ?");
    push_repeated(&mut s, ", ?", num_channels);
    s.append(")");
    s
}

/// The statements that set the recorder up for a given channel count.
pub struct ChannelCountStatements {
    pub supertable: String,
    pub frame_supertable: String,
    pub statement: String,
    pub frame_statement: String,
}

/// What one message contributes: the qualified names of its digitiser's two tables, the tag, and
/// the columns of each table.
pub struct PreparedFrame {
    pub table_name: String,
    pub frame_table_name: String,
    pub digitizer_id: DigitizerId,
    pub column_views: ColumnViews,
    pub frame_column_views: FrameColumnViews,
}

/// The frame values that `FrameData::init` extracts from a message that it accepts.
pub open spec fn initialised_frame(frame: FrameData, message: TraceMessage) -> FrameData {
    FrameData {
        timestamp: message.metadata.timestamp.unwrap(),
        digitizer_id: message.digitizer_id,
        frame_number: message.metadata.frame_number,
        sample_rate: message.sample_rate,
        sample_time: sample_time_for_rate((message.sample_rate as i32) as int) as i64,
        num_samples: max_voltage_len(message.channels.unwrap()@) as usize,
        ..frame
    }
}

/// Whether the time of every sample of a message stays within the range of a timestamp.
pub open spec fn sample_times_in_range(frame: FrameData, message: TraceMessage) -> bool {
    let f = initialised_frame(frame, message);
    forall|i: int| 0 <= i < f.num_samples ==> measurement_time_in_range(f, i)
}

/// The state of the TDengine recorder that does not live in the database: the database name,
/// the defects found so far, and the values of the latest frame.
pub struct TraceRecorder {
    pub database: String,
    pub error: TDEngineErrorReporter,
    pub frame_data: FrameData,
}

impl TraceRecorder {
    /// A recorder for the given database, with no defects found and zero frame values.
    pub fn new(database: String) -> (res: Self)
        ensures
            res.database@ == database@,
            res.error.well_formed(),
            res.error.recorded() == Seq::<super::error_reporter::Report>::empty(),
            res.frame_data == FrameData::default_value(),
    {
        TraceRecorder { database, error: TDEngineErrorReporter::new(), frame_data: FrameData::default() }
    }

    /// Sets the expected channel count and gives the statements that create the super-tables and
    /// insert into them.
    pub fn init_with_channel_count(&mut self, num_channels: usize) -> (res: ChannelCountStatements)
        ensures
            final(self).frame_data == (FrameData { num_channels, ..old(self).frame_data }),
            final(self).database == old(self).database,
            final(self).error == old(self).error,
            res.supertable@ == "CREATE STABLE IF NOT EXISTS "@ + old(self).database@ + ".template (ts TIMESTAMP"@
                + column_list("c"@, " SMALLINT UNSIGNED"@, num_channels as nat)
                + ") TAGS (digitizer_id TINYINT UNSIGNED)"@,
            res.frame_supertable@ == "CREATE STABLE IF NOT EXISTS "@ + old(self).database@
                + ".frame_template (frame_ts TIMESTAMP, sample_count INT UNSIGNED, sampling_rate INT UNSIGNED, frame_number INT UNSIGNED, error_code INT UNSIGNED"@
                + column_list("cid"@, " INT UNSIGNED"@, num_channels as nat)
                + ") TAGS (digitizer_id TINYINT UNSIGNED)"@,
            res.statement@ == "INSERT INTO ? USING "@ + old(self).database@ + ".template TAGS (?) VALUES (?"@
                + repeat_text(", ?"@, num_channels as nat) + ")"@,
            res.frame_statement@ == "INSERT INTO ? USING "@ + old(self).database@
                + ".frame_template TAGS (?) VALUES (?, ?, ?, ?, ?"@ + repeat_text(", ?"@, num_channels as nat)
                + ")"@,
    {
        self.frame_data.set_channel_count(num_channels);
        let db = self.database.as_str();
        ChannelCountStatements {
            supertable: create_supertable_sql(db, num_channels),
            frame_supertable: create_frame_supertable_sql(db, num_channels),
            statement: insert_statement_sql(db, num_channels),
            frame_statement: insert_frame_statement_sql(db, num_channels),
        }
    }

    /// Examines a message and extracts what it contributes. The defects of its metadata are
    /// recorded first; then its frame values are extracted, which stops the processing with an
    /// error where one is missing; then the defects of its channels are recorded, and the tables'
    /// names and columns are built.
    pub fn process_message(&mut self, message: &TraceMessage) -> (res: Result<PreparedFrame, TDEngineError>)
        requires
            old(self).error.well_formed(),
            message.metadata.timestamp.is_some() && message.sample_rate != 0 ==> (
            message.sample_rate as i32) != 0,
            message.metadata.timestamp.is_some() && message.channels.is_some() ==> sample_times_in_range(
                old(self).frame_data,
                *message,
            ),
        ensures
            final(self).error.well_formed(),
            final(self).database == old(self).database,
            res.is_ok() ==> {
                let f = initialised_frame(old(self).frame_data, *message);
                let chans = message.channels.unwrap()@;
                let p = res.unwrap();
                &&& final(self).frame_data == f
                &&& final(self).error.recorded() == old(self).error.recorded() + metadata_reports(
                    *message,
                ) + all_channel_reports(f, chans)
                &&& p.table_name@ == old(self).database@ + "."@ + "d"@ + decimal(message.digitizer_id as nat)
                &&& p.frame_table_name@ == old(self).database@ + "."@ + "m"@ + decimal(
                    message.digitizer_id as nat,
                )
                &&& p.digitizer_id == message.digitizer_id
                &&& p.column_views.timestamps@.len() == f.num_samples
                &&& forall|i: int| 0 <= i < f.num_samples ==> #[trigger] p.column_views.timestamps@[i]
                    == measurement_time(f, i)
                &&& p.column_views.channels@.len() == f.num_channels
                &&& forall|c: int| 0 <= c < f.num_channels ==> (#[trigger] p.column_views.channels@[c])@
                    == channel_column(f, chans, c)
                &&& p.frame_column_views.frame_timestamp == measurement_time(f, 0)
                &&& p.frame_column_views.sample_count == f.num_samples as u32
                &&& p.frame_column_views.sampling_rate == f.sample_rate as u32
                &&& p.frame_column_views.frame_number == f.frame_number
                &&& p.frame_column_views.error_code == combined_code(report_codes(final(self).error.recorded()))
                &&& p.frame_column_views.channel_ids@.len() == f.num_channels
                &&& forall|c: int| 0 <= c < f.num_channels ==> #[trigger] p.frame_column_views.channel_ids@[c]
                    == channel_id_column(chans, c)
            },
            res.is_err() ==> final(self).error.recorded() == old(self).error.recorded() + metadata_reports(
                *message,
            ),
            res.is_err() <==> (message.metadata.timestamp.is_none() || message.sample_rate == 0
                || sample_time_for_rate((message.sample_rate as i32) as int) == 0
                || message.channels.is_none()),
            match frame_value_error(*message) {
                Some(code) => res == Err::<PreparedFrame, TDEngineError>(TDEngineError::TraceMessage(code)),
                None => res.is_ok(),
            },
    {
        self.error.test_metadata(message);
        let ghost before = self.frame_data;
        assert(before == old(self).frame_data);
        let init = self.frame_data.init(message);
        match init {
            Err(e) => {
                return Err(e);
            },
            Ok(()) => {},
        }
        let channels = match &message.channels {
            Some(c) => c,
            None => {
                return Err(TDEngineError::TraceMessage(TraceMessageErrorCode::ChannelsMissing));
            },
        };
        self.error.test_channels(&self.frame_data, channels);
        let mut table_name = self.database.clone();
        table_name.append(".");
        let dig_table = self.frame_data.get_table_name();
        table_name.append(dig_table.as_str());
        let mut frame_table_name = self.database.clone();
        frame_table_name.append(".");
        let dig_frame_table = self.frame_data.get_frame_table_name();
        frame_table_name.append(dig_frame_table.as_str());
        proof {
            assert(self.frame_data == initialised_frame(old(self).frame_data, *message));
            assert(measurement_time_in_range(self.frame_data, 0)) by {
                assert(measurement_time_in_range(self.frame_data, 0) == (i64::MIN <= self.frame_data.timestamp <= i64::MAX));
            }
        }
        let frame_column_views = create_frame_column_views(&self.frame_data, &self.error, channels);
        let column_views = create_column_views(&self.frame_data, channels);
        Ok(PreparedFrame {
            table_name,
            frame_table_name,
            digitizer_id: self.frame_data.digitizer_id,
            column_views,
            frame_column_views,
        })
    }
}

} // verus!
