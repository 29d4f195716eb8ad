//! The SQL text that stores the traces of a frame in TDengine: one insertion per channel.
use vstd::prelude::*;

use super::framedata::{measurement_time, measurement_time_in_range, FrameData};
use crate::common::{Channel, Intensity};
use crate::message::{voltage_or_empty, ChannelTrace, TraceMessage};
use crate::text::{decimal, push_decimal, push_signed_decimal, signed_decimal};

verus! {

broadcast use vstd::string::group_string_axioms;

/// The name of the table of a channel: `d`, the digitiser identifier, `c` and the channel.
pub open spec fn table_name_text(frame: FrameData, channel: Channel) -> Seq<char> {
    "d"@ + decimal(frame.digitizer_id as nat) + "c"@ + decimal(channel as nat)
}

/// The tags of a channel's table: the digitiser identifier, the channel and the frame number.
pub open spec fn sql_tags_text(frame: FrameData, channel: Channel) -> Seq<char> {
    "("@ + decimal(frame.digitizer_id as nat) + ", "@ + decimal(channel as nat) + ", "@ + decimal(
        frame.frame_number as nat,
    ) + ")"@
}

/// The values of the first `n` samples: for each, its time in nanoseconds and its value.
pub open spec fn values_text(frame: FrameData, samples: Seq<Intensity>, n: int) -> Seq<char>
    decreases n,
{
    if n <= 0 {
        Seq::empty()
    } else {
        values_text(frame, samples, n - 1) + " ("@ + signed_decimal(
            measurement_time(frame, n - 1),
        ) + ", "@ + decimal(samples[n - 1] as nat) + ")"@
    }
}

/// The insertion of a channel's samples, after the given start: the database and table, the
/// template and tags the table is made with, then the values.
pub open spec fn channel_sql_text(
    start: Seq<char>,
    frame: FrameData,
    database: Seq<char>,
    channel: ChannelTrace,
) -> Seq<char> {
    start + " "@ + database + "."@ + table_name_text(frame, channel.channel) + " USING "@ + database
        + ".template TAGS "@ + sql_tags_text(frame, channel.channel) + " VALUES"@ + values_text(
        frame,
        voltage_or_empty(channel),
        voltage_or_empty(channel).len() as int,
    )
}

/// Whether the time of every sample of a channel fits a timestamp.
pub open spec fn sample_times_fit(frame: FrameData, channel: ChannelTrace) -> bool {
    forall|i: int|
        0 <= i < voltage_or_empty(channel).len() ==> #[trigger] measurement_time_in_range(frame, i)
}

impl FrameData {
    /// Appends the name of a channel's table.
    pub fn table_name(&self, string: &mut String, channel_number: Channel)
        ensures
            final(string)@ == old(string)@ + table_name_text(*self, channel_number),
    {
        string.append("d");
        push_decimal(string, self.digitizer_id as u64);
        string.append("c");
        push_decimal(string, channel_number as u64);
    }

    /// Appends the tags of a channel's table.
    pub fn sql_tags(&self, string: &mut String, channel_number: Channel)
        ensures
            final(string)@ == old(string)@ + sql_tags_text(*self, channel_number),
    {
        string.append("(");
        push_decimal(string, self.digitizer_id as u64);
        string.append(", ");
        push_decimal(string, channel_number as u64);
        string.append(", ");
        push_decimal(string, self.frame_number as u64);
        string.append(")");
    }

    /// Appends to `string` the insertion of a channel's samples into the given database. The time
    /// of every sample must fit a timestamp.
    pub fn create_channel_sql_string(&self, string: String, database: &str, channel: &ChannelTrace) -> (res:
        String)
        requires
            sample_times_fit(*self, *channel),
        ensures
            res@ == channel_sql_text(string@, *self, database@, *channel),
    {
        let mut s = string;
        s.append(" ");
        s.append(database);
        s.append(".");
        self.table_name(&mut s, channel.channel);
        s.append(" USING ");
        s.append(database);
        s.append(".template TAGS ");
        self.sql_tags(&mut s, channel.channel);
        s.append(" VALUES");
        let ghost head = s@;
        if let Some(v) = &channel.voltage {
            let mut i: usize = 0;
            while i < v.len()
                invariant
                    i <= v.len(),
                    v@ == voltage_or_empty(*channel),
                    sample_times_fit(*self, *channel),
                    s@ == head + values_text(*self, v@, i as int),
                decreases v.len() - i,
            {
                assert(measurement_time_in_range(*self, i as int));
                let t = self.calc_measurement_time(i);
                s.append(" (");
                push_signed_decimal(&mut s, t);
                s.append(", ");
                push_decimal(&mut s, v[i] as u64);
                s.append(")");
                i = i + 1;
            }
        }
        s
    }
}

/// The insertions of every channel of a message, in order.
pub open spec fn channel_statements(frame: FrameData, database: Seq<char>, chans: Seq<ChannelTrace>) -> Seq<Seq<char>> {
    chans.map_values(|c: ChannelTrace| channel_sql_text("INSERT INTO"@, frame, database, c))
}

/// The insertions of every channel of a message into the given database, in order. The message
/// must have a channel list, and the time of every sample must fit a timestamp.
pub fn build_strings(frame: &FrameData, database: &str, message: &TraceMessage) -> (res: Vec<String>)
    requires
        message.channels is Some,
        forall|k: int|
            0 <= k < message.channels.unwrap()@.len() ==> sample_times_fit(
                *frame,
                #[trigger] message.channels.unwrap()@[k],
            ),
    ensures
        res@.map_values(|s: String| s@) == channel_statements(
            *frame,
            database@,
            message.channels.unwrap()@,
        ),
{
    let mut sql: Vec<String> = Vec::new();
    match &message.channels {
        Some(chans) => {
            let mut k: usize = 0;
            while k < chans.len()
                invariant
                    k <= chans.len(),
                    chans@ == message.channels.unwrap()@,
                    forall|j: int|
                        0 <= j < chans@.len() ==> sample_times_fit(*frame, #[trigger] chans@[j]),
                    sql@.len() == k,
                    forall|j: int|
                        0 <= j < k ==> (#[trigger] sql@[j])@ == channel_sql_text(
                            "INSERT INTO"@,
                            *frame,
                            database@,
                            chans@[j],
                        ),
                decreases chans.len() - k,
            {
                let start = "INSERT INTO".to_string();
                let text = frame.create_channel_sql_string(start, database, &chans[k]);
                sql.push(text);
                k = k + 1;
            }
            assert(sql@.map_values(|s: String| s@) =~= channel_statements(
                *frame,
                database@,
                message.channels.unwrap()@,
            ));
        },
        None => {},
    }
    sql
}

/// The statements that empty the database and make it again: drop it, create it with nanosecond
/// precision, and create its template super-table.
pub fn reset_database_statements(database: &str) -> (res: (String, String, String))
    ensures
        res.0@ == "DROP DATABASE IF EXISTS "@ + database@,
        res.1@ == "CREATE DATABASE IF NOT EXISTS "@ + database@ + " PRECISION 'ns'"@,
        res.2@ == "CREATE STABLE IF NOT EXISTS "@ + database@
            + ".template (ts TIMESTAMP, intensity SMALLINT UNSIGNED) TAGS (detector_id TINYINT UNSIGNED, channel_number INT UNSIGNED, frame_number INT UNSIGNED)"@,
{
    let mut drop = "DROP DATABASE IF EXISTS ".to_string();
    drop.append(database);
    let mut create = "CREATE DATABASE IF NOT EXISTS ".to_string();
    create.append(database);
    create.append(" PRECISION 'ns'");
    let mut stable = "CREATE STABLE IF NOT EXISTS ".to_string();
    stable.append(database);
    stable.append(
        ".template (ts TIMESTAMP, intensity SMALLINT UNSIGNED) TAGS (detector_id TINYINT UNSIGNED, channel_number INT UNSIGNED, frame_number INT UNSIGNED)",
    );
    (drop, create, stable)
}

/// What the prepared insertion of a frame binds: the statement, the frame number as its tag, the
/// time of every sample, and for each channel its table and its samples.
pub struct StatementPlan {
    pub sql: String,
    pub frame_number: u32,
    pub timestamps: Vec<i64>,
    pub tables: Vec<(String, Vec<Intensity>)>,
}

/// The time of every sample of a frame with `n` samples: the frame's time plus one sample time
/// for each earlier sample.
pub open spec fn sample_timestamps(frame: FrameData, n: nat) -> Seq<i64> {
    Seq::new(n, |i: int| (frame.timestamp + frame.sample_time * i) as i64)
}

/// Whether the time of every one of `n` samples of a frame fits a timestamp.
pub open spec fn sample_timestamps_fit(frame: FrameData, n: nat) -> bool {
    forall|i: int|
        0 <= i < n ==> i64::MIN <= #[trigger] (frame.sample_time * i) <= i64::MAX && i64::MIN
            <= frame.timestamp + frame.sample_time * i <= i64::MAX
}

/// Plans the prepared insertion of a message's traces: the sample count is that of the first
/// channel, and every channel binds its samples to its own table. The message must have a
/// channel, every channel must have samples, the sample count must fit a signed 64-bit number,
/// and every sample time must fit a timestamp.
pub fn build_statement(frame: &FrameData, message: &TraceMessage) -> (res: StatementPlan)
    requires
        message.channels matches Some(c) && c@.len() > 0 && (forall|k: int|
            0 <= k < c@.len() ==> (#[trigger] c@[k]).voltage is Some) && voltage_or_empty(c@[0]).len()
            <= i64::MAX && sample_timestamps_fit(*frame, voltage_or_empty(c@[0]).len()),
    ensures
        res.sql@ == "INSERT INTO ? USING template TAGS(?) VALUES(?, ?)"@,
        res.frame_number == frame.frame_number,
        res.timestamps@ == sample_timestamps(
            *frame,
            voltage_or_empty(message.channels.unwrap()@[0]).len(),
        ),
        res.tables@.len() == message.channels.unwrap()@.len(),
        forall|k: int|
            0 <= k < res.tables@.len() ==> (#[trigger] res.tables@[k]).0@ == table_name_text(
                *frame,
                message.channels.unwrap()@[k].channel,
            ) && res.tables@[k].1@ == voltage_or_empty(message.channels.unwrap()@[k]),
{
    let chans = match &message.channels {
        Some(c) => c,
        None => {
            return StatementPlan {
                sql: String::new(),
                frame_number: 0,
                timestamps: Vec::new(),
                tables: Vec::new(),
            };
        },
    };
    let num_samples = match &chans[0].voltage {
        Some(v) => v.len(),
        None => 0,
    };
    let mut timestamps: Vec<i64> = Vec::new();
    let mut i: usize = 0;
    while i < num_samples
        invariant
            i <= num_samples,
            num_samples == voltage_or_empty(chans@[0]).len(),
            num_samples <= i64::MAX,
            sample_timestamps_fit(*frame, num_samples as nat),
            timestamps@ == sample_timestamps(*frame, i as nat),
        decreases num_samples - i,
    {
        assert(i64::MIN <= frame.sample_time * (i as int) <= i64::MAX);
        let t = frame.timestamp + frame.sample_time * (i as i64);
        timestamps.push(t);
        i = i + 1;
        assert(timestamps@ =~= sample_timestamps(*frame, i as nat));
    }
    let mut tables: Vec<(String, Vec<Intensity>)> = Vec::new();
    let mut k: usize = 0;
    while k < chans.len()
        invariant
            k <= chans.len(),
            tables@.len() == k,
            forall|j: int|
                0 <= j < k ==> (#[trigger] tables@[j]).0@ == table_name_text(*frame, chans@[j].channel)
                    && tables@[j].1@ == voltage_or_empty(chans@[j]),
        decreases chans.len() - k,
    {
        let mut name = String::new();
        frame.table_name(&mut name, chans[k].channel);
        let values = match &chans[k].voltage {
            Some(v) => crate::message::copy_samples(v),
            None => Vec::new(),
        };
        tables.push((name, values));
        k = k + 1;
    }
    StatementPlan {
        sql: "INSERT INTO ? USING template TAGS(?) VALUES(?, ?)".to_string(),
        frame_number: frame.frame_number,
        timestamps,
        tables,
    }
}

} // verus!
