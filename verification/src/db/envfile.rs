//! The `.env` file of the database archiver.
use vstd::prelude::*;

use crate::tdengine::envfile::opt_text;
use crate::text::{decimal, push_decimal};

verus! {

broadcast use vstd::string::group_string_axioms;

/// The command-line values that go into the `.env` file.
pub struct EnvOptions {
    pub kafka_broker_url: Option<String>,
    pub kafka_broker_port: Option<u32>,
    pub kafka_username: Option<String>,
    pub kafka_password: Option<String>,
    pub kafka_consumer_group: Option<String>,
    pub kafka_trace_topic: Option<String>,
    pub td_broker_url: Option<String>,
    pub td_broker_port: Option<u32>,
    pub td_username: Option<String>,
    pub td_password: Option<String>,
    pub td_database: Option<String>,
    pub td_num_channels: Option<usize>,
}

/// One line of the file: the value given, as it is, or else the default line.
pub open spec fn value_line(input: Option<Seq<char>>, default: Seq<char>) -> Seq<char> {
    let text = match input {
        Some(v) => v,
        None => default,
    };
    text + "\n"@
}

/// The decimal rendering of an optional number.
pub open spec fn opt_number(n: Option<int>) -> Option<Seq<char>> {
    match n {
        Some(v) => Some(decimal(v as nat)),
        None => None,
    }
}

/// The text of the `.env` file: a line for each TDengine setting, a blank pair of lines, a line for
/// each Redpanda setting, another blank pair, and the fixed benchmark settings.
pub open spec fn env_text(o: EnvOptions) -> Seq<char> {
    value_line(opt_text(o.td_broker_url), "TDENGINE_URL = taos://localhost"@) + value_line(
        opt_number(
            match o.td_broker_port {
                Some(p) => Some(p as int),
                None => None,
            },
        ),
        "TDENGINE_PORT = 6030"@,
    ) + value_line(opt_text(o.td_database), "TDENGINE_DATABASE = tracelogs"@) + value_line(
        opt_number(
            match o.td_num_channels {
                Some(n) => Some(n as int),
                None => None,
            },
        ),
        "TDENGINE_NUM_CHANNELS = 8"@,
    ) + value_line(opt_text(o.td_username), "TDENGINE_USER = user"@) + value_line(
        opt_text(o.td_password),
        "TDENGINE_PASSWORD = password"@,
    ) + "\n\n"@ + value_line(opt_text(o.kafka_broker_url), "REDPANDA_URL = localhost"@)
        + value_line(
        opt_number(
            match o.kafka_broker_port {
                Some(p) => Some(p as int),
                None => None,
            },
        ),
        "REDPANDA_PORT = 19092"@,
    ) + value_line(opt_text(o.kafka_username), "REDPANDA_USER = user"@) + value_line(
        opt_text(o.kafka_password),
        "REDPANDA_PASSWORD = password"@,
    ) + value_line(opt_text(o.kafka_consumer_group), "REDPANDA_CONSUMER_GROUP = "@) + value_line(
        opt_text(o.kafka_trace_topic),
        "REDPANDA_TOPIC_SUBSCRIBE = MyTopic"@,
    ) + "\n\n"@ + "BENCHMARK_DELAY = 0\n"@ + "BENCHMARK_REPEATS = 80\n"@
        + "BENCHMARK_NUM_MESSAGES_RANGE = 1:1:1\n"@ + "BENCHMARK_NUM_CHANNELS_RANGE = 8:8:1\n"@
        + "BENCHMARK_NUM_SAMPLES_RANGE = 10000:10000:1\n"@
}

/// Appends one line: the value given, or else the default line.
pub fn write_line(s: &mut String, input: &Option<String>, default: &str)
    ensures
        final(s)@ == old(s)@ + value_line(opt_text(*input), default@),
{
    match input {
        Some(v) => s.append(v.as_str()),
        None => s.append(default),
    }
    s.append("\n");
}

/// Appends one line: the decimal rendering of the number given, or else the default line.
pub fn write_number_line(s: &mut String, input: Option<u64>, default: &str)
    ensures
        final(s)@ == old(s)@ + value_line(
            opt_number(
                match input {
                    Some(v) => Some(v as int),
                    None => None,
                },
            ),
            default@,
        ),
{
    match input {
        Some(v) => push_decimal(s, v),
        None => s.append(default),
    }
    s.append("\n");
}

/// The text of the `.env` file.
pub fn write_file(o: &EnvOptions) -> (res: String)
    ensures
        res@ == env_text(*o),
{
    let mut s = String::new();
    write_line(&mut s, &o.td_broker_url, "TDENGINE_URL = taos://localhost");
    let port: Option<u64> = match o.td_broker_port {
        Some(p) => Some(p as u64),
        None => None,
    };
    write_number_line(&mut s, port, "TDENGINE_PORT = 6030");
    write_line(&mut s, &o.td_database, "TDENGINE_DATABASE = tracelogs");
    let channels: Option<u64> = match o.td_num_channels {
        Some(n) => Some(n as u64),
        None => None,
    };
    write_number_line(&mut s, channels, "TDENGINE_NUM_CHANNELS = 8");
    write_line(&mut s, &o.td_username, "TDENGINE_USER = user");
    write_line(&mut s, &o.td_password, "TDENGINE_PASSWORD = password");
    s.append("\n\n");
    write_line(&mut s, &o.kafka_broker_url, "REDPANDA_URL = localhost");
    let kport: Option<u64> = match o.kafka_broker_port {
        Some(p) => Some(p as u64),
        None => None,
    };
    write_number_line(&mut s, kport, "REDPANDA_PORT = 19092");
    write_line(&mut s, &o.kafka_username, "REDPANDA_USER = user");
    write_line(&mut s, &o.kafka_password, "REDPANDA_PASSWORD = password");
    write_line(&mut s, &o.kafka_consumer_group, "REDPANDA_CONSUMER_GROUP = ");
    write_line(&mut s, &o.kafka_trace_topic, "REDPANDA_TOPIC_SUBSCRIBE = MyTopic");
    s.append("\n\n");
    s.append("BENCHMARK_DELAY = 0\n");
    s.append("BENCHMARK_REPEATS = 80\n");
    s.append("BENCHMARK_NUM_MESSAGES_RANGE = 1:1:1\n");
    s.append("BENCHMARK_NUM_CHANNELS_RANGE = 8:8:1\n");
    s.append("BENCHMARK_NUM_SAMPLES_RANGE = 10000:10000:1\n");
    s
}

} // verus!
