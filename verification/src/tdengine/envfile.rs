//! The `.env` file of the TDengine recorder, and the reading of a yes/no answer.
use vstd::prelude::*;

use crate::text::{decimal, push_decimal};

verus! {

broadcast use vstd::string::group_string_axioms;

/// The values that go into the `.env` file; those not given are replaced by defaults.
pub struct EnvFileOptions {
    pub td_broker: Option<String>,
    pub td_database: Option<String>,
    pub td_num_channels: Option<usize>,
    pub td_username: Option<String>,
    pub td_password: Option<String>,
    pub kafka_broker: Option<String>,
    pub kafka_username: Option<String>,
    pub kafka_password: Option<String>,
    pub kafka_consumer_group: String,
    pub kafka_topic: Option<String>,
}

/// The line `<key> = <value>`, with the default where no value is given.
pub open spec fn env_line(key: Seq<char>, input: Option<Seq<char>>, default: Seq<char>) -> Seq<char> {
    key + " = "@ + match input {
        Some(v) => v,
        None => default,
    } + "\n"@
}

/// The view of an optional string.
pub open spec fn opt_text(s: Option<String>) -> Option<Seq<char>> {
    match s {
        Some(v) => Some(v@),
        None => None,
    }
}

/// The decimal rendering of an optional count.
pub open spec fn opt_decimal(n: Option<usize>) -> Option<Seq<char>> {
    match n {
        Some(v) => Some(decimal(v as nat)),
        None => None,
    }
}

/// The text of the `.env` file: the TDengine settings, a blank pair of lines, the Kafka settings,
/// another blank pair, and the fixed benchmark settings.
pub open spec fn env_file_text(o: EnvFileOptions) -> Seq<char> {
    env_line("TDENGINE_BROKER"@, opt_text(o.td_broker), "localhost:6041"@) + env_line(
        "TDENGINE_DATABASE"@,
        opt_text(o.td_database),
        "tracelogs"@,
    ) + env_line("TDENGINE_NUM_CHANNELS"@, opt_decimal(o.td_num_channels), "8"@) + env_line(
        "TDENGINE_USER"@,
        opt_text(o.td_username),
        "user"@,
    ) + env_line("TDENGINE_PASSWORD"@, opt_text(o.td_password), "password"@) + "\n\n"@ + env_line(
        "KAFKA_BROKER"@,
        opt_text(o.kafka_broker),
        "localhost:19092"@,
    ) + env_line("KAFKA_USER"@, opt_text(o.kafka_username), " user"@) + env_line(
        "KAFKA_PASSWORD"@,
        opt_text(o.kafka_password),
        "password"@,
    ) + env_line("KAFKA_CONSUMER_GROUP"@, Some(o.kafka_consumer_group@), "trace-consumer"@)
        + env_line("KAFKA_TOPIC"@, opt_text(o.kafka_topic), "Traces"@) + "\n\n"@
        + "BENCHMARK_DELAY = 0\n"@ + "BENCHMARK_REPEATS = 80\n"@
        + "BENCHMARK_NUM_CHANNELS_RANGE = 8:8:1\n"@ + "BENCHMARK_NUM_SAMPLES_RANGE = 10000:10000:1\n"@
}

/// Appends the line `<key> = <value>`, with the default where no value is given.
pub fn push_env_line(s: &mut String, key: &str, input: Option<&str>, default: &str)
    ensures
        final(s)@ == old(s)@ + env_line(
            key@,
            match input {
                Some(v) => Some(v@),
                None => None,
            },
            default@,
        ),
{
    s.append(key);
    s.append(" = ");
    match input {
        Some(v) => s.append(v),
        None => s.append(default),
    }
    s.append("\n");
}

/// The optional string as a string slice.
fn opt_str(s: &Option<String>) -> (res: Option<&str>)
    ensures
        match res {
            Some(v) => Some(v@),
            None => None,
        } == opt_text(*s),
{
    match s {
        Some(v) => Some(v.as_str()),
        None => None,
    }
}

/// The text of the `.env` file.
pub fn env_file_contents(o: &EnvFileOptions) -> (res: String)
    ensures
        res@ == env_file_text(*o),
{
    let mut s = String::new();
    push_env_line(&mut s, "TDENGINE_BROKER", opt_str(&o.td_broker), "localhost:6041");
    push_env_line(&mut s, "TDENGINE_DATABASE", opt_str(&o.td_database), "tracelogs");
    let channels = match o.td_num_channels {
        Some(n) => {
            let mut t = String::new();
            push_decimal(&mut t, n as u64);
            Some(t)
        },
        None => None,
    };
    let channels_str: Option<&str> = match &channels {
        Some(t) => Some(t.as_str()),
        None => None,
    };
    proof {
        assert(match channels_str {
            Some(v) => Some(v@),
            None => None,
        } =~= opt_decimal(o.td_num_channels));
    }
    push_env_line(&mut s, "TDENGINE_NUM_CHANNELS", channels_str, "8");
    push_env_line(&mut s, "TDENGINE_USER", opt_str(&o.td_username), "user");
    push_env_line(&mut s, "TDENGINE_PASSWORD", opt_str(&o.td_password), "password");
    s.append("\n\n");
    push_env_line(&mut s, "KAFKA_BROKER", opt_str(&o.kafka_broker), "localhost:19092");
    push_env_line(&mut s, "KAFKA_USER", opt_str(&o.kafka_username), " user");
    push_env_line(&mut s, "KAFKA_PASSWORD", opt_str(&o.kafka_password), "password");
    push_env_line(
        &mut s,
        "KAFKA_CONSUMER_GROUP",
        Some(o.kafka_consumer_group.as_str()),
        "trace-consumer",
    );
    push_env_line(&mut s, "KAFKA_TOPIC", opt_str(&o.kafka_topic), "Traces");
    s.append("\n\n");
    s.append("BENCHMARK_DELAY = 0\n");
    s.append("BENCHMARK_REPEATS = 80\n");
    s.append("BENCHMARK_NUM_CHANNELS_RANGE = 8:8:1\n");
    s.append("BENCHMARK_NUM_SAMPLES_RANGE = 10000:10000:1\n");
    assert(s@ =~= env_file_text(*o));
    s
}

/// Whether an answer typed at the terminal confirms: its first character is `y` or `Y`.
pub open spec fn confirms(answer: Seq<char>) -> bool {
    answer.len() > 0 && (answer[0] == 'y' || answer[0] == 'Y')
}

/// Whether an answer typed at the terminal confirms. The answer is cut to its first byte and
/// compared with `Y` regardless of ASCII case; an answer that starts with a character outside
/// ASCII cannot be cut there.
pub fn is_confirmation(answer: &str) -> (res: bool)
    requires
        answer@.len() == 0 || (answer@[0] as u32) < 128,
    ensures
        res == confirms(answer@),
{
    let chars = crate::text::chars_of(answer);
    if chars.len() == 0 {
        false
    } else {
        chars[0] == 'y' || chars[0] == 'Y'
    }
}

} // verus!
