use trace_archiver::db::tdengine::{build_statement, build_strings, reset_database_statements};
use trace_archiver::db::envfile::{write_file, EnvOptions};
use trace_archiver::db::error::{MessageError, SettingError};
use trace_archiver::db::framedata::{test_channels, FrameData, FrameError};
use trace_archiver::db::redpanda_engine::{check_payload, new_builder_from_optional};

use trace_archiver::db::tdengine_login::{parse_port, TDEngineLogin};
use trace_archiver::message::{ChannelTrace, FrameMetadata, TraceMessage};

fn message(timestamp: Option<i64>, sample_rate: u64, channels: Option<Vec<ChannelTrace>>) -> TraceMessage {
    TraceMessage {
        digitizer_id: 3,
        metadata: FrameMetadata {
            frame_number: 42,
            period_number: 0,
            protons_per_pulse: 0,
            running: true,
            timestamp,
            veto_flags: 0,
        },
        sample_rate,
        channels,
    }
}

fn channel(id: u32, samples: Option<Vec<u16>>) -> ChannelTrace {
    ChannelTrace { channel: id, voltage: samples }
}

#[test]
fn channels_are_checked() {
    assert_eq!(test_channels(&message(Some(0), 1, None)), Err(FrameError::NoChannelData));
    assert_eq!(test_channels(&message(Some(0), 1, Some(vec![]))), Err(FrameError::ZeroChannels));
    let chans = vec![channel(5, Some(vec![1])), channel(6, None), channel(7, None)];
    assert_eq!(test_channels(&message(Some(0), 1, Some(chans))), Err(FrameError::MissingIntensities(6)));
    assert_eq!(test_channels(&message(Some(0), 1, Some(vec![channel(1, Some(vec![]))]))), Ok(()));
}

#[test]
fn frame_data_init() {
    let mut f = FrameData::default();
    f.set_channel_count(2);
    let ok = message(Some(1_000), 1_000_000, Some(vec![channel(0, Some(vec![1, 2, 3])), channel(1, Some(vec![4, 5, 6]))]));
    assert_eq!(f.init(&ok), Ok(()));
    assert_eq!(f.timestamp, 1_000);
    assert_eq!(f.digitizer_id, 3);
    assert_eq!(f.frame_number, 42);
    assert_eq!(f.sample_time, 1_000);
    assert_eq!(f.num_samples, 3);
    assert_eq!(f.calc_measurement_time(5), 6_000);

    let mut g = FrameData::default();
    assert_eq!(g.init(&message(None, 1, None)), Err(FrameError::NoTimestamp));
    assert_eq!(g, FrameData::default());
    assert_eq!(g.init(&message(Some(1), 0, None)), Err(FrameError::SampleRateZero));
    assert_eq!(g.init(&message(Some(1), 2_000_000_000, None)), Err(FrameError::SampleTimeZero));
    assert_eq!(g.init(&message(Some(1), 10, None)), Err(FrameError::NoChannelData));
    assert_eq!(g.sample_time, 100_000_000);
}

#[test]
fn frame_data_counts() {
    let mut f = FrameData::default();
    f.set_channel_count(3);
    let short = message(Some(1), 10, Some(vec![channel(0, Some(vec![1, 2])), channel(9, Some(vec![1]))]));
    assert_eq!(f.init(&short), Err(FrameError::SampleCountMismatch(9, 1, 2)));
    let few = message(Some(1), 10, Some(vec![channel(0, Some(vec![1, 2])), channel(9, Some(vec![1, 2]))]));
    assert_eq!(f.init(&few), Err(FrameError::ChannelCountMismatch(2, 3)));
}

#[test]
fn channel_sql_strings() {
    let mut f = FrameData::default();
    f.set_channel_count(2);
    let msg = message(Some(5), 1_000_000_000, Some(vec![channel(0, Some(vec![7, 8])), channel(1, Some(vec![9]))]));
    f.init(&msg).unwrap_err();
    f.num_samples = 2;
    let mut name = String::new();
    f.table_name(&mut name, 4);
    assert_eq!(name, "d3c4");
    let mut tags = String::new();
    f.sql_tags(&mut tags, 4);
    assert_eq!(tags, "(3, 4, 42)");
    let s = f.create_channel_sql_string("INSERT INTO".to_string(), "tracelogs", &channel(1, Some(vec![7, 8])));
    assert_eq!(s, "INSERT INTO tracelogs.d3c1 USING tracelogs.template TAGS (3, 1, 42) VALUES (5, 7) (6, 8)");
    let all = build_strings(&f, "db", &msg);
    assert_eq!(all.len(), 2);
    assert_eq!(all[1], "INSERT INTO db.d3c1 USING db.template TAGS (3, 1, 42) VALUES (5, 9)");
    let none = f.create_channel_sql_string("X".to_string(), "db", &channel(2, None));
    assert_eq!(none, "X db.d3c2 USING db.template TAGS (3, 2, 42) VALUES");
}

#[test]
fn env_file_text() {
    let defaults = EnvOptions {
        kafka_broker_url: None,
        kafka_broker_port: None,
        kafka_username: None,
        kafka_password: None,
        kafka_consumer_group: None,
        kafka_trace_topic: None,
        td_broker_url: None,
        td_broker_port: None,
        td_username: None,
        td_password: None,
        td_database: None,
        td_num_channels: None,
    };
    let text = write_file(&defaults);
    assert_eq!(
        text,
        "TDENGINE_URL = taos://localhost\nTDENGINE_PORT = 6030\nTDENGINE_DATABASE = tracelogs\nTDENGINE_NUM_CHANNELS = 8\nTDENGINE_USER = user\nTDENGINE_PASSWORD = password\n\n\nREDPANDA_URL = localhost\nREDPANDA_PORT = 19092\nREDPANDA_USER = user\nREDPANDA_PASSWORD = password\nREDPANDA_CONSUMER_GROUP = \nREDPANDA_TOPIC_SUBSCRIBE = MyTopic\n\n\nBENCHMARK_DELAY = 0\nBENCHMARK_REPEATS = 80\nBENCHMARK_NUM_MESSAGES_RANGE = 1:1:1\nBENCHMARK_NUM_CHANNELS_RANGE = 8:8:1\nBENCHMARK_NUM_SAMPLES_RANGE = 10000:10000:1\n"
    );
    let given = EnvOptions {
        td_broker_port: Some(7000),
        td_database: Some("mydb".to_string()),
        td_num_channels: Some(16),
        ..defaults
    };
    let text = write_file(&given);
    assert!(text.starts_with("TDENGINE_URL = taos://localhost\n7000\nmydb\n16\n"));
}

#[test]
fn broker_settings() {
    let s = |v: &str| Some(v.to_string());
    assert_eq!(
        new_builder_from_optional(None, Some(1), s("u"), s("p"), s("g")).err(),
        Some(SettingError::EnvVar("REDPANDA_URL"))
    );
    assert_eq!(
        new_builder_from_optional(s("h"), None, s("u"), s("p"), s("g")).err(),
        Some(SettingError::EnvVar("REDPANDA_PORT"))
    );
    assert_eq!(
        new_builder_from_optional(s("h"), Some(1), None, s("p"), s("g")).err(),
        Some(SettingError::EnvVar("REDPANDA_USER"))
    );
    assert_eq!(
        new_builder_from_optional(s("h"), Some(1), s("u"), None, s("g")).err(),
        Some(SettingError::EnvVar("REDPANDA_PASSWORD"))
    );
    assert_eq!(
        new_builder_from_optional(s("h"), Some(1), s("u"), s("p"), None).err(),
        Some(SettingError::EnvVar("REDPANDA_CONSUMER_GROUP"))
    );
    let b = new_builder_from_optional(s("localhost"), Some(19092), s("u"), s("p"), s("grp")).unwrap();
    assert_eq!(b.bootstrap_servers, "localhost:19092");
    assert_eq!(b.creation_timeout_ms, 3000);
    assert_eq!(b.group_id, s("grp"));
    let b = new_builder_from_optional(s("h"), Some(2), s("u"), s("p"), s("")).unwrap();
    assert_eq!(b.group_id, None);
}

#[test]
fn payload_checks() {
    let trace = [0u8, 0, 0, 0, b'd', b'a', b't', b'1', 9];
    let other = [0u8, 0, 0, 0, b'd', b'a', b't', b'2'];
    assert!(check_payload(Some(&trace), "t").is_ok());
    assert!(matches!(check_payload(Some(&other), "t"), Err(MessageError::NoIdentifier(t)) if t == "t"));
    assert!(matches!(check_payload(None, "top"), Err(MessageError::NoPayload(t)) if t == "top"));
}

#[test]
fn tdengine_login() {
    assert_eq!(parse_port("6030"), Some(6030));
    assert_eq!(parse_port("4294967295"), Some(u32::MAX));
    assert_eq!(parse_port("4294967296"), None);
    assert_eq!(parse_port("60x"), None);
    let l = TDEngineLogin::from_values("taos://host".to_string(), 6030, "u".to_string(), "p".to_string(), "db".to_string());
    assert_eq!(l.get_url(), "taos://host:6030");
    assert_eq!(l.get_database(), "db");
    let given = TDEngineLogin::from_optional(
        &Some("taos://h".to_string()),
        &Some(1),
        &Some("user".to_string()),
        &Some("pw".to_string()),
        &Some("base".to_string()),
    )
    .unwrap();
    assert_eq!(given.get_url(), "taos://h:1");
    assert_eq!(given.get_database(), "base");
}

#[test]
fn prepared_statement_plan() {
    let mut f = FrameData::default();
    f.set_channel_count(2);
    let msg = message(Some(100), 100_000_000, Some(vec![channel(4, Some(vec![7, 8, 9])), channel(5, Some(vec![1]))]));
    f.init(&msg).unwrap_err();
    let plan = build_statement(&f, &msg);
    assert_eq!(plan.sql, "INSERT INTO ? USING template TAGS(?) VALUES(?, ?)");
    assert_eq!(plan.frame_number, 42);
    assert_eq!(plan.timestamps, vec![100, 110, 120]);
    assert_eq!(plan.tables, vec![("d3c4".to_string(), vec![7, 8, 9]), ("d3c5".to_string(), vec![1])]);
    let (drop, create, stable) = reset_database_statements("tracelogs");
    assert_eq!(drop, "DROP DATABASE IF EXISTS tracelogs");
    assert_eq!(create, "CREATE DATABASE IF NOT EXISTS tracelogs PRECISION 'ns'");
    assert_eq!(stable, "CREATE STABLE IF NOT EXISTS tracelogs.template (ts TIMESTAMP, intensity SMALLINT UNSIGNED) TAGS (detector_id TINYINT UNSIGNED, channel_number INT UNSIGNED, frame_number INT UNSIGNED)");
}

#[test]
fn tdengine_login_from_texts() {
    let l = TDEngineLogin::from_texts("taos://h".to_string(), "6030", "u".to_string(), "p".to_string(), "db".to_string());
    assert_eq!(l.get_url(), "taos://h:6030");
    assert_eq!(l.get_database(), "db");
}

#[test]
fn tdengine_login_from_variables() {
    let s = |t: &str| Some(t.to_string());
    let l = TDEngineLogin::from_variables(s("taos://h"), s("6030"), s("db"), s("u"), s("p")).unwrap();
    assert_eq!(l.get_url(), "taos://h:6030");
    assert_eq!(l.get_database(), "db");
    assert!(TDEngineLogin::from_variables(s("taos://h"), None, s("db"), s("u"), s("p")).is_none());
    assert!(TDEngineLogin::from_variables(s("taos://h"), s("6030"), s("db"), s("u"), None).is_none());
}

#[test]
fn tdengine_login_from_values_or_variables() {
    let s = |t: &str| Some(t.to_string());
    let l = TDEngineLogin::from_values_or_variables(
        &None, &None, &None, &s("pw"), &None,
        s("taos://e"), s("6041"), s("env_user"), s("env_pw"), s("env_db"),
    )
    .unwrap();
    assert_eq!(l.get_url(), "taos://e:6041");
    assert_eq!(l.get_database(), "env_db");
    let l = TDEngineLogin::from_values_or_variables(
        &s("taos://g"), &Some(7), &s("u"), &s("p"), &s("d"),
        None, s("not a port"), None, None, None,
    )
    .unwrap();
    assert_eq!(l.get_url(), "taos://g:7");
    assert_eq!(l.get_database(), "d");
    assert!(TDEngineLogin::from_values_or_variables(
        &s("taos://g"), &None, &s("u"), &s("p"), &s("d"),
        None, s("60x"), None, None, None,
    )
    .is_none());
    assert!(TDEngineLogin::from_values_or_variables(
        &s("taos://g"), &Some(7), &s("u"), &s("p"), &None,
        None, None, s("u2"), s("p2"), None,
    )
    .is_none());
}
