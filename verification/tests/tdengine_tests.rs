use trace_archiver::message::{ChannelTrace, FrameMetadata, TraceMessage};
use trace_archiver::tdengine::envfile::{env_file_contents, is_confirmation, EnvFileOptions};
use trace_archiver::tdengine::error::{EVError, TDEngineError, TraceMessageErrorCode};
use trace_archiver::tdengine::error_reporter::{count_channel_id, ErrorCode, TDEngineErrorReporter};
use trace_archiver::tdengine::framedata::{sample_time_from_rate, FrameData};
use trace_archiver::tdengine::tdengine_login::TDEngineLogin;
use trace_archiver::tdengine::views::{create_voltage_values_from_channel_trace, zeros};
use trace_archiver::tdengine::wrapper::{
    create_database_sql, insert_frame_statement_sql, tdengine_url, TraceRecorder,
};

const SAMPLES: usize = 16;

fn channels(n: usize) -> Vec<ChannelTrace> {
    (0..n)
        .map(|c| ChannelTrace { channel: c as u32, voltage: Some((0..SAMPLES as u16).map(|v| v + 1).collect()) })
        .collect()
}

fn message(chans: Option<Vec<ChannelTrace>>, timestamp: Option<i64>) -> TraceMessage {
    TraceMessage {
        digitizer_id: 7,
        metadata: FrameMetadata {
            frame_number: 5,
            period_number: 0,
            protons_per_pulse: 0,
            running: true,
            timestamp,
            veto_flags: 0,
        },
        sample_rate: 1_000_000_000,
        channels: chans,
    }
}

fn recorder(num_channels: usize) -> TraceRecorder {
    let mut r = TraceRecorder::new("test_database".to_string());
    r.init_with_channel_count(num_channels);
    r
}

#[test]
fn statements_for_a_channel_count() {
    let mut r = TraceRecorder::new("db".to_string());
    let s = r.init_with_channel_count(2);
    assert_eq!(
        s.supertable,
        "CREATE STABLE IF NOT EXISTS db.template (ts TIMESTAMP, c0 SMALLINT UNSIGNED, c1 SMALLINT UNSIGNED) TAGS (digitizer_id TINYINT UNSIGNED)"
    );
    assert_eq!(
        s.frame_supertable,
        "CREATE STABLE IF NOT EXISTS db.frame_template (frame_ts TIMESTAMP, sample_count INT UNSIGNED, sampling_rate INT UNSIGNED, frame_number INT UNSIGNED, error_code INT UNSIGNED, cid0 INT UNSIGNED, cid1 INT UNSIGNED) TAGS (digitizer_id TINYINT UNSIGNED)"
    );
    assert_eq!(s.statement, "INSERT INTO ? USING db.template TAGS (?) VALUES (?, ?, ?)");
    assert_eq!(s.frame_statement, "INSERT INTO ? USING db.frame_template TAGS (?) VALUES (?, ?, ?, ?, ?, ?, ?)");
    assert_eq!(insert_frame_statement_sql("x", 0), "INSERT INTO ? USING x.frame_template TAGS (?) VALUES (?, ?, ?, ?, ?)");
    assert_eq!(create_database_sql("tracelogs"), "CREATE DATABASE IF NOT EXISTS tracelogs PRECISION 'ns'");
}

#[test]
fn test_create_insert() {
    let mut r = recorder(4);
    let p = r.process_message(&message(Some(channels(4)), Some(1_000))).unwrap();
    assert_eq!(p.table_name, "test_database.d7");
    assert_eq!(p.frame_table_name, "test_database.m7");
    assert_eq!(p.digitizer_id, 7);
    assert_eq!(p.column_views.timestamps.len(), SAMPLES);
    assert_eq!(p.column_views.timestamps[3], 1_003);
    assert_eq!(p.column_views.channels.len(), 4);
    assert_eq!(p.frame_column_views.frame_timestamp, 1_000);
    assert_eq!(p.frame_column_views.sample_count, SAMPLES as u32);
    assert_eq!(p.frame_column_views.sampling_rate, 1_000_000_000);
    assert_eq!(p.frame_column_views.frame_number, 5);
    assert_eq!(p.frame_column_views.error_code, 0);
    assert_eq!(p.frame_column_views.channel_ids, vec![0, 1, 2, 3]);
    assert!(!r.error.has_error());
    assert!(r.error.reports().is_empty());
}

#[test]
fn test_create_insert_critical_malformed() {
    let mut r = recorder(4);
    let res = r.process_message(&message(None, None));
    assert!(matches!(res, Err(TDEngineError::TraceMessage(TraceMessageErrorCode::TimestampMissing))));
    assert_eq!(r.error.reports(), &vec!["Channels missing".to_string(), "Timestamp missing".to_string()]);
    assert_eq!(r.error.error_code(), ErrorCode::MissingChannels.value() | ErrorCode::MissingTimestamp.value());
}

#[test]
fn test_create_insert_malformed_missing_voltage() {
    let mut r = recorder(4);
    let mut chans = channels(4);
    chans[0].voltage = None;
    let p = r.process_message(&message(Some(chans), Some(0))).unwrap();
    assert_eq!(r.error.reports(), &vec!["Channel at index 0 has voltages null".to_string()]);
    assert_eq!(p.frame_column_views.error_code, 32);
    assert_eq!(p.column_views.channels[0], vec![0; SAMPLES]);
}

#[test]
fn test_create_insert_malformed_truncated_voltages() {
    let mut r = recorder(4);
    let mut chans = channels(4);
    chans[0].voltage.as_mut().unwrap().truncate(SAMPLES / 2);
    let p = r.process_message(&message(Some(chans), Some(0))).unwrap();
    assert_eq!(r.error.reports(), &vec![format!("Channel at index 0 has incorrect sample count of {0}", SAMPLES / 2)]);
    let col = &p.column_views.channels[0];
    assert_eq!(col.len(), SAMPLES);
    assert_eq!(col[SAMPLES / 2 - 1], (SAMPLES / 2) as u16);
    assert_eq!(col[SAMPLES / 2], 0);
}

#[test]
fn test_create_insert_and_count_insufficient_channels() {
    let mut r = recorder(4);
    let p = r.process_message(&message(Some(channels(2)), Some(0))).unwrap();
    assert_eq!(r.error.reports(), &vec!["Number of channels 2 insuffient, should be 4".to_string()]);
    assert_eq!(p.frame_column_views.error_code, ErrorCode::NumChannelsIncorrect.value());
    assert_eq!(p.frame_column_views.channel_ids, vec![0, 1, 0, 0]);
    assert_eq!(p.column_views.channels[3], vec![0; SAMPLES]);
}

#[test]
fn test_create_insert_and_count_excess_channels() {
    let mut r = recorder(4);
    let p = r.process_message(&message(Some(channels(8)), Some(0))).unwrap();
    assert_eq!(r.error.reports(), &vec!["Number of channels 8 too large, only the first 4 channels retained".to_string()]);
    assert_eq!(p.frame_column_views.channel_ids, vec![0, 1, 2, 3]);
    assert_eq!(p.column_views.channels.len(), 4);
}

#[test]
fn test_create_insert_and_count_weird_but_unique_channel_id() {
    let mut r = recorder(4);
    let mut chans = channels(4);
    for (c, id) in chans.iter_mut().zip([156, 36, 136, 6636]) {
        c.channel = id;
    }
    let p = r.process_message(&message(Some(chans), Some(0))).unwrap();
    assert!(r.error.reports().is_empty());
    assert_eq!(p.frame_column_views.error_code, 0);
    assert_eq!(p.frame_column_views.channel_ids, vec![156, 36, 136, 6636]);
}

#[test]
fn test_create_insert_and_count_duplicate_channel_id() {
    let mut r = recorder(4);
    let mut chans = channels(4);
    for (c, id) in chans.iter_mut().zip([56, 9, 66, 66]) {
        c.channel = id;
    }
    let p = r.process_message(&message(Some(chans), Some(0))).unwrap();
    assert_eq!(
        r.error.reports(),
        &vec![
            "Channel at index 2 has duplicate channel identifier of 66".to_string(),
            "Channel at index 3 has duplicate channel identifier of 66".to_string(),
        ]
    );
    assert_eq!(p.frame_column_views.error_code, ErrorCode::DuplicateChannelIds.value());
}

#[test]
fn test_catastrophic() {
    let mut r = recorder(4);
    let mut chans = channels(7);
    chans[0].channel = 56;
    chans[1].channel = 66;
    chans[3].channel = 66;
    chans[2].voltage.as_mut().unwrap().truncate(SAMPLES / 2);
    chans[1].voltage = None;
    let p = r.process_message(&message(Some(chans), Some(0))).unwrap();
    let expected = vec![
        "Channel at index 1 has duplicate channel identifier of 66".to_string(),
        "Channel at index 3 has duplicate channel identifier of 66".to_string(),
        "Number of channels 7 too large, only the first 4 channels retained".to_string(),
        "Channel at index 1 has voltages null".to_string(),
        format!("Channel at index 2 has incorrect sample count of {0}", SAMPLES / 2),
    ];
    assert_eq!(r.error.reports().len(), expected.len());
    for report in r.error.reports() {
        assert!(expected.contains(report));
    }
    assert_eq!(
        p.frame_column_views.error_code,
        ErrorCode::DuplicateChannelIds.value()
            | ErrorCode::NumChannelsIncorrect.value()
            | ErrorCode::ChannelVoltagesMissing.value()
            | ErrorCode::NumSamplesIncorrect.value()
    );
    assert_eq!(p.frame_column_views.channel_ids, vec![56, 66, 2, 66]);
}

#[test]
fn reporter_code_and_flag() {
    let mut e = TDEngineErrorReporter::new();
    assert!(!e.has_error());
    assert_eq!(e.error_code(), 0);
    e.report_error(ErrorCode::NumSamplesIncorrect, "a".to_string());
    e.report_error(ErrorCode::NumSamplesIncorrect, "b".to_string());
    assert!(e.has_error());
    assert_eq!(e.error_code(), 16);
    assert_eq!(e.reports().len(), 2);
    assert_eq!(count_channel_id(&channels(3), 1), 1);
    assert_eq!(count_channel_id(&channels(3), 9), 0);
}

#[test]
fn frame_data_and_views() {
    assert_eq!(sample_time_from_rate(1_000), 1_000_000);
    assert_eq!(sample_time_from_rate(-3), -333_333_333);
    let mut f = FrameData::default();
    assert!(matches!(
        f.init(&message(Some(channels(1)), None)),
        Err(TDEngineError::TraceMessage(TraceMessageErrorCode::TimestampMissing))
    ));
    let mut m = message(Some(channels(1)), Some(10));
    m.sample_rate = 0;
    assert!(matches!(f.init(&m), Err(TDEngineError::TraceMessage(TraceMessageErrorCode::SampleRateZero))));
    m.sample_rate = 3_000_000_000;
    assert!(matches!(f.init(&m), Err(TDEngineError::TraceMessage(TraceMessageErrorCode::SampleTimeZero))));
    m.sample_rate = 4_294_967_295;
    assert!(f.init(&m).is_ok());
    assert_eq!(f.sample_time, -1_000_000_000);
    assert_eq!(f.get_table_name(), "d7");
    assert_eq!(f.get_frame_table_name(), "m7");
    assert_eq!(zeros(3), vec![0, 0, 0]);
    f.num_samples = 3;
    let short = ChannelTrace { channel: 0, voltage: Some(vec![9]) };
    assert_eq!(create_voltage_values_from_channel_trace(&f, &short), vec![9, 0, 0]);
    let long = ChannelTrace { channel: 0, voltage: Some(vec![1, 2, 3, 4, 5]) };
    assert_eq!(create_voltage_values_from_channel_trace(&f, &long), vec![1, 2, 3]);
    let none = ChannelTrace { channel: 0, voltage: None };
    assert_eq!(create_voltage_values_from_channel_trace(&f, &none), vec![0, 0, 0]);
}

#[test]
fn login_and_url() {
    assert_eq!(tdengine_url("host:6041", &None, &Some("p".to_string())), "taos+ws://host:6041");
    assert_eq!(tdengine_url("h", &Some("u".to_string()), &Some("p".to_string())), "taos+ws://h@u:p");
    let l = TDEngineLogin::from_optional(Some("h".to_string()), None, None, Some("db".to_string())).unwrap();
    assert_eq!(l.get_url(), "taos+ws://h");
    assert_eq!(l.get_database(), "db");
    assert!(matches!(
        TDEngineLogin::from_optional(None, None, None, Some("db".to_string())),
        Err(EVError::NotFound("TDEngine Broker"))
    ));
    assert!(matches!(
        TDEngineLogin::from_optional(Some("h".to_string()), None, None, None),
        Err(EVError::NotFound("TDEngine Database"))
    ));
}

#[test]
fn env_file() {
    let o = EnvFileOptions {
        td_broker: None,
        td_database: Some("logs".to_string()),
        td_num_channels: Some(4),
        td_username: None,
        td_password: None,
        kafka_broker: None,
        kafka_username: None,
        kafka_password: None,
        kafka_consumer_group: "grp".to_string(),
        kafka_topic: None,
    };
    let text = env_file_contents(&o);
    assert!(text.starts_with("TDENGINE_BROKER = localhost:6041\nTDENGINE_DATABASE = logs\nTDENGINE_NUM_CHANNELS = 4\n"));
    assert!(text.contains("KAFKA_CONSUMER_GROUP = grp\n"));
    assert!(text.ends_with("BENCHMARK_NUM_SAMPLES_RANGE = 10000:10000:1\n"));
    assert!(is_confirmation("y"));
    assert!(is_confirmation("Yes"));
    assert!(!is_confirmation("n"));
    assert!(!is_confirmation(""));
}

#[test]
fn missing_channel_list_stops_processing() {
    let mut r = recorder(2);
    let res = r.process_message(&message(None, Some(5)));
    assert!(matches!(res, Err(TDEngineError::TraceMessage(TraceMessageErrorCode::ChannelDataNull))));
    assert_eq!(r.error.reports(), &vec!["Channels missing".to_string()]);
    assert_eq!(r.error.error_code(), ErrorCode::MissingChannels.value());
}

#[test]
fn process_message_names_each_frame_error() {
    let mut r = recorder(2);
    let mut m = message(Some(channels(2)), Some(5));
    m.sample_rate = 0;
    assert!(matches!(r.process_message(&m), Err(TDEngineError::TraceMessage(TraceMessageErrorCode::SampleRateZero))));
    m.sample_rate = 3_000_000_000;
    assert!(matches!(r.process_message(&m), Err(TDEngineError::TraceMessage(TraceMessageErrorCode::SampleTimeZero))));
    m.sample_rate = 1_000;
    assert!(r.process_message(&m).is_ok());
}

#[test]
fn reports_accumulate_in_order() {
    let mut e = TDEngineErrorReporter::new();
    e.report_error(ErrorCode::MissingTimestamp, "t".to_string());
    e.report_error(ErrorCode::DuplicateChannelIds, "d".to_string());
    assert_eq!(e.error_code(), 2 | 8);
    e.report_error(ErrorCode::MissingTimestamp, "t again".to_string());
    assert_eq!(e.error_code(), 2 | 8);
    assert_eq!(e.reports(), &vec!["t".to_string(), "d".to_string(), "t again".to_string()]);
    assert!(e.has_error());
}
