use trace_archiver::message::{copy_samples, max_channel_samples, ChannelTrace};
use trace_archiver::payload::{is_run_start, is_run_stop, is_trace_v1, is_trace_v2};
use trace_archiver::server::{cli_structs, structs};
use trace_archiver::text::{
    chars_of, decimal_string, parse_unsigned, push_chars, push_signed_decimal, push_wide_decimal,
    split_chars, string_from_chars,
};

fn chars(s: &str) -> Vec<char> {
    s.chars().collect()
}

#[test]
fn decimal_rendering() {
    assert_eq!(decimal_string(0), "0");
    assert_eq!(decimal_string(1_234_567), "1234567");
    assert_eq!(decimal_string(u64::MAX), u64::MAX.to_string());
    let mut s = String::from("x=");
    push_signed_decimal(&mut s, -42);
    assert_eq!(s, "x=-42");
    let mut s = String::new();
    push_signed_decimal(&mut s, i64::MIN);
    assert_eq!(s, i64::MIN.to_string());
    let mut s = String::new();
    push_wide_decimal(&mut s, u128::MAX);
    assert_eq!(s, u128::MAX.to_string());
}

#[test]
fn decimal_parsing() {
    assert_eq!(parse_unsigned(&chars("0"), 10), Some(0));
    assert_eq!(parse_unsigned(&chars("+17"), 100), Some(17));
    assert_eq!(parse_unsigned(&chars("101"), 100), None);
    assert_eq!(parse_unsigned(&chars(""), 100), None);
    assert_eq!(parse_unsigned(&chars("+"), 100), None);
    assert_eq!(parse_unsigned(&chars("-1"), 100), None);
    assert_eq!(parse_unsigned(&chars("1 "), 100), None);
    assert_eq!(parse_unsigned(&chars("18446744073709551615"), u64::MAX), Some(u64::MAX));
    assert_eq!(parse_unsigned(&chars("18446744073709551616"), u64::MAX), None);
    for n in [0u64, 7, 10, 999, 123_456_789] {
        assert_eq!(parse_unsigned(&chars(&decimal_string(n)), u64::MAX), Some(n));
    }
}

#[test]
fn splitting_and_joining() {
    let parts = split_chars(&chars("a::bc:"), ':');
    let parts: Vec<String> = parts.iter().map(string_from_chars).collect();
    assert_eq!(parts, vec!["a", "", "bc", ""]);
    assert_eq!(split_chars(&chars(""), ':').len(), 1);
    assert_eq!(chars_of("héllo"), chars("héllo"));
    let mut s = String::from("ab");
    push_chars(&mut s, &chars("cd"));
    assert_eq!(s, "abcd");
}

#[test]
fn payload_identifiers() {
    let p = |id: &[u8; 4]| {
        let mut b = vec![0u8, 0, 0, 0];
        b.extend_from_slice(id);
        b
    };
    assert!(is_trace_v1(&p(b"dat1")));
    assert!(!is_trace_v1(&p(b"dat2")));
    assert!(is_trace_v2(&p(b"dat2")));
    assert!(is_run_start(&p(b"pl72")));
    assert!(is_run_stop(&p(b"6s4t")));
    assert!(!is_run_stop(&p(b"pl72")));
}

#[test]
fn channel_samples() {
    let chans = vec![
        ChannelTrace { channel: 0, voltage: Some(vec![1, 2]) },
        ChannelTrace { channel: 1, voltage: None },
        ChannelTrace { channel: 2, voltage: Some(vec![3, 4, 5]) },
    ];
    assert_eq!(max_channel_samples(&chans), 3);
    assert_eq!(max_channel_samples(&vec![]), 0);
    assert_eq!(copy_samples(&vec![4, 5, 6]), vec![4, 5, 6]);
}

#[test]
fn server_settings() {
    let t = structs::Topics::default();
    assert!(t.trace_topic.is_empty());
    assert!(t.digitiser_event_topic.is_empty());
    assert!(structs::Select::default().timestamp.is_none());
    let c = cli_structs::Topics { trace_topic: "traces".to_string(), digitiser_event_topic: "events".to_string() };
    assert_eq!(c.clone().trace_topic, "traces");
    let s = cli_structs::Select { timestamp: Some(5) };
    assert_eq!(s.timestamp, Some(5));
}

#[test]
fn server_search_settings() {
    assert_eq!(structs::SearchMode::default().label(), "From Timestamp");
    assert_eq!(structs::SearchBy::default().label(), "By Channels");
    assert_eq!(structs::SearchBy::ByDigitiserIds.label(), "By Digitiser Ids");
    let info = structs::BrokerTopicInfo { offsets: (10, 25), timestamps: (0, 1) };
    assert_eq!(info.count(), 15);
    let target = structs::SearchTarget {
        mode: structs::SearchTargetMode::Timestamp { timestamp: 5 },
        by: structs::SearchTargetBy::ByChannels { channels: vec![1, 2] },
        number: 3,
    };
    assert_eq!(target.number, 3);
}
