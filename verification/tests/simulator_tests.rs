use std::ops::RangeInclusive;

use chrono::{NaiveDate, TimeZone, Utc};
use trace_archiver::common::{Channel, DigitizerId, FrameNumber, Timestamp};
use trace_archiver::message::{FrameMetadata, TraceMessage};
use trace_archiver::simulator::{
    create_channel, create_message, create_message_with_now, create_partly_random_message,
    create_random_message, create_random_message_with_now, creation_report,
};

fn empty_message() -> TraceMessage {
    TraceMessage {
        digitizer_id: 0,
        metadata: FrameMetadata {
            frame_number: 0,
            period_number: 0,
            protons_per_pulse: 0,
            running: false,
            timestamp: None,
            veto_flags: 0,
        },
        sample_rate: 0,
        channels: None,
    }
}

/// The time 2022, day 205, 10:55:30 and 1005 nanoseconds, in nanoseconds since the epoch.
fn gps_time() -> Timestamp {
    let date = NaiveDate::from_yo_opt(2022, 205).unwrap();
    let at = date.and_hms_nano_opt(10, 55, 30, 1_005).unwrap();
    Utc.from_utc_datetime(&at).timestamp_nanos_opt().unwrap()
}

#[test]
fn mod_test_basic() {
    let timestamp = gps_time();
    let digitizer_id = 2;
    let frame_number = 495;
    let num_time_points = 20;
    let num_channels = 4;

    let mut msg = empty_message();
    let string = create_message(&mut msg, timestamp, frame_number, digitizer_id, num_time_points, num_channels).unwrap();
    assert_eq!(string, format!("New message created for digitizer {digitizer_id}, frame number {frame_number}, and has {num_channels} channels, and {num_time_points} measurements."));

    assert_eq!(msg.digitizer_id, digitizer_id);
    assert!(msg.metadata.timestamp.is_some());
    assert_eq!(msg.metadata.timestamp, Some(timestamp));
    assert_eq!(msg.metadata.frame_number, frame_number);
    assert!(msg.channels.is_some());
    assert_eq!(msg.channels.as_ref().unwrap().len(), num_channels);
    let channels = msg.channels.unwrap();
    for (i, c) in channels.iter().enumerate() {
        assert_eq!(c.channel, i as Channel);
        assert!(c.voltage.is_some());
        assert_eq!(c.voltage.as_ref().unwrap().len(), num_time_points);
    }
}

#[test]
fn test_basic_with_now() {
    let digitizer_id = 2;
    let frame_number = 495;
    let num_time_points = 20;
    let num_channels = 4;

    let mut msg = empty_message();
    let string = create_message_with_now(&mut msg, frame_number, digitizer_id, num_time_points, num_channels).unwrap();
    assert_eq!(string, format!("New message created for digitizer {digitizer_id}, frame number {frame_number}, and has {num_channels} channels, and {num_time_points} measurements."));

    assert_eq!(msg.digitizer_id, digitizer_id);
    assert!(msg.metadata.timestamp.is_some());
    assert_eq!(msg.metadata.frame_number, frame_number);
    assert!(msg.channels.is_some());
    assert_eq!(msg.channels.as_ref().unwrap().len(), num_channels);
    let channels = msg.channels.unwrap();
    for (i, c) in channels.iter().enumerate() {
        assert_eq!(c.channel, i as Channel);
        assert!(c.voltage.is_some());
        assert_eq!(c.voltage.as_ref().unwrap().len(), num_time_points);
    }
}

#[test]
fn test_random() {
    let timestamp = gps_time();
    let digitizer_id: RangeInclusive<DigitizerId> = 0..=24;
    let frame_number: RangeInclusive<FrameNumber> = 0..=495;
    let num_time_points: RangeInclusive<usize> = 10..=30;
    let num_channels: RangeInclusive<usize> = 4..=8;

    let mut msg = empty_message();
    let _string = create_random_message(&mut msg, timestamp, frame_number.clone(), digitizer_id.clone(), num_time_points.clone(), num_channels.clone()).unwrap();

    assert!(digitizer_id.contains(&msg.digitizer_id));
    assert!(msg.metadata.timestamp.is_some());
    assert!(frame_number.contains(&msg.metadata.frame_number));
    assert!(msg.channels.is_some());
    let channels = msg.channels.unwrap();
    assert!(num_channels.contains(&channels.len()));
    for (i, c) in channels.iter().enumerate() {
        assert_eq!(c.channel, i as Channel);
        assert!(c.voltage.is_some());
        assert!(num_time_points.contains(&c.voltage.as_ref().unwrap().len()));
    }
}

#[test]
fn simulated_metadata_is_fixed() {
    let mut msg = empty_message();
    create_message(&mut msg, -5, 7, 9, 0, 0).unwrap();
    assert_eq!(msg.metadata.period_number, 0);
    assert_eq!(msg.metadata.protons_per_pulse, 0);
    assert!(msg.metadata.running);
    assert_eq!(msg.metadata.veto_flags, 0);
    assert_eq!(msg.sample_rate, 1_000_000_000);
    assert_eq!(msg.channels.unwrap().len(), 0);
}

#[test]
fn partly_random_stays_in_its_ranges() {
    for _ in 0..20 {
        let mut msg = empty_message();
        let report = create_partly_random_message(&mut msg, 1, 5..=5, 3..=4, 2, 1).unwrap();
        assert_eq!(msg.metadata.frame_number, 5);
        assert!(msg.digitizer_id == 3 || msg.digitizer_id == 4);
        assert_eq!(report, creation_report(msg.digitizer_id, 5, 1, 2));
    }
    let mut msg = empty_message();
    create_random_message_with_now(&mut msg, 1..=1, 2..=2, 3..=3, 4..=4).unwrap();
    assert_eq!(msg.metadata.frame_number, 1);
    assert_eq!(msg.digitizer_id, 2);
    let channels = msg.channels.unwrap();
    assert_eq!(channels.len(), 4);
    assert!(channels.iter().all(|c| c.voltage.as_ref().unwrap().len() == 3));
}

#[test]
fn simulated_channel() {
    let c = create_channel(12, 5);
    assert_eq!(c.channel, 12);
    assert_eq!(c.voltage.unwrap().len(), 5);
}

#[test]
fn random_draws_spread_over_the_range() {
    let mut seen = std::collections::BTreeSet::new();
    for _ in 0..200 {
        let mut msg = empty_message();
        create_partly_random_message(&mut msg, 0, 0..=1000, 0..=255, 0, 0).unwrap();
        seen.insert(msg.metadata.frame_number);
    }
    assert!(seen.len() > 1);
    assert!(seen.iter().all(|f| *f <= 1000));
}
