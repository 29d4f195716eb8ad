use trace_archiver::hdf5::control::{generate_filename, FilenameError};
use chrono::{NaiveDate, TimeZone, Utc};
use trace_archiver::common::{channel_index, Intensity, Timestamp, CHANNELS_PER_DIGITIZER};
use trace_archiver::hdf5::base::{split_timestamp, BaseFile};
use trace_archiver::hdf5::control::{classify_message, control_action, ControlAction, MessageKind};
use trace_archiver::hdf5::frame_file::{plan_frame_file, FrameFileError};
use trace_archiver::hdf5::trace::{max_extent, PushError, TraceFile};
use trace_archiver::message::{ChannelTrace, FrameMetadata, TraceMessage};

fn time_2022_07_04(nanos: u32) -> Timestamp {
    let at = NaiveDate::from_ymd_opt(2022, 7, 4).unwrap().and_hms_nano_opt(10, 55, 30, nanos).unwrap();
    Utc.from_utc_datetime(&at).timestamp_nanos_opt().unwrap()
}

#[test]
fn timestamps_split() {
    assert_eq!(split_timestamp(time_2022_07_04(440)), (1656932130, 440));
    assert_eq!(split_timestamp(-1), (-1, 999_999_999));
    assert_eq!(split_timestamp(-1_000_000_000), (-1, 0));
    assert_eq!(split_timestamp(0), (0, 0));
}

#[test]
fn base_test_basic() {
    let mut file = BaseFile::create();
    file.new_frame(10, time_2022_07_04(440), 0);
    file.new_frame(11, time_2022_07_04(460), 2);
    file.new_frame(12, time_2022_07_04(480), 4);
    assert_eq!(file.frame_timestamp_seconds, vec![1656932130; 3]);
    assert_eq!(file.frame_timestamp_nanoseconds, vec![440, 460, 480]);
    assert_eq!(file.frame_number, vec![10, 11, 12]);
    assert_eq!(file.frame_start_index, vec![0, 2, 4]);
}

#[test]
fn test_multiple() {
    let mut file = BaseFile::create();
    file.new_frame(10, time_2022_07_04(440), 0);
    file.new_frame(11, time_2022_07_04(460), 2);
    file.new_frame(11, time_2022_07_04(460), 2);
    file.new_frame(12, time_2022_07_04(480), 4);
    assert_eq!(file.frame_number, vec![10, 11, 12]);
    assert_eq!(file.frame_start_index, vec![0, 2, 4]);
}

#[test]
fn test_multiple_missing_frames() {
    let mut file = BaseFile::create();
    file.new_frame(10, time_2022_07_04(440), 0);
    file.new_frame(12, time_2022_07_04(460), 2);
    file.new_frame(12, time_2022_07_04(460), 2);
    file.new_frame(13, time_2022_07_04(480), 4);
    assert_eq!(file.frame_number, vec![10, 12, 13]);
    assert_eq!(file.frame_start_index, vec![0, 2, 4]);
}

#[test]
fn test_find_frame_metadata_index() {
    let mut file = BaseFile::create();
    file.new_frame(10, time_2022_07_04(440), 0);
    file.new_frame(11, time_2022_07_04(460), 2);
    file.new_frame(12, time_2022_07_04(480), 4);
    // Frame found
    assert_eq!(Some(1), file.find_frame_metadata_index(11, time_2022_07_04(460)));
    // Frame not found
    assert_eq!(None, file.find_frame_metadata_index(9, time_2022_07_04(380)));
}

#[test]
fn older_frame_is_not_recorded() {
    let mut file = BaseFile::create();
    file.new_frame(5, 1, 0);
    file.new_frame(3, 2, 7);
    assert_eq!(file.frame_number, vec![5]);
    assert_eq!(file.next_frame_number, 6);
}

fn frame_message(num_time_points: usize, frame_number: u32, time: Timestamp, channel_offset: u32, digitizer_id: u8) -> TraceMessage {
    let mut v0: Vec<Intensity> = vec![10; num_time_points];
    v0[0] = digitizer_id as Intensity;
    v0[1] = frame_number as Intensity;
    let mut v1: Vec<Intensity> = vec![11; num_time_points];
    v1[0] = digitizer_id as Intensity;
    v1[1] = frame_number as Intensity;
    TraceMessage {
        digitizer_id,
        metadata: FrameMetadata {
            frame_number,
            period_number: 0,
            protons_per_pulse: 0,
            running: true,
            timestamp: Some(time),
            veto_flags: 0,
        },
        sample_rate: 1_000_000_000,
        channels: Some(vec![
            ChannelTrace { channel: channel_offset, voltage: Some(v0) },
            ChannelTrace { channel: channel_offset + 1, voltage: Some(v1) },
        ]),
    }
}

/// Applies the placement of a message to a table held as rows.
fn push_frame(file: &mut TraceFile, table: &mut Vec<Vec<Intensity>>, message: &TraceMessage) {
    let plan = file.push(message).unwrap();
    if let Some(width) = plan.resize_to {
        for row in table.iter_mut() {
            row.resize(width, 0);
        }
    }
    for w in plan.writes {
        for (k, v) in w.samples.iter().enumerate() {
            table[w.row][plan.start + k] = *v;
        }
    }
}

#[test]
fn test_multiple_digitizers() {
    let num_digitizers = 3;
    let num_time_points = 20;
    let num_channels = num_digitizers * CHANNELS_PER_DIGITIZER;
    let num_frames = 3;
    let num_measurements = num_frames * num_time_points;

    let mut file = TraceFile::create(num_digitizers);
    let mut table = vec![Vec::<Intensity>::new(); num_channels];
    let base = time_2022_07_04(0);
    for digitizer in 0..3u8 {
        for frame in 0..3u32 {
            let time = base + 20_000_000 * frame as i64;
            push_frame(&mut file, &mut table, &frame_message(num_time_points, frame, time, 0, digitizer));
        }
    }
    assert_eq!(file.base.frame_start_index.len(), num_frames);
    assert_eq!(file.base.frame_start_index, vec![0, num_time_points, num_time_points * 2]);
    assert_eq!(table.len(), num_channels);
    assert!(table.iter().all(|r| r.len() == num_measurements));
    let first: Vec<[Intensity; 3]> = table.iter().map(|r| [r[0], r[1], r[2]]).collect();
    let mut expected = vec![[0, 0, 0]; num_channels];
    for d in 0..3 {
        expected[d * 8] = [d as Intensity, 0, 10];
        expected[d * 8 + 1] = [d as Intensity, 0, 11];
    }
    assert_eq!(first, expected);
    let second: Vec<[Intensity; 3]> = table
        .iter()
        .map(|r| [r[num_time_points], r[num_time_points + 1], r[num_time_points + 2]])
        .collect();
    for d in 0..3 {
        expected[d * 8] = [d as Intensity, 1, 10];
        expected[d * 8 + 1] = [d as Intensity, 1, 11];
    }
    assert_eq!(second, expected);
}

#[test]
fn sample_rate_change_is_refused() {
    let mut file = TraceFile::create(1);
    file.push(&frame_message(4, 0, 0, 0, 0)).unwrap();
    let mut other = frame_message(4, 1, 1, 0, 0);
    other.sample_rate = 5;
    assert_eq!(
        file.push(&other).err(),
        Some(PushError::SampleRateChanged { old: 1_000_000_000, new: 5 })
    );
    assert_eq!(file.base.frame_number, vec![0]);
    assert_eq!(max_extent(&vec![3, 9, 2]), 9);
    assert_eq!(channel_index(2, 5), 21);
}

#[test]
fn control_decisions() {
    let trace = [0u8, 0, 0, 0, b'd', b'a', b't', b'2'];
    let start = [0u8, 0, 0, 0, b'p', b'l', b'7', b'2'];
    let stop = [0u8, 0, 0, 0, b'6', b's', b'4', b't'];
    let other = [0u8; 8];
    assert_eq!(classify_message(Some(&trace), false), MessageKind::Trace);
    assert_eq!(classify_message(Some(&start), true), MessageKind::RunStart);
    assert_eq!(classify_message(Some(&stop), true), MessageKind::RunStop);
    assert_eq!(classify_message(Some(&other), true), MessageKind::UnknownControl);
    assert_eq!(classify_message(Some(&start), false), MessageKind::Unexpected);
    assert_eq!(classify_message(None, true), MessageKind::NoPayload);
    assert_eq!(control_action(true, MessageKind::Trace, true), ControlAction::WriteTrace);
    assert_eq!(control_action(false, MessageKind::Trace, true), ControlAction::Nothing);
    assert_eq!(control_action(true, MessageKind::Trace, false), ControlAction::TraceDecodeFailure);
    assert_eq!(control_action(false, MessageKind::RunStart, true), ControlAction::CreateFile);
    assert_eq!(control_action(true, MessageKind::RunStart, true), ControlAction::Nothing);
    assert_eq!(control_action(true, MessageKind::RunStop, true), ControlAction::CloseFile);
    assert_eq!(control_action(true, MessageKind::UnknownControl, true), ControlAction::IncorrectIdentifier);
    assert_eq!(control_action(true, MessageKind::Unexpected, true), ControlAction::UnexpectedMessage);
}

#[test]
fn file_test_basic() {
    let digitizer_id = 2;
    let frame_number = 495;
    let num_time_points = 20;
    let time = NaiveDate::from_yo_opt(2022, 205).unwrap().and_hms_nano_opt(10, 55, 30, 1_005).unwrap();
    let time = Utc.from_utc_datetime(&time).timestamp_nanos_opt().unwrap();
    let message = TraceMessage {
        digitizer_id,
        metadata: FrameMetadata {
            frame_number,
            period_number: 0,
            protons_per_pulse: 0,
            running: true,
            timestamp: Some(time),
            veto_flags: 0,
        },
        sample_rate: 1_000_000_000,
        channels: Some(vec![
            ChannelTrace { channel: 0, voltage: Some(vec![1; num_time_points]) },
            ChannelTrace { channel: 1, voltage: None },
            ChannelTrace { channel: 5, voltage: Some(vec![2; num_time_points / 2]) },
        ]),
    };
    let plan = plan_frame_file(&message).unwrap();
    assert_eq!(plan.filename, "frame_2022-07-24T10:55:30.000001005+00:00_2_495.h5");
    assert_eq!(plan.seconds, 1658660130);
    assert_eq!(plan.nanoseconds, 1005);
    assert_eq!(plan.digitizer_id, digitizer_id);
    assert_eq!(plan.frame_number, frame_number);
    assert_eq!(plan.sample_rate, 1_000_000_000);
    assert_eq!(plan.channel_numbers, vec![0, 1, 5]);
    assert_eq!(plan.num_data_points, num_time_points);
    assert_eq!(plan.missing, vec![1]);
    let mut no_time = message.clone();
    no_time.metadata.timestamp = None;
    assert_eq!(plan_frame_file(&no_time).err(), Some(FrameFileError::NoTimestamp));
    let mut no_channels = message.clone();
    no_channels.channels = None;
    assert_eq!(plan_frame_file(&no_channels).err(), Some(FrameFileError::NoChannelData));
    no_channels.channels = Some(vec![]);
    assert_eq!(plan_frame_file(&no_channels).err(), Some(FrameFileError::NoDataLength));
}

#[test]
fn archive_names() {
    assert_eq!(generate_filename(Some(1658660130123)).unwrap(), "2022-07-24T10:55:30.123Z.h5");
    assert_eq!(generate_filename(None), Err(FilenameError::TimestampUnavailable));
    assert_eq!(generate_filename(Some(i64::MAX)), Err(FilenameError::TimestampUnavailable));
}
