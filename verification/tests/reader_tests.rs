use trace_archiver::reader::hdf5trace::{
    check_read_sequence, command_range, extract_from_dataset_name, indices_for_command,
    is_frame_dataset_name, is_id_contained_in, position_or_next_frame, position_or_next_time,
    resolve_read_sequence, select_channel_datasets, FrameTimes, Hdf5Digitiser, OverwriteFields, ReadCommand,
    ReadError, CHANNEL, DIGITISER,
};
use trace_archiver::reader::loader::{
    load_trace_file, text_lengths_nonnegative, LoadError, TraceFileEvent, TraceFileHeader,
};
use trace_archiver::reader::{processing, replay};
use trace_archiver::message::{ChannelTrace, FrameMetadata, TraceMessage};

fn empty_message() -> TraceMessage {
    TraceMessage {
        digitizer_id: 0,
        metadata: FrameMetadata {
            frame_number: 0,
            period_number: 0,
            protons_per_pulse: 0,
            running: false,
            timestamp: None,
            veto_flags: 0,
        },
        sample_rate: 0,
        channels: None,
    }
}

/// The bytes of a trace file with the given texts, `nc` channels of `ns` samples, sample time
/// and events (each a list of channel traces).
fn trace_file_bytes(version: &str, description: &str, nc: i32, ns: i32, sample_time: f64, events: &[Vec<Vec<u16>>]) -> Vec<u8> {
    let mut b = Vec::new();
    b.extend_from_slice(&(version.len() as i32).to_le_bytes());
    b.extend_from_slice(version.as_bytes());
    b.extend_from_slice(&(description.len() as i32).to_le_bytes());
    b.extend_from_slice(description.as_bytes());
    b.extend_from_slice(&12i32.to_le_bytes());
    b.extend_from_slice(&nc.to_le_bytes());
    for _ in 0..nc {
        b.push(1);
    }
    for k in 0..nc {
        b.extend_from_slice(&(0.5 * k as f64).to_le_bytes());
    }
    for _ in 0..nc {
        b.extend_from_slice(&1.25f64.to_le_bytes());
    }
    b.extend_from_slice(&sample_time.to_le_bytes());
    b.extend_from_slice(&ns.to_le_bytes());
    for _ in 0..nc {
        b.push(0);
    }
    b.push(1);
    for _ in 0..nc {
        b.extend_from_slice(&2.0f64.to_le_bytes());
    }
    b.extend_from_slice(&3.0f64.to_le_bytes());
    for k in 0..nc {
        b.extend_from_slice(&(k - 1).to_le_bytes());
    }
    b.extend_from_slice(&(-7i32).to_le_bytes());
    for (e, traces) in events.iter().enumerate() {
        b.extend_from_slice(&(e as i32).to_le_bytes());
        b.extend_from_slice(&(e as f64).to_le_bytes());
        b.extend_from_slice(&nc.to_le_bytes());
        for _ in 0..nc {
            b.push(1);
        }
        b.extend_from_slice(&(10.0 * e as f64).to_le_bytes());
        for t in traces {
            for v in t {
                b.extend_from_slice(&v.to_be_bytes());
            }
        }
    }
    b
}

#[test]
fn header_reads_back_and_measures_itself() {
    let bytes = trace_file_bytes("v1.2", "run", 2, 3, 0.5, &[]);
    let header = TraceFileHeader::load(&bytes).unwrap();
    assert_eq!(header.prog_version, "v1.2");
    assert_eq!(header.run_descript, "run");
    assert_eq!(header.resolution, 12);
    assert_eq!(header.number_of_channels, 2);
    assert_eq!(header.channel_enabled, vec![true, true]);
    assert_eq!(header.volts_scale_factor, vec![0.0f64.to_bits(), 0.5f64.to_bits()]);
    assert_eq!(header.sample_time, 0.5f64.to_bits());
    assert_eq!(header.number_of_samples, 3);
    assert_eq!(header.trigger_enabled, vec![false, false]);
    assert!(header.ex_trigger_enabled);
    assert_eq!(header.trigger_slope, vec![-1, 0]);
    assert_eq!(header.ex_trigger_slope, -7);
    assert_eq!(header.get_total_bytes(), bytes.len());
    assert_eq!(header.get_size(), bytes.len());
    assert_eq!(header.get_event_size(), 4 + 8 + 4 + 2 + 8 + 2 * 2 * 3);
    assert_eq!(TraceFileEvent::get_size(2, 3), 38);
}

#[test]
fn header_errors() {
    assert_eq!(TraceFileHeader::load(&vec![1, 0]).err(), Some(LoadError::UnexpectedEof));
    let mut bad = Vec::new();
    bad.extend_from_slice(&2i32.to_le_bytes());
    bad.extend_from_slice(&[0xff, 0xfe]);
    bad.extend_from_slice(&[0, 0, 0, 0]);
    assert_eq!(TraceFileHeader::load(&bad).err(), Some(LoadError::InvalidData));
    let full = trace_file_bytes("a", "b", 1, 1, 1.0, &[]);
    let cut = full[..full.len() - 1].to_vec();
    assert_eq!(TraceFileHeader::load(&cut).err(), Some(LoadError::UnexpectedEof));
}

#[test]
fn trace_file_events() {
    let events = vec![
        vec![vec![1u16, 2, 3], vec![4, 5, 6]],
        vec![vec![7u16, 8, 9], vec![10, 11, 0xfffe]],
    ];
    let bytes = trace_file_bytes("x", "y", 2, 3, 2.0, &events);
    let file = load_trace_file(bytes).unwrap();
    assert_eq!(file.get_number_of_trace_events(), 2);
    assert_eq!(file.get_num_channels(), 2);
    assert_eq!(file.get_sample_time(), 2.0f64.to_bits());
    assert_eq!(file.get_header().number_of_samples, 3);
    let e = file.get_trace_event(1).unwrap();
    assert_eq!(e.cur_trace_event, 1);
    assert_eq!(e.trace_event_runtime, 1.0f64.to_bits());
    assert_eq!(e.number_saved_traces, 2);
    assert_eq!(e.saved_channels, vec![true, true]);
    assert_eq!(e.trigger_time, 10.0f64.to_bits());
    assert_eq!(e.raw_trace, events[1]);
    assert_eq!(e.total_bytes, 38);
    assert_eq!(file.get_trace_event(2).err(), Some(LoadError::InvalidEventIndex));
}

#[test]
fn trace_file_with_trailing_bytes() {
    let mut bytes = trace_file_bytes("x", "y", 1, 1, 2.0, &[vec![vec![5u16]]]);
    bytes.push(0);
    bytes.push(0);
    assert_eq!(load_trace_file(bytes).err(), Some(LoadError::TrailingBytes(2)));
}

#[test]
fn dataset_names() {
    assert_eq!(extract_from_dataset_name("/digitiser_4", DIGITISER, 255).unwrap(), 4);
    assert_eq!(extract_from_dataset_name("/digitiser_4/channel_17", CHANNEL, u32::MAX as u64).unwrap(), 17);
    assert!(matches!(
        extract_from_dataset_name("/digitiser", DIGITISER, 255),
        Err(ReadError::NoUnderscore(s)) if s == "/digitiser"
    ));
    assert!(matches!(
        extract_from_dataset_name("/channel_2", DIGITISER, 255),
        Err(ReadError::WrongIdentifier(e, f)) if e == "digitiser" && f == "channel"
    ));
    assert!(matches!(extract_from_dataset_name("/digitiser_256", DIGITISER, 255), Err(ReadError::ParseInt)));
    assert!(matches!(extract_from_dataset_name("/digitiser_x", DIGITISER, 255), Err(ReadError::ParseInt)));
    for n in [0u64, 9, 10, 255] {
        assert_eq!(extract_from_dataset_name(&format!("/group/digitiser_{n}"), DIGITISER, 255).unwrap(), n);
    }
}

#[test]
fn channel_datasets() {
    assert!(is_frame_dataset_name("/digitiser_0/frame_number"));
    assert!(is_frame_dataset_name("timestamp"));
    assert!(!is_frame_dataset_name("/digitiser_0/channel_1"));
    let names: Vec<String> = ["/d/frame_number", "/d/channel_3", "/d/period_number", "/d/channel_5", "/d/timestamp"]
        .iter()
        .map(|s| s.to_string())
        .collect();
    assert_eq!(select_channel_datasets(&names).unwrap(), vec![(1, 3), (3, 5)]);
    let bad = vec!["/d/frame_number".to_string(), "/d/traces".to_string()];
    assert!(select_channel_datasets(&bad).is_err());
}

#[test]
fn positions_of_frames_and_times() {
    let frames = vec![10u32, 11, 11, 15];
    assert_eq!(position_or_next_frame(&frames, 11), Some(1));
    assert_eq!(position_or_next_frame(&frames, 12), Some(3));
    assert_eq!(position_or_next_frame(&frames, 16), None);
    let times = vec![100i64, 200, 300];
    assert_eq!(position_or_next_time(&times, 150), Some(1));
    assert_eq!(position_or_next_time(&times, 301), None);
}

fn digitiser() -> Hdf5Digitiser {
    Hdf5Digitiser {
        digitiser_id: 3,
        period_numbers: vec![0, 0, 1, 1],
        frame_numbers: vec![20, 21, 23, 24],
        sample_rates: Some(vec![1000, 1000, 2000, 2000]),
        running: None,
        protons_per_pulse: Some(vec![5, 6, 7, 8]),
        veto_flags: None,
        timestamps: FrameTimes::EpochNanos(vec![1_000, 2_000, 3_000, 4_000]),
        num_frames: 4,
    }
}

#[test]
fn digitiser_indices_and_metadata() {
    let d = digitiser();
    assert_eq!(d.get_num_frames(), 4);
    assert_eq!(d.get_id(), 3);
    assert_eq!(d.get_index_from_frame_number(22).unwrap(), 2);
    assert!(matches!(d.get_index_from_frame_number(30), Err(ReadError::FrameNumberNotFound(30))));
    assert_eq!(d.get_index_from_timestamp(2_000).unwrap(), 1);
    assert!(matches!(d.get_index_from_timestamp(9_000), Err(ReadError::TimestampNotFound(9_000))));
    let keep = OverwriteFields {
        shift_to_today: false,
        overwrite_period_number: None,
        overwrite_protons_per_pulse: None,
        overwrite_running: None,
        overwrite_veto_flags: None,
    };
    let m = d.replay_metadata(2, 50, &keep).unwrap();
    assert_eq!((m.frame_number, m.period_number, m.protons_per_pulse, m.running, m.veto_flags, m.sample_rate), (23, 1, 7, true, 0, 2000));
    let change = OverwriteFields {
        shift_to_today: false,
        overwrite_period_number: Some(9),
        overwrite_protons_per_pulse: Some(1),
        overwrite_running: Some(false),
        overwrite_veto_flags: Some(4),
    };
    let m = d.replay_metadata(0, 50, &change).unwrap();
    assert_eq!((m.period_number, m.protons_per_pulse, m.running, m.veto_flags), (9, 1, false, 4));
    assert!(matches!(d.replay_metadata(4, 50, &keep), Err(ReadError::FrameIndexTooLarge(4, 4))));
}

#[test]
fn read_sequences() {
    let d = digitiser();
    let commands = vec![
        ReadCommand::FrameRange(21, 24),
        ReadCommand::FrameCount(22, 2),
        ReadCommand::IndexRange(1, 3),
        ReadCommand::IndexCount(2, 5),
        ReadCommand::All,
    ];
    assert!(check_read_sequence(&commands).is_ok());
    let ranges = resolve_read_sequence(&d, &commands).unwrap();
    assert_eq!(ranges, vec![1..3, 2..4, 1..3, 2..7, 0..4]);
    assert_eq!(command_range(&d, &ReadCommand::All).unwrap(), 0..4);
    assert!(resolve_read_sequence(&d, &vec![ReadCommand::FrameCount(99, 1)]).is_err());
    let timed = vec![ReadCommand::All, ReadCommand::TimestampCount("2024".to_string(), 3)];
    assert!(matches!(
        check_read_sequence(&timed),
        Err(ReadError::ConfigReadSeqTimestampInTimestampAsRfc3339Attrib)
    ));
}

#[test]
fn digitiser_selection_and_counts() {
    assert!(is_id_contained_in(3, &vec![]));
    assert!(is_id_contained_in(3, &vec![1, 3]));
    assert!(!is_id_contained_in(2, &vec![1, 3]));
    let ranges = vec![vec![0..5, 2..3], vec![1..4, 7..2]];
    assert_eq!(indices_for_command(&ranges, 0, &vec![1, 2]).unwrap(), 3);
    assert_eq!(indices_for_command(&ranges, 1, &vec![1, 2]).unwrap(), 0);
    assert!(matches!(
        indices_for_command(&vec![], 0, &vec![4, 5]),
        Err(ReadError::NoDigitisersSelected(p)) if p == vec![4, 5]
    ));
}

fn sample_event() -> TraceFileEvent {
    TraceFileEvent {
        cur_trace_event: 0,
        trace_event_runtime: 0,
        number_saved_traces: 3,
        saved_channels: vec![true, true, true],
        trigger_time: 0,
        raw_trace: vec![vec![1, 2], vec![3, 4], vec![5, 6]],
        total_bytes: 0,
    }
}

#[test]
fn event_messages() {
    let event = sample_event();
    let mut m = empty_message();
    let report = replay::create_message(&mut m, 77, 495, 2, 2, 20, &event).unwrap();
    assert_eq!(report, "New message created for digitizer 2, frame number 495, and has 2 channels, and 20 measurements.");
    assert_eq!(m.digitizer_id, 2);
    assert_eq!(m.metadata.timestamp, Some(77));
    assert_eq!(m.metadata.frame_number, 495);
    assert_eq!(m.sample_rate, 1_000_000_000);
    let channels = m.channels.as_ref().unwrap();
    assert_eq!(channels.len(), 2);
    assert_eq!(channels[1].channel, 1);
    assert_eq!(channels[1].voltage, Some(vec![3, 4]));

    let mut m = empty_message();
    replay::create_partly_random_message_with_now(&mut m, 1..=10, 1..=10, 3, 2, &event).unwrap();
    assert!((1..=10).contains(&m.metadata.frame_number));
    assert!((1..=10).contains(&m.digitizer_id));
    assert_eq!(m.channels.as_ref().unwrap()[2].voltage, Some(vec![5, 6]));
}

#[test]
fn lib_test_basic() {
    let digitizer_id = 2;
    let frame_number = 495;
    let num_time_points = 20;
    let num_channels = 4;
    let event = TraceFileEvent {
        cur_trace_event: 0,
        trace_event_runtime: 0,
        number_saved_traces: num_channels as i32,
        saved_channels: vec![true; num_channels],
        trigger_time: 0,
        raw_trace: vec![vec![7u16; num_time_points]; num_channels],
        total_bytes: 0,
    };
    let mut m = empty_message();
    let string = replay::create_message_with_now(&mut m, frame_number, digitizer_id, num_channels, num_time_points, &event).unwrap();
    assert_eq!(string, format!("New message created for digitizer {digitizer_id}, frame number {frame_number}, and has {num_channels} channels, and {num_time_points} measurements."));
    assert_eq!(m.digitizer_id, digitizer_id);
    assert!(m.metadata.timestamp.is_some());
    assert_eq!(m.metadata.frame_number, frame_number);
    let channels = m.channels.unwrap();
    assert_eq!(channels.len(), num_channels);
    for (i, c) in channels.iter().enumerate() {
        assert_eq!(c.channel, i as u32);
        assert_eq!(c.voltage.as_ref().unwrap().len(), num_time_points);
    }
}

#[test]
fn offset_event_messages() {
    let event = sample_event();
    let mut m = empty_message();
    let report = processing::create_message(&mut m, 5, 10, 1, 3, 4000, &event, 100);
    assert_eq!(report, "New message created for digitizer 1, frame number 10, and has 3 channels.");
    let channels = m.channels.as_ref().unwrap();
    assert_eq!(channels.iter().map(|c| c.channel).collect::<Vec<_>>(), vec![100, 101, 102]);
    assert_eq!(m.sample_rate, 4000);
    assert_eq!(processing::event_frame_time(1_000, 3, 20), 1_000 + 3 * 20 * 1_000_000);
    assert_eq!(processing::event_frame_number(10, 4), 14);
}

#[test]
fn digitiser_from_its_datasets() {
    let d = Hdf5Digitiser::open_digitiser("/digitiser_12", vec![1, 2], vec![0, 0], None, Some(vec![5, 5]), None, None, FrameTimes::EpochNanos(vec![10, 20])).unwrap();
    assert_eq!(d.get_id(), 12);
    assert_eq!(d.get_num_frames(), 2);
    assert_eq!(d.get_index_from_timestamp(15).unwrap(), 1);
    assert!(matches!(
        Hdf5Digitiser::open_digitiser("/channel_1", vec![], vec![], None, None, None, None, FrameTimes::EpochNanos(vec![])),
        Err(ReadError::WrongIdentifier(_, _))
    ));
    assert!(matches!(
        Hdf5Digitiser::open_digitiser("/digitiser_300", vec![], vec![], None, None, None, None, FrameTimes::EpochNanos(vec![])),
        Err(ReadError::ParseInt)
    ));
}

#[test]
fn digitiser_replayed_message() {

    let d = digitiser();
    let keep = OverwriteFields {
        shift_to_today: false,
        overwrite_period_number: None,
        overwrite_protons_per_pulse: None,
        overwrite_running: None,
        overwrite_veto_flags: Some(3),
    };
    let chans = vec![ChannelTrace { channel: 0, voltage: Some(vec![1, 2]) }];
    let m = d.create_message(1, 99, &keep, (2024, 1, 1), chans).unwrap();
    assert_eq!(m.digitizer_id, 3);
    assert_eq!(m.metadata.frame_number, 21);
    assert_eq!(m.metadata.timestamp, Some(2_000));
    assert_eq!(m.metadata.protons_per_pulse, 6);
    assert_eq!(m.metadata.veto_flags, 3);
    assert_eq!(m.sample_rate, 1000);
    assert_eq!(m.channels.unwrap()[0].voltage, Some(vec![1, 2]));
    assert!(matches!(d.create_message(9, 99, &keep, (2024, 1, 1), vec![]), Err(ReadError::FrameIndexTooLarge(9, 4))));
}

#[test]
fn digitiser_frame_times() {
    let day: i64 = 86_400_000_000_000;
    let mut d = digitiser();
    // 1970-01-02T00:00:01Z, then 2000-01-01T00:00:00Z, then text that is no time.
    d.timestamps = FrameTimes::Rfc3339(vec![
        "1970-01-02T00:00:01Z".to_string(),
        "2000-01-01 00:00:00+00:00".to_string(),
        "yesterday".to_string(),
        "1970-01-01T00:00:00.000000005+01:00".to_string(),
    ]);
    assert_eq!(d.frame_time(0, false, (2024, 5, 6)).unwrap(), day + 1_000_000_000);
    assert_eq!(d.frame_time(1, false, (2024, 5, 6)).unwrap(), 946_684_800_000_000_000);
    assert!(matches!(d.frame_time(2, false, (2024, 5, 6)), Err(ReadError::TimestampUnreadable(t)) if t == "yesterday"));
    assert_eq!(d.frame_time(3, false, (2024, 5, 6)).unwrap(), 5 - 3_600_000_000_000);
    // Moved to 1970-01-05, keeping the time of day.
    assert_eq!(d.frame_time(0, true, (1970, 1, 5)).unwrap(), 4 * day + 1_000_000_000);
    // 2000-01-01 moved to 2024-02-29.
    assert_eq!(d.frame_time(1, true, (2024, 2, 29)).unwrap(), 1_709_164_800_000_000_000);
    // Day 31 does not exist in a stored February.
    let feb = Hdf5Digitiser { timestamps: FrameTimes::EpochNanos(vec![1_000, 2_000, 3_000, 2_678_400_000_000_000]), ..digitiser() };
    assert!(matches!(feb.frame_time(3, true, (2024, 3, 31)), Err(ReadError::DateNotShiftable(t)) if t == 2_678_400_000_000_000));
    let shift = OverwriteFields {
        shift_to_today: true,
        overwrite_period_number: None,
        overwrite_protons_per_pulse: None,
        overwrite_running: None,
        overwrite_veto_flags: None,
    };
    let m = d.create_message(0, 99, &shift, (1970, 1, 5), vec![]).unwrap();
    assert_eq!(m.metadata.timestamp, Some(4 * day + 1_000_000_000));
    assert!(matches!(d.create_message(2, 99, &shift, (1970, 1, 5), vec![]), Err(ReadError::TimestampUnreadable(_))));
}

#[test]
fn text_lengths_nonnegative_reads_both_counts() {
    assert!(text_lengths_nonnegative(&vec![0xff, 0xff]));
    assert!(!text_lengths_nonnegative(&vec![0xff, 0xff, 0xff, 0xff]));
    assert!(text_lengths_nonnegative(&vec![0, 0, 0, 0]));
    assert!(text_lengths_nonnegative(&vec![0, 0, 0, 0, 1, 2, 3]));
    assert!(!text_lengths_nonnegative(&vec![1, 0, 0, 0, b'a', 0xff, 0xff, 0xff, 0xff]));
    assert!(text_lengths_nonnegative(&vec![1, 0, 0, 0, b'a', 5, 0, 0, 0]));
}
