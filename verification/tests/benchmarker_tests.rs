use trace_archiver::benchmarker::analyser::Analyser;
use trace_archiver::benchmarker::args::{self, ArgRanges, SeriesArgs};
use trace_archiver::benchmarker::benchmark::{self, BenchMark, TimeRecords};
use trace_archiver::benchmarker::engine_analyser::{EngineAnalyser, SeriesType};
use trace_archiver::benchmarker::results::{self, Results};
use trace_archiver::benchmarker::stepped::{parse_stepped_values, range_step_values, RangeParseError};
use trace_archiver::common::Timestamp;
use trace_archiver::message::{ChannelTrace, FrameMetadata, TraceMessage};

fn message_with(channels: Option<Vec<ChannelTrace>>) -> TraceMessage {
    TraceMessage {
        digitizer_id: 1,
        metadata: FrameMetadata {
            frame_number: 3,
            period_number: 0,
            protons_per_pulse: 0,
            running: true,
            timestamp: Some(0 as Timestamp),
            veto_flags: 0,
        },
        sample_rate: 1_000_000_000,
        channels,
    }
}

#[test]
fn stepped_range_walks_in_steps() {
    let r = args::SteppedRange(2..=10, 3);
    assert_eq!(r.iter(), vec![2, 5, 8]);
    let r = benchmark::SteppedRange(0..=4, 2);
    assert_eq!(r.iter(), vec![0, 2, 4]);
}

#[test]
fn stepped_range_single_and_empty() {
    assert_eq!(range_step_values(&(7..=7), 5), vec![7]);
    #[allow(clippy::reversed_empty_ranges)]
    let empty = 5..=4;
    assert_eq!(range_step_values(&empty, 1), Vec::<usize>::new());
}

#[test]
fn stepped_range_walked_to_its_end_is_empty() {
    let mut r = 0..=2usize;
    for _ in &mut r {}
    assert_eq!(range_step_values(&r, 1), Vec::<usize>::new());
}

#[test]
fn stepped_range_up_to_the_largest_value() {
    let top = usize::MAX;
    assert_eq!(range_step_values(&((top - 4)..=top), 2), vec![top - 4, top - 2, top]);
}

#[test]
fn parse_stepped_values_reads_three_values() {
    assert_eq!(parse_stepped_values("10000:10000:1"), Ok((10000, 10000, 1)));
    assert_eq!(parse_stepped_values("+1:20:3"), Ok((1, 20, 3)));
}

#[test]
fn parse_stepped_values_refuses_a_bad_piece() {
    assert_eq!(
        parse_stepped_values("1:x:3"),
        Err(RangeParseError::ParseInt("x".to_string()))
    );
    assert_eq!(
        parse_stepped_values("1::3"),
        Err(RangeParseError::ParseInt("".to_string()))
    );
    assert_eq!(
        parse_stepped_values("99999999999999999999999:1:1"),
        Err(RangeParseError::ParseInt("99999999999999999999999".to_string()))
    );
}

#[test]
fn parse_stepped_values_refuses_a_wrong_count() {
    assert_eq!(
        parse_stepped_values("1:2"),
        Err(RangeParseError::WrongNumberOfParameters(vec![1, 2]))
    );
    assert_eq!(
        parse_stepped_values("1:2:3:4"),
        Err(RangeParseError::WrongNumberOfParameters(vec![1, 2, 3, 4]))
    );
    // A bad piece is reported before a wrong count.
    assert_eq!(
        parse_stepped_values("a:2"),
        Err(RangeParseError::ParseInt("a".to_string()))
    );
}

#[test]
fn stepped_range_from_string_and_parse() {
    let r = args::SteppedRange::from_string("1:9:4".to_string()).unwrap();
    assert_eq!(r.0, 1..=9);
    assert_eq!(r.1, 4);
    assert_eq!(r.iter(), vec![1, 5, 9]);

    let r: benchmark::SteppedRange = "8:8:1".parse().unwrap();
    assert_eq!(r.0, 8..=8);
    assert_eq!(r.1, 1);
    assert!("8:8".parse::<benchmark::SteppedRange>().is_err());
    assert!(benchmark::SteppedRange::parse("8:8:z").is_err());
}

#[test]
fn stepped_text_parses_back() {
    for (a, b, c) in [(0usize, 0usize, 1usize), (12, 345, 6), (usize::MAX, 1, usize::MAX)] {
        let text = format!("{a}:{b}:{c}");
        assert_eq!(parse_stepped_values(&text), Ok((a, b, c)));
    }
}

#[test]
fn parameter_space_is_the_product() {
    let ranges = ArgRanges {
        num_channels_range: args::SteppedRange(1..=3, 1),
        num_samples_range: args::SteppedRange(10..=30, 10),
    };
    let space = ranges.iter();
    assert_eq!(
        space,
        vec![(1, 10), (1, 20), (1, 30), (2, 10), (2, 20), (2, 30), (3, 10), (3, 20), (3, 30)]
    );
    assert_eq!(ranges.get_parameter_space_size(), 9);

    let ranges = benchmark::ArgRanges::new(benchmark::SteppedRange(100..=1000, 300));
    assert_eq!(ranges.iter(), vec![100, 400, 700, 1000]);
    assert_eq!(ranges.get_parameter_space_size(), 4);
}

#[test]
fn args_texts_and_parameters() {
    let a = args::Args::new(8, 10000);
    assert_eq!(a.output_init(), "Running benchmark for 8 channels, 10000 datapoints.");
    assert_eq!(args::Args::from((8, 10000)), a);
    let b = benchmark::Args::new(250);
    assert_eq!(b.output_init(), "Running benchmark for 250 datapoints.");

    let by_channels = SeriesArgs::NumChannelsVariable { num_channels: 4..=8, num_samples: 10000 };
    let by_samples = SeriesArgs::NumSamplesVariable { num_channels: 8, num_samples: 0..=100 };
    assert!(a.is_matched(&by_channels));
    assert!(!a.is_matched(&by_samples));
    assert!(args::Args::new(8, 100).is_matched(&by_samples));
    assert!(!args::Args::new(9, 10000).is_matched(&by_channels));
    assert_eq!(a.extract_param(&by_channels), 8);
    assert_eq!(a.extract_param(&by_samples), 10000);
}

#[test]
fn benchmark_args_from_message() {
    let msg = message_with(Some(vec![
        ChannelTrace { channel: 0, voltage: Some(vec![1, 2, 3]) },
        ChannelTrace { channel: 1, voltage: None },
        ChannelTrace { channel: 2, voltage: Some(vec![1, 2, 3, 4, 5]) },
    ]));
    assert_eq!(BenchMark::args_from_message(&msg).num_samples, 5);
    assert_eq!(BenchMark::args_from_message(&message_with(None)).num_samples, 0);
}

#[test]
fn benchmark_message_has_the_asked_shape() {
    let msg = benchmark::create_benchmark_message(3, 17).unwrap();
    assert!(msg.metadata.frame_number <= 12);
    assert!(msg.digitizer_id <= 24);
    let channels = msg.channels.as_ref().unwrap();
    assert_eq!(channels.len(), 3);
    for (i, c) in channels.iter().enumerate() {
        assert_eq!(c.channel, i as u32);
        assert_eq!(c.voltage.as_ref().unwrap().len(), 17);
    }
    assert_eq!(BenchMark::args_from_message(&msg).num_samples, 17);
}

#[test]
fn benchmark_csv_table() {
    let results = vec![
        BenchMark {
            args: benchmark::Args::new(10),
            time: TimeRecords { total_time: 12_345_678, posting_time: 999 },
        },
        BenchMark {
            args: benchmark::Args::new(20),
            time: TimeRecords { total_time: 2_000, posting_time: 1_000 },
        },
    ];
    assert_eq!(
        benchmark::csv_text(&results),
        "num_samples, total_time, posting_time\n10, 12345, 0\n20, 2, 1\n"
    );
    assert_eq!(benchmark::csv_text(&vec![]), "num_samples, total_time, posting_time\n");
    let (t, pt, s) = benchmark::regression_columns(&results);
    assert_eq!(t, vec![12_345_678, 2_000]);
    assert_eq!(pt, vec![999, 1_000]);
    assert_eq!(s, vec![10, 20]);
}

fn record(c: usize, s: usize, total: u128, post: u128) -> results::BenchMark {
    results::BenchMark {
        args: args::Args::new(c, s),
        time: TimeRecords { total_time: total, posting_time: post },
    }
}

#[test]
fn results_keep_order_and_filter_by_channels() {
    let mut r = Results::default();
    assert!(r.iter().is_empty());
    r.push(record(4, 100, 5_000, 1_000));
    r.push(record(8, 200, 7_000, 2_000));
    r.push(record(4, 300, 9_999, 3_000));
    assert_eq!(r.iter().len(), 3);
    assert_eq!(r.iter()[1], record(8, 200, 7_000, 2_000));
    assert_eq!(
        r.csv_text(4),
        "num_samples, total_time, posting_time\n100, 5, 1\n300, 9, 3\n"
    );
    let (t, pt, c, d) = r.regression_columns();
    assert_eq!(t, vec![5_000, 7_000, 9_999]);
    assert_eq!(pt, vec![1_000, 2_000, 3_000]);
    assert_eq!(c, vec![4, 8, 4]);
    assert_eq!(d, vec![100, 200, 300]);
    r.clear();
    assert!(r.iter().is_empty());
}

#[test]
fn analyser_runs_and_draws_series() {
    let mut a = EngineAnalyser::new(args::SteppedRange(4..=8, 4), args::SteppedRange(100..=200, 100));
    let space = a.begin_run();
    assert_eq!(space, vec![(4, 100), (4, 200), (8, 100), (8, 200)]);
    for (i, (c, s)) in space.iter().enumerate() {
        a.record(record(*c, *s, 1_000 * (i as u128 + 1), 10 * (i as u128 + 1)));
    }
    a.create_series(
        "Total time, 4 channels",
        SeriesType::TotalTime,
        SeriesArgs::NumSamplesVariable { num_channels: 4, num_samples: 0..=1000 },
    );
    a.create_series(
        "Posting time, 200 samples",
        SeriesType::PostingTime,
        SeriesArgs::NumChannelsVariable { num_channels: 0..=8, num_samples: 200 },
    );
    let series = a.get_series();
    assert_eq!(series.len(), 2);
    assert_eq!(series[0].name, "Total time, 4 channels");
    assert_eq!(series[0].points, vec![(100, 1_000), (200, 2_000)]);
    assert_eq!(series[1].points, vec![(4, 20), (8, 40)]);
    let (t, _, c, _) = a.regression_columns();
    assert_eq!(t, vec![1_000, 2_000, 3_000, 4_000]);
    assert_eq!(c, vec![4, 4, 8, 8]);
    assert_eq!(
        a.save_series(),
        "series, parameter, time\nTotal time, 4 channels, 100, 1000\nTotal time, 4 channels, 200, 2000\nPosting time, 200 samples, 4, 20\nPosting time, 200 samples, 8, 40\n"
    );
    // A new run forgets the earlier results.
    let again = a.begin_run();
    assert_eq!(again.len(), 4);
    let (t, _, _, _) = a.regression_columns();
    assert!(t.is_empty());
}

#[test]
fn analyser_from_arg_ranges() {
    let ranges = ArgRanges {
        num_channels_range: args::SteppedRange(1..=1, 1),
        num_samples_range: args::SteppedRange(5..=6, 1),
    };
    let mut a = EngineAnalyser::new_with_arg_ranges(ranges);
    assert_eq!(a.begin_run(), vec![(1, 5), (1, 6)]);
}

#[test]
fn analyser_of_several_stores() {
    let mut a = Analyser::new(args::SteppedRange(1..=2, 1), args::SteppedRange(10..=10, 1));
    assert_eq!(a.push_timeseries_engine(), 0);
    assert_eq!(a.push_timeseries_engine(), 1);
    let second = a.analyser_mut(1);
    assert_eq!(second.begin_run(), vec![(1, 10), (2, 10)]);
    second.record(record(1, 10, 5, 1));
    let (t, _, _, _) = a.analyser_mut(1).regression_columns();
    assert_eq!(t, vec![5]);
    let (t, _, _, _) = a.analyser_mut(0).regression_columns();
    assert!(t.is_empty());
    let copy = args::SteppedRange(3..=9, 2).duplicate();
    assert_eq!(copy.iter(), vec![3, 5, 7, 9]);
}
