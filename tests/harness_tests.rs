use benchmark_suite::{
    default_config, Bench, BenchError, BenchMarker, DisplayCfg, Emphasis, Summary, MIN_SAMPLES,
};

struct Noop;

impl Bench for Noop {
    fn generate() -> Self {
        Noop
    }

    fn test(&mut self) {}
}

fn harness_with(threads: usize, rounds: Vec<Vec<u64>>, elapsed: u64) -> BenchMarker<Noop> {
    let mut b = BenchMarker::<Noop>::new(threads, rounds.len());
    b.record(rounds, elapsed).unwrap();
    b
}

#[test]
fn new_harness_is_empty_with_default_sections() {
    let b = BenchMarker::<Noop>::new(4, 3);
    assert_eq!(b.max_threads(), 4);
    assert_eq!(b.max_runcount(), 3);
    assert!(b.samples().is_empty());
    assert_eq!(b.runtime(), 0);
    assert_eq!(b.mean(), None);
    assert_eq!(
        *b.display_config(),
        vec![
            DisplayCfg::SysInfo,
            DisplayCfg::Space,
            DisplayCfg::Mean,
            DisplayCfg::Median,
            DisplayCfg::Deviation,
            DisplayCfg::Space,
            DisplayCfg::AbsMin,
            DisplayCfg::AbsMax,
            DisplayCfg::AbsDiff,
        ]
    );
    assert_eq!(*b.display_config(), default_config());
}

#[test]
fn zero_threads_is_a_configuration_error() {
    let mut b = BenchMarker::<Noop>::new(0, 3);
    assert_eq!(b.check_config(), Err(BenchError::ZeroThreads));
    assert_eq!(b.record(vec![vec![], vec![], vec![]], 10), Err(BenchError::ZeroThreads));
    assert!(b.samples().is_empty());
    assert_eq!(b.runtime(), 0);
}

#[test]
fn zero_rounds_is_a_configuration_error() {
    let mut b = BenchMarker::<Noop>::new(4, 0);
    assert_eq!(b.check_config(), Err(BenchError::ZeroRounds));
    assert_eq!(b.record(vec![], 10), Err(BenchError::ZeroRounds));
    assert!(b.samples().is_empty());
    assert_eq!(b.runtime(), 0);
}

#[test]
fn usable_configuration_passes_the_check() {
    let b = BenchMarker::<Noop>::new(1, 1);
    assert_eq!(b.check_config(), Ok(()));
}

#[test]
fn incomplete_round_is_refused_whole() {
    let mut b = harness_with(2, vec![vec![5, 6], vec![7, 8]], 100);
    assert_eq!(b.record(vec![vec![1, 2], vec![3]], 50), Err(BenchError::IncompleteRun));
    assert_eq!(b.record(vec![vec![1, 2]], 50), Err(BenchError::IncompleteRun));
    assert_eq!(b.record(vec![vec![1, 2], vec![3, 4], vec![5, 6]], 50), Err(BenchError::IncompleteRun));
    assert_eq!(*b.samples(), vec![5, 6, 7, 8]);
    assert_eq!(b.runtime(), 100);
}

#[test]
fn four_threads_three_rounds_of_zero_time() {
    let b = harness_with(4, vec![vec![0; 4], vec![0; 4], vec![0; 4]], 0);
    assert_eq!(b.samples().len(), 12);
    assert!(b.samples().iter().all(|d| *d == 0));
    let m = b.statistics().unwrap();
    assert_eq!(m.range, 0);
    assert_eq!(m.min, 0);
    assert_eq!(m.max, 0);
}

#[test]
fn executions_accumulate() {
    let mut b = BenchMarker::<Noop>::new(4, 3);
    for call in 1..=3u64 {
        let rounds = vec![vec![call; 4], vec![call * 10; 4], vec![call * 100; 4]];
        b.record(rounds, 1_000).unwrap();
        assert_eq!(b.samples().len() as u64, call * 12);
        assert_eq!(b.runtime(), call * 1_000);
    }
}

#[test]
fn store_is_sorted_after_each_execution() {
    let mut b = BenchMarker::<Noop>::new(3, 2);
    b.record(vec![vec![30, 10, 20], vec![60, 50, 40]], 5).unwrap();
    assert_eq!(*b.samples(), vec![10, 20, 30, 40, 50, 60]);
    b.record(vec![vec![35, 5, 65], vec![20, 20, 45]], 5).unwrap();
    assert_eq!(*b.samples(), vec![5, 10, 20, 20, 20, 30, 35, 40, 45, 50, 60, 65]);
    assert!(b.samples().windows(2).all(|w| w[0] <= w[1]));
}

#[test]
fn runtime_saturates() {
    let mut b = BenchMarker::<Noop>::new(1, 1);
    b.record(vec![vec![1]], u64::MAX - 1).unwrap();
    b.record(vec![vec![1]], 5).unwrap();
    assert_eq!(b.runtime(), u64::MAX);
}

#[test]
fn constant_delay_gives_that_delay_everywhere() {
    let d: u64 = 2_000_000;
    let b = harness_with(4, vec![vec![d; 4]; 5], 1);
    let m = b.statistics().unwrap();
    assert_eq!(
        m,
        Summary {
            mean: d,
            deviation: 0,
            q1: d,
            median: d,
            q3: d,
            quartile_min: d,
            quartile_max: d,
            min: d,
            max: d,
            range: 0,
        }
    );
}

#[test]
fn mean_is_the_truncated_average() {
    let rounds = vec![vec![5, 1, 9], vec![2, 8, 4]];
    let all: Vec<u64> = rounds.iter().flatten().copied().collect();
    let expected = all.iter().sum::<u64>() / all.len() as u64;
    let b = harness_with(3, rounds, 1);
    assert_eq!(b.mean(), Some(expected));
    assert_eq!(b.mean(), Some(4));
    assert_eq!(b.statistics().unwrap().mean, 4);
}

#[test]
fn mean_of_largest_samples_does_not_overflow() {
    let b = harness_with(2, vec![vec![u64::MAX, u64::MAX], vec![u64::MAX, u64::MAX - 4]], 1);
    assert_eq!(b.mean(), Some(u64::MAX - 1));
    let m = b.statistics().unwrap();
    assert_eq!(m.max, u64::MAX);
    assert_eq!(m.min, u64::MAX - 4);
    assert_eq!(m.range, 4);
}

#[test]
fn statistics_follow_the_index_formulas() {
    let b = harness_with(4, vec![vec![8, 1, 6, 3], vec![2, 7, 4, 5]], 1);
    let m = b.statistics().unwrap();
    // total 36 over 8 samples
    assert_eq!(m.mean, 4);
    // signed gaps sum to 36 - 8 * 4 = 4; 4 * 4 / 8 = 2; floor sqrt 1
    assert_eq!(m.deviation, 1);
    assert_eq!(m.q1, 3);
    assert_eq!(m.median, 5);
    assert_eq!(m.q3, 7);
    // iqr 4, offset 6: 3 - 6 clamps to zero, 7 - 6 = 1
    assert_eq!(m.quartile_min, 0);
    assert_eq!(m.quartile_max, 1);
    assert_eq!(m.min, 1);
    assert_eq!(m.max, 8);
    assert_eq!(m.range, 7);
}

#[test]
fn deviation_of_spread_samples() {
    // total 1003 over 4 samples: mean 250, gaps sum to 3, 9 / 4 = 2, sqrt 1
    let b = harness_with(2, vec![vec![1, 1], vec![1, 1000]], 1);
    let m = b.statistics().unwrap();
    assert_eq!(m.mean, 250);
    assert_eq!(m.deviation, 1);
    // q3 is read at index 4 - 1 = 3
    assert_eq!(m.q3, 1000);
    assert_eq!(m.quartile_min, 0);
    assert_eq!(m.quartile_max, 0);
}

#[test]
fn too_few_samples_for_statistics() {
    let b = harness_with(1, vec![vec![3], vec![1], vec![2]], 1);
    assert!(b.samples().len() < MIN_SAMPLES);
    assert_eq!(b.mean(), Some(2));
    assert_eq!(b.statistics(), Err(BenchError::TooFewSamples));
    assert_eq!(b.report(), Err(BenchError::TooFewSamples));
    assert!(b.report_lines().is_err());
}

#[test]
fn empty_store_has_no_mean() {
    let b = BenchMarker::<Noop>::new(2, 2);
    assert_eq!(b.mean(), None);
    assert_eq!(b.statistics(), Err(BenchError::TooFewSamples));
}

#[test]
fn report_mean_space_median() {
    let mut b = harness_with(2, vec![vec![1_000, 1_000], vec![1_000, 1_000]], 1);
    b.set_display_config(vec![DisplayCfg::Mean, DisplayCfg::Space, DisplayCfg::Median]);
    assert_eq!(b.report().unwrap(), "    mean: 1µs\n\n    median: 1µs\n");
    let lines = b.report_lines().unwrap();
    let tags: Vec<Emphasis> = lines.iter().map(|l| l.emphasis).collect();
    assert_eq!(tags, vec![Emphasis::Derived, Emphasis::Raw, Emphasis::Raw]);
}

#[test]
fn report_default_sections() {
    let b = harness_with(4, vec![vec![1_500_000; 4], vec![1_500_000; 4], vec![1_500_000; 4]], 5_000_000);
    let expected = "    threads used: 4\n    total tests ran: 12\n    total runtime: 5ms\n\n\
                    \n    mean: 1.5ms\n    median: 1.5ms\n    deviation: 0ns\n\n\
                    \n    min: 1.5ms\n    max: 1.5ms\n    diff: 0ns\n";
    assert_eq!(b.report().unwrap(), expected);
}

#[test]
fn report_counts_all_accumulated_samples() {
    let mut b = BenchMarker::<Noop>::new(12, 1);
    b.record(vec![vec![7; 12]], 3).unwrap();
    b.record(vec![vec![7; 12]], 3).unwrap();
    b.set_display_config(vec![DisplayCfg::SysInfo]);
    assert_eq!(
        b.report().unwrap(),
        "    threads used: 12\n    total tests ran: 24\n    total runtime: 6ns\n\n"
    );
    let lines = b.report_lines().unwrap();
    assert!(lines.iter().all(|l| l.emphasis == Emphasis::System));
}

#[test]
fn report_follows_repeats_and_omissions() {
    let mut b = harness_with(4, vec![vec![1, 2, 3, 4], vec![5, 6, 7, 8]], 1);
    b.set_display_config(vec![
        DisplayCfg::Median,
        DisplayCfg::Median,
        DisplayCfg::Space,
        DisplayCfg::AbsDiff,
        DisplayCfg::Quartiles,
        DisplayCfg::QuartileMin,
        DisplayCfg::QuartileMax,
        DisplayCfg::AbsMin,
        DisplayCfg::AbsMax,
    ]);
    assert_eq!(
        b.report().unwrap(),
        "    median: 5ns\n    median: 5ns\n\n    diff: 7ns\n    Q1: 3ns\n    Q2: 5ns\n    Q3: 7ns\n\
         \x20   quartile min: 0ns\n    quartile max: 1ns\n    min: 1ns\n    max: 8ns\n"
    );
}

#[test]
fn empty_section_list_renders_nothing() {
    let mut b = harness_with(4, vec![vec![1, 2, 3, 4]], 1);
    b.set_display_config(vec![]);
    assert_eq!(b.report().unwrap(), "");
    assert!(b.report_lines().unwrap().is_empty());
}

#[test]
fn deviation_section_is_followed_by_a_blank_line() {
    let mut b = harness_with(2, vec![vec![1, 1], vec![1, 1000]], 1);
    b.set_display_config(vec![DisplayCfg::Deviation]);
    let lines = b.report_lines().unwrap();
    assert_eq!(lines.len(), 2);
    assert_eq!(lines[0].text, "    deviation: 1ns");
    assert_eq!(lines[0].emphasis, Emphasis::Shape);
    assert_eq!(lines[1].text, "");
}
