use search_bench::dataset::BenchError;
use search_bench::metric::QueryLabel;
use search_bench::probe::measure;
use search_bench::runner::{BenchConfig, BenchmarkRunner, RunState};
use search_bench::search::{SearchResult, StrategyKind};
use search_bench::vehicle::Vehicle;

#[test]
fn probe_invokes_operation_once() {
    let m = measure(StrategyKind::Binary, QueryLabel::Middle, 9, || SearchResult::Found(4));
    assert_eq!(m.seq_no, 9);
    assert_eq!(m.strategy, StrategyKind::Binary);
    assert_eq!(m.query, QueryLabel::Middle);
    assert_eq!(m.outcome, SearchResult::Found(4));
    if !m.memory_sampled {
        assert_eq!(m.memory_delta_kb, 0);
    }
}

#[test]
fn run_rejects_invalid_parameters() {
    let mut runner = BenchmarkRunner::new();
    let cfg = BenchConfig { n: 0, min: 1000, max: 10000, seed: Some(1) };
    assert_eq!(runner.run(&cfg), Err(BenchError::InvalidParameters));
    assert_eq!(runner.state, RunState::Init);
    assert_eq!(runner.recorder.len(), 0);

    let mut runner = BenchmarkRunner::new();
    let cfg = BenchConfig { n: 10, min: 10000, max: 1000, seed: Some(1) };
    assert_eq!(runner.run(&cfg), Err(BenchError::InvalidParameters));
    assert_eq!(runner.recorder.len(), 0);
}

#[test]
fn full_run_produces_twenty_ordered_measurements() {
    let mut runner = BenchmarkRunner::new();
    let cfg = BenchConfig { n: 1000, min: 1000, max: 10000, seed: Some(42) };
    assert_eq!(runner.run(&cfg), Ok(()));
    assert_eq!(runner.state, RunState::Done);
    assert_eq!(runner.recorder.len(), 20);

    let expected_queries = [
        QueryLabel::First,
        QueryLabel::Last,
        QueryLabel::Middle,
        QueryLabel::BelowRange,
        QueryLabel::AboveRange,
    ];
    let expected_strategies = [
        StrategyKind::Linear,
        StrategyKind::Binary,
        StrategyKind::Jump,
        StrategyKind::Interpolation,
    ];
    for k in 0..20 {
        let m = runner.recorder.entry(k);
        assert_eq!(m.seq_no, (k + 1) as u64);
        assert_eq!(m.query, expected_queries[k / 4]);
        assert_eq!(m.strategy, expected_strategies[k % 4]);
        let present = k / 4 < 3;
        match m.outcome {
            SearchResult::Found(_) => assert!(present),
            SearchResult::NotFound => assert!(!present),
        }
    }

    let dataset = runner.dataset.as_ref().expect("dataset kept after the run");
    assert_eq!(dataset.len(), 1000);
    for i in 0..dataset.len() {
        let v = dataset.get(i);
        assert!((1000..10000).contains(&v));
    }

    let lines = runner.recorder.sink_lines();
    assert_eq!(lines.len(), 21);
    assert_eq!(lines[0], "timestamp,strategy,query_label,elapsed_ms,memory_delta_mb");
    let header_count = lines
        .iter()
        .filter(|l| l.as_str() == "timestamp,strategy,query_label,elapsed_ms,memory_delta_mb")
        .count();
    assert_eq!(header_count, 1);
    assert!(lines[1].contains("LinearSearch") && lines[1].contains(",first,"));
    assert!(lines[20].contains("InterpolationSearch") && lines[20].contains(",above_range,"));
}

#[test]
fn run_with_same_seed_finds_same_dataset() {
    let cfg = BenchConfig { n: 64, min: -50, max: 50, seed: Some(7) };
    let mut first = BenchmarkRunner::new();
    let mut second = BenchmarkRunner::new();
    assert_eq!(first.run(&cfg), Ok(()));
    assert_eq!(second.run(&cfg), Ok(()));
    let a = first.dataset.expect("dataset kept");
    let b = second.dataset.expect("dataset kept");
    assert_eq!(a.as_vec(), b.as_vec());
}

#[test]
fn vehicle_record_holds_fields() {
    let v = Vehicle::new(
        String::from("Toyota"),
        String::from("Camry"),
        String::from("id-1"),
        2020,
    );
    assert_eq!(v.maker, "Toyota");
    assert_eq!(v.model, "Camry");
    assert_eq!(v.id, "id-1");
    assert_eq!(v.year, 2020);
}
