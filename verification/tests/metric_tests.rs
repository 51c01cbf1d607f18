use search_bench::metric::{
    mb_string, render_header, render_row, u64_to_string, Measurement, MetricRecorder, QueryLabel,
};
use search_bench::search::{SearchResult, StrategyKind};

fn sample_measurement(seq_no: u64) -> Measurement {
    Measurement {
        seq_no,
        timestamp: String::from("t0"),
        strategy: StrategyKind::Linear,
        query: QueryLabel::First,
        elapsed_ms: 12,
        memory_delta_kb: 0,
        memory_sampled: true,
        outcome: SearchResult::Found(0),
    }
}

#[test]
fn decimal_rendering() {
    assert_eq!(u64_to_string(0), "0");
    assert_eq!(u64_to_string(7), "7");
    assert_eq!(u64_to_string(10), "10");
    assert_eq!(u64_to_string(12345), "12345");
    assert_eq!(u64_to_string(u64::MAX), "18446744073709551615");
}

#[test]
fn mebibyte_rendering() {
    assert_eq!(mb_string(0), "0");
    assert_eq!(mb_string(512), "0");
    assert_eq!(mb_string(1024), "1");
    assert_eq!(mb_string(2048), "2");
    assert_eq!(mb_string(1536), "1");
    assert_eq!(mb_string(-512), "0");
    assert_eq!(mb_string(-1024), "-1");
    assert_eq!(mb_string(-5000), "-4");
}

#[test]
fn header_columns() {
    assert_eq!(
        render_header(),
        "timestamp,strategy,query_label,elapsed_ms,memory_delta_mb"
    );
}

#[test]
fn row_rendering() {
    let m = sample_measurement(1);
    assert_eq!(render_row(&m), "t0,LinearSearch,first,12,0");
}

#[test]
fn row_rendering_negative_delta() {
    let mut m = sample_measurement(3);
    m.strategy = StrategyKind::Interpolation;
    m.query = QueryLabel::AboveRange;
    m.elapsed_ms = 0;
    m.memory_delta_kb = -2048;
    m.outcome = SearchResult::NotFound;
    assert_eq!(render_row(&m), "t0,InterpolationSearch,above_range,0,-2");
}

#[test]
fn recorder_appends_in_order() {
    let mut rec = MetricRecorder::new();
    assert_eq!(rec.len(), 0);
    rec.record(sample_measurement(1));
    rec.record(sample_measurement(2));
    rec.record(sample_measurement(3));
    assert_eq!(rec.len(), 3);
    assert_eq!(rec.entry(0).seq_no, 1);
    assert_eq!(rec.entry(1).seq_no, 2);
    assert_eq!(rec.entry(2).seq_no, 3);
}

#[test]
fn recorder_snapshot_copies_everything() {
    let mut rec = MetricRecorder::new();
    rec.record(sample_measurement(1));
    rec.record(sample_measurement(2));
    let snap = rec.snapshot();
    assert_eq!(snap.len(), 2);
    assert_eq!(snap[0].seq_no, 1);
    assert_eq!(snap[1].seq_no, 2);
    assert_eq!(snap[0].timestamp, "t0");
    // recording after a snapshot leaves the snapshot untouched
    rec.record(sample_measurement(3));
    assert_eq!(snap.len(), 2);
    assert_eq!(rec.len(), 3);
}

#[test]
fn sink_lines_have_single_header() {
    let mut rec = MetricRecorder::new();
    rec.record(sample_measurement(1));
    rec.record(sample_measurement(2));
    let lines = rec.sink_lines();
    assert_eq!(lines.len(), 3);
    assert_eq!(lines[0], "timestamp,strategy,query_label,elapsed_ms,memory_delta_mb");
    assert_eq!(lines[1], "t0,LinearSearch,first,12,0");
    assert_eq!(lines[2], "t0,LinearSearch,first,12,0");
}

#[test]
fn rows_have_no_header() {
    let mut rec = MetricRecorder::new();
    rec.record(sample_measurement(1));
    let lines = rec.rows();
    assert_eq!(lines.len(), 1);
    assert_eq!(lines[0], "t0,LinearSearch,first,12,0");
}
