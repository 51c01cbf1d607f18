//! Structured telemetry: the immutable per-execution `Measurement`
//! record, the append-only `MetricRecorder`, and the delimited-row
//! rendering used for the durable sink.

use vstd::prelude::*;
use vstd::string::StringExecFns;

use crate::search::{SearchResult, StrategyKind};

verus! {

/// The symbolic class of a search target: present by construction
/// (`first`, `last`, `middle`) or absent by construction
/// (`below_range`, `above_range`).
#[derive(Clone, Copy, Debug, PartialEq, Eq, Structural)]
pub enum QueryLabel {
    First,
    Last,
    Middle,
    BelowRange,
    AboveRange,
}

/// One immutable record per (strategy, query) execution.
pub struct Measurement {
    /// Monotonically increasing position within the run, starting at 1.
    pub seq_no: u64,
    /// Wall-clock timestamp taken when the record was created.
    pub timestamp: String,
    /// The strategy that was executed.
    pub strategy: StrategyKind,
    /// The class of target that was searched for.
    pub query: QueryLabel,
    /// Elapsed wall-clock time of the single strategy invocation.
    pub elapsed_ms: u64,
    /// Resident-memory delta around the invocation, in kibibytes;
    /// negative or zero values are accepted measurement artifacts.
    pub memory_delta_kb: i64,
    /// Whether both memory samples were available; when not, the
    /// delta degrades to zero instead of aborting the run.
    pub memory_sampled: bool,
    /// What the strategy reported.
    pub outcome: SearchResult,
}

/// The strategy's name as written in the durable sink.
pub open spec fn strategy_name_spec(k: StrategyKind) -> Seq<char> {
    match k {
        StrategyKind::Linear => "LinearSearch"@,
        StrategyKind::Binary => "BinarySearch"@,
        StrategyKind::Jump => "JumpSearch"@,
        StrategyKind::Interpolation => "InterpolationSearch"@,
    }
}

/// The query label as written in the durable sink.
pub open spec fn query_label_spec(q: QueryLabel) -> Seq<char> {
    match q {
        QueryLabel::First => "first"@,
        QueryLabel::Last => "last"@,
        QueryLabel::Middle => "middle"@,
        QueryLabel::BelowRange => "below_range"@,
        QueryLabel::AboveRange => "above_range"@,
    }
}

/// The strategy's sink name.
pub fn strategy_name(k: StrategyKind) -> (s: &'static str)
    ensures
        s@ == strategy_name_spec(k),
{
    match k {
        StrategyKind::Linear => "LinearSearch",
        StrategyKind::Binary => "BinarySearch",
        StrategyKind::Jump => "JumpSearch",
        StrategyKind::Interpolation => "InterpolationSearch",
    }
}

/// The query label's sink name.
pub fn query_label(q: QueryLabel) -> (s: &'static str)
    ensures
        s@ == query_label_spec(q),
{
    match q {
        QueryLabel::First => "first",
        QueryLabel::Last => "last",
        QueryLabel::Middle => "middle",
        QueryLabel::BelowRange => "below_range",
        QueryLabel::AboveRange => "above_range",
    }
}

/// The decimal digit standing for a value below ten.
pub open spec fn dec_digit_char(d: int) -> char {
    if d == 0 {
        '0'
    } else if d == 1 {
        '1'
    } else if d == 2 {
        '2'
    } else if d == 3 {
        '3'
    } else if d == 4 {
        '4'
    } else if d == 5 {
        '5'
    } else if d == 6 {
        '6'
    } else if d == 7 {
        '7'
    } else if d == 8 {
        '8'
    } else {
        '9'
    }
}

/// The usual decimal numeral of a non-negative number: most
/// significant digit first, no leading zeros (a lone zero for zero).
pub open spec fn dec_digits(n: int) -> Seq<char>
    recommends
        n >= 0,
    decreases n,
{
    if n < 10 {
        seq![dec_digit_char(n)]
    } else {
        dec_digits(n / 10).push(dec_digit_char(n % 10))
    }
}

/// A one-character string for a decimal digit.
fn digit_str(d: u64) -> (s: &'static str)
    requires
        d < 10,
    ensures
        s@ == seq![dec_digit_char(d as int)],
{
    let s: &'static str = if d == 0 {
        "0"
    } else if d == 1 {
        "1"
    } else if d == 2 {
        "2"
    } else if d == 3 {
        "3"
    } else if d == 4 {
        "4"
    } else if d == 5 {
        "5"
    } else if d == 6 {
        "6"
    } else if d == 7 {
        "7"
    } else if d == 8 {
        "8"
    } else {
        "9"
    };
    proof {
        reveal_strlit("0");
        reveal_strlit("1");
        reveal_strlit("2");
        reveal_strlit("3");
        reveal_strlit("4");
        reveal_strlit("5");
        reveal_strlit("6");
        reveal_strlit("7");
        reveal_strlit("8");
        reveal_strlit("9");
        assert(s@ =~= seq![dec_digit_char(d as int)]);
    }
    s
}

/// Renders a number as its decimal numeral.
pub fn u64_to_string(n: u64) -> (s: String)
    ensures
        s@ == dec_digits(n as int),
    decreases n,
{
    if n < 10 {
        String::from_str(digit_str(n))
    } else {
        let mut s = u64_to_string(n / 10);
        let d = digit_str(n % 10);
        s.append(d);
        proof {
            assert(s@ =~= dec_digits((n / 10) as int).push(dec_digit_char((n % 10) as int)));
        }
        s
    }
}

/// The sink's rendering of a memory delta in kibibytes as a whole
/// number of mebibytes, truncated toward zero, with a leading minus
/// sign only when at least one whole mebibyte was released.
pub open spec fn mb_of_kb(kb: int) -> Seq<char> {
    let mag = vstd::math::abs(kb) / 1024;
    if kb < 0 && mag > 0 {
        seq!['-'] + dec_digits(mag as int)
    } else {
        dec_digits(mag as int)
    }
}

/// Renders a memory delta in kibibytes as whole mebibytes.
pub fn mb_string(kb: i64) -> (s: String)
    ensures
        s@ == mb_of_kb(kb as int),
{
    if kb >= 0 {
        let mag: u64 = (kb as u64) / 1024;
        u64_to_string(mag)
    } else {
        let neg: i128 = -(kb as i128);
        let mag: u64 = ((neg / 1024) as u64);
        assert(mag == vstd::math::abs(kb as int) / 1024);
        if mag == 0 {
            let s = u64_to_string(0);
            proof {
                assert(s@ =~= mb_of_kb(kb as int));
            }
            s
        } else {
            let mut s = String::from_str("-");
            let digits = u64_to_string(mag);
            s.append(digits.as_str());
            proof {
                reveal_strlit("-");
                assert(s@ =~= mb_of_kb(kb as int));
            }
            s
        }
    }
}

/// The sink's header row: the five column names, comma-delimited.
pub open spec fn header_spec() -> Seq<char> {
    "timestamp,strategy,query_label,elapsed_ms,memory_delta_mb"@
}

/// One sink row for a measurement: its five columns, comma-delimited.
pub open spec fn row_spec(m: Measurement) -> Seq<char> {
    m.timestamp@ + ","@ + strategy_name_spec(m.strategy) + ","@ + query_label_spec(m.query) + ","@
        + dec_digits(m.elapsed_ms as int) + ","@ + mb_of_kb(m.memory_delta_kb as int)
}

/// Renders the sink's header row.
pub fn render_header() -> (s: String)
    ensures
        s@ == header_spec(),
{
    String::from_str("timestamp,strategy,query_label,elapsed_ms,memory_delta_mb")
}

/// Renders one sink row for a measurement.
pub fn render_row(m: &Measurement) -> (s: String)
    ensures
        s@ == row_spec(*m),
{
    let mut s = m.timestamp.clone();
    s.append(",");
    s.append(strategy_name(m.strategy));
    s.append(",");
    s.append(query_label(m.query));
    s.append(",");
    let elapsed = u64_to_string(m.elapsed_ms);
    s.append(elapsed.as_str());
    s.append(",");
    let mb = mb_string(m.memory_delta_kb);
    s.append(mb.as_str());
    s
}

/// Accumulates measurements in insertion order and renders them for
/// the durable append-only sink. Entries are never removed or
/// rewritten.
pub struct MetricRecorder {
    entries: Vec<Measurement>,
}

impl View for MetricRecorder {
    type V = Seq<Measurement>;

    closed spec fn view(&self) -> Seq<Measurement> {
        self.entries@
    }
}

/// An exact copy of a measurement.
fn copy_measurement(m: &Measurement) -> (c: Measurement)
    ensures
        c == *m,
{
    Measurement {
        seq_no: m.seq_no,
        timestamp: m.timestamp.clone(),
        strategy: m.strategy,
        query: m.query,
        elapsed_ms: m.elapsed_ms,
        memory_delta_kb: m.memory_delta_kb,
        memory_sampled: m.memory_sampled,
        outcome: m.outcome,
    }
}

impl MetricRecorder {
    /// An empty recorder.
    pub fn new() -> (r: MetricRecorder)
        ensures
            r@ == Seq::<Measurement>::empty(),
    {
        MetricRecorder { entries: Vec::new() }
    }

    /// The number of measurements recorded so far.
    pub fn len(&self) -> (n: usize)
        ensures
            n == self@.len(),
    {
        self.entries.len()
    }

    /// A read-only borrow of one recorded measurement.
    pub fn entry(&self, i: usize) -> (m: &Measurement)
        requires
            i < self@.len(),
        ensures
            *m == self@[i as int],
    {
        &self.entries[i]
    }

    /// Appends a measurement; prior entries are untouched.
    pub fn record(&mut self, m: Measurement)
        ensures
            final(self)@ == old(self)@.push(m),
    {
        self.entries.push(m);
    }

    /// A read-only copy of everything recorded so far, in insertion
    /// order.
    pub fn snapshot(&self) -> (v: Vec<Measurement>)
        ensures
            v@ == self@,
    {
        let n = self.entries.len();
        let mut v: Vec<Measurement> = Vec::new();
        let mut i: usize = 0;
        while i < n
            invariant
                i <= n,
                n == self@.len(),
                v@.len() == i,
                forall|j: int| 0 <= j < i ==> v@[j] == self@[j],
            decreases n - i,
        {
            v.push(copy_measurement(&self.entries[i]));
            i = i + 1;
        }
        proof {
            assert(v@ =~= self@);
        }
        v
    }

    /// The sink rows of the recorded measurements, in insertion
    /// order, without a header.
    pub fn rows(&self) -> (lines: Vec<String>)
        ensures
            lines@.len() == self@.len(),
            forall|i: int| 0 <= i < self@.len() ==> (#[trigger] lines@[i])@ == row_spec(self@[i]),
    {
        let n = self.entries.len();
        let mut lines: Vec<String> = Vec::new();
        let mut i: usize = 0;
        while i < n
            invariant
                i <= n,
                n == self@.len(),
                lines@.len() == i,
                forall|j: int| 0 <= j < i ==> (#[trigger] lines@[j])@ == row_spec(self@[j]),
            decreases n - i,
        {
            lines.push(render_row(&self.entries[i]));
            i = i + 1;
        }
        lines
    }

    /// The full contents of a freshly created sink: a single header
    /// row, then one row per measurement in insertion order.
    pub fn sink_lines(&self) -> (lines: Vec<String>)
        ensures
            lines@.len() == self@.len() + 1,
            (lines@[0])@ == header_spec(),
            forall|i: int|
                0 <= i < self@.len() ==> (#[trigger] lines@[i + 1])@ == row_spec(self@[i]),
    {
        let mut lines: Vec<String> = Vec::new();
        lines.push(render_header());
        let mut rest = self.rows();
        let n = rest.len();
        let mut i: usize = 0;
        while i < n
            invariant
                i <= n,
                n == rest@.len(),
                rest@.len() == self@.len(),
                forall|j: int| 0 <= j < n ==> (#[trigger] rest@[j])@ == row_spec(self@[j]),
                lines@.len() == i + 1,
                (lines@[0])@ == header_spec(),
                forall|j: int| 0 <= j < i ==> (#[trigger] lines@[j + 1])@ == row_spec(self@[j]),
            decreases n - i,
        {
            let row = rest[i].clone();
            lines.push(row);
            i = i + 1;
        }
        lines
    }
}

} // verus!
