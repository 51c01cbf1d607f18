//! The orchestrator: generates the dataset once, then runs every
//! registered strategy against every query class in a fixed order,
//! wrapping each invocation with the instrumentation probe and
//! forwarding each measurement to the recorder.

use vstd::prelude::*;

use crate::dataset::{BenchError, DatasetGenerator, SortedArray};
use crate::metric::{Measurement, MetricRecorder, QueryLabel};
use crate::probe::measure;
use crate::search::{
    contains_value, search_correct, strategy_result, SearchResult, StrategyKind,
};

verus! {

/// The run's configuration: array size, half-open value range, and an
/// optional fixed seed for reproducible runs.
#[derive(Clone, Copy, Debug)]
pub struct BenchConfig {
    pub n: usize,
    pub min: i32,
    pub max: i32,
    pub seed: Option<u64>,
}

/// The orchestration states of one run.
#[derive(Clone, Copy, Debug, PartialEq, Eq, Structural)]
pub enum RunState {
    Init,
    Generated,
    Running,
    Done,
}

/// The fixed execution order of the query classes.
pub open spec fn query_order(q: int) -> QueryLabel {
    if q == 0 {
        QueryLabel::First
    } else if q == 1 {
        QueryLabel::Last
    } else if q == 2 {
        QueryLabel::Middle
    } else if q == 3 {
        QueryLabel::BelowRange
    } else {
        QueryLabel::AboveRange
    }
}

/// The fixed registration order of the strategies.
pub open spec fn strategy_order(s: int) -> StrategyKind {
    if s == 0 {
        StrategyKind::Linear
    } else if s == 1 {
        StrategyKind::Binary
    } else if s == 2 {
        StrategyKind::Jump
    } else {
        StrategyKind::Interpolation
    }
}

/// The query classes whose target is guaranteed present in the array.
pub open spec fn query_present(q: QueryLabel) -> bool {
    q is First || q is Last || q is Middle
}

/// The target value a query class stands for, given the dataset and
/// the configured range.
pub open spec fn target_of(q: QueryLabel, data: Seq<i32>, min: i32, max: i32) -> i32 {
    match q {
        QueryLabel::First => data[0],
        QueryLabel::Last => data[data.len() - 1],
        QueryLabel::Middle => data[data.len() as int / 2],
        QueryLabel::BelowRange => (min - 1) as i32,
        QueryLabel::AboveRange => max,
    }
}

/// What one recorded measurement of a completed run satisfies: its
/// position `k` fixes its sequence number, query class and strategy,
/// and its outcome is exactly what that strategy computes for that
/// query's target — `Found` for the present classes, `NotFound` for
/// the absent ones.
pub open spec fn measurement_ok(cfg: BenchConfig, data: Seq<i32>, k: int, m: Measurement) -> bool {
    &&& m.seq_no == k + 1
    &&& m.query == query_order(k / 4)
    &&& m.strategy == strategy_order(k % 4)
    &&& m.outcome == strategy_result(
        m.strategy,
        data,
        target_of(m.query, data, cfg.min, cfg.max),
    )
    &&& search_correct(data, target_of(m.query, data, cfg.min, cfg.max), m.outcome)
    &&& (query_present(m.query) <==> m.outcome is Found)
}

/// What a completed run guarantees: a well-formed dataset of the
/// configured size and range, and exactly 5 queries times 4 strategies
/// equals 20 measurements, in order.
pub open spec fn run_report_ok(cfg: BenchConfig, d: SortedArray, ms: Seq<Measurement>) -> bool {
    &&& d.wf()
    &&& d@.len() == cfg.n
    &&& forall|i: int| 0 <= i < d@.len() ==> cfg.min <= #[trigger] d@[i] < cfg.max
    &&& ms.len() == 20
    &&& forall|k: int| 0 <= k < 20 ==> measurement_ok(cfg, d@, k, #[trigger] ms[k])
}

/// Orchestrates one strictly sequential benchmark run.
pub struct BenchmarkRunner {
    pub state: RunState,
    pub recorder: MetricRecorder,
    pub dataset: Option<SortedArray>,
}

/// The query class at a position of the fixed order.
fn query_at(q: usize) -> (label: QueryLabel)
    requires
        q < 5,
    ensures
        label == query_order(q as int),
{
    if q == 0 {
        QueryLabel::First
    } else if q == 1 {
        QueryLabel::Last
    } else if q == 2 {
        QueryLabel::Middle
    } else if q == 3 {
        QueryLabel::BelowRange
    } else {
        QueryLabel::AboveRange
    }
}

/// The strategy at a position of the fixed order.
fn strategy_at(s: usize) -> (kind: StrategyKind)
    requires
        s < 4,
    ensures
        kind == strategy_order(s as int),
{
    if s == 0 {
        StrategyKind::Linear
    } else if s == 1 {
        StrategyKind::Binary
    } else if s == 2 {
        StrategyKind::Jump
    } else {
        StrategyKind::Interpolation
    }
}

impl BenchmarkRunner {
    /// A fresh runner, before any dataset exists.
    pub fn new() -> (r: BenchmarkRunner)
        ensures
            r.state is Init,
            r.recorder@ == Seq::<Measurement>::empty(),
            r.dataset is None,
    {
        BenchmarkRunner {
            state: RunState::Init,
            recorder: MetricRecorder::new(),
            dataset: None,
        }
    }

    /// Runs the whole benchmark: one dataset generation, then for each
    /// query class and each strategy, in fixed order, one probed
    /// invocation and one recorded measurement. A generation failure
    /// aborts before any measurement is taken.
    pub fn run(&mut self, cfg: &BenchConfig) -> (res: Result<(), BenchError>)
        requires
            old(self).state is Init,
            old(self).recorder@.len() == 0,
            cfg.min > i32::MIN,
        ensures
            res is Ok <==> (cfg.n >= 1 && cfg.min < cfg.max),
            res matches Err(e) ==> {
                &&& e == BenchError::InvalidParameters
                &&& final(self).state is Init
                &&& final(self).recorder@.len() == 0
            },
            res is Ok ==> {
                &&& final(self).state is Done
                &&& final(self).dataset matches Some(d)
                    && run_report_ok(*cfg, d, final(self).recorder@)
            },
    {
        let generator = match cfg.seed {
            Some(s) => DatasetGenerator::with_seed(s),
            None => DatasetGenerator::new(),
        };
        let data = match generator.generate(cfg.n, cfg.min, cfg.max) {
            Ok(d) => d,
            Err(e) => {
                return Err(e);
            },
        };
        self.state = RunState::Generated;
        let n = data.len();
        let mut q: usize = 0;
        while q < 5
            invariant
                cfg.n >= 1,
                cfg.min < cfg.max,
                cfg.min > i32::MIN,
                data.wf(),
                data@.len() == cfg.n,
                n == data@.len(),
                forall|i: int| 0 <= i < data@.len() ==> cfg.min <= #[trigger] data@[i] < cfg.max,
                q <= 5,
                self.recorder@.len() == q * 4,
                forall|k: int|
                    0 <= k < q * 4 ==> measurement_ok(*cfg, data@, k, #[trigger] self.recorder@[k]),
            decreases 5 - q,
        {
            let label = query_at(q);
            let target: i32 = match label {
                QueryLabel::First => data.get(0),
                QueryLabel::Last => data.get(n - 1),
                QueryLabel::Middle => data.get(n / 2),
                QueryLabel::BelowRange => cfg.min - 1,
                QueryLabel::AboveRange => cfg.max,
            };
            assert(target == target_of(label, data@, cfg.min, cfg.max));
            let mut s: usize = 0;
            while s < 4
                invariant
                    cfg.n >= 1,
                    cfg.min < cfg.max,
                    cfg.min > i32::MIN,
                    data.wf(),
                    data@.len() == cfg.n,
                    n == data@.len(),
                    forall|i: int|
                        0 <= i < data@.len() ==> cfg.min <= #[trigger] data@[i] < cfg.max,
                    q < 5,
                    s <= 4,
                    label == query_order(q as int),
                    target == target_of(label, data@, cfg.min, cfg.max),
                    self.recorder@.len() == q * 4 + s,
                    forall|k: int|
                        0 <= k < q * 4 + s ==> measurement_ok(
                            *cfg,
                            data@,
                            k,
                            #[trigger] self.recorder@[k],
                        ),
                decreases 4 - s,
            {
                self.state = RunState::Running;
                let kind = strategy_at(s);
                let seq_no: u64 = (q * 4 + s + 1) as u64;
                let data_ref = &data;
                let operation = || -> (r: SearchResult)
                    ensures
                        r == strategy_result(kind, data_ref@, target),
                        search_correct(data_ref@, target, r),
                    {
                        data_ref.search(kind, target)
                    };
                let m = measure(kind, label, seq_no, operation);
                proof {
                    let k = q * 4 + s;
                    vstd::arithmetic::div_mod::lemma_fundamental_div_mod_converse(
                        k as int,
                        4,
                        q as int,
                        s as int,
                    );
                    assert(m.outcome == strategy_result(kind, data@, target));
                    assert(search_correct(data@, target, m.outcome));
                    if query_present(label) {
                        assert(contains_value(data@, target)) by {
                            match label {
                                QueryLabel::First => {
                                    assert(data@[0] == target);
                                },
                                QueryLabel::Last => {
                                    assert(data@[data@.len() - 1] == target);
                                },
                                QueryLabel::Middle => {
                                    assert(data@[data@.len() as int / 2] == target);
                                },
                                _ => {},
                            }
                        }
                        assert(m.outcome is Found);
                    } else {
                        assert(!contains_value(data@, target)) by {
                            if contains_value(data@, target) {
                                let w = choose|i: int|
                                    0 <= i < data@.len() && data@[i] == target;
                                assert(cfg.min <= data@[w] < cfg.max);
                            }
                        }
                        assert(m.outcome is NotFound);
                    }
                    assert(measurement_ok(*cfg, data@, k as int, m));
                }
                self.recorder.record(m);
                s = s + 1;
            }
            q = q + 1;
        }
        self.dataset = Some(data);
        self.state = RunState::Done;
        Ok(())
    }
}

} // verus!
