//! Generation of the sorted input array: uniform random values over a
//! half-open range, sorted ascending into an immutable-once-built
//! `SortedArray`.

use vstd::prelude::*;

use crate::search::{
    search_correct, sorted, strategy_result, SearchResult, StrategyKind,
};

verus! {

/// The harness's error taxonomy. A rejected generator configuration is
/// the only fatal condition; an absent search target is an ordinary
/// `SearchResult`, never an error.
#[derive(Clone, Copy, Debug, PartialEq, Eq, Structural)]
pub enum BenchError {
    InvalidParameters,
}

/// An ordered, immutable-once-built sequence of signed 32-bit
/// integers. Never mutated once handed to a search strategy.
#[derive(Debug)]
pub struct SortedArray {
    values: Vec<i32>,
}

impl View for SortedArray {
    type V = Seq<i32>;

    closed spec fn view(&self) -> Seq<i32> {
        self.values@
    }
}

impl SortedArray {
    /// The invariant every constructor establishes: non-decreasing
    /// order.
    pub open spec fn wf(&self) -> bool {
        sorted(self@)
    }

    /// Builds the array from arbitrary values by sorting them
    /// ascending; holds exactly the values given.
    pub fn from_values(values: Vec<i32>) -> (a: SortedArray)
        ensures
            a.wf(),
            a@.to_multiset() == values@.to_multiset(),
            a@.len() == values@.len(),
            forall|i: int| 0 <= i < a@.len() ==> values@.contains(#[trigger] a@[i]),
    {
        let sorted_values = insertion_sorted(&values);
        proof {
            broadcast use vstd::seq_lib::group_to_multiset_ensures;

            assert forall|i: int| 0 <= i < sorted_values@.len() implies values@.contains(
                #[trigger] sorted_values@[i],
            ) by {
                assert(sorted_values@.contains(sorted_values@[i]));
                assert(sorted_values@.to_multiset().count(sorted_values@[i]) > 0);
            }
        }
        SortedArray { values: sorted_values }
    }

    /// The number of values held.
    pub fn len(&self) -> (n: usize)
        ensures
            n == self@.len(),
    {
        self.values.len()
    }

    /// The value at a position.
    pub fn get(&self, i: usize) -> (x: i32)
        requires
            i < self@.len(),
        ensures
            x == self@[i as int],
    {
        self.values[i]
    }

    /// A read-only borrow of the underlying values.
    pub fn as_vec(&self) -> (v: &Vec<i32>)
        ensures
            v@ == self@,
    {
        &self.values
    }

    /// Runs the given strategy against this array.
    pub fn search(&self, kind: StrategyKind, target: i32) -> (r: SearchResult)
        requires
            self.wf(),
        ensures
            r == strategy_result(kind, self@, target),
            search_correct(self@, target, r),
    {
        kind.search(&self.values, target)
    }
}

#[verifier::external_type_specification]
#[verifier::external_body]
pub struct ExStdRng(rand::rngs::StdRng);

/// Relies on rand's `SeedableRng::seed_from_u64` for `StdRng`: builds
/// a pseudo-random generator from a 64-bit seed. Nothing is promised
/// of the values it will yield.
#[verifier::external_body]
fn rng_from_seed(seed: u64) -> rand::rngs::StdRng {
    <rand::rngs::StdRng as rand::SeedableRng>::seed_from_u64(seed)
}

/// Relies on rand's `SeedableRng::from_entropy` for `StdRng`: builds a
/// generator seeded from the operating system. Nothing is promised of
/// the values it will yield.
#[verifier::external_body]
fn rng_from_entropy() -> rand::rngs::StdRng {
    <rand::rngs::StdRng as rand::SeedableRng>::from_entropy()
}

/// Relies on rand's `Rng::gen_range` over the half-open range
/// `min..max`: it panics only on an empty range, which the
/// precondition rules out, and every sample lies within the range.
#[verifier::external_body]
fn rng_range(rng: &mut rand::rngs::StdRng, min: i32, max: i32) -> (r: i32)
    requires
        min < max,
    ensures
        min <= r < max,
{
    rand::Rng::gen_range(rng, min..max)
}

/// Produces the sorted input array: `n` independent uniform-random
/// values in `[min, max)`, sorted ascending. An optional fixed seed
/// makes runs reproducible.
pub struct DatasetGenerator {
    pub seed: Option<u64>,
}

impl DatasetGenerator {
    /// A generator seeded from the operating system.
    pub fn new() -> (g: DatasetGenerator)
        ensures
            g.seed is None,
    {
        DatasetGenerator { seed: None }
    }

    /// A generator with a fixed seed, for reproducible runs.
    pub fn with_seed(seed: u64) -> (g: DatasetGenerator)
        ensures
            g.seed == Some(seed),
    {
        DatasetGenerator { seed: Some(seed) }
    }

    /// Draws `n` uniform-random values in `[min, max)` and sorts them
    /// ascending. Fails exactly on invalid parameters: an empty array
    /// or an empty range.
    pub fn generate(&self, n: usize, min: i32, max: i32) -> (res: Result<SortedArray, BenchError>)
        ensures
            res is Err <==> (n == 0 || min >= max),
            res matches Err(e) ==> e == BenchError::InvalidParameters,
            res matches Ok(a) ==> {
                &&& a.wf()
                &&& a@.len() == n
                &&& forall|i: int| 0 <= i < a@.len() ==> min <= #[trigger] a@[i] < max
            },
    {
        if n == 0 || min >= max {
            return Err(BenchError::InvalidParameters);
        }
        let mut rng = match self.seed {
            Some(s) => rng_from_seed(s),
            None => rng_from_entropy(),
        };
        let mut values: Vec<i32> = Vec::new();
        let mut i: usize = 0;
        while i < n
            invariant
                i <= n,
                min < max,
                values@.len() == i,
                forall|j: int| 0 <= j < values@.len() ==> min <= #[trigger] values@[j] < max,
            decreases n - i,
        {
            let x = rng_range(&mut rng, min, max);
            values.push(x);
            i = i + 1;
        }
        let a = SortedArray::from_values(values);
        proof {
            assert forall|i2: int| 0 <= i2 < a@.len() implies min <= #[trigger] a@[i2] < max by {
                let j = choose|j: int| 0 <= j < values@.len() && values@[j] == a@[i2];
            }
        }
        Ok(a)
    }
}

/// Sorts into a fresh vector by insertion: each value goes in front of
/// the first strictly greater element of the sorted prefix.
fn insertion_sorted(v: &Vec<i32>) -> (r: Vec<i32>)
    ensures
        sorted(r@),
        r@.to_multiset() == v@.to_multiset(),
        r@.len() == v@.len(),
{
    broadcast use vstd::seq_lib::group_to_multiset_ensures;

    let n = v.len();
    let mut r: Vec<i32> = Vec::new();
    let mut idx: usize = 0;
    assert(v@.subrange(0, 0) =~= Seq::<i32>::empty());
    while idx < n
        invariant
            n == v.len(),
            idx <= n,
            r@.len() == idx,
            sorted(r@),
            r@.to_multiset() == v@.subrange(0, idx as int).to_multiset(),
        decreases n - idx,
    {
        let x = v[idx];
        let mut pos: usize = 0;
        while pos < r.len() && r[pos] <= x
            invariant
                pos <= r@.len(),
                forall|j: int| 0 <= j < pos ==> r@[j] <= x,
            decreases r@.len() - pos,
        {
            pos = pos + 1;
        }
        proof {
            broadcast use vstd::seq_lib::group_to_multiset_ensures;

            r@.insert_ensures(pos as int, x);
            let s2 = r@.insert(pos as int, x);
            assert forall|a: int, b: int| 0 <= a <= b < s2.len() implies s2[a] <= s2[b] by {
                if b < pos {
                    assert(s2[a] == r@[a] && s2[b] == r@[b]);
                } else if a < pos && b == pos {
                    assert(s2[a] == r@[a] && s2[b] == x);
                } else if a < pos && b > pos {
                    assert(s2[a] == r@[a] && s2[b] == r@[b - 1]);
                    assert(r@[pos as int] <= r@[b - 1]);
                } else if a == pos && b == pos {
                } else if a == pos && b > pos {
                    assert(s2[b] == r@[b - 1]);
                    assert(r@[pos as int] <= r@[b - 1]);
                } else {
                    assert(s2[a] == r@[a - 1] && s2[b] == r@[b - 1]);
                }
            }
            assert(v@.subrange(0, idx as int).push(x) =~= v@.subrange(0, idx + 1));
        }
        r.insert(pos, x);
        idx = idx + 1;
    }
    assert(v@.subrange(0, n as int) =~= v@);
    r
}

} // verus!
