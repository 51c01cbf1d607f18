//! The four search strategies, each a pure function over an immutable
//! sorted sequence of signed 32-bit integers.

use vstd::prelude::*;

verus! {

/// Outcome of one search: either the position of a value equal to the
/// target, or the statement that no such value exists.
#[derive(Clone, Copy, Debug, PartialEq, Eq, Structural)]
pub enum SearchResult {
    Found(usize),
    NotFound,
}

/// The sequence is in non-decreasing order.
pub open spec fn sorted(s: Seq<i32>) -> bool {
    forall|i: int, j: int| 0 <= i <= j < s.len() ==> s[i] <= s[j]
}

/// Some position of the sequence holds the target value.
pub open spec fn contains_value(s: Seq<i32>, target: i32) -> bool {
    exists|i: int| 0 <= i < s.len() && s[i] == target
}

/// What every strategy promises: `Found` exactly when the target is
/// present, and a reported index really holds the target.
pub open spec fn search_correct(s: Seq<i32>, target: i32, r: SearchResult) -> bool {
    &&& (match r {
        SearchResult::Found(i) => i < s.len() && s[i as int] == target,
        SearchResult::NotFound => !contains_value(s, target),
    })
    &&& (contains_value(s, target) ==> r is Found)
}

/// The first position holding the target, or `NotFound`: the exact
/// result of a scan in index order.
pub open spec fn first_match(s: Seq<i32>, target: i32) -> SearchResult {
    if contains_value(s, target) {
        SearchResult::Found(first_match_index(s, target) as usize)
    } else {
        SearchResult::NotFound
    }
}

/// The least index holding the target (meaningful only when present).
pub open spec fn first_match_index(s: Seq<i32>, target: i32) -> int {
    choose|i: int| 0 <= i < s.len() && s[i] == target
        && forall|j: int| 0 <= j < i ==> s[j] != target
}

/// Scans index 0..n in order and returns the first index whose value
/// equals the target. Exploits no ordering assumption.
pub fn linear_search(arr: &Vec<i32>, target: i32) -> (r: SearchResult)
    ensures
        r == first_match(arr@, target),
        search_correct(arr@, target, r),
{
    let n = arr.len();
    let mut i: usize = 0;
    while i < n
        invariant
            i <= n,
            n == arr.len(),
            forall|j: int| 0 <= j < i ==> arr@[j] != target,
        decreases n - i,
    {
        if arr[i] == target {
            proof {
                lemma_first_match_here(arr@, target, i as int);
            }
            return SearchResult::Found(i);
        }
        i = i + 1;
    }
    SearchResult::NotFound
}

/// The exact result of the classic three-way binary search on the
/// inclusive window `[lo, hi]`: probe the floor midpoint, then recurse
/// into the half that can still hold the target.
pub open spec fn binary_probe(s: Seq<i32>, target: i32, lo: int, hi: int) -> SearchResult
    decreases hi + 1 - lo,
{
    if lo > hi {
        SearchResult::NotFound
    } else {
        let mid = (lo + hi) / 2;
        if s[mid] == target {
            SearchResult::Found(mid as usize)
        } else if s[mid] < target {
            binary_probe(s, target, mid + 1, hi)
        } else {
            binary_probe(s, target, lo, mid - 1)
        }
    }
}

/// On a sorted window that confines every occurrence of the target,
/// the binary probe meets the shared search contract.
pub proof fn lemma_binary_probe_correct(s: Seq<i32>, target: i32, lo: int, hi: int)
    requires
        sorted(s),
        s.len() <= usize::MAX,
        0 <= lo,
        hi < s.len(),
        forall|j: int| 0 <= j < s.len() && s[j] == target ==> lo <= j <= hi,
    ensures
        search_correct(s, target, binary_probe(s, target, lo, hi)),
    decreases hi + 1 - lo,
{
    if lo > hi {
        assert(!contains_value(s, target)) by {
            if contains_value(s, target) {
                let w = choose|i: int| 0 <= i < s.len() && s[i] == target;
                assert(lo <= w <= hi);
            }
        }
    } else {
        let mid = (lo + hi) / 2;
        assert(lo <= mid <= hi);
        if s[mid] == target {
            assert(contains_value(s, target));
        } else if s[mid] < target {
            assert(forall|j: int| 0 <= j < s.len() && s[j] == target ==> mid + 1 <= j <= hi) by {
                assert(forall|j: int| 0 <= j <= mid ==> s[j] <= s[mid]);
            }
            lemma_binary_probe_correct(s, target, mid + 1, hi);
        } else {
            assert(forall|j: int| 0 <= j < s.len() && s[j] == target ==> lo <= j <= mid - 1) by {
                assert(forall|j: int| mid <= j < s.len() ==> s[mid] <= s[j]);
            }
            lemma_binary_probe_correct(s, target, lo, mid - 1);
        }
    }
}

/// Classic three-way comparison on a shrinking inclusive `[low, high]`
/// window with floor-midpoint probes; stops when the window empties.
pub fn binary_search(arr: &Vec<i32>, target: i32) -> (r: SearchResult)
    requires
        sorted(arr@),
    ensures
        r == binary_probe(arr@, target, 0, arr@.len() - 1),
        search_correct(arr@, target, r),
{
    let n = arr.len();
    proof {
        lemma_binary_probe_correct(arr@, target, 0, arr@.len() - 1);
    }
    if n == 0 {
        return SearchResult::NotFound;
    }
    let mut low: usize = 0;
    let mut high: usize = n - 1;
    while low <= high
        invariant
            sorted(arr@),
            n == arr.len(),
            n >= 1,
            high < n,
            low <= n,
            binary_probe(arr@, target, 0, n - 1) == binary_probe(
                arr@,
                target,
                low as int,
                high as int,
            ),
        decreases high + 1 - low,
    {
        let mid = low + (high - low) / 2;
        assert(mid as int == (low + high) / 2int);
        if arr[mid] == target {
            return SearchResult::Found(mid);
        } else if arr[mid] < target {
            proof {
                assert(binary_probe(arr@, target, low as int, high as int) == binary_probe(
                    arr@,
                    target,
                    mid + 1,
                    high as int,
                ));
            }
            low = mid + 1;
        } else {
            proof {
                assert(binary_probe(arr@, target, low as int, high as int) == binary_probe(
                    arr@,
                    target,
                    low as int,
                    mid - 1,
                ));
            }
            if mid == 0 {
                proof {
                    assert(binary_probe(arr@, target, low as int, mid - 1)
                        == SearchResult::NotFound);
                    lemma_binary_probe_correct(arr@, target, 0, arr@.len() - 1);
                }
                return SearchResult::NotFound;
            }
            high = mid - 1;
        }
    }
    SearchResult::NotFound
}

/// The integer square root: the largest `r` with `r * r <= n`.
pub fn isqrt(n: usize) -> (r: usize)
    ensures
        r * r <= n < (r + 1) * (r + 1),
        r <= n,
{
    let mut r: usize = 0;
    loop
        invariant
            r * r <= n,
            r <= n,
        decreases n - r,
    {
        assert(n as int <= 0xffff_ffff_ffff_ffff);
        assert(r < 0x1_0000_0000 && r + 1 <= usize::MAX) by (nonlinear_arith)
            requires
                r * r <= n,
                n as int <= 0xffff_ffff_ffff_ffff,
                n <= usize::MAX,
                usize::MAX >= 0xffff,
        {}
        let next = r + 1;
        let a = next as u128;
        assert(a * a <= 0x1_0000_0000_0000_0000) by (nonlinear_arith)
            requires
                a <= 0x1_0000_0000,
        {}
        if a * a > (n as u128) {
            return r;
        }
        assert(next * next >= next) by (nonlinear_arith)
            requires
                next >= 1,
        {}
        r = next;
    }
}

/// Advances a block pointer by the square-root step while the value at
/// the block boundary is below the target, then scans the located
/// block in index order, so the result is again the first match.
pub fn jump_search(arr: &Vec<i32>, target: i32) -> (r: SearchResult)
    requires
        sorted(arr@),
    ensures
        r == first_match(arr@, target),
        search_correct(arr@, target, r),
{
    let n = arr.len();
    if n == 0 {
        return SearchResult::NotFound;
    }
    let step = isqrt(n);
    assert(step >= 1) by (nonlinear_arith)
        requires
            step * step <= n < (step + 1) * (step + 1),
            n >= 1,
    {}
    let mut prev: usize = 0;
    while prev < n && arr[prev] < target
        invariant
            sorted(arr@),
            n == arr.len(),
            n >= 1,
            1 <= step <= n,
            prev <= n,
            prev == 0 || (step <= prev && prev - step < n && arr@[prev - step] < target),
        decreases n - prev,
    {
        if step < n - prev {
            prev = prev + step;
        } else {
            proof {
                assert(arr@[n - step] <= arr@[prev as int]);
            }
            prev = n;
        }
    }
    let start = if prev >= step {
        prev - step
    } else {
        0
    };
    let end = if prev < n {
        prev + 1
    } else {
        n
    };
    assert(forall|j: int| 0 <= j < start ==> arr@[j] < target) by {
        if prev > 0 {
            assert(arr@[prev - step] < target);
            assert(forall|j: int| 0 <= j <= prev - step ==> #[trigger] arr@[j] <= arr@[prev - step]);
        }
    }
    let mut i = start;
    while i < end
        invariant
            sorted(arr@),
            n == arr.len(),
            end <= n,
            start <= i <= end,
            forall|j: int| 0 <= j < start ==> arr@[j] < target,
            forall|j: int| start <= j < i ==> arr@[j] != target,
        decreases end - i,
    {
        if arr[i] == target {
            proof {
                lemma_first_match_here(arr@, target, i as int);
            }
            return SearchResult::Found(i);
        }
        i = i + 1;
    }
    assert(!contains_value(arr@, target)) by {
        if contains_value(arr@, target) {
            let w = choose|j: int| 0 <= j < arr@.len() && arr@[j] == target;
            if w < start {
                assert(arr@[w] < target);
            } else if w < end {
                assert(arr@[w] != target);
            } else {
                assert(prev < n);
                assert(arr@[prev as int] >= target);
                assert(arr@[prev as int] != target);
                assert(arr@[prev as int] <= arr@[w]);
            }
        }
    }
    SearchResult::NotFound
}

/// The exact result of interpolation search on the inclusive window
/// `[lo, hi]`: while the window can still hold the target, probe the
/// linearly interpolated position, treating equal window bounds as a
/// direct equality check. The probe position is clamped to the window
/// (on a sorted window the interpolated position already lies inside
/// it, so the clamp never moves it).
pub open spec fn interp_probe(s: Seq<i32>, target: i32, lo: int, hi: int) -> SearchResult
    decreases hi + 1 - lo,
{
    if lo > hi || s[lo] > target || s[hi] < target {
        SearchResult::NotFound
    } else if s[lo] == s[hi] {
        if s[lo] == target {
            SearchResult::Found(lo as usize)
        } else {
            SearchResult::NotFound
        }
    } else {
        let raw = lo + (hi - lo) * (target - s[lo]) / (s[hi] - s[lo]);
        let pos = if raw < lo {
            lo
        } else if raw > hi {
            hi
        } else {
            raw
        };
        if s[pos] == target {
            SearchResult::Found(pos as usize)
        } else if s[pos] < target {
            interp_probe(s, target, pos + 1, hi)
        } else {
            interp_probe(s, target, lo, pos - 1)
        }
    }
}

/// On a sorted window that confines every occurrence of the target,
/// the interpolation probe meets the shared search contract.
pub proof fn lemma_interp_probe_correct(s: Seq<i32>, target: i32, lo: int, hi: int)
    requires
        sorted(s),
        s.len() <= usize::MAX,
        0 <= lo,
        hi < s.len(),
        forall|j: int| 0 <= j < s.len() && s[j] == target ==> lo <= j <= hi,
    ensures
        search_correct(s, target, interp_probe(s, target, lo, hi)),
    decreases hi + 1 - lo,
{
    if lo > hi || s[lo] > target || s[hi] < target {
        assert(!contains_value(s, target)) by {
            if contains_value(s, target) {
                let w = choose|i: int| 0 <= i < s.len() && s[i] == target;
                assert(lo <= w <= hi);
                assert(s[lo] <= s[w] <= s[hi]);
            }
        }
    } else if s[lo] == s[hi] {
        if s[lo] == target {
            assert(contains_value(s, target));
        } else {
            assert(!contains_value(s, target)) by {
                if contains_value(s, target) {
                    let w = choose|i: int| 0 <= i < s.len() && s[i] == target;
                    assert(lo <= w <= hi);
                    assert(s[lo] <= s[w] <= s[hi]);
                }
            }
        }
    } else {
        let raw = lo + (hi - lo) * (target - s[lo]) / (s[hi] - s[lo]);
        let pos = if raw < lo {
            lo
        } else if raw > hi {
            hi
        } else {
            raw
        };
        assert(lo <= pos <= hi);
        if s[pos] == target {
            assert(contains_value(s, target));
        } else if s[pos] < target {
            assert(forall|j: int| 0 <= j < s.len() && s[j] == target ==> pos + 1 <= j <= hi) by {
                assert(forall|j: int| 0 <= j <= pos ==> s[j] <= s[pos]);
            }
            lemma_interp_probe_correct(s, target, pos + 1, hi);
        } else {
            assert(forall|j: int| 0 <= j < s.len() && s[j] == target ==> lo <= j <= pos - 1) by {
                assert(forall|j: int| pos <= j < s.len() ==> s[pos] <= s[j]);
            }
            lemma_interp_probe_correct(s, target, lo, pos - 1);
        }
    }
}

/// On a sorted window with distinct bound values that brackets the
/// target, the interpolated probe position lies inside the window.
proof fn lemma_interp_raw_in_window(s: Seq<i32>, target: i32, lo: int, hi: int)
    requires
        0 <= lo <= hi < s.len(),
        s[lo] <= target <= s[hi],
        s[lo] < s[hi],
    ensures
        lo <= lo + (hi - lo) * (target - s[lo]) / (s[hi] - s[lo]) <= hi,
{
    let num = (hi - lo) * (target - s[lo]);
    let den = s[hi] - s[lo];
    assert(num >= 0 && num <= (hi - lo) * den) by (nonlinear_arith)
        requires
            num == (hi - lo) * (target - s[lo]),
            den == s[hi] - s[lo],
            hi - lo >= 0,
            0 <= target - s[lo] <= den,
    {}
    assert(num / den >= 0) by {
        vstd::arithmetic::div_mod::lemma_div_pos_is_pos(num, den);
    }
    assert(num / den <= (hi - lo) * den / den) by {
        vstd::arithmetic::div_mod::lemma_div_is_ordered(num, (hi - lo) * den, den);
    }
    assert((hi - lo) * den / den == hi - lo) by {
        vstd::arithmetic::div_mod::lemma_div_by_multiple(hi - lo, den);
    }
}

/// Maintains an inclusive `[low, high]` window, probing the linearly
/// interpolated position while the window's bounds bracket the target,
/// with a direct equality check when the bounds hold equal values.
pub fn interpolation_search(arr: &Vec<i32>, target: i32) -> (r: SearchResult)
    requires
        sorted(arr@),
    ensures
        r == interp_probe(arr@, target, 0, arr@.len() - 1),
        search_correct(arr@, target, r),
{
    let n = arr.len();
    proof {
        lemma_interp_probe_correct(arr@, target, 0, arr@.len() - 1);
    }
    if n == 0 {
        return SearchResult::NotFound;
    }
    let mut low: usize = 0;
    let mut high: usize = n - 1;
    while low <= high && arr[low] <= target && arr[high] >= target
        invariant
            sorted(arr@),
            n == arr.len(),
            n >= 1,
            high < n,
            low <= n,
            interp_probe(arr@, target, 0, n - 1) == interp_probe(
                arr@,
                target,
                low as int,
                high as int,
            ),
        decreases high + 1 - low,
    {
        if arr[high] == arr[low] {
            if arr[low] == target {
                return SearchResult::Found(low);
            } else {
                proof {
                    lemma_interp_probe_correct(arr@, target, 0, arr@.len() - 1);
                }
                return SearchResult::NotFound;
            }
        }
        proof {
            lemma_interp_raw_in_window(arr@, target, low as int, high as int);
        }
        let w: usize = high - low;
        let diff_t: i64 = target as i64 - arr[low] as i64;
        let den: i64 = arr[high] as i64 - arr[low] as i64;
        assert(0 <= diff_t <= den);
        assert(den <= 0x1_0000_0000);
        assert((w as int) * (diff_t as int) < 0x1_0000_0000_0000_0000_0000_0000) by (
        nonlinear_arith)
            requires
                0 <= w as int <= 0xffff_ffff_ffff_ffff,
                0 <= diff_t as int <= 0x1_0000_0000,
        {}
        let num: u128 = (w as u128) * (diff_t as u128);
        let q128: u128 = num / (den as u128);
        assert(q128 == (high - low) * (target - arr@[low as int]) / (arr@[high as int]
            - arr@[low as int]));
        assert(q128 <= w);
        let q: usize = q128 as usize;
        let pos: usize = low + q;
        if arr[pos] == target {
            return SearchResult::Found(pos);
        } else if arr[pos] < target {
            proof {
                assert(interp_probe(arr@, target, low as int, high as int) == interp_probe(
                    arr@,
                    target,
                    pos + 1,
                    high as int,
                ));
            }
            low = pos + 1;
        } else {
            proof {
                assert(interp_probe(arr@, target, low as int, high as int) == interp_probe(
                    arr@,
                    target,
                    low as int,
                    pos - 1,
                ));
            }
            if pos == 0 {
                proof {
                    assert(interp_probe(arr@, target, low as int, pos - 1)
                        == SearchResult::NotFound);
                    lemma_interp_probe_correct(arr@, target, 0, arr@.len() - 1);
                }
                return SearchResult::NotFound;
            }
            high = pos - 1;
        }
    }
    proof {
        lemma_interp_probe_correct(arr@, target, 0, arr@.len() - 1);
    }
    SearchResult::NotFound
}

/// The four interchangeable strategies, in their fixed registration
/// order.
#[derive(Clone, Copy, Debug, PartialEq, Eq, Structural)]
pub enum StrategyKind {
    Linear,
    Binary,
    Jump,
    Interpolation,
}

/// The exact result a given strategy computes for an array and target.
pub open spec fn strategy_result(kind: StrategyKind, s: Seq<i32>, target: i32) -> SearchResult {
    match kind {
        StrategyKind::Linear => first_match(s, target),
        StrategyKind::Jump => first_match(s, target),
        StrategyKind::Binary => binary_probe(s, target, 0, s.len() - 1),
        StrategyKind::Interpolation => interp_probe(s, target, 0, s.len() - 1),
    }
}

impl StrategyKind {
    /// Runs this strategy against a sorted array.
    pub fn search(&self, arr: &Vec<i32>, target: i32) -> (r: SearchResult)
        requires
            sorted(arr@),
        ensures
            r == strategy_result(*self, arr@, target),
            search_correct(arr@, target, r),
    {
        match self {
            StrategyKind::Linear => linear_search(arr, target),
            StrategyKind::Binary => binary_search(arr, target),
            StrategyKind::Jump => jump_search(arr, target),
            StrategyKind::Interpolation => interpolation_search(arr, target),
        }
    }
}

/// Any result meeting the shared search contract reports `Found` for a
/// target present in the sequence, at an index holding an equal value.
pub proof fn lemma_found_when_present(s: Seq<i32>, target: i32, r: SearchResult, i: int)
    requires
        search_correct(s, target, r),
        0 <= i < s.len(),
        s[i] == target,
    ensures
        r matches SearchResult::Found(j) && j < s.len() && s[j as int] == target,
{
    assert(contains_value(s, target));
}

/// When every value of the sequence lies within `[min, max)` and the
/// target lies strictly outside it, any result meeting the shared
/// search contract is `NotFound`.
pub proof fn lemma_absent_outside_range(s: Seq<i32>, target: i32, min: i32, max: i32, r: SearchResult)
    requires
        search_correct(s, target, r),
        forall|i: int| 0 <= i < s.len() ==> min <= #[trigger] s[i] < max,
        target < min || target >= max,
    ensures
        r is NotFound,
{
    match r {
        SearchResult::Found(j) => {
            assert(min <= s[j as int] < max);
        },
        SearchResult::NotFound => {},
    }
}

/// Two results meeting the shared search contract for the same
/// sequence and target agree on presence, and each reported index
/// holds a value equal to the target (the indices themselves may
/// differ when the target occurs more than once).
pub proof fn lemma_cross_strategy_agreement(
    s: Seq<i32>,
    target: i32,
    r1: SearchResult,
    r2: SearchResult,
)
    requires
        search_correct(s, target, r1),
        search_correct(s, target, r2),
    ensures
        r1 is Found <==> r2 is Found,
        r1 is NotFound <==> r2 is NotFound,
        r1 matches SearchResult::Found(i) ==> s[i as int] == target,
        r2 matches SearchResult::Found(j) ==> s[j as int] == target,
{
    match r1 {
        SearchResult::Found(i) => {
            assert(0 <= i < s.len() && s[i as int] == target);
            assert(contains_value(s, target));
        },
        SearchResult::NotFound => {},
    }
    match r2 {
        SearchResult::Found(j) => {
            assert(0 <= j < s.len() && s[j as int] == target);
            assert(contains_value(s, target));
        },
        SearchResult::NotFound => {},
    }
}

/// Each strategy computes a function of the array and target alone, so
/// running it twice against the same immutable array and target yields
/// the same result.
pub proof fn lemma_strategy_idempotent(
    kind: StrategyKind,
    s: Seq<i32>,
    target: i32,
    r1: SearchResult,
    r2: SearchResult,
)
    requires
        r1 == strategy_result(kind, s, target),
        r2 == strategy_result(kind, s, target),
    ensures
        r1 == r2,
{
}

/// When `i` holds the target and no smaller index does, the first
/// match is exactly `Found(i)`.
proof fn lemma_first_match_here(s: Seq<i32>, target: i32, i: int)
    requires
        0 <= i < s.len(),
        s[i] == target,
        forall|j: int| 0 <= j < i ==> s[j] != target,
    ensures
        first_match(s, target) == SearchResult::Found(i as usize),
{
    assert(contains_value(s, target));
    let w = first_match_index(s, target);
    assert(0 <= w < s.len() && s[w] == target
        && forall|j: int| 0 <= j < w ==> s[j] != target) by {
        assert(0 <= i < s.len() && s[i] == target
            && forall|j: int| 0 <= j < i ==> s[j] != target);
    }
    if w < i {
        assert(s[w] != target);
    }
    if i < w {
        assert(s[i] != target);
    }
}

} // verus!
