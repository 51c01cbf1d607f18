use search_bench::search::{
    binary_search, interpolation_search, isqrt, jump_search, linear_search, SearchResult,
    StrategyKind,
};

fn all_strategies() -> Vec<StrategyKind> {
    vec![
        StrategyKind::Linear,
        StrategyKind::Binary,
        StrategyKind::Jump,
        StrategyKind::Interpolation,
    ]
}

fn scenario_array() -> Vec<i32> {
    vec![2, 4, 4, 6, 8, 10]
}

#[test]
fn scenario_target_four_binary() {
    let arr = scenario_array();
    let r = binary_search(&arr, 4);
    assert!(r == SearchResult::Found(1) || r == SearchResult::Found(2));
}

#[test]
fn scenario_target_four_all_match_value() {
    let arr = scenario_array();
    for kind in all_strategies() {
        match kind.search(&arr, 4) {
            SearchResult::Found(i) => assert_eq!(arr[i], 4),
            SearchResult::NotFound => panic!("present target reported absent"),
        }
    }
}

#[test]
fn scenario_target_five_not_found() {
    let arr = scenario_array();
    for kind in all_strategies() {
        assert_eq!(kind.search(&arr, 5), SearchResult::NotFound);
    }
}

#[test]
fn scenario_target_first_element() {
    let arr = scenario_array();
    for kind in all_strategies() {
        assert_eq!(kind.search(&arr, 2), SearchResult::Found(0));
    }
}

#[test]
fn scenario_target_last_element() {
    let arr = scenario_array();
    for kind in all_strategies() {
        assert_eq!(kind.search(&arr, 10), SearchResult::Found(5));
    }
}

#[test]
fn empty_array_not_found() {
    let arr: Vec<i32> = Vec::new();
    assert_eq!(linear_search(&arr, 7), SearchResult::NotFound);
    assert_eq!(binary_search(&arr, 7), SearchResult::NotFound);
    assert_eq!(jump_search(&arr, 7), SearchResult::NotFound);
    assert_eq!(interpolation_search(&arr, 7), SearchResult::NotFound);
}

#[test]
fn single_element_array() {
    let arr = vec![42];
    for kind in all_strategies() {
        assert_eq!(kind.search(&arr, 42), SearchResult::Found(0));
        assert_eq!(kind.search(&arr, 41), SearchResult::NotFound);
        assert_eq!(kind.search(&arr, 43), SearchResult::NotFound);
    }
}

#[test]
fn every_present_value_is_found() {
    let arr = vec![-5, -5, 0, 3, 3, 3, 7, 9, 9, 12, 100, 100];
    for kind in all_strategies() {
        for i in 0..arr.len() {
            match kind.search(&arr, arr[i]) {
                SearchResult::Found(j) => assert_eq!(arr[j], arr[i]),
                SearchResult::NotFound => panic!("present target reported absent"),
            }
        }
    }
}

#[test]
fn values_outside_range_not_found() {
    let arr = vec![1000, 2000, 5000, 9999];
    for kind in all_strategies() {
        assert_eq!(kind.search(&arr, 50), SearchResult::NotFound);
        assert_eq!(kind.search(&arr, 999), SearchResult::NotFound);
        assert_eq!(kind.search(&arr, 10000), SearchResult::NotFound);
        assert_eq!(kind.search(&arr, 10006), SearchResult::NotFound);
    }
}

#[test]
fn repeated_runs_agree() {
    let arr = vec![1, 2, 2, 3, 5, 8, 13, 21];
    for kind in all_strategies() {
        for target in [0, 1, 2, 4, 13, 21, 50] {
            let first_run = kind.search(&arr, target);
            let second_run = kind.search(&arr, target);
            assert_eq!(first_run, second_run);
        }
    }
}

#[test]
fn strategies_agree_on_presence() {
    let arr = vec![-3, 0, 0, 4, 4, 4, 11, 19];
    for target in [-4, -3, 0, 1, 4, 11, 19, 20] {
        let results: Vec<SearchResult> =
            all_strategies().into_iter().map(|k| k.search(&arr, target)).collect();
        let found = matches!(results[0], SearchResult::Found(_));
        for r in &results {
            assert_eq!(matches!(r, SearchResult::Found(_)), found);
            if let SearchResult::Found(i) = r {
                assert_eq!(arr[*i], target);
            }
        }
    }
}

#[test]
fn linear_search_returns_first_index() {
    let arr = vec![1, 4, 4, 4, 9];
    assert_eq!(linear_search(&arr, 4), SearchResult::Found(1));
    assert_eq!(jump_search(&arr, 4), SearchResult::Found(1));
}

#[test]
fn jump_search_finds_block_boundary_hit() {
    // The first occurrence of the target lands exactly on a probed
    // block boundary (n = 4, step = 2, target at index 2).
    let arr = vec![1, 2, 3, 4];
    assert_eq!(jump_search(&arr, 3), SearchResult::Found(2));
}

#[test]
fn isqrt_values() {
    assert_eq!(isqrt(0), 0);
    assert_eq!(isqrt(1), 1);
    assert_eq!(isqrt(3), 1);
    assert_eq!(isqrt(4), 2);
    assert_eq!(isqrt(99), 9);
    assert_eq!(isqrt(100), 10);
    assert_eq!(isqrt(1_000_000), 1000);
    assert_eq!(isqrt(1_000_001), 1000);
}
