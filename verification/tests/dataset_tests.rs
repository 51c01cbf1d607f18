use search_bench::dataset::{BenchError, DatasetGenerator, SortedArray};
use search_bench::search::{SearchResult, StrategyKind};

#[test]
fn from_values_sorts_ascending() {
    let a = SortedArray::from_values(vec![3, 1, 2]);
    assert_eq!(a.as_vec(), &vec![1, 2, 3]);
}

#[test]
fn from_values_keeps_duplicates() {
    let a = SortedArray::from_values(vec![2, 2, 1, 2]);
    assert_eq!(a.as_vec(), &vec![1, 2, 2, 2]);
}

#[test]
fn from_values_empty() {
    let a = SortedArray::from_values(Vec::new());
    assert_eq!(a.len(), 0);
}

#[test]
fn sorted_array_access() {
    let a = SortedArray::from_values(vec![5, -1, 9]);
    assert_eq!(a.len(), 3);
    assert_eq!(a.get(0), -1);
    assert_eq!(a.get(1), 5);
    assert_eq!(a.get(2), 9);
}

#[test]
fn sorted_array_search() {
    let a = SortedArray::from_values(vec![8, 2, 6, 4, 10, 4]);
    assert_eq!(a.search(StrategyKind::Binary, 5), SearchResult::NotFound);
    match a.search(StrategyKind::Interpolation, 4) {
        SearchResult::Found(i) => assert_eq!(a.get(i), 4),
        SearchResult::NotFound => panic!("present target reported absent"),
    }
}

#[test]
fn generator_rejects_empty_array() {
    let g = DatasetGenerator::new();
    assert!(matches!(g.generate(0, 1000, 10000), Err(BenchError::InvalidParameters)));
}

#[test]
fn generator_rejects_empty_range() {
    let g = DatasetGenerator::new();
    assert!(matches!(g.generate(10, 10000, 1000), Err(BenchError::InvalidParameters)));
    assert!(matches!(g.generate(10, 1000, 1000), Err(BenchError::InvalidParameters)));
}

#[test]
fn generator_produces_sorted_values_in_range() {
    let g = DatasetGenerator::with_seed(7);
    let a = g.generate(100, 10, 20).expect("valid parameters");
    assert_eq!(a.len(), 100);
    let values = a.as_vec();
    for w in values.windows(2) {
        assert!(w[0] <= w[1]);
    }
    for &v in values.iter() {
        assert!((10..20).contains(&v));
    }
}

#[test]
fn generator_fixed_seed_is_reproducible() {
    let first = DatasetGenerator::with_seed(42).generate(50, 0, 1000).expect("valid");
    let second = DatasetGenerator::with_seed(42).generate(50, 0, 1000).expect("valid");
    assert_eq!(first.as_vec(), second.as_vec());
}
