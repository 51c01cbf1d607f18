//! A benchmarking harness for search algorithms over sorted arrays:
//! a dataset generator, four interchangeable search strategies, an
//! instrumentation probe for elapsed time and resident memory, and a
//! metric recorder with a durable delimited-row representation.

pub mod dataset;
pub mod metric;
pub mod probe;
pub mod runner;
pub mod search;
pub mod vehicle;
