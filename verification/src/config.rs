//! Generation options: claim count, anomaly base rate (in parts per
//! million), seed, and the output format.

use vstd::prelude::*;

verus! {

/// The output format of one generation run.
#[derive(Debug, Clone, Copy, PartialEq, Eq, Structural)]
pub enum OutputFormat {
    /// The hierarchical interchange document.
    X12,
    /// Compact JSON records.
    Json,
    /// Indented JSON records.
    JsonPretty,
}

/// Options for one generation run.
#[derive(Debug, Clone)]
pub struct Config {
    /// Seed for the random sources; absent means operating-system entropy.
    pub seed: Option<u64>,
    /// How many claims to generate.
    pub claim_count: usize,
    /// Anomaly base rate, in parts per million.
    pub anomaly_rate: u64,
    /// The output format.
    pub output_format: OutputFormat,
}

impl Default for Config {
    /// The default options: one thousand claims, a one-percent anomaly
    /// rate, interchange output, entropy seeding.
    fn default() -> (c: Self)
        ensures
            c.seed is None,
            c.claim_count == 1000,
            c.anomaly_rate == 10000,
            c.output_format == OutputFormat::X12,
    {
        Config {
            seed: None,
            claim_count: 1000,
            anomaly_rate: 10000,
            output_format: OutputFormat::X12,
        }
    }
}

} // verus!
