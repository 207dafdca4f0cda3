//! Synthetic healthcare-claim data: population and claim generation, anomaly
//! injection, and encoding of claim batches into a hierarchical interchange
//! document or a JSON record list.

pub mod anomalies;
pub mod calendar;
pub mod claims;
pub mod clock;
pub mod config;
pub mod conformance;
pub mod envelope;
pub mod errors;
pub mod generator;
pub mod json;
pub mod population;
pub mod rng;
pub mod segments;
pub mod strfmt;
pub mod vocab;

pub use anomalies::AnomalyInjector;
pub use claims::Claim;
pub use config::Config;
pub use errors::Error;
pub use generator::Generator;
pub use population::Person;
pub use population::Provider;
pub use envelope::FunctionalGroup;
pub use envelope::TransactionSet;
pub use envelope::X12Interchange;
pub use segments::BprSegment;
pub use segments::ClpSegment;
pub use segments::DtmSegment;
pub use segments::GeSegment;
pub use segments::GsSegment;
pub use segments::IeaSegment;
pub use segments::IsaSegment;
pub use segments::N1Segment;
pub use segments::SeSegment;
pub use segments::StSegment;
pub use segments::SvcSegment;
pub use segments::TrnSegment;
pub use segments::X12Segment;
