//! The records that backend adapters produce for the aggregator.

pub mod aggregation_models;
