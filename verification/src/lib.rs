//! Decision logic of a small simulated power grid: cities ask for power,
//! a nuclear plant produces what was last asked for, and transformers relabel
//! the power type of the events that travel along the lines.
//!
//! Consuming and producing on Kafka, and the Avro encoding through the schema
//! registry, happen outside this crate: it hands out and takes back plain
//! records, client configurations and registry settings.

pub mod decimal;
pub mod domain;
pub mod equilibrium;
pub mod city;
pub mod plant;
pub mod settings;
