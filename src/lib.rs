//! Market-data dependency resolution and pricing orchestration.
//!
//! The library keeps derived market objects consistent with one evaluation
//! date, resolves which curves each instrument needs, partitions instruments
//! into independently computable groups, and binds each instrument to the
//! market objects its pricer uses.

pub mod currency;
pub mod datetime;
pub mod tenor;
pub mod period;
pub mod instrument;
pub mod table;
pub mod match_parameter;
pub mod engine_generator;
pub mod pricer_factory;
pub mod evaluation_date;
pub mod instruments;
