//! Transactional commit core for a Delta Lake style table log.
//!
//! A table is an ordered sequence of immutable log entries. This crate holds
//! the decisions that turn a prepared set of actions into the next log
//! version: the protocol rules, the conflict checker, the staged commit
//! pipeline with its bounded retry loop, the post-commit housekeeping plan and
//! the planning half of the partitioned file writer. All storage and encoding
//! work is requested from the caller through explicit actions and answered
//! with explicit events.

pub mod actions;
pub mod commit_data;
pub mod conflict_checker;
pub mod delta_writer;
pub mod errors;
pub mod foreign;
pub mod logstore;
pub mod operation;
pub mod partition_writer;
pub mod post_commit;
pub mod prepared_commit;
pub mod protocol;
pub mod schema;
pub mod snapshot;
pub mod text;
pub mod transaction;
pub mod writer;
