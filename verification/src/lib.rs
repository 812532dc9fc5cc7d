//! Row limits for a partitioned query engine.
//!
//! A limit node caps the rows that a consumer sees from its input plan: the
//! global node over one consolidated partition, the local node over each
//! partition on its own. Both bound a stream of record batches with a
//! [`stream::LimitStream`], which forwards batches while they fit, cuts the
//! one that overshoots with [`batch::truncate_batch`], and lets go of its
//! input as soon as the cap is reached. Batches are arrow's; [`column`] tells
//! which of their columns arrow can cut.

pub mod text;
pub mod plan;
pub mod statistics;
pub mod types;
pub mod column;
pub mod batch;
pub mod stream;
pub mod node;
