//! What a limit node needs of the plan around it: how output is partitioned,
//! what a node asks of its input, the node interface, and the error that a
//! broken structural precondition raises.

use vstd::prelude::*;
use std::sync::Arc;
use arrow::datatypes::SchemaRef;
use crate::statistics::Statistics;

verus! {

/// How the output of a node is split into partitions.
#[derive(Clone, Copy, Debug, PartialEq, Eq, Structural)]
pub enum Partitioning {
    /// Batches dealt out in turn over this many partitions.
    RoundRobinBatch(usize),
    /// Rows hashed over this many partitions.
    Hash(usize),
    /// This many partitions, laid out in a way that is not known.
    UnknownPartitioning(usize),
}

impl Partitioning {
    /// The number of partitions.
    pub open spec fn count(self) -> nat {
        match self {
            Partitioning::RoundRobinBatch(n) => n as nat,
            Partitioning::Hash(n) => n as nat,
            Partitioning::UnknownPartitioning(n) => n as nat,
        }
    }

    /// The number of partitions.
    pub fn partition_count(&self) -> (n: usize)
        ensures
            n == self.count(),
    {
        match self {
            Partitioning::RoundRobinBatch(n) => *n,
            Partitioning::Hash(n) => *n,
            Partitioning::UnknownPartitioning(n) => *n,
        }
    }
}

/// What a node asks of the partitioning of its input.
#[derive(Clone, Copy, Debug, PartialEq, Eq, Structural)]
pub enum Distribution {
    /// Any number of partitions will do.
    UnspecifiedDistribution,
    /// The input must arrive as one partition.
    SinglePartition,
}

/// The formats in which a node can describe itself.
#[derive(Clone, Copy, Debug, PartialEq, Eq, Structural)]
pub enum DisplayFormatType {
    /// One line: the node's name and its settings.
    Default,
}

/// A failure raised by a plan node.
#[derive(Clone, Debug, PartialEq, Eq)]
pub enum PlanError {
    /// A structural precondition was broken: a defect of the planner or of
    /// whoever drives the execution, with a message that says which.
    Internal(String),
}

impl PlanError {
    /// The text of the message.
    pub open spec fn text(self) -> Seq<char> {
        match self {
            PlanError::Internal(m) => m@,
        }
    }

    /// The message.
    pub fn message(&self) -> (m: &String)
        ensures
            m@ == self.text(),
    {
        match self {
            PlanError::Internal(m) => m,
        }
    }
}

/// `Arc::clone`: another pointer to the same value.
#[verifier::external_body]
pub(crate) fn share<T>(pointer: &Arc<T>) -> (other: Arc<T>)
    ensures
        other == *pointer,
{
    Arc::clone(pointer)
}

/// A node of a physical plan, as far as a parent that limits rows reads it.
///
/// The methods promise nothing: what a node answers is its own affair. A
/// parent states its results over what its input answered.
pub trait ExecutionPlan {
    /// The schema of the batches that the node produces.
    fn schema(&self) -> SchemaRef;

    /// The partitioning of the node's output.
    fn output_partitioning(&self) -> Partitioning;

    /// What the node asks of the partitioning of its input.
    fn required_child_distribution(&self) -> Distribution;

    /// What is known of the node's output before it runs.
    fn statistics(&self) -> Statistics;
}

} // verus!
