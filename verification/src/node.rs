//! The two limit nodes of a physical plan.
//!
//! [`GlobalLimitExec`] caps the whole output and therefore wants its input
//! as one partition. [`LocalLimitExec`] caps each partition of its input on
//! its own. Opening the input is the caller's part: `execute` checks the
//! request and hands back which partition of the input to open and the limit
//! to bound it by; the stream is made over the input once it is open.

use vstd::prelude::*;
use std::sync::Arc;
use arrow::datatypes::SchemaRef;
use crate::plan::share;
use crate::plan::DisplayFormatType;
use crate::plan::Distribution;
use crate::plan::ExecutionPlan;
use crate::plan::Partitioning;
use crate::plan::PlanError;
use crate::statistics::limit_statistics;
use crate::statistics::Statistics;
use crate::stream::LimitStream;
use crate::stream::StreamState;
use crate::text::decimal_text;
use crate::text::with_number;
use vstd::string::StringExecFns;

verus! {

/// What a limit node answers to a request for one of its output partitions:
/// the partition of the input to open, and the limit to bound it by.
#[derive(Clone, Copy, Debug, PartialEq, Eq, Structural)]
pub struct Execution {
    /// The partition of the input to open.
    pub input_partition: usize,
    /// The maximum number of rows to pass on from it.
    pub limit: usize,
}

impl Execution {
    /// The stream that bounds the opened input: fresh, with the limit of the
    /// node and the schema of the input stream, which the caller hands in.
    pub fn stream(&self, schema: SchemaRef) -> (stream: LimitStream)
        ensures
            stream@ == StreamState::start(self.limit as nat),
            stream.schema_spec() == *schema,
    {
        LimitStream::new(schema, self.limit)
    }
}

/// Limit execution plan: at most `limit` rows of the whole output.
#[derive(Debug)]
pub struct GlobalLimitExec<P> {
    /// Input execution plan.
    input: Arc<P>,
    /// Maximum number of rows to return.
    limit: usize,
}

impl<P: ExecutionPlan> GlobalLimitExec<P> {
    /// The input plan.
    pub closed spec fn input_spec(&self) -> P {
        *self.input
    }

    /// The maximum number of rows to return.
    pub closed spec fn limit_spec(&self) -> usize {
        self.limit
    }

    /// Create a new GlobalLimitExec.
    pub fn new(input: Arc<P>, limit: usize) -> (node: Self)
        ensures
            node.input_spec() == *input,
            node.limit_spec() == limit,
    {
        GlobalLimitExec { input, limit }
    }

    /// Input execution plan.
    pub fn input(&self) -> (input: &Arc<P>)
        ensures
            **input == self.input_spec(),
    {
        &self.input
    }

    /// Maximum number of rows to return.
    pub fn limit(&self) -> (limit: usize)
        ensures
            limit == self.limit_spec(),
    {
        self.limit
    }

    /// The inputs of the node: the one input plan.
    pub fn children(&self) -> (children: Vec<Arc<P>>)
        ensures
            children@.len() == 1,
            *children@[0] == self.input_spec(),
    {
        let mut children: Vec<Arc<P>> = Vec::new();
        children.push(share(&self.input));
        children
    }

    /// A node with the same limit over another input. There must be exactly
    /// one.
    pub fn with_new_children(&self, children: Vec<Arc<P>>) -> (r: Result<
        GlobalLimitExec<P>,
        PlanError,
    >)
        ensures
            match r {
                Ok(node) => {
                    &&& children@.len() == 1
                    &&& node.input_spec() == *children@[0]
                    &&& node.limit_spec() == self.limit_spec()
                },
                Err(e) => {
                    &&& children@.len() != 1
                    &&& e.text() == "GlobalLimitExec wrong number of children"@
                },
            },
    {
        if children.len() == 1 {
            Ok(GlobalLimitExec::new(share(&children[0]), self.limit))
        } else {
            Err(
                PlanError::Internal(
                    String::from_str("GlobalLimitExec wrong number of children"),
                ),
            )
        }
    }

    /// Answers a request for output partition `partition`.
    ///
    /// The node has one output partition, so only partition 0 can be asked
    /// for: any other is turned down before the input is asked anything,
    /// as [`check_output_partition`] says. Then the input must report one
    /// partition, as [`check_single_input`] says. Where both stand, the
    /// answer is to open partition 0 of the input and to bound it by the
    /// node's limit.
    pub fn execute(&self, partition: usize) -> (r: Result<Execution, PlanError>)
        ensures
            partition != 0 ==> (r matches Err(e) && e.text() == invalid_partition_text(partition)),
            partition == 0 ==> exists|reported: Partitioning|
                {
                    &&& #[trigger] P::output_partitioning.ensures((&self.input_spec(),), reported)
                    &&& match r {
                        Ok(run) => {
                            &&& reported.count() == 1
                            &&& run.input_partition == 0
                            &&& run.limit == self.limit_spec()
                        },
                        Err(e) => {
                            &&& reported.count() != 1
                            &&& e.text() == "GlobalLimitExec requires a single input partition"@
                        },
                    }
                },
    {
        // GlobalLimitExec has a single output partition
        match check_output_partition(partition) {
            Err(e) => {
                return Err(e);
            },
            Ok(_) => {},
        }
        // GlobalLimitExec requires a single input partition
        let reported = self.input.output_partitioning();
        assert(P::output_partitioning.ensures((&self.input_spec(),), reported));
        match check_single_input(reported.partition_count()) {
            Err(e) => Err(e),
            Ok(_) => Ok(Execution { input_partition: 0, limit: self.limit }),
        }
    }

    /// The line that describes the node.
    pub fn fmt_as(&self, t: DisplayFormatType) -> (line: String)
        ensures
            line@ == "GlobalLimitExec: limit="@ + decimal_text(self.limit_spec() as nat),
    {
        match t {
            DisplayFormatType::Default => with_number("GlobalLimitExec: limit=", self.limit),
        }
    }
}

impl<P: ExecutionPlan> ExecutionPlan for GlobalLimitExec<P> {
    /// The schema that the input reports.
    fn schema(&self) -> (s: SchemaRef)
        ensures
            P::schema.ensures((&self.input_spec(),), s),
    {
        self.input.schema()
    }

    /// One partition, always.
    fn output_partitioning(&self) -> (p: Partitioning)
        ensures
            p == Partitioning::UnknownPartitioning(1),
            p.count() == 1,
    {
        Partitioning::UnknownPartitioning(1)
    }

    /// The input must arrive as one partition.
    fn required_child_distribution(&self) -> (d: Distribution)
        ensures
            d == Distribution::SinglePartition,
    {
        Distribution::SinglePartition
    }

    /// The statistics that the input reports, under the limit. Over one
    /// consolidated partition the limit is a bound on the whole output.
    fn statistics(&self) -> (s: Statistics)
        ensures
            exists|reported: Statistics|
                {
                    &&& #[trigger] P::statistics.ensures((&self.input_spec(),), reported)
                    &&& s == reported.limited(self.limit_spec())
                },
    {
        let reported = self.input.statistics();
        assert(P::statistics.ensures((&self.input_spec(),), reported));
        limit_statistics(reported, self.limit)
    }
}

/// The message of the error that turns down a request for an output
/// partition that a global limit does not have.
pub open spec fn invalid_partition_text(partition: usize) -> Seq<char> {
    "GlobalLimitExec invalid partition "@ + decimal_text(partition as nat)
}

/// Holds a request for output partition `partition` against the one output
/// partition that a global limit has: any partition but 0 is an internal
/// error that names the partition.
pub fn check_output_partition(partition: usize) -> (r: Result<(), PlanError>)
    ensures
        match r {
            Ok(_) => partition == 0,
            Err(e) => partition != 0 && e.text() == invalid_partition_text(partition),
        },
{
    if 0 != partition {
        Err(PlanError::Internal(with_number("GlobalLimitExec invalid partition ", partition)))
    } else {
        Ok(())
    }
}

/// Holds the number of partitions that the input of a global limit reports
/// against the one partition that the node needs: any number but 1 is an
/// internal error.
pub fn check_single_input(input_partitions: usize) -> (r: Result<(), PlanError>)
    ensures
        match r {
            Ok(_) => input_partitions == 1,
            Err(e) => {
                &&& input_partitions != 1
                &&& e.text() == "GlobalLimitExec requires a single input partition"@
            },
        },
{
    if 1 != input_partitions {
        Err(
            PlanError::Internal(
                String::from_str("GlobalLimitExec requires a single input partition"),
            ),
        )
    } else {
        Ok(())
    }
}

/// LocalLimitExec applies a limit to each partition on its own.
#[derive(Debug)]
pub struct LocalLimitExec<P> {
    /// Input execution plan.
    input: Arc<P>,
    /// Maximum number of rows to return from each partition.
    limit: usize,
}

impl<P: ExecutionPlan> LocalLimitExec<P> {
    /// The input plan.
    pub closed spec fn input_spec(&self) -> P {
        *self.input
    }

    /// The maximum number of rows to return from each partition.
    pub closed spec fn limit_spec(&self) -> usize {
        self.limit
    }

    /// Create a new LocalLimitExec.
    pub fn new(input: Arc<P>, limit: usize) -> (node: Self)
        ensures
            node.input_spec() == *input,
            node.limit_spec() == limit,
    {
        LocalLimitExec { input, limit }
    }

    /// Input execution plan.
    pub fn input(&self) -> (input: &Arc<P>)
        ensures
            **input == self.input_spec(),
    {
        &self.input
    }

    /// Maximum number of rows to return.
    pub fn limit(&self) -> (limit: usize)
        ensures
            limit == self.limit_spec(),
    {
        self.limit
    }

    /// The inputs of the node: the one input plan.
    pub fn children(&self) -> (children: Vec<Arc<P>>)
        ensures
            children@.len() == 1,
            *children@[0] == self.input_spec(),
    {
        let mut children: Vec<Arc<P>> = Vec::new();
        children.push(share(&self.input));
        children
    }

    /// A node with the same limit over another input. There must be exactly
    /// one.
    pub fn with_new_children(&self, children: Vec<Arc<P>>) -> (r: Result<
        LocalLimitExec<P>,
        PlanError,
    >)
        ensures
            match r {
                Ok(node) => {
                    &&& children@.len() == 1
                    &&& node.input_spec() == *children@[0]
                    &&& node.limit_spec() == self.limit_spec()
                },
                Err(e) => {
                    &&& children@.len() != 1
                    &&& e.text() == "LocalLimitExec wrong number of children"@
                },
            },
    {
        if children.len() == 1 {
            Ok(LocalLimitExec::new(share(&children[0]), self.limit))
        } else {
            Err(
                PlanError::Internal(String::from_str("LocalLimitExec wrong number of children")),
            )
        }
    }

    /// Answers a request for output partition `partition`: to open the same
    /// partition of the input and to bound it by the node's limit.
    ///
    /// The node turns no request down. Whether the input has that partition
    /// is for the input to say when it is opened.
    pub fn execute(&self, partition: usize) -> (r: Result<Execution, PlanError>)
        ensures
            r == Ok::<Execution, PlanError>(
                Execution { input_partition: partition, limit: self.limit_spec() },
            ),
    {
        Ok(Execution { input_partition: partition, limit: self.limit })
    }

    /// The line that describes the node.
    pub fn fmt_as(&self, t: DisplayFormatType) -> (line: String)
        ensures
            line@ == "LocalLimitExec: limit="@ + decimal_text(self.limit_spec() as nat),
    {
        match t {
            DisplayFormatType::Default => with_number("LocalLimitExec: limit=", self.limit),
        }
    }
}

impl<P: ExecutionPlan> ExecutionPlan for LocalLimitExec<P> {
    /// The schema that the input reports.
    fn schema(&self) -> (s: SchemaRef)
        ensures
            P::schema.ensures((&self.input_spec(),), s),
    {
        self.input.schema()
    }

    /// The partitioning that the input reports: each partition is limited
    /// in place, none is merged.
    fn output_partitioning(&self) -> (p: Partitioning)
        ensures
            P::output_partitioning.ensures((&self.input_spec(),), p),
    {
        self.input.output_partitioning()
    }

    /// Any partitioning of the input will do.
    fn required_child_distribution(&self) -> (d: Distribution)
        ensures
            d == Distribution::UnspecifiedDistribution,
    {
        Distribution::UnspecifiedDistribution
    }

    /// The statistics that the input reports, under the limit. Each
    /// partition is capped on its own, so over several partitions the row
    /// count is a loose bound on the whole output, not its size.
    fn statistics(&self) -> (s: Statistics)
        ensures
            exists|reported: Statistics|
                {
                    &&& #[trigger] P::statistics.ensures((&self.input_spec(),), reported)
                    &&& s == reported.limited(self.limit_spec())
                },
    {
        let reported = self.input.statistics();
        assert(P::statistics.ensures((&self.input_spec(),), reported));
        limit_statistics(reported, self.limit)
    }
}

} // verus!
