//! The stream that bounds the rows of one partition.
//!
//! A [`LimitStream`] stands between a consumer and one input stream of
//! record batches. It counts the rows it has passed on, forwards batches
//! while they fit under the limit, cuts the batch that overshoots, and lets
//! go of its input once the limit is reached or the input has ended. Pulling
//! the input is the caller's part: the stream says whether it still holds
//! the input and decides what becomes of each item that the input yields.

use vstd::prelude::*;
use vstd::math::min;
use arrow::datatypes::Schema;
use arrow::datatypes::SchemaRef;
use arrow::error::ArrowError;
use arrow::record_batch::RecordBatch;
use crate::batch::batch_columns;
use crate::batch::batch_rows;
use crate::batch::has_columns;
use crate::batch::is_truncation;
use crate::batch::is_well_formed;
use crate::batch::num_rows;
use crate::batch::truncate_batch;
use crate::batch::well_formed;
use crate::plan::share;

verus! {

/// What a limit stream does with a batch that its input yields.
pub enum Verdict {
    /// The limit was already reached: the batch is dropped and the consumer
    /// is told that the stream has ended.
    Suppress,
    /// The batch fits: it is passed on as it is.
    Forward,
    /// The batch overshoots: its first rows, this many, are passed on.
    Truncate(nat),
}

/// The state of a limit stream: its limit, the rows passed on so far, and
/// whether it still holds its input.
pub struct StreamState {
    pub limit: nat,
    pub emitted: nat,
    pub open: bool,
}

impl StreamState {
    /// The state of a fresh stream with the given limit.
    pub open spec fn start(limit: nat) -> StreamState {
        StreamState { limit, emitted: 0, open: true }
    }

    /// The rows passed on never exceed the limit.
    pub open spec fn wf(self) -> bool {
        self.emitted <= self.limit
    }

    /// What becomes of a batch of `rows` rows.
    pub open spec fn verdict(self, rows: nat) -> Verdict {
        if self.emitted == self.limit {
            Verdict::Suppress
        } else if self.emitted + rows <= self.limit {
            Verdict::Forward
        } else {
            Verdict::Truncate((self.limit - self.emitted) as nat)
        }
    }

    /// How many rows of a batch of `rows` rows are passed on.
    pub open spec fn passed(self, rows: nat) -> nat {
        match self.verdict(rows) {
            Verdict::Suppress => 0,
            Verdict::Forward => rows,
            Verdict::Truncate(first) => first,
        }
    }

    /// The state after a batch of `rows` rows: the count grows by what was
    /// passed on, and the input is let go unless the batch was forwarded
    /// whole.
    pub open spec fn after_batch(self, rows: nat) -> StreamState {
        StreamState {
            limit: self.limit,
            emitted: self.emitted + self.passed(rows),
            open: self.open && self.verdict(rows) is Forward,
        }
    }

    /// The state after batches of the given row counts, one after the other.
    pub open spec fn after_batches(self, rows: Seq<nat>) -> StreamState
        decreases rows.len(),
    {
        if rows.len() == 0 {
            self
        } else {
            self.after_batch(rows[0]).after_batches(rows.drop_first())
        }
    }

    /// Whether a stream in this state can read a batch. At the limit every
    /// batch can be taken, for it is dropped unread. Below the limit the
    /// rows of the batch are counted, so it must have a column; and where it
    /// overshoots it is cut, so it must keep the invariant of record
    /// batches.
    pub open spec fn reads(self, batch: RecordBatch) -> bool {
        self.emitted < self.limit ==> {
            &&& batch_columns(batch).len() > 0
            &&& self.emitted + batch_rows(batch) > self.limit ==> well_formed(batch)
        }
    }

    /// The state after the input has ended: the input is let go.
    pub open spec fn after_end(self) -> StreamState {
        StreamState { limit: self.limit, emitted: self.emitted, open: false }
    }
}

/// A stream that passes on at most `limit` rows of its input.
#[derive(Debug)]
pub struct LimitStream {
    /// The maximum number of rows to produce.
    limit: usize,
    /// Whether the input is still held. It is let go once the limit is
    /// reached, so that it can be torn down early.
    input: bool,
    /// Copy of the input schema.
    schema: SchemaRef,
    /// The number of rows that have been produced.
    current_len: usize,
}

/// The state that decides what the stream does. The schema is no part of
/// it: `schema_spec` states it.
impl View for LimitStream {
    type V = StreamState;

    closed spec fn view(&self) -> StreamState {
        StreamState {
            limit: self.limit as nat,
            emitted: self.current_len as nat,
            open: self.input,
        }
    }
}

impl LimitStream {
    #[verifier::type_invariant]
    spec fn counted_within_limit(self) -> bool {
        self.current_len <= self.limit
    }

    /// The schema of the batches that pass through.
    pub closed spec fn schema_spec(&self) -> Schema {
        *self.schema
    }

    /// A stream over an input of the given schema that has passed on
    /// nothing yet.
    pub fn new(schema: SchemaRef, limit: usize) -> (stream: LimitStream)
        ensures
            stream@ == StreamState::start(limit as nat),
            stream.schema_spec() == *schema,
    {
        LimitStream { limit, input: true, schema, current_len: 0 }
    }

    /// The maximum number of rows that the stream passes on.
    pub fn limit(&self) -> (limit: usize)
        ensures
            limit == self@.limit,
    {
        self.limit
    }

    /// The number of rows passed on so far.
    pub fn current_len(&self) -> (rows: usize)
        ensures
            rows == self@.emitted,
            rows <= self@.limit,
    {
        proof {
            use_type_invariant(self);
        }
        self.current_len
    }

    /// Whether the stream still holds its input. While it does, the next
    /// item for the consumer comes from pulling the input; once it does not,
    /// the stream has ended and the input is never pulled again.
    pub fn has_input(&self) -> (open: bool)
        ensures
            open == self@.open,
    {
        self.input
    }

    /// Tests whether the stream can read a batch, as it must before the
    /// batch is handed to it.
    pub fn can_read(&self, batch: &RecordBatch) -> (yes: bool)
        ensures
            yes == self@.reads(*batch),
    {
        proof {
            use_type_invariant(self);
        }
        if self.current_len == self.limit {
            true
        } else if !has_columns(batch) {
            false
        } else if num_rows(batch) <= self.limit - self.current_len {
            true
        } else {
            is_well_formed(batch)
        }
    }

    /// Decides what becomes of a batch that the input has yielded. The
    /// stream must be able to read the batch.
    pub fn stream_limit(&mut self, batch: RecordBatch) -> (out: Option<RecordBatch>)
        requires
            old(self)@.reads(batch),
        ensures
            final(self)@ == old(self)@.after_batch(batch_rows(batch)),
            final(self).schema_spec() == old(self).schema_spec(),
            final(self)@.wf(),
            match old(self)@.verdict(batch_rows(batch)) {
                Verdict::Suppress => out is None,
                Verdict::Forward => out == Some(batch),
                Verdict::Truncate(first) => out matches Some(cut) && is_truncation(
                    cut,
                    batch,
                    first,
                ),
            },
    {
        proof {
            use_type_invariant(&*self);
        }
        if self.current_len == self.limit {
            self.input = false;
            None
        } else {
            let rows = num_rows(&batch);
            if rows <= self.limit - self.current_len {
                self.current_len = self.current_len + rows;
                Some(batch)
            } else {
                let batch_rows = self.limit - self.current_len;
                self.current_len = self.limit;
                self.input = false;
                Some(truncate_batch(&batch, batch_rows))
            }
        }
    }

    /// Decides what the consumer gets for an item that the input has
    /// yielded: a batch, a failure, or `None` for the end of the input.
    ///
    /// A stream that no longer holds its input has ended, whatever is handed
    /// to it. A batch is bounded by [`LimitStream::stream_limit`], which
    /// reads it unless the limit is reached already. A failure is passed on
    /// as it is. At the end of the input the stream ends and lets the input
    /// go.
    pub fn poll_next(&mut self, item: Option<Result<RecordBatch, ArrowError>>) -> (out: Option<
        Result<RecordBatch, ArrowError>,
    >)
        requires
            old(self)@.open ==> (item matches Some(Ok(batch)) ==> old(self)@.reads(batch)),
        ensures
            final(self).schema_spec() == old(self).schema_spec(),
            final(self)@.wf(),
            !old(self)@.open ==> out is None && final(self)@ == old(self)@,
            old(self)@.open ==> match item {
                Some(Ok(batch)) => {
                    &&& final(self)@ == old(self)@.after_batch(batch_rows(batch))
                    &&& match old(self)@.verdict(batch_rows(batch)) {
                        Verdict::Suppress => out is None,
                        Verdict::Forward => out == Some(Ok::<RecordBatch, ArrowError>(batch)),
                        Verdict::Truncate(first) => out matches Some(Ok(cut)) && is_truncation(
                            cut,
                            batch,
                            first,
                        ),
                    }
                },
                Some(Err(failure)) => {
                    &&& final(self)@ == old(self)@
                    &&& out == Some(Err::<RecordBatch, ArrowError>(failure))
                },
                None => {
                    &&& final(self)@ == old(self)@.after_end()
                    &&& out is None
                },
            },
    {
        proof {
            use_type_invariant(&*self);
        }
        if !self.input {
            return None;
        }
        match item {
            Some(Ok(batch)) => {
                match self.stream_limit(batch) {
                    Some(bounded) => Some(Ok(bounded)),
                    None => None,
                }
            },
            Some(Err(failure)) => Some(Err(failure)),
            None => {
                self.input = false;
                None
            },
        }
    }

    /// The schema of the batches that pass through.
    pub fn schema(&self) -> (s: SchemaRef)
        ensures
            *s == self.schema_spec(),
    {
        share(&self.schema)
    }
}

/// What a consumer gets who pulls a stream until it ends, over an input that
/// yields batches of the given row counts and then ends.
pub struct Drained {
    /// The row counts of the batches passed on, in order.
    pub forwarded: Seq<nat>,
    /// How many batches were taken from the input.
    pub pulled: nat,
    /// The state that the stream is left in.
    pub state: StreamState,
}

/// Pulls a stream in state `s` until it ends. The input is pulled only while
/// the stream holds it; each batch is bounded in turn; the end of the input
/// ends the stream.
pub open spec fn drain(s: StreamState, input: Seq<nat>) -> Drained
    decreases input.len(),
{
    if !s.open {
        Drained { forwarded: Seq::empty(), pulled: 0, state: s }
    } else if input.len() == 0 {
        Drained { forwarded: Seq::empty(), pulled: 0, state: s.after_end() }
    } else {
        let rest = drain(s.after_batch(input[0]), input.drop_first());
        Drained {
            forwarded: if s.verdict(input[0]) is Suppress {
                rest.forwarded
            } else {
                seq![s.passed(input[0])] + rest.forwarded
            },
            pulled: 1 + rest.pulled,
            state: rest.state,
        }
    }
}

/// The sum of row counts.
pub open spec fn total(rows: Seq<nat>) -> nat
    decreases rows.len(),
{
    if rows.len() == 0 {
        0
    } else {
        rows[0] + total(rows.drop_first())
    }
}

proof fn lemma_total_concat(head: nat, tail: Seq<nat>)
    ensures
        total(seq![head] + tail) == head + total(tail),
{
    let all = seq![head] + tail;
    assert(all.drop_first() =~= tail);
}

proof fn lemma_total_take_step(rows: Seq<nat>, j: int)
    requires
        0 <= j < rows.len(),
    ensures
        total(rows.take(j + 1)) == rows[0] + total(rows.drop_first().take(j)),
{
    assert(rows.take(j + 1).drop_first() =~= rows.drop_first().take(j));
}

/// What draining gives from any state that keeps the invariant.
proof fn lemma_drain(s: StreamState, input: Seq<nat>)
    requires
        s.wf(),
        s.open,
    ensures
        ({
            let d = drain(s, input);
            &&& !d.state.open
            &&& d.state.limit == s.limit
            &&& d.state.emitted == s.emitted + total(d.forwarded)
            &&& total(d.forwarded) == min(s.limit - s.emitted, total(input) as int)
            &&& d.forwarded.len() <= d.pulled <= input.len()
            &&& forall|i: int| 0 <= i < d.forwarded.len() ==> #[trigger] d.forwarded[i] <= input[i]
            &&& forall|i: int|
                0 <= i < d.forwarded.len() - 1 ==> #[trigger] d.forwarded[i] == input[i]
            &&& forall|i: int|
                0 <= i < d.forwarded.len() && #[trigger] d.forwarded[i] < input[i] ==> d.pulled
                    == i + 1
        }),
    decreases input.len(),
{
    if input.len() == 0 {
    } else {
        let next = s.after_batch(input[0]);
        let rest = drain(next, input.drop_first());
        let tail = input.drop_first();
        if next.open {
            lemma_drain(next, tail);
            lemma_total_concat(s.passed(input[0]), rest.forwarded);
            let d = drain(s, input);
            assert(d.forwarded =~= seq![input[0]] + rest.forwarded);
            assert forall|i: int| 0 <= i < d.forwarded.len() implies #[trigger] d.forwarded[i]
                <= input[i] by {
                if i > 0 {
                    assert(d.forwarded[i] == rest.forwarded[i - 1]);
                    assert(input[i] == tail[i - 1]);
                }
            }
            assert forall|i: int| 0 <= i < d.forwarded.len() - 1 implies #[trigger] d.forwarded[i]
                == input[i] by {
                if i > 0 {
                    assert(d.forwarded[i] == rest.forwarded[i - 1]);
                    assert(input[i] == tail[i - 1]);
                }
            }
            assert forall|i: int|
                0 <= i < d.forwarded.len() && #[trigger] d.forwarded[i] < input[i] implies d.pulled
                == i + 1 by {
                if i > 0 {
                    assert(d.forwarded[i] == rest.forwarded[i - 1]);
                    assert(input[i] == tail[i - 1]);
                }
            }
        } else {
            assert(rest.forwarded =~= Seq::<nat>::empty());
            lemma_total_concat(s.passed(input[0]), rest.forwarded);
            let d = drain(s, input);
            if s.verdict(input[0]) is Suppress {
            } else {
                assert(d.forwarded =~= seq![s.passed(input[0])]);
            }
        }
    }
}

/// Whatever the limit and whatever the input, the rows that a stream passes
/// on add up to the limit or to the rows of the input, whichever is less.
pub proof fn lemma_emits_least_of_limit_and_input(limit: nat, input: Seq<nat>)
    ensures
        total(drain(StreamState::start(limit), input).forwarded) == min(limit as int, total(input) as int),
        drain(StreamState::start(limit), input).state.emitted == min(limit as int, total(input) as int),
{
    lemma_drain(StreamState::start(limit), input);
}

/// A stream that has let go of its input takes nothing more from it and
/// passes nothing more on, whatever the input still holds.
pub proof fn lemma_released_input_is_not_pulled(s: StreamState, input: Seq<nat>)
    requires
        !s.open,
    ensures
        drain(s, input).pulled == 0,
        drain(s, input).forwarded.len() == 0,
        drain(s, input).state == s,
{
}

/// A stream that was pulled until it ended has let go of its input, be it
/// that the limit was reached or that the input ended, and it took no more
/// batches than the input had.
pub proof fn lemma_drained_stream_has_released(s: StreamState, input: Seq<nat>)
    requires
        s.wf(),
    ensures
        !drain(s, input).state.open,
        !s.after_end().open,
        drain(s, input).pulled <= input.len(),
{
    if s.open {
        lemma_drain(s, input);
    }
}

/// Unless a batch happens to fill the limit to the row, every batch is
/// taken from the input while fewer rows than the limit have been passed on:
/// once the limit is reached the input is not pulled again.
///
/// Where the batches taken so far add up to the limit exactly, the stream
/// still holds its input, and the next pull takes one more batch, which is
/// dropped.
pub proof fn lemma_no_pull_after_limit(s: StreamState, input: Seq<nat>)
    requires
        s.wf(),
        s.open,
        forall|j: int| 0 <= j < input.len() ==> s.emitted + total(#[trigger] input.take(j)) != s.limit,
    ensures
        forall|j: int|
            0 <= j < drain(s, input).pulled ==> s.emitted + total(#[trigger] input.take(j))
                < s.limit,
    decreases input.len(),
{
    if input.len() > 0 {
        assert(input.take(0) =~= Seq::<nat>::empty());
        assert(s.emitted + total(input.take(0)) != s.limit);
        let next = s.after_batch(input[0]);
        let tail = input.drop_first();
        if next.open {
            assert forall|j: int| 0 <= j < tail.len() implies next.emitted + total(
                #[trigger] tail.take(j),
            ) != next.limit by {
                lemma_total_take_step(input, j);
                if j + 1 < input.len() {
                    assert(s.emitted + total(input.take(j + 1)) != s.limit);
                } else {
                    assert(j + 1 == input.len());
                    assert(tail.take(j).len() == j);
                }
            }
            lemma_no_pull_after_limit(next, tail);
            lemma_drain(s, input);
            assert forall|j: int| 0 <= j < drain(s, input).pulled implies s.emitted + total(
                #[trigger] input.take(j),
            ) < s.limit by {
                if j > 0 {
                    lemma_total_take_step(input, j - 1);
                    assert(next.emitted + total(tail.take(j - 1)) < next.limit);
                }
            }
        } else {
            assert(drain(next, tail).pulled == 0);
        }
    }
}

/// Whatever the input, only the last batch that a stream takes can be taken
/// at the limit: every batch before it is taken while fewer rows than the
/// limit have been passed on, and the one taken at the limit is dropped.
pub proof fn lemma_one_pull_at_most_at_limit(s: StreamState, input: Seq<nat>)
    requires
        s.wf(),
        s.open,
    ensures
        forall|j: int|
            0 <= j && j + 1 < drain(s, input).pulled ==> s.emitted + total(
                #[trigger] input.take(j),
            ) < s.limit,
        forall|j: int|
            0 <= j < drain(s, input).pulled && s.emitted + total(#[trigger] input.take(j))
                == s.limit ==> s.after_batches(input.take(j)).verdict(input[j]) is Suppress,
    decreases input.len(),
{
    let d = drain(s, input);
    if input.len() == 0 {
        // nothing was taken
        assert(d.pulled == 0);
    } else {
        let next = s.after_batch(input[0]);
        let tail = input.drop_first();
        let rest = drain(next, tail);
        assert(d.pulled == 1 + rest.pulled);
        assert(input.take(0) =~= Seq::<nat>::empty());
        assert(total(input.take(0)) == 0);
        assert(s.after_batches(input.take(0)) == s);
        if next.open {
            // the first batch was forwarded whole, below the limit
            assert(s.verdict(input[0]) is Forward);
            assert(s.emitted < s.limit);
            lemma_drain(next, tail);
            lemma_one_pull_at_most_at_limit(next, tail);
            assert forall|j: int| 0 <= j && j + 1 < d.pulled implies s.emitted + total(
                #[trigger] input.take(j),
            ) < s.limit by {
                if j > 0 {
                    lemma_total_take_step(input, j - 1);
                    assert(next.emitted + total(tail.take(j - 1)) < next.limit);
                }
            }
            assert forall|j: int|
                0 <= j < d.pulled && s.emitted + total(#[trigger] input.take(j))
                    == s.limit implies s.after_batches(input.take(j)).verdict(
                input[j],
            ) is Suppress by {
                if j > 0 {
                    lemma_total_take_step(input, j - 1);
                    assert(input.take(j).drop_first() =~= tail.take(j - 1));
                    assert(input.take(j)[0] == input[0]);
                    assert(tail[j - 1] == input[j]);
                    assert(s.after_batches(input.take(j)) == next.after_batches(
                        tail.take(j - 1),
                    ));
                    assert(next.emitted + total(tail.take(j - 1)) == next.limit);
                }
            }
        } else {
            // the first batch made the stream let go: it is the one batch taken
            assert(rest.pulled == 0);
            assert(d.pulled == 1);
            assert forall|j: int|
                0 <= j < d.pulled && s.emitted + total(#[trigger] input.take(j))
                    == s.limit implies s.after_batches(input.take(j)).verdict(
                input[j],
            ) is Suppress by {
                assert(j == 0);
                assert(s.emitted == s.limit);
            }
        }
    }
}

/// Where the limit is above the rows of the input, every batch is forwarded
/// whole, the batches taken are all that the input has, and the stream still
/// holds its input when the input ends: it is the end of the input that
/// makes it let go.
pub proof fn lemma_limit_above_input_forwards_all(s: StreamState, input: Seq<nat>)
    requires
        s.wf(),
        s.open,
        s.emitted + total(input) < s.limit,
    ensures
        drain(s, input).forwarded == input,
        drain(s, input).pulled == input.len(),
        s.after_batches(input).open,
        s.after_batches(input).emitted == s.emitted + total(input),
        drain(s, input).state == s.after_batches(input).after_end(),
    decreases input.len(),
{
    if input.len() == 0 {
        assert(drain(s, input).forwarded =~= input);
    } else {
        let next = s.after_batch(input[0]);
        let tail = input.drop_first();
        assert(total(input) == input[0] + total(tail));
        assert(s.verdict(input[0]) is Forward);
        assert(next.open);
        lemma_limit_above_input_forwards_all(next, tail);
        assert(drain(s, input).forwarded =~= seq![input[0]] + tail);
        assert(seq![input[0]] + tail =~= input);
    }
}

/// A stream cuts at most one batch. Every batch passed on before the last
/// is the input's batch in full, the last has at most the rows of the
/// input's, and where it has fewer no batch after it was taken from the
/// input.
pub proof fn lemma_truncates_at_most_once(limit: nat, input: Seq<nat>)
    ensures
        ({
            let d = drain(StreamState::start(limit), input);
            &&& d.forwarded.len() <= d.pulled <= input.len()
            &&& forall|i: int| 0 <= i < d.forwarded.len() ==> #[trigger] d.forwarded[i] <= input[i]
            &&& forall|i: int|
                0 <= i < d.forwarded.len() - 1 ==> #[trigger] d.forwarded[i] == input[i]
            &&& forall|i: int|
                0 <= i < d.forwarded.len() && #[trigger] d.forwarded[i] < input[i] ==> d.pulled
                    == i + 1
        }),
{
    lemma_drain(StreamState::start(limit), input);
}

} // verus!
