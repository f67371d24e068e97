//! Chunked batch writer.
//!
//! A statement sent to the store binds at most `max_params` parameters. A
//! collection of records with `field_count` bindable fields each is therefore
//! written in consecutive chunks of `max_params / field_count` records (at
//! least one), one insert-returning statement per chunk.
use vstd::arithmetic::div_mod::{lemma_fundamental_div_mod, lemma_mod_bound};
use vstd::prelude::*;

verus! {

/// The largest number of parameters that one statement may bind.
pub const MAX_BIND_PARAMETERS: usize = 65535;

/// Errors of a batch write.
#[derive(Clone, Copy, Debug, PartialEq, Eq, Structural)]
pub enum BatchError {
    /// A record type with no bindable field cannot be chunked.
    InvalidFieldCount,
    /// The store sent back a number of rows other than the number of records
    /// of the chunk it was given.
    RowCountMismatch { expected: usize, returned: usize },
}

/// Records `start..end` of a collection, written by one statement.
#[derive(Clone, Copy, Debug, PartialEq, Eq, Structural)]
pub struct ChunkRange {
    pub start: usize,
    pub end: usize,
}

impl ChunkRange {
    pub open spec fn len(self) -> int {
        self.end - self.start
    }
}

/// Records per chunk: `max_params / field_count`, and at least one.
pub open spec fn spec_chunk_size(max_params: nat, field_count: nat) -> nat
    recommends
        field_count > 0,
{
    if max_params / field_count >= 1 {
        max_params / field_count
    } else {
        1
    }
}

/// Number of chunks of at most `size` records that `len` records take:
/// `len / size` rounded up.
pub open spec fn chunk_count(len: nat, size: nat) -> nat
    recommends
        size > 0,
{
    ((len + size - 1) / size as int) as nat
}

/// The `i`-th chunk of `len` records cut into chunks of `size`.
pub open spec fn chunk_at(i: nat, len: nat, size: nat) -> ChunkRange {
    ChunkRange {
        start: (i * size) as usize,
        end: (if (i + 1) * size <= len {
            (i + 1) * size
        } else {
            len
        }) as usize,
    }
}

/// The chunks of `len` records, in order.
pub open spec fn chunk_plan(len: nat, size: nat) -> Seq<ChunkRange> {
    Seq::new(chunk_count(len, size), |i: int| chunk_at(i as nat, len, size))
}

/// Number of records that the first `done` chunks hold.
pub open spec fn records_in_chunks(done: nat, len: nat, size: nat) -> nat {
    if done * size <= len {
        done * size
    } else {
        len
    }
}

/// `k` chunks of `s` records come before record `n` exactly when `k` is below
/// the chunk count of `n` records.
pub proof fn lemma_chunk_count(n: nat, s: nat, k: nat)
    requires
        s > 0,
    ensures
        k < chunk_count(n, s) <==> k * s < n,
{
    let x = (n + s - 1) as int;
    let q = x / s as int;
    lemma_fundamental_div_mod(x, s as int);
    lemma_mod_bound(x, s as int);
    if k < q {
        assert(k * s + s <= s * q) by (nonlinear_arith)
            requires
                k + 1 <= q,
                s > 0,
        ;
    } else {
        assert(k * s >= s * q) by (nonlinear_arith)
            requires
                k >= q,
                s > 0,
        ;
    }
}

/// Cutting `len` records into chunks of at most `size`: there are
/// `ceil(len / size)` chunks; each holds between one and `size` records; they
/// follow each other without gap or overlap, from the first record to the last.
pub proof fn lemma_chunks_partition_records(len: nat, size: nat)
    requires
        size > 0,
        len <= usize::MAX,
    ensures
        chunk_plan(len, size).len() == (len + size - 1) / size as int,
        forall|i: int|
            0 <= i < chunk_plan(len, size).len() ==> 0 < #[trigger] chunk_plan(len, size)[i].len()
                <= size,
        forall|i: int|
            0 < i < chunk_plan(len, size).len() ==> #[trigger] chunk_plan(len, size)[i].start
                == chunk_plan(len, size)[i - 1].end,
        len > 0 ==> chunk_plan(len, size)[0].start == 0,
        len > 0 ==> chunk_plan(len, size).last().end == len,
        len == 0 ==> chunk_plan(len, size).len() == 0,
{
    let plan = chunk_plan(len, size);
    assert forall|i: int| 0 <= i < plan.len() implies 0 < #[trigger] plan[i].len() <= size by {
        lemma_chunk_count(len, size, i as nat);
        assert(i * size < len);
        assert((i + 1) * size == i * size + size) by (nonlinear_arith);
    }
    assert forall|i: int| 0 < i < plan.len() implies #[trigger] plan[i].start == plan[i - 1].end by {
        lemma_chunk_count(len, size, i as nat);
        lemma_chunk_count(len, size, (i - 1) as nat);
        assert(i * size == (i - 1) * size + size) by (nonlinear_arith);
    }
    if len > 0 {
        lemma_chunk_count(len, size, 0);
        let last = (plan.len() - 1) as nat;
        lemma_chunk_count(len, size, last);
        lemma_chunk_count(len, size, last + 1);
        assert((last + 1) * size == last * size + size) by (nonlinear_arith);
    } else {
        lemma_chunk_count(len, size, 0);
    }
}

/// Records per chunk for a record type of `field_count` bindable fields.
pub fn chunk_size(max_params: usize, field_count: usize) -> (r: Result<usize, BatchError>)
    ensures
        field_count == 0 <==> r == Err::<usize, BatchError>(BatchError::InvalidFieldCount),
        field_count > 0 ==> r == Ok::<usize, BatchError>(
            spec_chunk_size(max_params as nat, field_count as nat) as usize,
        ),
{
    if field_count == 0 {
        return Err(BatchError::InvalidFieldCount);
    }
    let per_chunk = max_params / field_count;
    if per_chunk >= 1 {
        Ok(per_chunk)
    } else {
        Ok(1)
    }
}

/// The chunks of `len` records cut into chunks of `size`, in order.
pub fn plan_chunks(len: usize, size: usize) -> (r: Vec<ChunkRange>)
    requires
        size > 0,
    ensures
        r@ == chunk_plan(len as nat, size as nat),
{
    let mut plan: Vec<ChunkRange> = Vec::new();
    let mut start: usize = 0;
    while start < len
        invariant
            size > 0,
            start <= len,
            start as nat == records_in_chunks(plan@.len(), len as nat, size as nat),
            start < len ==> start == plan@.len() * size,
            plan@.len() > 0 ==> (plan@.len() - 1) * size < len,
            forall|i: int|
                0 <= i < plan@.len() ==> #[trigger] plan@[i] == chunk_at(i as nat, len as nat, size as nat),
        decreases len - start,
    {
        let k = plan.len();
        let end: usize = if len - start > size {
            start + size
        } else {
            len
        };
        proof {
            assert((k + 1) * size == k * size + size) by (nonlinear_arith);
        }
        plan.push(ChunkRange { start, end });
        start = end;
    }
    proof {
        let k = plan@.len();
        lemma_chunk_count(len as nat, size as nat, k);
        if k > 0 {
            lemma_chunk_count(len as nat, size as nat, (k - 1) as nat);
        }
        assert(plan@ =~= chunk_plan(len as nat, size as nat));
    }
    plan
}

/// What a batch writer asks of the store next.
#[derive(Clone, Copy, Debug, PartialEq, Eq, Structural)]
pub enum BatchStep {
    /// Insert these records in one statement, and hand the returned rows back.
    Insert(ChunkRange),
    /// Every chunk is written.
    Done,
}

/// Writes a collection of records chunk by chunk and gathers the rows the
/// store sends back, in the order of the records.
///
/// A chunk that fails aborts the batch: the caller drops the writer and lets
/// its transaction roll back, so no partial batch is ever reported.
pub struct BatchWriter<R> {
    len: usize,
    size: usize,
    plan: Vec<ChunkRange>,
    done: usize,
    rows: Vec<R>,
    returned: Ghost<Seq<Seq<R>>>,
}

impl<R> BatchWriter<R> {
    /// Number of records of the collection.
    pub closed spec fn record_count(&self) -> nat {
        self.len as nat
    }

    /// Records per chunk.
    pub closed spec fn size(&self) -> nat {
        self.size as nat
    }

    /// Number of chunks written so far.
    pub closed spec fn chunks_done(&self) -> nat {
        self.done as nat
    }

    /// Rows gathered so far.
    pub closed spec fn rows(&self) -> Seq<R> {
        self.rows@
    }

    /// The rows the store returned for each chunk written so far.
    pub closed spec fn chunk_results(&self) -> Seq<Seq<R>> {
        self.returned@
    }

    /// The chunks of the collection, in order.
    pub open spec fn plan(&self) -> Seq<ChunkRange> {
        chunk_plan(self.record_count(), self.size())
    }

    pub open spec fn finished(&self) -> bool {
        self.chunks_done() == self.plan().len()
    }

    pub closed spec fn wf(&self) -> bool {
        &&& self.size > 0
        &&& self.len <= usize::MAX
        &&& self.plan@ == chunk_plan(self.len as nat, self.size as nat)
        &&& self.done <= self.plan@.len()
        &&& self.rows@.len() == records_in_chunks(self.done as nat, self.len as nat, self.size as nat)
        &&& self.returned@.len() == self.done
        &&& self.rows@ == concat_rows(self.returned@)
        &&& forall|i: int|
            0 <= i < self.done ==> (#[trigger] self.returned@[i]).len() == self.plan@[i].len()
    }

    /// Starts writing `len` records of `field_count` bindable fields each,
    /// with at most `max_params` parameters per statement.
    pub fn create_batch(len: usize, field_count: usize, max_params: usize) -> (r: Result<
        Self,
        BatchError,
    >)
        ensures
            field_count == 0 <==> r is Err,
            r is Err ==> r == Err::<Self, BatchError>(BatchError::InvalidFieldCount),
            r matches Ok(w) ==> {
                &&& w.wf()
                &&& w.record_count() == len
                &&& w.size() == spec_chunk_size(max_params as nat, field_count as nat)
                &&& w.chunks_done() == 0
                &&& w.rows() == Seq::<R>::empty()
                &&& w.chunk_results() == Seq::<Seq<R>>::empty()
                &&& len == 0 ==> w.finished()
            },
    {
        let size = match chunk_size(max_params, field_count) {
            Ok(s) => s,
            Err(e) => return Err(e),
        };
        let plan = plan_chunks(len, size);
        proof {
            assert(concat_rows(Seq::<Seq<R>>::empty()) == Seq::<R>::empty());
            lemma_chunk_count(len as nat, size as nat, 0);
        }
        Ok(BatchWriter { len, size, plan, done: 0, rows: Vec::new(), returned: Ghost(Seq::empty()) })
    }

    /// The next statement to issue: the next chunk, or nothing once all are written.
    pub fn next_step(&self) -> (r: BatchStep)
        requires
            self.wf(),
        ensures
            self.finished() ==> r == BatchStep::Done,
            !self.finished() ==> r == BatchStep::Insert(self.plan()[self.chunks_done() as int]),
    {
        if self.done < self.plan.len() {
            BatchStep::Insert(self.plan[self.done])
        } else {
            BatchStep::Done
        }
    }

    /// Takes the rows the store sent back for the chunk of `next_step`, which
    /// must be one row per record of the chunk, in the chunk's order.
    pub fn chunk_written(&mut self, returned: Vec<R>) -> (r: Result<(), BatchError>)
        requires
            old(self).wf(),
            !old(self).finished(),
        ensures
            final(self).wf(),
            final(self).record_count() == old(self).record_count(),
            final(self).size() == old(self).size(),
            returned@.len() == old(self).plan()[old(self).chunks_done() as int].len() <==> r is Ok,
            r is Ok ==> final(self).chunks_done() == old(self).chunks_done() + 1,
            r is Ok ==> final(self).rows() == old(self).rows() + returned@,
            r is Ok ==> final(self).chunk_results() == old(self).chunk_results().push(returned@),
            r is Err ==> *final(self) == *old(self) && r == Err::<(), BatchError>(
                BatchError::RowCountMismatch {
                    expected: old(self).plan()[old(self).chunks_done() as int].len() as usize,
                    returned: returned@.len() as usize,
                },
            ),
    {
        let count = self.plan.len();
        let chunk = self.plan[self.done];
        proof {
            lemma_chunk_bounds(self.len as nat, self.size as nat, self.done as nat);
        }
        let expected = chunk.end - chunk.start;
        if returned.len() != expected {
            return Err(BatchError::RowCountMismatch { expected, returned: returned.len() });
        }
        let ghost chunk_rows = returned@;
        let mut returned = returned;
        self.rows.append(&mut returned);
        self.done = self.done + 1;
        self.returned = Ghost(self.returned@.push(chunk_rows));
        proof {
            assert(self.returned@.drop_last() =~= old(self).returned@);
        }
        Ok(())
    }

    /// The rows of the whole collection once every chunk is written.
    pub fn into_rows(self) -> (r: Vec<R>)
        requires
            self.wf(),
            self.finished(),
        ensures
            r@ == self.rows(),
            r@ == concat_rows(self.chunk_results()),
            r@.len() == self.record_count(),
            self.chunk_results().len() == self.plan().len(),
            forall|i: int|
                0 <= i < self.plan().len() ==> (#[trigger] self.chunk_results()[i]).len()
                    == self.plan()[i].len(),
            forall|i: int, j: int|
                0 <= i < self.plan().len() && 0 <= j < self.chunk_results()[i].len()
                    ==> r@[self.plan()[i].start + j] == #[trigger] self.chunk_results()[i][j],
    {
        proof {
            let k = self.done as nat;
            lemma_chunk_count(self.len as nat, self.size as nat, k);
            lemma_rows_follow_records(self.len as nat, self.size as nat, self.returned@);
        }
        self.rows
    }
}

/// The rows of successive chunks, one after the other.
pub open spec fn concat_rows<R>(results: Seq<Seq<R>>) -> Seq<R>
    decreases results.len(),
{
    if results.len() == 0 {
        Seq::empty()
    } else {
        concat_rows(results.drop_last()) + results.last()
    }
}

/// Rows come out in the order of the records: when the store returns, for
/// the first `k` chunks, one row per record of the chunk, the rows of chunk
/// `i` stand at the positions of its records, and the first `k` chunks give
/// as many rows as they hold records. For a whole batch (`k` the chunk
/// count) that is one row per record of the collection.
pub proof fn lemma_rows_follow_records<R>(len: nat, size: nat, results: Seq<Seq<R>>)
    requires
        size > 0,
        len <= usize::MAX,
        results.len() <= chunk_count(len, size),
        forall|i: int|
            0 <= i < results.len() ==> (#[trigger] results[i]).len() == chunk_plan(
                len,
                size,
            )[i].len(),
    ensures
        concat_rows(results).len() == records_in_chunks(results.len(), len, size),
        results.len() == chunk_count(len, size) ==> concat_rows(results).len() == len,
        forall|i: int, j: int|
            0 <= i < results.len() && 0 <= j < results[i].len() ==> concat_rows(results)[chunk_plan(
                len,
                size,
            )[i].start + j] == #[trigger] results[i][j],
    decreases results.len(),
{
    let k = results.len();
    if k == 0 {
        lemma_chunk_count(len, size, 0);
    } else {
        let prev = results.drop_last();
        lemma_rows_follow_records(len, size, prev);
        lemma_chunk_bounds(len, size, (k - 1) as nat);
        let plan = chunk_plan(len, size);
        assert forall|i: int, j: int|
            0 <= i < results.len() && 0 <= j < results[i].len() implies concat_rows(results)[plan[i].start
            + j] == #[trigger] results[i][j] by {
            if i < k - 1 {
                lemma_chunk_bounds(len, size, i as nat);
                assert(prev[i] == results[i]);
                assert((i + 1) * size <= (k - 1) * size) by (nonlinear_arith)
                    requires
                        i + 1 <= k - 1,
                        size > 0,
                ;
            }
        }
        if k == chunk_count(len, size) {
            lemma_chunk_count(len, size, k);
        }
    }
}

/// The `k`-th chunk, for `k` below the chunk count, starts at `k * size`,
/// ends where the first `k + 1` chunks end, and is not empty.
pub proof fn lemma_chunk_bounds(len: nat, size: nat, k: nat)
    requires
        size > 0,
        len <= usize::MAX,
        k < chunk_count(len, size),
    ensures
        k * size < len,
        records_in_chunks(k, len, size) == k * size,
        chunk_at(k, len, size).start == k * size,
        chunk_at(k, len, size).end as nat == records_in_chunks(k + 1, len, size),
        chunk_at(k, len, size).start < chunk_at(k, len, size).end,
{
    lemma_chunk_count(len, size, k);
    assert((k + 1) * size == k * size + size) by (nonlinear_arith);
}

} // verus!
