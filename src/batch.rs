//! Batch execution planning and aggregation of per-item outcomes.

use std::collections::VecDeque;
use vstd::prelude::*;
use crate::error::FastResizeError;
use crate::format::ImageFormat;

verus! {

/// Size and location of an image file.
#[derive(Debug, Clone)]
pub struct ImageInfo {
    pub path: String,
    pub width: u32,
    pub height: u32,
    pub format: ImageFormat,
    pub file_size: u64,
    pub pixel_count: u64,
}

/// Outcome of transforming one item. Times are milliseconds.
#[derive(Debug, Clone)]
pub struct ProcessingResult {
    pub input_path: String,
    pub output_path: String,
    pub original_info: ImageInfo,
    pub output_info: ImageInfo,
    pub processing_time: u64,
    pub success: bool,
    pub error: Option<String>,
}

/// Input bytes per output byte, in thousandths (1000 when nothing was written).
pub open spec fn spec_compression_ratio(input: nat, output: nat) -> u64 {
    if output == 0 { 1000 } else { spec_sat(input * 1000 / output) }
}

/// Share of the input bytes saved, in thousandths of a percent (0 for no input).
pub open spec fn spec_size_reduction(input: nat, output: nat) -> nat {
    if input == 0 || output >= input { 0 } else { ((input - output) as nat * 100000) / input }
}

fn compression_ratio_of(input: u64, output: u64) -> (r: u64)
    ensures
        r == spec_compression_ratio(input as nat, output as nat),
{
    if output == 0 {
        return 1000;
    }
    let ratio = (input as u128) * 1000 / (output as u128);
    if ratio <= u64::MAX as u128 { ratio as u64 } else { u64::MAX }
}

fn size_reduction_of(input: u64, output: u64) -> (r: u64)
    ensures
        r == spec_size_reduction(input as nat, output as nat),
        r <= 100000,
{
    if input == 0 || output >= input {
        return 0;
    }
    let saved = (input - output) as u128;
    let whole = input as u128;
    let r = saved * 100000 / whole;
    assert(r <= 100000) by (nonlinear_arith)
        requires r as int == (saved as int * 100000) / (whole as int), saved <= whole, whole > 0;
    r as u64
}

impl ProcessingResult {
    /// Input bytes per output byte, in thousandths (1000 when nothing was written).
    pub fn compression_ratio(&self) -> (r: u64)
        ensures
            r == spec_compression_ratio(self.original_info.file_size as nat, self.output_info.file_size as nat),
    {
        compression_ratio_of(self.original_info.file_size, self.output_info.file_size)
    }

    /// Share of the input bytes saved, in thousandths of a percent.
    pub fn size_reduction(&self) -> (r: u64)
        ensures
            r == spec_size_reduction(self.original_info.file_size as nat, self.output_info.file_size as nat),
    {
        size_reduction_of(self.original_info.file_size, self.output_info.file_size)
    }

    /// Input pixels per second, rounded down (0 when no time was recorded).
    pub fn pixels_per_second(&self) -> (r: u64)
        ensures
            r == spec_sat(spec_rate(self.original_info.pixel_count as nat, self.processing_time as nat, 1)),
    {
        if self.processing_time == 0 {
            return 0;
        }
        let rate = (self.original_info.pixel_count as u128) * 1000 / (self.processing_time as u128);
        if rate <= u64::MAX as u128 { rate as u64 } else { u64::MAX }
    }
}

/// How a batch is executed.
#[derive(Debug, Clone, Copy, PartialEq, Eq, Structural)]
pub enum ProcessingStrategy {
    /// One task per item behind a counting semaphore (small batches).
    Async,
    /// A work-stealing thread pool over all items (large batches with ample memory).
    CpuIntensive,
    /// Bounded chunks one after another, the items of a chunk concurrently.
    Hybrid,
    /// Chosen from the batch size and the available memory.
    Auto,
}

/// Bytes below which available memory counts as low for strategy choice (2 GiB).
pub const LOW_MEMORY_THRESHOLD: u64 = 2147483648;

pub open spec fn spec_choose_auto(file_count: nat, available_memory: nat) -> ProcessingStrategy {
    if file_count < 10 {
        ProcessingStrategy::Async
    } else if available_memory < LOW_MEMORY_THRESHOLD {
        ProcessingStrategy::Hybrid
    } else if file_count > 100 {
        ProcessingStrategy::CpuIntensive
    } else {
        ProcessingStrategy::Hybrid
    }
}

impl ProcessingStrategy {
    /// Async below 10 items; otherwise Hybrid under 2 GiB of available memory,
    /// CpuIntensive above 100 items, Hybrid in between.
    pub fn choose_auto(file_count: usize, available_memory: u64) -> (r: Self)
        ensures
            r == spec_choose_auto(file_count as nat, available_memory as nat),
    {
        if file_count < 10 {
            ProcessingStrategy::Async
        } else if available_memory < LOW_MEMORY_THRESHOLD {
            ProcessingStrategy::Hybrid
        } else if file_count > 100 {
            ProcessingStrategy::CpuIntensive
        } else {
            ProcessingStrategy::Hybrid
        }
    }
}

/// Chunk size of the hybrid strategy: items per worker, clamped to 1..=10.
pub open spec fn spec_hybrid_chunk_size(total: nat, max_concurrent: nat) -> nat {
    let per_worker = total / max_concurrent;
    if per_worker < 1 {
        1
    } else if per_worker > 10 {
        10
    } else {
        per_worker
    }
}

/// Items per chunk for the hybrid strategy.
pub fn hybrid_chunk_size(total: usize, max_concurrent: usize) -> (r: usize)
    requires
        max_concurrent > 0,
    ensures
        r == spec_hybrid_chunk_size(total as nat, max_concurrent as nat),
        1 <= r <= 10,
{
    let per_worker = total / max_concurrent;
    if per_worker < 1 {
        1
    } else if per_worker > 10 {
        10
    } else {
        per_worker
    }
}

/// The chunk layout of the hybrid strategy: `(start, end)` index ranges of
/// `size` items each (the last may hold fewer) that follow one another from 0
/// to `total`.
pub open spec fn spec_hybrid_layout(c: Seq<(usize, usize)>, total: nat, size: nat) -> bool {
    &&& size >= 1
    &&& c.len() == (total + size - 1) / size as int
    &&& forall|k: int| 0 <= k < c.len() ==> (#[trigger] c[k]).0 == k * size
    &&& forall|k: int| 0 <= k < c.len() ==> (#[trigger] c[k]).1 == if (k + 1) * size <= total {
        (k + 1) * size
    } else {
        total as int
    }
    &&& forall|k: int| 0 <= k < c.len() ==> (#[trigger] c[k]).0 < c[k].1
    &&& forall|k: int| 0 < k < c.len() ==> (#[trigger] c[k]).0 == c[k - 1].1
    &&& c.len() == 0 <==> total == 0
    &&& c.len() > 0 ==> c[0].0 == 0 && c[c.len() - 1].1 == total
}

/// The chunks of the hybrid strategy as `(start, end)` index ranges: they
/// follow one another from 0 to `total`, each holds the chunk size, and the
/// last may hold fewer. Every item lies in exactly one chunk.
pub fn hybrid_chunks(total: usize, max_concurrent: usize) -> (r: Vec<(usize, usize)>)
    requires
        max_concurrent > 0,
    ensures
        spec_hybrid_layout(r@, total as nat, spec_hybrid_chunk_size(total as nat, max_concurrent as nat)),
{
    let size = hybrid_chunk_size(total, max_concurrent);
    let mut chunks: Vec<(usize, usize)> = Vec::new();
    let mut start: usize = 0;
    assert(chunks@.len() * size == 0) by (nonlinear_arith)
        requires chunks@.len() == 0;
    while start < total
        invariant
            1 <= size <= 10,
            size == spec_hybrid_chunk_size(total as nat, max_concurrent as nat),
            start <= total,
            start as int == if chunks@.len() * size <= total { chunks@.len() * size } else { total as int },
            chunks@.len() > 0 ==> (chunks@.len() - 1) * size < total,
            forall|k: int| 0 <= k < chunks@.len() ==> (#[trigger] chunks@[k]).0 == k * size,
            forall|k: int| 0 <= k < chunks@.len() ==> (#[trigger] chunks@[k]).1 == if (k + 1) * size <= total {
                (k + 1) * size
            } else {
                total as int
            },
            forall|k: int| 0 <= k < chunks@.len() ==> (#[trigger] chunks@[k]).0 < chunks@[k].1,
            forall|k: int| 0 < k < chunks@.len() ==> (#[trigger] chunks@[k]).0 == chunks@[k - 1].1,
            chunks@.len() == 0 ==> start == 0,
            chunks@.len() > 0 ==> chunks@[0].0 == 0 && chunks@[chunks@.len() - 1].1 == start,
        decreases total - start,
    {
        let ghost len = chunks@.len() as int;
        assert((len + 1) * size == len * size + size) by (nonlinear_arith);
        let end = if total - start > size { start + size } else { total };
        chunks.push((start, end));
        start = end;
    }
    proof {
        let n = chunks@.len() as int;
        let sz = size as int;
        assert(n * sz >= total);
        assert(n == (total + sz - 1) / sz) by (nonlinear_arith)
            requires n * sz >= total, n == 0 || (n - 1) * sz < total, sz >= 1, total >= 0, n >= 0;
    }
    chunks
}

/// `n`, capped at the largest `u64`.
pub open spec fn spec_sat(n: nat) -> u64 {
    if n <= u64::MAX as nat {
        n as u64
    } else {
        u64::MAX
    }
}

/// The successful outcomes, in order.
pub open spec fn spec_successes(rs: Seq<Result<ProcessingResult, FastResizeError>>) -> Seq<ProcessingResult>
    decreases rs.len(),
{
    if rs.len() == 0 {
        Seq::empty()
    } else {
        let prev = spec_successes(rs.drop_last());
        match rs.last() {
            Ok(p) => prev.push(p),
            Err(_) => prev,
        }
    }
}

/// The failures, in order.
pub open spec fn spec_failures(rs: Seq<Result<ProcessingResult, FastResizeError>>) -> Seq<FastResizeError>
    decreases rs.len(),
{
    if rs.len() == 0 {
        Seq::empty()
    } else {
        let prev = spec_failures(rs.drop_last());
        match rs.last() {
            Ok(_) => prev,
            Err(e) => prev.push(e),
        }
    }
}

/// Total input bytes of the successful outcomes.
pub open spec fn spec_input_total(ps: Seq<ProcessingResult>) -> nat
    decreases ps.len(),
{
    if ps.len() == 0 { 0 } else { spec_input_total(ps.drop_last()) + ps.last().original_info.file_size as nat }
}

/// Total output bytes of the successful outcomes.
pub open spec fn spec_output_total(ps: Seq<ProcessingResult>) -> nat
    decreases ps.len(),
{
    if ps.len() == 0 { 0 } else { spec_output_total(ps.drop_last()) + ps.last().output_info.file_size as nat }
}

/// Total input pixels of the successful outcomes.
pub open spec fn spec_pixel_total(ps: Seq<ProcessingResult>) -> nat
    decreases ps.len(),
{
    if ps.len() == 0 { 0 } else { spec_pixel_total(ps.drop_last()) + ps.last().original_info.pixel_count as nat }
}

/// `count` per second over `millis` milliseconds, scaled by `scale` and rounded
/// down; zero when no time elapsed.
pub open spec fn spec_rate(count: nat, millis: nat, scale: nat) -> nat {
    if millis == 0 { 0 } else { count * scale * 1000 / millis }
}

/// Terminal aggregate of a batch. Times are milliseconds; byte and pixel totals
/// saturate; rates are per second (`files_per_second_milli` in thousandths).
#[derive(Debug)]
pub struct BatchProcessingResult {
    pub successful: u32,
    pub failed: u32,
    pub successful_results: Vec<ProcessingResult>,
    pub failed_errors: Vec<FastResizeError>,
    pub processing_time: u64,
    pub total_input_size: u64,
    pub total_output_size: u64,
    pub total_pixels_processed: u64,
    pub files_per_second_milli: u64,
    pub pixels_per_second: u64,
}

/// Aggregates per-item outcomes of a batch that took `processing_time`
/// milliseconds: successes and failures keep their order, and every item is
/// counted exactly once.
pub fn aggregate_results(results: Vec<Result<ProcessingResult, FastResizeError>>, processing_time: u64) -> (r: BatchProcessingResult)
    requires
        results@.len() <= u32::MAX,
    ensures
        r.successful as nat + r.failed as nat == results@.len(),
        r.successful_results@ == spec_successes(results@),
        r.failed_errors@ == spec_failures(results@),
        r.successful == spec_successes(results@).len(),
        r.failed == spec_failures(results@).len(),
        r.processing_time == processing_time,
        r.total_input_size == spec_sat(spec_input_total(spec_successes(results@))),
        r.total_output_size == spec_sat(spec_output_total(spec_successes(results@))),
        r.total_pixels_processed == spec_sat(spec_pixel_total(spec_successes(results@))),
        r.files_per_second_milli == spec_rate(r.successful as nat, processing_time as nat, 1000),
        r.pixels_per_second == spec_sat(spec_rate(r.total_pixels_processed as nat, processing_time as nat, 1)),
{
    let ghost all = results@;
    let mut rest = results;
    let mut pending: VecDeque<Result<ProcessingResult, FastResizeError>> = VecDeque::new();
    while rest.len() > 0
        invariant
            rest@ + pending@ == all,
        decreases rest@.len(),
    {
        match rest.pop() {
            Some(x) => {
                pending.push_front(x);
                assert(rest@ + pending@ =~= all);
            },
            None => {},
        }
    }
    assert(pending@ =~= all);

    let mut successful_results: Vec<ProcessingResult> = Vec::new();
    let mut failed_errors: Vec<FastResizeError> = Vec::new();
    let mut total_input_size: u64 = 0;
    let mut total_output_size: u64 = 0;
    let mut total_pixels_processed: u64 = 0;
    let ghost mut done: int = 0;
    while pending.len() > 0
        invariant
            0 <= done <= all.len(),
            pending@ == all.skip(done),
            all.len() <= u32::MAX,
            successful_results@ == spec_successes(all.take(done)),
            failed_errors@ == spec_failures(all.take(done)),
            successful_results@.len() + failed_errors@.len() == done,
            total_input_size == spec_sat(spec_input_total(successful_results@)),
            total_output_size == spec_sat(spec_output_total(successful_results@)),
            total_pixels_processed == spec_sat(spec_pixel_total(successful_results@)),
        decreases pending@.len(),
    {
        let next = pending.pop_front();
        proof {
            assert(all.take(done + 1).drop_last() =~= all.take(done));
            assert(all.skip(done + 1) =~= all.skip(done).drop_first());
        }
        match next {
            Some(Ok(p)) => {
                let ghost before = successful_results@;
                total_input_size = total_input_size.saturating_add(p.original_info.file_size);
                total_output_size = total_output_size.saturating_add(p.output_info.file_size);
                total_pixels_processed = total_pixels_processed.saturating_add(p.original_info.pixel_count);
                successful_results.push(p);
                assert(successful_results@.drop_last() =~= before);
            },
            Some(Err(e)) => {
                failed_errors.push(e);
            },
            None => {},
        }
        proof {
            done = done + 1;
        }
    }
    assert(all.take(done) =~= all);
    let successful = successful_results.len() as u32;
    let failed = failed_errors.len() as u32;
    let files_per_second_milli = if processing_time == 0 {
        0
    } else {
        (successful as u64) * 1000000 / processing_time
    };
    let pixels_per_second = if processing_time == 0 {
        0
    } else {
        let rate = (total_pixels_processed as u128) * 1000 / (processing_time as u128);
        if rate <= u64::MAX as u128 { rate as u64 } else { u64::MAX }
    };
    BatchProcessingResult {
        successful,
        failed,
        successful_results,
        failed_errors,
        processing_time,
        total_input_size,
        total_output_size,
        total_pixels_processed,
        files_per_second_milli,
        pixels_per_second,
    }
}

impl BatchProcessingResult {
    /// Input bytes per output byte, in thousandths (1000 when nothing was written).
    pub fn compression_ratio(&self) -> (r: u64)
        ensures
            r == spec_compression_ratio(self.total_input_size as nat, self.total_output_size as nat),
    {
        compression_ratio_of(self.total_input_size, self.total_output_size)
    }

    /// Share of the input bytes saved, in thousandths of a percent (0 for no input).
    pub fn size_reduction(&self) -> (r: u64)
        ensures
            r == spec_size_reduction(self.total_input_size as nat, self.total_output_size as nat),
    {
        size_reduction_of(self.total_input_size, self.total_output_size)
    }

    /// Milliseconds per successful item (0 when none succeeded).
    pub fn average_time_per_file(&self) -> (r: u64)
        ensures
            r == if self.successful == 0 { 0 } else { self.processing_time / self.successful as u64 },
    {
        if self.successful == 0 {
            return 0;
        }
        self.processing_time / (self.successful as u64)
    }
}

/// Every item submitted to a batch is counted once, as a success or as a failure.
pub proof fn lemma_batch_counts(rs: Seq<Result<ProcessingResult, FastResizeError>>)
    ensures
        spec_successes(rs).len() + spec_failures(rs).len() == rs.len(),
    decreases rs.len(),
{
    if rs.len() > 0 {
        lemma_batch_counts(rs.drop_last());
    }
}

/// The outcomes held by the slots, in item order (meaningful once every slot is filled).
pub open spec fn spec_filled_outcomes(slots: Seq<Option<Result<ProcessingResult, FastResizeError>>>)
    -> Seq<Result<ProcessingResult, FastResizeError>> {
    slots.map_values(|o: Option<Result<ProcessingResult, FastResizeError>>| match o {
        Some(r) => r,
        None => arbitrary(),
    })
}

/// Collects the outcome of every item of a batch, each exactly once, whatever
/// order the workers finish in.
pub struct BatchCollector {
    slots: Vec<Option<Result<ProcessingResult, FastResizeError>>>,
}

impl BatchCollector {
    /// One slot per submitted item, by index.
    pub closed spec fn spec_slots(&self) -> Seq<Option<Result<ProcessingResult, FastResizeError>>> {
        self.slots@
    }

    /// A collector for `total` items, none recorded yet.
    pub fn new(total: usize) -> (r: Self)
        ensures
            r.spec_slots().len() == total,
            forall|i: int| 0 <= i < total ==> (#[trigger] r.spec_slots()[i]) is None,
    {
        let mut slots: Vec<Option<Result<ProcessingResult, FastResizeError>>> = Vec::new();
        let mut i: usize = 0;
        while i < total
            invariant
                i <= total,
                slots@.len() == i,
                forall|j: int| 0 <= j < i ==> (#[trigger] slots@[j]) is None,
            decreases total - i,
        {
            slots.push(None);
            i = i + 1;
        }
        BatchCollector { slots }
    }

    /// Records the outcome of item `index`. An index outside the batch, or one
    /// already recorded, is refused and changes nothing.
    pub fn record(&mut self, index: usize, outcome: Result<ProcessingResult, FastResizeError>) -> (r: Result<(), FastResizeError>)
        ensures
            r is Ok <==> index < old(self).spec_slots().len() && old(self).spec_slots()[index as int] is None,
            r is Ok ==> final(self).spec_slots() == old(self).spec_slots().update(index as int, Some(outcome)),
            r is Err ==> final(self).spec_slots() == old(self).spec_slots(),
            index >= old(self).spec_slots().len() ==> (r matches Err(FastResizeError::ParallelError { message })
                && message@ == "Item index out of range"@),
            index < old(self).spec_slots().len() && old(self).spec_slots()[index as int] is Some ==>
                (r matches Err(FastResizeError::ParallelError { message }) && message@ == "Item already recorded"@),
    {
        if index >= self.slots.len() {
            return Err(FastResizeError::parallel("Item index out of range".to_owned()));
        }
        if self.slots[index].is_some() {
            return Err(FastResizeError::parallel("Item already recorded".to_owned()));
        }
        self.slots.set(index, Some(outcome));
        Ok(())
    }

    /// Whether every item has been recorded.
    pub fn is_complete(&self) -> (r: bool)
        ensures
            r == forall|i: int| 0 <= i < self.spec_slots().len() ==> (#[trigger] self.spec_slots()[i]) is Some,
    {
        let mut i: usize = 0;
        while i < self.slots.len()
            invariant
                i <= self.slots@.len(),
                forall|j: int| 0 <= j < i ==> (#[trigger] self.slots@[j]) is Some,
            decreases self.slots@.len() - i,
        {
            if self.slots[i].is_none() {
                return false;
            }
            i = i + 1;
        }
        true
    }

    /// The aggregate of a batch that took `processing_time` milliseconds, once
    /// every item is recorded; a batch with an item missing is a parallel-processing failure.
    pub fn finish(self, processing_time: u64) -> (r: Result<BatchProcessingResult, FastResizeError>)
        requires
            self.spec_slots().len() <= u32::MAX,
        ensures
            r is Ok <==> forall|i: int| 0 <= i < self.spec_slots().len() ==> (#[trigger] self.spec_slots()[i]) is Some,
            r matches Ok(b) ==> ({
                let outcomes = spec_filled_outcomes(self.spec_slots());
                &&& b.successful as nat + b.failed as nat == self.spec_slots().len()
                &&& b.successful_results@ == spec_successes(outcomes)
                &&& b.failed_errors@ == spec_failures(outcomes)
                &&& b.processing_time == processing_time
                &&& b.total_input_size == spec_sat(spec_input_total(spec_successes(outcomes)))
                &&& b.total_output_size == spec_sat(spec_output_total(spec_successes(outcomes)))
            }),
            r matches Err(e) ==> (e matches FastResizeError::ParallelError { message }
                && message@ == "Batch finished with items missing"@),
    {
        let ghost slots = self.slots@;
        if !self.is_complete() {
            return Err(FastResizeError::parallel("Batch finished with items missing".to_owned()));
        }
        let mut rest = self.slots;
        let mut pending: VecDeque<Option<Result<ProcessingResult, FastResizeError>>> = VecDeque::new();
        while rest.len() > 0
            invariant
                rest@ + pending@ == slots,
            decreases rest@.len(),
        {
            match rest.pop() {
                Some(x) => {
                    pending.push_front(x);
                    assert(rest@ + pending@ =~= slots);
                },
                None => {},
            }
        }
        assert(pending@ =~= slots);
        let mut outcomes: Vec<Result<ProcessingResult, FastResizeError>> = Vec::new();
        let ghost mut done: int = 0;
        while pending.len() > 0
            invariant
                0 <= done <= slots.len(),
                pending@ == slots.skip(done),
                outcomes@ == spec_filled_outcomes(slots).take(done),
                forall|i: int| 0 <= i < slots.len() ==> (#[trigger] slots[i]) is Some,
            decreases pending@.len(),
        {
            let next = pending.pop_front();
            proof {
                assert(slots.skip(done + 1) =~= slots.skip(done).drop_first());
            }
            match next {
                Some(Some(outcome)) => {
                    outcomes.push(outcome);
                },
                _ => {},
            }
            proof {
                assert(outcomes@ =~= spec_filled_outcomes(slots).take(done + 1));
                done = done + 1;
            }
        }
        assert(outcomes@ =~= spec_filled_outcomes(slots));
        let batch = aggregate_results(outcomes, processing_time);
        Ok(batch)
    }
}

/// A batch run by the hybrid strategy: chunks are handed out in order, the
/// outcomes of each chunk are recorded item by item, and the batch is
/// aggregated once every chunk is done.
pub struct HybridBatch {
    chunks: Vec<(usize, usize)>,
    next: usize,
    collector: BatchCollector,
}

impl HybridBatch {
    pub closed spec fn spec_chunks(&self) -> Seq<(usize, usize)> {
        self.chunks@
    }

    /// How many chunks are done.
    pub closed spec fn spec_next(&self) -> nat {
        self.next as nat
    }

    /// One slot per item of the batch.
    pub closed spec fn spec_slots(&self) -> Seq<Option<Result<ProcessingResult, FastResizeError>>> {
        self.collector.spec_slots()
    }

    /// How many items (a prefix of the batch) are recorded.
    pub open spec fn spec_filled(&self) -> nat {
        if self.spec_next() == 0 { 0 } else { self.spec_chunks()[self.spec_next() - 1].1 as nat }
    }

    /// The chunks tile the batch, done chunks are exactly the recorded prefix.
    pub open spec fn wf(&self) -> bool {
        &&& exists|size: nat| spec_hybrid_layout(self.spec_chunks(), self.spec_slots().len(), size)
        &&& self.spec_next() <= self.spec_chunks().len()
        &&& self.spec_slots().len() <= u32::MAX
        &&& forall|i: int| 0 <= i < self.spec_slots().len() ==>
            ((#[trigger] self.spec_slots()[i]) is Some <==> i < self.spec_filled())
    }

    /// A run over `total` items with at most `max_concurrent` at a time.
    pub fn new(total: usize, max_concurrent: usize) -> (r: Self)
        requires
            max_concurrent > 0,
            total <= u32::MAX,
        ensures
            r.wf(),
            r.spec_slots().len() == total,
            r.spec_next() == 0,
            spec_hybrid_layout(r.spec_chunks(), total as nat, spec_hybrid_chunk_size(total as nat, max_concurrent as nat)),
    {
        let chunks = hybrid_chunks(total, max_concurrent);
        let collector = BatchCollector::new(total);
        let r = HybridBatch { chunks, next: 0, collector };
        proof {
            let size = spec_hybrid_chunk_size(total as nat, max_concurrent as nat);
            assert(spec_hybrid_layout(r.spec_chunks(), r.spec_slots().len(), size));
        }
        r
    }

    /// The index range of the next chunk to process, if any is left.
    pub fn next_chunk(&self) -> (r: Option<(usize, usize)>)
        ensures
            r == if self.spec_next() < self.spec_chunks().len() {
                Some(self.spec_chunks()[self.spec_next() as int])
            } else {
                None
            },
    {
        if self.next < self.chunks.len() {
            Some(self.chunks[self.next])
        } else {
            None
        }
    }

    /// Records the outcomes of the next chunk, one per item in order. With no
    /// chunk left, or a count that does not match the chunk, nothing changes.
    pub fn complete_chunk(&mut self, outcomes: Vec<Result<ProcessingResult, FastResizeError>>) -> (r: Result<(), FastResizeError>)
        requires
            old(self).wf(),
        ensures
            final(self).wf(),
            final(self).spec_chunks() == old(self).spec_chunks(),
            final(self).spec_slots().len() == old(self).spec_slots().len(),
            r is Ok <==> old(self).spec_next() < old(self).spec_chunks().len()
                && outcomes@.len() == old(self).spec_chunks()[old(self).spec_next() as int].1
                    - old(self).spec_chunks()[old(self).spec_next() as int].0,
            r is Ok ==> ({
                let (start, end) = old(self).spec_chunks()[old(self).spec_next() as int];
                &&& final(self).spec_next() == old(self).spec_next() + 1
                &&& forall|i: int| start <= i < end ==> #[trigger] final(self).spec_slots()[i] == Some(outcomes@[i - start])
                &&& forall|i: int| 0 <= i < old(self).spec_slots().len() && !(start <= i < end)
                    ==> #[trigger] final(self).spec_slots()[i] == old(self).spec_slots()[i]
            }),
            r is Err ==> final(self).spec_next() == old(self).spec_next()
                && final(self).spec_slots() == old(self).spec_slots(),
    {
        if self.next >= self.chunks.len() {
            return Err(FastResizeError::parallel("No chunk left to complete".to_owned()));
        }
        let (start, end) = self.chunks[self.next];
        if outcomes.len() != end - start {
            return Err(FastResizeError::parallel("Chunk outcome count mismatch".to_owned()));
        }
        let ghost size = choose|size: nat| spec_hybrid_layout(self.spec_chunks(), self.spec_slots().len(), size);
        let ghost old_slots = self.spec_slots();
        let ghost all = outcomes@;
        let ghost old_self = *self;
        proof {
            let k = self.next as int;
            assert(self.spec_chunks()[k].0 < self.spec_chunks()[k].1);
            if k > 0 {
                assert(self.spec_chunks()[k].0 == self.spec_chunks()[k - 1].1);
            } else {
                assert(self.spec_chunks()[0].0 == 0);
            }
            assert(start == self.spec_filled());
            if k + 1 < self.spec_chunks().len() {
                assert(self.spec_chunks()[k + 1].0 == self.spec_chunks()[k].1);
                assert(self.spec_chunks()[k + 1].0 < self.spec_chunks()[k + 1].1);
            }
            lemma_layout_bounded(self.spec_chunks(), self.spec_slots().len(), size, k);
        }
        let mut rest = outcomes;
        let mut pending: VecDeque<Result<ProcessingResult, FastResizeError>> = VecDeque::new();
        while rest.len() > 0
            invariant
                rest@ + pending@ == all,
            decreases rest@.len(),
        {
            match rest.pop() {
                Some(x) => {
                    pending.push_front(x);
                    assert(rest@ + pending@ =~= all);
                },
                None => {},
            }
        }
        assert(pending@ =~= all);
        let mut i: usize = start;
        while i < end
            invariant
                start <= i <= end <= old_slots.len(),
                end - start == all.len(),
                pending@ == all.skip(i - start),
                self.spec_slots().len() == old_slots.len(),
                self.chunks@ == old_self.chunks@,
                self.next == old_self.next,
                forall|j: int| start <= j < i ==> #[trigger] self.spec_slots()[j] == Some(all[j - start]),
                forall|j: int| 0 <= j < old_slots.len() && !(start <= j < i) ==> #[trigger] self.spec_slots()[j] == old_slots[j],
                forall|j: int| start <= j < end ==> (#[trigger] old_slots[j]) is None,
            decreases end - i,
        {
            let next = pending.pop_front();
            proof {
                assert(all.skip(i - start + 1) =~= all.skip(i - start).drop_first());
            }
            match next {
                Some(outcome) => {
                    let recorded = self.collector.record(i, outcome);
                    match recorded {
                        Ok(()) => {},
                        Err(e) => {
                            assert(false);
                            return Err(e);
                        },
                    }
                },
                None => {
                    assert(false);
                },
            }
            i = i + 1;
        }
        self.next = self.next + 1;
        proof {
            assert forall|j: int| 0 <= j < self.spec_slots().len() implies
                ((#[trigger] self.spec_slots()[j]) is Some <==> j < self.spec_filled()) by {
                if !(start <= j < end) {
                    assert(self.spec_slots()[j] == old_slots[j]);
                    assert(old_self.spec_slots()[j] is Some <==> j < old_self.spec_filled());
                }
            }
            assert(spec_hybrid_layout(self.spec_chunks(), self.spec_slots().len(), size));
        }
        Ok(())
    }

    /// Whether every chunk is done.
    pub fn is_done(&self) -> (r: bool)
        ensures
            r == (self.spec_next() == self.spec_chunks().len()),
    {
        self.next == self.chunks.len()
    }

    /// The aggregate of the run, which took `processing_time` milliseconds.
    /// Once every chunk is done every item is counted exactly once, as a success
    /// or a failure; before that the run is a parallel-processing failure.
    pub fn finish(self, processing_time: u64) -> (r: Result<BatchProcessingResult, FastResizeError>)
        requires
            self.wf(),
        ensures
            self.spec_next() == self.spec_chunks().len() ==> (r matches Ok(b) && {
                let outcomes = spec_filled_outcomes(self.spec_slots());
                &&& b.successful as nat + b.failed as nat == self.spec_slots().len()
                &&& b.successful_results@ == spec_successes(outcomes)
                &&& b.failed_errors@ == spec_failures(outcomes)
                &&& b.processing_time == processing_time
            }),
            self.spec_next() < self.spec_chunks().len() ==> (r matches Err(FastResizeError::ParallelError { message })
                && message@ == "Batch finished with items missing"@),
    {
        let ghost size = choose|size: nat| spec_hybrid_layout(self.spec_chunks(), self.spec_slots().len(), size);
        proof {
            let c = self.spec_chunks();
            let n = self.spec_next() as int;
            if n == c.len() {
                if n > 0 {
                    assert(c[n - 1].1 == self.spec_slots().len());
                }
                assert(self.spec_filled() == self.spec_slots().len());
            } else {
                assert(c[n].0 < c[n].1);
                if n > 0 {
                    assert(c[n].0 == c[n - 1].1);
                } else {
                    assert(c[0].0 == 0);
                }
                lemma_layout_bounded(c, self.spec_slots().len(), size, n);
                assert(self.spec_slots()[c[n].0 as int] is None);
            }
        }
        self.collector.finish(processing_time)
    }
}

/// Every chunk of a layout lies within the batch.
proof fn lemma_layout_bounded(c: Seq<(usize, usize)>, total: nat, size: nat, k: int)
    requires
        spec_hybrid_layout(c, total, size),
        0 <= k < c.len(),
    ensures
        c[k].1 <= total,
{
    assert(c[k].1 == if (k + 1) * size <= total { (k + 1) * size } else { total as int });
}

} // verus!
