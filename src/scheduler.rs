//! Priority work queue, admission control and self-tuning of the scheduler.

use std::collections::VecDeque;
use vstd::prelude::*;
use crate::error::FastResizeError;
use crate::memory::MemoryMonitor;
use crate::text::{append, append_decimal, spec_decimal};

verus! {

/// Files below this size (in bytes) are scheduled with low priority.
pub const SMALL_FILE_THRESHOLD: u64 = 1048576;

/// Estimated memory footprint of a job, as a multiple of its file size.
pub const MEMORY_ESTIMATE_FACTOR: u64 = 40;

/// Longest wait (in seconds) for memory to become available before a dequeue fails.
pub const MAX_MEMORY_WAIT_SECONDS: u64 = 30;

/// Pause (in milliseconds) between two checks of memory availability.
pub const MEMORY_CHECK_INTERVAL_MS: u64 = 500;

/// Urgency tier of a job; `High` jobs are dequeued before `Normal`, `Normal` before `Low`.
#[derive(Debug, Clone, Copy, PartialEq, Eq, PartialOrd, Ord, Structural)]
pub enum JobPriority {
    Low,
    Normal,
    High,
}

/// The position of a priority in the total order `Low < Normal < High`.
pub open spec fn spec_rank(p: JobPriority) -> int {
    match p {
        JobPriority::Low => 0,
        JobPriority::Normal => 1,
        JobPriority::High => 2,
    }
}

/// Scheduler settings.
#[derive(Debug, Clone, Copy, PartialEq, Eq)]
pub struct SchedulerConfig {
    /// Jobs that may run at once.
    pub max_concurrent: usize,
    /// Memory usage (whole percent of the ceiling) below which jobs may start.
    pub target_memory_usage: u64,
    /// Group size for small files.
    pub batch_size: usize,
    /// Priority boost for large files.
    pub large_file_priority_boost: i32,
    /// Files of at least this many bytes are scheduled with high priority.
    pub large_file_threshold: u64,
    /// Longest wait (in seconds) for a free job slot.
    pub max_wait_time: u64,
}

/// Relies on `num_cpus::get`: the number of logical CPUs available to this
/// process, which its documentation guarantees to be at least one.
#[verifier::external_body]
fn available_cpus() -> (r: usize)
    ensures
        r >= 1,
{
    num_cpus::get()
}

impl SchedulerConfig {
    /// The default settings for a machine with `cpus` logical CPUs.
    pub fn for_cpus(cpus: usize) -> (r: Self)
        ensures
            r.max_concurrent == if cpus <= 16 { cpus } else { 16 },
            r.target_memory_usage == 75,
            r.batch_size == 10,
            r.large_file_priority_boost == 10,
            r.large_file_threshold == 52428800,
            r.max_wait_time == 300,
    {
        SchedulerConfig {
            max_concurrent: if cpus <= 16 { cpus } else { 16 },
            target_memory_usage: 75,
            batch_size: 10,
            large_file_priority_boost: 10,
            large_file_threshold: 52428800,
            max_wait_time: 300,
        }
    }
}

impl Default for SchedulerConfig {
    /// One job per logical CPU (at most 16), 75% memory target, 50 MB large-file threshold.
    fn default() -> (r: Self)
        ensures
            1 <= r.max_concurrent <= 16,
            r.target_memory_usage == 75,
            r.batch_size == 10,
            r.large_file_priority_boost == 10,
            r.large_file_threshold == 52428800,
            r.max_wait_time == 300,
    {
        Self::for_cpus(available_cpus())
    }
}

/// Priority of a file of `size` bytes.
pub open spec fn spec_priority(size: nat, large_threshold: nat) -> JobPriority {
    if size >= large_threshold {
        JobPriority::High
    } else if size < SMALL_FILE_THRESHOLD {
        JobPriority::Low
    } else {
        JobPriority::Normal
    }
}

/// Estimated memory footprint of a file of `size` bytes, saturating.
pub open spec fn spec_memory_estimate(size: nat) -> nat {
    if size * 40 <= u64::MAX as nat {
        size * 40
    } else {
        u64::MAX as nat
    }
}

/// Estimated processing time (milliseconds) of a file of `size` bytes.
pub open spec fn spec_processing_estimate(size: nat) -> nat {
    if size <= 1000000 {
        100
    } else if size <= 10000000 {
        500
    } else if size <= 50000000 {
        2000
    } else {
        5000
    }
}

/// One scheduled unit of work. Times are milliseconds.
#[derive(Debug, Clone)]
pub struct WorkItem {
    pub id: u64,
    pub input_path: String,
    pub estimated_size: u64,
    pub priority: JobPriority,
    pub created_at: u64,
    pub estimated_memory: u64,
    pub estimated_processing_time: u64,
}

/// The item created for a file, with its estimates.
pub open spec fn spec_work_item(id: u64, input_path: String, size: u64, config: SchedulerConfig, created_at: u64) -> WorkItem {
    WorkItem {
        id,
        input_path,
        estimated_size: size,
        priority: spec_priority(size as nat, config.large_file_threshold as nat),
        created_at,
        estimated_memory: spec_memory_estimate(size as nat) as u64,
        estimated_processing_time: spec_processing_estimate(size as nat) as u64,
    }
}

impl WorkItem {
    /// An item for the file `input_path` of `file_size` bytes, created at `created_at`.
    pub fn new(id: u64, input_path: String, file_size: u64, config: &SchedulerConfig, created_at: u64) -> (r: Self)
        ensures
            r == spec_work_item(id, input_path, file_size, *config, created_at),
    {
        WorkItem {
            id,
            input_path,
            estimated_size: file_size,
            priority: Self::calculate_priority(file_size, config),
            created_at,
            estimated_memory: Self::estimate_memory_usage(file_size),
            estimated_processing_time: Self::estimate_processing_time(file_size),
        }
    }

    /// High for files at or above the large-file threshold, low below 1 MiB, else normal.
    pub fn calculate_priority(file_size: u64, config: &SchedulerConfig) -> (r: JobPriority)
        ensures
            r == spec_priority(file_size as nat, config.large_file_threshold as nat),
    {
        if file_size >= config.large_file_threshold {
            JobPriority::High
        } else if file_size < SMALL_FILE_THRESHOLD {
            JobPriority::Low
        } else {
            JobPriority::Normal
        }
    }

    /// Forty times the file size: a decoded RGBA image of a compressed file.
    pub fn estimate_memory_usage(file_size: u64) -> (r: u64)
        ensures
            r == spec_memory_estimate(file_size as nat),
    {
        if file_size <= u64::MAX / MEMORY_ESTIMATE_FACTOR {
            file_size * MEMORY_ESTIMATE_FACTOR
        } else {
            u64::MAX
        }
    }

    /// Processing time in milliseconds, by size bucket.
    pub fn estimate_processing_time(file_size: u64) -> (r: u64)
        ensures
            r == spec_processing_estimate(file_size as nat),
    {
        if file_size <= 1000000 {
            100
        } else if file_size <= 10000000 {
            500
        } else if file_size <= 50000000 {
            2000
        } else {
            5000
        }
    }

    pub fn is_high_priority(&self) -> (r: bool)
        ensures
            r == (self.priority == JobPriority::High),
    {
        self.priority == JobPriority::High
    }

    /// Milliseconds since creation, as seen at `now`.
    pub fn age(&self, now: u64) -> (r: u64)
        ensures
            r == if now >= self.created_at { (now - self.created_at) as nat } else { 0 },
    {
        now.saturating_sub(self.created_at)
    }
}

/// Three FIFO sub-queues, one per priority.
pub struct WorkQueue {
    high_priority: VecDeque<WorkItem>,
    normal_priority: VecDeque<WorkItem>,
    low_priority: VecDeque<WorkItem>,
    total_items: usize,
}

impl WorkQueue {
    pub closed spec fn spec_high(&self) -> Seq<WorkItem> {
        self.high_priority@
    }

    pub closed spec fn spec_normal(&self) -> Seq<WorkItem> {
        self.normal_priority@
    }

    pub closed spec fn spec_low(&self) -> Seq<WorkItem> {
        self.low_priority@
    }

    pub closed spec fn spec_total(&self) -> nat {
        self.total_items as nat
    }

    /// The order in which the items leave the queue.
    pub open spec fn spec_order(&self) -> Seq<WorkItem> {
        self.spec_high() + self.spec_normal() + self.spec_low()
    }

    /// The count matches the sub-queues, and each sub-queue holds its own priority only.
    pub open spec fn wf(&self) -> bool {
        &&& self.spec_total() == self.spec_high().len() + self.spec_normal().len() + self.spec_low().len()
        &&& forall|i: int| 0 <= i < self.spec_high().len() ==> (#[trigger] self.spec_high()[i]).priority == JobPriority::High
        &&& forall|i: int| 0 <= i < self.spec_normal().len() ==> (#[trigger] self.spec_normal()[i]).priority == JobPriority::Normal
        &&& forall|i: int| 0 <= i < self.spec_low().len() ==> (#[trigger] self.spec_low()[i]).priority == JobPriority::Low
    }

    pub fn new() -> (r: Self)
        ensures
            r.wf(),
            r.spec_high().len() == 0,
            r.spec_normal().len() == 0,
            r.spec_low().len() == 0,
    {
        WorkQueue {
            high_priority: VecDeque::new(),
            normal_priority: VecDeque::new(),
            low_priority: VecDeque::new(),
            total_items: 0,
        }
    }

    /// Appends `item` to the sub-queue of its priority.
    pub fn add_item(&mut self, item: WorkItem)
        requires
            old(self).wf(),
            old(self).spec_total() < usize::MAX,
        ensures
            final(self).wf(),
            final(self).spec_high() == if item.priority == JobPriority::High {
                old(self).spec_high().push(item)
            } else {
                old(self).spec_high()
            },
            final(self).spec_normal() == if item.priority == JobPriority::Normal {
                old(self).spec_normal().push(item)
            } else {
                old(self).spec_normal()
            },
            final(self).spec_low() == if item.priority == JobPriority::Low {
                old(self).spec_low().push(item)
            } else {
                old(self).spec_low()
            },
            (final(self).spec_high(), final(self).spec_normal(), final(self).spec_low()) == spec_queues_after(
                (old(self).spec_high(), old(self).spec_normal(), old(self).spec_low()), seq![item]),
    {
        match item.priority {
            JobPriority::High => self.high_priority.push_back(item),
            JobPriority::Normal => self.normal_priority.push_back(item),
            JobPriority::Low => self.low_priority.push_back(item),
        }
        self.total_items = self.total_items + 1;
        proof {
            let q0 = (old(self).spec_high(), old(self).spec_normal(), old(self).spec_low());
            assert(seq![item].drop_last() =~= Seq::<WorkItem>::empty());
            assert(spec_queues_after(q0, Seq::<WorkItem>::empty()) == q0);
            assert(seq![item].last() == item);
            assert forall|i: int| 0 <= i < self.spec_high().len() implies (#[trigger] self.spec_high()[i]).priority == JobPriority::High by {
                if i < old(self).spec_high().len() {
                    assert(self.spec_high()[i] == old(self).spec_high()[i]);
                }
            }
            assert forall|i: int| 0 <= i < self.spec_normal().len() implies (#[trigger] self.spec_normal()[i]).priority == JobPriority::Normal by {
                if i < old(self).spec_normal().len() {
                    assert(self.spec_normal()[i] == old(self).spec_normal()[i]);
                }
            }
            assert forall|i: int| 0 <= i < self.spec_low().len() implies (#[trigger] self.spec_low()[i]).priority == JobPriority::Low by {
                if i < old(self).spec_low().len() {
                    assert(self.spec_low()[i] == old(self).spec_low()[i]);
                }
            }
        }
    }

    /// Removes the front of the highest-priority non-empty sub-queue.
    pub fn get_next_item(&mut self) -> (r: Option<WorkItem>)
        requires
            old(self).wf(),
        ensures
            final(self).wf(),
            r is None <==> old(self).spec_order().len() == 0,
            r matches Some(x) ==> x == old(self).spec_order()[0]
                && final(self).spec_order() == old(self).spec_order().drop_first(),
            r is None ==> final(self).spec_order() == old(self).spec_order(),
            old(self).spec_high().len() > 0 ==> final(self).spec_high() == old(self).spec_high().drop_first()
                && final(self).spec_normal() == old(self).spec_normal()
                && final(self).spec_low() == old(self).spec_low(),
            old(self).spec_high().len() == 0 && old(self).spec_normal().len() > 0 ==>
                final(self).spec_high() == old(self).spec_high()
                && final(self).spec_normal() == old(self).spec_normal().drop_first()
                && final(self).spec_low() == old(self).spec_low(),
            old(self).spec_high().len() == 0 && old(self).spec_normal().len() == 0
                && old(self).spec_low().len() > 0 ==>
                final(self).spec_high() == old(self).spec_high()
                && final(self).spec_normal() == old(self).spec_normal()
                && final(self).spec_low() == old(self).spec_low().drop_first(),
    {
        let item = match self.high_priority.pop_front() {
            Some(x) => Some(x),
            None => match self.normal_priority.pop_front() {
                Some(x) => Some(x),
                None => self.low_priority.pop_front(),
            },
        };
        if item.is_some() {
            self.total_items = self.total_items - 1;
        }
        proof {
            let oh = old(self).spec_high();
            let on = old(self).spec_normal();
            let ol = old(self).spec_low();
            if oh.len() > 0 {
                assert(self.spec_order() =~= old(self).spec_order().drop_first());
            } else if on.len() > 0 {
                assert(self.spec_order() =~= old(self).spec_order().drop_first());
                assert(old(self).spec_order()[0] == on[0]);
            } else if ol.len() > 0 {
                assert(self.spec_order() =~= old(self).spec_order().drop_first());
                assert(old(self).spec_order()[0] == ol[0]);
            } else {
                assert(old(self).spec_order().len() == 0);
            }
            assert forall|i: int| 0 <= i < self.spec_high().len() implies (#[trigger] self.spec_high()[i]).priority == JobPriority::High by {
                if oh.len() > 0 { assert(self.spec_high()[i] == oh[i + 1]); }
            }
            assert forall|i: int| 0 <= i < self.spec_normal().len() implies (#[trigger] self.spec_normal()[i]).priority == JobPriority::Normal by {
                if oh.len() == 0 && on.len() > 0 { assert(self.spec_normal()[i] == on[i + 1]); }
            }
            assert forall|i: int| 0 <= i < self.spec_low().len() implies (#[trigger] self.spec_low()[i]).priority == JobPriority::Low by {
                if oh.len() == 0 && on.len() == 0 && ol.len() > 0 { assert(self.spec_low()[i] == ol[i + 1]); }
            }
        }
        item
    }

    /// Discards every queued item.
    pub fn clear(&mut self)
        ensures
            final(self).wf(),
            final(self).spec_order().len() == 0,
    {
        self.high_priority.clear();
        self.normal_priority.clear();
        self.low_priority.clear();
        self.total_items = 0;
    }
}

/// Priority ordering: the items leave the queue with all high-priority items
/// before any normal one and all normal ones before any low one; within a
/// priority they leave in the order they came.
pub proof fn lemma_priority_order(q: WorkQueue)
    requires
        q.wf(),
    ensures
        forall|i: int, j: int| 0 <= i < j < q.spec_order().len() ==>
            spec_rank((#[trigger] q.spec_order()[i]).priority) >= spec_rank((#[trigger] q.spec_order()[j]).priority),
        q.spec_order() == q.spec_high() + q.spec_normal() + q.spec_low(),
{
    let h = q.spec_high().len();
    let n = q.spec_normal().len();
    assert forall|i: int, j: int| 0 <= i < j < q.spec_order().len() implies
        spec_rank((#[trigger] q.spec_order()[i]).priority) >= spec_rank((#[trigger] q.spec_order()[j]).priority) by {
        let o = q.spec_order();
        if i < h {
            assert(o[i] == q.spec_high()[i]);
        } else if i < h + n {
            assert(o[i] == q.spec_normal()[i - h]);
            assert(o[j] == q.spec_normal()[j - h] || o[j] == q.spec_low()[j - h - n]);
            if j < h + n {
                assert(o[j] == q.spec_normal()[j - h]);
            } else {
                assert(o[j] == q.spec_low()[j - h - n]);
            }
        } else {
            assert(o[i] == q.spec_low()[i - h - n]);
            assert(o[j] == q.spec_low()[j - h - n]);
        }
    }
}

/// The sub-queues (high, normal, low) after `items` are added one by one, as
/// [`WorkQueue::add_item`] adds them, to sub-queues `q`.
pub open spec fn spec_queues_after(q: (Seq<WorkItem>, Seq<WorkItem>, Seq<WorkItem>), items: Seq<WorkItem>)
    -> (Seq<WorkItem>, Seq<WorkItem>, Seq<WorkItem>)
    decreases items.len(),
{
    if items.len() == 0 {
        q
    } else {
        let (h, n, l) = spec_queues_after(q, items.drop_last());
        let it = items.last();
        (
            if it.priority == JobPriority::High { h.push(it) } else { h },
            if it.priority == JobPriority::Normal { n.push(it) } else { n },
            if it.priority == JobPriority::Low { l.push(it) } else { l },
        )
    }
}

/// The items of priority `p`, in arrival order.
pub open spec fn spec_items_of(items: Seq<WorkItem>, p: JobPriority) -> Seq<WorkItem> {
    items.filter(|it: WorkItem| it.priority == p)
}

/// Priority ordering for any interleaving: items added one by one to an empty
/// queue leave it as all high-priority items in arrival order, then all normal
/// ones, then all low ones.
pub proof fn lemma_interleaving_order(items: Seq<WorkItem>)
    ensures
        ({
            let (h, n, l) = spec_queues_after((Seq::empty(), Seq::empty(), Seq::empty()), items);
            h + n + l == spec_items_of(items, JobPriority::High) + spec_items_of(items, JobPriority::Normal)
                + spec_items_of(items, JobPriority::Low)
        }),
    decreases items.len(),
{
    let (h, n, l) = spec_queues_after((Seq::empty(), Seq::empty(), Seq::empty()), items);
    assert(h == spec_items_of(items, JobPriority::High)
        && n == spec_items_of(items, JobPriority::Normal)
        && l == spec_items_of(items, JobPriority::Low)) by {
        lemma_queues_are_filters(items);
    }
}

proof fn lemma_queues_are_filters(items: Seq<WorkItem>)
    ensures
        ({
            let (h, n, l) = spec_queues_after((Seq::empty(), Seq::empty(), Seq::empty()), items);
            &&& h == spec_items_of(items, JobPriority::High)
            &&& n == spec_items_of(items, JobPriority::Normal)
            &&& l == spec_items_of(items, JobPriority::Low)
        }),
    decreases items.len(),
{
    reveal(Seq::filter);
    if items.len() > 0 {
        lemma_queues_are_filters(items.drop_last());
    }
}

/// Cumulative scheduler counters. Times are milliseconds; counters saturate.
#[derive(Debug, Clone, Copy, PartialEq, Eq)]
pub struct SchedulerStats {
    pub jobs_queued: u64,
    pub jobs_completed: u64,
    pub jobs_failed: u64,
    pub total_wait_time: u64,
    pub total_processing_time: u64,
    /// Queue length observed at the last admission or dequeue.
    pub average_queue_length: u64,
    pub memory_pressure_events: u32,
}

/// A counter after adding `n`; stops at the largest value.
pub open spec fn spec_add_sat(x: u64, n: u64) -> u64 {
    if x as nat + n as nat <= u64::MAX as nat {
        (x + n) as u64
    } else {
        u64::MAX
    }
}

/// Throughput in files per second scaled by 1000 (0 while no time was
/// recorded), capped at the largest `u64`.
pub open spec fn spec_throughput_milli(s: SchedulerStats) -> nat {
    if s.total_processing_time == 0 {
        0
    } else {
        let t = ((s.jobs_completed + s.jobs_failed) * 1000000) as nat / (s.total_processing_time as nat);
        if t <= u64::MAX { t } else { u64::MAX as nat }
    }
}

/// Whether throughput is strictly above `rate` files per second.
pub open spec fn spec_throughput_above(s: SchedulerStats, rate: nat) -> bool {
    s.total_processing_time > 0 && (s.jobs_completed + s.jobs_failed) * 1000 > rate * s.total_processing_time
}

/// Whether jobs may start at the given memory usage: the usage percentage
/// (100 for a zero ceiling, capped at 100) is below the target.
pub open spec fn spec_memory_available(current: nat, max: nat, target: nat) -> bool {
    if max == 0 {
        100 < target
    } else {
        current * 100 < target * max || 100 < target
    }
}

impl SchedulerStats {
    /// Finished jobs per second of processing time, in thousandths.
    pub fn throughput_files_per_second_milli(&self) -> (r: u64)
        ensures
            r == spec_throughput_milli(*self),
    {
        if self.total_processing_time == 0 {
            return 0;
        }
        let jobs = self.jobs_completed as u128 + self.jobs_failed as u128;
        let t = jobs * 1000000 / (self.total_processing_time as u128);
        if t <= u64::MAX as u128 { t as u64 } else { u64::MAX }
    }
}

/// Sizes of the priority sub-queues.
#[derive(Debug, Clone, Copy, PartialEq, Eq)]
pub struct QueueStatus {
    pub high_priority_count: usize,
    pub normal_priority_count: usize,
    pub low_priority_count: usize,
    pub total_count: usize,
}

impl QueueStatus {
    pub fn is_empty(&self) -> (r: bool)
        ensures
            r == (self.total_count == 0),
    {
        self.total_count == 0
    }

    /// `"H:<high> N:<normal> L:<low>"`.
    pub fn depth_by_priority(&self) -> (r: String)
        ensures
            r@ == "H:"@ + spec_decimal(self.high_priority_count as nat) + " N:"@
                + spec_decimal(self.normal_priority_count as nat) + " L:"@
                + spec_decimal(self.low_priority_count as nat),
    {
        let mut s = String::new();
        append(&mut s, "H:");
        append_decimal(&mut s, self.high_priority_count as u64);
        append(&mut s, " N:");
        append_decimal(&mut s, self.normal_priority_count as u64);
        append(&mut s, " L:");
        append_decimal(&mut s, self.low_priority_count as u64);
        assert(s@ =~= "H:"@ + spec_decimal(self.high_priority_count as nat) + " N:"@
                + spec_decimal(self.normal_priority_count as nat) + " L:"@
                + spec_decimal(self.low_priority_count as nat));
        s
    }
}

/// What a worker asking for a job must do next.
#[derive(Debug)]
pub enum JobStep {
    /// A slot was taken (when an item came out) and the item, if any, is handed over.
    Ready(Option<WorkItem>),
    /// Every slot is busy: wait for one to be released, then ask again.
    WaitForSlot,
    /// Memory usage is at or above the target: pause, then ask again.
    WaitForMemory,
}

/// Priority scheduler with a concurrency limit and memory-pressure admission.
pub struct WorkScheduler {
    memory_monitor: MemoryMonitor,
    queue: WorkQueue,
    config: SchedulerConfig,
    stats: SchedulerStats,
    next_id: u64,
    running: usize,
    retired: usize,
}

impl WorkScheduler {
    pub closed spec fn spec_queue(&self) -> WorkQueue {
        self.queue
    }

    pub closed spec fn spec_config(&self) -> SchedulerConfig {
        self.config
    }

    pub closed spec fn spec_stats(&self) -> SchedulerStats {
        self.stats
    }

    pub closed spec fn spec_monitor(&self) -> MemoryMonitor {
        self.memory_monitor
    }

    /// The identifier the next admitted job receives.
    pub closed spec fn spec_next_id(&self) -> u64 {
        self.next_id
    }

    /// Slots of the current limit held by running jobs.
    pub closed spec fn spec_running(&self) -> nat {
        self.running as nat
    }

    /// Slots still held under limits that were replaced.
    pub closed spec fn spec_retired(&self) -> nat {
        self.retired as nat
    }

    pub open spec fn wf(&self) -> bool {
        self.spec_queue().wf()
    }

    pub fn new(memory_monitor: MemoryMonitor, config: SchedulerConfig) -> (r: Self)
        ensures
            r.wf(),
            r.spec_queue().spec_order().len() == 0,
            r.spec_config() == config,
            r.spec_monitor() == memory_monitor,
            r.spec_next_id() == 1,
            r.spec_running() == 0,
            r.spec_retired() == 0,
            r.spec_stats() == (SchedulerStats {
                jobs_queued: 0,
                jobs_completed: 0,
                jobs_failed: 0,
                total_wait_time: 0,
                total_processing_time: 0,
                average_queue_length: 0,
                memory_pressure_events: 0,
            }),
    {
        WorkScheduler {
            memory_monitor,
            queue: WorkQueue::new(),
            config,
            stats: SchedulerStats {
                jobs_queued: 0,
                jobs_completed: 0,
                jobs_failed: 0,
                total_wait_time: 0,
                total_processing_time: 0,
                average_queue_length: 0,
                memory_pressure_events: 0,
            },
            next_id: 1,
            running: 0,
            retired: 0,
        }
    }

    /// The memory accounting the scheduler consults.
    pub fn memory_monitor(&mut self) -> (r: &mut MemoryMonitor)
        ensures
            *r == old(self).spec_monitor(),
            final(self).spec_monitor() == *final(r),
            final(self).spec_queue() == old(self).spec_queue(),
            final(self).spec_config() == old(self).spec_config(),
            final(self).spec_stats() == old(self).spec_stats(),
            final(self).spec_next_id() == old(self).spec_next_id(),
            final(self).spec_running() == old(self).spec_running(),
            final(self).spec_retired() == old(self).spec_retired(),
    {
        &mut self.memory_monitor
    }

    /// Admits the file `input_path`, whose size was looked up as `file_size`
    /// (or failed with the given message), at time `now`. The new item joins the
    /// sub-queue of its priority; its identifier is returned.
    pub fn schedule_job(&mut self, input_path: String, file_size: Result<u64, String>, now: u64) -> (r: Result<u64, FastResizeError>)
        requires
            old(self).wf(),
            old(self).spec_next_id() < u64::MAX,
            old(self).spec_queue().spec_order().len() < usize::MAX,
        ensures
            final(self).wf(),
            final(self).spec_config() == old(self).spec_config(),
            final(self).spec_monitor() == old(self).spec_monitor(),
            final(self).spec_running() == old(self).spec_running(),
            final(self).spec_retired() == old(self).spec_retired(),
            file_size matches Err(m) ==> r == Err::<u64, FastResizeError>(FastResizeError::SystemError { message: m })
                && final(self).spec_queue() == old(self).spec_queue()
                && final(self).spec_stats() == old(self).spec_stats()
                && final(self).spec_next_id() == old(self).spec_next_id(),
            file_size matches Ok(size) ==> ({
                let item = spec_work_item(old(self).spec_next_id(), input_path, size, old(self).spec_config(), now);
                let q0 = old(self).spec_queue();
                let q1 = final(self).spec_queue();
                &&& r == Ok::<u64, FastResizeError>(old(self).spec_next_id())
                &&& final(self).spec_next_id() == old(self).spec_next_id() + 1
                &&& q1.spec_high() == if item.priority == JobPriority::High { q0.spec_high().push(item) } else { q0.spec_high() }
                &&& q1.spec_normal() == if item.priority == JobPriority::Normal { q0.spec_normal().push(item) } else { q0.spec_normal() }
                &&& q1.spec_low() == if item.priority == JobPriority::Low { q0.spec_low().push(item) } else { q0.spec_low() }
                &&& final(self).spec_stats() == (SchedulerStats {
                    jobs_queued: spec_add_sat(old(self).spec_stats().jobs_queued, 1),
                    average_queue_length: q1.spec_order().len() as u64,
                    ..old(self).spec_stats()
                })
            }),
    {
        match file_size {
            Err(message) => Err(FastResizeError::system(message)),
            Ok(size) => {
                let id = self.generate_id();
                let item = WorkItem::new(id, input_path, size, &self.config, now);
                self.queue.add_item(item);
                self.stats.jobs_queued = self.stats.jobs_queued.saturating_add(1);
                self.stats.average_queue_length = self.queue.total_items as u64;
                Ok(id)
            },
        }
    }

    /// A fresh job identifier: identifiers count up from 1.
    fn generate_id(&mut self) -> (r: u64)
        requires
            old(self).next_id < u64::MAX,
        ensures
            r == old(self).next_id,
            final(self).next_id == old(self).next_id + 1,
            final(self).queue == old(self).queue,
            final(self).config == old(self).config,
            final(self).stats == old(self).stats,
            final(self).memory_monitor == old(self).memory_monitor,
            final(self).running == old(self).running,
            final(self).retired == old(self).retired,
    {
        let id = self.next_id;
        self.next_id = id + 1;
        id
    }

    /// Whether memory usage is below the configured target.
    fn memory_available(&self) -> (r: bool)
        ensures
            r == spec_memory_available(self.memory_monitor.spec_current(), self.memory_monitor.spec_max(),
                self.config.target_memory_usage as nat),
    {
        let current = self.memory_monitor.current_usage() as u128;
        let max = self.memory_monitor.max_usage() as u128;
        let target = self.config.target_memory_usage as u128;
        assert(target * max <= 0xffff_ffff_ffff_ffffu128 * 0xffff_ffff_ffff_ffffu128) by (nonlinear_arith)
            requires target <= 0xffff_ffff_ffff_ffffu128, max <= 0xffff_ffff_ffff_ffffu128;
        if max == 0 {
            100 < target
        } else {
            current * 100 < target * max || 100 < target
        }
    }

    /// One decision of a worker asking for a job, after waiting `slot_wait_ms`
    /// for a slot and `memory_wait_ms` for memory so far. A job needs a free slot
    /// (waiting for one fails once `max_wait_time` seconds have passed) and memory
    /// usage below the target (each failed check counts a pressure event, the last one
    /// too; waiting fails after more than 30 seconds). Then the front of the highest-priority
    /// sub-queue is handed over and holds a slot until [`Self::complete_job`].
    pub fn get_next_job(&mut self, slot_wait_ms: u64, memory_wait_ms: u64) -> (r: Result<JobStep, FastResizeError>)
        requires
            old(self).wf(),
        ensures
            final(self).wf(),
            final(self).spec_config() == old(self).spec_config(),
            final(self).spec_monitor() == old(self).spec_monitor(),
            final(self).spec_next_id() == old(self).spec_next_id(),
            final(self).spec_retired() == old(self).spec_retired(),
            ({
                let s0 = old(self).spec_stats();
                let cfg = old(self).spec_config();
                let slot_free = old(self).spec_running() < cfg.max_concurrent;
                let memory_ok = spec_memory_available(old(self).spec_monitor().spec_current(),
                    old(self).spec_monitor().spec_max(), cfg.target_memory_usage as nat);
                let order = old(self).spec_queue().spec_order();
                &&& !slot_free ==> final(self).spec_stats() == s0
                    && final(self).spec_queue() == old(self).spec_queue()
                    && final(self).spec_running() == old(self).spec_running()
                    && if slot_wait_ms as nat >= cfg.max_wait_time as nat * 1000 {
                        (r matches Err(FastResizeError::SystemError { message }) && message@ == "Timeout waiting for job slot"@)
                    } else {
                        (r matches Ok(JobStep::WaitForSlot))
                    }
                &&& slot_free && !memory_ok ==> final(self).spec_queue() == old(self).spec_queue()
                    && final(self).spec_running() == old(self).spec_running()
                    && final(self).spec_stats() == (SchedulerStats {
                        memory_pressure_events: if s0.memory_pressure_events < u32::MAX {
                            (s0.memory_pressure_events + 1) as u32
                        } else {
                            s0.memory_pressure_events
                        },
                        ..s0
                    })
                    && if memory_wait_ms / 1000 > MAX_MEMORY_WAIT_SECONDS {
                        (r matches Err(FastResizeError::SystemError { message })
                        && message@ == "Timeout waiting for memory availability"@)
                    } else {
                        (r matches Ok(JobStep::WaitForMemory))
                    }
                &&& slot_free && memory_ok && order.len() == 0 ==> (r matches Ok(JobStep::Ready(None)))
                    && final(self).spec_stats() == s0
                    && final(self).spec_queue().spec_order() == order
                    && final(self).spec_running() == old(self).spec_running()
                &&& slot_free && memory_ok && order.len() > 0 ==> (r matches Ok(JobStep::Ready(Some(item))) && item == order[0])
                    && final(self).spec_queue().spec_order() == order.drop_first()
                    && final(self).spec_running() == old(self).spec_running() + 1
                    && final(self).spec_stats() == (SchedulerStats {
                        total_wait_time: spec_add_sat(s0.total_wait_time, spec_add_sat(slot_wait_ms, memory_wait_ms)),
                        average_queue_length: (order.len() - 1) as u64,
                        ..s0
                    })
            }),
    {
        if self.running >= self.config.max_concurrent {
            if slot_wait_ms as u128 >= (self.config.max_wait_time as u128) * 1000 {
                return Err(FastResizeError::system("Timeout waiting for job slot".to_owned()));
            }
            return Ok(JobStep::WaitForSlot);
        }
        if !self.memory_available() {
            self.stats.memory_pressure_events = self.stats.memory_pressure_events.saturating_add(1);
            if memory_wait_ms / 1000 > MAX_MEMORY_WAIT_SECONDS {
                return Err(FastResizeError::system("Timeout waiting for memory availability".to_owned()));
            }
            return Ok(JobStep::WaitForMemory);
        }
        let item = self.queue.get_next_item();
        if item.is_some() {
            self.running = self.running + 1;
            let waited = slot_wait_ms.saturating_add(memory_wait_ms);
            self.stats.total_wait_time = self.stats.total_wait_time.saturating_add(waited);
            self.stats.average_queue_length = self.queue.total_items as u64;
        }
        Ok(JobStep::Ready(item))
    }

    /// Records the outcome of a dequeued job that ran for `processing_time`
    /// milliseconds, and releases its slot (one still held under a replaced
    /// limit first). Call exactly once per dequeued item.
    pub fn complete_job(&mut self, job_id: u64, success: bool, processing_time: u64)
        ensures
            final(self).spec_queue() == old(self).spec_queue(),
            final(self).spec_config() == old(self).spec_config(),
            final(self).spec_monitor() == old(self).spec_monitor(),
            final(self).spec_next_id() == old(self).spec_next_id(),
            ({
                let s0 = old(self).spec_stats();
                final(self).spec_stats() == (SchedulerStats {
                    jobs_completed: if success { spec_add_sat(s0.jobs_completed, 1) } else { s0.jobs_completed },
                    jobs_failed: if success { s0.jobs_failed } else { spec_add_sat(s0.jobs_failed, 1) },
                    total_processing_time: spec_add_sat(s0.total_processing_time, processing_time),
                    ..s0
                })
            }),
            old(self).spec_retired() > 0 ==> final(self).spec_retired() == old(self).spec_retired() - 1
                && final(self).spec_running() == old(self).spec_running(),
            old(self).spec_retired() == 0 ==> final(self).spec_retired() == 0
                && final(self).spec_running() == if old(self).spec_running() > 0 {
                    (old(self).spec_running() - 1) as nat
                } else {
                    0
                },
    {
        if success {
            self.stats.jobs_completed = self.stats.jobs_completed.saturating_add(1);
        } else {
            self.stats.jobs_failed = self.stats.jobs_failed.saturating_add(1);
        }
        self.stats.total_processing_time = self.stats.total_processing_time.saturating_add(processing_time);
        if self.retired > 0 {
            self.retired = self.retired - 1;
        } else if self.running > 0 {
            self.running = self.running - 1;
        }
    }

    /// A copy of the counters.
    pub fn get_stats(&self) -> (r: SchedulerStats)
        ensures
            r == self.spec_stats(),
    {
        self.stats
    }

    /// Sizes of the sub-queues.
    pub fn get_queue_status(&self) -> (r: QueueStatus)
        requires
            self.wf(),
        ensures
            r.high_priority_count == self.spec_queue().spec_high().len(),
            r.normal_priority_count == self.spec_queue().spec_normal().len(),
            r.low_priority_count == self.spec_queue().spec_low().len(),
            r.total_count == self.spec_queue().spec_order().len(),
    {
        QueueStatus {
            high_priority_count: self.queue.high_priority.len(),
            normal_priority_count: self.queue.normal_priority.len(),
            low_priority_count: self.queue.low_priority.len(),
            total_count: self.queue.total_items,
        }
    }

    /// Discards every queued job and returns how many there were.
    pub fn clear_queue(&mut self) -> (r: usize)
        requires
            old(self).wf(),
        ensures
            final(self).wf(),
            r == old(self).spec_queue().spec_order().len(),
            final(self).spec_queue().spec_order().len() == 0,
            final(self).spec_config() == old(self).spec_config(),
            final(self).spec_stats() == old(self).spec_stats(),
            final(self).spec_monitor() == old(self).spec_monitor(),
            final(self).spec_next_id() == old(self).spec_next_id(),
            final(self).spec_running() == old(self).spec_running(),
            final(self).spec_retired() == old(self).spec_retired(),
    {
        let cleared = self.queue.total_items;
        self.queue.clear();
        cleared
    }

    /// The current settings.
    pub fn config(&self) -> (r: SchedulerConfig)
        ensures
            r == self.spec_config(),
    {
        self.config
    }

    /// Replaces the settings. A new concurrency limit starts with every slot
    /// free; jobs running under the old limit keep their slots until they complete.
    pub fn update_config(&mut self, new_config: SchedulerConfig)
        ensures
            final(self).spec_config() == new_config,
            final(self).spec_queue() == old(self).spec_queue(),
            final(self).spec_stats() == old(self).spec_stats(),
            final(self).spec_monitor() == old(self).spec_monitor(),
            final(self).spec_next_id() == old(self).spec_next_id(),
            new_config.max_concurrent != old(self).spec_config().max_concurrent ==>
                final(self).spec_running() == 0
                && final(self).spec_retired() == if old(self).spec_retired() + old(self).spec_running() <= usize::MAX {
                    old(self).spec_retired() + old(self).spec_running()
                } else {
                    usize::MAX as nat
                },
            new_config.max_concurrent == old(self).spec_config().max_concurrent ==>
                final(self).spec_running() == old(self).spec_running()
                && final(self).spec_retired() == old(self).spec_retired(),
    {
        if new_config.max_concurrent != self.config.max_concurrent {
            self.retired = self.retired.saturating_add(self.running);
            self.running = 0;
        }
        self.config = new_config;
    }
}

/// The settings the optimizer moves to for the given counters, if any: under
/// more than 20 memory-pressure events, three quarters of the concurrency (at
/// least 1) and a 65% memory target; with no pressure and more than 2 files
/// per second, five quarters of the concurrency (at most 32).
pub open spec fn spec_tuned_config(config: SchedulerConfig, stats: SchedulerStats) -> Option<SchedulerConfig> {
    if stats.memory_pressure_events > 20 {
        let reduced = config.max_concurrent * 3 / 4;
        Some(SchedulerConfig {
            max_concurrent: if reduced >= 1 { reduced as usize } else { 1 },
            target_memory_usage: 65,
            ..config
        })
    } else if spec_throughput_above(stats, 2) && stats.memory_pressure_events == 0 {
        let raised = config.max_concurrent * 5 / 4;
        Some(SchedulerConfig { max_concurrent: if raised <= 32 { raised as usize } else { 32 }, ..config })
    } else {
        None
    }
}

/// Periodic tuning of a scheduler's settings from its counters.
pub struct SchedulerOptimizer {
    optimization_interval: u64,
}

impl SchedulerOptimizer {
    /// An optimizer that runs once a minute.
    pub fn new() -> (r: Self)
        ensures
            r.spec_interval() == 60000,
    {
        SchedulerOptimizer { optimization_interval: 60000 }
    }

    /// Milliseconds between two tuning rounds.
    pub closed spec fn spec_interval(&self) -> nat {
        self.optimization_interval as nat
    }

    pub fn optimization_interval(&self) -> (r: u64)
        ensures
            r == self.spec_interval(),
    {
        self.optimization_interval
    }

    /// The settings to move to, if any (see [`spec_tuned_config`]).
    pub fn tuned_config(config: &SchedulerConfig, stats: &SchedulerStats) -> (r: Option<SchedulerConfig>)
        ensures
            r == spec_tuned_config(*config, *stats),
    {
        if stats.memory_pressure_events > 20 {
            let reduced = config.max_concurrent / 4 * 3 + (config.max_concurrent % 4) * 3 / 4;
            assert(reduced == config.max_concurrent * 3 / 4) by (nonlinear_arith)
                requires reduced == config.max_concurrent / 4 * 3 + (config.max_concurrent % 4) * 3 / 4;
            let mut tuned = *config;
            tuned.max_concurrent = if reduced >= 1 { reduced } else { 1 };
            tuned.target_memory_usage = 65;
            Some(tuned)
        } else if stats.total_processing_time > 0
            && (stats.jobs_completed as u128 + stats.jobs_failed as u128) * 1000 > 2 * (stats.total_processing_time as u128)
            && stats.memory_pressure_events == 0 {
            let raised = (config.max_concurrent as u128) * 5 / 4;
            let mut tuned = *config;
            tuned.max_concurrent = if raised <= 32 { raised as usize } else { 32 };
            Some(tuned)
        } else {
            None
        }
    }

    /// One tuning round: applies [`Self::tuned_config`] to `scheduler`.
    pub fn auto_tune_configuration(&self, scheduler: &mut WorkScheduler)
        ensures
            spec_tuned_config(old(scheduler).spec_config(), old(scheduler).spec_stats()) matches Some(c)
                ==> final(scheduler).spec_config() == c,
            spec_tuned_config(old(scheduler).spec_config(), old(scheduler).spec_stats()) is None
                ==> final(scheduler).spec_config() == old(scheduler).spec_config(),
            final(scheduler).spec_queue() == old(scheduler).spec_queue(),
            final(scheduler).spec_stats() == old(scheduler).spec_stats(),
            final(scheduler).spec_monitor() == old(scheduler).spec_monitor(),
    {
        let stats = scheduler.get_stats();
        let config = scheduler.config();
        match Self::tuned_config(&config, &stats) {
            Some(c) => scheduler.update_config(c),
            None => {},
        }
    }
}

} // verus!
