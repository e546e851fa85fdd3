//! Memory accounting and buffer recycling.

use sysinfo::SystemExt;
use std::collections::VecDeque;
use vstd::prelude::*;

verus! {

/// Bytes in one mebibyte.
pub const MIB: u64 = 1048576;

/// Usage (in bytes) after recording an allocation of `n` bytes on top of `u`.
/// The estimate saturates at the largest representable value.
pub open spec fn spec_allocate(u: nat, n: nat) -> nat {
    if u + n <= u64::MAX as nat {
        u + n
    } else {
        u64::MAX as nat
    }
}

/// Usage (in bytes) after recording a release of `n` bytes from `u`; never below zero.
pub open spec fn spec_deallocate(u: nat, n: nat) -> nat {
    if u >= n {
        (u - n) as nat
    } else {
        0
    }
}

/// Memory usage as a whole percentage of the ceiling, capped at 100.
/// A zero ceiling counts as full.
pub open spec fn spec_usage_percentage(current: nat, max: nat) -> nat {
    if max == 0 || current * 100 >= max * 100 {
        100
    } else {
        (current * 100) / max
    }
}

/// Memory pressure: usage strictly above 80% of the ceiling.
pub open spec fn spec_memory_pressure(current: nat, max: nat) -> bool {
    max == 0 || current * 100 > max * 80
}

/// The ceiling derived from the available system memory: 75% of it, in whole
/// mebibytes, and never less than 512 MiB.
pub open spec fn spec_auto_ceiling(available_bytes: nat) -> nat {
    let mb = available_bytes / (MIB as nat);
    let scaled = mb * 75 / 100;
    (if scaled >= 512 { scaled } else { 512 }) * (MIB as nat)
}

/// Estimated memory accounting bounded by a ceiling.
pub struct MemoryMonitor {
    max_memory_usage: u64,
    current_usage_estimate: u64,
}

/// Relies on sysinfo's `System::refresh_memory` and `SystemExt::available_memory`:
/// the memory (in bytes) that the system reports as available right now.
#[verifier::external_body]
fn available_system_memory() -> (r: u64) {
    let mut system = sysinfo::System::new();
    system.refresh_memory();
    system.available_memory()
}

impl MemoryMonitor {
    /// The ceiling in bytes.
    pub closed spec fn spec_max(&self) -> nat {
        self.max_memory_usage as nat
    }

    /// The current usage estimate in bytes.
    pub closed spec fn spec_current(&self) -> nat {
        self.current_usage_estimate as nat
    }

    /// A monitor with a ceiling of `max_memory_mb` mebibytes, or, when none is
    /// given, one derived from the memory the system reports as available.
    pub fn new(max_memory_mb: Option<u64>) -> (r: Self)
        requires
            max_memory_mb matches Some(mb) ==> mb as nat * (MIB as nat) <= u64::MAX as nat,
        ensures
            r.spec_current() == 0,
            max_memory_mb matches Some(mb) ==> r.spec_max() == mb as nat * (MIB as nat),
            max_memory_mb is None ==> r.spec_max() >= 512 * (MIB as nat)
                && exists|available: nat| available <= u64::MAX && r.spec_max() == spec_auto_ceiling(available),
    {
        match max_memory_mb {
            Some(mb) => MemoryMonitor { max_memory_usage: mb * MIB, current_usage_estimate: 0 },
            None => Self::from_available_memory(available_system_memory()),
        }
    }

    /// A monitor whose ceiling is 75% of `available_bytes` (in whole mebibytes),
    /// with a floor of 512 MiB.
    pub fn from_available_memory(available_bytes: u64) -> (r: Self)
        ensures
            r.spec_current() == 0,
            r.spec_max() == spec_auto_ceiling(available_bytes as nat),
            r.spec_max() >= 512 * (MIB as nat),
    {
        let mb = available_bytes / MIB;
        assert(mb <= 17592186044415) by (nonlinear_arith)
            requires mb == available_bytes / 1048576, available_bytes <= u64::MAX;
        let scaled = mb * 75 / 100;
        let ceiling_mb = if scaled >= 512 { scaled } else { 512 };
        assert(ceiling_mb * 1048576 <= u64::MAX) by (nonlinear_arith)
            requires ceiling_mb <= 17592186044415 * 75 / 100 || ceiling_mb == 512;
        MemoryMonitor { max_memory_usage: ceiling_mb * MIB, current_usage_estimate: 0 }
    }

    /// Whether `size` more bytes fit under the ceiling.
    pub fn can_allocate(&self, size: u64) -> (r: bool)
        ensures
            r == (self.spec_current() + size <= self.spec_max()),
    {
        (self.current_usage_estimate as u128) + (size as u128) <= (self.max_memory_usage as u128)
    }

    /// Records an allocation of `size` bytes.
    pub fn allocate(&mut self, size: u64)
        ensures
            final(self).spec_current() == spec_allocate(old(self).spec_current(), size as nat),
            final(self).spec_max() == old(self).spec_max(),
    {
        self.current_usage_estimate = self.current_usage_estimate.saturating_add(size);
    }

    /// Records a release of `size` bytes; the estimate never drops below zero.
    pub fn deallocate(&mut self, size: u64)
        ensures
            final(self).spec_current() == spec_deallocate(old(self).spec_current(), size as nat),
            final(self).spec_max() == old(self).spec_max(),
    {
        self.current_usage_estimate = self.current_usage_estimate.saturating_sub(size);
    }

    /// The current usage estimate in bytes.
    pub fn current_usage(&self) -> (r: u64)
        ensures
            r == self.spec_current(),
    {
        self.current_usage_estimate
    }

    /// The ceiling in bytes.
    pub fn max_usage(&self) -> (r: u64)
        ensures
            r == self.spec_max(),
    {
        self.max_memory_usage
    }

    /// Usage as a whole percentage (rounded down) of the ceiling, at most 100.
    pub fn usage_percentage(&self) -> (r: u64)
        ensures
            r == spec_usage_percentage(self.spec_current(), self.spec_max()),
    {
        let current = self.current_usage_estimate as u128;
        let max = self.max_memory_usage as u128;
        if max == 0 || current * 100 >= max * 100 {
            100
        } else {
            let p = (current * 100) / max;
            assert(p < 100) by (nonlinear_arith)
                requires p as int == (current as int * 100) / (max as int), current * 100 < max * 100, max > 0;
            p as u64
        }
    }

    /// Whether usage is above 80% of the ceiling.
    pub fn is_memory_pressure(&self) -> (r: bool)
        ensures
            r == spec_memory_pressure(self.spec_current(), self.spec_max()),
    {
        let current = self.current_usage_estimate as u128;
        let max = self.max_memory_usage as u128;
        max == 0 || current * 100 > max * 80
    }
}

/// A scoped accounting handle: records an allocation on creation and the
/// matching release when it is handed back with [`MemoryTracker::release`].
pub struct MemoryTracker {
    allocated_size: u64,
}

impl MemoryTracker {
    /// The number of bytes this handle accounts for.
    pub closed spec fn spec_size(&self) -> nat {
        self.allocated_size as nat
    }

    /// Records `size` bytes on `monitor` if they fit under its ceiling.
    pub fn new(monitor: &mut MemoryMonitor, size: u64) -> (r: Option<Self>)
        ensures
            r is Some <==> old(monitor).spec_current() + size <= old(monitor).spec_max(),
            r matches Some(t) ==> t.spec_size() == size
                && final(monitor).spec_current() == old(monitor).spec_current() + size,
            r is None ==> final(monitor).spec_current() == old(monitor).spec_current(),
            final(monitor).spec_max() == old(monitor).spec_max(),
    {
        if monitor.can_allocate(size) {
            monitor.allocate(size);
            Some(MemoryTracker { allocated_size: size })
        } else {
            None
        }
    }

    /// Gives the accounted bytes back to `monitor`.
    pub fn release(self, monitor: &mut MemoryMonitor)
        ensures
            final(monitor).spec_current() == spec_deallocate(old(monitor).spec_current(), self.spec_size()),
            final(monitor).spec_max() == old(monitor).spec_max(),
    {
        monitor.deallocate(self.allocated_size);
    }
}

/// The usage after the accounting calls `ops`, made in order from `start`:
/// `(true, n)` allocates `n` bytes, `(false, n)` releases them.
pub open spec fn spec_replay(start: nat, ops: Seq<(bool, u64)>) -> nat
    decreases ops.len(),
{
    if ops.len() == 0 {
        start
    } else {
        let prev = spec_replay(start, ops.drop_last());
        let (is_alloc, n) = ops.last();
        if is_alloc {
            spec_allocate(prev, n as nat)
        } else {
            spec_deallocate(prev, n as nat)
        }
    }
}

/// Total bytes allocated by the calls in `ops`.
pub open spec fn spec_allocated_total(ops: Seq<(bool, u64)>) -> nat
    decreases ops.len(),
{
    if ops.len() == 0 {
        0
    } else {
        spec_allocated_total(ops.drop_last()) + if ops.last().0 { ops.last().1 as nat } else { 0 }
    }
}

/// Total bytes released by the calls in `ops`.
pub open spec fn spec_released_total(ops: Seq<(bool, u64)>) -> nat
    decreases ops.len(),
{
    if ops.len() == 0 {
        0
    } else {
        spec_released_total(ops.drop_last()) + if ops.last().0 { 0 } else { ops.last().1 as nat }
    }
}

/// Releasing never takes the estimate below zero, and an allocation followed
/// by the release of the same size restores the estimate when nothing saturated.
pub proof fn lemma_allocate_then_deallocate(u: nat, n: nat)
    requires
        u + n <= u64::MAX as nat,
    ensures
        spec_deallocate(spec_allocate(u, n), n) == u,
        spec_deallocate(u, n) <= u,
        n > u ==> spec_deallocate(u, n) == 0,
{
}

/// Paired accounting: when every release is preceded by allocations that cover
/// it, the allocations in flight never exceed the representable range, and the
/// released total equals the allocated total, the usage returns to zero.
pub proof fn lemma_paired_accounting(ops: Seq<(bool, u64)>)
    requires
        forall|k: int| 0 <= k <= ops.len() ==>
            spec_released_total(#[trigger] ops.take(k)) <= spec_allocated_total(ops.take(k))
            && spec_allocated_total(ops.take(k)) - spec_released_total(ops.take(k)) <= u64::MAX as int,
        spec_allocated_total(ops) == spec_released_total(ops),
    ensures
        spec_replay(0, ops) == 0,
{
    lemma_replay_balance(ops);
}

proof fn lemma_replay_balance(ops: Seq<(bool, u64)>)
    requires
        forall|k: int| 0 <= k <= ops.len() ==>
            spec_released_total(#[trigger] ops.take(k)) <= spec_allocated_total(ops.take(k))
            && spec_allocated_total(ops.take(k)) - spec_released_total(ops.take(k)) <= u64::MAX as int,
    ensures
        spec_replay(0, ops) == spec_allocated_total(ops) - spec_released_total(ops),
    decreases ops.len(),
{
    assert(ops.take(ops.len() as int) =~= ops);
    if ops.len() > 0 {
        let prefix = ops.drop_last();
        assert forall|k: int| 0 <= k <= prefix.len() implies
            spec_released_total(#[trigger] prefix.take(k)) <= spec_allocated_total(prefix.take(k))
            && spec_allocated_total(prefix.take(k)) - spec_released_total(prefix.take(k)) <= u64::MAX as int by {
            assert(prefix.take(k) =~= ops.take(k));
        }
        assert(ops.take(prefix.len() as int) =~= prefix);
        lemma_replay_balance(prefix);
    }
}

/// Requests below this many bytes use the small size class.
pub const SMALL_BUFFER_LIMIT: usize = 1048576;

/// Requests below this many bytes (and at least the small limit) use the medium size class.
pub const MEDIUM_BUFFER_LIMIT: usize = 10485760;

/// Buffers holding more than this many bytes are never kept for reuse.
pub const MAX_POOLED_SIZE: usize = 104857600;

/// Size class of a pooled buffer.
#[derive(Debug, Clone, Copy, PartialEq, Eq, Structural)]
pub enum BufferSize {
    Small,
    Medium,
    Large,
}

/// The size class of a request for `n` bytes.
pub open spec fn spec_size_class(n: nat) -> BufferSize {
    if n < SMALL_BUFFER_LIMIT {
        BufferSize::Small
    } else if n < MEDIUM_BUFFER_LIMIT {
        BufferSize::Medium
    } else {
        BufferSize::Large
    }
}

/// How many free buffers a size class keeps at most.
pub open spec fn spec_pool_slots(c: BufferSize) -> nat {
    match c {
        BufferSize::Small => 100,
        BufferSize::Medium => 50,
        BufferSize::Large => 20,
    }
}

/// A counter after one more event; counters stop at their largest value.
pub open spec fn spec_bump(x: usize) -> usize {
    if x < usize::MAX {
        (x + 1) as usize
    } else {
        x
    }
}

/// Index of the first buffer in `free` (given as reserved sizes) that holds
/// at least `n` bytes, or -1 when none does.
pub open spec fn spec_first_fit(free: Seq<nat>, n: nat) -> int
    decreases free.len(),
{
    if free.len() == 0 {
        -1
    } else if free[0] >= n {
        0
    } else {
        let k = spec_first_fit(free.drop_first(), n);
        if k < 0 { -1 } else { k + 1 }
    }
}

/// Whether a request for `n` bytes can reuse a buffer of the free list `free`:
/// some buffer there holds at least `n` bytes.
pub open spec fn spec_reuses(free: Seq<nat>, n: nat) -> bool {
    exists|i: int| 0 <= i < free.len() && free[i] >= n
}

/// The free list after a request for `n` bytes: the first buffer large enough
/// leaves it; without one the list stays as it was.
pub open spec fn spec_free_after_acquire(free: Seq<nat>, n: nat) -> Seq<nat> {
    if spec_reuses(free, n) {
        free.remove(spec_first_fit(free, n))
    } else {
        free
    }
}

/// The first fit is the least index of a large enough buffer.
pub proof fn lemma_first_fit(free: Seq<nat>, n: nat)
    ensures
        -1 <= spec_first_fit(free, n) < free.len(),
        spec_first_fit(free, n) >= 0 <==> spec_reuses(free, n),
        spec_first_fit(free, n) >= 0 ==> free[spec_first_fit(free, n)] >= n,
        forall|j: int| 0 <= j < free.len() && (spec_first_fit(free, n) < 0 || j < spec_first_fit(free, n))
            ==> #[trigger] free[j] < n,
    decreases free.len(),
{
    if free.len() > 0 && free[0] < n {
        let rest = free.drop_first();
        lemma_first_fit(rest, n);
        assert forall|j: int| 0 <= j < free.len() && (spec_first_fit(free, n) < 0 || j < spec_first_fit(free, n))
            implies #[trigger] free[j] < n by {
            if j > 0 {
                assert(free[j] == rest[j - 1]);
            }
        }
        if spec_reuses(free, n) {
            let i = choose|i: int| 0 <= i < free.len() && free[i] >= n;
            assert(rest[i - 1] == free[i]);
        }
        if spec_first_fit(free, n) >= 0 {
            assert(free[spec_first_fit(free, n)] == rest[spec_first_fit(free, n) - 1]);
        }
    }
}

/// Whether a released buffer of class `c` with `reserved` bytes is kept.
pub open spec fn spec_admits(free: Seq<nat>, c: BufferSize, reserved: nat) -> bool {
    reserved <= MAX_POOLED_SIZE && free.len() < spec_pool_slots(c)
}

/// The free list after releasing a buffer of class `c` with `reserved` bytes.
pub open spec fn spec_free_after_release(free: Seq<nat>, c: BufferSize, reserved: nat) -> Seq<nat> {
    if spec_admits(free, c, reserved) {
        free.push(reserved)
    } else {
        free
    }
}

/// Statistics after a request for `n` bytes of class `c`, reused or freshly allocated.
pub open spec fn spec_stats_after_acquire(s: PoolStats, c: BufferSize, n: nat, reused: bool) -> PoolStats {
    if reused {
        let saved = if s.total_memory_saved + n <= u64::MAX as nat {
            (s.total_memory_saved + n) as u64
        } else {
            u64::MAX
        };
        match c {
            BufferSize::Small => PoolStats { small_reused: spec_bump(s.small_reused), total_memory_saved: saved, ..s },
            BufferSize::Medium => PoolStats { medium_reused: spec_bump(s.medium_reused), total_memory_saved: saved, ..s },
            BufferSize::Large => PoolStats { large_reused: spec_bump(s.large_reused), total_memory_saved: saved, ..s },
        }
    } else {
        match c {
            BufferSize::Small => PoolStats { small_allocated: spec_bump(s.small_allocated), ..s },
            BufferSize::Medium => PoolStats { medium_allocated: spec_bump(s.medium_allocated), ..s },
            BufferSize::Large => PoolStats { large_allocated: spec_bump(s.large_allocated), ..s },
        }
    }
}

/// Allocation and reuse counters of a [`MemoryPool`].
#[derive(Debug, Clone, Copy, PartialEq, Eq)]
pub struct PoolStats {
    pub small_allocated: usize,
    pub small_reused: usize,
    pub medium_allocated: usize,
    pub medium_reused: usize,
    pub large_allocated: usize,
    pub large_reused: usize,
    pub total_memory_saved: u64,
}

/// A buffer waiting in a free list, with the number of bytes it is known to
/// hold without reallocating.
struct FreeBuffer {
    data: Vec<u8>,
    reserved: usize,
}

/// A buffer handed out by a [`MemoryPool`]; give it back with [`MemoryPool::release`].
pub struct ManagedBuffer {
    buffer: Vec<u8>,
    size_category: BufferSize,
    reserved: usize,
}

impl View for ManagedBuffer {
    type V = Seq<u8>;

    closed spec fn view(&self) -> Seq<u8> {
        self.buffer@
    }
}

impl ManagedBuffer {
    /// The size class of the free list this buffer returns to.
    pub closed spec fn spec_class(&self) -> BufferSize {
        self.size_category
    }

    /// The number of bytes this buffer is known to hold without reallocating.
    pub closed spec fn spec_reserved(&self) -> nat {
        self.reserved as nat
    }

    /// The contents never outgrow the reserved size.
    pub closed spec fn wf(&self) -> bool {
        self.buffer@.len() <= self.reserved
    }

    /// The contents.
    pub fn as_slice(&self) -> (r: &[u8])
        ensures
            r@ == self@,
    {
        self.buffer.as_slice()
    }

    /// The contents, for writing.
    pub fn as_mut_slice(&mut self) -> (r: &mut [u8])
        ensures
            r@ == old(self)@,
            final(r)@ == final(self)@,
            final(self).spec_class() == old(self).spec_class(),
            final(self).spec_reserved() == old(self).spec_reserved(),
    {
        self.buffer.as_mut_slice()
    }

    /// The number of bytes held.
    pub fn len(&self) -> (r: usize)
        ensures
            r == self@.len(),
    {
        self.buffer.len()
    }

    /// Whether no byte is held.
    pub fn is_empty(&self) -> (r: bool)
        ensures
            r == (self@.len() == 0),
    {
        self.buffer.len() == 0
    }

    /// Truncates to `new_len` bytes or extends with copies of `value`.
    pub fn resize(&mut self, new_len: usize, value: u8)
        requires
            old(self).wf(),
        ensures
            final(self).wf(),
            final(self)@.len() == new_len,
            new_len <= old(self)@.len() ==> final(self)@ == old(self)@.take(new_len as int),
            new_len > old(self)@.len() ==> final(self)@.take(old(self)@.len() as int) == old(self)@
                && forall|i: int| old(self)@.len() <= i < new_len ==> final(self)@[i] == value,
            final(self).spec_class() == old(self).spec_class(),
            final(self).spec_reserved() == if new_len > old(self).spec_reserved() {
                new_len as nat
            } else {
                old(self).spec_reserved()
            },
    {
        self.buffer.resize(new_len, value);
        if new_len > self.reserved {
            self.reserved = new_len;
        }
    }

    /// The number of bytes this buffer is known to hold without reallocating.
    pub fn capacity(&self) -> (r: usize)
        ensures
            r == self.spec_reserved(),
    {
        self.reserved
    }
}

/// Size-classed free lists of reusable buffers, with counters.
pub struct MemoryPool {
    small_buffers: VecDeque<FreeBuffer>,
    medium_buffers: VecDeque<FreeBuffer>,
    large_buffers: VecDeque<FreeBuffer>,
    stats: PoolStats,
}

spec fn reserved_sizes(list: Seq<FreeBuffer>) -> Seq<nat> {
    list.map_values(|b: FreeBuffer| b.reserved as nat)
}

/// Sum of a sequence of sizes.
pub open spec fn spec_total(s: Seq<nat>) -> nat
    decreases s.len(),
{
    if s.len() == 0 {
        0
    } else {
        spec_total(s.drop_last()) + s.last()
    }
}

impl MemoryPool {
    /// The reserved sizes of the free buffers of class `c`, front first.
    pub closed spec fn spec_free(&self, c: BufferSize) -> Seq<nat> {
        match c {
            BufferSize::Small => reserved_sizes(self.small_buffers@),
            BufferSize::Medium => reserved_sizes(self.medium_buffers@),
            BufferSize::Large => reserved_sizes(self.large_buffers@),
        }
    }

    /// The counters.
    pub closed spec fn spec_stats(&self) -> PoolStats {
        self.stats
    }

    /// Each free list stays within its slot count and holds no buffer above
    /// the pooling ceiling.
    pub open spec fn wf(&self) -> bool {
        &&& forall|c: BufferSize| #[trigger] self.spec_free(c).len() <= spec_pool_slots(c)
        &&& forall|c: BufferSize, i: int| 0 <= i < self.spec_free(c).len()
            ==> #[trigger] self.spec_free(c)[i] <= MAX_POOLED_SIZE
    }

    /// An empty pool with zeroed counters.
    pub fn new() -> (r: Self)
        ensures
            r.wf(),
            forall|c: BufferSize| #[trigger] r.spec_free(c).len() == 0,
            r.spec_stats() == (PoolStats {
                small_allocated: 0,
                small_reused: 0,
                medium_allocated: 0,
                medium_reused: 0,
                large_allocated: 0,
                large_reused: 0,
                total_memory_saved: 0,
            }),
    {
        let r = MemoryPool {
            small_buffers: VecDeque::with_capacity(50),
            medium_buffers: VecDeque::with_capacity(20),
            large_buffers: VecDeque::with_capacity(5),
            stats: PoolStats {
                small_allocated: 0,
                small_reused: 0,
                medium_allocated: 0,
                medium_reused: 0,
                large_allocated: 0,
                large_reused: 0,
                total_memory_saved: 0,
            },
        };
        assert forall|c: BufferSize| #[trigger] r.spec_free(c).len() == 0 by {
            match c {
                BufferSize::Small => {},
                BufferSize::Medium => {},
                BufferSize::Large => {},
            }
        }
        r
    }

    /// Takes the first buffer of `list` that holds at least `min_size` bytes,
    /// cleared and sized to `min_size`; without one, allocates a fresh buffer.
    fn acquire_from_pool(list: &mut VecDeque<FreeBuffer>, min_size: usize) -> (r: (Vec<u8>, usize, bool))
        ensures
            r.2 == spec_reuses(reserved_sizes(old(list)@), min_size as nat),
            reserved_sizes(final(list)@) == spec_free_after_acquire(reserved_sizes(old(list)@), min_size as nat),
            r.0@.len() == min_size,
            forall|i: int| 0 <= i < min_size ==> r.0@[i] == 0,
            r.2 ==> r.1 == reserved_sizes(old(list)@)[spec_first_fit(reserved_sizes(old(list)@), min_size as nat)],
            !r.2 ==> r.1 == min_size,
            r.1 >= min_size,
    {
        let ghost sizes = reserved_sizes(list@);
        proof {
            lemma_first_fit(sizes, min_size as nat);
        }
        let mut i: usize = 0;
        while i < list.len()
            invariant
                sizes == reserved_sizes(list@),
                list@ == old(list)@,
                i <= list@.len(),
                forall|j: int| 0 <= j < i ==> #[trigger] sizes[j] < min_size,
            decreases list@.len() - i,
        {
            if list[i].reserved >= min_size {
                proof {
                    lemma_first_fit(sizes, min_size as nat);
                    assert(sizes[i as int] >= min_size);
                    let k = spec_first_fit(sizes, min_size as nat);
                    assert(spec_reuses(sizes, min_size as nat));
                    if k < i {
                        assert(sizes[k] < min_size);
                    }
                    if k > i {
                        assert(sizes[i as int] < min_size);
                    }
                    assert(k == i);
                }
                let taken = list.remove(i);
                match taken {
                    Some(mut buffer) => {
                        assert(reserved_sizes(list@) =~= sizes.remove(i as int));
                        buffer.data.clear();
                        buffer.data.resize(min_size, 0);
                        return (buffer.data, buffer.reserved, true);
                    },
                    None => {},
                }
            }
            i = i + 1;
        }
        proof {
            assert(!spec_reuses(sizes, min_size as nat));
        }
        (vec![0u8; min_size], min_size, false)
    }

    /// A buffer of exactly `min_size` bytes. The free list of its size class is
    /// scanned and the first buffer there that holds at least `min_size` bytes
    /// is reused (and leaves the list); without one a fresh buffer is allocated.
    pub fn acquire_buffer(&mut self, min_size: usize) -> (r: ManagedBuffer)
        requires
            old(self).wf(),
        ensures
            final(self).wf(),
            r.wf(),
            r@.len() == min_size,
            forall|i: int| 0 <= i < min_size ==> r@[i] == 0,
            r.spec_class() == spec_size_class(min_size as nat),
            ({
                let c = spec_size_class(min_size as nat);
                let free = old(self).spec_free(c);
                let reused = spec_reuses(free, min_size as nat);
                &&& final(self).spec_free(c) == spec_free_after_acquire(free, min_size as nat)
                &&& final(self).spec_stats() == spec_stats_after_acquire(old(self).spec_stats(), c, min_size as nat, reused)
                &&& reused <==> exists|i: int| 0 <= i < free.len() && free[i] >= min_size
                &&& reused ==> final(self).spec_free(c) == free.remove(spec_first_fit(free, min_size as nat))
                    && free[spec_first_fit(free, min_size as nat)] >= min_size
                    && forall|j: int| 0 <= j < spec_first_fit(free, min_size as nat) ==> #[trigger] free[j] < min_size
                &&& !reused ==> final(self).spec_free(c) == free
                &&& r.spec_reserved() == if reused { free[spec_first_fit(free, min_size as nat)] } else { min_size as nat }
                &&& forall|d: BufferSize| d != c ==> #[trigger] final(self).spec_free(d) == old(self).spec_free(d)
            }),
    {
        let ghost old_pool = *self;
        proof {
            lemma_first_fit(old_pool.spec_free(spec_size_class(min_size as nat)), min_size as nat);
        }
        let class = if min_size < SMALL_BUFFER_LIMIT {
            BufferSize::Small
        } else if min_size < MEDIUM_BUFFER_LIMIT {
            BufferSize::Medium
        } else {
            BufferSize::Large
        };
        let (data, reserved, reused) = match class {
            BufferSize::Small => Self::acquire_from_pool(&mut self.small_buffers, min_size),
            BufferSize::Medium => Self::acquire_from_pool(&mut self.medium_buffers, min_size),
            BufferSize::Large => Self::acquire_from_pool(&mut self.large_buffers, min_size),
        };
        if reused {
            self.stats.total_memory_saved = self.stats.total_memory_saved.saturating_add(min_size as u64);
            match class {
                BufferSize::Small => self.stats.small_reused = self.stats.small_reused.saturating_add(1),
                BufferSize::Medium => self.stats.medium_reused = self.stats.medium_reused.saturating_add(1),
                BufferSize::Large => self.stats.large_reused = self.stats.large_reused.saturating_add(1),
            }
        } else {
            match class {
                BufferSize::Small => self.stats.small_allocated = self.stats.small_allocated.saturating_add(1),
                BufferSize::Medium => self.stats.medium_allocated = self.stats.medium_allocated.saturating_add(1),
                BufferSize::Large => self.stats.large_allocated = self.stats.large_allocated.saturating_add(1),
            }
        }
        proof {
            assert forall|c: BufferSize, i: int| 0 <= i < self.spec_free(c).len()
                implies #[trigger] self.spec_free(c)[i] <= MAX_POOLED_SIZE by {
                let f = old_pool.spec_free(c);
                if c == class && spec_reuses(f, min_size as nat) {
                    let k = spec_first_fit(f, min_size as nat);
                    if i < k {
                        assert(self.spec_free(c)[i] == f[i]);
                    } else {
                        assert(self.spec_free(c)[i] == f[i + 1]);
                    }
                }
            }
            assert forall|c: BufferSize| #[trigger] self.spec_free(c).len() <= spec_pool_slots(c) by {
                assert(old_pool.spec_free(c).len() <= spec_pool_slots(c));
            }
        }
        ManagedBuffer { buffer: data, size_category: class, reserved }
    }

    /// Gives `buffer` back: it joins the back of its class's free list unless it
    /// holds more than the pooling ceiling or that list is full.
    pub fn release(&mut self, buffer: ManagedBuffer)
        requires
            old(self).wf(),
        ensures
            final(self).wf(),
            final(self).spec_stats() == old(self).spec_stats(),
            final(self).spec_free(buffer.spec_class()) == spec_free_after_release(
                old(self).spec_free(buffer.spec_class()),
                buffer.spec_class(),
                buffer.spec_reserved(),
            ),
            forall|d: BufferSize| d != buffer.spec_class() ==> #[trigger] final(self).spec_free(d) == old(self).spec_free(d),
    {
        let ghost old_pool = *self;
        let ManagedBuffer { buffer: data, size_category, reserved } = buffer;
        if reserved <= MAX_POOLED_SIZE {
            let entry = FreeBuffer { data, reserved };
            match size_category {
                BufferSize::Small => {
                    if self.small_buffers.len() < 100 {
                        self.small_buffers.push_back(entry);
                    }
                },
                BufferSize::Medium => {
                    if self.medium_buffers.len() < 50 {
                        self.medium_buffers.push_back(entry);
                    }
                },
                BufferSize::Large => {
                    if self.large_buffers.len() < 20 {
                        self.large_buffers.push_back(entry);
                    }
                },
            }
        }
        proof {
            assert(reserved_sizes(self.small_buffers@) =~= spec_free_after_release(
                reserved_sizes(old_pool.small_buffers@), size_category, reserved as nat)
                || size_category != BufferSize::Small);
            assert(reserved_sizes(self.medium_buffers@) =~= spec_free_after_release(
                reserved_sizes(old_pool.medium_buffers@), size_category, reserved as nat)
                || size_category != BufferSize::Medium);
            assert(reserved_sizes(self.large_buffers@) =~= spec_free_after_release(
                reserved_sizes(old_pool.large_buffers@), size_category, reserved as nat)
                || size_category != BufferSize::Large);
            assert forall|c: BufferSize, i: int| 0 <= i < self.spec_free(c).len()
                implies #[trigger] self.spec_free(c)[i] <= MAX_POOLED_SIZE by {
                if i < old_pool.spec_free(c).len() {
                    assert(self.spec_free(c)[i] == old_pool.spec_free(c)[i]);
                }
            }
            assert forall|c: BufferSize| #[trigger] self.spec_free(c).len() <= spec_pool_slots(c) by {
                assert(old_pool.spec_free(c).len() <= spec_pool_slots(c));
            }
        }
    }

    /// A copy of the counters.
    pub fn stats(&self) -> (r: PoolStats)
        ensures
            r == self.spec_stats(),
    {
        self.stats
    }

    /// Drops every free buffer; the counters stay.
    pub fn clear(&mut self)
        ensures
            final(self).wf(),
            final(self).spec_stats() == old(self).spec_stats(),
            forall|c: BufferSize| #[trigger] final(self).spec_free(c).len() == 0,
    {
        self.small_buffers.clear();
        self.medium_buffers.clear();
        self.large_buffers.clear();
        assert forall|c: BufferSize| #[trigger] self.spec_free(c).len() == 0 by {
            match c {
                BufferSize::Small => {},
                BufferSize::Medium => {},
                BufferSize::Large => {},
            }
        }
    }

    fn free_list_usage(list: &VecDeque<FreeBuffer>) -> (r: u64)
        requires
            reserved_sizes(list@).len() <= 100,
            forall|i: int| 0 <= i < list@.len() ==> #[trigger] list@[i].reserved <= MAX_POOLED_SIZE,
        ensures
            r == spec_total(reserved_sizes(list@)),
            r <= 100 * MAX_POOLED_SIZE,
    {
        let ghost sizes = reserved_sizes(list@);
        let mut sum: u64 = 0;
        let mut i: usize = 0;
        while i < list.len()
            invariant
                sizes == reserved_sizes(list@),
                sizes.len() <= 100,
                i <= list@.len(),
                forall|j: int| 0 <= j < list@.len() ==> #[trigger] list@[j].reserved <= MAX_POOLED_SIZE,
                sum == spec_total(sizes.take(i as int)),
                sum <= i * MAX_POOLED_SIZE,
            decreases list@.len() - i,
        {
            assert(sizes.take(i + 1).drop_last() =~= sizes.take(i as int));
            sum = sum + list[i].reserved as u64;
            i = i + 1;
        }
        assert(sizes.take(i as int) =~= sizes);
        sum
    }

    /// Bytes reserved by the buffers waiting in the free lists.
    pub fn current_memory_usage(&self) -> (r: u64)
        requires
            self.wf(),
        ensures
            r == spec_total(self.spec_free(BufferSize::Small)) + spec_total(self.spec_free(BufferSize::Medium))
                + spec_total(self.spec_free(BufferSize::Large)),
    {
        assert(self.spec_free(BufferSize::Small).len() <= 100);
        assert(self.spec_free(BufferSize::Medium).len() <= 50);
        assert(self.spec_free(BufferSize::Large).len() <= 20);
        assert(forall|i: int| 0 <= i < self.small_buffers@.len() ==> #[trigger] self.small_buffers@[i].reserved
            == self.spec_free(BufferSize::Small)[i]);
        assert(forall|i: int| 0 <= i < self.medium_buffers@.len() ==> #[trigger] self.medium_buffers@[i].reserved
            == self.spec_free(BufferSize::Medium)[i]);
        assert(forall|i: int| 0 <= i < self.large_buffers@.len() ==> #[trigger] self.large_buffers@[i].reserved
            == self.spec_free(BufferSize::Large)[i]);
        let small = Self::free_list_usage(&self.small_buffers);
        let medium = Self::free_list_usage(&self.medium_buffers);
        let large = Self::free_list_usage(&self.large_buffers);
        small + medium + large
    }
}

/// Buffer reuse: a buffer of `first` bytes is taken from the free list `free`
/// of its size class (reused from it or freshly allocated) and given back
/// while that list is below its slot count; a request for `second <= first`
/// bytes of the same class then reuses a buffer, taking it off the list,
/// counting one more reuse and no new allocation.
pub proof fn lemma_pool_reuse(free: Seq<nat>, stats: PoolStats, first: nat, second: nat)
    requires
        second <= first,
        first <= MAX_POOLED_SIZE,
        spec_size_class(first) == spec_size_class(second),
        forall|i: int| 0 <= i < free.len() ==> #[trigger] free[i] <= MAX_POOLED_SIZE,
        spec_free_after_acquire(free, first).len() < spec_pool_slots(spec_size_class(first)),
    ensures
        ({
            let c = spec_size_class(first);
            let reused_first = spec_reuses(free, first);
            let reserved = if reused_first { free[spec_first_fit(free, first)] } else { first };
            let after_first = spec_free_after_acquire(free, first);
            let after_release = spec_free_after_release(after_first, c, reserved);
            let s1 = spec_stats_after_acquire(stats, c, first, reused_first);
            let s2 = spec_stats_after_acquire(s1, c, second, spec_reuses(after_release, second));
            &&& spec_reuses(after_release, second)
            &&& spec_free_after_acquire(after_release, second).len() == after_release.len() - 1
            &&& match c {
                BufferSize::Small => s2.small_reused == spec_bump(s1.small_reused)
                    && s2.small_allocated == s1.small_allocated,
                BufferSize::Medium => s2.medium_reused == spec_bump(s1.medium_reused)
                    && s2.medium_allocated == s1.medium_allocated,
                BufferSize::Large => s2.large_reused == spec_bump(s1.large_reused)
                    && s2.large_allocated == s1.large_allocated,
            }
        }),
{
    let c = spec_size_class(first);
    lemma_first_fit(free, first);
    let reused_first = spec_reuses(free, first);
    let reserved = if reused_first { free[spec_first_fit(free, first)] } else { first };
    let after_first = spec_free_after_acquire(free, first);
    let after_release = spec_free_after_release(after_first, c, reserved);
    assert(reserved >= first);
    assert(reserved <= MAX_POOLED_SIZE);
    assert(after_release == after_first.push(reserved));
    assert(after_release[after_release.len() - 1] == reserved);
    assert(spec_reuses(after_release, second));
    lemma_first_fit(after_release, second);
}

} // verus!
