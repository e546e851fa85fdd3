//! Progress accounting for a running batch, with an outbox of events for observers.

use std::collections::VecDeque;
use vstd::prelude::*;
use crate::batch::spec_sat;
use crate::memory::spec_bump;
use crate::text::{append, append_decimal, append_tenths, spec_decimal, spec_round_div, spec_tenths};

verus! {

/// Most events kept for observers; older ones are dropped first.
pub const MAX_PENDING_UPDATES: usize = 1000;

/// A snapshot of a batch's progress. Times are milliseconds.
#[derive(Debug, Clone)]
pub struct ProgressState {
    pub total_files: u64,
    pub completed_files: usize,
    pub failed_files: usize,
    pub current_file: Option<String>,
    pub elapsed_time: u64,
    pub estimated_remaining: Option<u64>,
    pub bytes_processed: u64,
    pub pixels_processed: u64,
    /// Files per second, in thousandths.
    pub files_per_second_milli: u64,
    /// Whole percent of the files finished, rounded down.
    pub completion_percentage: u64,
}

/// An event published by a [`ProgressTracker`].
#[derive(Debug, Clone)]
pub enum ProgressUpdate {
    Started { total_files: u64 },
    FileStarted { filename: String },
    FileCompleted { filename: String, success: bool, file_size: u64, pixels: u64, processing_time: u64 },
    BatchCompleted { final_state: ProgressState },
    Error { filename: String, error: String },
}

/// The empty snapshot.
pub open spec fn spec_initial_state() -> ProgressState {
    ProgressState {
        total_files: 0,
        completed_files: 0,
        failed_files: 0,
        current_file: None,
        elapsed_time: 0,
        estimated_remaining: None,
        bytes_processed: 0,
        pixels_processed: 0,
        files_per_second_milli: 0,
        completion_percentage: 0,
    }
}

/// The snapshot `s` brought up to date at time `now` from the counters. Before
/// a batch has started nothing changes; rate and remaining time change only
/// once time has elapsed.
pub open spec fn spec_refresh(
    s: ProgressState,
    start: Option<u64>,
    completed: usize,
    failed: usize,
    bytes: u64,
    pixels: u64,
    now: u64,
) -> ProgressState {
    match start {
        None => s,
        Some(t) => {
            let elapsed: nat = if now >= t { (now - t) as nat } else { 0 };
            let processed: nat = completed as nat + failed as nat;
            ProgressState {
                completed_files: completed,
                failed_files: failed,
                elapsed_time: elapsed as u64,
                bytes_processed: bytes,
                pixels_processed: pixels,
                completion_percentage: if s.total_files > 0 {
                    spec_sat(processed * 100 / (s.total_files as nat))
                } else {
                    s.completion_percentage
                },
                files_per_second_milli: if elapsed > 0 {
                    spec_sat(processed * 1000000 / elapsed)
                } else {
                    s.files_per_second_milli
                },
                estimated_remaining: if elapsed > 0 && processed > 0 && s.total_files > processed {
                    Some(spec_sat(((s.total_files as nat - processed) * elapsed) as nat / processed))
                } else {
                    s.estimated_remaining
                },
                ..s
            }
        },
    }
}

/// The event outbox before a new event joins: the oldest event goes when it is full.
pub open spec fn spec_outbox_room(q: Seq<ProgressUpdate>) -> Seq<ProgressUpdate> {
    if q.len() >= MAX_PENDING_UPDATES {
        q.drop_first()
    } else {
        q
    }
}

/// The event outbox after publishing `u`.
pub open spec fn spec_publish(q: Seq<ProgressUpdate>, u: ProgressUpdate) -> Seq<ProgressUpdate> {
    spec_outbox_room(q).push(u)
}

impl ProgressState {
    /// The empty snapshot.
    pub fn new() -> (r: Self)
        ensures
            r == spec_initial_state(),
    {
        ProgressState {
            total_files: 0,
            completed_files: 0,
            failed_files: 0,
            current_file: None,
            elapsed_time: 0,
            estimated_remaining: None,
            bytes_processed: 0,
            pixels_processed: 0,
            files_per_second_milli: 0,
            completion_percentage: 0,
        }
    }
}

fn copy_state(s: &ProgressState) -> (r: ProgressState)
    ensures
        r == *s,
{
    ProgressState {
        total_files: s.total_files,
        completed_files: s.completed_files,
        failed_files: s.failed_files,
        current_file: match &s.current_file {
            Some(f) => Some(f.clone()),
            None => None,
        },
        elapsed_time: s.elapsed_time,
        estimated_remaining: s.estimated_remaining,
        bytes_processed: s.bytes_processed,
        pixels_processed: s.pixels_processed,
        files_per_second_milli: s.files_per_second_milli,
        completion_percentage: s.completion_percentage,
    }
}

/// Counters of a batch and the snapshot derived from them. Times (`now`) are
/// milliseconds on a clock supplied by the caller.
pub struct ProgressTracker {
    state: ProgressState,
    start_time: Option<u64>,
    completed: usize,
    failed: usize,
    bytes_processed: u64,
    pixels_processed: u64,
    updates: VecDeque<ProgressUpdate>,
}

impl ProgressTracker {
    pub closed spec fn spec_state(&self) -> ProgressState {
        self.state
    }

    pub closed spec fn spec_start(&self) -> Option<u64> {
        self.start_time
    }

    pub closed spec fn spec_completed(&self) -> usize {
        self.completed
    }

    pub closed spec fn spec_failed(&self) -> usize {
        self.failed
    }

    pub closed spec fn spec_bytes(&self) -> u64 {
        self.bytes_processed
    }

    pub closed spec fn spec_pixels(&self) -> u64 {
        self.pixels_processed
    }

    /// Events not yet taken by an observer, oldest first.
    pub closed spec fn spec_updates(&self) -> Seq<ProgressUpdate> {
        self.updates@
    }

    /// The snapshot brought up to date at `now`.
    pub open spec fn spec_snapshot(&self, now: u64) -> ProgressState {
        spec_refresh(self.spec_state(), self.spec_start(), self.spec_completed(), self.spec_failed(),
            self.spec_bytes(), self.spec_pixels(), now)
    }

    /// Whether only the snapshot and the events differ between two trackers.
    pub open spec fn same_counters(&self, other: &Self) -> bool {
        &&& self.spec_start() == other.spec_start()
        &&& self.spec_completed() == other.spec_completed()
        &&& self.spec_failed() == other.spec_failed()
        &&& self.spec_bytes() == other.spec_bytes()
        &&& self.spec_pixels() == other.spec_pixels()
    }

    pub fn new() -> (r: Self)
        ensures
            r.spec_state() == spec_initial_state(),
            r.spec_start() is None,
            r.spec_completed() == 0,
            r.spec_failed() == 0,
            r.spec_bytes() == 0,
            r.spec_pixels() == 0,
            r.spec_updates().len() == 0,
    {
        ProgressTracker {
            state: ProgressState::new(),
            start_time: None,
            completed: 0,
            failed: 0,
            bytes_processed: 0,
            pixels_processed: 0,
            updates: VecDeque::new(),
        }
    }

    fn publish(&mut self, update: ProgressUpdate)
        ensures
            final(self).spec_updates() == spec_publish(old(self).spec_updates(), update),
            final(self).spec_state() == old(self).spec_state(),
            final(self).same_counters(old(self)),
    {
        if self.updates.len() >= MAX_PENDING_UPDATES {
            let _ = self.updates.pop_front();
        }
        self.updates.push_back(update);
    }

    /// Hands over the pending events, oldest first.
    pub fn take_updates(&mut self) -> (r: Vec<ProgressUpdate>)
        ensures
            r@ == old(self).spec_updates(),
            final(self).spec_updates().len() == 0,
            final(self).spec_state() == old(self).spec_state(),
            final(self).same_counters(old(self)),
    {
        let mut out: Vec<ProgressUpdate> = Vec::new();
        while self.updates.len() > 0
            invariant
                out@ + self.spec_updates() == old(self).spec_updates(),
                self.spec_state() == old(self).spec_state(),
                self.same_counters(old(self)),
            decreases self.spec_updates().len(),
        {
            match self.updates.pop_front() {
                Some(u) => {
                    out.push(u);
                },
                None => {},
            }
            assert(out@ + self.spec_updates() =~= old(self).spec_updates());
        }
        assert(out@ =~= old(self).spec_updates());
        out
    }

    /// Starts a batch of `total_files` at `now`: every counter and the snapshot
    /// are reset, and a `Started` event is published.
    pub fn start(&mut self, total_files: u64, now: u64)
        ensures
            final(self).spec_start() == Some(now),
            final(self).spec_completed() == 0,
            final(self).spec_failed() == 0,
            final(self).spec_bytes() == 0,
            final(self).spec_pixels() == 0,
            final(self).spec_state() == (ProgressState { total_files, ..spec_initial_state() }),
            final(self).spec_updates() == spec_publish(old(self).spec_updates(), ProgressUpdate::Started { total_files }),
    {
        self.start_time = Some(now);
        self.state = ProgressState { total_files, ..ProgressState::new() };
        self.completed = 0;
        self.failed = 0;
        self.bytes_processed = 0;
        self.pixels_processed = 0;
        self.publish(ProgressUpdate::Started { total_files });
    }

    /// Marks `filename` as the file in progress and publishes `FileStarted`.
    pub fn start_file(&mut self, filename: String)
        ensures
            final(self).spec_state() == (ProgressState { current_file: Some(filename), ..old(self).spec_state() }),
            final(self).same_counters(old(self)),
            final(self).spec_updates() == spec_publish(old(self).spec_updates(), ProgressUpdate::FileStarted { filename }),
    {
        self.state.current_file = Some(filename.clone());
        self.publish(ProgressUpdate::FileStarted { filename });
    }

    /// Brings the snapshot up to date at `now`.
    fn update_state(&mut self, now: u64)
        ensures
            final(self).spec_state() == old(self).spec_snapshot(now),
            final(self).same_counters(old(self)),
            final(self).spec_updates() == old(self).spec_updates(),
    {
        let start = match self.start_time {
            None => return,
            Some(t) => t,
        };
        let elapsed = now.saturating_sub(start);
        let processed = self.completed as u128 + self.failed as u128;
        self.state.completed_files = self.completed;
        self.state.failed_files = self.failed;
        self.state.elapsed_time = elapsed;
        self.state.bytes_processed = self.bytes_processed;
        self.state.pixels_processed = self.pixels_processed;
        let total = self.state.total_files as u128;
        if total > 0 {
            self.state.completion_percentage = saturate(processed * 100 / total);
        }
        if elapsed > 0 {
            self.state.files_per_second_milli = saturate(processed * 1000000 / (elapsed as u128));
            if processed > 0 && total > processed {
                assert((total - processed) * (elapsed as u128) <= total * (elapsed as u128)) by (nonlinear_arith)
                    requires total >= processed;
                assert(total * (elapsed as u128) <= 0xffff_ffff_ffff_ffffu128 * 0xffff_ffff_ffff_ffffu128) by (nonlinear_arith)
                    requires total <= 0xffff_ffff_ffff_ffffu128, elapsed <= 0xffff_ffff_ffff_ffffu64;
                let remaining = (total - processed) * (elapsed as u128) / processed;
                self.state.estimated_remaining = Some(saturate(remaining));
            }
        }
    }

    /// Records the end of the file in progress (no size, pixels or time
    /// known), refreshes the snapshot at `now` and publishes `FileCompleted`.
    pub fn complete_file(&mut self, success: bool, now: u64)
        ensures
            final(self).spec_start() == old(self).spec_start(),
            final(self).spec_completed() == if success { spec_bump(old(self).spec_completed()) } else { old(self).spec_completed() },
            final(self).spec_failed() == if success { old(self).spec_failed() } else { spec_bump(old(self).spec_failed()) },
            final(self).spec_bytes() == old(self).spec_bytes(),
            final(self).spec_pixels() == old(self).spec_pixels(),
            final(self).spec_state() == final(self).spec_snapshot_of(
                ProgressState { current_file: None, ..old(self).spec_state() }, now),
            ({
                let name = match old(self).spec_state().current_file { Some(f) => f@, None => "unknown"@ };
                &&& final(self).spec_updates().len() > 0
                &&& final(self).spec_updates().drop_last() == spec_outbox_room(old(self).spec_updates())
                &&& (final(self).spec_updates().last() matches ProgressUpdate::FileCompleted {
                    filename, success: s, file_size: fs, pixels: px, processing_time: pt }
                    && filename@ == name && s == success && fs == 0 && px == 0 && pt == 0)
            }),
    {
        self.complete_file_with_details(success, 0, 0, 0, now);
    }

    /// `s` refreshed at `now` from this tracker's counters.
    pub open spec fn spec_snapshot_of(&self, s: ProgressState, now: u64) -> ProgressState {
        spec_refresh(s, self.spec_start(), self.spec_completed(), self.spec_failed(),
            self.spec_bytes(), self.spec_pixels(), now)
    }

    /// Records the end of the file in progress with its size, pixel count and
    /// processing time (a success adds them to the totals), refreshes the
    /// snapshot at `now` and publishes `FileCompleted`.
    pub fn complete_file_with_details(&mut self, success: bool, file_size: u64, pixels: u64, processing_time: u64, now: u64)
        ensures
            final(self).spec_start() == old(self).spec_start(),
            final(self).spec_completed() == if success { spec_bump(old(self).spec_completed()) } else { old(self).spec_completed() },
            final(self).spec_failed() == if success { old(self).spec_failed() } else { spec_bump(old(self).spec_failed()) },
            final(self).spec_bytes() == if success { spec_sat((old(self).spec_bytes() + file_size) as nat) } else { old(self).spec_bytes() },
            final(self).spec_pixels() == if success { spec_sat((old(self).spec_pixels() + pixels) as nat) } else { old(self).spec_pixels() },
            final(self).spec_state() == final(self).spec_snapshot_of(
                ProgressState { current_file: None, ..old(self).spec_state() }, now),
            ({
                let name = match old(self).spec_state().current_file { Some(f) => f@, None => "unknown"@ };
                &&& final(self).spec_updates().len() > 0
                &&& final(self).spec_updates().drop_last() == spec_outbox_room(old(self).spec_updates())
                &&& (final(self).spec_updates().last() matches ProgressUpdate::FileCompleted {
                    filename, success: s, file_size: fs, pixels: px, processing_time: pt }
                    && filename@ == name && s == success && fs == file_size && px == pixels && pt == processing_time)
            }),
    {
        let filename = match self.state.current_file.take() {
            Some(f) => f,
            None => "unknown".to_owned(),
        };
        if success {
            self.completed = self.completed.saturating_add(1);
            self.bytes_processed = self.bytes_processed.saturating_add(file_size);
            self.pixels_processed = self.pixels_processed.saturating_add(pixels);
        } else {
            self.failed = self.failed.saturating_add(1);
        }
        self.update_state(now);
        self.publish(ProgressUpdate::FileCompleted { filename, success, file_size, pixels, processing_time });
    }

    /// Counts a failure for `filename`, refreshes the snapshot at `now` and
    /// publishes an `Error` event.
    pub fn report_error(&mut self, filename: String, error: String, now: u64)
        ensures
            final(self).spec_start() == old(self).spec_start(),
            final(self).spec_completed() == old(self).spec_completed(),
            final(self).spec_failed() == spec_bump(old(self).spec_failed()),
            final(self).spec_bytes() == old(self).spec_bytes(),
            final(self).spec_pixels() == old(self).spec_pixels(),
            final(self).spec_state() == final(self).spec_snapshot_of(old(self).spec_state(), now),
            final(self).spec_updates() == spec_publish(old(self).spec_updates(), ProgressUpdate::Error { filename, error }),
    {
        self.failed = self.failed.saturating_add(1);
        self.update_state(now);
        self.publish(ProgressUpdate::Error { filename, error });
    }

    /// The snapshot brought up to date at `now`.
    pub fn get_state(&mut self, now: u64) -> (r: ProgressState)
        ensures
            r == old(self).spec_snapshot(now),
            final(self).spec_state() == r,
            final(self).same_counters(old(self)),
            final(self).spec_updates() == old(self).spec_updates(),
    {
        self.update_state(now);
        copy_state(&self.state)
    }

    /// Publishes `BatchCompleted` with the snapshot at `now`.
    pub fn complete_batch(&mut self, now: u64)
        ensures
            final(self).spec_state() == old(self).spec_snapshot(now),
            final(self).same_counters(old(self)),
            final(self).spec_updates().len() > 0,
            (final(self).spec_updates().last() matches ProgressUpdate::BatchCompleted { final_state }
                && final_state == old(self).spec_snapshot(now)),
    {
        let final_state = self.get_state(now);
        self.publish(ProgressUpdate::BatchCompleted { final_state });
    }

    /// Rates and averages derived from the snapshot at `now`.
    pub fn get_metrics(&mut self, now: u64) -> (r: ProgressMetrics)
        ensures
            final(self).spec_state() == old(self).spec_snapshot(now),
            final(self).same_counters(old(self)),
            final(self).spec_updates() == old(self).spec_updates(),
            r == spec_metrics(old(self).spec_snapshot(now)),
    {
        let s = self.get_state(now);
        let elapsed = s.elapsed_time as u128;
        ProgressMetrics {
            files_per_second_milli: s.files_per_second_milli,
            bytes_per_second: if elapsed > 0 { saturate((s.bytes_processed as u128) * 1000 / elapsed) } else { 0 },
            pixels_per_second: if elapsed > 0 { saturate((s.pixels_processed as u128) * 1000 / elapsed) } else { 0 },
            average_file_size: if s.completed_files > 0 { s.bytes_processed / (s.completed_files as u64) } else { 0 },
            success_rate: if s.total_files > 0 {
                saturate((s.completed_files as u128) * 100 / (s.total_files as u128))
            } else {
                0
            },
        }
    }
}

fn saturate(n: u128) -> (r: u64)
    ensures
        r == spec_sat(n as nat),
{
    if n <= u64::MAX as u128 { n as u64 } else { u64::MAX }
}

/// Performance figures of a snapshot: rates per second (files in thousandths),
/// the mean size of a successful file, and the whole percent of files that succeeded.
#[derive(Debug, Clone, Copy, PartialEq, Eq)]
pub struct ProgressMetrics {
    pub files_per_second_milli: u64,
    pub bytes_per_second: u64,
    pub pixels_per_second: u64,
    pub average_file_size: u64,
    pub success_rate: u64,
}

pub open spec fn spec_metrics(s: ProgressState) -> ProgressMetrics {
    ProgressMetrics {
        files_per_second_milli: s.files_per_second_milli,
        bytes_per_second: if s.elapsed_time > 0 { spec_sat(s.bytes_processed as nat * 1000 / s.elapsed_time as nat) } else { 0 },
        pixels_per_second: if s.elapsed_time > 0 { spec_sat(s.pixels_processed as nat * 1000 / s.elapsed_time as nat) } else { 0 },
        average_file_size: if s.completed_files > 0 { (s.bytes_processed as nat / s.completed_files as nat) as u64 } else { 0 },
        success_rate: if s.total_files > 0 { spec_sat(s.completed_files as nat * 100 / s.total_files as nat) } else { 0 },
    }
}

/// Snapshots are idempotent: a snapshot taken after another, with no change of
/// the counters in between, agrees with it on every counter, its elapsed time
/// is not smaller, and taken at the same instant it is equal.
pub proof fn lemma_snapshot_idempotent(t: ProgressTracker, now1: u64, now2: u64)
    requires
        now1 <= now2,
    ensures
        ({
            let s1 = t.spec_snapshot(now1);
            let s2 = t.spec_snapshot_of(s1, now2);
            &&& s2.total_files == s1.total_files
            &&& s2.completed_files == s1.completed_files
            &&& s2.failed_files == s1.failed_files
            &&& s2.current_file == s1.current_file
            &&& s2.bytes_processed == s1.bytes_processed
            &&& s2.pixels_processed == s1.pixels_processed
            &&& s2.completion_percentage == s1.completion_percentage
            &&& s2.elapsed_time >= s1.elapsed_time
            &&& now1 == now2 ==> s2 == s1
        }),
{
}

/// Rounds `n / d` to the nearest integer (halves up), capped at the largest `u64`.
fn round_div(n: u128, d: u128) -> (r: u64)
    requires
        d > 0,
        n <= 0xffff_ffff_ffff_ffff_ffff_ffffu128,
        d <= 0xffff_ffff_ffff_ffffu128,
    ensures
        r == spec_sat(spec_round_div(n as nat, d as nat)),
{
    saturate((2 * n + d) / (2 * d))
}

pub open spec fn spec_status_text(s: ProgressState) -> Seq<char> {
    let done = s.completed_files as nat + s.failed_files as nat;
    match s.current_file {
        Some(f) => "Processing: "@ + f@ + " ("@ + spec_decimal(done + 1) + "/"@ + spec_decimal(s.total_files as nat) + ")"@,
        None => if s.completion_percentage >= 100 {
            "Completed"@
        } else {
            spec_decimal(done) + "/"@ + spec_decimal(s.total_files as nat) + " files processed"@
        },
    }
}

pub open spec fn spec_eta_text(remaining: Option<u64>) -> Seq<char> {
    match remaining {
        Some(ms) => {
            let secs = ms as nat / 1000;
            if secs < 60 {
                spec_decimal(secs) + "s"@
            } else if secs < 3600 {
                spec_decimal(secs / 60) + "m "@ + spec_decimal(secs % 60) + "s"@
            } else {
                spec_decimal(secs / 3600) + "h "@ + spec_decimal((secs % 3600) / 60) + "m"@
            }
        },
        None => "Unknown"@,
    }
}

pub open spec fn spec_speed_text(milli: nat) -> Seq<char> {
    if milli >= 1000 {
        spec_tenths(spec_round_div(milli, 100)) + " files/sec"@
    } else if milli > 0 {
        spec_tenths(spec_round_div(10000, milli)) + " sec/file"@
    } else {
        "Unknown"@
    }
}

impl ProgressState {
    /// `"Processing: <file> (<n>/<total>)"` while a file is in progress,
    /// `"Completed"` once every file is done, else `"<n>/<total> files processed"`.
    pub fn status_text(&self) -> (r: String)
        requires
            self.completed_files as nat + self.failed_files as nat + 1 <= u64::MAX,
        ensures
            r@ == spec_status_text(*self),
    {
        let done = self.completed_files as u64 + self.failed_files as u64;
        let mut s = String::new();
        match &self.current_file {
            Some(f) => {
                append(&mut s, "Processing: ");
                append(&mut s, f.as_str());
                append(&mut s, " (");
                append_decimal(&mut s, done + 1);
                append(&mut s, "/");
                append_decimal(&mut s, self.total_files);
                append(&mut s, ")");
            },
            None => {
                if self.completion_percentage >= 100 {
                    append(&mut s, "Completed");
                } else {
                    append_decimal(&mut s, done);
                    append(&mut s, "/");
                    append_decimal(&mut s, self.total_files);
                    append(&mut s, " files processed");
                }
            },
        }
        assert(s@ =~= spec_status_text(*self));
        s
    }

    /// The remaining time as `"<s>s"`, `"<m>m <s>s"` or `"<h>h <m>m"`; `"Unknown"` without estimate.
    pub fn eta_text(&self) -> (r: String)
        ensures
            r@ == spec_eta_text(self.estimated_remaining),
    {
        let mut s = String::new();
        match self.estimated_remaining {
            Some(ms) => {
                let secs = ms / 1000;
                if secs < 60 {
                    append_decimal(&mut s, secs);
                    append(&mut s, "s");
                } else if secs < 3600 {
                    append_decimal(&mut s, secs / 60);
                    append(&mut s, "m ");
                    append_decimal(&mut s, secs % 60);
                    append(&mut s, "s");
                } else {
                    append_decimal(&mut s, secs / 3600);
                    append(&mut s, "h ");
                    append_decimal(&mut s, (secs % 3600) / 60);
                    append(&mut s, "m");
                }
            },
            None => append(&mut s, "Unknown"),
        }
        assert(s@ =~= spec_eta_text(self.estimated_remaining));
        s
    }

    /// `"<x.y> files/sec"` from one file per second on, `"<x.y> sec/file"` below,
    /// `"Unknown"` without throughput.
    pub fn speed_text(&self) -> (r: String)
        ensures
            r@ == spec_speed_text(self.files_per_second_milli as nat),
    {
        let m = self.files_per_second_milli;
        let mut s = String::new();
        if m >= 1000 {
            let t = round_div(m as u128, 100);
            assert(spec_round_div(m as nat, 100) <= u64::MAX) by (nonlinear_arith)
                requires m <= u64::MAX;
            append_tenths(&mut s, t);
            append(&mut s, " files/sec");
        } else if m > 0 {
            let t = round_div(10000, m as u128);
            assert(spec_round_div(10000, m as nat) <= 20000) by (nonlinear_arith)
                requires m >= 1;
            append_tenths(&mut s, t);
            append(&mut s, " sec/file");
        } else {
            append(&mut s, "Unknown");
        }
        assert(s@ =~= spec_speed_text(self.files_per_second_milli as nat));
        s
    }
}

pub open spec fn spec_throughput_text(m: ProgressMetrics) -> Seq<char> {
    spec_tenths(spec_round_div(m.bytes_per_second as nat * 10, 1048576)) + " MB/s, "@
        + spec_decimal(spec_round_div(m.pixels_per_second as nat, 1000000)) + " Mpx/s"@
}

pub open spec fn spec_average_size_text(size: nat) -> Seq<char> {
    if size >= 1048576 {
        spec_tenths(spec_round_div(size * 10, 1048576)) + " MB"@
    } else {
        spec_decimal(spec_round_div(size, 1024)) + " KB"@
    }
}

impl ProgressMetrics {
    /// `"<x.y> MB/s, <n> Mpx/s"` (mebibytes, millions of pixels, rounded).
    pub fn throughput_text(&self) -> (r: String)
        ensures
            r@ == spec_throughput_text(*self),
    {
        let mb = round_div((self.bytes_per_second as u128) * 10, 1048576);
        let mpx = round_div(self.pixels_per_second as u128, 1000000);
        assert(spec_round_div(self.bytes_per_second as nat * 10, 1048576) <= u64::MAX) by (nonlinear_arith)
            requires self.bytes_per_second <= u64::MAX;
        assert(spec_round_div(self.pixels_per_second as nat, 1000000) <= u64::MAX) by (nonlinear_arith)
            requires self.pixels_per_second <= u64::MAX;
        let mut s = String::new();
        append_tenths(&mut s, mb);
        append(&mut s, " MB/s, ");
        append_decimal(&mut s, mpx);
        append(&mut s, " Mpx/s");
        assert(s@ =~= spec_throughput_text(*self));
        s
    }

    /// `"<x.y> MB"` from one mebibyte on, else `"<n> KB"` (rounded).
    pub fn average_size_text(&self) -> (r: String)
        ensures
            r@ == spec_average_size_text(self.average_file_size as nat),
    {
        let size = self.average_file_size;
        let mut s = String::new();
        if size >= 1048576 {
            let t = round_div((size as u128) * 10, 1048576);
            assert(spec_round_div(size as nat * 10, 1048576) <= u64::MAX) by (nonlinear_arith)
                requires size <= u64::MAX;
            append_tenths(&mut s, t);
            append(&mut s, " MB");
        } else {
            let k = round_div(size as u128, 1024);
            assert(spec_round_div(size as nat, 1024) <= u64::MAX) by (nonlinear_arith)
                requires size <= u64::MAX;
            append_decimal(&mut s, k);
            append(&mut s, " KB");
        }
        assert(s@ =~= spec_average_size_text(self.average_file_size as nat));
        s
    }
}

} // verus!
