use vstd::prelude::*;
use std::time::{Duration, SystemTime};

verus! {

/// Sampling period, in seconds, of the rows written live by the collector.
pub const LIVE_SAMPLING_PERIOD_SECONDS: i64 = 1;

/// Sampling period, in seconds, of the hourly aggregates written by the purge.
pub const HOURLY_SAMPLING_PERIOD_SECONDS: i64 = 3600;

/// One hour in milliseconds.
pub const HOUR_MS: i64 = 3_600_000;

/// How many processes of one hourly bucket survive the aggregation.
pub const TOP_PROCESSES_PER_BUCKET: usize = 10;

/// Remainder of `t` divided by `m` as Rust's `%` computes it on signed integers:
/// it takes the sign of `t`.
pub open spec fn trunc_rem(t: int, m: int) -> int {
    if t >= 0 {
        t % m
    } else {
        -((-t) % m)
    }
}

/// `t` with its part after the last o'clock removed (towards zero).
pub open spec fn oclock_floor(t: int) -> int {
    t - trunc_rem(t, HOUR_MS as int)
}

/// The o'clock that follows the bucket in which `t` lies.
pub open spec fn next_oclock_spec(t: int) -> int {
    oclock_floor(t) + HOUR_MS
}

/// Returns the o'clock, in milliseconds, that follows `timestamp_millis`:
/// one hour after it when it is itself an o'clock.
pub fn next_oclock(timestamp_millis: i64) -> (r: i64)
    requires
        next_oclock_spec(timestamp_millis as int) <= i64::MAX,
    ensures
        r == next_oclock_spec(timestamp_millis as int),
{
    let ms_after_oclock = timestamp_millis % HOUR_MS;
    if ms_after_oclock == 0 {
        timestamp_millis + HOUR_MS
    } else {
        timestamp_millis - ms_after_oclock + HOUR_MS
    }
}

/// The last o'clock at or before `now_millis` (a time after the epoch).
pub fn timestamp_oclock(now_millis: i64) -> (r: i64)
    ensures
        r == oclock_floor(now_millis as int),
{
    let ms_after_oclock = now_millis % HOUR_MS;
    now_millis - ms_after_oclock
}

/// Calls `SystemTime::now`. The result depends on the clock, so nothing is claimed of it.
#[verifier::external_body]
fn system_now() -> (t: SystemTime) {
    SystemTime::now()
}

/// Calls `SystemTime::duration_since` with the Unix epoch: the time elapsed since the
/// epoch, `None` when `t` lies before it. Nothing is claimed of the value.
#[verifier::external_body]
fn since_epoch(t: &SystemTime) -> (d: Option<Duration>) {
    t.duration_since(std::time::UNIX_EPOCH).ok()
}

/// Calls `Duration::as_millis`: the whole milliseconds of `d`. A duration read from the
/// clock is opaque here, so nothing is claimed of the number.
#[verifier::external_body]
fn whole_millis(d: &Duration) -> (ms: u128) {
    d.as_millis()
}

/// Milliseconds since the Unix epoch (truncated to 64 bits), 0 when the clock stands
/// before the epoch.
fn epoch_millis() -> (r: i64) {
    let now = system_now();
    match since_epoch(&now) {
        Some(d) => {
            let ms = whole_millis(&d);
            ms as i64
        },
        None => 0,
    }
}

/// The current time floored to the o'clock.
pub fn get_timestamp_oclock() -> (r: i64)
    ensures
        trunc_rem(r as int, HOUR_MS as int) == 0,
{
    let now = epoch_millis();
    let r = timestamp_oclock(now);
    proof {
        lemma_oclock_floor_is_oclock(now as int);
    }
    r
}

/// The timestamp `duration_in_hours` hours before `oclock`.
pub fn hours_before(oclock: i64, duration_in_hours: i64) -> (r: i64)
    requires
        i64::MIN <= duration_in_hours * HOUR_MS <= i64::MAX,
        i64::MIN <= oclock - duration_in_hours * HOUR_MS <= i64::MAX,
    ensures
        r == oclock - duration_in_hours * HOUR_MS,
{
    oclock - duration_in_hours * HOUR_MS
}

/// The timestamp under which an hourly total is stored: the first bucket, which starts
/// at the oldest live sample, is moved back to its o'clock; the others already start
/// at one.
pub fn hourly_event_timestamp(bucket_start: i64, first_timestamp: i64) -> (r: i64)
    ensures
        r == (if bucket_start == first_timestamp {
            oclock_floor(bucket_start as int)
        } else {
            bucket_start as int
        }),
{
    if bucket_start == first_timestamp {
        bucket_start - (bucket_start % HOUR_MS)
    } else {
        bucket_start
    }
}

/// Rows grouped by consecutive equal bucket, keeping the first `limit` items of each
/// group (rows arrive ordered by bucket, then by decreasing energy).
pub open spec fn bucketed<T>(rows: Seq<(i64, T)>, limit: nat) -> Seq<(i64, Seq<T>)>
    decreases rows.len(),
{
    if rows.len() == 0 {
        seq![]
    } else {
        let prev = bucketed(rows.drop_last(), limit);
        let row = rows.last();
        if prev.len() == 0 || prev.last().0 != row.0 {
            prev.push((row.0, if limit > 0 { seq![row.1] } else { seq![] }))
        } else if prev.last().1.len() < limit {
            prev.update(prev.len() - 1, (row.0, prev.last().1.push(row.1)))
        } else {
            prev
        }
    }
}

/// The view of a list of buckets.
pub open spec fn bucket_views<T>(buckets: Seq<(i64, Vec<T>)>) -> Seq<(i64, Seq<T>)> {
    buckets.map_values(|b: (i64, Vec<T>)| (b.0, b.1@))
}

/// Groups `rows` by consecutive bucket and keeps at most `limit` rows per bucket.
pub fn keep_top_per_bucket<T>(rows: Vec<(i64, T)>, limit: usize) -> (buckets: Vec<(i64, Vec<T>)>)
    ensures
        bucket_views(buckets@) == bucketed(rows@, limit as nat),
{
    let ghost all = rows@;
    let mut buckets: Vec<(i64, Vec<T>)> = Vec::new();
    for row in it: rows.into_iter()
        invariant
            it.seq() == all,
            bucket_views(buckets@) == bucketed(all.take(it.index() as int), limit as nat),
    {
        let ghost before = buckets@;
        let ghost i = it.index();
        proof {
            assert(all.take(i + 1).drop_last() =~= all.take(i as int));
        }
        let (bucket, item) = row;
        let start_new = match buckets.last() {
            Some(last) => last.0 != bucket,
            None => true,
        };
        if start_new {
            let mut items: Vec<T> = Vec::new();
            if 0 < limit {
                items.push(item);
            }
            buckets.push((bucket, items));
            proof {
                assert(bucket_views(buckets@) =~= bucket_views(before).push((bucket, items@)));
            }
        } else {
            let (b, mut items) = buckets.pop().unwrap();
            if items.len() < limit {
                items.push(item);
            }
            buckets.push((b, items));
            proof {
                assert(bucket_views(buckets@) =~= bucket_views(before).update(
                    before.len() - 1,
                    (b, items@),
                ));
            }
        }
    }
    proof {
        assert(all.take(all.len() as int) =~= all);
    }
    buckets
}


/// The hourly bucket of a live total sampled at `t`: samples before the end of the
/// first bucket (`first_bucket_end`, the o'clock after the oldest sample) share the
/// oldest sample's timestamp `first_timestamp`; later ones go to their o'clock.
pub open spec fn total_bucket_spec(t: int, first_timestamp: int, first_bucket_end: int) -> int {
    if t < first_bucket_end {
        first_timestamp
    } else {
        oclock_floor(t)
    }
}

/// The hourly bucket of a live total sampled at `t`.
pub fn total_bucket_start(t: i64, first_timestamp: i64, first_bucket_end: i64) -> (b: i64)
    ensures
        b == total_bucket_spec(t as int, first_timestamp as int, first_bucket_end as int),
{
    if t < first_bucket_end {
        first_timestamp
    } else {
        t - (t % HOUR_MS)
    }
}

/// The query summing the live totals of the samples between `?1` (the oldest sample's
/// timestamp) and `?2` (the cutoff) taken every `?5` seconds, per bucket: the bucket of
/// a sample is `total_bucket_spec(timestamp, ?1, ?3)`, `?3` being the o'clock after the
/// oldest sample and `?4` an hour in milliseconds (SQLite's integer division, like
/// Rust's, rounds towards zero); buckets come in increasing order.
pub fn total_buckets_query() -> (q: &'static str)
    ensures
        q@ == "SELECT CASE WHEN t.timestamp < ?3 THEN ?1 ELSE (t.timestamp / ?4) * ?4 END AS bucket_start, SUM(d.total_energy_uj) AS total_energy FROM timestamp t JOIN total_data d ON t.id = d.timestamp_id WHERE t.timestamp >= ?1 AND t.timestamp < ?2 AND t.sampling_period = ?5 GROUP BY bucket_start ORDER BY bucket_start"@,
{
    "SELECT CASE WHEN t.timestamp < ?3 THEN ?1 ELSE (t.timestamp / ?4) * ?4 END AS bucket_start, SUM(d.total_energy_uj) AS total_energy FROM timestamp t JOIN total_data d ON t.id = d.timestamp_id WHERE t.timestamp >= ?1 AND t.timestamp < ?2 AND t.sampling_period = ?5 GROUP BY bucket_start ORDER BY bucket_start"
}

/// The query of the per-process sums of the live samples before `?1` taken every `?3`
/// seconds, per o'clock bucket (`?2` an hour in milliseconds, so the bucket of a sample
/// is `oclock_floor(timestamp)`) and application, ordered by bucket and then by
/// decreasing energy; `keep_top_per_bucket` then keeps the first rows of each bucket.
pub fn process_buckets_query() -> (q: &'static str)
    ensures
        q@ == "SELECT (t.timestamp / ?2) * ?2 AS bucket_start, p.app_name, MAX(p.process_exe_path) AS process_exe_path, SUM(COALESCE(p.process_energy_uj, 0)) AS process_energy_uj, SUM(COALESCE(p.process_cpu_usage, 0.0)) / MAX(1, COUNT(*)) AS process_cpu_usage, SUM(COALESCE(p.process_gpu_usage, 0.0)) / MAX(1, COUNT(*)) AS process_gpu_usage, SUM(COALESCE(p.process_mem_usage, 0.0)) / MAX(1, COUNT(*)) AS process_mem_usage, SUM(COALESCE(p.read_bytes, 0)) / MAX(1, COUNT(*)) AS read_bytes, SUM(COALESCE(p.written_bytes, 0)) / MAX(1, COUNT(*)) AS written_bytes, MAX(p.subprocess_count) AS subprocess_count FROM timestamp t JOIN process_data p ON t.id = p.timestamp_id WHERE t.sampling_period = ?3 AND t.timestamp < ?1 GROUP BY bucket_start, p.app_name ORDER BY bucket_start, process_energy_uj DESC"@,
{
    "SELECT (t.timestamp / ?2) * ?2 AS bucket_start, p.app_name, MAX(p.process_exe_path) AS process_exe_path, SUM(COALESCE(p.process_energy_uj, 0)) AS process_energy_uj, SUM(COALESCE(p.process_cpu_usage, 0.0)) / MAX(1, COUNT(*)) AS process_cpu_usage, SUM(COALESCE(p.process_gpu_usage, 0.0)) / MAX(1, COUNT(*)) AS process_gpu_usage, SUM(COALESCE(p.process_mem_usage, 0.0)) / MAX(1, COUNT(*)) AS process_mem_usage, SUM(COALESCE(p.read_bytes, 0)) / MAX(1, COUNT(*)) AS read_bytes, SUM(COALESCE(p.written_bytes, 0)) / MAX(1, COUNT(*)) AS written_bytes, MAX(p.subprocess_count) AS subprocess_count FROM timestamp t JOIN process_data p ON t.id = p.timestamp_id WHERE t.sampling_period = ?3 AND t.timestamp < ?1 GROUP BY bucket_start, p.app_name ORDER BY bucket_start, process_energy_uj DESC"
}

/// The hourly buckets of totals cover an hour at most and keep time order: a sample
/// lies at or after its bucket and less than an hour after it, a later sample never
/// falls in an earlier bucket, and every bucket but the first starts at an o'clock
/// after the first bucket's end.
pub proof fn law_total_buckets(first: int, t1: int, t2: int)
    requires
        0 <= first <= t1 <= t2,
    ensures
        ({
            let end = next_oclock_spec(first);
            let b1 = total_bucket_spec(t1, first, end);
            let b2 = total_bucket_spec(t2, first, end);
            &&& b1 <= t1 < b1 + HOUR_MS
            &&& b1 <= b2
            &&& (b1 == first || (trunc_rem(b1, HOUR_MS as int) == 0 && end <= b1))
        }),
{
    let h = HOUR_MS as int;
    law_next_oclock_bounds(first);
    lemma_oclock_floor_is_oclock(t1);
    lemma_oclock_floor_is_oclock(t2);
    let end = next_oclock_spec(first);
    assert(oclock_floor(t1) <= t1 < oclock_floor(t1) + h && oclock_floor(t1) == (t1 / h) * h) by (nonlinear_arith)
        requires
            h == 3_600_000,
            t1 >= 0,
            oclock_floor(t1) == t1 - t1 % h,
    ;
    assert(oclock_floor(t2) == (t2 / h) * h) by (nonlinear_arith)
        requires
            h == 3_600_000,
            t2 >= 0,
            oclock_floor(t2) == t2 - t2 % h,
    ;
    assert(end == (first / h + 1) * h) by (nonlinear_arith)
        requires
            h == 3_600_000,
            first >= 0,
            end == first - first % h + h,
    ;
    assert((t1 / h) * h <= (t2 / h) * h) by (nonlinear_arith)
        requires
            h == 3_600_000,
            0 <= t1 <= t2,
    ;
    if t1 >= end {
        assert((first / h + 1) * h <= (t1 / h) * h) by (nonlinear_arith)
            requires
                h == 3_600_000,
                (first / h + 1) * h <= t1,
                t1 >= 0,
        ;
    }
    if t2 >= end && t1 < end {
        assert(first <= (t2 / h) * h) by (nonlinear_arith)
            requires
                h == 3_600_000,
                (first / h + 1) * h <= t2,
                first >= 0,
        ;
    }
}

/// The o'clock after a timestamp lies strictly after it, at most one hour later, and is
/// itself an o'clock.
pub proof fn law_next_oclock_bounds(t: int)
    requires
        t >= 0,
    ensures
        t < next_oclock_spec(t) <= t + HOUR_MS,
        trunc_rem(next_oclock_spec(t), HOUR_MS as int) == 0,
{
    let h = HOUR_MS as int;
    assert(0 <= t % h < h) by (nonlinear_arith)
        requires
            h == 3_600_000,
    ;
    assert(next_oclock_spec(t) == (t / h + 1) * h) by (nonlinear_arith)
        requires
            h == 3_600_000,
            t >= 0,
            next_oclock_spec(t) == t - t % h + h,
    ;
    assert(((t / h + 1) * h) % h == 0) by (nonlinear_arith)
        requires
            h == 3_600_000,
    ;
}

/// Bucket keys of a row list are sorted in increasing order (ties allowed).
pub open spec fn rows_sorted<T>(rows: Seq<(i64, T)>) -> bool {
    forall|i: int, j: int| 0 <= i <= j < rows.len() ==> rows[i].0 <= rows[j].0
}

/// Grouping keeps at most `limit` items per bucket, never leaves a bucket empty when
/// `limit` is positive, never puts two neighbouring groups under one bucket, and turns
/// rows sorted by bucket into strictly increasing buckets.
pub proof fn law_bucketed_shape<T>(rows: Seq<(i64, T)>, limit: nat)
    ensures
        ({
            let out = bucketed(rows, limit);
            &&& out.len() <= rows.len()
            &&& (rows.len() > 0 ==> out.len() > 0 && out.last().0 == rows.last().0)
            &&& forall|i: int| 0 <= i < out.len() ==> #[trigger] out[i].1.len() <= limit
            &&& limit > 0 ==> forall|i: int| 0 <= i < out.len() ==> #[trigger] out[i].1.len() > 0
            &&& forall|i: int| 0 < i < out.len() ==> #[trigger] out[i].0 != out[i - 1].0
            &&& rows_sorted(rows) ==> forall|i: int, j: int|
                0 <= i < j < out.len() ==> #[trigger] out[i].0 < #[trigger] out[j].0
        }),
    decreases rows.len(),
{
    if rows.len() > 0 {
        let prefix = rows.drop_last();
        law_bucketed_shape(prefix, limit);
        if rows_sorted(rows) {
            assert(rows_sorted(prefix));
            if prefix.len() > 0 {
                assert(prefix.last() == rows[rows.len() - 2]);
            }
        }
    }
}

/// The message logged when a purge step fails, `None` when it succeeded.
pub fn log_step(label: &str, result: Result<(), String>) -> (msg: Option<String>)
    ensures
        match result {
            Ok(()) => msg is None,
            Err(e) => msg matches Some(m) && m@ == "✗ "@ + label@ + " failed: "@ + e@,
        },
{
    match result {
        Ok(()) => None,
        Err(e) => {
            let mut m = String::from_str("✗ ");
            m.append(label);
            m.append(" failed: ");
            m.append(e.as_str());
            Some(m)
        },
    }
}

/// The schema version the database is migrated to.
pub const DATABASE_TARGET_VERSION: i32 = 2;

/// What a migration from schema `version` does.
#[derive(Debug, Clone, Copy, PartialEq, Eq)]
pub struct MigrationPlan {
    /// Whether anything is done at all (in one transaction that ends by setting the
    /// schema version to the target).
    pub migrate: bool,
    /// Whether the tables are rewritten from the first schema to the second.
    pub v1_to_v2: bool,
}

/// The migration of a database at schema `version`: nothing once at the target
/// version, the first-to-second rewrite below version 2.
pub fn migration_plan(version: i32) -> (p: MigrationPlan)
    ensures
        p.migrate == (version < DATABASE_TARGET_VERSION),
        p.v1_to_v2 == (version < DATABASE_TARGET_VERSION && version < 2),
{
    if version >= DATABASE_TARGET_VERSION {
        MigrationPlan { migrate: false, v1_to_v2: false }
    } else {
        MigrationPlan { migrate: true, v1_to_v2: version < 2 }
    }
}

/// Flooring a timestamp to its o'clock gives an o'clock.
pub proof fn lemma_oclock_floor_is_oclock(t: int)
    ensures
        trunc_rem(oclock_floor(t), HOUR_MS as int) == 0,
{
    let h = HOUR_MS as int;
    if t >= 0 {
        assert(oclock_floor(t) == (t / h) * h) by (nonlinear_arith)
            requires
                h == 3_600_000,
                t >= 0,
                oclock_floor(t) == t - t % h,
        ;
        assert(((t / h) * h) % h == 0) by (nonlinear_arith)
            requires
                h == 3_600_000,
        ;
    } else {
        let u = -t;
        assert(oclock_floor(t) == -((u / h) * h)) by (nonlinear_arith)
            requires
                h == 3_600_000,
                u > 0,
                t == -u,
                oclock_floor(t) == t + u % h,
        ;
        assert(((u / h) * h) % h == 0) by (nonlinear_arith)
            requires
                h == 3_600_000,
        ;
    }
}

} // verus!
