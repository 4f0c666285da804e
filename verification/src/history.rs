//! Transcription history records and their retention window.
//!
//! Storage (one JSON record per line) is done by the caller; this module
//! decides which records are kept and in what order they are listed.

use vstd::prelude::*;

verus! {

broadcast use vstd::string::group_string_axioms;

/// `0` means keep history forever.
pub const RETENTION_FOREVER: u32 = 0;

pub const DEFAULT_RETENTION_DAYS: u32 = 30;

pub const SECONDS_PER_DAY: i64 = 86_400;

#[derive(Debug)]
pub struct HistoryEntry {
    pub id: String,
    pub created_at: i64,
    pub text: String,
    pub engine: String,
    pub language: String,
    pub duration_ms: u64,
}

/// The entries created at or after `cutoff`, in their stored order.
pub open spec fn kept_since(entries: Seq<HistoryEntry>, cutoff: int) -> Seq<HistoryEntry>
    decreases entries.len(),
{
    if entries.len() == 0 {
        entries
    } else if entries.last().created_at >= cutoff {
        kept_since(entries.drop_last(), cutoff).push(entries.last())
    } else {
        kept_since(entries.drop_last(), cutoff)
    }
}

/// Oldest creation time still inside a window of `days` days ending at `now`.
pub open spec fn cutoff_for(now: int, days: u32) -> int {
    now - days * SECONDS_PER_DAY
}

/// The entries a retention window of `days` keeps at time `now`.
pub open spec fn retained(entries: Seq<HistoryEntry>, days: u32, now: int) -> Seq<HistoryEntry> {
    if days == RETENTION_FOREVER {
        entries
    } else {
        kept_since(entries, cutoff_for(now, days))
    }
}

/// Keeps the entries created at or after `cutoff`, in order.
pub fn retain_since(entries: &mut Vec<HistoryEntry>, cutoff: i64)
    ensures
        final(entries)@ == kept_since(old(entries)@, cutoff as int),
{
    let mut rest: Vec<HistoryEntry> = Vec::new();
    std::mem::swap(entries, &mut rest);
    let ghost all = rest@;
    let ghost mut done: int = 0;
    while rest.len() > 0
        invariant
            0 <= done <= all.len(),
            rest@ == all.skip(done),
            entries@ == kept_since(all.take(done), cutoff as int),
        decreases rest@.len(),
    {
        let e = rest.remove(0);
        proof {
            assert(all.take(done + 1).drop_last() =~= all.take(done));
            assert(all.take(done + 1).last() == e);
        }
        if e.created_at >= cutoff {
            entries.push(e);
        }
        proof {
            done = done + 1;
            assert(rest@ =~= all.skip(done));
        }
    }
    assert(all.take(done) =~= all);
}

/// Applies a retention window of `retention_days` days ending at `now`
/// (`RETENTION_FOREVER` keeps everything).
pub fn apply_retention_at(entries: &mut Vec<HistoryEntry>, retention_days: u32, now: i64)
    requires
        retention_days == RETENTION_FOREVER || cutoff_for(now as int, retention_days) >= i64::MIN,
    ensures
        final(entries)@ == retained(old(entries)@, retention_days, now as int),
{
    if retention_days == RETENTION_FOREVER {
        return ;
    }
    let cutoff: i64 = now - (retention_days as i64) * SECONDS_PER_DAY;
    retain_since(entries, cutoff);
}

#[verifier::external_type_specification]
#[verifier::external_body]
pub struct ExSystemTime(std::time::SystemTime);

/// Calls `std::time::SystemTime::now`: the system clock's reading, of which
/// nothing is stated.
#[verifier::external_body]
fn clock_now() -> (r: std::time::SystemTime) {
    std::time::SystemTime::now()
}

/// Calls `SystemTime::duration_since` with `UNIX_EPOCH`. std returns an
/// error, and does not panic, for a clock set before the epoch; that error
/// becomes `None`. How long the duration is, nothing here states.
#[verifier::external_body]
fn since_unix_epoch(t: &std::time::SystemTime) -> (r: Option<core::time::Duration>) {
    match t.duration_since(std::time::UNIX_EPOCH) {
        Ok(d) => Some(d),
        Err(_) => None,
    }
}

/// Calls `Duration::as_secs`: the whole seconds of `d`, of which nothing is
/// stated here.
#[verifier::external_body]
fn whole_seconds(d: &core::time::Duration) -> (r: u64) {
    d.as_secs()
}

/// The current time as whole seconds since the Unix epoch; `None` where the
/// clock reads before the epoch or past what an `i64` holds.
pub fn current_unix_seconds() -> (r: Option<i64>)
    ensures
        r matches Some(t) ==> t >= 0,
{
    let now = clock_now();
    match since_unix_epoch(&now) {
        Some(d) => {
            let secs = whole_seconds(&d);
            if secs <= i64::MAX as u64 {
                Some(secs as i64)
            } else {
                None
            }
        },
        None => None,
    }
}

/// Applies a retention window of `retention_days` days ending now; without a
/// usable clock reading the entries are left as they are.
pub fn apply_retention(entries: &mut Vec<HistoryEntry>, retention_days: u32)
    ensures
        final(entries)@ == old(entries)@ || exists|now: i64|
            now >= 0 && final(entries)@ == retained(old(entries)@, retention_days, now as int),
{
    match current_unix_seconds() {
        Some(now) => apply_retention_at(entries, retention_days, now),
        None => {},
    }
}

/// `entries` from newest (last stored) to oldest.
pub fn newest_first(entries: Vec<HistoryEntry>) -> (r: Vec<HistoryEntry>)
    ensures
        r@ == entries@.reverse(),
{
    let mut rest = entries;
    let ghost all = rest@;
    let mut out: Vec<HistoryEntry> = Vec::new();
    while rest.len() > 0
        invariant
            rest@ == all.take(rest@.len() as int),
            rest@.len() <= all.len(),
            out@ == all.skip(rest@.len() as int).reverse(),
        decreases rest@.len(),
    {
        let ghost n = rest@.len();
        let e = rest.pop().unwrap();
        out.push(e);
        assert(out@ =~= all.skip(n - 1).reverse());
        assert(rest@ =~= all.take(n - 1));
    }
    assert(all.skip(0) =~= all);
    out
}

/// What listing the stored entries at time `now` shows (newest first), and
/// whether retention dropped any so that the store must be rewritten.
pub fn list(stored: Vec<HistoryEntry>, retention_days: u32, now: i64) -> (r: (
    Vec<HistoryEntry>,
    bool,
))
    requires
        retention_days == RETENTION_FOREVER || cutoff_for(now as int, retention_days) >= i64::MIN,
    ensures
        r.0@ == retained(stored@, retention_days, now as int).reverse(),
        r.1 == (retained(stored@, retention_days, now as int).len() != stored@.len()),
{
    let before: usize = stored.len();
    let mut entries = stored;
    apply_retention_at(&mut entries, retention_days, now);
    let changed = entries.len() != before;
    (newest_first(entries), changed)
}

/// Retention never adds, reorders or invents entries: the kept entries are
/// exactly the stored entries created at or after the cutoff, in order.
pub proof fn lemma_retention_keeps_recent(entries: Seq<HistoryEntry>, cutoff: int)
    ensures
        kept_since(entries, cutoff).len() <= entries.len(),
        forall|i: int|
            0 <= i < kept_since(entries, cutoff).len() ==> #[trigger] kept_since(
                entries,
                cutoff,
            )[i].created_at >= cutoff,
        forall|e: HistoryEntry|
            kept_since(entries, cutoff).contains(e) <==> (entries.contains(e) && e.created_at
                >= cutoff),
    decreases entries.len(),
{
    if entries.len() > 0 {
        let rest = entries.drop_last();
        lemma_retention_keeps_recent(rest, cutoff);
        let k = kept_since(rest, cutoff);
        assert(rest.push(entries.last()) =~= entries);
        assert forall|e: HistoryEntry|
            kept_since(entries, cutoff).contains(e) <==> (entries.contains(e) && e.created_at
                >= cutoff) by {
            vstd::seq_lib::lemma_seq_contains_after_push(rest, entries.last(), e);
            vstd::seq_lib::lemma_seq_contains_after_push(k, entries.last(), e);
        }
        if entries.last().created_at >= cutoff {
            assert forall|i: int|
                0 <= i < kept_since(entries, cutoff).len() implies #[trigger] kept_since(
                entries,
                cutoff,
            )[i].created_at >= cutoff by {
                if i < k.len() {
                    assert(kept_since(entries, cutoff)[i] == k[i]);
                }
            }
        }
    }
}

/// A window that keeps everything leaves the entries unchanged, and
/// applying the same window twice is the same as applying it once.
pub proof fn lemma_retention_idempotent(entries: Seq<HistoryEntry>, days: u32, now: int)
    ensures
        retained(entries, RETENTION_FOREVER, now) == entries,
        retained(retained(entries, days, now), days, now) == retained(entries, days, now),
{
    if days != RETENTION_FOREVER {
        lemma_kept_twice(entries, cutoff_for(now, days));
    }
}

proof fn lemma_kept_twice(entries: Seq<HistoryEntry>, cutoff: int)
    ensures
        kept_since(kept_since(entries, cutoff), cutoff) == kept_since(entries, cutoff),
    decreases entries.len(),
{
    if entries.len() > 0 {
        let rest = entries.drop_last();
        lemma_kept_twice(rest, cutoff);
        let k = kept_since(rest, cutoff);
        if entries.last().created_at >= cutoff {
            assert(k.push(entries.last()).drop_last() =~= k);
        }
    }
}

/// The record appended for a finished transcription at `now_secs`: its id
/// is the time in milliseconds, `-`, and the number of records kept before
/// it.
pub fn new_entry(
    text: String,
    engine: &str,
    language: &str,
    duration_ms: u64,
    now_millis: u64,
    now_secs: i64,
    kept: u64,
) -> (r: HistoryEntry)
    ensures
        r.id@ == crate::remote::decimal(now_millis as nat) + "-"@ + crate::remote::decimal(
            kept as nat,
        ),
        r.created_at == now_secs,
        r.text == text,
        r.engine@ == engine@,
        r.language@ == language@,
        r.duration_ms == duration_ms,
{
    let mut id = crate::remote::decimal_string(now_millis);
    crate::text::push_str(&mut id, "-");
    let count = crate::remote::decimal_string(kept);
    crate::text::push_str(&mut id, count.as_str());
    HistoryEntry {
        id,
        created_at: now_secs,
        text,
        engine: engine.to_string(),
        language: language.to_string(),
        duration_ms,
    }
}

/// Keeping the entries created at or after `cutoff` is filtering them.
proof fn lemma_kept_since_is_a_filter(entries: Seq<HistoryEntry>, cutoff: int)
    ensures
        kept_since(entries, cutoff) == entries.filter(|e: HistoryEntry| e.created_at >= cutoff),
    decreases entries.len(),
{
    reveal(Seq::filter);
    if entries.len() > 0 {
        lemma_kept_since_is_a_filter(entries.drop_last(), cutoff);
    }
}

/// A retention window of `days` days at time `now` keeps, in their stored
/// order, exactly the entries created no more than `days` × 86 400 seconds
/// before `now`; `RETENTION_FOREVER` (zero) keeps every entry.
pub proof fn lemma_retention_window_in_seconds(entries: Seq<HistoryEntry>, days: u32, now: int)
    ensures
        days == 0 ==> retained(entries, days, now) == entries,
        days > 0 ==> retained(entries, days, now) == entries.filter(
            |e: HistoryEntry| e.created_at + days * 86_400 >= now,
        ),
{
    lemma_kept_since_is_a_filter(entries, now - days * 86_400);
    let by_cutoff = |e: HistoryEntry| e.created_at >= now - days * 86_400;
    let by_age = |e: HistoryEntry| e.created_at + days * 86_400 >= now;
    assert(by_cutoff =~= by_age);
}

} // verus!
