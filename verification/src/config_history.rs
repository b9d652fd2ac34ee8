//! Bounded history of configuration versions, as a configuration manager
//! keeps it: new versions are appended, the oldest are dropped when the
//! limits on entries or bytes are passed, and one entry always stays.

use vstd::prelude::*;
use crate::config::{ConfigChangeType, ConfigManagerOptions, ConfigMetrics};
use crate::dynamic_config::DynamicConfig;
use crate::text::{concat2, u64_to_decimal, decimal};
use crate::versioning::{ConfigHistoryEntry, EntryStamp};

verus! {

/// The bytes of all entries, summed.
pub open spec fn total_size(h: Seq<ConfigHistoryEntry>) -> int
    decreases h.len(),
{
    if h.len() == 0 {
        0
    } else {
        total_size(h.drop_last()) + h.last().size_bytes
    }
}

/// How many of the oldest entries are dropped before a new one is appended
/// to a history of `len` entries: while the history has at least the maximum
/// number of entries, or the bytes with the new entry pass the maximum, the
/// oldest goes, but one always stays.
pub open spec fn drop_before_add(len: int, over_memory: bool, max_entries: usize) -> int {
    if len <= 1 {
        0
    } else if over_memory {
        len - 1
    } else if max_entries > 0 && len >= max_entries {
        if max_entries >= 2 { len - max_entries + 1 } else { len - 1 }
    } else {
        0
    }
}

/// Whether the bytes of `h` together with `extra` pass the byte limit.
pub open spec fn over_memory(h: Seq<ConfigHistoryEntry>, extra: int, max_bytes: usize) -> bool {
    max_bytes > 0 && total_size(h) + extra > max_bytes
}

/// The version identifier given to the entry appended to a history of `len`
/// entries.
pub open spec fn version_label(len: nat) -> Seq<char> {
    "v"@ + decimal(len)
}

/// The history after appending `entry`.
pub open spec fn history_after_add(h: Seq<ConfigHistoryEntry>, entry: ConfigHistoryEntry, o: ConfigManagerOptions) -> Seq<ConfigHistoryEntry> {
    h.skip(drop_before_add(h.len() as int, over_memory(h, entry.size_bytes as int, o.max_history_memory_bytes), o.max_history_entries)).push(entry)
}

/// The history after cleanup: while it holds more than the maximum number
/// of entries or more than the maximum bytes, the oldest entry goes, but one
/// always stays.
pub open spec fn cleaned(h: Seq<ConfigHistoryEntry>, max_entries: usize, max_bytes: usize) -> Seq<ConfigHistoryEntry>
    decreases h.len(),
{
    if h.len() > 1 && ((max_entries > 0 && h.len() > max_entries) || over_memory(h, 0, max_bytes)) {
        cleaned(h.drop_first(), max_entries, max_bytes)
    } else {
        h
    }
}

proof fn lemma_total_size_nonneg(h: Seq<ConfigHistoryEntry>)
    ensures
        total_size(h) >= 0,
    decreases h.len(),
{
    if h.len() > 0 {
        lemma_total_size_nonneg(h.drop_last());
    }
}

proof fn lemma_total_size_push(h: Seq<ConfigHistoryEntry>, e: ConfigHistoryEntry)
    ensures
        total_size(h.push(e)) == total_size(h) + e.size_bytes,
{
    assert(h.push(e).drop_last() =~= h);
}

/// Dropping the first entry removes its bytes from the total.
proof fn lemma_total_size_drop_first(h: Seq<ConfigHistoryEntry>)
    requires
        h.len() > 0,
    ensures
        total_size(h) == h[0].size_bytes + total_size(h.drop_first()),
    decreases h.len(),
{
    if h.len() == 1 {
        assert(h.drop_first() =~= Seq::<ConfigHistoryEntry>::empty());
        assert(h.drop_last() =~= Seq::<ConfigHistoryEntry>::empty());
    } else {
        lemma_total_size_drop_first(h.drop_last());
        assert(h.drop_last().drop_first() =~= h.drop_first().drop_last());
        assert(h.drop_first().last() == h.last());
    }
}

/// A suffix holds at most the bytes of the whole.
proof fn lemma_total_size_skip(h: Seq<ConfigHistoryEntry>, n: int)
    requires
        0 <= n <= h.len(),
    ensures
        total_size(h.skip(n)) <= total_size(h),
    decreases n,
{
    if n > 0 {
        lemma_total_size_drop_first(h);
        lemma_total_size_skip(h.drop_first(), n - 1);
        assert(h.drop_first().skip(n - 1) =~= h.skip(n));
        lemma_total_size_nonneg(h.drop_first());
    } else {
        assert(h.skip(0) =~= h);
    }
}

/// The bytes of all entries, summed; the sum fits a `usize`.
pub fn sum_sizes(h: &Vec<ConfigHistoryEntry>) -> (r: usize)
    requires
        total_size(h@) <= usize::MAX,
    ensures
        r == total_size(h@),
{
    let mut sum: usize = 0;
    let mut i: usize = 0;
    while i < h.len()
        invariant
            i <= h@.len(),
            sum == total_size(h@.take(i as int)),
            total_size(h@) <= usize::MAX,
        decreases h@.len() - i,
    {
        proof {
            assert(h@.take(i + 1).drop_last() =~= h@.take(i as int));
            lemma_total_size_skip_take(h@, i as int + 1);
        }
        sum = sum + h[i].size_bytes;
        i = i + 1;
    }
    proof { assert(h@.take(h@.len() as int) =~= h@); }
    sum
}

/// A prefix holds at most the bytes of the whole.
proof fn lemma_total_size_skip_take(h: Seq<ConfigHistoryEntry>, n: int)
    requires
        0 <= n <= h.len(),
    ensures
        total_size(h.take(n)) <= total_size(h),
    decreases h.len() - n,
{
    if n < h.len() {
        lemma_total_size_skip_take(h, n + 1);
        assert(h.take(n + 1).drop_last() =~= h.take(n));
    } else {
        assert(h.take(n) =~= h);
    }
}

/// Appends a new version of the configuration to the history, first
/// dropping the oldest entries as [`drop_before_add`] says, and stores the
/// history size and bytes in the metrics. The version identifier is `v`
/// followed by the number of entries before the drop.
pub fn add_to_history(
    history: &mut Vec<ConfigHistoryEntry>,
    config: DynamicConfig,
    change_type: ConfigChangeType,
    stamp: EntryStamp,
    options: &ConfigManagerOptions,
    metrics: &mut ConfigMetrics,
)
    requires
        total_size(old(history)@) + stamp.size_bytes <= usize::MAX,
    ensures
        final(history)@ == history_after_add(old(history)@, final(history)@.last(), *options),
        final(history)@.last().version_id@ == version_label(old(history)@.len()),
        final(history)@.last().config == config,
        final(history)@.last().change_type == change_type,
        final(history)@.last().timestamp == stamp.timestamp,
        final(history)@.last().config_hash == stamp.config_hash,
        final(history)@.last().size_bytes == stamp.size_bytes,
        final(history)@.last().delta is None,
        *final(metrics) == (ConfigMetrics {
            history_entries: final(history)@.len() as usize,
            history_memory_bytes: total_size(final(history)@) as usize,
            ..*old(metrics)
        }),
{
    let ghost h0 = history@;
    let len = history.len();
    let version_id = concat2("v", u64_to_decimal(len as u64).as_str());
    proof { reveal_strlit("v"); }
    let new_entry = ConfigHistoryEntry::from_config(config, change_type, version_id, stamp);
    let current_memory = sum_sizes(history);
    let new_memory = current_memory + new_entry.size_bytes;
    let over = options.max_history_memory_bytes > 0 && new_memory > options.max_history_memory_bytes;
    let ghost d = drop_before_add(h0.len() as int, over, options.max_history_entries);
    let mut removed: usize = 0;
    while (options.max_history_entries > 0 && history.len() >= options.max_history_entries) || over
        invariant
            history@ == h0.skip(removed as int),
            removed <= d,
            d == drop_before_add(h0.len() as int, over, options.max_history_entries),
            d <= h0.len(),
            h0.len() == len,
        ensures
            history@ == h0.skip(d),
        decreases history@.len(),
    {
        if history.len() <= 1 {
            break;
        }
        history.remove(0);
        proof { assert(h0.skip(removed as int).remove(0) =~= h0.skip(removed + 1)); }
        removed = removed + 1;
    }
    proof {
        assert(over == over_memory(h0, stamp.size_bytes as int, options.max_history_memory_bytes));
        lemma_total_size_skip(h0, d);
    }
    let ghost kept = history@;
    history.push(new_entry);
    proof {
        lemma_total_size_push(kept, history@.last());
        lemma_total_size_nonneg(kept);
    }
    let total = sum_sizes(history);
    metrics.update_history_stats(history.len(), total);
}

/// Cleans the history as [`cleaned`] says, and stores the history size and
/// bytes in the metrics when entries were dropped.
pub fn cleanup_history(history: &mut Vec<ConfigHistoryEntry>, options: &ConfigManagerOptions, metrics: &mut ConfigMetrics)
    requires
        total_size(old(history)@) <= usize::MAX,
    ensures
        final(history)@ == cleaned(old(history)@, options.max_history_entries, options.max_history_memory_bytes),
        final(history)@.len() == old(history)@.len() ==> *final(metrics) == *old(metrics),
        final(history)@.len() != old(history)@.len() ==> *final(metrics) == (ConfigMetrics {
            history_entries: final(history)@.len() as usize,
            history_memory_bytes: total_size(final(history)@) as usize,
            ..*old(metrics)
        }),
{
    let ghost h0 = history@;
    let me = options.max_history_entries;
    let mb = options.max_history_memory_bytes;
    let initial_count = history.len();
    loop
        invariant
            cleaned(history@, me, mb) == cleaned(h0, me, mb),
            total_size(history@) <= total_size(h0),
            total_size(h0) <= usize::MAX,
            history@.len() <= h0.len(),
        ensures
            history@ == cleaned(h0, me, mb),
        decreases history@.len(),
    {
        let total = sum_sizes(history);
        let too_many = me > 0 && history.len() > me;
        let too_big = mb > 0 && total > mb;
        if !(too_many || too_big) || history.len() <= 1 {
            break;
        }
        let ghost before = history@;
        proof { lemma_total_size_drop_first(before); }
        history.remove(0);
        proof {
            assert(before.remove(0) =~= before.drop_first());
            lemma_total_size_nonneg(before.drop_first());
        }
    }
    if history.len() != initial_count {
        let total = sum_sizes(history);
        metrics.update_history_stats(history.len(), total);
    }
}

/// After cleanup one entry at least stays when there was one, and either one
/// entry is left or the history is within both limits; what stays is the
/// newest part of the history.
pub proof fn law_cleaned_within_limits(h: Seq<ConfigHistoryEntry>, max_entries: usize, max_bytes: usize)
    ensures
        h.len() > 0 ==> cleaned(h, max_entries, max_bytes).len() > 0,
        cleaned(h, max_entries, max_bytes).len() <= 1 || (
            (max_entries == 0 || cleaned(h, max_entries, max_bytes).len() <= max_entries)
            && (max_bytes == 0 || total_size(cleaned(h, max_entries, max_bytes)) <= max_bytes)
        ),
        exists|n: int| 0 <= n <= h.len() && cleaned(h, max_entries, max_bytes) == h.skip(n),
    decreases h.len(),
{
    if h.len() > 1 && ((max_entries > 0 && h.len() > max_entries) || over_memory(h, 0, max_bytes)) {
        law_cleaned_within_limits(h.drop_first(), max_entries, max_bytes);
        let n = choose|n: int| 0 <= n <= h.drop_first().len()
            && cleaned(h.drop_first(), max_entries, max_bytes) == h.drop_first().skip(n);
        assert(h.drop_first().skip(n) =~= h.skip(n + 1));
    } else {
        assert(h.skip(0) =~= h);
    }
}

/// Appending keeps the new entry as the newest, and leaves at most the
/// maximum number of entries, or two when the maximum is below two.
pub proof fn law_add_keeps_newest(h: Seq<ConfigHistoryEntry>, entry: ConfigHistoryEntry, o: ConfigManagerOptions)
    ensures
        history_after_add(h, entry, o).last() == entry,
        history_after_add(h, entry, o).len() >= 1,
        o.max_history_entries > 0 && h.len() >= 1 ==> history_after_add(h, entry, o).len() <= if o.max_history_entries >= 2 { o.max_history_entries as int } else { 2 },
{
}


/// Appending adds at most the new entry's bytes to the history.
pub proof fn lemma_add_bytes(h: Seq<ConfigHistoryEntry>, entry: ConfigHistoryEntry, o: ConfigManagerOptions)
    ensures
        total_size(history_after_add(h, entry, o)) <= total_size(h) + entry.size_bytes,
{
    let d = drop_before_add(h.len() as int, over_memory(h, entry.size_bytes as int, o.max_history_memory_bytes), o.max_history_entries);
    lemma_total_size_skip(h, d);
    lemma_total_size_push(h.skip(d), entry);
}

/// Cleaning never adds bytes.
pub proof fn lemma_cleaned_bytes(h: Seq<ConfigHistoryEntry>, max_entries: usize, max_bytes: usize)
    ensures
        total_size(cleaned(h, max_entries, max_bytes)) <= total_size(h),
{
    law_cleaned_within_limits(h, max_entries, max_bytes);
    let n = choose|n: int| 0 <= n <= h.len() && cleaned(h, max_entries, max_bytes) == h.skip(n);
    lemma_total_size_skip(h, n);
}

} // verus!
