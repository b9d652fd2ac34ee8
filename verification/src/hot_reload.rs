//! Decisions of hot reloading: when a burst of source events has settled
//! long enough to reload, and what a reload did.
//!
//! Watching the sources, waiting and calling back happen outside the
//! library; it reports each event or timeout here and performs the action
//! that comes back. Times are nanoseconds on a monotonic clock.

use vstd::prelude::*;
use crate::config::HotReloadMetrics;
use crate::dynamic_config::{
    DynamicConfig, DynamicConfigBuilder, DynamicConfigView, default_dynamic_config, overlaid_view, NANOS_PER_SECOND,
};
use crate::error::Error;
use crate::text::owned;

verus! {

/// What the watcher observed while waiting.
#[derive(Debug, Clone, Copy, PartialEq, Eq, Structural)]
pub enum WatchEvent {
    /// A source reported a change.
    SourceEvent,
    /// The event channel closed.
    ChannelClosed,
    /// The debounce interval passed without an event.
    Timeout,
}

/// What the watcher does next.
#[derive(Debug, Clone, Copy, PartialEq, Eq, Structural)]
pub enum WatchAction {
    /// Keep waiting.
    Wait,
    /// Load and merge the configurations now.
    Reload,
    /// Stop watching.
    Stop,
}

/// Debouncing of source events: whether a change waits to be loaded, and
/// when the last event came.
#[derive(Debug, Clone, Copy, PartialEq, Eq, Structural)]
pub struct DebounceState {
    /// Whether a change waits to be loaded.
    pub pending_update: bool,
    /// Time of the last event.
    pub last_update: u128,
}

/// The time from `earlier` to `now`, zero when `now` is earlier.
pub open spec fn elapsed(earlier: u128, now: u128) -> int {
    if now >= earlier { now - earlier } else { 0 }
}

/// The state and action after `event` at `now`: an event marks a change as
/// pending and restarts the quiet period; a closed channel stops; a timeout
/// reloads when a change is pending and the quiet period lasted at least
/// `debounce`.
pub open spec fn debounce_step(s: DebounceState, event: WatchEvent, now: u128, debounce: u128) -> (DebounceState, WatchAction) {
    match event {
        WatchEvent::SourceEvent => (DebounceState { pending_update: true, last_update: now }, WatchAction::Wait),
        WatchEvent::ChannelClosed => (s, WatchAction::Stop),
        WatchEvent::Timeout => if s.pending_update && elapsed(s.last_update, now) >= debounce {
            (DebounceState { pending_update: false, ..s }, WatchAction::Reload)
        } else {
            (s, WatchAction::Wait)
        },
    }
}

impl DebounceState {
    /// Nothing pending; the quiet period starts at `now`.
    pub fn new(now: u128) -> (r: Self)
        ensures
            r == (DebounceState { pending_update: false, last_update: now }),
    {
        DebounceState { pending_update: false, last_update: now }
    }

    /// Takes in what the watcher observed: see [`debounce_step`].
    pub fn on_event(&mut self, event: WatchEvent, now: u128, debounce: u128) -> (r: WatchAction)
        ensures
            (*final(self), r) == debounce_step(*old(self), event, now, debounce),
    {
        match event {
            WatchEvent::SourceEvent => {
                self.pending_update = true;
                self.last_update = now;
                WatchAction::Wait
            },
            WatchEvent::ChannelClosed => WatchAction::Stop,
            WatchEvent::Timeout => {
                let quiet = if now >= self.last_update { now - self.last_update } else { 0 };
                if self.pending_update && quiet >= debounce {
                    self.pending_update = false;
                    WatchAction::Reload
                } else {
                    WatchAction::Wait
                }
            },
        }
    }
}

/// A reload only follows a pending change after a quiet period of at least
/// the debounce interval, and a burst of events is loaded once: right after
/// a reload nothing is pending, so the next timeout only waits.
pub proof fn law_reload_once_per_burst(s: DebounceState, t1: u128, t2: u128, debounce: u128)
    ensures
        debounce_step(s, WatchEvent::Timeout, t1, debounce).1 == WatchAction::Reload
            ==> s.pending_update && elapsed(s.last_update, t1) >= debounce,
        debounce_step(s, WatchEvent::Timeout, t1, debounce).1 == WatchAction::Reload
            ==> debounce_step(debounce_step(s, WatchEvent::Timeout, t1, debounce).0, WatchEvent::Timeout, t2, debounce).1
                == WatchAction::Wait,
        forall|e: WatchEvent, t: u128| debounce_step(s, e, t, debounce).1 == WatchAction::Reload ==> e == WatchEvent::Timeout,
{
}

/// How events are debounced: a source event marks a change as pending and
/// waits; a closed channel stops, whatever is pending; a timeout reloads
/// exactly when a change is pending and the last event is at least the
/// debounce interval old (a clock that went back counts as no time), which
/// clears the pending change; otherwise it
/// waits and nothing changes.
pub proof fn law_debounce_rules(s: DebounceState, event: WatchEvent, now: u128, debounce: u128)
    ensures
        event == WatchEvent::SourceEvent ==> debounce_step(s, event, now, debounce).1 == WatchAction::Wait
            && debounce_step(s, event, now, debounce).0.pending_update
            && debounce_step(s, event, now, debounce).0.last_update == now,
        event == WatchEvent::ChannelClosed ==> debounce_step(s, event, now, debounce).1 == WatchAction::Stop,
        event == WatchEvent::Timeout ==> (debounce_step(s, event, now, debounce).1 == WatchAction::Reload
            <==> (s.pending_update && ((now >= s.last_update && now - s.last_update >= debounce)
                || (now < s.last_update && debounce == 0)))),
        event == WatchEvent::Timeout && debounce_step(s, event, now, debounce).1 == WatchAction::Reload
            ==> !debounce_step(s, event, now, debounce).0.pending_update,
        event == WatchEvent::Timeout && debounce_step(s, event, now, debounce).1 != WatchAction::Reload
            ==> debounce_step(s, event, now, debounce) == (s, WatchAction::Wait),
{
}

/// What a reload did.
#[derive(Debug, Clone, Copy, PartialEq, Eq, Structural)]
pub enum ReloadOutcome {
    /// The merged configuration was passed on.
    Applied,
    /// The merged configuration was not passed on.
    Unchanged,
    /// Loading or merging failed.
    Failed,
}

/// The outcome of a reload: a failed load fails; a loaded configuration is
/// passed on when there was no previous one or when it differs from the
/// previous one (the change check reports changes); otherwise it counts as
/// unchanged.
pub open spec fn reload_outcome_of(loaded: bool, had_previous: bool, previous_reports_changes: bool) -> ReloadOutcome {
    if !loaded {
        ReloadOutcome::Failed
    } else if !had_previous || previous_reports_changes {
        ReloadOutcome::Applied
    } else {
        ReloadOutcome::Unchanged
    }
}

/// The outcome of a reload: see [`reload_outcome_of`].
pub fn reload_outcome(loaded: bool, had_previous: bool, previous_reports_changes: bool) -> (r: ReloadOutcome)
    ensures
        r == reload_outcome_of(loaded, had_previous, previous_reports_changes),
{
    if !loaded {
        ReloadOutcome::Failed
    } else if !had_previous || previous_reports_changes {
        ReloadOutcome::Applied
    } else {
        ReloadOutcome::Unchanged
    }
}

impl HotReloadMetrics {
    /// Counts a reload by its outcome.
    pub fn record_outcome(&mut self, outcome: ReloadOutcome)
        ensures
            outcome == ReloadOutcome::Applied ==> *final(self) == (HotReloadMetrics {
                successful_reloads: crate::config::wrap_inc(old(self).successful_reloads),
                ..*old(self)
            }),
            outcome == ReloadOutcome::Unchanged ==> *final(self) == (HotReloadMetrics {
                no_change_reloads: crate::config::wrap_inc(old(self).no_change_reloads),
                ..*old(self)
            }),
            outcome == ReloadOutcome::Failed ==> *final(self) == (HotReloadMetrics {
                failed_reloads: crate::config::wrap_inc(old(self).failed_reloads),
                ..*old(self)
            }),
    {
        match outcome {
            ReloadOutcome::Applied => self.record_successful_reload(),
            ReloadOutcome::Unchanged => self.record_no_change_reload(),
            ReloadOutcome::Failed => self.record_failed_reload(),
        }
    }
}

/// What a reload did: a load that failed is a failure; the first
/// configuration loaded, with none before it, is always passed on, whatever
/// the change check says; later ones are passed on exactly when the change
/// check reports a change, and otherwise count as unchanged.
pub proof fn law_reload_outcomes(had_previous: bool, reports_changes: bool)
    ensures
        reload_outcome_of(false, had_previous, reports_changes) == ReloadOutcome::Failed,
        reload_outcome_of(true, false, reports_changes) == ReloadOutcome::Applied,
        reload_outcome_of(true, true, true) == ReloadOutcome::Applied,
        reload_outcome_of(true, true, false) == ReloadOutcome::Unchanged,
        reload_outcome_of(true, had_previous, reports_changes) != ReloadOutcome::Failed,
{
}

/// Refuses to start hot reloading while it is active.
pub fn check_can_start(is_active: bool) -> (r: Result<(), Error>)
    ensures
        is_active <==> r is Err,
        r is Err ==> crate::error::is_config_error(r, "Hot-reloading is already active"@),
{
    if is_active {
        proof { reveal_strlit("Hot-reloading is already active"); }
        return Err(Error::ConfigurationError(owned("Hot-reloading is already active")));
    }
    Ok(())
}

/// The configurations of priority `p` among `items` at positions `j` and
/// after, the last given first.
pub open spec fn priority_group(items: Seq<(DynamicConfigView, u8)>, p: int, j: int) -> Seq<DynamicConfigView>
    decreases items.len() - j,
{
    if j < 0 || j >= items.len() {
        Seq::empty()
    } else {
        priority_group(items, p, j + 1) + (if items[j].1 == p { seq![items[j].0] } else { Seq::empty() })
    }
}

/// The order in which `items` are laid over one another, as far as the
/// priorities below `p`: the lowest priority first, and within one priority
/// the last given first.
pub open spec fn merge_order(items: Seq<(DynamicConfigView, u8)>, p: int) -> Seq<DynamicConfigView>
    decreases p,
{
    if p <= 0 {
        Seq::empty()
    } else {
        merge_order(items, p - 1) + priority_group(items, p - 1, 0)
    }
}

/// `base` with the configurations of `s` laid over it in turn (see
/// [`DynamicConfig::overlaid_by`]), the last one on top.
pub open spec fn overlay_all(base: DynamicConfigView, s: Seq<DynamicConfigView>) -> DynamicConfigView
    decreases s.len(),
{
    if s.len() == 0 {
        base
    } else {
        overlaid_view(overlay_all(base, s.drop_last()), s.last())
    }
}

/// The configuration that reloading merges from the configurations that
/// the sources loaded, each with its source's priority. The default
/// configuration (a 30 s timeout, 3 retries and the public endpoint) lies
/// lowest, whatever its own priority; the loaded configurations are laid
/// over it from the lowest source priority up (see [`merge_order`]), so
/// that a higher source priority takes precedence.
pub open spec fn merged_sources(loaded: Seq<(DynamicConfigView, u8)>) -> DynamicConfigView {
    overlay_all(default_dynamic_config(), merge_order(loaded, 256))
}

/// The views of the configurations in `v`, each with its priority.
pub open spec fn prioritized_views(v: Seq<(DynamicConfig, u8)>) -> Seq<(DynamicConfigView, u8)> {
    v.map_values(|e: (DynamicConfig, u8)| (e.0@, e.1))
}

/// Loads the merged configuration from `loaded`, the configurations that
/// the sources gave, each with its source's priority: see
/// [`merged_sources`].
pub fn load_and_merge_configs(loaded: Vec<(DynamicConfig, u8)>) -> (r: Result<DynamicConfig, Error>)
    requires
        forall|i: int| 0 <= i < loaded@.len() ==> (#[trigger] loaded@[i]).0.wf(),
    ensures
        r matches Ok(c) && c.wf() && c@ == merged_sources(prioritized_views(loaded@)),
{
    proof { reveal_strlit("https://generativelanguage.googleapis.com"); }
    let builder = DynamicConfigBuilder::new()
        .timeout(30 * NANOS_PER_SECOND)
        .retry_attempts(3)
        .base_url(owned("https://generativelanguage.googleapis.com"));
    proof {
        assert(builder.config.tags@ =~= Seq::<(String, String)>::empty());
        assert(crate::dynamic_config::tags_problem(builder.config.tags@) is None);
        assert(builder.config@ == default_dynamic_config());
    }
    let mut merged = match builder.build() {
        Ok(c) => c,
        Err(e) => return Err(e),
    };
    let ghost items = prioritized_views(loaded@);
    let ghost mut seen: Seq<DynamicConfigView> = Seq::empty();
    let mut p: u16 = 0;
    while p < 256
        invariant
            p <= 256,
            items == prioritized_views(loaded@),
            forall|i: int| 0 <= i < loaded@.len() ==> (#[trigger] loaded@[i]).0.wf(),
            seen == merge_order(items, p as int),
            merged.wf(),
            merged@ == overlay_all(default_dynamic_config(), seen),
        decreases 256 - p,
    {
        let mut j: usize = loaded.len();
        proof {
            assert(priority_group(items, p as int, j as int) =~= Seq::<DynamicConfigView>::empty());
            assert(seen + priority_group(items, p as int, j as int) =~= seen);
        }
        while j > 0
            invariant
                p < 256,
                j <= loaded@.len(),
                items == prioritized_views(loaded@),
                forall|i: int| 0 <= i < loaded@.len() ==> (#[trigger] loaded@[i]).0.wf(),
                seen == merge_order(items, p as int) + priority_group(items, p as int, j as int),
                merged.wf(),
                merged@ == overlay_all(default_dynamic_config(), seen),
            decreases j,
        {
            let k = j - 1;
            let ghost before = seen;
            if loaded[k].1 as u16 == p {
                merged = merged.overlaid_by(&loaded[k].0);
                proof {
                    seen = seen.push(items[k as int].0);
                    assert(seen.drop_last() =~= before);
                }
            }
            proof {
                assert(priority_group(items, p as int, k as int) == priority_group(items, p as int, j as int)
                    + (if items[k as int].1 == p as int { seq![items[k as int].0] } else { Seq::empty() }));
                assert(seen =~= merge_order(items, p as int) + priority_group(items, p as int, k as int));
            }
            j = k;
        }
        proof {
            assert(merge_order(items, p as int + 1) == merge_order(items, p as int) + priority_group(items, p as int, 0));
        }
        p = p + 1;
    }
    Ok(merged)
}

/// Merging loses no tag key: every tag key of the default configuration and
/// of every configuration a source loaded is in the merged configuration.
pub proof fn law_merge_keeps_every_tag_key(loaded: Seq<(DynamicConfigView, u8)>)
    ensures
        forall|i: int, k: Seq<char>| 0 <= i < loaded.len() && #[trigger] loaded[i].0.tags.dom().contains(k)
            ==> merged_sources(loaded).tags.dom().contains(k),
        forall|k: Seq<char>| #[trigger] default_dynamic_config().tags.dom().contains(k)
            ==> merged_sources(loaded).tags.dom().contains(k),
{
    let order = merge_order(loaded, 256);
    lemma_overlay_covers(default_dynamic_config(), order);
    assert forall|i: int| 0 <= i < loaded.len() implies #[trigger] order.contains(loaded[i].0) by {
        lemma_group_contains(loaded, loaded[i].1 as int, 0, i);
        lemma_order_contains(loaded, 256, loaded[i].1 as int);
    }
    assert forall|i: int, k: Seq<char>| 0 <= i < loaded.len() && #[trigger] loaded[i].0.tags.dom().contains(k)
        implies merged_sources(loaded).tags.dom().contains(k) by {
        assert(order.contains(loaded[i].0));
    }
}

/// A configuration without its tags.
pub open spec fn untagged(c: DynamicConfigView) -> DynamicConfigView {
    DynamicConfigView { tags: Map::empty(), ..c }
}

/// The highest source priority takes precedence: when one loaded
/// configuration comes from a source of higher priority than every other,
/// all fields of the merged configuration but the tags are its fields,
/// whatever the own priorities of the configurations, the default's
/// included.
pub proof fn law_highest_priority_takes_precedence(loaded: Seq<(DynamicConfigView, u8)>, i: int)
    requires
        0 <= i < loaded.len(),
        forall|j: int| 0 <= j < loaded.len() && j != i ==> (#[trigger] loaded[j]).1 < loaded[i].1,
    ensures
        untagged(merged_sources(loaded)) == untagged(loaded[i].0),
{
    let p = loaded[i].1 as int;
    let x = loaded[i].0;
    lemma_group_single(loaded, p, 0, i);
    lemma_order_tail(loaded, p, 256);
    let order = merge_order(loaded, 256);
    assert(order == merge_order(loaded, p) + seq![x]);
    assert(order.last() == x);
    assert(order.len() > 0);
}

proof fn lemma_group_contains(items: Seq<(DynamicConfigView, u8)>, p: int, j: int, i: int)
    requires
        0 <= j <= i < items.len(),
        items[i].1 == p,
    ensures
        priority_group(items, p, j).contains(items[i].0),
    decreases i - j,
{
    let g = priority_group(items, p, j);
    if j == i {
        let rest = priority_group(items, p, j + 1);
        assert(g == rest + seq![items[i].0]);
        assert(g[rest.len() as int] == items[i].0);
    } else {
        lemma_group_contains(items, p, j + 1, i);
        let rest = priority_group(items, p, j + 1);
        let m = choose|m: int| 0 <= m < rest.len() && rest[m] == items[i].0;
        assert(g[m] == rest[m]);
    }
}

proof fn lemma_order_contains(items: Seq<(DynamicConfigView, u8)>, p: int, q: int)
    requires
        0 <= q < p,
    ensures
        forall|x: DynamicConfigView| #[trigger] priority_group(items, q, 0).contains(x) ==> merge_order(items, p).contains(x),
    decreases p,
{
    let before = merge_order(items, p - 1);
    let g = priority_group(items, p - 1, 0);
    assert(merge_order(items, p) == before + g);
    if q < p - 1 {
        lemma_order_contains(items, p - 1, q);
        assert forall|x: DynamicConfigView| #[trigger] priority_group(items, q, 0).contains(x) implies merge_order(items, p).contains(x) by {
            let m = choose|m: int| 0 <= m < before.len() && before[m] == x;
            assert((before + g)[m] == x);
        }
    } else {
        assert forall|x: DynamicConfigView| #[trigger] priority_group(items, q, 0).contains(x) implies merge_order(items, p).contains(x) by {
            let m = choose|m: int| 0 <= m < g.len() && g[m] == x;
            assert((before + g)[before.len() + m] == x);
        }
    }
}

proof fn lemma_overlay_covers(base: DynamicConfigView, s: Seq<DynamicConfigView>)
    ensures
        forall|k: Seq<char>| #[trigger] base.tags.dom().contains(k) ==> overlay_all(base, s).tags.dom().contains(k),
        forall|x: DynamicConfigView, k: Seq<char>| s.contains(x) && #[trigger] x.tags.dom().contains(k)
            ==> overlay_all(base, s).tags.dom().contains(k),
    decreases s.len(),
{
    if s.len() > 0 {
        let t = s.drop_last();
        lemma_overlay_covers(base, t);
        assert forall|x: DynamicConfigView| #[trigger] s.contains(x) implies x == s.last() || t.contains(x) by {
            if x != s.last() {
                let m = choose|m: int| 0 <= m < s.len() && s[m] == x;
                assert(m < s.len() - 1);
                assert(t[m] == x);
            }
        }
    }
}

proof fn lemma_group_single(items: Seq<(DynamicConfigView, u8)>, p: int, j: int, i: int)
    requires
        0 <= j <= items.len(),
        0 <= i < items.len(),
        items[i].1 == p,
        forall|k: int| 0 <= k < items.len() && k != i ==> (#[trigger] items[k]).1 < p,
    ensures
        priority_group(items, p, j) == (if j <= i { seq![items[i].0] } else { Seq::<DynamicConfigView>::empty() }),
    decreases items.len() - j,
{
    if j < items.len() {
        lemma_group_single(items, p, j + 1, i);
        if j == i {
            assert(priority_group(items, p, j + 1) + seq![items[i].0] =~= seq![items[i].0]);
        } else {
            assert(items[j].1 < p);
            assert(priority_group(items, p, j) =~= priority_group(items, p, j + 1));
        }
    }
}

proof fn lemma_group_none(items: Seq<(DynamicConfigView, u8)>, q: int, j: int)
    requires
        0 <= j <= items.len(),
        forall|k: int| 0 <= k < items.len() ==> (#[trigger] items[k]).1 != q,
    ensures
        priority_group(items, q, j) == Seq::<DynamicConfigView>::empty(),
    decreases items.len() - j,
{
    if j < items.len() {
        lemma_group_none(items, q, j + 1);
        assert(items[j].1 != q);
        assert(priority_group(items, q, j) =~= Seq::<DynamicConfigView>::empty());
    }
}

proof fn lemma_order_tail(items: Seq<(DynamicConfigView, u8)>, p: int, q: int)
    requires
        0 <= p < q,
        exists|i: int| 0 <= i < items.len() && items[i].1 == p
            && forall|k: int| 0 <= k < items.len() && k != i ==> (#[trigger] items[k]).1 < p,
    ensures
        merge_order(items, q) == merge_order(items, p + 1),
    decreases q,
{
    if q > p + 1 {
        lemma_order_tail(items, p, q - 1);
        let i = choose|i: int| 0 <= i < items.len() && items[i].1 == p
            && forall|k: int| 0 <= k < items.len() && k != i ==> (#[trigger] items[k]).1 < p;
        assert forall|k: int| 0 <= k < items.len() implies (#[trigger] items[k]).1 != q - 1 by {
            if k != i {
                assert(items[k].1 < p);
            }
        }
        lemma_group_none(items, q - 1, 0);
        assert(merge_order(items, q) =~= merge_order(items, q - 1));
    }
}

} // verus!
