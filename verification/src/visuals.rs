//! Bookkeeping of the per-entry rendering cache: which cached renderings
//! are still good for a frame, which must be built anew, and which only
//! need their height for a new width. The renderings themselves are the
//! host's; this cache holds what they are keyed on.

use vstd::prelude::*;
use vstd::string::*;

use crate::app::App;
use crate::status::LiveState;
use crate::text::str_eq;
use crate::transcript::{Entry, fingerprint, fingerprint_entry};

verus! {

/// The key of one cached rendering.
#[derive(Clone, Copy, Debug, PartialEq, Eq, Structural)]
pub struct CachedSlot {
    /// The fingerprint of the entry it was built from (`u64::MAX` for the
    /// live tail, which is built anew every frame).
    pub fingerprint: u64,
    /// The content width its height was measured at.
    pub width: u16,
}

/// The keys of the cached renderings, one per transcript entry, with the
/// theme they were built under and the transcript epoch and width last
/// seen.
pub struct VisualsCache {
    pub theme_key: String,
    pub entries: Vec<CachedSlot>,
    pub last_seen_epoch: u64,
    pub last_seen_width: u16,
}

/// What a frame needs done to one cached rendering.
#[derive(Clone, Copy, Debug, PartialEq, Eq, Structural)]
pub enum SlotWork {
    /// Still good.
    Keep,
    /// Build it anew (and measure it).
    Build,
    /// Measure it again at the new width.
    Measure,
}

/// The entry at `i` is the live tail: the agent is streaming into the
/// last entry, an assistant answer.
pub open spec fn is_live_tail(app: App, i: int) -> bool {
    let es = app.transcript@;
    &&& app.is_streaming
    &&& (app.status.live == LiveState::Streaming || app.status.live == LiveState::Llm)
    &&& es.len() > 0 && es.last() is Assistant
    &&& i == es.len() - 1
}

/// The key entry `i` must be cached under this frame.
pub open spec fn slot_target(app: App, i: int) -> u64 {
    if is_live_tail(app, i) {
        u64::MAX
    } else {
        fingerprint(app.transcript@[i], app.prefs.show_thinking)
    }
}

/// Nothing needs a look this frame: same theme and width, no mutation
/// since the last frame, no live tail, and a key for every entry.
pub open spec fn nothing_to_do(c: VisualsCache, app: App, theme: Seq<char>, w: u16) -> bool {
    &&& c.theme_key@ == theme
    &&& c.last_seen_width == w
    &&& c.last_seen_epoch == app.transcript.epoch_spec()
    &&& !is_live_tail(app, app.transcript@.len() - 1)
    &&& c.entries@.len() == app.transcript@.len()
}

/// The keys carried over into a frame: none after a theme change, and
/// none past the transcript's end.
pub open spec fn carried(c: VisualsCache, app: App, theme: Seq<char>) -> Seq<CachedSlot> {
    let kept = if c.theme_key@ == theme {
        c.entries@
    } else {
        Seq::empty()
    };
    let n = app.transcript@.len();
    if kept.len() > n {
        kept.take(n as int)
    } else {
        kept
    }
}

/// The work on entry `i`, with keys `kept` carried over and width `w`.
pub open spec fn work_at(kept: Seq<CachedSlot>, app: App, i: int, w: u16) -> SlotWork {
    if i >= kept.len() || is_live_tail(app, i) || kept[i].fingerprint != slot_target(app, i) {
        SlotWork::Build
    } else if kept[i].width != w {
        SlotWork::Measure
    } else {
        SlotWork::Keep
    }
}

/// `c2` is cache `c1` brought up to date for a frame of `app` in theme
/// `theme` at width `w`, with `r` the work asked for (none when nothing
/// needed a look): the keys then stand for every entry as the host is to
/// build them, and the theme, epoch and width are recorded.
pub open spec fn cache_updated(
    c1: VisualsCache,
    c2: VisualsCache,
    app: App,
    theme: Seq<char>,
    w: u16,
    r: Option<Seq<SlotWork>>,
) -> bool {
    let n = app.transcript@.len();
    let kept = carried(c1, app, theme);
    &&& (r is None) == nothing_to_do(c1, app, theme, w)
    &&& r is None ==> c2 == c1
    &&& r matches Some(work) ==> {
        &&& work.len() == n && c2.entries@.len() == n
        &&& forall|i: int|
            0 <= i < n ==> #[trigger] work[i] == work_at(kept, app, i, w) && c2.entries@[i]
                == (CachedSlot { fingerprint: slot_target(app, i), width: w })
        &&& c2.theme_key@ == theme
        &&& c2.last_seen_epoch == app.transcript.epoch_spec()
        &&& c2.last_seen_width == w
    }
}

/// Whether entry `i` is the live tail.
fn live_tail_at(app: &App, i: usize) -> (r: bool)
    requires
        i < app.transcript@.len(),
    ensures
        r == is_live_tail(*app, i as int),
{
    let es = app.transcript.entries();
    let live = match app.status.live {
        LiveState::Streaming | LiveState::Llm => true,
        _ => false,
    };
    let last_is_answer = match &es[es.len() - 1] {
        Entry::Assistant(_) => true,
        _ => false,
    };
    app.is_streaming && live && last_is_answer && i == es.len() - 1
}

impl VisualsCache {
    /// An empty cache.
    pub fn new() -> (c: VisualsCache)
        ensures
            c.theme_key@ == Seq::<char>::empty(),
            c.entries@ == Seq::<CachedSlot>::empty(),
            c.last_seen_epoch == 0,
            c.last_seen_width == 0,
    {
        VisualsCache { theme_key: String::new(), entries: Vec::new(), last_seen_epoch: 0, last_seen_width: 0 }
    }
}

/// Bring the cache up to date for a frame of state `app` drawn in theme
/// `theme` at content width `w`. Returns nothing when nothing needs a
/// look (the fingerprint walk is skipped); otherwise the work on each
/// entry, the keys now standing for what the host is to build, with the
/// theme, epoch and width recorded.
pub fn update_visuals_cache(cache: &mut VisualsCache, app: &App, theme: &str, w: u16) -> (r: Option<
    Vec<SlotWork>,
>)
    ensures
        cache_updated(
            *old(cache),
            *final(cache),
            *app,
            theme@,
            w,
            match r {
                Some(work) => Some(work@),
                None => None,
            },
        ),
{
    let epoch = app.transcript.mutation_epoch();
    let n = app.transcript.entries().len();
    let theme_changed = !str_eq(cache.theme_key.as_str(), theme);
    let width_changed = cache.last_seen_width != w;
    let live_last = n > 0 && live_tail_at(app, n - 1);
    let epoch_stale = epoch != cache.last_seen_epoch;
    if !theme_changed && !width_changed && !epoch_stale && !live_last && cache.entries.len() == n {
        return None;
    }
    if theme_changed {
        cache.theme_key = String::from_str(theme);
        cache.entries.clear();
    }
    if cache.entries.len() > n {
        cache.entries.truncate(n);
    }
    let ghost kept = cache.entries@;
    assert(kept == carried(*old(cache), *app, theme@));
    let mut work: Vec<SlotWork> = Vec::new();
    let mut i: usize = 0;
    while i < n
        invariant
            i <= n,
            n == app.transcript@.len(),
            kept.len() <= n,
            work@.len() == i,
            cache.entries@.len() == if i < kept.len() {
                kept.len() as int
            } else {
                i as int
            },
            forall|j: int| 0 <= j < i ==> #[trigger] work@[j] == work_at(kept, *app, j, w),
            forall|j: int|
                0 <= j < i ==> #[trigger] cache.entries@[j] == (CachedSlot {
                    fingerprint: slot_target(*app, j),
                    width: w,
                }),
            forall|j: int| i <= j < kept.len() ==> #[trigger] cache.entries@[j] == kept[j],
            cache.theme_key@ == theme@,
        decreases n - i,
    {
        let live = live_tail_at(app, i);
        let target = if live {
            u64::MAX
        } else {
            fingerprint_entry(&app.transcript.entries()[i], app.prefs.show_thinking)
        };
        let slot = CachedSlot { fingerprint: target, width: w };
        if i >= cache.entries.len() {
            cache.entries.push(slot);
            work.push(SlotWork::Build);
        } else {
            let old_slot = cache.entries[i];
            if live || old_slot.fingerprint != target {
                cache.entries.set(i, slot);
                work.push(SlotWork::Build);
            } else if old_slot.width != w {
                cache.entries.set(i, slot);
                work.push(SlotWork::Measure);
            } else {
                work.push(SlotWork::Keep);
            }
        }
        i += 1;
    }
    cache.last_seen_epoch = epoch;
    cache.last_seen_width = w;
    Some(work)
}

/// A frame drawn right after another, with nothing changed in between and
/// no live tail, finds nothing to do: the fingerprint walk is skipped.
pub proof fn lemma_second_frame_is_free(
    c1: VisualsCache,
    c2: VisualsCache,
    app: App,
    theme: Seq<char>,
    w: u16,
    r: Option<Seq<SlotWork>>,
)
    requires
        cache_updated(c1, c2, app, theme, w, r),
        !is_live_tail(app, app.transcript@.len() - 1),
    ensures
        nothing_to_do(c2, app, theme, w),
{
}

/// After a frame that looked at the entries, every key is the one its
/// entry calls for: a mutation since the last frame is never missed.
pub proof fn lemma_walk_restores_keys(
    c1: VisualsCache,
    c2: VisualsCache,
    app: App,
    theme: Seq<char>,
    w: u16,
    r: Option<Seq<SlotWork>>,
    i: int,
)
    requires
        cache_updated(c1, c2, app, theme, w, r),
        c1.last_seen_epoch != app.transcript.epoch_spec(),
        0 <= i < app.transcript@.len(),
    ensures
        r is Some,
        c2.entries@[i].fingerprint == slot_target(app, i),
{
    let work = r->0;
    assert(work[i] == work_at(carried(c1, app, theme), app, i, w));
}

} // verus!
