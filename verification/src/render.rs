//! The virtualized renderer: render only entries likely to be visible
//! while keeping the total scroll extent exact, plus the per-frame scroll
//! decisions.
//!
//! For each shown entry the renderer either renders it and caches its
//! measured height (first sight), reserves exactly its cached height as
//! blank space when it lies wholly outside the viewport, or renders it
//! normally. Reserving cached heights keeps scrollbar geometry identical
//! to full rendering while the per-frame cost follows the viewport, not
//! the store.

use vstd::prelude::*;

use crate::bepinex_log::{BepInExLogEntry, LogLevel};
use crate::filter::Filter;

verus! {

/// What the renderer does with one shown entry this frame.
#[derive(Debug, Clone, Copy, PartialEq, Eq, Structural)]
pub enum LogRenderDecision {
    /// Do not render; reserve exactly the cached height as blank space.
    SkipAndFakeRender,
    /// First sight of the entry: render it and cache the measured height.
    RenderAndCacheHeight,
    /// Height already known and the entry may be visible: render it.
    RenderNormally,
}

/// Display color class of a log line; the surrounding theme decides what
/// the info class looks like (white on dark, black on light).
#[derive(Debug, Clone, Copy, PartialEq, Eq, Structural)]
pub enum LogColor {
    Red,
    Yellow,
    Info,
}

/// The color class of a line at `level`: failures red, warnings yellow,
/// everything else the theme's info color.
pub fn get_color_from_log_level(level: LogLevel) -> (color: LogColor)
    ensures
        color == match level {
            LogLevel::LevelNone | LogLevel::Fatal | LogLevel::Error => LogColor::Red,
            LogLevel::Warning => LogColor::Yellow,
            _ => LogColor::Info,
        },
{
    match level {
        LogLevel::LevelNone | LogLevel::Fatal | LogLevel::Error => LogColor::Red,
        LogLevel::Warning => LogColor::Yellow,
        LogLevel::Message | LogLevel::Info | LogLevel::Debug | LogLevel::All => LogColor::Info,
    }
}

/// Cache of measured entry heights in pixels, keyed by store index. An
/// entry has a height here once it has been rendered and measured at
/// least once.
pub struct HeightCache {
    heights: Vec<Option<u32>>,
}

impl HeightCache {
    /// Height cached for the entry at `index`, if it was ever measured.
    pub closed spec fn spec_get(self, index: int) -> Option<u32> {
        if 0 <= index < self.heights@.len() {
            self.heights@[index]
        } else {
            None
        }
    }

    /// An empty cache: no entry has been measured yet.
    pub fn new() -> (cache: HeightCache)
        ensures
            forall|i: int| cache.spec_get(i) is None,
    {
        HeightCache { heights: Vec::new() }
    }

    /// The cached height of the entry at `index`, if any.
    pub fn get(&self, index: usize) -> (r: Option<u32>)
        ensures
            r == self.spec_get(index as int),
    {
        if index < self.heights.len() {
            self.heights[index]
        } else {
            None
        }
    }

    /// Record the measured height of the entry at `index`; every other
    /// entry's cached height is kept.
    pub fn insert(&mut self, index: usize, height: u32)
        ensures
            final(self).spec_get(index as int) == Some(height),
            forall|j: int| j != index ==> final(self).spec_get(j) == old(self).spec_get(j),
    {
        while self.heights.len() <= index
            invariant
                forall|j: int| #[trigger] self.spec_get(j) == old(self).spec_get(j),
            decreases index + 1 - self.heights@.len(),
        {
            let ghost prev = *self;
            self.heights.push(None);
            proof {
                assert forall|j: int| #[trigger] self.spec_get(j) == old(self).spec_get(j) by {
                    assert(prev.spec_get(j) == old(self).spec_get(j));
                    if 0 <= j < prev.heights@.len() {
                        assert(self.spec_get(j) == prev.spec_get(j));
                    } else {
                        assert(prev.spec_get(j) is None);
                        assert(self.spec_get(j) is None);
                    }
                }
            }
        }
        let ghost before = *self;
        self.heights[index] = Some(height);
        proof {
            assert forall|j: int| j != index implies self.spec_get(j) == old(self).spec_get(j) by {
                assert(before.spec_get(j) == old(self).spec_get(j));
                if 0 <= j < before.heights@.len() {
                    assert(self.spec_get(j) == before.spec_get(j));
                }
            }
        }
    }
}

/// The renderer's decision for one shown entry: measure unknown heights;
/// with a known height, skip the entry when it lies wholly above or
/// wholly below the viewport, render it normally otherwise. Positions are
/// wide integers so that no accumulation of heights can overflow them.
pub open spec fn spec_render_decision(
    cached: Option<u32>,
    pos_before_log: int,
    viewport_bottom: int,
) -> LogRenderDecision {
    match cached {
        Option::None => LogRenderDecision::RenderAndCacheHeight,
        Option::Some(height) => {
            if pos_before_log > viewport_bottom || pos_before_log + height < 0 {
                LogRenderDecision::SkipAndFakeRender
            } else {
                LogRenderDecision::RenderNormally
            }
        },
    }
}

/// Decide what to do with the entry whose top edge sits at
/// `pos_before_log`, given the viewport runs from zero to
/// `viewport_bottom`.
pub fn make_log_render_decision(
    cached: Option<u32>,
    pos_before_log: i128,
    viewport_bottom: i128,
) -> (decision: LogRenderDecision)
    ensures
        decision == spec_render_decision(cached, pos_before_log as int, viewport_bottom as int),
{
    match cached {
        Option::None => LogRenderDecision::RenderAndCacheHeight,
        Option::Some(height) => {
            let after_the_bottom = pos_before_log > viewport_bottom;
            let before_the_top = pos_before_log < -(height as i128);
            if after_the_bottom || before_the_top {
                LogRenderDecision::SkipAndFakeRender
            } else {
                LogRenderDecision::RenderNormally
            }
        },
    }
}

/// Sum of the measured heights of the entries the filter shows: the total
/// scroll extent of the list.
pub open spec fn spec_visible_extent(
    logs: Seq<BepInExLogEntry>,
    filter: Filter,
    measured: Seq<u32>,
) -> int
    recommends
        measured.len() == logs.len(),
    decreases logs.len(),
{
    if logs.len() == 0 {
        0
    } else {
        spec_visible_extent(logs.drop_last(), filter, measured.drop_last()) + (
        if filter.spec_matches(logs.last()) {
            measured[logs.len() - 1] as int
        } else {
            0
        })
    }
}

/// One frame's walk over the store, exactly as the renderer makes it:
/// entries the filter hides contribute nothing; every shown entry advances
/// the cursor by its measured height and is measured into the cache at
/// first sight. The returned extent is the total scroll extent. It equals
/// the sum of the shown entries' measured heights whatever the viewport
/// is and whether or not virtualization is enabled: skipping only spares
/// rendering cost, it never changes layout.
///
/// `measured` gives the height rendering would measure for each entry
/// this frame; heights are stable, so a cached height agrees with it.
/// Entries the filter hides, and indices beyond the store, keep their
/// cached heights untouched, so the walk can be made again next frame.
pub fn layout_logs(
    logs: &Vec<BepInExLogEntry>,
    filter: &Filter,
    heights: &mut HeightCache,
    measured: &Vec<u32>,
    origin_y: i64,
    viewport_bottom: i64,
    virtualize: bool,
) -> (extent: u64)
    requires
        measured@.len() == logs@.len(),
        logs@.len() <= u32::MAX,
        forall|i: int|
            0 <= i < logs@.len() ==> (old(heights).spec_get(i) is None || old(heights).spec_get(i)
                == Some(measured@[i])),
    ensures
        extent == spec_visible_extent(logs@, *filter, measured@),
        forall|i: int|
            0 <= i < logs@.len() && filter.spec_matches(logs@[i]) ==> final(heights).spec_get(i)
                == Some(measured@[i]),
        forall|i: int|
            !(0 <= i < logs@.len() && filter.spec_matches(logs@[i]))
                ==> #[trigger] final(heights).spec_get(i) == old(heights).spec_get(i),
{
    let mut extent: u64 = 0;
    let mut pos: i128 = origin_y as i128;
    let mut i: usize = 0;
    while i < logs.len()
        invariant
            measured@.len() == logs@.len(),
            logs@.len() <= u32::MAX,
            i <= logs@.len(),
            extent == spec_visible_extent(logs@.take(i as int), *filter, measured@.take(i as int)),
            extent <= i * (u32::MAX as int),
            pos == origin_y + extent,
            forall|j: int|
                0 <= j < logs@.len() ==> (heights.spec_get(j) is None || heights.spec_get(j)
                    == Some(measured@[j])),
            forall|j: int|
                0 <= j < i && filter.spec_matches(logs@[j]) ==> heights.spec_get(j) == Some(
                    measured@[j],
                ),
            forall|j: int|
                !(0 <= j < i && filter.spec_matches(logs@[j])) ==> #[trigger] heights.spec_get(j)
                    == old(heights).spec_get(j),
        decreases logs@.len() - i,
    {
        proof {
            assert(logs@.take(i + 1).drop_last() =~= logs@.take(i as int));
            assert(measured@.take(i + 1).drop_last() =~= measured@.take(i as int));
            assert(logs@.take(i + 1).last() == logs@[i as int]);
        }
        if filter.matches(&logs[i]) {
            let height = measured[i];
            let cached = heights.get(i);
            let decision = if cached.is_none() {
                LogRenderDecision::RenderAndCacheHeight
            } else if virtualize {
                make_log_render_decision(cached, pos, viewport_bottom as i128)
            } else {
                LogRenderDecision::RenderNormally
            };
            if matches!(decision, LogRenderDecision::RenderAndCacheHeight) {
                heights.insert(i, height);
            }
            extent = extent + (height as u64);
            pos = pos + (height as i128);
        }
        i += 1;
    }
    proof {
        assert(logs@.take(logs@.len() as int) =~= logs@);
        assert(measured@.take(measured@.len() as int) =~= measured@);
    }
    extent
}

/// Virtualization equivalence: two walks over the same store, filter and
/// measured heights compute the same total scroll extent, whatever their
/// viewports and whether or not either skips: the extent is a pure
/// function of the shown entries' heights.
pub proof fn lemma_virtualization_preserves_extent(
    extent_virtualized: u64,
    extent_full: u64,
    logs: Seq<BepInExLogEntry>,
    filter: Filter,
    measured: Seq<u32>,
)
    requires
        extent_virtualized == spec_visible_extent(logs, filter, measured),
        extent_full == spec_visible_extent(logs, filter, measured),
    ensures
        extent_virtualized == extent_full,
{
}

/// Scroll bookkeeping across frames: how many entries the last frame saw,
/// so that auto-scroll fires only when new entries arrived.
pub struct Scroll {
    last_log_count: usize,
}

impl Scroll {
    /// How many entries the last auto-scrolling frame saw.
    pub closed spec fn spec_last_log_count(self) -> usize {
        self.last_log_count
    }

    pub fn new() -> (scroll: Scroll)
        ensures
            scroll.spec_last_log_count() == 0,
    {
        Scroll { last_log_count: 0 }
    }

    /// Auto-scroll-to-bottom decision for this frame: scroll exactly when
    /// the feature is enabled, the entry count changed since the last
    /// scroll, and no selection drag is in progress — a drag always
    /// suppresses auto-scroll so the user's selection is not disrupted.
    /// When the decision is to scroll, the seen count is brought up to
    /// date; otherwise it is kept.
    pub fn should_auto_scroll_to_bottom(
        &mut self,
        enabled: bool,
        log_count: usize,
        selection_in_progress: bool,
    ) -> (scroll_now: bool)
        ensures
            scroll_now == (enabled && old(self).spec_last_log_count() != log_count
                && !selection_in_progress),
            final(self).spec_last_log_count() == if scroll_now {
                log_count
            } else {
                old(self).spec_last_log_count()
            },
    {
        if enabled && self.last_log_count != log_count && !selection_in_progress {
            self.last_log_count = log_count;
            true
        } else {
            false
        }
    }
}

/// A quarter of `dist`, rounded away from zero: the fixed speed factor
/// of the drag-past-the-edge auto-scroll. Rounding away from zero keeps
/// the scroll moving whenever the distance is nonzero, however small.
pub open spec fn spec_scroll_step(dist: int) -> int {
    if dist >= 0 {
        (dist + 3) / 4
    } else {
        -((3 - dist) / 4)
    }
}

/// The step is zero exactly on a zero distance and keeps the distance's
/// sign otherwise.
pub proof fn lemma_scroll_step_sign(dist: int)
    ensures
        (spec_scroll_step(dist) == 0) == (dist == 0),
        dist > 0 ==> spec_scroll_step(dist) > 0,
        dist < 0 ==> spec_scroll_step(dist) < 0,
{
}

/// The scroll to apply while a drag-selection holds the pointer outside
/// the list rectangle: nothing while the pointer is inside or absent;
/// otherwise a quarter of the vertical distance past the bottom edge —
/// strictly negative, scrolling down — when the pointer is below it, a
/// quarter of the distance to the top edge when it is not — strictly
/// positive, scrolling up, whenever the pointer is above the top — and
/// no movement when the pointer sits exactly on the bottom edge.
pub fn scroll_when_trying_to_select_stuff_above_or_under_rect(
    pointer_inside_rect: bool,
    pointer_y: Option<i64>,
    rect_top: i64,
    rect_bottom: i64,
) -> (scroll: Option<i64>)
    ensures
        match scroll {
            Some(delta) => {
                &&& !pointer_inside_rect
                &&& pointer_y is Some
                &&& {
                    let y = pointer_y->Some_0 as int;
                    if rect_bottom < y {
                        &&& delta == spec_scroll_step(rect_bottom - y)
                        &&& delta < 0
                    } else if rect_bottom > y {
                        &&& delta == spec_scroll_step(rect_top - y)
                        &&& (y < rect_top ==> delta > 0)
                        &&& (y > rect_top ==> delta < 0)
                        &&& (y == rect_top ==> delta == 0)
                    } else {
                        delta == 0
                    }
                }
            },
            None => pointer_inside_rect || pointer_y is None,
        },
{
    if pointer_inside_rect {
        return None;
    }
    let y = match pointer_y {
        Some(y) => y,
        None => {
            return None;
        },
    };
    let dist: i128 = (rect_bottom as i128) - (y as i128);
    if dist < 0 {
        proof {
            lemma_scroll_step_sign(dist as int);
        }
        Some(quarter_away_from_zero(dist))
    } else if dist > 0 {
        let to_top: i128 = (rect_top as i128) - (y as i128);
        proof {
            lemma_scroll_step_sign(to_top as int);
        }
        Some(quarter_away_from_zero(to_top))
    } else {
        Some(0)
    }
}

/// A quarter of `dist`, rounded away from zero; `dist` is a difference
/// of two 64-bit coordinates, so the result fits 64 bits.
fn quarter_away_from_zero(dist: i128) -> (r: i64)
    requires
        -0x10000000000000000 <= dist <= 0x10000000000000000,
    ensures
        r == spec_scroll_step(dist as int),
{
    let q: i128 = if dist >= 0 {
        (dist + 3) / 4
    } else {
        -((3 - dist) / 4)
    };
    q as i64
}

} // verus!
