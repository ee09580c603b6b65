//! The console view state: the append-only log store, the mod list, and
//! the per-frame pipeline of drain, filter, selection and clipboard
//! export.
//!
//! All of this state is owned by the frame loop alone; the ingestion
//! thread reaches it only through the event channels, so no lock is ever
//! needed. Once per frame the channels are drained completely — one
//! receive per frame would cap ingestion throughput at the frame rate —
//! then the selection marks are recomputed, and the renderer walks the
//! filtered store.

use vstd::prelude::*;
use vstd::seq_lib::*;
use vstd::string::StringExecFns;

use crate::bepinex_log::BepInExLogEntry;
use crate::bepinex_mod::BepInExMod;
use crate::channel::{channel_len, channel_try_recv};
use crate::filter::Filter;
use crate::render::{layout_logs, spec_visible_extent, HeightCache, Scroll};
use crate::selection::LogSelection;

verus! {

/// The text a copy command puts on the clipboard: the texts of the
/// selected entries, in store order, joined with one newline between
/// neighbours; nothing when no entry is selected.
pub open spec fn spec_selected_logs_text(logs: Seq<BepInExLogEntry>) -> Option<Seq<char>>
    decreases logs.len(),
{
    if logs.len() == 0 {
        None
    } else {
        let prefix = spec_selected_logs_text(logs.drop_last());
        if logs.last().spec_selected() {
            match prefix {
                None => Some(logs.last().spec_data()@),
                Some(text) => Some(text + seq!['\n'] + logs.last().spec_data()@),
            }
        } else {
            prefix
        }
    }
}

/// The console tab's state: stores, filter, selection, scroll and height
/// cache, and the receiving halves of the two event channels.
pub struct ConsoleTab {
    log_selection: LogSelection,
    filter: Filter,
    scroll: Scroll,
    log_heights: HeightCache,
    mod_receiver: crossbeam_channel::Receiver<BepInExMod>,
    mods: Vec<BepInExMod>,
    log_receiver: crossbeam_channel::Receiver<BepInExLogEntry>,
    logs: Vec<BepInExLogEntry>,
}

impl ConsoleTab {
    pub closed spec fn spec_logs(self) -> Seq<BepInExLogEntry> {
        self.logs@
    }

    pub closed spec fn spec_mods(self) -> Seq<BepInExMod> {
        self.mods@
    }

    pub closed spec fn spec_filter(self) -> Filter {
        self.filter
    }

    pub closed spec fn spec_selection(self) -> LogSelection {
        self.log_selection
    }

    pub closed spec fn spec_heights(self) -> HeightCache {
        self.log_heights
    }

    /// A fresh console: empty store, no measured heights, no selection,
    /// no filter text, an auto-scroll counter at zero, and one blank mod
    /// record standing for "no mod chosen" in the mod filter list.
    pub fn new(
        mod_receiver: crossbeam_channel::Receiver<BepInExMod>,
        log_receiver: crossbeam_channel::Receiver<BepInExLogEntry>,
        level_threshold: crate::bepinex_log::LogLevel,
    ) -> (console: ConsoleTab)
        ensures
            console.spec_logs().len() == 0,
            console.spec_mods().len() == 1,
            console.spec_mods()[0].spec_name()@ == Seq::<char>::empty(),
            console.spec_mods()[0].spec_version()@ == Seq::<char>::empty(),
            !console.spec_selection().spec_active(),
            !console.spec_selection().spec_button_down(),
            console.spec_filter().spec_text()@ == Seq::<char>::empty(),
            console.spec_filter().spec_level_threshold() == level_threshold,
            console.scroll_last_log_count() == 0,
            forall|i: int| console.spec_heights().spec_get(i) is None,
    {
        proof {
            reveal_strlit("");
        }
        let mut mods: Vec<BepInExMod> = Vec::new();
        mods.push(BepInExMod::new("", ""));
        proof {
            assert(""@ =~= Seq::<char>::empty());
        }
        ConsoleTab {
            log_selection: LogSelection::new(),
            filter: Filter::new(level_threshold),
            scroll: Scroll::new(),
            log_heights: HeightCache::new(),
            mod_receiver,
            mods,
            log_receiver,
            logs: Vec::new(),
        }
    }

    /// The append-only log store.
    pub fn logs(&self) -> (logs: &Vec<BepInExLogEntry>)
        ensures
            logs@ == self.spec_logs(),
    {
        &self.logs
    }

    /// The detected mods, the blank placeholder first.
    pub fn mods(&self) -> (mods: &Vec<BepInExMod>)
        ensures
            mods@ == self.spec_mods(),
    {
        &self.mods
    }

    /// The current filter.
    pub fn filter(&self) -> (filter: &Filter)
        ensures
            *filter == self.spec_filter(),
    {
        &self.filter
    }

    /// The current selection state.
    pub fn selection(&self) -> (selection: &LogSelection)
        ensures
            *selection == self.spec_selection(),
    {
        &self.log_selection
    }

    /// Drain the log channel, appending every entry that was pending when
    /// the frame began to the store in arrival order: the store only ever
    /// grows at its end. What arrives while the drain runs is picked up
    /// next frame; what arrives at all is the sending thread's business,
    /// so no more is promised than that.
    pub fn update_log_receiver(&mut self)
        ensures
            old(self).spec_logs().is_prefix_of(final(self).spec_logs()),
            final(self).spec_mods() == old(self).spec_mods(),
            final(self).spec_filter() == old(self).spec_filter(),
            final(self).spec_selection() == old(self).spec_selection(),
            final(self).spec_heights() == old(self).spec_heights(),
            final(self).scroll_last_log_count() == old(self).scroll_last_log_count(),
    {
        let pending = channel_len(&self.log_receiver);
        let mut taken: usize = 0;
        while taken < pending
            invariant
                old(self).spec_logs().is_prefix_of(self.spec_logs()),
                self.spec_mods() == old(self).spec_mods(),
                self.spec_filter() == old(self).spec_filter(),
                self.spec_selection() == old(self).spec_selection(),
                self.spec_heights() == old(self).spec_heights(),
                self.scroll_last_log_count() == old(self).scroll_last_log_count(),
            decreases pending - taken,
        {
            match channel_try_recv(&self.log_receiver) {
                Some(log) => {
                    let ghost pre = self.logs@;
                    self.logs.push(log);
                    proof {
                        assert(pre.is_prefix_of(self.logs@));
                    }
                },
                None => {
                    return ;
                },
            }
            taken += 1;
        }
    }

    /// Drain the mod channel the same way, appending every record that
    /// was pending when the frame began.
    pub fn update_mod_receiver(&mut self)
        ensures
            old(self).spec_mods().is_prefix_of(final(self).spec_mods()),
            final(self).spec_logs() == old(self).spec_logs(),
            final(self).spec_filter() == old(self).spec_filter(),
            final(self).spec_selection() == old(self).spec_selection(),
            final(self).spec_heights() == old(self).spec_heights(),
            final(self).scroll_last_log_count() == old(self).scroll_last_log_count(),
    {
        let pending = channel_len(&self.mod_receiver);
        let mut taken: usize = 0;
        while taken < pending
            invariant
                old(self).spec_mods().is_prefix_of(self.spec_mods()),
                self.spec_logs() == old(self).spec_logs(),
                self.spec_filter() == old(self).spec_filter(),
                self.spec_selection() == old(self).spec_selection(),
                self.spec_heights() == old(self).spec_heights(),
                self.scroll_last_log_count() == old(self).scroll_last_log_count(),
            decreases pending - taken,
        {
            match channel_try_recv(&self.mod_receiver) {
                Some(m) => {
                    let ghost pre = self.mods@;
                    self.mods.push(m);
                    proof {
                        assert(pre.is_prefix_of(self.mods@));
                    }
                },
                None => {
                    return ;
                },
            }
            taken += 1;
        }
    }

    /// Replace the filter text, keeping its case folding in sync.
    pub fn set_filter_text(&mut self, text: &str)
        ensures
            final(self).spec_filter().spec_text()@ == text@,
            final(self).spec_filter().spec_level_threshold() == old(
                self,
            ).spec_filter().spec_level_threshold(),
            final(self).spec_logs() == old(self).spec_logs(),
            final(self).spec_mods() == old(self).spec_mods(),
            final(self).spec_selection() == old(self).spec_selection(),
            final(self).spec_heights() == old(self).spec_heights(),
            final(self).scroll_last_log_count() == old(self).scroll_last_log_count(),
    {
        self.filter.set_text(text);
    }

    /// Take the filter text from the mod list: choosing the blank
    /// placeholder (or anything out of range) clears the text, choosing a
    /// detected mod filters by its name.
    pub fn set_mod_filter_from_selection(&mut self, selected_index_in_mods_combo_box: usize)
        ensures
            final(self).spec_filter().spec_text()@ == if 0 < selected_index_in_mods_combo_box
                < old(self).spec_mods().len() {
                old(self).spec_mods()[selected_index_in_mods_combo_box as int].spec_name()@
            } else {
                Seq::<char>::empty()
            },
            final(self).spec_filter().spec_level_threshold() == old(
                self,
            ).spec_filter().spec_level_threshold(),
            final(self).spec_logs() == old(self).spec_logs(),
            final(self).spec_mods() == old(self).spec_mods(),
            final(self).spec_selection() == old(self).spec_selection(),
            final(self).spec_heights() == old(self).spec_heights(),
            final(self).scroll_last_log_count() == old(self).scroll_last_log_count(),
    {
        if 0 < selected_index_in_mods_combo_box && selected_index_in_mods_combo_box
            < self.mods.len() {
            let name = self.mods[selected_index_in_mods_combo_box].name().to_owned();
            self.filter.set_text(name.as_str());
        } else {
            proof {
                reveal_strlit("");
            }
            self.filter.set_text("");
        }
    }

    /// Replace the filter's level threshold.
    pub fn set_level_threshold(&mut self, level: crate::bepinex_log::LogLevel)
        ensures
            final(self).spec_filter().spec_level_threshold() == level,
            final(self).spec_filter().spec_text()@ == old(self).spec_filter().spec_text()@,
            final(self).spec_logs() == old(self).spec_logs(),
            final(self).spec_mods() == old(self).spec_mods(),
            final(self).spec_selection() == old(self).spec_selection(),
            final(self).spec_heights() == old(self).spec_heights(),
            final(self).scroll_last_log_count() == old(self).scroll_last_log_count(),
    {
        self.filter.set_level_threshold(level);
    }

    /// Record this frame's pointer state.
    pub fn update_pointer_state(&mut self, primary_down: bool, primary_pressed: bool)
        ensures
            final(self).spec_selection().spec_button_down() == primary_down,
            final(self).spec_selection().spec_just_pressed() == primary_pressed,
            final(self).spec_selection().spec_first() == old(self).spec_selection().spec_first(),
            final(self).spec_selection().spec_last() == old(self).spec_selection().spec_last(),
            final(self).spec_logs() == old(self).spec_logs(),
            final(self).spec_mods() == old(self).spec_mods(),
            final(self).spec_filter() == old(self).spec_filter(),
            final(self).spec_heights() == old(self).spec_heights(),
            final(self).scroll_last_log_count() == old(self).scroll_last_log_count(),
    {
        self.log_selection.update_pointer_state(primary_down, primary_pressed);
    }

    /// Advance the selection for entry `log_index`, hovered or not.
    pub fn update_selection(&mut self, hovered: bool, log_index: usize)
        requires
            log_index < crate::selection::NO_SELECTION,
        ensures
            crate::selection::spec_selection_transition(
                old(self).spec_selection(),
                final(self).spec_selection(),
                hovered,
                log_index,
            ),
            final(self).spec_logs() == old(self).spec_logs(),
            final(self).spec_mods() == old(self).spec_mods(),
            final(self).spec_filter() == old(self).spec_filter(),
            final(self).spec_heights() == old(self).spec_heights(),
            final(self).scroll_last_log_count() == old(self).scroll_last_log_count(),
    {
        self.log_selection.update_selection(hovered, log_index);
    }

    /// Recompute every stored entry's selected mark from the selection
    /// range: marked exactly when the index lies inside the range.
    pub fn mark_selected_logs(&mut self)
        ensures
            final(self).spec_logs().len() == old(self).spec_logs().len(),
            forall|i: int|
                0 <= i < old(self).spec_logs().len() ==> {
                    &&& (#[trigger] final(self).spec_logs()[i]).spec_selected() == old(
                        self,
                    ).spec_selection().spec_selects(i)
                    &&& final(self).spec_logs()[i].spec_level() == old(self).spec_logs()[i].spec_level()
                    &&& final(self).spec_logs()[i].spec_data() == old(self).spec_logs()[i].spec_data()
                },
            final(self).spec_mods() == old(self).spec_mods(),
            final(self).spec_filter() == old(self).spec_filter(),
            final(self).spec_selection() == old(self).spec_selection(),
            final(self).spec_heights() == old(self).spec_heights(),
            final(self).scroll_last_log_count() == old(self).scroll_last_log_count(),
    {
        self.log_selection.mark_selected(&mut self.logs);
    }

    /// Auto-scroll decision for this frame (see `Scroll`): when the
    /// decision is to scroll, the seen count is brought up to date;
    /// otherwise it is kept.
    pub fn should_auto_scroll_to_bottom(&mut self, enabled: bool) -> (scroll_now: bool)
        ensures
            scroll_now == (enabled && old(self).scroll_last_log_count() != old(
                self,
            ).spec_logs().len() && !old(self).spec_selection().spec_button_down()),
            final(self).scroll_last_log_count() == if scroll_now {
                old(self).spec_logs().len() as usize
            } else {
                old(self).scroll_last_log_count()
            },
            final(self).spec_logs() == old(self).spec_logs(),
            final(self).spec_mods() == old(self).spec_mods(),
            final(self).spec_filter() == old(self).spec_filter(),
            final(self).spec_selection() == old(self).spec_selection(),
            final(self).spec_heights() == old(self).spec_heights(),
    {
        let count = self.logs.len();
        let dragging = self.log_selection.button_down();
        self.scroll.should_auto_scroll_to_bottom(enabled, count, dragging)
    }

    /// How many entries the last auto-scrolling frame saw.
    pub closed spec fn scroll_last_log_count(self) -> usize {
        self.scroll.spec_last_log_count()
    }

    /// One frame's walk over the store with the console's own height
    /// cache (see `layout_logs`): hidden entries reserve nothing, shown
    /// entries are measured into the cache at first sight, and the
    /// returned extent is the total scroll extent, independent of the
    /// viewport and of whether virtualization skips.
    pub fn render_logs(
        &mut self,
        measured: &Vec<u32>,
        origin_y: i64,
        viewport_bottom: i64,
        virtualize: bool,
    ) -> (extent: u64)
        requires
            measured@.len() == old(self).spec_logs().len(),
            old(self).spec_logs().len() <= u32::MAX,
            forall|i: int|
                0 <= i < old(self).spec_logs().len() ==> (old(self).spec_heights().spec_get(i)
                    is None || old(self).spec_heights().spec_get(i) == Some(measured@[i])),
        ensures
            extent == spec_visible_extent(
                old(self).spec_logs(),
                old(self).spec_filter(),
                measured@,
            ),
            forall|i: int|
                0 <= i < old(self).spec_logs().len() && old(self).spec_filter().spec_matches(
                    old(self).spec_logs()[i],
                ) ==> final(self).spec_heights().spec_get(i) == Some(measured@[i]),
            forall|i: int|
                !(0 <= i < old(self).spec_logs().len() && old(self).spec_filter().spec_matches(
                    old(self).spec_logs()[i],
                )) ==> #[trigger] final(self).spec_heights().spec_get(i) == old(
                    self,
                ).spec_heights().spec_get(i),
            final(self).spec_logs() == old(self).spec_logs(),
            final(self).spec_mods() == old(self).spec_mods(),
            final(self).spec_filter() == old(self).spec_filter(),
            final(self).spec_selection() == old(self).spec_selection(),
            final(self).scroll_last_log_count() == old(self).scroll_last_log_count(),
    {
        layout_logs(
            &self.logs,
            &self.filter,
            &mut self.log_heights,
            measured,
            origin_y,
            viewport_bottom,
            virtualize,
        )
    }

    /// The text a copy command exports: the selected entries' texts in
    /// store order, joined with newlines; nothing when no entry is
    /// selected, making the copy a no-op.
    pub fn selected_logs_text(&self) -> (r: Option<String>)
        ensures
            match r {
                Some(text) => spec_selected_logs_text(self.spec_logs()) == Some(text@),
                None => spec_selected_logs_text(self.spec_logs()) is None,
            },
    {
        let mut acc: Option<String> = None;
        let mut i: usize = 0;
        while i < self.logs.len()
            invariant
                i <= self.logs@.len(),
                match acc {
                    Some(text) => spec_selected_logs_text(self.logs@.take(i as int)) == Some(
                        text@,
                    ),
                    None => spec_selected_logs_text(self.logs@.take(i as int)) is None,
                },
            decreases self.logs@.len() - i,
        {
            proof {
                assert(self.logs@.take(i + 1).drop_last() =~= self.logs@.take(i as int));
                assert(self.logs@.take(i + 1).last() == self.logs@[i as int]);
            }
            if self.logs[i].is_selected() {
                acc = match acc {
                    None => Some(self.logs[i].data().to_owned()),
                    Some(text) => {
                        let mut text = text;
                        text.append("\n");
                        text.append(self.logs[i].data());
                        proof {
                            reveal_strlit("\n");
                            assert(text@ =~= spec_selected_logs_text(
                                self.logs@.take(i as int),
                            )->Some_0 + seq!['\n'] + self.logs@[i as int].spec_data()@);
                        }
                        Some(text)
                    },
                };
            }
            i += 1;
        }
        proof {
            assert(self.logs@.take(self.logs@.len() as int) =~= self.logs@);
        }
        acc
    }
}

} // verus!
