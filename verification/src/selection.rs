//! Click-drag range selection over the stored log entries.
//!
//! Selection works on stable store indices, never on transient filtered
//! positions. A press on an entry anchors the range there; holding the
//! button and hovering another entry extends the range from the anchor;
//! pressing the already-anchored entry again clears the whole selection,
//! remembering that entry so the same continuous press does not reselect
//! it at once. The unset state is carried by a sentinel index, the largest
//! representable one, which no real entry can have.

use vstd::prelude::*;

use crate::bepinex_log::BepInExLogEntry;

verus! {

/// Sentinel index meaning "no selection".
pub const NO_SELECTION: usize = usize::MAX;

/// `value` lies between the two bounds, whichever of them is lower.
pub open spec fn spec_between(value: int, bound1: int, bound2: int) -> bool {
    if bound1 <= bound2 {
        bound1 <= value <= bound2
    } else {
        bound2 <= value <= bound1
    }
}

/// Whether `value` lies between the two bounds, in either order.
pub fn is_between(value: usize, bound1: usize, bound2: usize) -> (r: bool)
    ensures
        r == spec_between(value as int, bound1 as int, bound2 as int),
{
    let lower_bound = if bound1 < bound2 {
        bound1
    } else {
        bound2
    };
    let upper_bound = if bound1 < bound2 {
        bound2
    } else {
        bound1
    };
    value >= lower_bound && value <= upper_bound
}

/// The drag-selection state, sampled and advanced once per frame.
pub struct LogSelection {
    button_currently_down: bool,
    button_just_got_down: bool,
    index_of_first_selected_log: usize,
    index_of_last_selected_log: usize,
    index_of_last_unselected_log: usize,
}

impl LogSelection {
    /// Anchor and extent are set and cleared together; every value of the
    /// type satisfies this.
    #[verifier::type_invariant]
    pub closed spec fn inv(self) -> bool {
        (self.index_of_first_selected_log == NO_SELECTION) == (self.index_of_last_selected_log
            == NO_SELECTION)
    }

    /// The primary button is held down this frame.
    pub closed spec fn spec_button_down(self) -> bool {
        self.button_currently_down
    }

    /// The primary button went down this very frame.
    pub closed spec fn spec_just_pressed(self) -> bool {
        self.button_just_got_down
    }

    /// The primary button is held down this frame.
    pub fn button_down(&self) -> (r: bool)
        ensures
            r == self.spec_button_down(),
    {
        self.button_currently_down
    }

    /// The primary button went down this very frame.
    pub fn just_pressed(&self) -> (r: bool)
        ensures
            r == self.spec_just_pressed(),
    {
        self.button_just_got_down
    }

    /// The anchor: the entry the drag started on, or the sentinel.
    pub closed spec fn spec_first(self) -> usize {
        self.index_of_first_selected_log
    }

    /// The extent: the entry the drag last hovered, or the sentinel.
    pub closed spec fn spec_last(self) -> usize {
        self.index_of_last_selected_log
    }

    /// The entry a press last unselected, or the sentinel.
    pub closed spec fn spec_last_unselected(self) -> usize {
        self.index_of_last_unselected_log
    }

    /// Some range is selected.
    pub open spec fn spec_active(self) -> bool {
        self.spec_first() != NO_SELECTION
    }

    /// The lower end of the selected range.
    pub open spec fn spec_lowest(self) -> int {
        if self.spec_first() <= self.spec_last() {
            self.spec_first() as int
        } else {
            self.spec_last() as int
        }
    }

    /// The upper end of the selected range.
    pub open spec fn spec_highest(self) -> int {
        if self.spec_first() <= self.spec_last() {
            self.spec_last() as int
        } else {
            self.spec_first() as int
        }
    }

    /// `index` lies inside the selected range.
    pub open spec fn spec_selects(self, index: int) -> bool {
        spec_between(index, self.spec_first() as int, self.spec_last() as int)
    }

    /// No selection, no buttons down.
    pub fn new() -> (selection: LogSelection)
        ensures
            !selection.spec_active(),
            !selection.spec_button_down(),
            !selection.spec_just_pressed(),
            selection.spec_last_unselected() == NO_SELECTION,
    {
        LogSelection {
            button_currently_down: false,
            button_just_got_down: false,
            index_of_first_selected_log: NO_SELECTION,
            index_of_last_selected_log: NO_SELECTION,
            index_of_last_unselected_log: NO_SELECTION,
        }
    }

    /// Record this frame's pointer state; the selected range is kept.
    pub fn update_pointer_state(&mut self, primary_down: bool, primary_pressed: bool)
        ensures
            final(self).spec_button_down() == primary_down,
            final(self).spec_just_pressed() == primary_pressed,
            final(self).spec_first() == old(self).spec_first(),
            final(self).spec_last() == old(self).spec_last(),
            final(self).spec_last_unselected() == old(self).spec_last_unselected(),
    {
        proof {
            use_type_invariant(&*self);
        }
        self.button_currently_down = primary_down;
        self.button_just_got_down = primary_pressed;
    }

    /// Advance the selection for entry `log_index`, hovered or not, this
    /// frame, as `spec_selection_transition` describes. The sentinel is no
    /// real index, so real entries sit below it.
    pub fn update_selection(&mut self, hovered: bool, log_index: usize)
        requires
            log_index < NO_SELECTION,
        ensures
            spec_selection_transition(*old(self), *final(self), hovered, log_index),
    {
        proof {
            use_type_invariant(&*self);
        }
        if self.button_currently_down {
            if hovered {
                if self.button_just_got_down {
                    if self.index_of_first_selected_log != log_index {
                        *self = LogSelection {
                            index_of_first_selected_log: log_index,
                            index_of_last_selected_log: log_index,
                            ..*self
                        };
                    } else {
                        // the same entry was pressed again: unselect all,
                        // and remember it so that still holding the button
                        // does not instantly reselect it the next frame
                        *self = LogSelection {
                            index_of_first_selected_log: NO_SELECTION,
                            index_of_last_selected_log: NO_SELECTION,
                            index_of_last_unselected_log: log_index,
                            ..*self
                        };
                    }
                } else {
                    if self.index_of_last_unselected_log != log_index {
                        let anchor = if self.index_of_first_selected_log == NO_SELECTION {
                            log_index
                        } else {
                            self.index_of_first_selected_log
                        };
                        *self = LogSelection {
                            index_of_first_selected_log: anchor,
                            index_of_last_selected_log: log_index,
                            ..*self
                        };
                    }
                }
            } else if self.button_just_got_down {
                *self = LogSelection {
                    index_of_first_selected_log: NO_SELECTION,
                    index_of_last_selected_log: NO_SELECTION,
                    ..*self
                };
            }
        }
    }

    /// Recompute every entry's selected mark from the current range: an
    /// entry is marked exactly when its index lies inside the range; with
    /// no selection active nothing is marked, since no real index reaches
    /// the sentinel. Levels and texts are untouched.
    pub fn mark_selected(&self, logs: &mut Vec<BepInExLogEntry>)
        ensures
            final(logs)@.len() == old(logs)@.len(),
            forall|i: int|
                0 <= i < old(logs)@.len() ==> {
                    &&& (#[trigger] final(logs)@[i]).spec_selected() == self.spec_selects(i)
                    &&& final(logs)@[i].spec_level() == old(logs)@[i].spec_level()
                    &&& final(logs)@[i].spec_data() == old(logs)@[i].spec_data()
                    &&& final(logs)@[i].spec_data_lowercase() == old(logs)@[i].spec_data_lowercase()
                },
    {
        let first = self.index_of_first_selected_log;
        let last = self.index_of_last_selected_log;
        let mut i: usize = 0;
        while i < logs.len()
            invariant
                i <= logs@.len(),
                logs@.len() == old(logs)@.len(),
                first == self.spec_first(),
                last == self.spec_last(),
                forall|j: int|
                    0 <= j < i ==> {
                        &&& (#[trigger] logs@[j]).spec_selected() == self.spec_selects(j)
                        &&& logs@[j].spec_level() == old(logs)@[j].spec_level()
                        &&& logs@[j].spec_data() == old(logs)@[j].spec_data()
                        &&& logs@[j].spec_data_lowercase() == old(logs)@[j].spec_data_lowercase()
                    },
                forall|j: int| i <= j < logs@.len() ==> #[trigger] logs@[j] == old(logs)@[j],
            decreases logs@.len() - i,
        {
            let selected = is_between(i, first, last);
            logs[i].set_selected(selected);
            i += 1;
        }
    }
}

/// How one frame's look at entry `log_index`, hovered or not, advances
/// the selection from `pre` to `post`. Nothing changes while the button
/// is up, and nothing while holding over the entry a press just
/// unselected; a fresh press on a new entry anchors the range there; a
/// fresh press on the anchored entry clears the selection and remembers
/// the entry, so the same continuous press does not reselect it at once;
/// a fresh press outside every entry clears the selection; holding over
/// any other entry extends the range to it, re-anchoring there if the
/// selection was cleared mid-press. The pointer flags are never touched
/// here.
pub open spec fn spec_selection_transition(
    pre: LogSelection,
    post: LogSelection,
    hovered: bool,
    log_index: usize,
) -> bool {
    &&& post.spec_button_down() == pre.spec_button_down()
    &&& post.spec_just_pressed() == pre.spec_just_pressed()
    &&& (!pre.spec_button_down() ==> post == pre)
    &&& (pre.spec_button_down() && hovered && pre.spec_just_pressed() && pre.spec_first()
        != log_index ==> {
        &&& post.spec_first() == log_index
        &&& post.spec_last() == log_index
        &&& post.spec_last_unselected() == pre.spec_last_unselected()
    })
    &&& (pre.spec_button_down() && hovered && pre.spec_just_pressed() && pre.spec_first()
        == log_index ==> {
        &&& post.spec_first() == NO_SELECTION
        &&& post.spec_last() == NO_SELECTION
        &&& post.spec_last_unselected() == log_index
    })
    &&& (pre.spec_button_down() && hovered && !pre.spec_just_pressed()
        && pre.spec_last_unselected() != log_index ==> {
        &&& post.spec_first() == if pre.spec_active() {
            pre.spec_first()
        } else {
            log_index
        }
        &&& post.spec_last() == log_index
        &&& post.spec_last_unselected() == pre.spec_last_unselected()
    })
    &&& (pre.spec_button_down() && hovered && !pre.spec_just_pressed()
        && pre.spec_last_unselected() == log_index ==> post == pre)
    &&& (pre.spec_button_down() && !hovered && pre.spec_just_pressed() ==> {
        &&& post.spec_first() == NO_SELECTION
        &&& post.spec_last() == NO_SELECTION
        &&& post.spec_last_unselected() == pre.spec_last_unselected()
    })
    &&& (pre.spec_button_down() && !hovered && !pre.spec_just_pressed() ==> post == pre)
}

/// Selection monotonicity: whatever drag operations led here, an active
/// selection has its lower end at most its upper end, and an entry's index
/// is selected exactly when it lies in that closed range; with no
/// selection active no index below the sentinel is selected.
pub proof fn lemma_selection_range(selection: LogSelection, index: int)
    requires
        selection.inv(),
    ensures
        selection.spec_lowest() <= selection.spec_highest(),
        selection.spec_active() ==> selection.spec_selects(index) == (selection.spec_lowest()
            <= index <= selection.spec_highest()),
        !selection.spec_active() && 0 <= index < NO_SELECTION ==> !selection.spec_selects(index),
{
}

} // verus!
