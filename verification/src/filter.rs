//! The display-time log filter: a severity threshold and a
//! case-insensitive substring match.

use vstd::prelude::*;

use crate::bepinex_log::{BepInExLogEntry, LogLevel};
use crate::text::{contains_substring, is_substring_of, lower_of, to_lowercase_string};

verus! {

/// The current filter: free text (with its case folding kept in sync on
/// every edit, so that the per-frame match allocates nothing) and a level
/// threshold.
pub struct Filter {
    text: String,
    text_lowercase: String,
    level_threshold: LogLevel,
}

impl Filter {
    /// The lowercase field always caches the case folding of the text.
    #[verifier::type_invariant]
    spec fn wf(self) -> bool {
        self.text_lowercase@ == lower_of(self.text@)
    }

    pub closed spec fn spec_text(self) -> String {
        self.text
    }

    pub closed spec fn spec_level_threshold(self) -> LogLevel {
        self.level_threshold
    }

    /// A fresh filter: no text, everything at most `level_threshold` shown.
    pub fn new(level_threshold: LogLevel) -> (filter: Filter)
        ensures
            filter.spec_text()@ == Seq::<char>::empty(),
            filter.spec_level_threshold() == level_threshold,
    {
        let text = String::new();
        let text_lowercase = to_lowercase_string("");
        proof {
            reveal_strlit("");
            assert(text@ =~= ""@);
        }
        Filter { text, text_lowercase, level_threshold }
    }

    /// Current filter text.
    pub fn text(&self) -> (text: &str)
        ensures
            text@ == self.spec_text()@,
    {
        self.text.as_str()
    }

    /// Current level threshold.
    pub fn level_threshold(&self) -> (level: LogLevel)
        ensures
            level == self.spec_level_threshold(),
    {
        self.level_threshold
    }

    /// Replace the filter text, keeping the cached case folding in sync.
    pub fn set_text(&mut self, text: &str)
        ensures
            final(self).spec_text()@ == text@,
            final(self).spec_level_threshold() == old(self).spec_level_threshold(),
    {
        proof {
            use_type_invariant(&*self);
        }
        let text_lowercase = to_lowercase_string(text);
        let level_threshold = self.level_threshold;
        *self = Filter { text: text.to_owned(), text_lowercase, level_threshold };
    }

    /// Replace the level threshold.
    pub fn set_level_threshold(&mut self, level_threshold: LogLevel)
        ensures
            final(self).spec_text()@ == old(self).spec_text()@,
            final(self).spec_level_threshold() == level_threshold,
    {
        proof {
            use_type_invariant(&*self);
        }
        self.level_threshold = level_threshold;
    }

    /// An entry matches the filter exactly when its level value is at most
    /// the threshold value, and the text is empty or its case folding
    /// occurs inside the case folding of the entry's text.
    pub open spec fn spec_matches(self, entry: BepInExLogEntry) -> bool {
        &&& entry.spec_level().value() <= self.spec_level_threshold().value()
        &&& (self.spec_text()@.len() == 0 || is_substring_of(
            lower_of(self.spec_text()@),
            lower_of(entry.spec_data()@),
        ))
    }

    /// The text part of the match alone: empty text lets everything
    /// through, otherwise the folded filter text must occur inside the
    /// folded entry text.
    pub fn does_log_match_text_filter(&self, log: &BepInExLogEntry) -> (r: bool)
        ensures
            r == (self.spec_text()@.len() == 0 || is_substring_of(
                lower_of(self.spec_text()@),
                lower_of(log.spec_data()@),
            )),
    {
        proof {
            use_type_invariant(self);
        }
        if self.text.as_str().is_empty() {
            return true;
        }
        contains_substring(log.data_lowercase(), self.text_lowercase.as_str())
    }

    /// Whether the filtered view shows `log`.
    pub fn matches(&self, log: &BepInExLogEntry) -> (r: bool)
        ensures
            r == self.spec_matches(*log),
    {
        if !log.level().le(self.level_threshold()) {
            return false;
        }
        self.does_log_match_text_filter(log)
    }
}

/// Indices of the stored entries the filtered view shows, in store order:
/// exactly those whose entry matches the filter, each at most once, in
/// increasing order.
pub fn visible_indices(logs: &Vec<BepInExLogEntry>, filter: &Filter) -> (shown: Vec<usize>)
    ensures
        forall|k: int|
            0 <= k < shown@.len() ==> #[trigger] shown@[k] < logs@.len() && filter.spec_matches(
                logs@[shown@[k] as int],
            ),
        forall|i: int|
            0 <= i < logs@.len() && filter.spec_matches(#[trigger] logs@[i]) ==> shown@.contains(
                i as usize,
            ),
        forall|k1: int, k2: int|
            0 <= k1 < k2 < shown@.len() ==> #[trigger] shown@[k1] < #[trigger] shown@[k2],
{
    let mut shown: Vec<usize> = Vec::new();
    let mut i: usize = 0;
    while i < logs.len()
        invariant
            i <= logs@.len(),
            forall|k: int|
                0 <= k < shown@.len() ==> #[trigger] shown@[k] < i && filter.spec_matches(
                    logs@[shown@[k] as int],
                ),
            forall|j: int|
                0 <= j < i && filter.spec_matches(#[trigger] logs@[j]) ==> shown@.contains(
                    j as usize,
                ),
            forall|k1: int, k2: int|
                0 <= k1 < k2 < shown@.len() ==> #[trigger] shown@[k1] < #[trigger] shown@[k2],
        decreases logs@.len() - i,
    {
        let ghost pre_shown = shown@;
        if filter.matches(&logs[i]) {
            shown.push(i);
            proof {
                assert forall|j: int|
                    0 <= j < i + 1 && filter.spec_matches(logs@[j]) implies shown@.contains(
                    j as usize,
                ) by {
                    if j < i {
                        let k = choose|k: int|
                            0 <= k < pre_shown.len() && pre_shown[k] == j as usize;
                        assert(shown@[k] == j as usize);
                    } else {
                        assert(shown@[pre_shown.len() as int] == i as usize);
                    }
                }
            }
        }
        i += 1;
    }
    shown
}

} // verus!
