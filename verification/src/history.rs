//! The paths that were visited, with a position among them.
//!
//! Going to a new path drops what lay ahead of the position and appends the
//! path; going back and forward only move the position. Nothing is ever
//! evicted.

use crate::views::{lemma_deep_view_empty, lemma_deep_view_push, lemma_deep_view_truncate};
use vstd::prelude::*;

verus! {

/// The visited paths and the position among them.
pub struct NavigationHistory {
    paths: Vec<String>,
    index: usize,
}

/// A history as contracts see it.
pub struct HistoryView {
    pub paths: Seq<Seq<char>>,
    pub index: int,
}

/// The position is 0 in an empty history and an index into it otherwise.
pub open spec fn history_wf(h: HistoryView) -> bool {
    if h.paths.len() == 0 {
        h.index == 0
    } else {
        0 <= h.index < h.paths.len()
    }
}

/// The history in which nothing was visited yet.
pub open spec fn empty_history() -> HistoryView {
    HistoryView { paths: Seq::empty(), index: 0 }
}

/// The path at the position, if anything was visited.
pub open spec fn current_of(h: HistoryView) -> Option<Seq<char>> {
    if 0 <= h.index < h.paths.len() {
        Some(h.paths[h.index])
    } else {
        None
    }
}

/// The history after a visit to `path`: what lay ahead of the position is
/// gone, and `path` is the last and current entry.
pub open spec fn pushed(h: HistoryView, path: Seq<char>) -> HistoryView {
    if h.paths.len() == 0 {
        HistoryView { paths: seq![path], index: 0 }
    } else {
        HistoryView { paths: h.paths.take(h.index + 1).push(path), index: h.index + 1 }
    }
}

/// Whether there is an entry behind the position.
pub open spec fn can_go_back(h: HistoryView) -> bool {
    h.index > 0
}

/// Whether there is an entry ahead of the position.
pub open spec fn can_go_forward(h: HistoryView) -> bool {
    h.index + 1 < h.paths.len()
}

/// The history after a step back; unchanged at the first entry.
pub open spec fn went_back(h: HistoryView) -> HistoryView {
    if can_go_back(h) {
        HistoryView { paths: h.paths, index: h.index - 1 }
    } else {
        h
    }
}

/// The history after a step forward; unchanged at the last entry.
pub open spec fn went_forward(h: HistoryView) -> HistoryView {
    if can_go_forward(h) {
        HistoryView { paths: h.paths, index: h.index + 1 }
    } else {
        h
    }
}

/// A visit leaves nothing ahead: there is no way forward from where it
/// ends, whatever the history held before.
pub proof fn lemma_push_discards_forward(h: HistoryView, path: Seq<char>)
    requires
        history_wf(h),
    ensures
        history_wf(pushed(h, path)),
        !can_go_forward(pushed(h, path)),
        went_forward(pushed(h, path)) == pushed(h, path),
        current_of(pushed(h, path)) == Some(path),
{
}

/// A visit keeps every entry up to the position it started from.
pub proof fn lemma_push_keeps_past(h: HistoryView, path: Seq<char>, i: int)
    requires
        history_wf(h),
        0 <= i <= h.index,
        h.paths.len() > 0,
    ensures
        pushed(h, path).paths[i] == h.paths[i],
{
}

/// A step back followed by a step forward returns to the same position,
/// where a step back was possible; and the other way round.
pub proof fn lemma_back_and_forward_cancel(h: HistoryView)
    requires
        history_wf(h),
    ensures
        can_go_back(h) ==> went_forward(went_back(h)) == h,
        can_go_forward(h) ==> went_back(went_forward(h)) == h,
        history_wf(went_back(h)),
        history_wf(went_forward(h)),
{
}

impl View for NavigationHistory {
    type V = HistoryView;

    closed spec fn view(&self) -> HistoryView {
        HistoryView { paths: self.paths.deep_view(), index: self.index as int }
    }
}

impl NavigationHistory {
    /// The invariant of the type.
    pub open spec fn wf(&self) -> bool {
        history_wf(self@)
    }

    /// A history in which nothing was visited yet.
    pub fn new() -> (h: NavigationHistory)
        ensures
            h.wf(),
            h@ == empty_history(),
    {
        let h = NavigationHistory { paths: Vec::new(), index: 0 };
        proof {
            lemma_deep_view_empty(h.paths);
        }
        h
    }

    /// Whether the invariant of the type holds. It does for every history
    /// that was made by `new` and changed by the methods below.
    pub fn is_valid(&self) -> (r: bool)
        ensures
            r == self.wf(),
    {
        if self.paths.len() == 0 {
            self.index == 0
        } else {
            self.index < self.paths.len()
        }
    }

    /// The number of entries.
    pub fn len(&self) -> (n: usize)
        ensures
            n == self@.paths.len(),
    {
        self.paths.len()
    }

    /// The position.
    pub fn index(&self) -> (i: usize)
        ensures
            i == self@.index,
    {
        self.index
    }

    /// The entry at `i`, if there is one.
    pub fn get(&self, i: usize) -> (r: Option<String>)
        ensures
            r.deep_view() == if i < self@.paths.len() {
                Some(self@.paths[i as int])
            } else {
                None
            },
    {
        if i < self.paths.len() {
            Some(self.paths[i].clone())
        } else {
            None
        }
    }

    /// The path at the position, if anything was visited.
    pub fn current(&self) -> (r: Option<String>)
        ensures
            r.deep_view() == current_of(self@),
    {
        self.get(self.index)
    }

    /// Records a visit to `path`: drops what lay ahead of the position and
    /// makes `path` the last and current entry.
    pub fn push(&mut self, path: String)
        requires
            old(self).wf(),
        ensures
            final(self).wf(),
            final(self)@ == pushed(old(self)@, path@),
    {
        let ghost before = self.paths;
        if self.paths.len() > 0 {
            self.paths.truncate(self.index + 1);
            self.index = self.index + 1;
        }
        let ghost cut = self.paths;
        self.paths.push(path);
        proof {
            if before@.len() > 0 {
                lemma_deep_view_truncate(before, cut, old(self).index + 1);
            } else {
                lemma_deep_view_empty(cut);
            }
            lemma_deep_view_push(cut, self.paths, path);
            assert(Seq::<Seq<char>>::empty().push(path@) =~= seq![path@]);
        }
    }

    /// Steps back by one entry and returns the path there. At the first
    /// entry, and in an empty history, nothing changes and `None` is
    /// returned.
    pub fn back(&mut self) -> (r: Option<String>)
        requires
            old(self).wf(),
        ensures
            final(self).wf(),
            final(self)@ == went_back(old(self)@),
            r.deep_view() == if can_go_back(old(self)@) {
                current_of(final(self)@)
            } else {
                None
            },
    {
        if self.index > 0 {
            self.index = self.index - 1;
            Some(self.paths[self.index].clone())
        } else {
            None
        }
    }

    /// Steps forward by one entry and returns the path there. At the last
    /// entry, and in an empty history, nothing changes and `None` is
    /// returned.
    pub fn forward(&mut self) -> (r: Option<String>)
        requires
            old(self).wf(),
        ensures
            final(self).wf(),
            final(self)@ == went_forward(old(self)@),
            r.deep_view() == if can_go_forward(old(self)@) {
                current_of(final(self)@)
            } else {
                None
            },
    {
        if self.paths.len() > 0 && self.index < self.paths.len() - 1 {
            self.index = self.index + 1;
            Some(self.paths[self.index].clone())
        } else {
            None
        }
    }
}

} // verus!
