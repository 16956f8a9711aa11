//! Which pages the driver tracks, as far as the control calls tell.
//!
//! The driver is the source of truth for what is tracked. This module
//! holds the book that the driver keeps by the rules of the control
//! surface, so that what a sequence of control calls amounts to can be
//! stated and checked: nothing becomes tracked or untracked but by a
//! call that says so.

use vstd::prelude::*;
use std::collections::HashSet;
use crate::api::{ControlCall, ControlCallView, calls_view};
use crate::types::PageTrackMode;

verus! {

/// The call puts the page `gpa` under tracking in mode `mode`.
pub open spec fn tracks(call: ControlCallView, gpa: u64, mode: PageTrackMode) -> bool {
    match call {
        ControlCallView::TrackPage { gpa: g, track_mode } => g == gpa && track_mode == mode,
        ControlCallView::TrackAllPages { track_mode } => track_mode == mode,
        _ => false,
    }
}

/// The call ends the tracking of the page `gpa` in mode `mode`.
pub open spec fn untracks(call: ControlCallView, gpa: u64, mode: PageTrackMode) -> bool {
    match call {
        ControlCallView::UntrackPage { gpa: g, track_mode } => g == gpa && track_mode == mode,
        ControlCallView::UntrackAllPages { track_mode } => track_mode == mode,
        _ => false,
    }
}

/// The tracked pages after one more call.
pub open spec fn tracked_after_call(
    before: Set<(u64, PageTrackMode)>,
    call: ControlCallView,
) -> Set<(u64, PageTrackMode)> {
    Set::new(
        |page: (u64, PageTrackMode)|
            tracks(call, page.0, page.1) || (before.contains(page) && !untracks(
                call,
                page.0,
                page.1,
            )),
    )
}

/// The tracked pages after a sequence of calls, starting with nothing
/// tracked.
pub open spec fn tracked_after(calls: Seq<ControlCallView>) -> Set<(u64, PageTrackMode)>
    decreases calls.len(),
{
    if calls.len() == 0 {
        Set::empty()
    } else {
        tracked_after_call(tracked_after(calls.drop_last()), calls.last())
    }
}

/// A page is tracked after a sequence of control calls exactly if some
/// call of the sequence put it under tracking and no later call ended
/// that. So the order of the calls counts, and nothing but the calls.
pub proof fn lemma_tracked_by_last_word(calls: Seq<ControlCallView>, gpa: u64, mode: PageTrackMode)
    ensures
        tracked_after(calls).contains((gpa, mode)) <==> exists|i: int|
            0 <= i < calls.len() && #[trigger] tracks(calls[i], gpa, mode) && forall|j: int|
                i < j < calls.len() ==> !untracks(#[trigger] calls[j], gpa, mode),
    decreases calls.len(),
{
    if calls.len() > 0 {
        let before = calls.drop_last();
        let last = calls.last();
        lemma_tracked_by_last_word(before, gpa, mode);
        if tracked_after(calls).contains((gpa, mode)) {
            if tracks(last, gpa, mode) {
                let i = calls.len() - 1;
                assert(tracks(calls[i], gpa, mode));
            } else {
                let i = choose|i: int|
                    0 <= i < before.len() && #[trigger] tracks(before[i], gpa, mode) && forall|j: int|
                        i < j < before.len() ==> !untracks(#[trigger] before[j], gpa, mode);
                assert(tracks(calls[i], gpa, mode));
                assert forall|j: int| i < j < calls.len() implies !untracks(
                    #[trigger] calls[j],
                    gpa,
                    mode,
                ) by {
                    if j < before.len() {
                        assert(calls[j] == before[j]);
                    }
                }
            }
        }
        if exists|i: int|
            0 <= i < calls.len() && #[trigger] tracks(calls[i], gpa, mode) && forall|j: int|
                i < j < calls.len() ==> !untracks(#[trigger] calls[j], gpa, mode) {
            let i = choose|i: int|
                0 <= i < calls.len() && #[trigger] tracks(calls[i], gpa, mode) && forall|j: int|
                    i < j < calls.len() ==> !untracks(#[trigger] calls[j], gpa, mode);
            if i < before.len() {
                assert(tracks(before[i], gpa, mode));
                assert forall|j: int| i < j < before.len() implies !untracks(
                    #[trigger] before[j],
                    gpa,
                    mode,
                ) by {
                    assert(calls[j] == before[j]);
                }
                assert(!untracks(calls[calls.len() - 1], gpa, mode));
            }
        }
    }
}

/// The tracked pages of one mode: the listed pages, or all pages but the
/// listed ones.
struct ModeBook {
    all_but: bool,
    pages: HashSet<u64>,
}

impl View for ModeBook {
    type V = Set<u64>;

    closed spec fn view(&self) -> Set<u64> {
        if self.all_but {
            Set::new(|gpa: u64| !self.pages@.contains(gpa))
        } else {
            self.pages@
        }
    }
}

impl ModeBook {
    fn new() -> (r: ModeBook)
        ensures
            r@ == Set::<u64>::empty(),
    {
        ModeBook { all_but: false, pages: HashSet::new() }
    }

    fn contains(&self, gpa: u64) -> (r: bool)
        ensures
            r == self@.contains(gpa),
    {
        self.pages.contains(&gpa) != self.all_but
    }

    fn track(&mut self, gpa: u64)
        ensures
            final(self)@ == old(self)@.insert(gpa),
    {
        if self.all_but {
            self.pages.remove(&gpa);
        } else {
            self.pages.insert(gpa);
        }
        assert(self@ =~= old(self)@.insert(gpa));
    }

    fn untrack(&mut self, gpa: u64)
        ensures
            final(self)@ == old(self)@.remove(gpa),
    {
        if self.all_but {
            self.pages.insert(gpa);
        } else {
            self.pages.remove(&gpa);
        }
        assert(self@ =~= old(self)@.remove(gpa));
    }

    fn set_all(&mut self, every_page: bool)
        ensures
            final(self)@ == (if every_page {
                Set::<u64>::full()
            } else {
                Set::<u64>::empty()
            }),
    {
        self.all_but = every_page;
        self.pages.clear();
        assert(self@ =~= (if every_page {
            Set::<u64>::full()
        } else {
            Set::<u64>::empty()
        }));
    }
}

/// The book of tracked pages that a driver keeps: a stand-in for the
/// driver wherever control calls are to be played through without one.
pub struct TrackedPages {
    write_pages: ModeBook,
    access_pages: ModeBook,
    exec_pages: ModeBook,
}

impl View for TrackedPages {
    type V = Set<(u64, PageTrackMode)>;

    closed spec fn view(&self) -> Set<(u64, PageTrackMode)> {
        Set::new(
            |page: (u64, PageTrackMode)|
                match page.1 {
                    PageTrackMode::Write => self.write_pages@.contains(page.0),
                    PageTrackMode::Access => self.access_pages@.contains(page.0),
                    PageTrackMode::Exec => self.exec_pages@.contains(page.0),
                },
        )
    }
}

impl TrackedPages {
    /// The book with no page tracked.
    pub fn new() -> (r: TrackedPages)
        ensures
            r@ == Set::<(u64, PageTrackMode)>::empty(),
    {
        let r = TrackedPages {
            write_pages: ModeBook::new(),
            access_pages: ModeBook::new(),
            exec_pages: ModeBook::new(),
        };
        assert(r@ =~= Set::<(u64, PageTrackMode)>::empty());
        r
    }

    /// Whether the page `gpa` is tracked in mode `track_mode`.
    pub fn is_tracked(&self, gpa: u64, track_mode: PageTrackMode) -> (r: bool)
        ensures
            r == self@.contains((gpa, track_mode)),
    {
        match track_mode {
            PageTrackMode::Write => self.write_pages.contains(gpa),
            PageTrackMode::Access => self.access_pages.contains(gpa),
            PageTrackMode::Exec => self.exec_pages.contains(gpa),
        }
    }

    /// Enters one control call into the book. Calls that do not speak of
    /// tracking leave it as it is.
    pub fn apply(&mut self, call: &ControlCall)
        ensures
            final(self)@ == tracked_after_call(old(self)@, call@),
    {
        match call {
            ControlCall::TrackPage { gpa, track_mode } => match track_mode {
                PageTrackMode::Write => self.write_pages.track(*gpa),
                PageTrackMode::Access => self.access_pages.track(*gpa),
                PageTrackMode::Exec => self.exec_pages.track(*gpa),
            },
            ControlCall::UntrackPage { gpa, track_mode } => match track_mode {
                PageTrackMode::Write => self.write_pages.untrack(*gpa),
                PageTrackMode::Access => self.access_pages.untrack(*gpa),
                PageTrackMode::Exec => self.exec_pages.untrack(*gpa),
            },
            ControlCall::TrackAllPages { track_mode } => match track_mode {
                PageTrackMode::Write => self.write_pages.set_all(true),
                PageTrackMode::Access => self.access_pages.set_all(true),
                PageTrackMode::Exec => self.exec_pages.set_all(true),
            },
            ControlCall::UntrackAllPages { track_mode } => match track_mode {
                PageTrackMode::Write => self.write_pages.set_all(false),
                PageTrackMode::Access => self.access_pages.set_all(false),
                PageTrackMode::Exec => self.exec_pages.set_all(false),
            },
            _ => {},
        }
        assert(self@ =~= tracked_after_call(old(self)@, call@));
    }

    /// The book after a sequence of control calls, starting with no page
    /// tracked.
    pub fn replay(calls: &Vec<ControlCall>) -> (r: TrackedPages)
        ensures
            r@ == tracked_after(calls_view(calls@)),
    {
        let mut book = TrackedPages::new();
        let mut i: usize = 0;
        while i < calls.len()
            invariant
                i <= calls.len(),
                book@ == tracked_after(calls_view(calls@.take(i as int))),
            decreases calls.len() - i,
        {
            book.apply(&calls[i]);
            assert(calls_view(calls@.take(i + 1)).drop_last() =~= calls_view(
                calls@.take(i as int),
            ));
            i = i + 1;
        }
        assert(calls@.take(i as int) =~= calls@);
        book
    }
}

} // verus!
