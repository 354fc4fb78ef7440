//! A bounded window over a list of work items.

use vstd::prelude::*;

verus! {

/// Mathematical value of a [`Window`].
pub struct WindowView {
    /// Number of items in the list.
    pub total: nat,
    /// Most items that may be in flight at once.
    pub width: nat,
    /// Number of items started so far: items `0..started`, in that order.
    pub started: nat,
    /// Number of started items that have completed.
    pub done: nat,
}

impl WindowView {
    /// A window over `total` items in which nothing was started yet.
    pub open spec fn fresh(total: nat, width: nat) -> WindowView {
        WindowView { total, width, started: 0, done: 0 }
    }

    /// Whether the counts fit together: what completed was started, what was
    /// started is in the list, and no more than `width` items are in flight.
    pub open spec fn inv(self) -> bool {
        &&& self.done <= self.started <= self.total
        &&& self.started - self.done <= self.width
    }

    /// Number of items started and not completed.
    pub open spec fn in_flight(self) -> nat {
        (self.started - self.done) as nat
    }

    /// Whether the next item of the list may be started now.
    pub open spec fn has_room(self) -> bool {
        self.started < self.total && self.in_flight() < self.width
    }

    /// Whether every item of the list was started and has completed.
    pub open spec fn drained(self) -> bool {
        self.started == self.total && self.done == self.started
    }

    /// The window after its next item was started.
    pub open spec fn start(self) -> WindowView {
        WindowView { started: self.started + 1, ..self }
    }

    /// The window after one item in flight completed.
    pub open spec fn complete(self) -> WindowView {
        WindowView { done: self.done + 1, ..self }
    }
}

/// Starting an item where there is room, and completing one that is in
/// flight, keep the number of items in flight within the width.
pub proof fn lemma_window_bounded(w: WindowView)
    requires
        w.inv(),
    ensures
        w.in_flight() <= w.width,
        w.has_room() ==> w.start().inv() && w.start().in_flight() == w.in_flight() + 1,
        w.in_flight() > 0 ==> w.complete().inv() && w.complete().in_flight() == w.in_flight() - 1,
{
}

/// Keeps the items of a list flowing: they are started in the order of the
/// list, at most `width` of them are in flight at any time, and a further one
/// starts only when there is room.
#[derive(Clone, Copy, Debug, PartialEq, Eq)]
pub struct Window {
    total: usize,
    width: usize,
    started: usize,
    done: usize,
}

impl View for Window {
    type V = WindowView;

    closed spec fn view(&self) -> WindowView {
        WindowView {
            total: self.total as nat,
            width: self.width as nat,
            started: self.started as nat,
            done: self.done as nat,
        }
    }
}

impl Window {
    /// A window over a list of `total` items, of which at most `width` may be
    /// in flight at once.
    pub fn new(total: usize, width: usize) -> (w: Window)
        ensures
            w@ == WindowView::fresh(total as nat, width as nat),
            w@.inv(),
    {
        Window { total, width, started: 0, done: 0 }
    }

    /// Number of items started and not completed.
    pub fn in_flight(&self) -> (n: usize)
        requires
            self@.inv(),
        ensures
            n == self@.in_flight(),
            n <= self@.width,
    {
        self.started - self.done
    }

    /// The counts of a window are machine numbers.
    pub proof fn lemma_counts_fit(&self)
        ensures
            self@.total <= usize::MAX,
            self@.width <= usize::MAX,
            self@.started <= usize::MAX,
            self@.done <= usize::MAX,
    {
    }

    /// Number of items started.
    pub fn started(&self) -> (n: usize)
        ensures
            n == self@.started,
    {
        self.started
    }

    /// Number of items completed.
    pub fn done(&self) -> (n: usize)
        ensures
            n == self@.done,
    {
        self.done
    }

    /// Whether the next item of the list may be started now.
    pub fn has_room(&self) -> (b: bool)
        requires
            self@.inv(),
        ensures
            b == self@.has_room(),
    {
        self.started < self.total && self.started - self.done < self.width
    }

    /// Whether every item of the list was started and has completed.
    pub fn drained(&self) -> (b: bool)
        ensures
            b == self@.drained(),
    {
        self.started == self.total && self.done == self.started
    }

    /// Starts the next item of the list and returns its position.
    pub fn start(&mut self) -> (index: usize)
        requires
            old(self)@.inv(),
            old(self)@.has_room(),
        ensures
            index == old(self)@.started,
            final(self)@ == old(self)@.start(),
            final(self)@.inv(),
    {
        let index = self.started;
        self.started = self.started + 1;
        index
    }

    /// Records that one item in flight completed.
    pub fn complete(&mut self)
        requires
            old(self)@.inv(),
            old(self)@.in_flight() > 0,
        ensures
            final(self)@ == old(self)@.complete(),
            final(self)@.inv(),
    {
        self.done = self.done + 1;
    }
}

} // verus!
