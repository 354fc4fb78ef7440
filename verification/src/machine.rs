//! The checkout as a state machine over mathematical values.
//!
//! A checkout alternates between decisions and work that happens elsewhere:
//! removing, fetching and writing files. The machine holds the decisions. It
//! is asked for the next step, and it is told what became of the steps it
//! handed out. This module defines the machine's states and its two
//! transitions; [`crate::engine::Engine`] is the machine in executable form.

use vstd::prelude::*;
use crate::plan::PlanView;
use crate::stats::{wrapping_total, StatsView};
use crate::types::{FileType, KeyView, StoreResultView, UpdateFlag};
use crate::window::WindowView;

verus! {

/// Most operations of one kind that are in flight at any time.
pub const PARALLEL_CHECKOUT: usize = 16;

/// Where a checkout stands.
#[derive(Clone, Copy, Debug, PartialEq, Eq, Structural)]
pub enum Phase {
    /// Files are being removed.
    Removing,
    /// All files are removed; the store is being asked for the contents.
    Fetching,
    /// Contents are being written and executable bits flipped.
    Updating,
    /// Every action of the plan was carried out.
    Succeeded,
    /// An operation failed, and the checkout was given up.
    Failed,
}

/// Mathematical value of a [`crate::engine::CheckoutError`].
pub enum CheckoutErrorView<E> {
    Failed(E),
    FetchFailed { path: Seq<char>, error: E },
    NotFound { key: KeyView },
}

/// Mathematical value of an [`crate::engine::Event`].
pub enum EventView<E> {
    Removed(Result<(), E>),
    FetchStarted(Result<(), E>),
    Outcome(Option<Result<StoreResultView, E>>),
    Written(Result<usize, E>),
    MetaUpdated(Result<(), E>),
}

/// Mathematical value of a [`crate::engine::Step`].
pub enum StepView {
    Remove { path: Seq<char> },
    Fetch { keys: Seq<KeyView> },
    Write { path: Seq<char>, data: Seq<u8>, flag: Option<UpdateFlag> },
    SetExecutable { path: Seq<char>, executable: bool },
    Await { outcome: bool, completion: bool },
    Finished,
}

/// The flag with which a file of the given kind is written.
pub open spec fn flag_of(file_type: FileType) -> Option<UpdateFlag> {
    match file_type {
        FileType::Regular => None,
        FileType::Executable => Some(UpdateFlag::Executable),
        FileType::Symlink => Some(UpdateFlag::Symlink),
    }
}

/// State of a checkout.
pub struct EngineView<E> {
    /// The plan that is carried out.
    pub plan: PlanView,
    pub phase: Phase,
    /// Progress through `plan.remove`.
    pub removes: WindowView,
    /// Progress through `plan.update_content`.
    pub writes: WindowView,
    /// Progress through `plan.update_meta`.
    pub metas: WindowView,
    /// Whether the store has said that it has no further outcome.
    pub stream_ended: bool,
    /// Content that was fetched for the next content update and whose write
    /// was not handed out yet.
    pub pending: Option<Seq<u8>>,
    /// Byte counts of the writes that succeeded, in the order in which they
    /// were reported.
    pub written: Seq<usize>,
    /// The failure that ended the checkout.
    pub error: Option<CheckoutErrorView<E>>,
}

impl<E> EngineView<E> {
    /// The state in which a checkout of `plan` begins.
    pub open spec fn start(plan: PlanView) -> EngineView<E> {
        EngineView {
            plan,
            phase: Phase::Removing,
            removes: WindowView::fresh(plan.remove.len(), PARALLEL_CHECKOUT as nat),
            writes: WindowView::fresh(plan.update_content.len(), PARALLEL_CHECKOUT as nat),
            metas: WindowView::fresh(plan.update_meta.len(), PARALLEL_CHECKOUT as nat),
            stream_ended: false,
            pending: None,
            written: Seq::empty(),
            error: None,
        }
    }

    /// Whether nothing of the update stage has happened yet.
    pub open spec fn update_untouched(self) -> bool {
        &&& self.writes == WindowView::fresh(
            self.plan.update_content.len(),
            PARALLEL_CHECKOUT as nat,
        )
        &&& self.metas == WindowView::fresh(self.plan.update_meta.len(), PARALLEL_CHECKOUT as nat)
        &&& !self.stream_ended
        &&& self.pending is None
        &&& self.written.len() == 0
    }

    /// What holds of every state that a checkout can reach.
    pub open spec fn inv(self) -> bool {
        &&& self.removes.inv()
        &&& self.removes.total == self.plan.remove.len()
        &&& self.removes.width == PARALLEL_CHECKOUT
        &&& self.writes.inv()
        &&& self.writes.total == self.plan.update_content.len()
        &&& self.writes.width == PARALLEL_CHECKOUT
        &&& self.metas.inv()
        &&& self.metas.total == self.plan.update_meta.len()
        &&& self.metas.width == PARALLEL_CHECKOUT
        &&& self.written.len() == self.writes.done
        &&& (self.pending is Some ==> self.writes.has_room() && !self.stream_ended)
        &&& (self.error is Some <==> self.phase is Failed)
        &&& match self.phase {
            Phase::Removing => self.update_untouched(),
            Phase::Fetching => self.removes.drained() && self.update_untouched(),
            Phase::Updating => self.removes.drained(),
            Phase::Succeeded => {
                &&& self.removes.drained()
                &&& self.metas.drained()
                &&& self.writes.in_flight() == 0
                &&& self.pending is None
                &&& (self.stream_ended || self.writes.started == self.writes.total)
            },
            Phase::Failed => true,
        }
    }

    /// The keys that the store is asked for: path and content identifier of
    /// every content update, in the order of the plan.
    pub open spec fn keys(self) -> Seq<KeyView> {
        Seq::new(
            self.plan.update_content.len(),
            |i: int|
                KeyView {
                    path: self.plan.update_content[i].path,
                    hgid: self.plan.update_content[i].content_hgid,
                },
        )
    }

    /// The progress counters in this state.
    pub open spec fn stats(self) -> StatsView {
        StatsView {
            removed: self.removes.done,
            updated: self.writes.done,
            meta_updated: self.metas.done,
            written_bytes: wrapping_total(self.written) as nat,
        }
    }

    /// Number of operations handed out and not reported back.
    pub open spec fn in_flight(self) -> nat {
        self.removes.in_flight() + self.writes.in_flight() + self.metas.in_flight()
    }

    /// Whether the checkout has ended, in success or in failure.
    pub open spec fn finished(self) -> bool {
        self.phase is Succeeded || self.phase is Failed
    }

    /// Whether the next outcome of the store can be put to use now: there is
    /// a content update left to pair it with, and room to start its write.
    pub open spec fn can_pull(self) -> bool {
        &&& self.phase is Updating
        &&& !self.stream_ended
        &&& self.pending is None
        &&& self.writes.has_room()
    }

    /// The step to take next, and the state once it was handed out.
    ///
    /// Removals come first, in the order of the plan, as long as there is
    /// room for one. Once all of them are done, the store is asked for the
    /// contents. Then content that was fetched is written and executable bits
    /// are flipped, each in the order of the plan and as long as there is
    /// room. The machine waits only when there is nothing to hand out, and it
    /// finishes when nothing is left to wait for.
    pub open spec fn next_step(self) -> (EngineView<E>, StepView) {
        match self.phase {
            Phase::Removing => if self.removes.has_room() {
                (
                    EngineView { removes: self.removes.start(), ..self },
                    StepView::Remove { path: self.plan.remove[self.removes.started as int] },
                )
            } else if self.removes.in_flight() > 0 {
                (self, StepView::Await { outcome: false, completion: true })
            } else {
                (EngineView { phase: Phase::Fetching, ..self }, StepView::Fetch { keys: self.keys() })
            },
            Phase::Fetching => (self, StepView::Fetch { keys: self.keys() }),
            Phase::Updating => if self.pending is Some {
                let action = self.plan.update_content[self.writes.started as int];
                (
                    EngineView { writes: self.writes.start(), pending: None, ..self },
                    StepView::Write {
                        path: action.path,
                        data: self.pending->0,
                        flag: flag_of(action.file_type),
                    },
                )
            } else if self.metas.has_room() {
                let action = self.plan.update_meta[self.metas.started as int];
                (
                    EngineView { metas: self.metas.start(), ..self },
                    StepView::SetExecutable { path: action.path, executable: action.set_x_flag },
                )
            } else if self.can_pull() || self.writes.in_flight() + self.metas.in_flight() > 0 {
                (
                    self,
                    StepView::Await {
                        outcome: self.can_pull(),
                        completion: self.writes.in_flight() + self.metas.in_flight() > 0,
                    },
                )
            } else {
                (EngineView { phase: Phase::Succeeded, ..self }, StepView::Finished)
            },
            Phase::Succeeded => (self, StepView::Finished),
            Phase::Failed => (self, StepView::Finished),
        }
    }

    /// Whether `event` can be what became of a step that was handed out and
    /// is still open.
    pub open spec fn accepts(self, event: EventView<E>) -> bool {
        match event {
            EventView::Removed(_) => self.phase is Removing && self.removes.in_flight() > 0,
            EventView::FetchStarted(_) => self.phase is Fetching,
            EventView::Outcome(_) => self.can_pull(),
            EventView::Written(_) => self.phase is Updating && self.writes.in_flight() > 0,
            EventView::MetaUpdated(_) => self.phase is Updating && self.metas.in_flight() > 0,
        }
    }

    /// This state, given up because of `error`.
    pub open spec fn fail(self, error: CheckoutErrorView<E>) -> EngineView<E> {
        EngineView { phase: Phase::Failed, error: Some(error), ..self }
    }

    /// The state after `event`, for an event that the state accepts.
    ///
    /// An operation that succeeded is counted. The first failure ends the
    /// checkout: of a removal, a write, a flip or the request to the store as
    /// it was reported; of one outcome with the path it was fetched for; and a
    /// key that the store does not hold as a failure of its own.
    pub open spec fn after(self, event: EventView<E>) -> EngineView<E> {
        match event {
            EventView::Removed(Ok(_)) => EngineView { removes: self.removes.complete(), ..self },
            EventView::Removed(Err(e)) => self.fail(CheckoutErrorView::Failed(e)),
            EventView::FetchStarted(Ok(_)) => EngineView { phase: Phase::Updating, ..self },
            EventView::FetchStarted(Err(e)) => self.fail(CheckoutErrorView::Failed(e)),
            EventView::Outcome(None) => EngineView { stream_ended: true, ..self },
            EventView::Outcome(Some(Ok(StoreResultView::Found(data)))) => EngineView {
                pending: Some(data),
                ..self
            },
            EventView::Outcome(Some(Ok(StoreResultView::NotFound(key)))) => self.fail(
                CheckoutErrorView::NotFound { key },
            ),
            EventView::Outcome(Some(Err(e))) => self.fail(
                CheckoutErrorView::FetchFailed {
                    path: self.plan.update_content[self.writes.started as int].path,
                    error: e,
                },
            ),
            EventView::Written(Ok(bytes)) => EngineView {
                writes: self.writes.complete(),
                written: self.written.push(bytes),
                ..self
            },
            EventView::Written(Err(e)) => self.fail(CheckoutErrorView::Failed(e)),
            EventView::MetaUpdated(Ok(_)) => EngineView { metas: self.metas.complete(), ..self },
            EventView::MetaUpdated(Err(e)) => self.fail(CheckoutErrorView::Failed(e)),
        }
    }

    /// The state after `event`: an event that the state does not accept
    /// leaves it as it is.
    pub open spec fn handle(self, event: EventView<E>) -> EngineView<E> {
        if self.accepts(event) {
            self.after(event)
        } else {
            self
        }
    }
}

} // verus!
