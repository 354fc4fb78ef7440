//! Carrying out a checkout plan, step by step.
//!
//! The engine decides; it does not touch the working directory or the store.
//! Its caller asks it for the next [`Step`], does what the step says, and
//! reports what became of it as an [`Event`]. The engine sees to it that the
//! removals are done before anything is written, that no more than
//! [`PARALLEL_CHECKOUT`] operations of one kind are in flight, that the first
//! failure ends the checkout, and that the counters are handed over only
//! after everything has been done.

use vstd::prelude::*;
use crate::machine::{
    flag_of, CheckoutErrorView, EngineView, EventView, Phase, StepView, PARALLEL_CHECKOUT,
};
use crate::plan::{
    content_views, meta_views, path_views, CheckoutPlan, PlanView, UpdateContentAction,
    UpdateMetaAction,
};
use crate::stats::CheckoutStats;
use crate::types::{FileType, Key, KeyView, StoreResult, UpdateFlag};
use crate::window::Window;

verus! {

/// Why a checkout was given up. `E` is the error of the working directory
/// and of the store.
#[derive(Debug)]
pub enum CheckoutError<E> {
    /// Removing or writing a file, flipping its executable bit, or asking
    /// the store for the contents failed with this error.
    Failed(E),
    /// The store failed to fetch the content for the file at `path`.
    FetchFailed { path: String, error: E },
    /// The store does not hold the content under `key`.
    NotFound { key: Key },
}

impl<E> View for CheckoutError<E> {
    type V = CheckoutErrorView<E>;

    open spec fn view(&self) -> CheckoutErrorView<E> {
        match *self {
            CheckoutError::Failed(e) => CheckoutErrorView::Failed(e),
            CheckoutError::FetchFailed { path, error } => CheckoutErrorView::FetchFailed {
                path: path@,
                error,
            },
            CheckoutError::NotFound { key } => CheckoutErrorView::NotFound { key: key@ },
        }
    }
}

/// What became of a step that the engine handed out.
#[derive(Debug)]
pub enum Event<E> {
    /// A [`Step::Remove`] was carried out, or failed.
    Removed(Result<(), E>),
    /// The store took the request of a [`Step::Fetch`], or refused it.
    FetchStarted(Result<(), E>),
    /// The next outcome of the store, in the order of the keys it was asked
    /// for; `None` when it has no further outcome.
    Outcome(Option<Result<StoreResult, E>>),
    /// A [`Step::Write`] was carried out and wrote this many bytes, or
    /// failed.
    Written(Result<usize, E>),
    /// A [`Step::SetExecutable`] was carried out, or failed.
    MetaUpdated(Result<(), E>),
}

impl<E> View for Event<E> {
    type V = EventView<E>;

    open spec fn view(&self) -> EventView<E> {
        match *self {
            Event::Removed(r) => EventView::Removed(r),
            Event::FetchStarted(r) => EventView::FetchStarted(r),
            Event::Outcome(None) => EventView::Outcome(None),
            Event::Outcome(Some(Err(e))) => EventView::Outcome(Some(Err(e))),
            Event::Outcome(Some(Ok(result))) => EventView::Outcome(Some(Ok(result@))),
            Event::Written(r) => EventView::Written(r),
            Event::MetaUpdated(r) => EventView::MetaUpdated(r),
        }
    }
}

/// The values of a list of keys.
pub open spec fn key_views(keys: Seq<Key>) -> Seq<KeyView> {
    Seq::new(keys.len(), |i: int| keys[i]@)
}

/// What the caller of the engine is to do next.
#[derive(Clone, Debug, PartialEq, Eq)]
pub enum Step {
    /// Remove the file at `path`, and report [`Event::Removed`].
    Remove { path: String },
    /// Ask the store for the contents under `keys`, and report
    /// [`Event::FetchStarted`].
    Fetch { keys: Vec<Key> },
    /// Write `data` to the file at `path` with `flag`, and report
    /// [`Event::Written`].
    Write { path: String, data: Vec<u8>, flag: Option<UpdateFlag> },
    /// Set or clear the executable bit of the file at `path`, and report
    /// [`Event::MetaUpdated`].
    SetExecutable { path: String, executable: bool },
    /// Nothing can be handed out now. Wait for the next outcome of the
    /// store if `outcome` is set, for an operation in flight to end if
    /// `completion` is set, for whichever comes first if both are set, and
    /// report it.
    Await { outcome: bool, completion: bool },
    /// The checkout has ended: see [`Engine::finish`].
    Finished,
}

impl View for Step {
    type V = StepView;

    open spec fn view(&self) -> StepView {
        match *self {
            Step::Remove { path } => StepView::Remove { path: path@ },
            Step::Fetch { keys } => StepView::Fetch { keys: key_views(keys@) },
            Step::Write { path, data, flag } => StepView::Write { path: path@, data: data@, flag },
            Step::SetExecutable { path, executable } => StepView::SetExecutable {
                path: path@,
                executable,
            },
            Step::Await { outcome, completion } => StepView::Await { outcome, completion },
            Step::Finished => StepView::Finished,
        }
    }
}

/// The flag with which a file of the given kind is written.
pub fn update_flag(file_type: FileType) -> (flag: Option<UpdateFlag>)
    ensures
        flag == flag_of(file_type),
{
    match file_type {
        FileType::Regular => None,
        FileType::Executable => Some(UpdateFlag::Executable),
        FileType::Symlink => Some(UpdateFlag::Symlink),
    }
}

/// A checkout in progress.
pub struct Engine<E> {
    remove: Vec<String>,
    update_content: Vec<UpdateContentAction>,
    update_meta: Vec<UpdateMetaAction>,
    phase: Phase,
    removes: Window,
    writes: Window,
    metas: Window,
    stream_ended: bool,
    pending: Option<Vec<u8>>,
    stats: CheckoutStats,
    written: Ghost<Seq<usize>>,
    error: Option<CheckoutError<E>>,
}

impl<E> View for Engine<E> {
    type V = EngineView<E>;

    closed spec fn view(&self) -> EngineView<E> {
        EngineView {
            plan: PlanView {
                remove: path_views(self.remove@),
                update_content: content_views(self.update_content@),
                update_meta: meta_views(self.update_meta@),
            },
            phase: self.phase,
            removes: self.removes@,
            writes: self.writes@,
            metas: self.metas@,
            stream_ended: self.stream_ended,
            pending: match self.pending {
                Some(data) => Some(data@),
                None => None,
            },
            written: self.written@,
            error: match self.error {
                Some(e) => Some(e@),
                None => None,
            },
        }
    }
}

impl<E> Engine<E> {
    /// Whether the engine is in a state that a checkout can reach, with
    /// counters that agree with it.
    pub closed spec fn wf(&self) -> bool {
        &&& self@.inv()
        &&& self.stats@ == self@.stats()
    }

    /// A well-formed engine is in a state that fits together.
    pub proof fn lemma_wf_inv(&self)
        requires
            self.wf(),
        ensures
            self@.inv(),
    {
    }

    /// Begins the checkout of `plan`.
    pub fn new(plan: CheckoutPlan) -> (engine: Engine<E>)
        ensures
            engine.wf(),
            engine@ == EngineView::<E>::start(plan@),
    {
        let (remove, update_content, update_meta) = plan.into_parts();
        let removes = Window::new(remove.len(), PARALLEL_CHECKOUT);
        let writes = Window::new(update_content.len(), PARALLEL_CHECKOUT);
        let metas = Window::new(update_meta.len(), PARALLEL_CHECKOUT);
        Engine {
            remove,
            update_content,
            update_meta,
            phase: Phase::Removing,
            removes,
            writes,
            metas,
            stream_ended: false,
            pending: None,
            stats: CheckoutStats::default(),
            written: Ghost(Seq::empty()),
            error: None,
        }
    }

    /// Whether the checkout has ended, in success or in failure.
    pub fn is_finished(&self) -> (b: bool)
        ensures
            b == self@.finished(),
    {
        self.phase == Phase::Succeeded || self.phase == Phase::Failed
    }

    /// The keys to ask the store for: path and content identifier of every
    /// content update, in the order of the plan.
    fn keys(&self) -> (keys: Vec<Key>)
        ensures
            key_views(keys@) == self@.keys(),
    {
        let mut keys: Vec<Key> = Vec::new();
        let mut i: usize = 0;
        while i < self.update_content.len()
            invariant
                i <= self.update_content.len(),
                keys@.len() == i,
                forall|j: int|
                    0 <= j < i ==> (#[trigger] keys@[j])@ == (KeyView {
                        path: self.update_content@[j]@.path,
                        hgid: self.update_content@[j]@.content_hgid,
                    }),
            decreases self.update_content.len() - i,
        {
            let action = &self.update_content[i];
            keys.push(Key::new(action.path().clone(), action.content_hgid()));
            i += 1;
        }
        assert(key_views(keys@) =~= self@.keys());
        keys
    }

    /// Whether the next outcome of the store can be put to use now.
    fn can_pull(&self) -> (b: bool)
        requires
            self.wf(),
        ensures
            b == self@.can_pull(),
    {
        self.phase == Phase::Updating && !self.stream_ended && self.pending.is_none()
            && self.writes.has_room()
    }

    /// Hands out the next step of the checkout.
    ///
    /// The step and the state after it are those of
    /// [`EngineView::next_step`].
    pub fn next_step(&mut self) -> (step: Step)
        requires
            old(self).wf(),
        ensures
            final(self).wf(),
            (final(self)@, step@) == old(self)@.next_step(),
    {
        match self.phase {
            Phase::Removing => {
                if self.removes.has_room() {
                    let i = self.removes.start();
                    Step::Remove { path: self.remove[i].clone() }
                } else if self.removes.in_flight() > 0 {
                    Step::Await { outcome: false, completion: true }
                } else {
                    self.phase = Phase::Fetching;
                    Step::Fetch { keys: self.keys() }
                }
            },
            Phase::Fetching => Step::Fetch { keys: self.keys() },
            Phase::Updating => {
                if self.pending.is_some() {
                    let data = self.pending.take().unwrap();
                    let i = self.writes.start();
                    let action = &self.update_content[i];
                    Step::Write {
                        path: action.path().clone(),
                        data,
                        flag: update_flag(action.file_type()),
                    }
                } else if self.metas.has_room() {
                    let i = self.metas.start();
                    let action = &self.update_meta[i];
                    Step::SetExecutable {
                        path: action.path().clone(),
                        executable: action.set_x_flag(),
                    }
                } else {
                    let outcome = self.can_pull();
                    let completion = self.writes.in_flight() > 0 || self.metas.in_flight() > 0;
                    if outcome || completion {
                        Step::Await { outcome, completion }
                    } else {
                        self.phase = Phase::Succeeded;
                        Step::Finished
                    }
                }
            },
            Phase::Succeeded => Step::Finished,
            Phase::Failed => Step::Finished,
        }
    }

    /// Gives the checkout up because of `error`.
    fn fail(&mut self, error: CheckoutError<E>)
        requires
            old(self).wf(),
            !(old(self)@.phase is Failed),
        ensures
            final(self).wf(),
            final(self)@ == old(self)@.fail(error@),
    {
        self.phase = Phase::Failed;
        self.error = Some(error);
    }

    /// Takes note of what became of a step. Returns whether the event was
    /// accepted: an event that answers no open step changes nothing.
    ///
    /// The state after the event is that of [`EngineView::handle`].
    pub fn handle(&mut self, event: Event<E>) -> (accepted: bool)
        requires
            old(self).wf(),
        ensures
            final(self).wf(),
            accepted == old(self)@.accepts(event@),
            final(self)@ == old(self)@.handle(event@),
    {
        match event {
            Event::Removed(result) => {
                if self.phase != Phase::Removing || self.removes.in_flight() == 0 {
                    return false;
                }
                match result {
                    Ok(_) => {
                        self.removes.complete();
                        proof {
                            self.removes.lemma_counts_fit();
                        }
                        self.stats.record_removed();
                    },
                    Err(e) => self.fail(CheckoutError::Failed(e)),
                }
            },
            Event::FetchStarted(result) => {
                if self.phase != Phase::Fetching {
                    return false;
                }
                match result {
                    Ok(_) => {
                        self.phase = Phase::Updating;
                    },
                    Err(e) => self.fail(CheckoutError::Failed(e)),
                }
            },
            Event::Outcome(outcome) => {
                if !self.can_pull() {
                    return false;
                }
                match outcome {
                    None => {
                        self.stream_ended = true;
                    },
                    Some(Ok(StoreResult::Found(data))) => {
                        self.pending = Some(data);
                    },
                    Some(Ok(StoreResult::NotFound(key))) => self.fail(
                        CheckoutError::NotFound { key },
                    ),
                    Some(Err(e)) => {
                        let i = self.writes.started();
                        let path = self.update_content[i].path().clone();
                        self.fail(CheckoutError::FetchFailed { path, error: e });
                    },
                }
            },
            Event::Written(result) => {
                if self.phase != Phase::Updating || self.writes.in_flight() == 0 {
                    return false;
                }
                match result {
                    Ok(bytes) => {
                        self.writes.complete();
                        proof {
                            self.writes.lemma_counts_fit();
                        }
                        self.stats.record_written(bytes);
                        proof {
                            assert(self.written@.push(bytes).drop_last() =~= self.written@);
                        }
                        self.written = Ghost(self.written@.push(bytes));
                    },
                    Err(e) => self.fail(CheckoutError::Failed(e)),
                }
            },
            Event::MetaUpdated(result) => {
                if self.phase != Phase::Updating || self.metas.in_flight() == 0 {
                    return false;
                }
                match result {
                    Ok(_) => {
                        self.metas.complete();
                        proof {
                            self.metas.lemma_counts_fit();
                        }
                        self.stats.record_meta_updated();
                    },
                    Err(e) => self.fail(CheckoutError::Failed(e)),
                }
            },
        }
        true
    }

    /// Ends the checkout and hands over the counters, or the failure that
    /// ended it. The counters are handed over only by a checkout that
    /// succeeded, when no operation is in flight any more.
    pub fn finish(self) -> (r: Result<CheckoutStats, CheckoutError<E>>)
        requires
            self.wf(),
            self@.finished(),
        ensures
            match r {
                Ok(stats) => self@.phase is Succeeded && stats@ == self@.stats(),
                Err(e) => self@.phase is Failed && self@.error == Some(e@),
            },
    {
        match self.error {
            Some(e) => Err(e),
            None => Ok(self.stats),
        }
    }
}

} // verus!
