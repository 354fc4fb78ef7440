//! What holds of every state that a checkout can reach.

use vstd::prelude::*;
use crate::machine::{EngineView, EventView, StepView, PARALLEL_CHECKOUT};
use crate::plan::PlanView;

verus! {

/// One move of a checkout: the machine is asked for its next step, or it is
/// told of an event.
pub enum Move<E> {
    Step,
    Event(EventView<E>),
}

/// The state that a checkout of `plan` is in after `moves`.
pub open spec fn run<E>(plan: PlanView, moves: Seq<Move<E>>) -> EngineView<E>
    decreases moves.len(),
{
    if moves.len() == 0 {
        EngineView::start(plan)
    } else {
        let before = run(plan, moves.drop_last());
        match moves.last() {
            Move::Step => before.next_step().0,
            Move::Event(event) => before.handle(event),
        }
    }
}

/// A checkout begins in a state that fits together.
pub proof fn lemma_start_inv<E>(plan: PlanView)
    ensures
        EngineView::<E>::start(plan).inv(),
{
}

/// Handing out the next step keeps the state fitting together.
pub proof fn lemma_next_step_inv<E>(state: EngineView<E>)
    requires
        state.inv(),
    ensures
        state.next_step().0.inv(),
{
}

/// An event keeps the state fitting together, whether it is accepted or not.
pub proof fn lemma_handle_inv<E>(state: EngineView<E>, event: EventView<E>)
    requires
        state.inv(),
    ensures
        state.handle(event).inv(),
{
}

/// Whatever steps are asked for and whatever events are reported, in
/// whatever order, the state fits together.
pub proof fn lemma_run_inv<E>(plan: PlanView, moves: Seq<Move<E>>)
    ensures
        run(plan, moves).inv(),
    decreases moves.len(),
{
    if moves.len() == 0 {
        lemma_start_inv::<E>(plan);
    } else {
        let before = run(plan, moves.drop_last());
        lemma_run_inv(plan, moves.drop_last());
        match moves.last() {
            Move::Step => lemma_next_step_inv(before),
            Move::Event(event) => lemma_handle_inv(before, event),
        }
    }
}

/// A checkout never changes the plan that it carries out.
pub proof fn lemma_run_keeps_plan<E>(plan: PlanView, moves: Seq<Move<E>>)
    ensures
        run(plan, moves).plan == plan,
    decreases moves.len(),
{
    if moves.len() > 0 {
        lemma_run_keeps_plan(plan, moves.drop_last());
    }
}

/// At no point of a checkout are more than [`PARALLEL_CHECKOUT`] removals in
/// flight, nor more than that many writes, nor more than that many flips of
/// the executable bit.
pub proof fn lemma_in_flight_bounded<E>(plan: PlanView, moves: Seq<Move<E>>)
    ensures
        run(plan, moves).removes.in_flight() <= PARALLEL_CHECKOUT,
        run(plan, moves).writes.in_flight() <= PARALLEL_CHECKOUT,
        run(plan, moves).metas.in_flight() <= PARALLEL_CHECKOUT,
{
    lemma_run_inv(plan, moves);
}

/// Nothing of the update stage happens before every removal is done: while
/// a removal is still to start or in flight, no write and no flip was
/// started, no outcome was taken from the store, and the store was not asked.
pub proof fn lemma_removals_come_first<E>(plan: PlanView, moves: Seq<Move<E>>)
    ensures
        !run(plan, moves).removes.drained() && !(run(plan, moves).phase is Failed) ==> {
            &&& run(plan, moves).phase is Removing
            &&& run(plan, moves).update_untouched()
        },
        !run(plan, moves).removes.drained() ==> run(plan, moves).update_untouched(),
    decreases moves.len(),
{
    lemma_run_inv(plan, moves);
    if moves.len() > 0 {
        lemma_run_inv(plan, moves.drop_last());
        lemma_removals_come_first(plan, moves.drop_last());
    }
}

/// A checkout that succeeded has carried out its plan: every removal and
/// every flip of the executable bit was done, every write that was started
/// was done, and a content update whose write was never started is one for
/// which the store gave no outcome.
pub proof fn lemma_success_is_complete<E>(state: EngineView<E>)
    requires
        state.inv(),
        state.phase is Succeeded,
    ensures
        state.in_flight() == 0,
        state.error is None,
        state.stats().removed == state.plan.remove.len(),
        state.stats().meta_updated == state.plan.update_meta.len(),
        state.stats().updated == state.writes.started,
        !state.stream_ended ==> state.stats().updated == state.plan.update_content.len(),
{
}

/// The counters never go down: a step changes none of them, and an event
/// adds one to at most one of the three that count files.
pub proof fn lemma_counters_only_grow<E>(state: EngineView<E>, event: EventView<E>)
    requires
        state.inv(),
    ensures
        state.next_step().0.stats() == state.stats(),
        state.handle(event).stats().removed >= state.stats().removed,
        state.handle(event).stats().updated >= state.stats().updated,
        state.handle(event).stats().meta_updated >= state.stats().meta_updated,
        state.handle(event).stats().removed + state.handle(event).stats().updated + state.handle(
            event,
        ).stats().meta_updated <= state.stats().removed + state.stats().updated
            + state.stats().meta_updated + 1,
{
}

/// A counter goes up only for an operation that was reported as done without
/// error.
pub proof fn lemma_counted_only_on_success<E>(state: EngineView<E>, event: EventView<E>)
    requires
        state.inv(),
        state.handle(event).stats() != state.stats(),
    ensures
        state.accepts(event),
        match event {
            EventView::Removed(r) => r is Ok && state.handle(event).stats().removed
                == state.stats().removed + 1,
            EventView::Written(r) => r is Ok && state.handle(event).stats().updated
                == state.stats().updated + 1,
            EventView::MetaUpdated(r) => r is Ok && state.handle(event).stats().meta_updated
                == state.stats().meta_updated + 1,
            _ => false,
        },
{
    if state.accepts(event) {
        match event {
            EventView::Outcome(_) => {
                assert(state.handle(event).written == state.written);
            },
            EventView::FetchStarted(_) => {
                assert(state.handle(event).written == state.written);
            },
            EventView::Removed(r) => {
                assert(state.handle(event).written == state.written);
            },
            EventView::MetaUpdated(r) => {
                assert(state.handle(event).written == state.written);
            },
            EventView::Written(r) => {
                if r is Err {
                    assert(state.handle(event).written == state.written);
                }
            },
        }
    }
}

/// A checkout that has ended stays as it is: it hands out no further work
/// and takes no further event. So the first failure is the one that is kept.
pub proof fn lemma_finished_is_final<E>(state: EngineView<E>, event: EventView<E>)
    requires
        state.finished(),
    ensures
        state.next_step() == (state, StepView::Finished),
        state.handle(event) == state,
{
}

/// The machine never asks to wait for nothing: when it says to wait, there
/// is an outcome to take or an operation in flight, and when it says to wait
/// for a completion, one is in flight.
pub proof fn lemma_await_has_cause<E>(state: EngineView<E>)
    requires
        state.inv(),
    ensures
        match state.next_step().1 {
            StepView::Await { outcome, completion } => {
                &&& outcome || completion
                &&& completion ==> state.in_flight() > 0
                &&& outcome ==> state.can_pull()
            },
            _ => true,
        },
{
}

/// The actions of each list are handed out in the order of the list: the
/// step names the first action of its list that was not started yet.
pub proof fn lemma_steps_follow_plan<E>(state: EngineView<E>)
    requires
        state.inv(),
    ensures
        match state.next_step().1 {
            StepView::Remove { path } => {
                &&& state.removes.started < state.plan.remove.len()
                &&& path == state.plan.remove[state.removes.started as int]
                &&& state.next_step().0.removes.started == state.removes.started + 1
            },
            StepView::Write { path, data, flag } => {
                &&& state.writes.started < state.plan.update_content.len()
                &&& path == state.plan.update_content[state.writes.started as int].path
                &&& state.pending == Some(data)
                &&& state.next_step().0.writes.started == state.writes.started + 1
            },
            StepView::SetExecutable { path, executable } => {
                &&& state.metas.started < state.plan.update_meta.len()
                &&& path == state.plan.update_meta[state.metas.started as int].path
                &&& executable == state.plan.update_meta[state.metas.started as int].set_x_flag
                &&& state.next_step().0.metas.started == state.metas.started + 1
            },
            StepView::Fetch { keys } => keys == state.keys() && state.removes.drained(),
            StepView::Await { .. } => state.next_step().0 == state,
            StepView::Finished => state.next_step().0.finished(),
        },
{
}

} // verus!
