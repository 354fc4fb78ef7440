//! In what order a checkout hands out its work, and which content goes to
//! which file.

use vstd::prelude::*;
use crate::machine::{flag_of, EventView, StepView};
use crate::machine_laws::{lemma_run_inv, lemma_run_keeps_plan, run, Move};
use crate::plan::{MetaActionView, PlanView};
use crate::types::{StoreResultView, UpdateFlag};

verus! {

/// The steps that a checkout of `plan` has handed out in the course of
/// `moves`, in that order.
pub open spec fn handed_out<E>(plan: PlanView, moves: Seq<Move<E>>) -> Seq<StepView>
    decreases moves.len(),
{
    if moves.len() == 0 {
        Seq::empty()
    } else {
        let steps = handed_out(plan, moves.drop_last());
        match moves.last() {
            Move::Step => steps.push(run(plan, moves.drop_last()).next_step().1),
            Move::Event(_) => steps,
        }
    }
}

/// The contents that the store has found and the checkout has taken in the
/// course of `moves`, in that order.
pub open spec fn found<E>(plan: PlanView, moves: Seq<Move<E>>) -> Seq<Seq<u8>>
    decreases moves.len(),
{
    if moves.len() == 0 {
        Seq::empty()
    } else {
        let contents = found(plan, moves.drop_last());
        match moves.last() {
            Move::Event(EventView::Outcome(Some(Ok(StoreResultView::Found(data))))) => if run(
                plan,
                moves.drop_last(),
            ).can_pull() {
                contents.push(data)
            } else {
                contents
            },
            _ => contents,
        }
    }
}

/// The paths of the removals among `steps`, in that order.
pub open spec fn removals(steps: Seq<StepView>) -> Seq<Seq<char>>
    decreases steps.len(),
{
    if steps.len() == 0 {
        Seq::empty()
    } else {
        match steps.last() {
            StepView::Remove { path } => removals(steps.drop_last()).push(path),
            _ => removals(steps.drop_last()),
        }
    }
}

/// One write: the path, the content and the flag.
pub struct WriteView {
    pub path: Seq<char>,
    pub data: Seq<u8>,
    pub flag: Option<UpdateFlag>,
}

/// The writes among `steps`, in that order.
pub open spec fn writes(steps: Seq<StepView>) -> Seq<WriteView>
    decreases steps.len(),
{
    if steps.len() == 0 {
        Seq::empty()
    } else {
        match steps.last() {
            StepView::Write { path, data, flag } => writes(steps.drop_last()).push(
                WriteView { path, data, flag },
            ),
            _ => writes(steps.drop_last()),
        }
    }
}

/// The flips of the executable bit among `steps`, in that order.
pub open spec fn flips(steps: Seq<StepView>) -> Seq<MetaActionView>
    decreases steps.len(),
{
    if steps.len() == 0 {
        Seq::empty()
    } else {
        match steps.last() {
            StepView::SetExecutable { path, executable } => flips(steps.drop_last()).push(
                MetaActionView { path, set_x_flag: executable },
            ),
            _ => flips(steps.drop_last()),
        }
    }
}

/// The write of content update number `k` of `plan` with the content
/// `data`.
pub open spec fn write_of(plan: PlanView, k: int, data: Seq<u8>) -> WriteView {
    WriteView {
        path: plan.update_content[k].path,
        data,
        flag: flag_of(plan.update_content[k].file_type),
    }
}

/// The work of each list is handed out in the order of the list, nothing
/// twice and nothing left out in between: at any point of a checkout, the
/// removals handed out are the first removals of the plan, the flips handed
/// out are the first flips of the plan, and the writes handed out are those
/// of the first content updates of the plan.
///
/// Contents go where they belong: the write of the content update at
/// position `k` carries the content that the store found as number `k`. A
/// content that was found and is not written yet is the one that the next
/// write carries.
pub proof fn lemma_handed_out_in_plan_order<E>(plan: PlanView, moves: Seq<Move<E>>)
    ensures
        removals(handed_out(plan, moves)) == plan.remove.take(
            run(plan, moves).removes.started as int,
        ),
        flips(handed_out(plan, moves)) == plan.update_meta.take(
            run(plan, moves).metas.started as int,
        ),
        writes(handed_out(plan, moves)) == Seq::new(
            run(plan, moves).writes.started,
            |k: int| write_of(plan, k, found(plan, moves)[k]),
        ),
        found(plan, moves).len() == run(plan, moves).writes.started + (if run(
            plan,
            moves,
        ).pending is Some {
            1nat
        } else {
            0nat
        }),
        run(plan, moves).pending is Some ==> run(plan, moves).pending == Some(
            found(plan, moves).last(),
        ),
    decreases moves.len(),
{
    let state = run(plan, moves);
    let steps = handed_out(plan, moves);
    let contents = found(plan, moves);
    let expected = Seq::new(state.writes.started, |k: int| write_of(plan, k, contents[k]));
    lemma_run_inv(plan, moves);
    if moves.len() == 0 {
        assert(removals(steps) =~= plan.remove.take(0));
        assert(flips(steps) =~= plan.update_meta.take(0));
        assert(writes(steps) =~= expected);
    } else {
        let earlier = moves.drop_last();
        let before = run(plan, earlier);
        lemma_handed_out_in_plan_order(plan, earlier);
        lemma_run_inv(plan, earlier);
        lemma_run_keeps_plan(plan, earlier);
        match moves.last() {
            Move::Step => {
                let step = before.next_step().1;
                assert(steps.drop_last() =~= handed_out(plan, earlier));
                assert(steps.last() == step);
                assert(contents == found(plan, earlier));
                let r = before.removes.started as int;
                let m = before.metas.started as int;
                match step {
                    StepView::Remove { path } => {
                        assert(plan.remove.take(r + 1) =~= plan.remove.take(r).push(path));
                    },
                    StepView::SetExecutable { path, executable } => {
                        assert(plan.update_meta.take(m + 1) =~= plan.update_meta.take(m).push(
                            MetaActionView { path, set_x_flag: executable },
                        ));
                    },
                    _ => {},
                }
                assert(writes(steps) =~= expected);
            },
            Move::Event(event) => {
                assert(steps == handed_out(plan, earlier));
                assert(state.removes.started == before.removes.started);
                assert(state.metas.started == before.metas.started);
                assert(state.writes.started == before.writes.started);
                assert(writes(steps) =~= expected);
            },
        }
    }
}

/// A checkout that succeeded while the store had an outcome for every key
/// has handed out the whole plan: every removal, every flip, and for every
/// content update the write of what the store found for it.
pub proof fn lemma_success_hands_out_plan<E>(plan: PlanView, moves: Seq<Move<E>>)
    requires
        run(plan, moves).phase is Succeeded,
        !run(plan, moves).stream_ended,
    ensures
        removals(handed_out(plan, moves)) == plan.remove,
        flips(handed_out(plan, moves)) == plan.update_meta,
        found(plan, moves).len() == plan.update_content.len(),
        writes(handed_out(plan, moves)) == Seq::new(
            plan.update_content.len(),
            |k: int| write_of(plan, k, found(plan, moves)[k]),
        ),
{
    let state = run(plan, moves);
    lemma_run_inv(plan, moves);
    lemma_handed_out_in_plan_order(plan, moves);
    lemma_run_keeps_plan(plan, moves);
    assert(plan.remove.take(state.removes.started as int) =~= plan.remove);
    assert(plan.update_meta.take(state.metas.started as int) =~= plan.update_meta);
}

} // verus!
