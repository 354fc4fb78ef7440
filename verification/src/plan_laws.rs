//! What holds of every plan that is built from a diff.

use vstd::prelude::*;
use crate::plan::{
    classify_spec, is_exec_toggle, paths_distinct, plan_of, ActionView, ContentActionView,
    MetaActionView, PlanView,
};
use crate::types::{DiffEntryView, DiffType};

verus! {

/// The path that an action works on.
pub open spec fn action_path(action: ActionView) -> Seq<char> {
    match action {
        ActionView::Remove(p) => p,
        ActionView::UpdateContent(a) => a.path,
        ActionView::UpdateMeta(a) => a.path,
    }
}

/// Whether `action` is the action of some entry of the diff.
pub open spec fn has_action(entries: Seq<DiffEntryView>, action: ActionView) -> bool {
    exists|i: int| 0 <= i < entries.len() && classify_spec(#[trigger] entries[i]) == action
}

impl PlanView {
    /// Whether `action` stands in the list it belongs to.
    pub open spec fn contains(self, action: ActionView) -> bool {
        match action {
            ActionView::Remove(p) => self.remove.contains(p),
            ActionView::UpdateContent(a) => self.update_content.contains(a),
            ActionView::UpdateMeta(a) => self.update_meta.contains(a),
        }
    }

    /// Whether an action on `path` stands in any of the three lists.
    pub open spec fn touches(self, path: Seq<char>) -> bool {
        ||| exists|i: int| 0 <= i < self.remove.len() && #[trigger] self.remove[i] == path
        ||| exists|i: int|
            #![trigger self.update_content[i]]
            0 <= i < self.update_content.len() && self.update_content[i].path == path
        ||| exists|i: int|
            #![trigger self.update_meta[i]]
            0 <= i < self.update_meta.len() && self.update_meta[i].path == path
    }
}

/// Every entry of a diff gives exactly one action: the three lists of the
/// plan hold as many actions as the diff has entries.
pub proof fn lemma_one_action_per_entry(entries: Seq<DiffEntryView>)
    ensures
        plan_of(entries).len() == entries.len(),
    decreases entries.len(),
{
    if entries.len() > 0 {
        lemma_one_action_per_entry(entries.drop_last());
    }
}

/// A diff whose entries are all present on the left only is planned as the
/// removal of their paths, in the order of the diff, and nothing else.
pub proof fn lemma_left_only_plan(entries: Seq<DiffEntryView>)
    requires
        forall|i: int| 0 <= i < entries.len() ==> (#[trigger] entries[i]).diff_type is LeftOnly,
    ensures
        plan_of(entries).remove == entries.map_values(|e: DiffEntryView| e.path),
        plan_of(entries).update_content == Seq::<ContentActionView>::empty(),
        plan_of(entries).update_meta == Seq::<MetaActionView>::empty(),
    decreases entries.len(),
{
    let paths = entries.map_values(|e: DiffEntryView| e.path);
    if entries.len() == 0 {
        assert(plan_of(entries).remove =~= paths);
    } else {
        let front = entries.drop_last();
        lemma_left_only_plan(front);
        assert(entries.last().diff_type is LeftOnly);
        assert(plan_of(entries).remove =~= paths);
    }
}

/// An action stands in the plan of a diff exactly if it is the action of
/// one of the diff's entries.
pub proof fn lemma_plan_contains(entries: Seq<DiffEntryView>, action: ActionView)
    ensures
        plan_of(entries).contains(action) <==> has_action(entries, action),
    decreases entries.len(),
{
    if entries.len() == 0 {
        assert(!has_action(entries, action));
    } else {
        let front = entries.drop_last();
        let last = classify_spec(entries.last());
        lemma_plan_contains(front, action);
        let plan = plan_of(entries);
        let before = plan_of(front);
        if has_action(entries, action) {
            let i = choose|i: int|
                0 <= i < entries.len() && classify_spec(#[trigger] entries[i]) == action;
            if i < front.len() {
                assert(front[i] == entries[i]);
                assert(has_action(front, action));
                lemma_with_action_keeps(before, last, action);
            } else {
                lemma_with_action_adds(before, last);
            }
        }
        if plan.contains(action) {
            lemma_with_action_only_adds(before, last, action);
            if action == last {
                assert(entries[entries.len() - 1] == entries.last());
            } else {
                let i = choose|i: int|
                    0 <= i < front.len() && classify_spec(#[trigger] front[i]) == action;
                assert(entries[i] == front[i]);
            }
        }
    }
}

/// Adding an action to a plan keeps what the plan held.
proof fn lemma_with_action_keeps(plan: PlanView, added: ActionView, action: ActionView)
    requires
        plan.contains(action),
    ensures
        plan.with_action(added).contains(action),
{
    match action {
        ActionView::Remove(p) => {
            let i = choose|i: int| 0 <= i < plan.remove.len() && plan.remove[i] == p;
            assert(plan.with_action(added).remove[i] == p);
        },
        ActionView::UpdateContent(a) => {
            let i = choose|i: int| 0 <= i < plan.update_content.len() && plan.update_content[i] == a;
            assert(plan.with_action(added).update_content[i] == a);
        },
        ActionView::UpdateMeta(a) => {
            let i = choose|i: int| 0 <= i < plan.update_meta.len() && plan.update_meta[i] == a;
            assert(plan.with_action(added).update_meta[i] == a);
        },
    }
}

/// A plan holds the action that was added to it.
proof fn lemma_with_action_adds(plan: PlanView, added: ActionView)
    ensures
        plan.with_action(added).contains(added),
{
    let after = plan.with_action(added);
    match added {
        ActionView::Remove(p) => {
            assert(after.remove[plan.remove.len() as int] == p);
        },
        ActionView::UpdateContent(a) => {
            assert(after.update_content[plan.update_content.len() as int] == a);
        },
        ActionView::UpdateMeta(a) => {
            assert(after.update_meta[plan.update_meta.len() as int] == a);
        },
    }
}

/// After an action was added, a plan holds only that action and what it
/// held before.
proof fn lemma_with_action_only_adds(plan: PlanView, added: ActionView, action: ActionView)
    requires
        plan.with_action(added).contains(action),
    ensures
        action == added || plan.contains(action),
{
    let after = plan.with_action(added);
    match action {
        ActionView::Remove(p) => {
            let i = choose|i: int| 0 <= i < after.remove.len() && after.remove[i] == p;
            if i < plan.remove.len() {
                assert(plan.remove[i] == p);
            }
        },
        ActionView::UpdateContent(a) => {
            let i = choose|i: int|
                0 <= i < after.update_content.len() && after.update_content[i] == a;
            if i < plan.update_content.len() {
                assert(plan.update_content[i] == a);
            }
        },
        ActionView::UpdateMeta(a) => {
            let i = choose|i: int| 0 <= i < after.update_meta.len() && after.update_meta[i] == a;
            if i < plan.update_meta.len() {
                assert(plan.update_meta[i] == a);
            }
        },
    }
}

/// An entry's action works on the entry's path.
pub proof fn lemma_action_keeps_path(entry: DiffEntryView)
    ensures
        action_path(classify_spec(entry)) == entry.path,
{
}

/// A plan acts on a path exactly if the diff has an entry for that path.
pub proof fn lemma_plan_touches(entries: Seq<DiffEntryView>, path: Seq<char>)
    ensures
        plan_of(entries).touches(path) <==> exists|i: int|
            0 <= i < entries.len() && (#[trigger] entries[i]).path == path,
{
    let plan = plan_of(entries);
    if plan.touches(path) {
        let action = if exists|i: int| 0 <= i < plan.remove.len() && plan.remove[i] == path {
            ActionView::Remove(path)
        } else if exists|i: int|
            #![trigger plan.update_content[i]]
            0 <= i < plan.update_content.len() && plan.update_content[i].path == path {
            let i = choose|i: int|
                #![trigger plan.update_content[i]]
                0 <= i < plan.update_content.len() && plan.update_content[i].path == path;
            ActionView::UpdateContent(plan.update_content[i])
        } else {
            let i = choose|i: int|
                #![trigger plan.update_meta[i]]
                0 <= i < plan.update_meta.len() && plan.update_meta[i].path == path;
            ActionView::UpdateMeta(plan.update_meta[i])
        };
        assert(plan.contains(action));
        assert(action_path(action) == path);
        lemma_plan_contains(entries, action);
        let k = choose|k: int|
            0 <= k < entries.len() && classify_spec(#[trigger] entries[k]) == action;
        assert(entries[k].path == path);
    }
    if exists|i: int| 0 <= i < entries.len() && (#[trigger] entries[i]).path == path {
        let k = choose|k: int| 0 <= k < entries.len() && (#[trigger] entries[k]).path == path;
        let action = classify_spec(entries[k]);
        assert(has_action(entries, action));
        lemma_plan_contains(entries, action);
        lemma_contains_touches(plan, action);
    }
}

/// A plan acts on the path of every action it holds.
proof fn lemma_contains_touches(plan: PlanView, action: ActionView)
    requires
        plan.contains(action),
    ensures
        plan.touches(action_path(action)),
{
    match action {
        ActionView::Remove(p) => {
            let i = choose|i: int| 0 <= i < plan.remove.len() && plan.remove[i] == p;
            assert(plan.remove[i] == p);
        },
        ActionView::UpdateContent(a) => {
            let i = choose|i: int| 0 <= i < plan.update_content.len() && plan.update_content[i] == a;
            assert(plan.update_content[i].path == a.path);
        },
        ActionView::UpdateMeta(a) => {
            let i = choose|i: int| 0 <= i < plan.update_meta.len() && plan.update_meta[i] == a;
            assert(plan.update_meta[i].path == a.path);
        },
    }
}

/// Where no two entries of a diff speak of the same path, the plan acts on
/// every path at most once: the three lists share no path, and none names a
/// path twice.
pub proof fn lemma_plan_paths_disjoint(entries: Seq<DiffEntryView>)
    requires
        paths_distinct(entries),
    ensures
        plan_of(entries).paths_disjoint(),
    decreases entries.len(),
{
    if entries.len() > 0 {
        let front = entries.drop_last();
        let last = entries.last();
        let before = plan_of(front);
        assert forall|i: int, j: int|
            #![trigger front[i], front[j]]
            0 <= i < j < front.len() implies front[i].path != front[j].path by {
            assert(entries[i].path != entries[j].path);
        }
        lemma_plan_paths_disjoint(front);
        assert(!before.touches(last.path)) by {
            lemma_plan_touches(front, last.path);
            if before.touches(last.path) {
                let k = choose|k: int| 0 <= k < front.len() && (#[trigger] front[k]).path == last.path;
                assert(entries[k].path != entries[entries.len() - 1].path);
            }
        }
        lemma_action_keeps_path(last);
        lemma_with_fresh_action(before, classify_spec(last));
    }
}

/// Adding an action on a path that a plan does not act on yet keeps every
/// path acted on at most once.
proof fn lemma_with_fresh_action(plan: PlanView, action: ActionView)
    requires
        plan.paths_disjoint(),
        !plan.touches(action_path(action)),
    ensures
        plan.with_action(action).paths_disjoint(),
{
    let path = action_path(action);
    assert forall|i: int| 0 <= i < plan.remove.len() implies #[trigger] plan.remove[i] != path by {}
    assert forall|i: int|
        #![trigger plan.update_content[i]]
        0 <= i < plan.update_content.len() implies plan.update_content[i].path != path by {}
    assert forall|i: int|
        #![trigger plan.update_meta[i]]
        0 <= i < plan.update_meta.len() implies plan.update_meta[i].path != path by {}
}

/// The flip of the executable bit that brings the file of a changed entry
/// to its new kind.
pub open spec fn flip_of(entry: DiffEntryView) -> ActionView
    recommends
        entry.diff_type is Changed,
{
    ActionView::UpdateMeta(
        MetaActionView {
            path: entry.path,
            set_x_flag: entry.diff_type->Changed_1.file_type is Executable,
        },
    )
}

/// A changed entry that keeps its content and only toggles between regular
/// and executable is planned as a flip of the executable bit: the bit is
/// cleared where the file becomes regular and set where it becomes
/// executable. Where no two entries of the diff speak of the same path,
/// nothing else in the plan acts on that path: its content is not written,
/// and it is not removed.
pub proof fn lemma_exec_toggle_only_updates_meta(entries: Seq<DiffEntryView>, i: int)
    requires
        0 <= i < entries.len(),
        entries[i].diff_type matches DiffType::Changed(old_meta, new_meta) && is_exec_toggle(
            old_meta,
            new_meta,
        ),
    ensures
        plan_of(entries).contains(flip_of(entries[i])),
        paths_distinct(entries) ==> forall|action: ActionView|
            #[trigger] plan_of(entries).contains(action) && action_path(action) == entries[i].path
                ==> action == flip_of(entries[i]),
{
    let flip = classify_spec(entries[i]);
    assert(flip == flip_of(entries[i]));
    assert(has_action(entries, flip));
    lemma_plan_contains(entries, flip);
    if paths_distinct(entries) {
        assert forall|action: ActionView|
            #[trigger] plan_of(entries).contains(action) && action_path(action)
                == entries[i].path implies action == flip by {
            lemma_only_action_on_path(entries, i, action);
        }
    }
}

/// Where no two entries speak of the same path, the only action of the plan
/// on an entry's path is that entry's own.
pub proof fn lemma_only_action_on_path(entries: Seq<DiffEntryView>, i: int, action: ActionView)
    requires
        0 <= i < entries.len(),
        paths_distinct(entries),
        plan_of(entries).contains(action),
    ensures
        action_path(action) == entries[i].path ==> action == classify_spec(entries[i]),
{
    lemma_plan_contains(entries, action);
    let k = choose|k: int| 0 <= k < entries.len() && classify_spec(#[trigger] entries[k]) == action;
    if action_path(action) == entries[i].path {
        if k < i {
            assert(entries[k].path != entries[i].path);
        } else if i < k {
            assert(entries[i].path != entries[k].path);
        }
    }
}

} // verus!
