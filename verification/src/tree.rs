//! A model of the working directory, and what a plan does to it.
//!
//! A tree maps each path to what stands there. A diff from a left to a right
//! tree names the paths at which the two differ. A plan, applied to a tree,
//! removes, writes and flips. The law of this module is that the plan of a
//! diff, applied to the left tree, gives the right tree.

use vstd::prelude::*;
use crate::plan::{
    classify_spec, paths_distinct, plan_of, ActionView, ContentActionView, MetaActionView,
    PlanView,
};
use crate::plan_laws::{
    has_action, lemma_plan_contains, lemma_plan_paths_disjoint, lemma_plan_touches,
};
use crate::types::{DiffEntryView, DiffType, FileMetadata, FileType};

verus! {

/// What stands at each path of a directory tree.
pub type Tree = Map<Seq<char>, FileMetadata>;

/// What a content update leaves at its path, once the content was fetched
/// and written.
pub open spec fn written(action: ContentActionView) -> FileMetadata {
    FileMetadata { hgid: action.content_hgid, file_type: action.file_type }
}

/// What a flip of the executable bit makes of a file.
pub open spec fn flipped(meta: FileMetadata, set_x_flag: bool) -> FileMetadata {
    FileMetadata {
        hgid: meta.hgid,
        file_type: if set_x_flag {
            FileType::Executable
        } else {
            FileType::Regular
        },
    }
}

/// The tree after the files at `paths` were removed.
pub open spec fn apply_removes(tree: Tree, paths: Seq<Seq<char>>) -> Tree
    decreases paths.len(),
{
    if paths.len() == 0 {
        tree
    } else {
        apply_removes(tree, paths.drop_last()).remove(paths.last())
    }
}

/// The tree after the content updates `actions` were carried out.
pub open spec fn apply_contents(tree: Tree, actions: Seq<ContentActionView>) -> Tree
    decreases actions.len(),
{
    if actions.len() == 0 {
        tree
    } else {
        apply_contents(tree, actions.drop_last()).insert(
            actions.last().path,
            written(actions.last()),
        )
    }
}

/// The tree after the flips `actions` of the executable bit were carried
/// out. A flip at a path where nothing stands changes nothing.
pub open spec fn apply_metas(tree: Tree, actions: Seq<MetaActionView>) -> Tree
    decreases actions.len(),
{
    if actions.len() == 0 {
        tree
    } else {
        let before = apply_metas(tree, actions.drop_last());
        let action = actions.last();
        if before.dom().contains(action.path) {
            before.insert(action.path, flipped(before[action.path], action.set_x_flag))
        } else {
            before
        }
    }
}

/// The tree after `plan` was carried out in full: first the removals, then
/// the content updates and the flips of the executable bit.
pub open spec fn apply_plan(tree: Tree, plan: PlanView) -> Tree {
    apply_metas(apply_contents(apply_removes(tree, plan.remove), plan.update_content), plan.update_meta)
}

/// Whether two trees have the same at `path`: nothing, or the same file.
pub open spec fn same_at(a: Tree, b: Tree, path: Seq<char>) -> bool {
    &&& a.dom().contains(path) <==> b.dom().contains(path)
    &&& a.dom().contains(path) ==> a[path] == b[path]
}

/// Whether `entry` says of its path what the two trees hold there.
pub open spec fn describes(entry: DiffEntryView, left: Tree, right: Tree) -> bool {
    match entry.diff_type {
        DiffType::LeftOnly(meta) => {
            &&& left.dom().contains(entry.path)
            &&& left[entry.path] == meta
            &&& !right.dom().contains(entry.path)
        },
        DiffType::RightOnly(meta) => {
            &&& !left.dom().contains(entry.path)
            &&& right.dom().contains(entry.path)
            &&& right[entry.path] == meta
        },
        DiffType::Changed(old_meta, new_meta) => {
            &&& left.dom().contains(entry.path)
            &&& left[entry.path] == old_meta
            &&& right.dom().contains(entry.path)
            &&& right[entry.path] == new_meta
        },
    }
}

/// Whether `entries` is a diff from `left` to `right`: no two entries speak
/// of the same path, every entry says what the trees hold at its path, and
/// every path at which the trees differ has an entry.
pub open spec fn is_diff(entries: Seq<DiffEntryView>, left: Tree, right: Tree) -> bool {
    &&& paths_distinct(entries)
    &&& forall|i: int| 0 <= i < entries.len() ==> describes(#[trigger] entries[i], left, right)
    &&& forall|path: Seq<char>|
        !same_at(left, right, path) ==> exists|i: int|
            0 <= i < entries.len() && (#[trigger] entries[i]).path == path
}

/// Removals change nothing at a path that is not among them.
pub proof fn lemma_removes_miss(tree: Tree, paths: Seq<Seq<char>>, path: Seq<char>)
    requires
        forall|k: int| 0 <= k < paths.len() ==> #[trigger] paths[k] != path,
    ensures
        same_at(apply_removes(tree, paths), tree, path),
    decreases paths.len(),
{
    if paths.len() > 0 {
        let front = paths.drop_last();
        assert forall|k: int| 0 <= k < front.len() implies #[trigger] front[k] != path by {
            assert(paths[k] != path);
        }
        lemma_removes_miss(tree, front, path);
        assert(paths[paths.len() - 1] != path);
    }
}

/// After the removals, nothing stands at a path that is among them.
pub proof fn lemma_removes_hit(tree: Tree, paths: Seq<Seq<char>>, k: int)
    requires
        0 <= k < paths.len(),
    ensures
        !apply_removes(tree, paths).dom().contains(paths[k]),
    decreases paths.len(),
{
    if k < paths.len() - 1 {
        lemma_removes_hit(tree, paths.drop_last(), k);
    }
}

/// Content updates change nothing at a path that none of them writes.
pub proof fn lemma_contents_miss(tree: Tree, actions: Seq<ContentActionView>, path: Seq<char>)
    requires
        forall|k: int| 0 <= k < actions.len() ==> (#[trigger] actions[k]).path != path,
    ensures
        same_at(apply_contents(tree, actions), tree, path),
    decreases actions.len(),
{
    if actions.len() > 0 {
        let front = actions.drop_last();
        assert forall|k: int| 0 <= k < front.len() implies (#[trigger] front[k]).path != path by {
            assert(actions[k].path != path);
        }
        lemma_contents_miss(tree, front, path);
        assert(actions[actions.len() - 1].path != path);
    }
}

/// After content updates of which no two write the same path, each path
/// holds what its update wrote.
pub proof fn lemma_contents_hit(tree: Tree, actions: Seq<ContentActionView>, k: int)
    requires
        0 <= k < actions.len(),
        forall|i: int, j: int|
            #![trigger actions[i], actions[j]]
            0 <= i < j < actions.len() ==> actions[i].path != actions[j].path,
    ensures
        apply_contents(tree, actions).dom().contains(actions[k].path),
        apply_contents(tree, actions)[actions[k].path] == written(actions[k]),
    decreases actions.len(),
{
    let front = actions.drop_last();
    if k < actions.len() - 1 {
        assert forall|i: int, j: int|
            #![trigger front[i], front[j]]
            0 <= i < j < front.len() implies front[i].path != front[j].path by {
            assert(actions[i].path != actions[j].path);
        }
        lemma_contents_hit(tree, front, k);
        assert(front[k] == actions[k]);
        assert(actions[k].path != actions[actions.len() - 1].path);
    }
}

/// Flips change nothing at a path that none of them names.
pub proof fn lemma_metas_miss(tree: Tree, actions: Seq<MetaActionView>, path: Seq<char>)
    requires
        forall|k: int| 0 <= k < actions.len() ==> (#[trigger] actions[k]).path != path,
    ensures
        same_at(apply_metas(tree, actions), tree, path),
    decreases actions.len(),
{
    if actions.len() > 0 {
        let front = actions.drop_last();
        assert forall|k: int| 0 <= k < front.len() implies (#[trigger] front[k]).path != path by {
            assert(actions[k].path != path);
        }
        lemma_metas_miss(tree, front, path);
        assert(actions[actions.len() - 1].path != path);
    }
}

/// After flips of which no two name the same path, a file that stood at the
/// path of a flip is that file with its bit flipped.
pub proof fn lemma_metas_hit(tree: Tree, actions: Seq<MetaActionView>, k: int)
    requires
        0 <= k < actions.len(),
        tree.dom().contains(actions[k].path),
        forall|i: int, j: int|
            #![trigger actions[i], actions[j]]
            0 <= i < j < actions.len() ==> actions[i].path != actions[j].path,
    ensures
        apply_metas(tree, actions).dom().contains(actions[k].path),
        apply_metas(tree, actions)[actions[k].path] == flipped(
            tree[actions[k].path],
            actions[k].set_x_flag,
        ),
    decreases actions.len(),
{
    let front = actions.drop_last();
    let path = actions[k].path;
    assert forall|i: int, j: int|
        #![trigger front[i], front[j]]
        0 <= i < j < front.len() implies front[i].path != front[j].path by {
        assert(actions[i].path != actions[j].path);
    }
    if k < actions.len() - 1 {
        lemma_metas_hit(tree, front, k);
        assert(front[k] == actions[k]);
        assert(actions[k].path != actions[actions.len() - 1].path);
    } else {
        assert forall|i: int| 0 <= i < front.len() implies (#[trigger] front[i]).path != path by {
            assert(actions[i].path != actions[actions.len() - 1].path);
        }
        lemma_metas_miss(tree, front, path);
    }
}

/// A plan changes nothing at a path that it does not act on.
pub proof fn lemma_plan_misses(tree: Tree, plan: PlanView, path: Seq<char>)
    requires
        !plan.touches(path),
    ensures
        same_at(apply_plan(tree, plan), tree, path),
{
    let t1 = apply_removes(tree, plan.remove);
    let t2 = apply_contents(t1, plan.update_content);
    lemma_removes_miss(tree, plan.remove, path);
    lemma_contents_miss(t1, plan.update_content, path);
    lemma_metas_miss(t2, plan.update_meta, path);
}

/// What a plan that acts on every path at most once leaves at the path of
/// one of its actions: nothing after a removal, what was written after a
/// content update, and the file that stood there, with its bit flipped,
/// after a flip.
pub proof fn lemma_plan_hits(tree: Tree, plan: PlanView, action: ActionView)
    requires
        plan.paths_disjoint(),
        plan.contains(action),
    ensures
        match action {
            ActionView::Remove(path) => !apply_plan(tree, plan).dom().contains(path),
            ActionView::UpdateContent(a) => {
                &&& apply_plan(tree, plan).dom().contains(a.path)
                &&& apply_plan(tree, plan)[a.path] == written(a)
            },
            ActionView::UpdateMeta(a) => tree.dom().contains(a.path) ==> {
                &&& apply_plan(tree, plan).dom().contains(a.path)
                &&& apply_plan(tree, plan)[a.path] == flipped(tree[a.path], a.set_x_flag)
            },
        },
{
    let t1 = apply_removes(tree, plan.remove);
    let t2 = apply_contents(t1, plan.update_content);
    match action {
        ActionView::Remove(path) => {
            let k = choose|k: int| 0 <= k < plan.remove.len() && plan.remove[k] == path;
            lemma_removes_hit(tree, plan.remove, k);
            lemma_contents_miss(t1, plan.update_content, path);
            lemma_metas_miss(t2, plan.update_meta, path);
        },
        ActionView::UpdateContent(a) => {
            let k = choose|k: int|
                0 <= k < plan.update_content.len() && plan.update_content[k] == a;
            lemma_contents_hit(t1, plan.update_content, k);
            lemma_metas_miss(t2, plan.update_meta, a.path);
        },
        ActionView::UpdateMeta(a) => {
            let k = choose|k: int| 0 <= k < plan.update_meta.len() && plan.update_meta[k] == a;
            lemma_removes_miss(tree, plan.remove, a.path);
            lemma_contents_miss(t1, plan.update_content, a.path);
            if tree.dom().contains(a.path) {
                lemma_metas_hit(t2, plan.update_meta, k);
            }
        },
    }
}

/// Carrying out the plan of a diff on the left tree of the diff gives the
/// right tree, provided that every content that is fetched is found and
/// written.
pub proof fn lemma_plan_realizes_diff(entries: Seq<DiffEntryView>, left: Tree, right: Tree)
    requires
        is_diff(entries, left, right),
    ensures
        apply_plan(left, plan_of(entries)) == right,
{
    let plan = plan_of(entries);
    let result = apply_plan(left, plan);
    lemma_plan_paths_disjoint(entries);
    assert forall|path: Seq<char>| same_at(result, right, path) by {
        lemma_plan_touches(entries, path);
        if plan.touches(path) {
            let i = choose|i: int| 0 <= i < entries.len() && (#[trigger] entries[i]).path == path;
            let action = classify_spec(entries[i]);
            assert(describes(entries[i], left, right));
            assert(has_action(entries, action));
            lemma_plan_contains(entries, action);
            lemma_plan_hits(left, plan, action);
        } else {
            lemma_plan_misses(left, plan, path);
            assert(same_at(left, right, path));
        }
    }
    assert forall|path: Seq<char>| result.dom().contains(path) <==> right.dom().contains(path) by {
        assert(same_at(result, right, path));
    }
    assert forall|path: Seq<char>| result.dom().contains(path) implies result[path] == right[path] by {
        assert(same_at(result, right, path));
    }
    assert(result =~= right);
}

/// A plan built from a diff against the empty tree, carried out in an empty
/// working directory, gives the right tree of the diff.
pub proof fn lemma_checkout_from_empty(entries: Seq<DiffEntryView>, right: Tree)
    requires
        is_diff(entries, Map::empty(), right),
    ensures
        apply_plan(Map::empty(), plan_of(entries)) == right,
        is_diff(Seq::empty(), apply_plan(Map::empty(), plan_of(entries)), right),
{
    lemma_plan_realizes_diff(entries, Map::empty(), right);
    lemma_empty_diff(right, right);
}

/// The empty diff is a diff between two trees exactly if they are the same
/// tree.
pub proof fn lemma_empty_diff(left: Tree, right: Tree)
    ensures
        is_diff(Seq::empty(), left, right) <==> left == right,
{
    let none = Seq::<DiffEntryView>::empty();
    if is_diff(none, left, right) {
        assert forall|path: Seq<char>| same_at(left, right, path) by {
            if !same_at(left, right, path) {
                let i = choose|i: int| 0 <= i < none.len() && (#[trigger] none[i]).path == path;
                assert(false);
            }
        }
        assert forall|path: Seq<char>| left.dom().contains(path) <==> right.dom().contains(path) by {
            assert(same_at(left, right, path));
        }
        assert forall|path: Seq<char>| left.dom().contains(path) implies left[path]
            == right[path] by {
            assert(same_at(left, right, path));
        }
        assert(left =~= right);
    }
}

} // verus!
