//! Classifying a diff into the actions of a checkout.

use vstd::prelude::*;
use crate::plan_laws::lemma_plan_paths_disjoint;
use crate::types::{DiffEntry, DiffEntryView, DiffType, FileMetadata, FileType, HgId};

verus! {

/// Rewrite the content of a file, and with it its kind.
#[derive(Clone, Debug, PartialEq, Eq)]
pub struct UpdateContentAction {
    /// Path to the file.
    path: String,
    /// Identifier of the new content.
    content_hgid: HgId,
    /// New kind of the file.
    file_type: FileType,
}

/// Mathematical value of an [`UpdateContentAction`].
pub struct ContentActionView {
    pub path: Seq<char>,
    pub content_hgid: HgId,
    pub file_type: FileType,
}

impl View for UpdateContentAction {
    type V = ContentActionView;

    closed spec fn view(&self) -> ContentActionView {
        ContentActionView {
            path: self.path@,
            content_hgid: self.content_hgid,
            file_type: self.file_type,
        }
    }
}

impl UpdateContentAction {
    /// The action that brings the file of `item` to the state `meta`.
    pub fn new(item: DiffEntry, meta: FileMetadata) -> (r: UpdateContentAction)
        ensures
            r@ == (ContentActionView {
                path: item@.path,
                content_hgid: meta.hgid,
                file_type: meta.file_type,
            }),
    {
        UpdateContentAction { path: item.path, content_hgid: meta.hgid, file_type: meta.file_type }
    }

    pub fn path(&self) -> (r: &String)
        ensures
            r@ == self@.path,
    {
        &self.path
    }

    pub fn content_hgid(&self) -> (r: HgId)
        ensures
            r == self@.content_hgid,
    {
        self.content_hgid
    }

    pub fn file_type(&self) -> (r: FileType)
        ensures
            r == self@.file_type,
    {
        self.file_type
    }
}

/// Flip the executable bit of a file whose content stays as it is.
#[derive(Clone, Debug, PartialEq, Eq)]
pub struct UpdateMetaAction {
    /// Path to the file.
    path: String,
    /// `true` to set the executable bit, `false` to clear it.
    set_x_flag: bool,
}

/// Mathematical value of an [`UpdateMetaAction`].
pub struct MetaActionView {
    pub path: Seq<char>,
    pub set_x_flag: bool,
}

impl View for UpdateMetaAction {
    type V = MetaActionView;

    closed spec fn view(&self) -> MetaActionView {
        MetaActionView { path: self.path@, set_x_flag: self.set_x_flag }
    }
}

impl UpdateMetaAction {
    pub fn new(path: String, set_x_flag: bool) -> (r: UpdateMetaAction)
        ensures
            r@ == (MetaActionView { path: path@, set_x_flag }),
    {
        UpdateMetaAction { path, set_x_flag }
    }

    pub fn path(&self) -> (r: &String)
        ensures
            r@ == self@.path,
    {
        &self.path
    }

    pub fn set_x_flag(&self) -> (r: bool)
        ensures
            r == self@.set_x_flag,
    {
        self.set_x_flag
    }
}

/// The one thing a checkout does for one diff entry.
#[derive(Clone, Debug, PartialEq, Eq)]
pub enum Action {
    Remove(String),
    UpdateContent(UpdateContentAction),
    UpdateMeta(UpdateMetaAction),
}

/// Mathematical value of an [`Action`].
pub enum ActionView {
    Remove(Seq<char>),
    UpdateContent(ContentActionView),
    UpdateMeta(MetaActionView),
}

impl View for Action {
    type V = ActionView;

    open spec fn view(&self) -> ActionView {
        match *self {
            Action::Remove(p) => ActionView::Remove(p@),
            Action::UpdateContent(a) => ActionView::UpdateContent(a@),
            Action::UpdateMeta(a) => ActionView::UpdateMeta(a@),
        }
    }
}

/// The content update that brings `path` to the state `meta`.
pub open spec fn content_update(path: Seq<char>, meta: FileMetadata) -> ActionView {
    ActionView::UpdateContent(
        ContentActionView { path, content_hgid: meta.hgid, file_type: meta.file_type },
    )
}

/// Whether going from `old_meta` to `new_meta` only flips the executable bit:
/// the content is the same and the kind goes from regular to executable or
/// back.
pub open spec fn is_exec_toggle(old_meta: FileMetadata, new_meta: FileMetadata) -> bool {
    &&& old_meta.hgid == new_meta.hgid
    &&& {
        ||| old_meta.file_type is Executable && new_meta.file_type is Regular
        ||| old_meta.file_type is Regular && new_meta.file_type is Executable
    }
}

/// The action for one diff entry.
///
/// A file that is only on the left is removed. A file that is only on the
/// right is written. A changed file has its executable bit flipped when that
/// is all that changed, and is written anew otherwise.
pub open spec fn classify_spec(entry: DiffEntryView) -> ActionView {
    match entry.diff_type {
        DiffType::LeftOnly(_) => ActionView::Remove(entry.path),
        DiffType::RightOnly(meta) => content_update(entry.path, meta),
        DiffType::Changed(old_meta, new_meta) => if is_exec_toggle(old_meta, new_meta) {
            ActionView::UpdateMeta(
                MetaActionView {
                    path: entry.path,
                    set_x_flag: new_meta.file_type is Executable,
                },
            )
        } else {
            content_update(entry.path, new_meta)
        },
    }
}

/// Turns one diff entry into its action.
pub fn classify(entry: DiffEntry) -> (action: Action)
    ensures
        action@ == classify_spec(entry@),
{
    match entry.diff_type {
        DiffType::LeftOnly(_) => Action::Remove(entry.path),
        DiffType::RightOnly(meta) => Action::UpdateContent(UpdateContentAction::new(entry, meta)),
        DiffType::Changed(old_meta, new_meta) => {
            let same = old_meta.hgid == new_meta.hgid;
            match (same, old_meta.file_type, new_meta.file_type) {
                (true, FileType::Executable, FileType::Regular) => Action::UpdateMeta(
                    UpdateMetaAction::new(entry.path, false),
                ),
                (true, FileType::Regular, FileType::Executable) => Action::UpdateMeta(
                    UpdateMetaAction::new(entry.path, true),
                ),
                _ => Action::UpdateContent(UpdateContentAction::new(entry, new_meta)),
            }
        },
    }
}

/// Mathematical value of a [`CheckoutPlan`]: its three lists, in order.
pub struct PlanView {
    pub remove: Seq<Seq<char>>,
    pub update_content: Seq<ContentActionView>,
    pub update_meta: Seq<MetaActionView>,
}

impl PlanView {
    /// The plan that does nothing.
    pub open spec fn empty() -> PlanView {
        PlanView { remove: Seq::empty(), update_content: Seq::empty(), update_meta: Seq::empty() }
    }

    /// This plan with `action` added at the end of the list it belongs to.
    pub open spec fn with_action(self, action: ActionView) -> PlanView {
        match action {
            ActionView::Remove(p) => PlanView { remove: self.remove.push(p), ..self },
            ActionView::UpdateContent(a) => PlanView {
                update_content: self.update_content.push(a),
                ..self
            },
            ActionView::UpdateMeta(a) => PlanView {
                update_meta: self.update_meta.push(a),
                ..self
            },
        }
    }

    /// Whether every path is acted on at most once: no list names a path
    /// twice, and no two lists name the same path.
    pub open spec fn paths_disjoint(self) -> bool {
        &&& forall|i: int, j: int|
            #![trigger self.remove[i], self.remove[j]]
            0 <= i < j < self.remove.len() ==> self.remove[i] != self.remove[j]
        &&& forall|i: int, j: int|
            #![trigger self.update_content[i], self.update_content[j]]
            0 <= i < j < self.update_content.len() ==> self.update_content[i].path
                != self.update_content[j].path
        &&& forall|i: int, j: int|
            #![trigger self.update_meta[i], self.update_meta[j]]
            0 <= i < j < self.update_meta.len() ==> self.update_meta[i].path
                != self.update_meta[j].path
        &&& forall|i: int, j: int|
            #![trigger self.remove[i], self.update_content[j]]
            0 <= i < self.remove.len() && 0 <= j < self.update_content.len() ==> self.remove[i]
                != self.update_content[j].path
        &&& forall|i: int, j: int|
            #![trigger self.remove[i], self.update_meta[j]]
            0 <= i < self.remove.len() && 0 <= j < self.update_meta.len() ==> self.remove[i]
                != self.update_meta[j].path
        &&& forall|i: int, j: int|
            #![trigger self.update_content[i], self.update_meta[j]]
            0 <= i < self.update_content.len() && 0 <= j < self.update_meta.len()
                ==> self.update_content[i].path != self.update_meta[j].path
    }

    /// Number of actions in the three lists together.
    pub open spec fn len(self) -> nat {
        self.remove.len() + self.update_content.len() + self.update_meta.len()
    }
}

/// The plan for a diff: every entry's action, each in its list, in the order
/// of the entries.
pub open spec fn plan_of(entries: Seq<DiffEntryView>) -> PlanView
    decreases entries.len(),
{
    if entries.len() == 0 {
        PlanView::empty()
    } else {
        plan_of(entries.drop_last()).with_action(classify_spec(entries.last()))
    }
}

/// Whether no two entries of a diff speak of the same path.
pub open spec fn paths_distinct(entries: Seq<DiffEntryView>) -> bool {
    forall|i: int, j: int|
        0 <= i < j < entries.len() ==> (#[trigger] entries[i]).path != (#[trigger] entries[j]).path
}

/// Whether every item of a diff was read without error.
pub open spec fn all_ok<E>(items: Seq<Result<DiffEntry, E>>) -> bool {
    forall|i: int| 0 <= i < items.len() ==> (#[trigger] items[i]) is Ok
}

/// The entries of a diff that was read without error.
pub open spec fn entries_of<E>(items: Seq<Result<DiffEntry, E>>) -> Seq<DiffEntryView>
    recommends
        all_ok(items),
{
    items.map_values(|item: Result<DiffEntry, E>| item->Ok_0@)
}

/// Whether `i` is the position of the first item of a diff that failed to
/// be read.
pub open spec fn is_first_error<E>(items: Seq<Result<DiffEntry, E>>, i: int) -> bool {
    &&& 0 <= i < items.len()
    &&& items[i] is Err
    &&& all_ok(items.take(i))
}

/// The paths held by a list of strings.
pub open spec fn path_views(paths: Seq<String>) -> Seq<Seq<char>> {
    Seq::new(paths.len(), |i: int| paths[i]@)
}

/// The values of a list of content updates.
pub open spec fn content_views(actions: Seq<UpdateContentAction>) -> Seq<ContentActionView> {
    Seq::new(actions.len(), |i: int| actions[i]@)
}

/// The values of a list of executable-bit updates.
pub open spec fn meta_views(actions: Seq<UpdateMetaAction>) -> Seq<MetaActionView> {
    Seq::new(actions.len(), |i: int| actions[i]@)
}

/// Lists of files to be removed and updated during checkout.
#[derive(Clone, Debug, PartialEq, Eq)]
pub struct CheckoutPlan {
    /// Files to be removed.
    remove: Vec<String>,
    /// Files that need their content updated.
    update_content: Vec<UpdateContentAction>,
    /// Files that only need their executable bit updated.
    update_meta: Vec<UpdateMetaAction>,
}

impl View for CheckoutPlan {
    type V = PlanView;

    closed spec fn view(&self) -> PlanView {
        PlanView {
            remove: path_views(self.remove@),
            update_content: content_views(self.update_content@),
            update_meta: meta_views(self.update_meta@),
        }
    }
}

impl CheckoutPlan {
    /// A plan without actions.
    pub fn empty() -> (plan: CheckoutPlan)
        ensures
            plan@ == PlanView::empty(),
    {
        let plan = CheckoutPlan {
            remove: Vec::new(),
            update_content: Vec::new(),
            update_meta: Vec::new(),
        };
        assert(plan@.remove =~= Seq::empty());
        assert(plan@.update_content =~= Seq::empty());
        assert(plan@.update_meta =~= Seq::empty());
        plan
    }

    /// Adds the action for `entry` at the end of the list it belongs to.
    pub fn push(&mut self, entry: DiffEntry)
        ensures
            final(self)@ == old(self)@.with_action(classify_spec(entry@)),
    {
        match classify(entry) {
            Action::Remove(path) => {
                self.remove.push(path);
                assert(self@.remove =~= old(self)@.remove.push(path@));
            },
            Action::UpdateContent(action) => {
                self.update_content.push(action);
                assert(self@.update_content =~= old(self)@.update_content.push(action@));
            },
            Action::UpdateMeta(action) => {
                self.update_meta.push(action);
                assert(self@.update_meta =~= old(self)@.update_meta.push(action@));
            },
        }
    }

    /// Files to be removed, in the order of the diff.
    pub fn remove(&self) -> (r: &Vec<String>)
        ensures
            path_views(r@) == self@.remove,
    {
        &self.remove
    }

    /// Files whose content is to be written, in the order of the diff.
    pub fn update_content(&self) -> (r: &Vec<UpdateContentAction>)
        ensures
            content_views(r@) == self@.update_content,
    {
        &self.update_content
    }

    /// Files whose executable bit is to be flipped, in the order of the diff.
    pub fn update_meta(&self) -> (r: &Vec<UpdateMetaAction>)
        ensures
            meta_views(r@) == self@.update_meta,
    {
        &self.update_meta
    }

    /// Takes the plan apart into its three lists.
    pub fn into_parts(self) -> (r: (Vec<String>, Vec<UpdateContentAction>, Vec<UpdateMetaAction>))
        ensures
            path_views(r.0@) == self@.remove,
            content_views(r.1@) == self@.update_content,
            meta_views(r.2@) == self@.update_meta,
    {
        (self.remove, self.update_content, self.update_meta)
    }

    /// Processes a diff into a checkout plan. The left side of the diff is
    /// the tree that is checked out now, the right side the tree to check
    /// out.
    ///
    /// Reading the diff may have failed part way: the first item that is an
    /// error ends the processing, and that error is returned.
    pub fn from_diff<E>(items: Vec<Result<DiffEntry, E>>) -> (r: Result<CheckoutPlan, E>)
        ensures
            match r {
                Ok(plan) => {
                    &&& all_ok(items@)
                    &&& plan@ == plan_of(entries_of(items@))
                    &&& paths_distinct(entries_of(items@)) ==> plan@.paths_disjoint()
                },
                Err(e) => exists|i: int|
                    #![trigger items@[i]]
                    is_first_error(items@, i) && items@[i] == Err::<DiffEntry, E>(e),
            },
    {
        let mut plan = CheckoutPlan::empty();
        let ghost all = items@;
        for item in it: items
            invariant
                all_ok(all.take(it.index())),
                plan@ == plan_of(entries_of(all.take(it.index()))),
                it.seq() == all,
        {
            let ghost i = it.index();
            match item {
                Ok(entry) => {
                    proof {
                        let next = all.take(i + 1);
                        assert(next.drop_last() =~= all.take(i));
                        assert(entries_of(next).drop_last() =~= entries_of(all.take(i)));
                        assert(entries_of(next).last() == entry@);
                    }
                    plan.push(entry);
                },
                Err(e) => {
                    assert(is_first_error(all, i));
                    return Err(e);
                },
            }
        }
        proof {
            assert(all.take(all.len() as int) =~= all);
            if paths_distinct(entries_of(all)) {
                lemma_plan_paths_disjoint(entries_of(all));
            }
        }
        Ok(plan)
    }

    /// Whether the plan acts on every path at most once. A plan for which
    /// this does not hold would have two operations at work on one file at
    /// the same time.
    pub fn is_disjoint(&self) -> (b: bool)
        ensures
            b == self@.paths_disjoint(),
    {
        let mut i: usize = 0;
        while i < self.remove.len()
            invariant
                i <= self.remove.len(),
                forall|a: int, b: int|
                    #![trigger self@.remove[a], self@.remove[b]]
                    0 <= a < i && a < b < self@.remove.len() ==> self@.remove[a] != self@.remove[b],
                forall|a: int, b: int|
                    #![trigger self@.remove[a], self@.update_content[b]]
                    0 <= a < i && 0 <= b < self@.update_content.len() ==> self@.remove[a]
                        != self@.update_content[b].path,
                forall|a: int, b: int|
                    #![trigger self@.remove[a], self@.update_meta[b]]
                    0 <= a < i && 0 <= b < self@.update_meta.len() ==> self@.remove[a]
                        != self@.update_meta[b].path,
            decreases self.remove.len() - i,
        {
            let path = &self.remove[i];
            if removes_name(&self.remove, i + 1, path) {
                proof {
                    let k = choose|k: int|
                        i + 1 <= k < self.remove@.len() && (#[trigger] self.remove@[k])@ == path@;
                    assert(self@.remove[i as int] == self@.remove[k]);
                }
                return false;
            }
            if contents_name(&self.update_content, 0, path) {
                proof {
                    let k = choose|k: int|
                        #![trigger self.update_content@[k]]
                        0 <= k < self.update_content@.len() && self.update_content@[k]@.path
                            == path@;
                    assert(self@.remove[i as int] == self@.update_content[k].path);
                }
                return false;
            }
            if metas_name(&self.update_meta, 0, path) {
                proof {
                    let k = choose|k: int|
                        0 <= k < self.update_meta@.len() && (#[trigger] self.update_meta@[k])@.path
                            == path@;
                    assert(self@.remove[i as int] == self@.update_meta[k].path);
                }
                return false;
            }
            i += 1;
        }
        let mut i: usize = 0;
        while i < self.update_content.len()
            invariant
                i <= self.update_content.len(),
                forall|a: int, b: int|
                    #![trigger self@.update_content[a], self@.update_content[b]]
                    0 <= a < i && a < b < self@.update_content.len()
                        ==> self@.update_content[a].path != self@.update_content[b].path,
                forall|a: int, b: int|
                    #![trigger self@.update_content[a], self@.update_meta[b]]
                    0 <= a < i && 0 <= b < self@.update_meta.len() ==> self@.update_content[a].path
                        != self@.update_meta[b].path,
            decreases self.update_content.len() - i,
        {
            let path = self.update_content[i].path();
            if contents_name(&self.update_content, i + 1, path) {
                proof {
                    let k = choose|k: int|
                        #![trigger self.update_content@[k]]
                        i + 1 <= k < self.update_content@.len() && self.update_content@[k]@.path
                            == path@;
                    assert(self@.update_content[i as int].path == self@.update_content[k].path);
                }
                return false;
            }
            if metas_name(&self.update_meta, 0, path) {
                proof {
                    let k = choose|k: int|
                        0 <= k < self.update_meta@.len() && (#[trigger] self.update_meta@[k])@.path
                            == path@;
                    assert(self@.update_content[i as int].path == self@.update_meta[k].path);
                }
                return false;
            }
            i += 1;
        }
        let mut i: usize = 0;
        while i < self.update_meta.len()
            invariant
                i <= self.update_meta.len(),
                forall|a: int, b: int|
                    #![trigger self@.update_meta[a], self@.update_meta[b]]
                    0 <= a < i && a < b < self@.update_meta.len() ==> self@.update_meta[a].path
                        != self@.update_meta[b].path,
            decreases self.update_meta.len() - i,
        {
            let path = self.update_meta[i].path();
            if metas_name(&self.update_meta, i + 1, path) {
                proof {
                    let k = choose|k: int|
                        i + 1 <= k < self.update_meta@.len() && (#[trigger] self.update_meta@[k])@.path
                            == path@;
                    assert(self@.update_meta[i as int].path == self@.update_meta[k].path);
                }
                return false;
            }
            i += 1;
        }
        true
    }
}

/// Whether `path` stands in `paths` at position `from` or later.
fn removes_name(paths: &Vec<String>, from: usize, path: &String) -> (b: bool)
    requires
        from <= paths.len(),
    ensures
        b == exists|k: int| from <= k < paths.len() && (#[trigger] paths@[k])@ == path@,
{
    let mut k: usize = from;
    while k < paths.len()
        invariant
            from <= k <= paths.len(),
            forall|j: int| from <= j < k ==> (#[trigger] paths@[j])@ != path@,
        decreases paths.len() - k,
    {
        if paths[k] == *path {
            return true;
        }
        k += 1;
    }
    false
}

/// Whether one of `actions`, at position `from` or later, writes `path`.
fn contents_name(actions: &Vec<UpdateContentAction>, from: usize, path: &String) -> (b: bool)
    requires
        from <= actions.len(),
    ensures
        b == exists|k: int| from <= k < actions.len() && (#[trigger] actions@[k])@.path == path@,
{
    let mut k: usize = from;
    while k < actions.len()
        invariant
            from <= k <= actions.len(),
            forall|j: int| from <= j < k ==> (#[trigger] actions@[j])@.path != path@,
        decreases actions.len() - k,
    {
        if *actions[k].path() == *path {
            return true;
        }
        k += 1;
    }
    false
}

/// Whether one of `actions`, at position `from` or later, flips the bit of
/// `path`.
fn metas_name(actions: &Vec<UpdateMetaAction>, from: usize, path: &String) -> (b: bool)
    requires
        from <= actions.len(),
    ensures
        b == exists|k: int| from <= k < actions.len() && (#[trigger] actions@[k])@.path == path@,
{
    let mut k: usize = from;
    while k < actions.len()
        invariant
            from <= k <= actions.len(),
            forall|j: int| from <= j < k ==> (#[trigger] actions@[j])@.path != path@,
        decreases actions.len() - k,
    {
        if *actions[k].path() == *path {
            return true;
        }
        k += 1;
    }
    false
}

} // verus!
