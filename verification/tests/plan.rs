use checkout::plan::{classify, Action, CheckoutPlan, UpdateContentAction, UpdateMetaAction};
use checkout::types::{DiffEntry, DiffType, FileMetadata, FileType, HgId};

fn hgid(byte: u8) -> HgId {
    HgId { bytes: [byte; 20] }
}

fn meta(byte: u8, file_type: FileType) -> FileMetadata {
    FileMetadata { hgid: hgid(byte), file_type }
}

fn plan_of(entries: Vec<DiffEntry>) -> CheckoutPlan {
    let items: Vec<Result<DiffEntry, String>> = entries.into_iter().map(Ok).collect();
    CheckoutPlan::from_diff(items).unwrap()
}

#[test]
fn empty_diff_gives_empty_plan() {
    let plan = plan_of(vec![]);
    assert!(plan.remove().is_empty());
    assert!(plan.update_content().is_empty());
    assert!(plan.update_meta().is_empty());
    assert_eq!(plan, CheckoutPlan::empty());
}

#[test]
fn left_only_entries_become_removals_in_order() {
    let plan = plan_of(vec![
        DiffEntry::left("b/z".to_string(), meta(1, FileType::Regular)),
        DiffEntry::left("a".to_string(), meta(2, FileType::Executable)),
        DiffEntry::left("c".to_string(), meta(3, FileType::Symlink)),
    ]);
    assert_eq!(plan.remove(), &vec!["b/z".to_string(), "a".to_string(), "c".to_string()]);
    assert!(plan.update_content().is_empty());
    assert!(plan.update_meta().is_empty());
}

#[test]
fn right_only_entry_becomes_content_update() {
    let plan = plan_of(vec![DiffEntry::right("b.txt".to_string(), meta(9, FileType::Regular))]);
    assert!(plan.remove().is_empty());
    assert!(plan.update_meta().is_empty());
    assert_eq!(plan.update_content().len(), 1);
    let action = &plan.update_content()[0];
    assert_eq!(action.path(), "b.txt");
    assert_eq!(action.content_hgid(), hgid(9));
    assert_eq!(action.file_type(), FileType::Regular);
}

#[test]
fn executable_to_regular_with_same_content_clears_the_bit() {
    let plan = plan_of(vec![DiffEntry::changed(
        "c.txt".to_string(),
        meta(4, FileType::Executable),
        meta(4, FileType::Regular),
    )]);
    assert!(plan.remove().is_empty());
    assert!(plan.update_content().is_empty());
    assert_eq!(plan.update_meta(), &vec![UpdateMetaAction::new("c.txt".to_string(), false)]);
    assert!(!plan.update_meta()[0].set_x_flag());
    assert_eq!(plan.update_meta()[0].path(), "c.txt");
}

#[test]
fn regular_to_executable_with_same_content_sets_the_bit() {
    let plan = plan_of(vec![DiffEntry::changed(
        "run.sh".to_string(),
        meta(4, FileType::Regular),
        meta(4, FileType::Executable),
    )]);
    assert!(plan.remove().is_empty());
    assert!(plan.update_content().is_empty());
    assert_eq!(plan.update_meta(), &vec![UpdateMetaAction::new("run.sh".to_string(), true)]);
}

#[test]
fn changed_content_is_rewritten_even_when_the_kind_toggles() {
    let entry = DiffEntry::changed(
        "run.sh".to_string(),
        meta(4, FileType::Regular),
        meta(5, FileType::Executable),
    );
    let plan = plan_of(vec![entry.clone()]);
    assert!(plan.update_meta().is_empty());
    assert_eq!(
        plan.update_content(),
        &vec![UpdateContentAction::new(entry, meta(5, FileType::Executable))]
    );
}

#[test]
fn changes_to_and_from_symlink_are_rewritten() {
    let cases = [
        (FileType::Regular, FileType::Symlink),
        (FileType::Symlink, FileType::Regular),
        (FileType::Executable, FileType::Symlink),
        (FileType::Symlink, FileType::Executable),
        (FileType::Regular, FileType::Regular),
        (FileType::Executable, FileType::Executable),
        (FileType::Symlink, FileType::Symlink),
    ];
    for (old_type, new_type) in cases {
        let entry = DiffEntry::changed("f".to_string(), meta(4, old_type), meta(4, new_type));
        let action = classify(entry.clone());
        assert_eq!(
            action,
            Action::UpdateContent(UpdateContentAction::new(entry, meta(4, new_type)))
        );
    }
}

#[test]
fn classify_covers_every_kind_of_entry() {
    assert_eq!(
        classify(DiffEntry::left("a".to_string(), meta(1, FileType::Regular))),
        Action::Remove("a".to_string())
    );
    let right = DiffEntry::new("b".to_string(), DiffType::RightOnly(meta(2, FileType::Symlink)));
    assert_eq!(
        classify(right.clone()),
        Action::UpdateContent(UpdateContentAction::new(right, meta(2, FileType::Symlink)))
    );
    assert_eq!(
        classify(DiffEntry::changed(
            "c".to_string(),
            meta(3, FileType::Executable),
            meta(3, FileType::Regular)
        )),
        Action::UpdateMeta(UpdateMetaAction::new("c".to_string(), false))
    );
}

#[test]
fn mixed_diff_keeps_the_order_within_each_list() {
    let plan = plan_of(vec![
        DiffEntry::right("new1".to_string(), meta(1, FileType::Regular)),
        DiffEntry::left("old1".to_string(), meta(2, FileType::Regular)),
        DiffEntry::changed("x1".to_string(), meta(3, FileType::Regular), meta(3, FileType::Executable)),
        DiffEntry::changed("mod1".to_string(), meta(4, FileType::Regular), meta(5, FileType::Regular)),
        DiffEntry::left("old2".to_string(), meta(6, FileType::Regular)),
        DiffEntry::changed("x2".to_string(), meta(7, FileType::Executable), meta(7, FileType::Regular)),
    ]);
    assert_eq!(plan.remove(), &vec!["old1".to_string(), "old2".to_string()]);
    let content: Vec<&str> = plan.update_content().iter().map(|a| a.path().as_str()).collect();
    assert_eq!(content, vec!["new1", "mod1"]);
    let metas: Vec<(&str, bool)> =
        plan.update_meta().iter().map(|a| (a.path().as_str(), a.set_x_flag())).collect();
    assert_eq!(metas, vec![("x1", true), ("x2", false)]);
    assert_eq!(
        plan.remove().len() + plan.update_content().len() + plan.update_meta().len(),
        6
    );
}

#[test]
fn first_read_error_ends_plan_building() {
    let items: Vec<Result<DiffEntry, String>> = vec![
        Ok(DiffEntry::left("a".to_string(), meta(1, FileType::Regular))),
        Err("disk".to_string()),
        Ok(DiffEntry::left("b".to_string(), meta(2, FileType::Regular))),
        Err("later".to_string()),
    ];
    assert_eq!(CheckoutPlan::from_diff(items), Err("disk".to_string()));
}

#[test]
fn push_adds_to_the_list_of_the_action() {
    let mut plan = CheckoutPlan::empty();
    plan.push(DiffEntry::left("a".to_string(), meta(1, FileType::Regular)));
    plan.push(DiffEntry::right("b".to_string(), meta(2, FileType::Regular)));
    plan.push(DiffEntry::left("c".to_string(), meta(3, FileType::Regular)));
    let (remove, update_content, update_meta) = plan.into_parts();
    assert_eq!(remove, vec!["a".to_string(), "c".to_string()]);
    assert_eq!(update_content.len(), 1);
    assert!(update_meta.is_empty());
}

#[test]
fn content_ids_compare_by_their_bytes() {
    let mut other = [7u8; 20];
    assert_eq!(hgid(7), HgId { bytes: other });
    other[19] = 8;
    assert_ne!(hgid(7), HgId { bytes: other });
    assert_ne!(meta(7, FileType::Regular), meta(7, FileType::Executable));
    assert_eq!(meta(7, FileType::Regular), meta(7, FileType::Regular));
}

#[test]
fn plan_of_a_diff_with_distinct_paths_is_disjoint() {
    let plan = plan_of(vec![
        DiffEntry::right("new".to_string(), meta(1, FileType::Regular)),
        DiffEntry::left("old".to_string(), meta(2, FileType::Regular)),
        DiffEntry::changed("x".to_string(), meta(3, FileType::Regular), meta(3, FileType::Executable)),
        DiffEntry::left("old2".to_string(), meta(2, FileType::Regular)),
    ]);
    assert!(plan.is_disjoint());
    assert!(CheckoutPlan::empty().is_disjoint());
}

#[test]
fn plan_that_names_a_path_twice_is_not_disjoint() {
    let remove = DiffEntry::left("p".to_string(), meta(1, FileType::Regular));
    let write = DiffEntry::right("p".to_string(), meta(2, FileType::Regular));
    let flip =
        DiffEntry::changed("p".to_string(), meta(3, FileType::Regular), meta(3, FileType::Executable));
    let other = DiffEntry::left("q".to_string(), meta(1, FileType::Regular));
    let pairs = [
        (remove.clone(), remove.clone()),
        (remove.clone(), write.clone()),
        (remove.clone(), flip.clone()),
        (write.clone(), write.clone()),
        (write.clone(), flip.clone()),
        (flip.clone(), flip.clone()),
    ];
    for (first, second) in pairs {
        assert!(!plan_of(vec![first.clone(), other.clone(), second.clone()]).is_disjoint());
        assert!(!plan_of(vec![second, first, other.clone()]).is_disjoint());
    }
}
