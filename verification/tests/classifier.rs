use gut::status::Category;
use gut::status::category_label;
use gut::status::classify_status;
use gut::status::entry_label;

#[test]
fn scenario_mixed_status_text() {
    let lists = classify_status("M  foo.txt\n?? bar.txt\n");
    assert_eq!(lists.staged.len(), 1);
    assert_eq!(lists.staged[0].path, "foo.txt");
    assert!(matches!(lists.staged[0].category, Category::Modified));
    assert_eq!(lists.unstaged.len(), 1);
    assert_eq!(lists.unstaged[0].path, "bar.txt");
    assert!(matches!(lists.unstaged[0].category, Category::Untracked));
}

#[test]
fn empty_input_gives_empty_columns() {
    let lists = classify_status("");
    assert_eq!(lists.staged.len(), 0);
    assert_eq!(lists.unstaged.len(), 0);
}

#[test]
fn both_columns_when_both_codes_set() {
    let lists = classify_status("MM a.txt");
    assert_eq!(lists.staged.len(), 1);
    assert_eq!(lists.unstaged.len(), 1);
    assert_eq!(lists.staged[0].path, "a.txt");
    assert_eq!(lists.unstaged[0].path, "a.txt");
    assert!(matches!(lists.staged[0].category, Category::Modified));
    assert!(matches!(lists.unstaged[0].category, Category::Modified));
}

#[test]
fn unmodified_columns_are_omitted() {
    let lists = classify_status(" M w.txt\nD  i.txt");
    assert_eq!(lists.staged.len(), 1);
    assert_eq!(lists.staged[0].path, "i.txt");
    assert!(matches!(lists.staged[0].category, Category::Deleted));
    assert_eq!(lists.unstaged.len(), 1);
    assert_eq!(lists.unstaged[0].path, "w.txt");
    assert!(matches!(lists.unstaged[0].category, Category::Modified));
}

#[test]
fn unknown_code_is_surfaced_in_label() {
    let lists = classify_status("Z  odd.txt");
    assert_eq!(lists.staged.len(), 1);
    assert!(matches!(lists.staged[0].category, Category::Unknown('Z')));
    let label = entry_label(&lists.staged[0]);
    assert_eq!(label, "odd.txt - Unknown category: Z");
    assert!(label.contains('Z'));
}

#[test]
fn untracked_and_ignored_stay_out_of_the_staged_column() {
    let lists = classify_status("?? u.txt\n!! i.txt");
    assert_eq!(lists.staged.len(), 0);
    assert_eq!(lists.unstaged.len(), 2);
    assert!(matches!(lists.unstaged[0].category, Category::Untracked));
    assert!(matches!(lists.unstaged[1].category, Category::Ignored));
}

#[test]
fn order_matches_input_order() {
    let lists = classify_status("A  1\nM  2\nD  3");
    let paths: Vec<&str> = lists.staged.iter().map(|e| e.path.as_str()).collect();
    assert_eq!(paths, vec!["1", "2", "3"]);
}

#[test]
fn category_labels_are_exact() {
    assert_eq!(category_label(&Category::Modified), "Modified");
    assert_eq!(category_label(&Category::TypeChanged), "Type changed");
    assert_eq!(category_label(&Category::Added), "Added");
    assert_eq!(category_label(&Category::Deleted), "Deleted");
    assert_eq!(category_label(&Category::Renamed), "Renamed");
    assert_eq!(category_label(&Category::Copied), "Copied");
    assert_eq!(category_label(&Category::UpdatedUnmerged), "Updated but unmerged");
    assert_eq!(category_label(&Category::Untracked), "Untracked");
    assert_eq!(category_label(&Category::Ignored), "Ignored");
    assert_eq!(category_label(&Category::Unknown('x')), "Unknown category: x");
}

#[test]
fn short_lines_do_not_panic() {
    let lists = classify_status("M\n\nD");
    assert_eq!(lists.staged.len(), 2);
    assert_eq!(lists.staged[0].path, "");
    assert_eq!(lists.staged[1].path, "");
    assert_eq!(lists.unstaged.len(), 0);
}

#[test]
fn carriage_return_line_endings_leave_paths_clean() {
    let lists = classify_status("M  foo.txt\r\n?? bar.txt\r\n");
    assert_eq!(lists.staged.len(), 1);
    assert_eq!(lists.staged[0].path, "foo.txt");
    assert_eq!(lists.unstaged.len(), 1);
    assert_eq!(lists.unstaged[0].path, "bar.txt");
}

#[test]
fn entry_labels_join_path_and_category() {
    let lists = classify_status("R  old -> new");
    assert_eq!(entry_label(&lists.staged[0]), "old -> new - Renamed");
}
