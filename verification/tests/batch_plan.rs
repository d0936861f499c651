use rename_mod_time::widths::{center_in_width, pad_right, wide_offset_of};
use rename_mod_time::{Answer, RayFileList, RenameError, classify_answer};

fn batch(names: &[&str], fmt: &str) -> RayFileList {
    let inputs: Vec<String> = names.iter().map(|n| String::from(*n)).collect();
    RayFileList::from(&inputs, String::from(fmt)).unwrap()
}

#[test]
fn input_width_covers_longest_entry() {
    let b = batch(&["a.txt", "报告.pdf"], "%y-%m-%d");
    assert!(b.input_column_width() >= 3);
    assert!(b.input_column_width() >= 5);
    assert_eq!(b.input_column_width(), 6);
}

#[test]
fn input_width_has_floor_three() {
    let b = batch(&["a.b"], "%y-%m-%d");
    assert_eq!(b.input_column_width(), 3);
}

#[test]
fn output_width_has_floor_three() {
    let b = batch(&["a.b"], "%y-%m-%d");
    assert!(b.output_column_width() >= 3);
}

#[test]
fn output_width_counts_sample_dot_and_extension() {
    // "%y-%m-%d" always formats to 8 characters; the longest extension has 3.
    let b = batch(&["a.txt", "报告.pdf"], "%y-%m-%d");
    assert_eq!(b.output_column_width(), 8 + 1 + 3);
}

#[test]
fn separator_anywhere_fails_construction() {
    let inputs = vec![String::from("ok.txt"), String::from("dir/x.txt")];
    let r = RayFileList::from(&inputs, String::from("%y"));
    assert!(matches!(r, Err(RenameError::PathSeparator)));
}

#[test]
fn invalid_pattern_fails_construction() {
    let inputs = vec![String::from("ok.txt")];
    let r = RayFileList::from(&inputs, String::from("%"));
    assert!(matches!(r, Err(RenameError::InvalidTimeFormat)));
}

#[test]
fn format_unsupported_pattern_fails_construction() {
    // `%#z` passes chrono's pattern parser but its formatter rejects it.
    let inputs = vec![String::from("ok.txt")];
    let r = RayFileList::from(&inputs, String::from("%#z"));
    assert!(matches!(r, Err(RenameError::InvalidTimeFormat)));
}

#[test]
fn out_of_range_instant_gives_no_list() {
    let b = batch(&["epoch.txt"], "%Y");
    assert!(b.get_renamed_file_list(&vec![(i64::MAX, 0)]).is_none());
}

#[test]
fn renamed_list_pairs_base_with_old_extension() {
    let b = batch(&["report.txt"], "%y-%m-%d");
    let new_list = b.renamed_list_from_bases(&vec![String::from("24-03-01")]);
    assert_eq!(new_list.len(), 1);
    assert_eq!(new_list[0].display_name(), "24-03-01.txt");
}

#[test]
fn renamed_dotfile_gets_no_dot_appended() {
    let b = batch(&[".bashrc"], "%y-%m-%d");
    let new_list = b.renamed_list_from_bases(&vec![String::from("24-03-01_10-00-00")]);
    assert_eq!(new_list.len(), 1);
    assert_eq!(new_list[0].base_name(), "24-03-01_10-00-00");
    assert_eq!(new_list[0].extension(), "");
    assert_eq!(new_list[0].display_name(), "24-03-01_10-00-00");
}

#[test]
fn renamed_list_leaves_entries_unchanged() {
    let b = batch(&["report.txt", "notes.md"], "%y-%m-%d");
    let bases = vec![String::from("a"), String::from("b")];
    let first = b.renamed_list_from_bases(&bases);
    let second = b.renamed_list_from_bases(&bases);
    assert_eq!(first.len(), second.len());
    for (f, s) in first.iter().zip(second.iter()) {
        assert_eq!(f.base_name(), s.base_name());
        assert_eq!(f.extension(), s.extension());
    }
    let names = b.input_display_names();
    assert_eq!(names, vec![String::from("report.txt"), String::from("notes.md")]);
}

#[test]
fn modification_times_become_base_names() {
    // 1970-06-30 00:00:00 UTC falls in 1970 in every time zone.
    let b = batch(&["epoch.txt"], "%Y");
    let renamed = b.get_renamed_file_list(&vec![(15552000, 0)]).unwrap();
    assert_eq!(renamed.len(), 1);
    assert_eq!(renamed[0].base_name(), "1970");
    assert_eq!(renamed[0].display_name(), "1970.txt");
}

#[test]
fn header_centres_labels_in_both_columns() {
    let b = batch(&["a.txt"], "%y-%m-%d");
    let wi = b.input_column_width();
    let wo = b.output_column_width();
    let expected = format!("{:^wi$} {:^wo$}", "old", "new");
    assert_eq!(b.render_renaming_header(), expected);
}

#[test]
fn rows_subtract_wide_offset_from_padding() {
    let b = batch(&["a.txt", "报告.pdf"], "%y-%m-%d");
    let new_list =
        b.renamed_list_from_bases(&vec![String::from("24-03-01"), String::from("24-03-02")]);
    let rows = b.render_renaming_operations(&new_list);
    assert_eq!(rows.len(), 2);
    assert_eq!(rows[0], format!("{:w$} {}", "a.txt", "24-03-01.txt", w = 6));
    assert_eq!(rows[1], format!("{:w$} {}", "报告.pdf", "24-03-02.pdf", w = 4));
}

#[test]
fn rename_pairs_hold_both_display_names() {
    let b = batch(&["report.txt"], "%y-%m-%d");
    let new_list = b.renamed_list_from_bases(&vec![String::from("24-03-01")]);
    let pairs = b.rename_pairs(&new_list);
    assert_eq!(pairs.len(), 1);
    assert_eq!(pairs[0].0, "report.txt");
    assert_eq!(pairs[0].1, "24-03-01.txt");
}

#[test]
fn empty_and_y_accept() {
    assert_eq!(classify_answer(""), Answer::Accept);
    assert_eq!(classify_answer("y"), Answer::Accept);
    assert_eq!(classify_answer("Y"), Answer::Accept);
}

#[test]
fn n_declines() {
    assert_eq!(classify_answer("n"), Answer::Decline);
    assert_eq!(classify_answer("N"), Answer::Decline);
}

#[test]
fn other_answers_ask_again() {
    assert_eq!(classify_answer("x"), Answer::Retry);
    assert_eq!(classify_answer("yes"), Answer::Retry);
    assert_eq!(classify_answer("no"), Answer::Retry);
    assert_eq!(classify_answer("yn"), Answer::Retry);
}

#[test]
fn padding_matches_formatter() {
    assert_eq!(pad_right("ab", 5), format!("{:5}", "ab"));
    assert_eq!(pad_right("abcdef", 3), "abcdef");
    assert_eq!(center_in_width("old", 5), format!("{:^5}", "old"));
    assert_eq!(center_in_width("new", 12), format!("{:^12}", "new"));
    assert_eq!(center_in_width("old", 2), "old");
}

#[test]
fn wide_offset_of_counts_cjk_blocks() {
    assert_eq!(wide_offset_of("abc"), 0);
    assert_eq!(wide_offset_of("一二三"), 3);
    assert_eq!(wide_offset_of("a一b二c"), 2);
}
