use rename_mod_time::{RayFile, RenameError};

#[test]
fn split_regular_name() {
    let f = RayFile::from(String::from("report.txt")).unwrap();
    assert_eq!(f.base_name(), "report");
    assert_eq!(f.extension(), "txt");
    assert_eq!(f.display_name(), "report.txt");
    assert_eq!(f.full_len(), 10);
    assert_eq!(f.ext_len(), 3);
}

#[test]
fn split_on_last_dot() {
    let f = RayFile::from(String::from("archive.tar.gz")).unwrap();
    assert_eq!(f.base_name(), "archive.tar");
    assert_eq!(f.extension(), "gz");
    assert_eq!(f.display_name(), "archive.tar.gz");
}

#[test]
fn split_round_trip_rejoins_exactly() {
    for name in ["a.b", "x.tar.bz2", "trailing.", "many.dots.in.name.ext"] {
        let f = RayFile::from(String::from(name)).unwrap();
        let rejoined = format!("{}.{}", f.base_name(), f.extension());
        assert_eq!(rejoined, name);
    }
}

#[test]
fn dotfile_is_not_split() {
    let f = RayFile::from(String::from(".bashrc")).unwrap();
    assert_eq!(f.base_name(), ".bashrc");
    assert_eq!(f.extension(), "");
    assert_eq!(f.display_name(), ".bashrc");
    assert_eq!(f.full_len(), 7);
}

#[test]
fn name_without_dot_keeps_empty_extension() {
    let f = RayFile::from(String::from("noext")).unwrap();
    assert_eq!(f.base_name(), "noext");
    assert_eq!(f.extension(), "");
    assert_eq!(f.display_name(), "noext");
    assert_eq!(f.full_len(), 5);
}

#[test]
fn trailing_dot_gives_empty_extension() {
    let f = RayFile::from(String::from("foo.")).unwrap();
    assert_eq!(f.base_name(), "foo");
    assert_eq!(f.extension(), "");
    assert_eq!(f.display_name(), "foo");
}

#[test]
fn empty_name_has_empty_parts() {
    let f = RayFile::from(String::new()).unwrap();
    assert_eq!(f.base_name(), "");
    assert_eq!(f.extension(), "");
    assert_eq!(f.display_name(), "");
    assert_eq!(f.full_len(), 0);
}

#[test]
fn separator_is_rejected() {
    let r = RayFile::from(String::from("dir/file.txt"));
    assert!(matches!(r, Err(RenameError::PathSeparator)));
}

#[test]
fn ascii_name_has_zero_wide_offset() {
    let f = RayFile::from(String::from("hello_world.txt")).unwrap();
    assert_eq!(f.get_chinese_length_offset_value(), 0);
}

#[test]
fn cjk_name_offset_equals_char_count() {
    let f = RayFile::from(String::from("汉字文本")).unwrap();
    assert_eq!(f.get_chinese_length_offset_value(), 4);
}

#[test]
fn mixed_name_counts_only_wide_chars() {
    let f = RayFile::from(String::from("报告.pdf")).unwrap();
    assert_eq!(f.base_name(), "报告");
    assert_eq!(f.extension(), "pdf");
    assert_eq!(f.get_chinese_length_offset_value(), 2);
    assert_eq!(f.full_len(), 6);
}

#[test]
fn non_cjk_non_ascii_does_not_count() {
    let f = RayFile::from(String::from("café.txt")).unwrap();
    assert_eq!(f.get_chinese_length_offset_value(), 0);
    assert_eq!(f.full_len(), 8);
}

#[test]
fn renamed_keeps_extension() {
    let f = RayFile::from(String::from("report.txt")).unwrap();
    let g = f.renamed(String::from("24-03-01"));
    assert_eq!(g.base_name(), "24-03-01");
    assert_eq!(g.extension(), "txt");
    assert_eq!(g.display_name(), "24-03-01.txt");
    assert_eq!(f.base_name(), "report");
}
