use adr::listing::{count_adrs_except_init_md, get_all_adr_files_at_location, DirEntryInfo};
use adr::text::{next_record_path, slug_of_lowered, title_slug};

fn file(name: &str) -> DirEntryInfo {
    DirEntryInfo { name: name.to_string(), is_file: true }
}

fn dir(name: &str) -> DirEntryInfo {
    DirEntryInfo { name: name.to_string(), is_file: false }
}

#[test]
fn slug_of_title_lowercases_and_underscores() {
    assert_eq!(title_slug(&"Use Event Sourcing".to_string()), "use_event_sourcing");
}

#[test]
fn slug_keeps_other_characters() {
    assert_eq!(title_slug(&"API-v2  Design".to_string()), "api-v2__design");
    assert_eq!(title_slug(&"".to_string()), "");
    assert_eq!(title_slug(&"ÄRGER Über".to_string()), "ärger_über");
}

#[test]
fn slug_of_lowered_replaces_spaces_only() {
    assert_eq!(slug_of_lowered(&"a b c".to_string()), "a_b_c");
    assert_eq!(slug_of_lowered(&"Mixed Case".to_string()), "Mixed_Case");
    assert_eq!(slug_of_lowered(&" ".to_string()), "_");
}

#[test]
fn record_path_after_count() {
    let loc = "docs/adr".to_string();
    assert_eq!(next_record_path(&loc, 0, &"first".to_string()), "docs/adr/1_first.md");
    assert_eq!(next_record_path(&loc, 2, &"c".to_string()), "docs/adr/3_c.md");
    assert_eq!(next_record_path(&loc, 9, &"x".to_string()), "docs/adr/10_x.md");
    assert_eq!(next_record_path(&loc, 1234, &"y".to_string()), "docs/adr/1235_y.md");
}

#[test]
fn record_path_largest_count() {
    let p = next_record_path(&"d".to_string(), usize::MAX, &"s".to_string());
    assert_eq!(p, format!("d/{}_s.md", (usize::MAX as u128) + 1));
}

#[test]
fn listing_excludes_init_md_and_directories() {
    let entries = vec![file("2_b.md"), file("init.md"), dir("sub"), file("1_a.md"), file("notes.txt")];
    let mut names = get_all_adr_files_at_location(&entries);
    names.sort();
    assert_eq!(names, vec!["1_a.md", "2_b.md", "notes.txt"]);
    assert_eq!(count_adrs_except_init_md(&entries), 3);
}

#[test]
fn listing_keeps_enumeration_order() {
    let entries = vec![file("b"), file("a"), file("c")];
    assert_eq!(get_all_adr_files_at_location(&entries), vec!["b", "a", "c"]);
}

#[test]
fn listing_of_empty_directory() {
    assert!(get_all_adr_files_at_location(&Vec::new()).is_empty());
    assert_eq!(count_adrs_except_init_md(&vec![file("init.md")]), 0);
}

#[test]
fn directory_named_init_md_is_not_counted() {
    assert_eq!(count_adrs_except_init_md(&vec![dir("init.md"), dir("x")]), 0);
}
