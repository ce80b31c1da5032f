use bgt::store::{lines_of, sort_by_version};
use bgt::tagset::{InProgressSet, TagSet};

fn strings(items: &[&str]) -> Vec<String> {
    items.iter().map(|s| s.to_string()).collect()
}

#[test]
fn lines_end_at_line_feeds() {
    assert_eq!(lines_of("a\nb\n"), strings(&["a", "b"]));
    assert_eq!(lines_of("a\nb"), strings(&["a", "b"]));
    assert_eq!(lines_of(""), Vec::<String>::new());
    assert_eq!(lines_of("\n"), strings(&[""]));
    assert_eq!(lines_of("a\n\nb"), strings(&["a", "", "b"]));
}

#[test]
fn lines_drop_a_carriage_return_before_the_line_feed() {
    assert_eq!(lines_of("a\r\nb\r\n"), strings(&["a", "b"]));
    assert_eq!(lines_of("a\r\r\n"), strings(&["a\r"]));
    assert_eq!(lines_of("a\r"), strings(&["a\r"]));
    assert_eq!(lines_of("a\rb\n"), strings(&["a\rb"]));
}

#[test]
fn sort_is_ascending_by_version() {
    let tags = strings(&["v27.1", "v0.21.0", "v27.0", "v27.0rc1", "v26.2", "v27.0rc2"]);
    assert_eq!(
        sort_by_version(&tags),
        strings(&["v0.21.0", "v26.2", "v27.0rc1", "v27.0rc2", "v27.0", "v27.1"])
    );
}

#[test]
fn sort_keeps_the_order_of_tags_of_equal_rank() {
    let tags = strings(&["v2.0", "1.0.0", "v1.0.0", "v01.0.0", "v0.9"]);
    assert_eq!(
        sort_by_version(&tags),
        strings(&["v0.9", "1.0.0", "v1.0.0", "v01.0.0", "v2.0"])
    );
    let tags = strings(&["v01.0.0", "v1.0.0", "1.0.0"]);
    assert_eq!(sort_by_version(&tags), strings(&["v01.0.0", "v1.0.0", "1.0.0"]));
}

#[test]
fn sort_of_nothing_is_nothing() {
    assert_eq!(sort_by_version(&Vec::new()), Vec::<String>::new());
}

#[test]
fn tag_set_takes_each_tag_once() {
    let mut set = TagSet::new();
    assert!(set.is_empty());
    assert!(set.insert("v27.1".to_string()));
    assert!(!set.insert("v27.1".to_string()));
    assert!(set.insert("v27.0".to_string()));
    assert_eq!(set.len(), 2);
    assert!(set.contains("v27.1"));
    assert!(!set.contains("v27.2"));
    assert_eq!(set.to_vec(), strings(&["v27.1", "v27.0"]));
}

#[test]
fn tag_set_never_holds_the_text_for_no_tag() {
    let mut set = TagSet::new();
    assert!(!set.insert(String::new()));
    assert!(set.is_empty());
    assert!(!set.contains(""));
    let loaded = TagSet::load(Some("\n\nv1.0\n\n"));
    assert_eq!(loaded.to_vec(), strings(&["v1.0"]));
    let mut set = TagSet::new();
    let new_tags = set.diff_and_merge(&strings(&["", "v1.0", ""]));
    assert_eq!(new_tags, strings(&["v1.0"]));
}

#[test]
fn load_of_absent_storage_is_the_empty_set() {
    assert!(TagSet::load(None).is_empty());
    assert!(TagSet::load(Some("")).is_empty());
}

#[test]
fn load_reads_one_tag_per_line_once() {
    let set = TagSet::load(Some("v27.0\nv27.1\nv27.0\nv26.0"));
    assert_eq!(set.to_vec(), strings(&["v27.0", "v27.1", "v26.0"]));
}

#[test]
fn diff_and_merge_reports_new_tags_in_fetch_order() {
    let mut set = TagSet::load(Some("v27.0\n"));
    let new_tags = set.diff_and_merge(&strings(&["v28.0", "v27.0", "v26.0", "v28.0", "v27.1"]));
    assert_eq!(new_tags, strings(&["v28.0", "v26.0", "v27.1"]));
    assert_eq!(set.to_vec(), strings(&["v27.0", "v28.0", "v26.0", "v27.1"]));
}

#[test]
fn diff_and_merge_never_loses_a_known_tag() {
    let mut set = TagSet::load(Some("v1.0\nv2.0\nv3.0\n"));
    let _ = set.diff_and_merge(&strings(&["v2.0"]));
    assert!(set.contains("v1.0") && set.contains("v2.0") && set.contains("v3.0"));
    let _ = set.diff_and_merge(&Vec::new());
    assert_eq!(set.len(), 3);
}

#[test]
fn two_runs_report_only_what_is_new() {
    let mut set = TagSet::load(None);
    let first = set.diff_and_merge(&strings(&["v27.1"]));
    assert_eq!(first, strings(&["v27.1"]));
    let second = set.diff_and_merge(&strings(&["v27.1", "v27.2"]));
    assert_eq!(second, strings(&["v27.2"]));
}

#[test]
fn persist_writes_sorted_lines() {
    let mut set = TagSet::new();
    let _ = set.diff_and_merge(&strings(&["v27.1", "v0.21.0", "v27.0", "v27.0rc1"]));
    assert_eq!(set.persist(), "v0.21.0\nv27.0rc1\nv27.0\nv27.1\n");
    assert_eq!(set.sorted(), strings(&["v0.21.0", "v27.0rc1", "v27.0", "v27.1"]));
    assert_eq!(TagSet::new().persist(), "");
}

#[test]
fn storing_twice_gives_the_same_text() {
    let fetched = strings(&["v27.1", "v1.0", "1.0", "v27.0rc1", "v27.0", "v27.1"]);
    let mut set = TagSet::load(Some("v26.0\r\nv0.21.0\nv26.0\n"));
    let _ = set.diff_and_merge(&fetched);
    let first = set.persist();
    let mut again = TagSet::load(Some(&first));
    let new_tags = again.diff_and_merge(&fetched);
    assert!(new_tags.is_empty());
    let second = again.persist();
    assert_eq!(first, second);
    let lines = lines_of(&first);
    for (i, line) in lines.iter().enumerate() {
        assert!(!lines[..i].contains(line));
    }
    assert_eq!(first, "v0.21.0\nv1.0\n1.0\nv26.0\nv27.0rc1\nv27.0\nv27.1\n");
}

#[test]
fn in_progress_set_adds_and_removes() {
    let mut set = InProgressSet::new();
    assert_eq!(set.len(), 0);
    assert!(set.insert("v27.1".to_string()));
    assert!(!set.insert("v27.1".to_string()));
    assert!(set.insert("v27.2".to_string()));
    assert!(set.contains("v27.1"));
    assert!(set.remove("v27.1"));
    assert!(!set.remove("v27.1"));
    assert!(!set.contains("v27.1"));
    assert_eq!(set.to_vec(), strings(&["v27.2"]));
    assert_eq!(set.len(), 1);
}
