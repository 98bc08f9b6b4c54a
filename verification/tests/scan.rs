use dataset::scan::{report_line, report_lines, scan_entries, Entry};

fn entry(path: &str, text: &str) -> Entry {
    Entry { path: path.to_string(), text: text.to_string() }
}

#[test]
fn scan_entries_reports_the_records_that_hold_the_text() {
    let entries = vec![
        entry("d/1", "name: a\ntags: x,y\n"),
        entry("d/2", "name: b\ntags: y\n"),
        entry("d/3", "name: c\ntags: x,y,z\n"),
    ];
    assert_eq!(scan_entries(&entries, "x,y"), vec!["d/1", "d/3"]);
    assert_eq!(scan_entries(&entries, "tags: y"), vec!["d/2"]);
    assert_eq!(scan_entries(&entries, "name"), vec!["d/1", "d/2", "d/3"]);
}

#[test]
fn scan_entries_reports_none_of_the_others() {
    let entries = vec![entry("d/1", "alpha"), entry("d/2", "beta")];
    assert_eq!(scan_entries(&entries, "gamma"), Vec::<String>::new());
    assert_eq!(scan_entries(&entries, "Alpha"), Vec::<String>::new());
}

#[test]
fn scan_entries_with_the_empty_text_reports_every_record() {
    let entries = vec![entry("d/1", "alpha"), entry("d/2", ""), entry("d/3", "beta")];
    assert_eq!(scan_entries(&entries, ""), vec!["d/1", "d/2", "d/3"]);
}

#[test]
fn scan_entries_of_no_records() {
    assert_eq!(scan_entries(&vec![], "x"), Vec::<String>::new());
    assert_eq!(scan_entries(&vec![], ""), Vec::<String>::new());
}

#[test]
fn scan_entries_keeps_the_order_of_the_records() {
    let entries = vec![entry("d/z", "k"), entry("d/a", "k"), entry("d/m", "k")];
    assert_eq!(scan_entries(&entries, "k"), vec!["d/z", "d/a", "d/m"]);
}

#[test]
fn scan_entries_searches_the_text_not_the_path() {
    let entries = vec![entry("d/needle", "hay"), entry("d/hay", "needle")];
    assert_eq!(scan_entries(&entries, "needle"), vec!["d/hay"]);
}

#[test]
fn scan_entries_reports_a_path_once_for_each_record() {
    let entries = vec![entry("d/1", "aaa"), entry("d/1", "aaa")];
    assert_eq!(scan_entries(&entries, "a"), vec!["d/1", "d/1"]);
}

#[test]
fn report_line_starts_with_match() {
    assert_eq!(report_line("/tmp/r/description/abc"), "match: /tmp/r/description/abc");
    assert_eq!(report_line(""), "match: ");
}

#[test]
fn report_lines_has_one_line_for_each_path() {
    let paths = vec!["d/1".to_string(), "d/3".to_string()];
    assert_eq!(report_lines(&paths), vec!["match: d/1", "match: d/3"]);
    assert_eq!(report_lines(&vec![]), Vec::<String>::new());
}
