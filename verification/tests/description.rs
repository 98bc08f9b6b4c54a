use dataset::description::{format_tags, render_template};

#[test]
fn format_tags_of_no_tags() {
    assert_eq!(format_tags(&vec![]), "");
}

#[test]
fn format_tags_of_one_tag() {
    assert_eq!(format_tags(&vec!["x"]), "x");
}

#[test]
fn format_tags_joins_with_commas() {
    assert_eq!(format_tags(&vec!["x", "y"]), "x,y");
    assert_eq!(format_tags(&vec!["raw", "2019", "lab notes"]), "raw,2019,lab notes");
}

#[test]
fn format_tags_keeps_order_and_repeats() {
    assert_eq!(format_tags(&vec!["b", "a", "b"]), "b,a,b");
}

#[test]
fn format_tags_keeps_empty_tags() {
    assert_eq!(format_tags(&vec!["", "b"]), ",b");
    assert_eq!(format_tags(&vec!["a", ""]), "a,");
    assert_eq!(format_tags(&vec!["", ""]), ",");
}

#[test]
fn format_tags_does_not_escape_commas() {
    assert_eq!(format_tags(&vec!["a,b", "c"]), "a,b,c");
}

#[test]
fn render_template_has_one_labelled_line_for_each_field() {
    let text = render_template("/tmp/a.txt", "/tmp/a.txt", "x,y", "5d41402abc4b2a76b9719d911017c592");
    assert_eq!(
        text,
        "name: /tmp/a.txt\norig-path: /tmp/a.txt\ntags: x,y\nmd5: 5d41402abc4b2a76b9719d911017c592\n"
    );
}

#[test]
fn render_template_names_the_path_twice() {
    let text = render_template("data.csv", "data.csv", "", "00ff");
    assert_eq!(text.matches("data.csv").count(), 2);
    assert_eq!(text, "name: data.csv\norig-path: data.csv\ntags: \nmd5: 00ff\n");
}

#[test]
fn render_template_keeps_name_and_path_apart() {
    let text = render_template("survey", "/in/survey.csv", "a", "ab");
    assert_eq!(text, "name: survey\norig-path: /in/survey.csv\ntags: a\nmd5: ab\n");
}
