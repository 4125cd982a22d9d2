use ty_writer::layout::{join_lines, write_expanded, write_inline};
use ty_writer::opt::WriteOpt;

fn strings(items: &[&str]) -> Vec<String> {
    items.iter().map(|s| s.to_string()).collect()
}

fn some(text: &str) -> Option<String> {
    Some(text.to_string())
}

#[test]
fn inline_layout_is_kept_where_it_fits() {
    let text = "int || text";
    assert_eq!(write_inline(text.to_string(), WriteOpt::unbounded()), some(text));
    assert_eq!(write_inline(text.to_string(), WriteOpt::new_width(11)), some(text));
    assert_eq!(write_inline(String::new(), WriteOpt::new_width(0)), some(""));
}

#[test]
fn inline_layout_fails_where_the_line_is_too_short() {
    let text = "int || text";
    assert_eq!(write_inline(text.to_string(), WriteOpt::new_width(10)), None);
    let used = WriteOpt { max_width: Some(80), rem_width: 10 };
    assert_eq!(write_inline(text.to_string(), used), None);
}

#[test]
fn inline_layout_takes_no_line_break() {
    assert_eq!(write_inline("a\nb, c".to_string(), WriteOpt::unbounded()), None);
    assert_eq!(write_inline("\n".to_string(), WriteOpt::new_width(80)), None);
}

#[test]
fn expanded_layout_is_kept_where_every_line_fits() {
    let text = "int ||\ntext";
    assert_eq!(write_expanded(text.to_string(), WriteOpt::new_width(6)), some(text));
    assert_eq!(write_expanded(text.to_string(), WriteOpt::new_width(5)), None);
    assert_eq!(write_expanded(text.to_string(), WriteOpt::unbounded()), some(text));
    let tuple = "{a = int,\n*..}";
    assert_eq!(write_expanded(tuple.to_string(), WriteOpt::new_width(9)), some(tuple));
    assert_eq!(write_expanded(tuple.to_string(), WriteOpt::new_width(8)), None);
}

#[test]
fn expanded_layout_goes_by_the_width_of_a_line() {
    let used = WriteOpt { max_width: Some(6), rem_width: 0 };
    assert_eq!(write_expanded("int ||\ntext".to_string(), used), some("int ||\ntext"));
    assert_eq!(write_expanded(String::new(), WriteOpt::new_width(0)), some(""));
    assert_eq!(write_expanded("a".to_string(), WriteOpt::new_width(0)), None);
}

#[test]
fn lines_end_with_the_line_end_but_the_last() {
    assert_eq!(join_lines(&strings(&["int", "text", "bool"]), " ||"), "int ||\ntext ||\nbool");
    assert_eq!(join_lines(&strings(&["a = int"]), ","), "a = int");
    assert_eq!(join_lines(&strings(&[]), ","), "");
    assert_eq!(join_lines(&strings(&["a\nb", "c"]), ","), "a\nb,\nc");
}
