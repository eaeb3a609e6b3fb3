//! Tests of the row decoder: separators, quoting, escapes, embedded line
//! breaks, malformed rows, and blank-line handling.

use heatmap_backend::rows::parse_rows;

fn ok(fields: &[&str]) -> Option<Vec<String>> {
    Some(fields.iter().map(|f| f.to_string()).collect())
}

#[test]
fn splits_fields_and_rows() {
    let rows = parse_rows("a,b\nc,d\n");
    assert_eq!(rows, vec![ok(&["a", "b"]), ok(&["c", "d"])]);
}

#[test]
fn last_row_without_newline_is_kept() {
    let rows = parse_rows("a,b\nc,d");
    assert_eq!(rows, vec![ok(&["a", "b"]), ok(&["c", "d"])]);
}

#[test]
fn empty_input_has_no_rows() {
    assert_eq!(parse_rows(""), vec![]);
}

#[test]
fn empty_fields_are_kept() {
    let rows = parse_rows(",x,\n,,\n");
    assert_eq!(rows, vec![ok(&["", "x", ""]), ok(&["", "", ""])]);
}

#[test]
fn blank_lines_are_skipped() {
    let rows = parse_rows("a\n\n\nb\n");
    assert_eq!(rows, vec![ok(&["a"]), ok(&["b"])]);
}

#[test]
fn crlf_terminates_rows() {
    let rows = parse_rows("a,b\r\nc,d\r\n");
    assert_eq!(rows, vec![ok(&["a", "b"]), ok(&["c", "d"])]);
}

#[test]
fn lone_cr_terminates_rows() {
    let rows = parse_rows("a\rb\r");
    assert_eq!(rows, vec![ok(&["a"]), ok(&["b"])]);
}

#[test]
fn quoted_field_may_hold_separators() {
    let rows = parse_rows("\"a,b\",c\n");
    assert_eq!(rows, vec![ok(&["a,b", "c"])]);
}

#[test]
fn quoted_field_may_hold_line_breaks() {
    let rows = parse_rows("\"a\nb\",c\n");
    assert_eq!(rows, vec![ok(&["a\nb", "c"])]);
}

#[test]
fn doubled_quote_escapes_a_quote() {
    let rows = parse_rows("\"say \"\"hi\"\"\",x\n");
    assert_eq!(rows, vec![ok(&["say \"hi\"", "x"])]);
}

#[test]
fn empty_quoted_field() {
    let rows = parse_rows("\"\",x\n");
    assert_eq!(rows, vec![ok(&["", "x"])]);
}

#[test]
fn quote_inside_unquoted_field_spoils_the_row() {
    let rows = parse_rows("a\"b,c\nx,y\n");
    assert_eq!(rows, vec![None, ok(&["x", "y"])]);
}

#[test]
fn text_after_closing_quote_spoils_the_row() {
    let rows = parse_rows("\"a\"b,c\nx,y\n");
    assert_eq!(rows, vec![None, ok(&["x", "y"])]);
}

#[test]
fn unclosed_quote_spoils_the_final_row() {
    let rows = parse_rows("x,y\n\"abc");
    assert_eq!(rows, vec![ok(&["x", "y"]), None]);
}

#[test]
fn malformed_row_does_not_spoil_neighbours() {
    let rows = parse_rows("a,b\nc\"d,e\nf,g\n");
    assert_eq!(rows, vec![ok(&["a", "b"]), None, ok(&["f", "g"])]);
}
