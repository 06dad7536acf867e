use pound::rows::EditorRows;

#[test]
fn empty_store_has_no_rows() {
    assert_eq!(EditorRows::new().number_of_rows(), 0);
    assert_eq!(EditorRows::from_text("").number_of_rows(), 0);
}

#[test]
fn lines_round_trip() {
    let lines = ["first", "", "  third  ", "last"];
    let mut text = String::new();
    for l in lines.iter() {
        text.push_str(l);
        text.push('\n');
    }
    let rows = EditorRows::from_text(&text);
    assert_eq!(rows.number_of_rows(), lines.len());
    for (i, l) in lines.iter().enumerate() {
        assert_eq!(rows.get_row(i), *l);
    }
}

#[test]
fn crlf_terminators_are_stripped() {
    let rows = EditorRows::from_text("a\r\nb\r\n\r\nc");
    assert_eq!(rows.number_of_rows(), 4);
    assert_eq!(rows.get_row(0), "a");
    assert_eq!(rows.get_row(1), "b");
    assert_eq!(rows.get_row(2), "");
    assert_eq!(rows.get_row(3), "c");
}

#[test]
fn final_line_without_terminator_is_kept() {
    let rows = EditorRows::from_text("one\ntwo");
    assert_eq!(rows.number_of_rows(), 2);
    assert_eq!(rows.get_row(1), "two");
    let cr = EditorRows::from_text("x\r");
    assert_eq!(cr.number_of_rows(), 1);
    assert_eq!(cr.get_row(0), "x\r");
}

#[test]
fn lone_carriage_returns_stay_inside_lines() {
    let rows = EditorRows::from_text("a\rb\r\r\n\n");
    assert_eq!(rows.number_of_rows(), 2);
    assert_eq!(rows.get_row(0), "a\rb\r");
    assert_eq!(rows.get_row(1), "");
}

#[test]
fn non_ascii_lines() {
    let rows = EditorRows::from_text("héllo\nwörld\n");
    assert_eq!(rows.number_of_rows(), 2);
    assert_eq!(rows.get_row(1), "wörld");
}

#[test]
fn rows_rejoined_give_back_text() {
    for text in ["", "a\n\nb\n", "one\ntwo", "\n\n"].iter() {
        let rows = EditorRows::from_text(text);
        let mut joined = String::new();
        for i in 0..rows.number_of_rows() {
            joined.push_str(rows.get_row(i));
            joined.push('\n');
        }
        let expected = if text.is_empty() || text.ends_with('\n') {
            text.to_string()
        } else {
            format!("{}\n", text)
        };
        assert_eq!(joined, expected);
    }
}
