use folder_audit::csv_format::escape_field;
use folder_audit::csv_format::render_row;
use folder_audit::paths::normalize_path;

#[test]
fn plain_field_is_unchanged() {
    assert_eq!(escape_field("plain name"), "plain name");
    assert_eq!(escape_field(""), "");
}

#[test]
fn field_with_delimiter_is_quoted() {
    assert_eq!(escape_field("a,b"), "\"a,b\"");
}

#[test]
fn field_with_quote_is_quoted_and_doubled() {
    assert_eq!(escape_field("say \"hi\""), "\"say \"\"hi\"\"\"");
}

#[test]
fn field_with_line_break_is_quoted() {
    assert_eq!(escape_field("two\nlines"), "\"two\nlines\"");
    assert_eq!(escape_field("carriage\rreturn"), "\"carriage\rreturn\"");
}

#[test]
fn row_joins_fields_and_ends_with_line_feed() {
    assert_eq!(render_row("a", "b"), "a,b\n");
    assert_eq!(render_row("a,b", "c"), "\"a,b\",c\n");
}

#[test]
fn normalization_replaces_backslashes() {
    assert_eq!(normalize_path("top\\sub\\leaf"), "top/sub/leaf");
    assert_eq!(normalize_path("already/normal"), "already/normal");
}

#[test]
fn normalization_is_idempotent() {
    let once = normalize_path("a\\b\\c");
    let twice = normalize_path(&once);
    assert_eq!(once, twice);
}

// The rows the library writes agree with the rows the csv crate's
// writer produces under its default settings.
#[test]
fn rows_agree_with_csv_crate() {
    let cases: Vec<(&str, &str)> = vec![
        ("plain", "false"),
        ("with,comma", "false"),
        ("with \"quote\"", "Maximum characters of 150 reached"),
        ("line\nbreak", "CSV Error"),
        ("", "false"),
        ("ends\r", "false"),
    ];
    for (a, b) in cases {
        let mut wtr = csv::Writer::from_writer(Vec::new());
        wtr.write_record([a, b]).unwrap();
        let bytes = wtr.into_inner().unwrap();
        let expected = String::from_utf8(bytes).unwrap();
        assert_eq!(render_row(a, b), expected);
    }
}
