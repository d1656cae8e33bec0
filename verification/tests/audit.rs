use folder_audit::entry::EntryKind;
use folder_audit::entry::FsEntry;
use folder_audit::report::run_audit;
use folder_audit::restriction::check_restrictions;
use folder_audit::restriction::RestrictionError;

fn dir(path: &str, name: &str) -> FsEntry {
    FsEntry { path: path.to_string(), name: name.to_string(), kind: EntryKind::Directory }
}

fn file(path: &str, name: &str) -> FsEntry {
    FsEntry { path: path.to_string(), name: name.to_string(), kind: EntryKind::File }
}

#[test]
fn boundary_150_not_flagged() {
    let name = "x".repeat(150);
    assert!(check_restrictions(&name, "some/path").is_none());
}

#[test]
fn boundary_151_flagged() {
    let name = "x".repeat(151);
    let rec = check_restrictions(&name, "some/path").expect("151 characters must be flagged");
    assert_eq!(rec.path, "some/path");
    assert_eq!(rec.restriction, "Maximum characters of 150 reached");
}

#[test]
fn length_is_counted_in_characters() {
    // 150 two-byte characters: 300 bytes, but not a violation.
    let ok = "\u{e9}".repeat(150);
    assert!(check_restrictions(&ok, "p").is_none());
    let long = "\u{e9}".repeat(151);
    assert!(check_restrictions(&long, "p").is_some());
}

#[test]
fn error_messages_are_fixed() {
    assert_eq!(
        RestrictionError::MaximumCharacters.as_str(),
        "Maximum characters of 150 reached"
    );
    assert_eq!(RestrictionError::CsvWriterError.as_str(), "CSV Error");
}

#[test]
fn scenario_subfolder_with_long_file_name() {
    let long_name = "x".repeat(160);
    let entries = vec![
        dir("root", "root"),
        dir("root/A", "A"),
        file(&format!("root/A/{}", long_name), &long_name),
    ];
    let reports = run_audit(&entries);
    assert_eq!(
        reports.folder_structure,
        "path,should_be_data_room\nroot,false\nroot/A,false\n"
    );
    assert_eq!(reports.folder_restrictions, "path,restriction\n");
    assert_eq!(
        reports.file_restrictions,
        format!(
            "path,restriction\nroot/A/{},Maximum characters of 150 reached\n",
            long_name
        )
    );
}

#[test]
fn empty_traversal_yields_headers_only() {
    let entries: Vec<FsEntry> = Vec::new();
    let reports = run_audit(&entries);
    assert_eq!(reports.folder_structure, "path,should_be_data_room\n");
    assert_eq!(reports.folder_restrictions, "path,restriction\n");
    assert_eq!(reports.file_restrictions, "path,restriction\n");
}

#[test]
fn repeated_runs_are_identical() {
    let long_name = "y".repeat(200);
    let entries = vec![
        dir("top", "top"),
        file("top/a.txt", "a.txt"),
        dir(&format!("top/{}", long_name), &long_name),
    ];
    let first = run_audit(&entries);
    let second = run_audit(&entries);
    assert_eq!(first.folder_structure, second.folder_structure);
    assert_eq!(first.folder_restrictions, second.folder_restrictions);
    assert_eq!(first.file_restrictions, second.file_restrictions);
}

#[test]
fn one_structure_row_per_directory() {
    let entries = vec![
        dir("r", "r"),
        file("r/one", "one"),
        dir("r/d1", "d1"),
        file("r/d1/two", "two"),
        dir("r/d1/d2", "d2"),
    ];
    let reports = run_audit(&entries);
    let rows = reports.folder_structure.lines().count();
    // Header plus one row per directory entry.
    assert_eq!(rows, 1 + 3);
}

#[test]
fn one_restriction_row_per_violation() {
    let long_dir = "d".repeat(151);
    let long_file = "f".repeat(151);
    let entries = vec![
        dir("r", "r"),
        dir(&format!("r/{}", long_dir), &long_dir),
        file(&format!("r/{}", long_file), &long_file),
        file("r/short", "short"),
    ];
    let reports = run_audit(&entries);
    assert_eq!(
        reports.folder_restrictions,
        format!(
            "path,restriction\nr/{},Maximum characters of 150 reached\n",
            long_dir
        )
    );
    assert_eq!(
        reports.file_restrictions,
        format!(
            "path,restriction\nr/{},Maximum characters of 150 reached\n",
            long_file
        )
    );
}

#[test]
fn paths_are_normalized_in_every_report() {
    let long_name = "z".repeat(151);
    let entries = vec![
        dir("top\\sub", "sub"),
        file(&format!("top\\sub\\{}", long_name), &long_name),
    ];
    let reports = run_audit(&entries);
    assert_eq!(
        reports.folder_structure,
        "path,should_be_data_room\ntop/sub,false\n"
    );
    assert_eq!(
        reports.file_restrictions,
        format!(
            "path,restriction\ntop/sub/{},Maximum characters of 150 reached\n",
            long_name
        )
    );
}
