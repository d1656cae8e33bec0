use crate::csv_format::render_row;
use crate::csv_format::row_spec;
use crate::entry::EntryKind;
use crate::entry::FsEntry;
use crate::entry::FsEntryV;
use crate::paths::normalize_path;
use crate::paths::normalize_spec;
use crate::restriction::check_restrictions;
use crate::restriction::violates_max_length;
use crate::restriction::RestrictionError;
use crate::restriction::RestrictionRecord;
use crate::restriction::RestrictionRecordV;
use vstd::prelude::*;
use vstd::string::StringExecFns;

verus! {

/// A row of the folder-structure report. `should_be_data_room` is
/// reserved for later manual annotation and is always written false.
pub struct FolderRecord {
    pub path: String,
    pub should_be_data_room: bool,
}

/// The mathematical image of a [`FolderRecord`].
pub ghost struct FolderRecordV {
    pub path: Seq<char>,
    pub should_be_data_room: bool,
}

impl View for FolderRecord {
    type V = FolderRecordV;

    open spec fn view(&self) -> FolderRecordV {
        FolderRecordV { path: self.path@, should_be_data_room: self.should_be_data_room }
    }
}

impl DeepView for FolderRecord {
    type V = FolderRecordV;

    open spec fn deep_view(&self) -> FolderRecordV {
        self.view()
    }
}

/// The folder-structure rows that a traversal produces: one row per
/// directory entry, in traversal order, with the normalized path and
/// the annotation flag false.
pub open spec fn folder_records_spec(entries: Seq<FsEntryV>) -> Seq<FolderRecordV>
    decreases entries.len(),
{
    if entries.len() == 0 {
        Seq::empty()
    } else {
        let rest = folder_records_spec(entries.drop_last());
        let e = entries.last();
        if e.kind is Directory {
            rest.push(FolderRecordV { path: normalize_spec(e.path), should_be_data_room: false })
        } else {
            rest
        }
    }
}

/// The restriction rows that a traversal produces for entries of the
/// given kind: one row per entry whose base name breaks the length
/// restriction, in traversal order, with the normalized path and the
/// fixed violation message.
pub open spec fn restriction_records_spec(entries: Seq<FsEntryV>, kind: EntryKind) -> Seq<
    RestrictionRecordV,
>
    decreases entries.len(),
{
    if entries.len() == 0 {
        Seq::empty()
    } else {
        let rest = restriction_records_spec(entries.drop_last(), kind);
        let e = entries.last();
        if e.kind == kind && violates_max_length(e.name) {
            rest.push(
                RestrictionRecordV {
                    path: normalize_spec(e.path),
                    restriction: RestrictionError::MaximumCharacters.message(),
                },
            )
        } else {
            rest
        }
    }
}

/// The rows of the three reports, before serialization.
pub struct Reports {
    pub folder_structure: Vec<FolderRecord>,
    pub folder_restrictions: Vec<RestrictionRecord>,
    pub file_restrictions: Vec<RestrictionRecord>,
}

/// Classifies every entry of the traversal: each directory contributes
/// one folder-structure row, and each entry whose base name breaks the
/// length restriction contributes one row to the restriction report of
/// its kind.
pub fn build_reports(entries: &Vec<FsEntry>) -> (r: Reports)
    ensures
        r.folder_structure.deep_view() == folder_records_spec(entries.deep_view()),
        r.folder_restrictions.deep_view() == restriction_records_spec(
            entries.deep_view(),
            EntryKind::Directory,
        ),
        r.file_restrictions.deep_view() == restriction_records_spec(
            entries.deep_view(),
            EntryKind::File,
        ),
{
    let mut folder_structure: Vec<FolderRecord> = Vec::new();
    let mut folder_restrictions: Vec<RestrictionRecord> = Vec::new();
    let mut file_restrictions: Vec<RestrictionRecord> = Vec::new();
    let mut i: usize = 0;
    while i < entries.len()
        invariant
            i <= entries@.len(),
            folder_structure.deep_view() == folder_records_spec(entries.deep_view().take(i as int)),
            folder_restrictions.deep_view() == restriction_records_spec(
                entries.deep_view().take(i as int),
                EntryKind::Directory,
            ),
            file_restrictions.deep_view() == restriction_records_spec(
                entries.deep_view().take(i as int),
                EntryKind::File,
            ),
        decreases entries@.len() - i,
    {
        let entry = &entries[i];
        let normalized = normalize_path(entry.path.as_str());
        proof {
            assert(entries.deep_view().take(i + 1).drop_last() =~= entries.deep_view().take(
                i as int,
            ));
            assert(entries.deep_view().take(i + 1).last() == entries@[i as int]@);
        }
        match entry.kind {
            EntryKind::Directory => {
                folder_structure.push(
                    FolderRecord { path: normalized.clone(), should_be_data_room: false },
                );
                if let Some(rec) = check_restrictions(entry.name.as_str(), normalized.as_str()) {
                    folder_restrictions.push(rec);
                }
            },
            EntryKind::File => {
                if let Some(rec) = check_restrictions(entry.name.as_str(), normalized.as_str()) {
                    file_restrictions.push(rec);
                }
            },
        }
        proof {
            assert(folder_structure.deep_view() =~= folder_records_spec(
                entries.deep_view().take(i + 1),
            ));
            assert(folder_restrictions.deep_view() =~= restriction_records_spec(
                entries.deep_view().take(i + 1),
                EntryKind::Directory,
            ));
            assert(file_restrictions.deep_view() =~= restriction_records_spec(
                entries.deep_view().take(i + 1),
                EntryKind::File,
            ));
        }
        i += 1;
    }
    proof {
        assert(entries.deep_view().take(entries@.len() as int) =~= entries.deep_view());
    }
    Reports { folder_structure, folder_restrictions, file_restrictions }
}

/// The header row of the folder-structure report, derived from the
/// record's field names.
pub open spec fn folder_structure_header() -> Seq<char> {
    "path,should_be_data_room\n"@
}

/// The header row of both restriction reports, derived from the
/// record's field names.
pub open spec fn restriction_header() -> Seq<char> {
    "path,restriction\n"@
}

/// The serialized form of a boolean field.
pub open spec fn bool_field(b: bool) -> Seq<char> {
    if b {
        "true"@
    } else {
        "false"@
    }
}

/// The full text of the folder-structure report: the header row, then
/// one serialized row per record, in order.
pub open spec fn folder_report_spec(rows: Seq<FolderRecordV>) -> Seq<char>
    decreases rows.len(),
{
    if rows.len() == 0 {
        folder_structure_header()
    } else {
        folder_report_spec(rows.drop_last()) + row_spec(
            rows.last().path,
            bool_field(rows.last().should_be_data_room),
        )
    }
}

/// The full text of a restriction report: the header row, then one
/// serialized row per record, in order.
pub open spec fn restriction_report_spec(rows: Seq<RestrictionRecordV>) -> Seq<char>
    decreases rows.len(),
{
    if rows.len() == 0 {
        restriction_header()
    } else {
        restriction_report_spec(rows.drop_last()) + row_spec(
            rows.last().path,
            rows.last().restriction,
        )
    }
}

/// Serializes the folder-structure report.
pub fn render_folder_report(rows: &Vec<FolderRecord>) -> (r: String)
    ensures
        r@ == folder_report_spec(rows.deep_view()),
{
    let mut out = String::from_str("path,should_be_data_room\n");
    let mut i: usize = 0;
    while i < rows.len()
        invariant
            i <= rows@.len(),
            out@ == folder_report_spec(rows.deep_view().take(i as int)),
        decreases rows@.len() - i,
    {
        let row = &rows[i];
        let field = if row.should_be_data_room {
            "true"
        } else {
            "false"
        };
        let line = render_row(row.path.as_str(), field);
        out.append(line.as_str());
        proof {
            assert(rows.deep_view().take(i + 1).drop_last() =~= rows.deep_view().take(i as int));
            assert(rows.deep_view().take(i + 1).last() == rows@[i as int]@);
        }
        i += 1;
    }
    proof {
        assert(rows.deep_view().take(rows@.len() as int) =~= rows.deep_view());
    }
    out
}

/// Serializes a restriction report.
pub fn render_restriction_report(rows: &Vec<RestrictionRecord>) -> (r: String)
    ensures
        r@ == restriction_report_spec(rows.deep_view()),
{
    let mut out = String::from_str("path,restriction\n");
    let mut i: usize = 0;
    while i < rows.len()
        invariant
            i <= rows@.len(),
            out@ == restriction_report_spec(rows.deep_view().take(i as int)),
        decreases rows@.len() - i,
    {
        let row = &rows[i];
        let line = render_row(row.path.as_str(), row.restriction.as_str());
        out.append(line.as_str());
        proof {
            assert(rows.deep_view().take(i + 1).drop_last() =~= rows.deep_view().take(i as int));
            assert(rows.deep_view().take(i + 1).last() == rows@[i as int]@);
        }
        i += 1;
    }
    proof {
        assert(rows.deep_view().take(rows@.len() as int) =~= rows.deep_view());
    }
    out
}

/// The contents of the three report files that one run produces.
pub struct ReportFiles {
    pub folder_structure: String,
    pub folder_restrictions: String,
    pub file_restrictions: String,
}

/// The folder-structure file that a traversal produces.
pub open spec fn folder_structure_output(entries: Seq<FsEntryV>) -> Seq<char> {
    folder_report_spec(folder_records_spec(entries))
}

/// The folder-name-restriction file that a traversal produces.
pub open spec fn folder_restrictions_output(entries: Seq<FsEntryV>) -> Seq<char> {
    restriction_report_spec(restriction_records_spec(entries, EntryKind::Directory))
}

/// The file-name-restriction file that a traversal produces.
pub open spec fn file_restrictions_output(entries: Seq<FsEntryV>) -> Seq<char> {
    restriction_report_spec(restriction_records_spec(entries, EntryKind::File))
}

/// Runs the whole audit on the entries of one traversal: classifies
/// every entry and serializes the three reports. The result is a pure
/// function of the entry sequence, so two runs over the same entries
/// yield byte-identical files.
pub fn run_audit(entries: &Vec<FsEntry>) -> (r: ReportFiles)
    ensures
        r.folder_structure@ == folder_structure_output(entries.deep_view()),
        r.folder_restrictions@ == folder_restrictions_output(entries.deep_view()),
        r.file_restrictions@ == file_restrictions_output(entries.deep_view()),
{
    let reports = build_reports(entries);
    ReportFiles {
        folder_structure: render_folder_report(&reports.folder_structure),
        folder_restrictions: render_restriction_report(&reports.folder_restrictions),
        file_restrictions: render_restriction_report(&reports.file_restrictions),
    }
}

/// The folder-structure report has exactly one row per directory
/// entry of the traversal: its row count equals the number of
/// directories the walker yielded.
pub proof fn lemma_one_folder_row_per_directory(entries: Seq<FsEntryV>)
    ensures
        folder_records_spec(entries).len() == entries.filter(
            |e: FsEntryV| e.kind is Directory,
        ).len(),
    decreases entries.len(),
{
    reveal(Seq::filter);
    if entries.len() > 0 {
        lemma_one_folder_row_per_directory(entries.drop_last());
    }
}

/// A restriction report holds exactly one row per entry of its kind
/// whose base name breaks the length restriction, no row for any
/// other entry, and every row carries the fixed violation message.
pub proof fn lemma_one_restriction_row_per_violation(entries: Seq<FsEntryV>, kind: EntryKind)
    ensures
        restriction_records_spec(entries, kind).len() == entries.filter(
            |e: FsEntryV| e.kind == kind && violates_max_length(e.name),
        ).len(),
        forall|i: int|
            0 <= i < restriction_records_spec(entries, kind).len()
                ==> restriction_records_spec(entries, kind)[i].restriction
                == RestrictionError::MaximumCharacters.message(),
    decreases entries.len(),
{
    reveal(Seq::filter);
    if entries.len() > 0 {
        lemma_one_restriction_row_per_violation(entries.drop_last(), kind);
    }
}

/// Two runs over the same entry sequence produce byte-identical
/// files: the three reports depend on the entries alone, with no
/// hidden state between runs.
pub proof fn lemma_runs_agree(a: Seq<FsEntryV>, b: Seq<FsEntryV>)
    requires
        a == b,
    ensures
        folder_structure_output(a) == folder_structure_output(b),
        folder_restrictions_output(a) == folder_restrictions_output(b),
        file_restrictions_output(a) == file_restrictions_output(b),
{
}

/// A traversal that yields no entries, as for a missing or unreadable
/// root, produces reports that hold nothing but their header rows.
pub proof fn lemma_empty_traversal()
    ensures
        folder_structure_output(Seq::empty()) == folder_structure_header(),
        folder_restrictions_output(Seq::empty()) == restriction_header(),
        file_restrictions_output(Seq::empty()) == restriction_header(),
{
}

} // verus!

