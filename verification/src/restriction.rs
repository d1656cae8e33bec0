use vstd::prelude::*;
use vstd::string::StrSliceExecFns;

verus! {

/// Longest base name, counted in Unicode scalar values, that the target
/// platform accepts. Names strictly longer than this are flagged.
pub const MAX_NAME_LENGTH: usize = 150;

/// Why a name was flagged, or why appending a report row failed.
#[derive(Clone, Copy, Debug, PartialEq, Eq, Structural)]
pub enum RestrictionError {
    MaximumCharacters,
    CsvWriterError,
}

impl RestrictionError {
    /// The fixed human-readable text of each variant.
    pub open spec fn message(self) -> Seq<char> {
        match self {
            RestrictionError::MaximumCharacters => "Maximum characters of 150 reached"@,
            RestrictionError::CsvWriterError => "CSV Error"@,
        }
    }

    pub fn as_str(&self) -> (r: &'static str)
        ensures
            r@ == self.message(),
    {
        match self {
            RestrictionError::MaximumCharacters => "Maximum characters of 150 reached",
            RestrictionError::CsvWriterError => "CSV Error",
        }
    }
}

/// A row of one of the two restriction reports.
pub struct RestrictionRecord {
    pub path: String,
    pub restriction: String,
}

/// The mathematical image of a [`RestrictionRecord`].
pub ghost struct RestrictionRecordV {
    pub path: Seq<char>,
    pub restriction: Seq<char>,
}

impl View for RestrictionRecord {
    type V = RestrictionRecordV;

    open spec fn view(&self) -> RestrictionRecordV {
        RestrictionRecordV { path: self.path@, restriction: self.restriction@ }
    }
}

impl DeepView for RestrictionRecord {
    type V = RestrictionRecordV;

    open spec fn deep_view(&self) -> RestrictionRecordV {
        self.view()
    }
}

/// A base name violates the restriction exactly when it is strictly
/// longer than [`MAX_NAME_LENGTH`]; a name of that length is allowed.
pub open spec fn violates_max_length(name: Seq<char>) -> bool {
    name.len() > MAX_NAME_LENGTH
}

/// Decides whether `node_name` breaks the length restriction. In the
/// violation case it returns the row to append to the restriction
/// report, carrying `path` and the fixed violation message; otherwise
/// nothing is produced.
pub fn check_restrictions(node_name: &str, path: &str) -> (r: Option<RestrictionRecord>)
    ensures
        r is Some <==> violates_max_length(node_name@),
        r matches Some(rec) ==> rec@.path == path@ && rec@.restriction
            == RestrictionError::MaximumCharacters.message(),
{
    if node_name.unicode_len() > MAX_NAME_LENGTH {
        Some(
            RestrictionRecord {
                path: path.to_owned(),
                restriction: RestrictionError::MaximumCharacters.as_str().to_owned(),
            },
        )
    } else {
        None
    }
}

} // verus!
