//! The uniform row model: every supported source format decodes into a
//! [`ParsedFile`] of string cells, assembled by one shared, fully specified
//! core ([`build_parsed_file`]).

use vstd::prelude::*;

use crate::text::{all_spaces, is_blank, spec_trim, trim_str};

verus! {

/// Hard cap on rows materialized per file.
pub const MAX_ROWS: usize = 10000;

/// Rows shown in an import preview; reserved for callers, not enforced here.
pub const PREVIEW_ROWS: usize = 100;

/// Errors that can occur during import operations.
#[derive(Debug)]
pub enum ImportError {
    FileNotFound(String),
    ReadError(String),
    ParseError(String),
    UnsupportedFormat(String),
    EmptyFile,
    PasswordProtected,
    ValidationError(String),
}

/// The human-readable message of each [`ImportError`] variant.
pub open spec fn spec_message(e: ImportError) -> Seq<char> {
    match e {
        ImportError::FileNotFound(s) => "File not found: "@ + s@,
        ImportError::ReadError(s) => "Failed to read file: "@ + s@,
        ImportError::ParseError(s) => "Failed to parse file: "@ + s@,
        ImportError::UnsupportedFormat(s) => "Unsupported file format: "@ + s@,
        ImportError::EmptyFile => "No data found in file"@,
        ImportError::PasswordProtected => "Password protected file"@,
        ImportError::ValidationError(s) => "Validation error: "@ + s@,
    }
}

impl ImportError {
    /// Renders the error for display.
    pub fn message(&self) -> (r: String)
        ensures
            r@ == spec_message(*self),
    {
        match self {
            ImportError::FileNotFound(s) => {
                let mut m = String::from_str("File not found: ");
                m.append(s.as_str());
                m
            },
            ImportError::ReadError(s) => {
                let mut m = String::from_str("Failed to read file: ");
                m.append(s.as_str());
                m
            },
            ImportError::ParseError(s) => {
                let mut m = String::from_str("Failed to parse file: ");
                m.append(s.as_str());
                m
            },
            ImportError::UnsupportedFormat(s) => {
                let mut m = String::from_str("Unsupported file format: ");
                m.append(s.as_str());
                m
            },
            ImportError::EmptyFile => String::from_str("No data found in file"),
            ImportError::PasswordProtected => String::from_str("Password protected file"),
            ImportError::ValidationError(s) => {
                let mut m = String::from_str("Validation error: ");
                m.append(s.as_str());
                m
            },
        }
    }
}

/// Supported file types.
#[derive(Debug, Clone, Copy, PartialEq, Eq, Structural)]
pub enum FileType {
    Xlsx,
    Csv,
    Pdf,
}

/// A single parsed row of data.
#[derive(Debug, Clone)]
pub struct ParsedRow {
    /// Original row number in the source file (1-indexed; the header is row 1).
    pub row_number: usize,
    /// Cell values as strings.
    pub cells: Vec<String>,
}

/// Mathematical image of a [`ParsedRow`].
#[verifier::ext_equal]
pub ghost struct ParsedRowView {
    pub row_number: int,
    pub cells: Seq<Seq<char>>,
}

impl View for ParsedRow {
    type V = ParsedRowView;

    open spec fn view(&self) -> ParsedRowView {
        ParsedRowView { row_number: self.row_number as int, cells: self.cells.deep_view() }
    }
}

impl DeepView for ParsedRow {
    type V = ParsedRowView;

    open spec fn deep_view(&self) -> ParsedRowView {
        self.view()
    }
}

/// A parsed file ready for column mapping.
#[derive(Debug, Clone)]
pub struct ParsedFile {
    /// Original filename.
    pub file_name: String,
    /// Detected file type.
    pub file_type: FileType,
    /// Header row.
    pub headers: Vec<String>,
    /// Data rows (raw cell values as strings).
    pub rows: Vec<ParsedRow>,
    /// Total row count in the source, header included; independent of truncation.
    pub total_rows: usize,
    /// Whether rows were dropped because the source exceeds [`MAX_ROWS`].
    pub truncated: bool,
}

/// Mathematical image of a [`ParsedFile`].
#[verifier::ext_equal]
pub ghost struct ParsedFileView {
    pub file_name: Seq<char>,
    pub file_type: FileType,
    pub headers: Seq<Seq<char>>,
    pub rows: Seq<ParsedRowView>,
    pub total_rows: int,
    pub truncated: bool,
}

impl View for ParsedFile {
    type V = ParsedFileView;

    open spec fn view(&self) -> ParsedFileView {
        ParsedFileView {
            file_name: self.file_name@,
            file_type: self.file_type,
            headers: self.headers.deep_view(),
            rows: self.rows.deep_view(),
            total_rows: self.total_rows as int,
            truncated: self.truncated,
        }
    }
}

/// Every cell of the record is blank, so the record is dropped.
pub open spec fn cells_all_blank(cells: Seq<Seq<char>>) -> bool {
    forall|i: int| 0 <= i < cells.len() ==> is_blank(#[trigger] cells[i])
}

/// A record contributes a row when it parsed and holds a non-blank cell.
pub open spec fn record_is_usable(rec: Option<Seq<Seq<char>>>) -> bool {
    match rec {
        Some(cells) => !cells_all_blank(cells),
        None => false,
    }
}

/// The cells a record contributes, trimmed for delimited-text sources.
pub open spec fn processed_cells(cells: Seq<Seq<char>>, trim: bool) -> Seq<Seq<char>> {
    if trim {
        cells.map_values(|c: Seq<char>| spec_trim(c))
    } else {
        cells
    }
}

/// How many of the source's records are inspected: all of them, up to the cap.
pub open spec fn capped(len: int) -> int {
    if len > MAX_ROWS as int {
        MAX_ROWS as int
    } else {
        len
    }
}

/// The rows contributed by the first `n` records.  Record `i` is source row
/// `i + 2`: numbering is 1-indexed and the header occupies row 1.
pub open spec fn rows_upto(
    records: Seq<Option<Seq<Seq<char>>>>,
    trim: bool,
    n: int,
) -> Seq<ParsedRowView>
    decreases n,
{
    if n <= 0 {
        Seq::empty()
    } else {
        let prev = rows_upto(records, trim, n - 1);
        if record_is_usable(records[n - 1]) {
            prev.push(
                ParsedRowView {
                    row_number: n + 1,
                    cells: processed_cells(records[n - 1]->Some_0, trim),
                },
            )
        } else {
            prev
        }
    }
}

/// All rows the decode emits.
pub open spec fn decoded_rows(records: Seq<Option<Seq<Seq<char>>>>, trim: bool) -> Seq<
    ParsedRowView,
> {
    rows_upto(records, trim, capped(records.len() as int))
}

/// The decode's outcome over the row model: `None` stands for the empty-file
/// failure, `Some` gives the file value exactly.
pub open spec fn decode_outcome(
    file_name: Seq<char>,
    file_type: FileType,
    headers: Seq<Seq<char>>,
    records: Seq<Option<Seq<Seq<char>>>>,
    trim: bool,
) -> Option<ParsedFileView> {
    if headers.len() == 0 {
        None
    } else {
        let rows = decoded_rows(records, trim);
        if rows.len() == 0 {
            None
        } else {
            Some(
                ParsedFileView {
                    file_name,
                    file_type,
                    headers,
                    rows,
                    total_rows: records.len() as int + 1,
                    truncated: records.len() as int + 1 > MAX_ROWS as int + 1,
                },
            )
        }
    }
}

/// Assembles a [`ParsedFile`] from a source's header row and records.
///
/// Both decoders share this core, which pins down the normalization rules:
/// a record whose cells are all blank is dropped without disturbing the
/// numbering, records beyond [`MAX_ROWS`] are ignored, `total_rows` counts
/// the header and every record, and a file without headers or without one
/// usable record is rejected as empty.
pub fn build_parsed_file(
    file_name: &str,
    file_type: FileType,
    headers: Vec<String>,
    records: Vec<Option<Vec<String>>>,
    trim_cells: bool,
) -> (r: Result<ParsedFile, ImportError>)
    requires
        records.len() < usize::MAX,
    ensures
        match decode_outcome(
            file_name@,
            file_type,
            headers.deep_view(),
            records.deep_view(),
            trim_cells,
        ) {
            None => r matches Err(e) && e is EmptyFile,
            Some(pf) => r matches Ok(p) && p@ == pf,
        },
{
    let ghost recs = records.deep_view();
    if headers.len() == 0 {
        return Err(ImportError::EmptyFile);
    }
    let limit = if records.len() > MAX_ROWS {
        MAX_ROWS
    } else {
        records.len()
    };
    proof {
        assert(limit as int == capped(recs.len() as int));
    }
    let mut rows: Vec<ParsedRow> = Vec::new();
    for idx in 0..limit
        invariant
            limit as int == capped(recs.len() as int),
            limit <= records.len(),
            recs == records.deep_view(),
            rows.deep_view() == rows_upto(recs, trim_cells, idx as int),
    {
        proof {
            assert(recs[idx as int] == records@[idx as int].deep_view());
        }
        match &records[idx] {
            Some(cells) => {
                let ghost cv = cells.deep_view();
                let mut out_cells: Vec<String> = Vec::new();
                let mut blank = true;
                for j in 0..cells.len()
                    invariant
                        cv == cells.deep_view(),
                        blank <==> (forall|k: int| 0 <= k < j ==> is_blank(#[trigger] cv[k])),
                        out_cells.deep_view() == processed_cells(
                            cv.subrange(0, j as int),
                            trim_cells,
                        ),
                {
                    proof {
                        assert(cv[j as int] == cells@[j as int]@);
                    }
                    let cell = &cells[j];
                    if !all_spaces(cell.as_str()) {
                        blank = false;
                    }
                    if trim_cells {
                        out_cells.push(trim_str(cell.as_str()));
                    } else {
                        out_cells.push(cell.clone());
                    }
                    proof {
                        if trim_cells {
                            assert(cv.subrange(0, j + 1).map_values(|c: Seq<char>| spec_trim(c))
                                =~= cv.subrange(0, j as int).map_values(
                                |c: Seq<char>| spec_trim(c),
                            ).push(spec_trim(cv[j as int])));
                        } else {
                            assert(cv.subrange(0, j + 1) =~= cv.subrange(0, j as int).push(
                                cv[j as int],
                            ));
                        }
                    }
                }
                proof {
                    assert(cv.subrange(0, cv.len() as int) =~= cv);
                    assert(blank == cells_all_blank(cv));
                }
                if !blank {
                    rows.push(ParsedRow { row_number: idx + 2, cells: out_cells });
                }
            },
            None => {},
        }
        proof {
            assert(rows.deep_view() =~= rows_upto(recs, trim_cells, idx + 1));
        }
    }
    if rows.len() == 0 {
        return Err(ImportError::EmptyFile);
    }
    let total_rows = records.len() + 1;
    let file = ParsedFile {
        file_name: file_name.to_owned(),
        file_type,
        headers,
        rows,
        total_rows,
        truncated: total_rows > MAX_ROWS + 1,
    };
    proof {
        let pf = decode_outcome(file_name@, file_type, file.headers.deep_view(), recs, trim_cells)
            ->Some_0;
        assert(file@ =~~= pf);
    }
    Ok(file)
}

/// How many of the first `n` records are usable.
pub open spec fn count_usable(records: Seq<Option<Seq<Seq<char>>>>, n: int) -> int
    decreases n,
{
    if n <= 0 {
        0
    } else {
        count_usable(records, n - 1) + if record_is_usable(records[n - 1]) {
            1int
        } else {
            0int
        }
    }
}

proof fn lemma_rows_shape(records: Seq<Option<Seq<Seq<char>>>>, trim: bool, n: int)
    requires
        n >= 0,
    ensures
        rows_upto(records, trim, n).len() == count_usable(records, n),
        forall|j: int|
            0 <= j < rows_upto(records, trim, n).len() ==> 2 <= #[trigger] rows_upto(
                records,
                trim,
                n,
            )[j].row_number <= n + 1,
        forall|j: int, k: int|
            0 <= j < k < rows_upto(records, trim, n).len() ==> rows_upto(records, trim, n)[j].row_number
                < rows_upto(records, trim, n)[k].row_number,
    decreases n,
{
    if n > 0 {
        lemma_rows_shape(records, trim, n - 1);
    }
}

/// The decoded rows are one per usable record among those inspected, their
/// row numbers start no lower than 2, and they increase strictly.
pub proof fn lemma_decoded_rows_shape(records: Seq<Option<Seq<Seq<char>>>>, trim: bool)
    ensures
        decoded_rows(records, trim).len() == count_usable(records, capped(records.len() as int)),
        forall|j: int|
            0 <= j < decoded_rows(records, trim).len() ==> 2 <= #[trigger] decoded_rows(
                records,
                trim,
            )[j].row_number,
        forall|j: int, k: int|
            0 <= j < k < decoded_rows(records, trim).len() ==> decoded_rows(
                records,
                trim,
            )[j].row_number < decoded_rows(records, trim)[k].row_number,
{
    lemma_rows_shape(records, trim, capped(records.len() as int));
}

/// A decode that succeeds reports the source's true record count, and is
/// marked truncated exactly when that count exceeds the cap plus the header.
pub proof fn lemma_truncated_iff(
    file_name: Seq<char>,
    file_type: FileType,
    headers: Seq<Seq<char>>,
    records: Seq<Option<Seq<Seq<char>>>>,
    trim: bool,
)
    ensures
        decode_outcome(file_name, file_type, headers, records, trim) matches Some(pf) ==> {
            &&& pf.total_rows == records.len() + 1
            &&& (pf.truncated <==> pf.total_rows > MAX_ROWS as int + 1)
        },
{
}

/// A source with a header row but no data records decodes to the empty-file
/// failure.
pub proof fn lemma_header_only_is_empty(
    file_name: Seq<char>,
    file_type: FileType,
    headers: Seq<Seq<char>>,
    trim: bool,
)
    ensures
        decode_outcome(file_name, file_type, headers, Seq::empty(), trim) is None,
{
}

} // verus!
