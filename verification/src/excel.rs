//! Workbook decoding: the caller opens the workbook and renders each typed
//! cell to its display string; the verified core then normalizes the rows
//! under the same rules as delimited text, with cells kept verbatim.

use vstd::prelude::*;

use crate::model::{build_parsed_file, decode_outcome, FileType, ImportError, ParsedFile};

verus! {

/// Workbook file parser.
pub struct ExcelParser;

/// Workbook rows enter the core as parsed records: none of them is
/// malformed, since the workbook reader yields a rectangular range.
pub open spec fn as_records(rows: Seq<Seq<Seq<char>>>) -> Seq<Option<Seq<Seq<char>>>> {
    rows.map_values(|r: Seq<Seq<char>>| Some(r))
}

impl ExcelParser {
    /// Assembles a workbook's stringified cells: the first sheet row gives
    /// the headers, the rest are data rows, cells stay verbatim.
    pub fn from_cells(file_name: &str, headers: Vec<String>, data_rows: Vec<Vec<String>>) -> (r:
        Result<ParsedFile, ImportError>)
        requires
            data_rows.len() < usize::MAX,
        ensures
            match decode_outcome(
                file_name@,
                FileType::Xlsx,
                headers.deep_view(),
                as_records(data_rows.deep_view()),
                false,
            ) {
                None => r matches Err(e) && e is EmptyFile,
                Some(pf) => r matches Ok(p) && p@ == pf,
            },
    {
        let ghost rows_v = data_rows.deep_view();
        let mut records: Vec<Option<Vec<String>>> = Vec::new();
        for i in 0..data_rows.len()
            invariant
                rows_v == data_rows.deep_view(),
                records.deep_view() =~~= as_records(rows_v).subrange(0, i as int),
        {
            proof {
                assert(rows_v[i as int] == data_rows@[i as int].deep_view());
            }
            let src = &data_rows[i];
            let ghost src_v = src.deep_view();
            let mut row: Vec<String> = Vec::new();
            for j in 0..src.len()
                invariant
                    src_v == src.deep_view(),
                    row.deep_view() =~= src_v.subrange(0, j as int),
            {
                proof {
                    assert(src_v[j as int] == src@[j as int]@);
                }
                row.push(src[j].clone());
                proof {
                    assert(src_v.subrange(0, j + 1) =~= src_v.subrange(0, j as int).push(
                        src_v[j as int],
                    ));
                }
            }
            proof {
                assert(row.deep_view() =~= src_v.subrange(0, src_v.len() as int));
                assert(row.deep_view() =~= src_v);
            }
            let ghost prev = records.deep_view();
            records.push(Some(row));
            proof {
                assert(records.deep_view() =~~= prev.push(Some(src_v)));
                assert(records.deep_view() =~~= as_records(rows_v).subrange(0, i + 1));
            }
        }
        proof {
            assert(as_records(rows_v).subrange(0, as_records(rows_v).len() as int) =~~= as_records(
                rows_v,
            ));
        }
        build_parsed_file(file_name, FileType::Xlsx, headers, records, false)
    }
}

} // verus!
