//! Delimited-text decoding: the `csv` crate splits the bytes into records,
//! and the verified core normalizes them into the row model.

use vstd::prelude::*;

use crate::model::{build_parsed_file, decode_outcome, FileType, ImportError, ParsedFile};
use crate::text::{spec_trim, trim_str};

verus! {

/// The header record the delimited-text reader reports for the given bytes,
/// or `None` when the first record cannot be read.
pub uninterp spec fn csv_header_of(data: Seq<u8>) -> Option<Seq<Seq<char>>>;

/// The data records the reader yields after the header, in order; a record
/// it cannot read is `None`.
pub uninterp spec fn csv_records_of(data: Seq<u8>) -> Seq<Option<Seq<Seq<char>>>>;

/// Relies on `csv::Reader` over in-memory bytes, in flexible mode:
/// `headers` yields the first record, `records` the remaining ones, each
/// either its string fields or a per-record error that leaves the iterator
/// running.  The record vector cannot reach `usize::MAX` entries, since
/// each entry occupies memory.
#[verifier::external_body]
fn csv_scan(data: &Vec<u8>) -> (r: Result<(Vec<String>, Vec<Option<Vec<String>>>), String>)
    ensures
        r matches Err(_) <==> csv_header_of(data@) is None,
        r matches Ok(t) ==> csv_header_of(data@) == Some(t.0.deep_view()) && t.1.deep_view()
            == csv_records_of(data@) && t.1@.len() < usize::MAX,
{
    let mut rdr = csv::ReaderBuilder::new().flexible(true).from_reader(data.as_slice());
    let headers: Vec<String> = match rdr.headers() {
        Ok(h) => h.iter().map(|f| f.to_string()).collect(),
        Err(e) => {
            return Err(e.to_string());
        },
    };
    let records: Vec<Option<Vec<String>>> = rdr.records().map(
        |rec: Result<csv::StringRecord, csv::Error>|
            rec.ok().map(|r| r.iter().map(|f| f.to_string()).collect()),
    ).collect();
    Ok((headers, records))
}

/// Delimited-text file parser.
pub struct CsvParser;

impl CsvParser {
    /// Decodes the bytes of a delimited-text file: the first record gives
    /// the headers, both headers and cells are trimmed, and the shared core
    /// applies the normalization rules.
    pub fn parse(file_name: &str, data: &Vec<u8>) -> (r: Result<ParsedFile, ImportError>)
        ensures
            csv_header_of(data@) is None ==> (r matches Err(e) && e is ParseError),
            csv_header_of(data@) matches Some(h) ==> match decode_outcome(
                file_name@,
                FileType::Csv,
                h.map_values(|c: Seq<char>| spec_trim(c)),
                csv_records_of(data@),
                true,
            ) {
                None => r matches Err(e) && e is EmptyFile,
                Some(pf) => r matches Ok(p) && p@ == pf,
            },
    {
        let (raw_headers, records) = match csv_scan(data) {
            Ok(t) => t,
            Err(m) => {
                return Err(ImportError::ParseError(m));
            },
        };
        let ghost raw = raw_headers.deep_view();
        let mut headers: Vec<String> = Vec::new();
        for i in 0..raw_headers.len()
            invariant
                raw == raw_headers.deep_view(),
                headers.deep_view() =~= raw.subrange(0, i as int).map_values(
                    |c: Seq<char>| spec_trim(c),
                ),
        {
            proof {
                assert(raw[i as int] == raw_headers@[i as int]@);
            }
            headers.push(trim_str(raw_headers[i].as_str()));
            proof {
                assert(raw.subrange(0, i + 1).map_values(|c: Seq<char>| spec_trim(c))
                    =~= raw.subrange(0, i as int).map_values(|c: Seq<char>| spec_trim(c)).push(
                    spec_trim(raw[i as int]),
                ));
            }
        }
        proof {
            assert(raw.subrange(0, raw.len() as int) =~= raw);
        }
        build_parsed_file(file_name, FileType::Csv, headers, records, true)
    }
}

} // verus!
