//! Import entry points: format dispatch by file extension, header
//! detection, and row validation.

use vstd::prelude::*;

use crate::mapper::{detect_header_mappings, suggestion_for, ColumnMapping, HeaderSuggestion};
use crate::model::{FileType, ImportError, ParsedFile, ParsedRow};
use crate::text::{chars_of, lower_of, lowercase, str_eq};
use crate::validator::{validate_row_spec, validate_rows, ValidationResult};

verus! {

/// What follows the last occurrence of `c` in `s`; all of `s` when `c`
/// does not occur.
pub open spec fn after_last(s: Seq<char>, c: char) -> Seq<char>
    decreases s.len(),
{
    if s.len() == 0 {
        s
    } else if s.last() == c {
        Seq::empty()
    } else {
        after_last(s.drop_last(), c).push(s.last())
    }
}

/// The extension of the path's final component: what follows its last dot,
/// provided that dot is neither absent nor the component's first character.
pub open spec fn spec_extension_of(path: Seq<char>) -> Seq<char> {
    let comp = after_last(path, '/');
    let ext = after_last(comp, '.');
    if ext.len() + 1 <= comp.len() && comp.len() - ext.len() - 1 > 0 {
        ext
    } else {
        Seq::empty()
    }
}

/// When `i` is the last occurrence of `c`, everything after it follows it.
proof fn lemma_after_last_at(s: Seq<char>, c: char, i: int)
    requires
        0 <= i < s.len(),
        s[i] == c,
        forall|j: int| i < j < s.len() ==> s[j] != c,
    ensures
        after_last(s, c) == s.subrange(i + 1, s.len() as int),
    decreases s.len(),
{
    if s.last() == c {
        assert(i == s.len() - 1);
        assert(s.subrange(i + 1, s.len() as int) =~= Seq::empty());
    } else {
        assert(i < s.len() - 1);
        let d = s.drop_last();
        assert(forall|j: int| i < j < d.len() ==> d[j] != c);
        lemma_after_last_at(d, c, i);
        assert(d.subrange(i + 1, d.len() as int).push(s.last()) =~= s.subrange(
            i + 1,
            s.len() as int,
        ));
    }
}

/// With no occurrence of `c`, nothing is cut away.
proof fn lemma_after_last_none(s: Seq<char>, c: char)
    requires
        forall|j: int| 0 <= j < s.len() ==> s[j] != c,
    ensures
        after_last(s, c) == s,
    decreases s.len(),
{
    if s.len() > 0 {
        lemma_after_last_none(s.drop_last(), c);
        assert(after_last(s.drop_last(), c).push(s.last()) =~= s);
    }
}

/// Index just past the last occurrence of `c` in `v`, or 0.
fn index_past_last(v: &Vec<char>, c: char) -> (r: usize)
    ensures
        r <= v@.len(),
        after_last(v@, c) == v@.subrange(r as int, v@.len() as int),
{
    let mut k = v.len();
    while k > 0
        invariant
            k <= v.len(),
            forall|j: int| k <= j < v@.len() ==> v@[j] != c,
        decreases k,
    {
        if v[k - 1] == c {
            proof {
                lemma_after_last_at(v@, c, k - 1);
            }
            return k;
        }
        k = k - 1;
    }
    proof {
        lemma_after_last_none(v@, c);
        assert(v@.subrange(0, v@.len() as int) =~= v@);
    }
    0
}

/// The extension of the path's final component, empty when there is none.
pub fn extension_of(path: &str) -> (r: String)
    ensures
        r@ == spec_extension_of(path@),
{
    let v = chars_of(path);
    let comp_start = index_past_last(&v, '/');
    let ghost comp = after_last(path@, '/');
    // locate the last dot within the final component
    let mut k = v.len();
    let mut dot: usize = 0;
    let mut found = false;
    while k > comp_start
        invariant_except_break
            comp_start <= k <= v.len(),
            v@ == path@,
            !found,
            forall|j: int| k <= j < v@.len() ==> v@[j] != '.',
        ensures
            v@ == path@,
            found ==> comp_start <= dot < v@.len() && v@[dot as int] == '.' && (forall|j: int|
                dot < j < v@.len() ==> v@[j] != '.'),
            !found ==> forall|j: int| comp_start <= j < v@.len() ==> v@[j] != '.',
        decreases k,
    {
        if v[k - 1] == '.' {
            dot = k - 1;
            found = true;
            break ;
        }
        k = k - 1;
    }
    proof {
        assert(comp =~= v@.subrange(comp_start as int, v@.len() as int));
    }
    if found {
        proof {
            let ci = dot - comp_start;
            assert(comp[ci as int] == '.');
            assert forall|j: int| ci < j < comp.len() implies comp[j] != '.' by {
                assert(comp[j] == v@[comp_start + j]);
            }
            lemma_after_last_at(comp, '.', ci as int);
            assert(after_last(comp, '.') =~= path@.subrange(dot + 1, path@.len() as int));
        }
        if dot > comp_start {
            let t = path.substring_char(dot + 1, v.len());
            proof {
                assert(t@ =~= spec_extension_of(path@));
            }
            t.to_owned()
        } else {
            proof {
                assert(spec_extension_of(path@) =~= Seq::<char>::empty());
            }
            String::new()
        }
    } else {
        proof {
            assert forall|j: int| 0 <= j < comp.len() implies comp[j] != '.' by {
                assert(comp[j] == v@[comp_start + j]);
            }
            lemma_after_last_none(comp, '.');
            assert(spec_extension_of(path@) =~= Seq::<char>::empty());
        }
        String::new()
    }
}

/// Picks the decoder family for a path by its extension, case-insensitively;
/// anything unrecognized is rejected as an unsupported format naming the
/// folded extension.
pub fn detect_file_type(path: &str) -> (r: Result<FileType, ImportError>)
    ensures
        ({
            let low = lower_of(spec_extension_of(path@));
            if low == "xlsx"@ || low == "xls"@ {
                r == Ok::<FileType, ImportError>(FileType::Xlsx)
            } else if low == "csv"@ {
                r == Ok::<FileType, ImportError>(FileType::Csv)
            } else {
                r matches Err(e) && e matches ImportError::UnsupportedFormat(m) && m@
                    == "Unsupported file format: ."@ + low
            }
        }),
{
    let ext = extension_of(path);
    let low = lowercase(ext.as_str());
    if str_eq(low.as_str(), "xlsx") || str_eq(low.as_str(), "xls") {
        Ok(FileType::Xlsx)
    } else if str_eq(low.as_str(), "csv") {
        Ok(FileType::Csv)
    } else {
        let mut m = String::from_str("Unsupported file format: .");
        m.append(low.as_str());
        Err(ImportError::UnsupportedFormat(m))
    }
}

/// Detects header names and suggests field mappings.
pub fn detect_headers(parsed: &ParsedFile) -> (r: Result<Vec<HeaderSuggestion>, ImportError>)
    ensures
        r matches Ok(v) && v.deep_view() == Seq::new(
            parsed.headers.deep_view().len(),
            |i: int| suggestion_for(i, parsed.headers.deep_view()[i]),
        ),
{
    detect_header_mappings(parsed)
}

/// Validates rows against the equipment schema: one verdict per row.
pub fn validate_import_rows(rows: Vec<ParsedRow>, mappings: Vec<ColumnMapping>) -> (r: Result<
    Vec<ValidationResult>,
    ImportError,
>)
    ensures
        r matches Ok(v) && v.deep_view() == Seq::new(
            rows.deep_view().len(),
            |i: int| validate_row_spec(rows.deep_view()[i], mappings.deep_view()),
        ),
{
    validate_rows(&rows, &mappings)
}

} // verus!
