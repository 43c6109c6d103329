use av_designer::excel::ExcelParser;
use av_designer::model::{FileType, ImportError};

fn rows(data: &[&[&str]]) -> Vec<Vec<String>> {
    data.iter()
        .map(|r| r.iter().map(|c| c.to_string()).collect())
        .collect()
}

fn headers(names: &[&str]) -> Vec<String> {
    names.iter().map(|n| n.to_string()).collect()
}

#[test]
fn test_workbook_rows_kept_verbatim() {
    let parsed = ExcelParser::from_cells(
        "book.xlsx",
        headers(&[" Manufacturer ", "Cost"]),
        rows(&[&[" Poly ", "2500"]]),
    )
    .unwrap();
    // workbook cells and headers are not trimmed
    assert_eq!(parsed.headers[0], " Manufacturer ");
    assert_eq!(parsed.rows[0].cells[0], " Poly ");
    assert!(matches!(parsed.file_type, FileType::Xlsx));
    assert_eq!(parsed.file_name, "book.xlsx");
}

#[test]
fn test_workbook_blank_rows_dropped_with_numbering() {
    let parsed = ExcelParser::from_cells(
        "book.xlsx",
        headers(&["A", "B"]),
        rows(&[&["1", "2"], &["", "  "], &["3", "4"]]),
    )
    .unwrap();
    assert_eq!(parsed.rows.len(), 2);
    assert_eq!(parsed.rows[0].row_number, 2);
    assert_eq!(parsed.rows[1].row_number, 4);
    assert_eq!(parsed.total_rows, 4);
    assert!(!parsed.truncated);
}

#[test]
fn test_workbook_without_headers_is_empty() {
    let result = ExcelParser::from_cells("book.xlsx", Vec::new(), rows(&[&["1", "2"]]));
    assert!(matches!(result, Err(ImportError::EmptyFile)));
}

#[test]
fn test_workbook_without_usable_rows_is_empty() {
    let result = ExcelParser::from_cells(
        "book.xlsx",
        headers(&["A", "B"]),
        rows(&[&["", ""], &["  ", ""]]),
    );
    assert!(matches!(result, Err(ImportError::EmptyFile)));
}
