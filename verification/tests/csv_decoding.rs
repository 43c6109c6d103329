use av_designer::csv_parser::CsvParser;
use av_designer::model::{FileType, ImportError, MAX_ROWS};

fn parse(content: &str) -> Result<av_designer::model::ParsedFile, ImportError> {
    CsvParser::parse("test.csv", &content.as_bytes().to_vec())
}

#[test]
fn test_parse_simple_csv() {
    let content = "Manufacturer,Model,SKU,Cost\nPoly,Studio X50,2200-86260-001,2500.00\n";
    let result = parse(content);
    assert!(result.is_ok());

    let parsed = result.unwrap();
    assert_eq!(parsed.headers.len(), 4);
    assert_eq!(parsed.headers[0], "Manufacturer");
    assert_eq!(parsed.rows.len(), 1);
    assert_eq!(parsed.rows[0].cells[0], "Poly");
    assert_eq!(parsed.rows[0].cells[3], "2500.00");
}

#[test]
fn test_parse_csv_with_empty_rows() {
    let content = "Manufacturer,Model,SKU,Cost\nPoly,Studio X50,ABC123,100\n,,,\nCrestron,DMPS,XYZ789,200\n";
    let result = parse(content);
    assert!(result.is_ok());

    let parsed = result.unwrap();
    assert_eq!(parsed.rows.len(), 2);
}

#[test]
fn test_parse_empty_csv() {
    let result = parse("");
    assert!(matches!(
        result,
        Err(ImportError::EmptyFile) | Err(ImportError::ParseError(_))
    ));
}

#[test]
fn test_parse_headers_only_csv() {
    let result = parse("Manufacturer,Model,SKU,Cost\n");
    assert!(matches!(result, Err(ImportError::EmptyFile)));
}

#[test]
fn test_parse_csv_with_varying_columns() {
    let content = "A,B,C\n1,2,3\n4,5\n6,7,8,9\n";
    let result = parse(content);
    assert!(result.is_ok());

    let parsed = result.unwrap();
    assert_eq!(parsed.rows.len(), 3);
    assert_eq!(parsed.rows[1].cells.len(), 2);
}

#[test]
fn test_parse_reports_file_name_and_type() {
    let content = "A,B\n1,2\n";
    let parsed = CsvParser::parse("catalog.csv", &content.as_bytes().to_vec()).unwrap();
    assert_eq!(parsed.file_name, "catalog.csv");
    assert!(matches!(parsed.file_type, FileType::Csv));
    assert!(!parsed.truncated);
    assert_eq!(parsed.total_rows, 2);
}

#[test]
fn test_parse_trims_headers_and_cells() {
    let content = "  Manufacturer , Model \n  Poly  ,  X50 \n";
    let parsed = parse(content).unwrap();
    assert_eq!(parsed.headers[0], "Manufacturer");
    assert_eq!(parsed.headers[1], "Model");
    assert_eq!(parsed.rows[0].cells[0], "Poly");
    assert_eq!(parsed.rows[0].cells[1], "X50");
}

#[test]
fn test_row_numbers_skip_blank_rows() {
    let content = "A,B\n1,2\n,\n3,4\n";
    let parsed = parse(content).unwrap();
    assert_eq!(parsed.rows.len(), 2);
    assert_eq!(parsed.rows[0].row_number, 2);
    assert_eq!(parsed.rows[1].row_number, 4);
    assert_eq!(parsed.total_rows, 4);
}

#[test]
fn test_row_numbers_strictly_increasing() {
    let content = "A,B\nr1,x\n,\nr3,x\nr4,x\n , \nr6,x\n";
    let parsed = parse(content).unwrap();
    let numbers: Vec<usize> = parsed.rows.iter().map(|r| r.row_number).collect();
    assert_eq!(numbers, vec![2, 4, 5, 7]);
    for w in numbers.windows(2) {
        assert!(w[0] < w[1]);
    }
}

#[test]
fn test_truncation_flag_set_beyond_cap() {
    let mut content = String::from("Name,Cost\n");
    for i in 0..(MAX_ROWS + 2) {
        content.push_str(&format!("item{},1\n", i));
    }
    let parsed = parse(&content).unwrap();
    assert_eq!(parsed.rows.len(), MAX_ROWS);
    assert_eq!(parsed.total_rows, MAX_ROWS + 3);
    assert!(parsed.truncated);
}

#[test]
fn test_truncation_flag_clear_at_cap() {
    let mut content = String::from("Name,Cost\n");
    for i in 0..MAX_ROWS {
        content.push_str(&format!("item{},1\n", i));
    }
    let parsed = parse(&content).unwrap();
    assert_eq!(parsed.rows.len(), MAX_ROWS);
    assert_eq!(parsed.total_rows, MAX_ROWS + 1);
    assert!(!parsed.truncated);
}

#[test]
fn test_malformed_record_is_skipped() {
    // the second record holds an invalid UTF-8 byte and is dropped, not fatal
    let mut data: Vec<u8> = Vec::new();
    data.extend_from_slice(b"A,B\nok,1\nbad,\xff\nalso-ok,2\n");
    let parsed = CsvParser::parse("test.csv", &data).unwrap();
    assert_eq!(parsed.rows.len(), 2);
    assert_eq!(parsed.rows[0].cells[0], "ok");
    assert_eq!(parsed.rows[1].cells[0], "also-ok");
    assert_eq!(parsed.rows[1].row_number, 4);
    assert_eq!(parsed.total_rows, 4);
}

#[test]
fn test_all_blank_data_rows_is_empty_file() {
    let content = "A,B\n,\n , \n";
    let result = parse(content);
    assert!(matches!(result, Err(ImportError::EmptyFile)));
}
