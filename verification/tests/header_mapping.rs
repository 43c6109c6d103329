use av_designer::csv_parser::CsvParser;
use av_designer::import::detect_headers;
use av_designer::mapper::{suggest_field_for_header, EquipmentField};

#[test]
fn test_suggest_field_manufacturer() {
    let (field, confidence) = suggest_field_for_header("Manufacturer");
    assert_eq!(field, Some(EquipmentField::Manufacturer));
    assert!(confidence > 90);
}

#[test]
fn test_suggest_field_mfg() {
    let (field, confidence) = suggest_field_for_header("MFG");
    assert_eq!(field, Some(EquipmentField::Manufacturer));
    assert!(confidence > 90);
}

#[test]
fn test_suggest_field_sku() {
    let (field, confidence) = suggest_field_for_header("Part Number");
    assert_eq!(field, Some(EquipmentField::Sku));
    assert!(confidence > 90);
}

#[test]
fn test_suggest_field_cost_partial() {
    let (field, confidence) = suggest_field_for_header("Dealer Cost USD");
    assert_eq!(field, Some(EquipmentField::Cost));
    assert!(confidence >= 60);
}

#[test]
fn test_suggest_field_unknown() {
    let (field, confidence) = suggest_field_for_header("Random Column");
    assert_eq!(field, None);
    assert_eq!(confidence, 0);
}

#[test]
fn test_exact_alias_wins_at_95() {
    let (field, confidence) = suggest_field_for_header("MFG");
    assert_eq!(field, Some(EquipmentField::Manufacturer));
    assert_eq!(confidence, 95);
    for header in ["sku", "SKU", "  Sku  ", "part #", "Item Number"] {
        let (field, confidence) = suggest_field_for_header(header);
        assert_eq!(field, Some(EquipmentField::Sku), "header {header:?}");
        assert_eq!(confidence, 95, "header {header:?}");
    }
}

#[test]
fn test_partial_match_confidences() {
    let (field, confidence) = suggest_field_for_header("Our Brand Name");
    assert_eq!(field, Some(EquipmentField::Manufacturer));
    assert_eq!(confidence, 70);

    let (field, confidence) = suggest_field_for_header("List Price USD");
    assert_eq!(field, Some(EquipmentField::Msrp));
    assert_eq!(confidence, 60);

    let (field, confidence) = suggest_field_for_header("Price Each");
    assert_eq!(field, Some(EquipmentField::Cost));
    assert_eq!(confidence, 60);

    let (field, confidence) = suggest_field_for_header("Long Description Text");
    assert_eq!(field, Some(EquipmentField::Description), "desc containment");
    assert_eq!(confidence, 70);
}

#[test]
fn test_width_alias_beats_wattage_for_w() {
    let (field, confidence) = suggest_field_for_header("W");
    assert_eq!(field, Some(EquipmentField::Width));
    assert_eq!(confidence, 95);
}

#[test]
fn test_detect_headers_one_suggestion_per_column() {
    let content = "Manufacturer,Model,SKU,Cost,Notes\nPoly,X50,A1,100,ok\n";
    let parsed = CsvParser::parse("test.csv", &content.as_bytes().to_vec()).unwrap();
    let suggestions = detect_headers(&parsed).unwrap();
    assert_eq!(suggestions.len(), 5);
    for (i, s) in suggestions.iter().enumerate() {
        assert_eq!(s.column_index, i);
    }
    assert_eq!(suggestions[0].header, "Manufacturer");
    assert_eq!(suggestions[0].suggested_field, Some(EquipmentField::Manufacturer));
    assert_eq!(suggestions[0].confidence, 95);
    assert_eq!(suggestions[3].suggested_field, Some(EquipmentField::Cost));
    assert_eq!(suggestions[4].suggested_field, None);
    assert_eq!(suggestions[4].confidence, 0);
}
