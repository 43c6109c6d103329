use av_designer::export::{
    estimate_pdf_size, generate_pdf, DrawingElement, DrawingInput, DrawingLayer, DrawingType,
    ElementType, LayerType, PageLayout, PageOrientation, PageSize, PdfExportConfig,
    PdfExportResult, TitleBlock,
};

fn create_test_element(id: &str, element_type: ElementType) -> DrawingElement {
    DrawingElement {
        id: id.to_string(),
        element_type,
        x: 100,
        y: 100,
        rotation: 0,
    }
}

fn create_test_layer(id: &str, layer_type: LayerType, visible: bool) -> DrawingLayer {
    DrawingLayer {
        id: id.to_string(),
        name: format!("Layer {}", id),
        layer_type,
        is_locked: false,
        is_visible: visible,
        elements: vec![create_test_element("elem-1", ElementType::Equipment)],
    }
}

fn create_test_drawing() -> DrawingInput {
    DrawingInput {
        id: "drawing-1".to_string(),
        room_id: "room-1".to_string(),
        drawing_type: DrawingType::Electrical,
        layers: vec![create_test_layer("layer-1", LayerType::AvElements, true)],
    }
}

fn create_test_config() -> PdfExportConfig {
    let title_block = TitleBlock::new("Test Project", "Test Drawing");
    PdfExportConfig::new(title_block)
}

fn empty_title_block() -> TitleBlock {
    TitleBlock {
        project_name: String::new(),
        drawing_title: String::new(),
        drawing_number: String::new(),
        revision: String::new(),
        date: String::new(),
        drawn_by: String::new(),
        checked_by: None,
        approved_by: None,
        scale: String::new(),
        sheet_number: 1,
        total_sheets: 1,
    }
}

#[test]
fn test_page_size_letter_dimensions() {
    let (w, h) = PageSize::Letter.dimensions();
    assert_eq!(w, 612);
    assert_eq!(h, 792);
}

#[test]
fn test_page_size_legal_dimensions() {
    let (w, h) = PageSize::Legal.dimensions();
    assert_eq!(w, 612);
    assert_eq!(h, 1008);
}

#[test]
fn test_page_size_tabloid_dimensions() {
    let (w, h) = PageSize::Tabloid.dimensions();
    assert_eq!(w, 792);
    assert_eq!(h, 1224);
}

#[test]
fn test_page_size_a4_dimensions() {
    let (w, h) = PageSize::A4.dimensions();
    assert_eq!(w, 595);
    assert_eq!(h, 842);
}

#[test]
fn test_page_size_a3_dimensions() {
    let (w, h) = PageSize::A3.dimensions();
    assert_eq!(w, 842);
    assert_eq!(h, 1191);
}

#[test]
fn test_page_size_archd_dimensions() {
    let (w, h) = PageSize::ArchD.dimensions();
    assert_eq!(w, 1728);
    assert_eq!(h, 2592);
}

#[test]
fn test_page_layout_default() {
    let layout = PageLayout::default();
    assert_eq!(layout.size, PageSize::Letter);
    assert_eq!(layout.orientation, PageOrientation::Landscape);
    assert_eq!(layout.margin_top, 36);
    assert_eq!(layout.margin_bottom, 36);
    assert_eq!(layout.margin_left, 36);
    assert_eq!(layout.margin_right, 36);
}

#[test]
fn test_page_layout_effective_dimensions_portrait() {
    let layout = PageLayout {
        orientation: PageOrientation::Portrait,
        ..Default::default()
    };
    let (w, h) = layout.effective_dimensions();
    assert_eq!(w, 612);
    assert_eq!(h, 792);
}

#[test]
fn test_page_layout_effective_dimensions_landscape() {
    let layout = PageLayout {
        orientation: PageOrientation::Landscape,
        ..Default::default()
    };
    let (w, h) = layout.effective_dimensions();
    assert_eq!(w, 792);
    assert_eq!(h, 612);
}

#[test]
fn test_page_layout_drawable_area() {
    let layout = PageLayout::default();
    let (w, h) = layout.drawable_area();
    assert_eq!(w, 720);
    assert_eq!(h, 540);
}

#[test]
fn test_page_layout_drawable_area_custom_margins() {
    let layout = PageLayout {
        margin_left: 72,
        margin_right: 72,
        margin_top: 72,
        margin_bottom: 72,
        ..Default::default()
    };
    let (w, h) = layout.drawable_area();
    assert_eq!(w, 648);
    assert_eq!(h, 468);
}

#[test]
fn test_title_block_new() {
    let tb = TitleBlock::new("My Project", "Electrical Diagram");
    assert_eq!(tb.project_name, "My Project");
    assert_eq!(tb.drawing_title, "Electrical Diagram");
    assert_eq!(tb.revision, "A");
    assert_eq!(tb.scale, "NTS");
    assert_eq!(tb.sheet_number, 1);
    assert_eq!(tb.total_sheets, 1);
}

#[test]
fn test_pdf_export_config_new() {
    let tb = TitleBlock::new("Project", "Drawing");
    let config = PdfExportConfig::new(tb);

    assert!(config.include_layer_info);
    assert!(config.include_timestamp);
    assert_eq!(config.page_layout.size, PageSize::Letter);
}

#[test]
fn test_generate_pdf_success() {
    let drawing = create_test_drawing();
    let config = create_test_config();

    let result = generate_pdf(&drawing, &config, "/tmp/test.pdf");
    assert!(result.is_ok());

    let pdf_result: PdfExportResult = result.unwrap();
    assert_eq!(pdf_result.file_path, "/tmp/test.pdf");
    assert!(pdf_result.file_size_bytes > 0);
    assert_eq!(pdf_result.page_count, 1);
    assert!(!pdf_result.generated_at.is_empty());
}

#[test]
fn test_generate_pdf_empty_layers_error() {
    let mut drawing = create_test_drawing();
    drawing.layers.clear();
    let config = create_test_config();

    let result = generate_pdf(&drawing, &config, "/tmp/test.pdf");
    assert!(result.is_err());
    assert_eq!(result.unwrap_err(), "Drawing has no layers to export");
}

#[test]
fn test_generate_pdf_no_visible_layers_error() {
    let mut drawing = create_test_drawing();
    drawing.layers[0].is_visible = false;
    let config = create_test_config();

    let result = generate_pdf(&drawing, &config, "/tmp/test.pdf");
    assert!(result.is_err());
    assert_eq!(result.unwrap_err(), "Drawing has no visible layers to export");
}

#[test]
fn test_generate_pdf_empty_output_path_error() {
    let drawing = create_test_drawing();
    let config = create_test_config();

    let result = generate_pdf(&drawing, &config, "");
    assert!(result.is_err());
    assert_eq!(result.unwrap_err(), "Output path cannot be empty");
}

#[test]
fn test_generate_pdf_multiple_layers() {
    let mut drawing = create_test_drawing();
    drawing.layers.push(create_test_layer("layer-2", LayerType::Annotations, true));
    drawing.layers.push(create_test_layer("layer-3", LayerType::Dimensions, true));
    let config = create_test_config();

    let result = generate_pdf(&drawing, &config, "/tmp/test.pdf");
    assert!(result.is_ok());
}

#[test]
fn test_generate_pdf_mixed_visibility_layers() {
    let mut drawing = create_test_drawing();
    drawing.layers.push(create_test_layer("layer-2", LayerType::Annotations, false));
    drawing.layers.push(create_test_layer("layer-3", LayerType::Dimensions, true));
    let config = create_test_config();

    let result = generate_pdf(&drawing, &config, "/tmp/test.pdf");
    assert!(result.is_ok());
}

#[test]
fn test_generate_pdf_has_timestamp() {
    let drawing = create_test_drawing();
    let config = create_test_config();

    let result = generate_pdf(&drawing, &config, "/tmp/test.pdf").unwrap();
    assert!(result.generated_at.contains("T"));
}

#[test]
fn test_generate_pdf_size_increases_with_elements() {
    let drawing_small = create_test_drawing();
    let config = create_test_config();
    let result_small = generate_pdf(&drawing_small, &config, "/tmp/small.pdf").unwrap();

    let mut drawing_large = create_test_drawing();
    for i in 0..10 {
        drawing_large.layers[0]
            .elements
            .push(create_test_element(&format!("elem-{}", i), ElementType::Equipment));
    }
    let result_large = generate_pdf(&drawing_large, &config, "/tmp/large.pdf").unwrap();

    assert!(result_large.file_size_bytes > result_small.file_size_bytes);
}

#[test]
fn test_generate_pdf_with_custom_page_layout() {
    let drawing = create_test_drawing();
    let mut config = create_test_config();
    config.page_layout.size = PageSize::ArchD;
    config.page_layout.orientation = PageOrientation::Landscape;

    let result = generate_pdf(&drawing, &config, "/tmp/archd.pdf");
    assert!(result.is_ok());
}

#[test]
fn test_generate_pdf_with_custom_margins() {
    let drawing = create_test_drawing();
    let mut config = create_test_config();
    config.page_layout.margin_top = 72;
    config.page_layout.margin_bottom = 72;
    config.page_layout.margin_left = 72;
    config.page_layout.margin_right = 72;

    let result = generate_pdf(&drawing, &config, "/tmp/margins.pdf");
    assert!(result.is_ok());
}

#[test]
fn test_generate_pdf_with_full_title_block() {
    let drawing = create_test_drawing();
    let mut config = create_test_config();
    config.title_block.drawing_number = "DWG-001".to_string();
    config.title_block.revision = "B".to_string();
    config.title_block.drawn_by = "John Doe".to_string();
    config.title_block.checked_by = Some("Jane Smith".to_string());
    config.title_block.approved_by = Some("Bob Wilson".to_string());
    config.title_block.scale = "1:50".to_string();
    config.title_block.sheet_number = 1;
    config.title_block.total_sheets = 3;

    let result = generate_pdf(&drawing, &config, "/tmp/full_title.pdf");
    assert!(result.is_ok());
}

#[test]
fn test_estimate_pdf_size_base_size() {
    let size = estimate_pdf_size(&empty_title_block(), 0);
    assert_eq!(size, 2560);
}

#[test]
fn test_estimate_pdf_size_with_elements() {
    let size = estimate_pdf_size(&empty_title_block(), 10);
    assert_eq!(size, 5120);
}

#[test]
fn test_estimate_pdf_size_with_metadata() {
    let mut tb = empty_title_block();
    tb.drawing_title = "Test".to_string();
    tb.project_name = "Project".to_string();
    tb.drawing_number = "001".to_string();
    tb.revision = "A".to_string();
    tb.date = "2026-01-18".to_string();

    let size = estimate_pdf_size(&tb, 0);
    assert_eq!(size, 2585);
}
