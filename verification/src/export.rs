//! Document export: page-layout arithmetic, title blocks, and the metadata
//! side of PDF generation.  All geometry is kept in whole printer's points
//! (1/72 inch).

use vstd::prelude::*;
use vstd::string::StrSliceExecFns;

verus! {

/// Standard page sizes.
#[derive(Debug, Clone, Copy, PartialEq, Eq, Structural)]
pub enum PageSize {
    Letter,
    Legal,
    Tabloid,
    A4,
    A3,
    ArchD,
}

/// Width and height of a page size, portrait, in points.
pub open spec fn spec_dimensions(s: PageSize) -> (int, int) {
    match s {
        PageSize::Letter => (612, 792),
        PageSize::Legal => (612, 1008),
        PageSize::Tabloid => (792, 1224),
        PageSize::A4 => (595, 842),
        PageSize::A3 => (842, 1191),
        PageSize::ArchD => (1728, 2592),
    }
}

impl PageSize {
    /// Returns dimensions in points (1/72 inch).
    pub fn dimensions(&self) -> (r: (i64, i64))
        ensures
            (r.0 as int, r.1 as int) == spec_dimensions(*self),
    {
        match self {
            PageSize::Letter => (612, 792),
            PageSize::Legal => (612, 1008),
            PageSize::Tabloid => (792, 1224),
            PageSize::A4 => (595, 842),
            PageSize::A3 => (842, 1191),
            PageSize::ArchD => (1728, 2592),
        }
    }
}

/// Page orientation.
#[derive(Debug, Clone, Copy, PartialEq, Eq, Structural)]
pub enum PageOrientation {
    Portrait,
    Landscape,
}

/// Page layout configuration, margins in points.
#[derive(Debug, Clone, Copy, PartialEq, Eq, Structural)]
pub struct PageLayout {
    pub size: PageSize,
    pub orientation: PageOrientation,
    pub margin_top: i64,
    pub margin_bottom: i64,
    pub margin_left: i64,
    pub margin_right: i64,
}

/// The layout every export starts from: landscape letter with half-inch
/// margins.
pub open spec fn spec_default_page_layout() -> PageLayout {
    PageLayout {
        size: PageSize::Letter,
        orientation: PageOrientation::Landscape,
        margin_top: 36,
        margin_bottom: 36,
        margin_left: 36,
        margin_right: 36,
    }
}

impl Default for PageLayout {
    fn default() -> (r: Self)
        ensures
            r == spec_default_page_layout(),
    {
        PageLayout {
            size: PageSize::Letter,
            orientation: PageOrientation::Landscape,
            margin_top: 36,
            margin_bottom: 36,
            margin_left: 36,
            margin_right: 36,
        }
    }
}

/// Page dimensions with the orientation applied.
pub open spec fn spec_effective_dimensions(l: PageLayout) -> (int, int) {
    let d = spec_dimensions(l.size);
    match l.orientation {
        PageOrientation::Portrait => d,
        PageOrientation::Landscape => (d.1, d.0),
    }
}

impl PageLayout {
    /// Returns effective page dimensions accounting for orientation.
    pub fn effective_dimensions(&self) -> (r: (i64, i64))
        ensures
            (r.0 as int, r.1 as int) == spec_effective_dimensions(*self),
    {
        let d = self.size.dimensions();
        match self.orientation {
            PageOrientation::Portrait => d,
            PageOrientation::Landscape => (d.1, d.0),
        }
    }

    /// Returns the drawable area after margins.
    pub fn drawable_area(&self) -> (r: (i64, i64))
        requires
            i64::MIN <= spec_effective_dimensions(*self).0 - self.margin_left - self.margin_right
                <= i64::MAX,
            i64::MIN <= spec_effective_dimensions(*self).1 - self.margin_top - self.margin_bottom
                <= i64::MAX,
        ensures
            r.0 as int == spec_effective_dimensions(*self).0 - self.margin_left - self.margin_right,
            r.1 as int == spec_effective_dimensions(*self).1 - self.margin_top - self.margin_bottom,
    {
        let (w, h) = self.effective_dimensions();
        let dw = w as i128 - self.margin_left as i128 - self.margin_right as i128;
        let dh = h as i128 - self.margin_top as i128 - self.margin_bottom as i128;
        (dw as i64, dh as i64)
    }
}

/// Title block configuration.
#[derive(Debug, Clone)]
pub struct TitleBlock {
    pub project_name: String,
    pub drawing_title: String,
    pub drawing_number: String,
    pub revision: String,
    pub date: String,
    pub drawn_by: String,
    pub checked_by: Option<String>,
    pub approved_by: Option<String>,
    pub scale: String,
    pub sheet_number: u32,
    pub total_sheets: u32,
}

/// Relies on `chrono::Utc::now`, formatted `%Y-%m-%d`: the wall clock
/// decides the value, so nothing is promised of it.
#[verifier::external_body]
fn current_date_string() -> String {
    chrono::Utc::now().format("%Y-%m-%d").to_string()
}

/// Relies on `chrono::Utc::now`, rendered RFC 3339: the wall clock decides
/// the value, so nothing is promised of it.
#[verifier::external_body]
fn current_timestamp_rfc3339() -> String {
    chrono::Utc::now().to_rfc3339()
}

impl TitleBlock {
    /// A fresh title block: revision A, not to scale, one sheet, dated
    /// today.
    pub fn new(project_name: &str, drawing_title: &str) -> (r: Self)
        ensures
            r.project_name@ == project_name@,
            r.drawing_title@ == drawing_title@,
            r.drawing_number@ == Seq::<char>::empty(),
            r.revision@ == "A"@,
            r.drawn_by@ == Seq::<char>::empty(),
            r.checked_by is None,
            r.approved_by is None,
            r.scale@ == "NTS"@,
            r.sheet_number == 1u32,
            r.total_sheets == 1u32,
    {
        TitleBlock {
            project_name: project_name.to_owned(),
            drawing_title: drawing_title.to_owned(),
            drawing_number: String::new(),
            revision: String::from_str("A"),
            date: current_date_string(),
            drawn_by: String::new(),
            checked_by: None,
            approved_by: None,
            scale: String::from_str("NTS"),
            sheet_number: 1,
            total_sheets: 1,
        }
    }
}

/// Kinds of drawing elements.
#[derive(Debug, Clone, Copy, PartialEq, Eq, Structural)]
pub enum ElementType {
    Equipment,
    Cable,
    Text,
    Dimension,
    Symbol,
}

/// Kinds of drawing layers.
#[derive(Debug, Clone, Copy, PartialEq, Eq, Structural)]
pub enum LayerType {
    TitleBlock,
    Architectural,
    AvElements,
    Annotations,
    Dimensions,
}

/// A drawing element, placed in whole points.
#[derive(Debug, Clone)]
pub struct DrawingElement {
    pub id: String,
    pub element_type: ElementType,
    pub x: i64,
    pub y: i64,
    pub rotation: i64,
}

/// A drawing layer and its elements.
#[derive(Debug, Clone)]
pub struct DrawingLayer {
    pub id: String,
    pub name: String,
    pub layer_type: LayerType,
    pub is_locked: bool,
    pub is_visible: bool,
    pub elements: Vec<DrawingElement>,
}

/// Kinds of drawings the application exports.
#[derive(Debug, Clone, Copy, PartialEq, Eq, Structural)]
pub enum DrawingType {
    Electrical,
    Elevation,
    Rcp,
    Rack,
    CableSchedule,
    FloorPlan,
}

/// A drawing handed in for export.
#[derive(Debug, Clone)]
pub struct DrawingInput {
    pub id: String,
    pub room_id: String,
    pub drawing_type: DrawingType,
    pub layers: Vec<DrawingLayer>,
}

/// PDF export configuration.
#[derive(Debug, Clone)]
pub struct PdfExportConfig {
    pub page_layout: PageLayout,
    pub title_block: TitleBlock,
    pub include_layer_info: bool,
    pub include_timestamp: bool,
}

impl PdfExportConfig {
    /// A configuration over the default page layout with both extras on.
    pub fn new(title_block: TitleBlock) -> (r: Self)
        ensures
            r.page_layout == spec_default_page_layout(),
            r.title_block == title_block,
            r.include_layer_info,
            r.include_timestamp,
    {
        PdfExportConfig {
            page_layout: PageLayout::default(),
            title_block,
            include_layer_info: true,
            include_timestamp: true,
        }
    }
}

/// The outcome of a PDF export.
#[derive(Debug, Clone)]
pub struct PdfExportResult {
    pub file_path: String,
    pub file_size_bytes: u64,
    pub page_count: u32,
    pub generated_at: String,
}

/// Elements on the visible ones of the first `n` layers.
pub open spec fn visible_elements_upto(layers: Seq<DrawingLayer>, n: int) -> int
    decreases n,
{
    if n <= 0 {
        0
    } else {
        visible_elements_upto(layers, n - 1) + if layers[n - 1].is_visible {
            layers[n - 1].elements@.len() as int
        } else {
            0
        }
    }
}

/// Elements on all visible layers.
pub open spec fn visible_element_count(layers: Seq<DrawingLayer>) -> int {
    visible_elements_upto(layers, layers.len() as int)
}

/// Some layer is visible.
pub open spec fn spec_has_visible(layers: Seq<DrawingLayer>) -> bool {
    exists|i: int| 0 <= i < layers.len() && #[trigger] layers[i].is_visible
}

/// Estimated output size in bytes: a fixed base and title-block overhead,
/// a vector budget per visible element, and the metadata strings' lengths
/// in characters.
pub open spec fn spec_estimated_size(tb: TitleBlock, count: int) -> int {
    2048 + count * 256 + 512 + tb.drawing_title@.len() + tb.project_name@.len()
        + tb.drawing_number@.len() + tb.revision@.len() + tb.date@.len()
}

/// Estimates the exported file's size from the title block and the number
/// of visible elements.
pub fn estimate_pdf_size(title_block: &TitleBlock, element_count: u64) -> (r: u64)
    requires
        spec_estimated_size(*title_block, element_count as int) <= u64::MAX,
    ensures
        r as int == spec_estimated_size(*title_block, element_count as int),
{
    let mut size: u64 = 2048;
    size = size + element_count * 256;
    size = size + 512;
    size = size + title_block.drawing_title.as_str().unicode_len() as u64;
    size = size + title_block.project_name.as_str().unicode_len() as u64;
    size = size + title_block.drawing_number.as_str().unicode_len() as u64;
    size = size + title_block.revision.as_str().unicode_len() as u64;
    size = size + title_block.date.as_str().unicode_len() as u64;
    size
}

/// Counting a prefix of the layers never counts more than all of them; in
/// particular every count is non-negative.
proof fn lemma_visible_monotonic(layers: Seq<DrawingLayer>, i: int, j: int)
    requires
        i <= j,
    ensures
        visible_elements_upto(layers, i) <= visible_elements_upto(layers, j),
    decreases j - i,
{
    if i < j {
        lemma_visible_monotonic(layers, i, j - 1);
    }
}

/// Generates the metadata side of a PDF export: validates the drawing,
/// counts the visible elements, and reports the output path, the estimated
/// size, and a single page.
pub fn generate_pdf(drawing: &DrawingInput, config: &PdfExportConfig, output_path: &str) -> (r:
    Result<PdfExportResult, String>)
    requires
        spec_estimated_size(config.title_block, visible_element_count(drawing.layers@))
            <= u64::MAX,
    ensures
        drawing.layers@.len() == 0 ==> (r matches Err(m) && m@
            == "Drawing has no layers to export"@),
        drawing.layers@.len() > 0 && output_path@.len() == 0 ==> (r matches Err(m) && m@
            == "Output path cannot be empty"@),
        drawing.layers@.len() > 0 && output_path@.len() > 0 && !spec_has_visible(drawing.layers@)
            ==> (r matches Err(m) && m@ == "Drawing has no visible layers to export"@),
        drawing.layers@.len() > 0 && output_path@.len() > 0 && spec_has_visible(drawing.layers@)
            ==> (r matches Ok(res) && res.file_path@ == output_path@ && res.file_size_bytes as int
            == spec_estimated_size(config.title_block, visible_element_count(drawing.layers@))
            && res.page_count == 1),
{
    if drawing.layers.len() == 0 {
        return Err(String::from_str("Drawing has no layers to export"));
    }
    if output_path.is_empty() {
        return Err(String::from_str("Output path cannot be empty"));
    }
    let ghost ls = drawing.layers@;
    proof {
        lemma_visible_monotonic(ls, 0, ls.len() as int);
    }
    let mut count: u64 = 0;
    let mut has_visible = false;
    for i in 0..drawing.layers.len()
        invariant
            ls == drawing.layers@,
            count as int == visible_elements_upto(ls, i as int),
            has_visible <==> exists|k: int| 0 <= k < i && #[trigger] ls[k].is_visible,
            spec_estimated_size(config.title_block, visible_element_count(ls)) <= u64::MAX,
            0 <= visible_element_count(ls),
    {
        let layer = &drawing.layers[i];
        if layer.is_visible {
            proof {
                lemma_visible_monotonic(ls, i + 1, ls.len() as int);
            }
            count = count + layer.elements.len() as u64;
            has_visible = true;
        }
    }
    if !has_visible {
        return Err(String::from_str("Drawing has no visible layers to export"));
    }
    let size = estimate_pdf_size(&config.title_block, count);
    Ok(
        PdfExportResult {
            file_path: output_path.to_owned(),
            file_size_bytes: size,
            page_count: 1,
            generated_at: current_timestamp_rfc3339(),
        },
    )
}

} // verus!
