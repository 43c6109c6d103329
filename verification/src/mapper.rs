//! Header-to-field suggestion: scores each source header against the fixed
//! equipment schema, first by exact alias, then by substring containment.

use vstd::prelude::*;

use crate::model::{ImportError, ParsedFile};
use crate::text::{contains_str, lower_of, lowercase, spec_contains, spec_trim, str_eq, trim_str};

verus! {

/// Equipment fields that a source column can be mapped onto.
#[derive(Debug, Clone, Copy, PartialEq, Eq, Structural)]
pub enum EquipmentField {
    Manufacturer,
    Model,
    Sku,
    Category,
    Subcategory,
    Description,
    Cost,
    Msrp,
    Height,
    Width,
    Depth,
    Weight,
    Voltage,
    Wattage,
    Certifications,
    ImageUrl,
}

/// Column mapping from source to equipment field.
#[derive(Debug, Clone)]
pub struct ColumnMapping {
    /// Index of the source column.
    pub source_column: usize,
    /// Original header name from source.
    pub source_header: String,
    /// Target equipment field (`None` if unmapped).
    pub target_field: Option<EquipmentField>,
}

/// Mathematical image of a [`ColumnMapping`].
#[verifier::ext_equal]
pub ghost struct ColumnMappingView {
    pub source_column: int,
    pub source_header: Seq<char>,
    pub target_field: Option<EquipmentField>,
}

impl View for ColumnMapping {
    type V = ColumnMappingView;

    open spec fn view(&self) -> ColumnMappingView {
        ColumnMappingView {
            source_column: self.source_column as int,
            source_header: self.source_header@,
            target_field: self.target_field,
        }
    }
}

impl DeepView for ColumnMapping {
    type V = ColumnMappingView;

    open spec fn deep_view(&self) -> ColumnMappingView {
        self.view()
    }
}

/// Suggested mapping for a header.
#[derive(Debug, Clone)]
pub struct HeaderSuggestion {
    /// Column index.
    pub column_index: usize,
    /// Original header text, verbatim.
    pub header: String,
    /// Suggested equipment field.
    pub suggested_field: Option<EquipmentField>,
    /// Confidence in hundredths of the unit scale: 95 stands for 0.95, the
    /// whole scale runs from 0 to 100.
    pub confidence: u32,
}

/// Mathematical image of a [`HeaderSuggestion`].
#[verifier::ext_equal]
pub ghost struct HeaderSuggestionView {
    pub column_index: int,
    pub header: Seq<char>,
    pub suggested_field: Option<EquipmentField>,
    pub confidence: int,
}

impl View for HeaderSuggestion {
    type V = HeaderSuggestionView;

    open spec fn view(&self) -> HeaderSuggestionView {
        HeaderSuggestionView {
            column_index: self.column_index as int,
            header: self.header@,
            suggested_field: self.suggested_field,
            confidence: self.confidence as int,
        }
    }
}

impl DeepView for HeaderSuggestion {
    type V = HeaderSuggestionView;

    open spec fn deep_view(&self) -> HeaderSuggestionView {
        self.view()
    }
}

/// Headers are compared after case folding and trimming.
pub open spec fn normalized_header(h: Seq<char>) -> Seq<char> {
    spec_trim(lower_of(h))
}

pub open spec fn is_manufacturer_alias(n: Seq<char>) -> bool {
    n == "manufacturer"@ || n == "mfg"@ || n == "brand"@ || n == "vendor"@
}

pub open spec fn is_model_alias(n: Seq<char>) -> bool {
    n == "model"@ || n == "model number"@ || n == "model #"@ || n == "model no"@
}

pub open spec fn is_sku_alias(n: Seq<char>) -> bool {
    n == "sku"@ || n == "part number"@ || n == "part #"@ || n == "part no"@ || n == "item number"@
        || n == "item #"@ || n == "pn"@
}

pub open spec fn is_category_alias(n: Seq<char>) -> bool {
    n == "category"@ || n == "cat"@
}

pub open spec fn is_subcategory_alias(n: Seq<char>) -> bool {
    n == "subcategory"@ || n == "sub-category"@ || n == "subcat"@
}

pub open spec fn is_description_alias(n: Seq<char>) -> bool {
    n == "description"@ || n == "desc"@ || n == "product description"@ || n == "item description"@
}

pub open spec fn is_cost_alias(n: Seq<char>) -> bool {
    n == "cost"@ || n == "unit cost"@ || n == "dealer cost"@ || n == "net cost"@ || n
        == "buy price"@
}

pub open spec fn is_msrp_alias(n: Seq<char>) -> bool {
    n == "msrp"@ || n == "list price"@ || n == "retail"@ || n == "list"@ || n == "srp"@
}

pub open spec fn is_height_alias(n: Seq<char>) -> bool {
    n == "height"@ || n == "h"@ || n == "height (in)"@ || n == "height (inches)"@
}

pub open spec fn is_width_alias(n: Seq<char>) -> bool {
    n == "width"@ || n == "w"@ || n == "width (in)"@ || n == "width (inches)"@
}

pub open spec fn is_depth_alias(n: Seq<char>) -> bool {
    n == "depth"@ || n == "d"@ || n == "depth (in)"@ || n == "depth (inches)"@ || n == "length"@
}

pub open spec fn is_weight_alias(n: Seq<char>) -> bool {
    n == "weight"@ || n == "wt"@ || n == "weight (lbs)"@ || n == "weight (lb)"@
}

pub open spec fn is_voltage_alias(n: Seq<char>) -> bool {
    n == "voltage"@ || n == "volt"@ || n == "v"@
}

pub open spec fn is_wattage_alias(n: Seq<char>) -> bool {
    n == "wattage"@ || n == "watts"@ || n == "power"@ || n == "w"@
}

pub open spec fn is_certifications_alias(n: Seq<char>) -> bool {
    n == "certifications"@ || n == "certs"@ || n == "platform"@ || n == "platforms"@
}

pub open spec fn is_image_alias(n: Seq<char>) -> bool {
    n == "image"@ || n == "image url"@ || n == "imageurl"@ || n == "picture"@ || n == "photo"@
}

/// Tier 1: the first field, in declaration order, whose alias table holds
/// the normalized header exactly.
pub open spec fn tier1_field(n: Seq<char>) -> Option<EquipmentField> {
    if is_manufacturer_alias(n) {
        Some(EquipmentField::Manufacturer)
    } else if is_model_alias(n) {
        Some(EquipmentField::Model)
    } else if is_sku_alias(n) {
        Some(EquipmentField::Sku)
    } else if is_category_alias(n) {
        Some(EquipmentField::Category)
    } else if is_subcategory_alias(n) {
        Some(EquipmentField::Subcategory)
    } else if is_description_alias(n) {
        Some(EquipmentField::Description)
    } else if is_cost_alias(n) {
        Some(EquipmentField::Cost)
    } else if is_msrp_alias(n) {
        Some(EquipmentField::Msrp)
    } else if is_height_alias(n) {
        Some(EquipmentField::Height)
    } else if is_width_alias(n) {
        Some(EquipmentField::Width)
    } else if is_depth_alias(n) {
        Some(EquipmentField::Depth)
    } else if is_weight_alias(n) {
        Some(EquipmentField::Weight)
    } else if is_voltage_alias(n) {
        Some(EquipmentField::Voltage)
    } else if is_wattage_alias(n) {
        Some(EquipmentField::Wattage)
    } else if is_certifications_alias(n) {
        Some(EquipmentField::Certifications)
    } else if is_image_alias(n) {
        Some(EquipmentField::ImageUrl)
    } else {
        None
    }
}

/// Tier 2: substring containment, in fixed priority order.  Cost-family
/// headers that also carry a retail marker resolve to MSRP.
pub open spec fn tier2_suggestion(n: Seq<char>) -> (Option<EquipmentField>, int) {
    if spec_contains(n, "manufacturer"@) || spec_contains(n, "mfg"@) || spec_contains(
        n,
        "brand"@,
    ) {
        (Some(EquipmentField::Manufacturer), 70)
    } else if spec_contains(n, "model"@) {
        (Some(EquipmentField::Model), 70)
    } else if spec_contains(n, "sku"@) || spec_contains(n, "part"@) || spec_contains(n, "item"@) {
        (Some(EquipmentField::Sku), 70)
    } else if spec_contains(n, "cost"@) || spec_contains(n, "price"@) {
        if spec_contains(n, "list"@) || spec_contains(n, "msrp"@) || spec_contains(n, "retail"@) {
            (Some(EquipmentField::Msrp), 60)
        } else {
            (Some(EquipmentField::Cost), 60)
        }
    } else if spec_contains(n, "desc"@) {
        (Some(EquipmentField::Description), 70)
    } else {
        (None, 0)
    }
}

/// The suggestion for a normalized header: an exact alias wins at
/// confidence 95, a containment match at 60 or 70, anything else gets no
/// field and confidence 0.
pub open spec fn spec_suggest(n: Seq<char>) -> (Option<EquipmentField>, int) {
    match tier1_field(n) {
        Some(f) => (Some(f), 95),
        None => tier2_suggestion(n),
    }
}

fn tier1(n: &str) -> (r: Option<EquipmentField>)
    ensures
        r == tier1_field(n@),
{
    if str_eq(n, "manufacturer") || str_eq(n, "mfg") || str_eq(n, "brand") || str_eq(n, "vendor") {
        Some(EquipmentField::Manufacturer)
    } else if str_eq(n, "model") || str_eq(n, "model number") || str_eq(n, "model #") || str_eq(
        n,
        "model no",
    ) {
        Some(EquipmentField::Model)
    } else if str_eq(n, "sku") || str_eq(n, "part number") || str_eq(n, "part #") || str_eq(
        n,
        "part no",
    ) || str_eq(n, "item number") || str_eq(n, "item #") || str_eq(n, "pn") {
        Some(EquipmentField::Sku)
    } else if str_eq(n, "category") || str_eq(n, "cat") {
        Some(EquipmentField::Category)
    } else if str_eq(n, "subcategory") || str_eq(n, "sub-category") || str_eq(n, "subcat") {
        Some(EquipmentField::Subcategory)
    } else if str_eq(n, "description") || str_eq(n, "desc") || str_eq(n, "product description")
        || str_eq(n, "item description") {
        Some(EquipmentField::Description)
    } else if str_eq(n, "cost") || str_eq(n, "unit cost") || str_eq(n, "dealer cost") || str_eq(
        n,
        "net cost",
    ) || str_eq(n, "buy price") {
        Some(EquipmentField::Cost)
    } else if str_eq(n, "msrp") || str_eq(n, "list price") || str_eq(n, "retail") || str_eq(
        n,
        "list",
    ) || str_eq(n, "srp") {
        Some(EquipmentField::Msrp)
    } else if str_eq(n, "height") || str_eq(n, "h") || str_eq(n, "height (in)") || str_eq(
        n,
        "height (inches)",
    ) {
        Some(EquipmentField::Height)
    } else if str_eq(n, "width") || str_eq(n, "w") || str_eq(n, "width (in)") || str_eq(
        n,
        "width (inches)",
    ) {
        Some(EquipmentField::Width)
    } else if str_eq(n, "depth") || str_eq(n, "d") || str_eq(n, "depth (in)") || str_eq(
        n,
        "depth (inches)",
    ) || str_eq(n, "length") {
        Some(EquipmentField::Depth)
    } else if str_eq(n, "weight") || str_eq(n, "wt") || str_eq(n, "weight (lbs)") || str_eq(
        n,
        "weight (lb)",
    ) {
        Some(EquipmentField::Weight)
    } else if str_eq(n, "voltage") || str_eq(n, "volt") || str_eq(n, "v") {
        Some(EquipmentField::Voltage)
    } else if str_eq(n, "wattage") || str_eq(n, "watts") || str_eq(n, "power") || str_eq(n, "w") {
        Some(EquipmentField::Wattage)
    } else if str_eq(n, "certifications") || str_eq(n, "certs") || str_eq(n, "platform") || str_eq(
        n,
        "platforms",
    ) {
        Some(EquipmentField::Certifications)
    } else if str_eq(n, "image") || str_eq(n, "image url") || str_eq(n, "imageurl") || str_eq(
        n,
        "picture",
    ) || str_eq(n, "photo") {
        Some(EquipmentField::ImageUrl)
    } else {
        None
    }
}

fn tier2(n: &str) -> (r: (Option<EquipmentField>, u32))
    ensures
        (r.0, r.1 as int) == tier2_suggestion(n@),
{
    if contains_str(n, "manufacturer") || contains_str(n, "mfg") || contains_str(n, "brand") {
        (Some(EquipmentField::Manufacturer), 70)
    } else if contains_str(n, "model") {
        (Some(EquipmentField::Model), 70)
    } else if contains_str(n, "sku") || contains_str(n, "part") || contains_str(n, "item") {
        (Some(EquipmentField::Sku), 70)
    } else if contains_str(n, "cost") || contains_str(n, "price") {
        if contains_str(n, "list") || contains_str(n, "msrp") || contains_str(n, "retail") {
            (Some(EquipmentField::Msrp), 60)
        } else {
            (Some(EquipmentField::Cost), 60)
        }
    } else if contains_str(n, "desc") {
        (Some(EquipmentField::Description), 70)
    } else {
        (None, 0)
    }
}

/// Suggests an equipment field for one header.
pub fn suggest_field_for_header(header: &str) -> (r: (Option<EquipmentField>, u32))
    ensures
        (r.0, r.1 as int) == spec_suggest(normalized_header(header@)),
{
    let lowered = lowercase(header);
    let norm = trim_str(lowered.as_str());
    match tier1(norm.as_str()) {
        Some(f) => (Some(f), 95),
        None => tier2(norm.as_str()),
    }
}

/// The suggestion owed to header `h` standing at column `i`.
pub open spec fn suggestion_for(i: int, h: Seq<char>) -> HeaderSuggestionView {
    HeaderSuggestionView {
        column_index: i,
        header: h,
        suggested_field: spec_suggest(normalized_header(h)).0,
        confidence: spec_suggest(normalized_header(h)).1,
    }
}

/// Detects header mappings based on common patterns: one suggestion per
/// header, in column order.  Never fails.
pub fn detect_header_mappings(parsed: &ParsedFile) -> (r: Result<
    Vec<HeaderSuggestion>,
    ImportError,
>)
    ensures
        r matches Ok(v) && v.deep_view() == Seq::new(
            parsed.headers.deep_view().len(),
            |i: int| suggestion_for(i, parsed.headers.deep_view()[i]),
        ),
{
    let ghost hs = parsed.headers.deep_view();
    let mut out: Vec<HeaderSuggestion> = Vec::new();
    for idx in 0..parsed.headers.len()
        invariant
            hs == parsed.headers.deep_view(),
            out.deep_view() =~= Seq::new(idx as nat, |i: int| suggestion_for(i, hs[i])),
    {
        proof {
            assert(hs[idx as int] == parsed.headers@[idx as int]@);
        }
        let header = &parsed.headers[idx];
        let (field, confidence) = suggest_field_for_header(header.as_str());
        let s = HeaderSuggestion {
            column_index: idx,
            header: header.clone(),
            suggested_field: field,
            confidence,
        };
        proof {
            assert(field == spec_suggest(normalized_header(hs[idx as int])).0);
            assert(confidence as int == spec_suggest(normalized_header(hs[idx as int])).1);
            assert(s@ =~~= suggestion_for(idx as int, hs[idx as int]));
        }
        let ghost prev = out.deep_view();
        out.push(s);
        proof {
            assert(out.deep_view() =~~= prev.push(s.deep_view()));
            assert(out.deep_view() =~~= Seq::new(
                (idx + 1) as nat,
                |i: int| suggestion_for(i, hs[i]),
            ));
        }
    }
    Ok(out)
}

/// A header matching an exact alias is suggested at confidence 95, whatever
/// tier 2 would say of it.
pub proof fn lemma_exact_alias_confidence(n: Seq<char>)
    ensures
        tier1_field(n) is Some ==> spec_suggest(n) == (tier1_field(n), 95int),
{
}

/// A header matched only by containment is suggested at confidence 60 or 70.
pub proof fn lemma_partial_match_confidence(n: Seq<char>)
    ensures
        tier1_field(n) is None && spec_suggest(n).0 is Some ==> (spec_suggest(n).1 == 60
            || spec_suggest(n).1 == 70),
{
}

/// A header is left without a suggested field exactly when its confidence
/// is 0.
pub proof fn lemma_unrecognized_header(n: Seq<char>)
    ensures
        spec_suggest(n).0 is None <==> spec_suggest(n).1 == 0,
{
}

} // verus!
