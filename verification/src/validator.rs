//! Row validation: checks each mapped row for the required identity fields
//! and for well-formed money values, and derives a per-row verdict.

use vstd::prelude::*;

use crate::mapper::{ColumnMapping, ColumnMappingView, EquipmentField};
use crate::model::{ImportError, ParsedRow, ParsedRowView};
use crate::numeric::{is_number_chars, spec_is_number, spec_strip_currency, strip_currency_chars};
use crate::text::{all_spaces, is_blank};

verus! {

/// Validation status for a row.
#[derive(Debug, Clone, Copy, PartialEq, Eq, Structural)]
pub enum ValidationStatus {
    Valid,
    Incomplete,
    Invalid,
}

/// How an existing equipment record was matched.  This pipeline always
/// reports `New`; the catalog-lookup collaborator downstream overwrites it.
#[derive(Debug, Clone, Copy, PartialEq, Eq, Structural)]
pub enum MatchType {
    New,
    UpdateSku,
    UpdateFallback,
}

/// Validation result for a single row.
#[derive(Debug, Clone)]
pub struct ValidationResult {
    /// Row number from source.
    pub row_number: usize,
    /// Validation status.
    pub status: ValidationStatus,
    /// Match type if updating existing equipment.
    pub match_type: Option<MatchType>,
    /// ID of existing equipment if matched.
    pub existing_equipment_id: Option<String>,
    /// Required fields the row leaves empty.
    pub missing_fields: Vec<EquipmentField>,
    /// Error messages.
    pub errors: Vec<String>,
}

/// Mathematical image of a [`ValidationResult`].
#[verifier::ext_equal]
pub ghost struct ValidationResultView {
    pub row_number: int,
    pub status: ValidationStatus,
    pub match_type: Option<MatchType>,
    pub existing_equipment_id: Option<Seq<char>>,
    pub missing_fields: Seq<EquipmentField>,
    pub errors: Seq<Seq<char>>,
}

impl View for ValidationResult {
    type V = ValidationResultView;

    open spec fn view(&self) -> ValidationResultView {
        ValidationResultView {
            row_number: self.row_number as int,
            status: self.status,
            match_type: self.match_type,
            existing_equipment_id: self.existing_equipment_id.deep_view(),
            missing_fields: self.missing_fields@,
            errors: self.errors.deep_view(),
        }
    }
}

impl DeepView for ValidationResult {
    type V = ValidationResultView;

    open spec fn deep_view(&self) -> ValidationResultView {
        self.view()
    }
}

/// The first mapping that targets `f`; duplicates beyond it are tolerated
/// and ignored.
pub open spec fn first_mapping_for(maps: Seq<ColumnMappingView>, f: EquipmentField) -> Option<
    ColumnMappingView,
>
    decreases maps.len(),
{
    if maps.len() == 0 {
        None
    } else if maps[0].target_field == Some(f) {
        Some(maps[0])
    } else {
        first_mapping_for(maps.drop_first(), f)
    }
}

/// A required field is present when its (first) mapping points at a column
/// the row has and the cell there is not blank.
pub open spec fn field_has_value(
    row: ParsedRowView,
    maps: Seq<ColumnMappingView>,
    f: EquipmentField,
) -> bool {
    match first_mapping_for(maps, f) {
        Some(m) => 0 <= m.source_column < row.cells.len() && !is_blank(
            row.cells[m.source_column],
        ),
        None => false,
    }
}

/// The required fields a row leaves empty, in the fixed order
/// manufacturer, model, SKU, cost.
pub open spec fn spec_missing_fields(row: ParsedRowView, maps: Seq<ColumnMappingView>) -> Seq<
    EquipmentField,
> {
    let s = Seq::<EquipmentField>::empty();
    let s = if !field_has_value(row, maps, EquipmentField::Manufacturer) {
        s.push(EquipmentField::Manufacturer)
    } else {
        s
    };
    let s = if !field_has_value(row, maps, EquipmentField::Model) {
        s.push(EquipmentField::Model)
    } else {
        s
    };
    let s = if !field_has_value(row, maps, EquipmentField::Sku) {
        s.push(EquipmentField::Sku)
    } else {
        s
    };
    if !field_has_value(row, maps, EquipmentField::Cost) {
        s.push(EquipmentField::Cost)
    } else {
        s
    }
}

/// The complaint a money field earns: after stripping `$`, `,` and spaces,
/// a non-empty remainder must satisfy the number grammar, else the message
/// names the raw value.
pub open spec fn numeric_error_for(
    row: ParsedRowView,
    maps: Seq<ColumnMappingView>,
    f: EquipmentField,
    label: Seq<char>,
) -> Option<Seq<char>> {
    match first_mapping_for(maps, f) {
        Some(m) => {
            if 0 <= m.source_column < row.cells.len() {
                let raw = row.cells[m.source_column];
                let cleaned = spec_strip_currency(raw);
                if cleaned.len() > 0 && !spec_is_number(cleaned) {
                    Some(label + raw + "'"@)
                } else {
                    None
                }
            } else {
                None
            }
        },
        None => None,
    }
}

/// The row's error list: a cost complaint, then an MSRP complaint, each
/// only when earned.
pub open spec fn spec_errors(row: ParsedRowView, maps: Seq<ColumnMappingView>) -> Seq<Seq<char>> {
    let e = Seq::<Seq<char>>::empty();
    let e = match numeric_error_for(row, maps, EquipmentField::Cost, "Invalid cost format: '"@) {
        Some(m) => e.push(m),
        None => e,
    };
    match numeric_error_for(row, maps, EquipmentField::Msrp, "Invalid MSRP format: '"@) {
        Some(m) => e.push(m),
        None => e,
    }
}

/// Status priority: any error makes the row invalid; otherwise any missing
/// field makes it incomplete; otherwise it is valid.
pub open spec fn spec_status(
    errors: Seq<Seq<char>>,
    missing: Seq<EquipmentField>,
) -> ValidationStatus {
    if errors.len() > 0 {
        ValidationStatus::Invalid
    } else if missing.len() > 0 {
        ValidationStatus::Incomplete
    } else {
        ValidationStatus::Valid
    }
}

/// The verdict owed to a row under a mapping.
pub open spec fn validate_row_spec(
    row: ParsedRowView,
    maps: Seq<ColumnMappingView>,
) -> ValidationResultView {
    ValidationResultView {
        row_number: row.row_number,
        status: spec_status(spec_errors(row, maps), spec_missing_fields(row, maps)),
        match_type: Some(MatchType::New),
        existing_equipment_id: None,
        missing_fields: spec_missing_fields(row, maps),
        errors: spec_errors(row, maps),
    }
}

/// Scanning past non-matching mappings does not change the first match.
proof fn lemma_first_mapping_skip(maps: Seq<ColumnMappingView>, f: EquipmentField, i: int)
    requires
        0 <= i <= maps.len(),
        forall|k: int| 0 <= k < i ==> #[trigger] maps[k].target_field != Some(f),
    ensures
        first_mapping_for(maps, f) == first_mapping_for(
            maps.subrange(i, maps.len() as int),
            f,
        ),
    decreases i,
{
    if i == 0 {
        assert(maps.subrange(0, maps.len() as int) =~= maps);
    } else {
        assert(maps.len() > 0);
        assert(maps[0].target_field != Some(f));
        let rest = maps.subrange(1, maps.len() as int);
        assert(maps.drop_first() =~= rest);
        assert(first_mapping_for(maps, f) == first_mapping_for(rest, f));
        assert(forall|k: int| 0 <= k < i - 1 ==> #[trigger] rest[k].target_field != Some(f));
        lemma_first_mapping_skip(rest, f, i - 1);
        assert(rest.subrange(i - 1, rest.len() as int) =~= maps.subrange(i, maps.len() as int));
        assert(first_mapping_for(rest, f) == first_mapping_for(
            maps.subrange(i, maps.len() as int),
            f,
        ));
    }
}

/// Index of the first mapping that targets `f`.
fn find_mapping(mappings: &Vec<ColumnMapping>, f: EquipmentField) -> (r: Option<usize>)
    ensures
        match r {
            Some(i) => i < mappings.len() && first_mapping_for(mappings.deep_view(), f) == Some(
                mappings.deep_view()[i as int],
            ),
            None => first_mapping_for(mappings.deep_view(), f) is None,
        },
{
    let ghost maps = mappings.deep_view();
    for i in 0..mappings.len()
        invariant
            maps == mappings.deep_view(),
            forall|k: int| 0 <= k < i ==> #[trigger] maps[k].target_field != Some(f),
    {
        proof {
            assert(maps[i as int] == mappings@[i as int]@);
        }
        let hit = match mappings[i].target_field {
            Some(g) => g == f,
            None => false,
        };
        if hit {
            proof {
                lemma_first_mapping_skip(maps, f, i as int);
                assert(maps.subrange(i as int, maps.len() as int)[0] == maps[i as int]);
            }
            return Some(i);
        }
    }
    proof {
        lemma_first_mapping_skip(maps, f, maps.len() as int);
    }
    None
}

/// Whether the row supplies a value for `f`.
fn field_present(row: &ParsedRow, mappings: &Vec<ColumnMapping>, f: EquipmentField) -> (b: bool)
    ensures
        b == field_has_value(row@, mappings.deep_view(), f),
{
    match find_mapping(mappings, f) {
        Some(i) => {
            let col = mappings[i].source_column;
            if col < row.cells.len() {
                proof {
                    assert(row@.cells[col as int] == row.cells@[col as int]@);
                }
                !all_spaces(row.cells[col].as_str())
            } else {
                false
            }
        },
        None => false,
    }
}

/// The money-format complaint for `f`, if one is earned.
fn numeric_error(
    row: &ParsedRow,
    mappings: &Vec<ColumnMapping>,
    f: EquipmentField,
    label: &str,
) -> (r: Option<String>)
    ensures
        r.deep_view() == numeric_error_for(row@, mappings.deep_view(), f, label@),
{
    match find_mapping(mappings, f) {
        Some(i) => {
            let col = mappings[i].source_column;
            if col < row.cells.len() {
                proof {
                    assert(row@.cells[col as int] == row.cells@[col as int]@);
                }
                let raw = &row.cells[col];
                let cleaned = strip_currency_chars(raw.as_str());
                if cleaned.len() > 0 && !is_number_chars(&cleaned) {
                    let mut m = String::from_str(label);
                    m.append(raw.as_str());
                    m.append("'");
                    Some(m)
                } else {
                    None
                }
            } else {
                None
            }
        },
        None => None,
    }
}

/// Validates a single row against the column mapping.
pub fn validate_single_row(row: &ParsedRow, mappings: &Vec<ColumnMapping>) -> (r: ValidationResult)
    ensures
        r@ == validate_row_spec(row@, mappings.deep_view()),
{
    let ghost maps = mappings.deep_view();
    let mut missing_fields: Vec<EquipmentField> = Vec::new();
    if !field_present(row, mappings, EquipmentField::Manufacturer) {
        missing_fields.push(EquipmentField::Manufacturer);
    }
    if !field_present(row, mappings, EquipmentField::Model) {
        missing_fields.push(EquipmentField::Model);
    }
    if !field_present(row, mappings, EquipmentField::Sku) {
        missing_fields.push(EquipmentField::Sku);
    }
    if !field_present(row, mappings, EquipmentField::Cost) {
        missing_fields.push(EquipmentField::Cost);
    }
    proof {
        assert(missing_fields@ =~= spec_missing_fields(row@, maps));
    }
    let mut errors: Vec<String> = Vec::new();
    match numeric_error(row, mappings, EquipmentField::Cost, "Invalid cost format: '") {
        Some(m) => errors.push(m),
        None => {},
    }
    match numeric_error(row, mappings, EquipmentField::Msrp, "Invalid MSRP format: '") {
        Some(m) => errors.push(m),
        None => {},
    }
    proof {
        assert(errors.deep_view() =~= spec_errors(row@, maps));
    }
    let status = if errors.len() > 0 {
        ValidationStatus::Invalid
    } else if missing_fields.len() > 0 {
        ValidationStatus::Incomplete
    } else {
        ValidationStatus::Valid
    };
    let r = ValidationResult {
        row_number: row.row_number,
        status,
        match_type: Some(MatchType::New),
        existing_equipment_id: None,
        missing_fields,
        errors,
    };
    proof {
        assert(r@ =~~= validate_row_spec(row@, maps));
    }
    r
}

/// Validates rows against mappings: one verdict per row, in order.  Never
/// fails as a whole.
pub fn validate_rows(rows: &Vec<ParsedRow>, mappings: &Vec<ColumnMapping>) -> (r: Result<
    Vec<ValidationResult>,
    ImportError,
>)
    ensures
        r matches Ok(v) && v.deep_view() == Seq::new(
            rows.deep_view().len(),
            |i: int| validate_row_spec(rows.deep_view()[i], mappings.deep_view()),
        ),
{
    let ghost rs = rows.deep_view();
    let ghost maps = mappings.deep_view();
    let mut out: Vec<ValidationResult> = Vec::new();
    for idx in 0..rows.len()
        invariant
            rs == rows.deep_view(),
            maps == mappings.deep_view(),
            out.deep_view() =~~= Seq::new(idx as nat, |i: int| validate_row_spec(rs[i], maps)),
    {
        proof {
            assert(rs[idx as int] == rows@[idx as int]@);
        }
        let v = validate_single_row(&rows[idx], mappings);
        let ghost prev = out.deep_view();
        out.push(v);
        proof {
            assert(out.deep_view() =~~= prev.push(v.deep_view()));
            assert(out.deep_view() =~~= Seq::new(
                (idx + 1) as nat,
                |i: int| validate_row_spec(rs[i], maps),
            ));
        }
    }
    Ok(out)
}

/// The status priority law: an error makes the verdict invalid whatever the
/// missing fields say; with no errors, the verdict is incomplete exactly
/// when a required field is missing, and valid otherwise.
pub proof fn lemma_status_priority(row: ParsedRowView, maps: Seq<ColumnMappingView>)
    ensures
        ({
            let r = validate_row_spec(row, maps);
            &&& (r.errors.len() > 0 ==> r.status is Invalid)
            &&& (r.errors.len() == 0 ==> (r.status is Incomplete <==> r.missing_fields.len() > 0))
            &&& (r.errors.len() == 0 && r.missing_fields.len() == 0 ==> r.status is Valid)
        }),
{
}

} // verus!
