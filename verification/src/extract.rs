//! The record extractor: turns raw rows into normalized day-records.
//!
//! Each raw row must start with seven fixed, typed employee fields; a row
//! shorter than that, or one with a missing or mistyped fixed field, aborts
//! the whole transform. Each of the `DAY_COUNT` emission positions then
//! yields one record exactly when its date cell carries text; the minutes,
//! hours and description cells of that position are optional and default to
//! zero (or a placeholder text) when absent.

use vstd::prelude::*;

use crate::cell::Cell;
use crate::column_map::{
    date_col, desc_col, emission_order, hours_col, minutes_col, physical_block, BLOCK_BASE,
    DAY_COUNT, FIXED_FIELD_COUNT,
};
use crate::record::{records_view, DailyRecord, SpecRecord};

verus! {

/// The seven required fixed fields of a raw row, in their column order.
#[derive(Debug, Clone, Copy, PartialEq, Eq, Structural)]
pub enum FieldName {
    EmployeeId,
    Namekey,
    FullName,
    EmpTypeCode,
    Building,
    YoeHrs,
    YoeRate,
}

/// Why extraction of a row failed. Any such failure is fatal to the whole
/// transform: no partial row and no partial sheet is ever produced.
#[derive(Debug, Clone, Copy, PartialEq, Eq, Structural)]
pub enum ExtractError {
    /// The row has fewer than `FIXED_FIELD_COUNT` leading cells.
    RowTooShort,
    /// A required fixed field is absent or has the wrong cell type.
    MissingField(FieldName),
}

impl FieldName {
    /// The input-schema name of the field.
    pub open spec fn spec_label(self) -> Seq<char> {
        match self {
            FieldName::EmployeeId => "employee_id"@,
            FieldName::Namekey => "namekey"@,
            FieldName::FullName => "full_name"@,
            FieldName::EmpTypeCode => "emp_type_code"@,
            FieldName::Building => "building"@,
            FieldName::YoeHrs => "yoe_hrs"@,
            FieldName::YoeRate => "yoe_rate"@,
        }
    }

    /// The input-schema name of the field, for error reporting.
    pub fn label(&self) -> (s: String)
        ensures
            s@ == self.spec_label(),
    {
        match self {
            FieldName::EmployeeId => "employee_id".to_owned(),
            FieldName::Namekey => "namekey".to_owned(),
            FieldName::FullName => "full_name".to_owned(),
            FieldName::EmpTypeCode => "emp_type_code".to_owned(),
            FieldName::Building => "building".to_owned(),
            FieldName::YoeHrs => "yoe_hrs".to_owned(),
            FieldName::YoeRate => "yoe_rate".to_owned(),
        }
    }
}

impl ExtractError {
    /// A human-readable description of the failure.
    pub open spec fn spec_message(self) -> Seq<char> {
        match self {
            ExtractError::RowTooShort => "row has fewer than 7 leading cells"@,
            ExtractError::MissingField(f) => "missing required field: "@ + f.spec_label(),
        }
    }

    /// A human-readable description of the failure.
    pub fn message(&self) -> (s: String)
        ensures
            s@ == self.spec_message(),
    {
        match self {
            ExtractError::RowTooShort => "row has fewer than 7 leading cells".to_owned(),
            ExtractError::MissingField(f) => {
                let mut s = "missing required field: ".to_owned();
                s.append(f.label().as_str());
                s
            },
        }
    }
}

/// The cell at column `i`, reading past the row's end as an empty cell.
pub open spec fn cell_at(row: Seq<Cell>, i: int) -> Cell {
    if 0 <= i < row.len() {
        row[i]
    } else {
        Cell::Empty
    }
}

/// The numeric value of a cell, taking a non-numeric cell as 0.
pub open spec fn numeric_or_zero(c: Cell) -> int {
    match c {
        Cell::Number(n) => n as int,
        _ => 0,
    }
}

/// The physical day-block read at emission position `pos`.
pub open spec fn slot_block(pos: int) -> int {
    emission_order()[pos]
}

/// The date cell of emission position `pos`.
pub open spec fn slot_date_cell(row: Seq<Cell>, pos: int) -> Cell {
    cell_at(row, date_col(slot_block(pos)))
}

/// Whether emission position `pos` yields a record: exactly when its date
/// cell carries text.
pub open spec fn slot_emits(row: Seq<Cell>, pos: int) -> bool {
    slot_date_cell(row, pos) is Text
}

/// The minutes component of emission position `pos`, 0 when absent.
pub open spec fn slot_minutes(row: Seq<Cell>, pos: int) -> int {
    numeric_or_zero(cell_at(row, minutes_col(slot_block(pos))))
}

/// The hours component of emission position `pos`, 0 when absent.
pub open spec fn slot_hours(row: Seq<Cell>, pos: int) -> int {
    numeric_or_zero(cell_at(row, hours_col(slot_block(pos))))
}

/// The total hours of emission position `pos`: minutes plus hours, each 0
/// when absent.
pub open spec fn slot_sum(row: Seq<Cell>, pos: int) -> int {
    slot_minutes(row, pos) + slot_hours(row, pos)
}

/// The description text used when the description cell carries none.
pub open spec fn spec_placeholder() -> Seq<char> {
    "Empty Description"@
}

/// The description text used when the description cell carries none.
pub fn placeholder() -> (s: String)
    ensures
        s@ == spec_placeholder(),
{
    "Empty Description".to_owned()
}

/// The work description of emission position `pos`: the description cell's
/// text, or the fixed placeholder when absent.
pub open spec fn slot_description(row: Seq<Cell>, pos: int) -> Seq<char> {
    match cell_at(row, desc_col(slot_block(pos))) {
        Cell::Text(s) => s@,
        _ => spec_placeholder(),
    }
}

/// The record emitted for emission position `pos` of `row`: the row's seven
/// fixed fields, denormalized onto the position's date, hours sum and
/// description. Meaningful when the fixed fields are present and the
/// position emits.
pub open spec fn spec_record(row: Seq<Cell>, pos: int) -> SpecRecord {
    SpecRecord {
        employee_id: cell_at(row, 0)->Number_0 as int,
        namekey: cell_at(row, 1)->Text_0@,
        full_name: cell_at(row, 2)->Text_0@,
        emp_type_code: cell_at(row, 3)->Text_0@,
        building: cell_at(row, 4)->Text_0@,
        yoe_hrs: cell_at(row, 5)->Number_0 as int,
        yoe_rate: cell_at(row, 6)->Number_0 as int,
        date_worked: slot_date_cell(row, pos)->Text_0@,
        total_hours: slot_sum(row, pos),
        work_description: slot_description(row, pos),
    }
}

/// Why extraction of `row` fails, or `None` if it succeeds: too short, or
/// else the first fixed field (in column order) that is absent or mistyped.
pub open spec fn spec_row_error(row: Seq<Cell>) -> Option<ExtractError> {
    if row.len() < FIXED_FIELD_COUNT {
        Some(ExtractError::RowTooShort)
    } else if !(cell_at(row, 0) is Number) {
        Some(ExtractError::MissingField(FieldName::EmployeeId))
    } else if !(cell_at(row, 1) is Text) {
        Some(ExtractError::MissingField(FieldName::Namekey))
    } else if !(cell_at(row, 2) is Text) {
        Some(ExtractError::MissingField(FieldName::FullName))
    } else if !(cell_at(row, 3) is Text) {
        Some(ExtractError::MissingField(FieldName::EmpTypeCode))
    } else if !(cell_at(row, 4) is Text) {
        Some(ExtractError::MissingField(FieldName::Building))
    } else if !(cell_at(row, 5) is Number) {
        Some(ExtractError::MissingField(FieldName::YoeHrs))
    } else if !(cell_at(row, 6) is Number) {
        Some(ExtractError::MissingField(FieldName::YoeRate))
    } else {
        None
    }
}

/// The records of the first `n` emission positions of `row`, in emission
/// order: one per position whose date cell carries text.
pub open spec fn records_upto(row: Seq<Cell>, n: int) -> Seq<SpecRecord>
    decreases n,
{
    if n <= 0 {
        Seq::empty()
    } else {
        records_upto(row, n - 1) + if slot_emits(row, n - 1) {
            seq![spec_record(row, n - 1)]
        } else {
            Seq::empty()
        }
    }
}

/// All records of `row`, in emission order.
pub open spec fn row_records(row: Seq<Cell>) -> Seq<SpecRecord> {
    records_upto(row, DAY_COUNT as int)
}

/// How many of the first `n` emission positions of `row` emit a record.
pub open spec fn emit_count(row: Seq<Cell>, n: int) -> int
    decreases n,
{
    if n <= 0 {
        0
    } else {
        emit_count(row, n - 1) + if slot_emits(row, n - 1) {
            1int
        } else {
            0int
        }
    }
}

/// Every per-position hours sum of `row` is representable in the record's
/// numeric field. A machine limit only: callers establish it by bounding
/// the numeric cells they build.
pub open spec fn row_sums_fit(row: Seq<Cell>) -> bool {
    forall|pos: int|
        0 <= pos < DAY_COUNT ==> i64::MIN <= #[trigger] slot_sum(row, pos) <= i64::MAX
}

/// Every numeric cell of `row` lies within `[-bound, bound]`.
pub open spec fn cells_bounded(row: Seq<Cell>, bound: int) -> bool {
    forall|i: int|
        0 <= i < row.len() ==> match #[trigger] row[i] {
            Cell::Number(n) => -bound <= n as int <= bound,
            _ => true,
        }
}

/// A row whose numeric cells all lie within half the representable range
/// has every per-position hours sum representable.
pub proof fn lemma_bounded_cells_sums_fit(row: Seq<Cell>, bound: int)
    requires
        0 <= bound <= i64::MAX as int / 2,
        cells_bounded(row, bound),
    ensures
        row_sums_fit(row),
{
    assert forall|pos: int| 0 <= pos < DAY_COUNT implies i64::MIN <= #[trigger] slot_sum(row, pos)
        <= i64::MAX by {
        assert(-bound <= slot_minutes(row, pos) <= bound);
        assert(-bound <= slot_hours(row, pos) <= bound);
    }
}

/// `row_sums_fit` for every non-header row of a sheet.
pub open spec fn sheet_sums_fit(rows: Seq<Seq<Cell>>) -> bool {
    forall|i: int| 1 <= i < rows.len() ==> row_sums_fit(#[trigger] rows[i])
}

/// The result of transforming the first `n` rows of a sheet, row 0 being the
/// header and skipped: the rows' records concatenated in row order, or the
/// first row error encountered.
pub open spec fn transform_upto(rows: Seq<Seq<Cell>>, n: int) -> Result<
    Seq<SpecRecord>,
    ExtractError,
>
    decreases n,
{
    if n <= 1 {
        Ok(Seq::empty())
    } else {
        match transform_upto(rows, n - 1) {
            Ok(acc) => match spec_row_error(rows[n - 1]) {
                Some(e) => Err(e),
                None => Ok(acc + row_records(rows[n - 1])),
            },
            Err(e) => Err(e),
        }
    }
}

/// The result of transforming a whole sheet (header row included, skipped).
pub open spec fn spec_transform(rows: Seq<Seq<Cell>>) -> Result<Seq<SpecRecord>, ExtractError> {
    transform_upto(rows, rows.len() as int)
}

/// The rows of a sheet as sequences of cells.
pub open spec fn sheet_view(rows: Seq<Vec<Cell>>) -> Seq<Seq<Cell>> {
    rows.map_values(|r: Vec<Cell>| r@)
}

/// The numeric value of the cell at column `i`, `None` for a text cell, an
/// empty cell, or a column past the row's end.
fn number_at(row: &Vec<Cell>, i: usize) -> (r: Option<i64>)
    ensures
        r == cell_at(row@, i as int).spec_number(),
{
    if i < row.len() {
        row[i].as_number()
    } else {
        None
    }
}

/// The text of the cell at column `i`, `None` for a numeric cell, an empty
/// cell, or a column past the row's end.
fn text_at(row: &Vec<Cell>, i: usize) -> (r: Option<String>)
    ensures
        r == cell_at(row@, i as int).spec_text(),
{
    if i < row.len() {
        match &row[i] {
            Cell::Text(s) => Some(s.clone()),
            _ => None,
        }
    } else {
        None
    }
}

/// Extracts the day-records of one raw row.
///
/// Fails with `RowTooShort` exactly when the row has fewer than
/// `FIXED_FIELD_COUNT` cells, and with `MissingField` exactly when one of
/// the seven fixed fields is absent or mistyped (reporting the first such
/// field in column order). Otherwise returns, in emission order, one record
/// per emission position whose date cell carries text.
#[verifier::loop_isolation(false)]
pub fn extract_row(row: &Vec<Cell>) -> (r: Result<Vec<DailyRecord>, ExtractError>)
    requires
        row_sums_fit(row@),
    ensures
        match r {
            Ok(recs) => spec_row_error(row@) is None && records_view(recs@) == row_records(row@),
            Err(e) => spec_row_error(row@) == Some(e),
        },
{
    if row.len() < FIXED_FIELD_COUNT {
        return Err(ExtractError::RowTooShort);
    }
    let employee_id: i64 = match row[0].as_number() {
        Some(v) => v,
        None => {
            return Err(ExtractError::MissingField(FieldName::EmployeeId));
        },
    };
    let namekey: String = match row[1].as_text() {
        Some(s) => s.clone(),
        None => {
            return Err(ExtractError::MissingField(FieldName::Namekey));
        },
    };
    let full_name: String = match row[2].as_text() {
        Some(s) => s.clone(),
        None => {
            return Err(ExtractError::MissingField(FieldName::FullName));
        },
    };
    let emp_type_code: String = match row[3].as_text() {
        Some(s) => s.clone(),
        None => {
            return Err(ExtractError::MissingField(FieldName::EmpTypeCode));
        },
    };
    let building: String = match row[4].as_text() {
        Some(s) => s.clone(),
        None => {
            return Err(ExtractError::MissingField(FieldName::Building));
        },
    };
    let yoe_hrs: i64 = match row[5].as_number() {
        Some(v) => v,
        None => {
            return Err(ExtractError::MissingField(FieldName::YoeHrs));
        },
    };
    let yoe_rate: i64 = match row[6].as_number() {
        Some(v) => v,
        None => {
            return Err(ExtractError::MissingField(FieldName::YoeRate));
        },
    };

    let mut recs: Vec<DailyRecord> = Vec::new();
    for pos in 0..DAY_COUNT
        invariant
            records_view(recs@) == records_upto(row@, pos as int),
    {
        let b = physical_block(pos);
        let date = text_at(row, BLOCK_BASE + b + 2 * DAY_COUNT);
        match date {
            None => {
                proof {
                    assert(!slot_emits(row@, pos as int));
                    assert(records_view(recs@) =~= records_upto(row@, pos as int + 1));
                }
            },
            Some(date_worked) => {
                let mins = number_at(row, BLOCK_BASE + b);
                let hours = number_at(row, BLOCK_BASE + b + DAY_COUNT);
                let desc = text_at(row, BLOCK_BASE + b + 3 * DAY_COUNT);
                let m: i64 = match mins {
                    Some(v) => v,
                    None => 0,
                };
                let h: i64 = match hours {
                    Some(v) => v,
                    None => 0,
                };
                proof {
                    assert(slot_minutes(row@, pos as int) == m as int);
                    assert(slot_hours(row@, pos as int) == h as int);
                    assert(i64::MIN <= slot_sum(row@, pos as int) <= i64::MAX);
                }
                let total_hours: i64 = m + h;
                let work_description: String = match desc {
                    Some(s) => s,
                    None => placeholder(),
                };
                let rec = DailyRecord {
                    employee_id,
                    namekey: namekey.clone(),
                    full_name: full_name.clone(),
                    emp_type_code: emp_type_code.clone(),
                    building: building.clone(),
                    yoe_hrs,
                    yoe_rate,
                    date_worked,
                    total_hours,
                    work_description,
                };
                proof {
                    assert(slot_emits(row@, pos as int));
                    assert(rec@ == spec_record(row@, pos as int));
                }
                recs.push(rec);
                proof {
                    assert(records_view(recs@) =~= records_upto(row@, pos as int + 1));
                }
            },
        }
    }
    Ok(recs)
}

/// Extracts the day-records of a whole sheet, row 0 being the header and
/// skipped.
///
/// Rows are processed independently, in sheet order; the first failing row
/// aborts the transform with its error, and no records are returned. On
/// success the result concatenates each row's records in row order.
#[verifier::loop_isolation(false)]
pub fn extract_records(sheet: &Vec<Vec<Cell>>) -> (r: Result<Vec<DailyRecord>, ExtractError>)
    requires
        sheet_sums_fit(sheet_view(sheet@)),
    ensures
        match r {
            Ok(recs) => spec_transform(sheet_view(sheet@)) == Ok::<Seq<SpecRecord>, ExtractError>(
                records_view(recs@),
            ),
            Err(e) => spec_transform(sheet_view(sheet@)) == Err::<Seq<SpecRecord>, ExtractError>(
                e,
            ),
        },
{
    let ghost rows = sheet_view(sheet@);
    let mut recs: Vec<DailyRecord> = Vec::new();
    proof {
        assert(records_view(recs@) =~= Seq::<SpecRecord>::empty());
    }
    let n = sheet.len();
    if n <= 1 {
        return Ok(recs);
    }
    let mut idx: usize = 1;
    while idx < n
        invariant
            1 <= idx <= n,
            transform_upto(rows, idx as int) == Ok::<Seq<SpecRecord>, ExtractError>(
                records_view(recs@),
            ),
        decreases n - idx,
    {
        proof {
            assert(rows[idx as int] == sheet@[idx as int]@);
        }
        match extract_row(&sheet[idx]) {
            Err(e) => {
                proof {
                    assert(transform_upto(rows, idx as int + 1) == Err::<
                        Seq<SpecRecord>,
                        ExtractError,
                    >(e));
                    lemma_transform_error_persists(rows, idx as int + 1, rows.len() as int);
                }
                return Err(e);
            },
            Ok(mut day_recs) => {
                let ghost old_recs = recs@;
                let ghost day = day_recs@;
                recs.append(&mut day_recs);
                proof {
                    assert(records_view(recs@) =~= records_view(old_recs) + records_view(day));
                    assert(transform_upto(rows, idx as int + 1) == Ok::<
                        Seq<SpecRecord>,
                        ExtractError,
                    >(records_view(recs@)));
                }
            },
        }
        idx += 1;
    }
    Ok(recs)
}

/// Once a row has failed, every longer prefix of the sheet fails with the
/// same error: a bad row halts the whole transform.
pub proof fn lemma_transform_error_persists(rows: Seq<Seq<Cell>>, n: int, m: int)
    requires
        2 <= n <= m,
        transform_upto(rows, n) is Err,
    ensures
        transform_upto(rows, m) == transform_upto(rows, n),
    decreases m - n,
{
    if m > n {
        lemma_transform_error_persists(rows, n, m - 1);
    }
}

proof fn lemma_records_upto_len(row: Seq<Cell>, n: int)
    requires
        0 <= n,
    ensures
        records_upto(row, n).len() == emit_count(row, n),
        0 <= emit_count(row, n) <= n,
    decreases n,
{
    if n > 0 {
        lemma_records_upto_len(row, n - 1);
    }
}

/// A row emits between 0 and `DAY_COUNT` records: exactly one per emission
/// position whose date cell carries text.
pub proof fn lemma_emitted_record_count(row: Seq<Cell>)
    ensures
        row_records(row).len() == emit_count(row, DAY_COUNT as int),
        0 <= row_records(row).len() <= DAY_COUNT,
{
    lemma_records_upto_len(row, DAY_COUNT as int);
}

proof fn lemma_records_upto_member(row: Seq<Cell>, n: int, k: int)
    requires
        0 <= k < records_upto(row, n).len(),
    ensures
        exists|pos: int|
            0 <= pos < n && slot_emits(row, pos) && records_upto(row, n)[k] == spec_record(
                row,
                pos,
            ),
    decreases n,
{
    let prev = records_upto(row, n - 1);
    if k < prev.len() {
        lemma_records_upto_member(row, n - 1, k);
        let pos = choose|pos: int|
            0 <= pos < n - 1 && slot_emits(row, pos) && prev[k] == spec_record(row, pos);
        assert(records_upto(row, n)[k] == prev[k]);
        assert(0 <= pos < n && slot_emits(row, pos) && records_upto(row, n)[k] == spec_record(
            row,
            pos,
        ));
    } else {
        assert(slot_emits(row, n - 1));
        assert(records_upto(row, n)[k] == spec_record(row, n - 1));
    }
}

/// Each record emitted from a row comes from some emission position whose
/// date cell carries text, and its `total_hours` is the sum of that
/// position's minutes and hours cells, each taken as 0 when absent.
pub proof fn lemma_total_hours_is_sum(row: Seq<Cell>, k: int)
    requires
        0 <= k < row_records(row).len(),
    ensures
        exists|pos: int|
            0 <= pos < DAY_COUNT && slot_emits(row, pos) && row_records(row)[k] == spec_record(
                row,
                pos,
            ) && row_records(row)[k].total_hours == slot_minutes(row, pos) + slot_hours(row, pos),
{
    lemma_records_upto_member(row, DAY_COUNT as int, k);
    let pos = choose|pos: int|
        0 <= pos < DAY_COUNT && slot_emits(row, pos) && records_upto(row, DAY_COUNT as int)[k]
            == spec_record(row, pos);
    assert(0 <= pos < DAY_COUNT && slot_emits(row, pos) && row_records(row)[k] == spec_record(
        row,
        pos,
    ) && row_records(row)[k].total_hours == slot_minutes(row, pos) + slot_hours(row, pos));
}

/// When both the minutes and the hours cell of a position are absent, the
/// record emitted there carries a `total_hours` of 0.
pub proof fn lemma_absent_components_sum_to_zero(row: Seq<Cell>, pos: int)
    requires
        0 <= pos < DAY_COUNT,
        cell_at(row, minutes_col(slot_block(pos))).spec_number() is None,
        cell_at(row, hours_col(slot_block(pos))).spec_number() is None,
    ensures
        spec_record(row, pos).total_hours == 0,
{
}

/// The seven denormalized fields are identical across every pair of records
/// emitted from the same row.
pub proof fn lemma_denormalized_fields_identical(row: Seq<Cell>, j: int, k: int)
    requires
        0 <= j < row_records(row).len(),
        0 <= k < row_records(row).len(),
    ensures
        row_records(row)[j].employee_id == row_records(row)[k].employee_id,
        row_records(row)[j].namekey == row_records(row)[k].namekey,
        row_records(row)[j].full_name == row_records(row)[k].full_name,
        row_records(row)[j].emp_type_code == row_records(row)[k].emp_type_code,
        row_records(row)[j].building == row_records(row)[k].building,
        row_records(row)[j].yoe_hrs == row_records(row)[k].yoe_hrs,
        row_records(row)[j].yoe_rate == row_records(row)[k].yoe_rate,
{
    lemma_records_upto_member(row, DAY_COUNT as int, j);
    lemma_records_upto_member(row, DAY_COUNT as int, k);
}

proof fn lemma_transform_upto_ok(rows: Seq<Seq<Cell>>, n: int)
    requires
        n <= rows.len(),
        forall|j: int| 1 <= j < n ==> spec_row_error(#[trigger] rows[j]) is None,
    ensures
        transform_upto(rows, n) is Ok,
    decreases n,
{
    if n > 1 {
        lemma_transform_upto_ok(rows, n - 1);
    }
}

/// A row shorter than the seven fixed fields, reached after only good rows,
/// halts the whole transform with `RowTooShort`: no records at all come out.
pub proof fn lemma_short_row_halts(rows: Seq<Seq<Cell>>, i: int)
    requires
        1 <= i < rows.len(),
        rows[i].len() < FIXED_FIELD_COUNT,
        forall|j: int| 1 <= j < i ==> spec_row_error(#[trigger] rows[j]) is None,
    ensures
        spec_transform(rows) == Err::<Seq<SpecRecord>, ExtractError>(ExtractError::RowTooShort),
{
    lemma_transform_upto_ok(rows, i);
    assert(spec_row_error(rows[i]) == Some(ExtractError::RowTooShort));
    assert(transform_upto(rows, i + 1) == Err::<Seq<SpecRecord>, ExtractError>(
        ExtractError::RowTooShort,
    ));
    lemma_transform_error_persists(rows, i + 1, rows.len() as int);
}

} // verus!
