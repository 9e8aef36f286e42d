use timesheet_reshape::cell::Cell;
use timesheet_reshape::column_map::{BLOCK_BASE, DAY_COUNT};
use timesheet_reshape::extract::{extract_records, extract_row, ExtractError, FieldName};
use timesheet_reshape::record::DailyRecord;

/// A full-width row with the seven fixed fields filled and every day cell
/// empty. Numeric values are in hundredths: 1001.0 is 100100.
fn base_row() -> Vec<Cell> {
    let mut row = vec![
        Cell::Number(100100),
        Cell::Text("JDOE".to_string()),
        Cell::Text("Jane Doe".to_string()),
        Cell::Text("T".to_string()),
        Cell::Text("B1".to_string()),
        Cell::Number(0),
        Cell::Number(0),
    ];
    while row.len() < BLOCK_BASE + 4 * DAY_COUNT {
        row.push(Cell::Empty);
    }
    row
}

fn set_minutes(row: &mut Vec<Cell>, block: usize, v: i64) {
    row[BLOCK_BASE + block] = Cell::Number(v);
}

fn set_hours(row: &mut Vec<Cell>, block: usize, v: i64) {
    row[BLOCK_BASE + block + DAY_COUNT] = Cell::Number(v);
}

fn set_date(row: &mut Vec<Cell>, block: usize, v: &str) {
    row[BLOCK_BASE + block + 2 * DAY_COUNT] = Cell::Text(v.to_string());
}

fn set_description(row: &mut Vec<Cell>, block: usize, v: &str) {
    row[BLOCK_BASE + block + 3 * DAY_COUNT] = Cell::Text(v.to_string());
}

fn header_row() -> Vec<Cell> {
    let mut row = Vec::new();
    while row.len() < BLOCK_BASE + 4 * DAY_COUNT {
        row.push(Cell::Text("header".to_string()));
    }
    row
}

#[test]
fn one_record_with_defaults() {
    // Day position 0 (physical block 0): a date and hours 8.0, minutes and
    // description absent.
    let mut row = base_row();
    set_date(&mut row, 0, "2023-02-01");
    set_hours(&mut row, 0, 800);
    let recs = extract_row(&row).unwrap();
    assert_eq!(recs.len(), 1);
    let r = &recs[0];
    assert_eq!(r.employee_id, 100100);
    assert_eq!(r.namekey, "JDOE");
    assert_eq!(r.full_name, "Jane Doe");
    assert_eq!(r.emp_type_code, "T");
    assert_eq!(r.building, "B1");
    assert_eq!(r.yoe_hrs, 0);
    assert_eq!(r.yoe_rate, 0);
    assert_eq!(r.date_worked, "2023-02-01");
    assert_eq!(r.total_hours, 800);
    assert_eq!(r.work_description, "Empty Description");
}

#[test]
fn hours_without_date_emit_nothing() {
    // Day position 1 has hours 4.0 but no date cell: no record for it.
    let mut row = base_row();
    set_date(&mut row, 0, "2023-02-01");
    set_hours(&mut row, 0, 800);
    set_hours(&mut row, 1, 400);
    let recs = extract_row(&row).unwrap();
    assert_eq!(recs.len(), 1);
    assert_eq!(recs[0].date_worked, "2023-02-01");
}

#[test]
fn record_count_equals_dated_positions() {
    let mut row = base_row();
    set_date(&mut row, 0, "d0");
    set_date(&mut row, 5, "d5");
    set_date(&mut row, 14, "d14");
    let recs = extract_row(&row).unwrap();
    assert_eq!(recs.len(), 3);
}

#[test]
fn all_dates_empty_emits_nothing() {
    let mut row = base_row();
    set_minutes(&mut row, 3, 100);
    set_hours(&mut row, 7, 200);
    set_description(&mut row, 9, "idle");
    let recs = extract_row(&row).unwrap();
    assert_eq!(recs.len(), 0);
}

#[test]
fn total_hours_sums_minutes_and_hours() {
    let mut row = base_row();
    set_date(&mut row, 0, "d0");
    set_minutes(&mut row, 0, 50);
    set_hours(&mut row, 0, 800);
    set_date(&mut row, 1, "d1");
    let recs = extract_row(&row).unwrap();
    assert_eq!(recs.len(), 2);
    assert_eq!(recs[0].total_hours, 850);
    // Both components absent: the sum is 0.
    assert_eq!(recs[1].total_hours, 0);
}

#[test]
fn denormalized_fields_identical_across_records() {
    let mut row = base_row();
    row[0] = Cell::Number(4200);
    row[5] = Cell::Number(1500);
    row[6] = Cell::Number(2500);
    set_date(&mut row, 2, "d2");
    set_date(&mut row, 11, "d11");
    set_date(&mut row, 14, "d14");
    let recs = extract_row(&row).unwrap();
    assert_eq!(recs.len(), 3);
    for r in &recs {
        assert_eq!(r.employee_id, 4200);
        assert_eq!(r.namekey, recs[0].namekey);
        assert_eq!(r.full_name, recs[0].full_name);
        assert_eq!(r.emp_type_code, recs[0].emp_type_code);
        assert_eq!(r.building, recs[0].building);
        assert_eq!(r.yoe_hrs, 1500);
        assert_eq!(r.yoe_rate, 2500);
    }
}

#[test]
fn emission_follows_declared_permutation() {
    // Physical blocks 2 and 10 both carry dates. The declared permutation
    // emits block 10 at position 2 but block 2 only at position 7, so the
    // block-10 record must come first even though block 2 is physically
    // earlier in the row.
    let mut row = base_row();
    set_date(&mut row, 2, "block-two");
    set_date(&mut row, 10, "block-ten");
    let recs = extract_row(&row).unwrap();
    assert_eq!(recs.len(), 2);
    assert_eq!(recs[0].date_worked, "block-ten");
    assert_eq!(recs[1].date_worked, "block-two");
}

#[test]
fn full_permutation_order() {
    // One date per physical block, named after the block: the emitted order
    // must spell out the declared permutation.
    let mut row = base_row();
    for b in 0..DAY_COUNT {
        set_date(&mut row, b, &format!("b{}", b));
    }
    let recs = extract_row(&row).unwrap();
    let order: Vec<String> = recs.iter().map(|r| r.date_worked.clone()).collect();
    let expected = vec![
        "b0", "b1", "b10", "b11", "b12", "b13", "b14", "b2", "b3", "b4", "b5", "b6", "b7", "b8",
        "b9",
    ];
    assert_eq!(order, expected);
}

#[test]
fn short_row_fails() {
    let row = vec![
        Cell::Number(100100),
        Cell::Text("JDOE".to_string()),
        Cell::Text("Jane Doe".to_string()),
        Cell::Text("T".to_string()),
        Cell::Text("B1".to_string()),
        Cell::Number(0),
    ];
    assert_eq!(extract_row(&row), Err(ExtractError::RowTooShort));
    assert_eq!(
        ExtractError::RowTooShort.message(),
        "row has fewer than 7 leading cells"
    );
}

#[test]
fn textual_employee_id_fails() {
    let mut row = base_row();
    row[0] = Cell::Text("1001".to_string());
    set_date(&mut row, 0, "2023-02-01");
    assert_eq!(
        extract_row(&row),
        Err(ExtractError::MissingField(FieldName::EmployeeId))
    );
    assert_eq!(FieldName::EmployeeId.label(), "employee_id");
    assert_eq!(
        ExtractError::MissingField(FieldName::EmployeeId).message(),
        "missing required field: employee_id"
    );
}

#[test]
fn numeric_namekey_fails() {
    let mut row = base_row();
    row[1] = Cell::Number(7);
    assert_eq!(
        extract_row(&row),
        Err(ExtractError::MissingField(FieldName::Namekey))
    );
}

#[test]
fn absent_yoe_rate_fails() {
    let mut row = base_row();
    row[6] = Cell::Empty;
    assert_eq!(
        extract_row(&row),
        Err(ExtractError::MissingField(FieldName::YoeRate))
    );
}

#[test]
fn first_missing_field_wins() {
    let mut row = base_row();
    row[2] = Cell::Empty;
    row[6] = Cell::Empty;
    assert_eq!(
        extract_row(&row),
        Err(ExtractError::MissingField(FieldName::FullName))
    );
}

#[test]
fn row_of_only_fixed_fields_emits_nothing() {
    // Day cells past the row's end read as empty; no record and no panic.
    let row: Vec<Cell> = base_row()[..7].to_vec();
    let recs = extract_row(&row).unwrap();
    assert_eq!(recs.len(), 0);
}

#[test]
fn sheet_skips_header_and_concatenates() {
    let mut row_a = base_row();
    set_date(&mut row_a, 0, "a0");
    set_date(&mut row_a, 1, "a1");
    let mut row_b = base_row();
    row_b[1] = Cell::Text("BSMITH".to_string());
    set_date(&mut row_b, 0, "b0");
    let sheet = vec![header_row(), row_a, row_b];
    let recs = extract_records(&sheet).unwrap();
    assert_eq!(recs.len(), 3);
    assert_eq!(recs[0].date_worked, "a0");
    assert_eq!(recs[0].namekey, "JDOE");
    assert_eq!(recs[1].date_worked, "a1");
    assert_eq!(recs[2].date_worked, "b0");
    assert_eq!(recs[2].namekey, "BSMITH");
}

#[test]
fn empty_sheet_and_header_only_sheet_are_fine() {
    let recs = extract_records(&Vec::new()).unwrap();
    assert_eq!(recs.len(), 0);
    let recs = extract_records(&vec![header_row()]).unwrap();
    assert_eq!(recs.len(), 0);
}

#[test]
fn bad_row_halts_whole_transform() {
    let mut good = base_row();
    set_date(&mut good, 0, "good");
    let short = vec![Cell::Number(1)];
    let sheet = vec![header_row(), good, short];
    assert_eq!(extract_records(&sheet), Err(ExtractError::RowTooShort));
}

#[test]
fn extraction_is_deterministic() {
    let mut row = base_row();
    set_date(&mut row, 0, "2023-02-01");
    set_minutes(&mut row, 0, 25);
    set_hours(&mut row, 0, 775);
    set_description(&mut row, 0, "grading");
    let sheet = vec![header_row(), row];
    let first: Vec<DailyRecord> = extract_records(&sheet).unwrap();
    let second: Vec<DailyRecord> = extract_records(&sheet).unwrap();
    assert_eq!(first, second);
}

#[test]
fn cell_accessors_are_typed() {
    assert_eq!(Cell::Number(5).as_number(), Some(5));
    assert_eq!(Cell::Number(5).as_text(), None);
    assert_eq!(
        Cell::Text("x".to_string()).as_text(),
        Some(&"x".to_string())
    );
    assert_eq!(Cell::Text("x".to_string()).as_number(), None);
    assert_eq!(Cell::Empty.as_number(), None);
    assert_eq!(Cell::Empty.as_text(), None);
}
