use timesheet_reshape::cell::Cell;
use timesheet_reshape::column_map::{BLOCK_BASE, DAY_COUNT};
use timesheet_reshape::extract::extract_records;
use timesheet_reshape::record::DailyRecord;
use timesheet_reshape::render::{
    header_cells, output_format, record_cells, render_sheet, COLUMN_COUNT, HOURS_COLUMN,
};

fn sample_record(day: &str, hundredths: i64) -> DailyRecord {
    DailyRecord {
        employee_id: 100100,
        namekey: "JDOE".to_string(),
        full_name: "Jane Doe".to_string(),
        emp_type_code: "T".to_string(),
        building: "B1".to_string(),
        yoe_hrs: 0,
        yoe_rate: 0,
        date_worked: day.to_string(),
        total_hours: hundredths,
        work_description: "Empty Description".to_string(),
    }
}

#[test]
fn header_labels_in_declaration_order() {
    let header = header_cells();
    let labels: Vec<&str> = header
        .iter()
        .map(|c| match c {
            Cell::Text(s) => s.as_str(),
            _ => panic!("header cells must be text"),
        })
        .collect();
    assert_eq!(
        labels,
        vec![
            "Emp ID",
            "Namekey",
            "Full Name",
            "Emp Type Code",
            "Bld",
            "YOE Hrs",
            "YOE Rate",
            "Date Worked",
            "Total Hours",
            "Work Description",
        ]
    );
}

#[test]
fn record_row_in_declaration_order() {
    let r = sample_record("2023-02-01", 850);
    let cells = record_cells(&r);
    assert_eq!(cells.len(), COLUMN_COUNT);
    assert_eq!(cells[0], Cell::Number(100100));
    assert_eq!(cells[1], Cell::Text("JDOE".to_string()));
    assert_eq!(cells[2], Cell::Text("Jane Doe".to_string()));
    assert_eq!(cells[3], Cell::Text("T".to_string()));
    assert_eq!(cells[4], Cell::Text("B1".to_string()));
    assert_eq!(cells[5], Cell::Number(0));
    assert_eq!(cells[6], Cell::Number(0));
    assert_eq!(cells[7], Cell::Text("2023-02-01".to_string()));
    assert_eq!(cells[8], Cell::Number(850));
    assert_eq!(cells[9], Cell::Text("Empty Description".to_string()));
}

#[test]
fn three_records_make_four_rows() {
    let records = vec![
        sample_record("d1", 100),
        sample_record("d2", 200),
        sample_record("d3", 300),
    ];
    let grid = render_sheet(&records);
    assert_eq!(grid.len(), 4);
    assert_eq!(grid[1][7], Cell::Text("d1".to_string()));
    assert_eq!(grid[2][7], Cell::Text("d2".to_string()));
    assert_eq!(grid[3][7], Cell::Text("d3".to_string()));
    // The duration column gets a fixed two-decimal numeric format.
    let format = output_format();
    assert_eq!(format.hours_column, HOURS_COLUMN);
    assert_eq!(format.hours_number_format, "0.00");
}

#[test]
fn no_records_make_header_only_sheet() {
    let grid = render_sheet(&Vec::new());
    assert_eq!(grid.len(), 1);
    assert_eq!(grid[0].len(), COLUMN_COUNT);
}

#[test]
fn header_style_is_fixed() {
    let format = output_format();
    assert!(format.header.thin_bottom_border);
    assert!(format.header.thin_right_border);
    assert!(format.header.center_horizontally);
    assert_eq!(format.header.background_rgb, 0xC0C0C0);
}

#[test]
fn dateless_only_row_yields_header_only_sheet() {
    // A single data row whose 15 date cells are all empty emits nothing,
    // so the rendered sheet holds only the header row.
    let width = BLOCK_BASE + 4 * DAY_COUNT;
    let header: Vec<Cell> = (0..width).map(|_| Cell::Text("h".to_string())).collect();
    let mut row = vec![
        Cell::Number(100100),
        Cell::Text("JDOE".to_string()),
        Cell::Text("Jane Doe".to_string()),
        Cell::Text("T".to_string()),
        Cell::Text("B1".to_string()),
        Cell::Number(0),
        Cell::Number(0),
    ];
    while row.len() < width {
        row.push(Cell::Empty);
    }
    let records = extract_records(&vec![header, row]).unwrap();
    assert_eq!(records.len(), 0);
    let grid = render_sheet(&records);
    assert_eq!(grid.len(), 1);
}

#[test]
fn rendering_is_deterministic() {
    let records = vec![sample_record("d1", 25), sample_record("d2", 50)];
    assert_eq!(render_sheet(&records), render_sheet(&records));
}
